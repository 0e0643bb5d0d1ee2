//! Rows decode into entities; rows of the wrong shape are refused.

use vf_planning::decode::{decode_keyed, decode_rows, FromRow};
use vf_planning::error::{DecodeError, Fault};
use vf_planning::model::{
    Action, Agent, AgentRelationship, AgentType, Commitment, InputOutput, Label, Plan, Process,
    ResourceSpecification, Unit,
};
use vf_planning::row::{Column, Row, Timestamp, Value};

fn text(name: &str, value: &str) -> Column {
    Column {
        name: name.to_string(),
        value: Value::Text(value.to_string()),
    }
}

fn integer(name: &str, value: i64) -> Column {
    Column {
        name: name.to_string(),
        value: Value::Integer(value),
    }
}

fn null(name: &str) -> Column {
    Column {
        name: name.to_string(),
        value: Value::Null,
    }
}

fn other(name: &str) -> Column {
    Column {
        name: name.to_string(),
        value: Value::Other,
    }
}

fn row(columns: Vec<Column>) -> Row {
    Row { columns }
}

fn failure(fault: Fault, column: &str) -> DecodeError {
    DecodeError {
        fault,
        column: column.to_string(),
    }
}

fn without(mut columns: Vec<Column>, name: &str) -> Row {
    columns.retain(|c| c.name != name);
    Row { columns }
}

fn with(mut columns: Vec<Column>, replacement: Column) -> Row {
    for column in columns.iter_mut() {
        if column.name == replacement.name {
            *column = replacement.clone();
        }
    }
    Row { columns }
}

fn full_agent() -> Vec<Column> {
    vec![
        text("id", "01ARZ3NDEKTSV4RRFFQ69G5FAV"),
        text("name", "Alice"),
        text("unique_name", "alice"),
        text("email", "alice@example.org"),
        text("agent_type", "Organization"),
        integer("inserted_at", 1_650_000_000_000),
    ]
}

fn full_commitment() -> Vec<Column> {
    vec![
        text("id", "c1"),
        text("description", "bring seeds"),
        integer("inserted_at", 42),
        text("process_id", "proc1"),
        text("action_id", "a1"),
        null("assigned_agent_id"),
        integer("quantity", 3),
        text("unit_id", "u1"),
        text("resource_specification_id", "r1"),
    ]
}

fn full_process() -> Vec<Column> {
    vec![
        text("id", "proc1"),
        text("title", "Design"),
        null("description"),
        integer("inserted_at", 10),
        integer("start_at", 20),
        text("plan_id", "plan1"),
    ]
}

#[test]
fn row_get_finds_the_first_column_of_a_name() {
    let r = row(vec![text("id", "first"), text("name", "n"), text("id", "second")]);
    assert_eq!(r.get("id"), Some(&Value::Text("first".to_string())));
    assert_eq!(r.get("name"), Some(&Value::Text("n".to_string())));
    assert_eq!(r.get("missing"), None);
    assert_eq!(row(vec![]).get("id"), None);
}

#[test]
fn row_get_tells_names_apart_by_every_character() {
    let r = row(vec![text("idx", "a"), text("ID", "b"), text("id", "c")]);
    assert_eq!(r.get("id"), Some(&Value::Text("c".to_string())));
    assert_eq!(r.get("i"), None);
}

#[test]
fn required_text_reads_text_only() {
    let r = row(vec![text("a", "x"), integer("b", 1), null("c"), other("d")]);
    assert_eq!(r.required_text("a"), Ok("x".to_string()));
    assert_eq!(r.required_text("b"), Err(failure(Fault::WrongType, "b")));
    assert_eq!(r.required_text("c"), Err(failure(Fault::WrongType, "c")));
    assert_eq!(r.required_text("d"), Err(failure(Fault::WrongType, "d")));
    assert_eq!(r.required_text("e"), Err(failure(Fault::MissingColumn, "e")));
}

#[test]
fn defaulted_text_is_empty_only_where_the_column_is_left_out() {
    let r = row(vec![text("a", "x"), null("c")]);
    assert_eq!(r.defaulted_text("a"), Ok("x".to_string()));
    assert_eq!(r.defaulted_text("e"), Ok(String::new()));
    assert_eq!(r.defaulted_text("c"), Err(failure(Fault::WrongType, "c")));
}

#[test]
fn nullable_text_takes_null_for_none() {
    let r = row(vec![text("a", "x"), null("c"), integer("n", 1)]);
    assert_eq!(r.required_nullable_text("a"), Ok(Some("x".to_string())));
    assert_eq!(r.required_nullable_text("c"), Ok(None));
    assert_eq!(
        r.required_nullable_text("n"),
        Err(failure(Fault::WrongType, "n"))
    );
    assert_eq!(
        r.required_nullable_text("e"),
        Err(failure(Fault::MissingColumn, "e"))
    );
    assert_eq!(r.defaulted_nullable_text("e"), Ok(None));
    assert_eq!(r.defaulted_nullable_text("c"), Ok(None));
    assert_eq!(r.defaulted_nullable_text("a"), Ok(Some("x".to_string())));
}

#[test]
fn timestamps_are_integers_of_milliseconds() {
    let r = row(vec![integer("at", 1_650_000_000_123), text("t", "2022-04-15"), null("n")]);
    assert_eq!(
        r.required_timestamp("at"),
        Ok(Timestamp {
            millis: 1_650_000_000_123
        })
    );
    assert_eq!(r.required_timestamp("t"), Err(failure(Fault::WrongType, "t")));
    assert_eq!(r.required_timestamp("n"), Err(failure(Fault::WrongType, "n")));
    assert_eq!(
        r.required_timestamp("e"),
        Err(failure(Fault::MissingColumn, "e"))
    );
    assert_eq!(r.defaulted_timestamp("e"), Ok(Timestamp { millis: 0 }));
    assert_eq!(r.defaulted_nullable_timestamp("e"), Ok(None));
    assert_eq!(r.defaulted_nullable_timestamp("n"), Ok(None));
    assert_eq!(
        r.defaulted_nullable_timestamp("at"),
        Ok(Some(Timestamp {
            millis: 1_650_000_000_123
        }))
    );
    assert_eq!(
        r.defaulted_nullable_timestamp("t"),
        Err(failure(Fault::WrongType, "t"))
    );
}

#[test]
fn counts_have_to_fit_thirty_two_bits() {
    let r = row(vec![
        integer("max", 2_147_483_647),
        integer("min", -2_147_483_648),
        integer("over", 2_147_483_648),
        integer("under", -2_147_483_649),
        text("t", "3"),
    ]);
    assert_eq!(r.required_count("max"), Ok(i32::MAX));
    assert_eq!(r.required_count("min"), Ok(i32::MIN));
    assert_eq!(r.required_count("over"), Err(failure(Fault::WrongType, "over")));
    assert_eq!(
        r.required_count("under"),
        Err(failure(Fault::WrongType, "under"))
    );
    assert_eq!(r.required_count("t"), Err(failure(Fault::WrongType, "t")));
    assert_eq!(r.required_count("e"), Err(failure(Fault::MissingColumn, "e")));
}

#[test]
fn value_conversions() {
    assert_eq!(Value::Text("x".to_string()).text(), Some("x".to_string()));
    assert_eq!(Value::Null.text(), None);
    assert_eq!(Value::Null.nullable_text(), Some(None));
    assert_eq!(Value::Integer(1).nullable_text(), None);
    assert_eq!(Value::Integer(7).timestamp(), Some(Timestamp { millis: 7 }));
    assert_eq!(Value::Other.timestamp(), None);
    assert_eq!(Value::Null.nullable_timestamp(), Some(None));
    assert_eq!(Value::Integer(-5).count(), Some(-5));
    assert_eq!(Value::Integer(i64::MAX).count(), None);
    assert_eq!(Value::Text("x".to_string()).clone(), Value::Text("x".to_string()));
}

#[test]
fn agent_from_a_full_row() {
    assert_eq!(
        Agent::from_row(&row(full_agent())),
        Ok(Agent {
            id: "01ARZ3NDEKTSV4RRFFQ69G5FAV".to_string(),
            name: "Alice".to_string(),
            unique_name: "alice".to_string(),
            email: Some("alice@example.org".to_string()),
            agent_type: AgentType::Organization,
            inserted_at: Timestamp {
                millis: 1_650_000_000_000
            },
        })
    );
}

#[test]
fn agent_from_a_join_row_keeps_zero_values_for_what_is_left_out() {
    let r = row(vec![
        text("process_id", "proc1"),
        text("id", "a1"),
        text("name", "Bob"),
        text("unique_name", "bob"),
        text("agent_type", "Project"),
    ]);
    assert_eq!(
        Agent::from_row(&r),
        Ok(Agent {
            id: "a1".to_string(),
            name: "Bob".to_string(),
            unique_name: "bob".to_string(),
            email: None,
            agent_type: AgentType::Project,
            inserted_at: Timestamp { millis: 0 },
        })
    );
}

#[test]
fn agent_requires_id_name_unique_name_and_type() {
    assert_eq!(
        Agent::from_row(&without(full_agent(), "id")),
        Err(failure(Fault::MissingColumn, "id"))
    );
    assert_eq!(
        Agent::from_row(&without(full_agent(), "name")),
        Err(failure(Fault::MissingColumn, "name"))
    );
    assert_eq!(
        Agent::from_row(&without(full_agent(), "unique_name")),
        Err(failure(Fault::MissingColumn, "unique_name"))
    );
    assert_eq!(
        Agent::from_row(&without(full_agent(), "agent_type")),
        Err(failure(Fault::MissingColumn, "agent_type"))
    );
    assert_eq!(
        Agent::from_row(&row(vec![
            text("id", "a1"),
            text("name", "Bob"),
            text("unique_name", "bob"),
        ])),
        Err(failure(Fault::MissingColumn, "agent_type"))
    );
    assert!(Agent::from_row(&without(full_agent(), "email")).is_ok());
    assert!(Agent::from_row(&without(full_agent(), "inserted_at")).is_ok());
}

#[test]
fn agent_reports_the_first_field_that_fails() {
    let r = row(vec![integer("name", 1), text("agent_type", "Robot")]);
    assert_eq!(
        Agent::from_row(&r),
        Err(failure(Fault::MissingColumn, "id"))
    );
    let r = row(vec![
        text("id", "a1"),
        integer("name", 1),
        text("agent_type", "Robot"),
    ]);
    assert_eq!(Agent::from_row(&r), Err(failure(Fault::WrongType, "name")));
}

#[test]
fn agent_type_has_to_name_a_variant() {
    for (stored, kind) in [
        ("Individual", AgentType::Individual),
        ("Organization", AgentType::Organization),
        ("Project", AgentType::Project),
    ] {
        let agent = Agent::from_row(&with(full_agent(), text("agent_type", stored))).unwrap();
        assert_eq!(agent.agent_type, kind);
        assert_eq!(kind.as_text(), stored);
        assert_eq!(AgentType::from_text(stored), Some(kind));
    }
    assert_eq!(
        Agent::from_row(&with(full_agent(), text("agent_type", "individual"))),
        Err(failure(Fault::UnknownVariant, "agent_type"))
    );
    assert_eq!(
        Agent::from_row(&with(full_agent(), text("agent_type", ""))),
        Err(failure(Fault::UnknownVariant, "agent_type"))
    );
    assert_eq!(
        Agent::from_row(&with(full_agent(), integer("agent_type", 0))),
        Err(failure(Fault::WrongType, "agent_type"))
    );
    assert_eq!(
        Agent::from_row(&with(full_agent(), null("agent_type"))),
        Err(failure(Fault::WrongType, "agent_type"))
    );
    assert_eq!(AgentType::from_text("Robot"), None);
    assert_eq!(AgentType::default(), AgentType::Individual);
}

#[test]
fn agent_email_may_be_null_but_not_a_number() {
    let agent = Agent::from_row(&with(full_agent(), null("email"))).unwrap();
    assert_eq!(agent.email, None);
    assert_eq!(
        Agent::from_row(&with(full_agent(), integer("email", 1))),
        Err(failure(Fault::WrongType, "email"))
    );
}

#[test]
fn label_from_a_join_row_and_from_a_full_row() {
    let join = row(vec![
        text("id", "l1"),
        text("name", "Urgent"),
        text("color", "#ff0000"),
        text("process_id", "proc1"),
    ]);
    assert_eq!(
        Label::from_row(&join),
        Ok(Label {
            id: "l1".to_string(),
            name: "Urgent".to_string(),
            unique_name: String::new(),
            color: "#ff0000".to_string(),
            inserted_at: Timestamp { millis: 0 },
        })
    );
    let full = row(vec![
        text("id", "l1"),
        text("name", "Urgent"),
        text("unique_name", "urgent"),
        text("color", "#ff0000"),
        integer("inserted_at", 5),
    ]);
    assert_eq!(
        Label::from_row(&full),
        Ok(Label {
            id: "l1".to_string(),
            name: "Urgent".to_string(),
            unique_name: "urgent".to_string(),
            color: "#ff0000".to_string(),
            inserted_at: Timestamp { millis: 5 },
        })
    );
    assert_eq!(
        Label::from_row(&row(vec![text("id", "l1"), text("name", "Urgent")])),
        Err(failure(Fault::MissingColumn, "color"))
    );
}

#[test]
fn action_reads_its_direction() {
    let columns = vec![
        text("id", "a1"),
        text("name", "consume"),
        text("input_output", "Output"),
        integer("inserted_at", 1),
    ];
    assert_eq!(
        Action::from_row(&row(columns.clone())),
        Ok(Action {
            id: "a1".to_string(),
            name: "consume".to_string(),
            input_output: InputOutput::Output,
            inserted_at: Timestamp { millis: 1 },
        })
    );
    assert_eq!(
        Action::from_row(&with(columns.clone(), text("input_output", "Sideways"))),
        Err(failure(Fault::UnknownVariant, "input_output"))
    );
    assert_eq!(
        Action::from_row(&with(columns.clone(), null("input_output"))),
        Err(failure(Fault::WrongType, "input_output"))
    );
    assert_eq!(
        Action::from_row(&without(columns.clone(), "input_output")),
        Err(failure(Fault::MissingColumn, "input_output"))
    );
    assert_eq!(
        Action::from_row(&without(columns, "inserted_at")),
        Err(failure(Fault::MissingColumn, "inserted_at"))
    );
    assert_eq!(InputOutput::default(), InputOutput::Input);
    assert_eq!(InputOutput::Input.as_text(), "Input");
    assert_eq!(InputOutput::from_text("Input"), Some(InputOutput::Input));
    assert_eq!(InputOutput::from_text("input"), None);
}

#[test]
fn unit_and_resource_specification() {
    assert_eq!(
        Unit::from_row(&row(vec![
            text("id", "u1"),
            text("label", "kg"),
            integer("inserted_at", 9)
        ])),
        Ok(Unit {
            id: "u1".to_string(),
            label: "kg".to_string(),
            inserted_at: Timestamp { millis: 9 },
        })
    );
    assert_eq!(
        Unit::from_row(&row(vec![text("id", "u1"), integer("inserted_at", 9)])),
        Err(failure(Fault::MissingColumn, "label"))
    );
    assert_eq!(
        ResourceSpecification::from_row(&row(vec![
            text("id", "r1"),
            text("name", "Tomato Seeds"),
            integer("inserted_at", 9),
            text("commitment_id", "c1"),
        ])),
        Ok(ResourceSpecification {
            id: "r1".to_string(),
            name: "Tomato Seeds".to_string(),
            unique_name: String::new(),
            inserted_at: Timestamp { millis: 9 },
            agent_unique_name: String::new(),
        })
    );
    assert_eq!(
        ResourceSpecification::from_row(&row(vec![
            text("id", "r1"),
            text("name", "Tomato Seeds"),
            text("unique_name", "tomato_seeds"),
            integer("inserted_at", 9),
            text("agent_unique_name", "alice"),
        ]))
        .unwrap()
        .agent_unique_name,
        "alice"
    );
}

#[test]
fn commitment_from_its_own_columns() {
    assert_eq!(
        Commitment::from_row(&row(full_commitment())),
        Ok(Commitment {
            id: "c1".to_string(),
            description: "bring seeds".to_string(),
            process_id: "proc1".to_string(),
            action_id: "a1".to_string(),
            action: None,
            assigned_agent_id: None,
            assigned_agent: None,
            quantity: 3,
            unit_id: "u1".to_string(),
            unit: None,
            resource_specification_id: "r1".to_string(),
            resource_specification: None,
            due_at: None,
            inserted_at: Timestamp { millis: 42 },
        })
    );
    let assigned = Commitment::from_row(&with(
        with(full_commitment(), text("assigned_agent_id", "ag1")).columns,
        integer("quantity", -1),
    ))
    .unwrap();
    assert_eq!(assigned.assigned_agent_id, Some("ag1".to_string()));
    assert_eq!(assigned.quantity, -1);
    let mut due = full_commitment();
    due.push(integer("due_at", 77));
    assert_eq!(
        Commitment::from_row(&row(due)).unwrap().due_at,
        Some(Timestamp { millis: 77 })
    );
}

#[test]
fn commitment_requires_each_of_its_own_columns() {
    for name in [
        "id",
        "description",
        "process_id",
        "action_id",
        "assigned_agent_id",
        "quantity",
        "unit_id",
        "resource_specification_id",
        "inserted_at",
    ] {
        assert_eq!(
            Commitment::from_row(&without(full_commitment(), name)),
            Err(failure(Fault::MissingColumn, name))
        );
    }
    assert_eq!(
        Commitment::from_row(&with(full_commitment(), integer("quantity", 1 << 40))),
        Err(failure(Fault::WrongType, "quantity"))
    );
}

#[test]
fn process_from_its_own_columns() {
    assert_eq!(
        Process::from_row(&row(full_process())),
        Ok(Process {
            id: "proc1".to_string(),
            title: "Design".to_string(),
            description: None,
            labels: vec![],
            agents: vec![],
            inserted_at: Timestamp { millis: 10 },
            start_at: Timestamp { millis: 20 },
            due_at: Timestamp { millis: 0 },
            plan_id: "plan1".to_string(),
            agent_id: String::new(),
            commitments: vec![],
        })
    );
    assert_eq!(
        Process::from_row(&with(full_process(), null("plan_id"))),
        Err(failure(Fault::WrongType, "plan_id"))
    );
    assert_eq!(
        Process::from_row(&with(full_process(), null("start_at"))),
        Err(failure(Fault::WrongType, "start_at"))
    );
    assert_eq!(
        Process::from_row(&without(full_process(), "description")),
        Err(failure(Fault::MissingColumn, "description"))
    );
}

#[test]
fn process_takes_no_value_for_its_due_time_and_its_agent() {
    let mut columns = full_process();
    columns.push(null("due_at"));
    columns.push(null("agent_id"));
    let process = Process::from_row(&row(columns)).unwrap();
    assert_eq!(process.due_at, Timestamp { millis: 0 });
    assert_eq!(process.agent_id, "");

    let mut columns = full_process();
    columns.push(integer("due_at", 55));
    columns.push(text("agent_id", "ag1"));
    let process = Process::from_row(&row(columns)).unwrap();
    assert_eq!(process.due_at, Timestamp { millis: 55 });
    assert_eq!(process.agent_id, "ag1");

    let mut columns = full_process();
    columns.push(text("due_at", "tomorrow"));
    assert_eq!(
        Process::from_row(&row(columns)),
        Err(failure(Fault::WrongType, "due_at"))
    );
    let mut columns = full_process();
    columns.push(integer("agent_id", 7));
    assert_eq!(
        Process::from_row(&row(columns)),
        Err(failure(Fault::WrongType, "agent_id"))
    );
}

#[test]
fn lenient_columns_take_null_for_the_zero_value() {
    let r = row(vec![null("n"), text("t", "x"), integer("i", 3), other("o")]);
    assert_eq!(r.lenient_text("n"), Ok(String::new()));
    assert_eq!(r.lenient_text("missing"), Ok(String::new()));
    assert_eq!(r.lenient_text("t"), Ok("x".to_string()));
    assert_eq!(r.lenient_text("i"), Err(failure(Fault::WrongType, "i")));
    assert_eq!(r.lenient_timestamp("n"), Ok(Timestamp { millis: 0 }));
    assert_eq!(r.lenient_timestamp("missing"), Ok(Timestamp { millis: 0 }));
    assert_eq!(r.lenient_timestamp("i"), Ok(Timestamp { millis: 3 }));
    assert_eq!(r.lenient_timestamp("t"), Err(failure(Fault::WrongType, "t")));
    assert_eq!(r.lenient_timestamp("o"), Err(failure(Fault::WrongType, "o")));
}

#[test]
fn plan_from_its_own_columns() {
    let columns = vec![
        text("id", "plan1"),
        text("title", "Q1"),
        text("description", "first quarter"),
        integer("inserted_at", 3),
    ];
    assert_eq!(
        Plan::from_row(&row(columns.clone())),
        Ok(Plan {
            id: "plan1".to_string(),
            title: "Q1".to_string(),
            description: Some("first quarter".to_string()),
            processes: vec![],
            inserted_at: Timestamp { millis: 3 },
        })
    );
    assert_eq!(
        Plan::from_row(&without(columns, "title")),
        Err(failure(Fault::MissingColumn, "title"))
    );
}

#[test]
fn relationship_reads_the_name_of_its_type() {
    let r = row(vec![
        text("id", "rel1"),
        text("subject_id", "a1"),
        text("object_id", "a2"),
        text("agent_relation_type_name", "member of"),
    ]);
    assert_eq!(
        AgentRelationship::from_row(&r),
        Ok(AgentRelationship {
            id: "rel1".to_string(),
            subject_id: "a1".to_string(),
            subject: Agent::default(),
            object_id: "a2".to_string(),
            object: Agent::default(),
            agent_relation_type_id: String::new(),
            agent_relation_type: "member of".to_string(),
            inserted_at: Timestamp { millis: 0 },
        })
    );
    assert_eq!(
        AgentRelationship::from_row(&row(vec![
            text("id", "rel1"),
            text("subject_id", "a1"),
            text("object_id", "a2"),
            text("agent_relation_type", "member of"),
        ])),
        Err(failure(Fault::MissingColumn, "agent_relation_type_name"))
    );
}

#[test]
fn decode_rows_keeps_the_order_of_the_rows() {
    let rows = vec![
        row(vec![text("id", "u2"), text("label", "l"), integer("inserted_at", 2)]),
        row(vec![text("id", "u1"), text("label", "kg"), integer("inserted_at", 1)]),
        row(vec![text("id", "u3"), text("label", "h"), integer("inserted_at", 3)]),
    ];
    let units = decode_rows::<Unit>(&rows).unwrap();
    let ids: Vec<&str> = units.iter().map(|u| u.id.as_str()).collect();
    assert_eq!(ids, vec!["u2", "u1", "u3"]);
    assert_eq!(decode_rows::<Unit>(&vec![]), Ok(vec![]));
}

#[test]
fn decode_rows_fails_on_the_first_row_that_does_not_decode() {
    let rows = vec![
        row(vec![text("id", "u2"), text("label", "l"), integer("inserted_at", 2)]),
        row(vec![text("id", "u1"), integer("inserted_at", 1)]),
        row(vec![text("label", "h"), integer("inserted_at", 3)]),
    ];
    assert_eq!(
        decode_rows::<Unit>(&rows),
        Err(failure(Fault::MissingColumn, "label"))
    );
}

#[test]
fn decode_keyed_reads_the_key_before_the_entity() {
    let rows = vec![
        row(vec![
            text("id", "l1"),
            text("name", "Urgent"),
            text("color", "red"),
            text("process_id", "proc2"),
        ]),
        row(vec![
            text("id", "l2"),
            text("name", "Later"),
            text("color", "blue"),
            text("process_id", "proc1"),
        ]),
    ];
    let pairs = decode_keyed::<Label>(&rows, "process_id").unwrap();
    assert_eq!(pairs.len(), 2);
    assert_eq!(pairs[0].0, "proc2");
    assert_eq!(pairs[0].1.id, "l1");
    assert_eq!(pairs[1].0, "proc1");
    assert_eq!(pairs[1].1.id, "l2");

    let no_key = vec![row(vec![text("name", "Urgent")])];
    assert_eq!(
        decode_keyed::<Label>(&no_key, "process_id"),
        Err(failure(Fault::MissingColumn, "process_id"))
    );
    let null_key = vec![row(vec![
        text("id", "l1"),
        text("name", "Urgent"),
        text("color", "red"),
        null("process_id"),
    ])];
    assert_eq!(
        decode_keyed::<Label>(&null_key, "process_id"),
        Err(failure(Fault::WrongType, "process_id"))
    );
    let no_entity = vec![row(vec![text("process_id", "proc1"), text("name", "Urgent")])];
    assert_eq!(
        decode_keyed::<Label>(&no_entity, "process_id"),
        Err(failure(Fault::MissingColumn, "id"))
    );
}
