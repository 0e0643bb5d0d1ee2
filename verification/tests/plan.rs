//! A plan is assembled from the flat results of its fetches.

use vf_planning::assemble::{assemble_plan, Children};
use vf_planning::error::{DecodeError, Error, Fault};
use vf_planning::model::{
    Action, Agent, AgentType, Commitment, InputOutput, Label, Plan, Process,
    ResourceSpecification, Unit,
};
use vf_planning::query::{PlanRows, QueryRoot};
use vf_planning::row::{Column, Row, Timestamp, Value};
use vf_planning::statement::{Statement, StatementKind};

fn text(name: &str, value: &str) -> Column {
    Column {
        name: name.to_string(),
        value: Value::Text(value.to_string()),
    }
}

fn integer(name: &str, value: i64) -> Column {
    Column {
        name: name.to_string(),
        value: Value::Integer(value),
    }
}

fn null(name: &str) -> Column {
    Column {
        name: name.to_string(),
        value: Value::Null,
    }
}

fn plan_row(id: &str, title: &str) -> Row {
    Row {
        columns: vec![
            text("id", id),
            text("title", title),
            null("description"),
            integer("inserted_at", 1),
        ],
    }
}

fn process_row(id: &str, title: &str, plan_id: &str) -> Row {
    Row {
        columns: vec![
            text("id", id),
            text("title", title),
            null("description"),
            integer("inserted_at", 2),
            integer("start_at", 3),
            text("plan_id", plan_id),
        ],
    }
}

fn label_row(id: &str, name: &str, process_id: &str) -> Row {
    Row {
        columns: vec![
            text("id", id),
            text("name", name),
            text("color", "#000000"),
            text("process_id", process_id),
        ],
    }
}

fn agent_row(id: &str, name: &str, key_column: &str, key: &str) -> Row {
    Row {
        columns: vec![
            text("id", id),
            text("name", name),
            text("unique_name", &name.to_lowercase()),
            text("agent_type", "Organization"),
            text(key_column, key),
        ],
    }
}

fn commitment_row(id: &str, process_id: &str, assigned: Option<&str>) -> Row {
    Row {
        columns: vec![
            text("id", id),
            text("description", "work"),
            integer("inserted_at", 4),
            text("process_id", process_id),
            text("action_id", "act"),
            match assigned {
                Some(agent) => text("assigned_agent_id", agent),
                None => null("assigned_agent_id"),
            },
            integer("quantity", 2),
            text("unit_id", "unit"),
            text("resource_specification_id", "spec"),
        ],
    }
}

fn action_row(id: &str, commitment_id: &str) -> Row {
    Row {
        columns: vec![
            text("id", id),
            text("name", "produce"),
            text("input_output", "Output"),
            integer("inserted_at", 5),
            text("commitment_id", commitment_id),
        ],
    }
}

fn unit_row(id: &str, commitment_id: &str) -> Row {
    Row {
        columns: vec![
            text("id", id),
            text("label", "kg"),
            integer("inserted_at", 6),
            text("commitment_id", commitment_id),
        ],
    }
}

fn specification_row(id: &str, commitment_id: &str) -> Row {
    Row {
        columns: vec![
            text("id", id),
            text("name", "Seeds"),
            integer("inserted_at", 7),
            text("commitment_id", commitment_id),
        ],
    }
}

fn no_rows() -> PlanRows {
    PlanRows {
        plan: vec![],
        processes: vec![],
        labels: vec![],
        agents: vec![],
        commitments: vec![],
        actions: vec![],
        resource_specifications: vec![],
        units: vec![],
        assigned_agents: vec![],
    }
}

fn names(labels: &[Label]) -> Vec<&str> {
    labels.iter().map(|l| l.name.as_str()).collect()
}

fn missing(column: &str) -> Error {
    Error::DecodeError(DecodeError {
        fault: Fault::MissingColumn,
        column: column.to_string(),
    })
}

fn one_parameter(kind: StatementKind, value: &str) -> Statement {
    Statement {
        kind,
        binds: vec![Value::Text(value.to_string())],
    }
}

#[test]
fn plan_queries_are_nine_statements_about_one_plan() {
    let queries = QueryRoot.plan_queries("plan1");
    assert_eq!(queries.plan, one_parameter(StatementKind::SelectPlan, "plan1"));
    assert_eq!(
        queries.processes,
        one_parameter(StatementKind::SelectProcessesOfPlan, "plan1")
    );
    assert_eq!(
        queries.labels,
        one_parameter(StatementKind::SelectLabelsOfPlan, "plan1")
    );
    assert_eq!(
        queries.agents,
        one_parameter(StatementKind::SelectAgentsOfPlan, "plan1")
    );
    assert_eq!(
        queries.commitments,
        one_parameter(StatementKind::SelectCommitmentsOfPlan, "plan1")
    );
    assert_eq!(
        queries.actions,
        one_parameter(StatementKind::SelectActionsOfPlan, "plan1")
    );
    assert_eq!(
        queries.resource_specifications,
        one_parameter(StatementKind::SelectResourceSpecificationsOfPlan, "plan1")
    );
    assert_eq!(
        queries.units,
        one_parameter(StatementKind::SelectUnitsOfPlan, "plan1")
    );
    assert_eq!(
        queries.assigned_agents,
        one_parameter(StatementKind::SelectAssignedAgentsOfPlan, "plan1")
    );
}

#[test]
fn plan_without_a_row_is_not_found() {
    assert_eq!(QueryRoot.plan(&no_rows()), Err(Error::NotFound));
    let mut rows = no_rows();
    rows.processes = vec![process_row("proc1", "Design", "plan1")];
    assert_eq!(QueryRoot.plan(&rows), Err(Error::NotFound));
}

#[test]
fn plan_without_processes_has_an_empty_list() {
    let mut rows = no_rows();
    rows.plan = vec![plan_row("plan1", "Q1")];
    assert_eq!(
        QueryRoot.plan(&rows),
        Ok(Plan {
            id: "plan1".to_string(),
            title: "Q1".to_string(),
            description: None,
            processes: vec![],
            inserted_at: Timestamp { millis: 1 },
        })
    );
    rows.labels = vec![label_row("l1", "Urgent", "proc9")];
    rows.commitments = vec![commitment_row("c1", "proc9", None)];
    assert_eq!(QueryRoot.plan(&rows).unwrap().processes, vec![]);
}

#[test]
fn a_plan_is_found_by_its_first_fetch_alone() {
    assert_eq!(QueryRoot.found_plan(&vec![]), Err(Error::NotFound));
    assert_eq!(
        QueryRoot.found_plan(&vec![Row { columns: vec![] }]),
        Err(missing("id"))
    );
    assert_eq!(
        QueryRoot
            .found_plan(&vec![plan_row("plan1", "Q1"), plan_row("plan2", "Q2")])
            .unwrap()
            .id,
        "plan1"
    );
    let mut rows = no_rows();
    rows.plan = vec![Row { columns: vec![] }];
    rows.processes = vec![process_row("proc1", "Design", "plan1")];
    assert_eq!(
        QueryRoot.plan(&rows).map(|p| p.id),
        QueryRoot.found_plan(&rows.plan).map(|p| p.id)
    );
}

#[test]
fn an_assigned_agent_without_its_type_is_refused() {
    let mut rows = no_rows();
    rows.plan = vec![plan_row("plan1", "Q1")];
    rows.processes = vec![process_row("proc1", "Design", "plan1")];
    rows.commitments = vec![commitment_row("c1", "proc1", Some("ag1"))];
    rows.assigned_agents = vec![Row {
        columns: vec![
            text("id", "ag1"),
            text("name", "Alice"),
            text("unique_name", "alice"),
            text("commitment_id", "c1"),
        ],
    }];
    assert_eq!(
        QueryRoot.plan(&rows),
        Err(Error::DecodeError(DecodeError {
            fault: Fault::MissingColumn,
            column: "agent_type".to_string(),
        }))
    );
}

#[test]
fn plan_takes_its_first_row() {
    let mut rows = no_rows();
    rows.plan = vec![plan_row("plan1", "Q1"), plan_row("plan2", "Q2")];
    assert_eq!(QueryRoot.plan(&rows).unwrap().id, "plan1");
}

#[test]
fn each_process_gets_exactly_its_own_labels() {
    let mut rows = no_rows();
    rows.plan = vec![plan_row("plan1", "Q1")];
    rows.processes = vec![
        process_row("proc1", "Design", "plan1"),
        process_row("proc2", "Build", "plan1"),
    ];
    rows.labels = vec![
        label_row("l1", "Urgent", "proc1"),
        label_row("l3", "Outdoor", "proc2"),
        label_row("l2", "Draft", "proc1"),
        label_row("l4", "Heavy", "proc2"),
        label_row("l5", "Late", "proc2"),
    ];
    let plan = QueryRoot.plan(&rows).unwrap();
    assert_eq!(plan.processes.len(), 2);
    assert_eq!(plan.processes[0].id, "proc1");
    assert_eq!(names(&plan.processes[0].labels), vec!["Urgent", "Draft"]);
    assert_eq!(plan.processes[1].id, "proc2");
    assert_eq!(
        names(&plan.processes[1].labels),
        vec!["Outdoor", "Heavy", "Late"]
    );
}

#[test]
fn a_label_on_two_processes_shows_on_both() {
    let mut rows = no_rows();
    rows.plan = vec![plan_row("plan1", "Q1")];
    rows.processes = vec![
        process_row("proc1", "Design", "plan1"),
        process_row("proc2", "Build", "plan1"),
        process_row("proc3", "Ship", "plan1"),
    ];
    rows.labels = vec![
        label_row("l1", "Urgent", "proc1"),
        label_row("l1", "Urgent", "proc2"),
    ];
    let plan = QueryRoot.plan(&rows).unwrap();
    assert_eq!(names(&plan.processes[0].labels), vec!["Urgent"]);
    assert_eq!(names(&plan.processes[1].labels), vec!["Urgent"]);
    assert_eq!(names(&plan.processes[2].labels), Vec::<&str>::new());
    assert_eq!(plan.processes[2].agents, vec![]);
    assert_eq!(plan.processes[2].commitments, vec![]);
}

#[test]
fn processes_keep_the_order_of_their_rows() {
    let mut rows = no_rows();
    rows.plan = vec![plan_row("plan1", "Q1")];
    rows.processes = vec![
        process_row("proc3", "Ship", "plan1"),
        process_row("proc1", "Design", "plan1"),
        process_row("proc2", "Build", "plan1"),
    ];
    let plan = QueryRoot.plan(&rows).unwrap();
    let ids: Vec<&str> = plan.processes.iter().map(|p| p.id.as_str()).collect();
    assert_eq!(ids, vec!["proc3", "proc1", "proc2"]);
}

#[test]
fn commitments_are_decorated_with_what_they_refer_to() {
    let mut rows = no_rows();
    rows.plan = vec![plan_row("plan1", "Q1")];
    rows.processes = vec![process_row("proc1", "Design", "plan1")];
    rows.agents = vec![agent_row("ag1", "Alice", "process_id", "proc1")];
    rows.commitments = vec![
        commitment_row("c1", "proc1", Some("ag1")),
        commitment_row("c2", "proc1", None),
    ];
    rows.actions = vec![action_row("act", "c1"), action_row("act", "c2")];
    rows.units = vec![unit_row("unit", "c1")];
    rows.resource_specifications = vec![specification_row("spec", "c2")];
    rows.assigned_agents = vec![agent_row("ag1", "Alice", "commitment_id", "c1")];
    let plan = QueryRoot.plan(&rows).unwrap();
    let process = &plan.processes[0];
    assert_eq!(process.agents.len(), 1);
    assert_eq!(process.agents[0].name, "Alice");
    assert_eq!(process.commitments.len(), 2);

    let first = &process.commitments[0];
    assert_eq!(first.id, "c1");
    assert_eq!(
        first.action,
        Some(Action {
            id: "act".to_string(),
            name: "produce".to_string(),
            input_output: InputOutput::Output,
            inserted_at: Timestamp { millis: 5 },
        })
    );
    assert_eq!(
        first.unit,
        Some(Unit {
            id: "unit".to_string(),
            label: "kg".to_string(),
            inserted_at: Timestamp { millis: 6 },
        })
    );
    assert_eq!(first.resource_specification, None);
    assert_eq!(
        first.assigned_agent,
        Some(Agent {
            id: "ag1".to_string(),
            name: "Alice".to_string(),
            unique_name: "alice".to_string(),
            email: None,
            agent_type: AgentType::Organization,
            inserted_at: Timestamp { millis: 0 },
        })
    );

    let second = &process.commitments[1];
    assert_eq!(second.id, "c2");
    assert!(second.action.is_some());
    assert_eq!(second.unit, None);
    assert_eq!(
        second.resource_specification,
        Some(ResourceSpecification {
            id: "spec".to_string(),
            name: "Seeds".to_string(),
            unique_name: String::new(),
            inserted_at: Timestamp { millis: 7 },
            agent_unique_name: String::new(),
        })
    );
    assert_eq!(second.assigned_agent, None);
}

#[test]
fn a_fanned_out_join_still_gives_one_action() {
    let mut rows = no_rows();
    rows.plan = vec![plan_row("plan1", "Q1")];
    rows.processes = vec![process_row("proc1", "Design", "plan1")];
    rows.commitments = vec![commitment_row("c1", "proc1", None)];
    rows.actions = vec![
        action_row("first", "c1"),
        action_row("second", "c1"),
        action_row("third", "c1"),
    ];
    let plan = QueryRoot.plan(&rows).unwrap();
    assert_eq!(
        plan.processes[0].commitments[0]
            .action
            .as_ref()
            .map(|a| a.id.as_str()),
        Some("first")
    );
}

#[test]
fn plan_reports_the_first_result_set_that_does_not_decode() {
    let mut rows = no_rows();
    rows.plan = vec![plan_row("plan1", "Q1")];
    rows.processes = vec![Row {
        columns: vec![text("id", "proc1")],
    }];
    rows.labels = vec![Row {
        columns: vec![text("id", "l1")],
    }];
    assert_eq!(QueryRoot.plan(&rows), Err(missing("title")));

    rows.processes = vec![process_row("proc1", "Design", "plan1")];
    assert_eq!(QueryRoot.plan(&rows), Err(missing("process_id")));

    rows.labels = vec![];
    rows.units = vec![Row {
        columns: vec![text("commitment_id", "c1")],
    }];
    rows.assigned_agents = vec![Row { columns: vec![] }];
    assert_eq!(QueryRoot.plan(&rows), Err(missing("id")));

    rows.units = vec![];
    assert_eq!(QueryRoot.plan(&rows), Err(missing("commitment_id")));

    rows.plan = vec![Row { columns: vec![] }];
    assert_eq!(QueryRoot.plan(&rows), Err(missing("id")));
}

#[test]
fn assemble_plan_replaces_what_the_processes_held() {
    let stale = Label {
        id: "old".to_string(),
        name: "Stale".to_string(),
        unique_name: "stale".to_string(),
        color: "grey".to_string(),
        inserted_at: Timestamp { millis: 0 },
    };
    let fresh = Label {
        id: "new".to_string(),
        name: "Fresh".to_string(),
        unique_name: "fresh".to_string(),
        color: "green".to_string(),
        inserted_at: Timestamp { millis: 1 },
    };
    let process = Process {
        id: "proc1".to_string(),
        title: "Design".to_string(),
        description: Some("d".to_string()),
        labels: vec![stale],
        agents: vec![],
        inserted_at: Timestamp { millis: 2 },
        start_at: Timestamp { millis: 3 },
        due_at: Timestamp { millis: 4 },
        plan_id: "plan1".to_string(),
        agent_id: "ag".to_string(),
        commitments: vec![],
    };
    let plan = Plan {
        id: "plan1".to_string(),
        title: "Q1".to_string(),
        description: Some("first".to_string()),
        processes: vec![],
        inserted_at: Timestamp { millis: 5 },
    };
    let children = Children {
        labels: vec![("proc1".to_string(), fresh.clone())],
        agents: vec![],
        commitments: vec![],
        actions: vec![],
        resource_specifications: vec![],
        units: vec![],
        assigned_agents: vec![],
    };
    let whole = assemble_plan(plan, vec![process.clone()], children);
    assert_eq!(whole.id, "plan1");
    assert_eq!(whole.title, "Q1");
    assert_eq!(whole.description, Some("first".to_string()));
    assert_eq!(whole.inserted_at, Timestamp { millis: 5 });
    assert_eq!(
        whole.processes,
        vec![Process {
            labels: vec![fresh],
            ..process
        }]
    );
}

#[test]
fn commitments_of_one_process_do_not_show_on_another() {
    let mut rows = no_rows();
    rows.plan = vec![plan_row("plan1", "Q1")];
    rows.processes = vec![
        process_row("proc1", "Design", "plan1"),
        process_row("proc2", "Build", "plan1"),
    ];
    rows.commitments = vec![
        commitment_row("c1", "proc2", None),
        commitment_row("c2", "proc1", None),
        commitment_row("c3", "proc2", None),
    ];
    let plan = QueryRoot.plan(&rows).unwrap();
    let ids = |p: &Process| -> Vec<String> { p.commitments.iter().map(|c| c.id.clone()).collect() };
    assert_eq!(ids(&plan.processes[0]), vec!["c2"]);
    assert_eq!(ids(&plan.processes[1]), vec!["c1", "c3"]);
    let all: Vec<&Commitment> = plan
        .processes
        .iter()
        .flat_map(|p| p.commitments.iter())
        .collect();
    assert_eq!(all.len(), 3);
}

#[test]
fn list_queries_take_no_parameter() {
    let none = |kind: StatementKind| Statement {
        kind,
        binds: vec![],
    };
    assert_eq!(QueryRoot.agents_query(), none(StatementKind::SelectAgents));
    assert_eq!(
        QueryRoot.individuals_query(),
        none(StatementKind::SelectIndividuals)
    );
    assert_eq!(
        QueryRoot.organizations_query(),
        none(StatementKind::SelectOrganizations)
    );
    assert_eq!(QueryRoot.labels_query(), none(StatementKind::SelectLabels));
    assert_eq!(QueryRoot.actions_query(), none(StatementKind::SelectActions));
    assert_eq!(QueryRoot.units_query(), none(StatementKind::SelectUnits));
    assert_eq!(
        QueryRoot.resource_specifications_query(),
        none(StatementKind::SelectResourceSpecifications)
    );
    assert_eq!(
        QueryRoot.plans_query("ag1"),
        one_parameter(StatementKind::SelectPlansOfAgent, "ag1")
    );
}

#[test]
fn list_queries_answer_in_the_order_of_the_rows() {
    let plans = QueryRoot
        .plans(&vec![plan_row("b", "Second"), plan_row("a", "First")])
        .unwrap();
    assert_eq!(plans[0].title, "Second");
    assert_eq!(plans[1].title, "First");
    assert!(plans.iter().all(|p| p.processes.is_empty()));

    let labels = QueryRoot
        .labels(&vec![label_row("l2", "B", "p"), label_row("l1", "A", "p")])
        .unwrap();
    assert_eq!(names(&labels), vec!["B", "A"]);

    assert_eq!(QueryRoot.actions(&vec![action_row("a", "c")]).unwrap().len(), 1);
    assert_eq!(QueryRoot.units(&vec![unit_row("u", "c")]).unwrap().len(), 1);
    assert_eq!(
        QueryRoot
            .resource_specifications(&vec![specification_row("s", "c")])
            .unwrap()
            .len(),
        1
    );
    assert_eq!(QueryRoot.agents(&vec![]), Ok(vec![]));
    assert_eq!(
        QueryRoot.units(&vec![Row { columns: vec![] }]),
        Err(missing("id"))
    );
}

#[test]
fn reading_twice_gives_the_same_agents_in_the_same_order() {
    let table = vec![
        agent_row("a2", "Bob", "x", "y"),
        agent_row("a1", "Alice", "x", "y"),
        agent_row("a3", "Carol", "x", "y"),
    ];
    let first = QueryRoot.agents(&table);
    let second = QueryRoot.agents(&table);
    assert_eq!(first, second);
    let ids: Vec<String> = first.unwrap().into_iter().map(|a| a.id).collect();
    assert_eq!(ids, vec!["a2", "a1", "a3"]);
}
