//! From the creation of an agent to the deletion of a process, with a
//! datastore that is a handful of tables in memory.

use vf_planning::model::Agent;
use vf_planning::mutation::{MutationRoot, NewAgent, NewPlan, NewProcess};
use vf_planning::model::AgentType;
use vf_planning::query::{PlanRows, QueryRoot};
use vf_planning::row::{Column, Row, Value};
use vf_planning::statement::{Batch, Statement, StatementKind};

/// The tables that the scenario touches.
struct Tables {
    agents: Vec<Row>,
    plans: Vec<Row>,
    processes: Vec<Row>,
    labels: Vec<Row>,
    process_labels: Vec<(String, String)>,
    process_agents: Vec<(String, String)>,
    clock: i64,
}

fn text(name: &str, value: &str) -> Column {
    Column {
        name: name.to_string(),
        value: Value::Text(value.to_string()),
    }
}

fn cell(name: &str, value: &Value) -> Column {
    Column {
        name: name.to_string(),
        value: value.clone(),
    }
}

fn as_text(value: &Value) -> String {
    match value {
        Value::Text(s) => s.clone(),
        _ => panic!("a key has to be a text"),
    }
}

fn holds(row: &Row, name: &str, value: &str) -> bool {
    row.get(name) == Some(&Value::Text(value.to_string()))
}

impl Tables {
    fn new() -> Tables {
        Tables {
            agents: vec![],
            plans: vec![],
            processes: vec![],
            labels: vec![
                Row {
                    columns: vec![text("id", "l1"), text("name", "Urgent"), text("color", "red")],
                },
                Row {
                    columns: vec![text("id", "l2"), text("name", "Draft"), text("color", "blue")],
                },
            ],
            process_labels: vec![],
            process_agents: vec![],
            clock: 0,
        }
    }

    fn now(&mut self) -> Column {
        self.clock += 1;
        Column {
            name: "inserted_at".to_string(),
            value: Value::Integer(self.clock),
        }
    }

    /// Carries out one statement; returns its rows and how many rows it
    /// affected.
    fn run(&mut self, statement: &Statement) -> (Vec<Row>, u64) {
        let binds = &statement.binds;
        match statement.kind {
            StatementKind::InsertAgent => {
                let row = Row {
                    columns: vec![
                        cell("id", &binds[0]),
                        cell("name", &binds[1]),
                        cell("unique_name", &binds[2]),
                        cell("email", &binds[3]),
                        cell("agent_type", &binds[4]),
                        self.now(),
                    ],
                };
                self.agents.push(row.clone());
                (vec![row], 1)
            }
            StatementKind::InsertPlan => {
                let row = Row {
                    columns: vec![
                        cell("id", &binds[0]),
                        cell("title", &binds[1]),
                        cell("description", &Value::Null),
                        self.now(),
                    ],
                };
                self.plans.push(row.clone());
                (vec![row], 1)
            }
            StatementKind::InsertPlanAgent => (vec![], 1),
            StatementKind::InsertProcess => {
                let at = self.now();
                let row = Row {
                    columns: vec![
                        cell("id", &binds[0]),
                        cell("title", &binds[1]),
                        cell("description", &binds[2]),
                        cell("plan_id", &binds[3]),
                        at.clone(),
                        Column {
                            name: "start_at".to_string(),
                            value: at.value,
                        },
                    ],
                };
                self.processes.push(row.clone());
                (vec![row], 1)
            }
            StatementKind::InsertProcessLabel => {
                self.process_labels
                    .push((as_text(&binds[0]), as_text(&binds[1])));
                (vec![], 1)
            }
            StatementKind::InsertProcessAgent => {
                self.process_agents
                    .push((as_text(&binds[0]), as_text(&binds[1])));
                (vec![], 1)
            }
            StatementKind::DeleteProcessLabels => {
                let id = as_text(&binds[0]);
                let before = self.process_labels.len();
                self.process_labels.retain(|join| join.0 != id);
                (vec![], (before - self.process_labels.len()) as u64)
            }
            StatementKind::DeleteProcessAgents => {
                let id = as_text(&binds[0]);
                let before = self.process_agents.len();
                self.process_agents.retain(|join| join.0 != id);
                (vec![], (before - self.process_agents.len()) as u64)
            }
            StatementKind::DeleteProcess => {
                let id = as_text(&binds[0]);
                let before = self.processes.len();
                self.processes.retain(|row| !holds(row, "id", &id));
                (vec![], (before - self.processes.len()) as u64)
            }
            StatementKind::SelectPlan => {
                let id = as_text(&binds[0]);
                (
                    self.plans
                        .iter()
                        .filter(|row| holds(row, "id", &id))
                        .cloned()
                        .collect(),
                    0,
                )
            }
            StatementKind::SelectProcessesOfPlan => {
                let id = as_text(&binds[0]);
                (
                    self.processes
                        .iter()
                        .filter(|row| holds(row, "plan_id", &id))
                        .cloned()
                        .collect(),
                    0,
                )
            }
            StatementKind::SelectLabelsOfPlan => {
                let id = as_text(&binds[0]);
                let mut rows = vec![];
                for (process_id, label_id) in &self.process_labels {
                    let of_plan = self
                        .processes
                        .iter()
                        .any(|p| holds(p, "id", process_id) && holds(p, "plan_id", &id));
                    if of_plan {
                        for label in self.labels.iter().filter(|l| holds(l, "id", label_id)) {
                            let mut row = label.clone();
                            row.columns.push(text("process_id", process_id));
                            rows.push(row);
                        }
                    }
                }
                (rows, 0)
            }
            StatementKind::SelectAgentsOfPlan
            | StatementKind::SelectCommitmentsOfPlan
            | StatementKind::SelectActionsOfPlan
            | StatementKind::SelectResourceSpecificationsOfPlan
            | StatementKind::SelectUnitsOfPlan
            | StatementKind::SelectAssignedAgentsOfPlan => (vec![], 0),
            other => panic!("the scenario does not issue {:?}", other),
        }
    }

    /// Carries out a batch; returns the rows of its first statement and the
    /// count of its last.
    fn run_batch(&mut self, batch: &Batch) -> (Vec<Row>, u64) {
        assert!(batch.atomic);
        let mut first = None;
        let mut last = 0;
        for statement in &batch.statements {
            let (rows, count) = self.run(statement);
            if first.is_none() {
                first = Some(rows);
            }
            last = count;
        }
        (first.unwrap_or_default(), last)
    }

    fn plan(&mut self, plan_id: &str) -> PlanRows {
        let queries = QueryRoot.plan_queries(plan_id);
        PlanRows {
            plan: self.run(&queries.plan).0,
            processes: self.run(&queries.processes).0,
            labels: self.run(&queries.labels).0,
            agents: self.run(&queries.agents).0,
            commitments: self.run(&queries.commitments).0,
            actions: self.run(&queries.actions).0,
            resource_specifications: self.run(&queries.resource_specifications).0,
            units: self.run(&queries.units).0,
            assigned_agents: self.run(&queries.assigned_agents).0,
        }
    }
}

#[test]
fn from_a_new_agent_to_a_deleted_process() {
    let mut tables = Tables::new();

    let insert = MutationRoot.create_agent(&NewAgent {
        name: "Alice".to_string(),
        email: None,
        agent_type: AgentType::Individual,
    });
    let (rows, _) = tables.run(&insert);
    let alice: Agent = MutationRoot.created(&rows).unwrap();
    assert_eq!(alice.unique_name, "alice");
    assert_eq!(alice.name, "Alice");

    let batch = MutationRoot.create_plan(&NewPlan {
        title: "Q1".to_string(),
        agent_id: alice.id.clone(),
        description: None,
    });
    let (rows, _) = tables.run_batch(&batch);
    let plan: vf_planning::model::Plan = MutationRoot.created(&rows).unwrap();
    assert_eq!(plan.id.len(), 26);
    assert_ne!(plan.id, alice.id);
    assert_eq!(plan.title, "Q1");

    let answer = QueryRoot.plan(&tables.plan(&plan.id)).unwrap();
    assert_eq!(answer.id, plan.id);
    assert!(answer.processes.is_empty());

    let batch = MutationRoot.create_process(&NewProcess {
        title: "Design".to_string(),
        description: None,
        plan_id: Some(plan.id.clone()),
        start_date: None,
        due_date: None,
        labels: Some(vec!["l1".to_string(), "l2".to_string()]),
        agents: None,
    });
    let (rows, _) = tables.run_batch(&batch);
    let process: vf_planning::model::Process = MutationRoot.created(&rows).unwrap();
    assert_eq!(process.title, "Design");
    assert_eq!(process.plan_id, plan.id);
    assert_eq!(tables.process_labels.len(), 2);

    let answer = QueryRoot.plan(&tables.plan(&plan.id)).unwrap();
    assert_eq!(answer.processes.len(), 1);
    assert_eq!(answer.processes[0].id, process.id);
    assert_eq!(answer.processes[0].labels.len(), 2);
    assert_eq!(answer.processes[0].labels[0].name, "Urgent");
    assert_eq!(answer.processes[0].labels[1].name, "Draft");

    let batch = MutationRoot.delete_process(&process.id);
    let (_, count) = tables.run_batch(&batch);
    assert_eq!(MutationRoot.affected(count), 1);
    assert_eq!(
        tables
            .process_labels
            .iter()
            .filter(|join| join.0 == process.id)
            .count(),
        0
    );
    assert_eq!(
        tables
            .process_agents
            .iter()
            .filter(|join| join.0 == process.id)
            .count(),
        0
    );

    let answer = QueryRoot.plan(&tables.plan(&plan.id)).unwrap();
    assert_eq!(answer.processes.len(), 0);

    let (_, count) = tables.run_batch(&MutationRoot.delete_process(&process.id));
    assert_eq!(MutationRoot.affected(count), 0);
}

#[test]
fn deleting_one_process_leaves_the_joins_of_another() {
    let mut tables = Tables::new();
    let (rows, _) = tables.run_batch(&MutationRoot.create_plan(&NewPlan {
        title: "Q1".to_string(),
        agent_id: "ag".to_string(),
        description: None,
    }));
    let plan: vf_planning::model::Plan = MutationRoot.created(&rows).unwrap();
    let mut ids = vec![];
    for (title, labels) in [("Design", vec!["l1"]), ("Build", vec!["l2", "l1"])] {
        let (rows, _) = tables.run_batch(&MutationRoot.create_process(&NewProcess {
            title: title.to_string(),
            description: None,
            plan_id: Some(plan.id.clone()),
            start_date: None,
            due_date: None,
            labels: Some(labels.into_iter().map(String::from).collect()),
            agents: Some(vec!["ag".to_string()]),
        }));
        let process: vf_planning::model::Process = MutationRoot.created(&rows).unwrap();
        ids.push(process.id);
    }
    assert_ne!(ids[0], ids[1]);
    let answer = QueryRoot.plan(&tables.plan(&plan.id)).unwrap();
    assert_eq!(answer.processes.len(), 2);
    assert_eq!(answer.processes[0].labels.len(), 1);
    assert_eq!(answer.processes[1].labels.len(), 2);

    tables.run_batch(&MutationRoot.delete_process(&ids[0]));
    assert_eq!(tables.process_labels.len(), 2);
    assert_eq!(tables.process_agents.len(), 1);
    assert!(tables.process_labels.iter().all(|join| join.0 == ids[1]));
    let answer = QueryRoot.plan(&tables.plan(&plan.id)).unwrap();
    assert_eq!(answer.processes.len(), 1);
    assert_eq!(answer.processes[0].id, ids[1]);
    let names: Vec<&str> = answer.processes[0]
        .labels
        .iter()
        .map(|l| l.name.as_str())
        .collect();
    assert_eq!(names, vec!["Draft", "Urgent"]);
}
