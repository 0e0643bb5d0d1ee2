//! The write side: which statements each mutation issues, and what it makes
//! of the rows that come back.
//!
//! A record is created under a fresh id, with the names that derive from its
//! display name. What has to hold together (a record with its join rows)
//! goes into one atomic batch.

use crate::decode::{decode_rows, decoded_all, FromRow};
use crate::error::{Error, ErrorView};
use crate::ident::{generate_id, is_ulid_text};
use crate::model::{
    agent_type_text, text_view, Action, Agent, AgentType, Commitment, CommitmentView, Label,
    Process, ProcessView, ResourceSpecification, Unit,
};
use crate::naming::{slug, unique_name};
use crate::query::{answers, first_answer, first_row, keyed_query, texts, undecoded};
use crate::row::{rows_view, Row, RowView, Timestamp};
use crate::statement::{
    nullable_count, nullable_text, nullable_timestamp, statement, text, Batch, BatchView,
    Statement, StatementKind, StatementView,
};
use vstd::prelude::*;

verus! {

/// The mutations of the API.
#[derive(Clone, Copy, Debug, Default)]
pub struct MutationRoot;

/// An agent to create.
#[derive(Debug, PartialEq, Eq)]
pub struct NewAgent {
    pub name: String,
    pub email: Option<String>,
    pub agent_type: AgentType,
}

/// A plan to create, for an agent.
#[derive(Debug, PartialEq, Eq)]
pub struct NewPlan {
    pub title: String,
    pub agent_id: String,
    /// Not stored on creation: a plan gets its description by an update.
    pub description: Option<String>,
}

/// The new title and description of a plan.
#[derive(Debug, PartialEq, Eq)]
pub struct UpdatePlan {
    pub id: String,
    pub title: String,
    pub description: Option<String>,
}

/// A label to create.
#[derive(Debug, PartialEq, Eq)]
pub struct NewLabel {
    pub name: String,
    pub color: String,
}

/// A process to create, with the ids of its labels and agents.
#[derive(Debug, PartialEq, Eq)]
pub struct NewProcess {
    pub title: String,
    pub description: Option<String>,
    pub plan_id: Option<String>,
    /// Not stored on creation.
    pub start_date: Option<Timestamp>,
    /// Not stored on creation.
    pub due_date: Option<Timestamp>,
    pub labels: Option<Vec<String>>,
    pub agents: Option<Vec<String>>,
}

/// The new title, description, labels and agents of a process.
#[derive(Debug, PartialEq, Eq)]
pub struct UpdateProcess {
    pub id: String,
    pub title: String,
    pub description: Option<String>,
    pub labels: Option<Vec<String>>,
    pub agents: Option<Vec<String>>,
}

/// A resource specification to create.
#[derive(Debug, PartialEq, Eq)]
pub struct NewResourceSpecification {
    pub name: String,
}

/// A commitment to create.
#[derive(Debug, PartialEq, Eq)]
pub struct NewCommitment {
    pub description: String,
    pub process_id: String,
    pub action_id: String,
    pub assigned_agent_id: Option<String>,
    pub resource_specification_id: String,
    pub quantity: i32,
    pub unit_id: String,
    pub due_at: Option<Timestamp>,
}

/// The new fields of a commitment. Every field is replaced: one that is not
/// given is cleared.
#[derive(Debug, PartialEq, Eq)]
pub struct UpdateCommitment {
    pub id: String,
    pub description: Option<String>,
    pub action_id: Option<String>,
    pub quantity: Option<i32>,
    pub unit_id: Option<String>,
    pub resource_specification_id: Option<String>,
    pub assigned_agent_id: Option<String>,
    pub due_at: Option<Timestamp>,
}

/// The statements that fetch what a commitment refers to.
#[derive(Debug, PartialEq, Eq)]
pub struct CommitmentQueries {
    pub action: Statement,
    pub unit: Statement,
    pub resource_specification: Statement,
    /// Asked only where the commitment is assigned to an agent.
    pub assigned_agent: Option<Statement>,
}

/// The rows fetched for what a commitment refers to.
#[derive(Debug, PartialEq, Eq)]
pub struct CommitmentRows {
    pub action: Vec<Row>,
    pub unit: Vec<Row>,
    pub resource_specification: Vec<Row>,
    /// Read only where the commitment is assigned to an agent.
    pub assigned_agent: Vec<Row>,
}

/// The ids of an optional list: none for a list that was not given.
pub open spec fn listed(ids: Option<Vec<String>>) -> Seq<Seq<char>> {
    match ids {
        Some(list) => texts(list@),
        None => Seq::empty(),
    }
}

/// The views of some statements.
pub open spec fn statements_view(statements: Seq<Statement>) -> Seq<StatementView> {
    statements.map_values(|s: Statement| s@)
}

/// One join statement for each member: the owner's id, then the member's.
pub open spec fn joins(kind: StatementKind, owner: Seq<char>, members: Seq<Seq<char>>) -> Seq<
    StatementView,
> {
    members.map_values(|member: Seq<char>| statement(kind, seq![text(owner), text(member)]))
}

/// The statement that stores a new agent under `id`.
pub open spec fn agent_insert(
    id: Seq<char>,
    name: Seq<char>,
    email: Option<Seq<char>>,
    agent_type: AgentType,
) -> StatementView {
    statement(
        StatementKind::InsertAgent,
        seq![text(id), text(name), text(slug(name)), nullable_text(email), text(
            agent_type_text(agent_type),
        )],
    )
}

/// The statement that stores a new label under `id`.
pub open spec fn label_insert(id: Seq<char>, name: Seq<char>, color: Seq<char>) -> StatementView {
    statement(StatementKind::InsertLabel, seq![text(id), text(name), text(slug(name)), text(color)])
}

/// The statement that stores a new resource specification under `id`.
pub open spec fn resource_specification_insert(id: Seq<char>, name: Seq<char>) -> StatementView {
    statement(
        StatementKind::InsertResourceSpecification,
        seq![text(id), text(name), text(slug(name))],
    )
}

/// The batch that stores a new plan under `id` and joins it to its agent.
pub open spec fn plan_creation(id: Seq<char>, title: Seq<char>, agent_id: Seq<char>) -> BatchView {
    BatchView {
        atomic: true,
        statements: seq![
            statement(StatementKind::InsertPlan, seq![text(id), text(title)]),
            statement(StatementKind::InsertPlanAgent, seq![text(id), text(agent_id)]),
        ],
    }
}

/// The batch that stores a new process under `id`, then one join row for
/// each of its labels, then one for each of its agents.
pub open spec fn process_creation(
    id: Seq<char>,
    title: Seq<char>,
    description: Option<Seq<char>>,
    plan_id: Option<Seq<char>>,
    labels: Seq<Seq<char>>,
    agents: Seq<Seq<char>>,
) -> BatchView {
    BatchView {
        atomic: true,
        statements: seq![
            statement(
                StatementKind::InsertProcess,
                seq![text(id), text(title), nullable_text(description), nullable_text(plan_id)],
            ),
        ] + joins(StatementKind::InsertProcessLabel, id, labels) + joins(
            StatementKind::InsertProcessAgent,
            id,
            agents,
        ),
    }
}

/// The batch that replaces what hangs on a process: its join rows are
/// removed, written anew from the lists given, and then the process's own
/// fields are replaced.
pub open spec fn process_update(
    id: Seq<char>,
    title: Seq<char>,
    description: Option<Seq<char>>,
    labels: Seq<Seq<char>>,
    agents: Seq<Seq<char>>,
) -> BatchView {
    BatchView {
        atomic: true,
        statements: seq![
            statement(StatementKind::DeleteProcessLabels, seq![text(id)]),
            statement(StatementKind::DeleteProcessAgents, seq![text(id)]),
        ] + joins(StatementKind::InsertProcessLabel, id, labels) + joins(
            StatementKind::InsertProcessAgent,
            id,
            agents,
        ) + seq![
            statement(
                StatementKind::UpdateProcess,
                seq![text(title), nullable_text(description), text(id)],
            ),
        ],
    }
}

/// The batch that removes a process: first its join rows, then the process.
pub open spec fn process_deletion(id: Seq<char>) -> BatchView {
    BatchView {
        atomic: true,
        statements: seq![
            statement(StatementKind::DeleteProcessLabels, seq![text(id)]),
            statement(StatementKind::DeleteProcessAgents, seq![text(id)]),
            statement(StatementKind::DeleteProcess, seq![text(id)]),
        ],
    }
}

/// The number that a mutation reports for `rows` rows affected: the count
/// itself while it fits 32 bits; beyond, the count modulo 2^32, taken as
/// negative from 2^31 on.
pub open spec fn reported_count(rows: u64) -> i32 {
    let low = (rows as int) % 0x1_0000_0000;
    if low < 0x8000_0000 {
        low as i32
    } else {
        (low - 0x1_0000_0000) as i32
    }
}

/// Adds one join statement for each member of `members`.
fn push_joins(
    statements: &mut Vec<Statement>,
    kind: StatementKind,
    owner: &str,
    members: &Option<Vec<String>>,
)
    ensures
        statements_view(final(statements)@) == statements_view(old(statements)@) + joins(
            kind,
            owner@,
            listed(*members),
        ),
{
    let ghost before = statements_view(statements@);
    let ghost wanted = joins(kind, owner@, listed(*members));
    match members {
        None => {
            assert(wanted =~= Seq::empty());
            assert(before + wanted =~= before);
        },
        Some(list) => {
            let mut i: usize = 0;
            assert(before + wanted.take(0) =~= before);
            while i < list.len()
                invariant
                    i <= list.len(),
                    wanted == joins(kind, owner@, texts(list@)),
                    statements_view(statements@) == before + wanted.take(i as int),
                decreases list.len() - i,
            {
                let join = Statement::new(kind).bind_text(owner).bind_text(list[i].as_str());
                proof {
                    assert(join@.binds =~= seq![text(owner@), text(list[i as int]@)]);
                    assert(wanted[i as int] == join@);
                    assert(statements_view(statements@.push(join)) =~= statements_view(
                        statements@,
                    ).push(join@));
                    assert(before + wanted.take(i + 1) =~= (before + wanted.take(i as int)).push(
                        join@,
                    ));
                }
                statements.push(join);
                i += 1;
            }
            assert(wanted.take(i as int) =~= wanted);
        },
    }
}

impl MutationRoot {
    /// Stores a new agent under `id`, with the unique name that derives from
    /// its name.
    pub fn insert_agent(&self, id: &str, new_agent: &NewAgent) -> (insert: Statement)
        ensures
            insert@ == agent_insert(
                id@,
                new_agent.name@,
                text_view(new_agent.email),
                new_agent.agent_type,
            ),
    {
        let derived = unique_name(new_agent.name.as_str());
        let insert = Statement::new(StatementKind::InsertAgent).bind_text(id).bind_text(
            new_agent.name.as_str(),
        ).bind_text(derived.as_str()).bind_nullable_text(&new_agent.email).bind_text(
            new_agent.agent_type.as_text(),
        );
        assert(insert@.binds =~= agent_insert(
            id@,
            new_agent.name@,
            text_view(new_agent.email),
            new_agent.agent_type,
        ).binds);
        insert
    }

    /// Stores a new agent under a fresh id.
    pub fn create_agent(&self, new_agent: &NewAgent) -> (insert: Statement)
        ensures
            exists|id: Seq<char>|
                is_ulid_text(id) && insert@ == #[trigger] agent_insert(
                    id,
                    new_agent.name@,
                    text_view(new_agent.email),
                    new_agent.agent_type,
                ),
    {
        let id = generate_id();
        self.insert_agent(id.as_str(), new_agent)
    }

    /// Removes the agent of a unique name.
    pub fn delete_agent(&self, unique_name: &str) -> (delete: Statement)
        ensures
            delete@ == statement(StatementKind::DeleteAgent, seq![text(unique_name@)]),
    {
        keyed_query(StatementKind::DeleteAgent, unique_name)
    }

    /// Stores a new label under `id`, with the unique name that derives from
    /// its name.
    pub fn insert_label(&self, id: &str, new_label: &NewLabel) -> (insert: Statement)
        ensures
            insert@ == label_insert(id@, new_label.name@, new_label.color@),
    {
        let derived = unique_name(new_label.name.as_str());
        let insert = Statement::new(StatementKind::InsertLabel).bind_text(id).bind_text(
            new_label.name.as_str(),
        ).bind_text(derived.as_str()).bind_text(new_label.color.as_str());
        assert(insert@.binds =~= label_insert(id@, new_label.name@, new_label.color@).binds);
        insert
    }

    /// Stores a new label under a fresh id.
    pub fn create_label(&self, new_label: &NewLabel) -> (insert: Statement)
        ensures
            exists|id: Seq<char>|
                is_ulid_text(id) && insert@ == #[trigger] label_insert(
                    id,
                    new_label.name@,
                    new_label.color@,
                ),
    {
        let id = generate_id();
        self.insert_label(id.as_str(), new_label)
    }

    /// Removes the label of an id.
    pub fn delete_label(&self, id: &str) -> (delete: Statement)
        ensures
            delete@ == statement(StatementKind::DeleteLabel, seq![text(id@)]),
    {
        keyed_query(StatementKind::DeleteLabel, id)
    }

    /// Stores a new plan under `id` and joins it to its agent. The row that
    /// the first statement returns is the plan created.
    pub fn insert_plan(&self, id: &str, new_plan: &NewPlan) -> (batch: Batch)
        ensures
            batch@ == plan_creation(id@, new_plan.title@, new_plan.agent_id@),
    {
        let plan = Statement::new(StatementKind::InsertPlan).bind_text(id).bind_text(
            new_plan.title.as_str(),
        );
        let join = Statement::new(StatementKind::InsertPlanAgent).bind_text(id).bind_text(
            new_plan.agent_id.as_str(),
        );
        let ghost wanted = plan_creation(id@, new_plan.title@, new_plan.agent_id@);
        assert(plan@.binds =~= wanted.statements[0].binds);
        assert(join@.binds =~= wanted.statements[1].binds);
        let mut statements: Vec<Statement> = Vec::new();
        statements.push(plan);
        statements.push(join);
        assert(statements_view(statements@) =~= wanted.statements);
        Batch { atomic: true, statements }
    }

    /// Stores a new plan under a fresh id and joins it to its agent.
    pub fn create_plan(&self, new_plan: &NewPlan) -> (batch: Batch)
        ensures
            exists|id: Seq<char>|
                is_ulid_text(id) && batch@ == #[trigger] plan_creation(
                    id,
                    new_plan.title@,
                    new_plan.agent_id@,
                ),
    {
        let id = generate_id();
        self.insert_plan(id.as_str(), new_plan)
    }

    /// Replaces the title and the description of a plan.
    pub fn update_plan(&self, update_plan: &UpdatePlan) -> (update: Statement)
        ensures
            update@ == statement(
                StatementKind::UpdatePlan,
                seq![
                    text(update_plan.title@),
                    nullable_text(text_view(update_plan.description)),
                    text(update_plan.id@),
                ],
            ),
    {
        let update = Statement::new(StatementKind::UpdatePlan).bind_text(
            update_plan.title.as_str(),
        ).bind_nullable_text(&update_plan.description).bind_text(update_plan.id.as_str());
        assert(update@.binds =~= seq![
            text(update_plan.title@),
            nullable_text(text_view(update_plan.description)),
            text(update_plan.id@),
        ]);
        update
    }

    /// Stores a new process under `id` with its join rows, all or nothing.
    /// The row that the first statement returns is the process created.
    pub fn insert_process(&self, id: &str, new_process: &NewProcess) -> (batch: Batch)
        ensures
            batch@ == process_creation(
                id@,
                new_process.title@,
                text_view(new_process.description),
                text_view(new_process.plan_id),
                listed(new_process.labels),
                listed(new_process.agents),
            ),
    {
        let process = Statement::new(StatementKind::InsertProcess).bind_text(id).bind_text(
            new_process.title.as_str(),
        ).bind_nullable_text(&new_process.description).bind_nullable_text(&new_process.plan_id);
        let ghost wanted = process_creation(
            id@,
            new_process.title@,
            text_view(new_process.description),
            text_view(new_process.plan_id),
            listed(new_process.labels),
            listed(new_process.agents),
        );
        assert(process@.binds =~= wanted.statements[0].binds);
        let mut statements: Vec<Statement> = Vec::new();
        statements.push(process);
        assert(statements_view(statements@) =~= seq![process@]);
        push_joins(&mut statements, StatementKind::InsertProcessLabel, id, &new_process.labels);
        push_joins(&mut statements, StatementKind::InsertProcessAgent, id, &new_process.agents);
        Batch { atomic: true, statements }
    }

    /// Stores a new process under a fresh id with its join rows.
    pub fn create_process(&self, new_process: &NewProcess) -> (batch: Batch)
        ensures
            exists|id: Seq<char>|
                is_ulid_text(id) && batch@ == #[trigger] process_creation(
                    id,
                    new_process.title@,
                    text_view(new_process.description),
                    text_view(new_process.plan_id),
                    listed(new_process.labels),
                    listed(new_process.agents),
                ),
    {
        let id = generate_id();
        self.insert_process(id.as_str(), new_process)
    }

    /// Asks for the labels and for the agents of one process, as they stand
    /// in the datastore.
    pub fn process_queries(&self, process_id: &str) -> (queries: (Statement, Statement))
        ensures
            queries.0@ == statement(StatementKind::SelectLabelsOfProcess, seq![text(process_id@)]),
            queries.1@ == statement(StatementKind::SelectAgentsOfProcess, seq![text(process_id@)]),
    {
        (
            keyed_query(StatementKind::SelectLabelsOfProcess, process_id),
            keyed_query(StatementKind::SelectAgentsOfProcess, process_id),
        )
    }

    /// Answers with the process created: the first of `process_rows`, with
    /// the labels and agents read back for it.
    pub fn created_process(
        &self,
        process_rows: &Vec<Row>,
        label_rows: &Vec<Row>,
        agent_rows: &Vec<Row>,
    ) -> (got: Result<Process, Error>)
        ensures
            answers(
                got,
                process_answer(
                    rows_view(process_rows@),
                    rows_view(label_rows@),
                    rows_view(agent_rows@),
                ),
            ),
    {
        let process = first_row::<Process>(process_rows)?;
        let labels = match decode_rows::<Label>(label_rows) {
            Ok(labels) => labels,
            Err(e) => {
                return Err(Error::DecodeError(e));
            },
        };
        let agents = match decode_rows::<Agent>(agent_rows) {
            Ok(agents) => agents,
            Err(e) => {
                return Err(Error::DecodeError(e));
            },
        };
        Ok(
            Process {
                id: process.id,
                title: process.title,
                description: process.description,
                labels,
                agents,
                inserted_at: process.inserted_at,
                start_at: process.start_at,
                due_at: process.due_at,
                plan_id: process.plan_id,
                agent_id: process.agent_id,
                commitments: process.commitments,
            },
        )
    }

    /// Replaces the labels, the agents, the title and the description of a
    /// process, all or nothing. The last statement's count is the answer.
    pub fn update_process(&self, update_process: &UpdateProcess) -> (batch: Batch)
        ensures
            batch@ == process_update(
                update_process.id@,
                update_process.title@,
                text_view(update_process.description),
                listed(update_process.labels),
                listed(update_process.agents),
            ),
    {
        let id = update_process.id.as_str();
        let mut statements: Vec<Statement> = Vec::new();
        let unlabel = keyed_query(StatementKind::DeleteProcessLabels, id);
        let unjoin = keyed_query(StatementKind::DeleteProcessAgents, id);
        assert(statements_view(statements@.push(unlabel).push(unjoin)) =~= seq![
            unlabel@,
            unjoin@,
        ]);
        statements.push(unlabel);
        statements.push(unjoin);
        push_joins(&mut statements, StatementKind::InsertProcessLabel, id, &update_process.labels);
        push_joins(&mut statements, StatementKind::InsertProcessAgent, id, &update_process.agents);
        let update = Statement::new(StatementKind::UpdateProcess).bind_text(
            update_process.title.as_str(),
        ).bind_nullable_text(&update_process.description).bind_text(id);
        proof {
            assert(update@.binds =~= seq![
                text(update_process.title@),
                nullable_text(text_view(update_process.description)),
                text(update_process.id@),
            ]);
            assert(statements_view(statements@.push(update)) =~= statements_view(statements@)
                + seq![update@]);
        }
        statements.push(update);
        Batch { atomic: true, statements }
    }

    /// Removes a process and its join rows, all or nothing. The last
    /// statement's count is the answer.
    pub fn delete_process(&self, process_id: &str) -> (batch: Batch)
        ensures
            batch@ == process_deletion(process_id@),
    {
        let unlabel = keyed_query(StatementKind::DeleteProcessLabels, process_id);
        let unjoin = keyed_query(StatementKind::DeleteProcessAgents, process_id);
        let delete = keyed_query(StatementKind::DeleteProcess, process_id);
        let mut statements: Vec<Statement> = Vec::new();
        assert(statements_view(statements@.push(unlabel).push(unjoin).push(delete)) =~= seq![
            unlabel@,
            unjoin@,
            delete@,
        ]);
        statements.push(unlabel);
        statements.push(unjoin);
        statements.push(delete);
        Batch { atomic: true, statements }
    }

    /// Stores a new resource specification under `id`, with the unique name
    /// that derives from its name.
    pub fn insert_resource_specification(
        &self,
        id: &str,
        new_resource_specification: &NewResourceSpecification,
    ) -> (insert: Statement)
        ensures
            insert@ == resource_specification_insert(id@, new_resource_specification.name@),
    {
        let derived = unique_name(new_resource_specification.name.as_str());
        let insert = Statement::new(StatementKind::InsertResourceSpecification).bind_text(
            id,
        ).bind_text(new_resource_specification.name.as_str()).bind_text(derived.as_str());
        assert(insert@.binds =~= resource_specification_insert(
            id@,
            new_resource_specification.name@,
        ).binds);
        insert
    }

    /// Stores a new resource specification under a fresh id.
    pub fn create_resource_specification(
        &self,
        new_resource_specification: &NewResourceSpecification,
    ) -> (insert: Statement)
        ensures
            exists|id: Seq<char>|
                is_ulid_text(id) && insert@ == #[trigger] resource_specification_insert(
                    id,
                    new_resource_specification.name@,
                ),
    {
        let id = generate_id();
        self.insert_resource_specification(id.as_str(), new_resource_specification)
    }

    /// Removes the resource specification of a unique name.
    pub fn delete_resource_specification(&self, unique_name: &str) -> (delete: Statement)
        ensures
            delete@ == statement(
                StatementKind::DeleteResourceSpecification,
                seq![text(unique_name@)],
            ),
    {
        keyed_query(StatementKind::DeleteResourceSpecification, unique_name)
    }

    /// Stores a new commitment under `id`.
    pub fn insert_commitment(&self, id: &str, new_commitment: &NewCommitment) -> (insert: Statement)
        ensures
            insert@ == commitment_insert(id@, *new_commitment),
    {
        let insert = Statement::new(StatementKind::InsertCommitment).bind_text(id).bind_text(
            new_commitment.description.as_str(),
        ).bind_text(new_commitment.process_id.as_str()).bind_text(
            new_commitment.action_id.as_str(),
        ).bind_nullable_text(&new_commitment.assigned_agent_id).bind_count(
            new_commitment.quantity,
        ).bind_text(new_commitment.unit_id.as_str()).bind_text(
            new_commitment.resource_specification_id.as_str(),
        ).bind_nullable_timestamp(new_commitment.due_at);
        assert(insert@.binds =~= commitment_insert(id@, *new_commitment).binds);
        insert
    }

    /// Stores a new commitment under a fresh id.
    pub fn create_commitment(&self, new_commitment: &NewCommitment) -> (insert: Statement)
        ensures
            exists|id: Seq<char>|
                is_ulid_text(id) && insert@ == #[trigger] commitment_insert(id, *new_commitment),
    {
        let id = generate_id();
        self.insert_commitment(id.as_str(), new_commitment)
    }

    /// Asks for what a commitment refers to: its action, its unit, its
    /// resource specification and, where it has one, its assigned agent.
    pub fn commitment_queries(&self, commitment: &Commitment) -> (queries: CommitmentQueries)
        ensures
            queries.action@ == statement(StatementKind::SelectAction, seq![text(commitment.action_id@)]),
            queries.unit@ == statement(StatementKind::SelectUnit, seq![text(commitment.unit_id@)]),
            queries.resource_specification@ == statement(
                StatementKind::SelectResourceSpecification,
                seq![text(commitment.resource_specification_id@)],
            ),
            match (queries.assigned_agent, commitment.assigned_agent_id) {
                (Some(query), Some(id)) => query@ == statement(
                    StatementKind::SelectAgent,
                    seq![text(id@)],
                ),
                (None, None) => true,
                _ => false,
            },
    {
        CommitmentQueries {
            action: keyed_query(StatementKind::SelectAction, commitment.action_id.as_str()),
            unit: keyed_query(StatementKind::SelectUnit, commitment.unit_id.as_str()),
            resource_specification: keyed_query(
                StatementKind::SelectResourceSpecification,
                commitment.resource_specification_id.as_str(),
            ),
            assigned_agent: match &commitment.assigned_agent_id {
                Some(id) => Some(keyed_query(StatementKind::SelectAgent, id.as_str())),
                None => None,
            },
        }
    }

    /// Answers with the commitment created: the first of `commitment_rows`,
    /// with the first row of each fetch for what it refers to.
    pub fn created_commitment(&self, commitment_rows: &Vec<Row>, fetched: &CommitmentRows) -> (got:
        Result<Commitment, Error>)
        ensures
            answers(
                got,
                commitment_answer(
                    rows_view(commitment_rows@),
                    rows_view(fetched.action@),
                    rows_view(fetched.unit@),
                    rows_view(fetched.resource_specification@),
                    rows_view(fetched.assigned_agent@),
                ),
            ),
    {
        let commitment = first_row::<Commitment>(commitment_rows)?;
        let action = first_row::<Action>(&fetched.action)?;
        let unit = first_row::<Unit>(&fetched.unit)?;
        let resource_specification = first_row::<ResourceSpecification>(
            &fetched.resource_specification,
        )?;
        let assigned_agent = match &commitment.assigned_agent_id {
            Some(_) => Some(first_row::<Agent>(&fetched.assigned_agent)?),
            None => None,
        };
        Ok(
            Commitment {
                id: commitment.id,
                description: commitment.description,
                process_id: commitment.process_id,
                action_id: commitment.action_id,
                action: Some(action),
                assigned_agent_id: commitment.assigned_agent_id,
                assigned_agent,
                quantity: commitment.quantity,
                unit_id: commitment.unit_id,
                unit: Some(unit),
                resource_specification_id: commitment.resource_specification_id,
                resource_specification: Some(resource_specification),
                due_at: commitment.due_at,
                inserted_at: commitment.inserted_at,
            },
        )
    }

    /// Replaces the fields of a commitment.
    pub fn update_commitment(&self, update_commitment: &UpdateCommitment) -> (update: Statement)
        ensures
            update@ == commitment_update(*update_commitment),
    {
        let update = Statement::new(StatementKind::UpdateCommitment).bind_nullable_text(
            &update_commitment.description,
        ).bind_nullable_text(&update_commitment.unit_id).bind_nullable_text(
            &update_commitment.action_id,
        ).bind_nullable_text(&update_commitment.resource_specification_id).bind_nullable_count(
            update_commitment.quantity,
        ).bind_nullable_text(&update_commitment.assigned_agent_id).bind_nullable_timestamp(
            update_commitment.due_at,
        ).bind_text(update_commitment.id.as_str());
        assert(update@.binds =~= commitment_update(*update_commitment).binds);
        update
    }

    /// Removes the commitment of an id.
    pub fn delete_commitment(&self, id: &str) -> (delete: Statement)
        ensures
            delete@ == statement(StatementKind::DeleteCommitment, seq![text(id@)]),
    {
        keyed_query(StatementKind::DeleteCommitment, id)
    }

    /// Removes the agent relation of an id.
    pub fn delete_relationship(&self, id: &str) -> (delete: Statement)
        ensures
            delete@ == statement(StatementKind::DeleteRelationship, seq![text(id@)]),
    {
        keyed_query(StatementKind::DeleteRelationship, id)
    }

    /// Answers with the entity that a statement returned: its first row.
    pub fn created<T: FromRow>(&self, rows: &Vec<Row>) -> (got: Result<T, Error>)
        ensures
            answers(got, first_answer::<T>(rows_view(rows@))),
    {
        first_row::<T>(rows)
    }

    /// The number of rows that a statement affected, as the API reports it.
    pub fn affected(&self, rows_affected: u64) -> (count: i32)
        ensures
            count == reported_count(rows_affected),
            rows_affected <= i32::MAX ==> count == rows_affected,
    {
        let low: u64 = rows_affected % 4294967296;
        if low < 2147483648 {
            low as i32
        } else {
            (low as i64 - 4294967296) as i32
        }
    }
}

/// The statement that stores a new commitment under `id`.
pub open spec fn commitment_insert(id: Seq<char>, new_commitment: NewCommitment) -> StatementView {
    statement(
        StatementKind::InsertCommitment,
        seq![
            text(id),
            text(new_commitment.description@),
            text(new_commitment.process_id@),
            text(new_commitment.action_id@),
            nullable_text(text_view(new_commitment.assigned_agent_id)),
            crate::row::ValueView::Integer(new_commitment.quantity as i64),
            text(new_commitment.unit_id@),
            text(new_commitment.resource_specification_id@),
            nullable_timestamp(new_commitment.due_at),
        ],
    )
}

/// The statement that replaces the fields of a commitment.
pub open spec fn commitment_update(update_commitment: UpdateCommitment) -> StatementView {
    statement(
        StatementKind::UpdateCommitment,
        seq![
            nullable_text(text_view(update_commitment.description)),
            nullable_text(text_view(update_commitment.unit_id)),
            nullable_text(text_view(update_commitment.action_id)),
            nullable_text(text_view(update_commitment.resource_specification_id)),
            nullable_count(update_commitment.quantity),
            nullable_text(text_view(update_commitment.assigned_agent_id)),
            nullable_timestamp(update_commitment.due_at),
            text(update_commitment.id@),
        ],
    )
}

/// What the creation of a process answers: the process of the first row,
/// with the labels and the agents of the rows read back, in their order.
pub open spec fn process_answer(
    process_rows: Seq<RowView>,
    label_rows: Seq<RowView>,
    agent_rows: Seq<RowView>,
) -> Result<ProcessView, ErrorView> {
    let process = first_answer::<Process>(process_rows);
    let labels = decoded_all::<Label>(label_rows);
    let agents = decoded_all::<Agent>(agent_rows);
    if process is Err {
        Err(process->Err_0)
    } else if labels is Err {
        Err(undecoded(labels))
    } else if agents is Err {
        Err(undecoded(agents))
    } else {
        Ok(ProcessView { labels: labels->Ok_0, agents: agents->Ok_0, ..process->Ok_0 })
    }
}

/// What the creation of a commitment answers: the commitment of the first
/// row, with the first action, unit and resource specification fetched for
/// it, and the first agent where it is assigned to one.
pub open spec fn commitment_answer(
    commitment_rows: Seq<RowView>,
    action_rows: Seq<RowView>,
    unit_rows: Seq<RowView>,
    resource_specification_rows: Seq<RowView>,
    agent_rows: Seq<RowView>,
) -> Result<CommitmentView, ErrorView> {
    let commitment = first_answer::<Commitment>(commitment_rows);
    let action = first_answer::<Action>(action_rows);
    let unit = first_answer::<Unit>(unit_rows);
    let resource_specification = first_answer::<ResourceSpecification>(
        resource_specification_rows,
    );
    let agent = first_answer::<Agent>(agent_rows);
    if commitment is Err {
        Err(commitment->Err_0)
    } else if action is Err {
        Err(action->Err_0)
    } else if unit is Err {
        Err(unit->Err_0)
    } else if resource_specification is Err {
        Err(resource_specification->Err_0)
    } else if commitment->Ok_0.assigned_agent_id is Some && agent is Err {
        Err(agent->Err_0)
    } else {
        Ok(
            CommitmentView {
                action: Some(action->Ok_0),
                unit: Some(unit->Ok_0),
                resource_specification: Some(resource_specification->Ok_0),
                assigned_agent: if commitment->Ok_0.assigned_agent_id is Some {
                    Some(agent->Ok_0)
                } else {
                    None
                },
                ..commitment->Ok_0
            },
        )
    }
}

} // verus!
