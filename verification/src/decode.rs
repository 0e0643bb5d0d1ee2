//! The row decoder: from one flat row to one typed entity.
//!
//! A query may select any subset of an entity's columns. A column that the
//! row holds is read, and must hold a value that the field can take. A field
//! whose column the row leaves out keeps its type's zero value, unless the
//! entity cannot do without it.

use crate::error::{DecodeError, DecodeErrorView, Fault};
use crate::model::{
    agent_type_named, input_output_named, Action, ActionView, Agent, AgentRelationship,
    AgentRelationshipView, AgentType, AgentView, Commitment, CommitmentView, InputOutput, Label,
    LabelView, Plan, PlanView, Process, ProcessView, ResourceSpecification,
    ResourceSpecificationView, Unit, UnitView, no_agent,
};
use crate::model::{keyed_views, views};
use crate::row::{
    cell, defaulted_nullable_text, defaulted_nullable_timestamp, defaulted_text,
    defaulted_timestamp, failed, lenient_text, lenient_timestamp, required_count, required_nullable_text, required_text,
    required_timestamp, rows_view, Row, RowView, ValueView,
};
use vstd::prelude::*;

verus! {

/// Whether a decoded value and its model agree: the same entity by its view,
/// or the same error.
pub open spec fn agrees<T: View>(
    read: Result<T, DecodeError>,
    model: Result<T::V, DecodeErrorView>,
) -> bool {
    match (read, model) {
        (Ok(entity), Ok(view)) => entity@ == view,
        (Err(e), Err(f)) => e@ == f,
        _ => false,
    }
}

/// An entity that can be read from a row.
pub trait FromRow: Sized + View {
    /// What a row decodes to: the entity, or the first column, in the order
    /// of the entity's fields, that keeps it from decoding.
    spec fn decoded(row: RowView) -> Result<Self::V, DecodeErrorView>;

    /// Decodes one row.
    fn from_row(row: &Row) -> (read: Result<Self, DecodeError>)
        ensures
            agrees(read, Self::decoded(row@)),
    ;
}

/// The kind of agent in the column `name`, which has to be there: no kind is
/// assumed for a row that leaves it out.
pub open spec fn agent_type_field(row: RowView, name: Seq<char>) -> Result<
    AgentType,
    DecodeErrorView,
> {
    match cell(row, name) {
        Some(ValueView::Text(text)) => match agent_type_named(text) {
            Some(kind) => Ok(kind),
            None => Err(failed(Fault::UnknownVariant, name)),
        },
        Some(_) => Err(failed(Fault::WrongType, name)),
        None => Err(failed(Fault::MissingColumn, name)),
    }
}

/// The direction in the column `name`, which has to be there.
pub open spec fn input_output_field(row: RowView, name: Seq<char>) -> Result<
    InputOutput,
    DecodeErrorView,
> {
    match cell(row, name) {
        Some(ValueView::Text(text)) => match input_output_named(text) {
            Some(direction) => Ok(direction),
            None => Err(failed(Fault::UnknownVariant, name)),
        },
        Some(_) => Err(failed(Fault::WrongType, name)),
        None => Err(failed(Fault::MissingColumn, name)),
    }
}

/// Reads the kind of agent from the column `name`.
fn read_agent_type(row: &Row, name: &str) -> (read: Result<AgentType, DecodeError>)
    ensures
        crate::row::plain_agrees(read, agent_type_field(row@, name@)),
{
    match row.get(name) {
        Some(value) => match value.text() {
            Some(text) => match AgentType::from_text(text.as_str()) {
                Some(kind) => Ok(kind),
                None => Err(DecodeError::new(Fault::UnknownVariant, name)),
            },
            None => Err(DecodeError::new(Fault::WrongType, name)),
        },
        None => Err(DecodeError::new(Fault::MissingColumn, name)),
    }
}

/// Reads the direction of an action from the column `name`.
fn read_input_output(row: &Row, name: &str) -> (read: Result<InputOutput, DecodeError>)
    ensures
        crate::row::plain_agrees(read, input_output_field(row@, name@)),
{
    match row.get(name) {
        Some(value) => match value.text() {
            Some(text) => match InputOutput::from_text(text.as_str()) {
                Some(direction) => Ok(direction),
                None => Err(DecodeError::new(Fault::UnknownVariant, name)),
            },
            None => Err(DecodeError::new(Fault::WrongType, name)),
        },
        None => Err(DecodeError::new(Fault::MissingColumn, name)),
    }
}

impl FromRow for Agent {
    /// `id`, `name`, `unique_name` and `agent_type` are required.
    open spec fn decoded(row: RowView) -> Result<AgentView, DecodeErrorView> {
        let id = required_text(row, "id"@);
        let name = required_text(row, "name"@);
        let unique_name = required_text(row, "unique_name"@);
        let email = defaulted_nullable_text(row, "email"@);
        let agent_type = agent_type_field(row, "agent_type"@);
        let inserted_at = defaulted_timestamp(row, "inserted_at"@);
        if id is Err {
            Err(id->Err_0)
        } else if name is Err {
            Err(name->Err_0)
        } else if unique_name is Err {
            Err(unique_name->Err_0)
        } else if email is Err {
            Err(email->Err_0)
        } else if agent_type is Err {
            Err(agent_type->Err_0)
        } else if inserted_at is Err {
            Err(inserted_at->Err_0)
        } else {
            Ok(
                AgentView {
                    id: id->Ok_0,
                    name: name->Ok_0,
                    unique_name: unique_name->Ok_0,
                    email: email->Ok_0,
                    agent_type: agent_type->Ok_0,
                    inserted_at: inserted_at->Ok_0,
                },
            )
        }
    }

    fn from_row(row: &Row) -> (read: Result<Agent, DecodeError>) {
        let id = row.required_text("id")?;
        let name = row.required_text("name")?;
        let unique_name = row.required_text("unique_name")?;
        let email = row.defaulted_nullable_text("email")?;
        let agent_type = read_agent_type(row, "agent_type")?;
        let inserted_at = row.defaulted_timestamp("inserted_at")?;
        Ok(Agent { id, name, unique_name, email, agent_type, inserted_at })
    }
}

impl FromRow for Label {
    /// `id`, `name` and `color` are required.
    open spec fn decoded(row: RowView) -> Result<LabelView, DecodeErrorView> {
        let id = required_text(row, "id"@);
        let name = required_text(row, "name"@);
        let unique_name = defaulted_text(row, "unique_name"@);
        let color = required_text(row, "color"@);
        let inserted_at = defaulted_timestamp(row, "inserted_at"@);
        if id is Err {
            Err(id->Err_0)
        } else if name is Err {
            Err(name->Err_0)
        } else if unique_name is Err {
            Err(unique_name->Err_0)
        } else if color is Err {
            Err(color->Err_0)
        } else if inserted_at is Err {
            Err(inserted_at->Err_0)
        } else {
            Ok(
                LabelView {
                    id: id->Ok_0,
                    name: name->Ok_0,
                    unique_name: unique_name->Ok_0,
                    color: color->Ok_0,
                    inserted_at: inserted_at->Ok_0,
                },
            )
        }
    }

    fn from_row(row: &Row) -> (read: Result<Label, DecodeError>) {
        let id = row.required_text("id")?;
        let name = row.required_text("name")?;
        let unique_name = row.defaulted_text("unique_name")?;
        let color = row.required_text("color")?;
        let inserted_at = row.defaulted_timestamp("inserted_at")?;
        Ok(Label { id, name, unique_name, color, inserted_at })
    }
}

impl FromRow for Action {
    /// Every column is required.
    open spec fn decoded(row: RowView) -> Result<ActionView, DecodeErrorView> {
        let id = required_text(row, "id"@);
        let name = required_text(row, "name"@);
        let input_output = input_output_field(row, "input_output"@);
        let inserted_at = required_timestamp(row, "inserted_at"@);
        if id is Err {
            Err(id->Err_0)
        } else if name is Err {
            Err(name->Err_0)
        } else if input_output is Err {
            Err(input_output->Err_0)
        } else if inserted_at is Err {
            Err(inserted_at->Err_0)
        } else {
            Ok(
                ActionView {
                    id: id->Ok_0,
                    name: name->Ok_0,
                    input_output: input_output->Ok_0,
                    inserted_at: inserted_at->Ok_0,
                },
            )
        }
    }

    fn from_row(row: &Row) -> (read: Result<Action, DecodeError>) {
        let id = row.required_text("id")?;
        let name = row.required_text("name")?;
        let input_output = read_input_output(row, "input_output")?;
        let inserted_at = row.required_timestamp("inserted_at")?;
        Ok(Action { id, name, input_output, inserted_at })
    }
}

impl FromRow for Unit {
    /// Every column is required.
    open spec fn decoded(row: RowView) -> Result<UnitView, DecodeErrorView> {
        let id = required_text(row, "id"@);
        let label = required_text(row, "label"@);
        let inserted_at = required_timestamp(row, "inserted_at"@);
        if id is Err {
            Err(id->Err_0)
        } else if label is Err {
            Err(label->Err_0)
        } else if inserted_at is Err {
            Err(inserted_at->Err_0)
        } else {
            Ok(UnitView { id: id->Ok_0, label: label->Ok_0, inserted_at: inserted_at->Ok_0 })
        }
    }

    fn from_row(row: &Row) -> (read: Result<Unit, DecodeError>) {
        let id = row.required_text("id")?;
        let label = row.required_text("label")?;
        let inserted_at = row.required_timestamp("inserted_at")?;
        Ok(Unit { id, label, inserted_at })
    }
}

impl FromRow for ResourceSpecification {
    /// `id`, `name` and `inserted_at` are required.
    open spec fn decoded(row: RowView) -> Result<ResourceSpecificationView, DecodeErrorView> {
        let id = required_text(row, "id"@);
        let name = required_text(row, "name"@);
        let unique_name = defaulted_text(row, "unique_name"@);
        let inserted_at = required_timestamp(row, "inserted_at"@);
        let agent_unique_name = defaulted_text(row, "agent_unique_name"@);
        if id is Err {
            Err(id->Err_0)
        } else if name is Err {
            Err(name->Err_0)
        } else if unique_name is Err {
            Err(unique_name->Err_0)
        } else if inserted_at is Err {
            Err(inserted_at->Err_0)
        } else if agent_unique_name is Err {
            Err(agent_unique_name->Err_0)
        } else {
            Ok(
                ResourceSpecificationView {
                    id: id->Ok_0,
                    name: name->Ok_0,
                    unique_name: unique_name->Ok_0,
                    inserted_at: inserted_at->Ok_0,
                    agent_unique_name: agent_unique_name->Ok_0,
                },
            )
        }
    }

    fn from_row(row: &Row) -> (read: Result<ResourceSpecification, DecodeError>) {
        let id = row.required_text("id")?;
        let name = row.required_text("name")?;
        let unique_name = row.defaulted_text("unique_name")?;
        let inserted_at = row.required_timestamp("inserted_at")?;
        let agent_unique_name = row.defaulted_text("agent_unique_name")?;
        Ok(ResourceSpecification { id, name, unique_name, inserted_at, agent_unique_name })
    }
}

impl FromRow for Commitment {
    /// Every column of the commitment's own is required but `due_at`. What
    /// the commitment refers to is attached later.
    open spec fn decoded(row: RowView) -> Result<CommitmentView, DecodeErrorView> {
        let id = required_text(row, "id"@);
        let description = required_text(row, "description"@);
        let process_id = required_text(row, "process_id"@);
        let action_id = required_text(row, "action_id"@);
        let assigned_agent_id = required_nullable_text(row, "assigned_agent_id"@);
        let quantity = required_count(row, "quantity"@);
        let unit_id = required_text(row, "unit_id"@);
        let resource_specification_id = required_text(row, "resource_specification_id"@);
        let due_at = defaulted_nullable_timestamp(row, "due_at"@);
        let inserted_at = required_timestamp(row, "inserted_at"@);
        if id is Err {
            Err(id->Err_0)
        } else if description is Err {
            Err(description->Err_0)
        } else if process_id is Err {
            Err(process_id->Err_0)
        } else if action_id is Err {
            Err(action_id->Err_0)
        } else if assigned_agent_id is Err {
            Err(assigned_agent_id->Err_0)
        } else if quantity is Err {
            Err(quantity->Err_0)
        } else if unit_id is Err {
            Err(unit_id->Err_0)
        } else if resource_specification_id is Err {
            Err(resource_specification_id->Err_0)
        } else if due_at is Err {
            Err(due_at->Err_0)
        } else if inserted_at is Err {
            Err(inserted_at->Err_0)
        } else {
            Ok(
                CommitmentView {
                    id: id->Ok_0,
                    description: description->Ok_0,
                    process_id: process_id->Ok_0,
                    action_id: action_id->Ok_0,
                    action: None,
                    assigned_agent_id: assigned_agent_id->Ok_0,
                    assigned_agent: None,
                    quantity: quantity->Ok_0,
                    unit_id: unit_id->Ok_0,
                    unit: None,
                    resource_specification_id: resource_specification_id->Ok_0,
                    resource_specification: None,
                    due_at: due_at->Ok_0,
                    inserted_at: inserted_at->Ok_0,
                },
            )
        }
    }

    fn from_row(row: &Row) -> (read: Result<Commitment, DecodeError>) {
        let id = row.required_text("id")?;
        let description = row.required_text("description")?;
        let process_id = row.required_text("process_id")?;
        let action_id = row.required_text("action_id")?;
        let assigned_agent_id = row.required_nullable_text("assigned_agent_id")?;
        let quantity = row.required_count("quantity")?;
        let unit_id = row.required_text("unit_id")?;
        let resource_specification_id = row.required_text("resource_specification_id")?;
        let due_at = row.defaulted_nullable_timestamp("due_at")?;
        let inserted_at = row.required_timestamp("inserted_at")?;
        Ok(
            Commitment {
                id,
                description,
                process_id,
                action_id,
                action: None,
                assigned_agent_id,
                assigned_agent: None,
                quantity,
                unit_id,
                unit: None,
                resource_specification_id,
                resource_specification: None,
                due_at,
                inserted_at,
            },
        )
    }
}

impl FromRow for Process {
    /// `id`, `title`, `description`, `inserted_at`, `start_at` and `plan_id`
    /// are required. `due_at` and `agent_id` keep their zero value where the
    /// row leaves them out or holds no value for them. Labels, agents and
    /// commitments are attached later.
    open spec fn decoded(row: RowView) -> Result<ProcessView, DecodeErrorView> {
        let id = required_text(row, "id"@);
        let title = required_text(row, "title"@);
        let description = required_nullable_text(row, "description"@);
        let inserted_at = required_timestamp(row, "inserted_at"@);
        let start_at = required_timestamp(row, "start_at"@);
        let due_at = lenient_timestamp(row, "due_at"@);
        let plan_id = required_text(row, "plan_id"@);
        let agent_id = lenient_text(row, "agent_id"@);
        if id is Err {
            Err(id->Err_0)
        } else if title is Err {
            Err(title->Err_0)
        } else if description is Err {
            Err(description->Err_0)
        } else if inserted_at is Err {
            Err(inserted_at->Err_0)
        } else if start_at is Err {
            Err(start_at->Err_0)
        } else if due_at is Err {
            Err(due_at->Err_0)
        } else if plan_id is Err {
            Err(plan_id->Err_0)
        } else if agent_id is Err {
            Err(agent_id->Err_0)
        } else {
            Ok(
                ProcessView {
                    id: id->Ok_0,
                    title: title->Ok_0,
                    description: description->Ok_0,
                    labels: Seq::empty(),
                    agents: Seq::empty(),
                    inserted_at: inserted_at->Ok_0,
                    start_at: start_at->Ok_0,
                    due_at: due_at->Ok_0,
                    plan_id: plan_id->Ok_0,
                    agent_id: agent_id->Ok_0,
                    commitments: Seq::empty(),
                },
            )
        }
    }

    fn from_row(row: &Row) -> (read: Result<Process, DecodeError>) {
        let id = row.required_text("id")?;
        let title = row.required_text("title")?;
        let description = row.required_nullable_text("description")?;
        let inserted_at = row.required_timestamp("inserted_at")?;
        let start_at = row.required_timestamp("start_at")?;
        let due_at = row.lenient_timestamp("due_at")?;
        let plan_id = row.required_text("plan_id")?;
        let agent_id = row.lenient_text("agent_id")?;
        let process = Process {
            id,
            title,
            description,
            labels: Vec::new(),
            agents: Vec::new(),
            inserted_at,
            start_at,
            due_at,
            plan_id,
            agent_id,
            commitments: Vec::new(),
        };
        assert(process@.labels =~= Seq::empty());
        assert(process@.agents =~= Seq::empty());
        assert(process@.commitments =~= Seq::empty());
        Ok(process)
    }
}

impl FromRow for Plan {
    /// Every column is required. Processes are attached later.
    open spec fn decoded(row: RowView) -> Result<PlanView, DecodeErrorView> {
        let id = required_text(row, "id"@);
        let title = required_text(row, "title"@);
        let description = required_nullable_text(row, "description"@);
        let inserted_at = required_timestamp(row, "inserted_at"@);
        if id is Err {
            Err(id->Err_0)
        } else if title is Err {
            Err(title->Err_0)
        } else if description is Err {
            Err(description->Err_0)
        } else if inserted_at is Err {
            Err(inserted_at->Err_0)
        } else {
            Ok(
                PlanView {
                    id: id->Ok_0,
                    title: title->Ok_0,
                    description: description->Ok_0,
                    processes: Seq::empty(),
                    inserted_at: inserted_at->Ok_0,
                },
            )
        }
    }

    fn from_row(row: &Row) -> (read: Result<Plan, DecodeError>) {
        let id = row.required_text("id")?;
        let title = row.required_text("title")?;
        let description = row.required_nullable_text("description")?;
        let inserted_at = row.required_timestamp("inserted_at")?;
        let plan = Plan { id, title, description, processes: Vec::new(), inserted_at };
        assert(plan@.processes =~= Seq::empty());
        Ok(plan)
    }
}

impl FromRow for AgentRelationship {
    /// `id`, `subject_id`, `object_id` and `agent_relation_type_name` are
    /// required. The two agents are attached later.
    open spec fn decoded(row: RowView) -> Result<AgentRelationshipView, DecodeErrorView> {
        let id = required_text(row, "id"@);
        let subject_id = required_text(row, "subject_id"@);
        let object_id = required_text(row, "object_id"@);
        let agent_relation_type_id = defaulted_text(row, "agent_relation_type_id"@);
        let agent_relation_type = required_text(row, "agent_relation_type_name"@);
        let inserted_at = defaulted_timestamp(row, "inserted_at"@);
        if id is Err {
            Err(id->Err_0)
        } else if subject_id is Err {
            Err(subject_id->Err_0)
        } else if object_id is Err {
            Err(object_id->Err_0)
        } else if agent_relation_type_id is Err {
            Err(agent_relation_type_id->Err_0)
        } else if agent_relation_type is Err {
            Err(agent_relation_type->Err_0)
        } else if inserted_at is Err {
            Err(inserted_at->Err_0)
        } else {
            Ok(
                AgentRelationshipView {
                    id: id->Ok_0,
                    subject_id: subject_id->Ok_0,
                    subject: no_agent(),
                    object_id: object_id->Ok_0,
                    object: no_agent(),
                    agent_relation_type_id: agent_relation_type_id->Ok_0,
                    agent_relation_type: agent_relation_type->Ok_0,
                    inserted_at: inserted_at->Ok_0,
                },
            )
        }
    }

    fn from_row(row: &Row) -> (read: Result<AgentRelationship, DecodeError>) {
        let id = row.required_text("id")?;
        let subject_id = row.required_text("subject_id")?;
        let object_id = row.required_text("object_id")?;
        let agent_relation_type_id = row.defaulted_text("agent_relation_type_id")?;
        let agent_relation_type = row.required_text("agent_relation_type_name")?;
        let inserted_at = row.defaulted_timestamp("inserted_at")?;
        Ok(
            AgentRelationship {
                id,
                subject_id,
                subject: Agent::default(),
                object_id,
                object: Agent::default(),
                agent_relation_type_id,
                agent_relation_type,
                inserted_at,
            },
        )
    }
}

/// Applies `each` to every item in order: all the results, or the error of
/// the first item that fails.
pub open spec fn all_or_first_error<A, B>(
    items: Seq<A>,
    each: spec_fn(A) -> Result<B, DecodeErrorView>,
) -> Result<Seq<B>, DecodeErrorView>
    decreases items.len(),
{
    if items.len() == 0 {
        Ok(Seq::empty())
    } else {
        match all_or_first_error(items.drop_last(), each) {
            Err(e) => Err(e),
            Ok(before) => match each(items.last()) {
                Err(e) => Err(e),
                Ok(one) => Ok(before.push(one)),
            },
        }
    }
}

/// An error among the first `n` items is the error of the whole.
pub proof fn lemma_first_error_stays<A, B>(
    items: Seq<A>,
    each: spec_fn(A) -> Result<B, DecodeErrorView>,
    n: int,
)
    requires
        0 <= n <= items.len(),
        all_or_first_error(items.take(n), each) is Err,
    ensures
        all_or_first_error(items, each) == all_or_first_error(items.take(n), each),
    decreases items.len(),
{
    if n == items.len() {
        assert(items.take(n) =~= items);
    } else {
        assert(items.drop_last().take(n) =~= items.take(n));
        lemma_first_error_stays(items.drop_last(), each, n);
    }
}

/// Every row decoded as a `T`, in order.
pub open spec fn decoded_all<T: FromRow>(rows: Seq<RowView>) -> Result<
    Seq<T::V>,
    DecodeErrorView,
> {
    all_or_first_error(rows, |row: RowView| T::decoded(row))
}

/// One row of a grouped fetch: the grouping key from the column
/// `key_column`, which has to be a text, then the entity.
pub open spec fn decoded_pair<T: FromRow>(row: RowView, key_column: Seq<char>) -> Result<
    (Seq<char>, T::V),
    DecodeErrorView,
> {
    match required_text(row, key_column) {
        Err(e) => Err(e),
        Ok(key) => match T::decoded(row) {
            Err(e) => Err(e),
            Ok(entity) => Ok((key, entity)),
        },
    }
}

/// Every row of a grouped fetch decoded, in order.
pub open spec fn decoded_keyed<T: FromRow>(rows: Seq<RowView>, key_column: Seq<char>) -> Result<
    Seq<(Seq<char>, T::V)>,
    DecodeErrorView,
> {
    all_or_first_error(rows, |row: RowView| decoded_pair::<T>(row, key_column))
}

/// Whether decoded entities and their model agree.
pub open spec fn list_agrees<T: View>(
    read: Result<Vec<T>, DecodeError>,
    model: Result<Seq<T::V>, DecodeErrorView>,
) -> bool {
    match (read, model) {
        (Ok(entities), Ok(expected)) => views(entities@) == expected,
        (Err(e), Err(f)) => e@ == f,
        _ => false,
    }
}

/// Whether decoded pairs and their model agree.
pub open spec fn pairs_agree<T: View>(
    read: Result<Vec<(String, T)>, DecodeError>,
    model: Result<Seq<(Seq<char>, T::V)>, DecodeErrorView>,
) -> bool {
    match (read, model) {
        (Ok(pairs), Ok(expected)) => keyed_views(pairs@) == expected,
        (Err(e), Err(f)) => e@ == f,
        _ => false,
    }
}

/// Decodes the rows of a result set, in order. The first row that does not
/// decode fails the whole.
pub fn decode_rows<T: FromRow>(rows: &Vec<Row>) -> (read: Result<Vec<T>, DecodeError>)
    ensures
        list_agrees(read, decoded_all::<T>(rows_view(rows@))),
{
    let ghost each = |row: RowView| T::decoded(row);
    let ghost all = rows_view(rows@);
    let mut entities: Vec<T> = Vec::new();
    let mut i: usize = 0;
    assert(views(entities@) =~= Seq::empty());
    while i < rows.len()
        invariant
            i <= rows.len(),
            all == rows_view(rows@),
            each == |row: RowView| T::decoded(row),
            all_or_first_error(all.take(i as int), each) == Ok::<Seq<T::V>, DecodeErrorView>(
                views(entities@),
            ),
        decreases rows.len() - i,
    {
        proof {
            assert(all.take(i + 1).drop_last() =~= all.take(i as int));
            assert(all.take(i + 1).last() == rows[i as int]@);
        }
        match T::from_row(&rows[i]) {
            Ok(entity) => {
                assert(views(entities@.push(entity)) =~= views(entities@).push(entity@));
                entities.push(entity);
            },
            Err(e) => {
                proof {
                    lemma_first_error_stays(all, each, i + 1);
                }
                return Err(e);
            },
        }
        i += 1;
    }
    assert(all.take(i as int) =~= all);
    Ok(entities)
}

/// Decodes the rows of a grouped fetch, each into its grouping key and its
/// entity, in order. The first row that does not decode fails the whole.
pub fn decode_keyed<T: FromRow>(rows: &Vec<Row>, key_column: &str) -> (read: Result<
    Vec<(String, T)>,
    DecodeError,
>)
    ensures
        pairs_agree(read, decoded_keyed::<T>(rows_view(rows@), key_column@)),
{
    let ghost each = |row: RowView| decoded_pair::<T>(row, key_column@);
    let ghost all = rows_view(rows@);
    let mut pairs: Vec<(String, T)> = Vec::new();
    let mut i: usize = 0;
    assert(keyed_views(pairs@) =~= Seq::empty());
    while i < rows.len()
        invariant
            i <= rows.len(),
            all == rows_view(rows@),
            each == |row: RowView| decoded_pair::<T>(row, key_column@),
            all_or_first_error(all.take(i as int), each) == Ok::<
                Seq<(Seq<char>, T::V)>,
                DecodeErrorView,
            >(keyed_views(pairs@)),
        decreases rows.len() - i,
    {
        proof {
            assert(all.take(i + 1).drop_last() =~= all.take(i as int));
            assert(all.take(i + 1).last() == rows[i as int]@);
        }
        let key = match rows[i].required_text(key_column) {
            Ok(key) => key,
            Err(e) => {
                proof {
                    lemma_first_error_stays(all, each, i + 1);
                }
                return Err(e);
            },
        };
        match T::from_row(&rows[i]) {
            Ok(entity) => {
                assert(keyed_views(pairs@.push((key, entity))) =~= keyed_views(pairs@).push(
                    (key@, entity@),
                ));
                pairs.push((key, entity));
            },
            Err(e) => {
                proof {
                    lemma_first_error_stays(all, each, i + 1);
                }
                return Err(e);
            },
        }
        i += 1;
    }
    assert(all.take(i as int) =~= all);
    Ok(pairs)
}

} // verus!
