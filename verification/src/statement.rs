//! Statements: what the library asks the datastore to do. A statement names
//! its kind and carries its parameters in order; the caller binds the
//! parameters to the statement's text and carries it out.

use crate::row::{Timestamp, Value, ValueView};
use vstd::prelude::*;

verus! {

/// The statements of the schema.
#[derive(Clone, Copy, Debug, PartialEq, Eq, Hash, Structural)]
pub enum StatementKind {
    /// All agents, newest first.
    SelectAgents,
    /// The agents of type `Individual`, newest first.
    SelectIndividuals,
    /// The agents of type `Organization`, newest first.
    SelectOrganizations,
    /// One agent by `id`.
    SelectAgent,
    /// The agents whose id is among the parameters, newest first.
    SelectAgentsByIds,
    /// The relations in which an agent is subject (first parameter) or
    /// object (second parameter), each with the name of its type, newest
    /// first.
    SelectAgentRelations,
    /// The plans of an agent, newest first.
    SelectPlansOfAgent,
    /// One plan by `id`.
    SelectPlan,
    /// The processes of a plan.
    SelectProcessesOfPlan,
    /// The labels of the processes of a plan, each with its `process_id`.
    SelectLabelsOfPlan,
    /// The agents of the processes of a plan, each with its `process_id`.
    SelectAgentsOfPlan,
    /// The commitments of the processes of a plan.
    SelectCommitmentsOfPlan,
    /// The actions of the commitments of a plan, each with its
    /// `commitment_id`.
    SelectActionsOfPlan,
    /// The resource specifications of the commitments of a plan, each with
    /// its `commitment_id`.
    SelectResourceSpecificationsOfPlan,
    /// The units of the commitments of a plan, each with its
    /// `commitment_id`.
    SelectUnitsOfPlan,
    /// The agents assigned to the commitments of a plan, each with its
    /// `commitment_id`.
    SelectAssignedAgentsOfPlan,
    /// All labels, newest first.
    SelectLabels,
    /// The labels of one process.
    SelectLabelsOfProcess,
    /// The agents of one process.
    SelectAgentsOfProcess,
    /// All actions, newest first.
    SelectActions,
    /// One action by `id`.
    SelectAction,
    /// All units, newest first.
    SelectUnits,
    /// One unit by `id`.
    SelectUnit,
    /// All resource specifications, newest first.
    SelectResourceSpecifications,
    /// One resource specification by `id`.
    SelectResourceSpecification,
    /// A new agent: id, name, unique name, email, type. Returns the row.
    InsertAgent,
    /// Removes the agent of a unique name.
    DeleteAgent,
    /// A new label: id, name, unique name, color. Returns the row.
    InsertLabel,
    /// Removes the label of an id.
    DeleteLabel,
    /// A new plan: id, title. Returns the row.
    InsertPlan,
    /// Joins a plan to an agent: plan id, agent id.
    InsertPlanAgent,
    /// Replaces title and description of the plan of an id: title,
    /// description, id.
    UpdatePlan,
    /// A new process: id, title, description, plan id. Returns the row.
    InsertProcess,
    /// Joins a process to a label: process id, label id.
    InsertProcessLabel,
    /// Joins a process to an agent: process id, agent id.
    InsertProcessAgent,
    /// Removes every label join of a process.
    DeleteProcessLabels,
    /// Removes every agent join of a process.
    DeleteProcessAgents,
    /// Replaces title and description of the process of an id: title,
    /// description, id.
    UpdateProcess,
    /// Removes the process of an id.
    DeleteProcess,
    /// A new resource specification: id, name, unique name. Returns the row.
    InsertResourceSpecification,
    /// Removes the resource specification of a unique name.
    DeleteResourceSpecification,
    /// A new commitment: id, description, process id, action id, assigned
    /// agent id, quantity, unit id, resource specification id, due time.
    /// Returns the row.
    InsertCommitment,
    /// Replaces the fields of the commitment of an id: description, unit
    /// id, action id, resource specification id, quantity, assigned agent
    /// id, due time, id.
    UpdateCommitment,
    /// Removes the commitment of an id.
    DeleteCommitment,
    /// Removes the agent relation of an id.
    DeleteRelationship,
}

/// How many parameters a statement of each kind takes. `SelectAgentsByIds`
/// takes as many as there are ids.
pub open spec fn arity(kind: StatementKind) -> Option<nat> {
    match kind {
        StatementKind::SelectAgents => Some(0),
        StatementKind::SelectIndividuals => Some(0),
        StatementKind::SelectOrganizations => Some(0),
        StatementKind::SelectAgent => Some(1),
        StatementKind::SelectAgentsByIds => None,
        StatementKind::SelectAgentRelations => Some(2),
        StatementKind::SelectPlansOfAgent => Some(1),
        StatementKind::SelectPlan => Some(1),
        StatementKind::SelectProcessesOfPlan => Some(1),
        StatementKind::SelectLabelsOfPlan => Some(1),
        StatementKind::SelectAgentsOfPlan => Some(1),
        StatementKind::SelectCommitmentsOfPlan => Some(1),
        StatementKind::SelectActionsOfPlan => Some(1),
        StatementKind::SelectResourceSpecificationsOfPlan => Some(1),
        StatementKind::SelectUnitsOfPlan => Some(1),
        StatementKind::SelectAssignedAgentsOfPlan => Some(1),
        StatementKind::SelectLabels => Some(0),
        StatementKind::SelectLabelsOfProcess => Some(1),
        StatementKind::SelectAgentsOfProcess => Some(1),
        StatementKind::SelectActions => Some(0),
        StatementKind::SelectAction => Some(1),
        StatementKind::SelectUnits => Some(0),
        StatementKind::SelectUnit => Some(1),
        StatementKind::SelectResourceSpecifications => Some(0),
        StatementKind::SelectResourceSpecification => Some(1),
        StatementKind::InsertAgent => Some(5),
        StatementKind::DeleteAgent => Some(1),
        StatementKind::InsertLabel => Some(4),
        StatementKind::DeleteLabel => Some(1),
        StatementKind::InsertPlan => Some(2),
        StatementKind::InsertPlanAgent => Some(2),
        StatementKind::UpdatePlan => Some(3),
        StatementKind::InsertProcess => Some(4),
        StatementKind::InsertProcessLabel => Some(2),
        StatementKind::InsertProcessAgent => Some(2),
        StatementKind::DeleteProcessLabels => Some(1),
        StatementKind::DeleteProcessAgents => Some(1),
        StatementKind::UpdateProcess => Some(3),
        StatementKind::DeleteProcess => Some(1),
        StatementKind::InsertResourceSpecification => Some(3),
        StatementKind::DeleteResourceSpecification => Some(1),
        StatementKind::InsertCommitment => Some(9),
        StatementKind::UpdateCommitment => Some(8),
        StatementKind::DeleteCommitment => Some(1),
        StatementKind::DeleteRelationship => Some(1),
    }
}

/// Whether a statement of a kind returns rows: every query does, and every
/// insert of a record returns the row that it stored. What only joins,
/// updates or removes reports a count instead.
pub open spec fn yields_rows(kind: StatementKind) -> bool {
    match kind {
        StatementKind::DeleteAgent => false,
        StatementKind::DeleteLabel => false,
        StatementKind::InsertPlanAgent => false,
        StatementKind::UpdatePlan => false,
        StatementKind::InsertProcessLabel => false,
        StatementKind::InsertProcessAgent => false,
        StatementKind::DeleteProcessLabels => false,
        StatementKind::DeleteProcessAgents => false,
        StatementKind::UpdateProcess => false,
        StatementKind::DeleteProcess => false,
        StatementKind::DeleteResourceSpecification => false,
        StatementKind::UpdateCommitment => false,
        StatementKind::DeleteCommitment => false,
        StatementKind::DeleteRelationship => false,
        _ => true,
    }
}

impl StatementKind {
    /// Whether a statement of this kind returns rows.
    pub fn returns_rows(&self) -> (rows: bool)
        ensures
            rows == yields_rows(*self),
    {
        match self {
            StatementKind::DeleteAgent
            | StatementKind::DeleteLabel
            | StatementKind::InsertPlanAgent
            | StatementKind::UpdatePlan
            | StatementKind::InsertProcessLabel
            | StatementKind::InsertProcessAgent
            | StatementKind::DeleteProcessLabels
            | StatementKind::DeleteProcessAgents
            | StatementKind::UpdateProcess
            | StatementKind::DeleteProcess
            | StatementKind::DeleteResourceSpecification
            | StatementKind::UpdateCommitment
            | StatementKind::DeleteCommitment
            | StatementKind::DeleteRelationship => false,
            _ => true,
        }
    }
}

/// One statement with its parameters, in the order in which they are bound.
#[derive(Debug, PartialEq, Eq)]
pub struct Statement {
    pub kind: StatementKind,
    pub binds: Vec<Value>,
}

pub struct StatementView {
    pub kind: StatementKind,
    pub binds: Seq<ValueView>,
}

impl View for Statement {
    type V = StatementView;

    open spec fn view(&self) -> StatementView {
        StatementView { kind: self.kind, binds: self.binds@.map_values(|v: Value| v@) }
    }
}

impl Clone for Statement {
    fn clone(&self) -> (copy: Statement)
        ensures
            copy@ == self@,
    {
        let mut binds: Vec<Value> = Vec::new();
        let mut i: usize = 0;
        while i < self.binds.len()
            invariant
                i <= self.binds.len(),
                binds@.len() == i,
                forall|j: int| 0 <= j < i ==> (#[trigger] binds@[j])@ == self.binds@[j]@,
            decreases self.binds.len() - i,
        {
            binds.push(self.binds[i].clone());
            i += 1;
        }
        let copy = Statement { kind: self.kind, binds };
        assert(copy@.binds =~= self@.binds);
        copy
    }
}

/// Whether a statement carries as many parameters as its kind takes.
pub open spec fn complete(statement: StatementView) -> bool {
    match arity(statement.kind) {
        Some(n) => statement.binds.len() == n,
        None => true,
    }
}

/// A statement of `kind` with the parameters `binds`.
pub open spec fn statement(kind: StatementKind, binds: Seq<ValueView>) -> StatementView {
    StatementView { kind, binds }
}

/// A text parameter.
pub open spec fn text(value: Seq<char>) -> ValueView {
    ValueView::Text(value)
}

/// A text parameter that may be absent: `Null` for none.
pub open spec fn nullable_text(value: Option<Seq<char>>) -> ValueView {
    match value {
        Some(s) => ValueView::Text(s),
        None => ValueView::Null,
    }
}

/// A count parameter that may be absent: `Null` for none.
pub open spec fn nullable_count(value: Option<i32>) -> ValueView {
    match value {
        Some(n) => ValueView::Integer(n as i64),
        None => ValueView::Null,
    }
}

/// A time parameter that may be absent: `Null` for none.
pub open spec fn nullable_timestamp(value: Option<Timestamp>) -> ValueView {
    match value {
        Some(t) => ValueView::Integer(t.millis),
        None => ValueView::Null,
    }
}

impl Statement {
    /// A statement of `kind` without parameters yet.
    pub fn new(kind: StatementKind) -> (made: Statement)
        ensures
            made@ == statement(kind, Seq::empty()),
    {
        let made = Statement { kind, binds: Vec::new() };
        assert(made@.binds =~= Seq::empty());
        made
    }

    /// Adds a parameter.
    pub fn bind(self, value: Value) -> (bound: Statement)
        ensures
            bound@ == statement(self@.kind, self@.binds.push(value@)),
    {
        let mut bound = self;
        bound.binds.push(value);
        assert(bound@.binds =~= self@.binds.push(value@));
        bound
    }

    /// Adds a text parameter.
    pub fn bind_text(self, value: &str) -> (bound: Statement)
        ensures
            bound@ == statement(self@.kind, self@.binds.push(text(value@))),
    {
        self.bind(Value::Text(value.to_owned()))
    }

    /// Adds a text parameter that may be absent.
    pub fn bind_nullable_text(self, value: &Option<String>) -> (bound: Statement)
        ensures
            bound@ == statement(
                self@.kind,
                self@.binds.push(nullable_text(crate::model::text_view(*value))),
            ),
    {
        match value {
            Some(s) => self.bind(Value::Text(s.clone())),
            None => self.bind(Value::Null),
        }
    }

    /// Adds a count parameter.
    pub fn bind_count(self, value: i32) -> (bound: Statement)
        ensures
            bound@ == statement(self@.kind, self@.binds.push(ValueView::Integer(value as i64))),
    {
        self.bind(Value::Integer(value as i64))
    }

    /// Adds a count parameter that may be absent.
    pub fn bind_nullable_count(self, value: Option<i32>) -> (bound: Statement)
        ensures
            bound@ == statement(self@.kind, self@.binds.push(nullable_count(value))),
    {
        match value {
            Some(n) => self.bind(Value::Integer(n as i64)),
            None => self.bind(Value::Null),
        }
    }

    /// Adds a time parameter that may be absent.
    pub fn bind_nullable_timestamp(self, value: Option<Timestamp>) -> (bound: Statement)
        ensures
            bound@ == statement(self@.kind, self@.binds.push(nullable_timestamp(value))),
    {
        match value {
            Some(t) => self.bind(Value::Integer(t.millis)),
            None => self.bind(Value::Null),
        }
    }
}

/// Statements to carry out in order. An atomic batch takes effect as a
/// whole or not at all.
#[derive(Debug, PartialEq, Eq)]
pub struct Batch {
    pub atomic: bool,
    pub statements: Vec<Statement>,
}

pub struct BatchView {
    pub atomic: bool,
    pub statements: Seq<StatementView>,
}

impl View for Batch {
    type V = BatchView;

    open spec fn view(&self) -> BatchView {
        BatchView {
            atomic: self.atomic,
            statements: self.statements@.map_values(|s: Statement| s@),
        }
    }
}

impl Clone for Batch {
    fn clone(&self) -> (copy: Batch)
        ensures
            copy@ == self@,
    {
        let mut statements: Vec<Statement> = Vec::new();
        let mut i: usize = 0;
        while i < self.statements.len()
            invariant
                i <= self.statements.len(),
                statements@.len() == i,
                forall|j: int| 0 <= j < i ==> (#[trigger] statements@[j])@ == self.statements@[j]@,
            decreases self.statements.len() - i,
        {
            statements.push(self.statements[i].clone());
            i += 1;
        }
        let copy = Batch { atomic: self.atomic, statements };
        assert(copy@.statements =~= self@.statements);
        copy
    }
}

} // verus!
