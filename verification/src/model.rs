//! The entities of the planning domain, each with the mathematical view that
//! the contracts speak of.

use crate::row::Timestamp;
use vstd::prelude::*;

verus! {

/// The view of an optional text.
pub open spec fn text_view(text: Option<String>) -> Option<Seq<char>> {
    match text {
        Some(s) => Some(s@),
        None => None,
    }
}

/// The view of an optional entity.
pub open spec fn optional_view<T: View>(entity: Option<T>) -> Option<T::V> {
    match entity {
        Some(e) => Some(e@),
        None => None,
    }
}

/// The views of a list of entities, in order.
pub open spec fn views<T: View>(entities: Seq<T>) -> Seq<T::V> {
    entities.map_values(|e: T| e@)
}

/// The views of a list of entities, each under its grouping key.
pub open spec fn keyed_views<T: View>(pairs: Seq<(String, T)>) -> Seq<(Seq<char>, T::V)> {
    pairs.map_values(|p: (String, T)| (p.0@, p.1@))
}

/// What kind of participant an agent is.
#[derive(Clone, Copy, Debug, PartialEq, Eq, Structural)]
pub enum AgentType {
    Individual,
    Organization,
    Project,
}

impl Default for AgentType {
    fn default() -> (kind: AgentType)
        ensures
            kind == AgentType::Individual,
    {
        AgentType::Individual
    }
}

/// The text under which each kind of agent is stored.
pub open spec fn agent_type_text(kind: AgentType) -> Seq<char> {
    match kind {
        AgentType::Individual => "Individual"@,
        AgentType::Organization => "Organization"@,
        AgentType::Project => "Project"@,
    }
}

/// The kind of agent that a stored text names, if it names one.
pub open spec fn agent_type_named(text: Seq<char>) -> Option<AgentType> {
    if text == "Individual"@ {
        Some(AgentType::Individual)
    } else if text == "Organization"@ {
        Some(AgentType::Organization)
    } else if text == "Project"@ {
        Some(AgentType::Project)
    } else {
        None
    }
}

impl AgentType {
    /// The text under which this kind is stored.
    pub fn as_text(&self) -> (text: &'static str)
        ensures
            text@ == agent_type_text(*self),
    {
        match self {
            AgentType::Individual => "Individual",
            AgentType::Organization => "Organization",
            AgentType::Project => "Project",
        }
    }

    /// The kind that a stored text names.
    pub fn from_text(text: &str) -> (kind: Option<AgentType>)
        ensures
            kind == agent_type_named(text@),
    {
        if text.eq("Individual") {
            Some(AgentType::Individual)
        } else if text.eq("Organization") {
            Some(AgentType::Organization)
        } else if text.eq("Project") {
            Some(AgentType::Project)
        } else {
            None
        }
    }
}

/// Whether an action takes a resource in or gives one out.
#[derive(Clone, Copy, Debug, PartialEq, Eq, Structural)]
pub enum InputOutput {
    Input,
    Output,
}

impl Default for InputOutput {
    fn default() -> (direction: InputOutput)
        ensures
            direction == InputOutput::Input,
    {
        InputOutput::Input
    }
}

/// The text under which each direction is stored.
pub open spec fn input_output_text(direction: InputOutput) -> Seq<char> {
    match direction {
        InputOutput::Input => "Input"@,
        InputOutput::Output => "Output"@,
    }
}

/// The direction that a stored text names, if it names one.
pub open spec fn input_output_named(text: Seq<char>) -> Option<InputOutput> {
    if text == "Input"@ {
        Some(InputOutput::Input)
    } else if text == "Output"@ {
        Some(InputOutput::Output)
    } else {
        None
    }
}

impl InputOutput {
    /// The text under which this direction is stored.
    pub fn as_text(&self) -> (text: &'static str)
        ensures
            text@ == input_output_text(*self),
    {
        match self {
            InputOutput::Input => "Input",
            InputOutput::Output => "Output",
        }
    }

    /// The direction that a stored text names.
    pub fn from_text(text: &str) -> (direction: Option<InputOutput>)
        ensures
            direction == input_output_named(text@),
    {
        if text.eq("Input") {
            Some(InputOutput::Input)
        } else if text.eq("Output") {
            Some(InputOutput::Output)
        } else {
            None
        }
    }
}

/// An individual, organization or project that takes part in plans.
#[derive(Debug, PartialEq, Eq)]
pub struct Agent {
    pub id: String,
    pub name: String,
    pub unique_name: String,
    pub email: Option<String>,
    pub agent_type: AgentType,
    pub inserted_at: Timestamp,
}

pub struct AgentView {
    pub id: Seq<char>,
    pub name: Seq<char>,
    pub unique_name: Seq<char>,
    pub email: Option<Seq<char>>,
    pub agent_type: AgentType,
    pub inserted_at: Timestamp,
}

impl View for Agent {
    type V = AgentView;

    open spec fn view(&self) -> AgentView {
        AgentView {
            id: self.id@,
            name: self.name@,
            unique_name: self.unique_name@,
            email: text_view(self.email),
            agent_type: self.agent_type,
            inserted_at: self.inserted_at,
        }
    }
}

/// The agent that stands where none has been attached yet.
pub open spec fn no_agent() -> AgentView {
    AgentView {
        id: Seq::empty(),
        name: Seq::empty(),
        unique_name: Seq::empty(),
        email: None,
        agent_type: AgentType::Individual,
        inserted_at: Timestamp { millis: 0 },
    }
}

impl Default for Agent {
    fn default() -> (agent: Agent)
        ensures
            agent@ == no_agent(),
    {
        Agent {
            id: String::new(),
            name: String::new(),
            unique_name: String::new(),
            email: None,
            agent_type: AgentType::Individual,
            inserted_at: Timestamp { millis: 0 },
        }
    }
}

impl Clone for Agent {
    fn clone(&self) -> (copy: Agent)
        ensures
            copy@ == self@,
    {
        Agent {
            id: self.id.clone(),
            name: self.name.clone(),
            unique_name: self.unique_name.clone(),
            email: self.email.clone(),
            agent_type: self.agent_type,
            inserted_at: self.inserted_at,
        }
    }
}

/// A tag applied to processes.
#[derive(Debug, PartialEq, Eq)]
pub struct Label {
    pub id: String,
    pub name: String,
    pub unique_name: String,
    pub color: String,
    pub inserted_at: Timestamp,
}

pub struct LabelView {
    pub id: Seq<char>,
    pub name: Seq<char>,
    pub unique_name: Seq<char>,
    pub color: Seq<char>,
    pub inserted_at: Timestamp,
}

impl View for Label {
    type V = LabelView;

    open spec fn view(&self) -> LabelView {
        LabelView {
            id: self.id@,
            name: self.name@,
            unique_name: self.unique_name@,
            color: self.color@,
            inserted_at: self.inserted_at,
        }
    }
}

impl Clone for Label {
    fn clone(&self) -> (copy: Label)
        ensures
            copy@ == self@,
    {
        Label {
            id: self.id.clone(),
            name: self.name.clone(),
            unique_name: self.unique_name.clone(),
            color: self.color.clone(),
            inserted_at: self.inserted_at,
        }
    }
}

/// What a commitment promises to do with a resource.
#[derive(Debug, PartialEq, Eq)]
pub struct Action {
    pub id: String,
    pub name: String,
    pub input_output: InputOutput,
    pub inserted_at: Timestamp,
}

pub struct ActionView {
    pub id: Seq<char>,
    pub name: Seq<char>,
    pub input_output: InputOutput,
    pub inserted_at: Timestamp,
}

impl View for Action {
    type V = ActionView;

    open spec fn view(&self) -> ActionView {
        ActionView {
            id: self.id@,
            name: self.name@,
            input_output: self.input_output,
            inserted_at: self.inserted_at,
        }
    }
}

impl Clone for Action {
    fn clone(&self) -> (copy: Action)
        ensures
            copy@ == self@,
    {
        Action {
            id: self.id.clone(),
            name: self.name.clone(),
            input_output: self.input_output,
            inserted_at: self.inserted_at,
        }
    }
}

/// A unit of measure.
#[derive(Debug, PartialEq, Eq)]
pub struct Unit {
    pub id: String,
    pub label: String,
    pub inserted_at: Timestamp,
}

pub struct UnitView {
    pub id: Seq<char>,
    pub label: Seq<char>,
    pub inserted_at: Timestamp,
}

impl View for Unit {
    type V = UnitView;

    open spec fn view(&self) -> UnitView {
        UnitView { id: self.id@, label: self.label@, inserted_at: self.inserted_at }
    }
}

impl Clone for Unit {
    fn clone(&self) -> (copy: Unit)
        ensures
            copy@ == self@,
    {
        Unit { id: self.id.clone(), label: self.label.clone(), inserted_at: self.inserted_at }
    }
}

/// The kind of resource that a commitment is about.
#[derive(Debug, PartialEq, Eq)]
pub struct ResourceSpecification {
    pub id: String,
    pub name: String,
    pub unique_name: String,
    pub inserted_at: Timestamp,
    pub agent_unique_name: String,
}

pub struct ResourceSpecificationView {
    pub id: Seq<char>,
    pub name: Seq<char>,
    pub unique_name: Seq<char>,
    pub inserted_at: Timestamp,
    pub agent_unique_name: Seq<char>,
}

impl View for ResourceSpecification {
    type V = ResourceSpecificationView;

    open spec fn view(&self) -> ResourceSpecificationView {
        ResourceSpecificationView {
            id: self.id@,
            name: self.name@,
            unique_name: self.unique_name@,
            inserted_at: self.inserted_at,
            agent_unique_name: self.agent_unique_name@,
        }
    }
}

impl Clone for ResourceSpecification {
    fn clone(&self) -> (copy: ResourceSpecification)
        ensures
            copy@ == self@,
    {
        ResourceSpecification {
            id: self.id.clone(),
            name: self.name.clone(),
            unique_name: self.unique_name.clone(),
            inserted_at: self.inserted_at,
            agent_unique_name: self.agent_unique_name.clone(),
        }
    }
}

/// A promised contribution of a quantity of a resource through an action,
/// which may be assigned to an agent.
#[derive(Debug, PartialEq, Eq)]
pub struct Commitment {
    pub id: String,
    pub description: String,
    pub process_id: String,
    pub action_id: String,
    pub action: Option<Action>,
    pub assigned_agent_id: Option<String>,
    pub assigned_agent: Option<Agent>,
    pub quantity: i32,
    pub unit_id: String,
    pub unit: Option<Unit>,
    pub resource_specification_id: String,
    pub resource_specification: Option<ResourceSpecification>,
    pub due_at: Option<Timestamp>,
    pub inserted_at: Timestamp,
}

pub struct CommitmentView {
    pub id: Seq<char>,
    pub description: Seq<char>,
    pub process_id: Seq<char>,
    pub action_id: Seq<char>,
    pub action: Option<ActionView>,
    pub assigned_agent_id: Option<Seq<char>>,
    pub assigned_agent: Option<AgentView>,
    pub quantity: i32,
    pub unit_id: Seq<char>,
    pub unit: Option<UnitView>,
    pub resource_specification_id: Seq<char>,
    pub resource_specification: Option<ResourceSpecificationView>,
    pub due_at: Option<Timestamp>,
    pub inserted_at: Timestamp,
}

impl View for Commitment {
    type V = CommitmentView;

    open spec fn view(&self) -> CommitmentView {
        CommitmentView {
            id: self.id@,
            description: self.description@,
            process_id: self.process_id@,
            action_id: self.action_id@,
            action: optional_view(self.action),
            assigned_agent_id: text_view(self.assigned_agent_id),
            assigned_agent: optional_view(self.assigned_agent),
            quantity: self.quantity,
            unit_id: self.unit_id@,
            unit: optional_view(self.unit),
            resource_specification_id: self.resource_specification_id@,
            resource_specification: optional_view(self.resource_specification),
            due_at: self.due_at,
            inserted_at: self.inserted_at,
        }
    }
}

impl Clone for Commitment {
    fn clone(&self) -> (copy: Commitment)
        ensures
            copy@ == self@,
    {
        Commitment {
            id: self.id.clone(),
            description: self.description.clone(),
            process_id: self.process_id.clone(),
            action_id: self.action_id.clone(),
            action: self.action.clone(),
            assigned_agent_id: self.assigned_agent_id.clone(),
            assigned_agent: self.assigned_agent.clone(),
            quantity: self.quantity,
            unit_id: self.unit_id.clone(),
            unit: self.unit.clone(),
            resource_specification_id: self.resource_specification_id.clone(),
            resource_specification: self.resource_specification.clone(),
            due_at: self.due_at,
            inserted_at: self.inserted_at,
        }
    }
}

/// A unit of work within a plan: tagged with labels, associated with
/// agents, and broken down into commitments.
#[derive(Debug, PartialEq, Eq)]
pub struct Process {
    pub id: String,
    pub title: String,
    pub description: Option<String>,
    pub labels: Vec<Label>,
    pub agents: Vec<Agent>,
    pub inserted_at: Timestamp,
    pub start_at: Timestamp,
    pub due_at: Timestamp,
    pub plan_id: String,
    pub agent_id: String,
    pub commitments: Vec<Commitment>,
}

pub struct ProcessView {
    pub id: Seq<char>,
    pub title: Seq<char>,
    pub description: Option<Seq<char>>,
    pub labels: Seq<LabelView>,
    pub agents: Seq<AgentView>,
    pub inserted_at: Timestamp,
    pub start_at: Timestamp,
    pub due_at: Timestamp,
    pub plan_id: Seq<char>,
    pub agent_id: Seq<char>,
    pub commitments: Seq<CommitmentView>,
}

impl View for Process {
    type V = ProcessView;

    open spec fn view(&self) -> ProcessView {
        ProcessView {
            id: self.id@,
            title: self.title@,
            description: text_view(self.description),
            labels: views(self.labels@),
            agents: views(self.agents@),
            inserted_at: self.inserted_at,
            start_at: self.start_at,
            due_at: self.due_at,
            plan_id: self.plan_id@,
            agent_id: self.agent_id@,
            commitments: views(self.commitments@),
        }
    }
}

impl Clone for Process {
    fn clone(&self) -> (copy: Process)
        ensures
            copy@ == self@,
    {
        let mut labels: Vec<Label> = Vec::new();
        let mut i: usize = 0;
        while i < self.labels.len()
            invariant
                i <= self.labels.len(),
                labels@.len() == i,
                forall|j: int| 0 <= j < i ==> (#[trigger] labels@[j])@ == self.labels@[j]@,
            decreases self.labels.len() - i,
        {
            labels.push(self.labels[i].clone());
            i += 1;
        }
        let mut agents: Vec<Agent> = Vec::new();
        let mut i: usize = 0;
        while i < self.agents.len()
            invariant
                i <= self.agents.len(),
                agents@.len() == i,
                forall|j: int| 0 <= j < i ==> (#[trigger] agents@[j])@ == self.agents@[j]@,
            decreases self.agents.len() - i,
        {
            agents.push(self.agents[i].clone());
            i += 1;
        }
        let mut commitments: Vec<Commitment> = Vec::new();
        let mut i: usize = 0;
        while i < self.commitments.len()
            invariant
                i <= self.commitments.len(),
                commitments@.len() == i,
                forall|j: int|
                    0 <= j < i ==> (#[trigger] commitments@[j])@ == self.commitments@[j]@,
            decreases self.commitments.len() - i,
        {
            commitments.push(self.commitments[i].clone());
            i += 1;
        }
        let copy = Process {
            id: self.id.clone(),
            title: self.title.clone(),
            description: self.description.clone(),
            labels,
            agents,
            inserted_at: self.inserted_at,
            start_at: self.start_at,
            due_at: self.due_at,
            plan_id: self.plan_id.clone(),
            agent_id: self.agent_id.clone(),
            commitments,
        };
        assert(copy@.labels =~= self@.labels);
        assert(copy@.agents =~= self@.agents);
        assert(copy@.commitments =~= self@.commitments);
        copy
    }
}

/// A top-level container of processes.
#[derive(Debug, PartialEq, Eq)]
pub struct Plan {
    pub id: String,
    pub title: String,
    pub description: Option<String>,
    pub processes: Vec<Process>,
    pub inserted_at: Timestamp,
}

pub struct PlanView {
    pub id: Seq<char>,
    pub title: Seq<char>,
    pub description: Option<Seq<char>>,
    pub processes: Seq<ProcessView>,
    pub inserted_at: Timestamp,
}

impl View for Plan {
    type V = PlanView;

    open spec fn view(&self) -> PlanView {
        PlanView {
            id: self.id@,
            title: self.title@,
            description: text_view(self.description),
            processes: views(self.processes@),
            inserted_at: self.inserted_at,
        }
    }
}

impl Clone for Plan {
    fn clone(&self) -> (copy: Plan)
        ensures
            copy@ == self@,
    {
        let mut processes: Vec<Process> = Vec::new();
        let mut i: usize = 0;
        while i < self.processes.len()
            invariant
                i <= self.processes.len(),
                processes@.len() == i,
                forall|j: int| 0 <= j < i ==> (#[trigger] processes@[j])@ == self.processes@[j]@,
            decreases self.processes.len() - i,
        {
            processes.push(self.processes[i].clone());
            i += 1;
        }
        let copy = Plan {
            id: self.id.clone(),
            title: self.title.clone(),
            description: self.description.clone(),
            processes,
            inserted_at: self.inserted_at,
        };
        assert(copy@.processes =~= self@.processes);
        copy
    }
}

/// A relation of a given type between a subject and an object agent.
#[derive(Debug, PartialEq, Eq)]
pub struct AgentRelationship {
    pub id: String,
    pub subject_id: String,
    pub subject: Agent,
    pub object_id: String,
    pub object: Agent,
    pub agent_relation_type_id: String,
    pub agent_relation_type: String,
    pub inserted_at: Timestamp,
}

pub struct AgentRelationshipView {
    pub id: Seq<char>,
    pub subject_id: Seq<char>,
    pub subject: AgentView,
    pub object_id: Seq<char>,
    pub object: AgentView,
    pub agent_relation_type_id: Seq<char>,
    pub agent_relation_type: Seq<char>,
    pub inserted_at: Timestamp,
}

impl View for AgentRelationship {
    type V = AgentRelationshipView;

    open spec fn view(&self) -> AgentRelationshipView {
        AgentRelationshipView {
            id: self.id@,
            subject_id: self.subject_id@,
            subject: self.subject@,
            object_id: self.object_id@,
            object: self.object@,
            agent_relation_type_id: self.agent_relation_type_id@,
            agent_relation_type: self.agent_relation_type@,
            inserted_at: self.inserted_at,
        }
    }
}

impl Clone for AgentRelationship {
    fn clone(&self) -> (copy: AgentRelationship)
        ensures
            copy@ == self@,
    {
        AgentRelationship {
            id: self.id.clone(),
            subject_id: self.subject_id.clone(),
            subject: self.subject.clone(),
            object_id: self.object_id.clone(),
            object: self.object.clone(),
            agent_relation_type_id: self.agent_relation_type_id.clone(),
            agent_relation_type: self.agent_relation_type.clone(),
            inserted_at: self.inserted_at,
        }
    }
}

} // verus!
