//! The entity graph assembler: from the flat results of a handful of
//! fetches to one nested plan.
//!
//! Children are fetched for all the parents at once, each child with the key
//! of its parent, and are filed under those keys in memory. Every parent
//! then takes what is filed under its own id.

use crate::grouping::{
    first_of, first_under, grouped, keyed, lemma_members_of_grouped, lemma_values_under_push,
    members_of, values_under, GroupIndex,
};
use crate::model::{
    keyed_views, optional_view, views, Action, ActionView, Agent, AgentView, Commitment,
    CommitmentView, Label, LabelView, Plan, PlanView, Process, ProcessView,
    ResourceSpecification, ResourceSpecificationView, Unit, UnitView,
};
use vstd::prelude::*;

verus! {

/// What was fetched for the processes of a plan, and for their commitments:
/// each entity with the id of the process, or of the commitment, that it
/// belongs to.
#[derive(Debug, PartialEq, Eq)]
pub struct Children {
    /// Labels, by process.
    pub labels: Vec<(String, Label)>,
    /// Agents, by process.
    pub agents: Vec<(String, Agent)>,
    /// Commitments, by process.
    pub commitments: Vec<(String, Commitment)>,
    /// Actions, by commitment.
    pub actions: Vec<(String, Action)>,
    /// Resource specifications, by commitment.
    pub resource_specifications: Vec<(String, ResourceSpecification)>,
    /// Units, by commitment.
    pub units: Vec<(String, Unit)>,
    /// Assigned agents, by commitment.
    pub assigned_agents: Vec<(String, Agent)>,
}

pub struct ChildrenView {
    pub labels: Seq<(Seq<char>, LabelView)>,
    pub agents: Seq<(Seq<char>, AgentView)>,
    pub commitments: Seq<(Seq<char>, CommitmentView)>,
    pub actions: Seq<(Seq<char>, ActionView)>,
    pub resource_specifications: Seq<(Seq<char>, ResourceSpecificationView)>,
    pub units: Seq<(Seq<char>, UnitView)>,
    pub assigned_agents: Seq<(Seq<char>, AgentView)>,
}

impl View for Children {
    type V = ChildrenView;

    open spec fn view(&self) -> ChildrenView {
        ChildrenView {
            labels: keyed_views(self.labels@),
            agents: keyed_views(self.agents@),
            commitments: keyed_views(self.commitments@),
            actions: keyed_views(self.actions@),
            resource_specifications: keyed_views(self.resource_specifications@),
            units: keyed_views(self.units@),
            assigned_agents: keyed_views(self.assigned_agents@),
        }
    }
}

/// A commitment with what it refers to: of each relation the first entity
/// fetched for the commitment's id, or none.
pub open spec fn decorated(commitment: CommitmentView, children: ChildrenView) -> CommitmentView {
    CommitmentView {
        action: first_under(children.actions, commitment.id),
        resource_specification: first_under(children.resource_specifications, commitment.id),
        unit: first_under(children.units, commitment.id),
        assigned_agent: first_under(children.assigned_agents, commitment.id),
        ..commitment
    }
}

/// A process with its children: the labels, agents and commitments fetched
/// for the process's id, in the order in which they were fetched, each
/// commitment decorated.
pub open spec fn attached(process: ProcessView, children: ChildrenView) -> ProcessView {
    ProcessView {
        labels: values_under(children.labels, process.id),
        agents: values_under(children.agents, process.id),
        commitments: values_under(children.commitments, process.id).map_values(
            |c: CommitmentView| decorated(c, children),
        ),
        ..process
    }
}

/// A plan with its processes, in the order in which they were fetched, each
/// with its children.
pub open spec fn assembled(
    plan: PlanView,
    processes: Seq<ProcessView>,
    children: ChildrenView,
) -> PlanView {
    PlanView { processes: processes.map_values(|p: ProcessView| attached(p, children)), ..plan }
}

/// Taking views and picking the values under a key can be done in either
/// order.
pub proof fn lemma_views_under<T: View>(pairs: Seq<(String, T)>, key: Seq<char>)
    ensures
        views(values_under(keyed(pairs), key)) == values_under(keyed_views(pairs), key),
    decreases pairs.len(),
{
    if pairs.len() == 0 {
        assert(keyed(pairs) =~= Seq::empty());
        assert(keyed_views(pairs) =~= Seq::empty());
        assert(views(values_under(keyed(pairs), key)) =~= values_under(keyed_views(pairs), key));
    } else {
        let rest = pairs.drop_last();
        let last = pairs.last();
        lemma_views_under(rest, key);
        assert(keyed(pairs) =~= keyed(rest).push((last.0@, last.1)));
        assert(keyed_views(pairs) =~= keyed_views(rest).push((last.0@, last.1@)));
        lemma_values_under_push(keyed(rest), (last.0@, last.1), key);
        lemma_values_under_push(keyed_views(rest), (last.0@, last.1@), key);
        if last.0@ == key {
            assert(views(values_under(keyed(rest), key).push(last.1)) =~= views(
                values_under(keyed(rest), key),
            ).push(last.1@));
        }
    }
}

/// Whether an index holds, under every key, the entities whose views the
/// pairs file under it.
pub open spec fn represents<T: View>(
    index: Map<Seq<char>, Seq<T>>,
    pairs: Seq<(Seq<char>, T::V)>,
) -> bool {
    forall|key: Seq<char>| views(#[trigger] members_of(index, key)) == values_under(pairs, key)
}

/// The index of some pairs represents their views.
pub proof fn lemma_index_represents<T: View>(pairs: Seq<(String, T)>)
    ensures
        represents(grouped(keyed(pairs)), keyed_views(pairs)),
{
    assert forall|key: Seq<char>|
        views(#[trigger] members_of(grouped(keyed(pairs)), key)) == values_under(
            keyed_views(pairs),
            key,
        ) by {
        lemma_members_of_grouped(keyed(pairs), key);
        lemma_views_under(pairs, key);
    }
}

/// The indexes over everything fetched for a plan.
struct PlanIndex {
    labels: GroupIndex<Label>,
    agents: GroupIndex<Agent>,
    commitments: GroupIndex<Commitment>,
    actions: GroupIndex<Action>,
    resource_specifications: GroupIndex<ResourceSpecification>,
    units: GroupIndex<Unit>,
    assigned_agents: GroupIndex<Agent>,
}

impl PlanIndex {
    /// Whether the indexes hold what `children` files.
    spec fn holds(&self, children: ChildrenView) -> bool {
        &&& represents(self.labels@, children.labels)
        &&& represents(self.agents@, children.agents)
        &&& represents(self.commitments@, children.commitments)
        &&& represents(self.actions@, children.actions)
        &&& represents(self.resource_specifications@, children.resource_specifications)
        &&& represents(self.units@, children.units)
        &&& represents(self.assigned_agents@, children.assigned_agents)
    }

    /// Files every child under the key of its parent.
    fn build(children: Children) -> (index: PlanIndex)
        ensures
            index.holds(children@),
    {
        proof {
            lemma_index_represents(children.labels@);
            lemma_index_represents(children.agents@);
            lemma_index_represents(children.commitments@);
            lemma_index_represents(children.actions@);
            lemma_index_represents(children.resource_specifications@);
            lemma_index_represents(children.units@);
            lemma_index_represents(children.assigned_agents@);
        }
        PlanIndex {
            labels: GroupIndex::build(children.labels),
            agents: GroupIndex::build(children.agents),
            commitments: GroupIndex::build(children.commitments),
            actions: GroupIndex::build(children.actions),
            resource_specifications: GroupIndex::build(children.resource_specifications),
            units: GroupIndex::build(children.units),
            assigned_agents: GroupIndex::build(children.assigned_agents),
        }
    }

    /// The commitment with what the indexes hold for its id.
    fn decorate(&self, commitment: &Commitment, Ghost(children): Ghost<ChildrenView>) -> (whole:
        Commitment)
        requires
            self.holds(children),
        ensures
            whole@ == decorated(commitment@, children),
    {
        let id = commitment.id.as_str();
        let action = copy_of(self.actions.first(id));
        let resource_specification = copy_of(self.resource_specifications.first(id));
        let unit = copy_of(self.units.first(id));
        let assigned_agent = copy_of(self.assigned_agents.first(id));
        proof {
            let key = commitment.id@;
            lemma_first_of_views(members_of(self.actions@, key));
            lemma_first_of_views(members_of(self.resource_specifications@, key));
            lemma_first_of_views(members_of(self.units@, key));
            lemma_first_of_views(members_of(self.assigned_agents@, key));
        }
        Commitment {
            id: commitment.id.clone(),
            description: commitment.description.clone(),
            process_id: commitment.process_id.clone(),
            action_id: commitment.action_id.clone(),
            action,
            assigned_agent_id: commitment.assigned_agent_id.clone(),
            assigned_agent,
            quantity: commitment.quantity,
            unit_id: commitment.unit_id.clone(),
            unit,
            resource_specification_id: commitment.resource_specification_id.clone(),
            resource_specification,
            due_at: commitment.due_at,
            inserted_at: commitment.inserted_at,
        }
    }

    /// The process with what the indexes hold for its id.
    fn attach(&self, process: Process, Ghost(children): Ghost<ChildrenView>) -> (whole: Process)
        requires
            self.holds(children),
        ensures
            whole@ == attached(process@, children),
    {
        let id = process.id.as_str();
        let labels = copies(self.labels.get(id));
        let agents = copies(self.agents.get(id));
        let own = self.commitments.get(id);
        let mut commitments: Vec<Commitment> = Vec::new();
        let mut i: usize = 0;
        assert(views(commitments@) =~= Seq::empty());
        while i < own.len()
            invariant
                i <= own.len(),
                self.holds(children),
                views(commitments@) == views(own@).take(i as int).map_values(
                    |c: CommitmentView| decorated(c, children),
                ),
            decreases own.len() - i,
        {
            let whole = self.decorate(&own[i], Ghost(children));
            proof {
                let each = |c: CommitmentView| decorated(c, children);
                assert(views(commitments@.push(whole)) =~= views(commitments@).push(whole@));
                assert(views(own@).take(i + 1).map_values(each) =~= views(own@).take(
                    i as int,
                ).map_values(each).push(whole@));
            }
            commitments.push(whole);
            i += 1;
        }
        assert(views(own@).take(i as int) =~= views(own@));
        Process {
            id: process.id,
            title: process.title,
            description: process.description,
            labels,
            agents,
            inserted_at: process.inserted_at,
            start_at: process.start_at,
            due_at: process.due_at,
            plan_id: process.plan_id,
            agent_id: process.agent_id,
            commitments,
        }
    }
}

/// The view of a group's first member is the first of the members' views.
pub proof fn lemma_first_of_views<T: View>(members: Seq<T>)
    ensures
        optional_view(first_of(members)) == first_of(views(members)),
{
}

/// A copy of each member.
fn copies<T: Clone + View>(members: &[T]) -> (out: Vec<T>)
    requires
        forall|a: T, b: T| cloned(a, b) ==> a@ == b@,
    ensures
        views(out@) == views(members@),
{
    let mut out: Vec<T> = Vec::new();
    let mut i: usize = 0;
    while i < members.len()
        invariant
            i <= members.len(),
            forall|a: T, b: T| cloned(a, b) ==> a@ == b@,
            out@.len() == i,
            forall|j: int| 0 <= j < i ==> (#[trigger] out@[j])@ == members@[j]@,
        decreases members.len() - i,
    {
        let copy = members[i].clone();
        assert(cloned(members@[i as int], copy));
        out.push(copy);
        i += 1;
    }
    assert(views(out@) =~= views(members@));
    out
}

/// A copy of the entity found, if one was.
fn copy_of<T: Clone + View>(found: Option<&T>) -> (out: Option<T>)
    requires
        forall|a: T, b: T| cloned(a, b) ==> a@ == b@,
    ensures
        match (out, found) {
            (Some(copy), Some(entity)) => copy@ == entity@,
            (None, None) => true,
            _ => false,
        },
{
    match found {
        Some(entity) => {
            let copy = entity.clone();
            assert(cloned(*entity, copy));
            Some(copy)
        },
        None => None,
    }
}

/// Assembles a plan: every process, in the order given, takes the labels,
/// agents and commitments fetched for its id, and every commitment takes
/// the action, resource specification, unit and assigned agent fetched for
/// its id. A parent for which nothing was fetched gets empty lists, or none.
pub fn assemble_plan(plan: Plan, processes: Vec<Process>, children: Children) -> (whole: Plan)
    ensures
        whole@ == assembled(plan@, views(processes@), children@),
{
    let ghost fetched = children@;
    let ghost each = |p: ProcessView| attached(p, fetched);
    let index = PlanIndex::build(children);
    let mut attached_processes: Vec<Process> = Vec::new();
    let ghost all = processes@;
    assert(views(attached_processes@) =~= views(all).take(0).map_values(each));
    for process in it: processes
        invariant
            it.seq() == all,
            index.holds(fetched),
            each == |p: ProcessView| attached(p, fetched),
            views(attached_processes@) == views(all).take(it.index() as int).map_values(each),
    {
        let whole = index.attach(process, Ghost(fetched));
        proof {
            assert(views(attached_processes@.push(whole)) =~= views(attached_processes@).push(
                whole@,
            ));
            assert(views(all).take(it.index() + 1).map_values(each) =~= views(all).take(
                it.index() as int,
            ).map_values(each).push(whole@));
        }
        attached_processes.push(whole);
    }
    assert(views(all).take(all.len() as int) =~= views(all));
    Plan {
        id: plan.id,
        title: plan.title,
        description: plan.description,
        processes: attached_processes,
        inserted_at: plan.inserted_at,
    }
}

} // verus!
