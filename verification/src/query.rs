//! The read side: which statements each query issues, and what it makes of
//! the rows that come back.

use crate::assemble::{assemble_plan, assembled, Children, ChildrenView};
use crate::decode::{decode_keyed, decode_rows, decoded_all, decoded_keyed, FromRow};
use crate::error::{DecodeError, DecodeErrorView, Error, ErrorView};
use crate::grouping::{first_under, members_of, GroupIndex};
use crate::model::{
    keyed_views, views, Action, Agent, AgentRelationship, AgentRelationshipView, AgentView,
    Commitment, Label, Plan, PlanView, Process, ResourceSpecification, Unit,
};
use crate::row::{rows_view, Row, RowView};
use crate::statement::{statement, text, Statement, StatementKind, StatementView};
use vstd::hash_set::StringHashSet;
use vstd::prelude::*;

verus! {

/// The queries of the API.
#[derive(Clone, Copy, Debug, Default)]
pub struct QueryRoot;

/// The result sets of the fetches that make up one plan.
#[derive(Debug, PartialEq, Eq)]
pub struct PlanRows {
    /// The plan itself: its first row counts.
    pub plan: Vec<Row>,
    pub processes: Vec<Row>,
    /// Labels, each with the `process_id` of its process.
    pub labels: Vec<Row>,
    /// Agents, each with the `process_id` of its process.
    pub agents: Vec<Row>,
    /// Commitments, each with the `process_id` of its process.
    pub commitments: Vec<Row>,
    /// Actions, each with the `commitment_id` of its commitment.
    pub actions: Vec<Row>,
    /// Resource specifications, each with the `commitment_id` of its
    /// commitment.
    pub resource_specifications: Vec<Row>,
    /// Units, each with the `commitment_id` of its commitment.
    pub units: Vec<Row>,
    /// Assigned agents, each with the `commitment_id` of its commitment.
    pub assigned_agents: Vec<Row>,
}

pub struct PlanRowsView {
    pub plan: Seq<RowView>,
    pub processes: Seq<RowView>,
    pub labels: Seq<RowView>,
    pub agents: Seq<RowView>,
    pub commitments: Seq<RowView>,
    pub actions: Seq<RowView>,
    pub resource_specifications: Seq<RowView>,
    pub units: Seq<RowView>,
    pub assigned_agents: Seq<RowView>,
}

impl View for PlanRows {
    type V = PlanRowsView;

    open spec fn view(&self) -> PlanRowsView {
        PlanRowsView {
            plan: rows_view(self.plan@),
            processes: rows_view(self.processes@),
            labels: rows_view(self.labels@),
            agents: rows_view(self.agents@),
            commitments: rows_view(self.commitments@),
            actions: rows_view(self.actions@),
            resource_specifications: rows_view(self.resource_specifications@),
            units: rows_view(self.units@),
            assigned_agents: rows_view(self.assigned_agents@),
        }
    }
}

/// The statements that fetch one plan with all that hangs on it: a fixed
/// number, whatever the number of processes.
#[derive(Debug, PartialEq, Eq)]
pub struct PlanQueries {
    pub plan: Statement,
    pub processes: Statement,
    pub labels: Statement,
    pub agents: Statement,
    pub commitments: Statement,
    pub actions: Statement,
    pub resource_specifications: Statement,
    pub units: Statement,
    pub assigned_agents: Statement,
}

/// The error of a row that did not decode.
pub open spec fn undecoded<T>(read: Result<T, DecodeErrorView>) -> ErrorView {
    ErrorView::DecodeError(read->Err_0)
}

/// What the plan query answers: `NotFound` without a plan row; else the
/// error of the first result set, in the order of the fetches, that holds a
/// row which does not decode; else the plan assembled.
pub open spec fn plan_answer(rows: PlanRowsView) -> Result<PlanView, ErrorView> {
    if rows.plan.len() == 0 {
        Err(ErrorView::NotFound)
    } else {
        let plan = Plan::decoded(rows.plan[0]);
        let processes = decoded_all::<Process>(rows.processes);
        let labels = decoded_keyed::<Label>(rows.labels, "process_id"@);
        let agents = decoded_keyed::<Agent>(rows.agents, "process_id"@);
        let commitments = decoded_keyed::<Commitment>(rows.commitments, "process_id"@);
        let actions = decoded_keyed::<Action>(rows.actions, "commitment_id"@);
        let resource_specifications = decoded_keyed::<ResourceSpecification>(
            rows.resource_specifications,
            "commitment_id"@,
        );
        let units = decoded_keyed::<Unit>(rows.units, "commitment_id"@);
        let assigned_agents = decoded_keyed::<Agent>(rows.assigned_agents, "commitment_id"@);
        if plan is Err {
            Err(undecoded(plan))
        } else if processes is Err {
            Err(undecoded(processes))
        } else if labels is Err {
            Err(undecoded(labels))
        } else if agents is Err {
            Err(undecoded(agents))
        } else if commitments is Err {
            Err(undecoded(commitments))
        } else if actions is Err {
            Err(undecoded(actions))
        } else if resource_specifications is Err {
            Err(undecoded(resource_specifications))
        } else if units is Err {
            Err(undecoded(units))
        } else if assigned_agents is Err {
            Err(undecoded(assigned_agents))
        } else {
            Ok(
                assembled(
                    plan->Ok_0,
                    processes->Ok_0,
                    ChildrenView {
                        labels: labels->Ok_0,
                        agents: agents->Ok_0,
                        commitments: commitments->Ok_0,
                        actions: actions->Ok_0,
                        resource_specifications: resource_specifications->Ok_0,
                        units: units->Ok_0,
                        assigned_agents: assigned_agents->Ok_0,
                    },
                ),
            )
        }
    }
}

/// What the first row of a result set answers: `NotFound` without a row.
pub open spec fn first_answer<T: FromRow>(rows: Seq<RowView>) -> Result<T::V, ErrorView> {
    if rows.len() == 0 {
        Err(ErrorView::NotFound)
    } else {
        match T::decoded(rows[0]) {
            Ok(entity) => Ok(entity),
            Err(e) => Err(ErrorView::DecodeError(e)),
        }
    }
}

/// What a list query answers: every row decoded, in the order of the rows.
pub open spec fn list_answer<T: FromRow>(rows: Seq<RowView>) -> Result<Seq<T::V>, ErrorView> {
    match decoded_all::<T>(rows) {
        Ok(entities) => Ok(entities),
        Err(e) => Err(ErrorView::DecodeError(e)),
    }
}

/// Whether an answer and its model agree.
pub open spec fn answers<T: View>(got: Result<T, Error>, model: Result<T::V, ErrorView>) -> bool {
    match (got, model) {
        (Ok(entity), Ok(view)) => entity@ == view,
        (Err(e), Err(f)) => e@ == f,
        _ => false,
    }
}

/// Whether a list answer and its model agree.
pub open spec fn answers_list<T: View>(
    got: Result<Vec<T>, Error>,
    model: Result<Seq<T::V>, ErrorView>,
) -> bool {
    match (got, model) {
        (Ok(entities), Ok(expected)) => views(entities@) == expected,
        (Err(e), Err(f)) => e@ == f,
        _ => false,
    }
}

/// The subject and object ids of some relations, in order.
pub open spec fn relation_ids(relations: Seq<AgentRelationshipView>) -> Seq<Seq<char>>
    decreases relations.len(),
{
    if relations.len() == 0 {
        Seq::empty()
    } else {
        relation_ids(relations.drop_last()).push(relations.last().subject_id).push(
            relations.last().object_id,
        )
    }
}

/// The ids of a list without repetition: each id where it first occurs.
pub open spec fn distinct(ids: Seq<Seq<char>>) -> Seq<Seq<char>>
    decreases ids.len(),
{
    if ids.len() == 0 {
        Seq::empty()
    } else if ids.drop_last().contains(ids.last()) {
        distinct(ids.drop_last())
    } else {
        distinct(ids.drop_last()).push(ids.last())
    }
}

/// The views of a list of texts.
pub open spec fn texts(list: Seq<String>) -> Seq<Seq<char>> {
    list.map_values(|s: String| s@)
}

/// Agents under their own ids.
pub open spec fn by_id(agents: Seq<AgentView>) -> Seq<(Seq<char>, AgentView)> {
    agents.map_values(|a: AgentView| (a.id, a))
}

/// A relation with its two agents: of each the first agent fetched under
/// that id. None where one of the two was not fetched.
pub open spec fn related(relation: AgentRelationshipView, agents: Seq<AgentView>) -> Option<
    AgentRelationshipView,
> {
    match (
        first_under(by_id(agents), relation.subject_id),
        first_under(by_id(agents), relation.object_id),
    ) {
        (Some(subject), Some(object)) => Some(
            AgentRelationshipView { subject, object, ..relation },
        ),
        _ => None,
    }
}

/// What the relations query answers: the error of the first relation row
/// that does not decode; else that of the first agent row that does not;
/// else `NotFound` where a relation names an agent that was not fetched;
/// else every relation, in order, with its two agents.
pub open spec fn relations_answer(relation_rows: Seq<RowView>, agent_rows: Seq<RowView>) -> Result<
    Seq<AgentRelationshipView>,
    ErrorView,
> {
    let relations = decoded_all::<AgentRelationship>(relation_rows);
    let agents = decoded_all::<Agent>(agent_rows);
    if relations is Err {
        Err(undecoded(relations))
    } else if agents is Err {
        Err(undecoded(agents))
    } else if exists|i: int|
        0 <= i < relations->Ok_0.len() && related(#[trigger] relations->Ok_0[i], agents->Ok_0)
            is None {
        Err(ErrorView::NotFound)
    } else {
        Ok(
            relations->Ok_0.map_values(
                |r: AgentRelationshipView| related(r, agents->Ok_0)->Some_0,
            ),
        )
    }
}

/// What the query for the related agents is: the error of the first
/// relation row that does not decode; else the statement that takes each
/// distinct id of the relations once.
pub open spec fn related_agents_answer(relation_rows: Seq<RowView>) -> Result<
    StatementView,
    ErrorView,
> {
    match decoded_all::<AgentRelationship>(relation_rows) {
        Err(e) => Err(ErrorView::DecodeError(e)),
        Ok(relations) => Ok(
            statement(
                StatementKind::SelectAgentsByIds,
                distinct(relation_ids(relations)).map_values(|id: Seq<char>| text(id)),
            ),
        ),
    }
}

/// Reports a row that did not decode.
fn refuse<T>(read: Result<T, DecodeError>) -> (got: Result<T, Error>)
    ensures
        match (got, read) {
            (Ok(a), Ok(b)) => a == b,
            (Err(e), Err(f)) => e@ == ErrorView::DecodeError(f@),
            _ => false,
        },
{
    match read {
        Ok(value) => Ok(value),
        Err(e) => Err(Error::DecodeError(e)),
    }
}

/// Decodes the first row of a result set.
pub(crate) fn first_row<T: FromRow>(rows: &Vec<Row>) -> (got: Result<T, Error>)
    ensures
        answers(got, first_answer::<T>(rows_view(rows@))),
{
    if rows.len() == 0 {
        return Err(Error::NotFound);
    }
    assert(rows_view(rows@)[0] == rows[0]@);
    match T::from_row(&rows[0]) {
        Ok(entity) => Ok(entity),
        Err(e) => Err(Error::DecodeError(e)),
    }
}

/// Decodes the rows of a list query.
fn list<T: FromRow>(rows: &Vec<Row>) -> (got: Result<Vec<T>, Error>)
    ensures
        answers_list(got, list_answer::<T>(rows_view(rows@))),
{
    refuse(decode_rows::<T>(rows))
}

/// Adds `id` to the ids seen so far, unless it is among them.
fn note(id: &String, seen: &mut StringHashSet, ids: &mut Vec<String>, Ghost(so_far): Ghost<
    Seq<Seq<char>>,
>)
    requires
        texts(old(ids)@) == distinct(so_far),
        forall|x: Seq<char>| old(seen)@.contains(x) <==> so_far.contains(x),
    ensures
        texts(final(ids)@) == distinct(so_far.push(id@)),
        forall|x: Seq<char>| final(seen)@.contains(x) <==> so_far.push(id@).contains(x),
{
    let ghost longer = so_far.push(id@);
    assert(longer.drop_last() =~= so_far);
    let fresh = seen.insert(id.clone());
    if fresh {
        assert(texts(ids@.push(*id)) =~= texts(ids@).push(id@));
        ids.push(id.clone());
    }
    assert forall|x: Seq<char>| seen@.contains(x) <==> longer.contains(x) by {
        if so_far.contains(x) {
            let i = choose|i: int| 0 <= i < so_far.len() && so_far[i] == x;
            assert(longer[i] == x);
        }
        if x == id@ {
            assert(longer[longer.len() - 1] == x);
        }
        if longer.contains(x) && x != id@ {
            let i = choose|i: int| 0 <= i < longer.len() && longer[i] == x;
            assert(so_far[i] == x);
        }
    }
}

impl QueryRoot {
    /// Asks for all agents.
    pub fn agents_query(&self) -> (query: Statement)
        ensures
            query@ == statement(StatementKind::SelectAgents, Seq::empty()),
    {
        Statement::new(StatementKind::SelectAgents)
    }

    /// Asks for the agents that are individuals.
    pub fn individuals_query(&self) -> (query: Statement)
        ensures
            query@ == statement(StatementKind::SelectIndividuals, Seq::empty()),
    {
        Statement::new(StatementKind::SelectIndividuals)
    }

    /// Asks for the agents that are organizations.
    pub fn organizations_query(&self) -> (query: Statement)
        ensures
            query@ == statement(StatementKind::SelectOrganizations, Seq::empty()),
    {
        Statement::new(StatementKind::SelectOrganizations)
    }

    /// Answers with the agents of the rows, in the order of the rows.
    pub fn agents(&self, rows: &Vec<Row>) -> (got: Result<Vec<Agent>, Error>)
        ensures
            answers_list(got, list_answer::<Agent>(rows_view(rows@))),
    {
        list::<Agent>(rows)
    }

    /// Asks for the relations that an agent is part of, as subject or as
    /// object.
    pub fn agent_relations_query(&self, agent_id: &str) -> (query: Statement)
        ensures
            query@ == statement(
                StatementKind::SelectAgentRelations,
                seq![text(agent_id@), text(agent_id@)],
            ),
    {
        let query = Statement::new(StatementKind::SelectAgentRelations).bind_text(
            agent_id,
        ).bind_text(agent_id);
        assert(query@.binds =~= seq![text(agent_id@), text(agent_id@)]);
        query
    }

    /// The ids of the agents that some relations name, each once, in the
    /// order in which they first occur.
    pub fn related_agent_ids(&self, relations: &Vec<AgentRelationship>) -> (ids: Vec<String>)
        ensures
            texts(ids@) == distinct(relation_ids(views(relations@))),
    {
        let ghost all = views(relations@);
        let mut seen = StringHashSet::new();
        let mut ids: Vec<String> = Vec::new();
        let mut i: usize = 0;
        assert(all.take(0) =~= Seq::empty());
        assert(texts(ids@) =~= Seq::empty());
        while i < relations.len()
            invariant
                i <= relations.len(),
                all == views(relations@),
                texts(ids@) == distinct(relation_ids(all.take(i as int))),
                forall|x: Seq<char>|
                    seen@.contains(x) <==> relation_ids(all.take(i as int)).contains(x),
            decreases relations.len() - i,
        {
            let ghost before = relation_ids(all.take(i as int));
            proof {
                assert(all.take(i + 1).drop_last() =~= all.take(i as int));
                assert(all.take(i + 1).last() == relations[i as int]@);
            }
            note(&relations[i].subject_id, &mut seen, &mut ids, Ghost(before));
            note(
                &relations[i].object_id,
                &mut seen,
                &mut ids,
                Ghost(before.push(relations[i as int].subject_id@)),
            );
            i += 1;
        }
        assert(all.take(i as int) =~= all);
        ids
    }

    /// Asks for the agents that the relations of some rows name: one
    /// statement for all of them, with one parameter for each distinct id,
    /// in the order in which the ids first occur.
    pub fn related_agents_query(&self, relation_rows: &Vec<Row>) -> (got: Result<Statement, Error>)
        ensures
            answers(got, related_agents_answer(rows_view(relation_rows@))),
    {
        let relations = refuse(decode_rows::<AgentRelationship>(relation_rows))?;
        let ids = self.related_agent_ids(&relations);
        let ghost wanted = texts(ids@).map_values(|id: Seq<char>| text(id));
        let mut query = Statement::new(StatementKind::SelectAgentsByIds);
        let mut i: usize = 0;
        assert(wanted.take(0) =~= Seq::empty());
        while i < ids.len()
            invariant
                i <= ids.len(),
                wanted == texts(ids@).map_values(|id: Seq<char>| text(id)),
                query@ == statement(StatementKind::SelectAgentsByIds, wanted.take(i as int)),
            decreases ids.len() - i,
        {
            assert(wanted.take(i + 1) =~= wanted.take(i as int).push(text(ids[i as int]@)));
            query = query.bind_text(ids[i].as_str());
            i += 1;
        }
        assert(wanted.take(i as int) =~= wanted);
        Ok(query)
    }

    /// Answers with the relations of the rows, in the order of the rows,
    /// each with its subject and its object from among the agents fetched.
    pub fn agent_relations(&self, relation_rows: &Vec<Row>, agent_rows: &Vec<Row>) -> (got: Result<
        Vec<AgentRelationship>,
        Error,
    >)
        ensures
            answers_list(got, relations_answer(rows_view(relation_rows@), rows_view(agent_rows@))),
    {
        let relations = refuse(decode_rows::<AgentRelationship>(relation_rows))?;
        let agents = refuse(decode_rows::<Agent>(agent_rows))?;
        let ghost bare = views(relations@);
        let ghost fetched = views(agents@);
        let mut pairs: Vec<(String, Agent)> = Vec::new();
        let mut i: usize = 0;
        assert(keyed_views(pairs@) =~= by_id(fetched).take(0));
        while i < agents.len()
            invariant
                i <= agents.len(),
                fetched == views(agents@),
                keyed_views(pairs@) == by_id(fetched).take(i as int),
            decreases agents.len() - i,
        {
            let agent = agents[i].clone();
            let id = agent.id.clone();
            proof {
                assert(keyed_views(pairs@.push((id, agent))) =~= keyed_views(pairs@).push(
                    (id@, agent@),
                ));
                assert(by_id(fetched).take(i + 1) =~= by_id(fetched).take(i as int).push(
                    (id@, agent@),
                ));
            }
            pairs.push((id, agent));
            i += 1;
        }
        assert(by_id(fetched).take(i as int) =~= by_id(fetched));
        proof {
            crate::assemble::lemma_index_represents(pairs@);
        }
        let index = GroupIndex::build(pairs);
        let mut whole: Vec<AgentRelationship> = Vec::new();
        let ghost each = |r: AgentRelationshipView| related(r, fetched)->Some_0;
        assert(views(whole@) =~= bare.take(0).map_values(each));
        for relation in it: relations
            invariant
                bare == views(it.seq()),
                decoded_all::<AgentRelationship>(rows_view(relation_rows@)) == Ok::<
                    Seq<AgentRelationshipView>,
                    DecodeErrorView,
                >(bare),
                decoded_all::<Agent>(rows_view(agent_rows@)) == Ok::<
                    Seq<AgentView>,
                    DecodeErrorView,
                >(fetched),
                each == |r: AgentRelationshipView| related(r, fetched)->Some_0,
                crate::assemble::represents(index@, by_id(fetched)),
                views(whole@) == bare.take(it.index() as int).map_values(each),
                forall|j: int| 0 <= j < it.index() ==> related(#[trigger] bare[j], fetched) is Some,
        {
            let ghost view = relation@;
            assert(bare[it.index() as int] == view);
            let subject = match index.first(relation.subject_id.as_str()) {
                Some(agent) => agent.clone(),
                None => {
                    proof {
                        crate::assemble::lemma_first_of_views(
                            members_of(index@, relation.subject_id@),
                        );
                        assert(related(bare[it.index() as int], fetched) is None);
                    }
                    return Err(Error::NotFound);
                },
            };
            let object = match index.first(relation.object_id.as_str()) {
                Some(agent) => agent.clone(),
                None => {
                    proof {
                        crate::assemble::lemma_first_of_views(
                            members_of(index@, relation.object_id@),
                        );
                        assert(related(bare[it.index() as int], fetched) is None);
                    }
                    return Err(Error::NotFound);
                },
            };
            let joined = AgentRelationship {
                id: relation.id,
                subject_id: relation.subject_id,
                subject,
                object_id: relation.object_id,
                object,
                agent_relation_type_id: relation.agent_relation_type_id,
                agent_relation_type: relation.agent_relation_type,
                inserted_at: relation.inserted_at,
            };
            proof {
                crate::assemble::lemma_first_of_views(members_of(index@, view.subject_id));
                crate::assemble::lemma_first_of_views(members_of(index@, view.object_id));
                assert(related(view, fetched) == Some(joined@));
                assert(views(whole@.push(joined)) =~= views(whole@).push(joined@));
                assert(bare.take(it.index() + 1).map_values(each) =~= bare.take(
                    it.index() as int,
                ).map_values(each).push(joined@));
            }
            whole.push(joined);
        }
        assert(bare.take(bare.len() as int) =~= bare);
        Ok(whole)
    }

    /// Asks for the plans of an agent.
    pub fn plans_query(&self, agent_id: &str) -> (query: Statement)
        ensures
            query@ == statement(StatementKind::SelectPlansOfAgent, seq![text(agent_id@)]),
    {
        let query = Statement::new(StatementKind::SelectPlansOfAgent).bind_text(agent_id);
        assert(query@.binds =~= seq![text(agent_id@)]);
        query
    }

    /// Answers with the plans of the rows, in the order of the rows, each
    /// without its processes.
    pub fn plans(&self, rows: &Vec<Row>) -> (got: Result<Vec<Plan>, Error>)
        ensures
            answers_list(got, list_answer::<Plan>(rows_view(rows@))),
    {
        list::<Plan>(rows)
    }

    /// Asks for one plan and all that hangs on it.
    pub fn plan_queries(&self, plan_id: &str) -> (queries: PlanQueries)
        ensures
            queries.plan@ == of_plan(StatementKind::SelectPlan, plan_id@),
            queries.processes@ == of_plan(StatementKind::SelectProcessesOfPlan, plan_id@),
            queries.labels@ == of_plan(StatementKind::SelectLabelsOfPlan, plan_id@),
            queries.agents@ == of_plan(StatementKind::SelectAgentsOfPlan, plan_id@),
            queries.commitments@ == of_plan(StatementKind::SelectCommitmentsOfPlan, plan_id@),
            queries.actions@ == of_plan(StatementKind::SelectActionsOfPlan, plan_id@),
            queries.resource_specifications@ == of_plan(
                StatementKind::SelectResourceSpecificationsOfPlan,
                plan_id@,
            ),
            queries.units@ == of_plan(StatementKind::SelectUnitsOfPlan, plan_id@),
            queries.assigned_agents@ == of_plan(
                StatementKind::SelectAssignedAgentsOfPlan,
                plan_id@,
            ),
    {
        PlanQueries {
            plan: keyed_query(StatementKind::SelectPlan, plan_id),
            processes: keyed_query(StatementKind::SelectProcessesOfPlan, plan_id),
            labels: keyed_query(StatementKind::SelectLabelsOfPlan, plan_id),
            agents: keyed_query(StatementKind::SelectAgentsOfPlan, plan_id),
            commitments: keyed_query(StatementKind::SelectCommitmentsOfPlan, plan_id),
            actions: keyed_query(StatementKind::SelectActionsOfPlan, plan_id),
            resource_specifications: keyed_query(
                StatementKind::SelectResourceSpecificationsOfPlan,
                plan_id,
            ),
            units: keyed_query(StatementKind::SelectUnitsOfPlan, plan_id),
            assigned_agents: keyed_query(StatementKind::SelectAssignedAgentsOfPlan, plan_id),
        }
    }

    /// Answers with the plan of the first fetch alone, without its
    /// processes. Where this fails, the plan query fails in the same way, and
    /// nothing else needs to be fetched.
    pub fn found_plan(&self, plan_rows: &Vec<Row>) -> (got: Result<Plan, Error>)
        ensures
            answers(got, first_answer::<Plan>(rows_view(plan_rows@))),
    {
        first_row::<Plan>(plan_rows)
    }

    /// Answers with the plan of the rows, its processes in the order of
    /// their rows, each with its labels, agents and commitments.
    pub fn plan(&self, rows: &PlanRows) -> (got: Result<Plan, Error>)
        ensures
            answers(got, plan_answer(rows@)),
    {
        if rows.plan.len() == 0 {
            return Err(Error::NotFound);
        }
        assert(rows@.plan[0] == rows.plan[0]@);
        let plan = refuse(Plan::from_row(&rows.plan[0]))?;
        let processes = refuse(decode_rows::<Process>(&rows.processes))?;
        let labels = refuse(decode_keyed::<Label>(&rows.labels, "process_id"))?;
        let agents = refuse(decode_keyed::<Agent>(&rows.agents, "process_id"))?;
        let commitments = refuse(decode_keyed::<Commitment>(&rows.commitments, "process_id"))?;
        let actions = refuse(decode_keyed::<Action>(&rows.actions, "commitment_id"))?;
        let resource_specifications = refuse(
            decode_keyed::<ResourceSpecification>(&rows.resource_specifications, "commitment_id"),
        )?;
        let units = refuse(decode_keyed::<Unit>(&rows.units, "commitment_id"))?;
        let assigned_agents = refuse(
            decode_keyed::<Agent>(&rows.assigned_agents, "commitment_id"),
        )?;
        let children = Children {
            labels,
            agents,
            commitments,
            actions,
            resource_specifications,
            units,
            assigned_agents,
        };
        Ok(assemble_plan(plan, processes, children))
    }

    /// Asks for all labels.
    pub fn labels_query(&self) -> (query: Statement)
        ensures
            query@ == statement(StatementKind::SelectLabels, Seq::empty()),
    {
        Statement::new(StatementKind::SelectLabels)
    }

    /// Answers with the labels of the rows, in the order of the rows.
    pub fn labels(&self, rows: &Vec<Row>) -> (got: Result<Vec<Label>, Error>)
        ensures
            answers_list(got, list_answer::<Label>(rows_view(rows@))),
    {
        list::<Label>(rows)
    }

    /// Asks for all actions.
    pub fn actions_query(&self) -> (query: Statement)
        ensures
            query@ == statement(StatementKind::SelectActions, Seq::empty()),
    {
        Statement::new(StatementKind::SelectActions)
    }

    /// Answers with the actions of the rows, in the order of the rows.
    pub fn actions(&self, rows: &Vec<Row>) -> (got: Result<Vec<Action>, Error>)
        ensures
            answers_list(got, list_answer::<Action>(rows_view(rows@))),
    {
        list::<Action>(rows)
    }

    /// Asks for all units.
    pub fn units_query(&self) -> (query: Statement)
        ensures
            query@ == statement(StatementKind::SelectUnits, Seq::empty()),
    {
        Statement::new(StatementKind::SelectUnits)
    }

    /// Answers with the units of the rows, in the order of the rows.
    pub fn units(&self, rows: &Vec<Row>) -> (got: Result<Vec<Unit>, Error>)
        ensures
            answers_list(got, list_answer::<Unit>(rows_view(rows@))),
    {
        list::<Unit>(rows)
    }

    /// Asks for all resource specifications.
    pub fn resource_specifications_query(&self) -> (query: Statement)
        ensures
            query@ == statement(StatementKind::SelectResourceSpecifications, Seq::empty()),
    {
        Statement::new(StatementKind::SelectResourceSpecifications)
    }

    /// Answers with the resource specifications of the rows, in the order of
    /// the rows.
    pub fn resource_specifications(&self, rows: &Vec<Row>) -> (got: Result<
        Vec<ResourceSpecification>,
        Error,
    >)
        ensures
            answers_list(got, list_answer::<ResourceSpecification>(rows_view(rows@))),
    {
        list::<ResourceSpecification>(rows)
    }
}

/// A statement of `kind` about the plan `plan_id`.
pub open spec fn of_plan(kind: StatementKind, plan_id: Seq<char>) -> StatementView {
    statement(kind, seq![text(plan_id)])
}

/// A statement of `kind` with `key` as its one parameter.
pub(crate) fn keyed_query(kind: StatementKind, key: &str) -> (query: Statement)
    ensures
        query@ == statement(kind, seq![text(key@)]),
{
    let query = Statement::new(kind).bind_text(key);
    assert(query@.binds =~= seq![text(key@)]);
    query
}

} // verus!
