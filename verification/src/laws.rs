//! What holds of the library as a whole, stated over the models that the
//! contracts of its functions speak of.

use crate::assemble::{assembled, ChildrenView};
use crate::decode::{all_or_first_error, decoded_all, FromRow};
use crate::error::{reported, DecodeErrorView, Error, ErrorView, StoreFailureView};
use crate::grouping::{grouped, lemma_group_members, lemma_values_under_push, values_under};
use crate::model::{
    agent_type_named, agent_type_text, input_output_named, input_output_text, views, Agent,
    AgentType, InputOutput, Plan, PlanView, ProcessView,
};
use crate::mutation::{
    agent_insert, commitment_insert, commitment_update, joins, label_insert, plan_creation,
    process_creation, process_deletion, process_update, resource_specification_insert,
    NewCommitment, UpdateCommitment,
};
use crate::naming::{lowercase, slug, underscored};
use crate::query::{
    answers_list, distinct, first_answer, list_answer, plan_answer, PlanRowsView,
};
use crate::row::RowView;
use crate::sql::{marks, MARK, SEPARATOR};
use crate::statement::{complete, text, yields_rows, StatementKind};
use vstd::prelude::*;

verus! {

/// A unique name is the lowercase of the name with every space replaced by
/// an underscore: it is as long as the lowercase form, holds an underscore
/// wherever that form holds a space, the same character elsewhere, and no
/// space at all.
pub proof fn law_unique_name_shape(name: Seq<char>)
    ensures
        slug(name).len() == lowercase(name).len(),
        forall|i: int|
            0 <= i < lowercase(name).len() ==> #[trigger] slug(name)[i] == (if lowercase(name)[i]
                == ' ' {
                '_'
            } else {
                lowercase(name)[i]
            }),
        forall|i: int| 0 <= i < slug(name).len() ==> #[trigger] slug(name)[i] != ' ',
{
}

/// Every agent is stored with the unique name that derives from its name,
/// whatever id it is created under.
pub proof fn law_agent_stored_under_slug(
    id: Seq<char>,
    name: Seq<char>,
    email: Option<Seq<char>>,
    agent_type: AgentType,
)
    ensures
        agent_insert(id, name, email, agent_type).binds[1] == text(name),
        agent_insert(id, name, email, agent_type).binds[2] == text(
            underscored(lowercase(name)),
        ),
{
}

/// Two agents whose names derive the same unique name are stored under the
/// same key, whatever their ids; and the datastore's refusal of a key that
/// is taken is reported as a constraint violation.
pub proof fn law_same_unique_name_collides(
    first_id: Seq<char>,
    first_name: Seq<char>,
    first_email: Option<Seq<char>>,
    first_type: AgentType,
    second_id: Seq<char>,
    second_name: Seq<char>,
    second_email: Option<Seq<char>>,
    second_type: AgentType,
)
    requires
        slug(first_name) == slug(second_name),
    ensures
        agent_insert(first_id, first_name, first_email, first_type).binds[2] == agent_insert(
            second_id,
            second_name,
            second_email,
            second_type,
        ).binds[2],
        reported(StoreFailureView::UniqueViolation) == ErrorView::ConstraintViolation,
{
}

/// A plan for which no process was fetched is answered with an empty list
/// of processes, whatever else was fetched.
pub proof fn law_plan_without_processes(rows: PlanRowsView)
    requires
        rows.processes.len() == 0,
        plan_answer(rows) is Ok,
    ensures
        plan_answer(rows)->Ok_0.processes.len() == 0,
{
}

/// A plan that is not found by its first fetch is not found at all: where
/// the first fetch alone fails, the plan query fails with the same error,
/// whatever the other fetches return.
pub proof fn law_plan_fails_with_its_first_fetch(rows: PlanRowsView)
    requires
        first_answer::<Plan>(rows.plan) is Err,
    ensures
        plan_answer(rows) is Err,
        plan_answer(rows)->Err_0 == first_answer::<Plan>(rows.plan)->Err_0,
{
}

/// Grouping keeps every label with its own process. The labels of the
/// process at `at` are the labels fetched under that process's id, in the
/// order in which they were fetched: there is one position among the
/// fetched pairs for each of them, the positions increase, every pair
/// fetched under the process's id is at one of them, and no pair fetched
/// under another id is.
pub proof fn law_labels_stay_with_their_process(
    plan: PlanView,
    processes: Seq<ProcessView>,
    children: ChildrenView,
    at: int,
) -> (positions: Seq<int>)
    requires
        0 <= at < processes.len(),
    ensures
        positions.len() == assembled(plan, processes, children).processes[at].labels.len(),
        forall|j: int|
            0 <= j < positions.len() ==> 0 <= #[trigger] positions[j] < children.labels.len(),
        forall|j: int|
            0 <= j < positions.len() ==> children.labels[#[trigger] positions[j]] == (
                processes[at].id,
                assembled(plan, processes, children).processes[at].labels[j],
            ),
        forall|j: int, k: int|
            0 <= j < k < positions.len() ==> #[trigger] positions[j] < #[trigger] positions[k],
        forall|i: int|
            0 <= i < children.labels.len() ==> (positions.contains(i) <==> (
            #[trigger] children.labels[i]).0 == processes[at].id),
{
    let positions = lemma_group_members(children.labels, processes[at].id);
    assert forall|i: int| 0 <= i < children.labels.len() && positions.contains(i) implies (
    #[trigger] children.labels[i]).0 == processes[at].id by {
        let j = choose|j: int| 0 <= j < positions.len() && positions[j] == i;
        assert(children.labels[positions[j]].0 == processes[at].id);
    }
    positions
}

/// The index holds exactly the keys that occur: a key has a group in the
/// index if and only if some pair is filed under it, and that group is not
/// empty.
pub proof fn law_index_holds_the_keys_that_occur<V>(pairs: Seq<(Seq<char>, V)>, key: Seq<char>)
    ensures
        grouped(pairs).contains_key(key) <==> exists|i: int|
            0 <= i < pairs.len() && (#[trigger] pairs[i]).0 == key,
        grouped(pairs).contains_key(key) ==> grouped(pairs)[key].len() > 0,
    decreases pairs.len(),
{
    if pairs.len() > 0 {
        let rest = pairs.drop_last();
        law_index_holds_the_keys_that_occur(rest, key);
        assert(pairs =~= rest.push(pairs.last()));
        lemma_values_under_push(rest, pairs.last(), key);
        if values_under(pairs, key).len() > 0 {
            if pairs.last().0 == key {
                assert(pairs[pairs.len() - 1].0 == key);
            } else {
                let i = choose|i: int| 0 <= i < rest.len() && (#[trigger] rest[i]).0 == key;
                assert(pairs[i].0 == key);
            }
        }
        if exists|i: int| 0 <= i < pairs.len() && (#[trigger] pairs[i]).0 == key {
            let i = choose|i: int| 0 <= i < pairs.len() && (#[trigger] pairs[i]).0 == key;
            if i < rest.len() {
                assert(rest[i].0 == key);
            }
        }
    }
}

/// A list is answered row by row: where the rows of a result set decode,
/// there are as many entities as rows, and the entity at each position is
/// what the row at that position decodes to.
pub proof fn law_lists_keep_the_order_of_their_rows<T: FromRow>(rows: Seq<RowView>)
    requires
        decoded_all::<T>(rows) is Ok,
    ensures
        decoded_all::<T>(rows)->Ok_0.len() == rows.len(),
        forall|i: int|
            0 <= i < rows.len() ==> T::decoded(#[trigger] rows[i]) == Ok::<T::V, DecodeErrorView>(
                decoded_all::<T>(rows)->Ok_0[i],
            ),
{
    lemma_all_succeed(rows, |row: RowView| T::decoded(row));
}

/// Where every item succeeds, the results stand in the order of the items.
proof fn lemma_all_succeed<A, B>(items: Seq<A>, each: spec_fn(A) -> Result<B, DecodeErrorView>)
    requires
        all_or_first_error(items, each) is Ok,
    ensures
        all_or_first_error(items, each)->Ok_0.len() == items.len(),
        forall|i: int|
            0 <= i < items.len() ==> each(#[trigger] items[i]) == Ok::<B, DecodeErrorView>(
                all_or_first_error(items, each)->Ok_0[i],
            ),
    decreases items.len(),
{
    if items.len() > 0 {
        lemma_all_succeed(items.drop_last(), each);
        assert forall|i: int| 0 <= i < items.len() implies each(#[trigger] items[i]) == Ok::<
            B,
            DecodeErrorView,
        >(all_or_first_error(items, each)->Ok_0[i]) by {
            if i < items.len() - 1 {
                assert(items.drop_last()[i] == items[i]);
            }
        }
    }
}

/// The related agents are asked for once each: the distinct ids hold every
/// id of the list, none that is not in it, and none twice.
pub proof fn law_distinct_ids(ids: Seq<Seq<char>>)
    ensures
        forall|id: Seq<char>| distinct(ids).contains(id) <==> ids.contains(id),
        distinct(ids).no_duplicates(),
    decreases ids.len(),
{
    if ids.len() > 0 {
        let rest = ids.drop_last();
        let last = ids.last();
        law_distinct_ids(rest);
        assert forall|id: Seq<char>| distinct(ids).contains(id) <==> ids.contains(id) by {
            if ids.contains(id) {
                let i = choose|i: int| 0 <= i < ids.len() && ids[i] == id;
                if i < rest.len() {
                    assert(rest[i] == id);
                    assert(rest.contains(id));
                }
            }
            if rest.contains(id) {
                let i = choose|i: int| 0 <= i < rest.len() && rest[i] == id;
                assert(ids[i] == id);
            }
            if id == last {
                assert(ids[ids.len() - 1] == id);
            }
            if !rest.contains(last) {
                let longer = distinct(rest).push(last);
                assert(longer[longer.len() - 1] == last);
                if distinct(rest).contains(id) {
                    let i = choose|i: int| 0 <= i < distinct(rest).len() && distinct(rest)[i] == id;
                    assert(longer[i] == id);
                }
                if longer.contains(id) && id != last {
                    let i = choose|i: int| 0 <= i < longer.len() && longer[i] == id;
                    assert(distinct(rest)[i] == id);
                }
            }
        }
    }
}

/// Reads repeat: two answers of the agents query over the same rows are the
/// same, entity by entity and in the same order, or the same error.
pub proof fn law_reads_repeat(
    first: Result<Vec<Agent>, Error>,
    second: Result<Vec<Agent>, Error>,
    rows: Seq<RowView>,
)
    requires
        answers_list(first, list_answer::<Agent>(rows)),
        answers_list(second, list_answer::<Agent>(rows)),
    ensures
        match (first, second) {
            (Ok(a), Ok(b)) => views(a@) == views(b@),
            (Err(e), Err(f)) => e@ == f@,
            _ => false,
        },
{
}

/// A process is removed in one atomic batch that clears both join tables of
/// the process's rows before it removes the process itself, so that no join
/// row can outlive its process.
pub proof fn law_process_deletion_clears_joins_first(id: Seq<char>)
    ensures
        process_deletion(id).atomic,
        process_deletion(id).statements.len() == 3,
        process_deletion(id).statements[0].kind == StatementKind::DeleteProcessLabels,
        process_deletion(id).statements[1].kind == StatementKind::DeleteProcessAgents,
        process_deletion(id).statements[2].kind == StatementKind::DeleteProcess,
        forall|i: int|
            0 <= i < 3 ==> (#[trigger] process_deletion(id).statements[i]).binds == seq![text(id)],
{
}

/// The update of a process writes its join rows anew: whatever the lists
/// given, the batch first clears both join tables of the process's rows,
/// then writes one row for each label and each agent given, and replaces
/// the process's own fields last.
pub proof fn law_process_update_replaces_joins(
    id: Seq<char>,
    title: Seq<char>,
    description: Option<Seq<char>>,
    labels: Seq<Seq<char>>,
    agents: Seq<Seq<char>>,
)
    ensures
        process_update(id, title, description, labels, agents).atomic,
        process_update(id, title, description, labels, agents).statements.len() == 3 + labels.len()
            + agents.len(),
        process_update(id, title, description, labels, agents).statements[0].kind
            == StatementKind::DeleteProcessLabels,
        process_update(id, title, description, labels, agents).statements[1].kind
            == StatementKind::DeleteProcessAgents,
        forall|i: int|
            0 <= i < labels.len() ==> (#[trigger] process_update(
                id,
                title,
                description,
                labels,
                agents,
            ).statements[2 + i]) == joins(StatementKind::InsertProcessLabel, id, labels)[i],
        forall|i: int|
            0 <= i < agents.len() ==> (#[trigger] process_update(
                id,
                title,
                description,
                labels,
                agents,
            ).statements[2 + labels.len() + i]) == joins(
                StatementKind::InsertProcessAgent,
                id,
                agents,
            )[i],
        process_update(id, title, description, labels, agents).statements.last().kind
            == StatementKind::UpdateProcess,
{
}

/// Every statement that a mutation issues carries exactly the parameters
/// that its kind takes.
pub proof fn law_statements_complete(
    id: Seq<char>,
    name: Seq<char>,
    other: Seq<char>,
    email: Option<Seq<char>>,
    agent_type: AgentType,
    labels: Seq<Seq<char>>,
    agents: Seq<Seq<char>>,
    new_commitment: NewCommitment,
    update_commitment: UpdateCommitment,
)
    ensures
        complete(agent_insert(id, name, email, agent_type)),
        complete(label_insert(id, name, other)),
        complete(resource_specification_insert(id, name)),
        complete(commitment_insert(id, new_commitment)),
        complete(commitment_update(update_commitment)),
        forall|i: int|
            0 <= i < plan_creation(id, name, other).statements.len() ==> complete(
                #[trigger] plan_creation(id, name, other).statements[i],
            ),
        forall|i: int|
            0 <= i < process_creation(id, name, email, email, labels, agents).statements.len()
                ==> complete(
                #[trigger] process_creation(id, name, email, email, labels, agents).statements[i],
            ),
        forall|i: int|
            0 <= i < process_update(id, name, email, labels, agents).statements.len() ==> complete(
                #[trigger] process_update(id, name, email, labels, agents).statements[i],
            ),
        forall|i: int|
            0 <= i < process_deletion(id).statements.len() ==> complete(
                #[trigger] process_deletion(id).statements[i],
            ),
{
}

/// Every creation returns the row that it stored: the statement that
/// stores the record stands first and returns rows. The removal and the
/// update of a process end on the statement whose count is the answer.
pub proof fn law_creations_return_their_row(
    id: Seq<char>,
    name: Seq<char>,
    other: Seq<char>,
    email: Option<Seq<char>>,
    agent_type: AgentType,
    labels: Seq<Seq<char>>,
    agents: Seq<Seq<char>>,
    new_commitment: NewCommitment,
)
    ensures
        yields_rows(agent_insert(id, name, email, agent_type).kind),
        yields_rows(label_insert(id, name, other).kind),
        yields_rows(resource_specification_insert(id, name).kind),
        yields_rows(commitment_insert(id, new_commitment).kind),
        yields_rows(plan_creation(id, name, other).statements[0].kind),
        yields_rows(process_creation(id, name, email, email, labels, agents).statements[0].kind),
        !yields_rows(process_deletion(id).statements.last().kind),
        !yields_rows(process_update(id, name, email, labels, agents).statements.last().kind),
{
}

/// How many parameters a text has a place for.
pub open spec fn places(text: Seq<char>) -> nat {
    text.filter(|c: char| c == '?').len()
}

/// The agents of some relations are asked for with one place for each id:
/// the list of marks for `n` parameters has exactly `n` places.
pub proof fn law_one_place_for_each_id(n: nat)
    ensures
        places(marks(n)) == n,
    decreases n,
{
    let is_mark = |c: char| c == '?';
    reveal_strlit("?");
    reveal_strlit(", ");
    assert(MARK@ =~= seq!['?']);
    assert(SEPARATOR@ =~= seq![',', ' ']);
    assert(places(MARK@) == 1) by {
        reveal_with_fuel(Seq::filter, 3);
    }
    assert(places(SEPARATOR@) == 0) by {
        reveal_with_fuel(Seq::filter, 4);
    }
    if n == 0 {
        assert(places(marks(0)) == 0) by {
            reveal_with_fuel(Seq::filter, 2);
        }
    } else if n > 1 {
        law_one_place_for_each_id((n - 1) as nat);
        let before = marks((n - 1) as nat);
        Seq::filter_distributes_over_add(before, SEPARATOR@, is_mark);
        Seq::filter_distributes_over_add(before + SEPARATOR@, MARK@, is_mark);
    }
}

/// The text under which an enum is stored names that variant again when it
/// is read.
pub proof fn law_variants_read_back(kind: AgentType, direction: InputOutput)
    ensures
        agent_type_named(agent_type_text(kind)) == Some(kind),
        input_output_named(input_output_text(direction)) == Some(direction),
{
    reveal_strlit("Individual");
    reveal_strlit("Organization");
    reveal_strlit("Project");
    reveal_strlit("Input");
    reveal_strlit("Output");
    assert("Individual"@[0] == 'I');
    assert("Organization"@[0] == 'O');
    assert("Project"@[0] == 'P');
    assert("Input"@[0] == 'I');
    assert("Output"@[0] == 'O');
}

} // verus!
