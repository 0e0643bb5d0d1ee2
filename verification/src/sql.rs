//! The SQL text of each statement: which columns it selects or writes,
//! which rows it takes, and in what order it returns them.
//!
//! List queries return their rows newest first. The fetches of a plan take
//! the children of all its processes at once, by a subquery on the plan's
//! id.

use crate::statement::{Statement, StatementKind};
use vstd::prelude::*;

verus! {

pub const SELECT_AGENTS: &'static str =
    "SELECT * FROM agents ORDER BY inserted_at DESC";

pub const SELECT_INDIVIDUALS: &'static str =
    "SELECT * FROM agents WHERE agents.agent_type == 'Individual' ORDER BY inserted_at DESC";

pub const SELECT_ORGANIZATIONS: &'static str =
    "SELECT * FROM agents WHERE agents.agent_type == 'Organization' ORDER BY inserted_at DESC";

pub const SELECT_AGENT: &'static str =
    "SELECT * FROM agents WHERE agents.id = ?";

pub const SELECT_AGENT_RELATIONS: &'static str =
    "SELECT agent_relations.id, subject_id, object_id, agent_relation_types.name AS agent_relation_type_name FROM agent_relations JOIN agent_relation_types ON agent_relation_types.id = agent_relations.agent_relation_type_id WHERE subject_id = ? OR object_id = ? ORDER BY agent_relations.inserted_at DESC";

pub const SELECT_PLANS_OF_AGENT: &'static str =
    "SELECT plans.id, title, description, plans.inserted_at FROM plans JOIN plan_agents ON plan_agents.plan_id = plans.id WHERE plan_agents.agent_id = ? ORDER BY plans.inserted_at DESC";

pub const SELECT_PLAN: &'static str =
    "SELECT * FROM plans WHERE plans.id = ?";

pub const SELECT_PROCESSES_OF_PLAN: &'static str =
    "SELECT * FROM processes WHERE processes.plan_id = ?";

pub const SELECT_LABELS_OF_PLAN: &'static str =
    "SELECT labels.id, name, color, process_id FROM labels INNER JOIN process_labels ON process_labels.label_id = labels.id WHERE process_labels.process_id IN (SELECT id FROM processes WHERE processes.plan_id = ?)";

pub const SELECT_AGENTS_OF_PLAN: &'static str =
    "SELECT agents.id, name, unique_name, agent_type, process_id FROM agents INNER JOIN process_agents ON process_agents.agent_id = agents.id WHERE process_agents.process_id IN (SELECT id FROM processes WHERE processes.plan_id = ?)";

pub const SELECT_COMMITMENTS_OF_PLAN: &'static str =
    "SELECT id, description, inserted_at, process_id, action_id, assigned_agent_id, quantity, unit_id, resource_specification_id, due_at FROM commitments WHERE commitments.process_id IN (SELECT id FROM processes WHERE processes.plan_id = ?)";

pub const SELECT_ACTIONS_OF_PLAN: &'static str =
    "SELECT actions.id, name, input_output, actions.inserted_at, commitments.id AS commitment_id FROM actions JOIN commitments ON actions.id = commitments.action_id JOIN processes ON processes.id = commitments.process_id WHERE processes.id IN (SELECT id FROM processes WHERE processes.plan_id = ?)";

pub const SELECT_RESOURCE_SPECIFICATIONS_OF_PLAN: &'static str =
    "SELECT resource_specifications.id, name, resource_specifications.inserted_at, commitments.id AS commitment_id FROM resource_specifications JOIN commitments ON resource_specifications.id = commitments.resource_specification_id JOIN processes ON processes.id = commitments.process_id WHERE processes.id IN (SELECT id FROM processes WHERE processes.plan_id = ?)";

pub const SELECT_UNITS_OF_PLAN: &'static str =
    "SELECT units.id, label, units.inserted_at, commitments.id AS commitment_id FROM units JOIN commitments ON units.id = commitments.unit_id JOIN processes ON processes.id = commitments.process_id WHERE processes.id IN (SELECT id FROM processes WHERE processes.plan_id = ?)";

pub const SELECT_ASSIGNED_AGENTS_OF_PLAN: &'static str =
    "SELECT agents.id, name, unique_name, agent_type, agents.inserted_at, commitments.id AS commitment_id FROM agents JOIN commitments ON agents.id = commitments.assigned_agent_id JOIN processes ON processes.id = commitments.process_id WHERE processes.id IN (SELECT id FROM processes WHERE processes.plan_id = ?)";

pub const SELECT_LABELS: &'static str =
    "SELECT * FROM labels ORDER BY inserted_at DESC";

pub const SELECT_LABELS_OF_PROCESS: &'static str =
    "SELECT labels.id, name, color FROM labels INNER JOIN process_labels ON process_labels.label_id = labels.id WHERE process_labels.process_id = ?";

pub const SELECT_AGENTS_OF_PROCESS: &'static str =
    "SELECT agents.id, name, unique_name, agent_type FROM agents INNER JOIN process_agents ON process_agents.agent_id = agents.id WHERE process_agents.process_id = ?";

pub const SELECT_ACTIONS: &'static str =
    "SELECT * FROM actions ORDER BY inserted_at DESC";

pub const SELECT_ACTION: &'static str =
    "SELECT * FROM actions WHERE actions.id = ?";

pub const SELECT_UNITS: &'static str =
    "SELECT * FROM units ORDER BY inserted_at DESC";

pub const SELECT_UNIT: &'static str =
    "SELECT * FROM units WHERE units.id = ?";

pub const SELECT_RESOURCE_SPECIFICATIONS: &'static str =
    "SELECT * FROM resource_specifications ORDER BY inserted_at DESC";

pub const SELECT_RESOURCE_SPECIFICATION: &'static str =
    "SELECT * FROM resource_specifications WHERE resource_specifications.id = ?";

pub const INSERT_AGENT: &'static str =
    "INSERT INTO agents (id, name, unique_name, email, agent_type) VALUES (?, ?, ?, ?, ?) RETURNING *";

pub const DELETE_AGENT: &'static str =
    "DELETE FROM agents WHERE unique_name = ?";

pub const INSERT_LABEL: &'static str =
    "INSERT INTO labels (id, name, unique_name, color) VALUES (?, ?, ?, ?) RETURNING *";

pub const DELETE_LABEL: &'static str =
    "DELETE FROM labels WHERE id = ?";

pub const INSERT_PLAN: &'static str =
    "INSERT INTO plans (id, title) VALUES (?, ?) RETURNING *";

pub const INSERT_PLAN_AGENT: &'static str =
    "INSERT INTO plan_agents (plan_id, agent_id) VALUES (?, ?)";

pub const UPDATE_PLAN: &'static str =
    "UPDATE plans SET title = ?, description = ? WHERE id = ?";

pub const INSERT_PROCESS: &'static str =
    "INSERT INTO processes (id, title, description, plan_id) VALUES (?, ?, ?, ?) RETURNING *";

pub const INSERT_PROCESS_LABEL: &'static str =
    "INSERT INTO process_labels (process_id, label_id) VALUES (?, ?)";

pub const INSERT_PROCESS_AGENT: &'static str =
    "INSERT INTO process_agents (process_id, agent_id) VALUES (?, ?)";

pub const DELETE_PROCESS_LABELS: &'static str =
    "DELETE FROM process_labels WHERE process_id = ?";

pub const DELETE_PROCESS_AGENTS: &'static str =
    "DELETE FROM process_agents WHERE process_id = ?";

pub const UPDATE_PROCESS: &'static str =
    "UPDATE processes SET title = ?, description = ? WHERE id = ?";

pub const DELETE_PROCESS: &'static str =
    "DELETE FROM processes WHERE id = ?";

pub const INSERT_RESOURCE_SPECIFICATION: &'static str =
    "INSERT INTO resource_specifications (id, name, unique_name) VALUES (?, ?, ?) RETURNING *";

pub const DELETE_RESOURCE_SPECIFICATION: &'static str =
    "DELETE FROM resource_specifications WHERE unique_name = ?";

pub const INSERT_COMMITMENT: &'static str =
    "INSERT INTO commitments (id, description, process_id, action_id, assigned_agent_id, quantity, unit_id, resource_specification_id, due_at) VALUES (?, ?, ?, ?, ?, ?, ?, ?, ?) RETURNING *";

pub const UPDATE_COMMITMENT: &'static str =
    "UPDATE commitments SET description = ?, unit_id = ?, action_id = ?, resource_specification_id = ?, quantity = ?, assigned_agent_id = ?, due_at = ? WHERE id = ?";

pub const DELETE_COMMITMENT: &'static str =
    "DELETE FROM commitments WHERE id = ?";

pub const DELETE_RELATIONSHIP: &'static str =
    "DELETE FROM agent_relations WHERE id = ?";

/// The text before the parameters of `SelectAgentsByIds`.
pub const SELECT_AGENTS_BY_IDS_HEAD: &'static str = "SELECT * FROM agents WHERE id IN (";

/// The text after the parameters of `SelectAgentsByIds`.
pub const SELECT_AGENTS_BY_IDS_TAIL: &'static str = ") ORDER BY inserted_at DESC";

/// The place of one parameter.
pub const MARK: &'static str = "?";

/// What stands between two parameters of a list.
pub const SEPARATOR: &'static str = ", ";

/// The places of `n` parameters in a list.
pub open spec fn marks(n: nat) -> Seq<char>
    decreases n,
{
    if n == 0 {
        Seq::empty()
    } else if n == 1 {
        MARK@
    } else {
        marks((n - 1) as nat) + SEPARATOR@ + MARK@
    }
}

/// The text of a statement of `kind` that carries `parameters` parameters.
/// Only the text of `SelectAgentsByIds` depends on their number.
pub open spec fn statement_text(kind: StatementKind, parameters: nat) -> Seq<char> {
    match kind {
        StatementKind::SelectAgentsByIds => SELECT_AGENTS_BY_IDS_HEAD@ + marks(parameters)
            + SELECT_AGENTS_BY_IDS_TAIL@,
        StatementKind::SelectAgents => SELECT_AGENTS@,
        StatementKind::SelectIndividuals => SELECT_INDIVIDUALS@,
        StatementKind::SelectOrganizations => SELECT_ORGANIZATIONS@,
        StatementKind::SelectAgent => SELECT_AGENT@,
        StatementKind::SelectAgentRelations => SELECT_AGENT_RELATIONS@,
        StatementKind::SelectPlansOfAgent => SELECT_PLANS_OF_AGENT@,
        StatementKind::SelectPlan => SELECT_PLAN@,
        StatementKind::SelectProcessesOfPlan => SELECT_PROCESSES_OF_PLAN@,
        StatementKind::SelectLabelsOfPlan => SELECT_LABELS_OF_PLAN@,
        StatementKind::SelectAgentsOfPlan => SELECT_AGENTS_OF_PLAN@,
        StatementKind::SelectCommitmentsOfPlan => SELECT_COMMITMENTS_OF_PLAN@,
        StatementKind::SelectActionsOfPlan => SELECT_ACTIONS_OF_PLAN@,
        StatementKind::SelectResourceSpecificationsOfPlan => SELECT_RESOURCE_SPECIFICATIONS_OF_PLAN@,
        StatementKind::SelectUnitsOfPlan => SELECT_UNITS_OF_PLAN@,
        StatementKind::SelectAssignedAgentsOfPlan => SELECT_ASSIGNED_AGENTS_OF_PLAN@,
        StatementKind::SelectLabels => SELECT_LABELS@,
        StatementKind::SelectLabelsOfProcess => SELECT_LABELS_OF_PROCESS@,
        StatementKind::SelectAgentsOfProcess => SELECT_AGENTS_OF_PROCESS@,
        StatementKind::SelectActions => SELECT_ACTIONS@,
        StatementKind::SelectAction => SELECT_ACTION@,
        StatementKind::SelectUnits => SELECT_UNITS@,
        StatementKind::SelectUnit => SELECT_UNIT@,
        StatementKind::SelectResourceSpecifications => SELECT_RESOURCE_SPECIFICATIONS@,
        StatementKind::SelectResourceSpecification => SELECT_RESOURCE_SPECIFICATION@,
        StatementKind::InsertAgent => INSERT_AGENT@,
        StatementKind::DeleteAgent => DELETE_AGENT@,
        StatementKind::InsertLabel => INSERT_LABEL@,
        StatementKind::DeleteLabel => DELETE_LABEL@,
        StatementKind::InsertPlan => INSERT_PLAN@,
        StatementKind::InsertPlanAgent => INSERT_PLAN_AGENT@,
        StatementKind::UpdatePlan => UPDATE_PLAN@,
        StatementKind::InsertProcess => INSERT_PROCESS@,
        StatementKind::InsertProcessLabel => INSERT_PROCESS_LABEL@,
        StatementKind::InsertProcessAgent => INSERT_PROCESS_AGENT@,
        StatementKind::DeleteProcessLabels => DELETE_PROCESS_LABELS@,
        StatementKind::DeleteProcessAgents => DELETE_PROCESS_AGENTS@,
        StatementKind::UpdateProcess => UPDATE_PROCESS@,
        StatementKind::DeleteProcess => DELETE_PROCESS@,
        StatementKind::InsertResourceSpecification => INSERT_RESOURCE_SPECIFICATION@,
        StatementKind::DeleteResourceSpecification => DELETE_RESOURCE_SPECIFICATION@,
        StatementKind::InsertCommitment => INSERT_COMMITMENT@,
        StatementKind::UpdateCommitment => UPDATE_COMMITMENT@,
        StatementKind::DeleteCommitment => DELETE_COMMITMENT@,
        StatementKind::DeleteRelationship => DELETE_RELATIONSHIP@,
    }
}

/// The text of a statement of a kind whose text is fixed.
fn fixed_text(kind: StatementKind) -> (sql: &'static str)
    requires
        kind != StatementKind::SelectAgentsByIds,
    ensures
        sql@ == statement_text(kind, 0),
{
    match kind {
        StatementKind::SelectAgentsByIds => SELECT_AGENTS_BY_IDS_HEAD,
        StatementKind::SelectAgents => SELECT_AGENTS,
        StatementKind::SelectIndividuals => SELECT_INDIVIDUALS,
        StatementKind::SelectOrganizations => SELECT_ORGANIZATIONS,
        StatementKind::SelectAgent => SELECT_AGENT,
        StatementKind::SelectAgentRelations => SELECT_AGENT_RELATIONS,
        StatementKind::SelectPlansOfAgent => SELECT_PLANS_OF_AGENT,
        StatementKind::SelectPlan => SELECT_PLAN,
        StatementKind::SelectProcessesOfPlan => SELECT_PROCESSES_OF_PLAN,
        StatementKind::SelectLabelsOfPlan => SELECT_LABELS_OF_PLAN,
        StatementKind::SelectAgentsOfPlan => SELECT_AGENTS_OF_PLAN,
        StatementKind::SelectCommitmentsOfPlan => SELECT_COMMITMENTS_OF_PLAN,
        StatementKind::SelectActionsOfPlan => SELECT_ACTIONS_OF_PLAN,
        StatementKind::SelectResourceSpecificationsOfPlan => SELECT_RESOURCE_SPECIFICATIONS_OF_PLAN,
        StatementKind::SelectUnitsOfPlan => SELECT_UNITS_OF_PLAN,
        StatementKind::SelectAssignedAgentsOfPlan => SELECT_ASSIGNED_AGENTS_OF_PLAN,
        StatementKind::SelectLabels => SELECT_LABELS,
        StatementKind::SelectLabelsOfProcess => SELECT_LABELS_OF_PROCESS,
        StatementKind::SelectAgentsOfProcess => SELECT_AGENTS_OF_PROCESS,
        StatementKind::SelectActions => SELECT_ACTIONS,
        StatementKind::SelectAction => SELECT_ACTION,
        StatementKind::SelectUnits => SELECT_UNITS,
        StatementKind::SelectUnit => SELECT_UNIT,
        StatementKind::SelectResourceSpecifications => SELECT_RESOURCE_SPECIFICATIONS,
        StatementKind::SelectResourceSpecification => SELECT_RESOURCE_SPECIFICATION,
        StatementKind::InsertAgent => INSERT_AGENT,
        StatementKind::DeleteAgent => DELETE_AGENT,
        StatementKind::InsertLabel => INSERT_LABEL,
        StatementKind::DeleteLabel => DELETE_LABEL,
        StatementKind::InsertPlan => INSERT_PLAN,
        StatementKind::InsertPlanAgent => INSERT_PLAN_AGENT,
        StatementKind::UpdatePlan => UPDATE_PLAN,
        StatementKind::InsertProcess => INSERT_PROCESS,
        StatementKind::InsertProcessLabel => INSERT_PROCESS_LABEL,
        StatementKind::InsertProcessAgent => INSERT_PROCESS_AGENT,
        StatementKind::DeleteProcessLabels => DELETE_PROCESS_LABELS,
        StatementKind::DeleteProcessAgents => DELETE_PROCESS_AGENTS,
        StatementKind::UpdateProcess => UPDATE_PROCESS,
        StatementKind::DeleteProcess => DELETE_PROCESS,
        StatementKind::InsertResourceSpecification => INSERT_RESOURCE_SPECIFICATION,
        StatementKind::DeleteResourceSpecification => DELETE_RESOURCE_SPECIFICATION,
        StatementKind::InsertCommitment => INSERT_COMMITMENT,
        StatementKind::UpdateCommitment => UPDATE_COMMITMENT,
        StatementKind::DeleteCommitment => DELETE_COMMITMENT,
        StatementKind::DeleteRelationship => DELETE_RELATIONSHIP,
    }
}

impl Statement {
    /// The SQL text of the statement, with one mark for each parameter.
    pub fn sql(&self) -> (sql: String)
        ensures
            sql@ == statement_text(self@.kind, self@.binds.len()),
    {
        match self.kind {
            StatementKind::SelectAgentsByIds => {
                let mut sql = SELECT_AGENTS_BY_IDS_HEAD.to_owned();
                let mut i: usize = 0;
                assert(sql@ =~= SELECT_AGENTS_BY_IDS_HEAD@ + marks(0));
                while i < self.binds.len()
                    invariant
                        i <= self.binds.len(),
                        sql@ == SELECT_AGENTS_BY_IDS_HEAD@ + marks(i as nat),
                    decreases self.binds.len() - i,
                {
                    if i > 0 {
                        sql.append(SEPARATOR);
                    }
                    sql.append(MARK);
                    proof {
                        if i == 0 {
                            assert(marks(0) + MARK@ =~= marks(1));
                        }
                        assert(sql@ =~= SELECT_AGENTS_BY_IDS_HEAD@ + marks((i + 1) as nat));
                    }
                    i += 1;
                }
                sql.append(SELECT_AGENTS_BY_IDS_TAIL);
                sql
            },
            kind => fixed_text(kind).to_owned(),
        }
    }
}

} // verus!
