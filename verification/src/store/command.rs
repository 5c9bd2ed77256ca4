//! Whole commands, for a store that has at hand all that may be asked for.

use vstd::pervasive::unreached;
use vstd::prelude::*;

use crate::document::{TemplateModel, TemplateRevision, TemplateStatus, optional_text};
use crate::instance::{InstanceModel, PlaybookInstance, instantiated};
use crate::store::access::{channel_fault, schema_fault, workspace_fault};
use crate::store::action::{
    AcceptedAction, ActionSettlement, ActionSubmission, InstancePlace, PlaceModel, StoredAction,
    StoredActionModel, ValidAction, optional_action, place_fault, stored_action_fault,
    target_fault,
};
use crate::store::apply::Replay;
use crate::store::error::{DbError, Fault, fault_of};
use crate::store::insert::{
    InsertSettlement, InsertSubmission, ValidInsert, collision_fault, source_fault,
    stored_instance_fault,
};
use crate::store::structure::{
    AcceptedOperation, CurrentStructure, OperationSettlement, OperationSubmission, StoredOperation,
    StoredOperationModel, ValidOperation, base_fault, edit_fault, optional_operation, revised,
    stored_operation_fault,
};
use crate::store::template::{
    AcceptedTemplate, CurrentTemplate, CurrentTemplateModel, TemplateSettlement,
    TemplateSubmission, TemplateSuccession, ValidTemplate, deletion_fault, optional_current,
    stored_revision_fault, succession_fault,
};
use crate::text::{Id, optional_bytes};
use crate::validate::template_fault;

verus! {

/// The first of two faults, in the order in which they are looked for.
pub open spec fn first(fault: Option<Fault>, later: Option<Fault>) -> Option<Fault> {
    if fault is Some {
        fault
    } else {
        later
    }
}

/// What a store knows when a template revision is submitted.
pub struct TemplateFacts {
    /// The actor's workspace role.
    pub role: Option<String>,
    /// The event that is stored for the revision.
    pub stored: Option<Vec<u8>>,
    /// The template as it stands.
    pub current: Option<CurrentTemplate>,
    /// Whether instances were copied from the template.
    pub referenced: bool,
}

/// What the facts on a template revision say.
#[verifier::ext_equal]
pub struct TemplateFactsModel {
    pub role: Option<Seq<char>>,
    pub stored: Option<Seq<u8>>,
    pub current: Option<CurrentTemplateModel>,
    pub referenced: bool,
}

impl View for TemplateFacts {
    type V = TemplateFactsModel;

    open spec fn view(&self) -> TemplateFactsModel {
        TemplateFactsModel {
            role: optional_text(self.role),
            stored: optional_bytes(self.stored),
            current: optional_current(self.current),
            referenced: self.referenced,
        }
    }
}

/// What becomes of a template revision that is not refused.
pub enum TemplateOutcome<'a> {
    /// It is stored already: nothing is written.
    Replay,
    /// It is written.
    Accepted(AcceptedTemplate<'a>),
}

/// Why a document is turned away.
pub open spec fn document_fault(revision: TemplateRevision) -> Option<Fault> {
    match template_fault(revision@) {
        Some(error) => Some(Fault::InvalidData(error.text())),
        None => None,
    }
}

/// Why a template revision is refused before the template as it stands is looked at.
pub open spec fn early_template_refusal(
    submission: TemplateSubmission,
    facts: TemplateFactsModel,
) -> Option<Fault> {
    first(
        document_fault(*submission.revision),
        first(
            workspace_fault(facts.role),
            stored_revision_fault(
                submission.revision.revision,
                submission.event_id@,
                facts.stored,
            ),
        ),
    )
}

/// Why a template revision is refused.
pub open spec fn template_refusal(
    submission: TemplateSubmission,
    facts: TemplateFactsModel,
) -> Option<Fault> {
    first(
        early_template_refusal(submission, facts),
        if facts.stored is Some {
            None
        } else {
            first(
                succession_fault(submission.revision.revision, facts.current),
                if submission.revision.status == TemplateStatus::Deleted {
                    deletion_fault(facts.referenced)
                } else {
                    None
                },
            )
        },
    )
}

/// Decide on a template revision.
pub fn apply_template_revision<'a>(
    submission: TemplateSubmission<'a>,
    facts: TemplateFacts,
) -> (result: Result<TemplateOutcome<'a>, DbError>)
    requires
        early_template_refusal(submission, facts@) is None && facts.stored is None
            && facts.current is Some ==> facts.current->Some_0.revision < i64::MAX,
    ensures
        fault_of(result) == template_refusal(submission, facts@),
        result is Ok ==> match result->Ok_0 {
            TemplateOutcome::Replay => facts.stored is Some,
            TemplateOutcome::Accepted(accepted) => facts.stored is None && accepted.submission()
                == submission,
        },
{
    let permitted = ValidTemplate::check(submission)?.permit(facts.role)?;
    let fresh = match permitted.settle(facts.stored)? {
        TemplateSettlement::Replay => {
            return Ok(TemplateOutcome::Replay);
        },
        TemplateSettlement::Fresh(fresh) => fresh,
    };
    let accepted = match fresh.follow(facts.current)? {
        TemplateSuccession::Delete(pending) => pending.confirm(facts.referenced)?,
        TemplateSuccession::Accept(accepted) => accepted,
    };
    Ok(TemplateOutcome::Accepted(accepted))
}

/// A template as it is stored.
pub struct StoredTemplate {
    pub status: String,
    pub template: TemplateRevision,
}

/// What a stored template holds.
#[verifier::ext_equal]
pub struct StoredTemplateModel {
    pub status: Seq<char>,
    pub template: TemplateModel,
}

impl View for StoredTemplate {
    type V = StoredTemplateModel;

    open spec fn view(&self) -> StoredTemplateModel {
        StoredTemplateModel { status: self.status@, template: self.template@ }
    }
}

/// What a store knows when the copying of a template is asked for.
pub struct InsertFacts {
    /// The actor's role in the channel.
    pub role: Option<String>,
    /// The event that is stored for the instance.
    pub stored: Option<Vec<u8>>,
    /// The template.
    pub template: Option<StoredTemplate>,
    /// Whether the channel has an active playbook.
    pub occupied: bool,
}

/// What the facts on the copying of a template say.
#[verifier::ext_equal]
pub struct InsertFactsModel {
    pub role: Option<Seq<char>>,
    pub stored: Option<Seq<u8>>,
    pub template: Option<StoredTemplateModel>,
    pub occupied: bool,
}

impl View for InsertFacts {
    type V = InsertFactsModel;

    open spec fn view(&self) -> InsertFactsModel {
        InsertFactsModel {
            role: optional_text(self.role),
            stored: optional_bytes(self.stored),
            template: match self.template {
                Some(template) => Some(template@),
                None => None,
            },
            occupied: self.occupied,
        }
    }
}

/// What becomes of the copying of a template that is not refused.
pub enum InsertOutcome {
    /// The instance is stored already: nothing is written.
    Replay,
    /// The instance is written.
    Accepted(PlaybookInstance),
}

/// The stored status of a template that may be absent.
pub open spec fn status_of(template: Option<StoredTemplateModel>) -> Option<Seq<char>> {
    match template {
        Some(template) => Some(template.status),
        None => None,
    }
}

/// Why the copying of a template is refused.
pub open spec fn insert_refusal(submission: InsertSubmission, facts: InsertFactsModel) -> Option<
    Fault,
> {
    first(
        schema_fault(submission.request.schema_version),
        first(
            channel_fault(facts.role, true),
            first(
                stored_instance_fault(submission.event_id@, facts.stored),
                if facts.stored is Some {
                    None
                } else {
                    first(
                        source_fault(status_of(facts.template)),
                        collision_fault(facts.occupied),
                    )
                },
            ),
        ),
    )
}

/// Decide on the copying of a template.
pub fn insert_instance(submission: InsertSubmission, facts: InsertFacts) -> (result: Result<
    InsertOutcome,
    DbError,
>)
    ensures
        fault_of(result) == insert_refusal(submission, facts@),
        result is Ok ==> match result->Ok_0 {
            InsertOutcome::Replay => facts.stored is Some,
            InsertOutcome::Accepted(instance) => facts.stored is None && instance@ == instantiated(
                submission.request.instance_id,
                submission.request.channel_id,
                facts.template->Some_0.template@,
            ),
        },
{
    let permitted = ValidInsert::check(submission)?.permit(facts.role)?;
    let fresh = match permitted.settle(facts.stored)? {
        InsertSettlement::Replay => {
            return Ok(InsertOutcome::Replay);
        },
        InsertSettlement::Fresh(fresh) => fresh,
    };
    match facts.template {
        None => match fresh.locate(None) {
            Err(error) => Err(error),
            Ok(_) => unreached(),
        },
        Some(stored) => {
            let accepted = fresh.locate(Some(stored.status))?.copy(&stored.template);
            Ok(InsertOutcome::Accepted(accepted.confirm(facts.occupied)?))
        },
    }
}

/// An instance as it is stored.
pub struct StoredInstance {
    pub channel_id: Id,
    pub status: String,
    pub structure_revision: i64,
    pub instance: PlaybookInstance,
}

/// What a stored instance holds.
#[verifier::ext_equal]
pub struct StoredInstanceModel {
    pub channel_id: Id,
    pub status: Seq<char>,
    pub structure_revision: i64,
    pub instance: InstanceModel,
}

impl View for StoredInstance {
    type V = StoredInstanceModel;

    open spec fn view(&self) -> StoredInstanceModel {
        StoredInstanceModel {
            channel_id: self.channel_id,
            status: self.status@,
            structure_revision: self.structure_revision,
            instance: self.instance@,
        }
    }
}

/// What is stored of an instance that may be absent.
pub open spec fn optional_stored(instance: Option<StoredInstance>) -> Option<StoredInstanceModel> {
    match instance {
        Some(instance) => Some(instance@),
        None => None,
    }
}

/// What a store knows when an action is submitted.
pub struct ActionFacts {
    /// The actor's role in the channel.
    pub role: Option<String>,
    /// The action that is stored under the identifier.
    pub stored: Option<StoredAction>,
    /// The instance.
    pub instance: Option<StoredInstance>,
}

/// What the facts on an action say.
#[verifier::ext_equal]
pub struct ActionFactsModel {
    pub role: Option<Seq<char>>,
    pub stored: Option<StoredActionModel>,
    pub instance: Option<StoredInstanceModel>,
}

impl View for ActionFacts {
    type V = ActionFactsModel;

    open spec fn view(&self) -> ActionFactsModel {
        ActionFactsModel {
            role: optional_text(self.role),
            stored: optional_action(self.stored),
            instance: optional_stored(self.instance),
        }
    }
}

/// What becomes of an action that is not refused.
pub enum ActionOutcome<'a> {
    /// It was accepted before: nothing is written.
    Replay(Replay),
    /// It is written.
    Accepted(AcceptedAction<'a>),
}

/// Why an action on a stored instance is refused.
pub open spec fn action_fault(
    submission: ActionSubmission,
    instance: Option<StoredInstanceModel>,
) -> Option<Fault> {
    match instance {
        None => place_fault(submission.channel_id, None),
        Some(stored) => first(
            place_fault(
                submission.channel_id,
                Some((PlaceModel { channel_id: stored.channel_id, status: stored.status })),
            ),
            target_fault(stored.instance, submission.action.item_id),
        ),
    }
}

/// Why an action is refused.
pub open spec fn action_refusal(submission: ActionSubmission, facts: ActionFactsModel) -> Option<
    Fault,
> {
    first(
        schema_fault(submission.action.schema_version),
        first(
            channel_fault(facts.role, false),
            first(
                stored_action_fault(submission, facts.stored),
                if facts.stored is Some {
                    None
                } else {
                    action_fault(submission, facts.instance)
                },
            ),
        ),
    )
}

/// Decide on an action.
pub fn apply_item_action<'a>(submission: ActionSubmission<'a>, facts: ActionFacts) -> (result:
    Result<ActionOutcome<'a>, DbError>)
    ensures
        fault_of(result) == action_refusal(submission, facts@),
        result is Ok ==> match result->Ok_0 {
            ActionOutcome::Replay(replay) => facts.stored is Some && replay.event_id()
                == facts.stored->Some_0.event_id@,
            ActionOutcome::Accepted(accepted) => facts.stored is None && accepted.submission()
                == submission,
        },
{
    let permitted = ValidAction::check(submission)?.permit(facts.role)?;
    let fresh = match permitted.settle(facts.stored)? {
        ActionSettlement::Replay(replay) => {
            return Ok(ActionOutcome::Replay(replay));
        },
        ActionSettlement::Fresh(fresh) => fresh,
    };
    match facts.instance {
        None => match fresh.locate(None) {
            Err(error) => Err(error),
            Ok(_) => unreached(),
        },
        Some(stored) => {
            let place = InstancePlace { channel_id: stored.channel_id, status: stored.status };
            let accepted = fresh.locate(Some(place))?.target(&stored.instance)?;
            Ok(ActionOutcome::Accepted(accepted))
        },
    }
}

/// What a store knows when an operation is submitted.
pub struct OperationFacts {
    /// The actor's role in the channel.
    pub role: Option<String>,
    /// The operation that is stored under the identifier.
    pub stored: Option<StoredOperation>,
    /// The instance.
    pub instance: Option<StoredInstance>,
}

/// What the facts on an operation say.
#[verifier::ext_equal]
pub struct OperationFactsModel {
    pub role: Option<Seq<char>>,
    pub stored: Option<StoredOperationModel>,
    pub instance: Option<StoredInstanceModel>,
}

impl View for OperationFacts {
    type V = OperationFactsModel;

    open spec fn view(&self) -> OperationFactsModel {
        OperationFactsModel {
            role: optional_text(self.role),
            stored: optional_operation(self.stored),
            instance: optional_stored(self.instance),
        }
    }
}

/// What becomes of an operation that is not refused.
pub enum OperationOutcome<'a> {
    /// It was accepted before: nothing is written.
    Replay(Replay),
    /// It is written.
    Accepted(AcceptedOperation<'a>),
}

/// Where a stored instance stands, and at which structure revision.
pub open spec fn structure_of(instance: Option<StoredInstanceModel>) -> Option<CurrentStructure> {
    match instance {
        Some(stored) => Some(
            CurrentStructure {
                channel_id: stored.channel_id,
                structure_revision: stored.structure_revision,
            },
        ),
        None => None,
    }
}

/// Why an operation is refused before the edit itself is looked at.
pub open spec fn early_operation_refusal(
    submission: OperationSubmission,
    facts: OperationFactsModel,
) -> Option<Fault> {
    first(
        schema_fault(submission.operation.schema_version),
        first(
            channel_fault(facts.role, true),
            first(
                stored_operation_fault(submission, facts.stored),
                if facts.stored is Some {
                    None
                } else {
                    base_fault(
                        submission.channel_id,
                        submission.operation.base_structure_revision,
                        structure_of(facts.instance),
                    )
                },
            ),
        ),
    )
}

/// Why an operation is refused.
pub open spec fn operation_refusal(
    submission: OperationSubmission,
    facts: OperationFactsModel,
) -> Option<Fault> {
    first(
        early_operation_refusal(submission, facts),
        if facts.stored is Some {
            None
        } else {
            edit_fault(facts.instance->Some_0.instance, submission.operation.operation@)
        },
    )
}

/// Decide on an operation.
pub fn apply_structure_operation<'a>(
    submission: OperationSubmission<'a>,
    facts: OperationFacts,
) -> (result: Result<OperationOutcome<'a>, DbError>)
    requires
        operation_refusal(submission, facts@) is None && facts.stored is None
            ==> facts.instance->Some_0.instance.structure_revision < u64::MAX,
    ensures
        fault_of(result) == operation_refusal(submission, facts@),
        result is Ok ==> match result->Ok_0 {
            OperationOutcome::Replay(replay) => facts.stored is Some && replay.event_id()
                == facts.stored->Some_0.event_id@,
            OperationOutcome::Accepted(accepted) => {
                &&& facts.stored is None
                &&& accepted.submission() == submission
                &&& accepted.document() == revised(
                    facts.instance->Some_0.instance@,
                    submission.operation.operation@,
                )
            },
        },
{
    let permitted = ValidOperation::check(submission)?.permit(facts.role)?;
    let fresh = match permitted.settle(facts.stored)? {
        OperationSettlement::Replay(replay) => {
            return Ok(OperationOutcome::Replay(replay));
        },
        OperationSettlement::Fresh(fresh) => fresh,
    };
    match facts.instance {
        None => match fresh.check_base(None) {
            Err(error) => Err(error),
            Ok(_) => unreached(),
        },
        Some(stored) => {
            let structure = CurrentStructure {
                channel_id: stored.channel_id,
                structure_revision: stored.structure_revision,
            };
            let accepted = fresh.check_base(Some(structure))?.edit(stored.instance)?;
            Ok(OperationOutcome::Accepted(accepted))
        },
    }
}

} // verus!
