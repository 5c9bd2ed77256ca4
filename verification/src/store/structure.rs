//! Accepting a structural edit of an instance.

use vstd::prelude::*;
use vstd::slice::slice_to_vec;
use vstd::string::*;

use crate::document::{InstanceStatus, optional_text};
use crate::instance::{InstanceModel, PlaybookInstance};
use crate::operation::{EditModel, OperationModel, StructureOperation};
use crate::store::access::{channel_fault, require_channel_role, require_schema, schema_fault};
use crate::store::apply::{Replay, SemanticApply, lock_key, lock_key_text};
use crate::store::cast::{signed, to_signed};
use crate::store::error::{DbError, Fault, fault_of};
use crate::text::{Id, decimal, same_bytes, signed_decimal, signed_text, unsigned_text};

verus! {

/// The stored word for an instance status.
pub open spec fn instance_status_text(status: InstanceStatus) -> Seq<char> {
    match status {
        InstanceStatus::Active => "active"@,
        InstanceStatus::Archived => "archived"@,
    }
}

/// The stored word for an instance status.
pub fn instance_status(status: InstanceStatus) -> (result: &'static str)
    ensures
        result@ == instance_status_text(status),
{
    match status {
        InstanceStatus::Active => "active",
        InstanceStatus::Archived => "archived",
    }
}

/// A structural operation as an actor submitted it to a channel in a signed event.
#[derive(Clone, Copy)]
pub struct OperationSubmission<'a> {
    pub channel_id: Id,
    pub operation: &'a StructureOperation,
    pub event_id: &'a [u8],
    pub actor: &'a [u8],
}

/// An operation that was accepted under the same identifier.
pub struct StoredOperation {
    pub event_id: Vec<u8>,
    pub actor: Vec<u8>,
    pub channel_id: Id,
    /// The operation; `None` where what is stored is not exactly the encoding of one.
    pub operation: Option<StructureOperation>,
}

/// What is stored of an accepted operation.
#[verifier::ext_equal]
pub struct StoredOperationModel {
    pub event_id: Seq<u8>,
    pub actor: Seq<u8>,
    pub channel_id: Id,
    pub operation: Option<OperationModel>,
}

impl View for StoredOperation {
    type V = StoredOperationModel;

    open spec fn view(&self) -> StoredOperationModel {
        StoredOperationModel {
            event_id: self.event_id@,
            actor: self.actor@,
            channel_id: self.channel_id,
            operation: match self.operation {
                Some(operation) => Some(operation@),
                None => None,
            },
        }
    }
}

/// The contents of a stored operation that may be absent.
pub open spec fn optional_operation(stored: Option<StoredOperation>) -> Option<
    StoredOperationModel,
> {
    match stored {
        Some(stored) => Some(stored@),
        None => None,
    }
}

/// What the store is told of an accepted operation, besides the documents.
pub struct OperationRow<'a> {
    pub operation_id: Id,
    pub instance_id: Id,
    pub base_revision: i64,
    pub result_revision: i64,
    pub operation_type: &'static str,
    pub status: &'static str,
    pub event_id: &'a [u8],
    pub actor: &'a [u8],
}

/// What an operation row holds.
#[verifier::ext_equal]
pub struct OperationRowModel {
    pub operation_id: Id,
    pub instance_id: Id,
    pub base_revision: i64,
    pub result_revision: i64,
    pub operation_type: Seq<char>,
    pub status: Seq<char>,
    pub event_id: Seq<u8>,
    pub actor: Seq<u8>,
}

impl<'a> View for OperationRow<'a> {
    type V = OperationRowModel;

    open spec fn view(&self) -> OperationRowModel {
        OperationRowModel {
            operation_id: self.operation_id,
            instance_id: self.instance_id,
            base_revision: self.base_revision,
            result_revision: self.result_revision,
            operation_type: self.operation_type@,
            status: self.status@,
            event_id: self.event_id@,
            actor: self.actor@,
        }
    }
}

/// The row of an accepted operation that leaves the instance with this document.
pub open spec fn operation_row(
    submission: OperationSubmission,
    document: InstanceModel,
) -> OperationRowModel {
    OperationRowModel {
        operation_id: submission.operation.operation_id,
        instance_id: submission.operation.instance_id,
        base_revision: signed(submission.operation.base_structure_revision) as i64,
        result_revision: signed(document.structure_revision) as i64,
        operation_type: submission.operation.operation@.name(),
        status: instance_status_text(document.status),
        event_id: submission.event_id@,
        actor: submission.actor@,
    }
}

/// Whether a submission repeats a stored operation: the same actor, channel and operation,
/// under any event.
pub open spec fn repeats_operation(
    submission: OperationSubmission,
    stored: StoredOperationModel,
) -> bool {
    &&& stored.actor == submission.actor@
    &&& stored.channel_id == submission.channel_id
    &&& stored.operation == Some(submission.operation@)
}

/// Why an operation is refused whose identifier is taken.
pub open spec fn stored_operation_fault(
    submission: OperationSubmission,
    stored: Option<StoredOperationModel>,
) -> Option<Fault> {
    match stored {
        Some(stored) if !repeats_operation(submission, stored) => Some(
            Fault::Conflict("operation_id was already used for a different operation"@),
        ),
        _ => None,
    }
}

/// Where an instance stands, and at which structure revision.
pub struct CurrentStructure {
    pub channel_id: Id,
    pub structure_revision: i64,
}

/// Why an operation does not apply to what is current: the channel has no such instance, or
/// its structure has moved on.
pub open spec fn base_fault(channel_id: Id, base: u64, current: Option<CurrentStructure>) -> Option<
    Fault,
> {
    match current {
        Some(current) if current.channel_id == channel_id => if signed(base)
            != current.structure_revision {
            Some(
                Fault::Conflict(
                    "structure revision conflict: current "@ + signed_decimal(
                        current.structure_revision as int,
                    ) + ", base "@ + decimal(base as nat),
                ),
            )
        } else {
            None
        },
        _ => Some(Fault::NotFound("playbook instance"@)),
    }
}

/// Why an edit of an instance is refused.
pub open spec fn edit_fault(instance: InstanceModel, edit: EditModel) -> Option<Fault> {
    match instance.refusal(edit) {
        Some(error) => Some(Fault::InvalidData(error.text())),
        None => None,
    }
}

/// An instance after an accepted edit, at the next structure revision.
pub open spec fn revised(instance: InstanceModel, edit: EditModel) -> InstanceModel {
    InstanceModel {
        structure_revision: (instance.structure_revision + 1) as u64,
        ..instance.edited(edit)
    }
}

/// An operation whose schema version is understood.
pub struct ValidOperation<'a> {
    submission: OperationSubmission<'a>,
}

/// A valid operation of someone who may change the channel.
pub struct PermittedOperation<'a> {
    submission: OperationSubmission<'a>,
}

/// A permitted operation whose identifier is not taken.
pub struct FreshOperation<'a> {
    submission: OperationSubmission<'a>,
}

/// A fresh operation whose base is the current structure revision.
pub struct CurrentOperation<'a> {
    submission: OperationSubmission<'a>,
}

/// An operation that is accepted, with the instance after it.
pub struct AcceptedOperation<'a> {
    submission: OperationSubmission<'a>,
    instance: PlaybookInstance,
}

/// Where a permitted operation leads.
pub enum OperationSettlement<'a> {
    /// The operation was accepted before: nothing is written.
    Replay(Replay),
    /// The identifier is not taken.
    Fresh(FreshOperation<'a>),
}

impl<'a> ValidOperation<'a> {
    /// The schema version is understood.
    #[verifier::type_invariant]
    spec fn sound(self) -> bool {
        schema_fault(self.submission.operation.schema_version) is None
    }

    pub closed spec fn submission(&self) -> OperationSubmission<'a> {
        self.submission
    }

    /// Check the schema version of an operation.
    pub fn check(submission: OperationSubmission<'a>) -> (result: Result<
        ValidOperation<'a>,
        DbError,
    >)
        ensures
            fault_of(result) == schema_fault(submission.operation.schema_version),
            result is Ok ==> result->Ok_0.submission() == submission,
    {
        match require_schema(submission.operation.schema_version) {
            Ok(()) => Ok(ValidOperation { submission }),
            Err(error) => Err(error),
        }
    }

    /// Check the actor's role in the channel.
    pub fn permit(self, role: Option<String>) -> (result: Result<PermittedOperation<'a>, DbError>)
        ensures
            fault_of(result) == channel_fault(optional_text(role), true),
            result is Ok ==> result->Ok_0.submission() == self.submission(),
    {
        proof {
            use_type_invariant(&self);
        }
        match require_channel_role(role, true) {
            Ok(_) => Ok(PermittedOperation { submission: self.submission }),
            Err(error) => Err(error),
        }
    }
}

impl<'a> PermittedOperation<'a> {
    /// The schema version is understood.
    #[verifier::type_invariant]
    spec fn sound(self) -> bool {
        schema_fault(self.submission.operation.schema_version) is None
    }

    pub closed spec fn submission(&self) -> OperationSubmission<'a> {
        self.submission
    }

    /// The key of the lock to hold from here on.
    pub fn lock_key(&self, community: Id) -> (result: String)
        ensures
            result@ == lock_key_text(
                "playbook-structure-operation:"@,
                community,
                self.submission().operation.operation_id,
            ),
    {
        lock_key(
            "playbook-structure-operation:",
            community,
            self.submission.operation.operation_id,
        )
    }

    /// Compare the operation with the one that is stored under its identifier, if any.
    pub fn settle(self, stored: Option<StoredOperation>) -> (result: Result<
        OperationSettlement<'a>,
        DbError,
    >)
        ensures
            fault_of(result) == stored_operation_fault(
                self.submission(),
                optional_operation(stored),
            ),
            result is Ok ==> match result->Ok_0 {
                OperationSettlement::Replay(replay) => stored is Some && replay.event_id()
                    == stored->Some_0.event_id@,
                OperationSettlement::Fresh(fresh) => stored is None && fresh.submission()
                    == self.submission(),
            },
    {
        proof {
            use_type_invariant(&self);
        }
        match stored {
            None => Ok(OperationSettlement::Fresh(FreshOperation { submission: self.submission })),
            Some(stored) => {
                let same = same_bytes(stored.actor.as_slice(), self.submission.actor)
                    && stored.channel_id == self.submission.channel_id && match &stored.operation {
                    Some(operation) => *operation == *self.submission.operation,
                    None => false,
                };
                if same {
                    Ok(OperationSettlement::Replay(Replay::of(stored.event_id)))
                } else {
                    Err(
                        DbError::Conflict(
                            "operation_id was already used for a different operation".to_owned(),
                        ),
                    )
                }
            },
        }
    }
}

impl<'a> FreshOperation<'a> {
    /// The schema version is understood.
    #[verifier::type_invariant]
    spec fn sound(self) -> bool {
        schema_fault(self.submission.operation.schema_version) is None
    }

    pub closed spec fn submission(&self) -> OperationSubmission<'a> {
        self.submission
    }

    /// Compare the base with the current structure revision of the instance, if there is
    /// such an instance.
    pub fn check_base(self, current: Option<CurrentStructure>) -> (result: Result<
        CurrentOperation<'a>,
        DbError,
    >)
        ensures
            fault_of(result) == base_fault(
                self.submission().channel_id,
                self.submission().operation.base_structure_revision,
                current,
            ),
            result is Ok ==> result->Ok_0.submission() == self.submission(),
    {
        proof {
            use_type_invariant(&self);
        }
        let base: u64 = self.submission.operation.base_structure_revision;
        match current {
            Some(current) => {
                if current.channel_id == self.submission.channel_id {
                    if to_signed(base) == current.structure_revision {
                        return Ok(CurrentOperation { submission: self.submission });
                    }
                    let text = "structure revision conflict: current ".to_owned().concat(
                        signed_text(current.structure_revision).as_str(),
                    ).concat(", base ").concat(unsigned_text(base).as_str());
                    return Err(DbError::Conflict(text));
                }
            },
            None => {},
        }
        Err(DbError::NotFound("playbook instance".to_owned()))
    }
}

impl<'a> CurrentOperation<'a> {
    /// The schema version is understood.
    #[verifier::type_invariant]
    spec fn sound(self) -> bool {
        schema_fault(self.submission.operation.schema_version) is None
    }

    pub closed spec fn submission(&self) -> OperationSubmission<'a> {
        self.submission
    }

    /// Edit the instance and give it the next structure revision.
    pub fn edit(self, instance: PlaybookInstance) -> (result: Result<
        AcceptedOperation<'a>,
        DbError,
    >)
        requires
            instance@.refusal(self.submission().operation.operation@) is None
                ==> instance.structure_revision < u64::MAX,
        ensures
            fault_of(result) == edit_fault(instance@, self.submission().operation.operation@),
            result is Ok ==> {
                &&& result->Ok_0.submission() == self.submission()
                &&& result->Ok_0.document() == revised(
                    instance@,
                    self.submission().operation.operation@,
                )
            },
    {
        proof {
            use_type_invariant(&self);
        }
        let mut edited = instance;
        match edited.apply_operation(&self.submission.operation.operation) {
            Ok(()) => {
                edited.structure_revision = edited.structure_revision + 1;
                Ok(AcceptedOperation { submission: self.submission, instance: edited })
            },
            Err(error) => Err(DbError::InvalidData(error.message())),
        }
    }
}

impl<'a> AcceptedOperation<'a> {
    /// The schema version is understood.
    #[verifier::type_invariant]
    spec fn sound(self) -> bool {
        schema_fault(self.submission.operation.schema_version) is None
    }

    pub closed spec fn submission(&self) -> OperationSubmission<'a> {
        self.submission
    }

    /// The contents of the instance after the operation.
    pub closed spec fn document(&self) -> InstanceModel {
        self.instance@
    }

    /// The document of the instance after the operation.
    pub fn instance(&self) -> (result: &PlaybookInstance)
        ensures
            result@ == self.document(),
    {
        &self.instance
    }

    /// What the store is told of the operation.
    pub fn row(&self) -> (result: OperationRow<'a>)
        ensures
            schema_fault(self.submission().operation.schema_version) is None,
            result@ == operation_row(self.submission(), self.document()),
    {
        proof {
            use_type_invariant(&self);
        }
        let operation = self.submission.operation;
        OperationRow {
            operation_id: operation.operation_id,
            instance_id: operation.instance_id,
            base_revision: to_signed(operation.base_structure_revision),
            result_revision: to_signed(self.instance.structure_revision),
            operation_type: operation.operation.name(),
            status: instance_status(self.instance.status),
            event_id: self.submission.event_id,
            actor: self.submission.actor,
        }
    }

    /// The result of the command, given the projection after it.
    pub fn conclude<T>(self, snapshot: T) -> (result: SemanticApply<T>)
        ensures
            result.snapshot == snapshot,
            result.canonical_event_id@ == self.submission().event_id@,
            result.applied,
    {
        SemanticApply {
            snapshot,
            canonical_event_id: slice_to_vec(self.submission.event_id),
            applied: true,
        }
    }
}

} // verus!
