//! Copying a template into a channel.

use vstd::prelude::*;

use crate::document::{TemplateRevision, TemplateStatus, optional_text};
use crate::instance::{InstanceModel, PlaybookInstance, instantiated};
use crate::operation::InstanceInsert;
use crate::store::access::{channel_fault, require_channel_role, require_schema, schema_fault};
use crate::store::cast::{signed, to_signed};
use crate::store::error::{DbError, Fault, fault_of};
use crate::store::template::{template_status, template_status_text};
use crate::text::{Id, optional_bytes, same_bytes, same_text};

verus! {

/// A request to copy a template, as an actor submitted it in a signed event.
#[derive(Clone, Copy)]
pub struct InsertSubmission<'a> {
    pub request: InstanceInsert,
    pub event_id: &'a [u8],
    pub actor: &'a [u8],
}

/// What the store is told of a new instance, besides its document.
pub struct InsertRow<'a> {
    pub instance_id: Id,
    pub channel_id: Id,
    pub source_template_id: Id,
    pub source_template_revision: i64,
    pub structure_revision: i64,
    pub status: &'static str,
    pub event_id: &'a [u8],
    pub actor: &'a [u8],
}

/// What an instance row holds.
#[verifier::ext_equal]
pub struct InsertRowModel {
    pub instance_id: Id,
    pub channel_id: Id,
    pub source_template_id: Id,
    pub source_template_revision: i64,
    pub structure_revision: i64,
    pub status: Seq<char>,
    pub event_id: Seq<u8>,
    pub actor: Seq<u8>,
}

impl<'a> View for InsertRow<'a> {
    type V = InsertRowModel;

    open spec fn view(&self) -> InsertRowModel {
        InsertRowModel {
            instance_id: self.instance_id,
            channel_id: self.channel_id,
            source_template_id: self.source_template_id,
            source_template_revision: self.source_template_revision,
            structure_revision: self.structure_revision,
            status: self.status@,
            event_id: self.event_id@,
            actor: self.actor@,
        }
    }
}

/// The row of a new instance with this document.
pub open spec fn insert_row(
    submission: InsertSubmission,
    document: InstanceModel,
) -> InsertRowModel {
    InsertRowModel {
        instance_id: submission.request.instance_id,
        channel_id: submission.request.channel_id,
        source_template_id: submission.request.template_id,
        source_template_revision: signed(document.source_template_revision) as i64,
        structure_revision: signed(document.structure_revision) as i64,
        status: "active"@,
        event_id: submission.event_id@,
        actor: submission.actor@,
    }
}

/// Why an instance is refused whose identifier is already stored, under another event.
pub open spec fn stored_instance_fault(event_id: Seq<u8>, stored: Option<Seq<u8>>) -> Option<
    Fault,
> {
    match stored {
        Some(stored) if stored != event_id => Some(Fault::Conflict("instance_id already exists"@)),
        _ => None,
    }
}

/// Why a template with this stored status, if there is one, cannot be copied.
pub open spec fn source_fault(status: Option<Seq<char>>) -> Option<Fault> {
    if status == Some(template_status_text(TemplateStatus::Active)) {
        None
    } else {
        Some(Fault::NotFound("active playbook template"@))
    }
}

/// Why a new instance is refused by the store.
pub open spec fn collision_fault(unique_violation: bool) -> Option<Fault> {
    if unique_violation {
        Some(Fault::Conflict("channel already has an active playbook"@))
    } else {
        None
    }
}

/// A request whose schema version is understood.
pub struct ValidInsert<'a> {
    submission: InsertSubmission<'a>,
}

/// A valid request of someone who may change the channel.
pub struct PermittedInsert<'a> {
    submission: InsertSubmission<'a>,
}

/// A permitted request for an instance that is not stored yet.
pub struct FreshInsert<'a> {
    submission: InsertSubmission<'a>,
}

/// A fresh request whose template is active.
pub struct LocatedInsert<'a> {
    submission: InsertSubmission<'a>,
}

/// A request that is accepted unless the channel already has an active playbook, with the
/// new instance.
pub struct AcceptedInsert<'a> {
    submission: InsertSubmission<'a>,
    instance: PlaybookInstance,
}

/// Where a permitted request leads.
pub enum InsertSettlement<'a> {
    /// This very event is stored: nothing is written.
    Replay,
    /// The instance is not stored.
    Fresh(FreshInsert<'a>),
}

impl<'a> ValidInsert<'a> {
    /// The schema version is understood.
    #[verifier::type_invariant]
    spec fn sound(self) -> bool {
        schema_fault(self.submission.request.schema_version) is None
    }

    pub closed spec fn submission(&self) -> InsertSubmission<'a> {
        self.submission
    }

    /// Check the schema version of a request.
    pub fn check(submission: InsertSubmission<'a>) -> (result: Result<ValidInsert<'a>, DbError>)
        ensures
            fault_of(result) == schema_fault(submission.request.schema_version),
            result is Ok ==> result->Ok_0.submission() == submission,
    {
        match require_schema(submission.request.schema_version) {
            Ok(()) => Ok(ValidInsert { submission }),
            Err(error) => Err(error),
        }
    }

    /// Check the actor's role in the channel.
    pub fn permit(self, role: Option<String>) -> (result: Result<PermittedInsert<'a>, DbError>)
        ensures
            fault_of(result) == channel_fault(optional_text(role), true),
            result is Ok ==> result->Ok_0.submission() == self.submission(),
    {
        proof {
            use_type_invariant(&self);
        }
        match require_channel_role(role, true) {
            Ok(_) => Ok(PermittedInsert { submission: self.submission }),
            Err(error) => Err(error),
        }
    }
}

impl<'a> PermittedInsert<'a> {
    /// The schema version is understood.
    #[verifier::type_invariant]
    spec fn sound(self) -> bool {
        schema_fault(self.submission.request.schema_version) is None
    }

    pub closed spec fn submission(&self) -> InsertSubmission<'a> {
        self.submission
    }

    /// Compare the request with the event that is stored for its instance, if any.
    pub fn settle(self, stored: Option<Vec<u8>>) -> (result: Result<InsertSettlement<'a>, DbError>)
        ensures
            fault_of(result) == stored_instance_fault(
                self.submission().event_id@,
                optional_bytes(stored),
            ),
            result is Ok ==> match result->Ok_0 {
                InsertSettlement::Replay => stored is Some,
                InsertSettlement::Fresh(fresh) => stored is None && fresh.submission()
                    == self.submission(),
            },
    {
        proof {
            use_type_invariant(&self);
        }
        match stored {
            None => Ok(InsertSettlement::Fresh(FreshInsert { submission: self.submission })),
            Some(stored) => if same_bytes(stored.as_slice(), self.submission.event_id) {
                Ok(InsertSettlement::Replay)
            } else {
                Err(DbError::Conflict("instance_id already exists".to_owned()))
            },
        }
    }
}

impl<'a> FreshInsert<'a> {
    /// The schema version is understood.
    #[verifier::type_invariant]
    spec fn sound(self) -> bool {
        schema_fault(self.submission.request.schema_version) is None
    }

    pub closed spec fn submission(&self) -> InsertSubmission<'a> {
        self.submission
    }

    /// Check the stored status of the template, if there is such a template.
    pub fn locate(self, status: Option<String>) -> (result: Result<LocatedInsert<'a>, DbError>)
        ensures
            fault_of(result) == source_fault(optional_text(status)),
            result is Ok ==> result->Ok_0.submission() == self.submission(),
    {
        proof {
            use_type_invariant(&self);
        }
        match status {
            Some(status) => {
                if same_text(status.as_str(), template_status(TemplateStatus::Active)) {
                    return Ok(LocatedInsert { submission: self.submission });
                }
            },
            None => {},
        }
        Err(DbError::NotFound("active playbook template".to_owned()))
    }
}

impl<'a> LocatedInsert<'a> {
    /// The schema version is understood.
    #[verifier::type_invariant]
    spec fn sound(self) -> bool {
        schema_fault(self.submission.request.schema_version) is None
    }

    pub closed spec fn submission(&self) -> InsertSubmission<'a> {
        self.submission
    }

    /// Deep-copy the template.
    pub fn copy(self, source: &TemplateRevision) -> (result: AcceptedInsert<'a>)
        ensures
            result.submission() == self.submission(),
            result.document() == instantiated(
                self.submission().request.instance_id,
                self.submission().request.channel_id,
                source@,
            ),
    {
        proof {
            use_type_invariant(&self);
        }
        let request = self.submission.request;
        let instance = PlaybookInstance::from_template(
            request.instance_id,
            request.channel_id,
            source,
        );
        AcceptedInsert { submission: self.submission, instance }
    }
}

impl<'a> AcceptedInsert<'a> {
    /// The schema version is understood.
    #[verifier::type_invariant]
    spec fn sound(self) -> bool {
        schema_fault(self.submission.request.schema_version) is None
    }

    pub closed spec fn submission(&self) -> InsertSubmission<'a> {
        self.submission
    }

    /// The contents of the new instance.
    pub closed spec fn document(&self) -> InstanceModel {
        self.instance@
    }

    /// The document of the new instance.
    pub fn instance(&self) -> (result: &PlaybookInstance)
        ensures
            result@ == self.document(),
    {
        &self.instance
    }

    /// What the store is told of the new instance.
    pub fn row(&self) -> (result: InsertRow<'a>)
        ensures
            schema_fault(self.submission().request.schema_version) is None,
            result@ == insert_row(self.submission(), self.document()),
    {
        proof {
            use_type_invariant(&self);
        }
        InsertRow {
            instance_id: self.submission.request.instance_id,
            channel_id: self.submission.request.channel_id,
            source_template_id: self.submission.request.template_id,
            source_template_revision: to_signed(self.instance.source_template_revision),
            structure_revision: to_signed(self.instance.structure_revision),
            status: "active",
            event_id: self.submission.event_id,
            actor: self.submission.actor,
        }
    }

    /// Refuse the request if the store reports a unique violation: the channel already has
    /// an active playbook.
    pub fn confirm(self, unique_violation: bool) -> (result: Result<PlaybookInstance, DbError>)
        ensures
            fault_of(result) == collision_fault(unique_violation),
            result is Ok ==> result->Ok_0@ == self.document(),
    {
        if unique_violation {
            Err(DbError::Conflict("channel already has an active playbook".to_owned()))
        } else {
            Ok(self.instance)
        }
    }
}

} // verus!
