//! Accepting a template revision.

use vstd::prelude::*;
use vstd::string::*;

use crate::document::{TemplateRevision, TemplateStatus, optional_text};
use crate::store::access::{require_workspace_admin, workspace_fault};
use crate::store::cast::{signed, to_signed};
use crate::store::error::{DbError, Fault, fault_of};
use crate::text::{
    Id, decimal, hex, hex_text, optional_bytes, same_bytes, same_text, signed_decimal, signed_text,
    unsigned_text,
};
use crate::validate::template_fault;

verus! {

/// The stored word for a template status.
pub open spec fn template_status_text(status: TemplateStatus) -> Seq<char> {
    match status {
        TemplateStatus::Active => "active"@,
        TemplateStatus::Archived => "archived"@,
        TemplateStatus::Deleted => "deleted"@,
    }
}

/// The stored word for a template status.
pub fn template_status(status: TemplateStatus) -> (result: &'static str)
    ensures
        result@ == template_status_text(status),
{
    match status {
        TemplateStatus::Active => "active",
        TemplateStatus::Archived => "archived",
        TemplateStatus::Deleted => "deleted",
    }
}

/// A template revision as an actor submitted it in a signed event.
#[derive(Clone, Copy)]
pub struct TemplateSubmission<'a> {
    pub revision: &'a TemplateRevision,
    pub event_id: &'a [u8],
    pub actor: &'a [u8],
}

/// A template as it stands before a submission.
pub struct CurrentTemplate {
    pub revision: i64,
    pub status: String,
}

/// What is known of a template as it stands.
#[verifier::ext_equal]
pub struct CurrentTemplateModel {
    pub revision: i64,
    pub status: Seq<char>,
}

impl View for CurrentTemplate {
    type V = CurrentTemplateModel;

    open spec fn view(&self) -> CurrentTemplateModel {
        CurrentTemplateModel { revision: self.revision, status: self.status@ }
    }
}

/// What is known of a template that may be absent.
pub open spec fn optional_current(current: Option<CurrentTemplate>) -> Option<
    CurrentTemplateModel,
> {
    match current {
        Some(current) => Some(current@),
        None => None,
    }
}

/// What the store is told of an accepted revision, besides its document.
pub struct TemplateRow<'a> {
    pub template_id: Id,
    pub revision: i64,
    pub status: &'static str,
    pub event_id: &'a [u8],
    pub actor: &'a [u8],
}

/// What a template row holds.
#[verifier::ext_equal]
pub struct TemplateRowModel {
    pub template_id: Id,
    pub revision: i64,
    pub status: Seq<char>,
    pub event_id: Seq<u8>,
    pub actor: Seq<u8>,
}

impl<'a> View for TemplateRow<'a> {
    type V = TemplateRowModel;

    open spec fn view(&self) -> TemplateRowModel {
        TemplateRowModel {
            template_id: self.template_id,
            revision: self.revision,
            status: self.status@,
            event_id: self.event_id@,
            actor: self.actor@,
        }
    }
}

/// The row of an accepted revision.
pub open spec fn template_row(submission: TemplateSubmission) -> TemplateRowModel {
    TemplateRowModel {
        template_id: submission.revision.template_id,
        revision: signed(submission.revision.revision) as i64,
        status: template_status_text(submission.revision.status),
        event_id: submission.event_id@,
        actor: submission.actor@,
    }
}

/// Why a revision is refused whose number is already stored, under another event.
pub open spec fn stored_revision_fault(
    revision: u64,
    event_id: Seq<u8>,
    stored: Option<Seq<u8>>,
) -> Option<Fault> {
    match stored {
        Some(stored) if stored != event_id => Some(
            Fault::Conflict("template revision "@ + decimal(revision as nat) + " already exists"@),
        ),
        _ => None,
    }
}

/// The number that the next revision has to have.
pub open spec fn expected_revision(current: Option<CurrentTemplateModel>) -> int {
    match current {
        Some(current) => current.revision + 1,
        None => 1,
    }
}

/// Why a revision does not follow the template as it stands.
pub open spec fn succession_fault(revision: u64, current: Option<CurrentTemplateModel>) -> Option<
    Fault,
> {
    if signed(revision) != expected_revision(current) {
        Some(
            Fault::Conflict(
                "template revision conflict: expected "@ + signed_decimal(
                    expected_revision(current),
                ) + ", got "@ + decimal(revision as nat),
            ),
        )
    } else {
        match current {
            Some(current) if current.status == "deleted"@ => Some(
                Fault::Conflict("deleted template is immutable"@),
            ),
            Some(current) if current.status == "archived"@ => Some(
                Fault::Conflict("archived template is immutable"@),
            ),
            _ => None,
        }
    }
}

/// Why a template may not be deleted.
pub open spec fn deletion_fault(referenced: bool) -> Option<Fault> {
    if referenced {
        Some(Fault::Conflict("referenced templates must be archived instead of deleted"@))
    } else {
        None
    }
}

/// A submission whose document is acceptable.
pub struct ValidTemplate<'a> {
    submission: TemplateSubmission<'a>,
}

/// A valid submission of someone who may manage templates.
pub struct PermittedTemplate<'a> {
    submission: TemplateSubmission<'a>,
}

/// A permitted submission of a revision that is not stored yet.
pub struct FreshTemplate<'a> {
    submission: TemplateSubmission<'a>,
}

/// The deletion of a template, acceptable unless instances reference it.
pub struct PendingDeletion<'a> {
    submission: TemplateSubmission<'a>,
}

/// A submission that is accepted.
pub struct AcceptedTemplate<'a> {
    submission: TemplateSubmission<'a>,
}

/// Where a permitted submission leads.
pub enum TemplateSettlement<'a> {
    /// This very event is stored: nothing is written.
    Replay,
    /// The revision is not stored.
    Fresh(FreshTemplate<'a>),
}

/// Where a submission leads that follows the template as it stands.
pub enum TemplateSuccession<'a> {
    /// The store has to be asked whether instances reference the template.
    Delete(PendingDeletion<'a>),
    /// The revision is accepted.
    Accept(AcceptedTemplate<'a>),
}

impl<'a> ValidTemplate<'a> {
    /// The document is acceptable.
    #[verifier::type_invariant]
    spec fn sound(self) -> bool {
        template_fault(self.submission.revision@) is None
    }

    pub closed spec fn submission(&self) -> TemplateSubmission<'a> {
        self.submission
    }

    /// Check the document of a submission.
    pub fn check(submission: TemplateSubmission<'a>) -> (result: Result<ValidTemplate<'a>, DbError>)
        ensures
            fault_of(result) == (match template_fault(submission.revision@) {
                Some(error) => Some(Fault::InvalidData(error.text())),
                None => None,
            }),
            result is Ok ==> result->Ok_0.submission() == submission,
    {
        match submission.revision.validate() {
            Ok(()) => Ok(ValidTemplate { submission }),
            Err(error) => Err(DbError::InvalidData(error.message())),
        }
    }

    /// The key under which the actor's workspace role is stored.
    pub fn role_key(&self) -> (result: String)
        ensures
            result@ == hex(self.submission().actor@),
    {
        hex_text(self.submission.actor)
    }

    /// Check the actor's workspace role.
    pub fn permit(self, role: Option<String>) -> (result: Result<PermittedTemplate<'a>, DbError>)
        ensures
            fault_of(result) == workspace_fault(optional_text(role)),
            result is Ok ==> result->Ok_0.submission() == self.submission(),
    {
        proof {
            use_type_invariant(&self);
        }
        match require_workspace_admin(role) {
            Ok(()) => Ok(PermittedTemplate { submission: self.submission }),
            Err(error) => Err(error),
        }
    }
}

impl<'a> PermittedTemplate<'a> {
    /// The document is acceptable.
    #[verifier::type_invariant]
    spec fn sound(self) -> bool {
        template_fault(self.submission.revision@) is None
    }

    pub closed spec fn submission(&self) -> TemplateSubmission<'a> {
        self.submission
    }

    /// The revision number under which the store is asked for an earlier event.
    pub fn stored_revision(&self) -> (result: i64)
        ensures
            result == signed(self.submission().revision.revision),
    {
        to_signed(self.submission.revision.revision)
    }

    /// Compare the submission with the event that is stored for its revision, if any.
    pub fn settle(self, stored: Option<Vec<u8>>) -> (result: Result<
        TemplateSettlement<'a>,
        DbError,
    >)
        ensures
            fault_of(result) == stored_revision_fault(
                self.submission().revision.revision,
                self.submission().event_id@,
                optional_bytes(stored),
            ),
            result is Ok ==> match result->Ok_0 {
                TemplateSettlement::Replay => stored is Some,
                TemplateSettlement::Fresh(fresh) => stored is None && fresh.submission()
                    == self.submission(),
            },
    {
        proof {
            use_type_invariant(&self);
        }
        match stored {
            None => Ok(TemplateSettlement::Fresh(FreshTemplate { submission: self.submission })),
            Some(stored) => if same_bytes(stored.as_slice(), self.submission.event_id) {
                Ok(TemplateSettlement::Replay)
            } else {
                let text = "template revision ".to_owned().concat(
                    unsigned_text(self.submission.revision.revision).as_str(),
                ).concat(" already exists");
                Err(DbError::Conflict(text))
            },
        }
    }
}

impl<'a> FreshTemplate<'a> {
    /// The document is acceptable.
    #[verifier::type_invariant]
    spec fn sound(self) -> bool {
        template_fault(self.submission.revision@) is None
    }

    pub closed spec fn submission(&self) -> TemplateSubmission<'a> {
        self.submission
    }

    /// Compare the submission with the template as it stands, if it does.
    pub fn follow(self, current: Option<CurrentTemplate>) -> (result: Result<
        TemplateSuccession<'a>,
        DbError,
    >)
        requires
            current is Some ==> current->Some_0.revision < i64::MAX,
        ensures
            fault_of(result) == succession_fault(
                self.submission().revision.revision,
                optional_current(current),
            ),
            result is Ok ==> match result->Ok_0 {
                TemplateSuccession::Delete(pending) => self.submission().revision.status
                    == TemplateStatus::Deleted && pending.submission() == self.submission(),
                TemplateSuccession::Accept(accepted) => self.submission().revision.status
                    != TemplateStatus::Deleted && accepted.submission() == self.submission(),
            },
    {
        proof {
            use_type_invariant(&self);
        }
        let revision = self.submission.revision;
        let expected: i64 = match &current {
            Some(current) => current.revision + 1,
            None => 1,
        };
        if to_signed(revision.revision) != expected {
            let text = "template revision conflict: expected ".to_owned().concat(
                signed_text(expected).as_str(),
            ).concat(", got ").concat(unsigned_text(revision.revision).as_str());
            return Err(DbError::Conflict(text));
        }
        match &current {
            Some(current) => {
                if same_text(current.status.as_str(), "deleted") {
                    return Err(DbError::Conflict("deleted template is immutable".to_owned()));
                }
                if same_text(current.status.as_str(), "archived") {
                    return Err(DbError::Conflict("archived template is immutable".to_owned()));
                }
            },
            None => {},
        }
        if revision.status == TemplateStatus::Deleted {
            Ok(TemplateSuccession::Delete(PendingDeletion { submission: self.submission }))
        } else {
            Ok(TemplateSuccession::Accept(AcceptedTemplate { submission: self.submission }))
        }
    }
}

impl<'a> PendingDeletion<'a> {
    /// The document is acceptable.
    #[verifier::type_invariant]
    spec fn sound(self) -> bool {
        template_fault(self.submission.revision@) is None
    }

    pub closed spec fn submission(&self) -> TemplateSubmission<'a> {
        self.submission
    }

    /// Refuse the deletion if instances reference the template.
    pub fn confirm(self, referenced: bool) -> (result: Result<AcceptedTemplate<'a>, DbError>)
        ensures
            fault_of(result) == deletion_fault(referenced),
            result is Ok ==> result->Ok_0.submission() == self.submission(),
    {
        proof {
            use_type_invariant(&self);
        }
        if referenced {
            Err(
                DbError::Conflict(
                    "referenced templates must be archived instead of deleted".to_owned(),
                ),
            )
        } else {
            Ok(AcceptedTemplate { submission: self.submission })
        }
    }
}

impl<'a> AcceptedTemplate<'a> {
    /// The document is acceptable.
    #[verifier::type_invariant]
    spec fn sound(self) -> bool {
        template_fault(self.submission.revision@) is None
    }

    pub closed spec fn submission(&self) -> TemplateSubmission<'a> {
        self.submission
    }

    /// What the store is told of the revision.
    pub fn row(&self) -> (result: TemplateRow<'a>)
        ensures
            template_fault(self.submission().revision@) is None,
            result@ == template_row(self.submission()),
    {
        proof {
            use_type_invariant(&self);
        }
        TemplateRow {
            template_id: self.submission.revision.template_id,
            revision: to_signed(self.submission.revision.revision),
            status: template_status(self.submission.revision.status),
            event_id: self.submission.event_id,
            actor: self.submission.actor,
        }
    }
}

} // verus!
