//! Accepting a completion action of a member.

use vstd::prelude::*;
use vstd::slice::slice_to_vec;

use crate::document::{InstanceStatus, optional_text};
use crate::instance::{InstanceModel, PlaybookInstance, has_active};
use crate::operation::{ItemAction, ItemActionKind};
use crate::store::access::{channel_fault, require_channel_role, require_schema, schema_fault};
use crate::store::apply::{Replay, SemanticApply, lock_key, lock_key_text};
use crate::store::error::{DbError, Fault, fault_of};
use crate::store::structure::{instance_status, instance_status_text};
use crate::text::{Id, same_bytes, same_text};
use crate::time::Timestamp;

verus! {

/// The stored word for a completion action.
pub open spec fn item_action_text(action: ItemActionKind) -> Seq<char> {
    match action {
        ItemActionKind::Complete => "complete"@,
        ItemActionKind::Reopen => "reopen"@,
    }
}

/// The stored word for a completion action.
pub fn item_action_name(action: ItemActionKind) -> (result: &'static str)
    ensures
        result@ == item_action_text(action),
{
    match action {
        ItemActionKind::Complete => "complete",
        ItemActionKind::Reopen => "reopen",
    }
}

/// A completion action as an actor submitted it to a channel in a signed event.
#[derive(Clone, Copy)]
pub struct ActionSubmission<'a> {
    pub channel_id: Id,
    pub action: ItemAction,
    pub event_id: &'a [u8],
    pub actor: &'a [u8],
}

/// An action that was accepted under the same identifier.
pub struct StoredAction {
    pub event_id: Vec<u8>,
    pub actor: Vec<u8>,
    pub channel_id: Id,
    /// The action; `None` where what is stored is not exactly the encoding of one.
    pub action: Option<ItemAction>,
}

/// What is stored of an accepted action.
#[verifier::ext_equal]
pub struct StoredActionModel {
    pub event_id: Seq<u8>,
    pub actor: Seq<u8>,
    pub channel_id: Id,
    pub action: Option<ItemAction>,
}

impl View for StoredAction {
    type V = StoredActionModel;

    open spec fn view(&self) -> StoredActionModel {
        StoredActionModel {
            event_id: self.event_id@,
            actor: self.actor@,
            channel_id: self.channel_id,
            action: self.action,
        }
    }
}

/// The contents of a stored action that may be absent.
pub open spec fn optional_action(stored: Option<StoredAction>) -> Option<StoredActionModel> {
    match stored {
        Some(stored) => Some(stored@),
        None => None,
    }
}

/// What the store is told of an accepted action, besides its document.
pub struct ActionRow<'a> {
    pub action_id: Id,
    pub instance_id: Id,
    pub item_id: Id,
    pub action: &'static str,
    pub event_id: &'a [u8],
    pub actor: &'a [u8],
    pub client_created_at: Timestamp,
}

/// What an action row holds.
#[verifier::ext_equal]
pub struct ActionRowModel {
    pub action_id: Id,
    pub instance_id: Id,
    pub item_id: Id,
    pub action: Seq<char>,
    pub event_id: Seq<u8>,
    pub actor: Seq<u8>,
    pub client_created_at: Timestamp,
}

impl<'a> View for ActionRow<'a> {
    type V = ActionRowModel;

    open spec fn view(&self) -> ActionRowModel {
        ActionRowModel {
            action_id: self.action_id,
            instance_id: self.instance_id,
            item_id: self.item_id,
            action: self.action@,
            event_id: self.event_id@,
            actor: self.actor@,
            client_created_at: self.client_created_at,
        }
    }
}

/// The row of an accepted action.
pub open spec fn action_row(submission: ActionSubmission) -> ActionRowModel {
    ActionRowModel {
        action_id: submission.action.action_id,
        instance_id: submission.action.instance_id,
        item_id: submission.action.item_id,
        action: item_action_text(submission.action.action),
        event_id: submission.event_id@,
        actor: submission.actor@,
        client_created_at: submission.action.client_created_at,
    }
}

/// Whether a submission repeats a stored action: the same actor, channel and action, under
/// any event.
pub open spec fn repeats_action(submission: ActionSubmission, stored: StoredActionModel) -> bool {
    &&& stored.actor == submission.actor@
    &&& stored.channel_id == submission.channel_id
    &&& stored.action == Some(submission.action)
}

/// Why an action is refused whose identifier is taken.
pub open spec fn stored_action_fault(
    submission: ActionSubmission,
    stored: Option<StoredActionModel>,
) -> Option<Fault> {
    match stored {
        Some(stored) if !repeats_action(submission, stored) => Some(
            Fault::Conflict("action_id was already used for a different action"@),
        ),
        _ => None,
    }
}

/// Where an instance stands.
pub struct InstancePlace {
    pub channel_id: Id,
    pub status: String,
}

/// What is known of where an instance stands.
#[verifier::ext_equal]
pub struct PlaceModel {
    pub channel_id: Id,
    pub status: Seq<char>,
}

impl View for InstancePlace {
    type V = PlaceModel;

    open spec fn view(&self) -> PlaceModel {
        PlaceModel { channel_id: self.channel_id, status: self.status@ }
    }
}

/// What is known of where an instance stands that may be absent.
pub open spec fn optional_place(place: Option<InstancePlace>) -> Option<PlaceModel> {
    match place {
        Some(place) => Some(place@),
        None => None,
    }
}

/// Why a channel has no such active instance.
pub open spec fn place_fault(channel_id: Id, place: Option<PlaceModel>) -> Option<Fault> {
    match place {
        Some(place) if place.channel_id == channel_id && place.status == instance_status_text(
            InstanceStatus::Active,
        ) => None,
        _ => Some(Fault::NotFound("active playbook instance"@)),
    }
}

/// Why an item of an instance cannot be acted on.
pub open spec fn target_fault(instance: InstanceModel, item_id: Id) -> Option<Fault> {
    if has_active(instance.sections, item_id) {
        None
    } else {
        Some(Fault::NotFound("active playbook item"@))
    }
}

/// An action whose schema version is understood.
pub struct ValidAction<'a> {
    submission: ActionSubmission<'a>,
}

/// A valid action of a current channel member.
pub struct PermittedAction<'a> {
    submission: ActionSubmission<'a>,
}

/// A permitted action whose identifier is not taken.
pub struct FreshAction<'a> {
    submission: ActionSubmission<'a>,
}

/// A fresh action on an active instance of its channel.
pub struct LocatedAction<'a> {
    submission: ActionSubmission<'a>,
}

/// An action that is accepted.
pub struct AcceptedAction<'a> {
    submission: ActionSubmission<'a>,
}

/// Where a permitted action leads.
pub enum ActionSettlement<'a> {
    /// The action was accepted before: nothing is written.
    Replay(Replay),
    /// The identifier is not taken.
    Fresh(FreshAction<'a>),
}

impl<'a> ValidAction<'a> {
    /// The schema version is understood.
    #[verifier::type_invariant]
    spec fn sound(self) -> bool {
        schema_fault(self.submission.action.schema_version) is None
    }

    pub closed spec fn submission(&self) -> ActionSubmission<'a> {
        self.submission
    }

    /// Check the schema version of an action.
    pub fn check(submission: ActionSubmission<'a>) -> (result: Result<ValidAction<'a>, DbError>)
        ensures
            fault_of(result) == schema_fault(submission.action.schema_version),
            result is Ok ==> result->Ok_0.submission() == submission,
    {
        match require_schema(submission.action.schema_version) {
            Ok(()) => Ok(ValidAction { submission }),
            Err(error) => Err(error),
        }
    }

    /// Check the actor's role in the channel: any current member may act.
    pub fn permit(self, role: Option<String>) -> (result: Result<PermittedAction<'a>, DbError>)
        ensures
            fault_of(result) == channel_fault(optional_text(role), false),
            result is Ok ==> result->Ok_0.submission() == self.submission(),
    {
        proof {
            use_type_invariant(&self);
        }
        match require_channel_role(role, false) {
            Ok(_) => Ok(PermittedAction { submission: self.submission }),
            Err(error) => Err(error),
        }
    }
}

impl<'a> PermittedAction<'a> {
    /// The schema version is understood.
    #[verifier::type_invariant]
    spec fn sound(self) -> bool {
        schema_fault(self.submission.action.schema_version) is None
    }

    pub closed spec fn submission(&self) -> ActionSubmission<'a> {
        self.submission
    }

    /// The key of the lock to hold from here on.
    pub fn lock_key(&self, community: Id) -> (result: String)
        ensures
            result@ == lock_key_text(
                "playbook-item-action:"@,
                community,
                self.submission().action.action_id,
            ),
    {
        lock_key("playbook-item-action:", community, self.submission.action.action_id)
    }

    /// Compare the action with the one that is stored under its identifier, if any.
    pub fn settle(self, stored: Option<StoredAction>) -> (result: Result<
        ActionSettlement<'a>,
        DbError,
    >)
        ensures
            fault_of(result) == stored_action_fault(self.submission(), optional_action(stored)),
            result is Ok ==> match result->Ok_0 {
                ActionSettlement::Replay(replay) => stored is Some && replay.event_id()
                    == stored->Some_0.event_id@,
                ActionSettlement::Fresh(fresh) => stored is None && fresh.submission()
                    == self.submission(),
            },
    {
        proof {
            use_type_invariant(&self);
        }
        match stored {
            None => Ok(ActionSettlement::Fresh(FreshAction { submission: self.submission })),
            Some(stored) => {
                let same = same_bytes(stored.actor.as_slice(), self.submission.actor)
                    && stored.channel_id == self.submission.channel_id && match stored.action {
                    Some(action) => action == self.submission.action,
                    None => false,
                };
                if same {
                    Ok(ActionSettlement::Replay(Replay::of(stored.event_id)))
                } else {
                    Err(
                        DbError::Conflict(
                            "action_id was already used for a different action".to_owned(),
                        ),
                    )
                }
            },
        }
    }
}

impl<'a> FreshAction<'a> {
    /// The schema version is understood.
    #[verifier::type_invariant]
    spec fn sound(self) -> bool {
        schema_fault(self.submission.action.schema_version) is None
    }

    pub closed spec fn submission(&self) -> ActionSubmission<'a> {
        self.submission
    }

    /// Check where the instance stands, if there is such an instance.
    pub fn locate(self, place: Option<InstancePlace>) -> (result: Result<
        LocatedAction<'a>,
        DbError,
    >)
        ensures
            fault_of(result) == place_fault(self.submission().channel_id, optional_place(place)),
            result is Ok ==> result->Ok_0.submission() == self.submission(),
    {
        proof {
            use_type_invariant(&self);
        }
        match place {
            Some(place) => {
                if place.channel_id == self.submission.channel_id && same_text(
                    place.status.as_str(),
                    instance_status(InstanceStatus::Active),
                ) {
                    return Ok(LocatedAction { submission: self.submission });
                }
            },
            None => {},
        }
        Err(DbError::NotFound("active playbook instance".to_owned()))
    }
}

impl<'a> LocatedAction<'a> {
    /// The schema version is understood.
    #[verifier::type_invariant]
    spec fn sound(self) -> bool {
        schema_fault(self.submission.action.schema_version) is None
    }

    pub closed spec fn submission(&self) -> ActionSubmission<'a> {
        self.submission
    }

    /// Look the item up in the instance.
    pub fn target(self, instance: &PlaybookInstance) -> (result: Result<
        AcceptedAction<'a>,
        DbError,
    >)
        ensures
            fault_of(result) == target_fault(instance@, self.submission().action.item_id),
            result is Ok ==> result->Ok_0.submission() == self.submission(),
    {
        proof {
            use_type_invariant(&self);
        }
        if instance.has_active_item(self.submission.action.item_id) {
            Ok(AcceptedAction { submission: self.submission })
        } else {
            Err(DbError::NotFound("active playbook item".to_owned()))
        }
    }
}

impl<'a> AcceptedAction<'a> {
    /// The schema version is understood.
    #[verifier::type_invariant]
    spec fn sound(self) -> bool {
        schema_fault(self.submission.action.schema_version) is None
    }

    pub closed spec fn submission(&self) -> ActionSubmission<'a> {
        self.submission
    }

    /// What the store is told of the action.
    pub fn row(&self) -> (result: ActionRow<'a>)
        ensures
            schema_fault(self.submission().action.schema_version) is None,
            result@ == action_row(self.submission()),
    {
        proof {
            use_type_invariant(&self);
        }
        let action = self.submission.action;
        ActionRow {
            action_id: action.action_id,
            instance_id: action.instance_id,
            item_id: action.item_id,
            action: item_action_name(action.action),
            event_id: self.submission.event_id,
            actor: self.submission.actor,
            client_created_at: action.client_created_at,
        }
    }

    /// The result of the command, given the projection after it.
    pub fn conclude<T>(self, snapshot: T) -> (result: SemanticApply<T>)
        ensures
            result.snapshot == snapshot,
            result.canonical_event_id@ == self.submission().event_id@,
            result.applied,
    {
        SemanticApply {
            snapshot,
            canonical_event_id: slice_to_vec(self.submission.event_id),
            applied: true,
        }
    }
}

} // verus!
