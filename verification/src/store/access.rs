//! Roles, and what they permit.

use vstd::prelude::*;

use crate::document::{PLAYBOOK_SCHEMA_VERSION, optional_text};
use crate::error::PlaybookError;
use crate::store::error::{DbError, Fault, fault_of};
use crate::text::same_text;

verus! {

/// Whether a role carries owner or admin rights.
pub open spec fn elevated_role(role: Seq<char>) -> bool {
    role == "owner"@ || role == "admin"@
}

/// Why someone with this workspace role, if any, may not manage templates.
pub open spec fn workspace_fault(role: Option<Seq<char>>) -> Option<Fault> {
    match role {
        Some(role) if elevated_role(role) => None,
        _ => Some(Fault::AccessDenied("workspace owner/admin permission required"@)),
    }
}

/// Why someone with this channel role, if any, may not act in a channel, or may not change
/// it where `elevated` rights are asked for.
pub open spec fn channel_fault(role: Option<Seq<char>>, elevated: bool) -> Option<Fault> {
    match role {
        None => Some(Fault::AccessDenied("current channel membership required"@)),
        Some(role) => if elevated && !elevated_role(role) {
            Some(Fault::AccessDenied("channel owner/admin permission required"@))
        } else {
            None
        },
    }
}

/// Why a payload of this schema version is not understood.
pub open spec fn schema_fault(version: u32) -> Option<Fault> {
    if version != PLAYBOOK_SCHEMA_VERSION {
        Some(Fault::InvalidData(PlaybookError::SchemaVersion(version).text()))
    } else {
        None
    }
}

fn has_elevated_role(role: &str) -> (result: bool)
    ensures
        result == elevated_role(role@),
{
    same_text(role, "owner") || same_text(role, "admin")
}

/// Check that a current workspace role, if any, is that of an owner or admin.
pub fn require_workspace_admin(role: Option<String>) -> (result: Result<(), DbError>)
    ensures
        fault_of(result) == workspace_fault(optional_text(role)),
{
    match role {
        Some(role) => {
            if has_elevated_role(role.as_str()) {
                return Ok(());
            }
        },
        None => {},
    }
    Err(DbError::AccessDenied("workspace owner/admin permission required".to_owned()))
}

/// Check that there is a current channel role, and where `elevated` rights are asked for
/// that it is that of an owner or admin. Gives back the role.
pub fn require_channel_role(role: Option<String>, elevated: bool) -> (result: Result<
    String,
    DbError,
>)
    ensures
        fault_of(result) == channel_fault(optional_text(role), elevated),
        result is Ok ==> role == Some(result->Ok_0),
{
    match role {
        None => Err(DbError::AccessDenied("current channel membership required".to_owned())),
        Some(role) => if elevated && !has_elevated_role(role.as_str()) {
            Err(DbError::AccessDenied("channel owner/admin permission required".to_owned()))
        } else {
            Ok(role)
        },
    }
}

/// Check that a payload's schema version is the one that is understood.
pub fn require_schema(version: u32) -> (result: Result<(), DbError>)
    ensures
        fault_of(result) == schema_fault(version),
{
    if version != PLAYBOOK_SCHEMA_VERSION {
        Err(DbError::InvalidData(PlaybookError::SchemaVersion(version).message()))
    } else {
        Ok(())
    }
}

/// Whoever may change a channel may act in it.
pub proof fn law_elevated_rights_suffice(role: Option<Seq<char>>)
    requires
        channel_fault(role, true) is None,
    ensures
        channel_fault(role, false) is None,
{
}

/// Someone without a current role is turned away from everything.
pub proof fn law_outsiders_are_turned_away(elevated: bool)
    ensures
        workspace_fault(None) is Some,
        channel_fault(None, elevated) is Some,
{
}

} // verus!
