//! Event kinds.

use vstd::prelude::*;

verus! {

/// Immutable full template revision.
pub const KIND_PLAYBOOK_TEMPLATE_REVISION: u32 = 40200;

/// Deep copy of an active template into a channel.
pub const KIND_PLAYBOOK_INSTANCE_INSERT: u32 = 40201;

/// Completion or reopening of one item.
pub const KIND_PLAYBOOK_ITEM_ACTION: u32 = 40202;

/// One structural operation.
pub const KIND_PLAYBOOK_STRUCTURE_OPERATION: u32 = 40203;

/// Current template projection.
pub const KIND_PLAYBOOK_TEMPLATE_SNAPSHOT: u32 = 30623;

/// Current instance, item-state and activity projection.
pub const KIND_PLAYBOOK_INSTANCE_SNAPSHOT: u32 = 30624;

} // verus!
