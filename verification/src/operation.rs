//! The commands that members and admins sign.

use vstd::prelude::*;

use crate::document::{ItemModel, PlaybookItem, PlaybookSection, SectionModel};
use crate::text::Id;
use crate::time::Timestamp;

verus! {

/// Signed request to deep-copy the latest active template into a channel.
#[derive(Clone, Copy, Debug, PartialEq, Eq, Structural)]
pub struct InstanceInsert {
    /// Payload schema version.
    pub schema_version: u32,
    /// Client-generated idempotent instance identifier.
    pub instance_id: Id,
    /// Target channel identifier; must match the event's `h` tag.
    pub channel_id: Id,
    /// Source template identifier.
    pub template_id: Id,
}

/// Checklist state transition.
#[derive(Clone, Copy, Debug, PartialEq, Eq, Structural)]
pub enum ItemActionKind {
    /// Mark an item complete.
    Complete,
    /// Reopen a completed item.
    Reopen,
}

/// Append-only signed item state transition.
#[derive(Clone, Copy, Debug, PartialEq, Eq, Structural)]
pub struct ItemAction {
    /// Payload schema version.
    pub schema_version: u32,
    /// Client-generated idempotency identifier.
    pub action_id: Id,
    /// Target instance identifier.
    pub instance_id: Id,
    /// Target item identifier.
    pub item_id: Id,
    /// Requested state transition.
    pub action: ItemActionKind,
    /// Advisory client timestamp. Relay acceptance time is canonical.
    pub client_created_at: Timestamp,
}

/// A structural edit to an instance.
#[derive(Debug)]
pub enum StructureOperationKind {
    /// Add a section.
    SectionAdd {
        /// New section value.
        section: PlaybookSection,
    },
    /// Rename a section.
    SectionUpdate {
        /// Target section.
        section_id: Id,
        /// Replacement title.
        title: String,
    },
    /// Tombstone a section.
    SectionRemove {
        /// Target section.
        section_id: Id,
    },
    /// Restore a tombstoned section.
    SectionRestore {
        /// Target section.
        section_id: Id,
    },
    /// Change a section ordering key.
    SectionReorder {
        /// Target section.
        section_id: Id,
        /// Replacement sparse position.
        position: i64,
    },
    /// Add an item to a section.
    ItemAdd {
        /// Parent section.
        section_id: Id,
        /// New item value.
        item: PlaybookItem,
    },
    /// Edit an item.
    ItemUpdate {
        /// Target item.
        item_id: Id,
        /// Replacement checklist text.
        text: String,
    },
    /// Tombstone an item.
    ItemRemove {
        /// Target item.
        item_id: Id,
    },
    /// Restore a tombstoned item under its original section.
    ItemRestore {
        /// Target item.
        item_id: Id,
    },
    /// Change an item ordering key.
    ItemReorder {
        /// Target item.
        item_id: Id,
        /// Replacement sparse position.
        position: i64,
    },
    /// Copy an active item under the same section with a fresh stable ID.
    ItemDuplicate {
        /// Source item.
        item_id: Id,
        /// Fresh identifier for the copy.
        new_item_id: Id,
        /// Sparse position for the copy.
        position: i64,
    },
    /// Rename the channel-specific instance.
    InstanceRename {
        /// Replacement instance name.
        name: String,
    },
    /// Archive the instance while retaining activity history.
    InstanceArchive,
}

/// Signed optimistic-concurrency structural operation.
#[derive(Debug)]
pub struct StructureOperation {
    /// Payload schema version.
    pub schema_version: u32,
    /// Client-generated idempotency identifier.
    pub operation_id: Id,
    /// Target instance.
    pub instance_id: Id,
    /// Structural revision observed by the editor.
    pub base_structure_revision: u64,
    /// Operation to apply atomically.
    pub operation: StructureOperationKind,
}

/// What a structural edit asks for.
#[verifier::ext_equal]
pub enum EditModel {
    SectionAdd { section: SectionModel },
    SectionUpdate { section_id: Id, title: Seq<char> },
    SectionRemove { section_id: Id },
    SectionRestore { section_id: Id },
    SectionReorder { section_id: Id, position: i64 },
    ItemAdd { section_id: Id, item: ItemModel },
    ItemUpdate { item_id: Id, text: Seq<char> },
    ItemRemove { item_id: Id },
    ItemRestore { item_id: Id },
    ItemReorder { item_id: Id, position: i64 },
    ItemDuplicate { item_id: Id, new_item_id: Id, position: i64 },
    InstanceRename { name: Seq<char> },
    InstanceArchive,
}

/// What a structural operation holds.
#[verifier::ext_equal]
pub struct OperationModel {
    pub schema_version: u32,
    pub operation_id: Id,
    pub instance_id: Id,
    pub base_structure_revision: u64,
    pub operation: EditModel,
}

impl View for StructureOperationKind {
    type V = EditModel;

    open spec fn view(&self) -> EditModel {
        match *self {
            StructureOperationKind::SectionAdd { section } => EditModel::SectionAdd {
                section: section@,
            },
            StructureOperationKind::SectionUpdate { section_id, title } => EditModel::SectionUpdate {
                section_id,
                title: title@,
            },
            StructureOperationKind::SectionRemove { section_id } => EditModel::SectionRemove {
                section_id,
            },
            StructureOperationKind::SectionRestore { section_id } => EditModel::SectionRestore {
                section_id,
            },
            StructureOperationKind::SectionReorder { section_id, position } =>
                EditModel::SectionReorder { section_id, position },
            StructureOperationKind::ItemAdd { section_id, item } => EditModel::ItemAdd {
                section_id,
                item: item@,
            },
            StructureOperationKind::ItemUpdate { item_id, text } => EditModel::ItemUpdate {
                item_id,
                text: text@,
            },
            StructureOperationKind::ItemRemove { item_id } => EditModel::ItemRemove { item_id },
            StructureOperationKind::ItemRestore { item_id } => EditModel::ItemRestore { item_id },
            StructureOperationKind::ItemReorder { item_id, position } => EditModel::ItemReorder {
                item_id,
                position,
            },
            StructureOperationKind::ItemDuplicate { item_id, new_item_id, position } =>
                EditModel::ItemDuplicate { item_id, new_item_id, position },
            StructureOperationKind::InstanceRename { name } => EditModel::InstanceRename {
                name: name@,
            },
            StructureOperationKind::InstanceArchive => EditModel::InstanceArchive,
        }
    }
}

impl View for StructureOperation {
    type V = OperationModel;

    open spec fn view(&self) -> OperationModel {
        OperationModel {
            schema_version: self.schema_version,
            operation_id: self.operation_id,
            instance_id: self.instance_id,
            base_structure_revision: self.base_structure_revision,
            operation: self.operation@,
        }
    }
}

impl EditModel {
    /// Stable name of the kind of edit.
    pub open spec fn name(self) -> Seq<char> {
        match self {
            EditModel::SectionAdd { .. } => "section.add"@,
            EditModel::SectionUpdate { .. } => "section.update"@,
            EditModel::SectionRemove { .. } => "section.remove"@,
            EditModel::SectionRestore { .. } => "section.restore"@,
            EditModel::SectionReorder { .. } => "section.reorder"@,
            EditModel::ItemAdd { .. } => "item.add"@,
            EditModel::ItemUpdate { .. } => "item.update"@,
            EditModel::ItemRemove { .. } => "item.remove"@,
            EditModel::ItemRestore { .. } => "item.restore"@,
            EditModel::ItemReorder { .. } => "item.reorder"@,
            EditModel::ItemDuplicate { .. } => "item.duplicate"@,
            EditModel::InstanceRename { .. } => "instance.rename"@,
            EditModel::InstanceArchive => "instance.archive"@,
        }
    }
}

/// Whether two edits are of the same kind.
pub open spec fn same_kind(a: EditModel, b: EditModel) -> bool {
    ||| a is SectionAdd && b is SectionAdd
    ||| a is SectionUpdate && b is SectionUpdate
    ||| a is SectionRemove && b is SectionRemove
    ||| a is SectionRestore && b is SectionRestore
    ||| a is SectionReorder && b is SectionReorder
    ||| a is ItemAdd && b is ItemAdd
    ||| a is ItemUpdate && b is ItemUpdate
    ||| a is ItemRemove && b is ItemRemove
    ||| a is ItemRestore && b is ItemRestore
    ||| a is ItemReorder && b is ItemReorder
    ||| a is ItemDuplicate && b is ItemDuplicate
    ||| a is InstanceRename && b is InstanceRename
    ||| a is InstanceArchive && b is InstanceArchive
}

/// Two edits have the same name exactly where they are of the same kind.
pub proof fn law_names_tell_kinds_apart(a: EditModel, b: EditModel)
    ensures
        a.name() == b.name() <==> same_kind(a, b),
{
    reveal_strlit("section.add");
    reveal_strlit("section.update");
    reveal_strlit("section.remove");
    reveal_strlit("section.restore");
    reveal_strlit("section.reorder");
    reveal_strlit("item.add");
    reveal_strlit("item.update");
    reveal_strlit("item.remove");
    reveal_strlit("item.restore");
    reveal_strlit("item.reorder");
    reveal_strlit("item.duplicate");
    reveal_strlit("instance.rename");
    reveal_strlit("instance.archive");
    if a.name() == b.name() {
        assert(a.name().len() == b.name().len());
        assert(a.name()[0] == b.name()[0]);
        assert(a.name()[5] == b.name()[5]);
        assert(a.name()[7] == b.name()[7]);
        assert(a.name()[8] == b.name()[8]);
        assert(a.name()[9] == b.name()[9]);
        assert(a.name()[10] == b.name()[10]);
        assert(a.name()[11] == b.name()[11]);
    }
}

impl StructureOperationKind {
    /// Stable operation name used by audit projections and telemetry.
    pub fn name(&self) -> (result: &'static str)
        ensures
            result@ == self@.name(),
    {
        match self {
            StructureOperationKind::SectionAdd { .. } => "section.add",
            StructureOperationKind::SectionUpdate { .. } => "section.update",
            StructureOperationKind::SectionRemove { .. } => "section.remove",
            StructureOperationKind::SectionRestore { .. } => "section.restore",
            StructureOperationKind::SectionReorder { .. } => "section.reorder",
            StructureOperationKind::ItemAdd { .. } => "item.add",
            StructureOperationKind::ItemUpdate { .. } => "item.update",
            StructureOperationKind::ItemRemove { .. } => "item.remove",
            StructureOperationKind::ItemRestore { .. } => "item.restore",
            StructureOperationKind::ItemReorder { .. } => "item.reorder",
            StructureOperationKind::ItemDuplicate { .. } => "item.duplicate",
            StructureOperationKind::InstanceRename { .. } => "instance.rename",
            StructureOperationKind::InstanceArchive => "instance.archive",
        }
    }
}

impl Clone for StructureOperationKind {
    fn clone(&self) -> (result: Self)
        ensures
            result@ == self@,
    {
        match self {
            StructureOperationKind::SectionAdd { section } => StructureOperationKind::SectionAdd {
                section: section.clone(),
            },
            StructureOperationKind::SectionUpdate { section_id, title } =>
                StructureOperationKind::SectionUpdate {
                section_id: *section_id,
                title: title.clone(),
            },
            StructureOperationKind::SectionRemove { section_id } =>
                StructureOperationKind::SectionRemove { section_id: *section_id },
            StructureOperationKind::SectionRestore { section_id } =>
                StructureOperationKind::SectionRestore { section_id: *section_id },
            StructureOperationKind::SectionReorder { section_id, position } =>
                StructureOperationKind::SectionReorder {
                section_id: *section_id,
                position: *position,
            },
            StructureOperationKind::ItemAdd { section_id, item } =>
                StructureOperationKind::ItemAdd { section_id: *section_id, item: item.clone() },
            StructureOperationKind::ItemUpdate { item_id, text } =>
                StructureOperationKind::ItemUpdate { item_id: *item_id, text: text.clone() },
            StructureOperationKind::ItemRemove { item_id } => StructureOperationKind::ItemRemove {
                item_id: *item_id,
            },
            StructureOperationKind::ItemRestore { item_id } =>
                StructureOperationKind::ItemRestore { item_id: *item_id },
            StructureOperationKind::ItemReorder { item_id, position } =>
                StructureOperationKind::ItemReorder { item_id: *item_id, position: *position },
            StructureOperationKind::ItemDuplicate { item_id, new_item_id, position } =>
                StructureOperationKind::ItemDuplicate {
                item_id: *item_id,
                new_item_id: *new_item_id,
                position: *position,
            },
            StructureOperationKind::InstanceRename { name } =>
                StructureOperationKind::InstanceRename { name: name.clone() },
            StructureOperationKind::InstanceArchive => StructureOperationKind::InstanceArchive,
        }
    }
}

impl Clone for StructureOperation {
    fn clone(&self) -> (result: Self)
        ensures
            result@ == self@,
    {
        StructureOperation {
            schema_version: self.schema_version,
            operation_id: self.operation_id,
            instance_id: self.instance_id,
            base_structure_revision: self.base_structure_revision,
            operation: self.operation.clone(),
        }
    }
}

impl PartialEq for StructureOperationKind {
    fn eq(&self, other: &Self) -> (result: bool) {
        match (self, other) {
            (
                StructureOperationKind::SectionAdd { section: a },
                StructureOperationKind::SectionAdd { section: b },
            ) => *a == *b,
            (
                StructureOperationKind::SectionUpdate { section_id: a, title: s },
                StructureOperationKind::SectionUpdate { section_id: b, title: t },
            ) => *a == *b && *s == *t,
            (
                StructureOperationKind::SectionRemove { section_id: a },
                StructureOperationKind::SectionRemove { section_id: b },
            ) => *a == *b,
            (
                StructureOperationKind::SectionRestore { section_id: a },
                StructureOperationKind::SectionRestore { section_id: b },
            ) => *a == *b,
            (
                StructureOperationKind::SectionReorder { section_id: a, position: p },
                StructureOperationKind::SectionReorder { section_id: b, position: q },
            ) => *a == *b && *p == *q,
            (
                StructureOperationKind::ItemAdd { section_id: a, item: s },
                StructureOperationKind::ItemAdd { section_id: b, item: t },
            ) => *a == *b && *s == *t,
            (
                StructureOperationKind::ItemUpdate { item_id: a, text: s },
                StructureOperationKind::ItemUpdate { item_id: b, text: t },
            ) => *a == *b && *s == *t,
            (
                StructureOperationKind::ItemRemove { item_id: a },
                StructureOperationKind::ItemRemove { item_id: b },
            ) => *a == *b,
            (
                StructureOperationKind::ItemRestore { item_id: a },
                StructureOperationKind::ItemRestore { item_id: b },
            ) => *a == *b,
            (
                StructureOperationKind::ItemReorder { item_id: a, position: p },
                StructureOperationKind::ItemReorder { item_id: b, position: q },
            ) => *a == *b && *p == *q,
            (
                StructureOperationKind::ItemDuplicate { item_id: a, new_item_id: s, position: p },
                StructureOperationKind::ItemDuplicate { item_id: b, new_item_id: t, position: q },
            ) => *a == *b && *s == *t && *p == *q,
            (
                StructureOperationKind::InstanceRename { name: s },
                StructureOperationKind::InstanceRename { name: t },
            ) => *s == *t,
            (StructureOperationKind::InstanceArchive, StructureOperationKind::InstanceArchive) =>
                true,
            _ => false,
        }
    }
}

impl vstd::std_specs::cmp::PartialEqSpecImpl for StructureOperationKind {
    open spec fn obeys_eq_spec() -> bool {
        true
    }

    open spec fn eq_spec(&self, other: &Self) -> bool {
        self@ == other@
    }
}

impl Eq for StructureOperationKind {

}

impl PartialEq for StructureOperation {
    fn eq(&self, other: &Self) -> (result: bool) {
        self.schema_version == other.schema_version && self.operation_id == other.operation_id
            && self.instance_id == other.instance_id && self.base_structure_revision
            == other.base_structure_revision && self.operation == other.operation
    }
}

impl vstd::std_specs::cmp::PartialEqSpecImpl for StructureOperation {
    open spec fn obeys_eq_spec() -> bool {
        true
    }

    open spec fn eq_spec(&self, other: &Self) -> bool {
        self@ == other@
    }
}

impl Eq for StructureOperation {

}

} // verus!
