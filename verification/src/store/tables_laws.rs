//! What holds of the store through any sequence of commands.

use vstd::prelude::*;

use crate::document::InstanceStatus;
use crate::instance::InstanceModel;
use crate::instance_laws::{
    law_edits_keep_identity, law_edits_keep_instances_valid, law_new_instances_are_valid,
};
use crate::operation::EditModel;
use crate::search::{first_where, lemma_first_where};
use crate::store::access::channel_fault;
use crate::store::action::ActionSubmission;
use crate::store::cast::signed;
use crate::store::command::{action_refusal, operation_refusal};
use crate::store::insert::InsertSubmission;
use crate::store::laws::{kept_action, kept_operation};
use crate::store::structure::{OperationSubmission, edit_fault, instance_status_text, revised};
use crate::store::tables::{
    InstanceEntry, Tables, TemplateEntry, called_action, called_operation,
};
use crate::store::template::{TemplateSubmission, template_row, template_status_text};
use crate::text::Id;
use crate::time::Timestamp;
use crate::validate::template_fault;

verus! {

/// A command as it was submitted.
pub enum Command<'a> {
    Template(TemplateSubmission<'a>),
    Insert(InsertSubmission<'a>),
    Action(ActionSubmission<'a>),
    Operation(OperationSubmission<'a>),
}

/// A command, with the role of its actor and the time at which it came up.
pub struct Request<'a> {
    pub command: Command<'a>,
    /// The workspace role for a template revision, else the role in the channel.
    pub role: Option<Seq<char>>,
    pub accepted_at: Timestamp,
}

impl TemplateEntry {
    /// Whether the entry tells of the template with this identifier what its document says.
    pub open spec fn sound(self, id: Id) -> bool {
        &&& self.row.template_id == id
        &&& self.document.template_id == id
        &&& self.row.revision == signed(self.document.revision)
        &&& self.row.status == template_status_text(self.document.status)
        &&& template_fault(self.document) is None
    }
}

impl InstanceEntry {
    /// Whether the entry tells of the instance with this identifier what its document says.
    pub open spec fn sound(self, id: Id) -> bool {
        &&& self.row.instance_id == id
        &&& self.document.instance_id == id
        &&& self.row.channel_id == self.document.channel_id
        &&& self.row.source_template_id == self.document.source_template_id
        &&& self.row.source_template_revision == signed(self.document.source_template_revision)
        &&& self.row.structure_revision == signed(self.document.structure_revision)
        &&& self.row.status == instance_status_text(self.document.status)
        &&& self.document.valid()
    }
}

impl Tables {
    /// The tables before the first command.
    pub open spec fn blank() -> Tables {
        Tables {
            revisions: Map::empty(),
            templates: Map::empty(),
            instances: Map::empty(),
            actions: Seq::empty(),
            operations: Seq::empty(),
        }
    }

    /// The tables after a command was submitted.
    pub open spec fn after(self, request: Request) -> Tables {
        match request.command {
            Command::Template(submission) => self.after_template(
                submission,
                request.role,
                request.accepted_at,
            ),
            Command::Insert(submission) => self.after_insert(
                submission,
                request.role,
                request.accepted_at,
            ),
            Command::Action(submission) => self.after_action(
                submission,
                request.role,
                request.accepted_at,
            ),
            Command::Operation(submission) => self.after_operation(
                submission,
                request.role,
                request.accepted_at,
            ),
        }
    }

    /// The tables after a sequence of commands was submitted.
    pub open spec fn after_all(self, requests: Seq<Request>) -> Tables
        decreases requests.len(),
    {
        if requests.len() == 0 {
            self
        } else {
            self.after_all(requests.drop_last()).after(requests.last())
        }
    }

    /// Whether every row tells what its document says, every document is valid, and every
    /// action and operation is on a stored instance.
    pub open spec fn sound(self) -> bool {
        &&& forall|id: Id| #[trigger]
            self.templates.contains_key(id) ==> self.templates[id].sound(id)
        &&& forall|id: Id| #[trigger]
            self.instances.contains_key(id) ==> self.instances[id].sound(id)
        &&& forall|i: int|
            0 <= i < self.actions.len() ==> self.instances.contains_key(
                (#[trigger] self.actions[i]).row.instance_id,
            )
        &&& forall|i: int|
            0 <= i < self.operations.len() ==> self.instances.contains_key(
                (#[trigger] self.operations[i]).row.instance_id,
            )
    }

    /// Whether every template has exactly the revisions from the first to the current one.
    pub open spec fn complete(self) -> bool {
        &&& forall|id: Id| #[trigger]
            self.templates.contains_key(id) ==> self.templates[id].row.revision >= 1
        &&& forall|id: Id, n: i64| #[trigger]
            self.revisions.contains_key((id, n)) <==> self.templates.contains_key(id) && 1 <= n
                <= self.templates[id].row.revision
    }

    /// Whether no channel has two active playbooks.
    pub open spec fn exclusive(self) -> bool {
        forall|a: Id, b: Id| #[trigger]
            self.instances.contains_key(a) && #[trigger] self.instances.contains_key(b)
                && self.instances[a].row.channel_id == self.instances[b].row.channel_id
                && self.instances[a].row.status == "active"@ && self.instances[b].row.status
                == "active"@ ==> a == b
    }
}

/// What an accepted edit does to what the row of an instance tells.
proof fn lemma_revised(instance: InstanceModel, edit: EditModel)
    requires
        edit_fault(instance, edit) is None,
    ensures
        revised(instance, edit).instance_id == instance.instance_id,
        revised(instance, edit).channel_id == instance.channel_id,
        revised(instance, edit).source_template_id == instance.source_template_id,
        revised(instance, edit).source_template_revision == instance.source_template_revision,
        instance.status == InstanceStatus::Active,
        instance.valid() ==> revised(instance, edit).valid(),
{
    law_edits_keep_identity(instance, edit);
    if instance.valid() {
        law_edits_keep_instances_valid(instance, edit);
    }
}

/// Every command keeps the rows in step with their documents and the documents valid.
pub proof fn law_commands_keep_tables_sound(tables: Tables, request: Request)
    requires
        tables.sound(),
    ensures
        tables.after(request).sound(),
{
    let after = tables.after(request);
    match request.command {
        Command::Template(submission) => {
            if tables.takes_template(submission, request.role) {
                let id = submission.revision.template_id;
                assert(after.templates[id].sound(id));
            }
        },
        Command::Insert(submission) => {
            if tables.takes_insert(submission, request.role) {
                let request = submission.request;
                let source = tables.templates[request.template_id].document;
                assert(tables.templates.contains_key(request.template_id));
                law_new_instances_are_valid(request.instance_id, request.channel_id, source);
                assert(after.instances[request.instance_id].sound(request.instance_id));
            }
        },
        Command::Action(submission) => {},
        Command::Operation(submission) => {
            if tables.takes_operation(submission, request.role) {
                let id = submission.operation.instance_id;
                assert(tables.instances.contains_key(id));
                lemma_revised(tables.instances[id].document, submission.operation.operation@);
                assert(after.instances[id].sound(id));
            }
        },
    }
}

/// Every command keeps the revisions of each template complete, from the first to the
/// current one.
pub proof fn law_commands_keep_revisions_complete(tables: Tables, request: Request)
    requires
        tables.sound(),
        tables.complete(),
    ensures
        tables.after(request).complete(),
{
    let after = tables.after(request);
    match request.command {
        Command::Template(submission) => {
            if tables.takes_template(submission, request.role) {
                let row = template_row(submission);
                assert forall|id: Id, n: i64| #[trigger]
                    after.revisions.contains_key((id, n)) <==> after.templates.contains_key(id) && 1
                        <= n <= after.templates[id].row.revision by {
                    let known = tables.templates.contains_key(id);
                    assert(tables.revisions.contains_key((id, n)) <==> known && 1 <= n
                        <= tables.templates[id].row.revision);
                    assert((id, n) == (row.template_id, row.revision) <==> id == row.template_id
                        && n == row.revision);
                }
            }
        },
        _ => {},
    }
}

/// Every command keeps it so that no channel has two active playbooks.
pub proof fn law_commands_keep_playbooks_exclusive(tables: Tables, request: Request)
    requires
        tables.sound(),
        tables.exclusive(),
    ensures
        tables.after(request).exclusive(),
{
    reveal_strlit("active");
    reveal_strlit("archived");
    assert("active"@.len() == 6 && "archived"@.len() == 8);
    match request.command {
        Command::Operation(submission) => {
            if tables.takes_operation(submission, request.role) {
                let id = submission.operation.instance_id;
                assert(tables.instances.contains_key(id));
                lemma_revised(tables.instances[id].document, submission.operation.operation@);
            }
        },
        _ => {},
    }
}

/// Whatever commands were submitted, every row tells what its document says, every document
/// is valid, every template has all its revisions, and no channel has two active playbooks.
pub proof fn law_tables_are_always_in_order(requests: Seq<Request>)
    ensures
        Tables::blank().after_all(requests).sound(),
        Tables::blank().after_all(requests).complete(),
        Tables::blank().after_all(requests).exclusive(),
    decreases requests.len(),
{
    if requests.len() > 0 {
        law_tables_are_always_in_order(requests.drop_last());
        let before = Tables::blank().after_all(requests.drop_last());
        law_commands_keep_tables_sound(before, requests.last());
        law_commands_keep_revisions_complete(before, requests.last());
        law_commands_keep_playbooks_exclusive(before, requests.last());
    }
}

/// No command takes anything back: actions, operations and template revisions stay as they
/// were accepted, and instances stay, in their channel and with their provenance.
pub proof fn law_commands_take_nothing_back(tables: Tables, request: Request)
    requires
        tables.sound(),
    ensures
        tables.actions.is_prefix_of(tables.after(request).actions),
        tables.operations.is_prefix_of(tables.after(request).operations),
        forall|key: (Id, i64)| #[trigger]
            tables.revisions.contains_key(key) ==> tables.after(request).revisions.contains_key(key)
                && tables.after(request).revisions[key] == tables.revisions[key],
        forall|id: Id| #[trigger]
            tables.instances.contains_key(id) ==> {
                let (before, after) = (tables.instances[id], tables.after(request).instances[id]);
                &&& tables.after(request).instances.contains_key(id)
                &&& after.row.channel_id == before.row.channel_id
                &&& after.row.source_template_id == before.row.source_template_id
                &&& after.row.source_template_revision == before.row.source_template_revision
                &&& after.insertion() == before.insertion()
            },
{
    let after = tables.after(request);
    assert(tables.actions =~= after.actions.take(tables.actions.len() as int));
    assert(tables.operations =~= after.operations.take(tables.operations.len() as int));
}

/// What is stored under an identifier is found where it was once more is stored.
proof fn lemma_found_in_longer<T>(s: Seq<T>, longer: Seq<T>, accept: spec_fn(T) -> bool)
    requires
        s.is_prefix_of(longer),
        first_where(s, accept) is Some,
    ensures
        first_where(longer, accept) == first_where(s, accept),
        0 <= first_where(s, accept)->Some_0 < s.len(),
        accept(s[first_where(s, accept)->Some_0]),
        longer[first_where(s, accept)->Some_0] == s[first_where(s, accept)->Some_0],
{
    lemma_first_where(s, accept);
    lemma_first_where(longer, accept);
    let i = first_where(s, accept)->Some_0;
    assert(s == longer.take(s.len() as int));
    assert(longer[i] == s[i]);
    assert(first_where(longer, accept) is Some);
    let k = first_where(longer, accept)->Some_0;
    if k < i {
        assert(longer[k] == s[k]);
    }
}

/// An accepted action or operation stays found under its identifier, through any command.
pub proof fn law_stored_commands_stay(tables: Tables, request: Request, id: Id)
    requires
        tables.sound(),
    ensures
        tables.stored_action(id) is Some ==> tables.after(request).stored_action(id)
            == tables.stored_action(id),
        tables.stored_operation(id) is Some ==> tables.after(request).stored_operation(id)
            == tables.stored_operation(id),
{
    let after = tables.after(request);
    law_commands_take_nothing_back(tables, request);
    if tables.stored_action(id) is Some {
        lemma_found_in_longer(tables.actions, after.actions, called_action(id));
        let i = first_where(tables.actions, called_action(id))->Some_0;
        assert(tables.instances.contains_key(tables.actions[i].row.instance_id));
    }
    if tables.stored_operation(id) is Some {
        lemma_found_in_longer(tables.operations, after.operations, called_operation(id));
        let i = first_where(tables.operations, called_operation(id))->Some_0;
        assert(tables.instances.contains_key(tables.operations[i].row.instance_id));
    }
}

/// As `law_stored_commands_stay`, through any sequence of commands.
proof fn lemma_stored_commands_stay(tables: Tables, requests: Seq<Request>, id: Id)
    requires
        tables.sound(),
    ensures
        tables.after_all(requests).sound(),
        tables.stored_action(id) is Some ==> tables.after_all(requests).stored_action(id)
            == tables.stored_action(id),
        tables.stored_operation(id) is Some ==> tables.after_all(requests).stored_operation(id)
            == tables.stored_operation(id),
    decreases requests.len(),
{
    if requests.len() > 0 {
        lemma_stored_commands_stay(tables, requests.drop_last(), id);
        let before = tables.after_all(requests.drop_last());
        law_commands_keep_tables_sound(before, requests.last());
        law_stored_commands_stay(before, requests.last(), id);
    }
}

/// What is pushed is found where nothing was found before.
proof fn lemma_pushed_is_found<T>(s: Seq<T>, x: T, accept: spec_fn(T) -> bool)
    requires
        first_where(s, accept) is None,
        accept(x),
    ensures
        first_where(s.push(x), accept) == Some(s.len() as int),
{
    lemma_first_where(s, accept);
    lemma_first_where(s.push(x), accept);
    assert(s.push(x)[s.len() as int] == x);
    let k = first_where(s.push(x), accept)->Some_0;
    if k < s.len() {
        assert(s.push(x)[k] == s[k]);
    }
}

/// What is pushed is not found under another identifier.
proof fn lemma_pushed_is_not_found<T>(s: Seq<T>, x: T, accept: spec_fn(T) -> bool)
    requires
        first_where(s, accept) is None,
        !accept(x),
    ensures
        first_where(s.push(x), accept) is None,
{
    lemma_first_where(s, accept);
    lemma_first_where(s.push(x), accept);
    if first_where(s.push(x), accept) is Some {
        let k = first_where(s.push(x), accept)->Some_0;
        if k < s.len() {
            assert(s.push(x)[k] == s[k]);
        }
    }
}

/// An action that is accepted is stored under its identifier, with its event.
pub proof fn law_accepted_actions_are_stored(
    tables: Tables,
    submission: ActionSubmission,
    role: Option<Seq<char>>,
    accepted_at: Timestamp,
)
    requires
        tables.takes_action(submission, role),
    ensures
        tables.after_action(submission, role, accepted_at).stored_action(
            submission.action.action_id,
        ) == Some(kept_action(submission)),
{
    let after = tables.after_action(submission, role, accepted_at);
    lemma_pushed_is_found(
        tables.actions,
        after.actions.last(),
        called_action(submission.action.action_id),
    );
}

/// An operation that is accepted is stored under its identifier, with its event.
pub proof fn law_accepted_operations_are_stored(
    tables: Tables,
    submission: OperationSubmission,
    role: Option<Seq<char>>,
    accepted_at: Timestamp,
)
    requires
        tables.takes_operation(submission, role),
    ensures
        tables.after_operation(submission, role, accepted_at).stored_operation(
            submission.operation.operation_id,
        ) == Some(kept_operation(submission)),
{
    let after = tables.after_operation(submission, role, accepted_at);
    lemma_pushed_is_found(
        tables.operations,
        after.operations.last(),
        called_operation(submission.operation.operation_id),
    );
}

/// An accepted action may be sent again in a new event by its actor while they are a
/// member, whatever commands came in between: it is not refused, it is answered with the
/// event that was accepted first, and nothing is written.
pub proof fn law_retried_actions_write_nothing(
    tables: Tables,
    submission: ActionSubmission,
    role: Option<Seq<char>>,
    accepted_at: Timestamp,
    between: Seq<Request>,
    retry: ActionSubmission,
    later_role: Option<Seq<char>>,
    later: Timestamp,
)
    requires
        tables.sound(),
        tables.takes_action(submission, role),
        retry.action == submission.action,
        retry.channel_id == submission.channel_id,
        retry.actor@ == submission.actor@,
        channel_fault(later_role, false) is None,
    ensures
        ({
            let now = tables.after_action(submission, role, accepted_at).after_all(between);
            let facts = now.action_facts(retry, later_role);
            &&& action_refusal(retry, facts) is None
            &&& facts.stored is Some
            &&& facts.stored->Some_0.event_id == submission.event_id@
            &&& now.after_action(retry, later_role, later) == now
        }),
{
    let first = Request { command: Command::Action(submission), role, accepted_at };
    law_commands_keep_tables_sound(tables, first);
    law_accepted_actions_are_stored(tables, submission, role, accepted_at);
    lemma_stored_commands_stay(tables.after(first), between, submission.action.action_id);
}

/// An accepted operation may be sent again in a new event by its actor while they may change
/// the channel, whatever commands came in between: it is not refused, it is answered with
/// the event that was accepted first, and nothing is written.
pub proof fn law_retried_operations_write_nothing(
    tables: Tables,
    submission: OperationSubmission,
    role: Option<Seq<char>>,
    accepted_at: Timestamp,
    between: Seq<Request>,
    retry: OperationSubmission,
    later_role: Option<Seq<char>>,
    later: Timestamp,
)
    requires
        tables.sound(),
        tables.takes_operation(submission, role),
        retry.operation@ == submission.operation@,
        retry.channel_id == submission.channel_id,
        retry.actor@ == submission.actor@,
        channel_fault(later_role, true) is None,
    ensures
        ({
            let now = tables.after_operation(submission, role, accepted_at).after_all(between);
            let facts = now.operation_facts(retry, later_role);
            &&& operation_refusal(retry, facts) is None
            &&& facts.stored is Some
            &&& facts.stored->Some_0.event_id == submission.event_id@
            &&& now.after_operation(retry, later_role, later) == now
        }),
{
    let first = Request { command: Command::Operation(submission), role, accepted_at };
    law_commands_keep_tables_sound(tables, first);
    law_accepted_operations_are_stored(tables, submission, role, accepted_at);
    lemma_stored_commands_stay(tables.after(first), between, submission.operation.operation_id);
    assert(retry.operation@.operation_id == submission.operation@.operation_id);
    assert(retry.operation@.schema_version == submission.operation@.schema_version);
}

/// Whether of two operations the first is accepted and the second a conflict: the tables are
/// then those that the first alone leaves, with its instance at the next revision, and hold
/// nothing of the second.
pub open spec fn wins(
    tables: Tables,
    winner: OperationSubmission,
    winner_role: Option<Seq<char>>,
    winner_at: Timestamp,
    loser: OperationSubmission,
    loser_role: Option<Seq<char>>,
    loser_at: Timestamp,
) -> bool {
    let id = winner.operation.instance_id;
    let won = tables.after_operation(winner, winner_role, winner_at);
    let refusal = operation_refusal(loser, won.operation_facts(loser, loser_role));
    &&& operation_refusal(winner, tables.operation_facts(winner, winner_role)) is None
    &&& refusal is Some && refusal->Some_0 is Conflict
    &&& won.after_operation(loser, loser_role, loser_at) == won
    &&& won.instances[id].document == revised(
        tables.instances[id].document,
        winner.operation.operation@,
    )
    &&& won.instances[id].document.structure_revision
        == tables.instances[id].document.structure_revision + 1
    &&& won.stored_operation(winner.operation.operation_id) == Some(kept_operation(winner))
    &&& won.stored_operation(loser.operation.operation_id) is None
    &&& won.operations.len() == tables.operations.len() + 1
}

proof fn lemma_first_of_two_wins(
    tables: Tables,
    winner: OperationSubmission,
    winner_role: Option<Seq<char>>,
    winner_at: Timestamp,
    loser: OperationSubmission,
    loser_role: Option<Seq<char>>,
    loser_at: Timestamp,
)
    requires
        tables.sound(),
        tables.takes_operation(winner, winner_role),
        tables.takes_operation(loser, loser_role),
        winner.operation.operation_id != loser.operation.operation_id,
        winner.operation.instance_id == loser.operation.instance_id,
        tables.instances[winner.operation.instance_id].document.structure_revision < u64::MAX,
    ensures
        wins(tables, winner, winner_role, winner_at, loser, loser_role, loser_at),
{
    let id = winner.operation.instance_id;
    let won = tables.after_operation(winner, winner_role, winner_at);
    assert(tables.instances.contains_key(id));
    law_accepted_operations_are_stored(tables, winner, winner_role, winner_at);
    lemma_pushed_is_not_found(
        tables.operations,
        won.operations.last(),
        called_operation(loser.operation.operation_id),
    );
    lemma_revised(tables.instances[id].document, winner.operation.operation@);
}

/// Of two operations on one revision of an instance that are each acceptable, exactly one
/// wins, whichever comes first: the other is a conflict and leaves no trace.
pub proof fn law_exactly_one_of_two_operations_wins(
    tables: Tables,
    a: OperationSubmission,
    a_role: Option<Seq<char>>,
    a_at: Timestamp,
    b: OperationSubmission,
    b_role: Option<Seq<char>>,
    b_at: Timestamp,
)
    requires
        tables.sound(),
        tables.takes_operation(a, a_role),
        tables.takes_operation(b, b_role),
        a.operation.operation_id != b.operation.operation_id,
        a.operation.instance_id == b.operation.instance_id,
        tables.instances[a.operation.instance_id].document.structure_revision < u64::MAX,
    ensures
        wins(tables, a, a_role, a_at, b, b_role, b_at),
        wins(tables, b, b_role, b_at, a, a_role, a_at),
{
    lemma_first_of_two_wins(tables, a, a_role, a_at, b, b_role, b_at);
    lemma_first_of_two_wins(tables, b, b_role, b_at, a, a_role, a_at);
}

} // verus!
