//! What holds of the client's decisions taken together.

use vstd::prelude::*;

use crate::cli::command::ActionRequest;
use crate::cli::draft::{insert_tags, instance_tags, requested_action, template_tags};
use crate::cli::error::{CliFault, detail, reported, reports_conflict};
use crate::cli::tag::named;
use crate::operation::InstanceInsert;
use crate::text::{Id, hyphenated, trimmed_start, white_space};
use crate::text_laws::law_printed_identifiers_differ;
use crate::time::Timestamp;

verus! {

/// A tag with a name and one value is told apart from another by its value.
proof fn lemma_named_value(name: Seq<char>, a: Id, b: Id)
    requires
        named(name, hyphenated(a)) == named(name, hyphenated(b)),
    ensures
        a == b,
{
    assert(named(name, hyphenated(a))[1] == hyphenated(a));
    assert(named(name, hyphenated(b))[1] == hyphenated(b));
    law_printed_identifiers_differ(a, b);
}

/// The tags of a template revision tell which template it is of.
pub proof fn law_template_tags_identify_the_template(a: Id, b: Id)
    requires
        template_tags(a) == template_tags(b),
    ensures
        a == b,
{
    assert(template_tags(a)[0] == named("template"@, hyphenated(a)));
    assert(template_tags(b)[0] == named("template"@, hyphenated(b)));
    lemma_named_value("template"@, a, b);
}

/// The tags of an event in a channel tell the channel and the instance.
pub proof fn law_instance_tags_identify_the_instance(
    channel: Id,
    instance: Id,
    other_channel: Id,
    other_instance: Id,
)
    requires
        instance_tags(channel, instance) == instance_tags(other_channel, other_instance),
    ensures
        channel == other_channel,
        instance == other_instance,
{
    let a = instance_tags(channel, instance);
    let b = instance_tags(other_channel, other_instance);
    assert(a[0] == b[0] && a[1] == b[1]);
    lemma_named_value("h"@, channel, other_channel);
    lemma_named_value("instance"@, instance, other_instance);
}

/// The tags of a request to copy a template say all that its payload says.
pub proof fn law_insert_tags_identify_the_request(a: InstanceInsert, b: InstanceInsert)
    requires
        insert_tags(a) == insert_tags(b),
        a.schema_version == b.schema_version,
    ensures
        a == b,
{
    assert(instance_tags(a.channel_id, a.instance_id) =~= insert_tags(a).take(2));
    assert(instance_tags(b.channel_id, b.instance_id) =~= insert_tags(b).take(2));
    assert(template_tags(a.template_id) =~= insert_tags(a).skip(2));
    assert(template_tags(b.template_id) =~= insert_tags(b).skip(2));
    law_instance_tags_identify_the_instance(
        a.channel_id,
        a.instance_id,
        b.channel_id,
        b.instance_id,
    );
    law_template_tags_identify_the_template(a.template_id, b.template_id);
}

/// An action whose identifier and time are given is the same action each time it is asked
/// for.
pub proof fn law_given_actions_are_repeatable(
    request: ActionRequest,
    fresh: Id,
    now: Timestamp,
    fresh_again: Id,
    later: Timestamp,
)
    requires
        request.action_id is Some,
        request.client_created_at is Some,
    ensures
        requested_action(request, fresh, now) == requested_action(request, fresh_again, later),
{
}

/// A conflict is reported with its prefix once, however much white space follows the prefix
/// in the relay's answer.
pub proof fn law_conflicts_are_reported_with_one_prefix(
    status: u16,
    space: Seq<char>,
    rest: Seq<char>,
)
    requires
        forall|i: int| 0 <= i < space.len() ==> white_space(#[trigger] space[i]),
        rest.len() > 0 ==> !white_space(rest[0]),
    ensures
        reported(CliFault::Relay { status, body: "conflict:"@ + space + rest })
            == CliFault::Conflict(rest),
        reported(CliFault::Relay { status, body: "conflict:"@ + space + rest }).text()
            == "conflict: "@ + rest,
{
    let body = "conflict:"@ + space + rest;
    assert("conflict:"@ =~= body.take("conflict:"@.len() as int));
    assert(reports_conflict(body));
    assert(body.skip("conflict:"@.len() as int) =~= space + rest);
    lemma_trims_to_rest(space, rest);
    assert(detail(body) == rest);
}

proof fn lemma_trims_to_rest(space: Seq<char>, rest: Seq<char>)
    requires
        forall|i: int| 0 <= i < space.len() ==> white_space(#[trigger] space[i]),
        rest.len() > 0 ==> !white_space(rest[0]),
    ensures
        trimmed_start(space + rest) == rest,
    decreases space.len(),
{
    if space.len() == 0 {
        assert(space + rest =~= rest);
    } else {
        assert((space + rest)[0] == space[0]);
        assert((space + rest).drop_first() =~= space.drop_first() + rest);
        lemma_trims_to_rest(space.drop_first(), rest);
    }
}

/// Every other failure is reported as it is.
pub proof fn law_other_failures_are_reported_as_they_are(fault: CliFault)
    requires
        !(fault is Relay && reports_conflict(fault->body)),
    ensures
        reported(fault) == fault,
{
}

} // verus!
