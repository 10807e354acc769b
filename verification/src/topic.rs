//! The topic codec: composing outbound monitor topics and validating inbound
//! control topics.
//!
//! A topic is a path of exactly four segments separated by `/`:
//! `<prefix>/<scope>/<player-name>/<event-or-command>`. The scope is
//! `monitor` for what the player reports and `control` for what it is asked
//! to do. Nothing is escaped: a player name that holds a `/` yields a topic
//! with more than four segments, which the decoder rejects.

use vstd::prelude::*;
use crate::text::{free_of, join_with, same_text, split_limited, split_on, views_of};
use crate::text::{lemma_join_of_split, lemma_split_of_join};

verus! {

/// The character that separates the segments of a topic.
pub const SEPARATOR: char = '/';

/// Why an inbound topic was not accepted as a control topic.
#[derive(Debug, Clone, Copy, PartialEq, Eq, Structural)]
pub enum TopicError {
    /// The topic does not have exactly four segments.
    MalformedSegmentCount,
    /// The first segment is not the configured prefix.
    PrefixMismatch,
    /// The second segment is not `control`.
    UnexpectedScope,
}

/// What a valid control topic carries: whom it addresses and what it asks.
#[derive(Debug, Clone, PartialEq, Eq)]
pub struct ControlMessage {
    /// The third segment, as received.
    pub player_name: String,
    /// The fourth segment, as received; it need not be a known command.
    pub command: String,
}

/// The contents of a [`ControlMessage`] as character sequences.
pub struct ControlMessageView {
    pub player_name: Seq<char>,
    pub command: Seq<char>,
}

impl View for ControlMessage {
    type V = ControlMessageView;

    open spec fn view(&self) -> ControlMessageView {
        ControlMessageView { player_name: self.player_name@, command: self.command@ }
    }
}

/// The scope segment of outbound topics.
pub open spec fn monitor_scope() -> Seq<char> {
    "monitor"@
}

/// The scope segment of inbound topics.
pub open spec fn control_scope() -> Seq<char> {
    "control"@
}

/// `"{prefix}/monitor/{player_name}/{event}"`.
pub open spec fn monitor_topic(
    prefix: Seq<char>,
    player_name: Seq<char>,
    event: Seq<char>,
) -> Seq<char> {
    prefix + "/monitor/"@ + player_name + "/"@ + event
}

/// `"{prefix}/control/{player_name}/{command}"`.
pub open spec fn control_topic(
    prefix: Seq<char>,
    player_name: Seq<char>,
    command: Seq<char>,
) -> Seq<char> {
    prefix + "/control/"@ + player_name + "/"@ + command
}

/// `"{prefix}/control/#"`: every control topic of every player.
pub open spec fn control_filter_of(prefix: Seq<char>) -> Seq<char> {
    prefix + "/control/#"@
}

/// What decoding `raw` gives when `prefix` is the configured prefix.
///
/// The checks come in a fixed order, so a topic that fails several of them
/// is reported by the first: the number of segments, then the prefix, then
/// the scope.
pub open spec fn decode_control(raw: Seq<char>, prefix: Seq<char>) -> Result<
    ControlMessageView,
    TopicError,
> {
    let segments = split_on(raw, SEPARATOR);
    if segments.len() != 4 {
        Err(TopicError::MalformedSegmentCount)
    } else if segments[0] != prefix {
        Err(TopicError::PrefixMismatch)
    } else if segments[1] != control_scope() {
        Err(TopicError::UnexpectedScope)
    } else {
        Ok(ControlMessageView { player_name: segments[2], command: segments[3] })
    }
}

/// Composes the topic on which `event` of `player_name` is published.
pub fn encode_monitor_topic(prefix: &str, player_name: &str, event: &str) -> (topic: String)
    ensures
        topic@ == monitor_topic(prefix@, player_name@, event@),
{
    let mut topic = prefix.to_owned();
    topic.append("/monitor/");
    topic.append(player_name);
    topic.append("/");
    topic.append(event);
    topic
}

/// Composes the filter that subscribes to every control topic under `prefix`.
pub fn control_filter(prefix: &str) -> (filter: String)
    ensures
        filter@ == control_filter_of(prefix@),
{
    let mut filter = prefix.to_owned();
    filter.append("/control/#");
    filter
}

/// Validates an inbound topic against the configured `prefix` and takes the
/// player name and the command out of it.
pub fn decode_control_topic(raw: &str, prefix: &str) -> (decoded: Result<
    ControlMessage,
    TopicError,
>)
    ensures
        match decoded {
            Ok(message) => decode_control(raw@, prefix@) == Ok::<ControlMessageView, TopicError>(
                message@,
            ),
            Err(error) => decode_control(raw@, prefix@) == Err::<ControlMessageView, TopicError>(
                error,
            ),
        },
{
    let segments = match split_limited(raw, SEPARATOR, 4) {
        Some(segments) => segments,
        None => {
            return Err(TopicError::MalformedSegmentCount);
        },
    };
    proof {
        let views = views_of(segments@);
        assert(views.len() == segments@.len());
        assert(forall|i: int| 0 <= i < segments@.len() ==> views[i] == segments@[i]@);
    }
    if segments.len() != 4 {
        return Err(TopicError::MalformedSegmentCount);
    }
    if !same_text(segments[0].as_str(), prefix) {
        return Err(TopicError::PrefixMismatch);
    }
    if !same_text(segments[1].as_str(), "control") {
        return Err(TopicError::UnexpectedScope);
    }
    let player_name = segments[2].clone();
    let command = segments[3].clone();
    Ok(ControlMessage { player_name, command })
}

/// Decoding fails on exactly those topics that do not have four segments,
/// do not begin with the configured prefix, or do not have `control` as
/// their scope.
pub proof fn lemma_decode_fails_exactly(raw: Seq<char>, prefix: Seq<char>)
    ensures
        decode_control(raw, prefix) is Err <==> {
            ||| split_on(raw, SEPARATOR).len() != 4
            ||| split_on(raw, SEPARATOR)[0] != prefix
            ||| split_on(raw, SEPARATOR)[1] != control_scope()
        },
{
}

/// The four segments of a composed topic, given as a join.
proof fn lemma_topic_is_join(
    prefix: Seq<char>,
    scope: Seq<char>,
    player_name: Seq<char>,
    last: Seq<char>,
)
    ensures
        join_with(seq![prefix, scope, player_name, last], SEPARATOR) == prefix + seq![SEPARATOR]
            + scope + seq![SEPARATOR] + player_name + seq![SEPARATOR] + last,
{
    let four = seq![prefix, scope, player_name, last];
    let three = four.drop_last();
    let two = three.drop_last();
    let one = two.drop_last();
    assert(three =~= seq![prefix, scope, player_name]);
    assert(two =~= seq![prefix, scope]);
    assert(one =~= seq![prefix]);
    assert(join_with(one, SEPARATOR) == prefix);
    assert(join_with(two, SEPARATOR) == prefix + seq![SEPARATOR] + scope);
    assert(join_with(three, SEPARATOR) == prefix + seq![SEPARATOR] + scope + seq![SEPARATOR]
        + player_name);
}

/// Neither scope word holds a separator, and the literals that the codec
/// writes are the scope words between separators.
proof fn lemma_scope_literals()
    ensures
        free_of(monitor_scope(), SEPARATOR),
        free_of(control_scope(), SEPARATOR),
        "/monitor/"@ == seq![SEPARATOR] + monitor_scope() + seq![SEPARATOR],
        "/control/"@ == seq![SEPARATOR] + control_scope() + seq![SEPARATOR],
        "/"@ == seq![SEPARATOR],
        monitor_scope() != control_scope(),
{
    reveal_strlit("monitor");
    reveal_strlit("control");
    reveal_strlit("/monitor/");
    reveal_strlit("/control/");
    reveal_strlit("/");
    assert("/monitor/"@ =~= seq![SEPARATOR] + monitor_scope() + seq![SEPARATOR]);
    assert("/control/"@ =~= seq![SEPARATOR] + control_scope() + seq![SEPARATOR]);
    assert("/"@ =~= seq![SEPARATOR]);
    assert(monitor_scope()[0] != control_scope()[0]);
}

/// A monitor topic composed from parts without `/` splits into exactly the
/// prefix, the word `monitor`, the player name and the event: the name and
/// the scope can be read back from the topic.
pub proof fn lemma_monitor_topic_segments(
    prefix: Seq<char>,
    player_name: Seq<char>,
    event: Seq<char>,
)
    requires
        free_of(prefix, SEPARATOR),
        free_of(player_name, SEPARATOR),
        free_of(event, SEPARATOR),
    ensures
        split_on(monitor_topic(prefix, player_name, event), SEPARATOR) == seq![
            prefix,
            monitor_scope(),
            player_name,
            event,
        ],
{
    lemma_scope_literals();
    let segments = seq![prefix, monitor_scope(), player_name, event];
    lemma_topic_is_join(prefix, monitor_scope(), player_name, event);
    assert(monitor_topic(prefix, player_name, event) =~= join_with(segments, SEPARATOR));
    lemma_split_of_join(segments, SEPARATOR);
}

/// A control topic composed from the configured prefix, a player name and a
/// command, none of which holds a `/`, decodes to exactly that name and that
/// command.
pub proof fn lemma_decode_composed(prefix: Seq<char>, player_name: Seq<char>, command: Seq<char>)
    requires
        free_of(prefix, SEPARATOR),
        free_of(player_name, SEPARATOR),
        free_of(command, SEPARATOR),
    ensures
        decode_control(control_topic(prefix, player_name, command), prefix) == Ok::<
            ControlMessageView,
            TopicError,
        >(ControlMessageView { player_name, command }),
{
    lemma_scope_literals();
    let segments = seq![prefix, control_scope(), player_name, command];
    lemma_topic_is_join(prefix, control_scope(), player_name, command);
    assert(control_topic(prefix, player_name, command) =~= join_with(segments, SEPARATOR));
    lemma_split_of_join(segments, SEPARATOR);
}

/// Whatever decodes was composed as a control topic: an accepted topic is
/// the configured prefix, `control`, the decoded name and the decoded
/// command, joined by `/`, and neither the name nor the command holds a `/`.
pub proof fn lemma_decoded_was_composed(raw: Seq<char>, prefix: Seq<char>)
    requires
        decode_control(raw, prefix) is Ok,
    ensures
        raw == control_topic(
            prefix,
            decode_control(raw, prefix)->Ok_0.player_name,
            decode_control(raw, prefix)->Ok_0.command,
        ),
        free_of(prefix, SEPARATOR),
        free_of(decode_control(raw, prefix)->Ok_0.player_name, SEPARATOR),
        free_of(decode_control(raw, prefix)->Ok_0.command, SEPARATOR),
{
    lemma_scope_literals();
    lemma_join_of_split(raw, SEPARATOR);
    let segments = split_on(raw, SEPARATOR);
    assert(segments =~= seq![segments[0], segments[1], segments[2], segments[3]]);
    lemma_topic_is_join(segments[0], segments[1], segments[2], segments[3]);
    assert(raw =~= control_topic(prefix, segments[2], segments[3]));
    assert(free_of(segments[0], SEPARATOR));
    assert(free_of(segments[2], SEPARATOR));
    assert(free_of(segments[3], SEPARATOR));
}

} // verus!
