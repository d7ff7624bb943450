//! The topic namespace of the fabric, and key expressions.
//!
//! Topics are `/`-separated. A key expression is a topic that may hold the
//! wildcards `*` (one segment) and `**` (any number of segments); two key
//! expressions intersect when some topic matches both. Which text is a key
//! expression and which two intersect is decided by `zenoh`.
use crate::error::FabricError;
use crate::text::{
    find_slash, lemma_segments_cut, lemma_segments_nonempty, lemma_segments_single, segments,
    split_segments,
};
use vstd::prelude::*;
use vstd::string::*;
use zenoh::key_expr::keyexpr;

verus! {

/// Whether `zenoh` takes `text` for a key expression in canonical form.
pub uninterp spec fn key_expr_valid(text: Seq<char>) -> bool;

/// Whether the key expressions `left` and `right` intersect, as `zenoh`
/// decides it. Meaningful only where both are valid.
pub uninterp spec fn key_expr_intersects(left: Seq<char>, right: Seq<char>) -> bool;

/// `zenoh::key_expr::keyexpr::new`: accepts `text` exactly where it is a key
/// expression in canonical form, and otherwise says in words what is wrong
/// with it.
#[verifier::external_body]
pub(crate) fn check_key_expr(text: &str) -> (checked: Result<(), String>)
    ensures
        checked is Ok <==> key_expr_valid(text@),
{
    keyexpr::new(text).map(|_| ()).map_err(|e| e.to_string())
}

/// `zenoh::key_expr::keyexpr::intersects`, on two texts that are key
/// expressions.
#[verifier::external_body]
pub(crate) fn intersects(left: &str, right: &str) -> (hit: bool)
    requires
        key_expr_valid(left@),
        key_expr_valid(right@),
    ensures
        hit == key_expr_intersects(left@, right@),
{
    match (keyexpr::new(left), keyexpr::new(right)) {
        (Ok(a), Ok(b)) => a.intersects(b),
        _ => false,
    }
}

/// Whether a sample published on `key` reaches a subscription declared on
/// `pattern`: both are key expressions and they intersect.
pub open spec fn reaches(pattern: Seq<char>, key: Seq<char>) -> bool {
    key_expr_valid(pattern) && key_expr_valid(key) && key_expr_intersects(pattern, key)
}

/// Checks that `text` is a key expression; the error says what is wrong.
pub fn validate_key_expr(text: &str) -> (checked: Result<(), FabricError>)
    ensures
        checked is Ok <==> key_expr_valid(text@),
        checked matches Err(e) ==> e is ZenohError,
{
    match check_key_expr(text) {
        Ok(()) => Ok(()),
        Err(reason) => Err(FabricError::ZenohError(reason)),
    }
}

/// Whether `text` is a key expression.
pub fn is_key_expr(text: &str) -> (valid: bool)
    ensures
        valid == key_expr_valid(text@),
{
    check_key_expr(text).is_ok()
}

/// Whether a sample published on `key` reaches a subscription on `pattern`.
pub fn key_exprs_intersect(pattern: &str, key: &str) -> (hit: bool)
    ensures
        hit == reaches(pattern@, key@),
{
    if is_key_expr(pattern) && is_key_expr(key) {
        intersects(pattern, key)
    } else {
        false
    }
}

/// The glob on which every node's heartbeat is heard.
pub open spec fn status_glob() -> Seq<char> {
    "fabric/*/status"@
}

/// `node/<node_id>/config`: where a node hears its configuration.
pub open spec fn config_topic(node_id: Seq<char>) -> Seq<char> {
    "node/"@ + node_id + "/config"@
}

/// `node/<node_id>/data`: where a node publishes telemetry.
pub open spec fn data_topic(node_id: Seq<char>) -> Seq<char> {
    "node/"@ + node_id + "/data"@
}

/// `node/<node_id>/event/<event>`: where a node hears the event `event`.
pub open spec fn event_topic(node_id: Seq<char>, event: Seq<char>) -> Seq<char> {
    "node/"@ + node_id + "/event/"@ + event
}

/// `fabric/<node_id>/status`: where a node publishes its heartbeat.
pub open spec fn status_topic(node_id: Seq<char>) -> Seq<char> {
    "fabric/"@ + node_id + "/status"@
}

/// `node/<node_id>/status`: where a node is asked for its status.
pub open spec fn health_topic(node_id: Seq<char>) -> Seq<char> {
    "node/"@ + node_id + "/status"@
}

/// `fabric/<node_id>/config`: where a bare configuration value is pushed.
pub open spec fn fabric_config_topic(node_id: Seq<char>) -> Seq<char> {
    "fabric/"@ + node_id + "/config"@
}

/// The node a status key speaks of: its second segment, or `unknown` where it
/// has none.
pub open spec fn status_key_node(key: Seq<char>) -> Seq<char> {
    if segments(key).len() >= 2 {
        segments(key)[1]
    } else {
        "unknown"@
    }
}

/// The event an event key names: its last segment.
pub open spec fn event_key_name(key: Seq<char>) -> Seq<char> {
    segments(key).last()
}

/// Whether `s` holds no `/`.
pub open spec fn slash_free(s: Seq<char>) -> bool {
    forall|k: int| 0 <= k < s.len() ==> s[k] != '/'
}

fn join3(head: &str, middle: &str, tail: &str) -> (joined: String)
    ensures
        joined@ == head@ + middle@ + tail@,
{
    let mut joined = String::from_str(head);
    joined.append(middle);
    joined.append(tail);
    joined
}

/// The glob on which every node's heartbeat is heard: `fabric/*/status`.
pub fn status_subscription() -> (glob: String)
    ensures
        glob@ == status_glob(),
{
    String::from_str("fabric/*/status")
}

/// Builds `node/<node_id>/config`.
pub fn node_config_topic(node_id: &str) -> (topic: String)
    ensures
        topic@ == config_topic(node_id@),
{
    join3("node/", node_id, "/config")
}

/// Builds `node/<node_id>/data`.
pub fn node_data_topic(node_id: &str) -> (topic: String)
    ensures
        topic@ == data_topic(node_id@),
{
    join3("node/", node_id, "/data")
}

/// Builds `node/<node_id>/event/<event>`; with `*` for the event it is the
/// glob on which a node hears all of its events.
pub fn node_event_topic(node_id: &str, event: &str) -> (topic: String)
    ensures
        topic@ == event_topic(node_id@, event@),
{
    let mut topic = join3("node/", node_id, "/event/");
    topic.append(event);
    topic
}

/// Builds `fabric/<node_id>/status`.
pub fn node_status_topic(node_id: &str) -> (topic: String)
    ensures
        topic@ == status_topic(node_id@),
{
    join3("fabric/", node_id, "/status")
}

/// Builds `node/<node_id>/status`.
pub fn node_health_topic(node_id: &str) -> (topic: String)
    ensures
        topic@ == health_topic(node_id@),
{
    join3("node/", node_id, "/status")
}

/// Builds `fabric/<node_id>/config`.
pub fn node_fabric_config_topic(node_id: &str) -> (topic: String)
    ensures
        topic@ == fabric_config_topic(node_id@),
{
    join3("fabric/", node_id, "/config")
}

/// Reads, from the key a heartbeat arrived on, which node sent it.
pub fn node_id_from_status_key(key: &str) -> (node_id: String)
    ensures
        node_id@ == status_key_node(key@),
{
    let pieces = split_segments(key);
    assert(pieces@.map_values(|p: String| p@).len() == pieces@.len());
    if pieces.len() >= 2 {
        assert(pieces@.map_values(|p: String| p@)[1] == pieces@[1]@);
        pieces[1].clone()
    } else {
        String::from_str("unknown")
    }
}

/// Reads, from the key an event arrived on, the name of the event.
pub fn event_name_from_key(key: &str) -> (event: String)
    ensures
        event@ == event_key_name(key@),
{
    let pieces = split_segments(key);
    proof {
        lemma_segments_nonempty(key@);
        assert(pieces@.map_values(|p: String| p@).len() == pieces@.len());
        assert(pieces@.map_values(|p: String| p@)[pieces@.len() - 1] == pieces@[pieces@.len()
            - 1]@);
    }
    pieces[pieces.len() - 1].clone()
}

/// The segments of `head/rest`, where `head` holds no `/`, are `head` followed
/// by the segments of `rest`.
pub proof fn lemma_segments_prepend(head: Seq<char>, rest: Seq<char>)
    requires
        slash_free(head),
    ensures
        segments(head + "/"@ + rest) == seq![head] + segments(rest),
{
    reveal_strlit("/");
    let whole = head + "/"@ + rest;
    let cut = head.len() as int;
    assert forall|k: int| 0 <= k < cut implies whole[k] != '/' by {
        assert(whole[k] == head[k]);
    }
    assert(whole[cut] == '/');
    lemma_segments_cut(whole, cut);
    assert(whole.take(cut) =~= head);
    assert(whole.skip(cut + 1) =~= rest);
}

/// The last segment of `front/name`, where `name` holds no `/`, is `name`.
pub proof fn lemma_last_segment(front: Seq<char>, name: Seq<char>)
    requires
        slash_free(name),
    ensures
        segments(front + "/"@ + name).last() == name,
    decreases front.len(),
{
    reveal_strlit("/");
    let whole = front + "/"@ + name;
    let cut = find_slash(front);
    if 0 <= cut < front.len() {
        lemma_find_slash_is_slash(front);
        assert forall|k: int| 0 <= k < cut implies whole[k] != '/' by {
            assert(whole[k] == front[k]);
        }
        assert(whole[cut] == front[cut]);
        lemma_segments_cut(whole, cut);
        let after = front.skip(cut + 1);
        assert(whole.skip(cut + 1) =~= after + "/"@ + name);
        lemma_last_segment(after, name);
        lemma_segments_nonempty(after + "/"@ + name);
    } else {
        lemma_find_slash_is_slash(front);
        assert(slash_free(front));
        lemma_segments_prepend(front, name);
        lemma_segments_single(name);
    }
}

/// `find_slash` lies within the string or at its end; before it stands no `/`,
/// and at it, if it is within, one does.
pub proof fn lemma_find_slash_is_slash(s: Seq<char>)
    ensures
        0 <= find_slash(s) <= s.len(),
        forall|k: int| 0 <= k < find_slash(s) ==> s[k] != '/',
        find_slash(s) < s.len() ==> s[find_slash(s)] == '/',
    decreases s.len(),
{
    if s.len() == 0 {
    } else if s[0] == '/' {
    } else {
        let rest = s.drop_first();
        lemma_find_slash_is_slash(rest);
        assert forall|k: int| 0 <= k < find_slash(s) implies s[k] != '/' by {
            if k > 0 {
                assert(s[k] == rest[k - 1]);
            }
        }
        if find_slash(s) < s.len() {
            assert(s[find_slash(s)] == rest[find_slash(rest)]);
        }
    }
}

/// The key a node publishes its heartbeat on names that node: an orchestrator
/// that reads the node id back from `fabric/<node_id>/status` finds `node_id`,
/// for every id that holds no `/`.
pub proof fn lemma_status_key_names_its_node(node_id: Seq<char>)
    requires
        slash_free(node_id),
    ensures
        status_key_node(status_topic(node_id)) == node_id,
{
    reveal_strlit("fabric/");
    reveal_strlit("/status");
    reveal_strlit("fabric");
    reveal_strlit("status");
    reveal_strlit("/");
    let topic = status_topic(node_id);
    assert(topic =~= "fabric"@ + "/"@ + (node_id + "/"@ + "status"@));
    assert(slash_free("fabric"@));
    lemma_segments_prepend("fabric"@, node_id + "/"@ + "status"@);
    lemma_segments_prepend(node_id, "status"@);
    lemma_segments_nonempty("status"@);
}

/// The key an event is published on names that event: a node that reads the
/// name back from `node/<node_id>/event/<event>` finds `event`, for every
/// event name that holds no `/`.
pub proof fn lemma_event_key_names_its_event(node_id: Seq<char>, event: Seq<char>)
    requires
        slash_free(event),
    ensures
        event_key_name(event_topic(node_id, event)) == event,
{
    reveal_strlit("node/");
    reveal_strlit("/event/");
    reveal_strlit("/event");
    reveal_strlit("/");
    let front = "node/"@ + node_id + "/event"@;
    assert(event_topic(node_id, event) =~= front + "/"@ + event);
    lemma_last_segment(front, event);
}

} // verus!
