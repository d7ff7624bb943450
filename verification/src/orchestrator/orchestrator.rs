//! The agent core of a controller.
use super::{NodeState, NodeStateView};
use crate::clock::now_or_epoch;
use crate::endpoints::{reached_slots, Endpoints, Outgoing, Publisher, Put, Subscriber};
use crate::error::FabricError;
use crate::node::interface::{
    canonical_json, canonical_json_text, decode_node_data, encode_node_config, NodeConfig,
    NodeData, NodeDataView,
};
use crate::registry::{
    assoc, lemma_assoc_entries, lemma_assoc_push, lemma_assoc_update, lemma_slot_of_found,
    slot_of, Registry,
};
use crate::retry::{ConfigPush, PushKind};
use crate::text::{same_text, utf8_text};
use crate::topic::{
    config_topic, data_topic, fabric_config_topic, key_expr_valid, node_config_topic,
    node_data_topic, node_fabric_config_topic, node_id_from_status_key, status_glob,
    status_key_node, status_subscription,
};
use vstd::prelude::*;
use vstd::string::*;
use vstd::utf8::{encode_utf8, valid_utf8};

verus! {

/// The age of the last heartbeat, in nanoseconds, beyond which a node that
/// was online counts as offline: ten seconds.
pub const STALENESS_THRESHOLD_NANOS: u128 = 10_000_000_000;

/// The milliseconds between two staleness checks.
pub const STALENESS_CHECK_PERIOD_MILLIS: u64 = 1000;

/// A change of what the orchestrator holds of a node: the envelope it now
/// holds, and whether a callback is registered for the node and is to be
/// called with it.
#[derive(Debug, PartialEq, Eq)]
pub struct StatusChange {
    pub node_id: String,
    pub data: NodeData,
    pub notify: bool,
}

/// A [`StatusChange`] in contracts.
pub struct StatusChangeView {
    pub node_id: Seq<char>,
    pub data: NodeDataView,
    pub notify: bool,
}

impl View for StatusChange {
    type V = StatusChangeView;

    open spec fn view(&self) -> StatusChangeView {
        StatusChangeView { node_id: self.node_id@, data: self.data@, notify: self.notify }
    }
}

impl StatusChange {
    /// Whether the envelope says anything but `online`, which is worth a
    /// warning in the log.
    pub fn calls_for_warning(&self) -> (warn: bool)
        ensures
            warn == (self@.data.status != "online"@),
    {
        !same_text(self.data.status.as_str(), "online")
    }
}

/// What came back when a node was asked for its status.
pub enum HealthReply {
    /// A sample with these bytes.
    Sample(Vec<u8>),
    /// A reply without a sample.
    NoSample,
    /// Receiving the reply failed.
    ReceiveFailed,
    /// The query itself failed.
    QueryFailed,
}

/// What happened on the bus, on a timer or at the cancellation signal, for
/// the run loop of an orchestrator to react to.
pub enum OrchestratorEvent {
    /// The cancellation signal fired.
    Cancelled,
    /// A heartbeat arrived at `now`.
    Status { key_expr: String, payload: Vec<u8>, now: u128 },
    /// The staleness timer ticked at `now`.
    StalenessCheckDue { now: u128 },
    /// A sample arrived for the orchestrator's subscribers.
    Sample { key_expr: String },
    /// The session with the bus is lost.
    SessionLost { reason: String },
}

/// What the run loop is to do after an event.
pub enum OrchestratorAction {
    /// Leave the loop.
    Stop,
    /// Leave the loop and report the error.
    Fail(FabricError),
    /// For each change that says so, call the node's callback with the
    /// envelope.
    Notify(Vec<StatusChange>),
    /// Call the callbacks of the subscribers at these positions.
    Deliver(Vec<usize>),
    /// Log the error as a warning and go on.
    Discard(FabricError),
}

/// The envelope `data` with its status set to `status`.
pub open spec fn with_status(data: NodeDataView, status: Seq<char>) -> NodeDataView {
    NodeDataView { status, ..data }
}

/// Whether a node counts as gone at `now`: it is held as online and its last
/// heartbeat is more than the staleness threshold old.
pub open spec fn is_stale(state: NodeStateView, now: u128) -> bool {
    &&& state.last_value.status == "online"@
    &&& now >= state.last_update
    &&& now - state.last_update > STALENESS_THRESHOLD_NANOS
}

/// What is held of a node after a staleness check at `now`: a stale node goes
/// offline, nothing else changes.
pub open spec fn after_check(state: NodeStateView, now: u128) -> NodeStateView {
    if is_stale(state, now) {
        NodeStateView {
            last_value: with_status(state.last_value, "offline"@),
            last_update: state.last_update,
        }
    } else {
        state
    }
}

/// The changes that a staleness check at `now` reports: one for each stale
/// node, in the order of the nodes.
pub open spec fn offline_changes(
    ids: Seq<Seq<char>>,
    states: Seq<NodeStateView>,
    callbacks: Set<Seq<char>>,
    now: u128,
) -> Seq<StatusChangeView>
    decreases ids.len(),
{
    if ids.len() == 0 || states.len() != ids.len() {
        Seq::empty()
    } else if is_stale(states.last(), now) {
        offline_changes(ids.drop_last(), states.drop_last(), callbacks, now).push(
            StatusChangeView {
                node_id: ids.last(),
                data: with_status(states.last().last_value, "offline"@),
                notify: callbacks.contains(ids.last()),
            },
        )
    } else {
        offline_changes(ids.drop_last(), states.drop_last(), callbacks, now)
    }
}

/// What is held of a node after it was asked for its status and answered
/// with `reply`. A sample that holds a status envelope replaces the envelope
/// held, with any status but `online` taken for `offline`; a sample that
/// holds no envelope is passed over; anything else leaves the node
/// `unknown`. When the node was last heard does not change.
pub open spec fn after_reply(state: NodeStateView, reply: HealthReply) -> NodeStateView {
    match reply {
        HealthReply::Sample(bytes) => if !valid_utf8(bytes@) {
            NodeStateView { last_value: with_status(state.last_value, "unknown"@), ..state }
        } else {
            match decode_node_data(bytes@) {
                Some(data) => NodeStateView {
                    last_value: if data.status == "online"@ {
                        data
                    } else {
                        with_status(data, "offline"@)
                    },
                    last_update: state.last_update,
                },
                None => state,
            }
        },
        _ => NodeStateView { last_value: with_status(state.last_value, "unknown"@), ..state },
    }
}

/// Whether going from `before` to `after` is a transition to offline or
/// unknown, for which the node's callback is called.
pub open spec fn calls_for_notice(before: NodeStateView, after: NodeStateView) -> bool {
    &&& after.last_value.status == "offline"@ || after.last_value.status == "unknown"@
    &&& before.last_value.status != after.last_value.status
}

/// The states as contracts speak of them.
pub open spec fn state_views(states: Seq<NodeState>) -> Seq<NodeStateView> {
    states.map_values(|s: NodeState| s@)
}

/// What inserting into the node registry does to the map of node states.
proof fn lemma_states_after_insert(
    keys_before: Seq<Seq<char>>,
    values_before: Seq<NodeState>,
    keys_after: Seq<Seq<char>>,
    values_after: Seq<NodeState>,
    key: Seq<char>,
    value: NodeState,
)
    requires
        keys_before.no_duplicates(),
        keys_before.len() == values_before.len(),
        match slot_of(keys_before, key) {
            Some(i) => keys_after == keys_before && values_after == values_before.update(i, value),
            None => keys_after == keys_before.push(key) && values_after == values_before.push(
                value,
            ),
        },
    ensures
        assoc(keys_after, state_views(values_after)) == assoc(
            keys_before,
            state_views(values_before),
        ).insert(key, value@),
{
    match slot_of(keys_before, key) {
        Some(i) => {
            lemma_slot_of_found(keys_before, key);
            assert(state_views(values_after) =~= state_views(values_before).update(i, value@));
            lemma_assoc_update(keys_before, state_views(values_before), i, value@);
        },
        None => {
            assert(state_views(values_after) =~= state_views(values_before).push(value@));
            lemma_assoc_push(keys_before, state_views(values_before), key, value@);
        },
    }
}

/// A controller agent: the states of the nodes it has heard of, the
/// callbacks (`N`) registered per node, and its own publishers (handles `P`)
/// and subscribers (callbacks `C`, handles `S`).
pub struct Orchestrator<P, C, S, N> {
    id: String,
    nodes: Registry<NodeState>,
    callbacks: Registry<N>,
    endpoints: Endpoints<P, C, S>,
    status_subscriber: Option<S>,
    running: bool,
}

impl<P, C, S, N> Orchestrator<P, C, S, N> {
    /// The id of the orchestrator.
    pub closed spec fn id(&self) -> Seq<char> {
        self.id@
    }

    /// The ids of the nodes heard of, in the order they were first heard.
    pub closed spec fn node_ids(&self) -> Seq<Seq<char>> {
        self.nodes.keys()
    }

    /// What is held of each node, at the position of its id.
    pub closed spec fn node_states(&self) -> Seq<NodeStateView> {
        state_views(self.nodes.values())
    }

    /// What is held of each node, by node id.
    pub open spec fn nodes(&self) -> Map<Seq<char>, NodeStateView> {
        assoc(self.node_ids(), self.node_states())
    }

    /// The callbacks by node id.
    pub closed spec fn callbacks(&self) -> Map<Seq<char>, N> {
        self.callbacks.map()
    }

    /// The publishers and subscribers.
    pub closed spec fn endpoints(&self) -> Endpoints<P, C, S> {
        self.endpoints
    }

    /// The handle of the subscription on all heartbeats, while there is one.
    pub closed spec fn status_subscriber(&self) -> Option<S> {
        self.status_subscriber
    }

    /// Whether the run loop has started and has not been cancelled.
    pub closed spec fn running(&self) -> bool {
        self.running
    }

    /// The registries are in order.
    pub closed spec fn wf(&self) -> bool {
        &&& self.nodes.wf()
        &&& self.callbacks.wf()
        &&& self.endpoints.wf()
    }

    /// Nothing but the node states differs between `self` and `other`.
    pub open spec fn same_but_nodes(&self, other: &Self) -> bool {
        &&& self.id() == other.id()
        &&& self.callbacks() == other.callbacks()
        &&& self.endpoints() == other.endpoints()
        &&& self.status_subscriber() == other.status_subscriber()
        &&& self.running() == other.running()
    }

    /// Nothing but the endpoints differs between `self` and `other`.
    pub open spec fn same_but_endpoints(&self, other: &Self) -> bool {
        &&& self.id() == other.id()
        &&& self.callbacks() == other.callbacks()
        &&& self.node_ids() == other.node_ids()
        &&& self.node_states() == other.node_states()
        &&& self.status_subscriber() == other.status_subscriber()
        &&& self.running() == other.running()
    }

    /// What holds of every well-formed orchestrator: each node id has its
    /// state, and no id occurs twice.
    pub proof fn lemma_wf(&self)
        requires
            self.wf(),
        ensures
            self.endpoints().wf(),
            self.node_ids().len() == self.node_states().len(),
            self.node_ids().no_duplicates(),
            forall|i: int|
                0 <= i < self.node_ids().len() ==> self.nodes().contains_key(
                    #[trigger] self.node_ids()[i],
                ),
            forall|i: int|
                0 <= i < self.node_ids().len() ==> self.nodes()[#[trigger] self.node_ids()[i]]
                    == self.node_states()[i],
            forall|id: Seq<char>| #[trigger]
                self.nodes().contains_key(id) <==> self.node_ids().contains(id),
    {
        lemma_assoc_entries(self.node_ids(), self.node_states());
    }

    /// An orchestrator that has heard of no node and has nothing registered
    /// or declared; its run loop is not started.
    pub fn new(id: String) -> (made: Result<Self, FabricError>)
        ensures
            made matches Ok(orchestrator) && {
                &&& orchestrator.wf()
                &&& orchestrator.id() == id@
                &&& orchestrator.node_ids().len() == 0
                &&& orchestrator.nodes() == Map::<Seq<char>, NodeStateView>::empty()
                &&& orchestrator.callbacks() == Map::<Seq<char>, N>::empty()
                &&& orchestrator.status_subscriber() is None
                &&& !orchestrator.running()
                &&& orchestrator.endpoints().publisher_topics().len() == 0
                &&& orchestrator.endpoints().subscriber_topics().len() == 0
            },
    {
        let orchestrator = Orchestrator {
            id,
            nodes: Registry::new(),
            callbacks: Registry::new(),
            endpoints: Endpoints::new(),
            status_subscriber: None,
            running: false,
        };
        assert(orchestrator.nodes() =~= Map::<Seq<char>, NodeStateView>::empty());
        Ok(orchestrator)
    }

    /// The id of the orchestrator.
    pub fn get_id(&self) -> (id: &str)
        ensures
            id@ == self.id(),
    {
        self.id.as_str()
    }

    /// Whether the run loop has started and has not been cancelled.
    pub fn is_running(&self) -> (running: bool)
        ensures
            running == self.running(),
    {
        self.running
    }

    /// Keeps the handle of the subscription on `fabric/*/status`, in the
    /// place of any that was kept.
    pub fn subscribe_to_node_statuses(&mut self, handle: S) -> (done: Result<(), FabricError>)
        requires
            old(self).wf(),
        ensures
            final(self).wf(),
            done is Ok,
            final(self).status_subscriber() == Some(handle),
            final(self).id() == old(self).id(),
            final(self).node_ids() == old(self).node_ids(),
            final(self).node_states() == old(self).node_states(),
            final(self).callbacks() == old(self).callbacks(),
            final(self).endpoints() == old(self).endpoints(),
            final(self).running() == old(self).running(),
    {
        self.status_subscriber = Some(handle);
        Ok(())
    }

    /// Gives up the handle of the subscription on all heartbeats, for it to
    /// be undeclared; `None` where there was none.
    pub fn unsubscribe_from_node_statuses(&mut self) -> (handle: Result<Option<S>, FabricError>)
        requires
            old(self).wf(),
        ensures
            final(self).wf(),
            handle == Ok::<Option<S>, FabricError>(old(self).status_subscriber()),
            final(self).status_subscriber() is None,
            final(self).id() == old(self).id(),
            final(self).node_ids() == old(self).node_ids(),
            final(self).node_states() == old(self).node_states(),
            final(self).callbacks() == old(self).callbacks(),
            final(self).endpoints() == old(self).endpoints(),
            final(self).running() == old(self).running(),
    {
        let mut handle: Option<S> = None;
        core::mem::swap(&mut self.status_subscriber, &mut handle);
        Ok(handle)
    }

    /// Registers `callback` to be called whenever what is held of `node_id`
    /// changes, in the place of any callback registered for it before.
    pub fn register_callback(&mut self, node_id: &str, callback: N) -> (done: Result<
        (),
        FabricError,
    >)
        requires
            old(self).wf(),
        ensures
            final(self).wf(),
            done is Ok,
            final(self).callbacks() == old(self).callbacks().insert(node_id@, callback),
            final(self).id() == old(self).id(),
            final(self).node_ids() == old(self).node_ids(),
            final(self).node_states() == old(self).node_states(),
            final(self).endpoints() == old(self).endpoints(),
            final(self).status_subscriber() == old(self).status_subscriber(),
            final(self).running() == old(self).running(),
    {
        self.callbacks.insert(node_id.to_owned(), callback);
        Ok(())
    }

    /// The callback registered for `node_id`, if there is one.
    pub fn callback(&self, node_id: &str) -> (found: Option<&N>)
        requires
            self.wf(),
        ensures
            match found {
                Some(callback) => self.callbacks().contains_key(node_id@) && *callback
                    == self.callbacks()[node_id@],
                None => !self.callbacks().contains_key(node_id@),
            },
    {
        self.callbacks.get(node_id)
    }

    /// What is held of `node_id`, if it was ever heard of.
    pub fn node(&self, node_id: &str) -> (found: Option<&NodeState>)
        requires
            self.wf(),
        ensures
            match found {
                Some(state) => self.nodes().contains_key(node_id@) && state@
                    == self.nodes()[node_id@],
                None => !self.nodes().contains_key(node_id@),
            },
    {
        proof {
            lemma_assoc_entries(self.node_ids(), self.node_states());
        }
        match self.nodes.position(node_id) {
            Some(i) => {
                proof {
                    lemma_slot_of_found(self.node_ids(), node_id@);
                }
                Some(self.nodes.value_at(i))
            },
            None => None,
        }
    }

    /// A copy of what is held of every node, each with its id, in the order
    /// the nodes were first heard.
    pub fn get_nodes(&self) -> (snapshot: Vec<(String, NodeState)>)
        requires
            self.wf(),
        ensures
            snapshot.len() == self.node_ids().len(),
            forall|i: int|
                0 <= i < snapshot.len() ==> (#[trigger] snapshot[i]).0@ == self.node_ids()[i]
                    && snapshot[i].1@ == self.node_states()[i],
    {
        let mut snapshot: Vec<(String, NodeState)> = Vec::new();
        let mut at: usize = 0;
        while at < self.nodes.len()
            invariant
                self.wf(),
                0 <= at <= self.node_ids().len(),
                snapshot.len() == at,
                forall|i: int|
                    0 <= i < at ==> (#[trigger] snapshot[i]).0@ == self.node_ids()[i]
                        && snapshot[i].1@ == self.node_states()[i],
            decreases self.node_ids().len() - at,
        {
            let id = self.nodes.key_at(at).clone();
            let state = self.nodes.value_at(at).clone();
            snapshot.push((id, state));
            at = at + 1;
        }
        snapshot
    }

    /// Takes `node_data` as what is now held of its node, heard at `now`,
    /// whether or not the node was known. The change says whether a callback
    /// is registered for the node.
    pub fn update_node_state_at(&mut self, node_data: NodeData, now: u128) -> (change: StatusChange)
        requires
            old(self).wf(),
        ensures
            final(self).wf(),
            final(self).same_but_nodes(old(self)),
            final(self).nodes() == old(self).nodes().insert(
                node_data@.node_id,
                (NodeStateView { last_value: node_data@, last_update: now }),
            ),
            change@ == (StatusChangeView {
                node_id: node_data@.node_id,
                data: node_data@,
                notify: old(self).callbacks().contains_key(node_data@.node_id),
            }),
    {
        let node_id = node_data.node_id.clone();
        let notify = self.callbacks.contains_key(node_id.as_str());
        let state = NodeState::at(node_data.clone(), now);
        let ghost keys_before = self.nodes.keys();
        let ghost values_before = self.nodes.values();
        self.nodes.insert(node_id.clone(), state);
        proof {
            lemma_states_after_insert(
                keys_before,
                values_before,
                self.nodes.keys(),
                self.nodes.values(),
                node_id@,
                state,
            );
        }
        StatusChange { node_id, data: node_data, notify }
    }

    /// Takes `node_data` as what is now held of its node, heard now by the
    /// clock.
    pub fn update_node_state(&mut self, node_data: NodeData) -> (change: StatusChange)
        requires
            old(self).wf(),
        ensures
            final(self).wf(),
            final(self).same_but_nodes(old(self)),
            exists|now: u128|
                final(self).nodes() == old(self).nodes().insert(
                    node_data@.node_id,
                    (NodeStateView { last_value: node_data@, last_update: now }),
                ),
            change@ == (StatusChangeView {
                node_id: node_data@.node_id,
                data: node_data@,
                notify: old(self).callbacks().contains_key(node_data@.node_id),
            }),
    {
        let now = now_or_epoch();
        self.update_node_state_at(node_data, now)
    }

    /// Takes a heartbeat that arrived on `key_expr` at `now`. Where the
    /// payload holds a status envelope, it becomes what is held of the node
    /// that the key names, heard at `now`; else nothing changes and the
    /// error is handed back to be logged.
    pub fn update_node_health_at(&mut self, key_expr: &str, payload: &[u8], now: u128) -> (seen:
        Result<StatusChange, FabricError>)
        requires
            old(self).wf(),
        ensures
            final(self).wf(),
            final(self).same_but_nodes(old(self)),
            match decode_node_data(payload@) {
                Some(data) => {
                    &&& seen matches Ok(change)
                    &&& change@ == (StatusChangeView {
                        node_id: status_key_node(key_expr@),
                        data,
                        notify: old(self).callbacks().contains_key(status_key_node(key_expr@)),
                    })
                    &&& final(self).nodes() == old(self).nodes().insert(
                        status_key_node(key_expr@),
                        (NodeStateView { last_value: data, last_update: now }),
                    )
                },
                None => {
                    &&& seen matches Err(e)
                    &&& e is SerdeJsonError
                    &&& final(self).node_ids() == old(self).node_ids()
                    &&& final(self).node_states() == old(self).node_states()
                },
            },
    {
        match NodeData::from_slice(payload) {
            Err(e) => Err(e),
            Ok(data) => {
                let node_id = node_id_from_status_key(key_expr);
                let notify = self.callbacks.contains_key(node_id.as_str());
                let state = NodeState::at(data.clone(), now);
                let ghost keys_before = self.nodes.keys();
                let ghost values_before = self.nodes.values();
                self.nodes.insert(node_id.clone(), state);
                proof {
                    lemma_states_after_insert(
                        keys_before,
                        values_before,
                        self.nodes.keys(),
                        self.nodes.values(),
                        node_id@,
                        state,
                    );
                }
                Ok(StatusChange { node_id, data, notify })
            },
        }
    }

    /// Takes a heartbeat that arrived on `key_expr` now, by the clock.
    pub fn update_node_health(&mut self, key_expr: &str, payload: &[u8]) -> (seen: Result<
        StatusChange,
        FabricError,
    >)
        requires
            old(self).wf(),
        ensures
            final(self).wf(),
            final(self).same_but_nodes(old(self)),
            match decode_node_data(payload@) {
                Some(data) => {
                    &&& seen matches Ok(change)
                    &&& change@ == (StatusChangeView {
                        node_id: status_key_node(key_expr@),
                        data,
                        notify: old(self).callbacks().contains_key(status_key_node(key_expr@)),
                    })
                    &&& exists|now: u128|
                        final(self).nodes() == old(self).nodes().insert(
                            status_key_node(key_expr@),
                            (NodeStateView { last_value: data, last_update: now }),
                        )
                },
                None => {
                    &&& seen matches Err(e)
                    &&& e is SerdeJsonError
                    &&& final(self).node_ids() == old(self).node_ids()
                    &&& final(self).node_states() == old(self).node_states()
                },
            },
    {
        let now = now_or_epoch();
        self.update_node_health_at(key_expr, payload, now)
    }

    /// Looks for nodes that have gone silent, at `now`: every node that is
    /// held as online and was last heard more than the staleness threshold
    /// before `now` is from now on held as offline. Reports one change for
    /// each such node, in the order of the nodes; nothing else changes.
    pub fn check_offline_nodes_at(&mut self, now: u128) -> (changes: Vec<StatusChange>)
        requires
            old(self).wf(),
        ensures
            final(self).wf(),
            final(self).same_but_nodes(old(self)),
            final(self).node_ids() == old(self).node_ids(),
            final(self).node_states() == old(self).node_states().map_values(
                |state: NodeStateView| after_check(state, now),
            ),
            changes@.map_values(|c: StatusChange| c@) == offline_changes(
                old(self).node_ids(),
                old(self).node_states(),
                old(self).callbacks().dom(),
                now,
            ),
    {
        let ghost ids = self.nodes.keys();
        let ghost before = state_views(self.nodes.values());
        let ghost known = self.callbacks.map().dom();
        let mut changes: Vec<StatusChange> = Vec::new();
        let mut at: usize = 0;
        let total = self.nodes.len();
        proof {
            assert(ids.take(0) =~= Seq::<Seq<char>>::empty());
        }
        while at < total
            invariant
                self.wf(),
                total == ids.len(),
                ids.len() == before.len(),
                0 <= at <= total,
                self.nodes.keys() == ids,
                self.id == old(self).id,
                self.callbacks == old(self).callbacks,
                self.endpoints == old(self).endpoints,
                self.status_subscriber == old(self).status_subscriber,
                self.running == old(self).running,
                known == self.callbacks.map().dom(),
                state_views(self.nodes.values()).len() == total,
                forall|j: int|
                    0 <= j < at ==> state_views(self.nodes.values())[j] == after_check(
                        before[j],
                        now,
                    ),
                forall|j: int| at <= j < total ==> state_views(self.nodes.values())[j] == before[j],
                changes@.map_values(|c: StatusChange| c@) == offline_changes(
                    ids.take(at as int),
                    before.take(at as int),
                    known,
                    now,
                ),
            decreases total - at,
        {
            proof {
                assert(ids.take(at + 1).drop_last() =~= ids.take(at as int));
                assert(before.take(at + 1).drop_last() =~= before.take(at as int));
                assert(ids.take(at + 1).last() == ids[at as int]);
                assert(before.take(at + 1).last() == before[at as int]);
                assert(state_views(self.nodes.values())[at as int]
                    == self.nodes.values()[at as int]@);
            }
            let current = self.nodes.value_at(at);
            let heard = current.last_update;
            let stale = same_text(current.last_value.status.as_str(), "online") && now >= heard
                && now - heard > STALENESS_THRESHOLD_NANOS;
            if stale {
                let mut data = current.last_value.clone();
                data.status = String::from_str("offline");
                let node_id = self.nodes.key_at(at).clone();
                let notify = self.callbacks.contains_key(node_id.as_str());
                let state = NodeState { last_value: data.clone(), last_update: heard };
                let ghost values_before = self.nodes.values();
                self.nodes.replace_at(at, state);
                proof {
                    assert(state_views(self.nodes.values()) =~= state_views(values_before).update(
                        at as int,
                        state@,
                    ));
                    let change = StatusChange { node_id, data, notify };
                    assert(changes@.push(change).map_values(|c: StatusChange| c@)
                        =~= changes@.map_values(|c: StatusChange| c@).push(change@));
                }
                changes.push(StatusChange { node_id, data, notify });
            }
            at = at + 1;
        }
        proof {
            assert(ids.take(total as int) =~= ids);
            assert(before.take(total as int) =~= before);
            assert(state_views(self.nodes.values()) =~= before.map_values(
                |state: NodeStateView| after_check(state, now),
            ));
        }
        changes
    }

    /// Looks for nodes that have gone silent, now by the clock.
    pub fn check_offline_nodes(&mut self) -> (changes: Vec<StatusChange>)
        requires
            old(self).wf(),
        ensures
            final(self).wf(),
            final(self).same_but_nodes(old(self)),
            final(self).node_ids() == old(self).node_ids(),
            exists|now: u128|
                final(self).node_states() == old(self).node_states().map_values(
                    |state: NodeStateView| after_check(state, now),
                ) && changes@.map_values(|c: StatusChange| c@) == offline_changes(
                    old(self).node_ids(),
                    old(self).node_states(),
                    old(self).callbacks().dom(),
                    now,
                ),
    {
        let now = now_or_epoch();
        self.check_offline_nodes_at(now)
    }

    /// The status queries of a health check: for each node heard of, its id
    /// and the key `node/<id>/status` to ask on, in the order of the nodes.
    pub fn check_node_health(&self) -> (queries: Vec<(String, String)>)
        requires
            self.wf(),
        ensures
            queries.len() == self.node_ids().len(),
            forall|i: int|
                0 <= i < queries.len() ==> (#[trigger] queries[i]).0@ == self.node_ids()[i]
                    && queries[i].1@ == crate::topic::health_topic(self.node_ids()[i]),
    {
        let mut queries: Vec<(String, String)> = Vec::new();
        let mut at: usize = 0;
        while at < self.nodes.len()
            invariant
                self.wf(),
                0 <= at <= self.node_ids().len(),
                queries.len() == at,
                forall|i: int|
                    0 <= i < at ==> (#[trigger] queries[i]).0@ == self.node_ids()[i]
                        && queries[i].1@ == crate::topic::health_topic(self.node_ids()[i]),
            decreases self.node_ids().len() - at,
        {
            let id = self.nodes.key_at(at).clone();
            let key = crate::topic::node_health_topic(id.as_str());
            queries.push((id, key));
            at = at + 1;
        }
        queries
    }

    /// Takes the answer of `node_id` to a status query. A node never heard of
    /// is passed over. Else what is held of the node becomes what
    /// `after_reply` says, and a change is reported exactly where that is a
    /// transition to offline or unknown.
    pub fn apply_health_reply(&mut self, node_id: &str, reply: HealthReply) -> (change: Option<
        StatusChange,
    >)
        requires
            old(self).wf(),
        ensures
            final(self).wf(),
            final(self).same_but_nodes(old(self)),
            final(self).node_ids() == old(self).node_ids(),
            !old(self).nodes().contains_key(node_id@) ==> change is None,
            !old(self).nodes().contains_key(node_id@) ==> final(self).node_states() == old(
                self,
            ).node_states(),
            old(self).nodes().contains_key(node_id@) ==> {
                let before = old(self).nodes()[node_id@];
                let after = after_reply(before, reply);
                &&& final(self).nodes() == old(self).nodes().insert(node_id@, after)
                &&& match change {
                    Some(c) => calls_for_notice(before, after) && c@ == (StatusChangeView {
                        node_id: node_id@,
                        data: after.last_value,
                        notify: old(self).callbacks().contains_key(node_id@),
                    }),
                    None => !calls_for_notice(before, after),
                }
            },
    {
        proof {
            lemma_assoc_entries(self.node_ids(), self.node_states());
        }
        let slot = match self.nodes.position(node_id) {
            Some(slot) => slot,
            None => {
                return None;
            },
        };
        proof {
            lemma_slot_of_found(self.node_ids(), node_id@);
            assert(self.node_states()[slot as int] == self.nodes.values()[slot as int]@);
        }
        let current = self.nodes.value_at(slot);
        let heard = current.last_update;
        let status_before = current.last_value.status.clone();
        let data = match reply {
            HealthReply::Sample(bytes) => match utf8_text(bytes.as_slice()) {
                None => {
                    let mut data = current.last_value.clone();
                    data.status = String::from_str("unknown");
                    data
                },
                Some(_) => match NodeData::from_slice(bytes.as_slice()) {
                    Ok(mut data) => {
                        if !same_text(data.status.as_str(), "online") {
                            data.status = String::from_str("offline");
                        }
                        data
                    },
                    Err(_) => current.last_value.clone(),
                },
            },
            _ => {
                let mut data = current.last_value.clone();
                data.status = String::from_str("unknown");
                data
            },
        };
        let changed = !same_text(status_before.as_str(), data.status.as_str()) && (same_text(
            data.status.as_str(),
            "offline",
        ) || same_text(data.status.as_str(), "unknown"));
        let notify = self.callbacks.contains_key(node_id);
        let state = NodeState { last_value: data.clone(), last_update: heard };
        let ghost values_before = self.nodes.values();
        self.nodes.replace_at(slot, state);
        proof {
            assert(state_views(self.nodes.values()) =~= state_views(values_before).update(
                slot as int,
                state@,
            ));
            lemma_assoc_update(
                old(self).node_ids(),
                old(self).node_states(),
                slot as int,
                state@,
            );
        }
        if changed {
            Some(StatusChange { node_id: node_id.to_owned(), data, notify })
        } else {
            None
        }
    }

    /// Starts a push of `config` to `node/<node_id>/config`: the message to
    /// put, and the retry state that paces the attempts. Fails exactly where
    /// the opaque part of `config` is not one JSON text.
    pub fn publish_node_config(&self, node_id: &str, config: &NodeConfig) -> (push: Result<
        ConfigPush,
        FabricError,
    >)
        ensures
            match push {
                Ok(p) => {
                    &&& p.kind() == PushKind::NodeConfig
                    &&& p.message().key_expr@ == config_topic(node_id@)
                    &&& encode_node_config(config@) matches Some(json) && p.message().payload@
                        == encode_utf8(json)
                },
                Err(e) => encode_node_config(config@) is None && e is SerdeJsonError,
            },
    {
        match config.to_json() {
            Ok(json) => Ok(
                ConfigPush::new(
                    PushKind::NodeConfig,
                    Put {
                        key_expr: node_config_topic(node_id),
                        payload: json.as_str().as_bytes_vec(),
                    },
                ),
            ),
            Err(e) => Err(e),
        }
    }

    /// Starts a push of the bare JSON value `config` to
    /// `fabric/<node_id>/config`. Fails exactly where `config` is not one
    /// JSON text.
    pub fn update_node_config(&self, node_id: &str, config: &str) -> (push: Result<
        ConfigPush,
        FabricError,
    >)
        ensures
            match push {
                Ok(p) => {
                    &&& p.kind() == PushKind::ConfigValue
                    &&& p.message().key_expr@ == fabric_config_topic(node_id@)
                    &&& canonical_json(config@) matches Some(json) && p.message().payload@
                        == encode_utf8(json)
                },
                Err(e) => canonical_json(config@) is None && e is SerdeJsonError,
            },
    {
        match canonical_json_text(config) {
            Ok(json) => Ok(
                ConfigPush::new(
                    PushKind::ConfigValue,
                    Put {
                        key_expr: node_fabric_config_topic(node_id),
                        payload: json.as_str().as_bytes_vec(),
                    },
                ),
            ),
            Err(e) => Err(e),
        }
    }

    /// Records the publisher that the bus declared on `topic`, in the place of
    /// any that was there. Fails, and changes nothing, exactly where `topic`
    /// is no key expression.
    pub fn create_publisher(&mut self, topic: String, handle: P) -> (done: Result<(), FabricError>)
        requires
            old(self).wf(),
        ensures
            final(self).wf(),
            final(self).same_but_endpoints(old(self)),
            final(self).endpoints().subscribers() == old(self).endpoints().subscribers(),
            final(self).endpoints().subscriber_topics() == old(
                self,
            ).endpoints().subscriber_topics(),
            final(self).endpoints().subscriber_entries() == old(
                self,
            ).endpoints().subscriber_entries(),
            match done {
                Ok(()) => {
                    &&& key_expr_valid(topic@)
                    &&& final(self).endpoints().publishers() == old(
                        self,
                    ).endpoints().publishers().insert(topic@, (Publisher { topic, handle }))
                },
                Err(e) => {
                    &&& !key_expr_valid(topic@)
                    &&& e is ZenohError
                    &&& final(self).endpoints().publishers() == old(self).endpoints().publishers()
                },
            },
    {
        self.endpoints.create_publisher(topic, handle)
    }

    /// Decides what `publish` puts on the bus: `data` on the publisher of
    /// `topic`. Fails exactly where `topic` has no publisher.
    pub fn publish(&self, topic: &str, data: Vec<u8>) -> (put: Result<Outgoing<'_, P>, FabricError>)
        requires
            self.wf(),
        ensures
            match put {
                Ok(out) => {
                    &&& self.endpoints().publishers().contains_key(topic@)
                    &&& *out.publisher == self.endpoints().publishers()[topic@].handle
                    &&& out.payload == data
                },
                Err(e) => {
                    &&& !self.endpoints().publishers().contains_key(topic@)
                    &&& e matches FabricError::PublisherNotFound(named)
                    &&& named@ == topic@
                },
            },
    {
        self.endpoints.publish(topic, data)
    }

    /// Records the subscriber that the bus declared on `topic` and the
    /// callback for its samples, in the place of any that was there under the
    /// same text. Fails, and changes nothing, exactly where `topic` is no key
    /// expression.
    pub fn create_subscriber(&mut self, topic: String, callback: C, handle: S) -> (done: Result<
        (),
        FabricError,
    >)
        requires
            old(self).wf(),
        ensures
            final(self).wf(),
            final(self).same_but_endpoints(old(self)),
            final(self).endpoints().publishers() == old(self).endpoints().publishers(),
            match done {
                Ok(()) => {
                    &&& key_expr_valid(topic@)
                    &&& final(self).endpoints().subscribed_from(
                        &old(self).endpoints(),
                        topic,
                        callback,
                        handle,
                    )
                },
                Err(e) => {
                    &&& !key_expr_valid(topic@)
                    &&& e is ZenohError
                    &&& final(self).endpoints().subscribers() == old(self).endpoints().subscribers()
                    &&& final(self).endpoints().subscriber_topics() == old(
                        self,
                    ).endpoints().subscriber_topics()
                    &&& final(self).endpoints().subscriber_entries() == old(
                        self,
                    ).endpoints().subscriber_entries()
                },
            },
    {
        self.endpoints.create_subscriber(topic, callback, handle)
    }

    /// Records a subscriber for the telemetry of the nodes that `pattern`
    /// names, on `node/<pattern>/data`; `*` names every node. Subscribing
    /// again with the same pattern replaces callback and handle.
    pub fn subscribe_to_node(&mut self, pattern: &str, callback: C, handle: S) -> (done: Result<
        (),
        FabricError,
    >)
        requires
            old(self).wf(),
        ensures
            final(self).wf(),
            final(self).same_but_endpoints(old(self)),
            final(self).endpoints().publishers() == old(self).endpoints().publishers(),
            match done {
                Ok(()) => {
                    &&& key_expr_valid(data_topic(pattern@))
                    &&& exists|topic: String|
                        topic@ == data_topic(pattern@) && final(self).endpoints().subscribed_from(
                            &old(self).endpoints(),
                            topic,
                            callback,
                            handle,
                        )
                },
                Err(e) => {
                    &&& !key_expr_valid(data_topic(pattern@))
                    &&& e is ZenohError
                    &&& final(self).endpoints().subscribers() == old(self).endpoints().subscribers()
                },
            },
    {
        let topic = node_data_topic(pattern);
        self.endpoints.create_subscriber(topic, callback, handle)
    }

    /// Takes the subscriber declared on exactly `topic` out and hands it
    /// back, for its handle to be undeclared. Changes nothing where there is
    /// none.
    pub fn unsubscribe(&mut self, topic: &str) -> (removed: Option<Subscriber<C, S>>)
        requires
            old(self).wf(),
        ensures
            final(self).wf(),
            final(self).same_but_endpoints(old(self)),
            final(self).endpoints().publishers() == old(self).endpoints().publishers(),
            final(self).endpoints().subscribers() == old(self).endpoints().subscribers().remove(
                topic@,
            ),
            match removed {
                Some(entry) => old(self).endpoints().subscribers().contains_key(topic@) && entry
                    == old(self).endpoints().subscribers()[topic@],
                None => !old(self).endpoints().subscribers().contains_key(topic@),
            },
    {
        self.endpoints.unsubscribe(topic)
    }

    /// The number of subscribers.
    pub fn subscriber_count(&self) -> (n: usize)
        requires
            self.wf(),
        ensures
            n == self.endpoints().subscriber_topics().len(),
    {
        self.endpoints.subscriber_count()
    }

    /// The subscriber at position `i`.
    pub fn subscriber_at(&self, i: usize) -> (entry: &Subscriber<C, S>)
        requires
            self.wf(),
            i < self.endpoints().subscriber_topics().len(),
        ensures
            *entry == self.endpoints().subscriber_entries()[i as int],
    {
        proof {
            self.endpoints.lemma_wf();
        }
        self.endpoints.subscriber_at(i)
    }

    /// The callbacks to call for a sample on `key_expr`: one for every
    /// subscriber whose key expression the sample's key intersects.
    pub fn handle_subscriber_samples(&self, key_expr: &str) -> (callbacks: Vec<&C>)
        requires
            self.wf(),
        ensures
            callbacks@.map_values(|c: &C| *c) == self.endpoints().deliveries(key_expr@),
    {
        self.endpoints.handle_subscriber_sample(key_expr)
    }

    /// Starts the run loop and names the glob to hear heartbeats on:
    /// `fabric/*/status`.
    pub fn start(&mut self) -> (glob: String)
        requires
            old(self).wf(),
        ensures
            final(self).wf(),
            final(self).running(),
            glob@ == status_glob(),
            final(self).id() == old(self).id(),
            final(self).node_ids() == old(self).node_ids(),
            final(self).node_states() == old(self).node_states(),
            final(self).callbacks() == old(self).callbacks(),
            final(self).endpoints() == old(self).endpoints(),
            final(self).status_subscriber() == old(self).status_subscriber(),
    {
        self.running = true;
        status_subscription()
    }

    /// One turn of the run loop: what to do about `event`. Once the loop is
    /// not running, whether it was cancelled or never started, every event
    /// is answered with `Stop` and changes nothing.
    pub fn step(&mut self, event: OrchestratorEvent) -> (action: OrchestratorAction)
        requires
            old(self).wf(),
        ensures
            final(self).wf(),
            final(self).id() == old(self).id(),
            final(self).callbacks() == old(self).callbacks(),
            final(self).endpoints() == old(self).endpoints(),
            final(self).status_subscriber() == old(self).status_subscriber(),
            !old(self).running() ==> {
                &&& action is Stop
                &&& !final(self).running()
                &&& final(self).node_ids() == old(self).node_ids()
                &&& final(self).node_states() == old(self).node_states()
            },
            old(self).running() ==> match event {
                OrchestratorEvent::Cancelled => {
                    &&& action is Stop
                    &&& !final(self).running()
                    &&& final(self).node_ids() == old(self).node_ids()
                    &&& final(self).node_states() == old(self).node_states()
                },
                OrchestratorEvent::Status { key_expr, payload, now } => {
                    &&& final(self).running()
                    &&& match decode_node_data(payload@) {
                        Some(data) => {
                            &&& action matches OrchestratorAction::Notify(changes)
                            &&& changes@.map_values(|c: StatusChange| c@) == seq![
                                StatusChangeView {
                                    node_id: status_key_node(key_expr@),
                                    data,
                                    notify: old(self).callbacks().contains_key(
                                        status_key_node(key_expr@),
                                    ),
                                },
                            ]
                            &&& final(self).nodes() == old(self).nodes().insert(
                                status_key_node(key_expr@),
                                (NodeStateView { last_value: data, last_update: now }),
                            )
                        },
                        None => {
                            &&& action matches OrchestratorAction::Discard(e)
                            &&& e is SerdeJsonError
                            &&& final(self).node_ids() == old(self).node_ids()
                            &&& final(self).node_states() == old(self).node_states()
                        },
                    }
                },
                OrchestratorEvent::StalenessCheckDue { now } => {
                    &&& final(self).running()
                    &&& final(self).node_ids() == old(self).node_ids()
                    &&& final(self).node_states() == old(self).node_states().map_values(
                        |state: NodeStateView| after_check(state, now),
                    )
                    &&& action matches OrchestratorAction::Notify(changes)
                    &&& changes@.map_values(|c: StatusChange| c@) == offline_changes(
                        old(self).node_ids(),
                        old(self).node_states(),
                        old(self).callbacks().dom(),
                        now,
                    )
                },
                OrchestratorEvent::Sample { key_expr } => {
                    &&& final(self).running()
                    &&& final(self).node_ids() == old(self).node_ids()
                    &&& final(self).node_states() == old(self).node_states()
                    &&& action matches OrchestratorAction::Deliver(slots)
                    &&& slots@.map_values(|i: usize| i as int) == reached_slots(
                        old(self).endpoints().subscriber_topics(),
                        key_expr@,
                    )
                },
                OrchestratorEvent::SessionLost { reason } => {
                    &&& !final(self).running()
                    &&& final(self).node_ids() == old(self).node_ids()
                    &&& final(self).node_states() == old(self).node_states()
                    &&& action matches OrchestratorAction::Fail(e)
                    &&& e matches FabricError::ZenohError(text)
                    &&& text@ == reason@
                },
            },
    {
        if !self.running {
            return OrchestratorAction::Stop;
        }
        match event {
            OrchestratorEvent::Cancelled => {
                self.running = false;
                OrchestratorAction::Stop
            },
            OrchestratorEvent::Status { key_expr, payload, now } => {
                match self.update_node_health_at(key_expr.as_str(), payload.as_slice(), now) {
                    Ok(change) => {
                        let mut changes: Vec<StatusChange> = Vec::new();
                        changes.push(change);
                        assert(changes@.map_values(|c: StatusChange| c@) =~= seq![change@]);
                        OrchestratorAction::Notify(changes)
                    },
                    Err(e) => OrchestratorAction::Discard(e),
                }
            },
            OrchestratorEvent::StalenessCheckDue { now } => OrchestratorAction::Notify(
                self.check_offline_nodes_at(now),
            ),
            OrchestratorEvent::Sample { key_expr } => OrchestratorAction::Deliver(
                self.endpoints.reached_subscribers(key_expr.as_str()),
            ),
            OrchestratorEvent::SessionLost { reason } => {
                self.running = false;
                OrchestratorAction::Fail(FabricError::ZenohError(reason))
            },
        }
    }

    /// Ends the agent: gives up the heartbeat subscription, empties the
    /// endpoint registries and hands back every handle, to be undeclared.
    /// What is held of the nodes, and the callbacks, stay.
    pub fn shutdown(&mut self) -> (held: (Option<S>, Vec<Publisher<P>>, Vec<Subscriber<C, S>>))
        requires
            old(self).wf(),
        ensures
            final(self).wf(),
            !final(self).running(),
            final(self).status_subscriber() is None,
            final(self).id() == old(self).id(),
            final(self).node_ids() == old(self).node_ids(),
            final(self).node_states() == old(self).node_states(),
            final(self).callbacks() == old(self).callbacks(),
            final(self).endpoints().publisher_topics().len() == 0,
            final(self).endpoints().subscriber_topics().len() == 0,
            held.0 == old(self).status_subscriber(),
            held.1@ == old(self).endpoints().publisher_entries(),
            held.2@ == old(self).endpoints().subscriber_entries(),
    {
        self.running = false;
        let mut status: Option<S> = None;
        core::mem::swap(&mut self.status_subscriber, &mut status);
        let endpoints = self.endpoints.close();
        (status, endpoints.0, endpoints.1)
    }
}

/// Registering a callback twice for one node leaves the second in place, as
/// if the first had never been registered: an update of that node then finds
/// the second callback and no other.
pub proof fn lemma_reregister_replaces<P, C, S, N>(
    start: Orchestrator<P, C, S, N>,
    once: Orchestrator<P, C, S, N>,
    twice: Orchestrator<P, C, S, N>,
    node_id: Seq<char>,
    first: N,
    second: N,
)
    requires
        once.callbacks() == start.callbacks().insert(node_id, first),
        twice.callbacks() == once.callbacks().insert(node_id, second),
    ensures
        twice.callbacks().contains_key(node_id),
        twice.callbacks()[node_id] == second,
        twice.callbacks() == start.callbacks().insert(node_id, second),
{
    assert(twice.callbacks() =~= start.callbacks().insert(node_id, second));
}

/// A node that is held as online and was last heard more than the staleness
/// threshold ago is held as offline after the next staleness check, and the
/// check reports that change, with the offline envelope, for the node's
/// callback to be called.
pub proof fn lemma_silent_node_goes_offline(
    ids: Seq<Seq<char>>,
    states: Seq<NodeStateView>,
    callbacks: Set<Seq<char>>,
    now: u128,
    i: int,
)
    requires
        ids.len() == states.len(),
        0 <= i < ids.len(),
        states[i].last_value.status == "online"@,
        now >= states[i].last_update,
        now - states[i].last_update > STALENESS_THRESHOLD_NANOS,
    ensures
        after_check(states[i], now).last_value.status == "offline"@,
        offline_changes(ids, states, callbacks, now).contains(
            StatusChangeView {
                node_id: ids[i],
                data: with_status(states[i].last_value, "offline"@),
                notify: callbacks.contains(ids[i]),
            },
        ),
    decreases ids.len(),
{
    let wanted = StatusChangeView {
        node_id: ids[i],
        data: with_status(states[i].last_value, "offline"@),
        notify: callbacks.contains(ids[i]),
    };
    let all = offline_changes(ids, states, callbacks, now);
    let front = offline_changes(ids.drop_last(), states.drop_last(), callbacks, now);
    if i == ids.len() - 1 {
        assert(all == front.push(wanted));
        assert(all[front.len() as int] == wanted);
    } else {
        lemma_silent_node_goes_offline(ids.drop_last(), states.drop_last(), callbacks, now, i);
        let j = choose|j: int| 0 <= j < front.len() && front[j] == wanted;
        assert(all[j] == wanted);
    }
}

/// A staleness check changes what is held of a node only by taking a stale
/// node offline, and it never changes when the node was last heard.
pub proof fn lemma_offline_only_when_stale(state: NodeStateView, now: u128)
    ensures
        after_check(state, now).last_update == state.last_update,
        after_check(state, now) != state ==> is_stale(state, now) && now - state.last_update
            > STALENESS_THRESHOLD_NANOS && after_check(state, now).last_value.status
            == "offline"@,
{
}

/// A node that a staleness check took offline is not taken offline again by
/// a later check: the transition is reported once, until a heartbeat says
/// the node is online again.
pub proof fn lemma_offline_reported_once(state: NodeStateView, now: u128, later: u128)
    requires
        is_stale(state, now),
    ensures
        !is_stale(after_check(state, now), later),
        after_check(after_check(state, now), later) == after_check(state, now),
{
    reveal_strlit("online");
    reveal_strlit("offline");
    assert("online"@.len() != "offline"@.len());
}

/// Asking a node for its status never changes when the node was last heard.
pub proof fn lemma_replies_keep_last_update(state: NodeStateView, reply: HealthReply)
    ensures
        after_reply(state, reply).last_update == state.last_update,
{
}

} // verus!
