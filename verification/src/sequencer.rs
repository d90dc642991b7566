//! The order in which a cluster is brought up, as a state machine.
//!
//! First the root directory is removed, whether or not that works, and made
//! anew. Then one node is started at a time, by ordinal. The genesis node
//! is started as soon as the root directory is there. Before each joiner
//! the machine asks for one delay of fixed length, so that the node before
//! it has had that long since its start was asked for. A root directory
//! that cannot be made, or a node that cannot be started, ends the
//! construction.

use crate::slot::{cluster_size, node_slot, ClusterSpecView, NodeSlotView};
use vstd::prelude::*;

verus! {

/// The seconds to wait between asking for one node's start and asking for
/// the next one's.
pub const SPAWN_DELAY_SECS: u64 = 30;

/// Where the construction of a cluster stands.
#[derive(Clone, Copy, Debug, PartialEq, Eq, Structural)]
pub enum Phase {
    /// Nothing was asked for yet.
    Idle,
    /// The root directory is being removed.
    RemovingRoot,
    /// The root directory is being made.
    CreatingRoot,
    /// The start of the next node was asked for.
    Spawning,
    /// The delay before the next node was asked for.
    Waiting,
    /// Every node was started.
    Complete,
    /// The root directory could not be made, or a node could not be
    /// started; the construction has ended.
    Failed,
}

/// What the caller reports, with messages as text and without the thread
/// of a started node.
pub enum EventView {
    /// The construction is to begin.
    Start,
    /// The root directory was removed, or could not be.
    RootRemoved,
    /// The root directory was made, or why it could not be.
    RootCreated { outcome: Result<(), Seq<char>> },
    /// The node asked for was started.
    Spawned,
    /// The node asked for could not be started.
    SpawnFailed,
    /// The delay asked for has passed.
    DelayElapsed,
}

/// Why a construction has ended before its time.
pub enum FailureView {
    /// The root directory could not be made.
    Root { message: Seq<char> },
    /// The node of this ordinal could not be started.
    Spawn { ordinal: nat },
}

/// What the message of a failure to make the root directory begins with;
/// the cause follows.
pub open spec fn no_root_prefix() -> Seq<char> {
    "Cannot create vaults directory: "@
}

/// What the caller is asked to do next.
pub enum ActionView {
    /// Remove the root directory with all it holds.
    RemoveRoot { path: Seq<char> },
    /// Make the root directory.
    CreateRoot { path: Seq<char> },
    /// Start the node of this slot.
    Spawn { slot: NodeSlotView },
    /// Let this many seconds pass.
    Wait { seconds: nat },
    /// Nothing: every node was started.
    Complete,
    /// Give up.
    Abort { failure: FailureView },
    /// Nothing: the event reported was not the one awaited.
    Rejected,
}

/// The state of a construction.
pub struct ClusterView {
    /// What was asked for.
    pub spec: ClusterSpecView,
    /// Where the construction stands.
    pub phase: Phase,
    /// The number of nodes started so far.
    pub started: nat,
    /// The number of delays that have passed so far.
    pub delays: nat,
}

impl ClusterView {
    /// The state before anything was asked for.
    pub open spec fn initial(spec: ClusterSpecView) -> ClusterView {
        ClusterView { spec, phase: Phase::Idle, started: 0, delays: 0 }
    }

    /// The number of nodes that the cluster will have.
    pub open spec fn size(self) -> nat {
        cluster_size(self.spec.node_count)
    }

    /// The seconds that the delays so far add up to.
    pub open spec fn waited_secs(self) -> nat {
        self.delays * (SPAWN_DELAY_SECS as nat)
    }

    /// What holds of every state that a construction can reach: how many
    /// nodes were started and how many delays have passed, phase by phase.
    pub open spec fn inv(self) -> bool {
        match self.phase {
            Phase::Idle | Phase::RemovingRoot | Phase::CreatingRoot => self.started == 0
                && self.delays == 0,
            Phase::Spawning | Phase::Failed => self.started < self.size() && self.delays
                == self.started,
            Phase::Waiting => 0 < self.started < self.size() && self.delays + 1 == self.started,
            Phase::Complete => self.started == self.size() && self.delays + 1 == self.started,
        }
    }
}

/// The state that follows `state` on `event`, and what the caller is asked
/// to do then.
///
/// How the removal of the root directory went does not matter: a directory
/// that cannot be removed is most often one that is not there.
pub open spec fn next(state: ClusterView, event: EventView) -> (ClusterView, ActionView) {
    match (state.phase, event) {
        (Phase::Idle, EventView::Start) => (
            ClusterView { phase: Phase::RemovingRoot, ..state },
            ActionView::RemoveRoot { path: state.spec.root },
        ),
        (Phase::RemovingRoot, EventView::RootRemoved) => (
            ClusterView { phase: Phase::CreatingRoot, ..state },
            ActionView::CreateRoot { path: state.spec.root },
        ),
        (Phase::CreatingRoot, EventView::RootCreated { outcome }) => match outcome {
            Ok(()) => (
                ClusterView { phase: Phase::Spawning, ..state },
                ActionView::Spawn { slot: node_slot(state.spec, 0) },
            ),
            Err(cause) => (
                ClusterView { phase: Phase::Failed, ..state },
                ActionView::Abort {
                    failure: FailureView::Root { message: no_root_prefix() + cause },
                },
            ),
        },
        (Phase::Spawning, EventView::Spawned) => if state.started + 1 == state.size() {
            (
                ClusterView { phase: Phase::Complete, started: state.started + 1, ..state },
                ActionView::Complete,
            )
        } else {
            (
                ClusterView { phase: Phase::Waiting, started: state.started + 1, ..state },
                ActionView::Wait { seconds: SPAWN_DELAY_SECS as nat },
            )
        },
        (Phase::Spawning, EventView::SpawnFailed) => (
            ClusterView { phase: Phase::Failed, ..state },
            ActionView::Abort { failure: FailureView::Spawn { ordinal: state.started } },
        ),
        (Phase::Waiting, EventView::DelayElapsed) => (
            ClusterView { phase: Phase::Spawning, delays: state.delays + 1, ..state },
            ActionView::Spawn { slot: node_slot(state.spec, state.started) },
        ),
        _ => (state, ActionView::Rejected),
    }
}

/// The state that a construction reaches from `state` on `events`, one
/// after the other.
pub open spec fn run(state: ClusterView, events: Seq<EventView>) -> ClusterView
    decreases events.len(),
{
    if events.len() == 0 {
        state
    } else {
        next(run(state, events.drop_last()), events.last()).0
    }
}

/// The events of a construction in which nothing fails, up to the start of
/// the node of ordinal `upto - 1`.
pub open spec fn smooth_events(upto: nat) -> Seq<EventView>
    decreases upto,
{
    if upto == 0 {
        seq![EventView::Start, EventView::RootRemoved, EventView::RootCreated { outcome: Ok(()) }]
    } else if upto == 1 {
        smooth_events(0).push(EventView::Spawned)
    } else {
        smooth_events((upto - 1) as nat).push(EventView::DelayElapsed).push(EventView::Spawned)
    }
}

/// A step keeps what holds of every reachable state, never loses a node,
/// and never takes a delay back.
pub proof fn lemma_next_keeps_inv(state: ClusterView, event: EventView)
    requires
        state.inv(),
    ensures
        next(state, event).0.inv(),
        next(state, event).0.spec == state.spec,
        next(state, event).0.started >= state.started,
        next(state, event).0.delays >= state.delays,
{
}

/// Every state reached from the initial one has what holds of every
/// reachable state.
pub proof fn lemma_run_keeps_inv(spec: ClusterSpecView, events: Seq<EventView>)
    ensures
        run(ClusterView::initial(spec), events).inv(),
        run(ClusterView::initial(spec), events).spec == spec,
    decreases events.len(),
{
    if events.len() > 0 {
        lemma_run_keeps_inv(spec, events.drop_last());
        lemma_next_keeps_inv(run(ClusterView::initial(spec), events.drop_last()), events.last());
    }
}

/// Nodes are started by ordinal, and a joiner only after its delay.
///
/// Whenever the start of a node is asked for, its ordinal is the number of
/// nodes started before it. For the genesis node this is the answer to the
/// root directory having been made, with no delay before it. For every other
/// node it is the answer to a delay having passed, a delay that was asked
/// for when the node before it had been started; and by then as many
/// delays have passed as the node's ordinal says, `SPAWN_DELAY_SECS` each.
pub proof fn lemma_spawn_after_delay(state: ClusterView, event: EventView)
    requires
        state.inv(),
        next(state, event).1 is Spawn,
    ensures
        next(state, event).1->slot == node_slot(state.spec, state.started),
        next(state, event).1->slot.ordinal == state.started,
        next(state, event).0.phase == Phase::Spawning,
        next(state, event).0.delays == state.started,
        next(state, event).0.waited_secs() == state.started * (SPAWN_DELAY_SECS as nat),
        state.started == 0 ==> state.phase == Phase::CreatingRoot && event is RootCreated,
        state.started > 0 ==> state.phase == Phase::Waiting && event is DelayElapsed && next(
            state,
            event,
        ).0.delays == state.delays + 1,
{
}

/// The delay is asked for exactly when a node other than the last was
/// started, and it is `SPAWN_DELAY_SECS` long. The machine comes to wait
/// only by asking for the delay, and only a report that the delay has
/// passed leads on from there.
pub proof fn lemma_wait_between_spawns(state: ClusterView, event: EventView)
    requires
        state.inv(),
    ensures
        next(state, event).1 is Wait <==> state.phase == Phase::Spawning && event is Spawned
            && state.started + 1 < state.size(),
        next(state, event).1 is Wait ==> next(state, event).1->seconds == SPAWN_DELAY_SECS
            && next(state, event).0.phase == Phase::Waiting,
        next(state, event).0.phase == Phase::Waiting && state.phase != Phase::Waiting ==> next(
            state,
            event,
        ).1 is Wait,
        state.phase == Phase::Waiting && !(event is DelayElapsed) ==> next(state, event) == (
            state,
            ActionView::Rejected,
        ),
{
}

/// In every construction, whatever is reported and in whatever order, the
/// start of the node of ordinal `i` is asked for only when `i` nodes were
/// started and `i` delays have passed; and the cluster is complete only
/// with all its nodes started.
pub proof fn lemma_order_in_any_run(spec: ClusterSpecView, events: Seq<EventView>, event: EventView)
    ensures
        ({
            let state = run(ClusterView::initial(spec), events);
            let after = next(state, event);
            &&& after.1 is Spawn ==> {
                &&& after.1->slot == node_slot(spec, state.started)
                &&& after.0.started == state.started
                &&& after.0.delays == state.started
                &&& state.started > 0 ==> event is DelayElapsed && state.phase
                    == Phase::Waiting
            }
            &&& after.0.phase == Phase::Complete ==> after.0.started == cluster_size(
                spec.node_count,
            ) && after.0.delays + 1 == after.0.started
        }),
{
    let state = run(ClusterView::initial(spec), events);
    lemma_run_keeps_inv(spec, events);
    lemma_next_keeps_inv(state, event);
    if next(state, event).1 is Spawn {
        lemma_spawn_after_delay(state, event);
    }
}

/// The root directory is removed and made anew before anything else: the
/// start of a node is never asked for before the root directory was
/// reported as made, and how its removal went makes no difference.
pub proof fn lemma_root_comes_first(state: ClusterView, event: EventView)
    requires
        state.inv(),
    ensures
        state.phase == Phase::Idle ==> next(state, event).1 is RemoveRoot || next(
            state,
            event,
        ).1 is Rejected,
        state.phase == Phase::RemovingRoot ==> next(state, event).1 is CreateRoot || next(
            state,
            event,
        ).1 is Rejected,
        state.phase == Phase::RemovingRoot && event is RootRemoved ==> next(state, event) == (
            ClusterView { phase: Phase::CreatingRoot, ..state },
            ActionView::CreateRoot { path: state.spec.root },
        ),
        state.phase == Phase::CreatingRoot && next(state, event).1 is Spawn ==> event is RootCreated
            && event->outcome is Ok,
        state.phase == Phase::CreatingRoot && event is RootCreated && event->outcome is Err
            ==> next(state, event).1 is Abort && next(state, event).0.phase == Phase::Failed,
{
}

/// A failure ends the construction: no later event makes the machine ask
/// for anything.
pub proof fn lemma_failure_is_final(state: ClusterView, event: EventView)
    requires
        state.phase == Phase::Failed || state.phase == Phase::Complete,
    ensures
        next(state, event) == (state, ActionView::Rejected),
{
}

/// A complete cluster has as many nodes as it was to have, and one delay
/// has passed for each node but the genesis node.
pub proof fn lemma_complete(state: ClusterView)
    requires
        state.inv(),
        state.phase == Phase::Complete,
    ensures
        state.started == state.size(),
        state.spec.node_count >= 1 ==> state.started == state.spec.node_count,
        state.delays == state.size() - 1,
        state.waited_secs() == (state.size() - 1) * (SPAWN_DELAY_SECS as nat),
{
}

/// Where nothing fails, the construction gets every node started.
///
/// After the events of a construction without failure up to the node of
/// ordinal `upto - 1`, that many nodes are started, and the cluster is
/// complete exactly when that was the last one.
pub proof fn lemma_smooth_run(spec: ClusterSpecView, upto: nat)
    requires
        upto <= cluster_size(spec.node_count),
    ensures
        run(ClusterView::initial(spec), smooth_events(upto)).started == upto,
        upto == 0 ==> run(ClusterView::initial(spec), smooth_events(upto)).phase
            == Phase::Spawning,
        0 < upto < cluster_size(spec.node_count) ==> run(
            ClusterView::initial(spec),
            smooth_events(upto),
        ).phase == Phase::Waiting,
        upto == cluster_size(spec.node_count) ==> run(
            ClusterView::initial(spec),
            smooth_events(upto),
        ).phase == Phase::Complete,
    decreases upto,
{
    let init = ClusterView::initial(spec);
    lemma_run_keeps_inv(spec, smooth_events(upto));
    if upto == 0 {
        let e1 = seq![EventView::Start];
        let e2 = e1.push(EventView::RootRemoved);
        let e3 = smooth_events(0);
        assert(e3.drop_last() =~= e2);
        assert(e2.drop_last() =~= e1);
        assert(e1.drop_last() =~= Seq::<EventView>::empty());
        assert(run(init, e1.drop_last()) == init);
        assert(run(init, e1) == next(init, EventView::Start).0);
        assert(run(init, e2) == next(run(init, e1), EventView::RootRemoved).0);
        assert(run(init, e3) == next(run(init, e2), e3.last()).0);
    } else if upto == 1 {
        lemma_smooth_run(spec, 0);
        lemma_run_keeps_inv(spec, smooth_events(0));
        let before = smooth_events(0);
        let e = smooth_events(1);
        assert(e.drop_last() =~= before);
    } else {
        lemma_smooth_run(spec, (upto - 1) as nat);
        let before = smooth_events((upto - 1) as nat);
        let mid = before.push(EventView::DelayElapsed);
        let e = smooth_events(upto);
        lemma_run_keeps_inv(spec, before);
        lemma_run_keeps_inv(spec, mid);
        assert(e.drop_last() =~= mid);
        assert(mid.drop_last() =~= before);
    }
}

} // verus!
