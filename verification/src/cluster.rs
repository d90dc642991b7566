//! The cluster under construction: the handles of the nodes started so far,
//! and the decision what to do next.
//!
//! The cluster does not start threads, sleep or touch the file system. It
//! tells its caller what to do, and the caller reports what happened.

use crate::channel::{capacity_of, command_channel, sender_capacity, Command, COMMAND_CAPACITY};
use crate::sequencer::{
    next, ActionView, ClusterView, EventView, FailureView, Phase, SPAWN_DELAY_SECS,
};
use crate::slot::{cluster_size, node_slot, ClusterSpec, NodeSlot};
use crate::text::outcome_text;
use crossbeam_channel::{Receiver, Sender};
use vstd::prelude::*;

verus! {

/// What the caller reports to the cluster. `J` is what the caller keeps of a
/// started node to wait for its end.
#[derive(Debug)]
pub enum Event<J> {
    /// The construction is to begin.
    Start,
    /// The root directory was removed, or why it could not be.
    RootRemoved { outcome: Result<(), String> },
    /// The root directory was made, or why it could not be.
    RootCreated { outcome: Result<(), String> },
    /// The node asked for was started.
    Spawned(J),
    /// The node asked for could not be started.
    SpawnFailed,
    /// The delay asked for has passed.
    DelayElapsed,
}

impl<J> View for Event<J> {
    type V = EventView;

    open spec fn view(&self) -> EventView {
        match self {
            Event::Start => EventView::Start,
            Event::RootRemoved { .. } => EventView::RootRemoved,
            Event::RootCreated { outcome } => EventView::RootCreated {
                outcome: outcome_text(*outcome),
            },
            Event::Spawned(_) => EventView::Spawned,
            Event::SpawnFailed => EventView::SpawnFailed,
            Event::DelayElapsed => EventView::DelayElapsed,
        }
    }
}

/// Why a construction has ended before its time.
#[derive(Debug)]
pub enum Failure {
    /// The root directory could not be made.
    Root { message: String },
    /// The node of this ordinal could not be started.
    Spawn { ordinal: usize },
}

impl View for Failure {
    type V = FailureView;

    open spec fn view(&self) -> FailureView {
        match self {
            Failure::Root { message } => FailureView::Root { message: message@ },
            Failure::Spawn { ordinal } => FailureView::Spawn { ordinal: *ordinal as nat },
        }
    }
}

/// What the cluster asks its caller to do next.
#[derive(Debug)]
pub enum Action {
    /// Remove the root directory with all it holds. Then report
    /// `RootRemoved`, however it went.
    RemoveRoot { path: String },
    /// Make the root directory and those above it. Then report
    /// `RootCreated`.
    CreateRoot { path: String },
    /// Start the node of this slot on a thread of its own and hand it the
    /// receiving end of its command channel. Then report `Spawned` or
    /// `SpawnFailed`.
    Spawn { slot: NodeSlot, commands: Receiver<Command> },
    /// Let this many seconds pass. Then report `DelayElapsed`.
    Wait { seconds: u64 },
    /// Nothing: every node was started.
    Complete,
    /// Give up: the construction has failed.
    Abort { failure: Failure },
    /// Nothing: the event reported was not the one awaited.
    Rejected,
}

impl View for Action {
    type V = ActionView;

    open spec fn view(&self) -> ActionView {
        match self {
            Action::RemoveRoot { path } => ActionView::RemoveRoot { path: path@ },
            Action::CreateRoot { path } => ActionView::CreateRoot { path: path@ },
            Action::Spawn { slot, .. } => ActionView::Spawn { slot: slot@ },
            Action::Wait { seconds } => ActionView::Wait { seconds: *seconds as nat },
            Action::Complete => ActionView::Complete,
            Action::Abort { failure } => ActionView::Abort { failure: failure@ },
            Action::Rejected => ActionView::Rejected,
        }
    }
}

/// What the cluster keeps of one started node.
#[derive(Debug)]
pub struct Handle<J> {
    /// The ordinal of the node.
    pub ordinal: usize,
    /// The sending end of the node's command channel.
    pub commands: Sender<Command>,
    /// What the caller gave to wait for the node's end.
    pub thread: J,
}

impl<J> Handle<J> {
    /// The number of commands that may wait in the node's channel, where it
    /// has a bound.
    pub fn command_capacity(&self) -> (capacity: Option<usize>)
        ensures
            capacity == sender_capacity(self.commands),
    {
        capacity_of(&self.commands)
    }
}

/// A cluster under construction, or constructed.
#[derive(Debug)]
pub struct Cluster<J> {
    spec: ClusterSpec,
    phase: Phase,
    handles: Vec<Handle<J>>,
    pending: Option<Sender<Command>>,
    delays: usize,
}

impl<J> View for Cluster<J> {
    type V = ClusterView;

    closed spec fn view(&self) -> ClusterView {
        ClusterView {
            spec: self.spec@,
            phase: self.phase,
            started: self.handles@.len(),
            delays: self.delays as nat,
        }
    }
}

impl<J> Cluster<J> {
    #[verifier::type_invariant]
    spec fn well_formed(&self) -> bool {
        &&& self@.inv()
        &&& self.phase == Phase::Spawning <==> self.pending is Some
        &&& self.pending matches Some(sender) ==> sender_capacity(sender) == Some(
            COMMAND_CAPACITY,
        )
        &&& forall|i: int|
            0 <= i < self.handles@.len() ==> {
                &&& (#[trigger] self.handles@[i]).ordinal == i
                &&& sender_capacity(self.handles@[i].commands) == Some(COMMAND_CAPACITY)
            }
    }

    /// The handles of the nodes started so far, by ordinal.
    pub closed spec fn handles(&self) -> Seq<Handle<J>> {
        self.handles@
    }

    /// What the caller gave for each node started so far, by ordinal.
    pub open spec fn threads(&self) -> Seq<J> {
        Seq::new(self.handles().len(), |i: int| self.handles()[i].thread)
    }

    /// What holds of every cluster: the state is one that a construction can
    /// reach; the handles are in the order of the ordinals, one for each
    /// node started; and each command channel holds one command at most.
    pub open spec fn wf(&self) -> bool {
        &&& self@.inv()
        &&& self.handles().len() == self@.started
        &&& forall|i: int|
            0 <= i < self.handles().len() ==> {
                &&& (#[trigger] self.handles()[i]).ordinal == i
                &&& sender_capacity(self.handles()[i].commands) == Some(COMMAND_CAPACITY)
            }
    }

    /// A cluster of which nothing was asked for yet.
    pub fn new(spec: ClusterSpec) -> (cluster: Self)
        ensures
            cluster.wf(),
            cluster@ == ClusterView::initial(spec@),
            cluster.handles().len() == 0,
    {
        Cluster { spec, phase: Phase::Idle, handles: Vec::new(), pending: None, delays: 0 }
    }

    /// Takes in what the caller reports and says what to do next.
    ///
    /// The state and the action are those of the state machine. The handles
    /// kept so far stay as they are. A thread that is reported while the
    /// start of a node is awaited is kept in a new handle behind them;
    /// nothing else adds a handle.
    pub fn step(self, event: Event<J>) -> (after: (Self, Action))
        ensures
            after.0.wf(),
            (after.0@, after.1@) == next(self@, event@),
            self.handles().is_prefix_of(after.0.handles()),
            after.0.threads() == match event {
                Event::Spawned(thread) if self@.phase == Phase::Spawning => self.threads().push(
                    thread,
                ),
                _ => self.threads(),
            },
    {
        proof {
            use_type_invariant(&self);
        }
        let ghost before = self;
        let Cluster { spec, phase, mut handles, pending, delays } = self;
        let after = match phase {
            Phase::Idle => match event {
                Event::Start => {
                    let path = spec.root().to_owned();
                    (
                        Cluster { spec, phase: Phase::RemovingRoot, handles, pending, delays },
                        Action::RemoveRoot { path },
                    )
                },
                _ => (Cluster { spec, phase, handles, pending, delays }, Action::Rejected),
            },
            Phase::RemovingRoot => match event {
                Event::RootRemoved { .. } => {
                    let path = spec.root().to_owned();
                    (
                        Cluster { spec, phase: Phase::CreatingRoot, handles, pending, delays },
                        Action::CreateRoot { path },
                    )
                },
                _ => (Cluster { spec, phase, handles, pending, delays }, Action::Rejected),
            },
            Phase::CreatingRoot => match event {
                Event::RootCreated { outcome } => match outcome {
                    Ok(()) => {
                        let slot = spec.slot(0);
                        let (sender, commands) = command_channel();
                        (
                            Cluster {
                                spec,
                                phase: Phase::Spawning,
                                handles,
                                pending: Some(sender),
                                delays,
                            },
                            Action::Spawn { slot, commands },
                        )
                    },
                    Err(cause) => {
                        let message = "Cannot create vaults directory: ".to_owned().concat(
                            cause.as_str(),
                        );
                        (
                            Cluster { spec, phase: Phase::Failed, handles, pending, delays },
                            Action::Abort { failure: Failure::Root { message } },
                        )
                    },
                },
                _ => (Cluster { spec, phase, handles, pending, delays }, Action::Rejected),
            },
            Phase::Spawning => match event {
                Event::Spawned(thread) => {
                    let ordinal = handles.len();
                    let commands = pending.unwrap();
                    handles.push(Handle { ordinal, commands, thread });
                    if handles.len() == spec.size() {
                        (
                            Cluster {
                                spec,
                                phase: Phase::Complete,
                                handles,
                                pending: None,
                                delays,
                            },
                            Action::Complete,
                        )
                    } else {
                        (
                            Cluster {
                                spec,
                                phase: Phase::Waiting,
                                handles,
                                pending: None,
                                delays,
                            },
                            Action::Wait { seconds: SPAWN_DELAY_SECS },
                        )
                    }
                },
                Event::SpawnFailed => {
                    let ordinal = handles.len();
                    (
                        Cluster { spec, phase: Phase::Failed, handles, pending: None, delays },
                        Action::Abort { failure: Failure::Spawn { ordinal } },
                    )
                },
                _ => (Cluster { spec, phase, handles, pending, delays }, Action::Rejected),
            },
            Phase::Waiting => match event {
                Event::DelayElapsed => {
                    let slot = spec.slot(handles.len());
                    let (sender, commands) = command_channel();
                    (
                        Cluster {
                            spec,
                            phase: Phase::Spawning,
                            handles,
                            pending: Some(sender),
                            delays: delays + 1,
                        },
                        Action::Spawn { slot, commands },
                    )
                },
                _ => (Cluster { spec, phase, handles, pending, delays }, Action::Rejected),
            },
            Phase::Complete => (
                Cluster { spec, phase, handles, pending, delays },
                Action::Rejected,
            ),
            Phase::Failed => (Cluster { spec, phase, handles, pending, delays }, Action::Rejected),
        };
        proof {
            use_type_invariant(&after.0);
            assert(after.0.threads() =~= match event {
                Event::Spawned(thread) if before@.phase == Phase::Spawning => before.threads().push(
                    thread,
                ),
                _ => before.threads(),
            });
        }
        after
    }

    /// What was asked for.
    pub fn spec(&self) -> (spec: &ClusterSpec)
        ensures
            spec@ == self@.spec,
    {
        &self.spec
    }

    /// Where the construction stands.
    pub fn phase(&self) -> (phase: Phase)
        ensures
            phase == self@.phase,
    {
        self.phase
    }

    /// Whether every node was started.
    pub fn is_complete(&self) -> (complete: bool)
        ensures
            complete == (self@.phase == Phase::Complete),
            complete ==> self@.started == cluster_size(self@.spec.node_count),
    {
        proof {
            use_type_invariant(self);
        }
        self.phase == Phase::Complete
    }

    /// The number of nodes started so far.
    pub fn size(&self) -> (size: usize)
        ensures
            self.wf(),
            size == self@.started,
            size <= cluster_size(self@.spec.node_count),
            self@.phase == Phase::Complete ==> size == cluster_size(self@.spec.node_count),
    {
        proof {
            use_type_invariant(self);
        }
        self.handles.len()
    }

    /// The number of delays that have passed so far.
    pub fn delays(&self) -> (delays: usize)
        ensures
            delays == self@.delays,
    {
        self.delays
    }

    /// The seconds that the delays so far add up to.
    pub fn waited_secs(&self) -> (seconds: u128)
        ensures
            seconds == self@.waited_secs(),
    {
        (self.delays as u128) * (SPAWN_DELAY_SECS as u128)
    }

    /// The handle of the node of the given ordinal, where that node was
    /// started.
    pub fn handle(&self, ordinal: usize) -> (handle: Option<&Handle<J>>)
        ensures
            self.wf(),
            handle is Some <==> ordinal < self@.started,
            handle matches Some(h) ==> *h == self.handles()[ordinal as int],
    {
        proof {
            use_type_invariant(self);
        }
        if ordinal < self.handles.len() {
            Some(&self.handles[ordinal])
        } else {
            None
        }
    }

    /// What the node of the given ordinal is given: the slot that the
    /// cluster asks to start with that ordinal.
    pub fn slot(&self, ordinal: usize) -> (slot: NodeSlot)
        ensures
            slot@ == node_slot(self@.spec, ordinal as nat),
    {
        self.spec.slot(ordinal)
    }

    /// Gives up the cluster for the handles of its nodes, by ordinal.
    pub fn into_handles(self) -> (handles: Vec<Handle<J>>)
        ensures
            self.wf(),
            handles@ == self.handles(),
    {
        proof {
            use_type_invariant(&self);
        }
        self.handles
    }
}

} // verus!
