//! What the thread of one node does, stage by stage.
//!
//! The thread builds the routing engine, shares it, builds the receiver
//! that merges the node's event sources, and builds the node. The genesis
//! node then fetches its own connection info and stores it where joiners
//! outside this process look for it. Only then the node runs. A stage that
//! fails ends the thread: nothing after it is asked for.

use crate::slot::NodeSlot;
use vstd::prelude::*;

verus! {

/// One piece of work of a node's thread.
#[derive(Clone, Copy, Debug, PartialEq, Eq, Structural)]
pub enum Stage {
    /// Build the routing engine from the node's network settings and its
    /// flag of being first; this yields the queues of routing events and of
    /// client events.
    ConstructEngine,
    /// Put the engine behind a handle that the network layer and the
    /// receiver can both hold.
    ShareEngine,
    /// Build the receiver that merges routing events, client events and
    /// commands.
    BuildReceiver,
    /// Build the node from the receiver, the network layer, the
    /// configuration and a source of randomness.
    ConstructNode,
    /// Ask the node for its own connection info.
    FetchConnectionInfo,
    /// Store the connection info where joiners look for it.
    PersistConnectionInfo,
    /// Run the node's event loop.
    RunLoop,
}

/// What the thread is told to do next.
#[derive(Debug)]
pub enum Directive {
    /// Do the work of this stage, then report how it went.
    Perform { stage: Stage },
    /// End the thread with this message: the stage failed.
    Abort { stage: Stage, message: String },
    /// Nothing is left to do: the event loop has returned.
    Finished,
}

/// What the thread is told to do next, with the message as text.
pub enum DirectiveView {
    Perform { stage: Stage },
    Abort { stage: Stage, message: Seq<char> },
    Finished,
}

impl View for Directive {
    type V = DirectiveView;

    open spec fn view(&self) -> DirectiveView {
        match self {
            Directive::Perform { stage } => DirectiveView::Perform { stage: *stage },
            Directive::Abort { stage, message } => DirectiveView::Abort {
                stage: *stage,
                message: message@,
            },
            Directive::Finished => DirectiveView::Finished,
        }
    }
}

/// The stages of a node's thread, in order. Only the genesis node fetches
/// and stores its connection info.
pub open spec fn stages(genesis: bool) -> Seq<Stage> {
    if genesis {
        seq![
            Stage::ConstructEngine,
            Stage::ShareEngine,
            Stage::BuildReceiver,
            Stage::ConstructNode,
            Stage::FetchConnectionInfo,
            Stage::PersistConnectionInfo,
            Stage::RunLoop,
        ]
    } else {
        seq![
            Stage::ConstructEngine,
            Stage::ShareEngine,
            Stage::BuildReceiver,
            Stage::ConstructNode,
            Stage::RunLoop,
        ]
    }
}

/// The message with which the thread ends when the stage fails.
pub open spec fn failure_message(stage: Stage) -> Seq<char> {
    match stage {
        Stage::FetchConnectionInfo => "Could not get genesis info"@,
        Stage::PersistConnectionInfo => "Could not write genesis info"@,
        Stage::RunLoop => "Node stopped with an error"@,
        _ => "Unable to start vault Node"@,
    }
}

/// Where the thread of a node stands.
pub struct SupervisorView {
    /// Whether the node is the genesis node.
    pub genesis: bool,
    /// The number of stages done.
    pub done: nat,
    /// Whether the stage after those has failed.
    pub failed: bool,
}

impl SupervisorView {
    /// What holds of every state: no more stages are done than there are,
    /// and only a stage that exists has failed.
    pub open spec fn inv(self) -> bool {
        &&& self.done <= stages(self.genesis).len()
        &&& self.failed ==> self.done < stages(self.genesis).len()
    }

    /// What the thread is to do in this state.
    pub open spec fn directive(self) -> DirectiveView {
        if self.done >= stages(self.genesis).len() {
            DirectiveView::Finished
        } else if self.failed {
            DirectiveView::Abort {
                stage: stages(self.genesis)[self.done as int],
                message: failure_message(stages(self.genesis)[self.done as int]),
            }
        } else {
            DirectiveView::Perform { stage: stages(self.genesis)[self.done as int] }
        }
    }

    /// The state after the stage at hand went as `success` says. Once a
    /// stage has failed, or all are done, nothing changes any more.
    pub open spec fn reported(self, success: bool) -> SupervisorView {
        if self.failed || self.done >= stages(self.genesis).len() {
            self
        } else if success {
            SupervisorView { done: self.done + 1, ..self }
        } else {
            SupervisorView { failed: true, ..self }
        }
    }
}

/// The stages of one node's thread, and how far it has come.
#[derive(Debug)]
pub struct Supervisor {
    genesis: bool,
    done: usize,
    failed: bool,
}

impl View for Supervisor {
    type V = SupervisorView;

    closed spec fn view(&self) -> SupervisorView {
        SupervisorView { genesis: self.genesis, done: self.done as nat, failed: self.failed }
    }
}

impl Supervisor {
    #[verifier::type_invariant]
    spec fn well_formed(&self) -> bool {
        self@.inv()
    }

    /// The thread of the node of `slot`, before its first stage.
    pub fn new(slot: &NodeSlot) -> (supervisor: Self)
        ensures
            supervisor@ == (SupervisorView {
                genesis: slot@.is_genesis(),
                done: 0,
                failed: false,
            }),
    {
        Supervisor { genesis: slot.is_genesis(), done: 0, failed: false }
    }

    /// Whether the node is the genesis node.
    pub fn is_genesis(&self) -> (genesis: bool)
        ensures
            genesis == self@.genesis,
    {
        self.genesis
    }

    /// The number of stages done.
    pub fn stages_done(&self) -> (done: usize)
        ensures
            done == self@.done,
            self@.inv(),
    {
        proof {
            use_type_invariant(self);
        }
        self.done
    }

    /// What the thread is to do now.
    pub fn directive(&self) -> (directive: Directive)
        ensures
            directive@ == self@.directive(),
    {
        proof {
            use_type_invariant(self);
        }
        match stage_at(self.genesis, self.done) {
            None => Directive::Finished,
            Some(stage) => if self.failed {
                Directive::Abort { stage, message: message_for(stage) }
            } else {
                Directive::Perform { stage }
            },
        }
    }

    /// Takes in how the stage at hand went, and says what to do next.
    pub fn report(&mut self, success: bool) -> (directive: Directive)
        ensures
            final(self)@ == old(self)@.reported(success),
            directive@ == final(self)@.directive(),
    {
        proof {
            use_type_invariant(&*self);
        }
        if !self.failed && stage_at(self.genesis, self.done).is_some() {
            if success {
                self.done = self.done + 1;
            } else {
                self.failed = true;
            }
        }
        self.directive()
    }
}

/// The stage at the given place in the order of a node's stages.
pub fn stage_at(genesis: bool, index: usize) -> (stage: Option<Stage>)
    ensures
        stage == if index < stages(genesis).len() {
            Some(stages(genesis)[index as int])
        } else {
            None
        },
{
    if index == 0 {
        Some(Stage::ConstructEngine)
    } else if index == 1 {
        Some(Stage::ShareEngine)
    } else if index == 2 {
        Some(Stage::BuildReceiver)
    } else if index == 3 {
        Some(Stage::ConstructNode)
    } else if genesis && index == 4 {
        Some(Stage::FetchConnectionInfo)
    } else if genesis && index == 5 {
        Some(Stage::PersistConnectionInfo)
    } else if (genesis && index == 6) || (!genesis && index == 4) {
        Some(Stage::RunLoop)
    } else {
        None
    }
}

/// The message with which the thread ends when the stage fails.
pub fn message_for(stage: Stage) -> (message: String)
    ensures
        message@ == failure_message(stage),
{
    match stage {
        Stage::FetchConnectionInfo => "Could not get genesis info".to_owned(),
        Stage::PersistConnectionInfo => "Could not write genesis info".to_owned(),
        Stage::RunLoop => "Node stopped with an error".to_owned(),
        _ => "Unable to start vault Node".to_owned(),
    }
}

/// The genesis node stores its connection info before it runs, and no other
/// node fetches or stores any.
pub proof fn lemma_genesis_persists_before_run(genesis: bool)
    ensures
        stages(genesis).last() == Stage::RunLoop,
        stages(genesis).no_duplicates(),
        genesis ==> stages(genesis).index_of(Stage::FetchConnectionInfo) < stages(
            genesis,
        ).index_of(Stage::PersistConnectionInfo) < stages(genesis).index_of(Stage::RunLoop),
        !genesis ==> !stages(genesis).contains(Stage::FetchConnectionInfo) && !stages(
            genesis,
        ).contains(Stage::PersistConnectionInfo),
        stages(genesis).index_of(Stage::ConstructNode) < stages(genesis).index_of(
            Stage::RunLoop,
        ),
{
    // Each stage is found at its place; no stage stands at two places.
    let s = stages(genesis);
    assert(s[3] == Stage::ConstructNode);
    assert(s[s.len() - 1] == Stage::RunLoop);
    if genesis {
        assert(s[4] == Stage::FetchConnectionInfo);
        assert(s[5] == Stage::PersistConnectionInfo);
    }
}

/// A stage that fails ends the thread: the failure is what every later
/// report is answered with, and no stage after it is ever asked for.
pub proof fn lemma_failure_ends_thread(state: SupervisorView, success: bool)
    requires
        state.inv(),
        state.failed,
    ensures
        state.directive() is Abort,
        state.reported(success) == state,
{
}

/// A report keeps what holds of every state, and asks for the next stage
/// exactly when the one at hand succeeded.
pub proof fn lemma_report_advances(state: SupervisorView, success: bool)
    requires
        state.inv(),
        state.directive() is Perform,
    ensures
        state.reported(success).inv(),
        success ==> state.reported(success).done == state.done + 1 && !state.reported(
            success,
        ).failed,
        !success ==> state.reported(success).directive() == (DirectiveView::Abort {
            stage: state.directive()->Perform_stage,
            message: failure_message(state.directive()->Perform_stage),
        }),
{
}

} // verus!
