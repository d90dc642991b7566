//! The order in which a node takes events from its three sources.
//!
//! A node is fed by routing events, by client events and by the commands of
//! its owner. None of the three comes before the others: the sources take
//! turns, and a source that has nothing waiting passes its turn on. So a
//! source that has an event waiting is passed over twice at most, however
//! busy the other two are.

use vstd::prelude::*;

verus! {

/// One of the three sources of a node's events.
#[derive(Clone, Copy, Debug, PartialEq, Eq, Hash, Structural)]
pub enum Source {
    /// Events of the routing engine.
    Routing,
    /// Events of clients.
    Client,
    /// Commands of the owner of the cluster.
    Command,
}

impl Source {
    /// The source whose turn comes after this one's.
    pub open spec fn after(self) -> Source {
        match self {
            Source::Routing => Source::Client,
            Source::Client => Source::Command,
            Source::Command => Source::Routing,
        }
    }

    /// The source whose turn comes after this one's.
    pub fn next(self) -> (source: Source)
        ensures
            source == self.after(),
    {
        match self {
            Source::Routing => Source::Client,
            Source::Client => Source::Command,
            Source::Command => Source::Routing,
        }
    }
}

/// Which sources have an event waiting.
#[derive(Clone, Copy, Debug, PartialEq, Eq, Structural)]
pub struct Ready {
    pub routing: bool,
    pub client: bool,
    pub command: bool,
}

impl Ready {
    /// Whether `source` has an event waiting.
    pub open spec fn has(self, source: Source) -> bool {
        match source {
            Source::Routing => self.routing,
            Source::Client => self.client,
            Source::Command => self.command,
        }
    }

    /// Whether any source has an event waiting.
    pub open spec fn any(self) -> bool {
        self.routing || self.client || self.command
    }

    /// Whether `source` has an event waiting.
    pub fn is_ready(&self, source: Source) -> (ready: bool)
        ensures
            ready == self.has(source),
    {
        match source {
            Source::Routing => self.routing,
            Source::Client => self.client,
            Source::Command => self.command,
        }
    }
}

/// The source to take the next event from when it is the turn of `turn`:
/// the first source with an event waiting in the order of turns that begins
/// there, and none where nothing waits.
pub open spec fn choice(turn: Source, ready: Ready) -> Option<Source> {
    if ready.has(turn) {
        Some(turn)
    } else if ready.has(turn.after()) {
        Some(turn.after())
    } else if ready.has(turn.after().after()) {
        Some(turn.after().after())
    } else {
        None
    }
}

/// Whose turn it is after the choice: that of the source after the chosen
/// one, and the same as before where nothing waited.
pub open spec fn turn_after(turn: Source, ready: Ready) -> Source {
    match choice(turn, ready) {
        Some(chosen) => chosen.after(),
        None => turn,
    }
}

/// Takes events from the three sources of a node in turn.
#[derive(Debug)]
pub struct Multiplexer {
    turn: Source,
}

impl View for Multiplexer {
    type V = Source;

    /// The source whose turn it is.
    closed spec fn view(&self) -> Source {
        self.turn
    }
}

impl Multiplexer {
    /// A multiplexer that begins with the routing events.
    pub fn new() -> (multiplexer: Self)
        ensures
            multiplexer@ == Source::Routing,
    {
        Multiplexer { turn: Source::Routing }
    }

    /// The source whose turn it is.
    pub fn turn(&self) -> (turn: Source)
        ensures
            turn == self@,
    {
        self.turn
    }

    /// Says from which source to take the next event, given which sources
    /// have one waiting, and passes the turn on.
    pub fn select(&mut self, ready: Ready) -> (chosen: Option<Source>)
        ensures
            chosen == choice(old(self)@, ready),
            final(self)@ == turn_after(old(self)@, ready),
    {
        let first = self.turn;
        let second = first.next();
        let third = second.next();
        let chosen = if ready.is_ready(first) {
            Some(first)
        } else if ready.is_ready(second) {
            Some(second)
        } else if ready.is_ready(third) {
            Some(third)
        } else {
            None
        };
        match chosen {
            Some(source) => {
                self.turn = source.next();
            },
            None => {},
        }
        chosen
    }
}

/// An event is taken whenever one waits, and only from a source that has
/// one; the source whose turn it is comes first.
pub proof fn lemma_choice_is_ready(turn: Source, ready: Ready)
    ensures
        choice(turn, ready) is Some <==> ready.any(),
        choice(turn, ready) matches Some(chosen) ==> ready.has(chosen),
        ready.has(turn) ==> choice(turn, ready) == Some(turn),
{
}

/// No source is starved: a source that has an event waiting at three
/// selections in a row is chosen at one of them, whatever the other
/// sources have waiting and whoever's turn it was.
pub proof fn lemma_no_starvation(
    turn: Source,
    source: Source,
    first: Ready,
    second: Ready,
    third: Ready,
)
    requires
        first.has(source),
        second.has(source),
        third.has(source),
    ensures
        choice(turn, first) == Some(source) || choice(turn_after(turn, first), second) == Some(
            source,
        ) || choice(turn_after(turn_after(turn, first), second), third) == Some(source),
{
}

/// No source comes before the others for good: once a source was chosen,
/// each of the other two is chosen before it where it has an event waiting.
pub proof fn lemma_chosen_goes_last(turn: Source, ready: Ready, then: Ready, other: Source)
    requires
        choice(turn, ready) is Some,
        other != choice(turn, ready)->0,
        then.has(other),
    ensures
        choice(turn_after(turn, ready), then) != choice(turn, ready),
{
}

} // verus!
