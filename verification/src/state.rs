//! The phase state machine of a sale.
//!
//! A sale is in exactly one of four phases.  The phase is held as a
//! [`StateMachineWrapper`], whose variants carry a typestate marker and no
//! data; its view is the plain tag [`Phase`], over which the transitions are
//! stated.

use vstd::prelude::*;

verus! {

/// The phase of a sale as a plain tag: the mathematical model of a
/// [`StateMachineWrapper`].
#[derive(Copy, Clone, Debug, PartialEq, Eq, Structural)]
pub enum Phase {
    NotStarted,
    SellRound,
    TradeRound,
    Ended,
}

impl Phase {
    /// The regular successor of a phase: the sale opens with a sell round,
    /// sell and trade rounds alternate, and `Ended` is never left.
    pub open spec fn next(self) -> Phase {
        match self {
            Phase::NotStarted => Phase::SellRound,
            Phase::SellRound => Phase::TradeRound,
            Phase::TradeRound => Phase::SellRound,
            Phase::Ended => Phase::Ended,
        }
    }

    /// The byte under which a phase is stored.
    pub open spec fn discriminant(self) -> u8 {
        match self {
            Phase::NotStarted => 0u8,
            Phase::SellRound => 1u8,
            Phase::TradeRound => 2u8,
            Phase::Ended => 3u8,
        }
    }

    /// The phase that a stored byte stands for.  Every byte above 2 reads as
    /// `Ended`.
    pub open spec fn from_discriminant(n: u8) -> Phase {
        if n == 0 {
            Phase::NotStarted
        } else if n == 1 {
            Phase::SellRound
        } else if n == 2 {
            Phase::TradeRound
        } else {
            Phase::Ended
        }
    }

    /// The phase reached from `self` by `steps` regular transitions.
    pub open spec fn next_n(self, steps: nat) -> Phase
        decreases steps,
    {
        if steps == 0 {
            self
        } else {
            self.next().next_n((steps - 1) as nat)
        }
    }
}

/// Marker of the phase before the first round.
#[derive(Copy, Clone, Debug, PartialEq, Eq, Structural)]
pub struct NotStarted {}

/// Marker of a round in which tokens are sold at the current price.
#[derive(Copy, Clone, Debug, PartialEq, Eq, Structural)]
pub struct SellRound {}

/// Marker of a round in which bought tokens are traded.
#[derive(Copy, Clone, Debug, PartialEq, Eq, Structural)]
pub struct TradeRound {}

/// Marker of the terminal phase.
#[derive(Copy, Clone, Debug, PartialEq, Eq, Structural)]
pub struct Ended {}

/// A state machine that is statically known to be in phase `S`.
#[derive(Copy, Clone, Debug, PartialEq, Eq)]
pub struct StateMachine<S> {
    _state: S,
}

impl<S> View for StateMachine<S> {
    type V = S;

    /// A machine is no more than its marker.
    closed spec fn view(&self) -> S {
        self._state
    }
}

impl StateMachine<NotStarted> {
    /// The machine of a sale that has not started.
    pub fn new() -> (r: Self)
        ensures
            r@ == (NotStarted {  }),
    {
        StateMachine { _state: NotStarted {  } }
    }
}

/// The phase of a sale, each variant holding the machine of that phase.
#[derive(Copy, Clone, Debug, PartialEq, Eq)]
pub enum StateMachineWrapper {
    NotStarted(StateMachine<NotStarted>),
    SellRound(StateMachine<SellRound>),
    TradeRound(StateMachine<TradeRound>),
    Ended(StateMachine<Ended>),
}

impl View for StateMachineWrapper {
    type V = Phase;

    open spec fn view(&self) -> Phase {
        match self {
            StateMachineWrapper::NotStarted(_) => Phase::NotStarted,
            StateMachineWrapper::SellRound(_) => Phase::SellRound,
            StateMachineWrapper::TradeRound(_) => Phase::TradeRound,
            StateMachineWrapper::Ended(_) => Phase::Ended,
        }
    }
}

impl StateMachineWrapper {
    /// Makes the regular transition out of the current phase.
    pub fn next(self) -> (r: Self)
        ensures
            r@ == self@.next(),
    {
        match self {
            StateMachineWrapper::NotStarted(val) => StateMachineWrapper::SellRound(val.into()),
            StateMachineWrapper::SellRound(val) => StateMachineWrapper::TradeRound(val.into()),
            StateMachineWrapper::TradeRound(val) => StateMachineWrapper::SellRound(val.into()),
            StateMachineWrapper::Ended(v) => StateMachineWrapper::Ended(v),
        }
    }

    /// Ends the sale, whatever phase it is in.
    pub fn end(self) -> (r: Self)
        ensures
            r@ == Phase::Ended,
    {
        StateMachineWrapper::Ended(StateMachine { _state: Ended {  } })
    }

    /// The byte under which the phase is stored.
    pub fn discriminant(&self) -> (n: u8)
        ensures
            n == self@.discriminant(),
    {
        match self {
            StateMachineWrapper::NotStarted(_) => 0,
            StateMachineWrapper::SellRound(_) => 1,
            StateMachineWrapper::TradeRound(_) => 2,
            StateMachineWrapper::Ended(_) => 3,
        }
    }
}

impl From<StateMachine<NotStarted>> for StateMachine<SellRound> {
    fn from(_prev: StateMachine<NotStarted>) -> (r: Self)
        ensures
            r@ == (SellRound {  }),
    {
        StateMachine { _state: SellRound {  } }
    }
}

impl vstd::std_specs::convert::FromSpecImpl<StateMachine<NotStarted>> for StateMachine<SellRound> {
    open spec fn obeys_from_spec() -> bool {
        true
    }

    closed spec fn from_spec(_prev: StateMachine<NotStarted>) -> Self {
        StateMachine { _state: SellRound {  } }
    }
}

impl From<StateMachine<SellRound>> for StateMachine<TradeRound> {
    fn from(_prev: StateMachine<SellRound>) -> (r: Self)
        ensures
            r@ == (TradeRound {  }),
    {
        StateMachine { _state: TradeRound {  } }
    }
}

impl vstd::std_specs::convert::FromSpecImpl<StateMachine<SellRound>> for StateMachine<TradeRound> {
    open spec fn obeys_from_spec() -> bool {
        true
    }

    closed spec fn from_spec(_prev: StateMachine<SellRound>) -> Self {
        StateMachine { _state: TradeRound {  } }
    }
}

impl From<StateMachine<TradeRound>> for StateMachine<SellRound> {
    fn from(_prev: StateMachine<TradeRound>) -> (r: Self)
        ensures
            r@ == (SellRound {  }),
    {
        StateMachine { _state: SellRound {  } }
    }
}

impl vstd::std_specs::convert::FromSpecImpl<StateMachine<TradeRound>> for StateMachine<SellRound> {
    open spec fn obeys_from_spec() -> bool {
        true
    }

    closed spec fn from_spec(_prev: StateMachine<TradeRound>) -> Self {
        StateMachine { _state: SellRound {  } }
    }
}

impl From<u8> for StateMachineWrapper {
    /// Reads a stored phase back: 0, 1 and 2 are the three live phases, and
    /// every other byte is `Ended`.
    fn from(n: u8) -> (r: Self)
        ensures
            r@ == Phase::from_discriminant(n),
    {
        match n {
            0 => StateMachineWrapper::NotStarted(StateMachine { _state: NotStarted {  } }),
            1 => StateMachineWrapper::SellRound(StateMachine { _state: SellRound {  } }),
            2 => StateMachineWrapper::TradeRound(StateMachine { _state: TradeRound {  } }),
            _ => StateMachineWrapper::Ended(StateMachine { _state: Ended {  } }),
        }
    }
}

impl vstd::std_specs::convert::FromSpecImpl<u8> for StateMachineWrapper {
    open spec fn obeys_from_spec() -> bool {
        true
    }

    closed spec fn from_spec(n: u8) -> Self {
        match Phase::from_discriminant(n) {
            Phase::NotStarted => StateMachineWrapper::NotStarted(
                StateMachine { _state: NotStarted {  } },
            ),
            Phase::SellRound => StateMachineWrapper::SellRound(
                StateMachine { _state: SellRound {  } },
            ),
            Phase::TradeRound => StateMachineWrapper::TradeRound(
                StateMachine { _state: TradeRound {  } },
            ),
            Phase::Ended => StateMachineWrapper::Ended(StateMachine { _state: Ended {  } }),
        }
    }
}

impl Default for StateMachineWrapper {
    /// A sale starts out as not started.
    fn default() -> (r: Self)
        ensures
            r@ == Phase::NotStarted,
    {
        Self::NotStarted(StateMachine::new())
    }
}

/// Two values of the same phase are the same value: the markers hold nothing.
pub proof fn lemma_view_determines_value(a: StateMachineWrapper, b: StateMachineWrapper)
    requires
        a@ == b@,
    ensures
        a == b,
{
    match (a, b) {
        (StateMachineWrapper::NotStarted(x), StateMachineWrapper::NotStarted(y)) => {
            assert(x._state == y._state);
        },
        (StateMachineWrapper::SellRound(x), StateMachineWrapper::SellRound(y)) => {
            assert(x._state == y._state);
        },
        (StateMachineWrapper::TradeRound(x), StateMachineWrapper::TradeRound(y)) => {
            assert(x._state == y._state);
        },
        (StateMachineWrapper::Ended(x), StateMachineWrapper::Ended(y)) => {
            assert(x._state == y._state);
        },
        _ => {},
    }
}

/// A phase that is stored and read back is the same phase.
pub proof fn lemma_discriminant_round_trip(p: Phase)
    ensures
        p.discriminant() <= 3,
        Phase::from_discriminant(p.discriminant()) == p,
{
}

/// `Ended` is terminal: no number of regular transitions leaves it.
pub proof fn lemma_ended_is_terminal(steps: nat)
    ensures
        Phase::Ended.next_n(steps) == Phase::Ended,
    decreases steps,
{
    if steps > 0 {
        lemma_ended_is_terminal((steps - 1) as nat);
    }
}

/// A sale that runs its regular course alternates between the two rounds:
/// after an odd number of transitions from `NotStarted` it is in a sell
/// round, after an even number, two or more, in a trade round.
pub proof fn lemma_rounds_alternate(steps: nat)
    ensures
        Phase::NotStarted.next_n(steps) == if steps == 0 {
            Phase::NotStarted
        } else if steps % 2 == 1 {
            Phase::SellRound
        } else {
            Phase::TradeRound
        },
        Phase::SellRound.next_n(steps) == if steps % 2 == 0 {
            Phase::SellRound
        } else {
            Phase::TradeRound
        },
        Phase::TradeRound.next_n(steps) == if steps % 2 == 0 {
            Phase::TradeRound
        } else {
            Phase::SellRound
        },
    decreases steps,
{
    if steps > 0 {
        lemma_rounds_alternate((steps - 1) as nat);
    }
}

} // verus!
