//! Advisory signals produced by a strategy for the portfolio to analyse.

use vstd::prelude::*;
use crate::data::market::MarketMeta;

verus! {

/// Strength of a [`Decision`], in thousandths of full conviction: a value in
/// `[0, STRENGTH_SCALE]` stands for the interval `[0, 1]`.
pub type SignalStrength = u32;

/// Full conviction; the denominator of every [`SignalStrength`].
pub const STRENGTH_SCALE: u32 = 1000;

/// Intent to open or close a position in a given direction.
#[derive(Debug, PartialEq, Eq, Structural, Clone, Copy, Hash)]
pub enum Decision {
    Long,
    CloseLong,
    Short,
    CloseShort,
}

impl Decision {
    /// True for the decision that opens a long position.
    pub open spec fn spec_is_long(&self) -> bool {
        self is Long
    }

    /// True for the decision that opens a short position.
    pub open spec fn spec_is_short(&self) -> bool {
        self is Short
    }

    /// True for a decision that opens a position.
    pub open spec fn spec_is_entry(&self) -> bool {
        self is Long || self is Short
    }

    /// True for a decision that exits a position.
    pub open spec fn spec_is_exit(&self) -> bool {
        self is CloseLong || self is CloseShort
    }

    /// Returns true if this is the [`Decision::Long`] variant.
    #[verifier::when_used_as_spec(spec_is_long)]
    pub fn is_long(&self) -> (r: bool)
        ensures
            r == self.spec_is_long(),
    {
        matches!(self, Decision::Long)
    }

    /// Returns true if this is the [`Decision::Short`] variant.
    #[verifier::when_used_as_spec(spec_is_short)]
    pub fn is_short(&self) -> (r: bool)
        ensures
            r == self.spec_is_short(),
    {
        matches!(self, Decision::Short)
    }

    /// Returns true if the decision opens a new position.
    #[verifier::when_used_as_spec(spec_is_entry)]
    pub fn is_entry(&self) -> (r: bool)
        ensures
            r == self.spec_is_entry(),
    {
        matches!(self, Decision::Long | Decision::Short)
    }

    /// Returns true if the decision exits an open position.
    #[verifier::when_used_as_spec(spec_is_exit)]
    pub fn is_exit(&self) -> (r: bool)
        ensures
            r == self.spec_is_exit(),
    {
        matches!(self, Decision::CloseLong | Decision::CloseShort)
    }
}

impl Default for Decision {
    /// The default decision is to open a long position.
    fn default() -> (d: Decision)
        ensures
            d == Decision::Long,
    {
        Decision::Long
    }
}

/// Mapping from [`Decision`] to [`SignalStrength`]; the first entry for a
/// decision is authoritative. An empty map means "no advice".
pub type SignalMap = Vec<(Decision, SignalStrength)>;

/// The strength attached to `decision` by the first matching entry, if any.
pub open spec fn signal_lookup(signals: Seq<(Decision, SignalStrength)>, decision: Decision) -> Option<SignalStrength>
    decreases signals.len(),
{
    if signals.len() == 0 {
        None
    } else if signals[0].0 == decision {
        Some(signals[0].1)
    } else {
        signal_lookup(signals.skip(1), decision)
    }
}

/// Returns the strength attached to `decision`, or None if the map carries no
/// advice for it.
pub fn signals_get(signals: &SignalMap, decision: Decision) -> (r: Option<SignalStrength>)
    ensures
        r == signal_lookup(signals@, decision),
{
    let mut i: usize = 0;
    proof {
        assert(signals@.skip(0) =~= signals@);
    }
    while i < signals.len()
        invariant
            i <= signals@.len(),
            signal_lookup(signals@, decision) == signal_lookup(signals@.skip(i as int), decision),
        decreases signals@.len() - i,
    {
        let (d, s) = signals[i];
        proof {
            assert(signals@.skip(i as int)[0] == signals@[i as int]);
            assert(signals@.skip(i as int).skip(1) =~= signals@.skip(i as int + 1));
        }
        if d == decision {
            return Some(s);
        }
        i = i + 1;
    }
    proof {
        assert(signals@.skip(i as int) =~= Seq::<(Decision, SignalStrength)>::empty());
    }
    None
}

/// A strength found in a map whose entries are all in scale is in scale.
pub proof fn lemma_signal_lookup_bounded(
    signals: Seq<(Decision, SignalStrength)>,
    decision: Decision,
)
    requires
        forall|i: int| 0 <= i < signals.len() ==> (#[trigger] signals[i]).1 <= STRENGTH_SCALE,
    ensures
        signal_lookup(signals, decision) is Some ==> signal_lookup(signals, decision)->Some_0
            <= STRENGTH_SCALE,
    decreases signals.len(),
{
    if signals.len() > 0 && signals[0].0 != decision {
        assert(forall|j: int|
            0 <= j < signals.skip(1).len() ==> (#[trigger] signals.skip(1)[j]).1
                <= STRENGTH_SCALE);
        lemma_signal_lookup_bounded(signals.skip(1), decision);
    }
}

/// Advisory output of a strategy carrying a map of decisions to strengths.
#[derive(Debug)]
pub struct SignalEvent {
    pub trace_id: u128,
    pub timestamp: i64,
    pub exchange: String,
    pub symbol: String,
    pub market_meta: MarketMeta,
    pub signals: SignalMap,
}

impl SignalEvent {
    /// Valid when the snapshot is priced and every strength is in scale.
    pub open spec fn valid(self) -> bool {
        &&& self.market_meta.valid()
        &&& forall|i: int|
            0 <= i < self.signals@.len() ==> (#[trigger] self.signals@[i]).1 <= STRENGTH_SCALE
    }
}

/// Out-of-band command to exit the open position of a market, flowing to the
/// portfolio as a signal.
#[derive(Debug)]
pub struct SignalForceExit {
    pub exchange: String,
    pub symbol: String,
}

impl SignalForceExit {
    /// Constructs the force-exit signal for the provided market.
    pub fn from_market(market: &crate::Market) -> (s: SignalForceExit)
        ensures
            s.exchange@ == market.exchange@,
            s.symbol@ == market.symbol@,
    {
        SignalForceExit {
            exchange: market.exchange.clone(),
            symbol: market.symbol.clone(),
        }
    }
}

} // verus!
