//! Data handler capabilities and the historic (backtest) implementation that
//! replays a recorded bar series as a live market feed.

pub mod live;

use vstd::prelude::*;
use crate::data::error::DataError;
use crate::data::market::{Bar, MarketEvent};
use crate::util::new_trace_id;

verus! {

/// Determines whether a data handler can continue providing market events.
pub trait Continuer {
    /// Returns true if the handler expects to produce further market events.
    fn should_continue(&self) -> bool;
}

/// Pull-based source of [`MarketEvent`]s; the natural pacing of a trader.
pub trait MarketGenerator {
    /// Well-formedness that every produced event relies on.
    spec fn inv(&self) -> bool;

    /// Upper bound on how many further events this source can yield.
    spec fn remaining(&self) -> nat;

    /// Yields the next [`MarketEvent`], or None when the feed is exhausted.
    /// Every yielded event carries a valid bar, and the feed is bounded.
    fn generate_market(&mut self) -> (r: Option<MarketEvent>)
        requires
            old(self).inv(),
        ensures
            final(self).inv(),
            r is Some ==> final(self).remaining() < old(self).remaining(),
            r is Some ==> r->Some_0.valid(),
            r is None ==> final(self).remaining() == old(self).remaining(),
    ;
}

/// Configuration for constructing a [`HistoricDataHandler`].
pub struct Config {
    pub exchange: String,
    pub symbol: String,
    pub bars: Vec<Bar>,
}

/// Data handler that simulates a live market feed from a recorded series of
/// bars, and acts as the system heartbeat during a backtest.
pub struct HistoricDataHandler {
    pub exchange: String,
    pub symbol: String,
    pub bars: Vec<Bar>,
    pub next_index: usize,
}

impl HistoricDataHandler {
    /// Every stored bar is valid and the cursor stays inside the series.
    pub open spec fn wf(self) -> bool {
        &&& self.next_index <= self.bars@.len()
        &&& forall|i: int| 0 <= i < self.bars@.len() ==> (#[trigger] self.bars@[i]).valid()
    }

    /// The bars not yet replayed.
    pub open spec fn bars_left(self) -> Seq<Bar> {
        self.bars@.skip(self.next_index as int)
    }

    /// Constructs a new [`HistoricDataHandler`] replaying `config.bars` in
    /// order. Returns an error exactly when some bar is out of bounds.
    pub fn new(config: Config) -> (r: Result<HistoricDataHandler, DataError>)
        ensures
            match r {
                Ok(handler) => {
                    &&& handler.wf()
                    &&& handler.bars_left() == config.bars@
                    &&& handler.exchange@ == config.exchange@
                    &&& handler.symbol@ == config.symbol@
                    &&& forall|i: int|
                        0 <= i < config.bars@.len() ==> (#[trigger] config.bars@[i]).valid()
                },
                Err(e) => {
                    &&& e == DataError::BuilderAttributesInvalid
                    &&& exists|i: int|
                        0 <= i < config.bars@.len() && !(#[trigger] config.bars@[i]).valid()
                },
            },
    {
        let Config { exchange, symbol, bars } = config;
        let mut i: usize = 0;
        while i < bars.len()
            invariant
                bars@ == config.bars@,
                i <= bars@.len(),
                forall|j: int| 0 <= j < i ==> (#[trigger] bars@[j]).valid(),
            decreases bars@.len() - i,
        {
            let bar = bars[i];
            let in_bounds = 0 < bar.open && bar.open <= crate::AMOUNT_LIMIT && 0 < bar.high
                && bar.high <= crate::AMOUNT_LIMIT && 0 < bar.low && bar.low <= crate::AMOUNT_LIMIT
                && 0 < bar.close && bar.close <= crate::AMOUNT_LIMIT && 0 <= bar.volume
                && bar.volume <= crate::AMOUNT_LIMIT;
            if !in_bounds {
                proof {
                    assert(!bars@[i as int].valid());
                }
                return Err(DataError::BuilderAttributesInvalid);
            }
            i = i + 1;
        }
        let handler = HistoricDataHandler { exchange, symbol, bars, next_index: 0 };
        proof {
            assert(handler.bars_left() =~= handler.bars@);
        }
        Ok(handler)
    }
}

impl Continuer for HistoricDataHandler {
    /// True exactly while bars are left to replay.
    fn should_continue(&self) -> (r: bool)
        ensures
            r == (self.next_index < self.bars@.len()),
    {
        self.next_index < self.bars.len()
    }
}

impl MarketGenerator for HistoricDataHandler {
    open spec fn inv(&self) -> bool {
        self.wf()
    }

    open spec fn remaining(&self) -> nat {
        self.bars_left().len()
    }

    /// Replays the next recorded bar as a [`MarketEvent`]: an event comes
    /// exactly while bars are left, carries the first unreplayed bar under
    /// this handler's market names, and consumes it.
    fn generate_market(&mut self) -> (r: Option<MarketEvent>)
        ensures
            final(self).inv(),
            r is Some ==> final(self).remaining() < old(self).remaining(),
            r is Some ==> r->Some_0.valid(),
            r is None ==> final(self).remaining() == old(self).remaining(),
            r is Some <==> old(self).bars_left().len() != 0,
            match r {
                Some(event) => {
                    &&& event.bar == old(self).bars_left()[0]
                    &&& event.timestamp == old(self).bars_left()[0].timestamp
                    &&& event.exchange@ == old(self).exchange@
                    &&& event.symbol@ == old(self).symbol@
                    &&& final(self).bars_left() == old(self).bars_left().skip(1)
                },
                None => *final(self) == *old(self),
            },
    {
        if self.next_index >= self.bars.len() {
            return None;
        }
        let bar = self.bars[self.next_index];
        self.next_index = self.next_index + 1;
        proof {
            assert(self.bars@.skip(self.next_index as int) =~= old(self).bars_left().skip(1));
        }
        Some(MarketEvent {
            trace_id: new_trace_id(),
            timestamp: bar.timestamp,
            exchange: self.exchange.clone(),
            symbol: self.symbol.clone(),
            bar,
        })
    }
}

} // verus!
