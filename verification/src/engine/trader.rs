//! The per-market trader worker: drives the Market -> Signal -> Order ->
//! Fill pipeline against the shared portfolio, honouring exit and
//! terminate commands within one loop iteration.

use vstd::prelude::*;
use crate::data::handler::{Continuer, MarketGenerator};
use crate::engine::channel::{try_recv_command, CommandPoll};
use crate::engine::Command;
use crate::event::{Event, MessageTransmitter};
use crate::execution::FillGenerator;
use crate::portfolio::shared::SharedPortfolio;
use crate::strategy::signal::SignalForceExit;
use crate::strategy::SignalGenerator;
use crate::Market;

verus! {

/// Trader instance capable of trading one market pair with its own data
/// handler, strategy and execution handler. The shared portfolio is handed
/// in by the caller for the duration of a run.
pub struct Trader<EventTx, Data, Strategy, Execution> {
    /// Identifier of the engine that owns this trader.
    pub engine_id: String,
    /// The market pair this trader deals in.
    pub market: Market,
    /// Receiver of commands from the engine.
    pub command_rx: tokio::sync::mpsc::Receiver<Command>,
    /// Sink for every event the pipeline produces.
    pub event_tx: EventTx,
    /// The market data source and heartbeat.
    pub data: Data,
    /// Generates advisory signals from market events.
    pub strategy: Strategy,
    /// Turns orders into fills.
    pub execution: Execution,
}

impl<
    EventTx: MessageTransmitter,
    Data: Continuer + MarketGenerator,
    Strategy: SignalGenerator,
    Execution: FillGenerator,
> Trader<EventTx, Data, Strategy, Execution> {
    /// Constructs a new [`Trader`] from its components.
    pub fn new(
        engine_id: String,
        market: Market,
        command_rx: tokio::sync::mpsc::Receiver<Command>,
        event_tx: EventTx,
        data: Data,
        strategy: Strategy,
        execution: Execution,
    ) -> (trader: Trader<EventTx, Data, Strategy, Execution>)
        ensures
            trader.engine_id@ == engine_id@,
            trader.market == market,
            trader.data == data,
    {
        Trader { engine_id, market, command_rx, event_tx, data, strategy, execution }
    }

    /// Runs the trader's event loop until its data feed ends, a terminate
    /// command arrives, the engine side of the command channel is gone, or
    /// a portfolio error makes continuing unsound. Each iteration polls
    /// for at most one command and pulls at most one market event, so the
    /// trader answers a command within one iteration. Every portfolio call
    /// takes the shared lock exactly once, and never holds it across
    /// strategy, execution or channel work.
    pub fn run(&mut self, portfolio: &SharedPortfolio)
        requires
            old(self).data.inv(),
    {
        loop
            invariant
                self.data.inv(),
            decreases self.data.remaining(),
        {
            // One non-blocking command poll per iteration.
            match try_recv_command(&mut self.command_rx) {
                CommandPoll::Received(command) => match command {
                    Command::Terminate(_) => {
                        return ;
                    },
                    Command::ExitPosition(_) => {
                        if !self.force_exit(portfolio) {
                            return ;
                        }
                    },
                    Command::ExitAllPositions => {
                        if !self.force_exit(portfolio) {
                            return ;
                        }
                    },
                    Command::FetchOpenPositions(_) => {
                        // Engine-level command; dropping the reply channel
                        // tells the remote caller nobody answers here.
                    },
                },
                CommandPoll::Empty => {},
                CommandPoll::Disconnected => {
                    // Every sender is gone: no more commands will come.
                    return ;
                },
            }
            if !self.data.should_continue() {
                return ;
            }
            let market = match self.data.generate_market() {
                Some(market) => market,
                None => {
                    return ;
                },
            };
            match portfolio.update_from_market(&market) {
                Ok(Some(position_update)) => {
                    self.event_tx.send(Event::PositionUpdate(position_update));
                },
                Ok(None) => {},
                Err(_) => {
                    proof {
                        assert(false);
                    }
                    return ;
                },
            }
            let signal = match self.strategy.generate_signal(&market) {
                Ok(Some(signal)) => signal,
                Ok(None) => {
                    self.event_tx.send(Event::Market(market));
                    continue ;
                },
                Err(_) => {
                    // A strategy failure loses this event; skipping keeps
                    // the trader live.
                    self.event_tx.send(Event::Market(market));
                    continue ;
                },
            };
            match portfolio.generate_order(&signal) {
                Ok(Some(order)) => {
                    self.event_tx.send(Event::Signal(signal));
                    match self.execution.generate_fill(&order) {
                        Ok(fill) => {
                            self.event_tx.send(Event::Order(order));
                            match portfolio.update_from_fill(&fill) {
                                Ok(events) => {
                                    self.event_tx.send(Event::Fill(fill));
                                    self.event_tx.send_many(events);
                                },
                                Err(_) => {
                                    // A portfolio error on a fill is fatal
                                    // to this trader.
                                    return ;
                                },
                            }
                        },
                        Err(_) => {
                            // An execution failure loses this event.
                        },
                    }
                },
                Ok(None) => {
                    self.event_tx.send(Event::Signal(signal));
                },
                Err(_) => {
                    proof {
                        assert(false);
                    }
                    return ;
                },
            }
            self.event_tx.send(Event::Market(market));
        }
    }

    /// Exits this trader's open position, if one exists: synthesizes a
    /// force-exit signal, asks the portfolio for the exit order, transacts
    /// it and applies the fill. False when a portfolio error makes
    /// continuing unsound.
    fn force_exit(&mut self, portfolio: &SharedPortfolio) -> (keep_running: bool)
        ensures
            final(self).data == old(self).data,
    {
        let force_exit_signal = SignalForceExit::from_market(&self.market);
        match portfolio.generate_exit_order(force_exit_signal) {
            Ok(Some(order)) => {
                match self.execution.generate_fill(&order) {
                    Ok(fill) => {
                        match portfolio.update_from_fill(&fill) {
                            Ok(events) => {
                                self.event_tx.send(Event::Order(order));
                                self.event_tx.send_many(events);
                                true
                            },
                            Err(_) => false,
                        }
                    },
                    Err(_) => true,
                }
            },
            Ok(None) => true,
            Err(_) => {
                proof {
                    assert(false);
                }
                false
            },
        }
    }
}

} // verus!
