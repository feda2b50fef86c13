//! The engine orchestrator: owns the per-trader command channels, services
//! remote commands, and drives the graceful shutdown sequence.

use vstd::prelude::*;
use crate::engine::channel::{
    send_positions_reply, try_recv_command, try_send_command, CommandPoll,
};
use crate::engine::error::EngineError;
use crate::portfolio::shared::SharedPortfolio;
use crate::portfolio::position::Position;
use crate::Market;

pub mod channel;
pub mod error;
pub mod trader;

verus! {

/// Communicates a String is a message associated with a [`Command`].
pub type Message = String;

/// Commands that can be actioned by an [`Engine`] and its associated
/// traders.
pub enum Command {
    /// Fetches all the engine's open positions and sends them on the
    /// provided one-shot reply channel.
    FetchOpenPositions(tokio::sync::oneshot::Sender<Result<Vec<Position>, EngineError>>),
    /// Terminate every running trader associated with this engine.
    Terminate(Message),
    /// Exit every open position associated with this engine.
    ExitAllPositions,
    /// Exit the position of one market; routed to the relevant trader.
    ExitPosition(Market),
}

/// Lifecycle of the engine: commands are serviced while Running, a
/// Terminate command drains the traders, and after the grace period the
/// engine stops.
#[derive(Debug, PartialEq, Eq, Structural, Clone, Copy)]
pub enum EngineState {
    Running,
    Draining,
    Stopped,
}

/// What the engine's run loop should do after servicing a command.
pub enum EngineFlow {
    /// Keep servicing commands.
    Continue,
    /// Exit orders have been broadcast: wait the shutdown grace period,
    /// then terminate the traders with this message and stop.
    Drain(Message),
}

/// Lego components for constructing an [`Engine`] via the new() constructor
/// method.
pub struct EngineLego {
    /// Unique identifier for an engine, seeding its portfolio & positions.
    pub engine_id: String,
    /// Receiver of [`Command`]s from a remote source.
    pub command_rx: tokio::sync::mpsc::Receiver<Command>,
    /// A [`Command`] transmitter for every trader of this engine.
    pub trader_command_txs: Vec<(Market, tokio::sync::mpsc::Sender<Command>)>,
}

/// Multi-threaded trading engine capable of trading with an arbitrary
/// number of trader market pairs. The engine itself holds the remote
/// command receiver and one command transmitter per trader; the traders
/// and the shared portfolio live with the caller, which hands the
/// portfolio in wherever a command needs it.
pub struct Engine {
    /// Unique identifier for this engine.
    pub engine_id: String,
    /// Receiver of [`Command`]s from a remote source.
    pub command_rx: tokio::sync::mpsc::Receiver<Command>,
    /// A [`Command`] transmitter for every trader of this engine.
    pub trader_command_txs: Vec<(Market, tokio::sync::mpsc::Sender<Command>)>,
    /// Where the engine stands in its lifecycle.
    pub state: EngineState,
}

impl Engine {
    /// Constructs a new trading [`Engine`] instance, in the Running state,
    /// using the provided [`EngineLego`].
    pub fn new(lego: EngineLego) -> (engine: Engine)
        ensures
            engine.engine_id@ == lego.engine_id@,
            engine.trader_command_txs == lego.trader_command_txs,
            engine.state == EngineState::Running,
    {
        Engine {
            engine_id: lego.engine_id,
            command_rx: lego.command_rx,
            trader_command_txs: lego.trader_command_txs,
            state: EngineState::Running,
        }
    }

    /// Builder to construct [`Engine`] instances.
    pub fn builder() -> (b: EngineBuilder)
        ensures
            b.engine_id is None,
            b.command_rx is None,
            b.trader_command_txs is None,
    {
        EngineBuilder { engine_id: None, command_rx: None, trader_command_txs: None }
    }

    /// Non-blocking poll of the remote command channel.
    pub fn poll_command(&mut self) -> (poll: CommandPoll)
        ensures
            final(self).engine_id == old(self).engine_id,
            final(self).trader_command_txs == old(self).trader_command_txs,
            final(self).state == old(self).state,
    {
        try_recv_command(&mut self.command_rx)
    }

    /// Services one received [`Command`].
    ///
    /// Fetching open positions briefly read-locks the portfolio and answers
    /// on the command's reply channel. Exit commands are forwarded to the
    /// addressed traders. A terminate command broadcasts an exit to every
    /// trader and moves the engine to Draining: the caller waits the grace
    /// period and then calls [`Engine::terminate_traders`]. Exactly the
    /// terminate command drains.
    pub fn handle_command(&mut self, command: Command, portfolio: &SharedPortfolio) -> (flow:
        EngineFlow)
        ensures
            final(self).engine_id == old(self).engine_id,
            final(self).trader_command_txs == old(self).trader_command_txs,
            match command {
                Command::Terminate(message) => {
                    &&& final(self).state == EngineState::Draining
                    &&& flow matches EngineFlow::Drain(m) && m == message
                },
                _ => {
                    &&& final(self).state == old(self).state
                    &&& flow is Continue
                },
            },
    {
        match command {
            Command::FetchOpenPositions(reply_tx) => {
                self.fetch_open_positions(reply_tx, portfolio);
                EngineFlow::Continue
            },
            Command::Terminate(message) => {
                self.exit_all_positions();
                self.state = EngineState::Draining;
                EngineFlow::Drain(message)
            },
            Command::ExitPosition(market) => {
                self.exit_position(market);
                EngineFlow::Continue
            },
            Command::ExitAllPositions => {
                self.exit_all_positions();
                EngineFlow::Continue
            },
        }
    }

    /// Fetches all the engine's open positions and sends them on the
    /// provided one-shot reply channel. The portfolio is only read, under
    /// a brief read-lock.
    pub fn fetch_open_positions(
        &self,
        reply_tx: tokio::sync::oneshot::Sender<Result<Vec<Position>, EngineError>>,
        portfolio: &SharedPortfolio,
    ) {
        let open_positions = portfolio.get_open_positions();
        let _ = send_positions_reply(reply_tx, Ok(open_positions));
    }

    /// Requests the exit of every open position by sending an exit command
    /// to every trader (best effort: a trader whose channel is gone is
    /// skipped).
    pub fn exit_all_positions(&self) {
        let mut i: usize = 0;
        while i < self.trader_command_txs.len()
            decreases self.trader_command_txs@.len() - i,
        {
            let (market, command_tx) = &self.trader_command_txs[i];
            let _ = try_send_command(command_tx, Command::ExitPosition(market.duplicate()));
            i = i + 1;
        }
    }

    /// Routes an exit command to the trader of the given market; a market
    /// no trader serves is ignored (best effort).
    pub fn exit_position(&self, market: Market) {
        let mut i: usize = 0;
        while i < self.trader_command_txs.len()
            decreases self.trader_command_txs@.len() - i,
        {
            let (candidate, command_tx) = &self.trader_command_txs[i];
            if candidate.same_market(&market) {
                let _ = try_send_command(command_tx, Command::ExitPosition(market));
                return ;
            }
            i = i + 1;
        }
    }

    /// Distributes a terminate command to every trader and stops the
    /// engine. Called after the shutdown grace period that follows
    /// [`Command::Terminate`].
    pub fn terminate_traders(&mut self, message: Message)
        ensures
            final(self).engine_id == old(self).engine_id,
            final(self).trader_command_txs == old(self).trader_command_txs,
            final(self).state == EngineState::Stopped,
    {
        let mut i: usize = 0;
        while i < self.trader_command_txs.len()
            invariant
                self.engine_id == old(self).engine_id,
                self.trader_command_txs == old(self).trader_command_txs,
            decreases self.trader_command_txs@.len() - i,
        {
            let (_, command_tx) = &self.trader_command_txs[i];
            let _ = try_send_command(command_tx, Command::Terminate(message.clone()));
            i = i + 1;
        }
        self.state = EngineState::Stopped;
    }
}

/// Builder to construct [`Engine`] instances; every field is required.
pub struct EngineBuilder {
    pub engine_id: Option<String>,
    pub command_rx: Option<tokio::sync::mpsc::Receiver<Command>>,
    pub trader_command_txs: Option<Vec<(Market, tokio::sync::mpsc::Sender<Command>)>>,
}

impl EngineBuilder {
    /// True once every required attribute has been provided.
    pub open spec fn complete(self) -> bool {
        &&& self.engine_id is Some
        &&& self.command_rx is Some
        &&& self.trader_command_txs is Some
    }

    /// Returns a new builder with no attribute provided.
    pub fn new() -> (b: EngineBuilder)
        ensures
            b.engine_id is None,
            b.command_rx is None,
            b.trader_command_txs is None,
    {
        Engine::builder()
    }

    pub fn engine_id(self, value: String) -> (b: EngineBuilder)
        ensures
            b == (EngineBuilder { engine_id: Some(value), ..self }),
    {
        EngineBuilder { engine_id: Some(value), ..self }
    }

    pub fn command_rx(self, value: tokio::sync::mpsc::Receiver<Command>) -> (b: EngineBuilder)
        ensures
            b == (EngineBuilder { command_rx: Some(value), ..self }),
    {
        EngineBuilder { command_rx: Some(value), ..self }
    }

    pub fn trader_command_txs(
        self,
        value: Vec<(Market, tokio::sync::mpsc::Sender<Command>)>,
    ) -> (b: EngineBuilder)
        ensures
            b == (EngineBuilder { trader_command_txs: Some(value), ..self }),
    {
        EngineBuilder { trader_command_txs: Some(value), ..self }
    }

    /// Builds the [`Engine`] if and only if every attribute was provided;
    /// otherwise reports the builder as incomplete. A built engine starts
    /// Running.
    pub fn build(self) -> (r: Result<Engine, EngineError>)
        ensures
            match r {
                Ok(engine) => {
                    &&& self.complete()
                    &&& Some(engine.engine_id) == self.engine_id
                    &&& Some(engine.trader_command_txs) == self.trader_command_txs
                    &&& engine.state == EngineState::Running
                },
                Err(e) => {
                    &&& !self.complete()
                    &&& e == EngineError::BuilderIncomplete
                },
            },
    {
        if let (Some(engine_id), Some(command_rx), Some(trader_command_txs)) = (
            self.engine_id,
            self.command_rx,
            self.trader_command_txs,
        ) {
            Ok(
                Engine {
                    engine_id,
                    command_rx,
                    trader_command_txs,
                    state: EngineState::Running,
                },
            )
        } else {
            Err(EngineError::BuilderIncomplete)
        }
    }
}

} // verus!
