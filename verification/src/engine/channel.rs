//! The command channel surface: the engine forwards commands to traders
//! over bounded channels and answers open-position fetches over one-shot
//! reply channels.

use vstd::prelude::*;
use crate::engine::error::EngineError;
use crate::engine::Command;
use crate::portfolio::position::Position;

verus! {

#[verifier::external_type_specification]
#[verifier::external_body]
#[verifier::reject_recursive_types(T)]
pub struct ExMpscSender<T>(tokio::sync::mpsc::Sender<T>);

#[verifier::external_type_specification]
#[verifier::external_body]
#[verifier::reject_recursive_types(T)]
pub struct ExMpscReceiver<T>(tokio::sync::mpsc::Receiver<T>);

#[verifier::external_type_specification]
#[verifier::external_body]
#[verifier::reject_recursive_types(T)]
pub struct ExOneshotSender<T>(tokio::sync::oneshot::Sender<T>);

/// Outcome of one non-blocking poll of a command channel.
pub enum CommandPoll {
    /// A command was waiting.
    Received(Command),
    /// No command is waiting; the sender side is still alive.
    Empty,
    /// Every sender has been dropped: no more commands will ever come.
    Disconnected,
}

/// Relies on tokio's mpsc::Receiver::try_recv: a non-blocking poll that
/// hands back a waiting command, or reports the channel empty or
/// disconnected. Nothing is promised of the outcome: it depends on what
/// other threads have sent.
#[verifier::external_body]
pub fn try_recv_command(rx: &mut tokio::sync::mpsc::Receiver<Command>) -> CommandPoll {
    match rx.try_recv() {
        Ok(command) => CommandPoll::Received(command),
        Err(tokio::sync::mpsc::error::TryRecvError::Empty) => CommandPoll::Empty,
        Err(tokio::sync::mpsc::error::TryRecvError::Disconnected) => CommandPoll::Disconnected,
    }
}

/// Relies on tokio's mpsc::Sender::try_send: hands the command to the
/// channel if it has capacity and a live receiver. True on success; nothing
/// more is promised, since the outcome depends on the receiver side.
#[verifier::external_body]
pub fn try_send_command(tx: &tokio::sync::mpsc::Sender<Command>, command: Command) -> bool {
    match tx.try_send(command) {
        Ok(()) => true,
        Err(_) => false,
    }
}

/// Relies on tokio's oneshot::Sender::send: consumes the reply channel and
/// hands over the fetched positions if the receiver still listens. True on
/// success; nothing more is promised.
#[verifier::external_body]
pub fn send_positions_reply(
    tx: tokio::sync::oneshot::Sender<Result<Vec<Position>, EngineError>>,
    reply: Result<Vec<Position>, EngineError>,
) -> bool {
    match tx.send(reply) {
        Ok(()) => true,
        Err(_) => false,
    }
}

} // verus!
