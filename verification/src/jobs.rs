//! Handles of work running on other threads: the channel their results
//! arrive on and, for cancellable work, the shared cancel token.
use std::sync::Arc;
use std::sync::atomic::AtomicBool;
use std::sync::mpsc::{Receiver, TryRecvError};
use vstd::prelude::*;
use crate::state::ProgressMessage;

verus! {

#[verifier::external_type_specification]
#[verifier::external_body]
#[verifier::reject_recursive_types(T)]
pub struct ExReceiver<T>(Receiver<T>);

/// What a non-blocking receive found.
#[derive(Debug)]
pub enum Received<T> {
    Message(T),
    /// Nothing yet; the sender is still alive.
    Empty,
    /// The sender is gone and nothing is left.
    Disconnected,
}

/// `Receiver::try_recv`, its two errors told apart. What arrives depends on
/// the other thread, so nothing is stated of it.
#[verifier::external_body]
pub fn try_receive<T>(rx: &Receiver<T>) -> Received<T> {
    match rx.try_recv() {
        Ok(m) => Received::Message(m),
        Err(TryRecvError::Empty) => Received::Empty,
        Err(TryRecvError::Disconnected) => Received::Disconnected,
    }
}

/// A running file job: its progress messages and its cancel token. Setting
/// the token stops the job at its next File-level Checkpoint.
pub struct AsyncJobHandle {
    pub rx: Receiver<ProgressMessage>,
    pub cancel: Arc<AtomicBool>,
}

/// A running task with the same protocol as a file job, every progress call
/// forwarded without throttling.
pub struct AsyncTaskHandle {
    pub rx: Receiver<ProgressMessage>,
    pub cancel: Arc<AtomicBool>,
}

/// A running copy: its progress messages and its cancel token.
pub struct CopyHandle {
    pub rx: Receiver<ProgressMessage>,
    pub cancel: Arc<AtomicBool>,
}

/// Progress updates of a job are sent at most this often, in milliseconds.
pub const PROGRESS_TICK_MS: u64 = 50;

/// Whether a progress update is sent: the first one, the one that reaches
/// the total, and any other once the tick has passed since the last send.
pub fn progress_due(processed: usize, total: Option<usize>, since_last_send_ms: u64) -> (r: bool)
    ensures
        r == (processed == 0 || (total matches Some(t) && processed >= t) || since_last_send_ms >= PROGRESS_TICK_MS),
{
    let reached = match total {
        Some(t) => processed >= t,
        None => false,
    };
    processed == 0 || reached || since_last_send_ms >= PROGRESS_TICK_MS
}

/// The last message of a job: `Complete` after a success, its error after a
/// failure.
pub fn outcome_message(outcome: Result<(), String>) -> (m: ProgressMessage)
    ensures
        outcome is Ok ==> m is Complete,
        outcome matches Err(e) ==> m == ProgressMessage::Error(e),
{
    match outcome {
        Ok(()) => ProgressMessage::Complete,
        Err(e) => ProgressMessage::Error(e),
    }
}

/// Sets a cancel token.
pub fn request_stop(cancel: &AtomicBool) {
    cancel.store(true, std::sync::atomic::Ordering::Relaxed);
}

} // verus!
