//! One read or write on a non-blocking descriptor.
//!
//! The operation waits until the scheduler reports the descriptor ready,
//! then makes a single non-blocking attempt. Readiness is a hint: the
//! attempt may still find nothing to transfer, and then the operation waits
//! again. The caller waits and attempts; [`next_turn`] says, after each
//! thing the caller observed, what the operation does next.

use vstd::prelude::*;

verus! {

/// What the caller observed since the last turn. `T` is what a finished
/// attempt yields (a byte count), `E` the caller's error type, which is
/// handed through untouched.
#[derive(Debug, PartialEq, Eq)]
pub enum Signal<T, E> {
    /// The scheduler does not report the descriptor ready.
    NotReady,
    /// The scheduler reports the descriptor ready.
    Ready,
    /// Waiting for readiness failed.
    WaitFailed(E),
    /// The attempt would have blocked: the descriptor was reported ready
    /// but had nothing to transfer. The readiness report is spent.
    WouldBlock,
    /// The attempt ended, with what it transferred or with an error that
    /// is not "would block".
    Finished(Result<T, E>),
}

/// What the operation does next.
#[derive(Debug, PartialEq, Eq)]
pub enum Turn<T, E> {
    /// Ask the scheduler again whether the descriptor is ready.
    AwaitReady,
    /// Make one non-blocking attempt on the descriptor.
    Attempt,
    /// Suspend the task until the scheduler wakes it.
    Suspend,
    /// Complete the operation with this result.
    Complete(Result<T, E>),
}

/// The turn that follows a signal.
pub open spec fn turn_after<T, E>(signal: Signal<T, E>) -> Turn<T, E> {
    match signal {
        Signal::NotReady => Turn::Suspend,
        Signal::Ready => Turn::Attempt,
        Signal::WaitFailed(error) => Turn::Complete(Err(error)),
        Signal::WouldBlock => Turn::AwaitReady,
        Signal::Finished(result) => Turn::Complete(result),
    }
}

/// Whether a turn hands control back to whoever started the operation.
pub open spec fn ends_poll<T, E>(turn: Turn<T, E>) -> bool {
    turn is Suspend || turn is Complete
}

/// What one poll of the operation returns when the caller observes
/// `signals` in this order: the first turn that hands control back, or
/// `None` while the operation is still going round.
pub open spec fn poll_result<T, E>(signals: Seq<Signal<T, E>>) -> Option<Turn<T, E>>
    decreases signals.len(),
{
    if signals.len() == 0 {
        None
    } else if ends_poll(turn_after(signals.first())) {
        Some(turn_after(signals.first()))
    } else {
        poll_result(signals.drop_first())
    }
}

/// The turn that an operation begins with: it waits for readiness, and
/// never attempts the descriptor unasked.
pub fn first_turn<T, E>() -> (turn: Turn<T, E>)
    ensures
        turn == Turn::<T, E>::AwaitReady,
{
    Turn::AwaitReady
}

/// Decides what the operation does after `signal`.
///
/// A descriptor that is not ready suspends the task; a ready one is
/// attempted; an attempt that would have blocked sends the operation back
/// to waiting; a failed wait and a finished attempt complete the operation
/// with exactly what was observed.
pub fn next_turn<T, E>(signal: Signal<T, E>) -> (turn: Turn<T, E>)
    ensures
        turn == turn_after(signal),
{
    match signal {
        Signal::NotReady => Turn::Suspend,
        Signal::Ready => Turn::Attempt,
        Signal::WaitFailed(error) => Turn::Complete(Err(error)),
        Signal::WouldBlock => Turn::AwaitReady,
        Signal::Finished(result) => Turn::Complete(result),
    }
}

/// A readiness race is recovered inside the operation: an attempt that
/// would have blocked never completes the operation and never suspends
/// it, and what the poll returns is what it returns without that signal.
pub proof fn lemma_would_block_is_retried<T, E>(rest: Seq<Signal<T, E>>)
    ensures
        turn_after(Signal::<T, E>::WouldBlock) == Turn::<T, E>::AwaitReady,
        poll_result(seq![Signal::<T, E>::WouldBlock] + rest) == poll_result(rest),
{
    let signals = seq![Signal::<T, E>::WouldBlock] + rest;
    assert(signals.len() > 0);
    assert(signals.first() == Signal::<T, E>::WouldBlock);
    assert(signals.drop_first() =~= rest);
}

/// The descriptor is attempted only on a readiness report, once for each.
pub proof fn lemma_attempt_needs_readiness<T, E>(signal: Signal<T, E>)
    ensures
        turn_after(signal) is Attempt <==> signal is Ready,
{
}

/// A finished attempt completes the operation in the same turn, with the
/// very result of the attempt: a count of zero, which marks the end of the
/// stream, and an error are reported as promptly as any other result.
pub proof fn lemma_finished_attempt_completes<T, E>(
    result: Result<T, E>,
    rest: Seq<Signal<T, E>>,
)
    ensures
        turn_after(Signal::Finished(result)) == Turn::Complete(result),
        poll_result(seq![Signal::Finished(result)] + rest) == Some(Turn::Complete(result)),
{
    let signals = seq![Signal::Finished(result)] + rest;
    assert(signals.len() > 0);
    assert(signals.first() == Signal::Finished(result));
}

/// Whatever the caller observes, a poll returns only by suspending or by
/// completing, and a completion carries a result that was observed: that
/// of a finished attempt or the error of a failed wait.
pub proof fn lemma_poll_returns_what_was_observed<T, E>(signals: Seq<Signal<T, E>>)
    ensures
        match poll_result(signals) {
            None => forall|i: int|
                0 <= i < signals.len() ==> signals[i] is Ready || signals[i] is WouldBlock,
            Some(Turn::Suspend) => exists|i: int|
                0 <= i < signals.len() && signals[i] is NotReady,
            Some(Turn::Complete(result)) => exists|i: int|
                0 <= i < signals.len() && (signals[i] == Signal::Finished(result) || (
                result is Err && signals[i] == Signal::<T, E>::WaitFailed(result->Err_0))),
            Some(_) => false,
        },
    decreases signals.len(),
{
    if signals.len() > 0 {
        let head = signals.first();
        let tail = signals.drop_first();
        if ends_poll(turn_after(head)) {
            assert(signals[0] == head);
        } else {
            lemma_poll_returns_what_was_observed(tail);
            assert(forall|i: int| 0 <= i < tail.len() ==> tail[i] == signals[i + 1]);
            match poll_result(tail) {
                None => {
                    assert forall|i: int| 0 <= i < signals.len() implies signals[i] is Ready
                        || signals[i] is WouldBlock by {
                        if i > 0 {
                            assert(tail[i - 1] == signals[i]);
                        }
                    }
                },
                Some(Turn::Suspend) => {
                    let i: int = choose|i: int| 0 <= i < tail.len() && tail[i] is NotReady;
                    assert(signals[i + 1] is NotReady);
                },
                Some(Turn::Complete(result)) => {
                    let i: int = choose|i: int|
                        0 <= i < tail.len() && (tail[i] == Signal::Finished(result) || (
                        result is Err && tail[i] == Signal::<T, E>::WaitFailed(result->Err_0)));
                    assert(signals[i + 1] == tail[i]);
                },
                Some(_) => {},
            }
        }
    }
}

} // verus!
