//! Completion signals: the sending halves of one-shot channels.

use tokio::sync::oneshot::Sender;
use vstd::prelude::*;

verus! {

/// A completion signal: it can be fired once, and wakes the one caller that
/// holds the receiving half.
pub type Signal = Sender<()>;

/// `tokio::sync::oneshot::Sender`, the sending half of a one-shot channel.
/// Opaque: a signal is carried through and fired, never looked into.
#[verifier::external_type_specification]
#[verifier::external_body]
#[verifier::reject_recursive_types(T)]
pub struct ExSender<T>(Sender<T>);

/// `tokio::sync::oneshot::Sender::send`, with the unit value: fires the
/// signal, which is used up by it. Returns whether the receiving half was
/// still there to take it; that depends on what the waiting caller did in the
/// meantime, so nothing is claimed of the result. An abandoned receiver is no
/// failure: the call returns `false` and does nothing else.
#[verifier::external_body]
pub(crate) fn fire(signal: Signal) -> (delivered: bool) {
    signal.send(()).is_ok()
}

/// The count of delivered signals once one more signal was fired: one more
/// than `before` when that signal found its receiver, `before` when it did
/// not. A count that is at its limit stays there.
pub fn tally(before: usize, delivered: bool) -> (after: usize)
    ensures
        after == (if delivered && before < usize::MAX {
            before + 1
        } else {
            before as int
        }),
{
    if delivered && before < usize::MAX {
        before + 1
    } else {
        before
    }
}

/// Fires every signal of `signals` once, the first one first. Returns how many
/// of them found their receiver still waiting: which of them do is for the
/// receivers to decide, so that of the count no more is known than its bound.
pub fn notify_all(signals: Vec<Signal>) -> (delivered: usize)
    ensures
        delivered <= signals@.len(),
{
    let mut delivered: usize = 0;
    let total: usize = signals.len();
    for signal in it: signals
        invariant
            it.seq().len() == total,
            delivered <= it.index(),
    {
        delivered = tally(delivered, fire(signal));
    }
    delivered
}

} // verus!
