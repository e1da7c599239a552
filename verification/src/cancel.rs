//! Two-press cancellation of a running transcription.
//!
//! The first press of the cancel shortcut only arms a pending flag; a second
//! press while the flag is armed actually cancels. Before `init` has run the
//! flags do not exist yet, and every operation is a no-op.

use vstd::prelude::*;

verus! {

/// The cancellation flags. `ready` records whether `init` has created them.
pub struct CancelFlags {
    ready: bool,
    cancelled: bool,
    pending: bool,
}

/// Abstract state of the flags.
pub struct CancelView {
    pub ready: bool,
    pub cancelled: bool,
    pub pending: bool,
}

impl View for CancelFlags {
    type V = CancelView;

    closed spec fn view(&self) -> CancelView {
        CancelView { ready: self.ready, cancelled: self.cancelled, pending: self.pending }
    }
}

impl CancelFlags {
    /// Flags before `init`: nothing is set.
    pub fn new() -> (r: CancelFlags)
        ensures
            r@ == (CancelView { ready: false, cancelled: false, pending: false }),
    {
        CancelFlags { ready: false, cancelled: false, pending: false }
    }

    /// Flags that do not exist yet hold no value.
    #[verifier::type_invariant]
    spec fn inv(self) -> bool {
        !self.ready ==> !self.cancelled && !self.pending
    }
}

/// State after `init`.
pub open spec fn after_init(v: CancelView) -> CancelView {
    if v.ready { v } else { CancelView { ready: true, cancelled: false, pending: false } }
}

/// State after `cancel`.
pub open spec fn after_cancel(v: CancelView) -> CancelView {
    if v.ready { CancelView { cancelled: true, ..v } } else { v }
}

/// State after `reset`.
pub open spec fn after_reset(v: CancelView) -> CancelView {
    if v.ready { CancelView { ready: true, cancelled: false, pending: false } } else { v }
}

/// State after `reset_cancel_pending`.
pub open spec fn after_reset_pending(v: CancelView) -> CancelView {
    if v.ready { CancelView { pending: false, ..v } } else { v }
}

/// What `is_cancelled` answers.
pub open spec fn cancelled_in(v: CancelView) -> bool {
    v.ready && v.cancelled
}

/// What `request_cancel` answers: whether this press cancels.
pub open spec fn press_cancels(v: CancelView) -> bool {
    v.ready && v.pending
}

/// State after `request_cancel`.
pub open spec fn after_request(v: CancelView) -> CancelView {
    if !v.ready {
        v
    } else if v.pending {
        after_cancel(v)
    } else {
        CancelView { pending: true, ..v }
    }
}

/// Creates both flags, cleared. A second `init` leaves them as they are.
pub fn init(flags: &mut CancelFlags)
    ensures
        final(flags)@ == after_init(old(flags)@),
{
    if !flags.ready {
        flags.ready = true;
        flags.cancelled = false;
        flags.pending = false;
    }
}

/// Marks the transcription as cancelled (once the flags exist).
pub fn cancel(flags: &mut CancelFlags)
    ensures
        final(flags)@ == after_cancel(old(flags)@),
{
    if flags.ready {
        flags.cancelled = true;
    }
}

/// Whether the transcription was cancelled; false before `init`.
pub fn is_cancelled(flags: &CancelFlags) -> (r: bool)
    ensures
        r == cancelled_in(flags@),
{
    flags.ready && flags.cancelled
}

/// Clears both the cancelled and the pending flag.
pub fn reset(flags: &mut CancelFlags)
    ensures
        final(flags)@ == after_reset(old(flags)@),
{
    if flags.ready {
        flags.cancelled = false;
        flags.pending = false;
    }
}

/// Clears the pending flag only.
pub fn reset_cancel_pending(flags: &mut CancelFlags)
    ensures
        final(flags)@ == after_reset_pending(old(flags)@),
{
    if flags.ready {
        flags.pending = false;
    }
}

/// One press of the cancel shortcut. The first press arms the pending flag
/// and returns false; a press while it is armed cancels and returns true.
pub fn request_cancel(flags: &mut CancelFlags) -> (r: bool)
    ensures
        r == press_cancels(old(flags)@),
        final(flags)@ == after_request(old(flags)@),
{
    if flags.ready {
        if flags.pending {
            cancel(flags);
            true
        } else {
            flags.pending = true;
            false
        }
    } else {
        false
    }
}

/// After a reset, the first press of the cancel shortcut only arms the
/// pending flag and does not cancel; the second press cancels.
pub proof fn lemma_second_press_cancels(v: CancelView)
    requires
        v.ready,
    ensures
        !press_cancels(after_reset(v)),
        !cancelled_in(after_request(after_reset(v))),
        press_cancels(after_request(after_reset(v))),
        cancelled_in(after_request(after_request(after_reset(v)))),
{
}

/// A reset always leaves the transcription not cancelled and nothing pending.
pub proof fn lemma_reset_clears(v: CancelView)
    ensures
        !cancelled_in(after_reset(v)),
        !press_cancels(after_reset(v)),
{
}

/// Clearing the pending flag makes the next press a first press again.
pub proof fn lemma_reset_pending_rearms(v: CancelView)
    ensures
        !press_cancels(after_reset_pending(v)),
        cancelled_in(after_request(after_reset_pending(v))) == cancelled_in(v),
{
}

/// Before `init` every operation leaves the flags untouched and reports
/// nothing cancelled.
pub proof fn lemma_uninitialized_is_inert(v: CancelView)
    requires
        !v.ready,
        !v.cancelled,
        !v.pending,
    ensures
        after_cancel(v) == v,
        after_reset(v) == v,
        after_reset_pending(v) == v,
        after_request(v) == v,
        !press_cancels(v),
        !cancelled_in(v),
{
}

/// `init` is idempotent: a second call changes nothing.
pub proof fn lemma_init_idempotent(v: CancelView)
    ensures
        after_init(after_init(v)) == after_init(v),
        after_init(v).ready,
{
}

/// Once cancelled, only `reset` clears the cancellation: presses, `cancel`,
/// `init` and clearing the pending flag all keep it.
pub proof fn lemma_cancel_sticks(v: CancelView)
    requires
        cancelled_in(v),
    ensures
        cancelled_in(after_request(v)),
        cancelled_in(after_cancel(v)),
        cancelled_in(after_init(v)),
        cancelled_in(after_reset_pending(v)),
        !cancelled_in(after_reset(v)),
{
}

/// A cancelling press leaves the pending flag armed, so every further press
/// cancels again and reports it; only `reset` and `reset_cancel_pending`
/// disarm it, while `cancel` and `init` on existing flags leave it as it is.
pub proof fn lemma_pending_stays_armed(v: CancelView)
    ensures
        press_cancels(v) ==> after_request(v).pending && after_request(v).cancelled && after_request(
            v,
        ).ready,
        press_cancels(v) ==> press_cancels(after_request(v)),
        press_cancels(v) ==> after_request(v) == (CancelView { ready: true, cancelled: true, pending: true }),
        v.ready ==> after_cancel(v).pending == v.pending,
        v.ready ==> after_init(v).pending == v.pending,
        !after_reset(v).pending || !v.ready,
        !after_reset_pending(v).pending || !v.ready,
{
}

} // verus!
