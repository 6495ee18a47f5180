//! The event-stream handler's per-cycle step.
//!
//! One long-lived connection runs one handler: it waits on the change
//! channel up to a fixed keepalive timeout, then emits a frame — a change
//! frame named `value_changed` carrying the event when one arrived, a bare
//! keepalive otherwise — until the transport reports a write failure, which
//! ends the handler and frees its cursor. The wait and the transport write
//! suspend and stay with the caller; the decision of what to emit is here.

use vstd::prelude::*;

use crate::channel::next_event_index;
use crate::channel::ChangeChannel;
use crate::channel::SubscriberCursor;
use crate::fmt::centi_str;
use crate::fmt::format_centi;
use crate::fmt::format_json_bool;
use crate::fmt::json_bool;

verus! {

/// How long one wait on the change channel lasts before a keepalive is
/// emitted, in seconds.
pub const KEEPALIVE_SECONDS: u64 = 15;

/// The event name carried by every change frame.
pub const CHANGE_EVENT_NAME: &'static str = "value_changed";

/// One frame emitted onto an event-stream connection.
#[derive(PartialEq, Eq, Structural, Debug)]
pub enum Frame<T> {
    /// The wait timed out with nothing new: a sign of life, nothing more.
    KeepAlive,
    /// A value changed; the payload is the event, for the caller to encode.
    ValueChanged(T),
}

/// The text a change frame carries onto the wire for a centi-unit reading,
/// such as a temperature: the reading in decimal. A keepalive frame carries
/// no payload.
pub fn reading_payload(f: &Frame<i32>) -> (p: Option<String>)
    ensures
        match *f {
            Frame::ValueChanged(v) => p matches Some(s) && s@ == centi_str(v as int),
            Frame::KeepAlive => p is None,
        },
{
    match f {
        Frame::ValueChanged(v) => Some(format_centi(*v)),
        Frame::KeepAlive => None,
    }
}

/// The text a change frame carries onto the wire for a discrete on/off
/// state. A keepalive frame carries no payload.
pub fn flag_payload(f: &Frame<bool>) -> (p: Option<String>)
    ensures
        match *f {
            Frame::ValueChanged(b) => p matches Some(s) && s@ == json_bool(b),
            Frame::KeepAlive => p is None,
        },
{
    match f {
        Frame::ValueChanged(b) => Some(format_json_bool(*b)),
        Frame::KeepAlive => None,
    }
}

/// The cursor position after one step against a channel with `published`
/// events in a window of `capacity`.
pub open spec fn step_pos(published: int, capacity: int, pos: int) -> int {
    if pos < published {
        next_event_index(published, capacity, pos) + 1
    } else {
        pos
    }
}

/// Whether a step at this position emits a keepalive rather than a change
/// frame.
pub open spec fn step_is_keepalive(published: int, pos: int) -> bool {
    pos >= published
}

/// One cycle of the handler's loop, run after the wait on the channel ends:
/// emit the next pending event as a change frame, or a keepalive when the
/// subscriber has already consumed everything published so far.
pub fn stream_step<T: Copy>(ch: &ChangeChannel<T>, cur: &mut SubscriberCursor) -> (f: Frame<T>)
    requires
        ch.wf(),
        old(cur).pos() <= ch.events().len(),
    ensures
        final (cur).pos() == step_pos(ch.events().len() as int, ch.capacity(), old(cur).pos()),
        final (cur).pos() <= ch.events().len(),
        (f is KeepAlive) == step_is_keepalive(ch.events().len() as int, old(cur).pos()),
        old(cur).pos() < ch.events().len() ==> f == Frame::<T>::ValueChanged(
            ch.events()[next_event_index(ch.events().len() as int, ch.capacity(), old(cur).pos())],
        ),
{
    match ch.poll(cur) {
        Some(v) => Frame::ValueChanged(v),
        None => Frame::KeepAlive,
    }
}

/// Whether `n` consecutive steps, with no intervening publish, all emit
/// keepalives.
pub open spec fn all_keepalive(published: int, capacity: int, pos: int, n: nat) -> bool
    decreases n,
{
    n == 0 || (step_is_keepalive(published, pos) && all_keepalive(
        published,
        capacity,
        step_pos(published, capacity, pos),
        (n - 1) as nat,
    ))
}

/// Event-stream idempotence under no change: a subscriber that has consumed
/// everything published receives only keepalive frames, however many wait
/// cycles elapse without a publish — no spurious change frames.
pub proof fn lemma_quiet_stream(published: int, capacity: int, pos: int, n: nat)
    requires
        pos == published,
    ensures
        all_keepalive(published, capacity, pos, n),
    decreases n,
{
    if n > 0 {
        lemma_quiet_stream(published, capacity, pos, (n - 1) as nat);
    }
}

} // verus!
