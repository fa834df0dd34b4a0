//! A handle that is told when it becomes readable, writable or closed.
//!
//! The kernel delivers the signals observed on a handle as packets. The
//! receiver folds them into one shared word of signals and wakes the task
//! that waits to read or to write when the signal that it waits for appears.
//! A task that finds its signal missing clears it (and, when asked, a stale
//! peer-closed signal), registers its waker, and asks for a new packet.
//!
//! The decisions are plain functions of the signal words: what to wake on a
//! packet, whether a poll is ready, and what packet to ask for. Sending the
//! request for a packet to the kernel is the caller's part: it receives the
//! signals to wait for in a `NeedSignal`.
use vstd::prelude::*;
use std::sync::Arc;
use std::sync::atomic::AtomicU32;
use std::sync::atomic::Ordering;
use futures::task::AtomicWaker;
use core::task::Waker;
use crate::signals::{Signals, readable, writable, peer_closed, OBJECT_PEER_CLOSED_BITS};

verus! {

/// The task waker of the standard library; opaque here, only handed on.
#[verifier::external_type_specification]
#[verifier::external_body]
pub struct ExWaker(Waker);

/// The waker slot of `futures`; opaque here, only registered into and woken.
#[verifier::external_type_specification]
#[verifier::external_body]
pub struct ExAtomicWaker(AtomicWaker);

/// `futures::task::AtomicWaker::new`: an empty waker slot. Nothing is
/// claimed of the value.
pub assume_specification[ AtomicWaker::new ]() -> AtomicWaker;

/// `futures::task::AtomicWaker::register`: stores a clone of `waker` in the
/// slot. It does not panic; nothing is claimed of its effect.
pub assume_specification[ AtomicWaker::register ](slot: &AtomicWaker, waker: &Waker);

/// `futures::task::AtomicWaker::wake`: wakes the stored waker, if any. It
/// does not panic; nothing is claimed of its effect.
pub assume_specification[ AtomicWaker::wake ](slot: &AtomicWaker);

/// What the body of a packet holds, as far as the receiver reads it.
pub enum PacketContents {
    /// A one-shot signal packet, with the signals observed on the object.
    SignalOne { observed: Signals },
    /// A repeating signal packet, with the signals observed on the object.
    SignalRep { observed: Signals },
    /// A user packet.
    User,
}

/// Which waiting tasks a packet wakes.
#[derive(Clone, Copy, Debug, PartialEq, Eq, Structural)]
pub struct Wakeups {
    pub read: bool,
    pub write: bool,
}

/// What a task that waits for a signal has to do after clearing it.
#[derive(Clone, Copy, Debug, PartialEq, Eq, Structural)]
pub struct NeedSignal {
    /// The signals to ask the kernel to report in a new packet, if a packet
    /// has to be asked for.
    pub schedule: Option<Signals>,
    /// Wake the current task at once: the peer closed while it was not
    /// looking.
    pub wake_current: bool,
}

/// The outcome of polling for a signal.
#[derive(Clone, Copy, Debug, PartialEq, Eq, Structural)]
pub enum SignalPoll {
    /// The signal, or peer-closed, is set; `closed` tells whether the peer
    /// closed.
    Ready { closed: bool },
    /// Neither is set: the waker was registered and `need` says what to do.
    Pending { need: NeedSignal },
}

/// `flag` is set in `new` and was not set in `old`.
pub open spec fn became(new: Signals, old: Signals, flag: Signals) -> bool {
    new.has(flag) && !old.has(flag)
}

/// The tasks to wake when a packet observes `new` on a word that held `old`:
/// a reader when the object became readable, a writer when it became
/// writable, and both when the peer closed.
pub open spec fn wakeups_for(new: Signals, old: Signals) -> Wakeups {
    let closed = became(new, old, peer_closed());
    Wakeups {
        read: became(new, old, readable()) || closed,
        write: became(new, old, writable()) || closed,
    }
}

/// The word after a packet that observed `new` reached a word holding `old`.
pub open spec fn after_receive(old: Signals, new: Signals) -> Signals {
    Signals { bits: old.bits | new.bits }
}

/// The signals that waiting for `signal` clears.
pub open spec fn clear_mask(signal: Signals, clear_closed: bool) -> Signals {
    if clear_closed {
        Signals { bits: signal.bits | OBJECT_PEER_CLOSED_BITS }
    } else {
        signal
    }
}

/// The word after waiting for `signal` cleared its bits from `old`.
pub open spec fn after_need(old: Signals, signal: Signals, clear_closed: bool) -> Signals {
    Signals { bits: old.bits & !clear_mask(signal, clear_closed).bits }
}

/// What to do once waiting for `signal` cleared a word that held `old`: a
/// packet is asked for when any cleared signal had been set, for the signal
/// if it was set and for peer-closed if that was set and cleared; the
/// current task is woken when the peer closed and that was not cleared.
pub open spec fn need_signal_for(old: Signals, signal: Signals, clear_closed: bool) -> NeedSignal {
    let was_signal = old.has(signal);
    let was_closed = old.has(peer_closed());
    NeedSignal {
        schedule: if was_signal || was_closed {
            Some(Signals {
                bits: (if was_signal { signal.bits } else { 0u32 })
                    | (if clear_closed && was_closed { OBJECT_PEER_CLOSED_BITS } else { 0u32 }),
            })
        } else {
            None
        },
        wake_current: was_closed && !clear_closed,
    }
}

/// A poll for `signal` on the word `current` is ready when the signal or
/// peer-closed is set, with whether the peer closed.
pub open spec fn poll_ready(current: Signals, signal: Signals) -> Option<bool> {
    if current.has(signal) || current.has(peer_closed()) {
        Some(current.has(peer_closed()))
    } else {
        None
    }
}

/// The signals that a new handle starts with: it is taken to be readable
/// and writable until a read or a write shows otherwise.
pub open spec fn initial_signals() -> Signals {
    Signals { bits: readable().bits | writable().bits }
}

/// Receiving a packet never clears a signal, and sets every signal that the
/// packet observed.
pub proof fn law_receive_only_adds(old: Signals, new: Signals, flag: Signals)
    ensures
        after_receive(old, new).has(new),
        old.has(flag) ==> after_receive(old, new).has(flag),
{
    let (o, n, f) = (old.bits, new.bits, flag.bits);
    assert((o | n) & n == n) by (bit_vector);
    assert(o & f == f ==> (o | n) & f == f) by (bit_vector);
}

/// A packet that observes the peer closing, on a word where it was not yet
/// set, wakes both the reader and the writer.
pub proof fn law_close_wakes_both(old: Signals, new: Signals)
    requires
        new.has(peer_closed()),
        !old.has(peer_closed()),
    ensures
        wakeups_for(new, old).read,
        wakeups_for(new, old).write,
{
}

/// The bits that waiting for readability or writability clears (with or
/// without peer-closed) are unset afterwards.
proof fn lemma_cleared_bits_unset(o: u32)
    by (bit_vector)
    ensures
        (o & !0x1u32) & 0x1u32 != 0x1u32,
        (o & !0x2u32) & 0x2u32 != 0x2u32,
        (o & !(0x1u32 | 0x4u32)) & 0x1u32 != 0x1u32,
        (o & !(0x2u32 | 0x4u32)) & 0x2u32 != 0x2u32,
        (o & !(0x1u32 | 0x4u32)) & 0x4u32 != 0x4u32,
        (o & !(0x2u32 | 0x4u32)) & 0x4u32 != 0x4u32,
{
}

/// A packet that repeats what the word already holds changes nothing: the
/// word stays as it is and no task is woken.
pub proof fn law_repeated_packet_changes_nothing(old: Signals, new: Signals)
    ensures
        after_receive(after_receive(old, new), new) == after_receive(old, new),
        wakeups_for(new, after_receive(old, new)) == (Wakeups { read: false, write: false }),
{
    let (o, n) = (old.bits, new.bits);
    assert((o | n) | n == o | n) by (bit_vector);
    assert(n & 0x1u32 == 0x1u32 ==> (o | n) & 0x1u32 == 0x1u32) by (bit_vector);
    assert(n & 0x2u32 == 0x2u32 ==> (o | n) & 0x2u32 == 0x2u32) by (bit_vector);
    assert(n & 0x4u32 == 0x4u32 ==> (o | n) & 0x4u32 == 0x4u32) by (bit_vector);
}

/// No wakeup is lost: once a task waiting for readability or writability
/// has cleared its signal, the next packet that observes that signal wakes
/// the task of that kind; and once peer-closed was cleared too, a packet
/// that observes the peer closing wakes both tasks.
pub proof fn law_no_lost_wakeup(old: Signals, clear_closed: bool, new: Signals)
    ensures
        new.has(readable()) ==> wakeups_for(new, after_need(old, readable(), clear_closed)).read,
        new.has(writable()) ==> wakeups_for(new, after_need(old, writable(), clear_closed)).write,
        clear_closed && new.has(peer_closed()) ==> {
            &&& wakeups_for(new, after_need(old, readable(), clear_closed)).read
            &&& wakeups_for(new, after_need(old, readable(), clear_closed)).write
            &&& wakeups_for(new, after_need(old, writable(), clear_closed)).read
            &&& wakeups_for(new, after_need(old, writable(), clear_closed)).write
        },
{
    lemma_cleared_bits_unset(old.bits);
}

/// After a packet that observed `signal`, a poll for `signal` is ready.
pub proof fn law_ready_after_packet(old: Signals, new: Signals, signal: Signals)
    requires
        new.has(signal),
    ensures
        poll_ready(after_receive(old, new), signal) is Some,
{
    let (o, n, s) = (old.bits, new.bits, signal.bits);
    assert(n & s == s ==> (o | n) & s == s) by (bit_vector);
}

/// Waiting for readability or writability clears that signal, clears
/// peer-closed when asked to, and keeps every other signal. A poll right
/// after it is ready only when the peer closed and that was kept; and that
/// is exactly when the waiting task is told to wake itself at once.
pub proof fn law_need_clears(old: Signals, clear_closed: bool, flag: Signals)
    ensures
        !after_need(old, readable(), clear_closed).has(readable()),
        !after_need(old, writable(), clear_closed).has(writable()),
        clear_closed ==> !after_need(old, readable(), clear_closed).has(peer_closed()),
        clear_closed ==> !after_need(old, writable(), clear_closed).has(peer_closed()),
        flag.bits & clear_mask(readable(), clear_closed).bits == 0 ==>
            (after_need(old, readable(), clear_closed).has(flag) == old.has(flag)),
        flag.bits & clear_mask(writable(), clear_closed).bits == 0 ==>
            (after_need(old, writable(), clear_closed).has(flag) == old.has(flag)),
        (poll_ready(after_need(old, readable(), clear_closed), readable()) is Some)
            == need_signal_for(old, readable(), clear_closed).wake_current,
        (poll_ready(after_need(old, writable(), clear_closed), writable()) is Some)
            == need_signal_for(old, writable(), clear_closed).wake_current,
{
    lemma_cleared_bits_unset(old.bits);
    let (o, f) = (old.bits, flag.bits);
    assert(((o & !0x1u32) & 0x4u32 == 0x4u32) == (o & 0x4u32 == 0x4u32)) by (bit_vector);
    assert(((o & !0x2u32) & 0x4u32 == 0x4u32) == (o & 0x4u32 == 0x4u32)) by (bit_vector);
    assert(f & 0x1u32 == 0 ==> (((o & !0x1u32) & f == f) == (o & f == f))) by (bit_vector);
    assert(f & 0x2u32 == 0 ==> (((o & !0x2u32) & f == f) == (o & f == f))) by (bit_vector);
    assert(f & (0x1u32 | 0x4u32) == 0 ==> (((o & !(0x1u32 | 0x4u32)) & f == f) == (o & f == f)))
        by (bit_vector);
    assert(f & (0x2u32 | 0x4u32) == 0 ==> (((o & !(0x2u32 | 0x4u32)) & f == f) == (o & f == f)))
        by (bit_vector);
}

/// A packet is asked for exactly when a signal that waiting clears had been
/// set, and it asks only for signals that waiting cleared.
pub proof fn law_schedule_within_cleared(old: Signals, signal: Signals, clear_closed: bool)
    ensures
        need_signal_for(old, signal, clear_closed).schedule is Some
            <==> (old.has(signal) || old.has(peer_closed())),
        need_signal_for(old, signal, clear_closed).schedule matches Some(s)
            ==> s.bits & !clear_mask(signal, clear_closed).bits == 0,
{
    let s = signal.bits;
    assert(s & !s == 0) by (bit_vector);
    assert(s & !(s | 0x4u32) == 0) by (bit_vector);
    assert((s | 0x4u32) & !(s | 0x4u32) == 0) by (bit_vector);
    assert(0x4u32 & !(s | 0x4u32) == 0) by (bit_vector);
    assert((s | 0u32) & !s == 0) by (bit_vector);
    assert((s | 0u32) & !(s | 0x4u32) == 0) by (bit_vector);
    assert((0u32 | 0x4u32) & !(s | 0x4u32) == 0) by (bit_vector);
    assert((0u32 | 0u32) & !s == 0) by (bit_vector);
    assert((0u32 | 0u32) & !(s | 0x4u32) == 0) by (bit_vector);
}

/// A ready poll reports the peer as closed exactly when peer-closed is set in
/// the word it read, whichever signal it polled for; and a set peer-closed
/// makes every poll ready.
pub proof fn law_poll_reports_close(current: Signals, signal: Signals)
    ensures
        poll_ready(current, signal) matches Some(closed) ==> closed == current.has(peer_closed()),
        current.has(peer_closed()) ==> poll_ready(current, signal) == Some(true),
        !current.has(peer_closed()) ==> (poll_ready(current, signal) is Some <==> current.has(signal)),
{
}

/// A new handle is taken to be readable and writable: the first poll for
/// either is ready, with the peer not closed.
pub proof fn law_initially_ready()
    ensures
        poll_ready(initial_signals(), readable()) == Some(false),
        poll_ready(initial_signals(), writable()) == Some(false),
{
    assert((0x1u32 | 0x2u32) & 0x1u32 == 0x1u32) by (bit_vector);
    assert((0x1u32 | 0x2u32) & 0x2u32 == 0x2u32) by (bit_vector);
    assert((0x1u32 | 0x2u32) & 0x4u32 != 0x4u32) by (bit_vector);
}

/// The tasks to wake when a packet observes `new` on a word that held `old`.
pub fn packet_wakeups(new: Signals, old: Signals) -> (w: Wakeups)
    ensures
        w == wakeups_for(new, old),
{
    let readable_sig = Signals::object_readable();
    let writable_sig = Signals::object_writable();
    let closed_sig = Signals::object_peer_closed();
    let became_readable = new.contains(readable_sig) && !old.contains(readable_sig);
    let became_writable = new.contains(writable_sig) && !old.contains(writable_sig);
    let became_closed = new.contains(closed_sig) && !old.contains(closed_sig);
    Wakeups { read: became_readable || became_closed, write: became_writable || became_closed }
}

/// What to do once waiting for `signal` cleared a word that held `old`.
pub fn need_signal_outcome(old: Signals, signal: Signals, clear_closed: bool) -> (n: NeedSignal)
    ensures
        n == need_signal_for(old, signal, clear_closed),
{
    let closed_sig = Signals::object_peer_closed();
    let was_signal = old.contains(signal);
    let was_closed = old.contains(closed_sig);
    let schedule = if was_closed || was_signal {
        let mut to_schedule = Signals::empty();
        if was_signal {
            to_schedule.insert(signal);
        }
        if clear_closed && was_closed {
            to_schedule.insert(closed_sig);
        }
        proof {
            let s = signal.bits;
            assert(0u32 | s == s) by (bit_vector);
            assert(s | 0u32 == s) by (bit_vector);
            assert(0u32 | 0x4u32 == 0x4u32) by (bit_vector);
            assert(0u32 | 0u32 == 0u32) by (bit_vector);
        }
        Some(to_schedule)
    } else {
        None
    };
    NeedSignal { schedule, wake_current: was_closed && !clear_closed }
}

/// The signals that a new handle starts with.
pub fn initial_signal_set() -> (s: Signals)
    ensures
        s == initial_signals(),
{
    Signals::object_readable().union(Signals::object_writable())
}

/// The waker slots that a task waiting for `signal` registers in: the
/// reader's when it waits for readability, the writer's when it waits for
/// writability.
pub fn waiters_for(signal: Signals) -> (w: Wakeups)
    ensures
        w == (Wakeups { read: signal.has(readable()), write: signal.has(writable()) }),
{
    Wakeups {
        read: signal.contains(Signals::object_readable()),
        write: signal.contains(Signals::object_writable()),
    }
}

/// The mask that waiting for `signal` ands into the word: every signal but
/// those it clears.
pub fn keep_mask(signal: Signals, clear_closed: bool) -> (keep: Signals)
    ensures
        keep.bits == !clear_mask(signal, clear_closed).bits,
{
    let mut clear_signals = signal;
    if clear_closed {
        clear_signals.insert(Signals::object_peer_closed());
    }
    clear_signals.complement()
}

/// Whether a poll for `signal` on the word `current` is ready, and then
/// whether the peer closed.
pub fn poll_outcome(current: Signals, signal: Signals) -> (r: Option<bool>)
    ensures
        r == poll_ready(current, signal),
{
    let was_closed = current.contains(Signals::object_peer_closed());
    let was_signal = current.contains(signal);
    if was_closed || was_signal {
        Some(was_closed)
    } else {
        None
    }
}

/// The receiving side of a handle's signal packets.
pub struct RWPacketReceiver {
    signals: AtomicU32,
    read_task: AtomicWaker,
    write_task: AtomicWaker,
}

impl RWPacketReceiver {
    /// A receiver whose word starts with `initial`, and no task waiting.
    pub fn new(initial: Signals) -> (r: RWPacketReceiver) {
        RWPacketReceiver {
            signals: AtomicU32::new(initial.bits()),
            read_task: AtomicWaker::new(),
            write_task: AtomicWaker::new(),
        }
    }

    /// Folds the signals that a packet observed into the word, and wakes the
    /// reader and the writer as `wakeups_for` says, against the word as it
    /// was just before. Packets that are not one-shot signal packets are
    /// ignored. Returns the wakeups done.
    pub fn receive_packet(&self, packet: PacketContents) -> (w: Wakeups)
        ensures
            match packet {
                PacketContents::SignalOne { observed } => exists|old: Signals|
                    w == #[trigger] wakeups_for(observed, old),
                _ => w == (Wakeups { read: false, write: false }),
            },
    {
        let new = match packet {
            PacketContents::SignalOne { observed } => observed,
            _ => {
                return Wakeups { read: false, write: false };
            },
        };
        let old_bits: u32 = self.signals.fetch_or(new.bits(), Ordering::SeqCst);
        let old = Signals::from_bits_truncate(old_bits);
        let w = packet_wakeups(new, old);
        if w.read {
            self.read_task.wake();
        }
        if w.write {
            self.write_task.wake();
        }
        w
    }

    /// The word as read now.
    pub fn current_signals(&self) -> (s: Signals) {
        let bits: u32 = self.signals.load(Ordering::SeqCst);
        Signals::from_bits_truncate(bits)
    }
}

/// A handle that receives notifications when it is readable or writable.
pub struct RWHandle<T> {
    handle: T,
    receiver: Arc<RWPacketReceiver>,
}

impl<T> RWHandle<T> {
    /// The handle held.
    pub closed spec fn inner(&self) -> T {
        self.handle
    }

    /// Wraps `handle` with a receiver that starts from `initial_signals`:
    /// the handle is taken to be readable and writable, so that the first
    /// read or write is tried at once. The caller registers
    /// `shared_receiver()` for the handle's packets and asks for a packet on
    /// `OBJECT_PEER_CLOSED`.
    pub fn new(handle: T) -> (r: RWHandle<T>)
        ensures
            r.inner() == handle,
    {
        let initial = initial_signal_set();
        RWHandle { handle, receiver: Arc::new(RWPacketReceiver::new(initial)) }
    }

    /// The receiver of the handle's packets, whose word the polls read.
    pub closed spec fn receiver(&self) -> Arc<RWPacketReceiver> {
        self.receiver
    }

    /// The receiver to register for the handle's packets: the one whose
    /// word this handle's polls and waits read and clear.
    pub fn shared_receiver(&self) -> (r: &Arc<RWPacketReceiver>)
        ensures
            *r == self.receiver(),
    {
        &self.receiver
    }

    /// Returns a reference to the underlying handle.
    pub fn get_ref(&self) -> (r: &T)
        ensures
            *r == self.inner(),
    {
        &self.handle
    }

    /// Returns a mutable reference to the underlying handle.
    pub fn get_mut(&mut self) -> (r: &mut T)
        ensures
            *r == old(self).inner(),
            final(self).inner() == *final(r),
            final(self).receiver() == old(self).receiver(),
    {
        &mut self.handle
    }

    /// Consumes the wrapper, returning the inner handle.
    pub fn into_inner(self) -> (r: T)
        ensures
            r == self.inner(),
    {
        self.handle
    }

    /// Tests whether the peer-closed signal is set in the word as read now.
    pub fn is_closed(&self) -> (r: bool) {
        let signals = self.receiver.current_signals();
        signals.contains(Signals::object_peer_closed())
    }

    /// Polls for `signal` or peer-closed: ready when either is set in the
    /// word as read, else it waits for `signal` as `need_signal` does.
    fn poll_signal_or_closed(&self, lw: &Waker, signal: Signals) -> (r: SignalPoll)
        ensures
            match r {
                SignalPoll::Ready { closed } => exists|current: Signals|
                    #[trigger] poll_ready(current, signal) == Some(closed),
                SignalPoll::Pending { need } => exists|old: Signals|
                    need == #[trigger] need_signal_for(old, signal, false),
            },
    {
        let signals = self.receiver.current_signals();
        match poll_outcome(signals, signal) {
            Some(closed) => SignalPoll::Ready { closed },
            None => SignalPoll::Pending { need: self.need_signal(lw, signal, false) },
        }
    }

    /// Tests whether the handle is ready to be read from. If it is not,
    /// registers `lw` to be woken when a readable signal arrives. `Ready`
    /// tells whether the peer-closed signal was set, in which case it should
    /// be cleared if a read then shows that the peer is not closed.
    pub fn poll_read(&self, lw: &Waker) -> (r: SignalPoll)
        ensures
            match r {
                SignalPoll::Ready { closed } => exists|current: Signals|
                    #[trigger] poll_ready(current, readable()) == Some(closed),
                SignalPoll::Pending { need } => exists|old: Signals|
                    need == #[trigger] need_signal_for(old, readable(), false),
            },
    {
        self.poll_signal_or_closed(lw, Signals::object_readable())
    }

    /// Tests whether the handle is ready to be written to, as `poll_read`
    /// does for reading.
    pub fn poll_write(&self, lw: &Waker) -> (r: SignalPoll)
        ensures
            match r {
                SignalPoll::Ready { closed } => exists|current: Signals|
                    #[trigger] poll_ready(current, writable()) == Some(closed),
                SignalPoll::Pending { need } => exists|old: Signals|
                    need == #[trigger] need_signal_for(old, writable(), false),
            },
    {
        self.poll_signal_or_closed(lw, Signals::object_writable())
    }

    /// Registers `lw` for `signal`, clears `signal` (and peer-closed when
    /// `clear_closed`: it was set by mistake) from the word, and says, from
    /// the word as it was just before, what packet to ask for and whether to
    /// wake `lw` at once.
    fn need_signal(&self, lw: &Waker, signal: Signals, clear_closed: bool) -> (n: NeedSignal)
        ensures
            exists|old: Signals| n == #[trigger] need_signal_for(old, signal, clear_closed),
    {
        let waiting = waiters_for(signal);
        if waiting.write {
            self.receiver.write_task.register(lw);
        }
        if waiting.read {
            self.receiver.read_task.register(lw);
        }
        let keep = keep_mask(signal, clear_closed);
        let old_bits: u32 = self.receiver.signals.fetch_and(keep.bits(), Ordering::SeqCst);
        let old = Signals::from_bits_truncate(old_bits);
        need_signal_outcome(old, signal, clear_closed)
    }

    /// Waits for a readable signal: see `need_signal`. `clear_closed` says
    /// that the peer was wrongly taken to be closed; it is usually what
    /// `poll_read` returned.
    pub fn need_read(&self, lw: &Waker, clear_closed: bool) -> (n: NeedSignal)
        ensures
            exists|old: Signals| n == #[trigger] need_signal_for(old, readable(), clear_closed),
    {
        self.need_signal(lw, Signals::object_readable(), clear_closed)
    }

    /// Waits for a writable signal: see `need_signal`.
    pub fn need_write(&self, lw: &Waker, clear_closed: bool) -> (n: NeedSignal)
        ensures
            exists|old: Signals| n == #[trigger] need_signal_for(old, writable(), clear_closed),
    {
        self.need_signal(lw, Signals::object_writable(), clear_closed)
    }
}

} // verus!
