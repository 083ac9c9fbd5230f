//! The set of hardware interrupts that wait for the main loop.
//!
//! The events wait in a ring buffer of the `arraydeque` crate, in the order
//! in which they came. A bit per line keeps a line from waiting twice, so
//! that no device can fill the buffer alone.

use vstd::prelude::*;
use arraydeque::ArrayDeque;
use arraydeque::Saturating;
use crate::interrupt::HardwareInterrupt;
use crate::interrupt::HARDWARE_LINE_COUNT;

verus! {

/// Number of events that can wait at once.
pub const PENDING_CAPACITY: usize = 32;

/// The ring buffer of waiting events: an `arraydeque::ArrayDeque` of capacity
/// 32 that refuses a push when it is full.
#[verifier::external_body]
pub struct EventQueue {
    events: ArrayDeque<HardwareInterrupt, 32, Saturating>,
}

/// The events that wait in the buffer, the one that came first at index 0.
pub uninterp spec fn queued_events(queue: EventQueue) -> Seq<HardwareInterrupt>;

impl EventQueue {
    /// `ArrayDeque::new`: a buffer in which nothing waits.
    #[verifier::external_body]
    pub(crate) fn new() -> (queue: EventQueue)
        ensures
            queued_events(queue) == Seq::<HardwareInterrupt>::empty(),
    {
        EventQueue { events: ArrayDeque::new() }
    }

    /// `ArrayDeque::len`: the number of events that wait.
    #[verifier::external_body]
    pub(crate) fn len(&self) -> (count: usize)
        ensures
            count == queued_events(*self).len(),
    {
        self.events.len()
    }

    /// `ArrayDeque::push_back` of a saturating buffer: with fewer than 32
    /// events waiting, `event` joins them at the back and the call reports
    /// success; with 32 it is refused and the buffer stays as it was.
    #[verifier::external_body]
    pub(crate) fn push_back(&mut self, event: HardwareInterrupt) -> (pushed: bool)
        ensures
            pushed == (queued_events(*old(self)).len() < PENDING_CAPACITY),
            pushed ==> queued_events(*final(self)) == queued_events(*old(self)).push(event),
            !pushed ==> queued_events(*final(self)) == queued_events(*old(self)),
    {
        self.events.push_back(event).is_ok()
    }

    /// `ArrayDeque::pop_front`: the event that came first leaves the buffer
    /// and is returned; an empty buffer returns `None` and stays empty.
    #[verifier::external_body]
    pub(crate) fn pop_front(&mut self) -> (event: Option<HardwareInterrupt>)
        ensures
            queued_events(*old(self)).len() == 0 ==> event.is_none() && queued_events(
                *final(self),
            ) == queued_events(*old(self)),
            queued_events(*old(self)).len() > 0 ==> event == Some(queued_events(*old(self))[0])
                && queued_events(*final(self)) == queued_events(*old(self)).subrange(
                1,
                queued_events(*old(self)).len() as int,
            ),
    {
        self.events.pop_front()
    }
}

/// The bit of `interrupt` in the set of pending lines.
pub open spec fn line_bit(interrupt: HardwareInterrupt) -> u32 {
    1u32 << (interrupt.spec_line() as u32)
}

/// The events that wait after `interrupt` has come in: it joins the others
/// at the back, unless its line waits already or 32 events wait.
pub open spec fn enqueued(
    events: Seq<HardwareInterrupt>,
    interrupt: HardwareInterrupt,
) -> Seq<HardwareInterrupt> {
    if events.contains(interrupt) || events.len() >= PENDING_CAPACITY {
        events
    } else {
        events.push(interrupt)
    }
}

/// The event that the main loop gets next, if one waits.
pub open spec fn next_event(events: Seq<HardwareInterrupt>) -> Option<HardwareInterrupt> {
    if events.len() == 0 {
        None
    } else {
        Some(events[0])
    }
}

/// The events that wait after the main loop has taken one.
pub open spec fn dequeued(events: Seq<HardwareInterrupt>) -> Seq<HardwareInterrupt> {
    if events.len() == 0 {
        events
    } else {
        events.subrange(1, events.len() as int)
    }
}

/// Hardware interrupts that wait for the main loop, each line at most once,
/// first come first served.
pub struct PendingInterrupts {
    queue: EventQueue,
    received: u32,
}

impl PendingInterrupts {
    /// The events that wait, the one that came first at index 0.
    pub closed spec fn view(&self) -> Seq<HardwareInterrupt> {
        queued_events(self.queue)
    }

    /// The set of pending lines, one bit per line.
    pub closed spec fn received_bits(&self) -> u32 {
        self.received
    }

    /// No more than 32 events wait, no line waits twice, and the bit of a
    /// line is set exactly while an event of the line waits.
    pub open spec fn wf(&self) -> bool {
        &&& self@.len() <= PENDING_CAPACITY
        &&& self@.no_duplicates()
        &&& forall|interrupt: HardwareInterrupt|
            (self.received_bits() & #[trigger] line_bit(interrupt) != 0) == self@.contains(
                interrupt,
            )
    }

    /// A set in which nothing waits.
    pub fn new() -> (pending: Self)
        ensures
            pending.wf(),
            pending@ == Seq::<HardwareInterrupt>::empty(),
            pending.received_bits() == 0,
    {
        let pending = PendingInterrupts { queue: EventQueue::new(), received: 0 };
        proof {
            assert forall|interrupt: HardwareInterrupt|
                (0u32 & #[trigger] line_bit(interrupt) != 0) == pending@.contains(interrupt) by {
                let bit = line_bit(interrupt);
                assert(0u32 & bit == 0) by (bit_vector);
            }
        }
        pending
    }

    /// Number of events that wait.
    pub fn len(&self) -> (count: usize)
        ensures
            count == self@.len(),
    {
        self.queue.len()
    }

    /// Whether an event of the line of `interrupt` waits.
    pub fn is_pending(&self, interrupt: HardwareInterrupt) -> (pending: bool)
        requires
            self.wf(),
        ensures
            pending == self@.contains(interrupt),
    {
        let flag: u32 = 1u32 << (interrupt.line() as u32);
        assert(flag == line_bit(interrupt));
        self.received & flag != 0
    }

    /// Takes in an interrupt of a line. Returns whether an event was queued
    /// for it: none is if the line waits already. Either way the line waits
    /// afterwards: with each line waiting at most once, the 32 places are
    /// never all taken.
    pub fn enqueue(&mut self, interrupt: HardwareInterrupt) -> (queued: bool)
        requires
            old(self).wf(),
        ensures
            final(self).wf(),
            final(self)@ == enqueued(old(self)@, interrupt),
            queued == !old(self)@.contains(interrupt),
            final(self)@.contains(interrupt),
            final(self).received_bits() == if queued {
                old(self).received_bits() | line_bit(interrupt)
            } else {
                old(self).received_bits()
            },
    {
        let flag: u32 = 1u32 << (interrupt.line() as u32);
        assert(flag == line_bit(interrupt));
        proof {
            lemma_enqueue_never_drops(self@, interrupt);
        }
        if self.received & flag != 0 {
            return false;
        }
        let ghost before = self@;
        let ghost received_before = self.received;
        if self.queue.push_back(interrupt) {
            self.received = self.received | flag;
            proof {
                assert forall|i: int, j: int|
                    0 <= i < self@.len() && 0 <= j < self@.len() && i != j implies self@[i]
                    != self@[j] by {
                    if i < before.len() && j < before.len() {
                    } else if i < before.len() {
                        assert(before.contains(before[i]));
                    } else {
                        assert(before.contains(before[j]));
                    }
                }
                assert forall|other: HardwareInterrupt|
                    (self.received & #[trigger] line_bit(other) != 0) == self@.contains(other) by {
                    lemma_set_bit(received_before, interrupt, other);
                    if other == interrupt {
                        assert(self@[before.len() as int] == interrupt);
                    } else if before.contains(other) {
                        let k = choose|k: int| 0 <= k < before.len() && before[k] == other;
                        assert(self@[k] == other);
                    } else if self@.contains(other) {
                        let k = choose|k: int| 0 <= k < self@.len() && self@[k] == other;
                        assert(k < before.len());
                        assert(before[k] == other);
                    }
                }
            }
            true
        } else {
            false
        }
    }

    /// Hands out the event that came first, and lets its line come in again.
    /// Returns `None` if nothing waits.
    pub fn dequeue(&mut self) -> (event: Option<HardwareInterrupt>)
        requires
            old(self).wf(),
        ensures
            final(self).wf(),
            event == next_event(old(self)@),
            final(self)@ == dequeued(old(self)@),
            final(self).received_bits() == match event {
                Some(interrupt) => old(self).received_bits() & !line_bit(interrupt),
                None => old(self).received_bits(),
            },
    {
        let ghost before = self@;
        let ghost received_before = self.received;
        let event = self.queue.pop_front();
        if let Some(interrupt) = event {
            let flag: u32 = 1u32 << (interrupt.line() as u32);
            assert(flag == line_bit(interrupt));
            self.received = self.received & !flag;
            proof {
                assert forall|i: int, j: int|
                    0 <= i < self@.len() && 0 <= j < self@.len() && i != j implies self@[i]
                    != self@[j] by {
                    assert(self@[i] == before[i + 1] && self@[j] == before[j + 1]);
                }
                assert forall|other: HardwareInterrupt|
                    (self.received & #[trigger] line_bit(other) != 0) == self@.contains(other) by {
                    lemma_clear_bit(received_before, interrupt, other);
                    if other == interrupt {
                        if self@.contains(other) {
                            let k = choose|k: int| 0 <= k < self@.len() && self@[k] == other;
                            assert(before[k + 1] == other && before[0] == other);
                        }
                    } else if before.contains(other) {
                        let k = choose|k: int| 0 <= k < before.len() && before[k] == other;
                        assert(k > 0);
                        assert(self@[k - 1] == other);
                    } else if self@.contains(other) {
                        let k = choose|k: int| 0 <= k < self@.len() && self@[k] == other;
                        assert(before[k + 1] == other);
                    }
                }
            }
        }
        event
    }
}

/// An interrupt of a line that waits already changes nothing: after a line
/// has come in, the same line coming in again leaves the events as they are,
/// and no line waits twice.
pub proof fn lemma_enqueue_is_idempotent(
    events: Seq<HardwareInterrupt>,
    interrupt: HardwareInterrupt,
)
    requires
        events.no_duplicates(),
    ensures
        enqueued(enqueued(events, interrupt), interrupt) == enqueued(events, interrupt),
        enqueued(events, interrupt).no_duplicates(),
        events.len() < PENDING_CAPACITY ==> enqueued(events, interrupt).contains(interrupt),
{
    let once = enqueued(events, interrupt);
    if !events.contains(interrupt) && events.len() < PENDING_CAPACITY {
        assert(once[events.len() as int] == interrupt);
        assert forall|i: int, j: int|
            0 <= i < once.len() && 0 <= j < once.len() && i != j implies once[i] != once[j] by {
            if i < events.len() && j < events.len() {
            } else if i < events.len() {
                assert(events.contains(events[i]));
            } else {
                assert(events.contains(events[j]));
            }
        }
    }
}

/// Once the main loop has taken the event of a line, the line waits no
/// longer, and its next interrupt is queued again, behind the others.
pub proof fn lemma_enqueue_after_drain(events: Seq<HardwareInterrupt>, interrupt: HardwareInterrupt)
    requires
        events.no_duplicates(),
        events.len() <= PENDING_CAPACITY,
        next_event(events) == Some(interrupt),
    ensures
        !dequeued(events).contains(interrupt),
        enqueued(dequeued(events), interrupt) == dequeued(events).push(interrupt),
{
    let rest = dequeued(events);
    if rest.contains(interrupt) {
        let k = choose|k: int| 0 <= k < rest.len() && rest[k] == interrupt;
        assert(events[k + 1] == interrupt && events[0] == interrupt);
    }
}

/// The events never outgrow the capacity of 32. An interrupt that comes in
/// while 32 wait is dropped, and whatever comes in, the events that waited
/// before still wait, in the same order, at the front.
pub proof fn lemma_capacity_is_kept(events: Seq<HardwareInterrupt>, interrupt: HardwareInterrupt)
    requires
        events.len() <= PENDING_CAPACITY,
    ensures
        enqueued(events, interrupt).len() <= PENDING_CAPACITY,
        dequeued(events).len() <= PENDING_CAPACITY,
        events.len() == PENDING_CAPACITY ==> enqueued(events, interrupt) == events,
        enqueued(events, interrupt).len() >= events.len(),
        enqueued(events, interrupt).subrange(0, events.len() as int) == events,
{
    assert(enqueued(events, interrupt).subrange(0, events.len() as int) =~= events);
}

/// The main loop gets the events in the order in which they were queued:
/// what is taken is the event at the front, and the others move up by one.
pub proof fn lemma_drain_is_fifo(events: Seq<HardwareInterrupt>, index: int)
    requires
        0 < index < events.len(),
    ensures
        next_event(events) == Some(events[0]),
        dequeued(events).len() == events.len() - 1,
        dequeued(events)[index - 1] == events[index],
{
}

/// The events that wait after the main loop has taken `count` of them.
pub open spec fn dequeued_times(
    events: Seq<HardwareInterrupt>,
    count: nat,
) -> Seq<HardwareInterrupt>
    decreases count,
{
    if count == 0 {
        events
    } else {
        dequeued(dequeued_times(events, (count - 1) as nat))
    }
}

/// Every event that waits is handed out in the end: the event at place
/// `place` is what the main loop gets after it has taken the `place` events
/// before it.
pub proof fn lemma_event_is_handed_out(events: Seq<HardwareInterrupt>, place: nat)
    requires
        place < events.len(),
    ensures
        dequeued_times(events, place) == events.subrange(place as int, events.len() as int),
        next_event(dequeued_times(events, place)) == Some(events[place as int]),
    decreases place,
{
    if place == 0 {
        assert(events.subrange(0, events.len() as int) =~= events);
    } else {
        let before = (place - 1) as nat;
        lemma_event_is_handed_out(events, before);
        assert(dequeued(events.subrange(before as int, events.len() as int)) =~= events.subrange(
            place as int,
            events.len() as int,
        ));
    }
}

/// The set of all hardware lines.
pub open spec fn all_lines() -> Set<HardwareInterrupt> {
    set![
        HardwareInterrupt::Timer,
        HardwareInterrupt::Keyboard,
        HardwareInterrupt::COM2,
        HardwareInterrupt::COM1,
        HardwareInterrupt::LPT2,
        HardwareInterrupt::FloppyDisk,
        HardwareInterrupt::LPT1,
        HardwareInterrupt::RealTimeClock,
        HardwareInterrupt::Mouse,
        HardwareInterrupt::FPU,
        HardwareInterrupt::PrimaryHardDisk,
        HardwareInterrupt::SecondaryHardDisk,
    ]
}

/// With no line waiting twice, at most as many events wait as there are
/// lines: the capacity of 32 is never reached.
pub proof fn lemma_pending_lines_bounded(events: Seq<HardwareInterrupt>)
    requires
        events.no_duplicates(),
    ensures
        events.len() <= HARDWARE_LINE_COUNT,
        events.len() < PENDING_CAPACITY,
{
    events.unique_seq_to_set();
    assert(all_lines().finite());
    assert(all_lines().len() == 12);
    assert forall|interrupt: HardwareInterrupt| events.to_set().contains(interrupt) implies all_lines().contains(
        interrupt,
    ) by {
        match interrupt {
            HardwareInterrupt::Timer => {},
            HardwareInterrupt::Keyboard => {},
            HardwareInterrupt::COM2 => {},
            HardwareInterrupt::COM1 => {},
            HardwareInterrupt::LPT2 => {},
            HardwareInterrupt::FloppyDisk => {},
            HardwareInterrupt::LPT1 => {},
            HardwareInterrupt::RealTimeClock => {},
            HardwareInterrupt::Mouse => {},
            HardwareInterrupt::FPU => {},
            HardwareInterrupt::PrimaryHardDisk => {},
            HardwareInterrupt::SecondaryHardDisk => {},
        }
    }
    vstd::set_lib::lemma_len_subset(events.to_set(), all_lines());
}

/// No interrupt is lost: with no line waiting twice, the line of an
/// interrupt that has come in waits afterwards, whether it was queued for
/// this interrupt or for an earlier one.
pub proof fn lemma_enqueue_never_drops(events: Seq<HardwareInterrupt>, interrupt: HardwareInterrupt)
    requires
        events.no_duplicates(),
    ensures
        enqueued(events, interrupt).contains(interrupt),
        !events.contains(interrupt) ==> enqueued(events, interrupt) == events.push(interrupt),
{
    lemma_pending_lines_bounded(events);
    if !events.contains(interrupt) {
        assert(events.push(interrupt)[events.len() as int] == interrupt);
    }
}

/// Setting the bit of one line sets that bit and leaves the bits of the other
/// lines as they were.
pub proof fn lemma_set_bit(received: u32, set: HardwareInterrupt, other: HardwareInterrupt)
    ensures
        ((received | line_bit(set)) & line_bit(other) != 0) == (other == set || received
            & line_bit(other) != 0),
{
    let a = set.spec_line() as u32;
    let b = other.spec_line() as u32;
    assert(((received | (1u32 << a)) & (1u32 << b) != 0) == (a == b || received & (1u32 << b)
        != 0)) by (bit_vector)
        requires
            a < 32,
            b < 32,
    ;
}

/// Clearing the bit of one line clears that bit and leaves the bits of the
/// other lines as they were.
pub proof fn lemma_clear_bit(received: u32, cleared: HardwareInterrupt, other: HardwareInterrupt)
    ensures
        ((received & !line_bit(cleared)) & line_bit(other) != 0) == (other != cleared && received
            & line_bit(other) != 0),
{
    let a = cleared.spec_line() as u32;
    let b = other.spec_line() as u32;
    assert(((received & !(1u32 << a)) & (1u32 << b) != 0) == (a != b && received & (1u32 << b)
        != 0)) by (bit_vector)
        requires
            a < 32,
            b < 32,
    ;
}

} // verus!
