//! The interrupt descriptor table and the state behind it: which step of
//! bring-up has been taken, which interrupts wait for the main loop, what the
//! clock reads and how often each controller signalled a spurious interrupt.
//!
//! The interrupt entry point calls `dispatch` with the vector that fired and
//! carries out what comes back. The main loop calls `handle_interrupt`, with
//! interrupts disabled around the call.

use vstd::prelude::*;
use crate::descriptor::gate_lower;
use crate::descriptor::gate_upper;
use crate::descriptor::interrupt_gate_descriptor;
use crate::descriptor::lemma_gate_fields;
use crate::descriptor::Descriptor;
use crate::descriptor::INTERRUPT_GATE_ACCESS;
use crate::gdt::GDT;
use crate::interrupt::exception_of;
use crate::interrupt::hardware_interrupt_of;
use crate::interrupt::lemma_vector_maps_disjoint;
pub use crate::interrupt::Exception;
pub use crate::interrupt::HardwareInterrupt;
use crate::interrupt::HARDWARE_LINE_COUNT;
use crate::interrupt::MASTER_PIC_INTERRUPT_OFFSET;
use crate::interrupt::MASTER_PIC_SPURIOUS_INTERRUPT;
use crate::interrupt::SLAVE_PIC_INTERRUPT_OFFSET;
use crate::interrupt::SLAVE_PIC_SPURIOUS_INTERRUPT;
use crate::pending::dequeued;
use crate::pending::enqueued;
use crate::pending::lemma_capacity_is_kept;
use crate::pending::lemma_enqueue_is_idempotent;
use crate::pending::lemma_enqueue_never_drops;
use crate::pending::lemma_pending_lines_bounded;
use crate::pending::next_event;
use crate::pending::PendingInterrupts;
use crate::pending::PENDING_CAPACITY;

verus! {

/// Number of vectors, and of gates in the table.
pub const VECTOR_COUNT: usize = 256;

/// Milliseconds between two ticks of the timer.
pub const TIMER_TICK_MILLISECONDS: usize = 55;

/// The line of each controller that is given up to spurious signalling:
/// bit 7 of the controller's mask.
pub const LAST_IRQ_LINE: u8 = 0x80;

/// The interrupt descriptor table: one gate per vector.
pub struct IDT {
    entries: [Descriptor; 256],
}

impl IDT {
    /// The gates, from vector 0 to 255.
    pub closed spec fn view(&self) -> Seq<Descriptor> {
        self.entries@
    }

    /// Builds the table whose gate for vector `v` enters the handler at
    /// `handlers[v]`, in the kernel's code segment, with interrupts off.
    pub fn build(handlers: &[u32; 256]) -> (table: Self)
        ensures
            table@.len() == 256,
            forall|vector: int|
                0 <= vector < 256 ==> is_kernel_interrupt_gate(
                    #[trigger] table@[vector],
                    handlers[vector],
                ),
    {
        let selector = GDT::code_selector();
        let mut entries = [Descriptor::null(); 256];
        let mut vector: usize = 0;
        while vector < 256
            invariant
                vector <= 256,
                selector == 0x08,
                forall|v: int|
                    0 <= v < vector ==> is_kernel_interrupt_gate(
                        #[trigger] entries[v],
                        handlers[v],
                    ),
            decreases 256 - vector,
        {
            let function_position = handlers[vector];
            let descriptor = interrupt_gate_descriptor(selector, function_position);
            proof {
                lemma_gate_access_bits();
                lemma_gate_fields(descriptor, selector, function_position, INTERRUPT_GATE_ACCESS);
            }
            entries[vector] = descriptor;
            vector += 1;
        }
        IDT { entries }
    }

    /// The gates, for whoever puts them where the CPU reads them.
    pub fn entries(&self) -> (entries: &[Descriptor; 256])
        ensures
            entries@ == self@,
    {
        &self.entries
    }
}

/// Whether `gate` is a present 32-bit interrupt gate for ring 0 that enters
/// the handler at `handler` through the kernel's code selector.
pub open spec fn is_kernel_interrupt_gate(gate: Descriptor, handler: u32) -> bool {
    &&& gate.spec_lower() == gate_lower(0x08, handler)
    &&& gate.spec_upper() == gate_upper(handler, INTERRUPT_GATE_ACCESS)
    &&& gate.gate_selector() == 0x08
    &&& gate.gate_offset() == handler
    &&& gate.present()
    &&& gate.privilege_level() == 0
    &&& gate.kind() == 0x0e
}

/// What the access bits of an interrupt gate ask for.
proof fn lemma_gate_access_bits()
    ensures
        INTERRUPT_GATE_ACCESS & 0xffff_0000 == 0,
        INTERRUPT_GATE_ACCESS & 0x8000 != 0,
        (INTERRUPT_GATE_ACCESS >> 13) & 0x3 == 0,
        (INTERRUPT_GATE_ACCESS >> 8) & 0x1f == 0x0e,
{
    assert(0x0000_8e00u32 & 0xffff_0000 == 0 && 0x0000_8e00u32 & 0x8000 != 0 && (0x0000_8e00u32
        >> 13) & 0x3 == 0 && (0x0000_8e00u32 >> 8) & 0x1f == 0x0e) by (bit_vector);
}

/// How to program the two interrupt controllers: edge triggered, with these
/// vector offsets and these masks.
#[derive(Clone, Copy, Debug, PartialEq, Eq, Structural)]
pub struct PicSetup {
    /// Whether the controllers take interrupts on an edge, not on a level.
    pub edge_triggered: bool,
    /// First vector of the master controller.
    pub master_offset: u8,
    /// First vector of the slave controller.
    pub slave_offset: u8,
    /// Lines of the master controller to mask.
    pub master_mask: u8,
    /// Lines of the slave controller to mask.
    pub slave_mask: u8,
}

/// The steps of bringing the interrupt subsystem up, in their order.
#[derive(Clone, Copy, Debug, PartialEq, Eq, Structural)]
pub enum InterruptStage {
    Uninitialized,
    TableBuilt,
    PicProgrammed,
    InterruptsEnabled,
}

/// A step of bring-up was asked for out of its turn.
#[derive(Clone, Copy, Debug, PartialEq, Eq, Structural)]
pub struct OutOfOrder {
    /// The stage that the subsystem was in.
    pub found: InterruptStage,
}

/// Which controllers to send an end-of-interrupt to.
#[derive(Clone, Copy, Debug, PartialEq, Eq, Structural)]
pub enum EndOfInterrupt {
    /// None of them.
    Nobody,
    /// The master.
    Master,
    /// The slave, then the master.
    SlaveThenMaster,
}

/// One of the two interrupt controllers.
#[derive(Clone, Copy, Debug, PartialEq, Eq, Structural)]
pub enum Controller {
    Master,
    Slave,
}

/// An exception that ends the run: what to report before the machine halts.
#[derive(Clone, Copy, Debug, PartialEq, Eq, Structural)]
pub struct FatalException {
    /// The exception, where the vector stands for one.
    pub kind: Option<Exception>,
    /// The vector that fired.
    pub vector: u8,
    /// The error code that the CPU pushed, where it pushed one.
    pub error_code: Option<u32>,
}

/// What the interrupt entry point has to do after the state has taken the
/// interrupt in.
#[derive(Clone, Copy, Debug, PartialEq, Eq, Structural)]
pub enum Dispatch {
    /// Report the exception and halt. Nothing is acknowledged.
    Fatal(FatalException),
    /// Acknowledge the interrupt and return.
    Serviced {
        /// The controllers to acknowledge it to.
        end_of_interrupt: EndOfInterrupt,
        /// The controller that signalled a spurious interrupt, if one did.
        spurious: Option<Controller>,
    },
}

/// The controllers that get an end-of-interrupt for `vector`.
///
/// A line of the master is acknowledged to the master, a line of the slave to
/// the slave and then to the master, through which it came. A spurious
/// interrupt is no interrupt of the controller that signalled it, so that
/// controller gets none; the master still gets one for a spurious interrupt
/// of the slave.
pub open spec fn end_of_interrupt_for(vector: u8) -> EndOfInterrupt {
    if MASTER_PIC_INTERRUPT_OFFSET <= vector < MASTER_PIC_SPURIOUS_INTERRUPT {
        EndOfInterrupt::Master
    } else if SLAVE_PIC_INTERRUPT_OFFSET <= vector < SLAVE_PIC_SPURIOUS_INTERRUPT {
        EndOfInterrupt::SlaveThenMaster
    } else if vector == SLAVE_PIC_SPURIOUS_INTERRUPT {
        EndOfInterrupt::Master
    } else {
        EndOfInterrupt::Nobody
    }
}

/// The controller that signals a spurious interrupt on `vector`, if one does.
pub open spec fn spurious_controller(vector: u8) -> Option<Controller> {
    if vector == MASTER_PIC_SPURIOUS_INTERRUPT {
        Some(Controller::Master)
    } else if vector == SLAVE_PIC_SPURIOUS_INTERRUPT {
        Some(Controller::Slave)
    } else {
        None
    }
}

/// The line that an interrupt on `vector` is delivered as, if it is
/// delivered as one.
///
/// The two spurious vectors deliver nothing, whatever the vector map says of
/// them: a controller that signals a spurious interrupt has no request of a
/// device to pass on.
pub open spec fn delivered_line(vector: u8) -> Option<HardwareInterrupt> {
    if vector == MASTER_PIC_SPURIOUS_INTERRUPT || vector == SLAVE_PIC_SPURIOUS_INTERRUPT {
        None
    } else {
        hardware_interrupt_of(vector)
    }
}

/// What the interrupt entry point has to do for `vector`.
pub open spec fn dispatch_outcome(vector: u8) -> Dispatch {
    match exception_of(vector) {
        Some(exception) => Dispatch::Fatal(
            FatalException { kind: Some(exception), vector, error_code: None },
        ),
        None => Dispatch::Serviced {
            end_of_interrupt: end_of_interrupt_for(vector),
            spurious: spurious_controller(vector),
        },
    }
}

/// `count` plus `step`, starting again from 0 past the largest `usize`.
pub open spec fn wrapping_sum(count: usize, step: usize) -> usize {
    if count + step > usize::MAX {
        (count + step - usize::MAX - 1) as usize
    } else {
        (count + step) as usize
    }
}

/// What the interrupt subsystem holds, apart from the stage of bring-up.
pub struct InterruptModel {
    /// The events that wait for the main loop, the first at index 0.
    pub pending: Seq<HardwareInterrupt>,
    /// The clock, in milliseconds since interrupts were enabled.
    pub time_milliseconds: usize,
    /// Spurious interrupts that the master controller signalled.
    pub master_spurious: usize,
    /// Spurious interrupts that the slave controller signalled.
    pub slave_spurious: usize,
}

/// The state after an interrupt on `vector`.
///
/// An exception changes nothing: the machine halts. A tick of the timer
/// moves the clock on by 55 ms and is not queued. Any other line that is
/// delivered joins the pending events, once. A spurious interrupt is counted.
pub open spec fn dispatched(state: InterruptModel, vector: u8) -> InterruptModel {
    if exception_of(vector) is Some {
        state
    } else {
        InterruptModel {
            pending: match delivered_line(vector) {
                Some(HardwareInterrupt::Timer) => state.pending,
                Some(interrupt) => enqueued(state.pending, interrupt),
                None => state.pending,
            },
            time_milliseconds: if delivered_line(vector) == Some(HardwareInterrupt::Timer) {
                wrapping_sum(state.time_milliseconds, TIMER_TICK_MILLISECONDS)
            } else {
                state.time_milliseconds
            },
            master_spurious: if vector == MASTER_PIC_SPURIOUS_INTERRUPT {
                wrapping_sum(state.master_spurious, 1)
            } else {
                state.master_spurious
            },
            slave_spurious: if vector == SLAVE_PIC_SPURIOUS_INTERRUPT {
                wrapping_sum(state.slave_spurious, 1)
            } else {
                state.slave_spurious
            },
        }
    }
}

/// The state after the main loop has taken an event.
pub open spec fn drained(state: InterruptModel) -> InterruptModel {
    InterruptModel { pending: dequeued(state.pending), ..state }
}

/// The state after `ticks` interrupts of the timer in a row.
pub open spec fn after_timer_ticks(state: InterruptModel, ticks: nat) -> InterruptModel
    decreases ticks,
{
    if ticks == 0 {
        state
    } else {
        dispatched(after_timer_ticks(state, (ticks - 1) as nat), 32)
    }
}

/// The interrupt subsystem: the stage of its bring-up and its state.
pub struct IDTHandler {
    stage: InterruptStage,
    pending: PendingInterrupts,
    time_milliseconds: usize,
    master_spurious: usize,
    slave_spurious: usize,
}

impl IDTHandler {
    /// The state.
    pub closed spec fn view(&self) -> InterruptModel {
        InterruptModel {
            pending: self.pending@,
            time_milliseconds: self.time_milliseconds,
            master_spurious: self.master_spurious,
            slave_spurious: self.slave_spurious,
        }
    }

    /// The stage of bring-up.
    pub closed spec fn spec_stage(&self) -> InterruptStage {
        self.stage
    }

    /// The pending events are well formed: no line waits twice, the timer
    /// never waits, and the set of pending lines agrees with the events.
    pub closed spec fn wf(&self) -> bool {
        self.pending.wf() && !self.pending@.contains(HardwareInterrupt::Timer)
    }

    /// What well-formedness says of the state: no line waits twice, the
    /// timer never waits, and fewer events wait than the queue has places.
    pub proof fn lemma_wf(&self)
        requires
            self.wf(),
        ensures
            self@.pending.no_duplicates(),
            !self@.pending.contains(HardwareInterrupt::Timer),
            self@.pending.len() <= HARDWARE_LINE_COUNT,
            self@.pending.len() < PENDING_CAPACITY,
    {
        lemma_pending_lines_bounded(self@.pending);
    }

    /// A subsystem of which nothing is brought up: nothing waits, the clock
    /// reads 0 and no spurious interrupt has been counted.
    pub fn new() -> (handler: Self)
        ensures
            handler.wf(),
            handler.spec_stage() == InterruptStage::Uninitialized,
            handler@ == (InterruptModel {
                pending: Seq::<HardwareInterrupt>::empty(),
                time_milliseconds: 0,
                master_spurious: 0,
                slave_spurious: 0,
            }),
    {
        IDTHandler {
            stage: InterruptStage::Uninitialized,
            pending: PendingInterrupts::new(),
            time_milliseconds: 0,
            master_spurious: 0,
            slave_spurious: 0,
        }
    }

    /// The stage of bring-up.
    #[verifier::when_used_as_spec(spec_stage)]
    pub fn stage(&self) -> (stage: InterruptStage)
        ensures
            stage == self.spec_stage(),
    {
        self.stage
    }

    /// First step: builds the table for the caller to load. Refused, with
    /// nothing changed, unless nothing has been brought up yet.
    pub fn build_table(&mut self, handlers: &[u32; 256]) -> (table: Result<IDT, OutOfOrder>)
        ensures
            final(self).wf() == old(self).wf(),
            final(self)@ == old(self)@,
            match table {
                Ok(built) => {
                    &&& old(self).spec_stage() == InterruptStage::Uninitialized
                    &&& final(self).spec_stage() == InterruptStage::TableBuilt
                    &&& built@.len() == 256
                    &&& forall|vector: int|
                        0 <= vector < 256 ==> is_kernel_interrupt_gate(
                            #[trigger] built@[vector],
                            handlers[vector],
                        )
                },
                Err(refusal) => {
                    &&& old(self).spec_stage() != InterruptStage::Uninitialized
                    &&& refusal.found == old(self).spec_stage()
                    &&& final(self).spec_stage() == old(self).spec_stage()
                },
            },
    {
        match self.stage {
            InterruptStage::Uninitialized => {
                let table = IDT::build(handlers);
                self.stage = InterruptStage::TableBuilt;
                Ok(table)
            },
            found => Err(OutOfOrder { found }),
        }
    }

    /// Second step: says how the caller has to program the two controllers.
    /// The master's lines go to vectors 32 to 39, the slave's to the eight
    /// that follow, and line 7 of each is masked, since the controllers
    /// signal spurious interrupts on it. Refused, with nothing changed,
    /// unless the table has just been built.
    pub fn program_pic(&mut self) -> (setup: Result<PicSetup, OutOfOrder>)
        ensures
            final(self).wf() == old(self).wf(),
            final(self)@ == old(self)@,
            match setup {
                Ok(pic) => {
                    &&& old(self).spec_stage() == InterruptStage::TableBuilt
                    &&& final(self).spec_stage() == InterruptStage::PicProgrammed
                    &&& pic == (PicSetup {
                        edge_triggered: true,
                        master_offset: MASTER_PIC_INTERRUPT_OFFSET,
                        slave_offset: SLAVE_PIC_INTERRUPT_OFFSET,
                        master_mask: LAST_IRQ_LINE,
                        slave_mask: LAST_IRQ_LINE,
                    })
                    &&& pic.slave_offset == pic.master_offset + 8
                },
                Err(refusal) => {
                    &&& old(self).spec_stage() != InterruptStage::TableBuilt
                    &&& refusal.found == old(self).spec_stage()
                    &&& final(self).spec_stage() == old(self).spec_stage()
                },
            },
    {
        match self.stage {
            InterruptStage::TableBuilt => {
                self.stage = InterruptStage::PicProgrammed;
                Ok(
                    PicSetup {
                        edge_triggered: true,
                        master_offset: MASTER_PIC_INTERRUPT_OFFSET,
                        slave_offset: SLAVE_PIC_INTERRUPT_OFFSET,
                        master_mask: LAST_IRQ_LINE,
                        slave_mask: LAST_IRQ_LINE,
                    },
                )
            },
            found => Err(OutOfOrder { found }),
        }
    }

    /// Last step: lets the caller enable interrupts. Refused, with nothing
    /// changed, unless the controllers have just been programmed.
    pub fn enable_interrupts(&mut self) -> (enabled: Result<(), OutOfOrder>)
        ensures
            final(self).wf() == old(self).wf(),
            final(self)@ == old(self)@,
            match enabled {
                Ok(_) => {
                    &&& old(self).spec_stage() == InterruptStage::PicProgrammed
                    &&& final(self).spec_stage() == InterruptStage::InterruptsEnabled
                },
                Err(refusal) => {
                    &&& old(self).spec_stage() != InterruptStage::PicProgrammed
                    &&& refusal.found == old(self).spec_stage()
                    &&& final(self).spec_stage() == old(self).spec_stage()
                },
            },
    {
        match self.stage {
            InterruptStage::PicProgrammed => {
                self.stage = InterruptStage::InterruptsEnabled;
                Ok(())
            },
            found => Err(OutOfOrder { found }),
        }
    }

    /// Takes in the interrupt that fired on `interrupt_number` and says what
    /// the entry point has to do for it.
    pub fn dispatch(&mut self, interrupt_number: u8) -> (outcome: Dispatch)
        requires
            old(self).wf(),
        ensures
            final(self).wf(),
            outcome == dispatch_outcome(interrupt_number),
            final(self)@ == dispatched(old(self)@, interrupt_number),
            final(self).spec_stage() == old(self).spec_stage(),
    {
        proof {
            lemma_dispatch_keeps_pending_sound(self@, interrupt_number);
        }
        if let Ok(exception) = Exception::from_interrupt_number(interrupt_number) {
            return Dispatch::Fatal(
                FatalException {
                    kind: Some(exception),
                    vector: interrupt_number,
                    error_code: None,
                },
            );
        }
        let spurious = if interrupt_number == MASTER_PIC_SPURIOUS_INTERRUPT {
            Some(Controller::Master)
        } else if interrupt_number == SLAVE_PIC_SPURIOUS_INTERRUPT {
            Some(Controller::Slave)
        } else {
            None
        };
        if spurious.is_none() {
            if let Ok(interrupt) = HardwareInterrupt::from_interrupt_number(interrupt_number) {
                if let HardwareInterrupt::Timer = interrupt {
                    self.time_milliseconds = self.time_milliseconds.wrapping_add(
                        TIMER_TICK_MILLISECONDS,
                    );
                } else {
                    let _ = self.pending.enqueue(interrupt);
                }
            }
        }
        let end_of_interrupt = if MASTER_PIC_INTERRUPT_OFFSET <= interrupt_number
            && interrupt_number < MASTER_PIC_SPURIOUS_INTERRUPT {
            EndOfInterrupt::Master
        } else if SLAVE_PIC_INTERRUPT_OFFSET <= interrupt_number && interrupt_number
            < SLAVE_PIC_SPURIOUS_INTERRUPT {
            EndOfInterrupt::SlaveThenMaster
        } else if interrupt_number == SLAVE_PIC_SPURIOUS_INTERRUPT {
            EndOfInterrupt::Master
        } else {
            EndOfInterrupt::Nobody
        };
        match spurious {
            Some(Controller::Master) => {
                self.master_spurious = self.master_spurious.wrapping_add(1);
            },
            Some(Controller::Slave) => {
                self.slave_spurious = self.slave_spurious.wrapping_add(1);
            },
            None => {},
        }
        Dispatch::Serviced { end_of_interrupt, spurious }
    }

    /// What to report for an exception that came with an error code. Such an
    /// exception always ends the run.
    pub fn dispatch_with_error(
        &self,
        interrupt_number: u8,
        error_code: u32,
    ) -> (report: FatalException)
        ensures
            report == (FatalException {
                kind: exception_of(interrupt_number),
                vector: interrupt_number,
                error_code: Some(error_code),
            }),
    {
        let kind = match Exception::from_interrupt_number(interrupt_number) {
            Ok(exception) => Some(exception),
            Err(_) => None,
        };
        FatalException { kind, vector: interrupt_number, error_code: Some(error_code) }
    }

    /// Hands the main loop the event that has waited longest, and lets its
    /// line come in again. Returns `None` if nothing waits. The caller keeps
    /// interrupts disabled around the call.
    pub fn handle_interrupt(&mut self) -> (event: Option<HardwareInterrupt>)
        requires
            old(self).wf(),
        ensures
            final(self).wf(),
            event == next_event(old(self)@.pending),
            event != Some(HardwareInterrupt::Timer),
            final(self)@ == drained(old(self)@),
            final(self).spec_stage() == old(self).spec_stage(),
    {
        let ghost before = self.pending@;
        let event = self.pending.dequeue();
        proof {
            if before.len() > 0 {
                assert(before.contains(before[0]));
            }
            if self.pending@.contains(HardwareInterrupt::Timer) {
                let k = choose|k: int|
                    0 <= k < self.pending@.len() && self.pending@[k] == HardwareInterrupt::Timer;
                assert(before[k + 1] == HardwareInterrupt::Timer);
            }
        }
        event
    }

    /// Number of spurious interrupts that the master controller signalled.
    pub fn master_pic_spurious_interrupts_count(&self) -> (count: usize)
        ensures
            count == self@.master_spurious,
    {
        self.master_spurious
    }

    /// Number of spurious interrupts that the slave controller signalled.
    pub fn slave_pic_spurious_interrupts_count(&self) -> (count: usize)
        ensures
            count == self@.slave_spurious,
    {
        self.slave_spurious
    }

    /// The clock, in milliseconds.
    pub fn time_milliseconds(&self) -> (time: usize)
        ensures
            time == self@.time_milliseconds,
    {
        self.time_milliseconds
    }

    /// Number of events that wait for the main loop.
    pub fn pending_count(&self) -> (count: usize)
        ensures
            count == self@.pending.len(),
    {
        self.pending.len()
    }
}

/// A tick of the timer moves the clock on by 55 ms and does nothing else:
/// nothing is queued for it, however many ticks follow each other, and the
/// master controller is told that the interrupt is done. The clock reads
/// more after the tick than before, unless it starts again from 0.
pub proof fn lemma_timer_tick(state: InterruptModel)
    ensures
        dispatch_outcome(32) == (Dispatch::Serviced {
            end_of_interrupt: EndOfInterrupt::Master,
            spurious: None,
        }),
        dispatched(state, 32) == (InterruptModel {
            time_milliseconds: wrapping_sum(state.time_milliseconds, TIMER_TICK_MILLISECONDS),
            ..state
        }),
        state.time_milliseconds + TIMER_TICK_MILLISECONDS <= usize::MAX ==> dispatched(
            state,
            32,
        ).time_milliseconds == state.time_milliseconds + TIMER_TICK_MILLISECONDS,
        state.time_milliseconds + TIMER_TICK_MILLISECONDS <= usize::MAX ==> dispatched(
            state,
            32,
        ).time_milliseconds > state.time_milliseconds,
{
}

/// After `ticks` ticks of the timer in a row the clock has moved on by 55 ms
/// for each of them, and nothing else has changed, as long as the clock does
/// not pass the largest `usize`.
pub proof fn lemma_timer_ticks(state: InterruptModel, ticks: nat)
    requires
        state.time_milliseconds + TIMER_TICK_MILLISECONDS * ticks <= usize::MAX,
    ensures
        after_timer_ticks(state, ticks) == (InterruptModel {
            time_milliseconds: (state.time_milliseconds + TIMER_TICK_MILLISECONDS * ticks) as usize,
            ..state
        }),
        ticks > 0 ==> after_timer_ticks(state, ticks).time_milliseconds > state.time_milliseconds,
    decreases ticks,
{
    if ticks > 0 {
        let before = (ticks - 1) as nat;
        assert(TIMER_TICK_MILLISECONDS * ticks == TIMER_TICK_MILLISECONDS * before
            + TIMER_TICK_MILLISECONDS) by (nonlinear_arith)
            requires
                before == ticks - 1,
        ;
        lemma_timer_ticks(state, before);
        lemma_timer_tick(after_timer_ticks(state, before));
    }
}

/// An interrupt on a vector that stands for no exception and no line ends
/// with the end-of-interrupt that the vector's range asks for. Nothing is
/// queued, the clock stands still and the machine does not halt.
pub proof fn lemma_unknown_vector_is_ignored(state: InterruptModel, vector: u8)
    requires
        exception_of(vector) is None,
        hardware_interrupt_of(vector) is None,
    ensures
        dispatch_outcome(vector) == (Dispatch::Serviced {
            end_of_interrupt: end_of_interrupt_for(vector),
            spurious: spurious_controller(vector),
        }),
        dispatched(state, vector).pending == state.pending,
        dispatched(state, vector).time_milliseconds == state.time_milliseconds,
        dispatched(state, vector).master_spurious == state.master_spurious,
        vector != SLAVE_PIC_SPURIOUS_INTERRUPT ==> dispatched(state, vector) == state,
{
}

/// An exception changes nothing and is reported with its kind and vector.
pub proof fn lemma_exception_is_fatal(state: InterruptModel, vector: u8)
    requires
        exception_of(vector) is Some,
    ensures
        dispatched(state, vector) == state,
        dispatch_outcome(vector) == Dispatch::Fatal(
            FatalException { kind: exception_of(vector), vector, error_code: None },
        ),
{
}

/// Whatever fires, at most 32 events wait and no line waits twice, and the
/// events that waited before still wait, in the same order, at the front.
/// An interrupt of a line that is delivered once more before the main loop
/// has taken its event leaves the pending events as they are. The timer is
/// never queued.
pub proof fn lemma_dispatch_keeps_pending_sound(state: InterruptModel, vector: u8)
    requires
        state.pending.len() <= PENDING_CAPACITY,
        state.pending.no_duplicates(),
    ensures
        dispatched(state, vector).pending.len() <= PENDING_CAPACITY,
        dispatched(state, vector).pending.no_duplicates(),
        dispatched(state, vector).pending.len() >= state.pending.len(),
        dispatched(state, vector).pending.subrange(0, state.pending.len() as int)
            == state.pending,
        dispatched(dispatched(state, vector), vector).pending == dispatched(
            state,
            vector,
        ).pending,
        drained(state).pending.len() <= PENDING_CAPACITY,
        !state.pending.contains(HardwareInterrupt::Timer) ==> !dispatched(
            state,
            vector,
        ).pending.contains(HardwareInterrupt::Timer),
{
    if exception_of(vector) is None {
        match delivered_line(vector) {
            Some(HardwareInterrupt::Timer) => {},
            Some(interrupt) => {
                lemma_enqueue_is_idempotent(state.pending, interrupt);
                lemma_capacity_is_kept(state.pending, interrupt);
            },
            None => {},
        }
    }
    assert(dispatched(state, vector).pending.subrange(0, state.pending.len() as int)
        =~= state.pending);
}

/// No hardware interrupt is lost: after an interrupt on a vector that is
/// delivered as a line other than the timer, that line waits for the main
/// loop, and the next drains hand it out in its turn.
pub proof fn lemma_delivered_line_is_pending(state: InterruptModel, vector: u8)
    requires
        state.pending.no_duplicates(),
        delivered_line(vector) is Some,
        delivered_line(vector) != Some(HardwareInterrupt::Timer),
    ensures
        dispatched(state, vector).pending.contains(delivered_line(vector).unwrap()),
        state.pending.len() == 0 ==> next_event(dispatched(state, vector).pending)
            == delivered_line(vector),
{
    lemma_vector_maps_disjoint(vector);
    lemma_enqueue_never_drops(state.pending, delivered_line(vector).unwrap());
}

} // verus!
