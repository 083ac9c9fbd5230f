//! The boot contract and the order in which the machine is brought up.
//!
//! The caller does each step on the hardware and reports it here. A step
//! that comes out of its turn is refused, so that no structure is loaded
//! before the feature it relies on is enabled.

use vstd::prelude::*;
use crate::interrupt::HardwareInterrupt;

verus! {

/// What a Multiboot2 boot loader leaves in `eax`.
pub const MULTIBOOT2_MAGIC: u32 = 0x36d7_6289;

/// EFLAGS bit of virtual-8086 mode.
pub const EFLAGS_VIRTUAL_8086: u32 = 0x0002_0000;

/// EFLAGS bit of a nested task.
pub const EFLAGS_NESTED_TASK: u32 = 0x0000_4000;

/// Why the machine is not in the state that the kernel starts from. The
/// checks are made in the order of the variants, and the first that fails is
/// reported.
#[derive(Clone, Copy, Debug, PartialEq, Eq, Structural)]
pub enum BootError {
    /// The stack does not start at a multiple of 4.
    StackUnaligned,
    /// The word at the start of the stack is not the 0 that was put there.
    StackStartOverwritten { value: usize },
    /// The CPU runs in virtual-8086 mode.
    Virtual8086Mode,
    /// The CPU runs a nested task.
    NestedTask,
    /// The boot loader did not follow Multiboot2: `eax` holds something else
    /// than the magic value.
    NotMultiboot2 { eax: u32 },
}

/// What the entry point finds when the boot loader hands over.
#[derive(Clone, Copy, Debug, PartialEq, Eq, Structural)]
pub struct BootState {
    /// Address at which the stack starts.
    pub stack_start: usize,
    /// The word found at that address.
    pub stack_index_0: usize,
    /// The flags register.
    pub eflags: u32,
    /// The first machine word of the boot loader.
    pub eax: u32,
}

/// The verdict on the state in which the boot loader hands over.
pub open spec fn boot_verdict(state: BootState) -> Result<(), BootError> {
    if state.stack_start % 4 != 0 {
        Err(BootError::StackUnaligned)
    } else if state.stack_index_0 != 0 {
        Err(BootError::StackStartOverwritten { value: state.stack_index_0 })
    } else if state.eflags & EFLAGS_VIRTUAL_8086 != 0 {
        Err(BootError::Virtual8086Mode)
    } else if state.eflags & EFLAGS_NESTED_TASK != 0 {
        Err(BootError::NestedTask)
    } else if state.eax != MULTIBOOT2_MAGIC {
        Err(BootError::NotMultiboot2 { eax: state.eax })
    } else {
        Ok(())
    }
}

/// Whether a Multiboot2 boot loader started the kernel: `eax` must hold the
/// magic value, and any other value is refused.
pub fn check_boot_loader(eax: u32) -> (verdict: Result<(), BootError>)
    ensures
        verdict == if eax == MULTIBOOT2_MAGIC {
            Ok::<(), BootError>(())
        } else {
            Err(BootError::NotMultiboot2 { eax })
        },
{
    if eax != MULTIBOOT2_MAGIC {
        Err(BootError::NotMultiboot2 { eax })
    } else {
        Ok(())
    }
}

/// Checks the state in which the boot loader hands over: the stack, the
/// flags register and the boot loader's magic value.
pub fn check_boot_state(state: BootState) -> (verdict: Result<(), BootError>)
    ensures
        verdict == boot_verdict(state),
{
    if state.stack_start % 4 != 0 {
        return Err(BootError::StackUnaligned);
    }
    if state.stack_index_0 != 0 {
        return Err(BootError::StackStartOverwritten { value: state.stack_index_0 });
    }
    if state.eflags & EFLAGS_VIRTUAL_8086 != 0 {
        return Err(BootError::Virtual8086Mode);
    }
    if state.eflags & EFLAGS_NESTED_TASK != 0 {
        return Err(BootError::NestedTask);
    }
    check_boot_loader(state.eax)
}

/// The steps of bringing the machine up, in the one order in which they may
/// be taken.
#[derive(Clone, Copy, Debug, PartialEq, Eq, Structural)]
pub enum BringUpStep {
    /// Check what the boot loader left.
    CheckBootState,
    /// Check that the CPU has what the kernel needs.
    CheckCpuFeatures,
    /// Set the PAE bit of CR4.
    EnablePae,
    /// Set the no-execute enable bit of the extended-feature-enable register.
    EnableNoExecute,
    /// Load the global descriptor table and the segment registers.
    LoadSegments,
    /// Load the interrupt descriptor table and program the controllers.
    LoadInterruptTable,
    /// Build the page tables.
    BuildPageTable,
    /// Write CR3, then CR0: paging and write protection come on together.
    ActivatePaging,
    /// Load the task register.
    LoadTaskRegister,
    /// Bring the input devices up.
    InitializeInput,
    /// Let interrupts in.
    EnableInterrupts,
}

/// Number of steps.
pub const BRING_UP_STEP_COUNT: u8 = 11;

/// The place of `step` in the order, from 0.
pub open spec fn step_position(step: BringUpStep) -> u8 {
    match step {
        BringUpStep::CheckBootState => 0,
        BringUpStep::CheckCpuFeatures => 1,
        BringUpStep::EnablePae => 2,
        BringUpStep::EnableNoExecute => 3,
        BringUpStep::LoadSegments => 4,
        BringUpStep::LoadInterruptTable => 5,
        BringUpStep::BuildPageTable => 6,
        BringUpStep::ActivatePaging => 7,
        BringUpStep::LoadTaskRegister => 8,
        BringUpStep::InitializeInput => 9,
        BringUpStep::EnableInterrupts => 10,
    }
}

/// The step at place `position`, if there is one.
pub open spec fn step_at(position: u8) -> Option<BringUpStep> {
    match position {
        0 => Some(BringUpStep::CheckBootState),
        1 => Some(BringUpStep::CheckCpuFeatures),
        2 => Some(BringUpStep::EnablePae),
        3 => Some(BringUpStep::EnableNoExecute),
        4 => Some(BringUpStep::LoadSegments),
        5 => Some(BringUpStep::LoadInterruptTable),
        6 => Some(BringUpStep::BuildPageTable),
        7 => Some(BringUpStep::ActivatePaging),
        8 => Some(BringUpStep::LoadTaskRegister),
        9 => Some(BringUpStep::InitializeInput),
        10 => Some(BringUpStep::EnableInterrupts),
        _ => None,
    }
}

/// A step was reported out of its turn.
#[derive(Clone, Copy, Debug, PartialEq, Eq, Structural)]
pub struct OutOfSequence {
    /// The step that was reported.
    pub reported: BringUpStep,
    /// The step whose turn it was, or `None` after the last.
    pub expected: Option<BringUpStep>,
}

/// How far the machine has been brought up.
#[derive(Clone, Copy, Debug)]
pub struct BringUp {
    completed: u8,
}

impl BringUp {
    #[verifier::type_invariant]
    spec fn within_steps(self) -> bool {
        self.completed <= BRING_UP_STEP_COUNT
    }

    /// Number of steps that have been taken.
    pub closed spec fn spec_completed(&self) -> u8 {
        self.completed
    }

    /// Whether `step` has been taken: the steps taken are those before the
    /// place that the sequence has reached.
    pub open spec fn is_done(&self, step: BringUpStep) -> bool {
        step_position(step) < self.spec_completed()
    }

    /// The start: no step has been taken.
    pub fn new() -> (sequence: Self)
        ensures
            sequence.spec_completed() == 0,
    {
        BringUp { completed: 0 }
    }

    /// Number of steps that have been taken.
    #[verifier::when_used_as_spec(spec_completed)]
    pub fn completed(&self) -> (count: u8)
        ensures
            count == self.spec_completed(),
            count <= BRING_UP_STEP_COUNT,
    {
        proof {
            use_type_invariant(self);
        }
        self.completed
    }

    /// The step whose turn it is, or `None` once the machine is up.
    pub fn next_step(&self) -> (step: Option<BringUpStep>)
        ensures
            step == step_at(self.spec_completed()),
            step.is_none() == (self.spec_completed() == BRING_UP_STEP_COUNT),
    {
        proof {
            use_type_invariant(self);
        }
        match self.completed {
            0 => Some(BringUpStep::CheckBootState),
            1 => Some(BringUpStep::CheckCpuFeatures),
            2 => Some(BringUpStep::EnablePae),
            3 => Some(BringUpStep::EnableNoExecute),
            4 => Some(BringUpStep::LoadSegments),
            5 => Some(BringUpStep::LoadInterruptTable),
            6 => Some(BringUpStep::BuildPageTable),
            7 => Some(BringUpStep::ActivatePaging),
            8 => Some(BringUpStep::LoadTaskRegister),
            9 => Some(BringUpStep::InitializeInput),
            10 => Some(BringUpStep::EnableInterrupts),
            _ => None,
        }
    }

    /// Records that `step` has been taken. Refused, with nothing recorded,
    /// unless it is the turn of `step`.
    pub fn complete(&mut self, step: BringUpStep) -> (recorded: Result<(), OutOfSequence>)
        ensures
            match recorded {
                Ok(_) => {
                    &&& step_at(old(self).spec_completed()) == Some(step)
                    &&& final(self).spec_completed() == old(self).spec_completed() + 1
                },
                Err(refusal) => {
                    &&& step_at(old(self).spec_completed()) != Some(step)
                    &&& refusal == (OutOfSequence {
                        reported: step,
                        expected: step_at(old(self).spec_completed()),
                    })
                    &&& final(self).spec_completed() == old(self).spec_completed()
                },
            },
    {
        let expected = self.next_step();
        match expected {
            Some(due) => {
                if due == step {
                    proof {
                        use_type_invariant(&*self);
                    }
                    self.completed = self.completed + 1;
                    return Ok(());
                }
            },
            None => {},
        }
        Err(OutOfSequence { reported: step, expected })
    }

    /// Whether every step has been taken.
    pub fn is_up(&self) -> (up: bool)
        ensures
            up == (self.spec_completed() == BRING_UP_STEP_COUNT),
    {
        self.completed == BRING_UP_STEP_COUNT
    }
}

/// A step is recorded only when every step before it has been taken and none
/// after it: whenever the record of `step` is granted, exactly the steps
/// that come earlier in the order are done.
pub proof fn lemma_steps_are_taken_in_order(
    sequence: BringUp,
    step: BringUpStep,
    other: BringUpStep,
)
    requires
        step_at(sequence.spec_completed()) == Some(step),
    ensures
        sequence.is_done(other) == (step_position(other) < step_position(step)),
        !sequence.is_done(step),
{
}

/// The order puts each feature before what relies on it: the checks before
/// anything is switched on, PAE before the no-execute bit, both before the
/// page tables are built, the tables before paging is activated, and the
/// descriptor tables and the page tables before interrupts are let in.
pub proof fn lemma_feature_order()
    ensures
        step_position(BringUpStep::CheckBootState) < step_position(BringUpStep::CheckCpuFeatures),
        step_position(BringUpStep::CheckCpuFeatures) < step_position(BringUpStep::EnablePae),
        step_position(BringUpStep::EnablePae) < step_position(BringUpStep::EnableNoExecute),
        step_position(BringUpStep::EnableNoExecute) < step_position(BringUpStep::BuildPageTable),
        step_position(BringUpStep::LoadSegments) < step_position(BringUpStep::LoadInterruptTable),
        step_position(BringUpStep::LoadInterruptTable) < step_position(
            BringUpStep::BuildPageTable,
        ),
        step_position(BringUpStep::BuildPageTable) < step_position(BringUpStep::ActivatePaging),
        step_position(BringUpStep::ActivatePaging) < step_position(BringUpStep::EnableInterrupts),
        forall|step: BringUpStep|
            step_position(step) < BRING_UP_STEP_COUNT && step_at(#[trigger] step_position(step))
                == Some(step),
{
}

/// What the main loop does next.
#[derive(Clone, Copy, Debug, PartialEq, Eq, Structural)]
pub enum MainLoopStep {
    /// Read the keyboard and hand the key to the terminal.
    ReadKeyboard,
    /// Report the interrupt of a line that no driver serves.
    Report(HardwareInterrupt),
    /// Nothing waits: enable interrupts and halt in one step, so that no
    /// interrupt can slip in between the look at the queue and the halt.
    HaltUntilInterrupt,
}

/// What the main loop does with what the drain of the pending events
/// returned.
pub fn main_loop_step(event: Option<HardwareInterrupt>) -> (step: MainLoopStep)
    ensures
        step == match event {
            Some(HardwareInterrupt::Keyboard) => MainLoopStep::ReadKeyboard,
            Some(interrupt) => MainLoopStep::Report(interrupt),
            None => MainLoopStep::HaltUntilInterrupt,
        },
{
    match event {
        Some(HardwareInterrupt::Keyboard) => MainLoopStep::ReadKeyboard,
        Some(interrupt) => MainLoopStep::Report(interrupt),
        None => MainLoopStep::HaltUntilInterrupt,
    }
}

} // verus!
