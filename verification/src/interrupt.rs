//! What the 256 interrupt vectors stand for: CPU exceptions and the lines of
//! the two interrupt controllers.

use vstd::prelude::*;

verus! {

/// First vector of the master interrupt controller.
pub const MASTER_PIC_INTERRUPT_OFFSET: u8 = 32;

/// First vector of the slave interrupt controller.
pub const SLAVE_PIC_INTERRUPT_OFFSET: u8 = 40;

/// The vector on which the master controller signals a spurious interrupt.
pub const MASTER_PIC_SPURIOUS_INTERRUPT: u8 = 39;

/// The vector on which the slave controller signals a spurious interrupt.
pub const SLAVE_PIC_SPURIOUS_INTERRUPT: u8 = 47;

/// Number of hardware interrupt lines that the kernel knows.
pub const HARDWARE_LINE_COUNT: u8 = 12;

/// A vector that stands for nothing the kernel knows.
#[derive(Clone, Copy, Debug, PartialEq, Eq, Structural)]
pub struct UnknownInterrupt;

/// The exceptions that the CPU raises.
#[derive(Clone, Copy, Debug, PartialEq, Eq, Structural)]
pub enum Exception {
    DivideByZero,
    Debug,
    NonMaskableInterrupt,
    Breakpoint,
    Overflow,
    BoundRange,
    InvalidOpcode,
    DeviceNotAvailable,
    DoubleFault,
    CoprosessorSegmentOverrun,
    InvalidTSS,
    SegementNotPresent,
    Stack,
    GeneralProtection,
    PageFault,
    X87FloatingPoint,
    AlignmentCheck,
    MachineCheck,
    SMIDFloatingPoint,
    VMMCommunication,
    Security,
}

/// The exception that the CPU raises on `vector`, if it raises one there.
/// Vectors 15, 20 to 28 and 31 are unassigned.
pub open spec fn exception_of(vector: u8) -> Option<Exception> {
    match vector {
        0 => Some(Exception::DivideByZero),
        1 => Some(Exception::Debug),
        2 => Some(Exception::NonMaskableInterrupt),
        3 => Some(Exception::Breakpoint),
        4 => Some(Exception::Overflow),
        5 => Some(Exception::BoundRange),
        6 => Some(Exception::InvalidOpcode),
        7 => Some(Exception::DeviceNotAvailable),
        8 => Some(Exception::DoubleFault),
        9 => Some(Exception::CoprosessorSegmentOverrun),
        10 => Some(Exception::InvalidTSS),
        11 => Some(Exception::SegementNotPresent),
        12 => Some(Exception::Stack),
        13 => Some(Exception::GeneralProtection),
        14 => Some(Exception::PageFault),
        16 => Some(Exception::X87FloatingPoint),
        17 => Some(Exception::AlignmentCheck),
        18 => Some(Exception::MachineCheck),
        19 => Some(Exception::SMIDFloatingPoint),
        29 => Some(Exception::VMMCommunication),
        30 => Some(Exception::Security),
        _ => None,
    }
}

/// Whether the CPU pushes an error code before it enters the handler of
/// `vector`.
pub open spec fn pushes_error_code(vector: u8) -> bool {
    vector == 8 || (10 <= vector <= 14) || vector == 17
}

impl Exception {
    /// The vector on which the CPU raises the exception.
    pub open spec fn spec_vector(&self) -> u8 {
        match self {
            Exception::DivideByZero => 0,
            Exception::Debug => 1,
            Exception::NonMaskableInterrupt => 2,
            Exception::Breakpoint => 3,
            Exception::Overflow => 4,
            Exception::BoundRange => 5,
            Exception::InvalidOpcode => 6,
            Exception::DeviceNotAvailable => 7,
            Exception::DoubleFault => 8,
            Exception::CoprosessorSegmentOverrun => 9,
            Exception::InvalidTSS => 10,
            Exception::SegementNotPresent => 11,
            Exception::Stack => 12,
            Exception::GeneralProtection => 13,
            Exception::PageFault => 14,
            Exception::X87FloatingPoint => 16,
            Exception::AlignmentCheck => 17,
            Exception::MachineCheck => 18,
            Exception::SMIDFloatingPoint => 19,
            Exception::VMMCommunication => 29,
            Exception::Security => 30,
        }
    }

    /// The vector on which the CPU raises the exception.
    #[verifier::when_used_as_spec(spec_vector)]
    pub fn vector(&self) -> (vector: u8)
        ensures
            vector == self.spec_vector(),
    {
        match self {
            Exception::DivideByZero => 0,
            Exception::Debug => 1,
            Exception::NonMaskableInterrupt => 2,
            Exception::Breakpoint => 3,
            Exception::Overflow => 4,
            Exception::BoundRange => 5,
            Exception::InvalidOpcode => 6,
            Exception::DeviceNotAvailable => 7,
            Exception::DoubleFault => 8,
            Exception::CoprosessorSegmentOverrun => 9,
            Exception::InvalidTSS => 10,
            Exception::SegementNotPresent => 11,
            Exception::Stack => 12,
            Exception::GeneralProtection => 13,
            Exception::PageFault => 14,
            Exception::X87FloatingPoint => 16,
            Exception::AlignmentCheck => 17,
            Exception::MachineCheck => 18,
            Exception::SMIDFloatingPoint => 19,
            Exception::VMMCommunication => 29,
            Exception::Security => 30,
        }
    }

    /// The exception of `interrupt_number`, or the news that the vector is
    /// none.
    pub fn from_interrupt_number(interrupt_number: u8) -> (exception: Result<
        Self,
        UnknownInterrupt,
    >)
        ensures
            exception == match exception_of(interrupt_number) {
                Some(known) => Ok::<Exception, UnknownInterrupt>(known),
                None => Err(UnknownInterrupt),
            },
    {
        let exception = match interrupt_number {
            0 => Exception::DivideByZero,
            1 => Exception::Debug,
            2 => Exception::NonMaskableInterrupt,
            3 => Exception::Breakpoint,
            4 => Exception::Overflow,
            5 => Exception::BoundRange,
            6 => Exception::InvalidOpcode,
            7 => Exception::DeviceNotAvailable,
            8 => Exception::DoubleFault,
            9 => Exception::CoprosessorSegmentOverrun,
            10 => Exception::InvalidTSS,
            11 => Exception::SegementNotPresent,
            12 => Exception::Stack,
            13 => Exception::GeneralProtection,
            14 => Exception::PageFault,
            16 => Exception::X87FloatingPoint,
            17 => Exception::AlignmentCheck,
            18 => Exception::MachineCheck,
            19 => Exception::SMIDFloatingPoint,
            29 => Exception::VMMCommunication,
            30 => Exception::Security,
            _ => return Err(UnknownInterrupt),
        };
        Ok(exception)
    }

    /// Whether the CPU pushes an error code with the exception.
    pub fn has_error_code(&self) -> (pushed: bool)
        ensures
            pushed == pushes_error_code(self.spec_vector()),
    {
        match self {
            Exception::DoubleFault
            | Exception::InvalidTSS
            | Exception::SegementNotPresent
            | Exception::Stack
            | Exception::GeneralProtection
            | Exception::PageFault
            | Exception::AlignmentCheck => true,
            _ => false,
        }
    }
}

/// The lines of the two interrupt controllers, in the order of their bits in
/// the set of pending lines.
#[derive(Clone, Copy, Debug, PartialEq, Eq, Structural)]
pub enum HardwareInterrupt {
    Timer,
    Keyboard,
    COM2,
    COM1,
    LPT2,
    FloppyDisk,
    LPT1,
    RealTimeClock,
    Mouse,
    FPU,
    PrimaryHardDisk,
    SecondaryHardDisk,
}

/// The line that the vector map gives `vector`, if it gives it one.
pub open spec fn hardware_interrupt_of(vector: u8) -> Option<HardwareInterrupt> {
    match vector {
        32 => Some(HardwareInterrupt::Timer),
        33 => Some(HardwareInterrupt::Keyboard),
        34 => Some(HardwareInterrupt::COM2),
        35 => Some(HardwareInterrupt::COM1),
        36 => Some(HardwareInterrupt::LPT2),
        37 => Some(HardwareInterrupt::FloppyDisk),
        38 => Some(HardwareInterrupt::LPT1),
        39 => Some(HardwareInterrupt::RealTimeClock),
        40 => Some(HardwareInterrupt::Mouse),
        42 => Some(HardwareInterrupt::FPU),
        43 => Some(HardwareInterrupt::PrimaryHardDisk),
        44 => Some(HardwareInterrupt::SecondaryHardDisk),
        _ => None,
    }
}

/// The line whose place among the lines is `line`, if `line` is below 12.
pub open spec fn hardware_interrupt_at(line: u8) -> Option<HardwareInterrupt> {
    match line {
        0 => Some(HardwareInterrupt::Timer),
        1 => Some(HardwareInterrupt::Keyboard),
        2 => Some(HardwareInterrupt::COM2),
        3 => Some(HardwareInterrupt::COM1),
        4 => Some(HardwareInterrupt::LPT2),
        5 => Some(HardwareInterrupt::FloppyDisk),
        6 => Some(HardwareInterrupt::LPT1),
        7 => Some(HardwareInterrupt::RealTimeClock),
        8 => Some(HardwareInterrupt::Mouse),
        9 => Some(HardwareInterrupt::FPU),
        10 => Some(HardwareInterrupt::PrimaryHardDisk),
        11 => Some(HardwareInterrupt::SecondaryHardDisk),
        _ => None,
    }
}

impl HardwareInterrupt {
    /// The place of the line among the lines, 0 to 11: the number of its bit
    /// in the set of pending lines.
    pub open spec fn spec_line(&self) -> u8 {
        match self {
            HardwareInterrupt::Timer => 0,
            HardwareInterrupt::Keyboard => 1,
            HardwareInterrupt::COM2 => 2,
            HardwareInterrupt::COM1 => 3,
            HardwareInterrupt::LPT2 => 4,
            HardwareInterrupt::FloppyDisk => 5,
            HardwareInterrupt::LPT1 => 6,
            HardwareInterrupt::RealTimeClock => 7,
            HardwareInterrupt::Mouse => 8,
            HardwareInterrupt::FPU => 9,
            HardwareInterrupt::PrimaryHardDisk => 10,
            HardwareInterrupt::SecondaryHardDisk => 11,
        }
    }

    /// The vector that the vector map gives the line.
    pub open spec fn spec_vector(&self) -> u8 {
        match self {
            HardwareInterrupt::Timer => 32,
            HardwareInterrupt::Keyboard => 33,
            HardwareInterrupt::COM2 => 34,
            HardwareInterrupt::COM1 => 35,
            HardwareInterrupt::LPT2 => 36,
            HardwareInterrupt::FloppyDisk => 37,
            HardwareInterrupt::LPT1 => 38,
            HardwareInterrupt::RealTimeClock => 39,
            HardwareInterrupt::Mouse => 40,
            HardwareInterrupt::FPU => 42,
            HardwareInterrupt::PrimaryHardDisk => 43,
            HardwareInterrupt::SecondaryHardDisk => 44,
        }
    }

    /// The place of the line among the lines, 0 to 11.
    #[verifier::when_used_as_spec(spec_line)]
    pub fn line(&self) -> (line: u8)
        ensures
            line == self.spec_line(),
            line < HARDWARE_LINE_COUNT,
    {
        match self {
            HardwareInterrupt::Timer => 0,
            HardwareInterrupt::Keyboard => 1,
            HardwareInterrupt::COM2 => 2,
            HardwareInterrupt::COM1 => 3,
            HardwareInterrupt::LPT2 => 4,
            HardwareInterrupt::FloppyDisk => 5,
            HardwareInterrupt::LPT1 => 6,
            HardwareInterrupt::RealTimeClock => 7,
            HardwareInterrupt::Mouse => 8,
            HardwareInterrupt::FPU => 9,
            HardwareInterrupt::PrimaryHardDisk => 10,
            HardwareInterrupt::SecondaryHardDisk => 11,
        }
    }

    /// The vector that the vector map gives the line.
    #[verifier::when_used_as_spec(spec_vector)]
    pub fn vector(&self) -> (vector: u8)
        ensures
            vector == self.spec_vector(),
    {
        match self {
            HardwareInterrupt::Timer => 32,
            HardwareInterrupt::Keyboard => 33,
            HardwareInterrupt::COM2 => 34,
            HardwareInterrupt::COM1 => 35,
            HardwareInterrupt::LPT2 => 36,
            HardwareInterrupt::FloppyDisk => 37,
            HardwareInterrupt::LPT1 => 38,
            HardwareInterrupt::RealTimeClock => 39,
            HardwareInterrupt::Mouse => 40,
            HardwareInterrupt::FPU => 42,
            HardwareInterrupt::PrimaryHardDisk => 43,
            HardwareInterrupt::SecondaryHardDisk => 44,
        }
    }

    /// The line of `interrupt_number` in the vector map, or the news that the
    /// map has none for it.
    pub fn from_interrupt_number(interrupt_number: u8) -> (interrupt: Result<
        Self,
        UnknownInterrupt,
    >)
        ensures
            interrupt == match hardware_interrupt_of(interrupt_number) {
                Some(known) => Ok::<HardwareInterrupt, UnknownInterrupt>(known),
                None => Err(UnknownInterrupt),
            },
    {
        let interrupt = match interrupt_number {
            32 => HardwareInterrupt::Timer,
            33 => HardwareInterrupt::Keyboard,
            34 => HardwareInterrupt::COM2,
            35 => HardwareInterrupt::COM1,
            36 => HardwareInterrupt::LPT2,
            37 => HardwareInterrupt::FloppyDisk,
            38 => HardwareInterrupt::LPT1,
            39 => HardwareInterrupt::RealTimeClock,
            40 => HardwareInterrupt::Mouse,
            42 => HardwareInterrupt::FPU,
            43 => HardwareInterrupt::PrimaryHardDisk,
            44 => HardwareInterrupt::SecondaryHardDisk,
            _ => return Err(UnknownInterrupt),
        };
        Ok(interrupt)
    }
}

/// The vector of an exception leads back to the exception, and the exception
/// of a vector has that vector: the map between the two is one to one.
pub proof fn lemma_exception_map_bijective(exception: Exception, vector: u8)
    ensures
        exception_of(exception.spec_vector()) == Some(exception),
        exception_of(vector) == Some(exception) ==> exception.spec_vector() == vector,
        exception.spec_vector() <= 30,
{
}

/// The vector of a line leads back to the line, and the line of a vector has
/// that vector: the map between the two is one to one. The same holds of a
/// line and its place among the lines.
pub proof fn lemma_hardware_map_bijective(interrupt: HardwareInterrupt, vector: u8, line: u8)
    ensures
        hardware_interrupt_of(interrupt.spec_vector()) == Some(interrupt),
        hardware_interrupt_of(vector) == Some(interrupt) ==> interrupt.spec_vector() == vector,
        32 <= interrupt.spec_vector() <= 44,
        hardware_interrupt_at(interrupt.spec_line()) == Some(interrupt),
        hardware_interrupt_at(line) == Some(interrupt) ==> interrupt.spec_line() == line,
        interrupt.spec_line() < HARDWARE_LINE_COUNT,
{
}

/// No vector is both an exception and a hardware line.
pub proof fn lemma_vector_maps_disjoint(vector: u8)
    ensures
        !(exception_of(vector) is Some && hardware_interrupt_of(vector) is Some),
{
}

} // verus!
