use kernel_bringup::idt::Controller;
use kernel_bringup::idt::Dispatch;
use kernel_bringup::idt::EndOfInterrupt;
use kernel_bringup::idt::FatalException;
use kernel_bringup::idt::IDTHandler;
use kernel_bringup::idt::InterruptStage;
use kernel_bringup::idt::OutOfOrder;
use kernel_bringup::idt::PicSetup;
use kernel_bringup::interrupt::Exception;
use kernel_bringup::interrupt::HardwareInterrupt;
use kernel_bringup::interrupt::UnknownInterrupt;
use kernel_bringup::pending::PendingInterrupts;

const LINES: [HardwareInterrupt; 12] = [
    HardwareInterrupt::Timer,
    HardwareInterrupt::Keyboard,
    HardwareInterrupt::COM2,
    HardwareInterrupt::COM1,
    HardwareInterrupt::LPT2,
    HardwareInterrupt::FloppyDisk,
    HardwareInterrupt::LPT1,
    HardwareInterrupt::RealTimeClock,
    HardwareInterrupt::Mouse,
    HardwareInterrupt::FPU,
    HardwareInterrupt::PrimaryHardDisk,
    HardwareInterrupt::SecondaryHardDisk,
];

fn serviced(end_of_interrupt: EndOfInterrupt) -> Dispatch {
    Dispatch::Serviced { end_of_interrupt, spurious: None }
}

#[test]
fn exception_vector_map() {
    let expected = [
        (0u8, Exception::DivideByZero),
        (1, Exception::Debug),
        (2, Exception::NonMaskableInterrupt),
        (3, Exception::Breakpoint),
        (4, Exception::Overflow),
        (5, Exception::BoundRange),
        (6, Exception::InvalidOpcode),
        (7, Exception::DeviceNotAvailable),
        (8, Exception::DoubleFault),
        (9, Exception::CoprosessorSegmentOverrun),
        (10, Exception::InvalidTSS),
        (11, Exception::SegementNotPresent),
        (12, Exception::Stack),
        (13, Exception::GeneralProtection),
        (14, Exception::PageFault),
        (16, Exception::X87FloatingPoint),
        (17, Exception::AlignmentCheck),
        (18, Exception::MachineCheck),
        (19, Exception::SMIDFloatingPoint),
        (29, Exception::VMMCommunication),
        (30, Exception::Security),
    ];
    for (vector, exception) in expected {
        assert_eq!(Exception::from_interrupt_number(vector), Ok(exception));
        assert_eq!(exception.vector(), vector);
    }
}

#[test]
fn unassigned_exception_vectors_are_unknown() {
    for vector in [15u8, 20, 21, 22, 23, 24, 25, 26, 27, 28, 31, 32, 255] {
        assert_eq!(Exception::from_interrupt_number(vector), Err(UnknownInterrupt));
    }
}

#[test]
fn exceptions_with_an_error_code() {
    let mut with_code = Vec::new();
    for vector in 0u8..=31 {
        if let Ok(exception) = Exception::from_interrupt_number(vector) {
            if exception.has_error_code() {
                with_code.push(vector);
            }
        }
    }
    assert_eq!(with_code, vec![8, 10, 11, 12, 13, 14, 17]);
}

#[test]
fn hardware_vector_map() {
    let vectors = [32u8, 33, 34, 35, 36, 37, 38, 39, 40, 42, 43, 44];
    for (place, (line, vector)) in LINES.iter().zip(vectors).enumerate() {
        assert_eq!(HardwareInterrupt::from_interrupt_number(vector), Ok(*line));
        assert_eq!(line.vector(), vector);
        assert_eq!(line.line() as usize, place);
    }
}

#[test]
fn vectors_outside_the_hardware_map_are_unknown() {
    for vector in [0u8, 31, 41, 45, 46, 47, 48, 255] {
        assert_eq!(HardwareInterrupt::from_interrupt_number(vector), Err(UnknownInterrupt));
    }
}

#[test]
fn every_vector_is_at_most_one_thing() {
    for vector in 0u8..=255 {
        let exception = Exception::from_interrupt_number(vector).is_ok();
        let line = HardwareInterrupt::from_interrupt_number(vector).is_ok();
        assert!(!(exception && line));
    }
}

#[test]
fn pending_set_starts_empty() {
    let mut pending = PendingInterrupts::new();
    assert_eq!(pending.len(), 0);
    assert_eq!(pending.dequeue(), None);
    assert_eq!(pending.len(), 0);
}

#[test]
fn same_line_twice_queues_one_event() {
    let mut pending = PendingInterrupts::new();
    assert!(pending.enqueue(HardwareInterrupt::Keyboard));
    assert!(!pending.enqueue(HardwareInterrupt::Keyboard));
    assert_eq!(pending.len(), 1);
    assert!(pending.is_pending(HardwareInterrupt::Keyboard));
    assert_eq!(pending.dequeue(), Some(HardwareInterrupt::Keyboard));
    assert!(!pending.is_pending(HardwareInterrupt::Keyboard));
    assert_eq!(pending.dequeue(), None);
    // After the drain the line is queued again.
    assert!(pending.enqueue(HardwareInterrupt::Keyboard));
    assert_eq!(pending.len(), 1);
    assert_eq!(pending.dequeue(), Some(HardwareInterrupt::Keyboard));
}

#[test]
fn events_leave_in_the_order_they_came() {
    let mut pending = PendingInterrupts::new();
    let order = [
        HardwareInterrupt::Mouse,
        HardwareInterrupt::Keyboard,
        HardwareInterrupt::COM1,
        HardwareInterrupt::Keyboard,
        HardwareInterrupt::SecondaryHardDisk,
        HardwareInterrupt::Mouse,
    ];
    for line in order {
        pending.enqueue(line);
    }
    assert_eq!(pending.len(), 4);
    assert_eq!(pending.dequeue(), Some(HardwareInterrupt::Mouse));
    assert_eq!(pending.dequeue(), Some(HardwareInterrupt::Keyboard));
    assert_eq!(pending.dequeue(), Some(HardwareInterrupt::COM1));
    assert_eq!(pending.dequeue(), Some(HardwareInterrupt::SecondaryHardDisk));
    assert_eq!(pending.dequeue(), None);
}

#[test]
fn pending_set_stays_within_capacity() {
    let mut pending = PendingInterrupts::new();
    for round in 0..10 {
        for line in LINES {
            let queued = pending.enqueue(line);
            assert_eq!(queued, round == 0);
            assert!(pending.len() <= 32);
        }
    }
    assert_eq!(pending.len(), 12);
    for line in LINES {
        assert_eq!(pending.dequeue(), Some(line));
    }
    assert_eq!(pending.dequeue(), None);
}

#[test]
fn pending_bits_follow_the_queue() {
    let mut pending = PendingInterrupts::new();
    pending.enqueue(HardwareInterrupt::FPU);
    pending.enqueue(HardwareInterrupt::LPT1);
    for line in LINES {
        let expected = line == HardwareInterrupt::FPU || line == HardwareInterrupt::LPT1;
        assert_eq!(pending.is_pending(line), expected);
    }
    assert_eq!(pending.dequeue(), Some(HardwareInterrupt::FPU));
    assert!(!pending.is_pending(HardwareInterrupt::FPU));
    assert!(pending.is_pending(HardwareInterrupt::LPT1));
}

#[test]
fn new_handler_is_uninitialized() {
    let handler = IDTHandler::new();
    assert_eq!(handler.stage(), InterruptStage::Uninitialized);
    assert_eq!(handler.time_milliseconds(), 0);
    assert_eq!(handler.master_pic_spurious_interrupts_count(), 0);
    assert_eq!(handler.slave_pic_spurious_interrupts_count(), 0);
    assert_eq!(handler.pending_count(), 0);
}

#[test]
fn bring_up_steps_follow_each_other() {
    let handlers = [0x0010_0000u32; 256];
    let mut handler = IDTHandler::new();
    assert!(handler.build_table(&handlers).is_ok());
    assert_eq!(handler.stage(), InterruptStage::TableBuilt);
    assert_eq!(
        handler.program_pic(),
        Ok(PicSetup {
            edge_triggered: true,
            master_offset: 32,
            slave_offset: 40,
            master_mask: 0x80,
            slave_mask: 0x80,
        })
    );
    assert_eq!(handler.stage(), InterruptStage::PicProgrammed);
    assert_eq!(handler.enable_interrupts(), Ok(()));
    assert_eq!(handler.stage(), InterruptStage::InterruptsEnabled);
}

#[test]
fn bring_up_steps_out_of_turn_are_refused() {
    let handlers = [0x0010_0000u32; 256];
    let mut handler = IDTHandler::new();
    assert_eq!(
        handler.program_pic(),
        Err(OutOfOrder { found: InterruptStage::Uninitialized })
    );
    assert_eq!(
        handler.enable_interrupts(),
        Err(OutOfOrder { found: InterruptStage::Uninitialized })
    );
    assert_eq!(handler.stage(), InterruptStage::Uninitialized);
    assert!(handler.build_table(&handlers).is_ok());
    assert!(handler.build_table(&handlers).is_err());
    assert_eq!(
        handler.enable_interrupts(),
        Err(OutOfOrder { found: InterruptStage::TableBuilt })
    );
    assert!(handler.program_pic().is_ok());
    assert_eq!(
        handler.program_pic(),
        Err(OutOfOrder { found: InterruptStage::PicProgrammed })
    );
    assert!(handler.enable_interrupts().is_ok());
    assert_eq!(
        handler.enable_interrupts(),
        Err(OutOfOrder { found: InterruptStage::InterruptsEnabled })
    );
    assert_eq!(handler.stage(), InterruptStage::InterruptsEnabled);
}

#[test]
fn built_table_enters_the_given_handlers() {
    let mut handlers = [0u32; 256];
    handlers[14] = 0x0012_3456;
    let mut handler = IDTHandler::new();
    let table = handler.build_table(&handlers).ok().unwrap();
    assert_eq!(table.entries()[14].as_u64(), 0x0012_8e00_0008_3456);
}

#[test]
fn timer_ticks_advance_the_clock_and_queue_nothing() {
    let mut handler = IDTHandler::new();
    let mut last = handler.time_milliseconds();
    for tick in 1..=100usize {
        assert_eq!(handler.dispatch(32), serviced(EndOfInterrupt::Master));
        assert_eq!(handler.time_milliseconds(), 55 * tick);
        assert!(handler.time_milliseconds() > last);
        last = handler.time_milliseconds();
        assert_eq!(handler.pending_count(), 0);
    }
    assert_eq!(handler.handle_interrupt(), None);
}

#[test]
fn keyboard_interrupts_collapse_until_drained() {
    let mut handler = IDTHandler::new();
    assert_eq!(handler.dispatch(33), serviced(EndOfInterrupt::Master));
    assert_eq!(handler.dispatch(33), serviced(EndOfInterrupt::Master));
    assert_eq!(handler.pending_count(), 1);
    assert_eq!(handler.handle_interrupt(), Some(HardwareInterrupt::Keyboard));
    assert_eq!(handler.handle_interrupt(), None);
    assert_eq!(handler.dispatch(33), serviced(EndOfInterrupt::Master));
    assert_eq!(handler.pending_count(), 1);
    assert_eq!(handler.handle_interrupt(), Some(HardwareInterrupt::Keyboard));
}

#[test]
fn lines_are_delivered_in_order_of_arrival() {
    let mut handler = IDTHandler::new();
    for vector in [40u8, 33, 44, 33, 32, 35, 40] {
        handler.dispatch(vector);
    }
    assert_eq!(handler.time_milliseconds(), 55);
    assert_eq!(handler.handle_interrupt(), Some(HardwareInterrupt::Mouse));
    assert_eq!(handler.handle_interrupt(), Some(HardwareInterrupt::Keyboard));
    assert_eq!(handler.handle_interrupt(), Some(HardwareInterrupt::SecondaryHardDisk));
    assert_eq!(handler.handle_interrupt(), Some(HardwareInterrupt::COM1));
    assert_eq!(handler.handle_interrupt(), None);
}

#[test]
fn end_of_interrupt_follows_the_vector_range() {
    let mut handler = IDTHandler::new();
    for vector in 32u8..=38 {
        assert_eq!(handler.dispatch(vector), serviced(EndOfInterrupt::Master));
    }
    for vector in 40u8..=46 {
        assert_eq!(handler.dispatch(vector), serviced(EndOfInterrupt::SlaveThenMaster));
    }
    for vector in [15u8, 20, 28, 31, 48, 100, 255] {
        assert_eq!(handler.dispatch(vector), serviced(EndOfInterrupt::Nobody));
    }
}

#[test]
fn unknown_vectors_queue_nothing() {
    let mut handler = IDTHandler::new();
    for vector in [15u8, 20, 21, 28, 31, 41, 45, 46, 48, 128, 255] {
        let outcome = handler.dispatch(vector);
        assert!(matches!(outcome, Dispatch::Serviced { spurious: None, .. }));
        assert_eq!(handler.pending_count(), 0);
        assert_eq!(handler.time_milliseconds(), 0);
    }
    assert_eq!(handler.dispatch(41), serviced(EndOfInterrupt::SlaveThenMaster));
    assert_eq!(handler.handle_interrupt(), None);
    assert_eq!(handler.master_pic_spurious_interrupts_count(), 0);
    assert_eq!(handler.slave_pic_spurious_interrupts_count(), 0);
}

#[test]
fn spurious_interrupts_are_counted_and_not_delivered() {
    let mut handler = IDTHandler::new();
    assert_eq!(
        handler.dispatch(39),
        Dispatch::Serviced {
            end_of_interrupt: EndOfInterrupt::Nobody,
            spurious: Some(Controller::Master),
        }
    );
    assert_eq!(
        handler.dispatch(47),
        Dispatch::Serviced {
            end_of_interrupt: EndOfInterrupt::Master,
            spurious: Some(Controller::Slave),
        }
    );
    assert_eq!(handler.dispatch(47).clone(), handler.dispatch(47));
    assert_eq!(handler.master_pic_spurious_interrupts_count(), 1);
    assert_eq!(handler.slave_pic_spurious_interrupts_count(), 3);
    assert_eq!(handler.pending_count(), 0);
    assert_eq!(handler.handle_interrupt(), None);
}

#[test]
fn exceptions_are_fatal_and_change_nothing() {
    let mut handler = IDTHandler::new();
    handler.dispatch(33);
    assert_eq!(
        handler.dispatch(13),
        Dispatch::Fatal(FatalException {
            kind: Some(Exception::GeneralProtection),
            vector: 13,
            error_code: None,
        })
    );
    assert_eq!(
        handler.dispatch(0),
        Dispatch::Fatal(FatalException {
            kind: Some(Exception::DivideByZero),
            vector: 0,
            error_code: None,
        })
    );
    assert_eq!(handler.pending_count(), 1);
    assert_eq!(handler.time_milliseconds(), 0);
}

#[test]
fn exception_with_error_code_is_reported_with_it() {
    let handler = IDTHandler::new();
    assert_eq!(
        handler.dispatch_with_error(14, 0x0000_0002),
        FatalException { kind: Some(Exception::PageFault), vector: 14, error_code: Some(2) }
    );
    assert_eq!(
        handler.dispatch_with_error(200, 7),
        FatalException { kind: None, vector: 200, error_code: Some(7) }
    );
}
