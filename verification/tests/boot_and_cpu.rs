use kernel_bringup::boot::check_boot_loader;
use kernel_bringup::boot::check_boot_state;
use kernel_bringup::boot::main_loop_step;
use kernel_bringup::boot::BootError;
use kernel_bringup::boot::BootState;
use kernel_bringup::boot::BringUp;
use kernel_bringup::boot::BringUpStep;
use kernel_bringup::boot::MainLoopStep;
use kernel_bringup::boot::OutOfSequence;
use kernel_bringup::boot::MULTIBOOT2_MAGIC;
use kernel_bringup::command::same_text;
use kernel_bringup::cpu::check_cpu_features;
use kernel_bringup::cpu::cr0_with_paging;
use kernel_bringup::cpu::cr4_with_pae;
use kernel_bringup::cpu::efer_with_no_execute;
use kernel_bringup::cpu::CpuFeatureError;
use kernel_bringup::interrupt::HardwareInterrupt;

const STEPS: [BringUpStep; 11] = [
    BringUpStep::CheckBootState,
    BringUpStep::CheckCpuFeatures,
    BringUpStep::EnablePae,
    BringUpStep::EnableNoExecute,
    BringUpStep::LoadSegments,
    BringUpStep::LoadInterruptTable,
    BringUpStep::BuildPageTable,
    BringUpStep::ActivatePaging,
    BringUpStep::LoadTaskRegister,
    BringUpStep::InitializeInput,
    BringUpStep::EnableInterrupts,
];

fn good_boot_state() -> BootState {
    BootState { stack_start: 0x0010_4000, stack_index_0: 0, eflags: 0x0000_0002, eax: 0x36d7_6289 }
}

#[test]
fn multiboot2_magic_is_accepted() {
    assert_eq!(MULTIBOOT2_MAGIC, 0x36d76289);
    assert_eq!(check_boot_loader(0x36d76289), Ok(()));
}

#[test]
fn other_magic_values_are_refused() {
    for eax in [0u32, 0x2bad_b002, 0x36d7_6288, 0x36d7_628a, u32::MAX] {
        assert_eq!(check_boot_loader(eax), Err(BootError::NotMultiboot2 { eax }));
    }
}

#[test]
fn good_boot_state_is_accepted() {
    assert_eq!(check_boot_state(good_boot_state()), Ok(()));
}

#[test]
fn boot_state_failures_are_reported_in_order() {
    let mut state = good_boot_state();
    state.eax = 1;
    assert_eq!(check_boot_state(state), Err(BootError::NotMultiboot2 { eax: 1 }));
    state.eflags |= 1 << 14;
    assert_eq!(check_boot_state(state), Err(BootError::NestedTask));
    state.eflags |= 1 << 17;
    assert_eq!(check_boot_state(state), Err(BootError::Virtual8086Mode));
    state.stack_index_0 = 0xdead;
    assert_eq!(check_boot_state(state), Err(BootError::StackStartOverwritten { value: 0xdead }));
    state.stack_start += 2;
    assert_eq!(check_boot_state(state), Err(BootError::StackUnaligned));
}

#[test]
fn io_privilege_level_does_not_matter() {
    let mut state = good_boot_state();
    state.eflags |= 3 << 12;
    assert_eq!(check_boot_state(state), Ok(()));
}

#[test]
fn known_vendors_with_both_features_pass() {
    assert_eq!(check_cpu_features(Some("GenuineIntel"), Some(true), Some(true)), Ok(()));
    assert_eq!(check_cpu_features(Some("AuthenticAMD"), Some(true), Some(true)), Ok(()));
}

#[test]
fn cpu_failures_are_reported_in_order() {
    assert_eq!(
        check_cpu_features(None, None, None),
        Err(CpuFeatureError::VendorQueryFailed)
    );
    assert_eq!(
        check_cpu_features(Some("CentaurHauls"), None, None),
        Err(CpuFeatureError::UnknownVendor)
    );
    assert_eq!(
        check_cpu_features(Some("GenuineIntel"), None, Some(false)),
        Err(CpuFeatureError::ExtendedFunctionQueryFailed)
    );
    assert_eq!(
        check_cpu_features(Some("GenuineIntel"), Some(false), None),
        Err(CpuFeatureError::NoExecuteUnsupported)
    );
    assert_eq!(
        check_cpu_features(Some("AuthenticAMD"), Some(true), None),
        Err(CpuFeatureError::FeatureQueryFailed)
    );
    assert_eq!(
        check_cpu_features(Some("AuthenticAMD"), Some(true), Some(false)),
        Err(CpuFeatureError::PaeUnsupported)
    );
}

#[test]
fn vendor_must_match_exactly() {
    for vendor in ["", "genuineintel", "GenuineIntel ", "GenuineInte", "AuthenticAMDx", "Intel"] {
        assert_eq!(
            check_cpu_features(Some(vendor), Some(true), Some(true)),
            Err(CpuFeatureError::UnknownVendor)
        );
    }
}

#[test]
fn same_text_compares_characters() {
    assert!(same_text("", ""));
    assert!(same_text("echo", "echo"));
    assert!(!same_text("echo", "ech"));
    assert!(!same_text("echo", "echO"));
    assert!(same_text("grüß", "grüß"));
    assert!(!same_text("grüß", "grus"));
}

#[test]
fn control_register_values() {
    assert_eq!(cr4_with_pae(0), 0x20);
    assert_eq!(cr4_with_pae(0x0000_0690), 0x0000_06b0);
    assert_eq!(cr4_with_pae(0x20), 0x20);
    assert_eq!(efer_with_no_execute(0), 0x800);
    assert_eq!(efer_with_no_execute(0x0000_0501), 0x0000_0d01);
    assert_eq!(cr0_with_paging(0x0000_0011), 0x8001_0015);
    assert_eq!(cr0_with_paging(0), 0x8001_0004);
    assert_eq!(cr0_with_paging(0x8001_0004), 0x8001_0004);
}

#[test]
fn steps_are_recorded_in_their_order() {
    let mut sequence = BringUp::new();
    assert_eq!(sequence.completed(), 0);
    for (place, step) in STEPS.iter().enumerate() {
        assert!(!sequence.is_up());
        assert_eq!(sequence.next_step(), Some(*step));
        assert_eq!(sequence.complete(*step), Ok(()));
        assert_eq!(sequence.completed() as usize, place + 1);
    }
    assert!(sequence.is_up());
    assert_eq!(sequence.next_step(), None);
}

#[test]
fn step_out_of_turn_is_refused() {
    let mut sequence = BringUp::new();
    assert_eq!(
        sequence.complete(BringUpStep::EnableNoExecute),
        Err(OutOfSequence {
            reported: BringUpStep::EnableNoExecute,
            expected: Some(BringUpStep::CheckBootState),
        })
    );
    assert_eq!(sequence.completed(), 0);
    assert_eq!(sequence.complete(BringUpStep::CheckBootState), Ok(()));
    assert_eq!(sequence.complete(BringUpStep::CheckCpuFeatures), Ok(()));
    // The no-execute bit may not be enabled before PAE.
    assert_eq!(
        sequence.complete(BringUpStep::EnableNoExecute),
        Err(OutOfSequence {
            reported: BringUpStep::EnableNoExecute,
            expected: Some(BringUpStep::EnablePae),
        })
    );
    // Paging may not be activated before the tables are built.
    assert!(sequence.complete(BringUpStep::ActivatePaging).is_err());
    assert_eq!(sequence.completed(), 2);
    assert_eq!(sequence.complete(BringUpStep::EnablePae), Ok(()));
    assert!(sequence.complete(BringUpStep::EnablePae).is_err());
    assert_eq!(sequence.complete(BringUpStep::EnableNoExecute), Ok(()));
}

#[test]
fn no_step_follows_the_last() {
    let mut sequence = BringUp::new();
    for step in STEPS {
        sequence.complete(step).unwrap();
    }
    for step in STEPS {
        assert_eq!(
            sequence.complete(step),
            Err(OutOfSequence { reported: step, expected: None })
        );
    }
    assert_eq!(sequence.completed(), 11);
}

#[test]
fn main_loop_reads_the_keyboard_reports_the_rest_and_halts_when_idle() {
    assert_eq!(main_loop_step(Some(HardwareInterrupt::Keyboard)), MainLoopStep::ReadKeyboard);
    assert_eq!(
        main_loop_step(Some(HardwareInterrupt::Mouse)),
        MainLoopStep::Report(HardwareInterrupt::Mouse)
    );
    assert_eq!(
        main_loop_step(Some(HardwareInterrupt::Timer)),
        MainLoopStep::Report(HardwareInterrupt::Timer)
    );
    assert_eq!(main_loop_step(None), MainLoopStep::HaltUntilInterrupt);
}
