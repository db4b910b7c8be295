use felix_core::exceptions::Core;
use felix_core::exceptions::ExceptionClass;
use felix_core::exceptions::Trampoline;
use felix_core::exceptions::class_label;
use felix_core::exceptions::classify;

#[test]
fn classify_matches_the_five_known_vectors_exactly() {
    assert_eq!(classify(0), ExceptionClass::DivError);
    assert_eq!(classify(6), ExceptionClass::InvalidOpcode);
    assert_eq!(classify(8), ExceptionClass::DoubleFault);
    assert_eq!(classify(13), ExceptionClass::GeneralProtectionFault);
    assert_eq!(classify(14), ExceptionClass::PageFault);
    assert_eq!(classify(1), ExceptionClass::Unclassified);
    assert_eq!(classify(7), ExceptionClass::Unclassified);
    assert_eq!(classify(32), ExceptionClass::Unclassified);
    assert_eq!(classify(0xff), ExceptionClass::Unclassified);
}

#[test]
fn each_class_has_its_fixed_label() {
    assert_eq!(class_label(ExceptionClass::DivError), "DIVISION ERROR!");
    assert_eq!(class_label(ExceptionClass::InvalidOpcode), "INVALID OPCODE!");
    assert_eq!(class_label(ExceptionClass::DoubleFault), "DOUBLE FAULT!");
    assert_eq!(
        class_label(ExceptionClass::GeneralProtectionFault),
        "GENERAL PROTECTION FAULT!"
    );
    assert_eq!(class_label(ExceptionClass::PageFault), "PAGE FAULT!");
    assert_eq!(class_label(ExceptionClass::Unclassified), "EXCEPTION!");
}

#[test]
fn reporter_names_the_fault_and_halts() {
    let mut core = Core::new();
    assert!(!core.halted);
    let label = core.exception_handler(13);
    assert_eq!(label, "GENERAL PROTECTION FAULT!");
    assert!(core.halted);

    let mut other = Core::new();
    let label = other.exception_handler(99);
    assert_eq!(label, "EXCEPTION!");
    assert!(other.halted);

    // the path is terminal: reporting again changes nothing observable
    let again = other.exception_handler(99);
    assert_eq!(again, "EXCEPTION!");
    assert!(other.halted);
}

#[test]
fn trampolines_push_their_own_vectors() {
    assert_eq!(Trampoline::DivError.pushed_vector(), 0x00);
    assert_eq!(Trampoline::InvalidOpcode.pushed_vector(), 0x06);
    assert_eq!(Trampoline::DoubleFault.pushed_vector(), 0x08);
    assert_eq!(Trampoline::GeneralProtectionFault.pushed_vector(), 0x0d);
    assert_eq!(Trampoline::PageFault.pushed_vector(), 0x0e);
    assert_eq!(Trampoline::Generic.pushed_vector(), 0xff);
}

#[test]
fn trampoline_entry_addresses_are_distinct() {
    let stubs = [
        Trampoline::DivError,
        Trampoline::InvalidOpcode,
        Trampoline::DoubleFault,
        Trampoline::GeneralProtectionFault,
        Trampoline::PageFault,
        Trampoline::Generic,
    ];
    for i in 0..stubs.len() {
        for j in 0..stubs.len() {
            if i != j {
                assert_ne!(stubs[i].entry_address(), stubs[j].entry_address());
            }
        }
    }
}

#[test]
fn dispatch_runs_the_stub_protocol() {
    let mut core = Core::new();
    let label = Trampoline::PageFault.dispatch(&mut core);
    assert_eq!(label, "PAGE FAULT!");
    assert!(core.halted);

    let mut core = Core::new();
    let label = Trampoline::Generic.dispatch(&mut core);
    assert_eq!(label, "EXCEPTION!");
    assert!(core.halted);
}
