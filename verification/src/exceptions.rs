//! CPU-exception trampolines and the shared exception reporter.
//!
//! On the real machine each trampoline is a non-returning stub at a fixed
//! link-time address: it pushes a literal vector number and transfers to the
//! common reporter, which prints a diagnostic and halts the core. Here the
//! stubs are modelled as data — each trampoline knows its entry address and
//! the vector it pushes — and the reporter is a verified function on an
//! explicit core state, so the dispatch protocol can be stated and tested
//! without assembly.

use vstd::prelude::*;

verus! {

/// Vector of the divide-error exception.
pub const DIV_ERROR_VECTOR: u32 = 0x00;

/// Vector of the invalid-opcode exception.
pub const INVALID_OPCODE_VECTOR: u32 = 0x06;

/// Vector of the double-fault exception.
pub const DOUBLE_FAULT_VECTOR: u32 = 0x08;

/// Vector of the general-protection-fault exception.
pub const GENERAL_PROTECTION_FAULT_VECTOR: u32 = 0x0d;

/// Vector of the page-fault exception.
pub const PAGE_FAULT_VECTOR: u32 = 0x0e;

/// Sentinel the generic fallback trampoline pushes for unclassified vectors.
pub const GENERIC_VECTOR: u32 = 0xff;

/// Entry address of the generic fallback trampoline in the kernel image.
/// The model only needs the six stub addresses to be fixed and distinct;
/// these stand for the addresses the linker assigns.
pub const GENERIC_HANDLER_ADDRESS: u32 = 0x0010_0000;

/// Entry address of the divide-error trampoline.
pub const DIV_ERROR_HANDLER_ADDRESS: u32 = 0x0010_0010;

/// Entry address of the invalid-opcode trampoline.
pub const INVALID_OPCODE_HANDLER_ADDRESS: u32 = 0x0010_0020;

/// Entry address of the double-fault trampoline.
pub const DOUBLE_FAULT_HANDLER_ADDRESS: u32 = 0x0010_0030;

/// Entry address of the general-protection-fault trampoline.
pub const GENERAL_PROTECTION_FAULT_HANDLER_ADDRESS: u32 = 0x0010_0040;

/// Entry address of the page-fault trampoline.
pub const PAGE_FAULT_HANDLER_ADDRESS: u32 = 0x0010_0050;

/// The exception classes the reporter can name. Every vector outside the
/// five known CPU exceptions (the generic sentinel included) is unclassified.
#[derive(Clone, Copy, PartialEq, Eq, Structural, Debug)]
pub enum ExceptionClass {
    DivError,
    InvalidOpcode,
    DoubleFault,
    GeneralProtectionFault,
    PageFault,
    Unclassified,
}

/// Which class the reporter assigns to a vector: exact match against the
/// five known exception vectors, anything else is unclassified.
pub open spec fn spec_classify(vector: u32) -> ExceptionClass {
    if vector == DIV_ERROR_VECTOR {
        ExceptionClass::DivError
    } else if vector == INVALID_OPCODE_VECTOR {
        ExceptionClass::InvalidOpcode
    } else if vector == DOUBLE_FAULT_VECTOR {
        ExceptionClass::DoubleFault
    } else if vector == GENERAL_PROTECTION_FAULT_VECTOR {
        ExceptionClass::GeneralProtectionFault
    } else if vector == PAGE_FAULT_VECTOR {
        ExceptionClass::PageFault
    } else {
        ExceptionClass::Unclassified
    }
}

/// Classifies a vector number as the reporter does.
pub fn classify(vector: u32) -> (class: ExceptionClass)
    ensures
        class == spec_classify(vector),
{
    match vector {
        DIV_ERROR_VECTOR => ExceptionClass::DivError,
        INVALID_OPCODE_VECTOR => ExceptionClass::InvalidOpcode,
        DOUBLE_FAULT_VECTOR => ExceptionClass::DoubleFault,
        GENERAL_PROTECTION_FAULT_VECTOR => ExceptionClass::GeneralProtectionFault,
        PAGE_FAULT_VECTOR => ExceptionClass::PageFault,
        _ => ExceptionClass::Unclassified,
    }
}

/// The diagnostic line printed for a class.
pub fn class_label(class: ExceptionClass) -> (label: &'static str)
    ensures
        class == ExceptionClass::DivError ==> label@ == "DIVISION ERROR!"@,
        class == ExceptionClass::InvalidOpcode ==> label@ == "INVALID OPCODE!"@,
        class == ExceptionClass::DoubleFault ==> label@ == "DOUBLE FAULT!"@,
        class == ExceptionClass::GeneralProtectionFault ==> label@ == "GENERAL PROTECTION FAULT!"@,
        class == ExceptionClass::PageFault ==> label@ == "PAGE FAULT!"@,
        class == ExceptionClass::Unclassified ==> label@ == "EXCEPTION!"@,
{
    match class {
        ExceptionClass::DivError => "DIVISION ERROR!",
        ExceptionClass::InvalidOpcode => "INVALID OPCODE!",
        ExceptionClass::DoubleFault => "DOUBLE FAULT!",
        ExceptionClass::GeneralProtectionFault => "GENERAL PROTECTION FAULT!",
        ExceptionClass::PageFault => "PAGE FAULT!",
        ExceptionClass::Unclassified => "EXCEPTION!",
    }
}

/// The one piece of machine state the reporter touches: whether the core has
/// been halted. A halted core never leaves that state through this library.
pub struct Core {
    pub halted: bool,
}

impl Core {
    /// A freshly started core, not halted.
    pub fn new() -> (core: Core)
        ensures
            !core.halted,
    {
        Core { halted: false }
    }

    /// The shared exception reporter: names the exception class for the given
    /// vector and halts the core. The path is terminal by design — the
    /// trampolines save no registers, so there is nothing to resume.
    pub fn exception_handler(&mut self, vector: u32) -> (label: &'static str)
        ensures
            final(self).halted,
            spec_classify(vector) == ExceptionClass::DivError ==> label@ == "DIVISION ERROR!"@,
            spec_classify(vector) == ExceptionClass::InvalidOpcode ==> label@ == "INVALID OPCODE!"@,
            spec_classify(vector) == ExceptionClass::DoubleFault ==> label@ == "DOUBLE FAULT!"@,
            spec_classify(vector) == ExceptionClass::GeneralProtectionFault ==> label@
                == "GENERAL PROTECTION FAULT!"@,
            spec_classify(vector) == ExceptionClass::PageFault ==> label@ == "PAGE FAULT!"@,
            spec_classify(vector) == ExceptionClass::Unclassified ==> label@ == "EXCEPTION!"@,
    {
        let class = classify(vector);
        self.halted = true;
        class_label(class)
    }
}

/// The six exception stubs. Each is a minimal non-returning trampoline: it
/// pushes its literal vector number and transfers to the reporter.
#[derive(Clone, Copy, PartialEq, Eq, Structural, Debug)]
pub enum Trampoline {
    DivError,
    InvalidOpcode,
    DoubleFault,
    GeneralProtectionFault,
    PageFault,
    Generic,
}

impl Trampoline {
    /// The fixed entry address of this stub, as stored in a gate descriptor.
    pub open spec fn spec_entry_address(self) -> u32 {
        match self {
            Trampoline::DivError => DIV_ERROR_HANDLER_ADDRESS,
            Trampoline::InvalidOpcode => INVALID_OPCODE_HANDLER_ADDRESS,
            Trampoline::DoubleFault => DOUBLE_FAULT_HANDLER_ADDRESS,
            Trampoline::GeneralProtectionFault => GENERAL_PROTECTION_FAULT_HANDLER_ADDRESS,
            Trampoline::PageFault => PAGE_FAULT_HANDLER_ADDRESS,
            Trampoline::Generic => GENERIC_HANDLER_ADDRESS,
        }
    }

    /// Returns this stub's entry address.
    pub fn entry_address(self) -> (addr: u32)
        ensures
            addr == self.spec_entry_address(),
    {
        match self {
            Trampoline::DivError => DIV_ERROR_HANDLER_ADDRESS,
            Trampoline::InvalidOpcode => INVALID_OPCODE_HANDLER_ADDRESS,
            Trampoline::DoubleFault => DOUBLE_FAULT_HANDLER_ADDRESS,
            Trampoline::GeneralProtectionFault => GENERAL_PROTECTION_FAULT_HANDLER_ADDRESS,
            Trampoline::PageFault => PAGE_FAULT_HANDLER_ADDRESS,
            Trampoline::Generic => GENERIC_HANDLER_ADDRESS,
        }
    }

    /// The literal vector number this stub pushes before calling the reporter.
    pub open spec fn spec_pushed_vector(self) -> u32 {
        match self {
            Trampoline::DivError => DIV_ERROR_VECTOR,
            Trampoline::InvalidOpcode => INVALID_OPCODE_VECTOR,
            Trampoline::DoubleFault => DOUBLE_FAULT_VECTOR,
            Trampoline::GeneralProtectionFault => GENERAL_PROTECTION_FAULT_VECTOR,
            Trampoline::PageFault => PAGE_FAULT_VECTOR,
            Trampoline::Generic => GENERIC_VECTOR,
        }
    }

    /// Returns the vector number this stub pushes.
    pub fn pushed_vector(self) -> (vector: u32)
        ensures
            vector == self.spec_pushed_vector(),
    {
        match self {
            Trampoline::DivError => DIV_ERROR_VECTOR,
            Trampoline::InvalidOpcode => INVALID_OPCODE_VECTOR,
            Trampoline::DoubleFault => DOUBLE_FAULT_VECTOR,
            Trampoline::GeneralProtectionFault => GENERAL_PROTECTION_FAULT_VECTOR,
            Trampoline::PageFault => PAGE_FAULT_VECTOR,
            Trampoline::Generic => GENERIC_VECTOR,
        }
    }

    /// Each stub has an entry address of its own: two different trampolines
    /// never share one, so the five registered exception vectors dispatch to
    /// five distinct handlers and none of them to the fallback.
    pub proof fn lemma_entry_addresses_distinct(a: Trampoline, b: Trampoline)
        requires
            a != b,
        ensures
            a.spec_entry_address() != b.spec_entry_address(),
    {
    }

    /// The stub protocol: push the literal vector, call the reporter. The
    /// core is halted afterwards and the label matches the stub's exception.
    pub fn dispatch(self, core: &mut Core) -> (label: &'static str)
        ensures
            final(core).halted,
            spec_classify(self.spec_pushed_vector()) == ExceptionClass::DivError ==> label@
                == "DIVISION ERROR!"@,
            spec_classify(self.spec_pushed_vector()) == ExceptionClass::InvalidOpcode ==> label@
                == "INVALID OPCODE!"@,
            spec_classify(self.spec_pushed_vector()) == ExceptionClass::DoubleFault ==> label@
                == "DOUBLE FAULT!"@,
            spec_classify(self.spec_pushed_vector()) == ExceptionClass::GeneralProtectionFault
                ==> label@ == "GENERAL PROTECTION FAULT!"@,
            spec_classify(self.spec_pushed_vector()) == ExceptionClass::PageFault ==> label@
                == "PAGE FAULT!"@,
            spec_classify(self.spec_pushed_vector()) == ExceptionClass::Unclassified ==> label@
                == "EXCEPTION!"@,
    {
        let vector = self.pushed_vector();
        core.exception_handler(vector)
    }
}

} // verus!
