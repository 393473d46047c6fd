//! Instruction sets and pointer widths, and the rule by which a module's
//! platform fits a process's.

use vstd::prelude::*;

verus! {

/// Instruction set of a process or of a module image.
#[derive(Clone, Copy, Debug, PartialEq, Eq, Structural)]
pub enum Architecture {
    X86,
    X64,
    Arm,
    Arm64,
    Unknown,
}

/// Size of an address, in bits.
#[derive(Clone, Copy, Debug, PartialEq, Eq, Structural)]
pub enum PointerWidth {
    Bits32,
    Bits64,
}

/// A family of instruction sets whose members run each other's code of the
/// same pointer width.
#[derive(Clone, Copy, Debug, PartialEq, Eq, Structural)]
pub enum Family {
    Intel,
    Arm,
}

/// What code is compiled for: an instruction set and a pointer width.
#[derive(Clone, Copy, Debug, PartialEq, Eq, Structural)]
pub struct Platform {
    pub architecture: Architecture,
    pub pointer_width: PointerWidth,
}

impl PointerWidth {
    /// The width as a number of bits.
    pub open spec fn bits_spec(self) -> u32 {
        match self {
            PointerWidth::Bits32 => 32,
            PointerWidth::Bits64 => 64,
        }
    }

    /// The width as a number of bits: 32 or 64.
    #[verifier::when_used_as_spec(bits_spec)]
    pub fn bits(self) -> (n: u32)
        ensures
            n == self.bits_spec(),
    {
        match self {
            PointerWidth::Bits32 => 32,
            PointerWidth::Bits64 => 64,
        }
    }

    /// The width of `n` bits, for `n` 32 or 64, and nothing for any other
    /// number.
    pub fn from_bits(n: u32) -> (width: Option<PointerWidth>)
        ensures
            width == Self::from_bits_spec(n),
    {
        if n == 32 {
            Some(PointerWidth::Bits32)
        } else if n == 64 {
            Some(PointerWidth::Bits64)
        } else {
            None
        }
    }

    pub open spec fn from_bits_spec(n: u32) -> Option<PointerWidth> {
        if n == 32 {
            Some(PointerWidth::Bits32)
        } else if n == 64 {
            Some(PointerWidth::Bits64)
        } else {
            None
        }
    }
}

impl Architecture {
    /// The family an instruction set belongs to; an unknown one belongs to
    /// none.
    pub open spec fn family_spec(self) -> Option<Family> {
        match self {
            Architecture::X86 | Architecture::X64 => Some(Family::Intel),
            Architecture::Arm | Architecture::Arm64 => Some(Family::Arm),
            Architecture::Unknown => None,
        }
    }

    /// The family an instruction set belongs to.
    #[verifier::when_used_as_spec(family_spec)]
    pub fn family(self) -> (family: Option<Family>)
        ensures
            family == self.family_spec(),
    {
        match self {
            Architecture::X86 | Architecture::X64 => Some(Family::Intel),
            Architecture::Arm | Architecture::Arm64 => Some(Family::Arm),
            Architecture::Unknown => None,
        }
    }

    /// The pointer width of code built for this instruction set alone.
    pub open spec fn native_width_spec(self) -> Option<PointerWidth> {
        match self {
            Architecture::X86 | Architecture::Arm => Some(PointerWidth::Bits32),
            Architecture::X64 | Architecture::Arm64 => Some(PointerWidth::Bits64),
            Architecture::Unknown => None,
        }
    }

    /// The pointer width of code built for this instruction set alone;
    /// nothing for an unknown one.
    #[verifier::when_used_as_spec(native_width_spec)]
    pub fn native_width(self) -> (width: Option<PointerWidth>)
        ensures
            width == self.native_width_spec(),
    {
        match self {
            Architecture::X86 | Architecture::Arm => Some(PointerWidth::Bits32),
            Architecture::X64 | Architecture::Arm64 => Some(PointerWidth::Bits64),
            Architecture::Unknown => None,
        }
    }
}

/// Two instruction sets agree when they are the same one, or when both
/// belong to one family.
pub open spec fn architectures_agree(a: Architecture, b: Architecture) -> bool {
    a == b || (a.family_spec() is Some && a.family_spec() == b.family_spec())
}

/// A module fits a process when their pointer widths are equal and their
/// instruction sets agree.
pub open spec fn fits(target: Platform, module: Platform) -> bool {
    target.pointer_width == module.pointer_width && architectures_agree(
        target.architecture,
        module.architecture,
    )
}

impl Platform {
    /// Whether a module built for `module` can be loaded by a process that
    /// runs as `self`.
    pub fn accepts(&self, module: &Platform) -> (ok: bool)
        ensures
            ok == fits(*self, *module),
    {
        let same_width = self.pointer_width == module.pointer_width;
        let same_arch = self.architecture == module.architecture;
        let related = match (self.architecture.family(), module.architecture.family()) {
            (Some(a), Some(b)) => a == b,
            _ => false,
        };
        same_width && (same_arch || related)
    }
}

} // verus!
