//! Instruction operands of the assembler's definition language.
//!
//! An instruction definition names, for each operand, where it lives
//! (a fixed register, an immediate, a register, or register-or-memory),
//! whether it is read or read-write, and how an immediate is extended.
//! From those three facts the code generator derives the parameter types
//! of the emitted constructors.

#![allow(non_camel_case_types)]

use vstd::prelude::*;

verus! {

broadcast use vstd::string::to_string_from_display_ensures_for_str;

/// Where an operand lives: a named fixed register, an immediate of a
/// given width, or a general-purpose register class.
#[derive(Clone, Copy, Debug, PartialEq, Eq, Structural)]
pub enum Location {
    /// The low byte of `%rax`.
    al,
    /// The low word of `%rax`.
    ax,
    /// The low doubleword of `%rax`.
    eax,
    /// The full `%rax`.
    rax,
    /// The low byte of `%rcx`.
    cl,
    /// An 8-bit immediate.
    imm8,
    /// A 16-bit immediate.
    imm16,
    /// A 32-bit immediate.
    imm32,
    /// An 8-bit register.
    r8,
    /// A 16-bit register.
    r16,
    /// A 32-bit register.
    r32,
    /// A 64-bit register.
    r64,
    /// An 8-bit register or memory operand.
    rm8,
    /// A 16-bit register or memory operand.
    rm16,
    /// A 32-bit register or memory operand.
    rm32,
    /// A 64-bit register or memory operand.
    rm64,
}

/// The kind of a location: how the encoder treats it.
#[derive(Clone, Copy, Debug, PartialEq, Eq, Structural)]
pub enum OperandKind {
    /// A fixed register implied by the opcode.
    FixedReg(Location),
    /// An immediate encoded after the opcode.
    Imm(Location),
    /// A register chosen by the register allocator.
    Reg(Location),
    /// A register or memory operand.
    RegMem(Location),
}

impl Location {
    /// The operand width in bits.
    pub fn bits(&self) -> (r: u8)
        ensures
            r == self.spec_bits(),
    {
        match self {
            Location::al => 8,
            Location::ax => 16,
            Location::eax => 32,
            Location::rax => 64,
            Location::cl => 8,
            Location::imm8 => 8,
            Location::imm16 => 16,
            Location::imm32 => 32,
            Location::r8 => 8,
            Location::r16 => 16,
            Location::r32 => 32,
            Location::r64 => 64,
            Location::rm8 => 8,
            Location::rm16 => 16,
            Location::rm32 => 32,
            Location::rm64 => 64,
        }
    }

    /// The operand width in bits.
    pub open spec fn spec_bits(&self) -> u8 {
        match self {
            Location::al => 8,
            Location::ax => 16,
            Location::eax => 32,
            Location::rax => 64,
            Location::cl => 8,
            Location::imm8 => 8,
            Location::imm16 => 16,
            Location::imm32 => 32,
            Location::r8 => 8,
            Location::r16 => 16,
            Location::r32 => 32,
            Location::r64 => 64,
            Location::rm8 => 8,
            Location::rm16 => 16,
            Location::rm32 => 32,
            Location::rm64 => 64,
        }
    }

    /// How the encoder treats this location.
    pub fn kind(&self) -> (r: OperandKind)
        ensures
            r == self.spec_kind(),
    {
        match self {
            Location::al | Location::ax | Location::eax | Location::rax | Location::cl
                => OperandKind::FixedReg(*self),
            Location::imm8 | Location::imm16 | Location::imm32 => OperandKind::Imm(*self),
            Location::r8 | Location::r16 | Location::r32 | Location::r64 => OperandKind::Reg(
                *self,
            ),
            Location::rm8 | Location::rm16 | Location::rm32 | Location::rm64
                => OperandKind::RegMem(*self),
        }
    }

    /// How the encoder treats this location.
    pub open spec fn spec_kind(&self) -> OperandKind {
        match self {
            Location::al | Location::ax | Location::eax | Location::rax | Location::cl
                => OperandKind::FixedReg(*self),
            Location::imm8 | Location::imm16 | Location::imm32 => OperandKind::Imm(*self),
            Location::r8 | Location::r16 | Location::r32 | Location::r64 => OperandKind::Reg(
                *self,
            ),
            Location::rm8 | Location::rm16 | Location::rm32 | Location::rm64
                => OperandKind::RegMem(*self),
        }
    }
}

/// Whether an instruction reads or reads and writes an operand.
#[derive(Clone, Copy, Debug, PartialEq, Eq, Structural)]
pub enum Mutability {
    /// The operand is only read.
    Read,
    /// The operand is read and written.
    ReadWrite,
}

impl Mutability {
    /// Whether the operand is written at all.
    pub fn is_write(&self) -> (r: bool)
        ensures
            r == (*self == Mutability::ReadWrite),
    {
        match self {
            Mutability::Read => false,
            Mutability::ReadWrite => true,
        }
    }
}

/// How an immediate operand is extended to the operation width.
#[derive(Clone, Copy, Debug, PartialEq, Eq, Structural)]
pub enum Extension {
    /// No extension.
    NoExtend,
    /// Sign-extend to 16 bits.
    SignExtendWord,
    /// Sign-extend to 32 bits.
    SignExtendLong,
    /// Sign-extend to 64 bits.
    SignExtendQuad,
}

impl Extension {
    /// Whether the immediate is sign-extended.
    pub fn is_sign_extended(&self) -> (r: bool)
        ensures
            r == self.spec_is_sign_extended(),
    {
        match self {
            Extension::NoExtend => false,
            Extension::SignExtendWord => true,
            Extension::SignExtendLong => true,
            Extension::SignExtendQuad => true,
        }
    }

    /// Whether the immediate is sign-extended.
    pub open spec fn spec_is_sign_extended(&self) -> bool {
        *self != Extension::NoExtend
    }
}

/// The two shapes of generated constructor for an instruction with a
/// writable register-or-memory operand.
#[derive(Clone, Copy, Debug, PartialEq, Eq, Structural)]
pub enum IsleConstructor {
    /// The variant operating on memory, returning a side effect.
    RetMemorySideEffect,
    /// The variant operating on a register, returning it.
    RetGpr,
}

/// One operand of an instruction definition.
#[derive(Clone, Copy, Debug, PartialEq, Eq, Structural)]
pub struct Operand {
    /// Where the operand lives.
    pub location: Location,
    /// Whether it is read or read-write.
    pub mutability: Mutability,
    /// How an immediate is extended.
    pub extension: Extension,
}

/// The ISLE-side type of an operand in the raw constructors: immediates
/// become primitive integers, signed when sign-extended; registers become
/// `Gpr`; register-or-memory operands become `GprMem`.
pub open spec fn spec_isle_param_raw(o: Operand) -> Seq<char> {
    match o.location.spec_kind() {
        OperandKind::Imm(loc) => if o.extension.spec_is_sign_extended() {
            if loc.spec_bits() == 8 {
                "i8"@
            } else if loc.spec_bits() == 16 {
                "i16"@
            } else {
                "i32"@
            }
        } else {
            if loc.spec_bits() == 8 {
                "u8"@
            } else if loc.spec_bits() == 16 {
                "u16"@
            } else {
                "u32"@
            }
        },
        OperandKind::Reg(_) => "Gpr"@,
        OperandKind::FixedReg(_) => "Gpr"@,
        OperandKind::RegMem(_) => "GprMem"@,
    }
}

impl Operand {
    /// Returns the type of this operand in ISLE as a part of the ISLE
    /// "raw" constructors.
    pub fn isle_param_raw(&self) -> (r: String)
        ensures
            r@ == spec_isle_param_raw(*self),
    {
        match self.location.kind() {
            OperandKind::Imm(loc) => {
                let bits = loc.bits();
                if self.extension.is_sign_extended() {
                    if bits == 8 {
                        "i8".to_string()
                    } else if bits == 16 {
                        "i16".to_string()
                    } else {
                        "i32".to_string()
                    }
                } else {
                    if bits == 8 {
                        "u8".to_string()
                    } else if bits == 16 {
                        "u16".to_string()
                    } else {
                        "u32".to_string()
                    }
                }
            },
            OperandKind::Reg(_) => "Gpr".to_string(),
            OperandKind::FixedReg(_) => "Gpr".to_string(),
            OperandKind::RegMem(_) => "GprMem".to_string(),
        }
    }

    /// Returns the parameter type used for the `IsleConstructor` variant
    /// provided. Writable register-or-memory operands are special: one
    /// constructor operates on memory (`Amode`), the other on a register
    /// (`Gpr`); everything else matches the raw variant.
    pub fn isle_param_for_ctor(&self, ctor: IsleConstructor) -> (r: String)
        ensures
            r@ == (if self.location.spec_kind() matches OperandKind::RegMem(_)
                && self.mutability == Mutability::ReadWrite {
                if ctor == IsleConstructor::RetMemorySideEffect {
                    "Amode"@
                } else {
                    "Gpr"@
                }
            } else {
                spec_isle_param_raw(*self)
            }),
    {
        match self.location.kind() {
            OperandKind::RegMem(_) => {
                if self.mutability.is_write() {
                    match ctor {
                        IsleConstructor::RetMemorySideEffect => "Amode".to_string(),
                        IsleConstructor::RetGpr => "Gpr".to_string(),
                    }
                } else {
                    self.isle_param_raw()
                }
            },
            _ => self.isle_param_raw(),
        }
    }

    /// Returns the Rust type used for the raw constructors: as the ISLE
    /// type, except that register-or-memory operands are borrowed.
    pub fn rust_param_raw(&self) -> (r: String)
        ensures
            r@ == (if self.location.spec_kind() matches OperandKind::RegMem(_) {
                "&GprMem"@
            } else {
                spec_isle_param_raw(*self)
            }),
    {
        match self.location.kind() {
            OperandKind::RegMem(_) => "&GprMem".to_string(),
            _ => self.isle_param_raw(),
        }
    }

    /// Returns the conversion function, if any, that turns the ISLE type
    /// of this parameter into the assembler's type for it.
    pub fn rust_convert_isle_to_assembler(&self) -> (r: Option<&'static str>)
        ensures
            r == spec_rust_convert(*self),
    {
        match self.location.kind() {
            OperandKind::Reg(_) => Some(
                match self.mutability {
                    Mutability::Read => "cranelift_assembler_x64::Gpr::new",
                    Mutability::ReadWrite => "self.convert_gpr_to_assembler_read_write_gpr",
                },
            ),
            OperandKind::RegMem(_) => Some(
                match self.mutability {
                    Mutability::Read => "self.convert_gpr_mem_to_assembler_read_gpr_mem",
                    Mutability::ReadWrite => "self.convert_gpr_mem_to_assembler_read_write_gpr_mem",
                },
            ),
            OperandKind::Imm(loc) => {
                let bits = loc.bits();
                if self.extension.is_sign_extended() {
                    if bits == 8 {
                        Some("cranelift_assembler_x64::Simm8::new")
                    } else if bits == 16 {
                        Some("cranelift_assembler_x64::Simm16::new")
                    } else {
                        Some("cranelift_assembler_x64::Simm32::new")
                    }
                } else {
                    if bits == 8 {
                        Some("cranelift_assembler_x64::Imm8::new")
                    } else if bits == 16 {
                        Some("cranelift_assembler_x64::Imm16::new")
                    } else {
                        Some("cranelift_assembler_x64::Imm32::new")
                    }
                }
            },
            OperandKind::FixedReg(_) => None,
        }
    }
}

/// The conversion function for each operand shape.
pub open spec fn spec_rust_convert(o: Operand) -> Option<&'static str> {
    match o.location.spec_kind() {
        OperandKind::Reg(_) => if o.mutability == Mutability::Read {
            Some("cranelift_assembler_x64::Gpr::new")
        } else {
            Some("self.convert_gpr_to_assembler_read_write_gpr")
        },
        OperandKind::RegMem(_) => if o.mutability == Mutability::Read {
            Some("self.convert_gpr_mem_to_assembler_read_gpr_mem")
        } else {
            Some("self.convert_gpr_mem_to_assembler_read_write_gpr_mem")
        },
        OperandKind::Imm(loc) => if o.extension.spec_is_sign_extended() {
            if loc.spec_bits() == 8 {
                Some("cranelift_assembler_x64::Simm8::new")
            } else if loc.spec_bits() == 16 {
                Some("cranelift_assembler_x64::Simm16::new")
            } else {
                Some("cranelift_assembler_x64::Simm32::new")
            }
        } else {
            if loc.spec_bits() == 8 {
                Some("cranelift_assembler_x64::Imm8::new")
            } else if loc.spec_bits() == 16 {
                Some("cranelift_assembler_x64::Imm16::new")
            } else {
                Some("cranelift_assembler_x64::Imm32::new")
            }
        },
        OperandKind::FixedReg(_) => Option::<&'static str>::None,
    }
}

} // verus!
