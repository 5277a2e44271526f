//! Pure x64 register operands.
//!
//! A register operand holds a value wider than a hardware encoding needs,
//! because the register allocator rewrites operands in place: a virtual
//! register id is stored first and replaced with a hardware register later.
//! Encoding therefore only makes sense after allocation, which the
//! `enc` preconditions capture.

use vstd::prelude::*;

verus! {

/// Encoding of `%rax`.
pub const ENC_RAX: u8 = 0;

/// Encoding of `%rcx`.
pub const ENC_RCX: u8 = 1;

/// Encoding of `%rdx`.
pub const ENC_RDX: u8 = 2;

/// Encoding of `%rbx`.
pub const ENC_RBX: u8 = 3;

/// Encoding of `%rsp`.
pub const ENC_RSP: u8 = 4;

/// Encoding of `%rbp`.
pub const ENC_RBP: u8 = 5;

/// Encoding of `%rsi`.
pub const ENC_RSI: u8 = 6;

/// Encoding of `%rdi`.
pub const ENC_RDI: u8 = 7;

/// Encoding of `%r8`.
pub const ENC_R8: u8 = 8;

/// Encoding of `%r9`.
pub const ENC_R9: u8 = 9;

/// Encoding of `%r10`.
pub const ENC_R10: u8 = 10;

/// Encoding of `%r11`.
pub const ENC_R11: u8 = 11;

/// Encoding of `%r12`.
pub const ENC_R12: u8 = 12;

/// Encoding of `%r13`.
pub const ENC_R13: u8 = 13;

/// Encoding of `%r14`.
pub const ENC_R14: u8 = 14;

/// Encoding of `%r15`.
pub const ENC_R15: u8 = 15;

/// An operand's access width.
#[derive(Clone, Copy, Debug, PartialEq, Eq, Structural)]
pub enum Size {
    /// 8 bits.
    Byte,
    /// 16 bits.
    Word,
    /// 32 bits.
    Doubleword,
    /// 64 bits.
    Quadword,
    /// 128 bits (vector registers only).
    DoubleQuadword,
}

/// The REX-prefix bookkeeping an instruction encoder carries for one
/// instruction: whether the 64-bit width bit is set, and whether the
/// prefix must be emitted even when no bit of it is set (needed to reach
/// the `%spl`–`%dil` byte registers).
#[derive(Clone, Copy, Debug, PartialEq, Eq, Structural)]
pub struct RexFlags {
    /// The REX.W bit: a 64-bit operand size.
    pub w: bool,
    /// Emit the prefix even when all its bits are clear.
    pub must_emit: bool,
}

impl RexFlags {
    /// Flags for an instruction without a 64-bit operand.
    pub fn clear_w() -> (r: RexFlags)
        ensures
            r == (RexFlags { w: false, must_emit: false }),
    {
        RexFlags { w: false, must_emit: false }
    }

    /// Flags for an instruction with a 64-bit operand.
    pub fn set_w() -> (r: RexFlags)
        ensures
            r == (RexFlags { w: true, must_emit: false }),
    {
        RexFlags { w: true, must_emit: false }
    }

    /// Require the prefix byte to be emitted even when all bits are clear.
    pub fn always_emit(&mut self)
        ensures
            *final(self) == (RexFlags { w: old(self).w, must_emit: true }),
    {
        self.must_emit = true;
    }
}

/// The register allocator's view of an instruction: it visits each
/// register operand, rewriting the stored id in place.
pub trait RegallocVisitor {
    /// Visit a register the instruction reads.
    fn read(&mut self, reg: &mut u32);

    /// Visit a register the instruction reads and writes.
    fn read_write(&mut self, reg: &mut u32);
}

/// The assembly name of the general-purpose register `enc` at width
/// `size`.
pub open spec fn spec_gpr_name(enc: u8, size: Size) -> Seq<char> {
    if enc == 0 {
        match size {
            Size::Byte => "%al"@,
            Size::Word => "%ax"@,
            Size::Doubleword => "%eax"@,
            Size::Quadword => "%rax"@,
            Size::DoubleQuadword => ""@,
        }
    } else if enc == 1 {
        match size {
            Size::Byte => "%cl"@,
            Size::Word => "%cx"@,
            Size::Doubleword => "%ecx"@,
            Size::Quadword => "%rcx"@,
            Size::DoubleQuadword => ""@,
        }
    } else if enc == 2 {
        match size {
            Size::Byte => "%dl"@,
            Size::Word => "%dx"@,
            Size::Doubleword => "%edx"@,
            Size::Quadword => "%rdx"@,
            Size::DoubleQuadword => ""@,
        }
    } else if enc == 3 {
        match size {
            Size::Byte => "%bl"@,
            Size::Word => "%bx"@,
            Size::Doubleword => "%ebx"@,
            Size::Quadword => "%rbx"@,
            Size::DoubleQuadword => ""@,
        }
    } else if enc == 4 {
        match size {
            Size::Byte => "%spl"@,
            Size::Word => "%sp"@,
            Size::Doubleword => "%esp"@,
            Size::Quadword => "%rsp"@,
            Size::DoubleQuadword => ""@,
        }
    } else if enc == 5 {
        match size {
            Size::Byte => "%bpl"@,
            Size::Word => "%bp"@,
            Size::Doubleword => "%ebp"@,
            Size::Quadword => "%rbp"@,
            Size::DoubleQuadword => ""@,
        }
    } else if enc == 6 {
        match size {
            Size::Byte => "%sil"@,
            Size::Word => "%si"@,
            Size::Doubleword => "%esi"@,
            Size::Quadword => "%rsi"@,
            Size::DoubleQuadword => ""@,
        }
    } else if enc == 7 {
        match size {
            Size::Byte => "%dil"@,
            Size::Word => "%di"@,
            Size::Doubleword => "%edi"@,
            Size::Quadword => "%rdi"@,
            Size::DoubleQuadword => ""@,
        }
    } else if enc == 8 {
        match size {
            Size::Byte => "%r8b"@,
            Size::Word => "%r8w"@,
            Size::Doubleword => "%r8d"@,
            Size::Quadword => "%r8"@,
            Size::DoubleQuadword => ""@,
        }
    } else if enc == 9 {
        match size {
            Size::Byte => "%r9b"@,
            Size::Word => "%r9w"@,
            Size::Doubleword => "%r9d"@,
            Size::Quadword => "%r9"@,
            Size::DoubleQuadword => ""@,
        }
    } else if enc == 10 {
        match size {
            Size::Byte => "%r10b"@,
            Size::Word => "%r10w"@,
            Size::Doubleword => "%r10d"@,
            Size::Quadword => "%r10"@,
            Size::DoubleQuadword => ""@,
        }
    } else if enc == 11 {
        match size {
            Size::Byte => "%r11b"@,
            Size::Word => "%r11w"@,
            Size::Doubleword => "%r11d"@,
            Size::Quadword => "%r11"@,
            Size::DoubleQuadword => ""@,
        }
    } else if enc == 12 {
        match size {
            Size::Byte => "%r12b"@,
            Size::Word => "%r12w"@,
            Size::Doubleword => "%r12d"@,
            Size::Quadword => "%r12"@,
            Size::DoubleQuadword => ""@,
        }
    } else if enc == 13 {
        match size {
            Size::Byte => "%r13b"@,
            Size::Word => "%r13w"@,
            Size::Doubleword => "%r13d"@,
            Size::Quadword => "%r13"@,
            Size::DoubleQuadword => ""@,
        }
    } else if enc == 14 {
        match size {
            Size::Byte => "%r14b"@,
            Size::Word => "%r14w"@,
            Size::Doubleword => "%r14d"@,
            Size::Quadword => "%r14"@,
            Size::DoubleQuadword => ""@,
        }
    } else {
        match size {
            Size::Byte => "%r15b"@,
            Size::Word => "%r15w"@,
            Size::Doubleword => "%r15d"@,
            Size::Quadword => "%r15"@,
            Size::DoubleQuadword => ""@,
        }
    }
}

/// The assembly name of the vector register `enc`.
pub open spec fn spec_xmm_name(enc: u8) -> Seq<char> {
    if enc == 0 {
        "%xmm0"@
    } else if enc == 1 {
        "%xmm1"@
    } else if enc == 2 {
        "%xmm2"@
    } else if enc == 3 {
        "%xmm3"@
    } else if enc == 4 {
        "%xmm4"@
    } else if enc == 5 {
        "%xmm5"@
    } else if enc == 6 {
        "%xmm6"@
    } else if enc == 7 {
        "%xmm7"@
    } else if enc == 8 {
        "%xmm8"@
    } else if enc == 9 {
        "%xmm9"@
    } else if enc == 10 {
        "%xmm10"@
    } else if enc == 11 {
        "%xmm11"@
    } else if enc == 12 {
        "%xmm12"@
    } else if enc == 13 {
        "%xmm13"@
    } else if enc == 14 {
        "%xmm14"@
    } else {
        "%xmm15"@
    }
}

/// A general-purpose x64 register: either a hardware register (id below
/// 16) or a virtual one awaiting register allocation.
#[derive(Clone, Copy, Debug)]
pub struct Gpr(pub u32);

impl Gpr {
    /// A register operand that may be real (emittable) or virtual
    /// (awaiting allocation).
    pub fn new(index: u32) -> (r: Gpr)
        ensures
            r.0 == index,
    {
        Gpr(index)
    }

    /// The hardware encoding; meaningful only after register allocation.
    pub fn enc(&self) -> (r: u8)
        requires
            self.0 < 16,
        ensures
            r == self.0,
    {
        self.0 as u8
    }

    /// The byte registers `%spl` through `%dil` (encodings 4 to 7) can
    /// only be named with a REX prefix present: require one for them.
    pub fn always_emit_if_8bit_needed(&self, rex: &mut RexFlags)
        requires
            self.0 < 16,
        ensures
            *final(rex) == (if 4 <= self.0 <= 7 {
                RexFlags { w: old(rex).w, must_emit: true }
            } else {
                *old(rex)
            }),
    {
        let enc_reg = self.enc();
        if 4 <= enc_reg && enc_reg <= 7 {
            rex.always_emit();
        }
    }

    /// The register's assembly name at width `size`.
    pub fn to_string(&self, size: Size) -> (r: &'static str)
        requires
            self.0 < 16,
            size != Size::DoubleQuadword,
        ensures
            r@ == spec_gpr_name(self.0 as u8, size),
    {
        let enc = self.enc();
        if enc == 0 {
            match size {
                Size::Byte => "%al",
                Size::Word => "%ax",
                Size::Doubleword => "%eax",
                _ => "%rax",
            }
        } else if enc == 1 {
            match size {
                Size::Byte => "%cl",
                Size::Word => "%cx",
                Size::Doubleword => "%ecx",
                _ => "%rcx",
            }
        } else if enc == 2 {
            match size {
                Size::Byte => "%dl",
                Size::Word => "%dx",
                Size::Doubleword => "%edx",
                _ => "%rdx",
            }
        } else if enc == 3 {
            match size {
                Size::Byte => "%bl",
                Size::Word => "%bx",
                Size::Doubleword => "%ebx",
                _ => "%rbx",
            }
        } else if enc == 4 {
            match size {
                Size::Byte => "%spl",
                Size::Word => "%sp",
                Size::Doubleword => "%esp",
                _ => "%rsp",
            }
        } else if enc == 5 {
            match size {
                Size::Byte => "%bpl",
                Size::Word => "%bp",
                Size::Doubleword => "%ebp",
                _ => "%rbp",
            }
        } else if enc == 6 {
            match size {
                Size::Byte => "%sil",
                Size::Word => "%si",
                Size::Doubleword => "%esi",
                _ => "%rsi",
            }
        } else if enc == 7 {
            match size {
                Size::Byte => "%dil",
                Size::Word => "%di",
                Size::Doubleword => "%edi",
                _ => "%rdi",
            }
        } else if enc == 8 {
            match size {
                Size::Byte => "%r8b",
                Size::Word => "%r8w",
                Size::Doubleword => "%r8d",
                _ => "%r8",
            }
        } else if enc == 9 {
            match size {
                Size::Byte => "%r9b",
                Size::Word => "%r9w",
                Size::Doubleword => "%r9d",
                _ => "%r9",
            }
        } else if enc == 10 {
            match size {
                Size::Byte => "%r10b",
                Size::Word => "%r10w",
                Size::Doubleword => "%r10d",
                _ => "%r10",
            }
        } else if enc == 11 {
            match size {
                Size::Byte => "%r11b",
                Size::Word => "%r11w",
                Size::Doubleword => "%r11d",
                _ => "%r11",
            }
        } else if enc == 12 {
            match size {
                Size::Byte => "%r12b",
                Size::Word => "%r12w",
                Size::Doubleword => "%r12d",
                _ => "%r12",
            }
        } else if enc == 13 {
            match size {
                Size::Byte => "%r13b",
                Size::Word => "%r13w",
                Size::Doubleword => "%r13d",
                _ => "%r13",
            }
        } else if enc == 14 {
            match size {
                Size::Byte => "%r14b",
                Size::Word => "%r14w",
                Size::Doubleword => "%r14d",
                _ => "%r14",
            }
        } else {
            match size {
                Size::Byte => "%r15b",
                Size::Word => "%r15w",
                Size::Doubleword => "%r15d",
                _ => "%r15",
            }
        }
    }

    /// Let the register allocator visit this register as a read.
    pub fn read<V: RegallocVisitor>(&mut self, visitor: &mut V) {
        visitor.read(self.as_mut());
    }

    /// Let the register allocator visit this register as a read-write.
    pub fn read_write<V: RegallocVisitor>(&mut self, visitor: &mut V) {
        visitor.read_write(self.as_mut());
    }

    /// Allow the register allocator to modify this register in place.
    pub fn as_mut(&mut self) -> (r: &mut u32)
        ensures
            *r == old(self).0,
            *final(self) == Gpr(*final(r)),
    {
        &mut self.0
    }

    /// Allow external users to inspect this register.
    pub fn as_u32(&self) -> (r: u32)
        ensures
            r == self.0,
    {
        self.0
    }
}

/// A vector x64 register: either hardware (id below 16) or virtual.
#[derive(Clone, Copy, Debug)]
pub struct Xmm(pub u32);

impl Xmm {
    /// A vector register operand, real or virtual.
    pub fn new(index: u32) -> (r: Xmm)
        ensures
            r.0 == index,
    {
        Xmm(index)
    }

    /// The hardware encoding; meaningful only after register allocation.
    pub fn enc(&self) -> (r: u8)
        requires
            self.0 < 16,
        ensures
            r == self.0,
    {
        self.0 as u8
    }

    /// The register's assembly name.
    pub fn to_string(&self) -> (r: &'static str)
        requires
            self.0 < 16,
        ensures
            r@ == spec_xmm_name(self.0 as u8),
    {
        let enc = self.enc();
        if enc == 0 {
            "%xmm0"
        } else if enc == 1 {
            "%xmm1"
        } else if enc == 2 {
            "%xmm2"
        } else if enc == 3 {
            "%xmm3"
        } else if enc == 4 {
            "%xmm4"
        } else if enc == 5 {
            "%xmm5"
        } else if enc == 6 {
            "%xmm6"
        } else if enc == 7 {
            "%xmm7"
        } else if enc == 8 {
            "%xmm8"
        } else if enc == 9 {
            "%xmm9"
        } else if enc == 10 {
            "%xmm10"
        } else if enc == 11 {
            "%xmm11"
        } else if enc == 12 {
            "%xmm12"
        } else if enc == 13 {
            "%xmm13"
        } else if enc == 14 {
            "%xmm14"
        } else {
            "%xmm15"
        }
    }

    /// Let the register allocator visit this register as a read.
    pub fn read<V: RegallocVisitor>(&mut self, visitor: &mut V) {
        visitor.read(self.as_mut());
    }

    /// Let the register allocator visit this register as a read-write.
    pub fn read_write<V: RegallocVisitor>(&mut self, visitor: &mut V) {
        visitor.read_write(self.as_mut());
    }

    /// Allow the register allocator to modify this register in place.
    pub fn as_mut(&mut self) -> (r: &mut u32)
        ensures
            *r == old(self).0,
            *final(self) == Xmm(*final(r)),
    {
        &mut self.0
    }

    /// Allow external users to inspect this register.
    pub fn as_u32(&self) -> (r: u32)
        ensures
            r == self.0,
    {
        self.0
    }
}

/// A general-purpose register operand that must never name `%rsp`.
#[derive(Clone, Debug)]
pub struct Gpr2MinusRsp(pub Gpr);

impl Gpr2MinusRsp {
    /// Allow the register allocator to modify this register in place.
    pub fn as_mut(&mut self) -> (r: &mut u32)
        ensures
            *r == old(self).0.0,
            *final(self) == Gpr2MinusRsp(Gpr(*final(r))),
    {
        self.0.as_mut()
    }

    /// The hardware encoding; meaningful only after register allocation.
    pub fn enc(&self) -> (r: u8)
        requires
            self.0.0 < 16,
        ensures
            r == self.0.0,
    {
        self.0.enc()
    }

    /// The register's assembly name at width `size`.
    pub fn to_string(&self, size: Size) -> (r: &'static str)
        requires
            self.0.0 < 16,
            size != Size::DoubleQuadword,
        ensures
            r@ == spec_gpr_name(self.0.0 as u8, size),
    {
        self.0.to_string(size)
    }
}

} // verus!
