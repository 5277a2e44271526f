//! The `or` instruction family, written in the assembler's definition
//! language: one entry per encoding of bitwise-or over registers, memory
//! and immediates.
//!
//! In 64-bit mode `r/m8` cannot reach `%ah`–`%dh` once a REX prefix is
//! present, so the REX-prefixed byte forms over those registers have no
//! entry.

use vstd::prelude::*;

use crate::operand::{Extension, Location, Mutability, Operand};

verus! {

broadcast use vstd::string::to_string_from_display_ensures_for_str;

/// A legacy prefix byte an encoding may require.
#[derive(Clone, Copy, Debug, PartialEq, Eq, Structural)]
pub enum LegacyPrefixes {
    /// No prefix byte.
    NoPrefix,
    /// The operand-size override prefix, `0x66`.
    _66,
}

/// An instruction-set extension an instruction may require.
#[derive(Clone, Copy, Debug, PartialEq, Eq, Structural)]
pub enum Features {
    /// Streaming SIMD extensions.
    Sse,
    /// Advanced vector extensions.
    Avx,
}

/// A REX-style encoding under construction: opcode, prefix, REX.W bit,
/// whether the ModR/M byte carries a register, an opcode digit, and the
/// width of a trailing immediate.
#[derive(Clone, Copy, Debug, PartialEq, Eq, Structural)]
pub struct Rex {
    /// The opcode byte.
    pub opcode: u8,
    /// The required legacy prefix, if any.
    pub prefix: LegacyPrefixes,
    /// Whether REX.W is set (64-bit operand size).
    pub w_bit: bool,
    /// Whether the ModR/M byte names a register operand.
    pub modrm_reg: bool,
    /// An opcode digit carried in the ModR/M reg field.
    pub digit: Option<u8>,
    /// Width in bytes of the trailing immediate; zero for none.
    pub imm_bytes: u8,
}

/// Start an encoding from its opcode byte.
pub fn rex(opcode: u8) -> (out: Rex)
    ensures
        out == (Rex {
            opcode,
            prefix: LegacyPrefixes::NoPrefix,
            w_bit: false,
            modrm_reg: false,
            digit: Option::<u8>::None,
            imm_bytes: 0u8,
        }),
{
    Rex {
        opcode,
        prefix: LegacyPrefixes::NoPrefix,
        w_bit: false,
        modrm_reg: false,
        digit: None,
        imm_bytes: 0,
    }
}

impl Rex {
    /// Set the REX.W bit: a 64-bit operand size.
    pub fn w(self) -> (out: Rex)
        ensures
            out == (Rex { w_bit: true, ..self }),
    {
        Rex { w_bit: true, ..self }
    }

    /// Let the ModR/M byte name a register operand.
    pub fn r(self) -> (out: Rex)
        ensures
            out == (Rex { modrm_reg: true, ..self }),
    {
        Rex { modrm_reg: true, ..self }
    }

    /// Carry an opcode digit in the ModR/M reg field.
    pub fn digit(self, d: u8) -> (out: Rex)
        ensures
            out == (Rex { digit: Some(d), ..self }),
    {
        Rex { digit: Some(d), ..self }
    }

    /// Require a legacy prefix byte.
    pub fn prefix(self, p: LegacyPrefixes) -> (out: Rex)
        ensures
            out == (Rex { prefix: p, ..self }),
    {
        Rex { prefix: p, ..self }
    }

    /// A trailing byte immediate.
    pub fn ib(self) -> (out: Rex)
        ensures
            out == (Rex { imm_bytes: 1u8, ..self }),
    {
        Rex { imm_bytes: 1, ..self }
    }

    /// A trailing word immediate.
    pub fn iw(self) -> (out: Rex)
        ensures
            out == (Rex { imm_bytes: 2u8, ..self }),
    {
        Rex { imm_bytes: 2, ..self }
    }

    /// A trailing doubleword immediate.
    pub fn id(self) -> (out: Rex)
        ensures
            out == (Rex { imm_bytes: 4u8, ..self }),
    {
        Rex { imm_bytes: 4, ..self }
    }
}

/// An instruction format: its name and its operands in order.
#[derive(Clone, Debug)]
pub struct Format {
    /// The format name, e.g. `MI` for memory-and-immediate.
    pub name: String,
    /// The operands, destination first.
    pub operands: Vec<Operand>,
}

/// Build a format from its name and operands.
pub fn fmt(name: &str, operands: Vec<Operand>) -> (out: Format)
    ensures
        out.name@ == name@,
        out.operands == operands,
{
    Format { name: name.to_string(), operands }
}

/// One instruction definition: mnemonic, format, encoding, and the
/// feature it may require.
#[derive(Clone, Debug)]
pub struct Inst {
    /// The assembly mnemonic.
    pub mnemonic: String,
    /// The instruction's format.
    pub format: Format,
    /// The instruction's encoding.
    pub encoding: Rex,
    /// A required instruction-set extension, if any.
    pub features: Option<Features>,
}

/// Build an instruction definition.
pub fn inst(mnemonic: &str, format: Format, encoding: Rex, features: Option<Features>) -> (out:
    Inst)
    ensures
        out.mnemonic@ == mnemonic@,
        out.format == format,
        out.encoding == encoding,
        out.features == features,
{
    Inst { mnemonic: mnemonic.to_string(), format, encoding, features }
}

/// A read-only operand.
pub fn r(location: Location) -> (out: Operand)
    ensures
        out == (Operand { location, mutability: Mutability::Read, extension: Extension::NoExtend }),
{
    Operand { location, mutability: Mutability::Read, extension: Extension::NoExtend }
}

/// A read-write operand.
pub fn rw(location: Location) -> (out: Operand)
    ensures
        out == (Operand {
            location,
            mutability: Mutability::ReadWrite,
            extension: Extension::NoExtend,
        }),
{
    Operand { location, mutability: Mutability::ReadWrite, extension: Extension::NoExtend }
}

/// A read-only immediate sign-extended to 32 bits.
pub fn sxl(location: Location) -> (out: Operand)
    ensures
        out == (Operand {
            location,
            mutability: Mutability::Read,
            extension: Extension::SignExtendLong,
        }),
{
    Operand { location, mutability: Mutability::Read, extension: Extension::SignExtendLong }
}

/// A read-only immediate sign-extended to 64 bits.
pub fn sxq(location: Location) -> (out: Operand)
    ensures
        out == (Operand {
            location,
            mutability: Mutability::Read,
            extension: Extension::SignExtendQuad,
        }),
{
    Operand { location, mutability: Mutability::Read, extension: Extension::SignExtendQuad }
}

/// A two-operand list.
fn two(a: Operand, b: Operand) -> (out: Vec<Operand>)
    ensures
        out@.len() == 2,
        out@[0] == a,
        out@[1] == b,
{
    let mut out: Vec<Operand> = Vec::new();
    out.push(a);
    out.push(b);
    out
}

/// Every encoding of the `or` family, destination operand first. The
/// listing is pinned entry by entry: mnemonic, format name, both
/// operands and the whole encoding, so any two calls return equal
/// vectors.
pub fn list() -> (out: Vec<Inst>)
    ensures
        out@.len() == 18,
        out@[0].mnemonic@ == "orb"@ && out@[0].format.name@ == "I"@
            && out@[0].format.operands@.len() == 2 && out@[0].format.operands@[0] == (Operand { location: Location::al, mutability: Mutability::ReadWrite, extension: Extension::NoExtend })
            && out@[0].format.operands@[1] == (Operand { location: Location::imm8, mutability: Mutability::Read, extension: Extension::NoExtend }) && out@[0].encoding == (Rex { opcode: 0x0c, prefix: LegacyPrefixes::NoPrefix, w_bit: false, modrm_reg: false, digit: Option::<u8>::None, imm_bytes: 1u8 })
            && out@[0].features is None,
        out@[1].mnemonic@ == "orw"@ && out@[1].format.name@ == "I"@
            && out@[1].format.operands@.len() == 2 && out@[1].format.operands@[0] == (Operand { location: Location::ax, mutability: Mutability::ReadWrite, extension: Extension::NoExtend })
            && out@[1].format.operands@[1] == (Operand { location: Location::imm16, mutability: Mutability::Read, extension: Extension::NoExtend }) && out@[1].encoding == (Rex { opcode: 0x0d, prefix: LegacyPrefixes::_66, w_bit: false, modrm_reg: false, digit: Option::<u8>::None, imm_bytes: 2u8 })
            && out@[1].features is None,
        out@[2].mnemonic@ == "orl"@ && out@[2].format.name@ == "I"@
            && out@[2].format.operands@.len() == 2 && out@[2].format.operands@[0] == (Operand { location: Location::eax, mutability: Mutability::ReadWrite, extension: Extension::NoExtend })
            && out@[2].format.operands@[1] == (Operand { location: Location::imm32, mutability: Mutability::Read, extension: Extension::NoExtend }) && out@[2].encoding == (Rex { opcode: 0x0d, prefix: LegacyPrefixes::NoPrefix, w_bit: false, modrm_reg: false, digit: Option::<u8>::None, imm_bytes: 4u8 })
            && out@[2].features is None,
        out@[3].mnemonic@ == "orq"@ && out@[3].format.name@ == "I_SXLQ"@
            && out@[3].format.operands@.len() == 2 && out@[3].format.operands@[0] == (Operand { location: Location::rax, mutability: Mutability::ReadWrite, extension: Extension::NoExtend })
            && out@[3].format.operands@[1] == (Operand { location: Location::imm32, mutability: Mutability::Read, extension: Extension::SignExtendQuad }) && out@[3].encoding == (Rex { opcode: 0x0d, prefix: LegacyPrefixes::NoPrefix, w_bit: true, modrm_reg: false, digit: Option::<u8>::None, imm_bytes: 4u8 })
            && out@[3].features is None,
        out@[4].mnemonic@ == "orb"@ && out@[4].format.name@ == "MI"@
            && out@[4].format.operands@.len() == 2 && out@[4].format.operands@[0] == (Operand { location: Location::rm8, mutability: Mutability::ReadWrite, extension: Extension::NoExtend })
            && out@[4].format.operands@[1] == (Operand { location: Location::imm8, mutability: Mutability::Read, extension: Extension::NoExtend }) && out@[4].encoding == (Rex { opcode: 0x80, prefix: LegacyPrefixes::NoPrefix, w_bit: false, modrm_reg: false, digit: Some(1u8), imm_bytes: 1u8 })
            && out@[4].features is None,
        out@[5].mnemonic@ == "orw"@ && out@[5].format.name@ == "MI"@
            && out@[5].format.operands@.len() == 2 && out@[5].format.operands@[0] == (Operand { location: Location::rm16, mutability: Mutability::ReadWrite, extension: Extension::NoExtend })
            && out@[5].format.operands@[1] == (Operand { location: Location::imm16, mutability: Mutability::Read, extension: Extension::NoExtend }) && out@[5].encoding == (Rex { opcode: 0x81, prefix: LegacyPrefixes::_66, w_bit: false, modrm_reg: false, digit: Some(1u8), imm_bytes: 2u8 })
            && out@[5].features is None,
        out@[6].mnemonic@ == "orl"@ && out@[6].format.name@ == "MI"@
            && out@[6].format.operands@.len() == 2 && out@[6].format.operands@[0] == (Operand { location: Location::rm32, mutability: Mutability::ReadWrite, extension: Extension::NoExtend })
            && out@[6].format.operands@[1] == (Operand { location: Location::imm32, mutability: Mutability::Read, extension: Extension::NoExtend }) && out@[6].encoding == (Rex { opcode: 0x81, prefix: LegacyPrefixes::NoPrefix, w_bit: false, modrm_reg: false, digit: Some(1u8), imm_bytes: 4u8 })
            && out@[6].features is None,
        out@[7].mnemonic@ == "orq"@ && out@[7].format.name@ == "MI_SXLQ"@
            && out@[7].format.operands@.len() == 2 && out@[7].format.operands@[0] == (Operand { location: Location::rm64, mutability: Mutability::ReadWrite, extension: Extension::NoExtend })
            && out@[7].format.operands@[1] == (Operand { location: Location::imm32, mutability: Mutability::Read, extension: Extension::SignExtendQuad }) && out@[7].encoding == (Rex { opcode: 0x81, prefix: LegacyPrefixes::NoPrefix, w_bit: true, modrm_reg: false, digit: Some(1u8), imm_bytes: 4u8 })
            && out@[7].features is None,
        out@[8].mnemonic@ == "orl"@ && out@[8].format.name@ == "MI_SXBL"@
            && out@[8].format.operands@.len() == 2 && out@[8].format.operands@[0] == (Operand { location: Location::rm32, mutability: Mutability::ReadWrite, extension: Extension::NoExtend })
            && out@[8].format.operands@[1] == (Operand { location: Location::imm8, mutability: Mutability::Read, extension: Extension::SignExtendLong }) && out@[8].encoding == (Rex { opcode: 0x83, prefix: LegacyPrefixes::NoPrefix, w_bit: false, modrm_reg: false, digit: Some(1u8), imm_bytes: 1u8 })
            && out@[8].features is None,
        out@[9].mnemonic@ == "orq"@ && out@[9].format.name@ == "MI_SXBQ"@
            && out@[9].format.operands@.len() == 2 && out@[9].format.operands@[0] == (Operand { location: Location::rm64, mutability: Mutability::ReadWrite, extension: Extension::NoExtend })
            && out@[9].format.operands@[1] == (Operand { location: Location::imm8, mutability: Mutability::Read, extension: Extension::SignExtendQuad }) && out@[9].encoding == (Rex { opcode: 0x83, prefix: LegacyPrefixes::NoPrefix, w_bit: true, modrm_reg: false, digit: Some(1u8), imm_bytes: 1u8 })
            && out@[9].features is None,
        out@[10].mnemonic@ == "orb"@ && out@[10].format.name@ == "MR"@
            && out@[10].format.operands@.len() == 2 && out@[10].format.operands@[0] == (Operand { location: Location::rm8, mutability: Mutability::ReadWrite, extension: Extension::NoExtend })
            && out@[10].format.operands@[1] == (Operand { location: Location::r8, mutability: Mutability::Read, extension: Extension::NoExtend }) && out@[10].encoding == (Rex { opcode: 0x08, prefix: LegacyPrefixes::NoPrefix, w_bit: false, modrm_reg: true, digit: Option::<u8>::None, imm_bytes: 0u8 })
            && out@[10].features is None,
        out@[11].mnemonic@ == "orw"@ && out@[11].format.name@ == "MR"@
            && out@[11].format.operands@.len() == 2 && out@[11].format.operands@[0] == (Operand { location: Location::rm16, mutability: Mutability::ReadWrite, extension: Extension::NoExtend })
            && out@[11].format.operands@[1] == (Operand { location: Location::r16, mutability: Mutability::Read, extension: Extension::NoExtend }) && out@[11].encoding == (Rex { opcode: 0x09, prefix: LegacyPrefixes::_66, w_bit: false, modrm_reg: true, digit: Option::<u8>::None, imm_bytes: 0u8 })
            && out@[11].features is None,
        out@[12].mnemonic@ == "orl"@ && out@[12].format.name@ == "MR"@
            && out@[12].format.operands@.len() == 2 && out@[12].format.operands@[0] == (Operand { location: Location::rm32, mutability: Mutability::ReadWrite, extension: Extension::NoExtend })
            && out@[12].format.operands@[1] == (Operand { location: Location::r32, mutability: Mutability::Read, extension: Extension::NoExtend }) && out@[12].encoding == (Rex { opcode: 0x09, prefix: LegacyPrefixes::NoPrefix, w_bit: false, modrm_reg: true, digit: Option::<u8>::None, imm_bytes: 0u8 })
            && out@[12].features is None,
        out@[13].mnemonic@ == "orq"@ && out@[13].format.name@ == "MR"@
            && out@[13].format.operands@.len() == 2 && out@[13].format.operands@[0] == (Operand { location: Location::rm64, mutability: Mutability::ReadWrite, extension: Extension::NoExtend })
            && out@[13].format.operands@[1] == (Operand { location: Location::r64, mutability: Mutability::Read, extension: Extension::NoExtend }) && out@[13].encoding == (Rex { opcode: 0x09, prefix: LegacyPrefixes::NoPrefix, w_bit: true, modrm_reg: true, digit: Option::<u8>::None, imm_bytes: 0u8 })
            && out@[13].features is None,
        out@[14].mnemonic@ == "orb"@ && out@[14].format.name@ == "RM"@
            && out@[14].format.operands@.len() == 2 && out@[14].format.operands@[0] == (Operand { location: Location::r8, mutability: Mutability::ReadWrite, extension: Extension::NoExtend })
            && out@[14].format.operands@[1] == (Operand { location: Location::rm8, mutability: Mutability::Read, extension: Extension::NoExtend }) && out@[14].encoding == (Rex { opcode: 0x0a, prefix: LegacyPrefixes::NoPrefix, w_bit: false, modrm_reg: true, digit: Option::<u8>::None, imm_bytes: 0u8 })
            && out@[14].features is None,
        out@[15].mnemonic@ == "orw"@ && out@[15].format.name@ == "RM"@
            && out@[15].format.operands@.len() == 2 && out@[15].format.operands@[0] == (Operand { location: Location::r16, mutability: Mutability::ReadWrite, extension: Extension::NoExtend })
            && out@[15].format.operands@[1] == (Operand { location: Location::rm16, mutability: Mutability::Read, extension: Extension::NoExtend }) && out@[15].encoding == (Rex { opcode: 0x0b, prefix: LegacyPrefixes::_66, w_bit: false, modrm_reg: true, digit: Option::<u8>::None, imm_bytes: 0u8 })
            && out@[15].features is None,
        out@[16].mnemonic@ == "orl"@ && out@[16].format.name@ == "RM"@
            && out@[16].format.operands@.len() == 2 && out@[16].format.operands@[0] == (Operand { location: Location::r32, mutability: Mutability::ReadWrite, extension: Extension::NoExtend })
            && out@[16].format.operands@[1] == (Operand { location: Location::rm32, mutability: Mutability::Read, extension: Extension::NoExtend }) && out@[16].encoding == (Rex { opcode: 0x0b, prefix: LegacyPrefixes::NoPrefix, w_bit: false, modrm_reg: true, digit: Option::<u8>::None, imm_bytes: 0u8 })
            && out@[16].features is None,
        out@[17].mnemonic@ == "orq"@ && out@[17].format.name@ == "RM"@
            && out@[17].format.operands@.len() == 2 && out@[17].format.operands@[0] == (Operand { location: Location::r64, mutability: Mutability::ReadWrite, extension: Extension::NoExtend })
            && out@[17].format.operands@[1] == (Operand { location: Location::rm64, mutability: Mutability::Read, extension: Extension::NoExtend }) && out@[17].encoding == (Rex { opcode: 0x0b, prefix: LegacyPrefixes::NoPrefix, w_bit: true, modrm_reg: true, digit: Option::<u8>::None, imm_bytes: 0u8 })
            && out@[17].features is None,
{
    let mut out: Vec<Inst> = Vec::new();
    out.push(inst("orb", fmt("I", two(rw(Location::al), r(Location::imm8))), rex(0x0C).ib(), Option::<Features>::None));
    out.push(inst("orw", fmt("I", two(rw(Location::ax), r(Location::imm16))), rex(0x0D).prefix(LegacyPrefixes::_66).iw(), Option::<Features>::None));
    out.push(inst("orl", fmt("I", two(rw(Location::eax), r(Location::imm32))), rex(0x0D).id(), Option::<Features>::None));
    out.push(inst("orq", fmt("I_SXLQ", two(rw(Location::rax), sxq(Location::imm32))), rex(0x0D).w().id(), Option::<Features>::None));
    out.push(inst("orb", fmt("MI", two(rw(Location::rm8), r(Location::imm8))), rex(0x80).digit(1).ib(), Option::<Features>::None));
    out.push(inst("orw", fmt("MI", two(rw(Location::rm16), r(Location::imm16))), rex(0x81).prefix(LegacyPrefixes::_66).digit(1).iw(), Option::<Features>::None));
    out.push(inst("orl", fmt("MI", two(rw(Location::rm32), r(Location::imm32))), rex(0x81).digit(1).id(), Option::<Features>::None));
    out.push(inst("orq", fmt("MI_SXLQ", two(rw(Location::rm64), sxq(Location::imm32))), rex(0x81).w().digit(1).id(), Option::<Features>::None));
    out.push(inst("orl", fmt("MI_SXBL", two(rw(Location::rm32), sxl(Location::imm8))), rex(0x83).digit(1).ib(), Option::<Features>::None));
    out.push(inst("orq", fmt("MI_SXBQ", two(rw(Location::rm64), sxq(Location::imm8))), rex(0x83).w().digit(1).ib(), Option::<Features>::None));
    out.push(inst("orb", fmt("MR", two(rw(Location::rm8), r(Location::r8))), rex(0x08).r(), Option::<Features>::None));
    out.push(inst("orw", fmt("MR", two(rw(Location::rm16), r(Location::r16))), rex(0x09).prefix(LegacyPrefixes::_66).r(), Option::<Features>::None));
    out.push(inst("orl", fmt("MR", two(rw(Location::rm32), r(Location::r32))), rex(0x09).r(), Option::<Features>::None));
    out.push(inst("orq", fmt("MR", two(rw(Location::rm64), r(Location::r64))), rex(0x09).w().r(), Option::<Features>::None));
    out.push(inst("orb", fmt("RM", two(rw(Location::r8), r(Location::rm8))), rex(0x0A).r(), Option::<Features>::None));
    out.push(inst("orw", fmt("RM", two(rw(Location::r16), r(Location::rm16))), rex(0x0B).prefix(LegacyPrefixes::_66).r(), Option::<Features>::None));
    out.push(inst("orl", fmt("RM", two(rw(Location::r32), r(Location::rm32))), rex(0x0B).r(), Option::<Features>::None));
    out.push(inst("orq", fmt("RM", two(rw(Location::r64), r(Location::rm64))), rex(0x0B).w().r(), Option::<Features>::None));
    out
}

} // verus!
