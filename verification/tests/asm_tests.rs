//! Tests of the register operands, the operand definition language and
//! the `or` instruction listing.

use mpk_pool::inst::{list, LegacyPrefixes};
use mpk_pool::operand::{Extension, IsleConstructor, Location, Mutability, Operand};
use mpk_pool::reg::{Gpr, Gpr2MinusRsp, RexFlags, Size, Xmm, ENC_R10, ENC_RSP};

#[test]
fn gpr_names_cover_every_width() {
    assert_eq!(Gpr::new(0).to_string(Size::Byte), "%al");
    assert_eq!(Gpr::new(0).to_string(Size::Word), "%ax");
    assert_eq!(Gpr::new(0).to_string(Size::Doubleword), "%eax");
    assert_eq!(Gpr::new(0).to_string(Size::Quadword), "%rax");
    assert_eq!(Gpr::new(4).to_string(Size::Byte), "%spl");
    assert_eq!(Gpr::new(u32::from(ENC_RSP)).to_string(Size::Quadword), "%rsp");
    assert_eq!(Gpr::new(u32::from(ENC_R10)).to_string(Size::Word), "%r10w");
    assert_eq!(Gpr::new(15).to_string(Size::Doubleword), "%r15d");
}

#[test]
fn gpr_encodes_and_exposes_its_index() {
    let g = Gpr::new(11);
    assert_eq!(g.enc(), 11);
    assert_eq!(g.as_u32(), 11);
}

#[test]
fn gpr_as_mut_rewrites_in_place() {
    let mut g = Gpr::new(77);
    *g.as_mut() = 3;
    assert_eq!(g.as_u32(), 3);
    let mut x = Xmm::new(9);
    *x.as_mut() = 1;
    assert_eq!(x.as_u32(), 1);
}

#[test]
fn low_byte_registers_force_a_rex_prefix() {
    assert!(RexFlags::set_w().w);
    let mut rex = RexFlags::clear_w();
    Gpr::new(3).always_emit_if_8bit_needed(&mut rex);
    assert!(!rex.must_emit);
    Gpr::new(6).always_emit_if_8bit_needed(&mut rex);
    assert!(rex.must_emit);
}

#[test]
fn xmm_names_cover_the_register_file() {
    assert_eq!(Xmm::new(0).to_string(), "%xmm0");
    assert_eq!(Xmm::new(7).to_string(), "%xmm7");
    assert_eq!(Xmm::new(15).to_string(), "%xmm15");
}

#[test]
fn gpr2_minus_rsp_delegates() {
    let mut g = Gpr2MinusRsp(Gpr::new(2));
    assert_eq!(g.enc(), 2);
    assert_eq!(g.to_string(Size::Quadword), "%rdx");
    *g.as_mut() = 8;
    assert_eq!(g.enc(), 8);
}

fn op(location: Location, mutability: Mutability, extension: Extension) -> Operand {
    Operand { location, mutability, extension }
}

#[test]
fn isle_parameter_types_follow_the_operand_shape() {
    let signed_imm = op(Location::imm8, Mutability::Read, Extension::SignExtendQuad);
    assert_eq!(signed_imm.isle_param_raw(), "i8");
    let unsigned_imm = op(Location::imm32, Mutability::Read, Extension::NoExtend);
    assert_eq!(unsigned_imm.isle_param_raw(), "u32");
    let reg = op(Location::r64, Mutability::ReadWrite, Extension::NoExtend);
    assert_eq!(reg.isle_param_raw(), "Gpr");
    let fixed = op(Location::al, Mutability::ReadWrite, Extension::NoExtend);
    assert_eq!(fixed.isle_param_raw(), "Gpr");
    let rm = op(Location::rm16, Mutability::Read, Extension::NoExtend);
    assert_eq!(rm.isle_param_raw(), "GprMem");
}

#[test]
fn writable_reg_mem_operands_split_by_constructor() {
    let rm = op(Location::rm64, Mutability::ReadWrite, Extension::NoExtend);
    assert_eq!(
        rm.isle_param_for_ctor(IsleConstructor::RetMemorySideEffect),
        "Amode"
    );
    assert_eq!(rm.isle_param_for_ctor(IsleConstructor::RetGpr), "Gpr");
    let read_only = op(Location::rm64, Mutability::Read, Extension::NoExtend);
    assert_eq!(
        read_only.isle_param_for_ctor(IsleConstructor::RetGpr),
        "GprMem"
    );
}

#[test]
fn rust_parameter_types_borrow_reg_mem() {
    let rm = op(Location::rm32, Mutability::ReadWrite, Extension::NoExtend);
    assert_eq!(rm.rust_param_raw(), "&GprMem");
    let imm = op(Location::imm16, Mutability::Read, Extension::SignExtendQuad);
    assert_eq!(imm.rust_param_raw(), "i16");
}

#[test]
fn conversion_functions_match_the_operand_shape() {
    let reg = op(Location::r32, Mutability::Read, Extension::NoExtend);
    assert_eq!(
        reg.rust_convert_isle_to_assembler(),
        Some("cranelift_assembler_x64::Gpr::new")
    );
    let reg_rw = op(Location::r32, Mutability::ReadWrite, Extension::NoExtend);
    assert_eq!(
        reg_rw.rust_convert_isle_to_assembler(),
        Some("self.convert_gpr_to_assembler_read_write_gpr")
    );
    let imm = op(Location::imm32, Mutability::Read, Extension::SignExtendQuad);
    assert_eq!(
        imm.rust_convert_isle_to_assembler(),
        Some("cranelift_assembler_x64::Simm32::new")
    );
    let fixed = op(Location::cl, Mutability::Read, Extension::NoExtend);
    assert_eq!(fixed.rust_convert_isle_to_assembler(), None);
}

#[test]
fn or_listing_covers_all_encodings() {
    let insts = list();
    assert_eq!(insts.len(), 18);

    // The accumulator-immediate byte form.
    assert_eq!(insts[0].mnemonic, "orb");
    assert_eq!(insts[0].format.name, "I");
    assert_eq!(insts[0].encoding.opcode, 0x0C);
    assert_eq!(insts[0].encoding.imm_bytes, 1);
    assert!(!insts[0].encoding.w_bit);

    // The word form carries the operand-size prefix.
    assert_eq!(insts[1].encoding.prefix, LegacyPrefixes::_66);
    assert_eq!(insts[1].encoding.imm_bytes, 2);

    // The memory-immediate quadword form: opcode digit 1, REX.W.
    assert_eq!(insts[7].mnemonic, "orq");
    assert_eq!(insts[7].format.name, "MI_SXLQ");
    assert_eq!(insts[7].encoding.opcode, 0x81);
    assert_eq!(insts[7].encoding.digit, Some(1));
    assert!(insts[7].encoding.w_bit);
    assert_eq!(insts[7].encoding.imm_bytes, 4);

    // The register-memory quadword form.
    assert_eq!(insts[17].mnemonic, "orq");
    assert_eq!(insts[17].format.name, "RM");
    assert_eq!(insts[17].encoding.opcode, 0x0B);
    assert!(insts[17].encoding.modrm_reg);

    for inst in &insts {
        assert_eq!(inst.format.operands.len(), 2);
        assert_eq!(inst.format.operands[0].mutability, Mutability::ReadWrite);
        assert!(inst.features.is_none());
    }
}
