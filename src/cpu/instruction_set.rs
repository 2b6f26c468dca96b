use vstd::prelude::*;

use crate::cpu::addressing_types::AddressingType;
use crate::cpu::instructions::adc::adc_step;
use crate::cpu::instructions::and::and_step;
use crate::cpu::instructions::asl::asl_step;
use crate::cpu::instructions::bcc::bcc_step;
use crate::cpu::instructions::bcs::bcs_step;
use crate::cpu::instructions::beq::beq_step;
use crate::cpu::instructions::bit::bit_step;
use crate::cpu::instructions::bmi::bmi_step;
use crate::cpu::instructions::bne::bne_step;
use crate::cpu::instructions::bpl::bpl_step;
use crate::cpu::instructions::bra::bra_step;
use crate::cpu::instructions::bvc::bvc_step;
use crate::cpu::instructions::bvs::bvs_step;
use crate::cpu::instructions::clc::clc_step;
use crate::cpu::instructions::cld::cld_step;
use crate::cpu::instructions::cli::cli_step;
use crate::cpu::instructions::clv::clv_step;
use crate::cpu::instructions::cmp::cmp_step;
use crate::cpu::instructions::cpx::cpx_step;
use crate::cpu::instructions::cpy::cpy_step;
use crate::cpu::instructions::dec::dec_step;
use crate::cpu::instructions::dex::dex_step;
use crate::cpu::instructions::dey::dey_step;
use crate::cpu::instructions::eor::eor_step;
use crate::cpu::instructions::inc::inc_step;
use crate::cpu::instructions::inx::inx_step;
use crate::cpu::instructions::iny::iny_step;
use crate::cpu::instructions::jmp::jmp_step;
use crate::cpu::instructions::jsr::jsr_step;
use crate::cpu::instructions::lda::lda_step;
use crate::cpu::instructions::ldx::ldx_step;
use crate::cpu::instructions::ldy::ldy_step;
use crate::cpu::instructions::lsr::lsr_step;
use crate::cpu::instructions::ora::ora_step;
use crate::cpu::instructions::pha::pha_step;
use crate::cpu::instructions::php::php_step;
use crate::cpu::instructions::phx::phx_step;
use crate::cpu::instructions::phy::phy_step;
use crate::cpu::instructions::pla::pla_step;
use crate::cpu::instructions::plp::plp_step;
use crate::cpu::instructions::plx::plx_step;
use crate::cpu::instructions::ply::ply_step;
use crate::cpu::instructions::rol::rol_step;
use crate::cpu::instructions::ror::ror_step;
use crate::cpu::instructions::rts::rts_step;
use crate::cpu::instructions::sbc::sbc_step;
use crate::cpu::instructions::sec::sec_step;
use crate::cpu::instructions::sed::sed_step;
use crate::cpu::instructions::sei::sei_step;
use crate::cpu::instructions::sta::sta_step;
use crate::cpu::instructions::stx::stx_step;
use crate::cpu::instructions::sty::sty_step;
use crate::cpu::instructions::stz::stz_step;
use crate::cpu::instructions::tax::tax_step;
use crate::cpu::instructions::tay::tay_step;
use crate::cpu::instructions::trb::trb_step;
use crate::cpu::instructions::tsb::tsb_step;
use crate::cpu::instructions::tsx::tsx_step;
use crate::cpu::instructions::txa::txa_step;
use crate::cpu::instructions::txs::txs_step;
use crate::cpu::instructions::tya::tya_step;
use crate::cpu::{Cpu, CpuState, Flags};
use crate::memory::{high_byte, low_byte, u16_from_le, u16_to_le, word_of, wrap8, Memory};

verus! {

/// The implemented mnemonics.
#[derive(Clone, Copy, Debug, PartialEq, Eq, Structural)]
pub enum Instruction {
    Adc,
    And,
    Asl,
    Bcc,
    Bcs,
    Beq,
    Bit,
    Bmi,
    Bne,
    Bpl,
    Bra,
    Brk,
    Bvc,
    Bvs,
    Clc,
    Cld,
    Cli,
    Clv,
    Cmp,
    Cpx,
    Cpy,
    Dec,
    Dex,
    Dey,
    Eor,
    Inc,
    Inx,
    Iny,
    Jmp,
    Jsr,
    Lda,
    Ldx,
    Ldy,
    Lsr,
    Nop,
    Ora,
    Pha,
    Php,
    Phx,
    Phy,
    Pla,
    Plp,
    Plx,
    Ply,
    Rol,
    Ror,
    Rti,
    Rts,
    Sbc,
    Sec,
    Sed,
    Sei,
    Sta,
    Stx,
    Sty,
    Stz,
    Tax,
    Tay,
    Trb,
    Tsb,
    Tsx,
    Txa,
    Txs,
    Tya,
}

/// The decode table: each implemented opcode with its mnemonic and addressing mode.
pub open spec fn opcode_table(op: u8) -> Option<(Instruction, AddressingType)> {
    match op {
        0x00 => Some((Instruction::Brk, AddressingType::InterruptSetup)),
        0x01 => Some((Instruction::Ora, AddressingType::ZeroPageXIndexedIndirect)),
        0x04 => Some((Instruction::Tsb, AddressingType::ZeroPageRMW)),
        0x05 => Some((Instruction::Ora, AddressingType::ZeroPage)),
        0x06 => Some((Instruction::Asl, AddressingType::ZeroPageRMW)),
        0x08 => Some((Instruction::Php, AddressingType::StackPush)),
        0x09 => Some((Instruction::Ora, AddressingType::Immediate)),
        0x0A => Some((Instruction::Asl, AddressingType::Accumulator)),
        0x0C => Some((Instruction::Tsb, AddressingType::AbsoluteRMW)),
        0x0D => Some((Instruction::Ora, AddressingType::Absolute)),
        0x0E => Some((Instruction::Asl, AddressingType::AbsoluteRMW)),
        0x10 => Some((Instruction::Bpl, AddressingType::PcRelative)),
        0x11 => Some((Instruction::Ora, AddressingType::ZeroPageIndirectYIndexed)),
        0x12 => Some((Instruction::Ora, AddressingType::ZeroPageIndirect)),
        0x14 => Some((Instruction::Trb, AddressingType::ZeroPageRMW)),
        0x15 => Some((Instruction::Ora, AddressingType::ZeroPageXIndexed)),
        0x16 => Some((Instruction::Asl, AddressingType::ZeroPageXIndexedRMW)),
        0x18 => Some((Instruction::Clc, AddressingType::Implied)),
        0x19 => Some((Instruction::Ora, AddressingType::AbsoluteYIndexed)),
        0x1A => Some((Instruction::Inc, AddressingType::Accumulator)),
        0x1C => Some((Instruction::Trb, AddressingType::AbsoluteRMW)),
        0x1D => Some((Instruction::Ora, AddressingType::AbsoluteXIndexed)),
        0x1E => Some((Instruction::Asl, AddressingType::AbsoluteXIndexedRMW)),
        0x20 => Some((Instruction::Jsr, AddressingType::SubroutineJump)),
        0x21 => Some((Instruction::And, AddressingType::ZeroPageXIndexedIndirect)),
        0x24 => Some((Instruction::Bit, AddressingType::ZeroPage)),
        0x25 => Some((Instruction::And, AddressingType::ZeroPage)),
        0x26 => Some((Instruction::Rol, AddressingType::ZeroPageRMW)),
        0x28 => Some((Instruction::Plp, AddressingType::StackPull)),
        0x29 => Some((Instruction::And, AddressingType::Immediate)),
        0x2A => Some((Instruction::Rol, AddressingType::Accumulator)),
        0x2C => Some((Instruction::Bit, AddressingType::Absolute)),
        0x2D => Some((Instruction::And, AddressingType::Absolute)),
        0x2E => Some((Instruction::Rol, AddressingType::AbsoluteRMW)),
        0x30 => Some((Instruction::Bmi, AddressingType::PcRelative)),
        0x31 => Some((Instruction::And, AddressingType::ZeroPageIndirectYIndexed)),
        0x32 => Some((Instruction::And, AddressingType::ZeroPageIndirect)),
        0x34 => Some((Instruction::Bit, AddressingType::ZeroPageXIndexed)),
        0x35 => Some((Instruction::And, AddressingType::ZeroPageXIndexed)),
        0x36 => Some((Instruction::Rol, AddressingType::ZeroPageXIndexedRMW)),
        0x38 => Some((Instruction::Sec, AddressingType::Implied)),
        0x39 => Some((Instruction::And, AddressingType::AbsoluteYIndexed)),
        0x3A => Some((Instruction::Dec, AddressingType::Accumulator)),
        0x3C => Some((Instruction::Bit, AddressingType::AbsoluteXIndexed)),
        0x3D => Some((Instruction::And, AddressingType::AbsoluteXIndexed)),
        0x3E => Some((Instruction::Rol, AddressingType::AbsoluteXIndexedRMW)),
        0x40 => Some((Instruction::Rti, AddressingType::InterruptReturn)),
        0x41 => Some((Instruction::Eor, AddressingType::ZeroPageXIndexedIndirect)),
        0x45 => Some((Instruction::Eor, AddressingType::ZeroPage)),
        0x46 => Some((Instruction::Lsr, AddressingType::ZeroPageRMW)),
        0x48 => Some((Instruction::Pha, AddressingType::StackPush)),
        0x49 => Some((Instruction::Eor, AddressingType::Immediate)),
        0x4A => Some((Instruction::Lsr, AddressingType::Accumulator)),
        0x4C => Some((Instruction::Jmp, AddressingType::Absolute)),
        0x4D => Some((Instruction::Eor, AddressingType::Absolute)),
        0x4E => Some((Instruction::Lsr, AddressingType::AbsoluteRMW)),
        0x50 => Some((Instruction::Bvc, AddressingType::PcRelative)),
        0x51 => Some((Instruction::Eor, AddressingType::ZeroPageIndirectYIndexed)),
        0x52 => Some((Instruction::Eor, AddressingType::ZeroPageIndirect)),
        0x55 => Some((Instruction::Eor, AddressingType::ZeroPageXIndexed)),
        0x56 => Some((Instruction::Lsr, AddressingType::ZeroPageXIndexedRMW)),
        0x58 => Some((Instruction::Cli, AddressingType::Implied)),
        0x59 => Some((Instruction::Eor, AddressingType::AbsoluteYIndexed)),
        0x5A => Some((Instruction::Phy, AddressingType::StackPush)),
        0x5D => Some((Instruction::Eor, AddressingType::AbsoluteXIndexed)),
        0x5E => Some((Instruction::Lsr, AddressingType::AbsoluteXIndexedRMW)),
        0x60 => Some((Instruction::Rts, AddressingType::SubroutineReturn)),
        0x61 => Some((Instruction::Adc, AddressingType::ZeroPageXIndexedIndirect)),
        0x64 => Some((Instruction::Stz, AddressingType::ZeroPage)),
        0x65 => Some((Instruction::Adc, AddressingType::ZeroPage)),
        0x66 => Some((Instruction::Ror, AddressingType::ZeroPageRMW)),
        0x68 => Some((Instruction::Pla, AddressingType::StackPull)),
        0x69 => Some((Instruction::Adc, AddressingType::Immediate)),
        0x6A => Some((Instruction::Ror, AddressingType::Accumulator)),
        0x6C => Some((Instruction::Jmp, AddressingType::AbsoluteIndirect)),
        0x6D => Some((Instruction::Adc, AddressingType::Absolute)),
        0x6E => Some((Instruction::Ror, AddressingType::AbsoluteRMW)),
        0x70 => Some((Instruction::Bvs, AddressingType::PcRelative)),
        0x71 => Some((Instruction::Adc, AddressingType::ZeroPageIndirectYIndexed)),
        0x72 => Some((Instruction::Adc, AddressingType::ZeroPageIndirect)),
        0x74 => Some((Instruction::Stz, AddressingType::ZeroPageXIndexed)),
        0x75 => Some((Instruction::Adc, AddressingType::ZeroPageXIndexed)),
        0x76 => Some((Instruction::Ror, AddressingType::ZeroPageXIndexedRMW)),
        0x78 => Some((Instruction::Sei, AddressingType::Implied)),
        0x79 => Some((Instruction::Adc, AddressingType::AbsoluteYIndexed)),
        0x7A => Some((Instruction::Ply, AddressingType::StackPull)),
        0x7C => Some((Instruction::Jmp, AddressingType::AbsoluteXIndexedIndirect)),
        0x7D => Some((Instruction::Adc, AddressingType::AbsoluteXIndexed)),
        0x7E => Some((Instruction::Ror, AddressingType::AbsoluteXIndexedRMW)),
        0x80 => Some((Instruction::Bra, AddressingType::PcRelative)),
        0x81 => Some((Instruction::Sta, AddressingType::ZeroPageXIndexedIndirect)),
        0x84 => Some((Instruction::Sty, AddressingType::ZeroPage)),
        0x85 => Some((Instruction::Sta, AddressingType::ZeroPage)),
        0x86 => Some((Instruction::Stx, AddressingType::ZeroPage)),
        0x88 => Some((Instruction::Dey, AddressingType::Implied)),
        0x89 => Some((Instruction::Bit, AddressingType::Immediate)),
        0x8A => Some((Instruction::Txa, AddressingType::Implied)),
        0x8C => Some((Instruction::Sty, AddressingType::Absolute)),
        0x8D => Some((Instruction::Sta, AddressingType::Absolute)),
        0x8E => Some((Instruction::Stx, AddressingType::Absolute)),
        0x90 => Some((Instruction::Bcc, AddressingType::PcRelative)),
        0x91 => Some((Instruction::Sta, AddressingType::ZeroPageIndirectYIndexed)),
        0x92 => Some((Instruction::Sta, AddressingType::ZeroPageIndirect)),
        0x94 => Some((Instruction::Sty, AddressingType::ZeroPageXIndexed)),
        0x95 => Some((Instruction::Sta, AddressingType::ZeroPageXIndexed)),
        0x96 => Some((Instruction::Stx, AddressingType::ZeroPageYIndexed)),
        0x98 => Some((Instruction::Tya, AddressingType::Implied)),
        0x99 => Some((Instruction::Sta, AddressingType::AbsoluteYIndexed)),
        0x9A => Some((Instruction::Txs, AddressingType::Implied)),
        0x9C => Some((Instruction::Stz, AddressingType::Absolute)),
        0x9D => Some((Instruction::Sta, AddressingType::AbsoluteXIndexed)),
        0x9E => Some((Instruction::Stz, AddressingType::AbsoluteXIndexed)),
        0xA0 => Some((Instruction::Ldy, AddressingType::Immediate)),
        0xA1 => Some((Instruction::Lda, AddressingType::ZeroPageXIndexedIndirect)),
        0xA2 => Some((Instruction::Ldx, AddressingType::Immediate)),
        0xA4 => Some((Instruction::Ldy, AddressingType::ZeroPage)),
        0xA5 => Some((Instruction::Lda, AddressingType::ZeroPage)),
        0xA6 => Some((Instruction::Ldx, AddressingType::ZeroPage)),
        0xA8 => Some((Instruction::Tay, AddressingType::Implied)),
        0xA9 => Some((Instruction::Lda, AddressingType::Immediate)),
        0xAA => Some((Instruction::Tax, AddressingType::Implied)),
        0xAC => Some((Instruction::Ldy, AddressingType::Absolute)),
        0xAD => Some((Instruction::Lda, AddressingType::Absolute)),
        0xAE => Some((Instruction::Ldx, AddressingType::Absolute)),
        0xB0 => Some((Instruction::Bcs, AddressingType::PcRelative)),
        0xB1 => Some((Instruction::Lda, AddressingType::ZeroPageIndirectYIndexed)),
        0xB2 => Some((Instruction::Lda, AddressingType::ZeroPageIndirect)),
        0xB4 => Some((Instruction::Ldy, AddressingType::ZeroPageXIndexed)),
        0xB5 => Some((Instruction::Lda, AddressingType::ZeroPageXIndexed)),
        0xB6 => Some((Instruction::Ldx, AddressingType::ZeroPageYIndexed)),
        0xB8 => Some((Instruction::Clv, AddressingType::Implied)),
        0xB9 => Some((Instruction::Lda, AddressingType::AbsoluteYIndexed)),
        0xBA => Some((Instruction::Tsx, AddressingType::Implied)),
        0xBC => Some((Instruction::Ldy, AddressingType::AbsoluteXIndexed)),
        0xBD => Some((Instruction::Lda, AddressingType::AbsoluteXIndexed)),
        0xBE => Some((Instruction::Ldx, AddressingType::AbsoluteYIndexed)),
        0xC0 => Some((Instruction::Cpy, AddressingType::Immediate)),
        0xC1 => Some((Instruction::Cmp, AddressingType::ZeroPageXIndexedIndirect)),
        0xC4 => Some((Instruction::Cpy, AddressingType::ZeroPage)),
        0xC5 => Some((Instruction::Cmp, AddressingType::ZeroPage)),
        0xC6 => Some((Instruction::Dec, AddressingType::ZeroPageRMW)),
        0xC8 => Some((Instruction::Iny, AddressingType::Implied)),
        0xC9 => Some((Instruction::Cmp, AddressingType::Immediate)),
        0xCA => Some((Instruction::Dex, AddressingType::Implied)),
        0xCC => Some((Instruction::Cpy, AddressingType::Absolute)),
        0xCD => Some((Instruction::Cmp, AddressingType::Absolute)),
        0xCE => Some((Instruction::Dec, AddressingType::AbsoluteRMW)),
        0xD0 => Some((Instruction::Bne, AddressingType::PcRelative)),
        0xD1 => Some((Instruction::Cmp, AddressingType::ZeroPageIndirectYIndexed)),
        0xD2 => Some((Instruction::Cmp, AddressingType::ZeroPageIndirect)),
        0xD5 => Some((Instruction::Cmp, AddressingType::ZeroPageXIndexed)),
        0xD6 => Some((Instruction::Dec, AddressingType::ZeroPageXIndexedRMW)),
        0xD8 => Some((Instruction::Cld, AddressingType::Implied)),
        0xD9 => Some((Instruction::Cmp, AddressingType::AbsoluteYIndexed)),
        0xDA => Some((Instruction::Phx, AddressingType::StackPush)),
        0xDD => Some((Instruction::Cmp, AddressingType::AbsoluteXIndexed)),
        0xDE => Some((Instruction::Dec, AddressingType::AbsoluteXIndexedRMW)),
        0xE0 => Some((Instruction::Cpx, AddressingType::Immediate)),
        0xE1 => Some((Instruction::Sbc, AddressingType::ZeroPageXIndexedIndirect)),
        0xE4 => Some((Instruction::Cpx, AddressingType::ZeroPage)),
        0xE5 => Some((Instruction::Sbc, AddressingType::ZeroPage)),
        0xE6 => Some((Instruction::Inc, AddressingType::ZeroPageRMW)),
        0xE8 => Some((Instruction::Inx, AddressingType::Implied)),
        0xE9 => Some((Instruction::Sbc, AddressingType::Immediate)),
        0xEA => Some((Instruction::Nop, AddressingType::Implied)),
        0xEC => Some((Instruction::Cpx, AddressingType::Absolute)),
        0xED => Some((Instruction::Sbc, AddressingType::Absolute)),
        0xEE => Some((Instruction::Inc, AddressingType::AbsoluteRMW)),
        0xF0 => Some((Instruction::Beq, AddressingType::PcRelative)),
        0xF1 => Some((Instruction::Sbc, AddressingType::ZeroPageIndirectYIndexed)),
        0xF2 => Some((Instruction::Sbc, AddressingType::ZeroPageIndirect)),
        0xF5 => Some((Instruction::Sbc, AddressingType::ZeroPageXIndexed)),
        0xF6 => Some((Instruction::Inc, AddressingType::ZeroPageXIndexedRMW)),
        0xF8 => Some((Instruction::Sed, AddressingType::Implied)),
        0xF9 => Some((Instruction::Sbc, AddressingType::AbsoluteYIndexed)),
        0xFA => Some((Instruction::Plx, AddressingType::StackPull)),
        0xFD => Some((Instruction::Sbc, AddressingType::AbsoluteXIndexed)),
        0xFE => Some((Instruction::Inc, AddressingType::AbsoluteXIndexedRMW)),
        _ => None,
    }
}

/// Looks an opcode up in the decode table.
pub fn decode(op: u8) -> (r: Option<(Instruction, AddressingType)>)
    ensures
        r == opcode_table(op),
{
    match op {
        0x00 => Some((Instruction::Brk, AddressingType::InterruptSetup)),
        0x01 => Some((Instruction::Ora, AddressingType::ZeroPageXIndexedIndirect)),
        0x04 => Some((Instruction::Tsb, AddressingType::ZeroPageRMW)),
        0x05 => Some((Instruction::Ora, AddressingType::ZeroPage)),
        0x06 => Some((Instruction::Asl, AddressingType::ZeroPageRMW)),
        0x08 => Some((Instruction::Php, AddressingType::StackPush)),
        0x09 => Some((Instruction::Ora, AddressingType::Immediate)),
        0x0A => Some((Instruction::Asl, AddressingType::Accumulator)),
        0x0C => Some((Instruction::Tsb, AddressingType::AbsoluteRMW)),
        0x0D => Some((Instruction::Ora, AddressingType::Absolute)),
        0x0E => Some((Instruction::Asl, AddressingType::AbsoluteRMW)),
        0x10 => Some((Instruction::Bpl, AddressingType::PcRelative)),
        0x11 => Some((Instruction::Ora, AddressingType::ZeroPageIndirectYIndexed)),
        0x12 => Some((Instruction::Ora, AddressingType::ZeroPageIndirect)),
        0x14 => Some((Instruction::Trb, AddressingType::ZeroPageRMW)),
        0x15 => Some((Instruction::Ora, AddressingType::ZeroPageXIndexed)),
        0x16 => Some((Instruction::Asl, AddressingType::ZeroPageXIndexedRMW)),
        0x18 => Some((Instruction::Clc, AddressingType::Implied)),
        0x19 => Some((Instruction::Ora, AddressingType::AbsoluteYIndexed)),
        0x1A => Some((Instruction::Inc, AddressingType::Accumulator)),
        0x1C => Some((Instruction::Trb, AddressingType::AbsoluteRMW)),
        0x1D => Some((Instruction::Ora, AddressingType::AbsoluteXIndexed)),
        0x1E => Some((Instruction::Asl, AddressingType::AbsoluteXIndexedRMW)),
        0x20 => Some((Instruction::Jsr, AddressingType::SubroutineJump)),
        0x21 => Some((Instruction::And, AddressingType::ZeroPageXIndexedIndirect)),
        0x24 => Some((Instruction::Bit, AddressingType::ZeroPage)),
        0x25 => Some((Instruction::And, AddressingType::ZeroPage)),
        0x26 => Some((Instruction::Rol, AddressingType::ZeroPageRMW)),
        0x28 => Some((Instruction::Plp, AddressingType::StackPull)),
        0x29 => Some((Instruction::And, AddressingType::Immediate)),
        0x2A => Some((Instruction::Rol, AddressingType::Accumulator)),
        0x2C => Some((Instruction::Bit, AddressingType::Absolute)),
        0x2D => Some((Instruction::And, AddressingType::Absolute)),
        0x2E => Some((Instruction::Rol, AddressingType::AbsoluteRMW)),
        0x30 => Some((Instruction::Bmi, AddressingType::PcRelative)),
        0x31 => Some((Instruction::And, AddressingType::ZeroPageIndirectYIndexed)),
        0x32 => Some((Instruction::And, AddressingType::ZeroPageIndirect)),
        0x34 => Some((Instruction::Bit, AddressingType::ZeroPageXIndexed)),
        0x35 => Some((Instruction::And, AddressingType::ZeroPageXIndexed)),
        0x36 => Some((Instruction::Rol, AddressingType::ZeroPageXIndexedRMW)),
        0x38 => Some((Instruction::Sec, AddressingType::Implied)),
        0x39 => Some((Instruction::And, AddressingType::AbsoluteYIndexed)),
        0x3A => Some((Instruction::Dec, AddressingType::Accumulator)),
        0x3C => Some((Instruction::Bit, AddressingType::AbsoluteXIndexed)),
        0x3D => Some((Instruction::And, AddressingType::AbsoluteXIndexed)),
        0x3E => Some((Instruction::Rol, AddressingType::AbsoluteXIndexedRMW)),
        0x40 => Some((Instruction::Rti, AddressingType::InterruptReturn)),
        0x41 => Some((Instruction::Eor, AddressingType::ZeroPageXIndexedIndirect)),
        0x45 => Some((Instruction::Eor, AddressingType::ZeroPage)),
        0x46 => Some((Instruction::Lsr, AddressingType::ZeroPageRMW)),
        0x48 => Some((Instruction::Pha, AddressingType::StackPush)),
        0x49 => Some((Instruction::Eor, AddressingType::Immediate)),
        0x4A => Some((Instruction::Lsr, AddressingType::Accumulator)),
        0x4C => Some((Instruction::Jmp, AddressingType::Absolute)),
        0x4D => Some((Instruction::Eor, AddressingType::Absolute)),
        0x4E => Some((Instruction::Lsr, AddressingType::AbsoluteRMW)),
        0x50 => Some((Instruction::Bvc, AddressingType::PcRelative)),
        0x51 => Some((Instruction::Eor, AddressingType::ZeroPageIndirectYIndexed)),
        0x52 => Some((Instruction::Eor, AddressingType::ZeroPageIndirect)),
        0x55 => Some((Instruction::Eor, AddressingType::ZeroPageXIndexed)),
        0x56 => Some((Instruction::Lsr, AddressingType::ZeroPageXIndexedRMW)),
        0x58 => Some((Instruction::Cli, AddressingType::Implied)),
        0x59 => Some((Instruction::Eor, AddressingType::AbsoluteYIndexed)),
        0x5A => Some((Instruction::Phy, AddressingType::StackPush)),
        0x5D => Some((Instruction::Eor, AddressingType::AbsoluteXIndexed)),
        0x5E => Some((Instruction::Lsr, AddressingType::AbsoluteXIndexedRMW)),
        0x60 => Some((Instruction::Rts, AddressingType::SubroutineReturn)),
        0x61 => Some((Instruction::Adc, AddressingType::ZeroPageXIndexedIndirect)),
        0x64 => Some((Instruction::Stz, AddressingType::ZeroPage)),
        0x65 => Some((Instruction::Adc, AddressingType::ZeroPage)),
        0x66 => Some((Instruction::Ror, AddressingType::ZeroPageRMW)),
        0x68 => Some((Instruction::Pla, AddressingType::StackPull)),
        0x69 => Some((Instruction::Adc, AddressingType::Immediate)),
        0x6A => Some((Instruction::Ror, AddressingType::Accumulator)),
        0x6C => Some((Instruction::Jmp, AddressingType::AbsoluteIndirect)),
        0x6D => Some((Instruction::Adc, AddressingType::Absolute)),
        0x6E => Some((Instruction::Ror, AddressingType::AbsoluteRMW)),
        0x70 => Some((Instruction::Bvs, AddressingType::PcRelative)),
        0x71 => Some((Instruction::Adc, AddressingType::ZeroPageIndirectYIndexed)),
        0x72 => Some((Instruction::Adc, AddressingType::ZeroPageIndirect)),
        0x74 => Some((Instruction::Stz, AddressingType::ZeroPageXIndexed)),
        0x75 => Some((Instruction::Adc, AddressingType::ZeroPageXIndexed)),
        0x76 => Some((Instruction::Ror, AddressingType::ZeroPageXIndexedRMW)),
        0x78 => Some((Instruction::Sei, AddressingType::Implied)),
        0x79 => Some((Instruction::Adc, AddressingType::AbsoluteYIndexed)),
        0x7A => Some((Instruction::Ply, AddressingType::StackPull)),
        0x7C => Some((Instruction::Jmp, AddressingType::AbsoluteXIndexedIndirect)),
        0x7D => Some((Instruction::Adc, AddressingType::AbsoluteXIndexed)),
        0x7E => Some((Instruction::Ror, AddressingType::AbsoluteXIndexedRMW)),
        0x80 => Some((Instruction::Bra, AddressingType::PcRelative)),
        0x81 => Some((Instruction::Sta, AddressingType::ZeroPageXIndexedIndirect)),
        0x84 => Some((Instruction::Sty, AddressingType::ZeroPage)),
        0x85 => Some((Instruction::Sta, AddressingType::ZeroPage)),
        0x86 => Some((Instruction::Stx, AddressingType::ZeroPage)),
        0x88 => Some((Instruction::Dey, AddressingType::Implied)),
        0x89 => Some((Instruction::Bit, AddressingType::Immediate)),
        0x8A => Some((Instruction::Txa, AddressingType::Implied)),
        0x8C => Some((Instruction::Sty, AddressingType::Absolute)),
        0x8D => Some((Instruction::Sta, AddressingType::Absolute)),
        0x8E => Some((Instruction::Stx, AddressingType::Absolute)),
        0x90 => Some((Instruction::Bcc, AddressingType::PcRelative)),
        0x91 => Some((Instruction::Sta, AddressingType::ZeroPageIndirectYIndexed)),
        0x92 => Some((Instruction::Sta, AddressingType::ZeroPageIndirect)),
        0x94 => Some((Instruction::Sty, AddressingType::ZeroPageXIndexed)),
        0x95 => Some((Instruction::Sta, AddressingType::ZeroPageXIndexed)),
        0x96 => Some((Instruction::Stx, AddressingType::ZeroPageYIndexed)),
        0x98 => Some((Instruction::Tya, AddressingType::Implied)),
        0x99 => Some((Instruction::Sta, AddressingType::AbsoluteYIndexed)),
        0x9A => Some((Instruction::Txs, AddressingType::Implied)),
        0x9C => Some((Instruction::Stz, AddressingType::Absolute)),
        0x9D => Some((Instruction::Sta, AddressingType::AbsoluteXIndexed)),
        0x9E => Some((Instruction::Stz, AddressingType::AbsoluteXIndexed)),
        0xA0 => Some((Instruction::Ldy, AddressingType::Immediate)),
        0xA1 => Some((Instruction::Lda, AddressingType::ZeroPageXIndexedIndirect)),
        0xA2 => Some((Instruction::Ldx, AddressingType::Immediate)),
        0xA4 => Some((Instruction::Ldy, AddressingType::ZeroPage)),
        0xA5 => Some((Instruction::Lda, AddressingType::ZeroPage)),
        0xA6 => Some((Instruction::Ldx, AddressingType::ZeroPage)),
        0xA8 => Some((Instruction::Tay, AddressingType::Implied)),
        0xA9 => Some((Instruction::Lda, AddressingType::Immediate)),
        0xAA => Some((Instruction::Tax, AddressingType::Implied)),
        0xAC => Some((Instruction::Ldy, AddressingType::Absolute)),
        0xAD => Some((Instruction::Lda, AddressingType::Absolute)),
        0xAE => Some((Instruction::Ldx, AddressingType::Absolute)),
        0xB0 => Some((Instruction::Bcs, AddressingType::PcRelative)),
        0xB1 => Some((Instruction::Lda, AddressingType::ZeroPageIndirectYIndexed)),
        0xB2 => Some((Instruction::Lda, AddressingType::ZeroPageIndirect)),
        0xB4 => Some((Instruction::Ldy, AddressingType::ZeroPageXIndexed)),
        0xB5 => Some((Instruction::Lda, AddressingType::ZeroPageXIndexed)),
        0xB6 => Some((Instruction::Ldx, AddressingType::ZeroPageYIndexed)),
        0xB8 => Some((Instruction::Clv, AddressingType::Implied)),
        0xB9 => Some((Instruction::Lda, AddressingType::AbsoluteYIndexed)),
        0xBA => Some((Instruction::Tsx, AddressingType::Implied)),
        0xBC => Some((Instruction::Ldy, AddressingType::AbsoluteXIndexed)),
        0xBD => Some((Instruction::Lda, AddressingType::AbsoluteXIndexed)),
        0xBE => Some((Instruction::Ldx, AddressingType::AbsoluteYIndexed)),
        0xC0 => Some((Instruction::Cpy, AddressingType::Immediate)),
        0xC1 => Some((Instruction::Cmp, AddressingType::ZeroPageXIndexedIndirect)),
        0xC4 => Some((Instruction::Cpy, AddressingType::ZeroPage)),
        0xC5 => Some((Instruction::Cmp, AddressingType::ZeroPage)),
        0xC6 => Some((Instruction::Dec, AddressingType::ZeroPageRMW)),
        0xC8 => Some((Instruction::Iny, AddressingType::Implied)),
        0xC9 => Some((Instruction::Cmp, AddressingType::Immediate)),
        0xCA => Some((Instruction::Dex, AddressingType::Implied)),
        0xCC => Some((Instruction::Cpy, AddressingType::Absolute)),
        0xCD => Some((Instruction::Cmp, AddressingType::Absolute)),
        0xCE => Some((Instruction::Dec, AddressingType::AbsoluteRMW)),
        0xD0 => Some((Instruction::Bne, AddressingType::PcRelative)),
        0xD1 => Some((Instruction::Cmp, AddressingType::ZeroPageIndirectYIndexed)),
        0xD2 => Some((Instruction::Cmp, AddressingType::ZeroPageIndirect)),
        0xD5 => Some((Instruction::Cmp, AddressingType::ZeroPageXIndexed)),
        0xD6 => Some((Instruction::Dec, AddressingType::ZeroPageXIndexedRMW)),
        0xD8 => Some((Instruction::Cld, AddressingType::Implied)),
        0xD9 => Some((Instruction::Cmp, AddressingType::AbsoluteYIndexed)),
        0xDA => Some((Instruction::Phx, AddressingType::StackPush)),
        0xDD => Some((Instruction::Cmp, AddressingType::AbsoluteXIndexed)),
        0xDE => Some((Instruction::Dec, AddressingType::AbsoluteXIndexedRMW)),
        0xE0 => Some((Instruction::Cpx, AddressingType::Immediate)),
        0xE1 => Some((Instruction::Sbc, AddressingType::ZeroPageXIndexedIndirect)),
        0xE4 => Some((Instruction::Cpx, AddressingType::ZeroPage)),
        0xE5 => Some((Instruction::Sbc, AddressingType::ZeroPage)),
        0xE6 => Some((Instruction::Inc, AddressingType::ZeroPageRMW)),
        0xE8 => Some((Instruction::Inx, AddressingType::Implied)),
        0xE9 => Some((Instruction::Sbc, AddressingType::Immediate)),
        0xEA => Some((Instruction::Nop, AddressingType::Implied)),
        0xEC => Some((Instruction::Cpx, AddressingType::Absolute)),
        0xED => Some((Instruction::Sbc, AddressingType::Absolute)),
        0xEE => Some((Instruction::Inc, AddressingType::AbsoluteRMW)),
        0xF0 => Some((Instruction::Beq, AddressingType::PcRelative)),
        0xF1 => Some((Instruction::Sbc, AddressingType::ZeroPageIndirectYIndexed)),
        0xF2 => Some((Instruction::Sbc, AddressingType::ZeroPageIndirect)),
        0xF5 => Some((Instruction::Sbc, AddressingType::ZeroPageXIndexed)),
        0xF6 => Some((Instruction::Inc, AddressingType::ZeroPageXIndexedRMW)),
        0xF8 => Some((Instruction::Sed, AddressingType::Implied)),
        0xF9 => Some((Instruction::Sbc, AddressingType::AbsoluteYIndexed)),
        0xFA => Some((Instruction::Plx, AddressingType::StackPull)),
        0xFD => Some((Instruction::Sbc, AddressingType::AbsoluteXIndexed)),
        0xFE => Some((Instruction::Inc, AddressingType::AbsoluteXIndexedRMW)),
        _ => None,
    }
}

/// What an instruction does on a given sub-cycle.
#[derive(Clone, Copy, Debug, PartialEq, Eq, Structural)]
pub enum Phase {
    /// Read the operand at the effective address into ALU.
    Read,
    /// Compute: update registers, flags or ALU.
    Execute,
    /// Write to the effective address.
    Write,
    /// Nothing.
    Idle,
}

/// The sub-cycle on which a mode has its effective address ready; 0 for the
/// modes without one.
pub open spec fn operand_cycle_spec(mode: AddressingType) -> u8 {
    match mode {
        AddressingType::ZeroPage | AddressingType::ZeroPageRMW => 1,
        AddressingType::Absolute | AddressingType::AbsoluteRMW | AddressingType::AbsoluteXIndexed
        | AddressingType::AbsoluteXIndexedRMW | AddressingType::AbsoluteYIndexed
        | AddressingType::ZeroPageXIndexed | AddressingType::ZeroPageXIndexedRMW
        | AddressingType::ZeroPageYIndexed => 2,
        AddressingType::ZeroPageIndirect | AddressingType::ZeroPageIndirectYIndexed => 3,
        AddressingType::ZeroPageXIndexedIndirect => 4,
        _ => 0,
    }
}

pub fn operand_cycle(mode: AddressingType) -> (r: u8)
    ensures
        r == operand_cycle_spec(mode),
{
    match mode {
        AddressingType::ZeroPage | AddressingType::ZeroPageRMW => 1,
        AddressingType::Absolute | AddressingType::AbsoluteRMW | AddressingType::AbsoluteXIndexed
        | AddressingType::AbsoluteXIndexedRMW | AddressingType::AbsoluteYIndexed
        | AddressingType::ZeroPageXIndexed | AddressingType::ZeroPageXIndexedRMW
        | AddressingType::ZeroPageYIndexed => 2,
        AddressingType::ZeroPageIndirect | AddressingType::ZeroPageIndirectYIndexed => 3,
        AddressingType::ZeroPageXIndexedIndirect => 4,
        _ => 0,
    }
}

/// Instructions that read an operand: read it when its address is ready and
/// use it on the next cycle; in immediate mode the operand is in ALU and is
/// used at cycle 1.
pub open spec fn read_phase_spec(tcu: u8, mode: AddressingType) -> Phase {
    let ready = operand_cycle_spec(mode);
    if mode == AddressingType::Immediate {
        if tcu == 1 {
            Phase::Execute
        } else {
            Phase::Idle
        }
    } else if tcu == ready {
        Phase::Read
    } else if tcu == ready + 1 {
        Phase::Execute
    } else {
        Phase::Idle
    }
}

pub fn read_phase(tcu: u8, mode: AddressingType) -> (r: Phase)
    ensures
        r == read_phase_spec(tcu, mode),
{
    let ready = operand_cycle(mode);
    if mode == AddressingType::Immediate {
        if tcu == 1 {
            Phase::Execute
        } else {
            Phase::Idle
        }
    } else if tcu == ready {
        Phase::Read
    } else if tcu as u16 == ready as u16 + 1 {
        Phase::Execute
    } else {
        Phase::Idle
    }
}

/// Read-modify-write instructions: read, modify, one idle cycle to mirror the
/// bus, write back; in accumulator mode A is modified at cycle 1.
pub open spec fn rmw_phase_spec(tcu: u8, mode: AddressingType) -> Phase {
    let ready = operand_cycle_spec(mode);
    if mode == AddressingType::Accumulator {
        if tcu == 1 {
            Phase::Execute
        } else {
            Phase::Idle
        }
    } else if tcu == ready {
        Phase::Read
    } else if tcu == ready + 1 {
        Phase::Execute
    } else if tcu == ready + 3 {
        Phase::Write
    } else {
        Phase::Idle
    }
}

pub fn rmw_phase(tcu: u8, mode: AddressingType) -> (r: Phase)
    ensures
        r == rmw_phase_spec(tcu, mode),
{
    let ready = operand_cycle(mode) as u16;
    if mode == AddressingType::Accumulator {
        if tcu == 1 {
            Phase::Execute
        } else {
            Phase::Idle
        }
    } else if tcu as u16 == ready {
        Phase::Read
    } else if tcu as u16 == ready + 1 {
        Phase::Execute
    } else if tcu as u16 == ready + 3 {
        Phase::Write
    } else {
        Phase::Idle
    }
}

/// Store instructions write on the cycle the address is ready.
pub open spec fn store_phase_spec(tcu: u8, mode: AddressingType) -> Phase {
    if tcu == operand_cycle_spec(mode) {
        Phase::Write
    } else {
        Phase::Idle
    }
}

pub fn store_phase(tcu: u8, mode: AddressingType) -> (r: Phase)
    ensures
        r == store_phase_spec(tcu, mode),
{
    if tcu == operand_cycle(mode) {
        Phase::Write
    } else {
        Phase::Idle
    }
}

/// ALU takes the byte at the effective address.
pub open spec fn load_operand(s: CpuState, m: Seq<u8>) -> CpuState {
    CpuState { alu: m[s.addressing as int], ..s }
}

/// The value a read-modify-write instruction works on: A in accumulator
/// mode, else the operand in ALU.
pub open spec fn rmw_operand(s: CpuState, mode: AddressingType) -> u8 {
    if mode == AddressingType::Accumulator {
        s.a
    } else {
        s.alu
    }
}

/// Keeps a modified value: in A in accumulator mode, else in ALU for the
/// write cycle.
pub open spec fn rmw_store(s: CpuState, mode: AddressingType, v: u8) -> CpuState {
    if mode == AddressingType::Accumulator {
        CpuState { a: v, ..s }
    } else {
        CpuState { alu: v, ..s }
    }
}

/// Two's-complement overflow of `a + m` giving `r`: both inputs have a sign
/// that differs from the result's.
pub open spec fn overflow(a: u8, m: u8, r: u8) -> bool {
    (a ^ r) & (m ^ r) & 0x80 != 0
}

/// Binary addition of `operand` and C to A: the low byte goes to A, C takes
/// the carry out, V the signed overflow, Z and N describe the result.
pub open spec fn add_with_carry(s: CpuState, operand: u8) -> CpuState {
    let sum = s.a + operand + (if s.ps.c { 1int } else { 0 });
    let r = wrap8(sum);
    CpuState {
        a: r,
        ps: Flags { c: sum > 0xFF, z: r == 0, v: overflow(s.a, operand, r), n: r >= 0x80, ..s.ps },
        ..s
    }
}

/// Compares `register` with the operand in ALU by computing
/// `register + !operand + 1`: C is its carry out (`register >= operand`), Z
/// and N describe its low byte. Nothing is written back.
pub open spec fn compare(s: CpuState, register: u8) -> CpuState {
    let sum = register + (!s.alu) + 1;
    let r = wrap8(sum);
    CpuState { ps: Flags { c: sum > 0xFF, z: r == 0, n: r >= 0x80, ..s.ps }, ..s }
}

/// PC with `offset` added to its low byte only; the high byte is kept.
pub open spec fn branch_target(pc: u16, offset: u8) -> u16 {
    word_of(wrap8(low_byte(pc) + offset), high_byte(pc))
}

/// A branch at cycle 1: when taken, PC moves by the offset read into ALU.
pub open spec fn branch_step(s: CpuState, taken: bool) -> CpuState {
    if s.tcu == 1 && taken {
        CpuState { pc: branch_target(s.pc, s.alu), ..s }
    } else {
        s
    }
}

/// `a + data + carry`, widened to 16 bits.
pub fn add(a_reg: u8, data: u8, carry_status: bool) -> (r: u16)
    ensures
        r == a_reg + data + (if carry_status { 1int } else { 0 }),
{
    a_reg as u16 + data as u16 + if carry_status {
        1
    } else {
        0
    }
}

/// Whether a 16-bit sum carried out of its low byte.
pub fn test_carry(data: u16) -> (r: bool)
    ensures
        r == (data > 0xFF),
{
    let (_, high) = u16_to_le(data);
    high > 0
}

pub fn test_overflow(orig_a_reg: u8, orig_data: u8, result: u8) -> (r: bool)
    ensures
        r == overflow(orig_a_reg, orig_data, result),
{
    (orig_a_reg ^ result) & (orig_data ^ result) & 0x80 != 0
}

/// Adds `offset` to the low byte of `addr`, modulo 256; the high byte is kept.
pub fn offset_word_signed_byte(addr: u16, offset: u8) -> (r: u16)
    ensures
        r == branch_target(addr, offset),
{
    let (low, high) = u16_to_le(addr);
    u16_from_le(low.wrapping_add(offset), high)
}

/// `byte + offset` modulo 256: an offset of 0xFF steps down by one.
pub fn offset_byte_signed_byte(byte: u8, offset: u8) -> (r: u8)
    ensures
        r == wrap8(byte + offset),
{
    byte.wrapping_add(offset)
}

/// The instruction's share of one execute sub-cycle.
pub open spec fn instruction_step(
    s: CpuState,
    m: Seq<u8>,
    instruction: Instruction,
    mode: AddressingType,
) -> (CpuState, Seq<u8>) {
    match instruction {
        Instruction::Adc => (adc_step(s, m, mode), m),
        Instruction::And => (and_step(s, m, mode), m),
        Instruction::Asl => asl_step(s, m, mode),
        Instruction::Bcc => (bcc_step(s), m),
        Instruction::Bcs => (bcs_step(s), m),
        Instruction::Beq => (beq_step(s), m),
        Instruction::Bit => (bit_step(s, m, mode), m),
        Instruction::Bmi => (bmi_step(s), m),
        Instruction::Bne => (bne_step(s), m),
        Instruction::Bpl => (bpl_step(s), m),
        Instruction::Bra => (bra_step(s), m),
        Instruction::Brk => (s, m),
        Instruction::Bvc => (bvc_step(s), m),
        Instruction::Bvs => (bvs_step(s), m),
        Instruction::Clc => (clc_step(s), m),
        Instruction::Cld => (cld_step(s), m),
        Instruction::Cli => (cli_step(s), m),
        Instruction::Clv => (clv_step(s), m),
        Instruction::Cmp => (cmp_step(s, m, mode), m),
        Instruction::Cpx => (cpx_step(s, m, mode), m),
        Instruction::Cpy => (cpy_step(s, m, mode), m),
        Instruction::Dec => dec_step(s, m, mode),
        Instruction::Dex => (dex_step(s), m),
        Instruction::Dey => (dey_step(s), m),
        Instruction::Eor => (eor_step(s, m, mode), m),
        Instruction::Inc => inc_step(s, m, mode),
        Instruction::Inx => (inx_step(s), m),
        Instruction::Iny => (iny_step(s), m),
        Instruction::Jmp => (jmp_step(s, mode), m),
        Instruction::Jsr => jsr_step(s, m),
        Instruction::Lda => (lda_step(s, m, mode), m),
        Instruction::Ldx => (ldx_step(s, m, mode), m),
        Instruction::Ldy => (ldy_step(s, m, mode), m),
        Instruction::Lsr => lsr_step(s, m, mode),
        Instruction::Nop => (s, m),
        Instruction::Ora => (ora_step(s, m, mode), m),
        Instruction::Pha => pha_step(s, m),
        Instruction::Php => php_step(s, m),
        Instruction::Phx => phx_step(s, m),
        Instruction::Phy => phy_step(s, m),
        Instruction::Pla => (pla_step(s, m), m),
        Instruction::Plp => (plp_step(s, m), m),
        Instruction::Plx => (plx_step(s, m), m),
        Instruction::Ply => (ply_step(s, m), m),
        Instruction::Rol => rol_step(s, m, mode),
        Instruction::Ror => ror_step(s, m, mode),
        Instruction::Rti => (s, m),
        Instruction::Rts => (rts_step(s, m), m),
        Instruction::Sbc => (sbc_step(s, m, mode), m),
        Instruction::Sec => (sec_step(s), m),
        Instruction::Sed => (sed_step(s), m),
        Instruction::Sei => (sei_step(s), m),
        Instruction::Sta => (s, sta_step(s, m, mode)),
        Instruction::Stx => (s, stx_step(s, m, mode)),
        Instruction::Sty => (s, sty_step(s, m, mode)),
        Instruction::Stz => (s, stz_step(s, m, mode)),
        Instruction::Tax => (tax_step(s), m),
        Instruction::Tay => (tay_step(s), m),
        Instruction::Trb => trb_step(s, m, mode),
        Instruction::Tsb => tsb_step(s, m, mode),
        Instruction::Tsx => (tsx_step(s), m),
        Instruction::Txa => (txa_step(s), m),
        Instruction::Txs => (txs_step(s), m),
        Instruction::Tya => (tya_step(s), m),
    }
}

/// No instruction touches the instruction register, the sub-cycle counter or
/// the reset latch.
pub proof fn lemma_instruction_step_frame(
    s: CpuState,
    m: Seq<u8>,
    instruction: Instruction,
    mode: AddressingType,
)
    ensures
        instruction_step(s, m, instruction, mode).0.ir == s.ir,
        instruction_step(s, m, instruction, mode).0.tcu == s.tcu,
        instruction_step(s, m, instruction, mode).0.reset == s.reset,
{
    match instruction {
        Instruction::Adc => {
            reveal(adc_step);
        },
        Instruction::And => {
            reveal(and_step);
        },
        Instruction::Asl => {
            reveal(asl_step);
        },
        Instruction::Bcc => {
            reveal(bcc_step);
        },
        Instruction::Bcs => {
            reveal(bcs_step);
        },
        Instruction::Beq => {
            reveal(beq_step);
        },
        Instruction::Bit => {
            reveal(bit_step);
        },
        Instruction::Bmi => {
            reveal(bmi_step);
        },
        Instruction::Bne => {
            reveal(bne_step);
        },
        Instruction::Bpl => {
            reveal(bpl_step);
        },
        Instruction::Bra => {
            reveal(bra_step);
        },
        Instruction::Brk => {},
        Instruction::Bvc => {
            reveal(bvc_step);
        },
        Instruction::Bvs => {
            reveal(bvs_step);
        },
        Instruction::Clc => {
            reveal(clc_step);
        },
        Instruction::Cld => {
            reveal(cld_step);
        },
        Instruction::Cli => {
            reveal(cli_step);
        },
        Instruction::Clv => {
            reveal(clv_step);
        },
        Instruction::Cmp => {
            reveal(cmp_step);
        },
        Instruction::Cpx => {
            reveal(cpx_step);
        },
        Instruction::Cpy => {
            reveal(cpy_step);
        },
        Instruction::Dec => {
            reveal(dec_step);
        },
        Instruction::Dex => {
            reveal(dex_step);
        },
        Instruction::Dey => {
            reveal(dey_step);
        },
        Instruction::Eor => {
            reveal(eor_step);
        },
        Instruction::Inc => {
            reveal(inc_step);
        },
        Instruction::Inx => {
            reveal(inx_step);
        },
        Instruction::Iny => {
            reveal(iny_step);
        },
        Instruction::Jmp => {
            reveal(jmp_step);
        },
        Instruction::Jsr => {
            reveal(jsr_step);
        },
        Instruction::Lda => {
            reveal(lda_step);
        },
        Instruction::Ldx => {
            reveal(ldx_step);
        },
        Instruction::Ldy => {
            reveal(ldy_step);
        },
        Instruction::Lsr => {
            reveal(lsr_step);
        },
        Instruction::Nop => {},
        Instruction::Ora => {
            reveal(ora_step);
        },
        Instruction::Pha => {
            reveal(pha_step);
        },
        Instruction::Php => {
            reveal(php_step);
        },
        Instruction::Phx => {
            reveal(phx_step);
        },
        Instruction::Phy => {
            reveal(phy_step);
        },
        Instruction::Pla => {
            reveal(pla_step);
        },
        Instruction::Plp => {
            reveal(plp_step);
        },
        Instruction::Plx => {
            reveal(plx_step);
        },
        Instruction::Ply => {
            reveal(ply_step);
        },
        Instruction::Rol => {
            reveal(rol_step);
        },
        Instruction::Ror => {
            reveal(ror_step);
        },
        Instruction::Rti => {},
        Instruction::Rts => {
            reveal(rts_step);
        },
        Instruction::Sbc => {
            reveal(sbc_step);
        },
        Instruction::Sec => {
            reveal(sec_step);
        },
        Instruction::Sed => {
            reveal(sed_step);
        },
        Instruction::Sei => {
            reveal(sei_step);
        },
        Instruction::Sta => {
            reveal(sta_step);
        },
        Instruction::Stx => {
            reveal(stx_step);
        },
        Instruction::Sty => {
            reveal(sty_step);
        },
        Instruction::Stz => {
            reveal(stz_step);
        },
        Instruction::Tax => {
            reveal(tax_step);
        },
        Instruction::Tay => {
            reveal(tay_step);
        },
        Instruction::Trb => {
            reveal(trb_step);
        },
        Instruction::Tsb => {
            reveal(tsb_step);
        },
        Instruction::Tsx => {
            reveal(tsx_step);
        },
        Instruction::Txa => {
            reveal(txa_step);
        },
        Instruction::Txs => {
            reveal(txs_step);
        },
        Instruction::Tya => {
            reveal(tya_step);
        },
    }
}

impl Cpu {
    pub(crate) fn load_operand(&mut self, memory: &Memory)
        ensures
            final(self)@ == load_operand(old(self)@, memory@),
    {
        self.alu = memory.read_byte(self.addressing);
    }

    pub(crate) fn rmw_operand(&self, mode: AddressingType) -> (r: u8)
        ensures
            r == rmw_operand(self@, mode),
    {
        if mode == AddressingType::Accumulator {
            self.a
        } else {
            self.alu
        }
    }

    pub(crate) fn rmw_store(&mut self, mode: AddressingType, v: u8)
        ensures
            final(self)@ == rmw_store(old(self)@, mode, v),
    {
        if mode == AddressingType::Accumulator {
            self.a = v;
        } else {
            self.alu = v;
        }
    }

    pub(crate) fn add_with_carry(&mut self, operand: u8)
        ensures
            final(self)@ == add_with_carry(old(self)@, operand),
    {
        let sum: u16 = crate::cpu::instruction_set::add(self.a, operand, self.ps.c);
        let (result, _) = u16_to_le(sum);
        let orig: u8 = self.a;
        self.a = result;
        self.ps.c = test_carry(sum);
        self.ps.z = result == 0;
        self.ps.v = test_overflow(orig, operand, result);
        self.ps.n = result >= 0x80;
    }

    pub(crate) fn compare(&mut self, register: u8)
        ensures
            final(self)@ == compare(old(self)@, register),
    {
        // Two's complement: R - M == R + !M + 1.
        let sum: u16 = crate::cpu::instruction_set::add(register, !self.alu, true);
        let (result, _) = u16_to_le(sum);
        self.ps.c = test_carry(sum);
        self.ps.z = result == 0;
        self.ps.n = result >= 0x80;
    }

    pub(crate) fn branch(&mut self, taken: bool)
        ensures
            final(self)@ == branch_step(old(self)@, taken),
    {
        if self.tcu == 1 && taken {
            self.pc = offset_word_signed_byte(self.pc, self.alu);
        }
    }

    /// Runs the instruction's share of the current sub-cycle.
    pub(crate) fn run_operation(
        &mut self,
        memory: &mut Memory,
        instruction: Instruction,
        mode: AddressingType,
    )
        ensures
            (final(self)@, final(memory)@) == instruction_step(
                old(self)@,
                old(memory)@,
                instruction,
                mode,
            ),
    {
        match instruction {
            Instruction::Adc => self.adc(memory, mode),
            Instruction::And => self.and(memory, mode),
            Instruction::Asl => self.asl(memory, mode),
            Instruction::Bcc => self.bcc(),
            Instruction::Bcs => self.bcs(),
            Instruction::Beq => self.beq(),
            Instruction::Bit => self.bit(memory, mode),
            Instruction::Bmi => self.bmi(),
            Instruction::Bne => self.bne(),
            Instruction::Bpl => self.bpl(),
            Instruction::Bra => self.bra(),
            Instruction::Brk => self.brk(),
            Instruction::Bvc => self.bvc(),
            Instruction::Bvs => self.bvs(),
            Instruction::Clc => self.clc(),
            Instruction::Cld => self.cld(),
            Instruction::Cli => self.cli(),
            Instruction::Clv => self.clv(),
            Instruction::Cmp => self.cmp(memory, mode),
            Instruction::Cpx => self.cpx(memory, mode),
            Instruction::Cpy => self.cpy(memory, mode),
            Instruction::Dec => self.dec(memory, mode),
            Instruction::Dex => self.dex(),
            Instruction::Dey => self.dey(),
            Instruction::Eor => self.eor(memory, mode),
            Instruction::Inc => self.inc(memory, mode),
            Instruction::Inx => self.inx(),
            Instruction::Iny => self.iny(),
            Instruction::Jmp => self.jmp(mode),
            Instruction::Jsr => self.jsr(memory),
            Instruction::Lda => self.lda(memory, mode),
            Instruction::Ldx => self.ldx(memory, mode),
            Instruction::Ldy => self.ldy(memory, mode),
            Instruction::Lsr => self.lsr(memory, mode),
            Instruction::Nop => self.nop(),
            Instruction::Ora => self.ora(memory, mode),
            Instruction::Pha => self.pha(memory),
            Instruction::Php => self.php(memory),
            Instruction::Phx => self.phx(memory),
            Instruction::Phy => self.phy(memory),
            Instruction::Pla => self.pla(memory),
            Instruction::Plp => self.plp(memory),
            Instruction::Plx => self.plx(memory),
            Instruction::Ply => self.ply(memory),
            Instruction::Rol => self.rol(memory, mode),
            Instruction::Ror => self.ror(memory, mode),
            Instruction::Rti => self.rti(),
            Instruction::Rts => self.rts(memory),
            Instruction::Sbc => self.sbc(memory, mode),
            Instruction::Sec => self.sec(),
            Instruction::Sed => self.sed(),
            Instruction::Sei => self.sei(),
            Instruction::Sta => self.sta(memory, mode),
            Instruction::Stx => self.stx(memory, mode),
            Instruction::Sty => self.sty(memory, mode),
            Instruction::Stz => self.stz(memory, mode),
            Instruction::Tax => self.tax(),
            Instruction::Tay => self.tay(),
            Instruction::Trb => self.trb(memory, mode),
            Instruction::Tsb => self.tsb(memory, mode),
            Instruction::Tsx => self.tsx(),
            Instruction::Txa => self.txa(),
            Instruction::Txs => self.txs(),
            Instruction::Tya => self.tya(),
        }
    }
}

} // verus!
