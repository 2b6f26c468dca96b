use vstd::prelude::*;

use crate::cpu::addressing_types::{absolute_step, clock_count};
use crate::cpu::instructions::adc::adc_result;
use crate::cpu::instructions::and::and_result;
use crate::cpu::instructions::cmp::cmp_result;
use crate::cpu::instructions::cpx::cpx_result;
use crate::cpu::instructions::cpy::cpy_result;
use crate::cpu::instructions::eor::eor_result;
use crate::cpu::instructions::jsr::jsr_step;
use crate::cpu::instructions::ora::ora_result;
use crate::cpu::instructions::pha::pha_step;
use crate::cpu::instructions::php::php_step;
use crate::cpu::instructions::phx::phx_step;
use crate::cpu::instructions::phy::phy_step;
use crate::cpu::instructions::pla::pla_step;
use crate::cpu::instructions::plp::plp_step;
use crate::cpu::instructions::plx::plx_step;
use crate::cpu::instructions::ply::ply_step;
use crate::cpu::instructions::rts::rts_step;
use crate::cpu::instructions::sbc::sbc_result;
use crate::cpu::instructions::tax::tax_step;
use crate::cpu::instructions::tay::tay_step;
use crate::cpu::instructions::tsx::tsx_step;
use crate::cpu::instructions::txa::txa_step;
use crate::cpu::instructions::txs::txs_step;
use crate::cpu::instructions::tya::tya_step;
use crate::cpu::{
    decodes, fetch, lemma_tick_counts, mode_of, pack, pull, push, run, tick, unpack, CpuState,
    Flags, STACK_PAGE,
};
use crate::memory::{wrap16, wrap8};

verus! {

/// Once an implemented opcode is fetched, each of the next
/// `clock_count - 1` ticks counts one sub-cycle and keeps the opcode.
pub proof fn lemma_executes_between_fetches(s: CpuState, m: Seq<u8>, k: nat)
    requires
        !s.reset,
        decodes(s.ir),
        s.tcu == 0,
        k < clock_count(mode_of(s.ir)),
    ensures
        run(s, m, k).0.tcu == k,
        run(s, m, k).0.ir == s.ir,
        !run(s, m, k).0.reset,
    decreases k,
{
    if k > 0 {
        lemma_executes_between_fetches(s, m, (k - 1) as nat);
        let (p, mp) = run(s, m, (k - 1) as nat);
        lemma_tick_counts(p, mp);
    }
}

/// Fetches come exactly `clock_count(mode)` ticks apart: after a fetch of an
/// implemented opcode, ticks 1 to `clock_count - 1` execute it (none of them
/// fetches, since each leaves a non-zero sub-cycle count) and tick
/// `clock_count` fetches the next opcode.
pub proof fn lemma_fetch_period(s: CpuState, m: Seq<u8>)
    requires
        !s.reset,
        decodes(s.ir),
        s.tcu == 0,
    ensures
        forall|k: nat|
            1 <= k < clock_count(mode_of(s.ir)) ==> #[trigger] run(s, m, k).0.tcu == k
                && run(s, m, k).0.ir == s.ir,
        ({
            let n = clock_count(mode_of(s.ir)) as nat;
            let (p, mp) = run(s, m, (n - 1) as nat);
            run(s, m, n) == (fetch(p, mp), mp)
        }),
{
    assert forall|k: nat| 1 <= k < clock_count(mode_of(s.ir)) implies #[trigger] run(
        s,
        m,
        k,
    ).0.tcu == k && run(s, m, k).0.ir == s.ir by {
        lemma_executes_between_fetches(s, m, k);
    }
    let n = clock_count(mode_of(s.ir)) as nat;
    lemma_executes_between_fetches(s, m, (n - 1) as nat);
    reveal(tick);
}

/// The packed status byte always has the reserved bit 5 set, whatever the
/// flags: so does every status byte that PHP or BRK pushes and that
/// `get_processor_status` returns.
pub proof fn lemma_reserved_bit_set(f: Flags)
    ensures
        (pack(f) / 32) % 2 == 1,
{
}

/// Stack pointer arithmetic wraps modulo 256 within page 1: a push writes at
/// `0x0100 + SP` and leaves `SP - 1 mod 256`; a pull leaves `SP + 1 mod 256`
/// and reads at `0x0100` plus the new SP.
pub proof fn lemma_stack_pointer_wraps(s: CpuState, m: Seq<u8>, v: u8)
    ensures
        push(s, m, v).0.sp == (s.sp + 255) % 256,
        push(s, m, v).1 == m.update(STACK_PAGE + s.sp, v),
        pull(s, m).0.sp == (s.sp + 1) % 256,
        pull(s, m).1 == m[STACK_PAGE + (s.sp + 1) % 256],
        s.sp == 0 ==> push(s, m, v).0.sp == 0xFF,
        s.sp == 0xFF ==> pull(s, m).0.sp == 0,
{
}

/// The status bits that an arithmetic, logic or compare instruction writes
/// depend only on its inputs (A or the compared register, the operand and
/// the carry in): two states that agree on those get the same bits,
/// whatever N and V held before.
pub proof fn lemma_alu_flags_pure(s1: CpuState, s2: CpuState)
    requires
        s1.a == s2.a,
        s1.x == s2.x,
        s1.y == s2.y,
        s1.alu == s2.alu,
        s1.ps.c == s2.ps.c,
    ensures
        adc_result(s1).ps.c == adc_result(s2).ps.c && adc_result(s1).ps.z == adc_result(s2).ps.z
            && adc_result(s1).ps.v == adc_result(s2).ps.v && adc_result(s1).ps.n == adc_result(
            s2,
        ).ps.n && adc_result(s1).a == adc_result(s2).a,
        sbc_result(s1).ps.c == sbc_result(s2).ps.c && sbc_result(s1).ps.z == sbc_result(s2).ps.z
            && sbc_result(s1).ps.v == sbc_result(s2).ps.v && sbc_result(s1).ps.n == sbc_result(
            s2,
        ).ps.n && sbc_result(s1).a == sbc_result(s2).a,
        cmp_result(s1).ps.c == cmp_result(s2).ps.c && cmp_result(s1).ps.z == cmp_result(s2).ps.z
            && cmp_result(s1).ps.n == cmp_result(s2).ps.n,
        cpx_result(s1).ps.c == cpx_result(s2).ps.c && cpx_result(s1).ps.z == cpx_result(s2).ps.z
            && cpx_result(s1).ps.n == cpx_result(s2).ps.n,
        cpy_result(s1).ps.c == cpy_result(s2).ps.c && cpy_result(s1).ps.z == cpy_result(s2).ps.z
            && cpy_result(s1).ps.n == cpy_result(s2).ps.n,
        and_result(s1).ps.z == and_result(s2).ps.z && and_result(s1).ps.n == and_result(s2).ps.n,
        ora_result(s1).ps.z == ora_result(s2).ps.z && ora_result(s1).ps.n == ora_result(s2).ps.n,
        eor_result(s1).ps.z == eor_result(s2).ps.z && eor_result(s1).ps.n == eor_result(s2).ps.n,
{
}

/// Transferring a register and transferring it back is the identity on the
/// transferred value: TAX/TXA, TAY/TYA and TSX/TXS, in either order.
pub proof fn lemma_transfer_round_trip(s: CpuState)
    requires
        s.tcu == 1,
    ensures
        txa_step(tax_step(s)).a == s.a,
        tya_step(tay_step(s)).a == s.a,
        tax_step(txa_step(s)).x == s.x,
        tay_step(tya_step(s)).y == s.y,
        txs_step(tsx_step(s)).sp == s.sp,
        tsx_step(txs_step(s)).x == s.x,
{
    reveal(tax_step);
    reveal(txa_step);
    reveal(tay_step);
    reveal(tya_step);
    reveal(tsx_step);
    reveal(txs_step);
}

/// PHA/PLA, PHX/PLX, PHY/PLY and PHP/PLP: a pull right after a push restores
/// the pushed byte, and the stack pointer.
pub proof fn lemma_push_pull_round_trip(s: CpuState, m: Seq<u8>)
    requires
        s.tcu == 1,
        m.len() == 0x10000,
    ensures
        pla_step(pha_step(s, m).0, pha_step(s, m).1).a == s.a,
        pla_step(pha_step(s, m).0, pha_step(s, m).1).sp == s.sp,
        plx_step(phx_step(s, m).0, phx_step(s, m).1).x == s.x,
        plx_step(phx_step(s, m).0, phx_step(s, m).1).sp == s.sp,
        ply_step(phy_step(s, m).0, phy_step(s, m).1).y == s.y,
        ply_step(phy_step(s, m).0, phy_step(s, m).1).sp == s.sp,
        plp_step(php_step(s, m).0, php_step(s, m).1).ps == s.ps,
        plp_step(php_step(s, m).0, php_step(s, m).1).sp == s.sp,
{
    reveal(pha_step);
    reveal(pla_step);
    reveal(phx_step);
    reveal(plx_step);
    reveal(phy_step);
    reveal(ply_step);
    reveal(php_step);
    reveal(plp_step);
    lemma_unpack_pack(s.ps);
}

/// One execute tick of JSR: absolute addressing, then the JSR sub-cycle.
proof fn lemma_jsr_tick(p: CpuState, mp: Seq<u8>)
    requires
        !p.reset,
        p.ir == 0x20,
        p.tcu < 5,
    ensures
        tick(p, mp) == jsr_step(
            absolute_step(CpuState { tcu: (p.tcu + 1) as u8, ..p }, mp, 0),
            mp,
        ),
{
    reveal(tick);
}

/// One execute tick of RTS: no addressing work, then the RTS sub-cycle.
proof fn lemma_rts_tick(p: CpuState, mp: Seq<u8>)
    requires
        !p.reset,
        p.ir == 0x60,
        p.tcu < 5,
    ensures
        tick(p, mp) == (rts_step(CpuState { tcu: (p.tcu + 1) as u8, ..p }, mp), mp),
{
    reveal(tick);
}

/// JSR followed by RTS returns to the instruction after the three-byte JSR.
/// `s` has just fetched a JSR (so PC is the JSR's address plus one); after
/// its five execute ticks, SP is two lower. `r` has just fetched an RTS, with
/// SP back where the JSR left it and the two bytes the JSR pushed still on
/// the stack; five ticks later PC is the JSR's address plus three.
pub proof fn lemma_jsr_rts_round_trip(s: CpuState, m: Seq<u8>, r: CpuState, mr: Seq<u8>)
    requires
        !s.reset,
        s.ir == 0x20,
        s.tcu == 0,
        m.len() == 0x10000,
        !r.reset,
        r.ir == 0x60,
        r.tcu == 0,
        mr.len() == 0x10000,
        r.sp == run(s, m, 5).0.sp,
        mr[STACK_PAGE + wrap8(r.sp + 1)] == run(s, m, 5).1[STACK_PAGE + wrap8(r.sp + 1)],
        mr[STACK_PAGE + wrap8(r.sp + 2)] == run(s, m, 5).1[STACK_PAGE + wrap8(r.sp + 2)],
    ensures
        run(s, m, 5).0.sp == wrap8(s.sp - 2),
        run(r, mr, 5).0.pc == wrap16(s.pc + 2),
{
    reveal(jsr_step);
    reveal(rts_step);
    let ret = wrap16(s.pc + 1);
    assert(run(s, m, 0) == (s, m));
    let (s1, m1) = run(s, m, 1);
    assert(run(s, m, 1) == tick(s, m));
    lemma_jsr_tick(s, m);
    assert(s1.tcu == 1 && s1.pc == wrap16(s.pc + 1) && m1 == m && s1.sp == s.sp);
    let (s2, m2) = run(s, m, 2);
    assert(run(s, m, 2) == tick(s1, m1));
    lemma_jsr_tick(s1, m1);
    assert(s2.tcu == 2 && s2.pc == wrap16(s.pc + 2) && s2.sp == wrap8(s.sp - 1));
    assert(m2 == m.update(STACK_PAGE + s.sp, (ret / 256) as u8));
    let (s3, m3) = run(s, m, 3);
    assert(run(s, m, 3) == tick(s2, m2));
    lemma_jsr_tick(s2, m2);
    assert(s3.tcu == 3 && s3.sp == wrap8(s.sp - 2));
    assert(m3 == m2.update(STACK_PAGE + s2.sp, (ret % 256) as u8));
    let (s4, m4) = run(s, m, 4);
    assert(run(s, m, 4) == tick(s3, m3));
    lemma_jsr_tick(s3, m3);
    assert(s4.tcu == 4 && s4.sp == s3.sp && m4 == m3);
    let (s5, m5) = run(s, m, 5);
    assert(run(s, m, 5) == tick(s4, m4));
    lemma_jsr_tick(s4, m4);
    assert(s5.sp == s3.sp && m5 == m3);
    assert(wrap8(r.sp + 1) == s2.sp);
    assert(wrap8(r.sp + 2) == s.sp);
    assert(mr[STACK_PAGE + wrap8(r.sp + 1)] == (ret % 256) as u8);
    assert(mr[STACK_PAGE + wrap8(r.sp + 2)] == (ret / 256) as u8);
    assert(run(r, mr, 0) == (r, mr));
    let (r1, n1) = run(r, mr, 1);
    assert(run(r, mr, 1) == tick(r, mr));
    lemma_rts_tick(r, mr);
    assert(r1.pc == ret % 256 && r1.tcu == 1 && n1 == mr && r1.sp == wrap8(r.sp + 1));
    let (r2, n2) = run(r, mr, 2);
    assert(run(r, mr, 2) == tick(r1, n1));
    lemma_rts_tick(r1, n1);
    assert(r2.pc == ret && r2.tcu == 2);
    let (r3, n3) = run(r, mr, 3);
    assert(run(r, mr, 3) == tick(r2, n2));
    lemma_rts_tick(r2, n2);
    assert(r3.pc == wrap16(ret + 1) && r3.tcu == 3);
    let (r4, n4) = run(r, mr, 4);
    assert(run(r, mr, 4) == tick(r3, n3));
    lemma_rts_tick(r3, n3);
    assert(r4.pc == r3.pc && r4.tcu == 4);
    assert(run(r, mr, 5) == tick(r4, n4));
    lemma_rts_tick(r4, n4);
}

/// Unpacking a packed status byte gives the flags back.
pub proof fn lemma_unpack_pack(f: Flags)
    ensures
        unpack(pack(f)) == f,
{
}

} // verus!
