//! Laws of the engine, proved of the model.

use crate::model::{
    add_clocks, lyc_flag, mode_code, phase_budget, settle, spec_read, spec_tick, spec_write,
    stat_byte, step_once, Mode, PpuV,
};
use vstd::prelude::*;

verus! {

/// In a well-formed state the documented invariants are visible: the
/// scanline counter stays under 154, the vertical-blank phase coincides
/// exactly with scanlines 144..=153, and the low bits of the STAT byte a
/// host reads are the projection of the current phase and the coincidence
/// comparison — never a separate source of truth.
pub proof fn lemma_state_invariants(s: PpuV)
    requires
        s.wf(),
    ensures
        s.ly < 154,
        (s.mode == Mode::VBlank) <==> (s.ly >= 144),
        stat_byte(s) & 0x03 == mode_code(s.mode),
        stat_byte(s) & 0x04 == lyc_flag(s),
{
    let st = s.stat;
    let f = lyc_flag(s);
    let c = mode_code(s.mode);
    assert((st & 0x87 == 0 && (f == 0 || f == 4) && c <= 3) ==> ((st | f | c) & 0x03 == c && (st
        | f | c) & 0x04 == f)) by (bit_vector);
}

/// Settling the clock accumulator touches only the timing fields: video
/// memory and every register other than the scanline counter are exactly
/// what they were.
pub proof fn lemma_settle_preserves_regs(s: PpuV)
    ensures
        settle(s).vram == s.vram,
        settle(s).lyc == s.lyc,
        settle(s).scy == s.scy,
        settle(s).scx == s.scx,
        settle(s).bgp == s.bgp,
        settle(s).control == s.control,
        settle(s).stat == s.stat,
    decreases s.clocks,
{
    if s.clocks >= phase_budget(s.mode) {
        lemma_settle_preserves_regs(step_once(s));
    }
}

/// A host write leaves the state well-formed: the scanline range, the
/// coupling of vertical blank with scanlines 144..=153, the STAT mask
/// and the accumulator bound all survive every write.
pub proof fn lemma_write_preserves_wf(s: PpuV, addr: u16, v: u8)
    requires
        s.wf(),
    ensures
        spec_write(s, addr, v).wf(),
{
    assert((v & 0x78) & 0x87 == 0) by (bit_vector);
    assert(addr & 0x1fff < 8192) by (bit_vector);
}

/// Settling preserves well-formedness of the non-clock state and always
/// leaves the accumulator strictly under the current phase's budget.
pub proof fn lemma_settle_wf(s: PpuV)
    requires
        s.wf_core(),
    ensures
        settle(s).wf(),
    decreases s.clocks,
{
    if s.clocks >= phase_budget(s.mode) {
        lemma_settle_wf(step_once(s));
    }
}

/// Advancing time preserves well-formedness, whatever the delta.
pub proof fn lemma_tick_preserves_wf(s: PpuV, d: nat)
    requires
        s.wf_core(),
    ensures
        spec_tick(s, d).wf(),
{
    lemma_settle_wf(add_clocks(s, d));
}

/// A write followed by any amount of elapsed time and then a read through
/// the same video-memory cell — the two addresses may differ as long as
/// they agree in their low 13 bits — hands the written byte back, provided
/// the renderer does not hold the bus at either end. Elapsed time never
/// touches video memory, so only the modes at the write and at the read
/// matter.
pub proof fn lemma_vram_write_read(s: PpuV, a1: u16, a2: u16, v: u8, d: nat)
    requires
        s.wf(),
        0x8000 <= a1 <= 0x9fff,
        0x8000 <= a2 <= 0x9fff,
        a1 & 0x1fff == a2 & 0x1fff,
        s.mode != Mode::PixelTransfer,
        spec_tick(spec_write(s, a1, v), d).mode != Mode::PixelTransfer,
    ensures
        spec_read(spec_tick(spec_write(s, a1, v), d), a2) == v,
{
    let w = spec_write(s, a1, v);
    assert(a1 & 0x1fff < 8192) by (bit_vector);
    lemma_settle_preserves_regs(add_clocks(w, d));
}

/// Two identical writes have the same effect as one. In particular a
/// control-register write that flips the LCD-enable bit restarts the
/// machine, and repeating it finds the bit already in its new position.
pub proof fn lemma_write_idempotent(s: PpuV, addr: u16, v: u8)
    requires
        s.wf(),
    ensures
        spec_write(spec_write(s, addr, v), addr, v) == spec_write(s, addr, v),
{
    let w = spec_write(s, addr, v);
    if 0x8000 <= addr && addr <= 0x9fff {
        if s.mode != Mode::PixelTransfer {
            assert(addr & 0x1fff < 8192) by (bit_vector);
            let i = (addr & 0x1fff) as int;
            assert(s.vram.update(i, v).update(i, v) =~= s.vram.update(i, v));
            assert(spec_write(w, addr, v) =~= w);
        }
    } else {
        assert(spec_write(w, addr, v) =~= w);
    }
}

/// Settling commutes with accumulating further dot-clocks: time already
/// settled and time still pending drain to the same state.
pub proof fn lemma_settle_additive(s: PpuV, d: nat)
    ensures
        settle(add_clocks(settle(s), d)) == settle(add_clocks(s, d)),
    decreases s.clocks,
{
    if s.clocks >= phase_budget(s.mode) {
        let t = step_once(s);
        assert(step_once(add_clocks(s, d)) =~= add_clocks(t, d));
        assert(settle(add_clocks(s, d)) == settle(step_once(add_clocks(s, d))));
        lemma_settle_additive(t, d);
    }
}

/// Advancing time twice is advancing it once by the sum: a batched driver
/// and a step-by-step driver land in the same state.
pub proof fn lemma_tick_additive(s: PpuV, a: nat, b: nat)
    ensures
        spec_tick(spec_tick(s, a), b) == spec_tick(s, a + b),
{
    lemma_settle_additive(add_clocks(s, a), b);
    assert(add_clocks(add_clocks(s, a), b) =~= add_clocks(s, a + b));
}

/// One visible scanline: from the start of OAM scan with a full line's
/// worth of dot-clocks pending, the machine passes pixel transfer and
/// horizontal blank and reaches the next line's OAM scan.
proof fn lemma_visible_line(s: PpuV)
    requires
        s.mode == Mode::OamScan,
        s.clocks >= 456,
        s.ly + 1 < 144,
    ensures
        settle(s) == settle(
            PpuV { clocks: (s.clocks - 456) as nat, ly: (s.ly + 1) as nat, ..s },
        ),
{
    let s1 = step_once(s);
    let s2 = step_once(s1);
    let s3 = step_once(s2);
    assert(settle(s) == settle(s1));
    assert(settle(s1) == settle(s2));
    assert(settle(s2) == settle(s3));
    assert(s3 =~= (PpuV { clocks: (s.clocks - 456) as nat, ly: (s.ly + 1) as nat, ..s }));
}

/// `n` visible scanlines in a row, 456 dot-clocks each.
proof fn lemma_visible_lines(s: PpuV, n: nat)
    requires
        s.mode == Mode::OamScan,
        s.ly + n <= 143,
        s.clocks >= 456 * n,
    ensures
        settle(s) == settle(
            PpuV { clocks: (s.clocks - 456 * n) as nat, ly: (s.ly + n) as nat, ..s },
        ),
    decreases n,
{
    if n == 0 {
        assert((PpuV { clocks: (s.clocks - 456 * n) as nat, ly: (s.ly + n) as nat, ..s }) =~= s);
    } else {
        lemma_visible_line(s);
        let t = PpuV { clocks: (s.clocks - 456) as nat, ly: (s.ly + 1) as nat, ..s };
        lemma_visible_lines(t, (n - 1) as nat);
        assert((PpuV {
            clocks: (t.clocks - 456 * ((n - 1) as nat)) as nat,
            ly: (t.ly + ((n - 1) as nat)) as nat,
            ..t
        }) =~= (PpuV { clocks: (s.clocks - 456 * n) as nat, ly: (s.ly + n) as nat, ..s }));
    }
}

/// `n` vertical-blank scanlines in a row, 456 dot-clocks each, staying
/// inside the blanking interval.
proof fn lemma_vblank_lines(s: PpuV, n: nat)
    requires
        s.mode == Mode::VBlank,
        144 <= s.ly,
        s.ly + n <= 153,
        s.clocks >= 456 * n,
    ensures
        settle(s) == settle(
            PpuV { clocks: (s.clocks - 456 * n) as nat, ly: (s.ly + n) as nat, ..s },
        ),
    decreases n,
{
    if n == 0 {
        assert((PpuV { clocks: (s.clocks - 456 * n) as nat, ly: (s.ly + n) as nat, ..s }) =~= s);
    } else {
        let t = step_once(s);
        assert(settle(s) == settle(t));
        lemma_vblank_lines(t, (n - 1) as nat);
        assert((PpuV {
            clocks: (t.clocks - 456 * ((n - 1) as nat)) as nat,
            ly: (t.ly + ((n - 1) as nat)) as nat,
            ..t
        }) =~= (PpuV { clocks: (s.clocks - 456 * n) as nat, ly: (s.ly + n) as nat, ..s }));
    }
}

/// The frame period: from the state a freshly enabled LCD starts in —
/// OAM scan of scanline 0 with an empty accumulator — exactly 70224
/// dot-clocks (154 scanlines of 456) bring the machine back to that very
/// state. Together with [`lemma_tick_additive`], the 70224 dot-clocks may
/// be spread over any sequence of calls.
pub proof fn lemma_frame_period(s: PpuV)
    requires
        s.mode == Mode::OamScan,
        s.clocks == 0,
        s.ly == 0,
    ensures
        spec_tick(s, 70224) == s,
{
    let a = add_clocks(s, 70224);
    lemma_visible_lines(a, 143);
    let b = PpuV { clocks: (a.clocks - 456 * 143) as nat, ly: (a.ly + 143) as nat, ..a };
    let b1 = step_once(b);
    let b2 = step_once(b1);
    let b3 = step_once(b2);
    assert(settle(b) == settle(b1));
    assert(settle(b1) == settle(b2));
    assert(settle(b2) == settle(b3));
    lemma_vblank_lines(b3, 9);
    let c = PpuV { clocks: (b3.clocks - 456 * 9) as nat, ly: (b3.ly + 9) as nat, ..b3 };
    assert(settle(b3) == settle(c));
    let c1 = step_once(c);
    assert(settle(c) == settle(c1));
    assert(c1 =~= s);
}

} // verus!
