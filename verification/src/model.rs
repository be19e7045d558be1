//! Mathematical model of the pixel processing unit.
//!
//! The ghost state [`PpuV`] abstracts the engine: video memory as a sequence
//! of bytes, the current display phase, the dot-clock accumulator, the
//! scanline counter and the memory-mapped registers. The timing state machine
//! is given by [`step_once`] (one phase transition) and [`settle`] (drain the
//! accumulator until it is under the current phase's budget); host reads and
//! writes are given by [`spec_read`] and [`spec_write`].

use vstd::prelude::*;

verus! {

/// The four display phases of a scanline.
///
/// A visible scanline passes through `OamScan` (sprite selection),
/// `PixelTransfer` (the renderer owns the video bus) and `HBlank`
/// (horizontal retrace); the ten scanlines 144..=153 form `VBlank`.
#[derive(Clone, Copy, Debug, PartialEq, Eq, Structural)]
pub enum Mode {
    HBlank,
    VBlank,
    OamScan,
    PixelTransfer,
}

/// Abstract state of the pixel processing unit.
#[verifier::ext_equal]
pub ghost struct PpuV {
    /// Video memory, always 8192 bytes.
    pub vram: Seq<u8>,
    /// Current display phase.
    pub mode: Mode,
    /// Dot-clocks accumulated within the current phase.
    pub clocks: nat,
    /// Scanline counter, 0..=153.
    pub ly: nat,
    /// Scanline compare register.
    pub lyc: u8,
    /// Background scroll offsets.
    pub scy: u8,
    pub scx: u8,
    /// Background palette.
    pub bgp: u8,
    /// LCD control register.
    pub control: u8,
    /// STAT interrupt-enable bits (bits 3..=6); the mode code and the
    /// match flag are projections of `mode`, `ly` and `lyc`, assembled
    /// on read by [`stat_byte`].
    pub stat: u8,
}

/// Dot-clock budget of each phase. A visible scanline totals
/// 80 + 172 + 204 = 456; a vertical-blank line takes 456 whole.
pub open spec fn phase_budget(m: Mode) -> nat {
    match m {
        Mode::OamScan => 80,
        Mode::PixelTransfer => 172,
        Mode::HBlank => 204,
        Mode::VBlank => 456,
    }
}

/// The 2-bit mode code exposed in the low bits of the STAT register.
pub open spec fn mode_code(m: Mode) -> u8 {
    match m {
        Mode::HBlank => 0,
        Mode::VBlank => 1,
        Mode::OamScan => 2,
        Mode::PixelTransfer => 3,
    }
}

/// The coincidence flag (STAT bit 2): set exactly when `ly == lyc`.
pub open spec fn lyc_flag(s: PpuV) -> u8 {
    if s.ly == s.lyc as nat {
        0x04
    } else {
        0x00
    }
}

/// The byte a host read of the STAT register observes: the stored
/// interrupt-enable bits, the coincidence flag, and the mode code.
pub open spec fn stat_byte(s: PpuV) -> u8 {
    s.stat | lyc_flag(s) | mode_code(s.mode)
}

impl PpuV {
    /// Well-formedness of everything but the clock accumulator: video
    /// memory has its fixed size, the scanline counter is in range, the
    /// vertical-blank phase coincides with scanlines 144..=153, and the
    /// stored STAT bits are only the interrupt enables.
    pub open spec fn wf_core(self) -> bool {
        &&& self.vram.len() == 8192
        &&& self.ly < 154
        &&& (self.mode == Mode::VBlank <==> self.ly >= 144)
        &&& self.stat & 0x87 == 0
    }

    /// Full well-formedness: between host calls the accumulator is
    /// strictly under the current phase's budget.
    pub open spec fn wf(self) -> bool {
        &&& self.wf_core()
        &&& self.clocks < phase_budget(self.mode)
    }
}

/// One phase transition, meaningful when `s.clocks` covers the current
/// phase's budget: the budget is consumed and the successor phase entered.
/// The scanline counter advances at the end of `HBlank` and of each
/// vertical-blank line, and the decision that depends on it is taken on
/// the incremented value.
pub open spec fn step_once(s: PpuV) -> PpuV {
    match s.mode {
        Mode::OamScan => PpuV {
            mode: Mode::PixelTransfer,
            clocks: (s.clocks - 80) as nat,
            ..s
        },
        Mode::PixelTransfer => PpuV {
            mode: Mode::HBlank,
            clocks: (s.clocks - 172) as nat,
            ..s
        },
        Mode::HBlank => PpuV {
            mode: if s.ly + 1 >= 144 {
                Mode::VBlank
            } else {
                Mode::OamScan
            },
            clocks: (s.clocks - 204) as nat,
            ly: (s.ly + 1) as nat,
            ..s
        },
        Mode::VBlank => {
            if s.ly + 1 >= 154 {
                PpuV { mode: Mode::OamScan, clocks: (s.clocks - 456) as nat, ly: 0, ..s }
            } else {
                PpuV { mode: Mode::VBlank, clocks: (s.clocks - 456) as nat, ly: (s.ly + 1) as nat, ..s }
            }
        },
    }
}

/// Drain the accumulator: take phase transitions until the residual is
/// strictly under the current phase's budget.
pub open spec fn settle(s: PpuV) -> PpuV
    decreases s.clocks,
{
    if s.clocks < phase_budget(s.mode) {
        s
    } else {
        settle(step_once(s))
    }
}

/// The state with `d` more dot-clocks accumulated.
pub open spec fn add_clocks(s: PpuV, d: nat) -> PpuV {
    PpuV { clocks: (s.clocks + d) as nat, ..s }
}

/// Advancing simulated time by `delta` dot-clocks: accumulate, then settle.
pub open spec fn spec_tick(s: PpuV, delta: nat) -> PpuV {
    settle(add_clocks(s, delta))
}

/// What a host read returns, by address. Addresses 0x8000..=0x9FFF reach
/// video memory through the low 13 bits, but yield 0xFF while the renderer
/// owns the bus during pixel transfer. The registers live at 0xFF40..=0xFF47;
/// every unmapped address reads as 0xFF.
pub open spec fn spec_read(s: PpuV, addr: u16) -> u8 {
    if 0x8000 <= addr && addr <= 0x9fff {
        if s.mode == Mode::PixelTransfer {
            0xff
        } else {
            s.vram[(addr & 0x1fff) as int]
        }
    } else if addr == 0xff40 {
        s.control
    } else if addr == 0xff41 {
        stat_byte(s)
    } else if addr == 0xff42 {
        s.scy
    } else if addr == 0xff43 {
        s.scx
    } else if addr == 0xff44 {
        s.ly as u8
    } else if addr == 0xff45 {
        s.lyc
    } else if addr == 0xff47 {
        s.bgp
    } else {
        0xff
    }
}

/// What a host write does, by address. Video-memory writes are dropped
/// during pixel transfer. A write to the control register that flips the
/// LCD-enable bit restarts the machine: scanline 0, empty accumulator,
/// `OamScan` when switching on and `HBlank` when switching off. Only the
/// interrupt-enable bits of STAT are writable; the scanline counter is
/// read-only; writes to unmapped addresses are ignored.
pub open spec fn spec_write(s: PpuV, addr: u16, v: u8) -> PpuV {
    if 0x8000 <= addr && addr <= 0x9fff {
        if s.mode == Mode::PixelTransfer {
            s
        } else {
            PpuV { vram: s.vram.update((addr & 0x1fff) as int, v), ..s }
        }
    } else if addr == 0xff40 {
        let on_after = v & 0x80 != 0;
        if (s.control & 0x80 != 0) != on_after {
            PpuV {
                control: v,
                ly: 0,
                clocks: 0,
                mode: if on_after {
                    Mode::OamScan
                } else {
                    Mode::HBlank
                },
                ..s
            }
        } else {
            PpuV { control: v, ..s }
        }
    } else if addr == 0xff41 {
        PpuV { stat: v & 0x78, ..s }
    } else if addr == 0xff42 {
        PpuV { scy: v, ..s }
    } else if addr == 0xff43 {
        PpuV { scx: v, ..s }
    } else if addr == 0xff45 {
        PpuV { lyc: v, ..s }
    } else if addr == 0xff47 {
        PpuV { bgp: v, ..s }
    } else {
        s
    }
}

/// The state a freshly constructed unit is in: zeroed video memory and
/// registers, scanline 0, `HBlank`, empty accumulator.
pub open spec fn reset_state() -> PpuV {
    PpuV {
        vram: Seq::new(8192, |i: int| 0u8),
        mode: Mode::HBlank,
        clocks: 0,
        ly: 0,
        lyc: 0,
        scy: 0,
        scx: 0,
        bgp: 0,
        control: 0,
        stat: 0,
    }
}

} // verus!
