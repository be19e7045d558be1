//! The executable pixel processing unit.

use crate::model::{
    add_clocks, mode_code, phase_budget, reset_state, settle, spec_read, spec_tick, spec_write,
    stat_byte, step_once, Mode, PpuV,
};
use vstd::pervasive::VecAdditionalExecFns;
use vstd::prelude::*;

verus! {

/// The pixel processing unit: the timing state machine, the register file
/// and the gated 8 KiB of video memory. Its abstract state is [`PpuV`];
/// every operation's contract is stated against that view.
#[derive(Debug)]
pub struct PPU {
    vram: Vec<u8>,
    mode: Mode,
    bgp: u8,
    clocks: u32,
    ly: u8,
    lyc: u8,
    stat: u8,
    scy: u8,
    scx: u8,
    control: u8,
}

impl View for PPU {
    type V = PpuV;

    closed spec fn view(&self) -> PpuV {
        PpuV {
            vram: self.vram@,
            mode: self.mode,
            clocks: self.clocks as nat,
            ly: self.ly as nat,
            lyc: self.lyc,
            scy: self.scy,
            scx: self.scx,
            bgp: self.bgp,
            control: self.control,
            stat: self.stat,
        }
    }
}

/// The 2-bit mode code of a phase, as exposed in the STAT register.
fn mode_code_x(m: Mode) -> (r: u8)
    ensures
        r == mode_code(m),
{
    match m {
        Mode::HBlank => 0,
        Mode::VBlank => 1,
        Mode::OamScan => 2,
        Mode::PixelTransfer => 3,
    }
}

/// The dot-clock budget of a phase.
fn phase_budget_x(m: Mode) -> (r: u32)
    ensures
        r == phase_budget(m),
{
    match m {
        Mode::OamScan => 80,
        Mode::PixelTransfer => 172,
        Mode::HBlank => 204,
        Mode::VBlank => 456,
    }
}

impl PPU {
    /// Construct the unit in its reset state: zeroed video memory and
    /// registers, scanline 0, horizontal blank, empty clock accumulator.
    pub fn new() -> (r: PPU)
        ensures
            r@ == reset_state(),
            r@.wf(),
    {
        let mut vram: Vec<u8> = Vec::new();
        let mut i: usize = 0;
        while i < 8192
            invariant
                i <= 8192,
                vram@.len() == i,
                forall|k: int| 0 <= k < i ==> vram@[k] == 0u8,
            decreases 8192 - i,
        {
            vram.push(0u8);
            i = i + 1;
        }
        let r = PPU {
            vram,
            mode: Mode::HBlank,
            bgp: 0,
            clocks: 0,
            ly: 0,
            lyc: 0,
            stat: 0,
            scy: 0,
            scx: 0,
            control: 0,
        };
        proof {
            assert(r@.vram =~= reset_state().vram);
            assert(r@ =~= reset_state());
            assert(0u8 & 0x87u8 == 0u8) by (bit_vector);
        }
        r
    }

    /// Advance simulated time by `tick` dot-clocks. The accumulator grows
    /// by `tick`, then phase transitions are taken in a loop until the
    /// residual is under the current phase's budget, so a single call may
    /// cross any number of phases and scanlines.
    pub fn run(&mut self, tick: u32)
        requires
            old(self)@.wf(),
            old(self)@.clocks + tick <= u32::MAX,
        ensures
            final(self)@.wf(),
            final(self)@ == spec_tick(old(self)@, tick as nat),
    {
        self.clocks = self.clocks + tick;
        proof {
            assert(self@ =~= add_clocks(old(self)@, tick as nat));
        }
        while self.clocks >= phase_budget_x(self.mode)
            invariant
                self@.wf_core(),
                settle(self@) == spec_tick(old(self)@, tick as nat),
            decreases self@.clocks,
        {
            let ghost prev: PpuV = self@;
            match self.mode {
                Mode::OamScan => {
                    self.clocks = self.clocks - 80;
                    self.mode = Mode::PixelTransfer;
                },
                Mode::PixelTransfer => {
                    self.clocks = self.clocks - 172;
                    self.mode = Mode::HBlank;
                },
                Mode::HBlank => {
                    self.clocks = self.clocks - 204;
                    self.ly = self.ly + 1;
                    self.mode = if self.ly >= 144 {
                        Mode::VBlank
                    } else {
                        Mode::OamScan
                    };
                },
                Mode::VBlank => {
                    self.clocks = self.clocks - 456;
                    self.ly = self.ly + 1;
                    if self.ly >= 154 {
                        self.ly = 0;
                        self.mode = Mode::OamScan;
                    }
                },
            }
            proof {
                assert(self@ =~= step_once(prev));
            }
        }
    }

    /// The byte the host observes at `addr`: video memory through the
    /// low 13 bits of any address in 0x8000..=0x9FFF (0xFF while the
    /// renderer owns the bus during pixel transfer), the registers at
    /// 0xFF40..=0xFF47, and 0xFF anywhere unmapped.
    pub fn read_byte(&self, addr: u16) -> (r: u8)
        requires
            self@.wf(),
        ensures
            r == spec_read(self@, addr),
    {
        if 0x8000 <= addr && addr <= 0x9fff {
            if self.mode == Mode::PixelTransfer {
                0xff
            } else {
                proof {
                    assert(addr & 0x1fff < 8192) by (bit_vector);
                }
                let idx: usize = (addr & 0x1fff) as usize;
                self.vram[idx]
            }
        } else if addr == 0xff40 {
            self.control
        } else if addr == 0xff41 {
            self.stat_value()
        } else if addr == 0xff42 {
            self.scy
        } else if addr == 0xff43 {
            self.scx
        } else if addr == 0xff44 {
            self.ly
        } else if addr == 0xff45 {
            self.lyc
        } else if addr == 0xff47 {
            self.bgp
        } else {
            0xff
        }
    }

    /// Perform the host write at `addr`. Video-memory writes are dropped
    /// during pixel transfer. Flipping the LCD-enable bit of the control
    /// register restarts the machine at scanline 0 with an empty
    /// accumulator, in OAM scan when switching on and in horizontal blank
    /// when switching off. Only the interrupt-enable bits of STAT are
    /// writable, the scanline counter is read-only, and writes anywhere
    /// unmapped are silently ignored.
    pub fn write_byte(&mut self, addr: u16, v: u8)
        requires
            old(self)@.wf(),
        ensures
            final(self)@.wf(),
            final(self)@ == spec_write(old(self)@, addr, v),
    {
        if 0x8000 <= addr && addr <= 0x9fff {
            if self.mode != Mode::PixelTransfer {
                proof {
                    assert(addr & 0x1fff < 8192) by (bit_vector);
                }
                let idx: usize = (addr & 0x1fff) as usize;
                self.vram.set(idx, v);
            }
        } else if addr == 0xff40 {
            let was_on: bool = self.control & 0x80 != 0;
            let now_on: bool = v & 0x80 != 0;
            if was_on != now_on {
                self.ly = 0;
                self.clocks = 0;
                self.mode = if now_on {
                    Mode::OamScan
                } else {
                    Mode::HBlank
                };
            }
            self.control = v;
        } else if addr == 0xff41 {
            self.stat = v & 0x78;
        } else if addr == 0xff42 {
            self.scy = v;
        } else if addr == 0xff43 {
            self.scx = v;
        } else if addr == 0xff45 {
            self.lyc = v;
        } else if addr == 0xff47 {
            self.bgp = v;
        }
        proof {
            assert(self@ =~= spec_write(old(self)@, addr, v));
            crate::laws::lemma_write_preserves_wf(old(self)@, addr, v);
        }
    }

    /// Assemble the STAT byte: stored interrupt enables, the live
    /// coincidence flag, and the mode code projected from the phase.
    fn stat_value(&self) -> (r: u8)
        ensures
            r == stat_byte(self@),
    {
        let flag: u8 = if self.ly == self.lyc {
            0x04
        } else {
            0x00
        };
        self.stat | flag | mode_code_x(self.mode)
    }
}

} // verus!
