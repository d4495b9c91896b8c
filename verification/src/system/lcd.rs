//! The mode state machine of the pixel pipeline.
//!
//! A scanline lasts 456 dots: 80 of sprite table scan (mode 2), 172 of pixel
//! transfer (mode 3), and the rest of horizontal blank (mode 0), on entry to
//! which the line is drawn. Scanlines 144 to 153 are the vertical blank
//! (mode 1).

use super::gpu::{Stat, FRAME_LINES, GPU, LINE_DOTS, SCAN_DOTS, SCREEN_LINES, TRANSFER_DOTS};
use super::interrupts::{Interrupt, Interrupts};
use vstd::prelude::*;

verus! {

/// Dots in one frame.
pub const FRAME_DOTS: u32 = 70224;

/// The dot of a frame at which the vertical blank begins.
pub const VBLANK_DOT: u32 = 65664;

/// The mode that goes with a scanline and a dot of it.
pub open spec fn spec_mode_at(line: u8, dot: u32) -> u8 {
    if line >= SCREEN_LINES {
        1
    } else if dot < SCAN_DOTS {
        2
    } else if dot < SCAN_DOTS + TRANSFER_DOTS {
        3
    } else {
        0
    }
}

impl GPU {
    /// Whether the mode is the one that goes with scanline and dot. It is
    /// after every update that moved the dot counter.
    pub open spec fn spec_in_step(self) -> bool {
        self.stat.mode == spec_mode_at(self.current_line, self.scanline_counter)
    }

    /// The dot of the frame that the pipeline stands at.
    pub open spec fn spec_position(self) -> int {
        self.current_line * LINE_DOTS + self.scanline_counter
    }

    /// Whether `dots` more dots end the current scanline.
    pub open spec fn spec_wraps(self, dots: u32) -> bool {
        self.scanline_counter + dots >= LINE_DOTS
    }

    /// The dot counter after `dots` more dots.
    pub open spec fn spec_next_counter(self, dots: u32) -> u32 {
        if self.spec_wraps(dots) {
            (self.scanline_counter + dots - LINE_DOTS) as u32
        } else {
            (self.scanline_counter + dots) as u32
        }
    }

    /// The scanline after `dots` more dots.
    pub open spec fn spec_next_line(self, dots: u32) -> u8 {
        if self.spec_wraps(dots) {
            ((self.current_line + 1) % (FRAME_LINES as int)) as u8
        } else {
            self.current_line
        }
    }

    /// The mode after `dots` more dots.
    pub open spec fn spec_next_mode(self, dots: u32) -> u8 {
        spec_mode_at(self.spec_next_line(dots), self.spec_next_counter(dots))
    }

    /// Whether `dots` more dots bring the pipeline into mode `mode` from
    /// another one.
    pub open spec fn spec_enters(self, dots: u32, mode: u8) -> bool {
        self.spec_next_mode(dots) == mode && self.stat.mode != mode
    }

    /// Whether `dots` more dots raise the LCDStat interrupt by a mode entry:
    /// the mode entered is 0, 1 or 2 and STAT enables its interrupt.
    pub open spec fn spec_stat_hit(self, dots: u32) -> bool {
        ||| self.spec_enters(dots, 0) && self.stat.enable_m0_interrupt
        ||| self.spec_enters(dots, 1) && self.stat.enable_m1_interrupt
        ||| self.spec_enters(dots, 2) && self.stat.enable_m2_interrupt
    }

    /// Whether `dots` more dots raise the LCDStat interrupt by the scanline
    /// comparison: a new scanline begins, it is LYC, and STAT enables it.
    pub open spec fn spec_lyc_hit(self, dots: u32) -> bool {
        self.spec_wraps(dots) && self.stat.enable_ly_interrupt && self.spec_next_line(dots)
            == self.lyc
    }

    /// The pipeline after `dots` more dots, 80 at most. Counter, scanline
    /// and mode move on; on entry to the vertical blank the host is told that
    /// a picture is ready; on entry to a horizontal blank the scanline is
    /// drawn.
    #[verifier::opaque]
    pub open spec fn spec_step(self, dots: u32) -> GPU {
        let moved = GPU {
            scanline_counter: self.spec_next_counter(dots),
            current_line: self.spec_next_line(dots),
            stat: Stat { mode: self.spec_next_mode(dots), ..self.stat },
            vblank: self.vblank || self.spec_enters(dots, 1),
            hblank: self.hblank || self.spec_enters(dots, 0),
            ..self
        };
        if self.spec_enters(dots, 0) {
            moved.spec_draw_scanline()
        } else {
            moved
        }
    }

    /// The interrupt controller after the pipeline has moved on by `dots`
    /// dots: LCDStat for the scanline comparison, VBlank on entry to the
    /// vertical blank, LCDStat for the mode entered.
    #[verifier::opaque]
    pub open spec fn spec_step_requests(self, dots: u32, irq: Interrupt) -> Interrupt {
        irq.spec_request_if(self.spec_lyc_hit(dots), Interrupts::LCDStat).spec_request_if(
            self.spec_enters(dots, 1),
            Interrupts::VBlank,
        ).spec_request_if(self.spec_stat_hit(dots), Interrupts::LCDStat)
    }

    /// The pipeline after `cycles` more dots, taken 80 at a time.
    pub open spec fn spec_run(self, cycles: u32) -> GPU
        decreases cycles,
    {
        if cycles == 0 {
            self
        } else if cycles <= SCAN_DOTS {
            self.spec_step(cycles)
        } else {
            self.spec_step(SCAN_DOTS).spec_run((cycles - SCAN_DOTS) as u32)
        }
    }

    /// The interrupt controller after the pipeline has run for `cycles`
    /// dots.
    pub open spec fn spec_run_requests(self, cycles: u32, irq: Interrupt) -> Interrupt
        decreases cycles,
    {
        if cycles == 0 {
            irq
        } else if cycles <= SCAN_DOTS {
            self.spec_step_requests(cycles, irq)
        } else {
            self.spec_step(SCAN_DOTS).spec_run_requests(
                (cycles - SCAN_DOTS) as u32,
                self.spec_step_requests(SCAN_DOTS, irq),
            )
        }
    }

    /// The pipeline after an update by `cycles` dots. The horizontal blank
    /// mark is cleared first; with the display off nothing else happens.
    pub open spec fn spec_update(self, cycles: u32) -> GPU {
        let cleared = GPU { hblank: false, ..self };
        if self.spec_lcd_on() {
            cleared.spec_run(cycles)
        } else {
            cleared
        }
    }

    /// The interrupt controller after an update by `cycles` dots.
    pub open spec fn spec_update_requests(self, cycles: u32, irq: Interrupt) -> Interrupt {
        let cleared = GPU { hblank: false, ..self };
        if self.spec_lcd_on() {
            cleared.spec_run_requests(cycles, irq)
        } else {
            irq
        }
    }

    /// Moves the pipeline on by `dots` dots, 80 at most.
    pub fn step(&mut self, dots: u32, irq: &mut Interrupt)
        requires
            old(self).inv(),
            old(self).spec_lcd_on(),
            dots <= SCAN_DOTS,
        ensures
            *final(self) == old(self).spec_step(dots),
            *final(irq) == old(self).spec_step_requests(dots, *old(irq)),
            final(self).inv(),
            final(self).lcdc == old(self).lcdc,
            final(self).spec_in_step(),
    {
        proof {
            reveal(GPU::spec_step);
            reveal(GPU::spec_step_requests);
        }
        let before: u8 = self.stat.mode;
        let total: u32 = self.scanline_counter + dots;
        if total >= LINE_DOTS {
            self.scanline_counter = total - LINE_DOTS;
            self.current_line = (self.current_line + 1) % FRAME_LINES;
            if self.stat.enable_ly_interrupt && self.current_line == self.lyc {
                irq.set_interrupt(Interrupts::LCDStat);
            }
        } else {
            self.scanline_counter = total;
        }
        let mode: u8 = if self.current_line >= SCREEN_LINES {
            1
        } else if self.scanline_counter < SCAN_DOTS {
            2
        } else if self.scanline_counter < SCAN_DOTS + TRANSFER_DOTS {
            3
        } else {
            0
        };
        self.stat.mode = mode;
        if mode == before {
            return ;
        }
        if mode == 1 {
            self.vblank = true;
            irq.set_interrupt(Interrupts::VBlank);
            if self.stat.enable_m1_interrupt {
                irq.set_interrupt(Interrupts::LCDStat);
            }
        } else if mode == 2 {
            if self.stat.enable_m2_interrupt {
                irq.set_interrupt(Interrupts::LCDStat);
            }
        } else if mode == 0 {
            self.hblank = true;
            if self.stat.enable_m0_interrupt {
                irq.set_interrupt(Interrupts::LCDStat);
            }
            self.draw_scanline();
        }
    }

    /// Moves the pipeline on by `cycles` dots and requests the interrupts
    /// that fall due on the way.
    pub fn update_graphics(&mut self, cycles: u32, irq: &mut Interrupt)
        requires
            old(self).inv(),
        ensures
            *final(self) == old(self).spec_update(cycles),
            *final(irq) == old(self).spec_update_requests(cycles, *old(irq)),
            final(self).inv(),
            final(self).lcdc == old(self).lcdc,
            old(self).spec_lcd_on() && cycles > 0 ==> final(self).spec_in_step(),
    {
        self.hblank = false;
        if !self.lcdc.bit7() {
            return ;
        }
        let ghost start = *self;
        let ghost start_irq = *irq;
        let mut left: u32 = cycles;
        while left > 0
            invariant
                self.inv(),
                self.spec_lcd_on(),
                self.lcdc == old(self).lcdc,
                left < cycles ==> self.spec_in_step(),
                left <= cycles,
                start.spec_run(cycles) == self.spec_run(left),
                start.spec_run_requests(cycles, start_irq) == self.spec_run_requests(left, *irq),
            decreases left,
        {
            let dots: u32 = if left <= SCAN_DOTS {
                left
            } else {
                SCAN_DOTS
            };
            let ghost prev = *self;
            let ghost prev_irq = *irq;
            assert(prev.spec_run(left) == prev.spec_step(dots).spec_run((left - dots) as u32));
            assert(prev.spec_run_requests(left, prev_irq) == prev.spec_step(dots).spec_run_requests(
                (left - dots) as u32,
                prev.spec_step_requests(dots, prev_irq),
            ));
            self.step(dots, irq);
            left = left - dots;
        }
    }
}

impl GPU {
    /// The number of times that the pipeline enters the vertical blank, and
    /// with it requests the VBlank interrupt, while it runs for `cycles`
    /// dots.
    pub open spec fn spec_vblank_count(self, cycles: u32) -> nat
        decreases cycles,
    {
        if cycles == 0 {
            0
        } else if cycles <= SCAN_DOTS {
            if self.spec_enters(cycles, 1) {
                1
            } else {
                0
            }
        } else {
            (if self.spec_enters(SCAN_DOTS, 1) {
                1nat
            } else {
                0nat
            }) + self.spec_step(SCAN_DOTS).spec_vblank_count((cycles - SCAN_DOTS) as u32)
        }
    }
}

/// The number of times that the dot at which the vertical blank begins is
/// reached on the way from dot `position` of a frame over `dots` dots more.
pub open spec fn spec_crossings(position: int, dots: int) -> int {
    (position + dots - VBLANK_DOT) / (FRAME_DOTS as int) - (position - VBLANK_DOT) / (
    FRAME_DOTS as int)
}

/// One step of at most 80 dots keeps the pipeline in order, moves it on by
/// that many dots round the frame, and enters the vertical blank exactly
/// when it reaches the dot at which the vertical blank begins.
pub proof fn lemma_step_moves(gpu: GPU, dots: u32)
    requires
        gpu.inv(),
        gpu.spec_lcd_on(),
        dots <= SCAN_DOTS,
    ensures
        gpu.spec_step(dots).inv(),
        gpu.spec_step(dots).spec_lcd_on(),
        gpu.spec_step(dots).spec_in_step(),
        gpu.spec_step(dots).spec_position() == (gpu.spec_position() + dots) % (FRAME_DOTS as int),
        (if gpu.spec_enters(dots, 1) {
            1int
        } else {
            0int
        }) == spec_crossings(gpu.spec_position(), dots as int),
{
    reveal(GPU::spec_step);
    let moved = GPU {
        scanline_counter: gpu.spec_next_counter(dots),
        current_line: gpu.spec_next_line(dots),
        stat: Stat { mode: gpu.spec_next_mode(dots), ..gpu.stat },
        vblank: gpu.vblank || gpu.spec_enters(dots, 1),
        hblank: gpu.hblank || gpu.spec_enters(dots, 0),
        ..gpu
    };
    super::render::lemma_draw_scanline_keeps_registers(moved);
    let p = gpu.spec_position();
    assert(0 <= p < FRAME_DOTS);
    if gpu.spec_wraps(dots) {
        if gpu.current_line == 153 {
            assert(p + dots >= FRAME_DOTS);
            assert(gpu.spec_step(dots).spec_position() == p + dots - FRAME_DOTS);
        } else {
            assert(gpu.spec_step(dots).spec_position() == p + dots);
        }
    } else {
        assert(gpu.spec_step(dots).spec_position() == p + dots);
    }
}

/// While the display is on, the pipeline enters the vertical blank as often
/// as it reaches the dot at which the vertical blank begins, and ends up as
/// many dots further round the frame as it was run for.
pub proof fn lemma_vblank_count(gpu: GPU, cycles: u32)
    requires
        gpu.inv(),
        gpu.spec_lcd_on(),
    ensures
        gpu.spec_vblank_count(cycles) == spec_crossings(gpu.spec_position(), cycles as int),
        gpu.spec_run(cycles).inv(),
        gpu.spec_run(cycles).spec_lcd_on(),
        gpu.spec_run(cycles).spec_position() == (gpu.spec_position() + cycles) % (
        FRAME_DOTS as int),
    decreases cycles,
{
    let p = gpu.spec_position();
    assert(0 <= p < FRAME_DOTS);
    if cycles == 0 {
    } else if cycles <= SCAN_DOTS {
        lemma_step_moves(gpu, cycles);
    } else {
        lemma_step_moves(gpu, SCAN_DOTS);
        let next = gpu.spec_step(SCAN_DOTS);
        let rest = (cycles - SCAN_DOTS) as u32;
        lemma_vblank_count(next, rest);
        let q = next.spec_position();
        assert(q == (p + 80) % (FRAME_DOTS as int));
        if p + 80 >= FRAME_DOTS {
            assert(q == p + 80 - FRAME_DOTS);
        } else {
            assert(q == p + 80);
        }
    }
}

/// While the display is on, the VBlank interrupt is requested exactly once
/// in any run of 70224 dots, which is 154 scanlines, and such a run brings
/// the pipeline back to the scanline and dot that it started from.
pub proof fn lemma_vblank_once_per_frame(gpu: GPU)
    requires
        gpu.inv(),
        gpu.spec_lcd_on(),
    ensures
        gpu.spec_vblank_count(FRAME_DOTS) == 1,
        gpu.spec_run(FRAME_DOTS).current_line == gpu.current_line,
        gpu.spec_run(FRAME_DOTS).scanline_counter == gpu.scanline_counter,
{
    lemma_vblank_count(gpu, FRAME_DOTS);
    let after = gpu.spec_run(FRAME_DOTS);
    assert(after.spec_position() == gpu.spec_position());
}

/// The pipeline stays in order through any update: the scanline is one of
/// the 154 of a frame and the mode one of four, and with the display off
/// both are zero.
pub proof fn lemma_update_keeps_order(gpu: GPU, cycles: u32)
    requires
        gpu.inv(),
    ensures
        gpu.spec_update(cycles).inv(),
        gpu.spec_update(cycles).current_line <= 153,
        gpu.spec_update(cycles).stat.mode <= 3,
        !gpu.spec_update(cycles).spec_lcd_on() ==> gpu.spec_update(cycles).current_line == 0
            && gpu.spec_update(cycles).stat.mode == 0,
{
    let cleared = GPU { hblank: false, ..gpu };
    if gpu.spec_lcd_on() {
        lemma_vblank_count(cleared, cycles);
    }
}

} // verus!
