//! The timer unit: a free-running 16-bit sysclock (DIV is its upper 8 bits)
//! and the configurable TIMA counter. TIMA increments exactly on falling
//! edges of the signal `TAC-enable AND selected-sysclock-bit`, so resetting
//! DIV or rewriting TAC can itself step TIMA: the edge detector runs after
//! every state change, not only on sysclock increments.
use vstd::prelude::*;

verus! {

/// Timer state. `tima_irq` is the pending-interrupt countdown: it is set to
/// 2 when TIMA overflows and the bus requests the TIMER interrupt when it
/// reaches 0, one machine cycle after the overflow.
#[derive(Clone, Copy, PartialEq, Eq, Structural, Debug)]
pub struct Timer {
    pub tima_irq: u8,
    pub sysclock: u16,
    pub tima: u8,
    pub tma: u8,
    pub tac: u8,
    pub edge_signal: bool,
}

impl Timer {
    /// The sysclock bit selected by TAC bits 0-1: {0,1,2,3} pick bits
    /// {9,3,5,7}, giving TIMA periods of {1024,16,64,256} sysclock counts.
    pub open spec fn spec_selected_bit(tac: u8) -> u16 {
        match tac & 0x3 {
            0 => 9,
            1 => 3,
            2 => 5,
            _ => 7,
        }
    }

    /// The edge-detector input: TAC enable bit ANDed with the selected
    /// sysclock bit.
    pub open spec fn spec_signal(sysclock: u16, tac: u8) -> bool {
        (tac >> 2) & 0x1 == 1 && (sysclock >> Self::spec_selected_bit(tac)) & 0x1 == 1
    }

    /// One TIMA step: on overflow, reload from TMA and start the delayed
    /// interrupt countdown; otherwise increment.
    pub open spec fn spec_bump(t: Timer) -> Timer {
        if t.tima == 0xFF {
            Timer { tima: t.tma, tima_irq: 2, ..t }
        } else {
            Timer { tima: (t.tima + 1) as u8, ..t }
        }
    }

    /// Run the falling-edge detector against the current sysclock and TAC:
    /// step TIMA when the signal falls, then latch the new signal value.
    pub open spec fn spec_sync(t: Timer) -> Timer {
        let sig = Self::spec_signal(t.sysclock, t.tac);
        let stepped = if t.edge_signal && !sig {
            Self::spec_bump(t)
        } else {
            t
        };
        Timer { edge_signal: sig, ..stepped }
    }

    /// Whether running the edge detector on `t` steps TIMA.
    pub open spec fn spec_falls(t: Timer) -> bool {
        t.edge_signal && !Self::spec_signal(t.sysclock, t.tac)
    }

    /// One machine cycle: the sysclock advances by 4 counts (one count per
    /// dot), then the edge detector runs.
    pub open spec fn spec_update(t: Timer) -> Timer {
        Self::spec_sync(Timer { sysclock: t.sysclock.wrapping_add(4), ..t })
    }

    /// Run the falling-edge detector once against the current state.
    fn sync_edge(&mut self)
        ensures
            *final(self) == Self::spec_sync(*old(self)),
    {
        let sig: bool = (self.tac >> 2) & 0x1 == 1 && {
            let bit: u16 = match self.tac & 0x3 {
                0 => 9,
                1 => 3,
                2 => 5,
                _ => 7,
            };
            (self.sysclock >> bit) & 0x1 == 1
        };
        if self.edge_signal && !sig {
            if self.tima == 0xFF {
                self.tima = self.tma;
                self.tima_irq = 2;
            } else {
                self.tima = self.tima + 1;
            }
        }
        self.edge_signal = sig;
    }

    /// Read a timer register: 0xFF04 is DIV (the sysclock's upper 8 bits),
    /// 0xFF05 TIMA, 0xFF06 TMA, 0xFF07 TAC.
    pub fn read_registers(&self, addr: u16) -> (val: u8)
        requires
            0xFF04 <= addr <= 0xFF07,
        ensures
            val == Self::spec_read(*self, addr),
    {
        match addr {
            0xFF04 => (self.sysclock >> 8) as u8,
            0xFF05 => self.tima,
            0xFF06 => self.tma,
            _ => self.tac,
        }
    }

    /// The value of one timer register.
    pub open spec fn spec_read(t: Timer, addr: u16) -> u8 {
        match addr {
            0xFF04 => (t.sysclock >> 8) as u8,
            0xFF05 => t.tima,
            0xFF06 => t.tma,
            _ => t.tac,
        }
    }

    /// The timer after a register write. A DIV write zeroes the sysclock and
    /// a TAC write changes the selected signal; both run the edge detector,
    /// so either can step TIMA by the ordinary falling-edge rule.
    pub open spec fn spec_write(t: Timer, addr: u16, val: u8) -> Timer {
        match addr {
            0xFF04 => Self::spec_sync(Timer { sysclock: 0, ..t }),
            0xFF05 => Timer { tima: val, ..t },
            0xFF06 => Timer { tma: val, ..t },
            _ => Self::spec_sync(Timer { tac: val, ..t }),
        }
    }

    /// Write a timer register.
    pub fn write_registers(&mut self, addr: u16, val: u8)
        requires
            0xFF04 <= addr <= 0xFF07,
        ensures
            *final(self) == Self::spec_write(*old(self), addr, val),
    {
        match addr {
            0xFF04 => {
                self.sysclock = 0;
                self.sync_edge();
            },
            0xFF05 => self.tima = val,
            0xFF06 => self.tma = val,
            _ => {
                self.tac = val;
                self.sync_edge();
            },
        }
    }

    /// Advance the timer by one machine cycle: the sysclock gains 4 counts
    /// and TIMA steps exactly when the selected signal falls.
    pub fn update(&mut self)
        ensures
            *final(self) == Self::spec_update(*old(self)),
            !Self::spec_falls((Timer { sysclock: old(self).sysclock.wrapping_add(4), ..*old(self) }))
                ==> final(self).tima == old(self).tima && final(self).tima_irq == old(self).tima_irq,
            Self::spec_falls((Timer { sysclock: old(self).sysclock.wrapping_add(4), ..*old(self) }))
                && old(self).tima < 0xFF ==> final(self).tima == old(self).tima + 1,
            Self::spec_falls((Timer { sysclock: old(self).sysclock.wrapping_add(4), ..*old(self) }))
                && old(self).tima == 0xFF ==> final(self).tima == old(self).tma
                && final(self).tima_irq == 2,
    {
        self.sysclock = self.sysclock.wrapping_add(4);
        self.sync_edge();
    }
}

impl Default for Timer {
    /// The power-on timer: counters cleared, detector signal low.
    fn default() -> (t: Timer)
        ensures
            t == (Timer { tima_irq: 0, sysclock: 0, tima: 0, tma: 0, tac: 0, edge_signal: false }),
    {
        Timer { tima_irq: 0, sysclock: 0, tima: 0, tma: 0, tac: 0, edge_signal: false }
    }
}

} // verus!
