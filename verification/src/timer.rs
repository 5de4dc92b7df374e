use vstd::prelude::*;

use crate::interrupts::{IrqHolder, INT_TIMER};

verus! {

/// Remembers the last input it saw, and reports a change from `true` to `false`.
#[derive(Debug, Clone, Copy, PartialEq, Eq, Structural)]
pub struct FallingEdgeDetector(pub bool);

impl FallingEdgeDetector {
    /// Records `value`; true when the input was high before and is low now.
    pub fn update(&mut self, value: bool) -> (fell: bool)
        ensures
            fell == (old(self).0 && !value),
            final(self).0 == value,
        no_unwind
    {
        let ret = if !value && self.0 != value {
            true
        } else {
            false
        };
        self.0 = value;
        ret
    }
}

/// The timer control register (TAC, 0xFF07).
#[derive(Debug, Clone, Copy, PartialEq, Eq, Structural)]
pub struct Tac {
    bits: u8,
}

/// The counter bit that drives TIMA for a TAC value.
pub open spec fn tac_clock_bit(tac: u8) -> u16 {
    let sel = tac & 0x03;
    if sel == 0 {
        9
    } else if sel == 1 {
        3
    } else if sel == 2 {
        5
    } else {
        7
    }
}

/// Whether a TAC value enables TIMA.
pub open spec fn tac_enabled(tac: u8) -> bool {
    tac & 0x04 != 0
}

impl View for Tac {
    type V = u8;

    closed spec fn view(&self) -> u8 {
        self.bits
    }
}

impl Tac {
    /// The register holding `value`.
    pub fn from_bits(value: u8) -> (r: Self)
        ensures
            r@ == value,
    {
        Self { bits: value }
    }

    /// The raw register value.
    pub fn into_bits(self) -> (r: u8)
        ensures
            r == self@,
    {
        self.bits
    }

    /// The two clock-select bits.
    pub fn clock_select(&self) -> (r: u8)
        ensures
            r == self@ & 0x03,
            r < 4,
    {
        let bits = self.bits;
        assert(bits & 0x03 < 4) by (bit_vector);
        bits & 0x03
    }

    /// Whether the timer is enabled.
    pub fn enable(&self) -> (r: bool)
        ensures
            r == tac_enabled(self@),
    {
        self.bits & 0x04 != 0
    }

    /// The counter bit whose falling edge increments TIMA.
    pub fn clock_bit(&self) -> (r: u16)
        ensures
            r == tac_clock_bit(self@),
            r < 16,
    {
        match self.clock_select() {
            0 => 9,
            1 => 3,
            2 => 5,
            _ => 7,
        }
    }
}

/// A pending reload of TIMA from TMA after an overflow.
#[derive(Debug, Clone, Copy, PartialEq, Eq, Structural)]
pub struct TimaWrite {
    pub countdown: u8,
}

/// The timer: the 16-bit system counter (whose high byte is DIV) and TIMA, TMA, TAC.
pub struct Timer {
    tima: u8,
    tima_write: Option<TimaWrite>,
    tma: u8,
    tac: Tac,
    counter: u16,
    edge_detector: FallingEdgeDetector,
}

/// The state of the timer.
pub struct TimerView {
    pub tima: u8,
    /// T-cycles left before TMA is loaded into TIMA, when an overflow is pending.
    pub reload: Option<u8>,
    pub tma: u8,
    pub tac: u8,
    pub counter: u16,
    /// The last value of the signal that clocks TIMA.
    pub edge: bool,
}

impl TimerView {
    /// A pending reload is between one and four T-cycles away, and the unused bits 3
    /// to 7 of TAC are set.
    pub open spec fn wf(self) -> bool {
        &&& self.reload matches Some(c) ==> 1 <= c <= 4
        &&& self.tac & 0xF8 == 0xF8
    }

    /// The signal whose falling edge increments TIMA.
    pub open spec fn signal(self) -> bool {
        self.counter & (1u16 << tac_clock_bit(self.tac)) != 0 && tac_enabled(self.tac)
    }

    /// DIV: the high byte of the counter.
    pub open spec fn div(self) -> u8 {
        (self.counter / 256) as u8
    }

    /// Samples the clocking signal; on a falling edge TIMA is incremented, and an
    /// overflow leaves TIMA at zero and schedules the reload four T-cycles later.
    pub open spec fn sync(self) -> TimerView {
        let s = self.signal();
        let t = TimerView { edge: s, ..self };
        if self.edge && !s {
            if self.tima == 255 {
                TimerView { tima: 0, reload: Some(4), ..t }
            } else {
                TimerView { tima: (self.tima + 1) as u8, ..t }
            }
        } else {
            t
        }
    }

    /// One T-cycle: the pending reload counts down (loading TMA into TIMA and raising
    /// the timer interrupt when it reaches zero), then the counter advances and the
    /// signal is sampled. The boolean says whether the interrupt was raised.
    pub open spec fn step(self) -> (TimerView, bool) {
        let (r, fired) = match self.reload {
            Some(c) => if c == 1 {
                (TimerView { reload: None, tima: self.tma, ..self }, true)
            } else {
                (TimerView { reload: Some((c - 1) as u8), ..self }, false)
            },
            None => (self, false),
        };
        (TimerView { counter: ((r.counter + 1) % 0x10000) as u16, ..r }.sync(), fired)
    }

    /// The state after a write to DIV: the counter restarts from zero.
    pub open spec fn reset_div(self) -> TimerView {
        TimerView { counter: 0, ..self }.sync()
    }

    /// The state after a write to TIMA: a pending reload is cancelled.
    pub open spec fn set_tima(self, value: u8) -> TimerView {
        TimerView { tima: value, reload: None, ..self }
    }

    /// The state after a write to TMA.
    pub open spec fn set_tma(self, value: u8) -> TimerView {
        TimerView { tma: value, ..self }
    }

    /// The state after a write to TAC: the unused upper bits read as one.
    pub open spec fn set_tac(self, value: u8) -> TimerView {
        TimerView { tac: value | 0xF8, ..self }.sync()
    }

    /// The state after `n` T-cycles.
    pub open spec fn steps(self, n: nat) -> TimerView
        decreases n,
    {
        if n == 0 {
            self
        } else {
            self.steps((n - 1) as nat).step().0
        }
    }
}

impl View for Timer {
    type V = TimerView;

    closed spec fn view(&self) -> TimerView {
        TimerView {
            tima: self.tima,
            reload: match self.tima_write {
                Some(w) => Some(w.countdown),
                None => None,
            },
            tma: self.tma,
            tac: self.tac@,
            counter: self.counter,
            edge: self.edge_detector.0,
        }
    }
}

impl Timer {
    #[verifier::type_invariant]
    spec fn inv(self) -> bool {
        self@.wf()
    }

    /// The state after the boot ROM: everything zero, TAC reading 0xF8.
    pub fn new() -> (t: Self)
        ensures
            t@ == (TimerView { tima: 0, reload: None, tma: 0, tac: 0xF8, counter: 0, edge: false }),
    {
        proof {
            lemma_tac_or(0xF8);
        }
        Self {
            tima: 0x00,
            tima_write: None,
            tma: 0x00,
            tac: Tac::from_bits(0xF8),
            counter: 0,
            edge_detector: FallingEdgeDetector(false),
        }
    }

    /// The value that the CPU reads from DIV.
    pub fn div(&self) -> (r: u8)
        ensures
            r == self@.div(),
    {
        let c = self.counter;
        assert((c >> 8) as u8 == c / 256) by (bit_vector);
        (c >> 8) as u8
    }

    /// A write to DIV.
    pub fn reset_div(&mut self)
        ensures
            final(self)@ == old(self)@.reset_div(),
    {
        proof {
            use_type_invariant(&*self);
        }
        self.counter = 0;
        self.sync();
    }

    /// The value that the CPU reads from TIMA.
    pub fn tima(&self) -> (r: u8)
        ensures
            r == self@.tima,
    {
        self.tima
    }

    /// A write to TIMA.
    pub fn set_tima(&mut self, value: u8)
        ensures
            final(self)@ == old(self)@.set_tima(value),
    {
        proof {
            use_type_invariant(&*self);
        }
        if self.tima_write.is_some() {
            self.tima_write = None;
        }
        self.tima = value;
    }

    /// The value that the CPU reads from TMA.
    pub fn tma(&self) -> (r: u8)
        ensures
            r == self@.tma,
    {
        self.tma
    }

    /// A write to TMA.
    pub fn set_tma(&mut self, value: u8)
        ensures
            final(self)@ == old(self)@.set_tma(value),
    {
        proof {
            use_type_invariant(&*self);
        }
        self.tma = value;
    }

    /// The value that the CPU reads from TAC.
    pub fn tac(&self) -> (r: u8)
        ensures
            r == self@.tac,
            r & 0xF8 == 0xF8,
    {
        proof {
            use_type_invariant(self);
        }
        self.tac.into_bits()
    }

    /// A write to TAC.
    pub fn set_tac(&mut self, value: u8)
        ensures
            final(self)@ == old(self)@.set_tac(value),
    {
        proof {
            use_type_invariant(&*self);
        }
        proof {
            lemma_tac_or(value);
        }
        self.tac = Tac::from_bits(value | 0xF8);
        self.sync();
    }

    fn sync(&mut self)
        ensures
            final(self)@ == old(self)@.sync(),
    {
        proof {
            use_type_invariant(&*self);
        }
        let bit = self.tac.clock_bit();
        let signal = self.counter & (1u16 << bit) != 0 && self.tac.enable();
        if self.edge_detector.update(signal) {
            if self.tima == 255 {
                // TIMA overflowed: it reads as 0 until TMA is loaded in 4 T-cycles
                self.tima = 0;
                self.tima_write = Some(TimaWrite { countdown: 4 });
            } else {
                self.tima = self.tima + 1;
            }
        }
    }

    /// One T-cycle of the timer; raises the timer interrupt in `irq` when a pending
    /// reload completes.
    pub fn step(&mut self, irq: &mut IrqHolder)
        ensures
            final(self)@ == old(self)@.step().0,
            final(irq)@ == (if old(self)@.step().1 { old(irq)@ | INT_TIMER } else { old(irq)@ }),
    {
        proof {
            use_type_invariant(&*self);
        }
        match self.tima_write {
            Some(w) => {
                if w.countdown == 1 {
                    self.tima_write = None;
                    // reload TIMA with TMA and fire the interrupt together
                    self.tima = self.tma;
                    irq.request_timer();
                } else {
                    self.tima_write = Some(TimaWrite { countdown: w.countdown - 1 });
                }
            },
            None => {},
        }
        self.counter = self.counter.wrapping_add(1);
        self.sync();
    }
}


/// The counter advances by one every T-cycle, wrapping at 0x10000, so DIV, its high
/// byte, counts up once every 256 T-cycles.
pub proof fn lemma_counter_advances(s: TimerView, n: nat)
    ensures
        s.steps(n).counter == (s.counter + n) % 0x10000,
        s.steps(n).div() == ((s.counter + n) % 0x10000) / 256,
    decreases n,
{
    if n > 0 {
        lemma_counter_advances(s, (n - 1) as nat);
        vstd::arithmetic::div_mod::lemma_add_mod_noop(s.counter + n - 1, 1, 0x10000);
    }
}

/// A pending reload of `c` T-cycles (four right after TIMA overflows) counts down
/// one per T-cycle, and the timer interrupt is raised, together with the load of
/// TMA into TIMA, on the `c`-th T-cycle and on no earlier one. TMA is left as it is.
pub proof fn lemma_reload_fires(s: TimerView, k: nat)
    requires
        s.wf(),
        s.reload is Some,
        k < s.reload->0,
        s.tima + s.reload->0 < 255,
    ensures
        s.steps(k).reload == Some((s.reload->0 - k) as u8),
        s.steps(k).tima <= s.tima + k,
        s.steps(k).tma == s.tma,
        s.steps(k).step().1 <==> k + 1 == s.reload->0,
    decreases k,
{
    if k > 0 {
        lemma_reload_fires(s, (k - 1) as nat);
    }
}


/// Counting up from a counter whose clock bit is clear, the bit cannot go from set
/// to clear within the next four counts: once set, it stays set for at least eight.
proof fn lemma_no_quick_fall(c0: u16, c1: u16, c2: u16, c3: u16, c4: u16, b: u16)
    by (bit_vector)
    requires
        b == 3 || b == 5 || b == 7 || b == 9,
        c0 & (1u16 << b) == 0,
        c1 == ((c0 + 1) % 0x10000) as u16,
        c2 == ((c1 + 1) % 0x10000) as u16,
        c3 == ((c2 + 1) % 0x10000) as u16,
        c4 == ((c3 + 1) % 0x10000) as u16,
    ensures
        !(c1 & (1u16 << b) != 0 && c2 & (1u16 << b) == 0),
        !(c2 & (1u16 << b) != 0 && c3 & (1u16 << b) == 0),
        !(c3 & (1u16 << b) != 0 && c4 & (1u16 << b) == 0),
{
}

/// When TIMA overflows it reads as zero for the next three T-cycles; on the fourth,
/// and on no earlier one, TMA is loaded into it and the timer interrupt is raised.
pub proof fn lemma_overflow_reload(t: TimerView)
    requires
        t.wf(),
        t.step().0.reload == Some(4u8),
    ensures
        forall|k: nat|
            k <= 3 ==> (#[trigger] t.step().0.steps(k)).tima == 0 && t.step().0.steps(k).reload == Some(
                (4 - k) as u8,
            ),
        forall|k: nat| k < 3 ==> !(#[trigger] t.step().0.steps(k)).step().1,
        t.step().0.steps(3).step().1,
        t.step().0.steps(4).tima == t.tma,
        t.step().0.steps(4).reload is None,
{
    let s0 = t.step().0;
    let s1 = s0.step().0;
    let s2 = s1.step().0;
    let s3 = s2.step().0;
    let s4 = s3.step().0;
    // the overflow came with a falling edge, so the clocking signal is low now
    assert(!s0.signal() && s0.edge == s0.signal());
    if tac_enabled(t.tac) {
        lemma_no_quick_fall(s0.counter, s1.counter, s2.counter, s3.counter, s4.counter, tac_clock_bit(t.tac));
    }
    assert(s1.tima == 0 && s1.reload == Some(3u8) && s1.edge == s1.signal());
    assert(s2.tima == 0 && s2.reload == Some(2u8) && s2.edge == s2.signal());
    assert(s3.tima == 0 && s3.reload == Some(1u8) && s3.edge == s3.signal());
    assert(s4.tima == t.tma && s4.reload is None);
    reveal_with_fuel(TimerView::steps, 5);
    assert(s0.steps(1) == s1);
    assert(s0.steps(2) == s2);
    assert(s0.steps(3) == s3);
    assert(s0.steps(4) == s4);
    assert forall|k: nat| k <= 3 implies (#[trigger] s0.steps(k)).tima == 0 && s0.steps(k).reload == Some(
        (4 - k) as u8,
    ) by {
        if k == 1 {
        } else if k == 2 {
        } else if k == 3 {
        }
    }
    assert forall|k: nat| k < 3 implies !(#[trigger] s0.steps(k)).step().1 by {
        if k == 1 {
        } else if k == 2 {
        }
    }
}


/// TAC reads with its unused bits 3 to 7 set in every state: a write of `value`
/// reads back as `value | 0xF8`, and every operation of the timer keeps its
/// invariant, of which that is a part.
pub proof fn lemma_tac_upper_bits(s: TimerView, value: u8)
    requires
        s.wf(),
    ensures
        s.set_tac(value).tac == value | 0xF8,
        s.set_tac(value).wf(),
        s.step().0.wf(),
        s.reset_div().wf(),
        s.set_tima(value).wf(),
        s.set_tma(value).wf(),
        s.wf() ==> s.tac & 0xF8 == 0xF8,
{
    lemma_tac_or(value);
}

proof fn lemma_tac_or(value: u8)
    by (bit_vector)
    ensures
        (value | 0xF8) & 0xF8 == 0xF8,
        value == 0xF8 ==> value & 0xF8 == 0xF8,
{
}

} // verus!
