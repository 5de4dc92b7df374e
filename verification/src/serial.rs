use vstd::prelude::*;

use crate::interrupts::{IrqHolder, INT_SERIAL};

verus! {

// In Non-CGB mode the Game Boy supplies an internal serial clock of 8192Hz. The
// CPU runs at 4194304Hz, so each transferred bit takes 4194304 / 8192 = 512
// T-cycles (and a full byte takes 8 * 512 = 4096).
/// T-cycles per transferred bit.
pub const T_CYCLES_PER_BIT: u32 = 512;

/// The serial control register (SC, 0xFF02).
#[derive(Debug, Clone, Copy, PartialEq, Eq, Structural)]
pub struct Sc {
    bits: u8,
}

impl View for Sc {
    type V = u8;

    closed spec fn view(&self) -> u8 {
        self.bits
    }
}

/// Bit 0 of SC: 0 = external clock (the other Game Boy clocks the transfer), 1 = internal.
pub open spec fn sc_shift_clock(sc: u8) -> bool {
    sc & 0x01 != 0
}

/// Bit 7 of SC: a transfer is requested or in progress.
pub open spec fn sc_transfer_start(sc: u8) -> bool {
    sc & 0x80 != 0
}

impl Sc {
    /// The register holding `value`.
    pub fn from_bits(value: u8) -> (r: Self)
        ensures
            r@ == value,
    {
        Self { bits: value }
    }

    /// The raw register value.
    pub fn into_bits(self) -> (r: u8)
        ensures
            r == self@,
    {
        self.bits
    }

    /// Bit 0: whether this Game Boy provides the clock.
    pub fn shift_clock(&self) -> (r: bool)
        ensures
            r == sc_shift_clock(self@),
    {
        self.bits & 0x01 != 0
    }

    /// Bit 1: the clock speed (CGB only, ignored on DMG).
    pub fn clock_speed(&self) -> (r: bool)
        ensures
            r == (self@ & 0x02 != 0),
    {
        self.bits & 0x02 != 0
    }

    /// Bit 7: whether a transfer is requested.
    pub fn transfer_start(&self) -> (r: bool)
        ensures
            r == sc_transfer_start(self@),
    {
        self.bits & 0x80 != 0
    }

    /// Sets or clears bit 7.
    pub fn set_transfer_start(&mut self, value: bool)
        ensures
            final(self)@ == (if value { old(self)@ | 0x80 } else { old(self)@ & 0x7F }),
        no_unwind
    {
        if value {
            self.bits = self.bits | 0x80;
        } else {
            self.bits = self.bits & 0x7F;
        }
    }
}

/// A transfer clocked by this Game Boy.
#[derive(Debug, Clone, Copy, PartialEq, Eq, Structural)]
pub struct Transfer {
    pub bits_remaining: u8,
    pub cycles: u32,
}

/// The serial port: the data register SB and the control register SC.
pub struct Serial {
    sb: u8,
    sc: Sc,
    transfer: Option<Transfer>,
}

/// The state of the serial port.
pub struct SerialView {
    pub sb: u8,
    pub sc: u8,
    pub transfer: Option<Transfer>,
}

impl SerialView {
    /// A transfer in progress has between one and eight bits to go, and is part way
    /// through the current bit.
    pub open spec fn wf(self) -> bool {
        self.transfer matches Some(t) ==> 1 <= t.bits_remaining <= 8 && t.cycles < T_CYCLES_PER_BIT
    }

    /// The value that the CPU reads from SC: bits 1 to 6 read as one.
    pub open spec fn sc_read(self) -> u8 {
        self.sc | 0x7E
    }

    /// The state after a write to SC: a transfer with the internal clock starts, a
    /// cleared start bit cancels the transfer, and a transfer requested with the
    /// external clock (no cable attached) is left as it is.
    pub open spec fn set_sc(self, value: u8) -> SerialView {
        let t = if sc_transfer_start(value) && sc_shift_clock(value) {
            Some(Transfer { bits_remaining: 8, cycles: 0 })
        } else if !sc_transfer_start(value) {
            None
        } else {
            self.transfer
        };
        SerialView { sc: value, transfer: t, ..self }
    }

    /// One T-cycle. After 512 of them a bit is shifted out and a one shifted in;
    /// after the eighth bit the transfer ends, the start bit clears and the serial
    /// interrupt is raised (the boolean).
    pub open spec fn step(self) -> (SerialView, bool) {
        match self.transfer {
            None => (self, false),
            Some(t) => if t.cycles + 1 < T_CYCLES_PER_BIT {
                (SerialView { transfer: Some(Transfer { cycles: (t.cycles + 1) as u32, ..t }), ..self }, false)
            } else {
                let sb = ((self.sb * 2 + 1) % 256) as u8;
                if t.bits_remaining == 1 {
                    (SerialView { sb, sc: self.sc & 0x7F, transfer: None }, true)
                } else {
                    (
                        SerialView {
                            sb,
                            transfer: Some(Transfer { bits_remaining: (t.bits_remaining - 1) as u8, cycles: 0 }),
                            ..self
                        },
                        false,
                    )
                }
            },
        }
    }

    /// The state after `n` T-cycles.
    pub open spec fn steps(self, n: nat) -> SerialView
        decreases n,
    {
        if n == 0 {
            self
        } else {
            self.steps((n - 1) as nat).step().0
        }
    }
}

impl View for Serial {
    type V = SerialView;

    closed spec fn view(&self) -> SerialView {
        SerialView { sb: self.sb, sc: self.sc@, transfer: self.transfer }
    }
}

impl Serial {
    #[verifier::type_invariant]
    spec fn inv(self) -> bool {
        self@.wf()
    }

    /// An idle port: SB zero, SC 0x7E.
    pub fn new() -> (s: Self)
        ensures
            s@ == (SerialView { sb: 0, sc: 0x7E, transfer: None }),
    {
        Self { sb: 0x00, sc: Sc::from_bits(0x7E), transfer: None }
    }

    /// The value that the CPU reads from SB.
    pub fn sb(&self) -> (r: u8)
        ensures
            r == self@.sb,
    {
        self.sb
    }

    /// A write to SB.
    pub fn set_sb(&mut self, value: u8)
        ensures
            final(self)@ == (SerialView { sb: value, ..old(self)@ }),
    {
        proof {
            use_type_invariant(&*self);
        }
        self.sb = value;
    }

    /// The value that the CPU reads from SC.
    pub fn sc(&self) -> (r: u8)
        ensures
            r == self@.sc_read(),
    {
        // bits 1..=6 are unused and read as 1
        self.sc.into_bits() | 0x7E
    }

    /// A write to SC.
    pub fn set_sc(&mut self, value: u8)
        ensures
            final(self)@ == old(self)@.set_sc(value),
    {
        proof {
            use_type_invariant(&*self);
        }
        let sc = Sc::from_bits(value);
        if sc.transfer_start() && sc.shift_clock() {
            // We provide the clock, so the transfer proceeds on its own.
            self.sc = sc;
            self.transfer = Some(Transfer { bits_remaining: 8, cycles: 0 });
        } else if !sc.transfer_start() {
            self.sc = sc;
            self.transfer = None;
        } else {
            // A transfer requested with the external clock (no cable attached) never
            // receives a clock, so it stays pending forever and is left untouched.
            self.sc = sc;
        }
    }

    /// One T-cycle of the port; raises the serial interrupt in `irq` when a transfer
    /// completes.
    pub fn step(&mut self, irq: &mut IrqHolder)
        ensures
            final(self)@ == old(self)@.step().0,
            final(irq)@ == (if old(self)@.step().1 { old(irq)@ | INT_SERIAL } else { old(irq)@ }),
    {
        proof {
            use_type_invariant(&*self);
        }
        let transfer = match self.transfer {
            Some(t) => t,
            None => return ,
        };
        let cycles = transfer.cycles + 1;
        if cycles < T_CYCLES_PER_BIT {
            self.transfer = Some(Transfer { bits_remaining: transfer.bits_remaining, cycles });
            return ;
        }
        let bits_remaining = transfer.bits_remaining - 1;
        let done = bits_remaining == 0;

        // With no external Game Boy connected, ones are shifted in, so SB ends
        // up holding 0xFF once the transfer completes.
        let sb = self.sb;
        assert((sb << 1) | 1 == (sb * 2 + 1) % 256) by (bit_vector);
        if done {
            self.sb = (sb << 1) | 1;
            self.transfer = None;
            self.sc.set_transfer_start(false);
            irq.request_serial();
        } else {
            self.sb = (sb << 1) | 1;
            self.transfer = Some(Transfer { bits_remaining, cycles: 0 });
        }
    }
}


/// `value` shifted left `k` times with a one shifted in each time: SB after `k`
/// bits of a transfer with no cable attached.
pub open spec fn shift_in_ones(value: u8, k: nat) -> u8
    decreases k,
{
    if k == 0 {
        value
    } else {
        ((shift_in_ones(value, (k - 1) as nat) * 2 + 1) % 256) as u8
    }
}

proof fn lemma_eight_ones(x: u8)
    ensures
        shift_in_ones(x, 8) == 0xFF,
{
    reveal_with_fuel(shift_in_ones, 9);
    let x1 = shift_in_ones(x, 1);
    let x2 = shift_in_ones(x, 2);
    let x3 = shift_in_ones(x, 3);
    let x4 = shift_in_ones(x, 4);
    let x5 = shift_in_ones(x, 5);
    let x6 = shift_in_ones(x, 6);
    let x7 = shift_in_ones(x, 7);
    let x8 = shift_in_ones(x, 8);
    assert(x8 == 0xFF) by (bit_vector)
        requires
            x1 == ((x * 2 + 1) % 256) as u8,
            x2 == ((x1 * 2 + 1) % 256) as u8,
            x3 == ((x2 * 2 + 1) % 256) as u8,
            x4 == ((x3 * 2 + 1) % 256) as u8,
            x5 == ((x4 * 2 + 1) % 256) as u8,
            x6 == ((x5 * 2 + 1) % 256) as u8,
            x7 == ((x6 * 2 + 1) % 256) as u8,
            x8 == ((x7 * 2 + 1) % 256) as u8,
    ;
}

/// The port `n` T-cycles into a transfer that started from `t`.
proof fn lemma_transfer_progress(t: SerialView, n: nat)
    requires
        t.transfer == Some(Transfer { bits_remaining: 8, cycles: 0 }),
        n < 4096,
    ensures
        t.steps(n) == (SerialView {
            sb: shift_in_ones(t.sb, n / 512),
            sc: t.sc,
            transfer: Some(Transfer { bits_remaining: (8 - n / 512) as u8, cycles: (n % 512) as u32 }),
        }),
    decreases n,
{
    if n > 0 {
        let m = (n - 1) as nat;
        lemma_transfer_progress(t, m);
        if m % 512 + 1 < 512 {
            assert(n / 512 == m / 512 && n % 512 == m % 512 + 1);
        } else {
            assert(n / 512 == m / 512 + 1 && n % 512 == 0);
        }
    }
}

/// A transfer started with the internal clock takes 8 * 512 = 4096 T-cycles: the
/// serial interrupt is raised on the last of them and on no earlier one, and then
/// SB holds 0xFF (ones are shifted in with no cable attached), the start bit is
/// clear and no transfer is left.
pub proof fn lemma_transfer_completes(s: SerialView, value: u8)
    requires
        sc_transfer_start(value),
        sc_shift_clock(value),
    ensures
        forall|n: nat| n < 4095 ==> !(#[trigger] s.set_sc(value).steps(n)).step().1,
        s.set_sc(value).steps(4095).step().1,
        s.set_sc(value).steps(4096) == (SerialView { sb: 0xFF, sc: value & 0x7F, transfer: None }),
{
    let t = s.set_sc(value);
    assert forall|n: nat| n < 4095 implies !(#[trigger] t.steps(n)).step().1 by {
        lemma_transfer_progress(t, n);
    }
    lemma_transfer_progress(t, 4095);
    lemma_eight_ones(t.sb);
    assert(shift_in_ones(t.sb, 8) == ((shift_in_ones(t.sb, 7) * 2 + 1) % 256) as u8);
}


/// A transfer requested with the external clock gets no clock with no cable
/// attached: from an idle port it never starts, so no T-cycle changes the port or
/// raises the serial interrupt.
pub proof fn lemma_external_clock_never_completes(s: SerialView, value: u8, n: nat)
    requires
        s.transfer is None,
        sc_transfer_start(value),
        !sc_shift_clock(value),
    ensures
        s.set_sc(value).steps(n) == s.set_sc(value),
        !s.set_sc(value).steps(n).step().1,
    decreases n,
{
    if n > 0 {
        lemma_external_clock_never_completes(s, value, (n - 1) as nat);
    }
}

} // verus!
