use vstd::prelude::*;

use crate::interrupts::{IrqHolder, INT_JOYPAD};

verus! {

/// Right on the d-pad, or the A button.
pub const RIGHT_A: u8 = 0x01;
/// Left on the d-pad, or the B button.
pub const LEFT_B: u8 = 0x02;
/// Up on the d-pad, or the Select button.
pub const UP_SELECT: u8 = 0x04;
/// Down on the d-pad, or the Start button.
pub const DOWN_START: u8 = 0x08;
/// With exactly one of the two select bits set, a set bit 4 makes `update` read the
/// d-pad.
pub const SELECT_DPAD: u8 = 0x10;
/// With exactly one of the two select bits set, a set bit 5 (and so a clear bit 4)
/// makes `update` read the buttons.
pub const SELECT_BUTTONS: u8 = 0x20;

/// A key of the host keyboard that is held down.
#[derive(Debug, Clone, Copy, PartialEq, Eq, Structural)]
pub enum Key {
    Right,
    Left,
    Up,
    Down,
    /// The A button.
    A,
    /// The B button.
    B,
    /// The Select button.
    Z,
    /// The Start button.
    X,
    /// Any other key.
    Other,
}

/// The input bit that `key` clears in the group selected by `dpad`, or zero.
pub open spec fn key_bit(key: Key, dpad: bool) -> u8 {
    if dpad {
        match key {
            Key::Right => RIGHT_A,
            Key::Left => LEFT_B,
            Key::Up => UP_SELECT,
            Key::Down => DOWN_START,
            _ => 0,
        }
    } else {
        match key {
            Key::A => RIGHT_A,
            Key::B => LEFT_B,
            Key::Z => UP_SELECT,
            Key::X => DOWN_START,
            _ => 0,
        }
    }
}

/// The input bits of all the `keys` in the group selected by `dpad`.
pub open spec fn pressed_mask(keys: Seq<Key>, dpad: bool) -> u8
    decreases keys.len(),
{
    if keys.len() == 0 {
        0
    } else {
        pressed_mask(keys.drop_last(), dpad) | key_bit(keys.last(), dpad)
    }
}

/// The value of the joypad register (P1, 0xFF00) after an update with `keys` held.
/// With both groups or neither selected, all inputs read as released; otherwise the
/// low nibble has a zero for each held key of the selected group, and the upper
/// bits are cleared.
pub open spec fn updated_status(status: u8, keys: Seq<Key>) -> u8 {
    if (status & SELECT_DPAD == 0) == (status & SELECT_BUTTONS == 0) {
        status | 0x0F
    } else {
        0x0F & !pressed_mask(keys, status & SELECT_DPAD != 0)
    }
}

/// Whether the update raises the joypad interrupt: some input went from released
/// (one) to pressed (zero).
pub open spec fn update_raises(status: u8, keys: Seq<Key>) -> bool {
    !((status & SELECT_DPAD == 0) == (status & SELECT_BUTTONS == 0)) && status & !updated_status(
        status,
        keys,
    ) & 0x0F != 0
}

/// The mask of the `n` low bits, for `n <= 4`.
pub open spec fn low_bits(n: u8) -> u8 {
    if n == 0 {
        0
    } else if n == 1 {
        1
    } else if n == 2 {
        3
    } else if n == 3 {
        7
    } else {
        15
    }
}

/// The joypad register.
pub struct Joypad {
    status: u8,
}

impl View for Joypad {
    type V = u8;

    closed spec fn view(&self) -> u8 {
        self.status
    }
}

impl Joypad {
    /// The register after boot, 0xCF.
    pub fn new() -> (j: Self)
        ensures
            j@ == 0xCF,
    {
        Self { status: 0xCF }
    }

    /// Samples the held `keys`; raises the joypad interrupt in `irq` when an input of
    /// the selected group goes from released to pressed.
    pub fn update(&mut self, keys: &[Key], irq: &mut IrqHolder)
        ensures
            final(self)@ == updated_status(old(self)@, keys@),
            final(irq)@ == (if update_raises(old(self)@, keys@) { old(irq)@ | INT_JOYPAD } else { old(irq)@ }),
    {
        let status = self.status;
        // if both dpad and buttons are selected, or if neither are:
        if (status & SELECT_DPAD == 0) == (status & SELECT_BUTTONS == 0) {
            // set all inputs to 'released' and return
            self.status = status | 0x0F;
            return ;
        }
        let dpad = status & SELECT_DPAD != 0;
        let mut new_status: u8 = 0x0F;
        assert(keys@.take(0) =~= Seq::<Key>::empty());
        assert(0x0F & !0u8 == 0x0Fu8) by (bit_vector);
        let mut i: usize = 0;
        while i < keys.len()
            invariant
                i <= keys.len(),
                dpad == (status & SELECT_DPAD != 0),
                new_status == 0x0F & !pressed_mask(keys@.take(i as int), dpad),
            decreases keys.len() - i,
        {
            let key = keys[i];
            let bit: u8 = if dpad {
                match key {
                    Key::Right => RIGHT_A,
                    Key::Left => LEFT_B,
                    Key::Up => UP_SELECT,
                    Key::Down => DOWN_START,
                    _ => 0,
                }
            } else {
                match key {
                    Key::A => RIGHT_A,
                    Key::B => LEFT_B,
                    Key::Z => UP_SELECT,
                    Key::X => DOWN_START,
                    _ => 0,
                }
            };
            let ghost m = pressed_mask(keys@.take(i as int), dpad);
            assert(keys@.take(i + 1).drop_last() == keys@.take(i as int));
            assert((0x0F & !m) & !bit == 0x0F & !(m | bit)) by (bit_vector);
            new_status = new_status & !bit;
            i = i + 1;
        }
        assert(keys@.take(keys.len() as int) == keys@);

        // check for any input bits that have gone from 1 ('released') to 0 ('pressed')
        let mut falling_edge = false;
        let mut bit: u8 = 0;
        assert(status & !new_status & 0u8 == 0) by (bit_vector);
        while bit < 4
            invariant_except_break
                bit <= 4,
                !falling_edge,
                status & !new_status & low_bits(bit) == 0,
            ensures
                falling_edge == (status & !new_status & 0x0F != 0),
            decreases 4 - bit,
        {
            let ghost m = low_bits(bit);
            if status & (1u8 << bit) != 0 && new_status & (1u8 << bit) == 0 {
                assert(bit < 4 ==> (status & (1u8 << bit) != 0 && new_status & (1u8 << bit) == 0) ==> status
                    & !new_status & 0x0F != 0) by (bit_vector);
                falling_edge = true;
                break;
            }
            let ghost m2 = low_bits((bit + 1) as u8);
            assert(m2 == m | (1u8 << bit)) by (bit_vector)
                requires
                    bit < 4,
                    m == (if bit == 0 { 0u8 } else if bit == 1 { 1u8 } else if bit == 2 { 3u8 } else { 7u8 }),
                    m2 == (if bit == 0 { 1u8 } else if bit == 1 { 3u8 } else if bit == 2 { 7u8 } else { 15u8 }),
            ;
            assert(status & !new_status & (m | (1u8 << bit)) == 0) by (bit_vector)
                requires
                    status & !new_status & m == 0,
                    !(status & (1u8 << bit) != 0 && new_status & (1u8 << bit) == 0),
            ;
            bit = bit + 1;
        }
        if falling_edge {
            irq.request_joypad();
        }
        self.status = new_status;
    }

    /// The value that the CPU reads from the joypad register.
    pub fn status(&self) -> (r: u8)
        ensures
            r == self@,
    {
        self.status
    }

    /// A write to the joypad register.
    pub fn set_status(&mut self, value: u8)
        ensures
            final(self)@ == value,
    {
        self.status = value;
    }
}


proof fn lemma_or_bit(x: u8, k: u8)
    requires
        x <= 15,
        k == 0 || k == 1 || k == 2 || k == 4 || k == 8,
    ensures
        0u8 & 1 == 0 && 0u8 & 2 == 0 && 0u8 & 4 == 0 && 0u8 & 8 == 0 && 0u8 | 0u8 == 0,
        (x | k) <= 15,
        ((x | k) & 1 != 0) == (x & 1 != 0 || k == 1),
        ((x | k) & 2 != 0) == (x & 2 != 0 || k == 2),
        ((x | k) & 4 != 0) == (x & 4 != 0 || k == 4),
        ((x | k) & 8 != 0) == (x & 8 != 0 || k == 8),
{
    assert(0u8 & 1 == 0 && 0u8 & 2 == 0 && 0u8 & 4 == 0 && 0u8 & 8 == 0 && 0u8 | 0u8 == 0 && (x | k) <= 15 && ((x | k) & 1 != 0) == (x & 1 != 0 || k == 1) && ((x | k) & 2 != 0) == (x & 2 != 0
        || k == 2) && ((x | k) & 4 != 0) == (x & 4 != 0 || k == 4) && ((x | k) & 8 != 0) == (x & 8 != 0 || k
        == 8)) by (bit_vector)
        requires
            x <= 15,
            k == 0 || k == 1 || k == 2 || k == 4 || k == 8,
    ;
}

/// Which inputs the held keys press: in the d-pad group Right, Left, Up and Down
/// press bits 0, 1, 2 and 3; in the button group A, B, Select (Z) and Start (X) do.
proof fn lemma_pressed_bits(keys: Seq<Key>, dpad: bool)
    ensures
        pressed_mask(keys, dpad) <= 15,
        (pressed_mask(keys, dpad) & 1 != 0) == keys.contains(if dpad { Key::Right } else { Key::A }),
        (pressed_mask(keys, dpad) & 2 != 0) == keys.contains(if dpad { Key::Left } else { Key::B }),
        (pressed_mask(keys, dpad) & 4 != 0) == keys.contains(if dpad { Key::Up } else { Key::Z }),
        (pressed_mask(keys, dpad) & 8 != 0) == keys.contains(if dpad { Key::Down } else { Key::X }),
    decreases keys.len(),
{
    if keys.len() == 0 {
        lemma_or_bit(0, 0);
    } else {
        let prev = keys.drop_last();
        let last = keys.last();
        lemma_pressed_bits(prev, dpad);
        let k = key_bit(last, dpad);
        lemma_or_bit(pressed_mask(prev, dpad), k);
        assert forall|key: Key| #[trigger] keys.contains(key) == (prev.contains(key) || last == key) by {
            if prev.contains(key) {
                let i = choose|i: int| 0 <= i < prev.len() && prev[i] == key;
                assert(keys[i] == key);
            }
            if last == key {
                assert(keys[keys.len() - 1] == key);
            }
            if keys.contains(key) {
                let i = choose|i: int| 0 <= i < keys.len() && keys[i] == key;
                if i < keys.len() - 1 {
                    assert(prev[i] == key);
                }
            }
        }
    }
}

/// With exactly one group selected, an update leaves the upper bits of P1 clear
/// and the low nibble with a zero exactly for each input of that group whose key is
/// held: with the d-pad selected (bit 4 set) Right, Left, Up and Down clear bits 0,
/// 1, 2 and 3; with the buttons selected (bit 5 set) A, B, Select (Z) and Start (X)
/// do.
pub proof fn lemma_update_inputs(status: u8, keys: Seq<Key>)
    requires
        (status & SELECT_DPAD == 0) != (status & SELECT_BUTTONS == 0),
    ensures
        ({
            let dpad = status & SELECT_DPAD != 0;
            let p = updated_status(status, keys);
            &&& p & 0xF0 == 0
            &&& (p & 0x01 == 0) == keys.contains(if dpad { Key::Right } else { Key::A })
            &&& (p & 0x02 == 0) == keys.contains(if dpad { Key::Left } else { Key::B })
            &&& (p & 0x04 == 0) == keys.contains(if dpad { Key::Up } else { Key::Z })
            &&& (p & 0x08 == 0) == keys.contains(if dpad { Key::Down } else { Key::X })
        }),
{
    let dpad = status & SELECT_DPAD != 0;
    let m = pressed_mask(keys, dpad);
    lemma_pressed_bits(keys, dpad);
    let p = 0x0F & !m;
    assert(p & 0xF0 == 0 && (p & 1 == 0) == (m & 1 != 0) && (p & 2 == 0) == (m & 2 != 0) && (p & 4 == 0) == (m & 4
        != 0) && (p & 8 == 0) == (m & 8 != 0)) by (bit_vector)
        requires
            p == 0x0F & !m,
    ;
}

} // verus!
