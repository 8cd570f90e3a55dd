//! What holds of the EEPROM's data phases: the 16 clock edges that carry a
//! word in or out, most significant bit first.

use super::mbc7::{word_stored, EepromState, EepromView};
use vstd::prelude::*;

verus! {

/// Bit `k` of a word, as a line level.
pub open spec fn bit(value: u16, k: int) -> bool {
    (value >> (k as u16)) & 1 != 0
}

/// The top `n` bits of a word, as a number.
pub open spec fn top_bits(value: u16, n: int) -> u16 {
    if n == 0 {
        0
    } else {
        value >> ((16 - n) as u16)
    }
}

impl EepromView {
    /// The chip after `n` rising clock edges that present the top `n` bits of
    /// `value` on DI, most significant first.
    pub open spec fn clocked_in(self, value: u16, n: nat) -> EepromView
        decreases n,
    {
        if n == 0 {
            self
        } else {
            self.clocked_in(value, (n - 1) as nat).clock(bit(value, 16 - n))
        }
    }

    /// The chip after `n` rising clock edges with DI low.
    pub open spec fn clocked(self, n: nat) -> EepromView
        decreases n,
    {
        if n == 0 {
            self
        } else {
            self.clocked((n - 1) as nat).clock(false)
        }
    }
}

/// Shifting the next bit of a word in behind its top bits gives one more top
/// bit.
proof fn lemma_shift_in(value: u16, k: u16)
    by (bit_vector)
    requires
        k < 15,
    ensures
        ((value >> ((k + 1) as u16)) << 1) | (if (value >> k) & 1 != 0 {
            1u16
        } else {
            0u16
        }) == value >> k,
        (0u16 << 1) | (if (value >> 15u16) & 1 != 0 {
            1u16
        } else {
            0u16
        }) == value >> 15u16,
        value >> 0u16 == value,
{
}

/// While a word is being written, the chip holds the bits received so far
/// and nothing else changes.
proof fn lemma_write_data_bits(e: EepromView, addr: u8, value: u16, n: nat)
    requires
        e.state == (EepromState::Writing { addr, data: 0, received: 0 }),
        n <= 15,
    ensures
        e.clocked_in(value, n) == (EepromView {
            state: EepromState::Writing { addr, data: top_bits(value, n as int), received: n as u8 },
            ..e
        }),
    decreases n,
{
    if n > 0 {
        lemma_write_data_bits(e, addr, value, (n - 1) as nat);
        if n == 1 {
            lemma_shift_in(value, 0);
        } else {
            lemma_shift_in(value, (16 - n) as u16);
        }
    }
}

/// Write data phase: after the command WRITE for word `addr`, sixteen clock
/// edges that present `value` store it at `addr` if writes are enabled and
/// leave the data alone if not; either way the chip is idle again with DO
/// high.
pub proof fn lemma_write_stores_the_word(e: EepromView, addr: u8, value: u16)
    requires
        e.state == (EepromState::Writing { addr, data: 0, received: 0 }),
    ensures
        e.clocked_in(value, 16) == (EepromView {
            data: if e.write_enabled {
                word_stored(e.data, addr, value)
            } else {
                e.data
            },
            do_bit: true,
            state: EepromState::Idle,
            ..e
        }),
{
    lemma_write_data_bits(e, addr, value, 15);
    lemma_shift_in(value, 0);
    assert(e.clocked_in(value, 16) == e.clocked_in(value, 15).clock(bit(value, 0)));
}

/// Read data phase: after the command READ, the `n`-th clock edge (1..=16)
/// puts bit `16 - n` of the word on DO, and the data is never touched.
pub proof fn lemma_read_shifts_the_word_out(e: EepromView, word: u16, n: nat)
    requires
        e.state == (EepromState::Reading { word, sent: 0 }),
        1 <= n <= 16,
    ensures
        e.clocked(n).do_bit == bit(word, 16 - n),
        e.clocked(n).state == (EepromState::Reading { word, sent: n as u8 }),
        e.clocked(n).data == e.data,
    decreases n,
{
    reveal_with_fuel(EepromView::clocked, 2);
    if n > 1 {
        lemma_read_shifts_the_word_out(e, word, (n - 1) as nat);
    }
}

} // verus!
