//! MBC7: ROM banking, a two-axis accelerometer and a 93LC56 serial EEPROM.
//!
//! The RAM window is a register file indexed by address bits 4-7: register 0
//! and 1 take the latch sequence 0x55, 0xAA; registers 2-7 show the latched
//! X, Y and a constant Z; registers 8-15 are the EEPROM's pins.

use super::{bank_count, read_banked_rom, rom_banks, rom_read, MbcType};
use crate::bits::{lemma_u32_mask_bounds, lemma_u8_mask_bounds};
use vstd::prelude::*;

verus! {

/// Reading of either axis while the device lies flat.
pub const ACCEL_CENTER: i64 = 0x81D0;

/// Where the EEPROM is in a transaction.
#[derive(Debug, Clone, Copy, PartialEq, Eq, Structural)]
pub enum EepromState {
    Idle,
    /// Collecting start bit, 2-bit opcode and 7-bit address.
    Receiving,
    /// Shifting `word` out, `sent` bits done.
    Reading { word: u16, sent: u8 },
    /// Collecting 16 data bits for the word at `addr`.
    Writing { addr: u8, data: u16, received: u8 },
    /// Collecting 16 data bits for every word.
    WritingAll { data: u16, received: u8 },
}

/// 93LC56B: 128 words of 16 bits, kept as 256 bytes, low byte first.
///
/// Pins in the register byte: bit 7 CS, bit 6 CLK, bit 1 DI, bit 0 DO.
pub struct Eeprom93lc56 {
    pub data: [u8; 256],
    pub write_enabled: bool,
    pub cs: bool,
    pub clk: bool,
    pub di: bool,
    pub do_bit: bool,
    pub state: EepromState,
    pub in_bits: u32,
    pub in_count: u8,
}

/// The chip as a sequence of bytes and its pin and transaction state.
pub struct EepromView {
    pub data: Seq<u8>,
    pub write_enabled: bool,
    pub cs: bool,
    pub clk: bool,
    pub di: bool,
    pub do_bit: bool,
    pub state: EepromState,
    pub in_bits: u32,
    pub in_count: u8,
}

impl View for Eeprom93lc56 {
    type V = EepromView;

    open spec fn view(&self) -> EepromView {
        EepromView {
            data: self.data@,
            write_enabled: self.write_enabled,
            cs: self.cs,
            clk: self.clk,
            di: self.di,
            do_bit: self.do_bit,
            state: self.state,
            in_bits: self.in_bits,
            in_count: self.in_count,
        }
    }
}

/// 1 for true, 0 for false.
pub open spec fn bit_of(b: bool) -> u8 {
    if b {
        1
    } else {
        0
    }
}

/// The 256 bytes with word `addr` (0..=127) replaced by `val`.
pub open spec fn word_stored(data: Seq<u8>, addr: u8, val: u16) -> Seq<u8> {
    data.update(2 * (addr & 0x7F) as int, (val & 0xFF) as u8).update(
        2 * (addr & 0x7F) as int + 1,
        (val >> 8) as u8,
    )
}

/// The word at `addr` (0..=127).
pub open spec fn word_at(data: Seq<u8>, addr: u8) -> u16 {
    (data[2 * (addr & 0x7F) as int] as u16) | ((data[2 * (addr & 0x7F) as int + 1] as u16) << 8)
}

/// 256 bytes holding `val` in every word.
pub open spec fn all_words(val: u16) -> Seq<u8> {
    Seq::new(
        256,
        |i: int|
            if i % 2 == 0 {
                (val & 0xFF) as u8
            } else {
                (val >> 8) as u8
            },
    )
}

impl EepromView {
    /// The memories inside have their sizes.
    pub open spec fn wf(self) -> bool {
        self.data.len() == 256
    }

    /// The register byte, rebuilt from the pins.
    pub open spec fn read(self) -> u8 {
        (if self.cs {
            0x80u8
        } else {
            0u8
        }) | (if self.clk {
            0x40u8
        } else {
            0u8
        }) | (if self.di {
            0x02u8
        } else {
            0u8
        }) | (if self.do_bit {
            0x01u8
        } else {
            0u8
        })
    }

    /// The chip after a complete 10-bit command `bits`
    /// (start, opcode, address): 10 READ, 01 WRITE, 11 ERASE, and 00 with the top
    /// two address bits choosing EWDS (00), WRAL (01), ERAL (10) or WREN (11).
    /// Erasing and writing change the data only while writes are enabled.
    pub open spec fn command(self, bits: u32) -> EepromView {
        let op = ((bits >> 7) & 0x3) as u8;
        let addr = (bits & 0x7F) as u8;
        let s = EepromView { in_bits: 0, in_count: 0, ..self };
        if op == 2 {
            EepromView {
                state: EepromState::Reading { word: word_at(s.data, addr), sent: 0 },
                do_bit: false,
                ..s
            }
        } else if op == 1 {
            EepromView { state: EepromState::Writing { addr, data: 0, received: 0 }, ..s }
        } else if op == 3 {
            EepromView {
                data: if s.write_enabled {
                    word_stored(s.data, addr, 0xFFFF)
                } else {
                    s.data
                },
                do_bit: true,
                state: EepromState::Idle,
                ..s
            }
        } else {
            let sub = (addr >> 5) & 0x3;
            if sub == 3 {
                EepromView { write_enabled: true, do_bit: true, state: EepromState::Idle, ..s }
            } else if sub == 0 {
                EepromView { write_enabled: false, do_bit: true, state: EepromState::Idle, ..s }
            } else if sub == 2 {
                EepromView {
                    data: if s.write_enabled {
                        all_words(0xFFFF)
                    } else {
                        s.data
                    },
                    do_bit: true,
                    state: EepromState::Idle,
                    ..s
                }
            } else {
                EepromView { state: EepromState::WritingAll { data: 0, received: 0 }, ..s }
            }
        }
    }

    /// The chip after a rising clock edge with CS high and `di` on the data line.
    pub open spec fn clock(self, di: bool) -> EepromView {
        match self.state {
            EepromState::Idle => self,
            EepromState::Receiving => {
                if self.in_count == 0 && !di {
                    self
                } else {
                    let bits = (self.in_bits << 1) | (bit_of(di) as u32);
                    if self.in_count >= 9 {
                        self.command(bits)
                    } else {
                        EepromView { in_bits: bits, in_count: (self.in_count + 1) as u8, ..self }
                    }
                }
            },
            EepromState::Reading { word, sent } => {
                if sent < 16 {
                    EepromView {
                        do_bit: (word >> ((15 - sent) as u16)) & 1 != 0,
                        state: EepromState::Reading { word, sent: (sent + 1) as u8 },
                        ..self
                    }
                } else {
                    EepromView { do_bit: true, state: EepromState::Idle, ..self }
                }
            },
            EepromState::Writing { addr, data, received } => {
                let data = (data << 1) | (bit_of(di) as u16);
                if received < 15 {
                    EepromView {
                        state: EepromState::Writing { addr, data, received: (received + 1) as u8 },
                        ..self
                    }
                } else {
                    EepromView {
                        data: if self.write_enabled {
                            word_stored(self.data, addr, data)
                        } else {
                            self.data
                        },
                        do_bit: true,
                        state: EepromState::Idle,
                        ..self
                    }
                }
            },
            EepromState::WritingAll { data, received } => {
                let data = (data << 1) | (bit_of(di) as u16);
                if received < 15 {
                    EepromView {
                        state: EepromState::WritingAll { data, received: (received + 1) as u8 },
                        ..self
                    }
                } else {
                    EepromView {
                        data: if self.write_enabled {
                            all_words(data)
                        } else {
                            self.data
                        },
                        do_bit: true,
                        state: EepromState::Idle,
                        ..self
                    }
                }
            },
        }
    }

    /// The chip after `value` is written to the register byte: DI is taken, a
    /// falling CS resets the transaction, a rising CS starts one, and a rising
    /// CLK under CS shifts one bit.
    pub open spec fn write(self, value: u8) -> EepromView {
        let new_cs = value & 0x80 != 0;
        let new_clk = value & 0x40 != 0;
        let di = value & 0x02 != 0;
        let s1 = EepromView { di, ..self };
        let s2 = if self.cs && !new_cs {
            EepromView { state: EepromState::Idle, in_bits: 0, in_count: 0, do_bit: true, ..s1 }
        } else {
            s1
        };
        let s3 = if !self.cs && new_cs {
            EepromView { state: EepromState::Receiving, in_bits: 0, in_count: 0, ..s2 }
        } else {
            s2
        };
        let s4 = EepromView { cs: new_cs, clk: new_clk, ..s3 };
        if new_cs && !self.clk && new_clk {
            s4.clock(di)
        } else {
            s4
        }
    }

    /// The chip after save data is loaded over its start.
    pub open spec fn load_bytes(self, bytes: Seq<u8>) -> EepromView {
        EepromView {
            data: Seq::new(
                256,
                |i: int|
                    if i < bytes.len() {
                        bytes[i]
                    } else {
                        self.data[i]
                    },
            ),
            ..self
        }
    }
}

impl Eeprom93lc56 {
    /// A blank chip: every byte 0xFF, writes disabled, pins low but DO high.
    pub open spec fn new_spec() -> EepromView {
        EepromView {
            data: Seq::new(256, |i: int| 0xFFu8),
            write_enabled: false,
            cs: false,
            clk: false,
            di: false,
            do_bit: true,
            state: EepromState::Idle,
            in_bits: 0,
            in_count: 0,
        }
    }

    /// A blank chip: every byte 0xFF, writes disabled, pins low but DO high.
    pub fn new() -> (r: Eeprom93lc56)
        ensures
            r@ == Eeprom93lc56::new_spec(),
    {
        let r = Eeprom93lc56 {
            data: [0xFF;256],
            write_enabled: false,
            cs: false,
            clk: false,
            di: false,
            do_bit: true,
            state: EepromState::Idle,
            in_bits: 0,
            in_count: 0,
        };
        assert(r.data@ =~= Seq::new(256, |i: int| 0xFFu8));
        r
    }

    /// Reads the register byte.
    pub fn read(&self) -> (r: u8)
        ensures
            r == self@.read(),
    {
        let cs: u8 = if self.cs {
            0x80
        } else {
            0
        };
        let clk: u8 = if self.clk {
            0x40
        } else {
            0
        };
        let di: u8 = if self.di {
            0x02
        } else {
            0
        };
        let do_: u8 = if self.do_bit {
            0x01
        } else {
            0
        };
        cs | clk | di | do_
    }

    /// The word at `addr`; only the low 7 bits of `addr` count.
    pub fn read_word(&self, addr: u8) -> (r: u16)
        ensures
            r == word_at(self@.data, addr),
    {
        proof {
            lemma_u8_mask_bounds();
        }
        let i = ((addr & 0x7F) as usize) * 2;
        (self.data[i] as u16) | ((self.data[i + 1] as u16) << 8)
    }

    /// Stores `val` at word `addr`; only the low 7 bits of `addr` count.
    pub fn write_word(&mut self, addr: u8, val: u16)
        ensures
            final(self)@ == (EepromView {
                data: word_stored(old(self)@.data, addr, val),
                ..old(self)@
            }),
    {
        proof {
            lemma_u8_mask_bounds();
        }
        let i = ((addr & 0x7F) as usize) * 2;
        self.data[i] = (val & 0xFF) as u8;
        self.data[i + 1] = (val >> 8) as u8;
    }

    fn fill_words(&mut self, val: u16)
        ensures
            final(self)@ == (EepromView { data: all_words(val), ..old(self)@ }),
    {
        let lo = (val & 0xFF) as u8;
        let hi = (val >> 8) as u8;
        let mut i: usize = 0;
        while i < 128
            invariant
                i <= 128,
                lo == (val & 0xFF) as u8,
                hi == (val >> 8) as u8,
                self@ == (EepromView { data: self.data@, ..old(self)@ }),
                forall|k: int| 0 <= k < 2 * i ==> self.data@[k] == all_words(val)[k],
            decreases 128 - i,
        {
            self.data[2 * i] = lo;
            self.data[2 * i + 1] = hi;
            i += 1;
        }
        assert(self.data@ =~= all_words(val));
    }

    fn run_command(&mut self, bits: u32)
        ensures
            final(self)@ == old(self)@.command(bits),
    {
        proof {
            lemma_u32_mask_bounds();
        }
        let op = ((bits >> 7) & 0x3) as u8;
        let addr = (bits & 0x7F) as u8;
        self.in_bits = 0;
        self.in_count = 0;
        if op == 2 {
            let word = self.read_word(addr);
            self.state = EepromState::Reading { word, sent: 0 };
            self.do_bit = false;
        } else if op == 1 {
            self.state = EepromState::Writing { addr, data: 0, received: 0 };
        } else if op == 3 {
            if self.write_enabled {
                self.write_word(addr, 0xFFFF);
            }
            self.do_bit = true;
            self.state = EepromState::Idle;
        } else {
            let sub = (addr >> 5) & 0x3;
            if sub == 3 {
                self.write_enabled = true;
            } else if sub == 0 {
                self.write_enabled = false;
            } else if sub == 2 {
                if self.write_enabled {
                    self.fill_words(0xFFFF);
                }
            } else {
                self.state = EepromState::WritingAll { data: 0, received: 0 };
                return ;
            }
            self.do_bit = true;
            self.state = EepromState::Idle;
        }
    }

    fn clock_edge(&mut self, di: bool)
        ensures
            final(self)@ == old(self)@.clock(di),
    {
        let bit: u8 = if di {
            1
        } else {
            0
        };
        match self.state {
            EepromState::Idle => {},
            EepromState::Receiving => {
                if self.in_count == 0 && !di {
                    return ;
                }
                let bits = (self.in_bits << 1) | (bit as u32);
                if self.in_count >= 9 {
                    self.run_command(bits);
                } else {
                    self.in_bits = bits;
                    self.in_count = self.in_count + 1;
                }
            },
            EepromState::Reading { word, sent } => {
                if sent < 16 {
                    self.do_bit = (word >> ((15 - sent) as u16)) & 1 != 0;
                    self.state = EepromState::Reading { word, sent: sent + 1 };
                } else {
                    self.do_bit = true;
                    self.state = EepromState::Idle;
                }
            },
            EepromState::Writing { addr, data, received } => {
                let data = (data << 1) | (bit as u16);
                if received < 15 {
                    self.state = EepromState::Writing { addr, data, received: received + 1 };
                } else {
                    if self.write_enabled {
                        self.write_word(addr, data);
                    }
                    self.do_bit = true;
                    self.state = EepromState::Idle;
                }
            },
            EepromState::WritingAll { data, received } => {
                let data = (data << 1) | (bit as u16);
                if received < 15 {
                    self.state = EepromState::WritingAll { data, received: received + 1 };
                } else {
                    if self.write_enabled {
                        self.fill_words(data);
                    }
                    self.do_bit = true;
                    self.state = EepromState::Idle;
                }
            },
        }
    }

    /// Writes the register byte and advances the transaction.
    pub fn write(&mut self, value: u8)
        ensures
            final(self)@ == old(self)@.write(value),
    {
        let new_cs = value & 0x80 != 0;
        let new_clk = value & 0x40 != 0;
        let di = value & 0x02 != 0;
        self.di = di;
        if self.cs && !new_cs {
            self.state = EepromState::Idle;
            self.in_bits = 0;
            self.in_count = 0;
            self.do_bit = true;
        }
        if !self.cs && new_cs {
            self.state = EepromState::Receiving;
            self.in_bits = 0;
            self.in_count = 0;
        }
        let rising = new_cs && !self.clk && new_clk;
        self.cs = new_cs;
        self.clk = new_clk;
        if rising {
            self.clock_edge(di);
        }
    }

    /// The 256 bytes, as saved.
    pub fn as_bytes(&self) -> (r: &[u8; 256])
        ensures
            r@ == self@.data,
    {
        &self.data
    }

    /// Loads save data over the start of the chip; bytes past 256 are ignored.
    pub fn load_bytes(&mut self, bytes: &[u8])
        ensures
            final(self)@ == old(self)@.load_bytes(bytes@),
    {
        let len = if bytes.len() < 256 {
            bytes.len()
        } else {
            256
        };
        let mut i: usize = 0;
        while i < len
            invariant
                i <= len,
                len <= 256,
                len <= bytes@.len(),
                len == 256 || len == bytes@.len(),
                self@ == (EepromView { data: self.data@, ..old(self)@ }),
                forall|k: int| 0 <= k < i ==> self.data@[k] == bytes@[k],
                forall|k: int| i <= k < 256 ==> self.data@[k] == old(self).data@[k],
            decreases len - i,
        {
            self.data[i] = bytes[i];
            i += 1;
        }
        assert(self.data@ =~= old(self)@.load_bytes(bytes@).data);
    }
}

/// No register write changes the stored data while writes are disabled and
/// stay disabled, whatever transaction is under way.
pub proof fn lemma_eeprom_write_protect(e: EepromView, value: u8)
    requires
        !e.write_enabled,
    ensures
        e.write(value).data == e.data,
{
}

/// Register index of a window address: address bits 4-7.
pub open spec fn mbc7_reg(addr: u16) -> u16 {
    (addr >> 4) & 0x0F
}

/// `a / b` rounded toward zero, for positive `b`.
pub open spec fn div_toward_zero(a: int, b: int) -> int {
    if a >= 0 {
        a / b
    } else {
        -((-a) / b)
    }
}

/// Hardware reading for a host tilt value: 0x1000 per g in, 0x70 per g out,
/// centred on 0x81D0 and held within 16 bits.
pub open spec fn accel_reading(host: i32) -> u16 {
    let v = ACCEL_CENTER as int + div_toward_zero(host as int * 0x70, 0x1000);
    if v < 0 {
        0
    } else if v > 0xFFFF {
        0xFFFF
    } else {
        v as u16
    }
}

/// ROM, gates, accelerometer readings and the EEPROM of an MBC7.
pub struct Mbc7 {
    pub rom: Vec<u8>,
    pub rom_bank: u16,
    /// Opened by writing 0x0A to 0x0000-0x1FFF.
    pub ram_gate1: bool,
    /// Opened by writing 0x40 to 0x4000-0x5FFF.
    pub ram_gate2: bool,
    pub accel_x: u16,
    pub accel_y: u16,
    pub accel_x_latched: u16,
    pub accel_y_latched: u16,
    /// Set once 0x55 has been written to register 0.
    pub latch_armed: bool,
    pub eeprom: Eeprom93lc56,
}

/// The controller as sequences of bytes and register values.
pub struct Mbc7View {
    pub rom: Seq<u8>,
    pub rom_bank: u16,
    pub ram_gate1: bool,
    pub ram_gate2: bool,
    pub accel_x: u16,
    pub accel_y: u16,
    pub accel_x_latched: u16,
    pub accel_y_latched: u16,
    pub latch_armed: bool,
    pub eeprom: EepromView,
}

impl View for Mbc7 {
    type V = Mbc7View;

    open spec fn view(&self) -> Mbc7View {
        Mbc7View {
            rom: self.rom@,
            rom_bank: self.rom_bank,
            ram_gate1: self.ram_gate1,
            ram_gate2: self.ram_gate2,
            accel_x: self.accel_x,
            accel_y: self.accel_y,
            accel_x_latched: self.accel_x_latched,
            accel_y_latched: self.accel_y_latched,
            latch_armed: self.latch_armed,
            eeprom: self.eeprom@,
        }
    }
}

impl Mbc7View {
    /// Whether both gates are open.
    pub open spec fn ram_open(self) -> bool {
        self.ram_gate1 && self.ram_gate2
    }

    /// What a read of 0x0000-0x7FFF returns.
    pub open spec fn read_rom(self, addr: u16) -> u8 {
        rom_read(self.rom, self.rom_bank as int, addr)
    }

    /// The controller after a register write at 0x0000-0x7FFF.
    pub open spec fn write_rom(self, addr: u16, value: u8) -> Mbc7View {
        if addr < 0x2000 {
            Mbc7View { ram_gate1: value == 0x0A, ..self }
        } else if addr < 0x4000 {
            Mbc7View { rom_bank: value as u16, ..self }
        } else if addr < 0x6000 {
            Mbc7View { ram_gate2: value == 0x40, ..self }
        } else {
            self
        }
    }

    /// With both gates open: the latched axes in registers 2-5, Z as 0x00/0xFF
    /// in 6 and 7, the EEPROM pins from 8 up; 0xFF otherwise.
    pub open spec fn read_ram(self, addr: u16) -> u8 {
        let reg = mbc7_reg(addr);
        if !self.ram_open() {
            0xFF
        } else if reg == 0 || reg == 1 {
            0xFF
        } else if reg == 2 {
            (self.accel_x_latched & 0xFF) as u8
        } else if reg == 3 {
            (self.accel_x_latched >> 8) as u8
        } else if reg == 4 {
            (self.accel_y_latched & 0xFF) as u8
        } else if reg == 5 {
            (self.accel_y_latched >> 8) as u8
        } else if reg == 6 {
            0x00
        } else if reg == 7 {
            0xFF
        } else {
            self.eeprom.read()
        }
    }

    /// With both gates open: 0x55 to register 0 arms the latch, 0xAA to
    /// register 1 then takes the current reading, registers 8-15 drive the EEPROM.
    pub open spec fn write_ram(self, addr: u16, value: u8) -> Mbc7View {
        let reg = mbc7_reg(addr);
        if !self.ram_open() {
            self
        } else if reg == 0 {
            Mbc7View { latch_armed: value == 0x55, ..self }
        } else if reg == 1 {
            if self.latch_armed && value == 0xAA {
                Mbc7View {
                    accel_x_latched: self.accel_x,
                    accel_y_latched: self.accel_y,
                    latch_armed: false,
                    ..self
                }
            } else {
                Mbc7View { latch_armed: false, ..self }
            }
        } else if reg >= 8 {
            Mbc7View { eeprom: self.eeprom.write(value), ..self }
        } else {
            self
        }
    }

    /// The controller after save data is loaded over the start of its RAM.
    pub open spec fn load_ram(self, data: Seq<u8>) -> Mbc7View {
        Mbc7View { eeprom: self.eeprom.load_bytes(data), ..self }
    }

    /// The controller after a tilt reading from the host.
    pub open spec fn set_accelerometer(self, x: i32, y: i32) -> Mbc7View {
        Mbc7View { accel_x: accel_reading(x), accel_y: accel_reading(y), ..self }
    }
}

fn scale_axis(host: i32) -> (r: u16)
    ensures
        r == accel_reading(host),
{
    let h = host as i64;
    let scaled: i64 = if h >= 0 {
        (h * 0x70) / 0x1000
    } else {
        -(((-h) * 0x70) / 0x1000)
    };
    let v = ACCEL_CENTER + scaled;
    if v < 0 {
        0
    } else if v > 0xFFFF {
        0xFFFF
    } else {
        v as u16
    }
}

impl Mbc7 {
    /// A fresh controller: bank 1, both gates shut, device flat, blank EEPROM.
    pub open spec fn new_spec(rom: Seq<u8>) -> Mbc7View {
        Mbc7View {
            rom,
            rom_bank: 1,
            ram_gate1: false,
            ram_gate2: false,
            accel_x: 0x81D0,
            accel_y: 0x81D0,
            accel_x_latched: 0x81D0,
            accel_y_latched: 0x81D0,
            latch_armed: false,
            eeprom: Eeprom93lc56::new_spec(),
        }
    }

    /// A fresh controller: bank 1, both gates shut, device flat, blank EEPROM.
    pub fn new(rom: Vec<u8>) -> (r: Mbc7)
        ensures
            r@ == Mbc7::new_spec(rom@),
    {
        Mbc7 {
            rom,
            rom_bank: 1,
            ram_gate1: false,
            ram_gate2: false,
            accel_x: 0x81D0,
            accel_y: 0x81D0,
            accel_x_latched: 0x81D0,
            accel_y_latched: 0x81D0,
            latch_armed: false,
            eeprom: Eeprom93lc56::new(),
        }
    }

    /// Takes a tilt reading from the host, in units of 0x1000 per g.
    pub fn set_accelerometer(&mut self, x: i32, y: i32)
        ensures
            final(self)@ == old(self)@.set_accelerometer(x, y),
    {
        self.accel_x = scale_axis(x);
        self.accel_y = scale_axis(y);
    }

    /// Whether both RAM gates are open.
    pub fn ram_open(&self) -> (r: bool)
        ensures
            r == self@.ram_open(),
    {
        self.ram_gate1 && self.ram_gate2
    }

    /// Reads 0x0000-0x7FFF.
    pub fn read_rom(&self, addr: u16) -> (r: u8)
        ensures
            r == self@.read_rom(addr),
    {
        read_banked_rom(&self.rom, self.rom_bank, addr)
    }

    /// Writes a controller register at 0x0000-0x7FFF.
    pub fn write_rom(&mut self, addr: u16, value: u8)
        ensures
            final(self)@ == old(self)@.write_rom(addr, value),
    {
        if addr < 0x2000 {
            self.ram_gate1 = value == 0x0A;
        } else if addr < 0x4000 {
            self.rom_bank = value as u16;
        } else if addr < 0x6000 {
            self.ram_gate2 = value == 0x40;
        }
    }

    /// Reads the RAM window at `addr` (0xA000 or above).
    pub fn read_ram(&self, addr: u16) -> (r: u8)
        ensures
            r == self@.read_ram(addr),
    {
        if !self.ram_open() {
            return 0xFF;
        }
        let reg = (addr >> 4) & 0x0F;
        if reg == 0 || reg == 1 {
            0xFF
        } else if reg == 2 {
            (self.accel_x_latched & 0xFF) as u8
        } else if reg == 3 {
            (self.accel_x_latched >> 8) as u8
        } else if reg == 4 {
            (self.accel_y_latched & 0xFF) as u8
        } else if reg == 5 {
            (self.accel_y_latched >> 8) as u8
        } else if reg == 6 {
            0x00
        } else if reg == 7 {
            0xFF
        } else {
            self.eeprom.read()
        }
    }

    /// Writes through the RAM window at `addr` (0xA000 or above).
    pub fn write_ram(&mut self, addr: u16, value: u8)
        ensures
            final(self)@ == old(self)@.write_ram(addr, value),
    {
        if !self.ram_open() {
            return ;
        }
        let reg = (addr >> 4) & 0x0F;
        if reg == 0 {
            self.latch_armed = value == 0x55;
        } else if reg == 1 {
            if self.latch_armed && value == 0xAA {
                self.accel_x_latched = self.accel_x;
                self.accel_y_latched = self.accel_y;
            }
            self.latch_armed = false;
        } else if reg >= 8 {
            self.eeprom.write(value);
        }
    }

    /// The EEPROM contents, as saved.
    pub fn ram_data(&self) -> (r: &[u8; 256])
        ensures
            r@ == self@.eeprom.data,
    {
        self.eeprom.as_bytes()
    }

    /// Loads save data over the start of the RAM; extra bytes are ignored.
    pub fn load_ram(&mut self, data: &[u8])
        ensures
            final(self)@ == old(self)@.load_ram(data@),
    {
        self.eeprom.load_bytes(data);
    }

    /// The controller family.
    pub fn mbc_type(&self) -> (r: MbcType)
        ensures
            r == MbcType::Mbc7,
    {
        MbcType::Mbc7
    }

    /// Number of whole 16 KB banks in the ROM.
    pub fn rom_bank_count(&self) -> (r: usize)
        ensures
            r == bank_count(self@.rom),
    {
        rom_banks(&self.rom)
    }

    /// The selected ROM bank.
    pub fn current_rom_bank(&self) -> (r: u16)
        ensures
            r == self@.rom_bank,
    {
        self.rom_bank
    }

    /// Whether the RAM gate is open.
    pub fn is_ram_enabled(&self) -> (r: bool)
        ensures
            r == self@.ram_open(),
    {
        self.ram_open()
    }
}

/// The latched reading changes only on 0xAA to register 1 right after 0x55 to
/// register 0, with both gates open.
pub proof fn lemma_mbc7_latch_sequence(c: Mbc7View, a0: u16, a1: u16, v: u8)
    requires
        c.ram_open(),
        mbc7_reg(a0) == 0,
        mbc7_reg(a1) == 1,
    ensures
        c.write_ram(a0, 0x55).write_ram(a1, 0xAA).accel_x_latched == c.accel_x,
        c.write_ram(a0, 0x55).write_ram(a1, 0xAA).accel_y_latched == c.accel_y,
        v != 0x55 ==> c.write_ram(a0, v).write_ram(a1, 0xAA).accel_x_latched == c.accel_x_latched,
        v != 0x55 ==> c.write_ram(a0, v).write_ram(a1, 0xAA).accel_y_latched == c.accel_y_latched,
{
}

} // verus!
