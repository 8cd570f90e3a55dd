//! What holds of the memory map for every address and value.

use super::MemoryView;
use vstd::prelude::*;

verus! {

/// The interrupt registers: 0xFFFF reads IE as written; 0xFF0F reads IF with
/// its upper three bits set.
pub proof fn lemma_interrupt_registers(m: MemoryView, value: u8)
    requires
        m.wf(),
    ensures
        m.read(0xFFFF) == m.ie,
        m.read(0xFF0F) == m.io[0x0F] | 0xE0,
        m.write(0xFFFF, value).read(0xFFFF) == value,
        m.write(0xFF0F, value).read(0xFF0F) == value | 0xE0,
        m.write(0xFFFF, value).read(0xFF0F) == m.read(0xFF0F),
        m.write(0xFF0F, value).read(0xFFFF) == m.read(0xFFFF),
{
}

/// Echo RAM: 0xE000-0xFDFF and 0xC000-0xDDFF are the same memory. A read or a
/// write through either address is the same read or write.
pub proof fn lemma_echo_ram(m: MemoryView, addr: u16, value: u8)
    requires
        m.wf(),
        0xC000 <= addr <= 0xDDFF,
    ensures
        m.read((addr + 0x2000) as u16) == m.read(addr),
        m.write(addr, value) == m.write((addr + 0x2000) as u16, value),
        m.write(addr, value).read((addr + 0x2000) as u16) == value,
        m.write((addr + 0x2000) as u16, value).read(addr) == value,
{
    let echo = (addr + 0x2000) as u16;
    assert(m.wram_index(echo) == m.wram_index(addr));
    assert(0 <= m.wram_index(addr) < 0x8000);
    assert(m.write(addr, value).wram_index(addr) == m.wram_index(addr));
    assert(m.write(addr, value).wram_index(echo) == m.wram_index(addr));
    assert(m.write(echo, value).wram_index(addr) == m.wram_index(addr));
}

/// DMA: after `page` is written to 0xFF46, OAM byte `i` is what address
/// `page * 0x100 + i` reads, before the write and after it; nothing but OAM
/// has changed.
pub proof fn lemma_dma(m: MemoryView, page: u8, i: int)
    requires
        m.wf(),
        0 <= i < 0xA0,
    ensures
        m.write(0xFF46, page).oam[i] == m.read((page * 0x100 + i) as u16),
        m.write(0xFF46, page).oam[i] == m.write(0xFF46, page).read((page * 0x100 + i) as u16),
        m.write(0xFF46, page).read((0xFE00 + i) as u16) == m.read((page * 0x100 + i) as u16),
        m.write(0xFF46, page) == (MemoryView { oam: m.write(0xFF46, page).oam, ..m }),
{
    let after = m.write(0xFF46, page);
    let src = (page * 0x100 + i) as u16;
    assert(after.oam[i] == m.read(src));
    if page == 0xFE {
        assert(m.read(src) == m.oam[i]);
    } else {
        assert(after.read(src) == m.read(src));
    }
}

/// No write to 0x0000-0x7FFF changes a byte of the ROM image, and the
/// unusable area reads 0xFF and drops writes.
pub proof fn lemma_rom_and_unusable(m: MemoryView, addr: u16, value: u8)
    requires
        m.wf(),
    ensures
        addr < 0x8000 ==> m.write(addr, value).cart.rom() == m.cart.rom(),
        0xFEA0 <= addr < 0xFF00 ==> m.read(addr) == 0xFF && m.write(addr, value) == m,
{
}

/// Register policy: a write to LY is ignored, a write to DIV clears it, and
/// the color-only registers are open bus in a monochrome session.
pub proof fn lemma_register_policy(m: MemoryView, value: u8, offset: int)
    requires
        m.wf(),
    ensures
        m.write(0xFF44, value) == m,
        m.write(0xFF04, value).read(0xFF04) == 0,
        !m.cgb.mode && super::is_cgb_register(offset) ==> m.read((0xFF00 + offset) as u16) == 0xFF
            && m.write((0xFF00 + offset) as u16, value) == m,
{
}

/// Palette data writes in color mode: the byte lands at the 6-bit index, and
/// with bit 7 of the index register set the index moves on by one modulo 0x40.
pub proof fn lemma_palette_auto_increment(m: MemoryView, value: u8)
    requires
        m.wf(),
        m.cgb.mode,
    ensures
        m.write(0xFF69, value).cgb.bg_palette_ram[(m.cgb.bcps & 0x3F) as int] == value,
        m.cgb.bcps & 0x80 != 0 ==> (m.write(0xFF69, value).cgb.bcps & 0x3F) as int == ((
        m.cgb.bcps & 0x3F) + 1) % 0x40 && m.write(0xFF69, value).cgb.bcps & 0x80 != 0,
        m.cgb.bcps & 0x80 == 0 ==> m.write(0xFF69, value).cgb.bcps == m.cgb.bcps,
{
    let b = m.cgb.bcps;
    let n = super::cgb::next_byte(b);
    assert(b & 0x3F <= 0x3F) by (bit_vector);
    assert(b & 0x80 != 0 ==> ((((b & 0x80) | (n & 0x3F)) & 0x3F) == (if (b & 0x3F) == 0x3F {
        0u8
    } else {
        ((b & 0x3F) + 1) as u8
    })) && ((b & 0x80) | (n & 0x3F)) & 0x80 != 0) by (bit_vector)
        requires
            n == if b == 255 {
                0u8
            } else {
                (b + 1) as u8
            },
    ;
}

} // verus!
