//! The machine as the host drives it: CPU, bus, PPU and the two double
//! buffers the host reads from.
//!
//! One instruction at a time, the CPU runs and the peripherals catch up with
//! the cycles it took: the timer at CPU speed, the PPU in Game Boy time
//! (half the CPU cycles in double speed). A frame is 70224 T-cycles.

use crate::bus::{BusView, MemoryBus};
use crate::cpu::laws::whole_machine_cycles;
use crate::cpu::{step_spec, Cpu, Outcome};
use crate::error::EmuError;
use crate::interrupts::{requested, Interrupt, InterruptController};
use crate::joypad::{Button, Joypad};
use crate::memory::camera::{
    decoded_rgba, CameraView, SensorSettings, CAPTURE_OFFSET, PIXELS, RGBA_BYTES,
};
use crate::memory::cartridge::{copy_of, MbcType};
use crate::memory::rtc::Rtc;
use crate::memory::{Memory, MemoryView};
use crate::ppu::cgb::{rgb555, rgb888};
use crate::ppu::laws::{after_tick, frame_position, in_frame, lemma_after_tick, settled};
use crate::ppu::{Ppu, PpuView};
use crate::timer::Timer;
use vstd::prelude::*;

verus! {

/// T-cycles of one frame.
pub const CYCLES_PER_FRAME: u32 = 70224;

/// Bytes of the RGBA frame buffer: 160 x 144 x 4.
pub const FRAME_BUFFER_SIZE: usize = 92160;

/// Bytes of the RGBA camera live buffer: 128 x 112 x 4.
pub const CAMERA_BUFFER_SIZE: usize = 57344;

/// Two buffers of `N` bytes: the host reads the front while the core writes
/// the back.
pub struct DoubleBuffer<const N: usize> {
    pub first: Vec<u8>,
    pub second: Vec<u8>,
    /// 0 when `first` is the front buffer, 1 when `second` is.
    pub front: usize,
}

impl<const N: usize> DoubleBuffer<N> {
    /// Both buffers have `N` bytes and `front` names one of them.
    pub open spec fn wf(&self) -> bool {
        &&& self.first@.len() == N
        &&& self.second@.len() == N
        &&& self.front <= 1
    }

    /// Contents of the front buffer.
    pub open spec fn front_view(&self) -> Seq<u8> {
        if self.front == 0 {
            self.first@
        } else {
            self.second@
        }
    }

    /// Contents of the back buffer.
    pub open spec fn back_view(&self) -> Seq<u8> {
        if self.front == 0 {
            self.second@
        } else {
            self.first@
        }
    }

    /// Two zeroed buffers.
    pub fn new() -> (r: Self)
        ensures
            r.wf(),
            r.front_view() == Seq::new(N as nat, |i: int| 0u8),
            r.back_view() == Seq::new(N as nat, |i: int| 0u8),
    {
        DoubleBuffer {
            first: crate::memory::cartridge::zeroed(N),
            second: crate::memory::cartridge::zeroed(N),
            front: 0,
        }
    }

    /// The buffer the host reads.
    pub fn front(&self) -> (r: &Vec<u8>)
        ensures
            r@ == self.front_view(),
    {
        if self.front == 0 {
            &self.first
        } else {
            &self.second
        }
    }

    /// The buffer the core writes.
    pub fn back_mut(&mut self) -> (r: &mut Vec<u8>)
        requires
            old(self).front <= 1,
        ensures
            r@ == old(self).back_view(),
            final(self).front == old(self).front,
            final(self).back_view() == final(r)@,
            final(self).front_view() == old(self).front_view(),
    {
        if self.front == 0 {
            &mut self.second
        } else {
            &mut self.first
        }
    }

    /// Replaces the back buffer.
    pub fn set_back(&mut self, data: Vec<u8>)
        requires
            old(self).wf(),
            data@.len() == N,
        ensures
            final(self).wf(),
            final(self).front == old(self).front,
            final(self).back_view() == data@,
            final(self).front_view() == old(self).front_view(),
    {
        if self.front == 0 {
            self.second = data;
        } else {
            self.first = data;
        }
    }

    /// Makes the back buffer the front buffer.
    pub fn swap(&mut self)
        requires
            old(self).front <= 1,
        ensures
            final(self).front == 1 - old(self).front,
            final(self).front_view() == old(self).back_view(),
            final(self).back_view() == old(self).front_view(),
            final(self).first == old(self).first,
            final(self).second == old(self).second,
    {
        self.front = 1 - self.front;
    }
}

/// The core: the machine, the host's two double buffers and three counters.
pub struct GameBoyCore {
    pub cpu: Cpu,
    pub bus: MemoryBus,
    pub ppu: Ppu,
    pub interrupts: InterruptController,
    pub frame_buffer: DoubleBuffer<FRAME_BUFFER_SIZE>,
    pub camera_live_buffer: DoubleBuffer<CAMERA_BUFFER_SIZE>,
    pub frame_count: u32,
    pub total_cycles: u64,
    pub instruction_count: u64,
}

/// The emulated machine: what instructions and peripherals act on.
pub struct MachineView {
    pub cpu: Cpu,
    pub bus: BusView,
    pub ppu: PpuView,
}

/// The timer's part of a memory update: IF bit 2 requested if TIMA reloaded.
pub open spec fn timer_ticked(bus: BusView, cycles: u32) -> BusView {
    BusView {
        timer: bus.timer.ticked(cycles as nat),
        memory: if bus.timer.reloads_within(cycles as nat) {
            requested(bus.memory, 0x04)
        } else {
            bus.memory
        },
        ..bus
    }
}

/// A count held in 64 bits: it stops at the largest value.
pub open spec fn sat64(n: int) -> u64 {
    if n > u64::MAX {
        u64::MAX
    } else {
        n as u64
    }
}

/// A count held in 32 bits: it stops at the largest value.
pub open spec fn sat32(n: int) -> u32 {
    if n > u32::MAX {
        u32::MAX
    } else {
        n as u32
    }
}

/// CPU cycles in Game Boy time: halved in double speed.
pub open spec fn game_boy_cycles(bus: BusView, cycles: u32) -> u32 {
    if bus.memory.cgb.double_speed {
        cycles / 2
    } else {
        cycles
    }
}

impl MachineView {
    /// CPU, bus and PPU are well-formed and the PPU is not far behind.
    pub open spec fn wf(self) -> bool {
        &&& self.cpu.wf()
        &&& self.bus.wf()
        &&& self.ppu.wf()
        &&& self.ppu.cycles < 0x8000_0000
    }

    /// The machine at power-on around memory `memory`.
    pub open spec fn power_on(memory: MemoryView) -> MachineView {
        MachineView {
            cpu: Cpu::power_on(),
            bus: BusView { memory, timer: Timer::power_on(), joypad: Joypad::power_on() },
            ppu: PpuView::power_on(memory.cgb.mode),
        }
    }

    /// The memory the PPU sees when it catches up with `cycles` CPU cycles:
    /// the timer has ticked before it.
    pub open spec fn tick_memory(self, cycles: u32) -> MemoryView {
        timer_ticked(self.bus, cycles).memory
    }

    /// The machine after the peripherals catch up with `cycles` CPU cycles:
    /// first the timer, then the PPU (`after_tick` is `PpuView::tick`).
    pub open spec fn caught_up(self, cycles: u32) -> MachineView {
        let bus1 = timer_ticked(self.bus, cycles);
        let ticked = after_tick(self.ppu, bus1.memory, game_boy_cycles(self.bus, cycles));
        MachineView { cpu: self.cpu, bus: BusView { memory: ticked.1, ..bus1 }, ppu: ticked.0 }
    }

    /// The CPU's step on this machine: `step_spec`, kept folded where only
    /// the frame's bookkeeping matters.
    #[verifier::opaque]
    pub open spec fn cpu_stepped(self) -> Result<Outcome, u8> {
        step_spec(self.cpu, self.bus)
    }

    /// One CPU step followed by the peripherals; returns the machine, the CPU
    /// cycles and the Game Boy cycles that passed, or the unimplemented opcode.
    #[verifier::opaque]
    pub open spec fn stepped(self) -> Result<(MachineView, u32, u32), u8> {
        match self.cpu_stepped() {
            Ok(out) => Ok(
                (
                    MachineView { cpu: out.cpu, bus: out.bus, ppu: self.ppu }.caught_up(out.cycles),
                    out.cycles,
                    game_boy_cycles(out.bus, out.cycles),
                ),
            ),
            Err(op) => Err(op),
        }
    }

    /// The machine after the rest of a frame of which `elapsed` cycles have
    /// passed, with the number of instructions run on top of `count`: steps
    /// until 70224 cycles are reached. An unimplemented opcode ends the run at
    /// the step that fetched it. (Every step takes between 2 and 24 cycles,
    /// see `lemma_stepped`; the test for it is what makes the run end.)
    pub open spec fn frame_run(self, elapsed: int, count: int) -> (
        MachineView,
        int,
        int,
        Option<u8>,
    )
        decreases 70224 + 24 - elapsed,
    {
        if elapsed >= 70224 || elapsed < 0 {
            (self, elapsed, count, None)
        } else {
            match self.stepped() {
                Ok((next, cycles, gb)) => if 0 < gb <= 24 {
                    next.frame_run(elapsed + gb, count + 1)
                } else {
                    (next, elapsed, count, None)
                },
                Err(op) => (self, elapsed, count, Some(op)),
            }
        }
    }
}

/// A step takes between 2 and 24 Game Boy cycles, and the PPU's part in it
/// is one tick over the memory that CPU and timer left.
pub proof fn lemma_stepped(m: MachineView)
    requires
        m.stepped().is_ok(),
    ensures
        whole_machine_cycles(m.stepped().unwrap().1),
        2 <= m.stepped().unwrap().2 <= 24,
        m.stepped().unwrap().0.ppu == after_tick(
            m.ppu,
            m.stepped().unwrap().0.tick_source(m),
            m.stepped().unwrap().2,
        ).0,
{
    reveal(MachineView::cpu_stepped);
    reveal(MachineView::stepped);
    reveal(MachineView::tick_source);
    crate::cpu::laws::lemma_step_cycles(m.cpu, m.bus);
}

impl MachineView {
    /// The memory the PPU saw in the step that led from `before` to here.
    #[verifier::opaque]
    pub open spec fn tick_source(self, before: MachineView) -> MemoryView {
        match before.cpu_stepped() {
            Ok(out) => MachineView { cpu: out.cpu, bus: out.bus, ppu: before.ppu }.tick_memory(
                out.cycles,
            ),
            Err(_) => before.bus.memory,
        }
    }

    /// Whether the LCD is on whenever the PPU ticks during the rest of a
    /// frame of which `elapsed` cycles have passed.
    pub open spec fn lcd_on_throughout(self, elapsed: int) -> bool
        decreases 70224 + 24 - elapsed,
    {
        if elapsed >= 70224 || elapsed < 0 {
            true
        } else {
            match self.stepped() {
                Ok((next, cycles, gb)) => if 0 < gb <= 24 {
                    crate::ppu::laws::lcd_on(next.tick_source(self)) && next.lcd_on_throughout(
                        elapsed + gb,
                    )
                } else {
                    true
                },
                Err(op) => true,
            }
        }
    }
}

/// One step with the LCD on moves a settled PPU by the Game Boy cycles the
/// step took, modulo a frame.
pub proof fn lemma_step_position(m: MachineView)
    requires
        m.ppu.wf(),
        settled(m.ppu),
        m.stepped().is_ok(),
        crate::ppu::laws::lcd_on(m.stepped().unwrap().0.tick_source(m)),
    ensures
        m.stepped().unwrap().0.ppu.wf(),
        settled(m.stepped().unwrap().0.ppu),
        2 <= m.stepped().unwrap().2 <= 24,
        frame_position(m.stepped().unwrap().0.ppu) == in_frame(
            frame_position(m.ppu) + m.stepped().unwrap().2,
        ),
{
    lemma_stepped(m);
    let next = m.stepped().unwrap().0;
    let gb = m.stepped().unwrap().2;
    lemma_after_tick(m.ppu, next.tick_source(m), gb);
}

/// While the LCD is on whenever the PPU ticks, the PPU has moved at the end
/// of a frame's run by exactly the Game Boy cycles that the run took, modulo
/// the 70224 cycles of a frame; the run ends less than 24 cycles past 70224.
pub proof fn lemma_frame_run_position(m: MachineView, elapsed: int, count: int)
    requires
        m.ppu.wf(),
        settled(m.ppu),
        0 <= elapsed,
        m.lcd_on_throughout(elapsed),
    ensures
        m.frame_run(elapsed, count).0.ppu.wf(),
        settled(m.frame_run(elapsed, count).0.ppu),
        elapsed <= m.frame_run(elapsed, count).1,
        elapsed < 70224 ==> m.frame_run(elapsed, count).1 < 70224 + 24,
        m.frame_run(elapsed, count).3.is_none() ==> m.frame_run(elapsed, count).1 >= 70224,
        frame_position(m.frame_run(elapsed, count).0.ppu) == in_frame(
            frame_position(m.ppu) + (m.frame_run(elapsed, count).1 - elapsed),
        ),
    decreases 70224 + 24 - elapsed,
{
    crate::ppu::laws::lemma_position_range(m.ppu);
    crate::ppu::laws::lemma_in_frame(frame_position(m.ppu), 0);
    if elapsed < 70224 {
        let r = m.stepped();
        if r.is_ok() {
            let next = r.unwrap().0;
            let gb = r.unwrap().2;
            lemma_stepped(m);
            lemma_step_position(m);
            lemma_frame_run_position(next, elapsed + gb, count + 1);
            let rest = next.frame_run(elapsed + gb, count + 1).1 - (elapsed + gb);
            crate::ppu::laws::lemma_position_adds(frame_position(m.ppu), gb as int, rest);
            assert(m.frame_run(elapsed, count) == next.frame_run(elapsed + gb, count + 1));
        }
    }
}

/// Frame end at line start: a frame that begins within the first 56 cycles of
/// line 0 and keeps the LCD on ends in OAM scan on line 0. In particular the
/// first frame after a ROM is loaded does, if the program leaves the LCD on.
pub proof fn lemma_frame_ends_at_line_start(m: MachineView)
    requires
        m.ppu.wf(),
        settled(m.ppu),
        frame_position(m.ppu) < 56,
        m.lcd_on_throughout(0),
        m.frame_run(0, 0).3.is_none(),
    ensures
        m.frame_run(0, 0).0.ppu.line == 0,
        m.frame_run(0, 0).0.ppu.mode == crate::ppu::PpuMode::OamScan,
        m.frame_run(0, 0).0.ppu.cycles < 80,
{
    lemma_frame_run_position(m, 0, 0);
    crate::ppu::laws::lemma_position_range(m.ppu);
    let end = m.frame_run(0, 0);
    let over = end.1 - 70224;
    assert(0 <= over < 24);
    crate::ppu::laws::lemma_in_frame(frame_position(m.ppu), over);
    crate::ppu::laws::lemma_position_zero_is_line_start(end.0.ppu);
}

impl MachineView {
    /// The machine with its memory replaced.
    pub open spec fn with_memory(self, memory: MemoryView) -> MachineView {
        MachineView { bus: BusView { memory, ..self.bus }, ..self }
    }

    /// The machine with the camera replaced, on a Pocket Camera.
    pub open spec fn with_camera(self, camera: CameraView) -> MachineView {
        self.with_memory(self.bus.memory.with_camera(camera))
    }

    /// The camera, on a Pocket Camera.
    pub open spec fn camera(self) -> Option<CameraView> {
        self.bus.memory.cart.camera()
    }

    /// The machine with the cartridge's clock, taken as based at host time
    /// `base`, brought up to host time `now`.
    pub open spec fn with_clock_advanced(self, base: u64, now: u64) -> MachineView {
        self.with_memory(
            MemoryView {
                cart: self.bus.memory.cart.clock_advanced(base, now),
                ..self.bus.memory
            },
        )
    }

    /// Whether `self` is `other` with the cartridge's clock brought up from
    /// one host time to another. Without an MBC3 the two are equal.
    pub open spec fn is_with_clock_advanced(self, other: MachineView) -> bool {
        exists|base: u64, now: u64| self == #[trigger] other.with_clock_advanced(base, now)
    }
}

/// Bringing the clock up changes nothing but an MBC3's live clock registers:
/// CPU, PPU, timer, joypad and all memory outside the cartridge stay; the
/// cartridge keeps its ROM, RAM, bank registers, latched snapshot and latch
/// detector; and without an MBC3 the machine is the same.
pub proof fn lemma_clock_advance_keeps_the_rest(after: MachineView, before: MachineView)
    requires
        after.is_with_clock_advanced(before),
    ensures
        after == before.with_memory(
            MemoryView { cart: after.bus.memory.cart, ..before.bus.memory },
        ),
        !(before.bus.memory.cart is Mbc3) ==> after == before,
        before.bus.memory.cart is Mbc3 ==> {
            &&& after.bus.memory.cart is Mbc3
            &&& after.bus.memory.cart == before.bus.memory.cart.with_clock(
                after.bus.memory.cart->Mbc3_0.rtc,
            )
            &&& after.bus.memory.cart->Mbc3_0.rtc.latched()
                == before.bus.memory.cart->Mbc3_0.rtc.latched()
            &&& after.bus.memory.cart->Mbc3_0.rtc.latch_ready
                == before.bus.memory.cart->Mbc3_0.rtc.latch_ready
        },
{
    let (base, now) = choose|base: u64, now: u64|
        after == #[trigger] before.with_clock_advanced(base, now);
    assert(after == before.with_clock_advanced(base, now));
}

impl GameBoyCore {
    /// The emulated machine inside the core.
    pub open spec fn machine(&self) -> MachineView {
        MachineView { cpu: self.cpu, bus: self.bus@, ppu: self.ppu@ }
    }

    /// The machine and both double buffers are well-formed.
    pub open spec fn wf(&self) -> bool {
        &&& self.machine().wf()
        &&& self.frame_buffer.wf()
        &&& self.camera_live_buffer.wf()
    }

    /// Whether the two cores differ in nothing but the machine.
    pub open spec fn same_host_state(&self, other: &GameBoyCore) -> bool {
        &&& self.frame_buffer == other.frame_buffer
        &&& self.camera_live_buffer == other.camera_live_buffer
        &&& self.frame_count == other.frame_count
        &&& self.total_cycles == other.total_cycles
        &&& self.instruction_count == other.instruction_count
    }

    /// A core whose memory differs from this one's by a clock tick, and
    /// nothing else, shows this machine with its clock brought up.
    proof fn lemma_clock_brought_up(&self, after: &GameBoyCore)
        requires
            after.bus.memory.cartridge.is_clock_advance_of(&self.bus.memory.cartridge),
            after.bus.memory@ == (MemoryView {
                cart: after.bus.memory@.cart,
                ..self.bus.memory@
            }),
            after.cpu == self.cpu,
            after.ppu@ == self.ppu@,
            after.bus.timer == self.bus.timer,
            after.bus.joypad == self.bus.joypad,
        ensures
            after.machine().is_with_clock_advanced(self.machine()),
    {
        let base: u64 = match self.bus.memory.cartridge.clock() {
            Some(b) => b.base_timestamp,
            None => 0,
        };
        let now: u64 = match after.bus.memory.cartridge.clock() {
            Some(a) => a.base_timestamp,
            None => 0,
        };
        match self.bus.memory.cartridge.clock() {
            Some(b) => {
                let a = after.bus.memory.cartridge.clock()->0;
                let c = self.bus.memory@.cart->Mbc3_0;
                assert(Rtc { base_timestamp: base, ..c.rtc } == b);
                assert(after.bus.memory@.cart == self.bus.memory@.cart.clock_advanced(base, now));
            },
            None => {
                assert(after.bus.memory@.cart == self.bus.memory@.cart.clock_advanced(base, now));
            },
        }
        assert(after.bus.memory@ == (MemoryView {
            cart: self.bus.memory@.cart.clock_advanced(base, now),
            ..self.bus.memory@
        }));
        assert(after.machine() == self.machine().with_clock_advanced(base, now));
    }

    /// A fresh core with no ROM: everything at power-on, buffers black.
    pub fn new() -> (r: GameBoyCore)
        ensures
            r.wf(),
            r.machine() == MachineView::power_on(
                MemoryView::power_on(
                    crate::memory::cartridge::CartridgeView::RomOnly(Seq::empty()),
                    false,
                ),
            ),
            r.frame_buffer.front_view() == Seq::new(92160, |i: int| 0u8),
            r.camera_live_buffer.front_view() == Seq::new(57344, |i: int| 0u8),
            r.frame_count == 0,
            r.total_cycles == 0,
            r.instruction_count == 0,
    {
        GameBoyCore {
            cpu: Cpu::new(),
            bus: MemoryBus::new(Memory::new(), Timer::new(), Joypad::new()),
            ppu: Ppu::new(),
            interrupts: InterruptController::new(),
            frame_buffer: DoubleBuffer::new(),
            camera_live_buffer: DoubleBuffer::new(),
            frame_count: 0,
            total_cycles: 0,
            instruction_count: 0,
        }
    }

    /// Loads a ROM image and power-cycles the machine in the given mode. An
    /// image shorter than 0x150 bytes is refused and nothing changes. The
    /// host's buffers and counters are kept either way.
    pub fn load_rom(&mut self, rom_data: &[u8], cgb_mode: bool) -> (r: Result<(), EmuError>)
        requires
            old(self).wf(),
        ensures
            final(self).wf(),
            final(self).same_host_state(old(self)),
            rom_data@.len() < 0x150 ==> r == Err::<(), EmuError>(EmuError::RomTooSmall)
                && final(self).machine() == old(self).machine(),
            rom_data@.len() >= 0x150 ==> r.is_ok() && final(self).machine()
                == MachineView::power_on(MemoryView::loaded(rom_data@, cgb_mode)),
    {
        match self.bus.memory.load_rom(rom_data, cgb_mode) {
            Err(e) => Err(e),
            Ok(()) => {
                self.cpu = Cpu::new();
                self.bus.timer = Timer::new();
                self.bus.joypad = Joypad::new();
                self.ppu.reset(cgb_mode);
                Ok(())
            },
        }
    }

    /// Runs one CPU step and lets timer and PPU catch up. Returns the CPU
    /// cycles and the Game Boy cycles taken, or the opcode that is not
    /// implemented, in which case nothing has changed.
    pub fn step_machine(&mut self) -> (r: Result<(u32, u32), EmuError>)
        requires
            old(self).wf(),
        ensures
            final(self).wf(),
            final(self).frame_buffer == old(self).frame_buffer,
            final(self).camera_live_buffer == old(self).camera_live_buffer,
            final(self).frame_count == old(self).frame_count,
            match old(self).machine().stepped() {
                Ok((next, cycles, gb)) => {
                    &&& r == Ok::<(u32, u32), EmuError>((cycles, gb))
                    &&& final(self).machine() == next
                    &&& 2 <= gb <= 24
                    &&& final(self).total_cycles == sat64(old(self).total_cycles + gb)
                    &&& final(self).instruction_count == sat64(old(self).instruction_count + 1)
                },
                Err(op) => {
                    &&& r == Err::<(u32, u32), EmuError>(EmuError::UnimplementedOpcode(op))
                    &&& final(self).machine() == old(self).machine()
                    &&& final(self).same_host_state(old(self))
                },
            },
    {
        proof {
            reveal(MachineView::cpu_stepped);
            reveal(MachineView::stepped);
            reveal(after_tick);
            if old(self).machine().stepped().is_ok() {
                lemma_stepped(old(self).machine());
            }
        }
        let cycles = match self.cpu.step(&mut self.bus, &mut self.interrupts) {
            Ok(c) => c,
            Err(e) => {
                return Err(e);
            },
        };
        let gb_cycles = if self.bus.memory.is_double_speed() {
            cycles / 2
        } else {
            cycles
        };
        self.bus.timer.tick(cycles, &mut self.bus.memory, &self.interrupts);
        proof {
            crate::ppu::laws::lemma_render_keeps_shape(self.ppu@, self.bus.memory@);
        }
        self.ppu.tick(gb_cycles, &mut self.bus.memory, &self.interrupts);
        self.total_cycles = self.total_cycles.saturating_add(gb_cycles as u64);
        self.instruction_count = self.instruction_count.saturating_add(1);
        Ok((cycles, gb_cycles))
    }

    /// Executes one CPU instruction with its peripherals and brings the
    /// cartridge clock up to date; returns the CPU cycles consumed. On an
    /// unimplemented opcode nothing changes.
    pub fn step_single(&mut self) -> (r: Result<u32, EmuError>)
        requires
            old(self).wf(),
        ensures
            final(self).wf(),
            final(self).frame_buffer == old(self).frame_buffer,
            final(self).camera_live_buffer == old(self).camera_live_buffer,
            final(self).frame_count == old(self).frame_count,
            match old(self).machine().stepped() {
                Ok((next, cycles, gb)) => {
                    &&& r == Ok::<u32, EmuError>(cycles)
                    &&& final(self).machine().is_with_clock_advanced(next)
                    &&& final(self).total_cycles == sat64(old(self).total_cycles + gb)
                    &&& final(self).instruction_count == sat64(old(self).instruction_count + 1)
                },
                Err(op) => {
                    &&& r == Err::<u32, EmuError>(EmuError::UnimplementedOpcode(op))
                    &&& final(self).machine() == old(self).machine()
                    &&& final(self).same_host_state(old(self))
                },
            },
    {
        match self.step_machine() {
            Ok((cycles, _)) => {
                let ghost before = *self;
                self.bus.memory.tick_rtc();
                proof {
                    before.lemma_clock_brought_up(self);
                }
                Ok(cycles)
            },
            Err(e) => Err(e),
        }
    }

    /// Copies the PPU's picture into the back buffer and makes it the front.
    fn render_frame(&mut self)
        requires
            old(self).wf(),
        ensures
            final(self).wf(),
            final(self).machine() == old(self).machine(),
            final(self).frame_buffer.front_view() == old(self).machine().ppu.buffer,
            final(self).camera_live_buffer == old(self).camera_live_buffer,
            final(self).frame_count == old(self).frame_count,
            final(self).total_cycles == old(self).total_cycles,
            final(self).instruction_count == old(self).instruction_count,
    {
        let picture = copy_of(self.ppu.get_buffer().as_slice());
        self.frame_buffer.set_back(picture);
        self.frame_buffer.swap();
    }

    /// Advances one frame: runs instructions until 70224 Game Boy cycles
    /// have passed, publishes the picture in the front buffer and brings the
    /// cartridge clock up to date. Returns the number of instructions run.
    ///
    /// If an unimplemented opcode is fetched the frame stops there: the
    /// instructions before it have run and are counted, the picture is not
    /// published and the frame is not counted.
    pub fn step_frame(&mut self) -> (r: Result<u32, EmuError>)
        requires
            old(self).wf(),
        ensures
            final(self).wf(),
            final(self).camera_live_buffer == old(self).camera_live_buffer,
            ({
                let run = old(self).machine().frame_run(0, 0);
                &&& final(self).total_cycles == sat64(old(self).total_cycles + run.1)
                &&& final(self).instruction_count == sat64(old(self).instruction_count + run.2)
                &&& match run.3 {
                    None => {
                        &&& r == Ok::<u32, EmuError>(run.2 as u32)
                        &&& final(self).machine().is_with_clock_advanced(run.0)
                        &&& final(self).frame_buffer.front_view() == run.0.ppu.buffer
                        &&& final(self).frame_count == sat32(old(self).frame_count + 1)
                        &&& 70224 <= run.1 < 70224 + 24
                    },
                    Some(op) => {
                        &&& r == Err::<u32, EmuError>(EmuError::UnimplementedOpcode(op))
                        &&& final(self).machine() == run.0
                        &&& final(self).frame_buffer == old(self).frame_buffer
                        &&& final(self).frame_count == old(self).frame_count
                    },
                }
            }),
    {
        let mut elapsed: u32 = 0;
        let mut count: u32 = 0;
        while elapsed < CYCLES_PER_FRAME
            invariant
                self.wf(),
                elapsed < 70224 + 24,
                count <= elapsed,
                self.machine().frame_run(elapsed as int, count as int)
                    == old(self).machine().frame_run(0, 0),
                self.frame_buffer == old(self).frame_buffer,
                self.camera_live_buffer == old(self).camera_live_buffer,
                self.frame_count == old(self).frame_count,
                self.total_cycles == sat64(old(self).total_cycles + elapsed),
                self.instruction_count == sat64(old(self).instruction_count + count),
            decreases 70224 + 24 - elapsed,
        {
            match self.step_machine() {
                Ok((_, gb)) => {
                    elapsed += gb;
                    count += 1;
                },
                Err(e) => {
                    return Err(e);
                },
            }
        }
        self.frame_count = self.frame_count.saturating_add(1);
        self.render_frame();
        let ghost before = *self;
        self.bus.memory.tick_rtc();
        proof {
            before.lemma_clock_brought_up(self);
        }
        Ok(count)
    }

    /// Presses or releases button `button` (0 = A, 1 = B, 2 = Select,
    /// 3 = Start, 4 = Right, 5 = Left, 6 = Up, 7 = Down); a press requests the
    /// Joypad interrupt. Other numbers are ignored.
    pub fn set_button(&mut self, button: u8, pressed: bool)
        requires
            old(self).wf(),
        ensures
            final(self).wf(),
            final(self).same_host_state(old(self)),
            final(self).machine().cpu == old(self).machine().cpu,
            final(self).machine().ppu == old(self).machine().ppu,
            final(self).machine().bus == match Button::spec_from_u8(button) {
                Some(b) => BusView {
                    joypad: old(self).machine().bus.joypad.with_button(b, pressed),
                    memory: if pressed {
                        requested(old(self).machine().bus.memory, 0x10)
                    } else {
                        old(self).machine().bus.memory
                    },
                    ..old(self).machine().bus
                },
                None => old(self).machine().bus,
            },
    {
        match Button::from_u8(button) {
            Some(btn) => {
                self.bus.joypad.set_button(btn, pressed);
                if pressed {
                    self.interrupts.request(Interrupt::Joypad, &mut self.bus.memory);
                }
            },
            None => {},
        }
    }

    /// The picture the host may read: 160 x 144 RGBA.
    pub fn frame_buffer_front(&self) -> (r: &Vec<u8>)
        ensures
            r@ == self.frame_buffer.front_view(),
    {
        self.frame_buffer.front()
    }

    /// The camera live view the host may read: 128 x 112 RGBA.
    pub fn camera_live_front(&self) -> (r: &Vec<u8>)
        ensures
            r@ == self.camera_live_buffer.front_view(),
    {
        self.camera_live_buffer.front()
    }

    /// A snapshot of the save data.
    pub fn get_cartridge_ram(&self) -> (r: Vec<u8>)
        ensures
            r@ == self.machine().bus.memory.cart.ram(),
    {
        self.bus.memory.get_cartridge_ram()
    }

    /// Restores save data, as far as the cartridge's RAM reaches.
    pub fn load_cartridge_ram(&mut self, data: &[u8])
        requires
            old(self).wf(),
        ensures
            final(self).wf(),
            final(self).same_host_state(old(self)),
            final(self).machine() == old(self).machine().with_memory(
                MemoryView {
                    cart: old(self).machine().bus.memory.cart.load_ram(data@),
                    ..old(self).machine().bus.memory
                },
            ),
    {
        self.bus.memory.load_cartridge_ram(data);
    }

    /// Supplies the next camera frame: exactly 128 x 112 gray bytes. Another
    /// size is refused; without a camera the frame is ignored.
    pub fn set_camera_image(&mut self, data: &[u8]) -> (r: Result<(), EmuError>)
        requires
            old(self).wf(),
        ensures
            final(self).wf(),
            final(self).same_host_state(old(self)),
            match old(self).machine().camera() {
                Some(cam) => if data@.len() == PIXELS {
                    &&& r.is_ok()
                    &&& final(self).machine() == old(self).machine().with_camera(
                        cam.set_image(data@),
                    )
                } else {
                    &&& r == Err::<(), EmuError>(EmuError::InvalidImageSize)
                    &&& final(self).machine() == old(self).machine()
                },
                None => r.is_ok() && final(self).machine() == old(self).machine(),
            },
    {
        self.bus.memory.set_camera_image(data)
    }

    /// Whether the cartridge is a Pocket Camera.
    pub fn is_camera_cartridge(&self) -> (r: bool)
        ensures
            r == (self.machine().bus.memory.cart.mbc_type() == MbcType::PocketCamera),
    {
        match self.bus.memory.get_mbc_type() {
            MbcType::PocketCamera => true,
            _ => false,
        }
    }

    /// Whether the host has supplied a camera frame.
    pub fn is_camera_ready(&self) -> (r: bool)
        ensures
            r == match self.machine().camera() {
                Some(cam) => cam.image_ready,
                None => false,
            },
    {
        self.bus.memory.is_camera_image_ready()
    }

    /// Whether the program has started a capture that waits for the analog
    /// stage's output.
    pub fn is_camera_capture_pending(&self) -> (r: bool)
        ensures
            r == match self.machine().camera() {
                Some(cam) => cam.capture_pending,
                None => false,
            },
    {
        self.bus.memory.is_camera_capture_pending()
    }

    /// The sensor registers the analog stage works from.
    pub fn camera_sensor_settings(&self) -> (r: Option<SensorSettings>)
        ensures
            r == match self.machine().camera() {
                Some(cam) => Some(cam.settings()),
                None => None,
            },
    {
        self.bus.memory.camera_sensor_settings()
    }

    /// The host frame last supplied.
    pub fn camera_image(&self) -> (r: Vec<u8>)
        ensures
            r@ == match self.machine().camera() {
                Some(cam) => cam.image,
                None => Seq::empty(),
            },
    {
        self.bus.memory.camera_image()
    }

    /// Completes a pending capture with the analog stage's output: exactly
    /// 128 x 112 bytes. Another size is refused.
    pub fn complete_camera_capture(&mut self, processed: &[u8]) -> (r: Result<(), EmuError>)
        requires
            old(self).wf(),
        ensures
            final(self).wf(),
            final(self).same_host_state(old(self)),
            match old(self).machine().camera() {
                Some(cam) => {
                    &&& final(self).machine() == old(self).machine().with_camera(
                        cam.complete_capture(processed@),
                    )
                    &&& r.is_err() <==> processed@.len() != PIXELS
                },
                None => r.is_ok() && final(self).machine() == old(self).machine(),
            },
            r.is_err() ==> r == Err::<(), EmuError>(EmuError::InvalidImageSize),
    {
        self.bus.memory.complete_camera_capture(processed)
    }

    /// Refreshes the camera live view if a capture was written since the last
    /// call: decodes the active capture into the back buffer, swaps, and
    /// returns true. Otherwise returns false and changes nothing.
    pub fn update_camera_live(&mut self) -> (r: bool)
        requires
            old(self).wf(),
        ensures
            final(self).wf(),
            final(self).frame_buffer == old(self).frame_buffer,
            final(self).frame_count == old(self).frame_count,
            final(self).total_cycles == old(self).total_cycles,
            final(self).instruction_count == old(self).instruction_count,
            match old(self).machine().camera() {
                Some(cam) => {
                    &&& r == cam.capture_dirty
                    &&& r ==> final(self).camera_live_buffer.front_view() == decoded_rgba(
                        cam.ram,
                        CAPTURE_OFFSET as int,
                    )
                    &&& r ==> final(self).machine() == old(self).machine().with_camera(
                        CameraView { capture_dirty: false, ..cam },
                    )
                },
                None => !r,
            },
            !r ==> final(self).machine() == old(self).machine(),
            !r ==> final(self).camera_live_buffer == old(self).camera_live_buffer,
    {
        if !self.bus.memory.is_camera_capture_dirty() {
            return false;
        }
        self.bus.memory.clear_camera_capture_dirty();
        let rgba = self.bus.memory.decode_camera_photo(0);
        self.camera_live_buffer.set_back(rgba);
        self.camera_live_buffer.swap();
        true
    }

    /// RGBA of photo slot 0..=30: 128 x 112 x 4 bytes, or nothing for an empty
    /// slot, an unknown slot or another cartridge.
    pub fn decode_camera_photo(&self, slot: u8) -> (r: Vec<u8>)
        requires
            self.wf(),
        ensures
            r@ == match self.machine().camera() {
                Some(cam) => cam.decode_photo(slot),
                None => Seq::empty(),
            },
    {
        self.bus.memory.decode_camera_photo(slot)
    }

    /// Stores an RGBA image in photo slot 1..=30 and marks it occupied.
    /// Returns whether a camera was there to store it. Another slot or image
    /// size is an error and changes nothing.
    pub fn encode_camera_photo(&mut self, slot: u8, rgba: &[u8]) -> (r: Result<bool, EmuError>)
        requires
            old(self).wf(),
        ensures
            final(self).wf(),
            final(self).same_host_state(old(self)),
            if !(1 <= slot <= 30) {
                &&& r == Err::<bool, EmuError>(EmuError::InvalidSlot)
                &&& final(self).machine() == old(self).machine()
            } else if rgba@.len() != RGBA_BYTES {
                &&& r == Err::<bool, EmuError>(EmuError::InvalidImageSize)
                &&& final(self).machine() == old(self).machine()
            } else {
                match old(self).machine().camera() {
                    Some(cam) => {
                        &&& r == Ok::<bool, EmuError>(true)
                        &&& final(self).machine() == old(self).machine().with_camera(
                            cam.encode_photo(slot, rgba@),
                        )
                    },
                    None => {
                        &&& r == Ok::<bool, EmuError>(false)
                        &&& final(self).machine() == old(self).machine()
                    },
                }
            },
    {
        if slot == 0 || slot > 30 {
            return Err(EmuError::InvalidSlot);
        }
        if rgba.len() != RGBA_BYTES {
            return Err(EmuError::InvalidImageSize);
        }
        Ok(self.bus.memory.encode_camera_photo(slot, rgba))
    }

    /// Erases photo slot 1..=30. Another slot is an error and changes nothing.
    pub fn clear_camera_photo_slot(&mut self, slot: u8) -> (r: Result<(), EmuError>)
        requires
            old(self).wf(),
        ensures
            final(self).wf(),
            final(self).same_host_state(old(self)),
            if 1 <= slot <= 30 {
                &&& r.is_ok()
                &&& final(self).machine() == match old(self).machine().camera() {
                    Some(cam) => old(self).machine().with_camera(cam.clear_photo_slot(slot)),
                    None => old(self).machine(),
                }
            } else {
                &&& r == Err::<(), EmuError>(EmuError::InvalidSlot)
                &&& final(self).machine() == old(self).machine()
            },
    {
        if slot == 0 || slot > 30 {
            return Err(EmuError::InvalidSlot);
        }
        self.bus.memory.clear_camera_photo_slot(slot);
        Ok(())
    }

    /// Feeds a tilt reading to an MBC7 cartridge, in units of 0x1000 per g.
    pub fn set_accelerometer(&mut self, x: i32, y: i32)
        ensures
            final(self).same_host_state(old(self)),
            final(self).machine() == old(self).machine().with_memory(
                MemoryView {
                    cart: old(self).machine().bus.memory.cart.set_accelerometer(x, y),
                    ..old(self).machine().bus.memory
                },
            ),
    {
        self.bus.memory.set_accelerometer(x, y);
    }

    /// Colour `color` (0..=3) of BG palette `palette` (0..=7) as 0xRRGGBB.
    pub fn get_bg_palette_color(&self, palette: u8, color: u8) -> (r: u32)
        requires
            palette < 8,
            color < 4,
        ensures
            r == rgb888(
                rgb555(
                    self.machine().bus.memory.cgb.bg_colour(palette as int, color as int).0,
                    self.machine().bus.memory.cgb.bg_colour(palette as int, color as int).1,
                ),
            ),
    {
        let (lo, hi) = self.bus.memory.read_bg_palette(palette as usize, color as usize);
        Ppu::rgb555_to_rgb888(lo, hi)
    }

    /// Colour `color` (0..=3) of OBJ palette `palette` (0..=7) as 0xRRGGBB.
    pub fn get_obj_palette_color(&self, palette: u8, color: u8) -> (r: u32)
        requires
            palette < 8,
            color < 4,
        ensures
            r == rgb888(
                rgb555(
                    self.machine().bus.memory.cgb.obj_colour(palette as int, color as int).0,
                    self.machine().bus.memory.cgb.obj_colour(palette as int, color as int).1,
                ),
            ),
    {
        let (lo, hi) = self.bus.memory.read_obj_palette(palette as usize, color as usize);
        Ppu::rgb555_to_rgb888(lo, hi)
    }

    /// Reads a byte of memory for debugging: no register or controller
    /// changes state. Joypad and timer registers read the stored I/O bytes.
    pub fn read_memory(&self, addr: u16) -> (r: u8)
        requires
            self.wf(),
        ensures
            r == self.machine().bus.memory.read(addr),
    {
        self.bus.memory.read(addr)
    }

    /// Reads `len` bytes from `addr` on, wrapping at the end of the address space.
    pub fn read_range(&self, addr: u16, len: u16) -> (r: Vec<u8>)
        requires
            self.wf(),
        ensures
            r@ == Seq::new(
                len as nat,
                |i: int| self.machine().bus.memory.read(((addr + i) % 0x10000) as u16),
            ),
    {
        let mut data: Vec<u8> = Vec::new();
        let mut i: u16 = 0;
        while i < len
            invariant
                i <= len,
                self.wf(),
                data@.len() == i,
                forall|k: int|
                    0 <= k < i ==> data@[k] == self.machine().bus.memory.read(
                        ((addr + k) % 0x10000) as u16,
                    ),
            decreases len - i,
        {
            data.push(self.bus.memory.read(addr.wrapping_add(i)));
            i += 1;
        }
        assert(data@ =~= Seq::new(
            len as nat,
            |i: int| self.machine().bus.memory.read(((addr + i) % 0x10000) as u16),
        ));
        data
    }

    /// Reads `len` bytes of VRAM bank `bank & 1` from `addr` on, whatever bank
    /// is selected; addresses outside 0x8000-0x9FFF read 0xFF.
    pub fn read_vram_bank(&self, bank: u8, addr: u16, len: u16) -> (r: Vec<u8>)
        ensures
            r@ == Seq::new(
                len as nat,
                |i: int|
                    self.machine().bus.memory.read_vram_bank(
                        bank as int,
                        ((addr + i) % 0x10000) as u16,
                    ),
            ),
    {
        let mut data: Vec<u8> = Vec::new();
        let mut i: u16 = 0;
        while i < len
            invariant
                i <= len,
                data@.len() == i,
                forall|k: int|
                    0 <= k < i ==> data@[k] == self.machine().bus.memory.read_vram_bank(
                        bank as int,
                        ((addr + k) % 0x10000) as u16,
                    ),
            decreases len - i,
        {
            data.push(self.bus.memory.read_vram_bank(bank as usize, addr.wrapping_add(i)));
            i += 1;
        }
        assert(data@ =~= Seq::new(
            len as nat,
            |i: int|
                self.machine().bus.memory.read_vram_bank(
                    bank as int,
                    ((addr + i) % 0x10000) as u16,
                ),
        ));
        data
    }
}

} // verus!
