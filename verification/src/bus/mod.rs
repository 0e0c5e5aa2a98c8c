//! The memory bus and the devices behind it.
use vstd::prelude::*;
use vstd::arithmetic::div_mod::lemma_add_mod_noop_right;
use crate::bits::lemma_low_five;
use crate::cpu::Interface;
use self::cartridge::header::Header;
use self::cartridge::Cartridge;
use self::interrupts::{InterruptFlag, Interrupts};
use self::joypad::{GbButton, Joypad};
use self::ram::{Ram, RamState};
use self::timer::Timer;

pub mod cartridge;
pub mod interrupts;
pub mod joypad;
pub mod ram;
pub mod timer;
pub mod wram;

verus! {

/// The first address of the cartridge ROM.
pub const ROM_START: u16 = 0x0000;

/// The last address of the cartridge ROM.
pub const ROM_END: u16 = 0x7FFF;

/// The first address of the video RAM, which is not part of this core.
pub const VRAM_START: u16 = 0x8000;

/// The last address of the video RAM.
pub const VRAM_END: u16 = 0x9FFF;

/// The first address of the work RAM.
pub const WRAM_START: u16 = 0xC000;

/// The last address of the echo of the work RAM.
pub const WRAM_END: u16 = 0xFDFF;

/// The joypad register.
pub const JOYPAD: u16 = 0xFF00;

/// The serial data register.
pub const SERIAL_DATA: u16 = 0xFF01;

/// The serial control register.
pub const SERIAL_CTRL: u16 = 0xFF02;

/// The first of the four timer registers.
pub const TIMER_START: u16 = 0xFF04;

/// The last of the four timer registers.
pub const TIMER_END: u16 = 0xFF07;

/// The interrupt request flags, IF.
pub const INTR_FLAG: u16 = 0xFF0F;

/// The line that the display is drawing: a constant here.
pub const LCD_LINE: u16 = 0xFF44;

/// The first address of the high RAM.
pub const HRAM_START: u16 = 0xFF80;

/// The last address of the high RAM.
pub const HRAM_END: u16 = 0xFFFE;

/// The interrupt enable mask, IE.
pub const INTR_ENABLE: u16 = 0xFFFF;

/// The address space: it routes every access to the device behind the
/// address, counts the machine cycles and drives the timer.
pub struct Bus {
    interrupts: Interrupts,
    cartridge: Cartridge,
    ram: Ram,
    joypad: Joypad,
    serial_data: [u8; 2],
    timer: Timer,
    cycles: u64,
}

/// Everything that the bus owns, as plain values.
pub struct BusState {
    pub rom: Seq<u8>,
    pub ram: RamState,
    pub joypad: Joypad,
    pub serial: Seq<u8>,
    pub timer: Timer,
    pub interrupts: Interrupts,
    pub cycles: u64,
}

impl BusState {
    /// The ROM covers the whole of its address range, the memories have
    /// their sizes, and the devices are well-formed.
    pub open spec fn wf(self) -> bool {
        &&& self.rom.len() > ROM_END
        &&& self.ram.wf()
        &&& self.joypad.wf()
        &&& self.serial.len() == 2
        &&& self.interrupts.wf()
    }

    /// The bus as it is made around a ROM image.
    pub open spec fn power_on(rom: Seq<u8>) -> BusState {
        BusState {
            rom,
            ram: RamState::zeroed(),
            joypad: Joypad { buttons: 0x0F, dpad: 0x0F, register: 0xCF },
            serial: seq![0u8, 0u8],
            timer: Timer { div: 0xABCC, tima: 0, tma: 0, tac: 0 },
            interrupts: Interrupts { flags: InterruptFlag { bits: 0 }, enable: 0 },
            cycles: 0,
        }
    }

    /// The byte that the address map gives for `address`.
    pub open spec fn peek(self, address: u16) -> u8 {
        if address <= ROM_END {
            self.rom[address as int]
        } else if WRAM_START <= address <= WRAM_END {
            self.ram.wram_at(address)
        } else if address == JOYPAD {
            self.joypad.readback()
        } else if address == SERIAL_DATA {
            self.serial[0]
        } else if address == SERIAL_CTRL {
            self.serial[1]
        } else if TIMER_START <= address <= TIMER_END {
            self.timer.register(address)
        } else if address == INTR_FLAG {
            self.interrupts.flags.bits
        } else if HRAM_START <= address <= HRAM_END {
            self.ram.hram_at(address)
        } else if address == INTR_ENABLE {
            self.interrupts.enable
        } else if address == LCD_LINE {
            0x94
        } else {
            0
        }
    }

    /// The bus after `data` went to where the address map sends `address`.
    pub open spec fn set(self, address: u16, data: u8) -> BusState {
        if address <= ROM_END {
            BusState { rom: self.rom.update(address as int, data), ..self }
        } else if WRAM_START <= address <= WRAM_END {
            BusState { ram: self.ram.wram_written(address, data), ..self }
        } else if address == JOYPAD {
            BusState {
                joypad: Joypad { register: (0xC0 + data % 64) as u8, ..self.joypad },
                ..self
            }
        } else if address == SERIAL_DATA {
            BusState { serial: self.serial.update(0, data), ..self }
        } else if address == SERIAL_CTRL {
            BusState { serial: self.serial.update(1, data), ..self }
        } else if TIMER_START <= address <= TIMER_END {
            BusState { timer: self.timer.written(address, data), ..self }
        } else if address == INTR_FLAG {
            BusState {
                interrupts: Interrupts {
                    flags: InterruptFlag { bits: data & 0x1F },
                    ..self.interrupts
                },
                ..self
            }
        } else if HRAM_START <= address <= HRAM_END {
            BusState { ram: self.ram.hram_written(address, data), ..self }
        } else if address == INTR_ENABLE {
            BusState { interrupts: Interrupts { enable: data, ..self.interrupts }, ..self }
        } else {
            self
        }
    }

    /// The bus after one T-cycle: the timer takes one step and may request
    /// its interrupt.
    #[verifier::opaque]
    pub open spec fn t_cycle(self) -> BusState {
        BusState {
            timer: self.timer.ticked(),
            interrupts: if self.timer.overflows() {
                self.interrupts.requested(InterruptFlag { bits: 0x04 })
            } else {
                self.interrupts
            },
            ..self
        }
    }

    /// The bus after one machine cycle: the cycle counter goes up by one and
    /// four T-cycles pass.
    #[verifier::opaque]
    pub open spec fn m_cycle(self) -> BusState {
        (BusState { cycles: ((self.cycles + 1) % 0x1_0000_0000_0000_0000) as u64, ..self })
            .t_cycle().t_cycle().t_cycle().t_cycle()
    }

    /// The bus after `count` machine cycles.
    pub open spec fn ticks(self, count: nat) -> BusState
        decreases count,
    {
        if count == 0 {
            self
        } else {
            self.ticks((count - 1) as nat).m_cycle()
        }
    }

    /// The requests that are enabled.
    pub open spec fn pending(self) -> InterruptFlag {
        self.interrupts.pending()
    }

    /// The bus after `intr` was acknowledged.
    pub open spec fn acknowledge(self, intr: InterruptFlag) -> BusState {
        BusState { interrupts: self.interrupts.acknowledged(intr), ..self }
    }

    /// The bus after `button` was pressed: the key goes down and the JOYPAD
    /// interrupt is requested.
    pub open spec fn key_pressed(self, button: GbButton) -> BusState {
        BusState {
            joypad: self.joypad.pressed(button),
            interrupts: self.interrupts.requested(InterruptFlag { bits: 0x10 }),
            ..self
        }
    }

    /// The bus after `button` was released.
    pub open spec fn key_released(self, button: GbButton) -> BusState {
        BusState { joypad: self.joypad.released(button), ..self }
    }

    /// Whether `address` is a byte of the work RAM, its echo included, or of
    /// the high RAM.
    pub open spec fn is_ram(address: u16) -> bool {
        WRAM_START <= address <= WRAM_END || HRAM_START <= address <= HRAM_END
    }

    /// Whether two addresses of RAM name one byte: the work RAM folds its
    /// range into 0x2000 bytes.
    pub open spec fn same_cell(a: u16, b: u16) -> bool {
        ||| a == b
        ||| (WRAM_START <= a <= WRAM_END && WRAM_START <= b <= WRAM_END && a % 0x2000 == b
            % 0x2000)
    }

    /// Time changes the timer, the interrupt requests and the cycle counter,
    /// and nothing else.
    pub proof fn lemma_ticks_keep_memory(self, count: nat)
        ensures
            self.ticks(count).rom == self.rom,
            self.ticks(count).ram == self.ram,
            self.ticks(count).joypad == self.joypad,
            self.ticks(count).serial == self.serial,
            self.ticks(count).interrupts.enable == self.interrupts.enable,
            forall|a: u16|
                Self::is_ram(a) || a <= ROM_END ==> #[trigger] self.ticks(count).peek(a)
                    == self.peek(a),
        decreases count,
    {
        if count > 0 {
            let before = self.ticks((count - 1) as nat);
            self.lemma_ticks_keep_memory((count - 1) as nat);
            before.lemma_m_cycle_wf();
            assert forall|a: u16| Self::is_ram(a) || a <= ROM_END implies #[trigger] self.ticks(
                count,
            ).peek(a) == self.peek(a) by {
                assert(before.m_cycle().peek(a) == before.peek(a));
            }
        }
    }

    /// A write to RAM is read back, changes no other byte of RAM, and
    /// changes nothing outside the RAM.
    pub proof fn lemma_ram_store(self, address: u16, data: u8)
        requires
            self.wf(),
            Self::is_ram(address),
        ensures
            self.set(address, data).peek(address) == data,
            forall|a: u16|
                Self::is_ram(a) && !Self::same_cell(a, address) ==> #[trigger] self.set(
                    address,
                    data,
                ).peek(a) == self.peek(a),
            self.set(address, data).rom == self.rom,
            self.set(address, data).joypad == self.joypad,
            self.set(address, data).serial == self.serial,
            self.set(address, data).timer == self.timer,
            self.set(address, data).interrupts == self.interrupts,
            self.set(address, data).cycles == self.cycles,
            self.set(address, data).wf(),
    {
    }

    /// Two bytes written to two neighbouring bytes of RAM, a machine cycle
    /// before, between and after: both are read back then and later, and of
    /// the memory nothing else has changed.
    pub proof fn lemma_two_stores(self, first: u16, hi: u8, lo: u8, later: nat)
        requires
            self.wf(),
            first > 0,
            Self::is_ram(first),
            Self::is_ram((first - 1) as u16),
        ensures
            ({
                let second = (first - 1) as u16;
                let after = self.ticks(1).set(first, hi).ticks(1).set(second, lo).ticks(1).ticks(
                    later,
                );
                &&& after.wf()
                &&& after.peek(first) == hi
                &&& after.peek(second) == lo
                &&& after.rom == self.rom
                &&& after.joypad == self.joypad
                &&& after.serial == self.serial
                &&& forall|a: u16|
                    Self::is_ram(a) && !Self::same_cell(a, first) && !Self::same_cell(a, second)
                        ==> #[trigger] after.peek(a) == self.peek(a)
            }),
    {
        let second = (first - 1) as u16;
        let s0 = self.ticks(1);
        self.lemma_ticks_keep_memory(1);
        self.lemma_ticks_wf(1);
        let s1 = s0.set(first, hi);
        s0.lemma_ram_store(first, hi);
        let s2 = s1.ticks(1);
        s1.lemma_ticks_keep_memory(1);
        s1.lemma_ticks_wf(1);
        let s3 = s2.set(second, lo);
        s2.lemma_ram_store(second, lo);
        let s4 = s3.ticks(1);
        s3.lemma_ticks_keep_memory(1);
        s3.lemma_ticks_wf(1);
        let s5 = s4.ticks(later);
        s4.lemma_ticks_keep_memory(later);
        s4.lemma_ticks_wf(later);
        assert(s2.peek(first) == hi);
        assert(s3.peek(first) == hi);
        assert(s3.peek(second) == lo);
        assert forall|a: u16|
            Self::is_ram(a) && !Self::same_cell(a, first) && !Self::same_cell(a, second)
                implies #[trigger] s5.peek(a) == self.peek(a) by {
            assert(s0.peek(a) == self.peek(a));
            assert(s1.peek(a) == s0.peek(a));
            assert(s2.peek(a) == s1.peek(a));
            assert(s3.peek(a) == s2.peek(a));
            assert(s4.peek(a) == s3.peek(a));
        }
    }

    /// One T-cycle keeps the bus well-formed and changes nothing but the
    /// timer and the interrupt requests.
    pub proof fn lemma_t_cycle_wf(self)
        ensures
            self.wf() ==> self.t_cycle().wf(),
            self.t_cycle().cycles == self.cycles,
            self.t_cycle().rom == self.rom,
            self.t_cycle().ram == self.ram,
            self.t_cycle().joypad == self.joypad,
            self.t_cycle().serial == self.serial,
            self.t_cycle().interrupts.enable == self.interrupts.enable,
    {
        reveal(BusState::t_cycle);
        lemma_low_five(self.interrupts.flags.bits, 0x04);
    }

    /// One machine cycle keeps the bus well-formed, counts one cycle and
    /// changes nothing else but the timer and the interrupt requests.
    pub proof fn lemma_m_cycle_wf(self)
        ensures
            self.wf() ==> self.m_cycle().wf(),
            self.m_cycle().cycles == (self.cycles + 1) % 0x1_0000_0000_0000_0000,
            self.m_cycle().rom == self.rom,
            self.m_cycle().ram == self.ram,
            self.m_cycle().joypad == self.joypad,
            self.m_cycle().serial == self.serial,
            self.m_cycle().interrupts.enable == self.interrupts.enable,
    {
        reveal(BusState::m_cycle);
        let a = BusState { cycles: ((self.cycles + 1) % 0x1_0000_0000_0000_0000) as u64, ..self };
        a.lemma_t_cycle_wf();
        a.t_cycle().lemma_t_cycle_wf();
        a.t_cycle().t_cycle().lemma_t_cycle_wf();
        a.t_cycle().t_cycle().t_cycle().lemma_t_cycle_wf();
    }

    /// Any number of machine cycles keeps the bus well-formed and counts
    /// that many cycles.
    pub proof fn lemma_ticks_wf(self, count: nat)
        requires
            self.wf(),
        ensures
            self.ticks(count).wf(),
            self.ticks(count).cycles == (self.cycles + count) % 0x1_0000_0000_0000_0000,
        decreases count,
    {
        if count > 0 {
            let before = self.ticks((count - 1) as nat);
            self.lemma_ticks_wf((count - 1) as nat);
            before.lemma_m_cycle_wf();
            lemma_add_mod_noop_right(1, self.cycles + count - 1, 0x1_0000_0000_0000_0000);
            assert(self.ticks(count).cycles == (1 + before.cycles) % 0x1_0000_0000_0000_0000);
        }
    }
}

impl View for Bus {
    type V = BusState;

    closed spec fn view(&self) -> BusState {
        BusState {
            rom: self.cartridge@,
            ram: self.ram@,
            joypad: self.joypad,
            serial: self.serial_data@,
            timer: self.timer,
            interrupts: self.interrupts,
            cycles: self.cycles,
        }
    }
}

impl Bus {
    /// The decoded header of the cartridge.
    pub closed spec fn header(&self) -> Header {
        self.cartridge.header
    }

    /// The cartridge behind the bus.
    pub fn cartridge(&self) -> (r: &Cartridge)
        ensures
            r@ == self@.rom,
            r.header == self.header(),
    {
        &self.cartridge
    }

    /// Makes the bus around a cartridge. The bus is fit for the processor
    /// when the ROM image covers the addresses 0x0000 to 0x7FFF.
    pub fn new(cartridge: Cartridge) -> (r: Bus)
        ensures
            r@ == BusState::power_on(cartridge@),
            r@.wf() <==> cartridge@.len() > ROM_END,
            r.header() == cartridge.header,
    {
        let r = Bus {
            interrupts: Interrupts::new(),
            cartridge,
            ram: Ram::new(),
            joypad: Joypad::new(),
            serial_data: [0;2],
            timer: Timer::new(),
            cycles: 0,
        };
        assert(r.serial_data@ =~= seq![0u8, 0u8]);
        r
    }

    /// A key of the host went down.
    pub fn keydown(&mut self, button: GbButton)
        ensures
            final(self)@ == old(self)@.key_pressed(button),
            old(self)@.wf() ==> final(self)@.wf(),
    {
        self.joypad.keydown(button, &mut self.interrupts);
    }

    /// A key of the host went up.
    pub fn keyup(&mut self, button: GbButton)
        ensures
            final(self)@ == old(self)@.key_released(button),
            old(self)@.wf() ==> final(self)@.wf(),
    {
        self.joypad.keyup(button);
    }

    /// Lets one machine cycle pass.
    fn m_cycle(&mut self)
        requires
            old(self)@.wf(),
        ensures
            final(self)@ == old(self)@.m_cycle(),
            final(self)@.wf(),
    {
        proof {
            self@.lemma_m_cycle_wf();
            reveal(BusState::m_cycle);
        }
        self.cycles = self.cycles.wrapping_add(1);
        let ghost start = self@;
        let mut i: usize = 0;
        while i < 4
            invariant
                i <= 4,
                self@.wf(),
                i == 0 ==> self@ == start,
                i == 1 ==> self@ == start.t_cycle(),
                i == 2 ==> self@ == start.t_cycle().t_cycle(),
                i == 3 ==> self@ == start.t_cycle().t_cycle().t_cycle(),
                i == 4 ==> self@ == start.t_cycle().t_cycle().t_cycle().t_cycle(),
            decreases 4 - i,
        {
            proof {
                self@.lemma_t_cycle_wf();
                reveal(BusState::t_cycle);
            }
            self.timer.tick(&mut self.interrupts);
            i += 1;
        }
    }
}

impl Interface for Bus {
    open spec fn valid(s: BusState) -> bool {
        s.wf()
    }

    open spec fn peeked(s: BusState, address: u16) -> u8 {
        s.peek(address)
    }

    open spec fn stored(s: BusState, address: u16, data: u8) -> BusState {
        s.set(address, data)
    }

    open spec fn ticked(s: BusState, count: nat) -> BusState {
        s.ticks(count)
    }

    open spec fn cycle_count(s: BusState) -> u64 {
        s.cycles
    }

    open spec fn pending(s: BusState) -> InterruptFlag {
        s.pending()
    }

    open spec fn acknowledged(s: BusState, intr: InterruptFlag) -> BusState {
        s.acknowledge(intr)
    }

    proof fn lemma_stored(s: BusState, address: u16, data: u8) {
        lemma_low_five(data, 0);
    }

    proof fn lemma_ticked(s: BusState, count: nat) {
        s.lemma_ticks_wf(count);
    }

    proof fn lemma_acknowledged(s: BusState, intr: InterruptFlag) {
        lemma_low_five(s.interrupts.flags.bits, intr.bits);
        let f = s.interrupts.flags.bits;
        let e = s.interrupts.enable;
        let i = intr.bits;
        assert((f & !i) & e == (f & e) & !i) by (bit_vector);
    }

    proof fn lemma_pending(s: BusState) {
        lemma_low_five(s.interrupts.flags.bits, s.interrupts.enable);
    }

    fn peek(&self, address: u16) -> (data: u8) {
        if address <= ROM_END {
            self.cartridge.read(address)
        } else if WRAM_START <= address && address <= WRAM_END {
            self.ram.wram_read(address)
        } else if address == JOYPAD {
            self.joypad.read()
        } else if address == SERIAL_DATA {
            self.serial_data[0]
        } else if address == SERIAL_CTRL {
            self.serial_data[1]
        } else if TIMER_START <= address && address <= TIMER_END {
            self.timer.read(address)
        } else if address == INTR_FLAG {
            self.interrupts.flags()
        } else if HRAM_START <= address && address <= HRAM_END {
            self.ram.hram_read(address)
        } else if address == INTR_ENABLE {
            self.interrupts.get_enable()
        } else if address == LCD_LINE {
            0x94
        } else {
            0
        }
    }

    fn set(&mut self, address: u16, data: u8) {
        if address <= ROM_END {
            self.cartridge.write(address, data);
        } else if WRAM_START <= address && address <= WRAM_END {
            self.ram.wram_write(address, data);
        } else if address == JOYPAD {
            self.joypad.write(data);
        } else if address == SERIAL_DATA {
            self.serial_data[0] = data;
        } else if address == SERIAL_CTRL {
            self.serial_data[1] = data;
        } else if TIMER_START <= address && address <= TIMER_END {
            self.timer.write(address, data);
        } else if address == INTR_FLAG {
            self.interrupts.set_flags(data);
        } else if HRAM_START <= address && address <= HRAM_END {
            self.ram.hram_write(address, data);
        } else if address == INTR_ENABLE {
            self.interrupts.set_enable(data);
        }
    }

    fn tick(&mut self, count: usize) {
        let mut i: usize = 0;
        while i < count
            invariant
                i <= count,
                self@.wf(),
                self@ == old(self)@.ticks(i as nat),
            decreases count - i,
        {
            self.m_cycle();
            i += 1;
        }
    }

    fn cycles(&self) -> (count: u64) {
        self.cycles
    }

    fn check_interrupts(&self) -> (intr: InterruptFlag) {
        self.interrupts.check()
    }

    fn interrupt_handled(&mut self, intr: InterruptFlag) {
        self.interrupts.handled(intr);
    }
}

} // verus!
