//! The whole machine: a processor and the bus it drives.
use vstd::prelude::*;
use crate::bus::cartridge::header::{HEADER_LOC, HEADER_SIZE, ROM_SIZE_LOC};
use crate::bus::cartridge::Cartridge;
use crate::bus::{Bus, BusState, ROM_END};
use crate::cpu::instructions::Instruction;
use crate::bus::joypad::GbButton;
use crate::cpu::laws::lemma_service;
use crate::cpu::model::{can_step, highest_priority, push_word, run, service, step};
use crate::cpu::registers::{high_byte, low_byte, wrap16, Reg16};
use crate::cpu::Cpu;

verus! {

broadcast use crate::cpu::registers::Flags::lemma_flags_of;

/// A processor and the bus it drives.
pub struct Gameboy {
    pub cpu: Cpu,
    pub bus: Bus,
}

impl Gameboy {
    /// Builds the machine around a ROM image: the processor at power-on and
    /// the bus as it is made around the cartridge. The image must reach to
    /// the end of its header, and its ROM size code must be below 32. The
    /// machine can run when the image covers the addresses up to 0x7FFF.
    pub fn new(rom: Vec<u8>) -> (r: Gameboy)
        requires
            rom@.len() >= HEADER_LOC + HEADER_SIZE,
            rom@[HEADER_LOC + ROM_SIZE_LOC] < 32,
        ensures
            r.cpu.power_on(),
            r.cpu.wf(),
            r.bus@ == BusState::power_on(rom@),
            r.bus@.wf() <==> rom@.len() > ROM_END,
            r.bus.header().decodes(rom@.subrange(HEADER_LOC as int, HEADER_LOC + HEADER_SIZE)),
    {
        let cartridge = Cartridge::new(rom);

        Gameboy { cpu: Cpu::new(), bus: Bus::new(cartridge) }
    }
}

/// The keys of the host that the machine listens to.
#[derive(Clone, Copy, Debug, PartialEq, Eq, Structural)]
pub enum HostKey {
    A,
    S,
    Z,
    X,
    Right,
    Left,
    Up,
    Down,
    Escape,
    Other,
}

/// What the host tells the machine.
#[derive(Clone, Copy, Debug, PartialEq, Eq, Structural)]
pub enum HostEvent {
    /// The window is to be closed.
    CloseRequested,
    /// A key went down or up.
    Key { key: HostKey, pressed: bool },
    /// All pending events were handled: there is time for a step.
    Idle,
    /// Anything else.
    Other,
}

/// What the machine asks of the host in return.
#[derive(Clone, Copy, Debug, PartialEq, Eq, Structural)]
pub enum HostAction {
    /// Go on.
    Continue,
    /// A step was taken: draw again.
    Redraw,
    /// Leave the event loop.
    Exit,
    /// The machine met STOP or an undefined opcode, given here, and has
    /// come to its end.
    Fault(u8),
}

/// The button that a key of the host stands for.
pub open spec fn key_button(key: HostKey) -> Option<GbButton> {
    match key {
        HostKey::A => Some(GbButton::A),
        HostKey::S => Some(GbButton::B),
        HostKey::Z => Some(GbButton::Start),
        HostKey::X => Some(GbButton::Select),
        HostKey::Right => Some(GbButton::Right),
        HostKey::Left => Some(GbButton::Left),
        HostKey::Up => Some(GbButton::Up),
        HostKey::Down => Some(GbButton::Down),
        _ => None,
    }
}

/// The button that a key of the host stands for, if any.
pub fn map_key(key: HostKey) -> (r: Option<GbButton>)
    ensures
        r == key_button(key),
{
    match key {
        HostKey::A => Some(GbButton::A),
        HostKey::S => Some(GbButton::B),
        HostKey::Z => Some(GbButton::Start),
        HostKey::X => Some(GbButton::Select),
        HostKey::Right => Some(GbButton::Right),
        HostKey::Left => Some(GbButton::Left),
        HostKey::Up => Some(GbButton::Up),
        HostKey::Down => Some(GbButton::Down),
        _ => None,
    }
}

impl Gameboy {
    /// Whether an event ends the event loop: a request to close the window,
    /// or Escape going down.
    pub open spec fn closes(event: HostEvent) -> bool {
        event == HostEvent::CloseRequested || event == (HostEvent::Key {
            key: HostKey::Escape,
            pressed: true,
        })
    }

    /// Reacts to an event of the host. A request to close and Escape end
    /// the loop. A key that stands for a button presses or releases it.
    /// Idle time is used for one step, unless the next opcode is STOP or
    /// undefined: then nothing is run and the opcode is handed back.
    pub fn on_event(&mut self, event: HostEvent) -> (action: HostAction)
        requires
            old(self).bus@.wf(),
        ensures
            final(self).bus@.wf(),
            Self::closes(event) ==> action == HostAction::Exit && final(self).cpu == old(self).cpu
                && final(self).bus@ == old(self).bus@,
            !Self::closes(event) ==> match event {
                HostEvent::Key { key, pressed } => {
                    &&& action == HostAction::Continue
                    &&& final(self).cpu == old(self).cpu
                    &&& final(self).bus@ == match key_button(key) {
                        Some(button) => if pressed {
                            old(self).bus@.key_pressed(button)
                        } else {
                            old(self).bus@.key_released(button)
                        },
                        None => old(self).bus@,
                    }
                },
                HostEvent::Idle => if can_step::<Bus>(old(self).cpu, old(self).bus@) {
                    &&& action == HostAction::Redraw
                    &&& (final(self).cpu, final(self).bus@) == step::<Bus>(
                        old(self).cpu,
                        old(self).bus@,
                    )
                } else {
                    &&& action == HostAction::Fault(
                        old(self).bus@.peek(old(self).cpu.regs.pc),
                    )
                    &&& final(self).cpu == old(self).cpu
                    &&& final(self).bus@ == old(self).bus@
                },
                _ => {
                    &&& action == HostAction::Continue
                    &&& final(self).cpu == old(self).cpu
                    &&& final(self).bus@ == old(self).bus@
                },
            },
    {
        match event {
            HostEvent::CloseRequested => HostAction::Exit,
            HostEvent::Key { key: HostKey::Escape, pressed: true } => HostAction::Exit,
            HostEvent::Key { key, pressed } => {
                match map_key(key) {
                    Some(button) => {
                        if pressed {
                            self.bus.keydown(button);
                        } else {
                            self.bus.keyup(button);
                        }
                    },
                    None => {},
                }
                HostAction::Continue
            },
            HostEvent::Idle => {
                match self.cpu.fatal_opcode(&self.bus) {
                    Some(opcode) => HostAction::Fault(opcode),
                    None => {
                        self.cpu.step(&mut self.bus);
                        HostAction::Redraw
                    },
                }
            },
            HostEvent::Other => HostAction::Continue,
        }
    }
}

/// The service of an interrupt on this bus clears one bit of IF, that of
/// the interrupt served, and leaves IE alone.
pub proof fn lemma_service_clears_one_request(cpu: Cpu, bus: BusState)
    requires
        bus.wf(),
        bus.pending().bits != 0,
    ensures
        ({
            let k = highest_priority(bus.pending().bits);
            let (c, b) = service::<Bus>(cpu, bus);
            let before = push_word::<Bus>(
                Cpu { ime: false, halted: false, ..cpu },
                bus.ticks(1),
                cpu.regs.pc,
            ).1;
            &&& (k == 1 || k == 2 || k == 4 || k == 8 || k == 16)
            &&& !c.ime
            &&& b.interrupts.flags.bits == before.interrupts.flags.bits & !k
            &&& b.interrupts.enable == before.interrupts.enable
        }),
{
    lemma_service::<Bus>(cpu, bus);
}

/// `PUSH rr` followed by `POP rr`, with both stack slots in RAM. After the
/// push, the two bytes from the new SP on are the low and the high byte of
/// the pair. The pop gives the processor back as it was, SP and the pair
/// included; and of the memory, the ROM, the joypad, the serial registers
/// and every byte of RAM but the two stack slots are as before.
pub proof fn lemma_push_pop(cpu: Cpu, bus: BusState, rr: Reg16)
    requires
        bus.wf(),
        cpu.wf(),
        BusState::is_ram(wrap16(cpu.regs.sp + 0xFFFF)),
        BusState::is_ram(wrap16(cpu.regs.sp + 0xFFFE)),
    ensures
        ({
            let (c1, b1) = run::<Bus>(cpu, bus, Instruction::Push(rr));
            let (c2, b2) = run::<Bus>(c1, b1, Instruction::Pop(rr));
            let value = cpu.regs.pair(rr);
            let top = wrap16(cpu.regs.sp + 0xFFFE);
            &&& c1 == cpu.with_sp(top)
            &&& b1.peek(top) == low_byte(value)
            &&& b1.peek(wrap16(top + 1)) == high_byte(value)
            &&& c2 == cpu
            &&& b2.rom == bus.rom
            &&& b2.joypad == bus.joypad
            &&& b2.serial == bus.serial
            &&& forall|a: u16|
                BusState::is_ram(a) && !BusState::same_cell(a, top) && !BusState::same_cell(
                    a,
                    wrap16(top + 1),
                ) ==> #[trigger] b2.peek(a) == bus.peek(a)
        }),
{
    reveal(run);
    let value = cpu.regs.pair(rr);
    let hi = high_byte(value);
    let lo = low_byte(value);
    let first = wrap16(cpu.regs.sp + 0xFFFF);
    bus.lemma_two_stores(first, hi, lo, 0);
    bus.lemma_two_stores(first, hi, lo, 1);
    bus.lemma_two_stores(first, hi, lo, 2);
    let s4 = bus.ticks(1).set(first, hi).ticks(1).set((first - 1) as u16, lo).ticks(1);
    assert(s4.ticks(0) == s4);
    assert(s4.ticks(2) == s4.ticks(1).ticks(1)) by {
        assert(s4.ticks(2) == s4.ticks(1).m_cycle());
        assert(s4.ticks(1).ticks(0) == s4.ticks(1));
        assert(s4.ticks(1).ticks(1) == s4.ticks(1).ticks(0).m_cycle());
    }
    cpu.regs.lemma_pair_restored(rr);
    let (c1, b1) = run::<Bus>(cpu, bus, Instruction::Push(rr));
    assert(b1 == s4);
    let (c2, b2) = run::<Bus>(c1, b1, Instruction::Pop(rr));
    assert(b2 == s4.ticks(2));
    assert(c2.regs == cpu.regs);
}

} // verus!
