//! What the emulator shares with the user interface and receives from it,
//! and the interface it drives the processor through.
use vstd::prelude::*;
use crate::constants::RomInfo;
use crate::apu::{Apu, apu_stepped};
use crate::cpu::cpu2::{Cpu2, UnknownOpcode};
use crate::cpu::spec::Core;
use crate::mappers::mapper_base::{MapperBase, supported_rom};
use crate::ppu2::{
    FRAME_DOTS, Ppu2, PpuResult, WIDTH, background_step, dot_rendered, front_step, is_at_dot, is_bg_ls_dot, is_clear_dot,
    is_end_eval_dot, is_eval_dot, is_hori_dot, is_inc_h_dot, is_inc_v_dot, is_nt_dot, is_oam_clear_dot,
    is_sprite_ls_dot, is_vbl_dot, is_vert_dot, render_line, sprite_step,
};
use crate::rom::Rom;
use crate::nes_memory::NesMemory;
use crate::joypad::{Button, Joypad};
use crate::bk2::ControllerState;
use crate::memory::Memory;
use crate::text::{
    decimal, hex_byte, hex_word, push_char, push_decimal, push_hex_byte, push_hex_digit, push_text,
};

verus! {

/// How long a frame took.
pub struct FrameStat {
    _duration_ms: u16,
}

impl FrameStat {
    /// A frame that took `duration_ms` milliseconds.
    pub fn new(duration_ms: u16) -> (r: Self)
        ensures
            r.duration() == duration_ms,
    {
        FrameStat { _duration_ms: duration_ms }
    }

    /// The frame's duration in milliseconds.
    pub closed spec fn duration(&self) -> u16 {
        self._duration_ms
    }
}

/// The window title, the names shown and the cycle count when paused.
pub struct SharedState {
    pub title: String,
    pub _joypad1: String,
    pub rom_name: String,
    pub paused_cycle_count: u128,
}

impl Default for SharedState {
    fn default() -> (r: Self)
        ensures
            r.title@ == seq!['C', 'e', 'd', 'N', 'E', 'S'],
            r._joypad1@ == seq!['J', 'o', 'y', 'p', 'a', 'd', ' ', '1'],
            r.rom_name@ == Seq::<char>::empty(),
            r.paused_cycle_count == 0,
    {
        proof {
            reveal_strlit("CedNES");
            reveal_strlit("Joypad 1");
        }
        Self {
            title: "CedNES".to_owned(),
            _joypad1: "Joypad 1".to_owned(),
            rom_name: String::new(),
            paused_cycle_count: 0,
        }
    }
}

/// Requests to the emulator.
pub enum ToEmulatorMessage {
    Reboot(RomInfo),
    _SaveState,
    _RestoreState,
    Pause(bool),
    SoundAll(bool),
    SoundPulse1(bool),
    SoundPulse2(bool),
    SoundTriangle(bool),
    SoundNoise(bool),
    SoundDmc(bool),
    _Debug,
}

/// The processor as the emulator drives it.
pub trait CpuInterface {
    /// The processor can run.
    spec fn ready(&self) -> bool;

    /// The cycle counter.
    spec fn cycle_count(&self) -> u128;

    fn set_pc(&mut self, pc: u16)
        requires
            old(self).ready(),
        ensures
            final(self).ready();

    fn pc(&self) -> u16;

    fn set_s(&mut self, v: u8)
        requires
            old(self).ready(),
        ensures
            final(self).ready();

    fn nmi(&mut self)
        requires
            old(self).ready(),
        ensures
            final(self).ready();

    fn irq(&mut self)
        requires
            old(self).ready(),
        ensures
            final(self).ready();

    fn get_cycles(&self) -> (r: u128)
        ensures
            r == self.cycle_count();

    fn add_cycles(&mut self, cycles: u128)
        requires
            old(self).ready(),
            old(self).cycle_count() + cycles <= u128::MAX,
        ensures
            final(self).ready(),
            final(self).cycle_count() == old(self).cycle_count() + cycles;

    fn one_cycle(&mut self) -> (r: Result<(bool, u8), UnknownOpcode>)
        requires
            old(self).ready(),
        ensures
            final(self).ready();

    fn memory(&mut self) -> &mut NesMemory;
}





/// `CedNES - Paused - Cycle <n> - <rom>`
pub open spec fn paused_title(cycles: u128, rom_name: Seq<char>) -> Seq<char> {
    "CedNES - Paused - Cycle "@ + decimal(cycles as nat) + " - "@ + rom_name
}

/// `CedNES - <rom>`
pub open spec fn running_title(rom_name: Seq<char>) -> Seq<char> {
    "CedNES - "@ + rom_name
}

/// The title shown while paused at `cycles`.
pub fn pause_title(cycles: u128, rom_name: &String) -> (r: String)
    ensures
        r@ == paused_title(cycles, rom_name@),
{
    let mut s = String::new();
    push_text(&mut s, "CedNES - Paused - Cycle ");
    push_decimal(&mut s, cycles);
    push_text(&mut s, " - ");
    push_text(&mut s, rom_name.as_str());
    s
}

/// The title shown while running.
pub fn run_title(rom_name: &String) -> (r: String)
    ensures
        r@ == running_title(rom_name@),
{
    let mut s = String::new();
    push_text(&mut s, "CedNES - ");
    push_text(&mut s, rom_name.as_str());
    s
}

/// Whether the emulator loop runs and why it stops.
pub struct RunState {
    pub paused: bool,
    pub reboot: bool,
}

/// The sound channels the user can switch.
#[derive(Clone, Copy, PartialEq, Eq, Structural, Debug)]
pub enum Channel {
    All,
    Pulse1,
    Pulse2,
    Triangle,
    Noise,
    Dmc,
}

/// What the loop does about a request.
pub enum Reaction {
    /// Stop this run and start `RomInfo`.
    Reboot(RomInfo),
    /// Pausing changed: restart the counters and show the title; when
    /// paused, the cycle count is kept.
    PauseChanged { title: String, paused_cycles: Option<u128> },
    /// Switch a sound channel on or off.
    Sound(Channel, bool),
    /// Dump the memories.
    Debug,
    /// Nothing to do.
    Nothing,
}

impl RunState {
    /// Not paused, not rebooting.
    pub fn new() -> (r: Self)
        ensures
            !r.paused,
            !r.reboot,
    {
        RunState { paused: false, reboot: false }
    }

    /// Takes a request from the user interface: a reboot stops the run
    /// and unpauses; a pause request changes the state only when it
    /// differs; the other requests change nothing here.
    pub fn on_message(&mut self, message: ToEmulatorMessage, cycles: u128, rom_name: &String) -> (r:
        Reaction)
        ensures
            match message {
                ToEmulatorMessage::Reboot(rom) => final(self).reboot && !final(self).paused
                    && r == Reaction::Reboot(rom),
                ToEmulatorMessage::Pause(value) => final(self).reboot == old(self).reboot
                    && final(self).paused == value && if value == old(self).paused {
                    r == Reaction::Nothing
                } else {
                    r matches Reaction::PauseChanged { title, paused_cycles } && if value {
                        title@ == paused_title(cycles, rom_name@) && paused_cycles == Some(cycles)
                    } else {
                        title@ == running_title(rom_name@) && paused_cycles is None
                    }
                },
                ToEmulatorMessage::SoundAll(on) => *final(self) == *old(self) && r == Reaction::Sound(
                    Channel::All,
                    on,
                ),
                ToEmulatorMessage::SoundPulse1(on) => *final(self) == *old(self) && r
                    == Reaction::Sound(Channel::Pulse1, on),
                ToEmulatorMessage::SoundPulse2(on) => *final(self) == *old(self) && r
                    == Reaction::Sound(Channel::Pulse2, on),
                ToEmulatorMessage::SoundTriangle(on) => *final(self) == *old(self) && r
                    == Reaction::Sound(Channel::Triangle, on),
                ToEmulatorMessage::SoundNoise(on) => *final(self) == *old(self) && r
                    == Reaction::Sound(Channel::Noise, on),
                ToEmulatorMessage::SoundDmc(on) => *final(self) == *old(self) && r == Reaction::Sound(
                    Channel::Dmc,
                    on,
                ),
                ToEmulatorMessage::_Debug => *final(self) == *old(self) && r == Reaction::Debug,
                ToEmulatorMessage::_SaveState | ToEmulatorMessage::_RestoreState => *final(self)
                    == *old(self) && r == Reaction::Nothing,
            },
    {
        match message {
            ToEmulatorMessage::Reboot(rom) => {
                self.reboot = true;
                self.paused = false;
                Reaction::Reboot(rom)
            },
            ToEmulatorMessage::Pause(value) => {
                if self.paused != value {
                    self.paused = value;
                    if value {
                        Reaction::PauseChanged {
                            title: pause_title(cycles, rom_name),
                            paused_cycles: Some(cycles),
                        }
                    } else {
                        Reaction::PauseChanged { title: run_title(rom_name), paused_cycles: None }
                    }
                } else {
                    Reaction::Nothing
                }
            },
            ToEmulatorMessage::SoundAll(on) => Reaction::Sound(Channel::All, on),
            ToEmulatorMessage::SoundPulse1(on) => Reaction::Sound(Channel::Pulse1, on),
            ToEmulatorMessage::SoundPulse2(on) => Reaction::Sound(Channel::Pulse2, on),
            ToEmulatorMessage::SoundTriangle(on) => Reaction::Sound(Channel::Triangle, on),
            ToEmulatorMessage::SoundNoise(on) => Reaction::Sound(Channel::Noise, on),
            ToEmulatorMessage::SoundDmc(on) => Reaction::Sound(Channel::Dmc, on),
            ToEmulatorMessage::_Debug => Reaction::Debug,
            ToEmulatorMessage::_SaveState | ToEmulatorMessage::_RestoreState => Reaction::Nothing,
        }
    }
}

/// The frame rate cap.
pub const CAP_FPS: u16 = 60;

/// What the loop does to keep to the frame rate cap.
#[derive(Clone, Copy, PartialEq, Eq, Structural, Debug)]
pub enum Pace {
    /// Below the cap: run on.
    Run,
    /// The window is over: forget this many counted frames and start a new window.
    Drain(usize),
    /// Ahead of the cap: sleep a millisecond.
    Sleep,
    /// Ahead of the cap by at most a millisecond: yield.
    Yield,
}

/// Frame pacing: the cap is kept over windows of 1000 / 30 ms, each
/// allowed `CAP_FPS / 30` frames. Once that many frames were counted, a
/// window that is over starts a new one; otherwise the loop waits, where
/// the audio can spare it.
pub fn pace(frame_count: usize, elapsed_ms: u128, can_sleep: bool) -> (r: Pace)
    ensures
        r == if frame_count < 2 {
            Pace::Run
        } else if elapsed_ms >= 33 {
            Pace::Drain(2)
        } else if !can_sleep {
            Pace::Run
        } else if 33 - elapsed_ms > 1 {
            Pace::Sleep
        } else {
            Pace::Yield
        },
{
    let divider: u128 = 30;
    let time_wait_ms = 1000 / divider;
    let frame_cap_divided = CAP_FPS as u128 / divider;
    if frame_count as u128 >= frame_cap_divided {
        if elapsed_ms >= time_wait_ms {
            Pace::Drain(frame_cap_divided as usize)
        } else if can_sleep {
            let remaining_ms = time_wait_ms - elapsed_ms;
            if remaining_ms > 1 {
                Pace::Sleep
            } else {
                Pace::Yield
            }
        } else {
            Pace::Run
        }
    } else {
        Pace::Run
    }
}

/// The controller byte that holds exactly the buttons pressed in `frame`,
/// each at its own bit.
pub open spec fn pressed_bits(frame: ControllerState) -> u8 {
    (if frame.a { 1u8 } else { 0u8 }) | (if frame.b { 2u8 } else { 0u8 }) | (if frame.select {
        4u8
    } else {
        0u8
    }) | (if frame.start { 8u8 } else { 0u8 }) | (if frame.up { 16u8 } else { 0u8 }) | (
    if frame.down {
        32u8
    } else {
        0u8
    }) | (if frame.left { 64u8 } else { 0u8 }) | (if frame.right { 128u8 } else { 0u8 })
}

/// `status` with `bit` set where `on`, cleared otherwise.
pub open spec fn with_bit(status: u8, bit: u8, on: bool) -> u8 {
    if on {
        status | (1u8 << bit)
    } else {
        status & !(1u8 << bit)
    }
}

proof fn lemma_all_buttons_set(
    s: u8,
    up: bool,
    down: bool,
    left: bool,
    right: bool,
    a: bool,
    b: bool,
    start: bool,
    select: bool,
)
    by (bit_vector)
    ensures
        with_bit(
            with_bit(
                with_bit(
                    with_bit(
                        with_bit(
                            with_bit(with_bit(with_bit(s, 4, up), 5, down), 6, left),
                            7,
                            right,
                        ),
                        0,
                        a,
                    ),
                    1,
                    b,
                ),
                3,
                start,
            ),
            2,
            select,
        ) == (if a { 1u8 } else { 0u8 }) | (if b { 2u8 } else { 0u8 }) | (if select {
            4u8
        } else {
            0u8
        }) | (if start { 8u8 } else { 0u8 }) | (if up { 16u8 } else { 0u8 }) | (if down {
            32u8
        } else {
            0u8
        }) | (if left { 64u8 } else { 0u8 }) | (if right { 128u8 } else { 0u8 }),
{
}

/// Applies a movie frame to the controller: every button takes the
/// frame's state, so that releases are honored.
pub fn apply_movie_frame(joypad: &mut Joypad, frame: &ControllerState)
    ensures
        final(joypad).status() == pressed_bits(*frame),
        final(joypad).index() == old(joypad).index(),
{
    let ghost s0 = joypad.status();
    joypad.set_button_status(Button::Up, frame.up);
    joypad.set_button_status(Button::Down, frame.down);
    joypad.set_button_status(Button::Left, frame.left);
    joypad.set_button_status(Button::Right, frame.right);
    joypad.set_button_status(Button::A, frame.a);
    joypad.set_button_status(Button::B, frame.b);
    joypad.set_button_status(Button::Start, frame.start);
    joypad.set_button_status(Button::Select, frame.select);
    proof {
        lemma_all_buttons_set(
            s0,
            frame.up,
            frame.down,
            frame.left,
            frame.right,
            frame.a,
            frame.b,
            frame.start,
            frame.select,
        );
    }
}

/// The interrupt vectors at the end of the program ROM, as (IRQ, reset,
/// NMI): the last six bytes hold NMI, reset and IRQ in that order, each
/// low byte first.
pub fn vectors(prg_rom: &Vec<u8>) -> (r: (u16, u16, u16))
    requires
        prg_rom.len() >= 6,
    ensures
        ({
            let p = prg_rom@;
            let n = p.len() as int;
            &&& r.0 == (p[n - 1] as u16) << 8u16 | p[n - 2] as u16
            &&& r.1 == (p[n - 3] as u16) << 8u16 | p[n - 4] as u16
            &&& r.2 == (p[n - 5] as u16) << 8u16 | p[n - 6] as u16
        }),
{
    let len = prg_rom.len();
    let irq = ((prg_rom[len - 1] as u16) << 8) | prg_rom[len - 2] as u16;
    let pc = ((prg_rom[len - 3] as u16) << 8) | prg_rom[len - 4] as u16;
    let nmi = ((prg_rom[len - 5] as u16) << 8) | prg_rom[len - 6] as u16;
    (irq, pc, nmi)
}

/// The cycles a call of `Emulator::tick` runs at most.
pub const TICK_BATCH_CYCLES: usize = 2000;

/// The dot of a frame at which the visible picture is complete: dot 0 of
/// scanline 240.
pub open spec fn frame_end_dot() -> int {
    240 * WIDTH as int
}

/// The dot at which the VBL flag rises: dot 0 of scanline 241.
pub open spec fn vbl_dot() -> int {
    241 * WIDTH as int
}

/// One of the three PPU dots of a CPU cycle that starts at dot `e` is `dot`
/// (the frame wraps only at its last dot, far from both dots used here).
pub open spec fn dots_cross(e: int, dot: int) -> bool {
    dot - 2 <= e <= dot
}

/// The CPU's interrupt request before its cycle: an IRQ from the APU wins over
/// an NMI from the PPU, which wins over what was pending.
pub open spec fn pending_after(pending: Option<(u16, u16)>, nmi: bool, irq: bool) -> Option<(u16, u16)> {
    if irq {
        Some((0xfffe, 0xffff))
    } else if nmi {
        Some((0xfffa, 0xfffb))
    } else {
        pending
    }
}

/// The outcome of one CPU cycle from `c` to `d`, as `Cpu2::one_cycle` states it.
pub open spec fn cpu_cycle(c: Cpu2<NesMemory>, d: Cpu2<NesMemory>, r: Result<(bool, u128, bool), UnknownOpcode>) -> bool {
    match r {
        Ok((b, _, _)) => exists|h: Seq<Cpu2<NesMemory>>|
            #[trigger] Cpu2::<NesMemory>::idle_run(h) && h[0] == c && h.last().tick_rel(d, Ok::<u8, UnknownOpcode>(1))
                && b == h.last().between_instructions(),
        Err(e) => exists|h: Seq<Cpu2<NesMemory>>|
            #[trigger] Cpu2::<NesMemory>::idle_run(h) && h[0] == c && h.last().tick_rel(d, Err::<u8, UnknownOpcode>(e)),
    }
}

/// Over the three parts of a dot, the pixel queue keeps its delay and its
/// clock moves by at most one, and the CPU memory changes at most at $2002.
proof fn lemma_dot_keeps(p: Ppu2, m: NesMemory, q: Ppu2, n: NesMemory, sprite_rendering: bool,
    background_rendering: bool, x: int, y: int)
    requires
        m.wf(),
        exists|p1: Ppu2, m1: NesMemory, p2: Ppu2, m2: NesMemory|
            #[trigger] front_step(p, m, p1, m1, sprite_rendering, background_rendering, x, y)
            && #[trigger] background_step(p1, m1, p2, m2, sprite_rendering, background_rendering,
                is_nt_dot(y, x),
                is_at_dot(y, x), is_bg_ls_dot(y, x), is_inc_h_dot(y, x), is_inc_v_dot(y, x),
                is_hori_dot(y, x), is_vert_dot(y, x), is_vbl_dot(y, x), is_clear_dot(y, x),
                render_line(y))
            && #[trigger] sprite_step(p2, m2, q, n, sprite_rendering,
                background_rendering,
                is_eval_dot(y, x), is_end_eval_dot(y, x), is_sprite_ls_dot(y, x),
                is_oam_clear_dot(y, x), x, y),
    ensures
        q.delayed_pixels.delay == p.delayed_pixels.delay,
        q.delayed_pixels.current_time <= p.delayed_pixels.current_time + 1,
        n.memory@.len() == m.memory@.len(),
        forall|i: int| 0 <= i < m.memory@.len() && i != 0x2002 ==> #[trigger] n.memory@[i] == m.memory@[i],
{
    let (p1, m1, p2, m2) = choose|p1: Ppu2, m1: NesMemory, p2: Ppu2, m2: NesMemory|
        #[trigger] front_step(p, m, p1, m1, sprite_rendering, background_rendering, x, y)
        && #[trigger] background_step(p1, m1, p2, m2, sprite_rendering, background_rendering,
            is_nt_dot(y, x),
            is_at_dot(y, x), is_bg_ls_dot(y, x), is_inc_h_dot(y, x), is_inc_v_dot(y, x),
            is_hori_dot(y, x), is_vert_dot(y, x), is_vbl_dot(y, x), is_clear_dot(y, x),
            render_line(y))
        && #[trigger] sprite_step(p2, m2, q, n, sprite_rendering,
            background_rendering,
            is_eval_dot(y, x), is_end_eval_dot(y, x), is_sprite_ls_dot(y, x),
            is_oam_clear_dot(y, x), x, y);
    let visible = y < 240 && x < 256;
    if visible {
        assert(p1.delayed_pixels.current_time == p.delayed_pixels.current_time + 1);
    } else {
        assert(p1.delayed_pixels == p.delayed_pixels);
    }
    assert(p2.delayed_pixels == p1.delayed_pixels);
    assert(q.delayed_pixels == p2.delayed_pixels);
}

/// The processor stopped on `e`: some state led by one of its cycles to `d`
/// with that error.
pub open spec fn cpu_fault(d: Cpu2<NesMemory>, e: UnknownOpcode) -> bool {
    exists|c: Cpu2<NesMemory>| #[trigger] cpu_cycle(c, d, Err::<(bool, u128, bool), UnknownOpcode>(e))
}

/// One PPU dot of the machine, from the processor `c0` to `c1`: the PPU, taken off the
/// bus while it runs, renders the dot with the mask's rendering flags, and an NMI becomes
/// pending when the dot raises VBL while $2000 enables it (an IRQ when the PPU asks for one).
pub open spec fn machine_dot(c0: Cpu2<NesMemory>, c1: Cpu2<NesMemory>) -> bool {
    let m0 = c0.bus_state();
    &&& m0.ppu is Some
    &&& exists|q: Ppu2, n: NesMemory, res: PpuResult|
        #[trigger] dot_rendered(m0.ppu.unwrap(), NesMemory { ppu: None, ..m0 }, q, n,
            m0.ppu_mask.sprite_rendering_effective, m0.ppu_mask.background_rendering_effective, res)
        && c1.bus_state() == (NesMemory { ppu: Some(q), ..n })
        && c1.regs() == (Core {
            pending: pending_after(c0.regs().pending, res.vbl && n.memory@[0x2000] & 0x80 != 0,
                res.irq_requested),
            ..c0.regs()
        })
}

/// One CPU cycle of the machine, from `e0` to `e1` with the outcome `r`: three PPU dots,
/// one APU step (whose DMC reader, when it fetches, reads its byte through the bus),
/// an IRQ when the DMC then requests one, and one processor cycle. The cycle reports one
/// cycle run, and a completed frame when one of its dots ends the picture.
pub open spec fn machine_cycle(e0: Emulator, e1: Emulator, r: Result<(bool, u128, bool), UnknownOpcode>) -> bool {
    &&& r matches Ok((_, c, f)) ==> c == 1 && f == dots_cross(e0.ppu().event_index as int, frame_end_dot())
    &&& exists|c1: Cpu2<NesMemory>, c2: Cpu2<NesMemory>, c3: Cpu2<NesMemory>, c4: Cpu2<NesMemory>, byte: u8| {
        &&& #[trigger] machine_dot(e0.cpu, c1)
        &&& #[trigger] machine_dot(c1, c2)
        &&& #[trigger] machine_dot(c2, c3)
        &&& #[trigger] apu_stepped(e0.apu, byte) == e1.apu
        &&& e0.apu.dmc.dma_delay == 1 ==>
            c3.bus_state().reads(c4.bus_state(), e0.apu.dmc.current_address, byte)
        &&& e0.apu.dmc.dma_delay != 1 ==> c4.bus_state() == c3.bus_state()
        &&& c4.regs() == (Core {
            pending: pending_after(c3.regs().pending, false, e1.apu.dmc.irq_enabled && e1.apu.dmc.irq_flag),
            ..c3.regs()
        })
        &&& #[trigger] cpu_cycle(c4, e1.cpu, r)
    }
}

/// A machine cycle from `e0` to `e1` that neither completed a frame nor stopped the processor.
pub open spec fn quiet_cycle(e0: Emulator, e1: Emulator) -> bool {
    exists|adv: bool| #[trigger] machine_cycle(e0, e1, Ok((adv, 1u128, false)))
}

/// Each state of `run` is reached from the one before by a quiet machine cycle.
pub open spec fn quiet_run(run: Seq<Emulator>) -> bool {
    forall|k: int| 0 <= k < run.len() - 1 ==> #[trigger] quiet_cycle(run[k], run[k + 1])
}

/// `e1` is reached from `e0` by quiet machine cycles and then one that stopped the
/// processor on the unknown opcode `e`.
pub open spec fn stopped_after_quiet_run(e0: Emulator, e1: Emulator, e: UnknownOpcode) -> bool {
    exists|run: Seq<Emulator>|
        run.len() >= 1 && run[0] == e0 && #[trigger] quiet_run(run)
        && #[trigger] machine_cycle(run.last(), e1, Err(e))
}

/// A quiet run followed by one more quiet cycle is a longer quiet run.
proof fn lemma_quiet_push(run: Seq<Emulator>, e1: Emulator)
    requires
        run.len() >= 1,
        quiet_run(run),
        quiet_cycle(run.last(), e1),
    ensures
        quiet_run(run.push(e1)),
{
    let s = run.push(e1);
    assert forall|k: int| 0 <= k < s.len() - 1 implies #[trigger] quiet_cycle(s[k], s[k + 1]) by {
        if k < run.len() - 1 {
            assert(s[k] == run[k] && s[k + 1] == run[k + 1]);
        } else {
            assert(s[k] == run.last() && s[k + 1] == e1);
        }
    }
}

/// The machine that the loop runs: the processor, whose bus holds the PPU,
/// the cartridge and the controllers, and the APU beside it.
pub struct Emulator {
    pub cpu: Cpu2<NesMemory>,
    pub apu: Apu,
}

impl Emulator {
    /// The processor and the APU are well formed (and so is the bus, with the
    /// PPU it holds).
    pub open spec fn wf(&self) -> bool {
        &&& self.cpu.wf()
        &&& self.apu.wf()
    }

    /// The PPU on the bus.
    pub open spec fn ppu(&self) -> Ppu2 {
        self.cpu.bus_state().ppu.unwrap()
    }

    /// The CPU memory seen from the bus.
    pub open spec fn ram(&self) -> Seq<u8> {
        self.cpu.bus_state().memory@
    }

    /// The PPU's pixel clock and the APU's cycle counter have room for one
    /// more CPU cycle.
    pub open spec fn has_room(&self) -> bool {
        &&& self.cpu.bus_state().ppu is Some
        &&& self.ppu().delayed_pixels.current_time + self.ppu().delayed_pixels.delay + 3 < u64::MAX
        &&& self.apu.cycle_count + 1 < u64::MAX
    }

    /// Builds the machine for `rom`: the board, a PPU at the start of a frame,
    /// a fresh APU, the bus with its registers live, and the processor at the
    /// reset vector (or at `pc` where one is given) with the stack pointer at $FD.
    pub fn new(rom: &Rom, joypad: Joypad, pc: Option<u16>) -> (r: Self)
        requires
            supported_rom(*rom),
        ensures
            r.wf(),
            r.cpu.regs().pc == match pc {
                Some(p) => p,
                None => {
                    let p = rom.prg_rom@;
                    let n = p.len() as int;
                    (p[n - 3] as u16) << 8u16 | p[n - 4] as u16
                },
            },
            r.cpu.regs().s == 0xfd,
            r.cpu.regs().pending is None,
            !r.cpu.bus_state().init,
            r.ppu().event_index == 0,
            r.ppu().delayed_pixels.current_time == 0,
            r.apu.cycle_count == 0,
    {
        let mut mapper = MapperBase::new(rom);
        let ppu = Ppu2::new(&mut mapper);
        let apu = Apu::new();
        let (_irq, reset, _nmi) = vectors(&rom.prg_rom);
        let start = match pc {
            Some(p) => p,
            None => reset,
        };
        let mut memory = NesMemory::new(mapper, joypad, ppu);
        memory.init = false;
        let mut cpu = Cpu2::new(memory);
        let ghost c0 = cpu;
        cpu.set_pc(start);
        proof {
            c0.lemma_wf_parts(&cpu);
        }
        cpu.set_s(0xfd);
        Emulator { cpu, apu }
    }

    /// Whether the PPU's pixel clock and the APU's cycle counter have room for
    /// one more cycle (they run out after 2^64 cycles).
    pub fn room_left(&mut self) -> (r: bool)
        requires
            old(self).wf(),
        ensures
            final(self).wf(),
            r == old(self).has_room(),
            final(self).cpu.regs() == old(self).cpu.regs(),
            final(self).cpu.bus_state() == old(self).cpu.bus_state(),
            final(self).apu == old(self).apu,
    {
        let ghost c0 = self.cpu;
        let apu_room = self.apu.cycle_count < u64::MAX - 1;
        let mem = self.cpu.memory();
        let ppu_room = match &mem.ppu {
            Some(p) => (p.delayed_pixels.current_time as u128) + (p.delayed_pixels.delay as u128) + 3 < (
            u64::MAX as u128),
            None => false,
        };
        proof {
            c0.lemma_wf_parts(&self.cpu);
        }
        apu_room && ppu_room
    }

    /// One PPU dot: the PPU runs with the mask's rendering flags, and an NMI
    /// is requested when the VBL flag rises while $2000 enables it.
    #[verifier::rlimit(60)]
    #[verifier::spinoff_prover]
    fn ppu_dot(&mut self) -> (frame_end: bool)
        requires
            old(self).wf(),
            old(self).cpu.bus_state().ppu is Some,
            old(self).ppu().delayed_pixels.current_time + old(self).ppu().delayed_pixels.delay < u64::MAX,
        ensures
            final(self).wf(),
            final(self).cpu.bus_state().ppu is Some,
            final(self).apu == old(self).apu,
            frame_end == (old(self).ppu().event_index == frame_end_dot()),
            old(self).ppu().event_index + 1 != FRAME_DOTS ==> final(self).ppu().event_index
                == old(self).ppu().event_index + 1,
            old(self).ppu().event_index + 1 == FRAME_DOTS ==> final(self).ppu().event_index <= 1,
            final(self).ppu().delayed_pixels.delay == old(self).ppu().delayed_pixels.delay,
            final(self).ppu().delayed_pixels.current_time <= old(self).ppu().delayed_pixels.current_time
                + 1,
            final(self).ram().len() == old(self).ram().len(),
            forall|i: int|
                0 <= i < old(self).ram().len() && i != 0x2002 ==> #[trigger] final(self).ram()[i]
                    == old(self).ram()[i],
            final(self).cpu.regs() == (Core {
                pending: pending_after(
                    old(self).cpu.regs().pending,
                    old(self).ppu().event_index == vbl_dot() && old(self).ram()[0x2000] & 0x80 != 0,
                    false,
                ),
                ..old(self).cpu.regs()
            }),
            machine_dot(old(self).cpu, final(self).cpu),
    {
        let ghost c0 = self.cpu;
        proof {
            c0.lemma_wf_parts(&c0);
        }
        let mem = self.cpu.memory();
        let sprite_rendering = mem.ppu_mask.sprite_rendering();
        let background_rendering = mem.ppu_mask.background_rendering();
        let mut ppu = mem.ppu.take().unwrap();
        let ghost p0 = ppu;
        let ghost m0 = *mem;
        let res = ppu.tick(sprite_rendering, background_rendering, mem);
        let ghost n1 = *mem;
        proof {
            let ei = p0.event_index as int;
            lemma_dot_keeps(
                p0,
                m0,
                ppu,
                *mem,
                sprite_rendering,
                background_rendering,
                ei % WIDTH as int,
                ei / WIDTH as int,
            );
            reveal(is_vbl_dot);
            assert((ei / 341 == 241 && ei % 341 == 0) <==> ei == 82181);
            assert((ei / 341 == 240 && ei % 341 == 0) <==> ei == 81840);
        }
        mem.ppu = Some(ppu);
        let vbl_enabled = mem.is_vbl_enabled();
        proof {
            c0.lemma_wf_parts(&self.cpu);
        }
        if res.vbl && vbl_enabled {
            self.cpu.nmi();
        }
        if res.irq_requested {
            self.cpu.irq();
        }
        proof {
            assert(m0 == (NesMemory { ppu: None, ..c0.bus_state() }));
            assert(dot_rendered(p0, m0, ppu, n1, sprite_rendering, background_rendering, res));
            assert(self.cpu.bus_state() == (NesMemory { ppu: Some(ppu), ..n1 }));
        }
        res.frame_end
    }

    /// One CPU cycle of the machine: three PPU dots (with the NMI that VBL
    /// raises), one APU step (with the IRQ of its DMC), then one processor
    /// cycle. Returns whether an instruction completed, the cycles run, and
    /// whether this cycle completed a frame.
    pub fn tick_one(&mut self) -> (r: Result<(bool, u128, bool), UnknownOpcode>)
        requires
            old(self).wf(),
            old(self).has_room(),
        ensures
            final(self).wf(),
            final(self).apu.cycle_count == old(self).apu.cycle_count + 1,
            machine_cycle(*old(self), *final(self), r),
    {
        let ghost s0 = *self;
        let f1 = self.ppu_dot();
        let ghost c1 = self.cpu;
        let f2 = self.ppu_dot();
        let ghost c2 = self.cpu;
        let f3 = self.ppu_dot();
        let frame_completed = f1 || f2 || f3;
        let ghost c3 = self.cpu;
        proof {
            c3.lemma_wf_parts(&c3);
        }
        let mem = self.cpu.memory();
        let ghost a0 = self.apu;
        let irq = self.apu.step(mem);
        let ghost byte = choose|byte: u8| {
            &&& #[trigger] apu_stepped(a0, byte) == self.apu
            &&& a0.dmc.dma_delay == 1 ==>
                c3.bus_state().reads(*mem, a0.dmc.current_address, byte)
        };
        proof {
            c3.lemma_wf_parts(&self.cpu);
        }
        if irq {
            self.cpu.irq();
        }
        let ghost c = self.cpu;
        let r = match self.cpu.one_cycle() {
            Ok((advanced, _)) => Ok((advanced, 1u128, frame_completed)),
            Err(e) => Err(e),
        };
        assert(cpu_cycle(c, self.cpu, r));
        assert(machine_dot(s0.cpu, c1) && machine_dot(c1, c2) && machine_dot(c2, c3));
        assert(apu_stepped(s0.apu, byte) == self.apu);
        r
    }

    /// Runs cycles until one completes a frame, at most `TICK_BATCH_CYCLES` of
    /// them; it stops early where the counters have no room left. Returns the
    /// cycles run and whether a frame was completed: every cycle before the last
    /// one is quiet, and the last completed the frame, or stopped the processor.
    #[verifier::rlimit(100)]
    #[verifier::spinoff_prover]
    pub fn tick(&mut self) -> (r: Result<(u128, bool), UnknownOpcode>)
        requires
            old(self).wf(),
        ensures
            final(self).wf(),
            r matches Ok((cycles, frame)) ==> {
                &&& cycles <= TICK_BATCH_CYCLES
                &&& final(self).apu.cycle_count == old(self).apu.cycle_count + cycles
                &&& cycles < TICK_BATCH_CYCLES ==> frame || !final(self).has_room()
                &&& !frame ==> exists|run: Seq<Emulator>|
                    run.len() == cycles + 1 && run[0] == *old(self) && run.last() == *final(self)
                    && #[trigger] quiet_run(run)
                &&& frame ==> cycles >= 1 && exists|run: Seq<Emulator>, adv: bool|
                    run.len() == cycles && run[0] == *old(self) && #[trigger] quiet_run(run)
                    && #[trigger] machine_cycle(run.last(), *final(self), Ok((adv, 1u128, true)))
            },
            r matches Err(e) ==> cpu_fault(final(self).cpu, e) && stopped_after_quiet_run(*old(self),
                *final(self), e),
    {
        let ghost start = *self;
        let ghost mut run: Seq<Emulator> = seq![*self];
        let ghost mut last_adv = false;
        let mut cycles: u128 = 0;
        let mut frame_completed = false;
        let mut i: usize = 0;
        while i < TICK_BATCH_CYCLES && !frame_completed
            invariant_except_break
                start == *old(self),
                self.wf(),
                i <= TICK_BATCH_CYCLES,
                cycles == i,
                self.apu.cycle_count == start.apu.cycle_count + i,
                run.len() >= 1,
                run[0] == start,
                quiet_run(run),
                !frame_completed ==> run.len() == i + 1 && run.last() == *self,
                frame_completed ==> run.len() == i && i >= 1
                    && machine_cycle(run.last(), *self, Ok((last_adv, 1u128, true))),
            ensures
                start == *old(self),
                self.wf(),
                cycles <= TICK_BATCH_CYCLES,
                self.apu.cycle_count == start.apu.cycle_count + cycles,
                cycles < TICK_BATCH_CYCLES ==> frame_completed || !self.has_room(),
                run.len() >= 1,
                run[0] == start,
                quiet_run(run),
                !frame_completed ==> run.len() == cycles + 1 && run.last() == *self,
                frame_completed ==> run.len() == cycles && cycles >= 1
                    && machine_cycle(run.last(), *self, Ok((last_adv, 1u128, true))),
            decreases TICK_BATCH_CYCLES - i,
        {
            let ghost before = *self;
            if !self.room_left() {
                proof {
                    before.cpu.lemma_state_parts(&self.cpu);
                }
                break;
            }
            proof {
                before.cpu.lemma_state_parts(&self.cpu);
            }
            let ghost prev = *self;
            let res = self.tick_one();
            match res {
                Ok((adv, c, frame_done)) => {
                    proof {
                        assert(machine_cycle(prev, *self, Ok((adv, 1u128, frame_done))));
                        if frame_done {
                            last_adv = adv;
                        } else {
                            assert(quiet_cycle(prev, *self));
                            lemma_quiet_push(run, *self);
                            run = run.push(*self);
                        }
                    }
                    cycles = cycles + c;
                    frame_completed = frame_completed || frame_done;
                },
                Err(e) => {
                    proof {
                        let (c1, c2, c3, c4, byte) = choose|c1: Cpu2<NesMemory>, c2: Cpu2<NesMemory>,
                            c3: Cpu2<NesMemory>, c4: Cpu2<NesMemory>, byte: u8| {
                            &&& #[trigger] machine_dot(prev.cpu, c1)
                            &&& #[trigger] machine_dot(c1, c2)
                            &&& #[trigger] machine_dot(c2, c3)
                            &&& #[trigger] apu_stepped(prev.apu, byte) == self.apu
                            &&& prev.apu.dmc.dma_delay == 1 ==>
                                c3.bus_state().reads(c4.bus_state(), prev.apu.dmc.current_address, byte)
                            &&& prev.apu.dmc.dma_delay != 1 ==> c4.bus_state() == c3.bus_state()
                            &&& c4.regs() == (Core {
                                pending: pending_after(c3.regs().pending, false,
                                    self.apu.dmc.irq_enabled && self.apu.dmc.irq_flag),
                                ..c3.regs()
                            })
                            &&& #[trigger] cpu_cycle(c4, self.cpu, res)
                        };
                        assert(res == Err::<(bool, u128, bool), UnknownOpcode>(e));
                        assert(cpu_cycle(c4, self.cpu, Err::<(bool, u128, bool), UnknownOpcode>(e)));
                        assert(machine_cycle(run.last(), *self, Err(e)));
                        assert(run.len() >= 1 && run[0] == *old(self) && quiet_run(run));
                        assert(exists|w: Seq<Emulator>| w.len() >= 1 && w[0] == *old(self)
                            && #[trigger] quiet_run(w) && #[trigger] machine_cycle(w.last(), *self, Err(e)));
                    }
                    assert(cpu_fault(self.cpu, e));
                    assert(stopped_after_quiet_run(*old(self), *self, e));
                    return Err(e);
                },
            }
            i = i + 1;
        }
        Ok((cycles, frame_completed))
    }
}

/// `byte` as a memory dump shows it: printable ASCII (space, letters,
/// digits, punctuation) as itself, anything else as `.`.
pub open spec fn shown_char(byte: u8) -> char {
    if 0x20 <= byte <= 0x7e {
        byte as char
    } else {
        '.'
    }
}



/// Each byte in hexadecimal, followed by a space.
pub open spec fn hex_column(values: Seq<u8>) -> Seq<char>
    decreases values.len(),
{
    if values.len() == 0 {
        seq![]
    } else {
        hex_column(values.drop_last()) + hex_byte(values.last()) + seq![' ']
    }
}

/// A dump line: the address, the first 16 bytes in hexadecimal, then the same
/// bytes as characters.
pub open spec fn dump_line(address: u16, values: Seq<u8>) -> Seq<char> {
    hex_word(address) + seq![':', ' '] + hex_column(values.take(16)) + seq![' ', ' '] + values.take(
        16,
    ).map_values(|b: u8| shown_char(b)) + seq!['\n']
}


fn shown(byte: u8) -> (r: char)
    ensures
        r == shown_char(byte),
{
    if byte == 0x20 || (0x30 <= byte && byte <= 0x39) || (0x41 <= byte && byte <= 0x5a) || (0x61 <= byte
        && byte <= 0x7a) || (0x21 <= byte && byte <= 0x2f) || (0x3a <= byte && byte <= 0x40) || (0x5b
        <= byte && byte <= 0x60) || (0x7b <= byte && byte <= 0x7e) {
        byte as char
    } else {
        '.'
    }
}

impl Emulator {
    /// `byte` as a one-character string for a memory dump.
    pub fn displayable_character(byte: u8) -> (r: String)
        ensures
            r@ == seq![shown_char(byte)],
    {
        let mut s = String::new();
        push_char(&mut s, shown(byte));
        s
    }

    /// A memory dump line for the 16 bytes at `address`.
    pub fn line(address: u16, values: &[u8]) -> (r: String)
        requires
            values@.len() >= 16,
        ensures
            r@ == dump_line(address, values@),
    {
        let mut line = String::new();
        assert(((address >> 12u16) & 0xf) < 16u16 && ((address >> 8u16) & 0xf) < 16u16 && ((address
            >> 4u16) & 0xf) < 16u16 && (address & 0xf) < 16u16) by (bit_vector);
        push_hex_digit(&mut line, ((address >> 12) & 0xf) as u8);
        push_hex_digit(&mut line, ((address >> 8) & 0xf) as u8);
        push_hex_digit(&mut line, ((address >> 4) & 0xf) as u8);
        push_hex_digit(&mut line, (address & 0xf) as u8);
        push_char(&mut line, ':');
        push_char(&mut line, ' ');
        let ghost head = line@;
        assert(head =~= hex_word(address) + seq![':', ' ']);
        let mut i: usize = 0;
        while i < 16
            invariant
                i <= 16,
                values@.len() >= 16,
                line@ == head + hex_column(values@.take(i as int)),
            decreases 16 - i,
        {
            push_hex_byte(&mut line, values[i]);
            push_char(&mut line, ' ');
            assert(values@.take(i + 1).drop_last() =~= values@.take(i as int));
            i = i + 1;
        }
        push_char(&mut line, ' ');
        push_char(&mut line, ' ');
        let ghost mid = line@;
        let mut j: usize = 0;
        while j < 16
            invariant
                j <= 16,
                values@.len() >= 16,
                line@ == mid + values@.take(j as int).map_values(|b: u8| shown_char(b)),
            decreases 16 - j,
        {
            push_char(&mut line, shown(values[j]));
            assert(values@.take(j + 1).map_values(|b: u8| shown_char(b)) =~= values@.take(j as int).map_values(
                |b: u8| shown_char(b),
            ).push(shown_char(values@[j as int])));
            j = j + 1;
        }
        push_char(&mut line, '\n');
        assert(line@ =~= dump_line(address, values@));
        line
    }
}

/// The first `n` lines of a dump of `values`, 16 bytes a line from address 0.
pub open spec fn dump_lines(values: Seq<u8>, n: nat) -> Seq<char>
    decreases n,
{
    if n == 0 {
        seq![]
    } else {
        let k = (n - 1) as nat;
        dump_lines(values, k) + dump_line((k as int * 16) as u16, values.subrange(k as int * 16, k as int * 16 + 16))
    }
}

/// The memory dump: the 64 KB that the CPU reads, the 16 KB of PPU address
/// space, and the 256 bytes of OAM, each under its title.
pub open spec fn dump_text(cpu: Seq<u8>, vram: Seq<u8>, oam: Seq<u8>) -> Seq<char> {
    "\nCPU Memory\n==========\n"@ + dump_lines(cpu, 4096) + "\nPPU Memory\n==========\n"@ + dump_lines(
        vram,
        1024,
    ) + "\nOAM\n===\n"@ + dump_lines(oam, 16)
}

/// The 16 bytes that the CPU reads from `base` on, with the effects of the reads.
fn cpu_row(mem: &mut NesMemory, base: u16) -> (r: Vec<u8>)
    requires
        old(mem).wf(),
        base <= 0xfff0,
    ensures
        final(mem).wf(),
        final(mem).ppu == old(mem).ppu,
        r@.len() == 16,
{
    let mut values: Vec<u8> = Vec::new();
    let mut a: u16 = 0;
    while a < 16
        invariant
            a <= 16,
            base <= 0xfff0,
            mem.wf(),
            mem.ppu == old(mem).ppu,
            values@.len() == a,
        decreases 16 - a,
    {
        let v = mem.get(base + a);
        values.push(v);
        a = a + 1;
    }
    values
}

/// The 16 bytes of PPU address space from `base` on.
fn vram_row(mem: &mut NesMemory, base: usize) -> (r: Vec<u8>)
    requires
        old(mem).wf(),
        old(mem).ppu is Some,
        base <= 0x3ff0,
    ensures
        final(mem).wf(),
        final(mem).ppu == old(mem).ppu,
        r@.len() == 16,
{
    let mut values: Vec<u8> = Vec::new();
    let mut a: usize = 0;
    while a < 16
        invariant
            a <= 16,
            base <= 0x3ff0,
            mem.wf(),
            mem.ppu is Some,
            mem.ppu == old(mem).ppu,
            values@.len() == a,
        decreases 16 - a,
    {
        let v = match &mem.ppu {
            Some(p) => p.get_vram(base + a, &mut mem.mapper),
            None => 0,
        };
        values.push(v);
        a = a + 1;
    }
    values
}

impl Emulator {
    /// The memory dump of the debug request: every CPU address read in turn
    /// (registers with the effects of a read), the PPU address space and the
    /// OAM, 16 bytes a line.
    #[verifier::rlimit(100)]
    #[verifier::spinoff_prover]
    pub fn dump(&mut self) -> (r: String)
        requires
            old(self).wf(),
            old(self).cpu.bus_state().ppu is Some,
        ensures
            final(self).wf(),
            final(self).cpu.bus_state().ppu is Some,
            final(self).apu == old(self).apu,
            exists|cpu: Seq<u8>, vram: Seq<u8>|
                cpu.len() == 0x10000 && vram.len() == 0x4000 && r@ == dump_text(
                    cpu,
                    vram,
                    final(self).ppu().oam@,
                ),
    {
        let mut text = String::new();
        push_text(&mut text, "\nCPU Memory\n==========\n");
        let ghost mut cpu_values: Seq<u8> = seq![];
        let mut i: u32 = 0;
        while i <= 0xffff
            invariant
                i <= 0x10000,
                i % 16 == 0,
                self.wf(),
                self.cpu.bus_state().ppu is Some,
                self.apu == old(self).apu,
                cpu_values.len() == i,
                text@ == "\nCPU Memory\n==========\n"@ + dump_lines(cpu_values, (i / 16) as nat),
            decreases 0x10000 - i,
        {
            let ghost c0 = self.cpu;
            proof {
                c0.lemma_wf_parts(&c0);
            }
            let row = cpu_row(self.cpu.memory(), i as u16);
            proof {
                c0.lemma_wf_parts(&self.cpu);
            }
            let l = Self::line(i as u16, row.as_slice());
            push_text(&mut text, l.as_str());
            proof {
                let old_values = cpu_values;
                cpu_values = cpu_values + row@;
                let k = (i / 16) as nat;
                assert(cpu_values.subrange(0, k as int * 16) =~= old_values);
                assert(cpu_values.subrange(k as int * 16, k as int * 16 + 16) =~= row@);
                assert(row@.take(16) =~= row@);
                assert(cpu_values.subrange(k as int * 16, k as int * 16 + 16).take(16) =~= row@);
                lemma_dump_lines_prefix(old_values, cpu_values, k);
            }
            i = i + 16;
        }
        assert(i == 0x10000);
        push_text(&mut text, "\nPPU Memory\n==========\n");
        let ghost head = text@;
        let ghost mut vram_values: Seq<u8> = seq![];
        let mut j: usize = 0;
        while j <= 0x3fff
            invariant
                j <= 0x4000,
                j % 16 == 0,
                self.wf(),
                self.cpu.bus_state().ppu is Some,
                self.apu == old(self).apu,
                vram_values.len() == j,
                text@ == head + dump_lines(vram_values, (j / 16) as nat),
            decreases 0x4000 - j,
        {
            let ghost c0 = self.cpu;
            proof {
                c0.lemma_wf_parts(&c0);
            }
            let row = vram_row(self.cpu.memory(), j);
            proof {
                c0.lemma_wf_parts(&self.cpu);
            }
            let l = Self::line(j as u16, row.as_slice());
            push_text(&mut text, l.as_str());
            proof {
                let old_values = vram_values;
                vram_values = vram_values + row@;
                let k = (j / 16) as nat;
                assert(vram_values.subrange(0, k as int * 16) =~= old_values);
                assert(vram_values.subrange(k as int * 16, k as int * 16 + 16) =~= row@);
                assert(row@.take(16) =~= row@);
                lemma_dump_lines_prefix(old_values, vram_values, k);
            }
            j = j + 16;
        }
        assert(j == 0x4000);
        push_text(&mut text, "\nOAM\n===\n");
        let ghost head2 = text@;
        let ghost c1 = self.cpu;
        let mem = self.cpu.memory();
        let oam: [u8; 256] = match &mem.ppu {
            Some(p) => p.oam,
            None => [0u8; 256],
        };
        proof {
            c1.lemma_wf_parts(&self.cpu);
        }
        assert(self.cpu.bus_state() == c1.bus_state());
        assert(oam == self.ppu().oam);
        let mut k: usize = 0;
        while k <= 0xff
            invariant
                k <= 0x100,
                k % 16 == 0,
                oam@.len() == 256,
                text@ == head2 + dump_lines(oam@, (k / 16) as nat),
            decreases 0x100 - k,
        {
            let mut values: Vec<u8> = Vec::new();
            let mut a: usize = 0;
            while a < 16
                invariant
                    a <= 16,
                    k <= 0xf0,
                    oam@.len() == 256,
                    values@ == oam@.subrange(k as int, k + a),
                decreases 16 - a,
            {
                values.push(oam[k + a]);
                assert(oam@.subrange(k as int, k + a + 1) =~= oam@.subrange(k as int, k + a).push(
                    oam@[k + a],
                ));
                a = a + 1;
            }
            let l = Self::line(k as u16, values.as_slice());
            push_text(&mut text, l.as_str());
            proof {
                let n = (k / 16) as nat;
                assert(values@.take(16) =~= values@);
                assert(oam@.subrange(n as int * 16, n as int * 16 + 16).take(16) =~= values@);
            }
            k = k + 16;
        }
        assert(text@ =~= dump_text(cpu_values, vram_values, oam@));
        text
    }
}

/// Appending bytes after the first `k` full lines leaves those lines, and the
/// next line is the dump of the next 16 bytes.
proof fn lemma_dump_lines_prefix(a: Seq<u8>, b: Seq<u8>, k: nat)
    requires
        a.len() == k as int * 16,
        b.len() == k as int * 16 + 16,
        a == b.subrange(0, k as int * 16),
    ensures
        dump_lines(b, k + 1) == dump_lines(a, k) + dump_line((k as int * 16) as u16, b.subrange(
            k as int * 16,
            k as int * 16 + 16,
        )),
    decreases k,
{
    assert(a.subrange(0, k as int * 16) =~= a);
    lemma_dump_lines_same(a, b, k);
}

/// The first `k` lines depend on the first `16 k` bytes only.
proof fn lemma_dump_lines_same(a: Seq<u8>, b: Seq<u8>, k: nat)
    requires
        a.len() >= k as int * 16,
        b.len() >= k as int * 16,
        a.subrange(0, k as int * 16) == b.subrange(0, k as int * 16),
    ensures
        dump_lines(a, k) == dump_lines(b, k),
    decreases k,
{
    if k > 0 {
        let j = (k - 1) as nat;
        assert(a.subrange(0, j as int * 16) =~= a.subrange(0, k as int * 16).subrange(0, j as int * 16));
        assert(b.subrange(0, j as int * 16) =~= b.subrange(0, k as int * 16).subrange(0, j as int * 16));
        lemma_dump_lines_same(a, b, j);
        assert(a.subrange(j as int * 16, j as int * 16 + 16) =~= a.subrange(0, k as int * 16).subrange(j as int * 16, j as int * 16 + 16));
        assert(b.subrange(j as int * 16, j as int * 16 + 16) =~= b.subrange(0, k as int * 16).subrange(j as int * 16, j as int * 16 + 16));
    }
}

} // verus!
