//! The top-level driver: holds the CPU once a cartridge is loaded, runs a
//! frame at a time and hands out the framebuffer and audio.
use vstd::prelude::*;
use crate::cartridge::{load_error, CartridgeError};
use crate::alu::with_bit;
use crate::cpu::CPU;
use crate::joypad::press_edge;
use crate::screen::{SCREEN_HEIGHT, SCREEN_WIDTH};

verus! {

pub struct RustyBoy {
    pub cpu: Option<CPU>,
}

impl RustyBoy {
    pub open spec fn wf(&self) -> bool {
        self.cpu matches Some(c) ==> c.wf()
    }

    /// No cartridge yet.
    pub fn new() -> (r: Self)
        ensures
            r.wf(),
            r.cpu is None,
    {
        Self { cpu: None }
    }

    /// Rebuilds the whole machine from a cartridge image. On error the
    /// machine is left as it was.
    pub fn load_rom(&mut self, bytes: Vec<u8>) -> (r: Result<(), CartridgeError>)
        requires
            old(self).wf(),
        ensures
            final(self).wf(),
            r is Ok <==> load_error(bytes@) is None,
            r matches Err(e) ==> load_error(bytes@) == Some(e) && *final(self) == *old(self),
            r is Ok ==> final(self).cpu is Some,
    {
        match CPU::new(bytes) {
            Ok(cpu) => {
                self.cpu = Some(cpu);
                Ok(())
            },
            Err(e) => Err(e),
        }
    }

    /// A key (0 Right, 1 Left, 2 Up, 3 Down, 4 A, 5 B, 6 Select, 7 Start)
    /// released (`up`) or pressed; other key numbers are ignored.
    pub fn handle_events(&mut self, key: u8, up: bool)
        requires
            old(self).wf(),
        ensures
            final(self).wf(),
            (final(self).cpu is Some) == (old(self).cpu is Some),
            key >= 8 || old(self).cpu is None ==> *final(self) == *old(self),
            key < 8 && old(self).cpu is Some ==> ({
                let o = old(self).cpu->0;
                let c = final(self).cpu->0;
                &&& c.registers == o.registers
                &&& c.memory.motherboard.joypad.keys_spec() == with_bit(o.memory.motherboard.joypad.keys_spec(), key, up)
                &&& c.memory.motherboard.joypad.value_spec() == o.memory.motherboard.joypad.value_spec()
                &&& c.memory.motherboard.i_flag == if press_edge(o.memory.motherboard.joypad, key, up) {
                    with_bit(o.memory.motherboard.i_flag, 4, true)
                } else {
                    o.memory.motherboard.i_flag
                }
            }),
    {
        if key < 8 {
            match &mut self.cpu {
                Some(cpu) => cpu.handle_input(key, up),
                None => {},
            }
        }
    }

    /// Runs one frame and returns the 160 x 144 RGBA framebuffer (all white
    /// without a cartridge).
    pub fn update_and_render(&mut self) -> (r: Vec<u8>)
        requires
            old(self).wf(),
        ensures
            final(self).wf(),
            r@.len() == SCREEN_WIDTH * SCREEN_HEIGHT * 4,
            old(self).cpu is None ==> forall|i: int| 0 <= i < r@.len() ==> #[trigger] r@[i] == 0xff,
            old(self).cpu is None ==> final(self).cpu is None,
            old(self).cpu is Some ==> final(self).cpu is Some && r@ == final(self).cpu->0.memory.motherboard.screen.screen_buffer@,
    {
        match &mut self.cpu {
            None => vec![0xffu8; SCREEN_WIDTH * SCREEN_HEIGHT * 4],
            Some(cpu) => {
                cpu.run_one_frame();
                let r = cpu.memory.motherboard.screen.screen_buffer.clone();
                proof {
                    assert(r@ =~= cpu.memory.motherboard.screen.screen_buffer@);
                }
                r
            },
        }
    }

    /// Takes the audio buffers filled so far: interleaved stereo samples in
    /// 420ths of full scale.
    pub fn take_audio(&mut self) -> (r: Vec<Vec<i16>>)
        requires
            old(self).wf(),
        ensures
            final(self).wf(),
            (final(self).cpu is Some) == (old(self).cpu is Some),
            old(self).cpu is None ==> r@.len() == 0,
            old(self).cpu matches Some(c) ==> r@ == c.memory.motherboard.sound.ready@ && (final(
                self).cpu matches Some(d) && d.memory.motherboard.sound.ready@.len() == 0),
    {
        match &mut self.cpu {
            None => Vec::new(),
            Some(cpu) => cpu.memory.motherboard.sound.take_buffers(),
        }
    }
}

} // verus!
