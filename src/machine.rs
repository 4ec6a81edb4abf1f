//! The whole console: one owner for the bus, CPU, PPU, joypad and screen, and the
//! per-tick loop that keeps them in lockstep.
use vstd::prelude::*;

use crate::bus::{Bus, BusView, is_unusable};
use crate::buttons::{BUTTON_REGISTER_ADDRESS, Button, Buttons, register_value};
use crate::canvas::Canvas;
use crate::cpu::{CPU, Fault, Machine};
use crate::gpu::{GPU, GPUMode, SCREEN_HEIGHT, SCREEN_WIDTH};
use crate::instructions::{Instruction, decode_at};

verus! {

pub struct Emulator {
    cpu: CPU,
    bus: Bus,
    gpu: GPU,
    keys: Buttons,
    canvas: Canvas,
}

impl Emulator {
    pub closed spec fn cpu_state(&self) -> CPU {
        self.cpu
    }

    pub closed spec fn mem(&self) -> BusView {
        self.bus@
    }

    pub closed spec fn ppu(&self) -> GPU {
        self.gpu
    }

    pub closed spec fn key_state(&self) -> Buttons {
        self.keys
    }

    pub closed spec fn screen(&self) -> Seq<u32> {
        self.canvas@
    }

    /// Every part is well formed and the screen is 160 x 144.
    pub closed spec fn wf(&self) -> bool {
        &&& self.bus.wf()
        &&& self.gpu.timing_valid()
        &&& self.canvas.wf()
        &&& self.canvas.width() == SCREEN_WIDTH
        &&& self.canvas.height() == SCREEN_HEIGHT
    }

    /// A powered-on console with cartridge image `rom`.
    pub fn new(rom: Vec<u8>) -> (r: Emulator)
        ensures
            r.wf(),
            r.mem().rom == rom@,
            r.ppu() == (GPU {
                clock_cycles: 0,
                current_line: 0,
                mode: GPUMode::SearchingOAM,
                stopped: false,
            }),
            r.cpu_state().pc == 0x100,
            r.cpu_state().clock_cycles_to_go == 0,
            r.key_state().row_1 == 0xF && r.key_state().row_2 == 0xF,
            r.screen() == Seq::new((SCREEN_WIDTH * SCREEN_HEIGHT) as nat, |_i: int| 0u32),
    {
        Emulator {
            cpu: CPU::new_cpu(),
            bus: Bus::new_bus(rom),
            gpu: GPU::new(),
            keys: Buttons::new(),
            canvas: Canvas::new(SCREEN_WIDTH, SCREEN_HEIGHT),
        }
    }

    /// One tick: the joypad register is refreshed, the PPU advances, then the CPU.
    /// Returns whether a frame is ready to present, or the fault that stopped the CPU.
    pub fn tick(&mut self) -> (r: Result<bool, Fault>)
        requires
            old(self).wf(),
        ensures
            final(self).wf(),
            ({
                let m0 = old(self).mem();
                let m1 = match register_value(old(self).key_state(), m0.read(BUTTON_REGISTER_ADDRESS)) {
                    Some(v) => m0.write(BUTTON_REGISTER_ADDRESS, v),
                    None => m0,
                };
                let step = old(self).ppu().tick_spec(m1, old(self).screen());
                match CPU::tick_spec(Machine { cpu: old(self).cpu_state(), mem: step.mem }) {
                    Ok(m) => r == Ok::<bool, Fault>(step.present) && final(self).cpu_state() == m.cpu
                        && final(self).mem() == m.mem && final(self).ppu() == step.gpu
                        && final(self).screen() == step.screen,
                    Err(f) => r == Err::<bool, Fault>(f),
                }
            }),
            final(self).key_state() == old(self).key_state(),
    {
        self.keys.update_register(&mut self.bus);
        let frame_ready = self.gpu.tick(&mut self.bus, &mut self.canvas);
        match self.cpu.tick(&mut self.bus) {
            Ok(()) => Ok(frame_ready),
            Err(f) => Err(f),
        }
    }

    /// Sets `button` pressed or released.
    pub fn set_key(&mut self, button: Button, pressed: bool)
        requires
            old(self).wf(),
        ensures
            final(self).wf(),
            pressed && button.is_direction() ==> final(self).key_state().row_1 == old(self).key_state().row_1
                & !button.mask() && final(self).key_state().row_2 == old(self).key_state().row_2,
            pressed && !button.is_direction() ==> final(self).key_state().row_2
                == old(self).key_state().row_2 & !button.mask() && final(self).key_state().row_1
                == old(self).key_state().row_1,
            !pressed && button.is_direction() ==> final(self).key_state().row_1
                == old(self).key_state().row_1 | button.mask() && final(self).key_state().row_2
                == old(self).key_state().row_2,
            !pressed && !button.is_direction() ==> final(self).key_state().row_2
                == old(self).key_state().row_2 | button.mask() && final(self).key_state().row_1
                == old(self).key_state().row_1,
            final(self).cpu_state() == old(self).cpu_state(),
            final(self).mem() == old(self).mem(),
            final(self).ppu() == old(self).ppu(),
            final(self).screen() == old(self).screen(),
    {
        self.keys.set_key(button, pressed);
    }

    /// The screen, row by row.
    pub fn frame(&self) -> (r: &Vec<u32>)
        ensures
            r@ == self.screen(),
    {
        self.canvas.buffer()
    }

    /// The byte at `address` for inspection; `None` in the unusable window.
    pub fn peek_byte(&self, address: u16) -> (r: Option<u8>)
        requires
            self.wf(),
        ensures
            is_unusable(address) ==> r == None::<u8>,
            !is_unusable(address) ==> r == Some(self.mem().read(address)),
    {
        if 0xFEA0 <= address && address <= 0xFEFF {
            None
        } else {
            Some(self.bus.fetch_byte(address))
        }
    }

    /// The instruction at the program counter, for inspection.
    pub fn instruction_at_pc(&self) -> (r: Result<Instruction, Fault>)
        requires
            self.wf(),
        ensures
            r == decode_at(self.mem(), self.cpu_state().pc),
    {
        Instruction::fetch_new(&self.bus, &self.cpu)
    }

    /// The CPU, for inspection.
    pub fn cpu(&self) -> (r: &CPU)
        ensures
            *r == self.cpu_state(),
    {
        &self.cpu
    }

    /// The PPU, for inspection.
    pub fn gpu(&self) -> (r: &GPU)
        ensures
            *r == self.ppu(),
    {
        &self.gpu
    }
}

} // verus!
