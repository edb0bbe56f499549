//! The hardware bundle: two countdown timers, RAM and framebuffer memory, and
//! the 16-key input latch, behind the narrow accessor contract the processor
//! uses. Every address or key access is bounds-checked and fails with
//! [`Chip8Error::OutOfBounds`] instead of touching adjacent state.

use vstd::prelude::*;

use crate::memory::Memory;
use crate::memory::PROGRAM_START;
use crate::memory::RAM_SIZE;
use crate::memory::VRAM_SIZE;
use crate::timer::DEFAULT_TICK_PERIOD;
use crate::timer::Timer;
use crate::timer::timer_after_update;

verus! {

/// Number of keys in the hexadecimal keypad latch.
pub const KEY_COUNT: usize = 16;

/// Number of bytes in the built-in font set: 16 glyphs of 5 bytes each, one
/// glyph per hexadecimal digit.
pub const FONTSET_LEN: usize = 80;

/// An operation against the hardware that cannot be carried out. Both
/// variants are contract violations by the caller, never recovered locally.
#[derive(Clone, Copy, Debug, PartialEq, Eq, Structural)]
pub enum Chip8Error {
    /// An address or key index lies outside its array's declared bounds.
    OutOfBounds,
    /// A ROM does not fit between `PROGRAM_START` and the end of RAM.
    RomTooLarge,
}

/// The mathematical state of the hardware bundle: the two byte arrays, the
/// key latch, and the two timers.
pub ghost struct HwView {
    pub ram: Seq<u8>,
    pub vram: Seq<u8>,
    pub keys: Seq<u8>,
    pub delay: Timer,
    pub sound: Timer,
}

/// The aggregate hardware state of one machine: a delay timer, a sound timer,
/// RAM plus framebuffer, and the key latch. It is the sole mutable owner of
/// all of them; the processor reaches them only through the methods below.
#[derive(Debug)]
#[allow(non_camel_case_types)]
pub struct hw_bundle {
    delay_timer: Timer,
    sound_timer: Timer,
    memory: Memory,
    keys: Vec<u8>,
}

impl View for hw_bundle {
    type V = HwView;

    closed spec fn view(&self) -> HwView {
        HwView {
            ram: self.memory.ram@,
            vram: self.memory.vram@,
            keys: self.keys@,
            delay: self.delay_timer,
            sound: self.sound_timer,
        }
    }
}

/// The fixed 80-byte font set, one 5-byte glyph per hexadecimal digit 0-F.
pub open spec fn spec_fontset() -> Seq<u8> {
    seq![
        0xF0u8, 0x90, 0x90, 0x90, 0xF0,
        0x20, 0x60, 0x20, 0x20, 0x70,
        0xF0, 0x10, 0xF0, 0x80, 0xF0,
        0xF0, 0x10, 0xF0, 0x10, 0xF0,
        0x90, 0x90, 0xF0, 0x10, 0x10,
        0xF0, 0x80, 0xF0, 0x10, 0xF0,
        0xF0, 0x80, 0xF0, 0x90, 0xF0,
        0xF0, 0x10, 0x20, 0x40, 0x40,
        0xF0, 0x90, 0xF0, 0x90, 0xF0,
        0xF0, 0x90, 0xF0, 0x10, 0xF0,
        0xF0, 0x90, 0xF0, 0x90, 0x90,
        0xE0, 0x90, 0xE0, 0x90, 0xE0,
        0xF0, 0x80, 0x80, 0x80, 0xF0,
        0xE0, 0x90, 0x90, 0x90, 0xE0,
        0xF0, 0x80, 0xF0, 0x80, 0xF0,
        0xF0, 0x80, 0xF0, 0x80, 0x80,
    ]
}

/// RAM after a successful ROM load: the font set in `0..FONTSET_LEN`, the ROM
/// byte-for-byte from `PROGRAM_START`, and every other byte unchanged.
pub open spec fn loaded_ram(ram: Seq<u8>, rom: Seq<u8>) -> Seq<u8> {
    Seq::new(
        ram.len(),
        |i: int|
            if i < FONTSET_LEN as int {
                spec_fontset()[i]
            } else if PROGRAM_START as int <= i < PROGRAM_START as int + rom.len() {
                rom[i - PROGRAM_START as int]
            } else {
                ram[i]
            },
    )
}

/// The state of a bundle as constructed: zero-filled arrays and latch, both
/// timers zeroed and ticking with the given period.
pub open spec fn zeroed_view(tick_period: u32) -> HwView {
    HwView {
        ram: Seq::new(RAM_SIZE as nat, |i: int| 0u8),
        vram: Seq::new(VRAM_SIZE as nat, |i: int| 0u8),
        keys: Seq::new(KEY_COUNT as nat, |i: int| 0u8),
        delay: Timer { count: 0, accumulated: 0, just_completed: false, tick_period },
        sound: Timer { count: 0, accumulated: 0, just_completed: false, tick_period },
    }
}

/// The framebuffer after one XOR-plane write to the byte at `address`.
pub open spec fn xor_byte(vram: Seq<u8>, address: int, value: u8) -> Seq<u8> {
    vram.update(address, vram[address] ^ value)
}

/// XORing the same value into the same framebuffer byte twice restores the
/// original framebuffer: the XOR-plane write is self-inverse.
pub proof fn lemma_xor_vram_self_inverse(vram: Seq<u8>, address: int, value: u8)
    requires
        0 <= address < vram.len(),
    ensures
        xor_byte(xor_byte(vram, address, value), address, value) == vram,
{
    let b = vram[address];
    assert((b ^ value) ^ value == b) by (bit_vector);
    assert(xor_byte(xor_byte(vram, address, value), address, value) =~= vram);
}

/// Writing a key latch entry and then reading the same entry yields exactly
/// the state that was written.
pub proof fn lemma_set_key_then_read(keys: Seq<u8>, code: int, state: u8)
    requires
        0 <= code < keys.len(),
    ensures
        keys.update(code, state)[code] == state,
{
}

impl hw_bundle {
    /// The bundle invariant: both byte arrays and the key latch have their
    /// declared sizes, and every latch entry is 0 or 1.
    pub open spec fn wf(&self) -> bool {
        &&& self@.ram.len() == RAM_SIZE
        &&& self@.vram.len() == VRAM_SIZE
        &&& self@.keys.len() == KEY_COUNT
        &&& forall|i: int| 0 <= i < KEY_COUNT ==> self@.keys[i] <= 1
    }

    /// A zeroed bundle whose timers tick with the given period.
    pub fn new(tick_period: u32) -> (hw: hw_bundle)
        ensures
            hw.wf(),
            hw@ == zeroed_view(tick_period),
    {
        let hw = hw_bundle {
            delay_timer: Timer::new(tick_period),
            sound_timer: Timer::new(tick_period),
            memory: Memory::default(),
            keys: crate::memory::zeroed_bytes(KEY_COUNT),
        };
        proof {
            assert(hw@.ram =~= zeroed_view(tick_period).ram);
            assert(hw@.vram =~= zeroed_view(tick_period).vram);
            assert(hw@.keys =~= zeroed_view(tick_period).keys);
        }
        hw
    }

    /// A zeroed bundle with the default 60 Hz-equivalent tick period.
    pub fn default() -> (hw: hw_bundle)
        ensures
            hw.wf(),
            hw@ == zeroed_view(DEFAULT_TICK_PERIOD),
    {
        hw_bundle::new(DEFAULT_TICK_PERIOD)
    }

    /// Latch a key: 1 for down, 0 for up.
    pub fn set_key(&mut self, key_code: u8, state: u8) -> (r: Result<(), Chip8Error>)
        requires
            old(self).wf(),
            state <= 1,
        ensures
            final(self).wf(),
            key_code < KEY_COUNT ==> r is Ok && final(self)@ == (HwView {
                keys: old(self)@.keys.update(key_code as int, state),
                ..old(self)@
            }),
            key_code >= KEY_COUNT ==> r == Err::<(), Chip8Error>(Chip8Error::OutOfBounds)
                && final(self)@ == old(self)@,
    {
        if (key_code as usize) < KEY_COUNT {
            self.keys[key_code as usize] = state;
            Ok(())
        } else {
            Err(Chip8Error::OutOfBounds)
        }
    }

    /// The latched state of one key.
    pub fn read_key(&self, key: usize) -> (r: Result<u8, Chip8Error>)
        requires
            self.wf(),
        ensures
            key < KEY_COUNT ==> r == Ok::<u8, Chip8Error>(self@.keys[key as int]),
            key >= KEY_COUNT ==> r == Err::<u8, Chip8Error>(Chip8Error::OutOfBounds),
    {
        if key < KEY_COUNT {
            Ok(self.keys[key])
        } else {
            Err(Chip8Error::OutOfBounds)
        }
    }

    /// Whether the sound timer has just counted down to zero; polled once per
    /// output frame by the audio collaborator.
    pub fn play_sound(&mut self) -> (r: bool)
        ensures
            *final(self) == *old(self),
            r == old(self)@.sound.just_completed,
    {
        self.sound_timer.complete()
    }

    /// Read-only view of the framebuffer, for the rendering collaborator:
    /// 64 x 32 monochrome pixels, 8 per byte, most significant bit first,
    /// row-major.
    pub fn get_vram(&self) -> (r: &Vec<u8>)
        ensures
            r@ == self@.vram,
    {
        &self.memory.vram
    }

    /// One byte of RAM.
    pub fn read_ram_value(&self, address: usize) -> (r: Result<u8, Chip8Error>)
        requires
            self.wf(),
        ensures
            address < RAM_SIZE ==> r == Ok::<u8, Chip8Error>(self@.ram[address as int]),
            address >= RAM_SIZE ==> r == Err::<u8, Chip8Error>(Chip8Error::OutOfBounds),
    {
        if address < RAM_SIZE {
            Ok(self.memory.ram[address])
        } else {
            Err(Chip8Error::OutOfBounds)
        }
    }

    /// Overwrite one byte of RAM.
    pub fn write_ram_value(&mut self, address: usize, value: u8) -> (r: Result<(), Chip8Error>)
        requires
            old(self).wf(),
        ensures
            final(self).wf(),
            address < RAM_SIZE ==> r is Ok && final(self)@ == (HwView {
                ram: old(self)@.ram.update(address as int, value),
                ..old(self)@
            }),
            address >= RAM_SIZE ==> r == Err::<(), Chip8Error>(Chip8Error::OutOfBounds)
                && final(self)@ == old(self)@,
    {
        if address < RAM_SIZE {
            self.memory.ram[address] = value;
            Ok(())
        } else {
            Err(Chip8Error::OutOfBounds)
        }
    }

    /// XOR a byte onto the framebuffer in place: the sprite-drawing
    /// primitive. Collision detection from the changed bits is the
    /// processor's job, not done here.
    pub fn xor_vram_value(&mut self, address: usize, value: u8) -> (r: Result<(), Chip8Error>)
        requires
            old(self).wf(),
        ensures
            final(self).wf(),
            address < VRAM_SIZE ==> r is Ok && final(self)@ == (HwView {
                vram: xor_byte(old(self)@.vram, address as int, value),
                ..old(self)@
            }),
            address >= VRAM_SIZE ==> r == Err::<(), Chip8Error>(Chip8Error::OutOfBounds)
                && final(self)@ == old(self)@,
    {
        if address < VRAM_SIZE {
            let current = self.memory.vram[address];
            self.memory.vram[address] = current ^ value;
            Ok(())
        } else {
            Err(Chip8Error::OutOfBounds)
        }
    }

    /// One byte of the framebuffer.
    pub fn read_vram_value(&self, address: usize) -> (r: Result<u8, Chip8Error>)
        requires
            self.wf(),
        ensures
            address < VRAM_SIZE ==> r == Ok::<u8, Chip8Error>(self@.vram[address as int]),
            address >= VRAM_SIZE ==> r == Err::<u8, Chip8Error>(Chip8Error::OutOfBounds),
    {
        if address < VRAM_SIZE {
            Ok(self.memory.vram[address])
        } else {
            Err(Chip8Error::OutOfBounds)
        }
    }

    /// Overwrite one byte of the framebuffer (used to clear the screen).
    pub fn write_vram_value(&mut self, address: usize, value: u8) -> (r: Result<(), Chip8Error>)
        requires
            old(self).wf(),
        ensures
            final(self).wf(),
            address < VRAM_SIZE ==> r is Ok && final(self)@ == (HwView {
                vram: old(self)@.vram.update(address as int, value),
                ..old(self)@
            }),
            address >= VRAM_SIZE ==> r == Err::<(), Chip8Error>(Chip8Error::OutOfBounds)
                && final(self)@ == old(self)@,
    {
        if address < VRAM_SIZE {
            self.memory.vram[address] = value;
            Ok(())
        } else {
            Err(Chip8Error::OutOfBounds)
        }
    }

    /// The delay timer's remaining-tick count.
    pub fn get_delay_timer_count(&self) -> (r: u8)
        ensures
            r == self@.delay.count,
    {
        self.delay_timer.get_count()
    }

    /// The sound timer's remaining-tick count.
    pub fn get_sound_timer_count(&self) -> (r: u8)
        ensures
            r == self@.sound.count,
    {
        self.sound_timer.get_count()
    }

    /// Arm the delay timer.
    pub fn set_delay_timer_count(&mut self, value: u8)
        ensures
            final(self)@ == (HwView {
                delay: (Timer { count: value, ..old(self)@.delay }),
                ..old(self)@
            }),
            old(self).wf() ==> final(self).wf(),
    {
        self.delay_timer.set_count(value);
    }

    /// Arm the sound timer.
    pub fn set_sound_timer_count(&mut self, value: u8)
        ensures
            final(self)@ == (HwView {
                sound: (Timer { count: value, ..old(self)@.sound }),
                ..old(self)@
            }),
            old(self).wf() ==> final(self).wf(),
    {
        self.sound_timer.set_count(value);
    }

    /// Copy `rom` into RAM starting at `PROGRAM_START`, then overwrite
    /// `0..FONTSET_LEN` with the fixed font set. A ROM that does not fit is
    /// rejected whole: nothing is copied.
    pub fn load_rom(&mut self, rom: &[u8]) -> (r: Result<(), Chip8Error>)
        requires
            old(self).wf(),
        ensures
            final(self).wf(),
            rom@.len() <= RAM_SIZE - PROGRAM_START ==> r is Ok && final(self)@ == (HwView {
                ram: loaded_ram(old(self)@.ram, rom@),
                ..old(self)@
            }),
            rom@.len() > RAM_SIZE - PROGRAM_START ==> r == Err::<(), Chip8Error>(
                Chip8Error::RomTooLarge,
            ) && final(self)@ == old(self)@,
    {
        if rom.len() > RAM_SIZE - PROGRAM_START {
            return Err(Chip8Error::RomTooLarge);
        }
        let mut i: usize = 0;
        while i < rom.len()
            invariant
                i <= rom@.len(),
                rom@.len() <= RAM_SIZE - PROGRAM_START,
                self.memory.ram@.len() == RAM_SIZE,
                forall|k: int| 0 <= k < i
                    ==> self.memory.ram@[PROGRAM_START as int + k] == rom@[k],
                forall|k: int|
                    0 <= k < RAM_SIZE && !(PROGRAM_START as int <= k < PROGRAM_START as int + i)
                        ==> self.memory.ram@[k] == old(self).memory.ram@[k],
                self.memory.vram@ == old(self).memory.vram@,
                self.keys@ == old(self).keys@,
                self.delay_timer == old(self).delay_timer,
                self.sound_timer == old(self).sound_timer,
            decreases rom@.len() - i,
        {
            self.memory.ram[PROGRAM_START + i] = rom[i];
            i = i + 1;
        }
        let font: [u8; 80] = [
            0xF0, 0x90, 0x90, 0x90, 0xF0,
            0x20, 0x60, 0x20, 0x20, 0x70,
            0xF0, 0x10, 0xF0, 0x80, 0xF0,
            0xF0, 0x10, 0xF0, 0x10, 0xF0,
            0x90, 0x90, 0xF0, 0x10, 0x10,
            0xF0, 0x80, 0xF0, 0x10, 0xF0,
            0xF0, 0x80, 0xF0, 0x90, 0xF0,
            0xF0, 0x10, 0x20, 0x40, 0x40,
            0xF0, 0x90, 0xF0, 0x90, 0xF0,
            0xF0, 0x90, 0xF0, 0x10, 0xF0,
            0xF0, 0x90, 0xF0, 0x90, 0x90,
            0xE0, 0x90, 0xE0, 0x90, 0xE0,
            0xF0, 0x80, 0x80, 0x80, 0xF0,
            0xE0, 0x90, 0x90, 0x90, 0xE0,
            0xF0, 0x80, 0xF0, 0x80, 0xF0,
            0xF0, 0x80, 0xF0, 0x80, 0x80,
        ];
        proof {
            assert(font@ =~= spec_fontset());
        }
        let mut j: usize = 0;
        while j < FONTSET_LEN
            invariant
                j <= FONTSET_LEN,
                font@ == spec_fontset(),
                rom@.len() <= RAM_SIZE - PROGRAM_START,
                self.memory.ram@.len() == RAM_SIZE,
                forall|k: int| 0 <= k < j ==> self.memory.ram@[k] == spec_fontset()[k],
                forall|k: int| 0 <= k < rom@.len()
                    ==> self.memory.ram@[PROGRAM_START as int + k] == rom@[k],
                forall|k: int|
                    j <= k < RAM_SIZE && !(PROGRAM_START as int <= k < PROGRAM_START as int
                        + rom@.len()) ==> self.memory.ram@[k] == old(self).memory.ram@[k],
                self.memory.vram@ == old(self).memory.vram@,
                self.keys@ == old(self).keys@,
                self.delay_timer == old(self).delay_timer,
                self.sound_timer == old(self).sound_timer,
            decreases FONTSET_LEN - j,
        {
            self.memory.ram[j] = font[j];
            j = j + 1;
        }
        proof {
            assert(self.memory.ram@ =~= loaded_ram(old(self)@.ram, rom@));
        }
        Ok(())
    }

    /// Advance both timers by the elapsed time since the previous frame, in
    /// the fixed order delay then sound.
    pub fn run(&mut self, delta_time: u32)
        requires
            old(self)@.delay.accumulated + delta_time <= u32::MAX,
            old(self)@.sound.accumulated + delta_time <= u32::MAX,
        ensures
            final(self)@ == (HwView {
                delay: timer_after_update(old(self)@.delay, delta_time),
                sound: timer_after_update(old(self)@.sound, delta_time),
                ..old(self)@
            }),
            old(self).wf() ==> final(self).wf(),
    {
        self.delay_timer.update(delta_time);
        self.sound_timer.update(delta_time);
    }
}

} // verus!
