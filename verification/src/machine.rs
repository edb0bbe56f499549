//! The machine context: couples an instruction processor with the hardware
//! bundle and drives one step of emulation per call.

use vstd::prelude::*;

use crate::hw::hw_bundle;
use crate::hw::zeroed_view;
use crate::timer::DEFAULT_TICK_PERIOD;
use crate::timer::timer_after_update;
use crate::timer::with_count;

verus! {

/// The instruction decoder/executor collaborator. An implementor executes one
/// instruction against the hardware, reading and writing it only through the
/// accessors of [`hw_bundle`]: it may load ROMs, read and write RAM, the
/// framebuffer, the key latch and the timer counts, but no accessor advances
/// a timer, so the timers' elapsed-time accumulators, completion flags and
/// tick periods are exactly as before the instruction.
pub trait Processor {
    /// Execute the next instruction against the given hardware.
    fn next_instruction(&mut self, hardware: &mut hw_bundle)
        requires
            old(hardware).wf(),
        ensures
            final(hardware).wf(),
            final(hardware)@.delay.accumulated == old(hardware)@.delay.accumulated,
            final(hardware)@.delay.just_completed == old(hardware)@.delay.just_completed,
            final(hardware)@.delay.tick_period == old(hardware)@.delay.tick_period,
            final(hardware)@.sound.accumulated == old(hardware)@.sound.accumulated,
            final(hardware)@.sound.just_completed == old(hardware)@.sound.just_completed,
            final(hardware)@.sound.tick_period == old(hardware)@.sound.tick_period,
    ;
}

/// A whole machine: the processor and the hardware it executes against. The
/// machine owns both exclusively, for the lifetime of the emulation session.
#[derive(Debug)]
#[allow(non_camel_case_types)]
pub struct Chip_HW<P> {
    pub cpu: P,
    pub hw: hw_bundle,
}

impl<P: Processor> Chip_HW<P> {
    /// A machine around the given processor, with zeroed hardware ticking at
    /// the default period.
    pub fn new(cpu: P) -> (m: Chip_HW<P>)
        ensures
            m.hw.wf(),
            m.hw@ == zeroed_view(DEFAULT_TICK_PERIOD),
    {
        Chip_HW { cpu, hw: hw_bundle::default() }
    }

    /// One step of emulation: execute one instruction, then advance both
    /// timers by the elapsed time. Execution always precedes the timer
    /// advance, so an instruction that arms a timer within this step is
    /// observed by the same step's tick evaluation.
    pub fn run(&mut self, delta_time: u32)
        requires
            old(self).hw.wf(),
            old(self).hw@.delay.accumulated + delta_time <= u32::MAX,
            old(self).hw@.sound.accumulated + delta_time <= u32::MAX,
        ensures
            final(self).hw.wf(),
            exists|count: u8|
                final(self).hw@.delay == #[trigger] timer_after_update(
                    with_count(old(self).hw@.delay, count),
                    delta_time,
                ),
            exists|count: u8|
                final(self).hw@.sound == #[trigger] timer_after_update(
                    with_count(old(self).hw@.sound, count),
                    delta_time,
                ),
    {
        self.cpu.next_instruction(&mut self.hw);
        let ghost delay_mid = self.hw@.delay;
        let ghost sound_mid = self.hw@.sound;
        self.hw.run(delta_time);
        proof {
            assert(delay_mid == with_count(old(self).hw@.delay, delay_mid.count));
            assert(sound_mid == with_count(old(self).hw@.sound, sound_mid.count));
        }
    }
}

} // verus!
