use chip8::Chip_HW;
use chip8::Processor;
use chip8::hw_bundle;

/// A processor that executes a fixed script of simple "instructions", one per
/// step, against the hardware.
struct ScriptedCpu {
    program_counter: usize,
    script: Vec<Instruction>,
}

enum Instruction {
    Nop,
    WriteRam { address: usize, value: u8 },
    ArmSound { count: u8 },
    ArmDelay { count: u8 },
}

impl Processor for ScriptedCpu {
    fn next_instruction(&mut self, hardware: &mut hw_bundle) {
        if let Some(instruction) = self.script.get(self.program_counter) {
            match instruction {
                Instruction::Nop => {}
                Instruction::WriteRam { address, value } => {
                    hardware.write_ram_value(*address, *value).unwrap();
                }
                Instruction::ArmSound { count } => {
                    hardware.set_sound_timer_count(*count);
                }
                Instruction::ArmDelay { count } => {
                    hardware.set_delay_timer_count(*count);
                }
            }
            self.program_counter += 1;
        }
    }
}

#[test]
fn new_machine_has_zeroed_hardware() {
    let machine = Chip_HW::new(ScriptedCpu { program_counter: 0, script: vec![] });
    assert_eq!(machine.hw.read_ram_value(0x200), Ok(0));
    assert_eq!(machine.hw.get_delay_timer_count(), 0);
    assert_eq!(machine.hw.get_sound_timer_count(), 0);
}

#[test]
fn step_executes_then_advances() {
    // The instruction arms the sound timer with 1 in the same step whose
    // timer advance crosses a full tick period: execution precedes the
    // advance, so that very step counts the timer down to zero.
    let cpu = ScriptedCpu {
        program_counter: 0,
        script: vec![Instruction::ArmSound { count: 1 }],
    };
    let mut machine = Chip_HW::new(cpu);
    machine.run(16_000_000);
    assert_eq!(machine.hw.get_sound_timer_count(), 0);
    assert!(machine.hw.play_sound());
}

#[test]
fn steps_drive_instructions_and_timers() {
    let cpu = ScriptedCpu {
        program_counter: 0,
        script: vec![
            Instruction::ArmDelay { count: 2 },
            Instruction::WriteRam { address: 0x300, value: 0xAB },
            Instruction::Nop,
        ],
    };
    let mut machine = Chip_HW::new(cpu);
    // Step 1: arm the delay timer; a full period elapses, one tick consumed.
    machine.run(16_000_000);
    assert_eq!(machine.hw.get_delay_timer_count(), 1);
    // Step 2: the write lands; less than a period elapses, no tick.
    machine.run(1);
    assert_eq!(machine.hw.read_ram_value(0x300), Ok(0xAB));
    assert_eq!(machine.hw.get_delay_timer_count(), 1);
    // Step 3: the remaining time completes the second tick.
    machine.run(16_000_000 - 1);
    assert_eq!(machine.hw.get_delay_timer_count(), 0);
}
