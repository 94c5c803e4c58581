use c92_decoder::decoder::{Decoder, Protocols};
use c92_decoder::functions::{FunctionPins, Functions};
use c92_decoder::lenz::{read_lenz, LenzMessage, SpeedStep};
use c92_decoder::loco::Loco;
use c92_decoder::mm::{
    read_mm_acc, read_mm_loco, MmCommand, MmFunctionMessage, MmLocoMessage, SpeedOrReverse,
    MM_PACKET_PULSES,
};
use c92_decoder::motor_control::MotorControl;
use c92_decoder::outputs::{Level, OutputPin, PwmRegister};
use lenz_decoder::{LenzMachine, LenzPacket};
use mm_decoder::{MmLocoPacket, MmRawAccPacket};

const HIGH: OutputPin = OutputPin { level: Level::High };
const LOW: OutputPin = OutputPin { level: Level::Low };
const FUNCTIONS_OFF: FunctionPins = FunctionPins { f1: LOW, f2: LOW, f3: LOW, f4: LOW };

fn motor() -> MotorControl {
    let mut motor = MotorControl::new();
    motor.init(LOW, LOW, PwmRegister::new(0));
    motor.new_config(0, 4095);
    motor
}

fn loco(address: u8) -> Loco {
    Loco::new(address, HIGH, HIGH, FUNCTIONS_OFF)
}

fn lines(motor: &MotorControl) -> (Level, Level) {
    let outputs = motor.outputs().unwrap();
    (outputs.fw.level, outputs.rv.level)
}

fn lights(loco: &Loco) -> (Level, Level) {
    (loco.lights().fw.level, loco.lights().rv.level)
}

fn levels(pins: FunctionPins) -> [bool; 4] {
    [
        pins.f1.level == Level::High,
        pins.f2.level == Level::High,
        pins.f3.level == Level::High,
        pins.f4.level == Level::High,
    ]
}

// the pulses of a Lenz packet, with an invalid pulse before it
fn lenz_pulses(first: u8, second: u8) -> Vec<u16> {
    let mut pulses = vec![0];
    let mut bit = |one: bool| {
        let half = if one { 55 } else { 110 };
        pulses.push(half);
        pulses.push(half);
    };
    for _ in 0..15 {
        bit(true);
    }
    for byte in [first, second, first ^ second] {
        bit(false);
        for i in (0..8).rev() {
            bit(byte & (1 << i) != 0);
        }
    }
    bit(true);
    pulses
}

// the pulses of an MM packet sent twice, with invalid pulses around it
fn mm_pulses(short: u16, long: u16, address: u8, middle: bool, data: u8) -> Vec<u16> {
    let mut bits: Vec<bool> = Vec::new();
    for i in (0..8).rev() {
        bits.push(address & (1 << i) != 0);
    }
    bits.push(middle);
    bits.push(middle);
    for i in (0..8).rev() {
        bits.push(data & (1 << i) != 0);
    }
    let mut pulses = vec![2000];
    for _ in 0..2 {
        for one in &bits {
            pulses.push(if *one { long } else { short });
            pulses.push(if *one { short } else { long });
        }
        pulses.pop();
        pulses.push(2000);
    }
    pulses
}

fn mm_loco_pulses(address: u8, f0: bool, data: u8) -> Vec<u16> {
    mm_pulses(26, 182, address, f0, data)
}

fn mm_acc_pulses(address: u8, function: bool, data: u8) -> Vec<u16> {
    mm_pulses(13, 91, address, function, data)
}

fn feed(decoder: &mut Decoder, motor: &mut MotorControl, pulses: &[u16]) {
    for pulse in pulses {
        decoder.process_pulse(motor, *pulse);
    }
}

fn lenz_packet(first: u8, second: u8) -> LenzPacket {
    let mut machine = LenzMachine::new();
    let mut found = None;
    for pulse in lenz_pulses(first, second) {
        if let Some(packet) = machine.advance(pulse) {
            found = Some(packet);
        }
    }
    found.unwrap()
}

// transmitted address bits that stand for address 1
const MM_ADDRESS_1: u8 = 0b1100_0000;

#[test]
fn lenz_speed_packets_are_read() {
    assert_eq!(
        read_lenz(lenz_packet(3, 0b0111_0110)),
        Some(LenzMessage::Speed {
            address: 3,
            direction: true,
            f0: true,
            speed: SpeedStep::Speed(5),
        })
    );
    assert_eq!(
        read_lenz(lenz_packet(127, 0b0100_0000)),
        Some(LenzMessage::Speed {
            address: 127,
            direction: false,
            f0: false,
            speed: SpeedStep::Speed(0),
        })
    );
    assert_eq!(
        read_lenz(lenz_packet(1, 0b0100_0001)),
        Some(LenzMessage::Speed {
            address: 1,
            direction: false,
            f0: false,
            speed: SpeedStep::EmergencyStop,
        })
    );
    assert_eq!(
        read_lenz(lenz_packet(1, 0b0110_1111)),
        Some(LenzMessage::Speed {
            address: 1,
            direction: true,
            f0: false,
            speed: SpeedStep::Speed(14),
        })
    );
}

#[test]
fn lenz_function_packets_are_read() {
    assert_eq!(
        read_lenz(lenz_packet(9, 0b1000_0101)),
        Some(LenzMessage::Function {
            address: 9,
            states: Functions { f1: true, f2: false, f3: true, f4: false },
        })
    );
    assert_eq!(
        read_lenz(lenz_packet(9, 0b1000_1010)),
        Some(LenzMessage::Function {
            address: 9,
            states: Functions { f1: false, f2: true, f3: false, f4: true },
        })
    );
}

#[test]
fn other_lenz_packets() {
    assert_eq!(read_lenz(lenz_packet(0b1000_0000, 7)), Some(LenzMessage::Accessory));
    assert_eq!(read_lenz(lenz_packet(0b1011_1111, 7)), Some(LenzMessage::Accessory));
    assert_eq!(read_lenz(lenz_packet(0b1100_0000, 7)), None);
    assert_eq!(read_lenz(lenz_packet(0, 0b0100_0000)), None);
    assert_eq!(read_lenz(lenz_packet(5, 0b0000_0000)), None);
    assert_eq!(read_lenz(lenz_packet(5, 0b1100_0000)), None);
}

#[test]
fn mm_loco_packets_are_read() {
    assert_eq!(
        read_mm_loco(&MmLocoPacket::new(MM_ADDRESS_1, true, 0b0011_1100)),
        MmLocoMessage {
            address: 1,
            f0: true,
            command: MmCommand::OldSpeed { speed: SpeedOrReverse::Speed(5) },
        }
    );
    assert_eq!(
        read_mm_loco(&MmLocoPacket::new(0, false, 0b1100_0000)),
        MmLocoMessage {
            address: 80,
            f0: false,
            command: MmCommand::OldSpeed { speed: SpeedOrReverse::Reverse },
        }
    );
    assert_eq!(
        read_mm_loco(&MmLocoPacket::new(0b0000_0001, false, 0b1110_0110)),
        MmLocoMessage {
            address: 229,
            f0: false,
            command: MmCommand::NewSpeed { speed: SpeedOrReverse::Speed(10), direction: false },
        }
    );
    assert_eq!(
        read_mm_loco(&MmLocoPacket::new(MM_ADDRESS_1, false, 0b1100_0100)).command,
        MmCommand::NewSpeed { speed: SpeedOrReverse::Reverse, direction: false }
    );
    assert_eq!(
        read_mm_loco(&MmLocoPacket::new(MM_ADDRESS_1, false, 0b0010_1101)).command,
        MmCommand::Function { speed: SpeedOrReverse::Speed(5), function: 2, state: true }
    );
    assert_eq!(
        read_mm_loco(&MmLocoPacket::new(MM_ADDRESS_1, false, 0b1101_0001)).command,
        MmCommand::Function { speed: SpeedOrReverse::Reverse, function: 1, state: true }
    );
}

#[test]
fn mm_function_packets_are_read() {
    assert_eq!(
        read_mm_acc(MmRawAccPacket::new(MM_ADDRESS_1, true, 0b1100_0011)),
        Some(MmFunctionMessage {
            address: 1,
            states: Functions { f1: true, f2: false, f3: false, f4: true },
        })
    );
    assert_eq!(
        read_mm_acc(MmRawAccPacket::new(0, true, 0b0001_1000)),
        Some(MmFunctionMessage {
            address: 80,
            states: Functions { f1: false, f2: true, f3: true, f4: false },
        })
    );
    assert_eq!(read_mm_acc(MmRawAccPacket::new(MM_ADDRESS_1, false, 0b1100_0011)), None);
}

#[test]
fn a_lenz_speed_packet_drives_the_loco() {
    let mut motor = motor();
    let mut decoder = Decoder::new(Protocols::Both, loco(3));
    feed(&mut decoder, &mut motor, &lenz_pulses(3, 0b0101_0110));
    // direction reverse, headlight on, speed 5
    assert_eq!(lights(decoder.loco()), (Level::High, Level::Low));
    motor.tick(0);
    assert_eq!(lines(&motor), (Level::Low, Level::High));
}

#[test]
fn a_lenz_function_packet_switches_the_functions() {
    let mut motor = motor();
    let mut decoder = Decoder::new(Protocols::Lenz, loco(3));
    feed(&mut decoder, &mut motor, &lenz_pulses(3, 0b1000_1001));
    assert_eq!(levels(decoder.loco().functions()), [true, false, false, true]);
    // F4 bypasses the ramp: down from 40 in one tick
    motor.new_speed(1);
    motor.tick(0);
    motor.new_speed(0);
    motor.tick(0);
    assert_eq!(lines(&motor), (Level::Low, Level::Low));
}

#[test]
fn an_emergency_stop_changes_no_speed() {
    let mut motor = motor();
    let mut loco = loco(3);
    loco.on_lenz(
        &mut motor,
        LenzMessage::Speed { address: 3, direction: true, f0: false, speed: SpeedStep::Speed(9) },
    );
    loco.on_lenz(
        &mut motor,
        LenzMessage::Speed {
            address: 3,
            direction: true,
            f0: true,
            speed: SpeedStep::EmergencyStop,
        },
    );
    assert_eq!(lights(&loco), (Level::Low, Level::High));
    motor.tick(0);
    assert_eq!(lines(&motor), (Level::High, Level::Low));
}

#[test]
fn packets_for_other_addresses_are_ignored() {
    let mut motor = motor();
    let mut decoder = Decoder::new(Protocols::Both, loco(4));
    feed(&mut decoder, &mut motor, &lenz_pulses(3, 0b0101_0110));
    feed(&mut decoder, &mut motor, &lenz_pulses(3, 0b1000_1111));
    feed(&mut decoder, &mut motor, &mm_loco_pulses(MM_ADDRESS_1, true, 0b0011_1100));
    feed(&mut decoder, &mut motor, &mm_acc_pulses(MM_ADDRESS_1, true, 0b1111_1111));
    motor.tick(0);
    assert_eq!(lines(&motor), (Level::Low, Level::Low));
    assert_eq!(lights(decoder.loco()), (Level::High, Level::High));
    assert_eq!(levels(decoder.loco().functions()), [false; 4]);
}

#[test]
fn protocols_that_are_not_listened_to_are_ignored() {
    let mut motor = motor();
    let mut decoder = Decoder::new(Protocols::Mm, loco(3));
    feed(&mut decoder, &mut motor, &lenz_pulses(3, 0b0101_0110));
    assert_eq!(lights(decoder.loco()), (Level::High, Level::High));
    let mut decoder = Decoder::new(Protocols::Lenz, loco(1));
    feed(&mut decoder, &mut motor, &mm_loco_pulses(MM_ADDRESS_1, true, 0b0011_1100));
    feed(&mut decoder, &mut motor, &mm_acc_pulses(MM_ADDRESS_1, true, 0b1111_1111));
    assert_eq!(lights(decoder.loco()), (Level::High, Level::High));
    assert_eq!(levels(decoder.loco().functions()), [false; 4]);
    motor.tick(0);
    assert_eq!(lines(&motor), (Level::Low, Level::Low));
}

#[test]
fn mm_packets_drive_the_loco() {
    let mut motor = motor();
    let mut decoder = Decoder::new(Protocols::Mm, loco(1));
    // speed 5 with headlight
    feed(&mut decoder, &mut motor, &mm_loco_pulses(MM_ADDRESS_1, true, 0b0011_1100));
    assert_eq!(lights(decoder.loco()), (Level::Low, Level::High));
    motor.tick(0);
    assert_eq!(lines(&motor), (Level::High, Level::Low));
    // functions F2 and F4
    feed(&mut decoder, &mut motor, &mm_acc_pulses(MM_ADDRESS_1, true, 0b0011_0011));
    assert_eq!(levels(decoder.loco().functions()), [false, true, false, true]);
    // one function of an MM2 packet
    feed(&mut decoder, &mut motor, &mm_loco_pulses(MM_ADDRESS_1, true, 0b0000_0100));
    assert_eq!(levels(decoder.loco().functions()), [false, false, false, true]);
}

#[test]
fn a_new_speed_packet_sets_the_direction() {
    let mut motor = motor();
    let mut decoder = Decoder::new(Protocols::Both, loco(1));
    feed(&mut decoder, &mut motor, &mm_loco_pulses(MM_ADDRESS_1, false, 0b1110_0110));
    motor.tick(0);
    assert_eq!(lines(&motor), (Level::Low, Level::High));
}

#[test]
fn each_function_of_a_function_packet() {
    for function in 0..6u8 {
        let mut motor = motor();
        let mut loco = loco(1);
        loco.on_mm_loco(
            &mut motor,
            MmLocoMessage {
                address: 1,
                f0: false,
                command: MmCommand::Function {
                    speed: SpeedOrReverse::Speed(1),
                    function,
                    state: true,
                },
            },
        );
        let mut expected = [false; 4];
        if 1 <= function && function <= 4 {
            expected[function as usize - 1] = true;
        }
        assert_eq!(levels(loco.functions()), expected);
        // only F4 bypasses the ramp
        motor.tick(0);
        assert_eq!(lines(&motor), (Level::High, Level::Low));
        motor.new_speed(0);
        motor.tick(0);
        assert_eq!(lines(&motor).0 == Level::Low, function == 4);
    }
}

#[test]
fn mm2_reverse_sets_only_the_headlight() {
    let mut motor = motor();
    let mut loco = loco(1);
    loco.on_mm_loco(
        &mut motor,
        MmLocoMessage {
            address: 1,
            f0: true,
            command: MmCommand::NewSpeed { speed: SpeedOrReverse::Reverse, direction: false },
        },
    );
    loco.on_mm_loco(
        &mut motor,
        MmLocoMessage {
            address: 1,
            f0: true,
            command: MmCommand::Function {
                speed: SpeedOrReverse::Reverse,
                function: 1,
                state: true,
            },
        },
    );
    assert_eq!(lights(&loco), (Level::Low, Level::High));
    assert_eq!(levels(loco.functions()), [false; 4]);
    motor.tick(0);
    assert_eq!(lines(&motor), (Level::Low, Level::Low));
}

#[test]
fn an_mm1_reverse_does_not_restart_the_loco() {
    let mut motor = motor();
    let mut loco = loco(1);
    let packet = |speed: SpeedOrReverse| MmLocoMessage {
        address: 1,
        f0: true,
        command: MmCommand::OldSpeed { speed },
    };
    loco.on_mm_loco(&mut motor, packet(SpeedOrReverse::Speed(5)));
    motor.tick(0);
    assert_eq!(lines(&motor), (Level::High, Level::Low));
    loco.on_mm_loco(&mut motor, packet(SpeedOrReverse::Reverse));
    assert_eq!(lights(&loco), (Level::High, Level::Low));
    // repeated: still reversed once
    loco.on_mm_loco(&mut motor, packet(SpeedOrReverse::Reverse));
    assert_eq!(lights(&loco), (Level::High, Level::Low));
    motor.tick(100);
    motor.tick(0);
    for _ in 0..10 {
        motor.tick(0);
        assert_eq!(lines(&motor), (Level::Low, Level::Low));
    }
    // the next speed goes the other way
    loco.on_mm_loco(&mut motor, packet(SpeedOrReverse::Speed(3)));
    motor.tick(0);
    assert_eq!(lines(&motor), (Level::Low, Level::High));
}

#[test]
fn reset_pulses_do_nothing_but_interrupt_packets() {
    let mut motor = motor();
    let mut decoder = Decoder::new(Protocols::Both, loco(3));
    let mut pulses = lenz_pulses(3, 0b0101_0110);
    let middle = pulses.len() / 2;
    pulses.insert(middle, 0);
    feed(&mut decoder, &mut motor, &pulses);
    feed(&mut decoder, &mut motor, &[0; 50]);
    assert_eq!(lights(decoder.loco()), (Level::High, Level::High));
    // the next packet is found
    feed(&mut decoder, &mut motor, &lenz_pulses(3, 0b0101_0110));
    assert_eq!(lights(decoder.loco()), (Level::High, Level::Low));
}

#[test]
fn repeated_packets_act_once() {
    let lenz = LenzMessage::Speed {
        address: 3,
        direction: false,
        f0: true,
        speed: SpeedStep::Speed(7),
    };
    let function = MmFunctionMessage {
        address: 3,
        states: Functions { f1: true, f2: false, f3: true, f4: false },
    };
    let mut motor_once = motor();
    let mut once = loco(3);
    once.on_lenz(&mut motor_once, lenz);
    once.on_mm_function(&mut motor_once, function);
    let mut motor_twice = motor();
    let mut twice = loco(3);
    for _ in 0..2 {
        twice.on_lenz(&mut motor_twice, lenz);
    }
    for _ in 0..2 {
        twice.on_mm_function(&mut motor_twice, function);
    }
    assert_eq!(once.lights(), twice.lights());
    assert_eq!(once.functions(), twice.functions());
    for bemf in 0..100 {
        motor_once.tick(bemf);
        motor_twice.tick(bemf);
        assert_eq!(motor_once.outputs(), motor_twice.outputs());
    }
}

#[test]
fn headlights_and_motor_go_the_same_way() {
    let mut motor = motor();
    let mut loco = loco(1);
    let mut seed: u32 = 7;
    let mut forward = true;
    let mut gate = false;
    for _ in 0..2000 {
        seed = seed.wrapping_mul(1_664_525).wrapping_add(1_013_904_223);
        let value = (seed >> 16) as u16;
        let speed = SpeedOrReverse::Speed(value as u8 % 15);
        let command = match value % 3 {
            0 => {
                gate = true;
                MmCommand::OldSpeed { speed }
            }
            1 => {
                if gate {
                    forward = !forward;
                }
                gate = false;
                MmCommand::OldSpeed { speed: SpeedOrReverse::Reverse }
            }
            _ => {
                gate = true;
                forward = value & 256 != 0;
                MmCommand::NewSpeed { speed, direction: forward }
            }
        };
        loco.on_mm_loco(&mut motor, MmLocoMessage { address: 1, f0: true, command });
        let expected = if forward {
            (Level::Low, Level::High)
        } else {
            (Level::High, Level::Low)
        };
        assert_eq!(lights(&loco), expected);
        // bring the motor to rest, and start it
        motor.new_speed(0);
        motor.ramp_bypass(true);
        motor.tick(0);
        motor.tick(0);
        assert_eq!(lines(&motor), (Level::Low, Level::Low));
        motor.new_speed(1);
        motor.tick(0);
        let expected = if forward {
            (Level::High, Level::Low)
        } else {
            (Level::Low, Level::High)
        };
        assert_eq!(lines(&motor), expected);
    }
}

#[test]
fn an_mm_packet_takes_all_its_pulses_after_a_reset_pulse() {
    let mut motor = motor();
    let mut decoder = Decoder::new(Protocols::Both, loco(1));
    let pulses = mm_loco_pulses(MM_ADDRESS_1, true, 0b0011_1100);
    let second = &pulses[37..72];
    // the reset pulse drops what has come of the second packet
    feed(&mut decoder, &mut motor, &pulses[..60]);
    feed(&mut decoder, &mut motor, &[0]);
    feed(&mut decoder, &mut motor, &pulses[60..]);
    assert_eq!(lights(decoder.loco()), (Level::High, Level::High));
    // the packet is found with the last of its pulses, and not before
    feed(&mut decoder, &mut motor, &[0]);
    feed(&mut decoder, &mut motor, &second[..MM_PACKET_PULSES - 1]);
    assert_eq!(lights(decoder.loco()), (Level::High, Level::High));
    feed(&mut decoder, &mut motor, &second[MM_PACKET_PULSES - 1..]);
    assert_eq!(lights(decoder.loco()), (Level::Low, Level::High));
}

#[test]
fn a_function_packet_takes_all_its_pulses_after_a_reset_pulse() {
    let mut motor = motor();
    let mut decoder = Decoder::new(Protocols::Both, loco(1));
    let pulses = mm_acc_pulses(MM_ADDRESS_1, true, 0b0011_0011);
    let second = &pulses[37..72];
    feed(&mut decoder, &mut motor, &pulses[..60]);
    feed(&mut decoder, &mut motor, &[0]);
    feed(&mut decoder, &mut motor, &pulses[60..]);
    assert_eq!(levels(decoder.loco().functions()), [false; 4]);
    feed(&mut decoder, &mut motor, &[0]);
    feed(&mut decoder, &mut motor, &second[..MM_PACKET_PULSES - 1]);
    assert_eq!(levels(decoder.loco().functions()), [false; 4]);
    feed(&mut decoder, &mut motor, &second[MM_PACKET_PULSES - 1..]);
    assert_eq!(levels(decoder.loco().functions()), [false, true, false, true]);
}

#[test]
fn a_reversed_loco_gets_no_duty_until_the_next_speed() {
    let mut motor = motor();
    let mut loco = loco(1);
    let packet = |speed: SpeedOrReverse| MmLocoMessage {
        address: 1,
        f0: false,
        command: MmCommand::OldSpeed { speed },
    };
    loco.on_mm_loco(&mut motor, packet(SpeedOrReverse::Speed(14)));
    motor.tick(0);
    motor.tick(0);
    assert!(motor.outputs().unwrap().pwm.value > 0);
    loco.on_mm_loco(&mut motor, packet(SpeedOrReverse::Reverse));
    // brakes with the line that was on, then lets go
    for bemf in [400, 200, 20] {
        motor.tick(bemf);
        assert_eq!(lines(&motor), (Level::High, Level::Low));
        assert_eq!(motor.outputs().unwrap().pwm.value, 0);
    }
    for bemf in [19, 0, 300] {
        motor.tick(bemf);
        assert_eq!(lines(&motor), (Level::Low, Level::Low));
        assert_eq!(motor.outputs().unwrap().pwm.value, 0);
    }
}

#[test]
fn a_new_loco_is_dark_and_stands_still() {
    let motor = motor();
    let loco = loco(1);
    assert_eq!(lights(&loco), (Level::High, Level::High));
    assert_eq!(levels(loco.functions()), [false; 4]);
    assert_eq!(lines(&motor), (Level::Low, Level::Low));
    assert_eq!(motor.outputs().unwrap().pwm.value, 0);
}
