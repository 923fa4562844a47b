use robotdog::bus::{ChannelHandle, Error, Transaction};
use robotdog::robot::{RoboDog, Startup};
use robotdog::pca9685::Driver;
use robotdog::servo::{angle_to_count, Servo};

fn w(bytes: Vec<u8>) -> Transaction {
    Transaction::Write { addr: 0x40, bytes }
}

#[test]
fn angle_to_count_values() {
    assert_eq!(angle_to_count(90), 205);
    assert_eq!(angle_to_count(18), 41);
    assert_eq!(angle_to_count(162), 369);
    assert_eq!(angle_to_count(45), 102);
}

#[test]
fn angle_to_count_clamps() {
    assert_eq!(angle_to_count(0), angle_to_count(18));
    assert_eq!(angle_to_count(-90), 41);
    assert_eq!(angle_to_count(i32::MIN), 41);
    assert_eq!(angle_to_count(180), angle_to_count(162));
    assert_eq!(angle_to_count(i32::MAX), 369);
}

#[test]
fn servo_set_angle_burst() {
    let pwm = Driver::new();
    let s = Servo::new(2).unwrap();
    assert_eq!(s.channel(), 2);
    assert_eq!(s.set_angle(&pwm, 90), w(vec![0x0E, 0x00, 0x00, 205, 0x00]));
    assert_eq!(s.set_angle(&pwm, 170), w(vec![0x0E, 0x00, 0x00, 0x71, 0x01]));
}

#[test]
fn servo_channel_range() {
    assert!(Servo::new(15).is_ok());
    assert!(matches!(Servo::new(16), Err(Error::InvalidChannel)));
}

#[test]
fn channel_handle_refuses_reentry() {
    let mut h = ChannelHandle::new();
    assert!(!h.is_held());
    assert_eq!(h.acquire(), Ok(()));
    assert!(h.is_held());
    assert_eq!(h.acquire(), Err(Error::ChannelBusy));
    assert!(h.is_held());
    h.release();
    assert!(!h.is_held());
    assert_eq!(h.acquire(), Ok(()));
}

#[test]
fn servos_to_90() {
    let dog = RoboDog::new();
    let plan = dog.set_servos_to_90();
    assert_eq!(plan.len(), 16);
    for (i, t) in plan.iter().enumerate() {
        assert_eq!(*t, w(vec![0x06 + 4 * i as u8, 0x00, 0x00, 205, 0x00]));
    }
}

#[test]
fn set_all_servos_clamps() {
    let dog = RoboDog::new();
    let plan = dog.set_all_servos(0);
    assert_eq!(plan[15], w(vec![0x42, 0x00, 0x00, 41, 0x00]));
}

#[test]
fn enable_servos_writes_each_channel() {
    let dog = RoboDog::new();
    let plan = dog.enable_servos();
    assert_eq!(plan.len(), 16);
    assert_eq!(plan[0], w(vec![0x09, 0x00]));
    assert_eq!(plan[15], w(vec![0x45, 0x00]));
}

#[test]
fn disable_servos_writes_each_channel() {
    let dog = RoboDog::new();
    let plan = dog.disable_servos();
    assert_eq!(plan.len(), 32);
    assert_eq!(plan[0], w(vec![0x07, 0x00]));
    assert_eq!(plan[1], w(vec![0x09, 0x10]));
    assert_eq!(plan[30], w(vec![0x43, 0x00]));
    assert_eq!(plan[31], w(vec![0x45, 0x10]));
}

#[test]
fn platform_devices() {
    let dog = RoboDog::new();
    assert_eq!(dog.pwm().address, 0x40);
    assert_eq!(dog.adc().address, 0x48);
}

#[test]
fn startup_sequence() {
    let dog = RoboDog::new();
    let query = Transaction::WriteRead { addr: 0x40, bytes: vec![0x00], read_len: 1 };

    let (s, plan) = dog.startup_step(Startup::Begin, None).unwrap();
    assert_eq!(s, Startup::AwaitFrequencyMode);
    assert_eq!(plan, vec![w(vec![0x00, 0x00]), Transaction::DelayUs(500), Transaction::WriteRead { addr: 0x40, bytes: vec![0x00], read_len: 1 }]);

    let (s, plan) = dog.startup_step(s, Some(0x01)).unwrap();
    assert_eq!(s, Startup::AwaitAutoIncrementMode);
    assert_eq!(
        plan,
        vec![
            w(vec![0x00, 0x11]),
            w(vec![0xFE, 0x79]),
            w(vec![0x00, 0x01]),
            Transaction::DelayUs(500),
            w(vec![0x00, 0x81]),
            query,
        ]
    );

    let (s, plan) = dog.startup_step(s, Some(0x81)).unwrap();
    assert_eq!(s, Startup::Done);
    assert_eq!(plan, vec![w(vec![0x00, 0xA1])]);

    let (s, plan) = dog.startup_step(s, None).unwrap();
    assert_eq!(s, Startup::Done);
    assert!(plan.is_empty());
}

#[test]
fn startup_needs_replies() {
    let dog = RoboDog::new();
    assert_eq!(
        dog.startup_step(Startup::AwaitFrequencyMode, None).err(),
        Some(Error::Initialization)
    );
    assert_eq!(
        dog.startup_step(Startup::AwaitAutoIncrementMode, None).err(),
        Some(Error::Initialization)
    );
    let (_, plan) = dog.startup_step(Startup::AwaitAutoIncrementMode, Some(0x20)).unwrap();
    assert!(plan.is_empty());
}

#[test]
fn battery_reads_channel_zero_nine_times() {
    let dog = RoboDog::new();
    let plan = dog.adc().battery_reads();
    assert_eq!(plan.len(), 9);
    for t in plan {
        assert_eq!(t, Transaction::WriteRead { addr: 0x48, bytes: vec![0x84], read_len: 1 });
    }
}
