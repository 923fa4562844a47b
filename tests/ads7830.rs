use robotdog::ads7830::{map_channel, Ads7830};
use robotdog::bus::{Error, Transaction};

#[test]
fn map_channel_table() {
    let expected: [u8; 8] = [0, 4, 1, 5, 2, 6, 3, 7];
    for ch in 0u8..8 {
        assert_eq!(map_channel(ch), Ok(expected[ch as usize]));
    }
}

#[test]
fn map_channel_is_a_bijection() {
    let mut seen = [false; 8];
    for ch in 0u8..8 {
        let r = map_channel(ch).unwrap() as usize;
        assert!(r < 8);
        assert!(!seen[r]);
        seen[r] = true;
    }
    assert!(seen.iter().all(|s| *s));
}

#[test]
fn map_channel_rejects_high_channels() {
    assert_eq!(map_channel(8), Err(Error::InvalidChannel));
    assert_eq!(map_channel(255), Err(Error::InvalidChannel));
}

#[test]
fn read_adc_command_bytes() {
    let adc = Ads7830::new();
    assert_eq!(
        adc.read_adc(0).unwrap(),
        Transaction::WriteRead { addr: 0x48, bytes: vec![0x84], read_len: 1 }
    );
    assert_eq!(
        adc.read_adc(1).unwrap(),
        Transaction::WriteRead { addr: 0x48, bytes: vec![0xC4], read_len: 1 }
    );
    assert_eq!(
        adc.read_adc(7).unwrap(),
        Transaction::WriteRead { addr: 0x48, bytes: vec![0xF4], read_len: 1 }
    );
    assert_eq!(adc.read_adc(8), Err(Error::InvalidChannel));
}

#[test]
fn battery_code_is_the_median() {
    assert_eq!(Ads7830::battery_code([9, 1, 8, 2, 7, 3, 6, 4, 5]), 5);
    assert_eq!(Ads7830::battery_code([200, 0, 0, 0, 0, 255, 255, 255, 255]), 200);
    assert_eq!(Ads7830::battery_code([0; 9]), 0);
    assert_eq!(Ads7830::battery_code([255; 9]), 255);
}

#[test]
fn battery_code_ignores_one_outlier() {
    assert_eq!(Ads7830::battery_code([10, 10, 10, 10, 255, 10, 10, 10, 10]), 10);
    assert_eq!(Ads7830::battery_code([0, 10, 10, 10, 10, 10, 10, 10, 10]), 10);
    assert_eq!(Ads7830::battery_code([10, 10, 10, 10, 10, 10, 10, 10, 255]), 10);
}

#[test]
fn battery_voltage_from_code() {
    // 5.0 V reference behind a 1:3 divider
    let code = Ads7830::battery_code([170, 171, 169, 170, 170, 172, 168, 170, 170]);
    assert_eq!(code, 170);
    let volts = code as f32 / 255.0 * 5.0 * 3.0;
    assert!((volts - 10.0).abs() < 1e-4);
}
