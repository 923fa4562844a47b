//! PCA9685 16-channel PWM controller: register protocol as transaction plans.
use vstd::prelude::*;
use crate::bus::{Error, Op, Transaction, ops};

verus! {

/// Mode register 1: sleep, restart and auto-increment bits.
pub const MODE1: u8 = 0x00;
/// Oscillator prescale register.
pub const PRESCALE: u8 = 0xFE;
/// Channel 0 on-count, low byte; channel `n` starts `4 * n` above it.
pub const LED0_ON_L: u8 = 0x06;
/// Channel 0 on-count, high byte (bit 4: full on).
pub const LED0_ON_H: u8 = 0x07;
/// Channel 0 off-count, high byte (bit 4: full off).
pub const LED0_OFF_H: u8 = 0x09;
/// Broadcast on-count, high byte.
pub const ALLLED_ON_H: u8 = 0xFB;
/// Broadcast off-count, high byte.
pub const ALLLED_OFF_H: u8 = 0xFD;
/// Default bus address of the chip.
pub const PCA9685_ADDR: u8 = 0x40;
/// Highest channel index.
pub const MAX_CHANNEL: u8 = 15;
/// Settling time after waking the oscillator.
pub const WAKE_DELAY_US: u32 = 500;

/// Auto-increment bit of MODE1.
pub const MODE1_AI: u8 = 0x20;
/// Sleep bit of MODE1.
pub const MODE1_SLEEP: u8 = 0x10;
/// Restart bit of MODE1.
pub const MODE1_RESTART: u8 = 0x80;
/// Full-on / full-off bit of a channel's high register.
pub const FULL_BIT: u8 = 0x10;

/// `floor(25 MHz / (4096 * freq) + 1/2) - 1`, clamped to a byte. On integers,
/// `floor(a / b + 1/2) == floor((2a + b) / 2b)`. A zero frequency asks for the
/// slowest rate.
pub open spec fn prescale_spec(freq: nat) -> nat {
    if freq == 0 {
        255
    } else {
        let rounded = (50_000_000 + 4096 * freq) / (8192 * freq);
        if rounded == 0 {
            0
        } else if rounded - 1 > 255 {
            255
        } else {
            (rounded - 1) as nat
        }
    }
}

/// Sleep-mode value written before the prescale: restart bit cleared, sleep set.
pub open spec fn sleep_mode(mode: u8) -> u8 {
    (mode & 0x7F) | 0x10
}

/// Register holding the low on-count byte of a channel.
pub open spec fn base_register(ch: nat) -> nat {
    6 + 4 * ch
}

/// The byte burst that programs one channel: base register, then the on and
/// off counts little-endian.
pub open spec fn channel_burst(ch: nat, on: nat, off: nat) -> Seq<u8> {
    seq![
        base_register(ch) as u8,
        (on % 256) as u8,
        (on / 256) as u8,
        (off % 256) as u8,
        (off / 256) as u8,
    ]
}

/// A two-byte write: register index, then its new value.
pub(crate) fn register_write(addr: u8, reg: u8, value: u8) -> (r: Transaction)
    ensures
        r@ == Op::Write(addr, seq![reg, value]),
{
    let bytes = vec![reg, value];
    assert(bytes@ =~= seq![reg, value]);
    Transaction::Write { addr, bytes }
}

/// Prescale register value for a PWM frequency in hertz.
pub fn prescale(freq: u32) -> (r: u8)
    ensures
        r as nat == prescale_spec(freq as nat),
{
    if freq == 0 {
        return 255;
    }
    let f: u64 = freq as u64;
    let rounded: u64 = (50_000_000u64 + 4096 * f) / (8192 * f);
    if rounded == 0 {
        0
    } else if rounded - 1 > 255 {
        255
    } else {
        (rounded - 1) as u8
    }
}

/// Whether MODE1's auto-increment bit is set in `mode1`.
pub open spec fn auto_increment_spec(mode1: u8) -> bool {
    mode1 & 0x20 != 0
}

/// Whether a MODE1 value read from the chip has auto-increment enabled.
pub fn auto_increment_enabled(mode1: u8) -> (r: bool)
    ensures
        r == auto_increment_spec(mode1),
{
    mode1 & MODE1_AI != 0
}

/// Register protocol of the PWM controller.
pub struct Driver {
    /// Bus address of the chip.
    pub address: u8,
}

impl Driver {
    /// A driver for the chip at its default address.
    pub fn new() -> (r: Driver)
        ensures
            r.address == PCA9685_ADDR,
    {
        Driver { address: PCA9685_ADDR }
    }

    /// Brings the chip into a known state after power-on: clear MODE1, then
    /// wait for the oscillator.
    pub fn reset(&self) -> (r: Vec<Transaction>)
        ensures
            ops(r@) == seq![Op::Write(self.address, seq![MODE1, 0u8]), Op::DelayUs(500)],
    {
        let mut r: Vec<Transaction> = Vec::new();
        r.push(Transaction::Write { addr: self.address, bytes: vec![MODE1, 0u8] });
        r.push(Transaction::DelayUs(WAKE_DELAY_US));
        assert(ops(r@) =~= seq![Op::Write(self.address, seq![MODE1, 0u8]), Op::DelayUs(500)]);
        r
    }

    /// The write-then-read that fetches MODE1.
    pub fn read_mode1(&self) -> (r: Transaction)
        ensures
            r@ == Op::WriteRead(self.address, seq![MODE1], 1),
    {
        let bytes = vec![MODE1];
        assert(bytes@ =~= seq![MODE1]);
        Transaction::WriteRead { addr: self.address, bytes, read_len: 1 }
    }

    /// Given MODE1 as read from the chip, the writes that leave auto-increment
    /// enabled: none if it already is, else MODE1 with the bit set.
    pub fn ensure_auto_increment(&self, mode1: u8) -> (r: Vec<Transaction>)
        ensures
            auto_increment_spec(mode1) ==> r@.len() == 0,
            !auto_increment_spec(mode1) ==> ops(r@) == seq![
                Op::Write(self.address, seq![MODE1, mode1 | 0x20]),
            ],
    {
        let mut r: Vec<Transaction> = Vec::new();
        if !auto_increment_enabled(mode1) {
            r.push(register_write(self.address, MODE1, mode1 | MODE1_AI));
            assert(ops(r@) =~= seq![Op::Write(self.address, seq![MODE1, mode1 | 0x20])]);
        }
        r
    }

    /// Given MODE1 as read from the chip, the sequence that sets the PWM
    /// frequency: sleep, write the prescale, restore the mode, wait for the
    /// oscillator, then restart.
    pub fn set_pwm_freq(&self, freq: u32, old_mode: u8) -> (r: Vec<Transaction>)
        ensures
            ops(r@) == seq![
                Op::Write(self.address, seq![MODE1, sleep_mode(old_mode)]),
                Op::Write(self.address, seq![PRESCALE, prescale_spec(freq as nat) as u8]),
                Op::Write(self.address, seq![MODE1, old_mode]),
                Op::DelayUs(500),
                Op::Write(self.address, seq![MODE1, old_mode | 0x80]),
            ],
    {
        let p = prescale(freq);
        let sleep: u8 = (old_mode & 0x7F) | MODE1_SLEEP;
        let mut r: Vec<Transaction> = Vec::new();
        r.push(register_write(self.address, MODE1, sleep));
        r.push(register_write(self.address, PRESCALE, p));
        r.push(register_write(self.address, MODE1, old_mode));
        r.push(Transaction::DelayUs(WAKE_DELAY_US));
        r.push(register_write(self.address, MODE1, old_mode | MODE1_RESTART));
        assert(ops(r@) =~= seq![
            Op::Write(self.address, seq![MODE1, sleep_mode(old_mode)]),
            Op::Write(self.address, seq![PRESCALE, prescale_spec(freq as nat) as u8]),
            Op::Write(self.address, seq![MODE1, old_mode]),
            Op::DelayUs(500),
            Op::Write(self.address, seq![MODE1, old_mode | 0x80]),
        ]);
        r
    }

    /// Programs one channel's on and off counts in a single burst. Counts are
    /// sent as given; only their low 12 bits mean anything to the chip.
    pub fn set_pwm(&self, channel: u8, on: u16, off: u16) -> (r: Result<Transaction, Error>)
        ensures
            channel > 15 ==> r == Err::<Transaction, Error>(Error::InvalidChannel),
            channel <= 15 ==> (r matches Ok(t) && t@ == Op::Write(
                self.address,
                channel_burst(channel as nat, on as nat, off as nat),
            )),
    {
        if channel > MAX_CHANNEL {
            return Err(Error::InvalidChannel);
        }
        Ok(self.channel_write(channel, on, off))
    }

    /// The burst of [`Driver::set_pwm`] for a valid channel.
    pub(crate) fn channel_write(&self, channel: u8, on: u16, off: u16) -> (t: Transaction)
        requires
            channel <= 15,
        ensures
            t@ == Op::Write(self.address, channel_burst(channel as nat, on as nat, off as nat)),
    {
        let base: u8 = LED0_ON_L + 4 * channel;
        let on_lo: u8 = (on & 0xFF) as u8;
        let on_hi: u8 = (on >> 8) as u8;
        let off_lo: u8 = (off & 0xFF) as u8;
        let off_hi: u8 = (off >> 8) as u8;
        assert(on & 0xFF == on % 256 && on >> 8 == on / 256) by (bit_vector);
        assert(off & 0xFF == off % 256 && off >> 8 == off / 256) by (bit_vector);
        let bytes = vec![base, on_lo, on_hi, off_lo, off_hi];
        assert(bytes@ =~= channel_burst(channel as nat, on as nat, off as nat));
        Transaction::Write { addr: self.address, bytes }
    }

    /// The write of [`Driver::enable_channel`] for a valid channel.
    pub(crate) fn enable_write(&self, channel: u8) -> (t: Transaction)
        requires
            channel <= 15,
        ensures
            t@ == Op::Write(self.address, seq![(9 + 4 * channel) as u8, 0u8]),
    {
        register_write(self.address, LED0_OFF_H + 4 * channel, 0x00)
    }

    /// Clears the channel's full-off bit so that it follows its counts again.
    pub fn enable_channel(&self, channel: u8) -> (r: Result<Transaction, Error>)
        ensures
            channel > 15 ==> r == Err::<Transaction, Error>(Error::InvalidChannel),
            channel <= 15 ==> (r matches Ok(t) && t@ == Op::Write(
                self.address,
                seq![(9 + 4 * channel) as u8, 0u8],
            )),
    {
        if channel > MAX_CHANNEL {
            return Err(Error::InvalidChannel);
        }
        Ok(self.enable_write(channel))
    }

    /// Forces the channel low: clear its full-on bit, then set full-off.
    pub fn disable_channel(&self, channel: u8) -> (r: Result<Vec<Transaction>, Error>)
        ensures
            channel > 15 <==> r == Err::<Vec<Transaction>, Error>(Error::InvalidChannel),
            channel <= 15 ==> (r matches Ok(v) && ops(v@) == seq![
                Op::Write(self.address, seq![(7 + 4 * channel) as u8, 0u8]),
                Op::Write(self.address, seq![(9 + 4 * channel) as u8, 0x10u8]),
            ]),
    {
        if channel > MAX_CHANNEL {
            return Err(Error::InvalidChannel);
        }
        Ok(self.disable_writes(channel))
    }

    /// The two writes of [`Driver::disable_channel`] for a valid channel.
    pub(crate) fn disable_writes(&self, channel: u8) -> (v: Vec<Transaction>)
        requires
            channel <= 15,
        ensures
            ops(v@) == seq![
                Op::Write(self.address, seq![(7 + 4 * channel) as u8, 0u8]),
                Op::Write(self.address, seq![(9 + 4 * channel) as u8, 0x10u8]),
            ],
    {
        let mut v: Vec<Transaction> = Vec::new();
        v.push(register_write(self.address, LED0_ON_H + 4 * channel, 0x00));
        v.push(register_write(self.address, LED0_OFF_H + 4 * channel, FULL_BIT));
        assert(ops(v@) =~= seq![
            Op::Write(self.address, seq![(7 + 4 * channel) as u8, 0u8]),
            Op::Write(self.address, seq![(9 + 4 * channel) as u8, 0x10u8]),
        ]);
        v
    }

    /// Forces every output low through the broadcast registers.
    pub fn disable_all(&self) -> (r: Vec<Transaction>)
        ensures
            ops(r@) == seq![
                Op::Write(self.address, seq![ALLLED_ON_H, 0u8]),
                Op::Write(self.address, seq![ALLLED_OFF_H, 0x10u8]),
            ],
    {
        let mut v: Vec<Transaction> = Vec::new();
        v.push(register_write(self.address, ALLLED_ON_H, 0x00));
        v.push(register_write(self.address, ALLLED_OFF_H, FULL_BIT));
        assert(ops(v@) =~= seq![
            Op::Write(self.address, seq![ALLLED_ON_H, 0u8]),
            Op::Write(self.address, seq![ALLLED_OFF_H, 0x10u8]),
        ]);
        v
    }
}

/// Enabling auto-increment is idempotent: once its write has been applied,
/// the value read back needs no further write.
pub proof fn lemma_auto_increment_idempotent(mode1: u8)
    ensures
        auto_increment_spec(mode1 | 0x20),
        auto_increment_spec(mode1) ==> (mode1 | 0x20) == mode1,
{
    assert((mode1 | 0x20u8) & 0x20u8 != 0u8) by (bit_vector);
    assert(mode1 & 0x20u8 != 0u8 ==> (mode1 | 0x20u8) == mode1) by (bit_vector);
}

} // verus!
