//! Hobby servos driven from PWM channels.
use vstd::prelude::*;
use crate::bus::{Error, Op, Transaction};
use crate::pca9685::{channel_burst, Driver};

verus! {

/// Lower end of the safe mechanical range, in degrees.
pub const MIN_ANGLE: i32 = 18;
/// Upper end of the safe mechanical range, in degrees.
pub const MAX_ANGLE: i32 = 162;
/// Off-count of a 0.5 ms pulse in a 20 ms period.
pub const COUNTS_MIN: u32 = 102;
/// Off-count of a 2.5 ms pulse in a 20 ms period.
pub const COUNTS_MAX: u32 = 512;

/// An angle brought into the safe range `[18, 162]`.
pub open spec fn clamp_angle(deg: int) -> int {
    if deg < 18 {
        18
    } else if deg > 162 {
        162
    } else {
        deg
    }
}

/// Off-count programmed for an angle: the clamped angle scaled by
/// `(512 - 102) / 180`, truncated.
pub open spec fn angle_count(deg: int) -> nat {
    (clamp_angle(deg) * 410 / 180) as nat
}

/// Off-count for an angle in degrees.
pub fn angle_to_count(deg: i32) -> (r: u16)
    ensures
        r as nat == angle_count(deg as int),
        r <= 369,
{
    let clamped: i32 = if deg < MIN_ANGLE {
        MIN_ANGLE
    } else if deg > MAX_ANGLE {
        MAX_ANGLE
    } else {
        deg
    };
    let count: u32 = (clamped as u32) * (COUNTS_MAX - COUNTS_MIN) / 180;
    assert(count <= 369) by (nonlinear_arith)
        requires count == (clamped as u32) * 410 / 180, 18 <= clamped <= 162;
    count as u16
}

/// Angles outside the safe range act as the nearest boundary.
pub proof fn lemma_angle_clamped(deg: int)
    ensures
        deg < 18 ==> angle_count(deg) == angle_count(18),
        deg > 162 ==> angle_count(deg) == angle_count(162),
        18 <= deg <= 162 ==> angle_count(deg) == (deg * 410 / 180) as nat,
{
}

/// One servo, bound to a PWM channel.
pub struct Servo {
    channel: u8,
}

impl Servo {
    #[verifier::type_invariant]
    spec fn wf(self) -> bool {
        self.channel <= 15
    }

    /// The PWM channel the servo is wired to.
    pub closed spec fn spec_channel(self) -> nat {
        self.channel as nat
    }

    /// A servo on `channel`; channels above 15 do not exist.
    pub fn new(channel: u8) -> (r: Result<Servo, Error>)
        ensures
            channel > 15 ==> r == Err::<Servo, Error>(Error::InvalidChannel),
            channel <= 15 ==> (r matches Ok(s) && s.spec_channel() == channel),
    {
        if channel > 15 {
            return Err(Error::InvalidChannel);
        }
        Ok(Servo { channel })
    }

    /// A servo on a channel known to exist.
    pub(crate) fn on_channel(channel: u8) -> (r: Servo)
        requires
            channel <= 15,
        ensures
            r.spec_channel() == channel,
    {
        Servo { channel }
    }

    /// The PWM channel the servo is wired to.
    pub fn channel(&self) -> (r: u8)
        ensures
            r as nat == self.spec_channel(),
            r <= 15,
    {
        proof {
            use_type_invariant(self);
        }
        self.channel
    }

    /// The burst that moves the servo to `deg` degrees (clamped to the safe
    /// range): on-count 0, off-count from the angle.
    pub fn set_angle(&self, pwm: &Driver, deg: i32) -> (r: Transaction)
        ensures
            r@ == Op::Write(
                pwm.address,
                channel_burst(self.spec_channel(), 0, angle_count(deg as int)),
            ),
    {
        let ch = self.channel();
        let count = angle_to_count(deg);
        pwm.channel_write(ch, 0, count)
    }
}

} // verus!
