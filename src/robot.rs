//! The robot platform: one PWM controller, one battery ADC and a bank of
//! sixteen servos on channels `0..=15`.
use vstd::prelude::*;
use crate::ads7830::{Ads7830, ADS7830_ADDR};
use crate::bus::{Error, Op, Transaction, ops, lemma_ops_concat, lemma_ops_push};
use crate::pca9685::{channel_burst, prescale_spec, sleep_mode, Driver, PCA9685_ADDR, MODE1, PRESCALE};
use crate::servo::{angle_count, Servo};

verus! {

/// Number of servos on the platform.
pub const SERVO_COUNT: usize = 16;

/// Bursts that move every servo to `deg` degrees, in channel order.
pub open spec fn all_servos_ops(deg: int) -> Seq<Op> {
    Seq::new(16, |i: int| Op::Write(0x40, channel_burst(i as nat, 0, angle_count(deg))))
}

/// Writes that enable every servo channel, in channel order.
pub open spec fn enable_ops() -> Seq<Op> {
    Seq::new(16, |i: int| Op::Write(0x40, seq![(9 + 4 * i) as u8, 0u8]))
}

/// Writes that disable every servo channel: for each channel in order, clear
/// full-on, then set full-off.
pub open spec fn disable_ops() -> Seq<Op> {
    Seq::new(
        32,
        |k: int|
            if k % 2 == 0 {
                Op::Write(0x40, seq![(7 + 4 * (k / 2)) as u8, 0u8])
            } else {
                Op::Write(0x40, seq![(9 + 4 * (k / 2)) as u8, 0x10u8])
            },
    )
}

/// PWM frequency for hobby servos, in hertz.
pub const SERVO_FREQ_HZ: u32 = 50;

/// Where the platform's setup sequence stands. Each step's plan ends with a
/// read of MODE1 whose byte is the reply that the next step needs.
#[derive(Debug, Clone, Copy, PartialEq, Eq, Structural)]
pub enum Startup {
    /// Nothing sent yet.
    Begin,
    /// Reset sent; waiting for MODE1 to set the frequency.
    AwaitFrequencyMode,
    /// Frequency set; waiting for MODE1 to enable auto-increment.
    AwaitAutoIncrementMode,
    /// The PWM controller is ready.
    Done,
}

/// MODE1 query of the PWM controller at its default address.
pub open spec fn mode1_query() -> Op {
    Op::WriteRead(0x40, seq![MODE1], 1)
}

/// Plan of the first setup step: reset, then query MODE1.
pub open spec fn begin_ops() -> Seq<Op> {
    seq![Op::Write(0x40, seq![MODE1, 0u8]), Op::DelayUs(500), mode1_query()]
}

/// Plan of the second setup step, given MODE1: set 50 Hz, then query MODE1.
pub open spec fn frequency_ops(mode1: u8) -> Seq<Op> {
    seq![
        Op::Write(0x40, seq![MODE1, sleep_mode(mode1)]),
        Op::Write(0x40, seq![PRESCALE, prescale_spec(50) as u8]),
        Op::Write(0x40, seq![MODE1, mode1]),
        Op::DelayUs(500),
        Op::Write(0x40, seq![MODE1, mode1 | 0x80]),
        mode1_query(),
    ]
}

/// Plan of the last setup step, given MODE1: enable auto-increment if needed.
pub open spec fn auto_increment_ops(mode1: u8) -> Seq<Op> {
    if mode1 & 0x20 != 0 {
        seq![]
    } else {
        seq![Op::Write(0x40, seq![MODE1, mode1 | 0x20])]
    }
}

/// The devices of the platform and its servo bank.
pub struct RoboDog {
    pca9685: Driver,
    ads7830: Ads7830,
    servos: Vec<Servo>,
}

impl RoboDog {
    #[verifier::type_invariant]
    spec fn wf(self) -> bool {
        &&& self.pca9685.address == 0x40
        &&& self.ads7830.address == 0x48
        &&& self.servos.len() == 16
        &&& forall|i: int| 0 <= i < 16 ==> (#[trigger] self.servos[i]).spec_channel() == i
    }

    /// The platform with its devices at their default addresses and one
    /// servo per channel.
    pub fn new() -> (r: RoboDog) {
        let mut servos: Vec<Servo> = Vec::new();
        let mut ch: u8 = 0;
        while ch < 16
            invariant
                0 <= ch <= 16,
                servos.len() == ch,
                forall|i: int| 0 <= i < ch ==> (#[trigger] servos[i]).spec_channel() == i,
            decreases 16 - ch,
        {
            servos.push(Servo::on_channel(ch));
            ch = ch + 1;
        }
        RoboDog { pca9685: Driver::new(), ads7830: Ads7830::new(), servos }
    }

    /// The PWM controller's protocol.
    pub fn pwm(&self) -> (r: &Driver)
        ensures
            r.address == PCA9685_ADDR,
    {
        proof {
            use_type_invariant(self);
        }
        &self.pca9685
    }

    /// The battery ADC's protocol.
    pub fn adc(&self) -> (r: &Ads7830)
        ensures
            r.address == ADS7830_ADDR,
    {
        proof {
            use_type_invariant(self);
        }
        &self.ads7830
    }

    /// One step of the setup sequence of the PWM controller: reset, set the
    /// servo frequency, enable auto-increment. `reply` is the byte read by the
    /// last transaction of the previous step's plan. Returns the next state
    /// and the plan to carry out; a step that needs a reply and got none fails
    /// with `Initialization`.
    pub fn startup_step(&self, state: Startup, reply: Option<u8>) -> (r: Result<(Startup, Vec<Transaction>), Error>)
        ensures
            state == Startup::Begin ==> (r matches Ok((next, plan)) && next == Startup::AwaitFrequencyMode
                && ops(plan@) == begin_ops()),
            state == Startup::AwaitFrequencyMode && reply is None ==> r == Err::<(Startup, Vec<Transaction>), Error>(Error::Initialization),
            state == Startup::AwaitFrequencyMode && reply is Some ==> (r matches Ok((next, plan))
                && next == Startup::AwaitAutoIncrementMode
                && ops(plan@) == frequency_ops(reply->0)),
            state == Startup::AwaitAutoIncrementMode && reply is None ==> r == Err::<(Startup, Vec<Transaction>), Error>(Error::Initialization),
            state == Startup::AwaitAutoIncrementMode && reply is Some ==> (r matches Ok((next, plan))
                && next == Startup::Done && ops(plan@) == auto_increment_ops(reply->0)),
            state == Startup::Done ==> (r matches Ok((next, plan)) && next == Startup::Done
                && plan@.len() == 0),
    {
        proof {
            use_type_invariant(self);
        }
        match state {
            Startup::Begin => {
                let mut plan = self.pca9685.reset();
                let q = self.pca9685.read_mode1();
                proof {
                    lemma_ops_push(plan@, q);
                }
                plan.push(q);
                assert(ops(plan@) =~= begin_ops());
                Ok((Startup::AwaitFrequencyMode, plan))
            },
            Startup::AwaitFrequencyMode => match reply {
                None => Err(Error::Initialization),
                Some(mode1) => {
                    let mut plan = self.pca9685.set_pwm_freq(SERVO_FREQ_HZ, mode1);
                    let q = self.pca9685.read_mode1();
                    proof {
                        lemma_ops_push(plan@, q);
                    }
                    plan.push(q);
                    assert(ops(plan@) =~= frequency_ops(mode1));
                    Ok((Startup::AwaitAutoIncrementMode, plan))
                },
            },
            Startup::AwaitAutoIncrementMode => match reply {
                None => Err(Error::Initialization),
                Some(mode1) => {
                    let plan = self.pca9685.ensure_auto_increment(mode1);
                    assert(ops(plan@) =~= auto_increment_ops(mode1));
                    Ok((Startup::Done, plan))
                },
            },
            Startup::Done => Ok((Startup::Done, Vec::new())),
        }
    }

    /// Bursts that move every servo to `deg` degrees.
    pub fn set_all_servos(&self, deg: i32) -> (r: Vec<Transaction>)
        ensures
            ops(r@) == all_servos_ops(deg as int),
    {
        proof {
            use_type_invariant(self);
        }
        let mut r: Vec<Transaction> = Vec::new();
        let mut i: usize = 0;
        while i < SERVO_COUNT
            invariant
                0 <= i <= 16,
                self.pca9685.address == 0x40,
                self.servos.len() == 16,
                forall|j: int| 0 <= j < 16 ==> (#[trigger] self.servos[j]).spec_channel() == j,
                ops(r@) == all_servos_ops(deg as int).take(i as int),
            decreases 16 - i,
        {
            let t = self.servos[i].set_angle(&self.pca9685, deg);
            proof {
                lemma_ops_push(r@, t);
            }
            r.push(t);
            assert(ops(r@) =~= all_servos_ops(deg as int).take(i + 1));
            i = i + 1;
        }
        assert(all_servos_ops(deg as int).take(16) =~= all_servos_ops(deg as int));
        r
    }

    /// Bursts that centre every servo at 90 degrees.
    pub fn set_servos_to_90(&self) -> (r: Vec<Transaction>)
        ensures
            ops(r@) == all_servos_ops(90),
    {
        self.set_all_servos(90)
    }

    /// Writes that let every servo channel follow its counts.
    pub fn enable_servos(&self) -> (r: Vec<Transaction>)
        ensures
            ops(r@) == enable_ops(),
    {
        proof {
            use_type_invariant(self);
        }
        let mut r: Vec<Transaction> = Vec::new();
        let mut i: usize = 0;
        while i < SERVO_COUNT
            invariant
                0 <= i <= 16,
                self.pca9685.address == 0x40,
                self.servos.len() == 16,
                forall|j: int| 0 <= j < 16 ==> (#[trigger] self.servos[j]).spec_channel() == j,
                ops(r@) == enable_ops().take(i as int),
            decreases 16 - i,
        {
            let ch = self.servos[i].channel();
            let t = self.pca9685.enable_write(ch);
            proof {
                lemma_ops_push(r@, t);
            }
            r.push(t);
            assert(ops(r@) =~= enable_ops().take(i + 1));
            i = i + 1;
        }
        assert(enable_ops().take(16) =~= enable_ops());
        r
    }

    /// Writes that force every servo channel low.
    pub fn disable_servos(&self) -> (r: Vec<Transaction>)
        ensures
            ops(r@) == disable_ops(),
    {
        proof {
            use_type_invariant(self);
        }
        let mut r: Vec<Transaction> = Vec::new();
        let mut i: usize = 0;
        while i < SERVO_COUNT
            invariant
                0 <= i <= 16,
                self.pca9685.address == 0x40,
                self.servos.len() == 16,
                forall|j: int| 0 <= j < 16 ==> (#[trigger] self.servos[j]).spec_channel() == j,
                ops(r@) == disable_ops().take(2 * i),
            decreases 16 - i,
        {
            let ch = self.servos[i].channel();
            let mut v = self.pca9685.disable_writes(ch);
            proof {
                lemma_ops_concat(r@, v@);
            }
            r.append(&mut v);
            assert(ops(r@) =~= disable_ops().take(2 * i + 2));
            i = i + 1;
        }
        assert(disable_ops().take(32) =~= disable_ops());
        r
    }
}

} // verus!
