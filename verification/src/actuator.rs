//! The three actuator commands: set the RGB colour, set the servo angle, and
//! run one stepper motion sequence. Each works on the model of the actuator
//! it targets; the embedding program holds each model behind its own
//! exclusive lock and mirrors every update to the hardware.

use vstd::prelude::*;
use crate::decode::{
    color_of, dec_val, valid_angle_payload, valid_color_payload, Color, DecodeError,
};
use crate::duty::{interpolate, interpolate_in, interpolate_spec, ANGLE_DOMAIN_MAX, COLOR_DOMAIN_MAX};
use crate::stepper::{low_out, phase_out, Stepper};

verus! {

/// Number of steps in one stepper motion sequence.
pub const STEP_SEQUENCE_LEN: u32 = 1000;

/// Milliseconds a driver loop waits between consecutive phase writes, to
/// respect the motor's maximum step rate.
pub const STEP_INTERVAL_MS: u64 = 2;

/// Model of one PWM output channel: the duty value most recently applied and
/// the channel's hardware maximum (timer-resolution dependent).
pub struct PwmChannel {
    pub duty: u32,
    pub max_duty: u32,
}

impl PwmChannel {
    /// A channel never holds a duty beyond its hardware maximum.
    pub open spec fn wf(self) -> bool {
        self.duty <= self.max_duty
    }

    /// A fresh channel: nothing driven yet.
    pub fn new(max_duty: u32) -> (c: PwmChannel)
        ensures
            c.max_duty == max_duty,
            c.duty == 0,
            c.wf(),
    {
        PwmChannel { duty: 0, max_duty }
    }

    /// Applies a new duty value; mirrors one hardware duty-register write.
    pub fn set_duty(&mut self, duty: u32)
        requires
            duty <= old(self).max_duty,
        ensures
            final(self).duty == duty,
            final(self).max_duty == old(self).max_duty,
            final(self).wf(),
    {
        self.duty = duty;
    }

    /// The channel's hardware duty ceiling.
    pub fn get_max_duty(&self) -> (d: u32)
        ensures
            d == self.max_duty,
    {
        self.max_duty
    }
}

/// The duty a colour intensity maps to on a channel: its interpolation from
/// the 8-bit domain onto the channel's full duty range.
pub open spec fn color_duty(v: int, max_duty: int) -> int {
    interpolate_spec(v, COLOR_DOMAIN_MAX as int, 0, max_duty)
}

/// Decodes a six-character hexadecimal payload `rrggbb` and applies the three
/// interpolated duties to the three colour channels. On any decode failure no
/// channel is touched.
pub fn set_color(
    payload: &[u8],
    red: &mut PwmChannel,
    green: &mut PwmChannel,
    blue: &mut PwmChannel,
) -> (r: Result<(), DecodeError>)
    requires
        old(red).wf(),
        old(green).wf(),
        old(blue).wf(),
    ensures
        r == (if payload@.len() != 6 {
            Err::<(), DecodeError>(DecodeError::WrongLength)
        } else if !valid_color_payload(payload@) {
            Err::<(), DecodeError>(DecodeError::NotHex)
        } else {
            Ok::<(), DecodeError>(())
        }),
        valid_color_payload(payload@) ==> {
            &&& final(red).duty == color_duty(color_of(payload@).r as int, old(red).max_duty as int)
            &&& final(green).duty == color_duty(
                color_of(payload@).g as int,
                old(green).max_duty as int,
            )
            &&& final(blue).duty == color_duty(
                color_of(payload@).b as int,
                old(blue).max_duty as int,
            )
        },
        !valid_color_payload(payload@) ==> {
            &&& *final(red) == *old(red)
            &&& *final(green) == *old(green)
            &&& *final(blue) == *old(blue)
        },
        final(red).max_duty == old(red).max_duty,
        final(green).max_duty == old(green).max_duty,
        final(blue).max_duty == old(blue).max_duty,
        final(red).wf(),
        final(green).wf(),
        final(blue).wf(),
{
    let c = match Color::try_from(payload) {
        Ok(c) => c,
        Err(e) => {
            return Err(e);
        },
    };
    let duty_r = interpolate_in(c.r as u32, COLOR_DOMAIN_MAX, 0, red.get_max_duty());
    red.set_duty(duty_r);
    let duty_g = interpolate_in(c.g as u32, COLOR_DOMAIN_MAX, 0, green.get_max_duty());
    green.set_duty(duty_g);
    let duty_b = interpolate_in(c.b as u32, COLOR_DOMAIN_MAX, 0, blue.get_max_duty());
    blue.set_duty(duty_b);
    Ok(())
}

/// Law: when a colour channel's full duty range equals the 8-bit colour
/// domain, the duty applied for each channel is exactly the decoded byte of
/// its hexadecimal pair.
pub proof fn lemma_color_duty_exact(s: Seq<u8>)
    requires
        valid_color_payload(s),
    ensures
        color_duty(color_of(s).r as int, COLOR_DOMAIN_MAX as int) == color_of(s).r,
        color_duty(color_of(s).g as int, COLOR_DOMAIN_MAX as int) == color_of(s).g,
        color_duty(color_of(s).b as int, COLOR_DOMAIN_MAX as int) == color_of(s).b,
{
    crate::duty::lemma_interpolate_identity(color_of(s).r as int, COLOR_DOMAIN_MAX as int);
    crate::duty::lemma_interpolate_identity(color_of(s).g as int, COLOR_DOMAIN_MAX as int);
    crate::duty::lemma_interpolate_identity(color_of(s).b as int, COLOR_DOMAIN_MAX as int);
}

/// The angle actually used for interpolation: out-of-domain angles are
/// clamped to 180 degrees. The domain bound is deliberate configuration — the
/// command decoder accepts any decimal number up to six digits, and clamping
/// keeps the pulse width inside the servo's window rather than extrapolating
/// past it.
pub open spec fn clamp_angle(a: int) -> int {
    if a > ANGLE_DOMAIN_MAX as int {
        ANGLE_DOMAIN_MAX as int
    } else {
        a
    }
}

/// Decodes a decimal angle payload and applies the interpolated pulse-width
/// duty to the servo channel, clamping out-of-domain angles to 180 degrees.
/// On any decode failure the channel is not touched.
pub fn set_servo_angle(payload: &[u8], servo: &mut PwmChannel, min: u32, max: u32) -> (r: Result<
    (),
    DecodeError,
>)
    requires
        min <= max,
        max <= old(servo).max_duty,
        old(servo).wf(),
    ensures
        r == (if payload@.len() < 1 || payload@.len() > 6 {
            Err::<(), DecodeError>(DecodeError::WrongLength)
        } else if !valid_angle_payload(payload@) {
            Err::<(), DecodeError>(DecodeError::NotDecimal)
        } else {
            Ok::<(), DecodeError>(())
        }),
        valid_angle_payload(payload@) ==> final(servo).duty == interpolate_spec(
            clamp_angle(dec_val(payload@)),
            ANGLE_DOMAIN_MAX as int,
            min as int,
            max as int,
        ) && min <= final(servo).duty <= max,
        !valid_angle_payload(payload@) ==> *final(servo) == *old(servo),
        final(servo).max_duty == old(servo).max_duty,
        final(servo).wf(),
{
    let angle = match crate::decode::parse_angle(payload) {
        Ok(a) => a,
        Err(e) => {
            return Err(e);
        },
    };
    let clamped = if angle > ANGLE_DOMAIN_MAX {
        ANGLE_DOMAIN_MAX
    } else {
        angle
    };
    let duty = interpolate(clamped, min, max);
    servo.set_duty(duty);
    Ok(())
}

/// The output states one whole motion sequence of `len` steps drives: the
/// four-cycle of phases in ascending step order, then the de-energized state.
pub open spec fn sequence_trace(len: int) -> Seq<Seq<bool>>
    recommends
        0 <= len,
{
    Seq::new((len + 1) as nat, |k: int| if k < len { phase_out(k % 4) } else { low_out() })
}

/// The output states of the first `n` steps of a motion sequence.
pub open spec fn step_trace(n: int) -> Seq<Seq<bool>>
    recommends
        0 <= n,
{
    Seq::new(n as nat, |k: int| phase_out(k % 4))
}

/// Runs one full motion sequence on the stepper model: steps 0 to 999 in
/// order, then an unconditional stop, so the motor is never left energized.
/// The history says the run wrote exactly these states and nothing else; a
/// driver loop that must pace the writes uses [`StepSequence`] to replay the
/// same plan against the hardware.
pub fn run_stepper_sequence(s: &mut Stepper)
    ensures
        final(s).out() == low_out(),
        final(s).hist@ == old(s).hist@ + sequence_trace(STEP_SEQUENCE_LEN as int),
        old(s).writes_safe() ==> final(s).writes_safe(),
{
    let mut i: u32 = 0;
    while i < STEP_SEQUENCE_LEN
        invariant
            i <= STEP_SEQUENCE_LEN,
            s.hist@ == old(s).hist@ + step_trace(i as int),
            old(s).writes_safe() ==> s.writes_safe(),
        decreases STEP_SEQUENCE_LEN - i,
    {
        s.step(i as i64);
        i = i + 1;
        proof {
            assert(s.hist@ =~= old(s).hist@ + step_trace(i as int));
        }
    }
    s.stop();
    proof {
        assert(s.hist@ =~= old(s).hist@ + sequence_trace(STEP_SEQUENCE_LEN as int));
    }
}

/// One planned action of a paced motion run.
#[derive(Clone, Copy, Debug, PartialEq, Eq, Structural)]
pub enum StepAction {
    /// Drive the phase for this step index, then wait one step interval.
    Step(i64),
    /// De-energize the motor: the unconditional end of every run.
    Stop,
    /// The run is over; nothing is left to do.
    Done,
}

/// What a motion sequence of `len` steps does at position `k`: `len` step
/// writes in ascending index order, then a single stop, then nothing.
pub open spec fn planned_action(len: int, k: int) -> StepAction {
    if k < len {
        StepAction::Step(k as i64)
    } else if k == len {
        StepAction::Stop
    } else {
        StepAction::Done
    }
}

/// The positions of one motion sequence, handed out one action at a time so
/// that a driver loop can write each phase to the hardware and pace between
/// writes. The plan itself — which actions come, in which order — is fixed by
/// [`planned_action`].
pub struct StepSequence {
    pub pos: u32,
    pub len: u32,
}

impl StepSequence {
    /// The position never runs past the stop action, and the stop action's
    /// position is still representable.
    pub open spec fn wf(self) -> bool {
        self.pos <= self.len + 1 && self.len < u32::MAX
    }

    /// A sequence of `len` steps, about to take its first action.
    pub fn new(len: u32) -> (s: StepSequence)
        requires
            len < u32::MAX,
        ensures
            s.pos == 0,
            s.len == len,
            s.wf(),
    {
        StepSequence { pos: 0, len }
    }

    /// Hands out the next planned action and advances past it.
    pub fn next_action(&mut self) -> (a: StepAction)
        requires
            old(self).wf(),
        ensures
            a == planned_action(old(self).len as int, old(self).pos as int),
            final(self).len == old(self).len,
            final(self).wf(),
            old(self).pos <= old(self).len ==> final(self).pos == old(self).pos + 1,
            old(self).pos > old(self).len ==> final(self).pos == old(self).pos,
    {
        if self.pos < self.len {
            let k = self.pos;
            self.pos = self.pos + 1;
            StepAction::Step(k as i64)
        } else if self.pos == self.len {
            self.pos = self.pos + 1;
            StepAction::Stop
        } else {
            StepAction::Done
        }
    }
}

} // verus!
