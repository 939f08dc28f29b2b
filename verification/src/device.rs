//! Device-resident mode state machine and the command handler's decision
//! core.
//!
//! The mode is mutated only here, under its exclusion primitive, following
//! the fixed transition table: `Stop` always returns to `Idle`, `Continues`
//! and `Burst` always enter their mode, a successful `Config` leaves the mode
//! unchanged, and a failed `Config` faults the device and reports the error
//! immediately. The surrounding read/reply loop performs transport reads and
//! writes and belongs to the embedding program.

use vstd::prelude::*;
use crate::codec::{spec_deserialize_command, Command, ConfigErr, Reply, SampleKind};
use crate::communications::{burst_wire_bytes, spec_burst_wire};
use crate::config::{spec_apply, Config, ConfigView};
use crate::mutex::Mutex;
use crate::sampling::{
    burst_capture, spec_burst_duration, spec_burst_log, spec_period, Adc, Clock,
};

verus! {

/// The device's mutually exclusive operating mode. Exactly one value is live
/// at a time; a fault is transient and resolved to `Idle` by the sampler.
#[derive(Clone, Copy, Debug, PartialEq, Eq, Structural)]
pub enum Mode {
    Idle,
    Continues(SampleKind),
    Burst(SampleKind),
    Faulted(ConfigErr),
}

/// What one command does to the device: the next mode, the next
/// configuration model, and the reply owed to the host, if any.
pub open spec fn spec_handle_command(m: Mode, v: ConfigView, c: Command) -> (Mode, ConfigView, Option<
    Reply,
>) {
    match c {
        Command::Stop => (Mode::Idle, v, None),
        Command::Continues(k) => (Mode::Continues(k), v, None),
        Command::Burst(k) => (Mode::Burst(k), v, None),
        Command::Config(a) => match spec_apply(v, a).1 {
            Result::Ok(_) => (m, spec_apply(v, a).0, None),
            Result::Err(e) => (Mode::Faulted(e), spec_apply(v, a).0, Some(Reply::Fault(e))),
        },
    }
}

/// The mode transition table, total over every (mode, command) pair:
/// `Stop` yields `Idle`; `Continues` and `Burst` enter their mode whatever
/// the current one; a successful `Config` leaves the mode unchanged; a
/// failed `Config` yields `Faulted` with that error, and exactly that error
/// is replied.
pub proof fn lemma_mode_transition_table(m: Mode, v: ConfigView, c: Command)
    ensures
        spec_handle_command(m, v, c).0 == (match c {
            Command::Stop => Mode::Idle,
            Command::Continues(k) => Mode::Continues(k),
            Command::Burst(k) => Mode::Burst(k),
            Command::Config(a) => match spec_apply(v, a).1 {
                Result::Ok(_) => m,
                Result::Err(e) => Mode::Faulted(e),
            },
        }),
        spec_handle_command(m, v, c).2 == (match c {
            Command::Config(a) => match spec_apply(v, a).1 {
                Result::Ok(_) => None,
                Result::Err(e) => Some(Reply::Fault(e)),
            },
            _ => None::<Reply>,
        }),
{
}

/// Applies one decoded command: mutates the mode under its lock, delegates
/// `Config` actions to the store, and returns the reply owed to the host.
pub fn handle_command(mode: &mut Mutex<Mode>, config: &mut Config, command: Command) -> (reply:
    Option<Reply>)
    requires
        !old(mode).raw.locked,
        !old(config).0.raw.locked,
        old(config).0.value.wf(),
    ensures
        !final(mode).raw.locked,
        !final(config).0.raw.locked,
        final(config).0.value.wf(),
        final(mode).value == spec_handle_command(old(mode).value, old(config).0.value@, command).0,
        final(config).0.value@ == spec_handle_command(
            old(mode).value,
            old(config).0.value@,
            command,
        ).1,
        reply == spec_handle_command(old(mode).value, old(config).0.value@, command).2,
{
    let mut reply: Option<Reply> = None;
    let new_mode: Option<Mode> = match command {
        Command::Stop => Some(Mode::Idle),
        Command::Continues(s) => Some(Mode::Continues(s)),
        Command::Burst(s) => Some(Mode::Burst(s)),
        Command::Config(change) => match config.apply(change) {
            Result::Ok(_) => None,
            Result::Err(e) => {
                reply = Some(Reply::Fault(e));
                Some(Mode::Faulted(e))
            }
        },
    };
    if let Some(new) = new_mode {
        mode.raw.lock();
        mode.value = new;
        mode.raw.unlock();
    }
    reply
}

/// Applies one raw command frame: an undecodable frame mutates nothing and
/// is answered with `CommunicationProblem`; a well-formed one is handled as
/// by [`handle_command`].
pub fn handle_frame(mode: &mut Mutex<Mode>, config: &mut Config, frame_bytes: &Vec<u8>) -> (reply:
    Option<Reply>)
    requires
        !old(mode).raw.locked,
        !old(config).0.raw.locked,
        old(config).0.value.wf(),
    ensures
        !final(mode).raw.locked,
        !final(config).0.raw.locked,
        final(config).0.value.wf(),
        match spec_deserialize_command(frame_bytes@) {
            Result::Ok(c) => final(mode).value == spec_handle_command(
                old(mode).value,
                old(config).0.value@,
                c,
            ).0 && final(config).0.value@ == spec_handle_command(
                old(mode).value,
                old(config).0.value@,
                c,
            ).1 && reply == spec_handle_command(old(mode).value, old(config).0.value@, c).2,
            Result::Err(_) => final(mode).value == old(mode).value && final(config).0.value@ == old(
                config,
            ).0.value@ && reply == Some(Reply::Fault(ConfigErr::CommunicationProblem)),
        },
{
    match Command::try_from(frame_bytes) {
        Result::Ok(command) => handle_command(mode, config, command),
        Result::Err(_) => Some(Reply::Fault(ConfigErr::CommunicationProblem)),
    }
}

/// The sampler's reaction to a transient fault: on observing `Faulted`, the
/// fault has been reported and the mode is reset to `Idle`; any other mode
/// is left untouched.
pub fn resolve_fault(mode: &mut Mutex<Mode>) -> (fault: Option<ConfigErr>)
    requires
        !old(mode).raw.locked,
    ensures
        !final(mode).raw.locked,
        match old(mode).value {
            Mode::Faulted(e) => fault == Some(e) && final(mode).value == Mode::Idle,
            _ => fault is None && final(mode).value == old(mode).value,
        },
{
    mode.raw.lock();
    let fault = match mode.value {
        Mode::Faulted(e) => {
            mode.value = Mode::Idle;
            Some(e)
        }
        _ => None,
    };
    mode.raw.unlock();
    fault
}

/// One full sampler turn in burst mode: capture `count` samples
/// round-robin over the enabled channels, frame them for the wire, and
/// return the mode to `Idle`. On a hardware read failure nothing is
/// sampled or framed and the mode escalates to
/// `Faulted(CommunicationProblem)`, so the fault is observable and resolved
/// like any other.
pub fn burst_turn(
    adc: &mut Adc,
    clock: &mut Clock,
    config: &mut Config,
    mode: &mut Mutex<Mode>,
    count: usize,
) -> (wire: Result<Vec<u8>, ConfigErr>)
    requires
        !old(mode).raw.locked,
        !old(config).0.raw.locked,
        old(config).0.value.wf(),
        old(config).0.value@.enabled.len() > 0,
        old(clock).micros + count * spec_period(old(config).0.value@) <= u64::MAX,
    ensures
        !final(mode).raw.locked,
        !final(config).0.raw.locked,
        final(config).0.value == old(config).0.value,
        ({
            let used = old(adc).reads@.len() as int;
            let en = old(config).0.value@.enabled;
            let p = spec_period(old(config).0.value@);
            match wire {
                Result::Ok(w) => {
                    &&& used + count <= old(adc).readings@.len()
                    &&& w@ == spec_burst_wire(
                        old(adc).readings@.subrange(used, used + count as int),
                        spec_burst_duration(count as nat, p) as u64,
                    )
                    &&& final(adc).reads@ == old(adc).reads@ + spec_burst_log(en, count as nat)
                    &&& final(adc).readings@ == old(adc).readings@
                    &&& final(mode).value == Mode::Idle
                },
                Result::Err(e) => {
                    &&& e == ConfigErr::CommunicationProblem
                    &&& used + count > old(adc).readings@.len()
                    &&& *final(adc) == *old(adc)
                    &&& *final(clock) == *old(clock)
                    &&& final(mode).value == Mode::Faulted(ConfigErr::CommunicationProblem)
                },
            }
        }),
{
    match burst_capture(adc, clock, config, count) {
        Result::Ok((data, duration)) => {
            let wire = burst_wire_bytes(&data, duration);
            set_mode_idle(mode);
            Result::Ok(wire)
        }
        Result::Err(e) => {
            mode.raw.lock();
            mode.value = Mode::Faulted(ConfigErr::CommunicationProblem);
            mode.raw.unlock();
            Result::Err(e)
        }
    }
}

/// Reads the current mode under its lock, as the sampler does at the start
/// of every scheduling turn.
pub fn read_mode(mode: &mut Mutex<Mode>) -> (m: Mode)
    requires
        !old(mode).raw.locked,
    ensures
        !final(mode).raw.locked,
        final(mode).value == old(mode).value,
        m == old(mode).value,
{
    mode.raw.lock();
    let m = mode.value;
    mode.raw.unlock();
    m
}

/// Sets the mode back to `Idle` under its lock, as the sampler does after a
/// finished burst.
pub fn set_mode_idle(mode: &mut Mutex<Mode>)
    requires
        !old(mode).raw.locked,
    ensures
        !final(mode).raw.locked,
        final(mode).value == Mode::Idle,
{
    mode.raw.lock();
    mode.value = Mode::Idle;
    mode.raw.unlock();
}

} // verus!
