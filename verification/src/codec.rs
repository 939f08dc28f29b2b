//! Protocol codec: the fixed six-byte wire frames exchanged between the
//! instrument and the host.
//!
//! Both frame families (`Command`, host to device, and `Reply`, device to
//! host) are tag-prefixed and padded to exactly [`FRAME_SIZE`] bytes, so the
//! transport can read fixed-size frames without a length prefix. Encoding is
//! total; decoding is partial and rejects every malformed frame with
//! [`ConfigErr::CommunicationProblem`], never a silent default.

use vstd::prelude::*;

verus! {

/// A physical pin identifier.
pub type Pin = u8;

/// A sampler identifier.
pub type Sampler = u8;

/// Width in bytes of every encoded `Command` and `Reply` frame.
pub const FRAME_SIZE: usize = 6;

/// What a channel samples: a digital level or an analog voltage.
#[derive(Clone, Copy, Debug, PartialEq, Eq, Structural)]
pub enum SampleKind {
    Digital,
    Analog,
}

/// Why a configuration request was rejected.
#[derive(Clone, Copy, Debug, PartialEq, Eq, Structural)]
pub enum ConfigErr {
    UnavailibleSampler(Sampler),
    PinTaken(Pin),
    InvalidPin(Pin),
    InvalidRate(u32),
    Unimplemented,
    CommunicationProblem,
}

/// A configuration request, sent only inside `Command::Config`.
#[derive(Clone, Copy, Debug, PartialEq, Eq, Structural)]
pub enum ConfigAction {
    /// Return every enabled pin to the available pool.
    ResetPins,
    /// Add a pin to measure digitally.
    DigitalPins(Pin),
    /// Add a pin to measure as an analog channel.
    AnalogPins(Pin),
    /// Set the analog sample rate in hertz.
    AnalogRate(u32),
}

/// A host-to-device request.
#[derive(Clone, Copy, Debug, PartialEq, Eq, Structural)]
pub enum Command {
    /// Stop continuous sampling.
    Stop,
    /// Start sampling while streaming data back.
    Continues(SampleKind),
    /// Sample as fast as possible; cannot be interrupted once started,
    /// as the device stops listening for commands until it is done.
    Burst(SampleKind),
    /// Configure sampling.
    Config(ConfigAction),
}

/// A device-to-host message.
#[derive(Clone, Copy, Debug, PartialEq, Eq, Structural)]
pub enum Reply {
    /// A burst finished; carries the elapsed capture time in microseconds.
    Done(u32),
    /// Exactly this many raw payload bytes follow on the transport.
    Data(u32),
    /// A configuration request failed.
    Fault(ConfigErr),
    /// The request was accepted; nothing else to report.
    Accepted,
}

/// The mode the host believes the device to be in.
#[derive(Clone, Copy, Debug, PartialEq, Eq, Structural)]
pub enum Mode {
    Idle,
    Continues(SampleKind),
    Burst(SampleKind),
}

/// Byte standing for a `SampleKind` on the wire.
pub open spec fn spec_kind_byte(k: SampleKind) -> u8 {
    match k {
        SampleKind::Digital => 0u8,
        SampleKind::Analog => 1u8,
    }
}

/// Partial inverse of [`spec_kind_byte`].
pub open spec fn spec_kind_of_byte(b: u8) -> Option<SampleKind> {
    if b == 0 {
        Some(SampleKind::Digital)
    } else if b == 1 {
        Some(SampleKind::Analog)
    } else {
        None
    }
}

/// The four little-endian bytes of a 32-bit value.
pub open spec fn spec_u32_le(v: u32) -> Seq<u8> {
    seq![
        ((v as int) % 256) as u8,
        ((v as int) / 256 % 256) as u8,
        ((v as int) / 65536 % 256) as u8,
        ((v as int) / 16777216 % 256) as u8,
    ]
}

/// The 32-bit value read from four little-endian bytes.
pub open spec fn spec_u32_from_le(b0: u8, b1: u8, b2: u8, b3: u8) -> u32 {
    ((b0 as int) + 256 * (b1 as int) + 65536 * (b2 as int) + 16777216 * (b3 as int)) as u32
}

/// Little-endian byte splitting and reassembly are inverses.
pub proof fn lemma_u32_le_round_trip(v: u32)
    ensures
        spec_u32_from_le(
            spec_u32_le(v)[0],
            spec_u32_le(v)[1],
            spec_u32_le(v)[2],
            spec_u32_le(v)[3],
        ) == v,
{
    let x = v as int;
    vstd::arithmetic::div_mod::lemma_fundamental_div_mod(x, 256);
    vstd::arithmetic::div_mod::lemma_fundamental_div_mod(x / 256, 256);
    vstd::arithmetic::div_mod::lemma_fundamental_div_mod(x / 256 / 256, 256);
    vstd::arithmetic::div_mod::lemma_fundamental_div_mod(x, 16777216);
    vstd::arithmetic::div_mod::lemma_div_denominator(x, 256, 256);
    vstd::arithmetic::div_mod::lemma_div_denominator(x, 65536, 256);
    assert(x / 65536 == x / 256 / 256);
    assert(x / 16777216 == x / 65536 / 256);
    assert(0 <= x % 16777216 < 16777216);
    assert(x / 16777216 < 256);
    assert(x / 16777216 % 256 == x / 16777216);
}

/// The five body bytes of an encoded `ConfigAction`.
pub open spec fn spec_serialize_action(a: ConfigAction) -> Seq<u8> {
    match a {
        ConfigAction::ResetPins => seq![0u8, 0u8, 0u8, 0u8, 0u8],
        ConfigAction::DigitalPins(p) => seq![1u8, p, 0u8, 0u8, 0u8],
        ConfigAction::AnalogPins(p) => seq![2u8, p, 0u8, 0u8, 0u8],
        ConfigAction::AnalogRate(r) => seq![3u8].add(spec_u32_le(r)),
    }
}

/// Partial inverse of [`spec_serialize_action`]; any malformed body is a
/// `CommunicationProblem`.
pub open spec fn spec_deserialize_action(b: Seq<u8>) -> Result<ConfigAction, ConfigErr> {
    if b.len() != 5 {
        Result::Err(ConfigErr::CommunicationProblem)
    } else if b[0] == 0 {
        if b[1] == 0 && b[2] == 0 && b[3] == 0 && b[4] == 0 {
            Result::Ok(ConfigAction::ResetPins)
        } else {
            Result::Err(ConfigErr::CommunicationProblem)
        }
    } else if b[0] == 1 {
        if b[2] == 0 && b[3] == 0 && b[4] == 0 {
            Result::Ok(ConfigAction::DigitalPins(b[1]))
        } else {
            Result::Err(ConfigErr::CommunicationProblem)
        }
    } else if b[0] == 2 {
        if b[2] == 0 && b[3] == 0 && b[4] == 0 {
            Result::Ok(ConfigAction::AnalogPins(b[1]))
        } else {
            Result::Err(ConfigErr::CommunicationProblem)
        }
    } else if b[0] == 3 {
        Result::Ok(ConfigAction::AnalogRate(spec_u32_from_le(b[1], b[2], b[3], b[4])))
    } else {
        Result::Err(ConfigErr::CommunicationProblem)
    }
}

/// The full six-byte frame of an encoded `Command`.
pub open spec fn spec_serialize_command(c: Command) -> Seq<u8> {
    match c {
        Command::Stop => seq![0u8, 0u8, 0u8, 0u8, 0u8, 0u8],
        Command::Continues(k) => seq![1u8, spec_kind_byte(k), 0u8, 0u8, 0u8, 0u8],
        Command::Burst(k) => seq![2u8, spec_kind_byte(k), 0u8, 0u8, 0u8, 0u8],
        Command::Config(a) => seq![3u8].add(spec_serialize_action(a)),
    }
}

/// Partial inverse of [`spec_serialize_command`].
pub open spec fn spec_deserialize_command(b: Seq<u8>) -> Result<Command, ConfigErr> {
    if b.len() != 6 {
        Result::Err(ConfigErr::CommunicationProblem)
    } else if b[0] == 0 {
        if b[1] == 0 && b[2] == 0 && b[3] == 0 && b[4] == 0 && b[5] == 0 {
            Result::Ok(Command::Stop)
        } else {
            Result::Err(ConfigErr::CommunicationProblem)
        }
    } else if b[0] == 1 || b[0] == 2 {
        match spec_kind_of_byte(b[1]) {
            Some(k) => if b[2] == 0 && b[3] == 0 && b[4] == 0 && b[5] == 0 {
                if b[0] == 1 {
                    Result::Ok(Command::Continues(k))
                } else {
                    Result::Ok(Command::Burst(k))
                }
            } else {
                Result::Err(ConfigErr::CommunicationProblem)
            },
            None => Result::Err(ConfigErr::CommunicationProblem),
        }
    } else if b[0] == 3 {
        match spec_deserialize_action(b.subrange(1, 6)) {
            Result::Ok(a) => Result::Ok(Command::Config(a)),
            Result::Err(e) => Result::Err(e),
        }
    } else {
        Result::Err(ConfigErr::CommunicationProblem)
    }
}

/// The five body bytes of an encoded `ConfigErr`.
pub open spec fn spec_serialize_err(e: ConfigErr) -> Seq<u8> {
    match e {
        ConfigErr::UnavailibleSampler(s) => seq![0u8, s, 0u8, 0u8, 0u8],
        ConfigErr::PinTaken(p) => seq![1u8, p, 0u8, 0u8, 0u8],
        ConfigErr::InvalidPin(p) => seq![2u8, p, 0u8, 0u8, 0u8],
        ConfigErr::InvalidRate(r) => seq![3u8].add(spec_u32_le(r)),
        ConfigErr::Unimplemented => seq![4u8, 0u8, 0u8, 0u8, 0u8],
        ConfigErr::CommunicationProblem => seq![5u8, 0u8, 0u8, 0u8, 0u8],
    }
}

/// Partial inverse of [`spec_serialize_err`].
pub open spec fn spec_deserialize_err(b: Seq<u8>) -> Result<ConfigErr, ConfigErr> {
    if b.len() != 5 {
        Result::Err(ConfigErr::CommunicationProblem)
    } else if b[0] == 0 {
        if b[2] == 0 && b[3] == 0 && b[4] == 0 {
            Result::Ok(ConfigErr::UnavailibleSampler(b[1]))
        } else {
            Result::Err(ConfigErr::CommunicationProblem)
        }
    } else if b[0] == 1 {
        if b[2] == 0 && b[3] == 0 && b[4] == 0 {
            Result::Ok(ConfigErr::PinTaken(b[1]))
        } else {
            Result::Err(ConfigErr::CommunicationProblem)
        }
    } else if b[0] == 2 {
        if b[2] == 0 && b[3] == 0 && b[4] == 0 {
            Result::Ok(ConfigErr::InvalidPin(b[1]))
        } else {
            Result::Err(ConfigErr::CommunicationProblem)
        }
    } else if b[0] == 3 {
        Result::Ok(ConfigErr::InvalidRate(spec_u32_from_le(b[1], b[2], b[3], b[4])))
    } else if b[0] == 4 {
        if b[1] == 0 && b[2] == 0 && b[3] == 0 && b[4] == 0 {
            Result::Ok(ConfigErr::Unimplemented)
        } else {
            Result::Err(ConfigErr::CommunicationProblem)
        }
    } else if b[0] == 5 {
        if b[1] == 0 && b[2] == 0 && b[3] == 0 && b[4] == 0 {
            Result::Ok(ConfigErr::CommunicationProblem)
        } else {
            Result::Err(ConfigErr::CommunicationProblem)
        }
    } else {
        Result::Err(ConfigErr::CommunicationProblem)
    }
}

/// The full six-byte frame of an encoded `Reply`.
pub open spec fn spec_serialize_reply(r: Reply) -> Seq<u8> {
    match r {
        Reply::Done(d) => seq![0u8].add(spec_u32_le(d)).push(0u8),
        Reply::Data(n) => seq![1u8].add(spec_u32_le(n)).push(0u8),
        Reply::Fault(e) => seq![2u8].add(spec_serialize_err(e)),
        Reply::Accepted => seq![3u8, 0u8, 0u8, 0u8, 0u8, 0u8],
    }
}

/// Partial inverse of [`spec_serialize_reply`].
pub open spec fn spec_deserialize_reply(b: Seq<u8>) -> Result<Reply, ConfigErr> {
    if b.len() != 6 {
        Result::Err(ConfigErr::CommunicationProblem)
    } else if b[0] == 0 || b[0] == 1 {
        if b[5] == 0 {
            if b[0] == 0 {
                Result::Ok(Reply::Done(spec_u32_from_le(b[1], b[2], b[3], b[4])))
            } else {
                Result::Ok(Reply::Data(spec_u32_from_le(b[1], b[2], b[3], b[4])))
            }
        } else {
            Result::Err(ConfigErr::CommunicationProblem)
        }
    } else if b[0] == 2 {
        match spec_deserialize_err(b.subrange(1, 6)) {
            Result::Ok(e) => Result::Ok(Reply::Fault(e)),
            Result::Err(e) => Result::Err(e),
        }
    } else if b[0] == 3 {
        if b[1] == 0 && b[2] == 0 && b[3] == 0 && b[4] == 0 && b[5] == 0 {
            Result::Ok(Reply::Accepted)
        } else {
            Result::Err(ConfigErr::CommunicationProblem)
        }
    } else {
        Result::Err(ConfigErr::CommunicationProblem)
    }
}

/// Every encoded `Command` frame is exactly six bytes wide.
pub proof fn lemma_command_frame_size(c: Command)
    ensures
        spec_serialize_command(c).len() == 6,
{
}

/// Every encoded `Reply` frame is exactly six bytes wide.
pub proof fn lemma_reply_frame_size(r: Reply)
    ensures
        spec_serialize_reply(r).len() == 6,
{
}

/// Decoding an encoded `Command` gives back exactly the command, for every
/// variant and every payload value.
pub proof fn lemma_command_round_trip(c: Command)
    ensures
        spec_deserialize_command(spec_serialize_command(c)) == Result::<Command, ConfigErr>::Ok(c),
{
    match c {
        Command::Stop => {}
        Command::Continues(k) => {}
        Command::Burst(k) => {}
        Command::Config(a) => {
            let f = spec_serialize_command(c);
            assert(f.subrange(1, 6) =~= spec_serialize_action(a));
            match a {
                ConfigAction::AnalogRate(r) => {
                    lemma_u32_le_round_trip(r);
                }
                _ => {}
            }
        }
    }
}

/// Decoding an encoded `Reply` gives back exactly the reply, for every
/// variant and every payload value.
pub proof fn lemma_reply_round_trip(r: Reply)
    ensures
        spec_deserialize_reply(spec_serialize_reply(r)) == Result::<Reply, ConfigErr>::Ok(r),
{
    match r {
        Reply::Done(d) => {
            lemma_u32_le_round_trip(d);
        }
        Reply::Data(n) => {
            lemma_u32_le_round_trip(n);
        }
        Reply::Fault(e) => {
            let f = spec_serialize_reply(r);
            assert(f.subrange(1, 6) =~= spec_serialize_err(e));
            match e {
                ConfigErr::InvalidRate(rate) => {
                    lemma_u32_le_round_trip(rate);
                }
                _ => {}
            }
        }
        Reply::Accepted => {}
    }
}

/// Builds a six-byte frame from its bytes.
fn frame(b0: u8, b1: u8, b2: u8, b3: u8, b4: u8, b5: u8) -> (out: Vec<u8>)
    ensures
        out@ =~= seq![b0, b1, b2, b3, b4, b5],
{
    let mut out: Vec<u8> = Vec::new();
    out.push(b0);
    out.push(b1);
    out.push(b2);
    out.push(b3);
    out.push(b4);
    out.push(b5);
    out
}

/// The little-endian bytes of `v`, least significant first.
fn u32_le(v: u32) -> (out: [u8; 4])
    ensures
        out@ =~= spec_u32_le(v),
{
    [
        (v % 256) as u8,
        (v / 256 % 256) as u8,
        (v / 65536 % 256) as u8,
        (v / 16777216 % 256) as u8,
    ]
}

/// Reassembles a 32-bit value from its little-endian bytes.
fn u32_from_le(b0: u8, b1: u8, b2: u8, b3: u8) -> (v: u32)
    ensures
        v == spec_u32_from_le(b0, b1, b2, b3),
{
    b0 as u32 + 256 * (b1 as u32) + 65536 * (b2 as u32) + 16777216 * (b3 as u32)
}

fn kind_byte(k: SampleKind) -> (b: u8)
    ensures
        b == spec_kind_byte(k),
{
    match k {
        SampleKind::Digital => 0,
        SampleKind::Analog => 1,
    }
}

fn kind_of_byte(b: u8) -> (k: Option<SampleKind>)
    ensures
        k == spec_kind_of_byte(b),
{
    if b == 0 {
        Some(SampleKind::Digital)
    } else if b == 1 {
        Some(SampleKind::Analog)
    } else {
        None
    }
}

fn serialize_action_body(a: &ConfigAction) -> (out: [u8; 5])
    ensures
        out@ =~= spec_serialize_action(*a),
{
    match a {
        ConfigAction::ResetPins => [0, 0, 0, 0, 0],
        ConfigAction::DigitalPins(p) => [1, *p, 0, 0, 0],
        ConfigAction::AnalogPins(p) => [2, *p, 0, 0, 0],
        ConfigAction::AnalogRate(r) => {
            let le = u32_le(*r);
            let out = [3, le[0], le[1], le[2], le[3]];
            proof {
                assert(out@ =~= seq![3u8].add(spec_u32_le(*r)));
            }
            out
        }
    }
}

fn deserialize_action_body(b0: u8, b1: u8, b2: u8, b3: u8, b4: u8) -> (out: Result<
    ConfigAction,
    ConfigErr,
>)
    ensures
        out == spec_deserialize_action(seq![b0, b1, b2, b3, b4]),
{
    if b0 == 0 {
        if b1 == 0 && b2 == 0 && b3 == 0 && b4 == 0 {
            Result::Ok(ConfigAction::ResetPins)
        } else {
            Result::Err(ConfigErr::CommunicationProblem)
        }
    } else if b0 == 1 {
        if b2 == 0 && b3 == 0 && b4 == 0 {
            Result::Ok(ConfigAction::DigitalPins(b1))
        } else {
            Result::Err(ConfigErr::CommunicationProblem)
        }
    } else if b0 == 2 {
        if b2 == 0 && b3 == 0 && b4 == 0 {
            Result::Ok(ConfigAction::AnalogPins(b1))
        } else {
            Result::Err(ConfigErr::CommunicationProblem)
        }
    } else if b0 == 3 {
        Result::Ok(ConfigAction::AnalogRate(u32_from_le(b1, b2, b3, b4)))
    } else {
        Result::Err(ConfigErr::CommunicationProblem)
    }
}

fn deserialize_err_body(b0: u8, b1: u8, b2: u8, b3: u8, b4: u8) -> (out: Result<
    ConfigErr,
    ConfigErr,
>)
    ensures
        out == spec_deserialize_err(seq![b0, b1, b2, b3, b4]),
{
    if b0 == 0 {
        if b2 == 0 && b3 == 0 && b4 == 0 {
            Result::Ok(ConfigErr::UnavailibleSampler(b1))
        } else {
            Result::Err(ConfigErr::CommunicationProblem)
        }
    } else if b0 == 1 {
        if b2 == 0 && b3 == 0 && b4 == 0 {
            Result::Ok(ConfigErr::PinTaken(b1))
        } else {
            Result::Err(ConfigErr::CommunicationProblem)
        }
    } else if b0 == 2 {
        if b2 == 0 && b3 == 0 && b4 == 0 {
            Result::Ok(ConfigErr::InvalidPin(b1))
        } else {
            Result::Err(ConfigErr::CommunicationProblem)
        }
    } else if b0 == 3 {
        Result::Ok(ConfigErr::InvalidRate(u32_from_le(b1, b2, b3, b4)))
    } else if b0 == 4 {
        if b1 == 0 && b2 == 0 && b3 == 0 && b4 == 0 {
            Result::Ok(ConfigErr::Unimplemented)
        } else {
            Result::Err(ConfigErr::CommunicationProblem)
        }
    } else if b0 == 5 {
        if b1 == 0 && b2 == 0 && b3 == 0 && b4 == 0 {
            Result::Ok(ConfigErr::CommunicationProblem)
        } else {
            Result::Err(ConfigErr::CommunicationProblem)
        }
    } else {
        Result::Err(ConfigErr::CommunicationProblem)
    }
}

impl Command {
    /// Width in bytes of an encoded `Command` frame.
    pub const SIZE: usize = 6;

    /// Encodes this command into its six-byte wire frame.
    pub fn serialize(&self) -> (out: Vec<u8>)
        ensures
            out@ == spec_serialize_command(*self),
            out@.len() == 6,
    {
        match self {
            Command::Stop => frame(0, 0, 0, 0, 0, 0),
            Command::Continues(k) => frame(1, kind_byte(*k), 0, 0, 0, 0),
            Command::Burst(k) => frame(2, kind_byte(*k), 0, 0, 0, 0),
            Command::Config(a) => {
                let body = serialize_action_body(a);
                let out = frame(3, body[0], body[1], body[2], body[3], body[4]);
                proof {
                    assert(out@ =~= seq![3u8].add(spec_serialize_action(*a)));
                }
                out
            }
        }
    }

    /// Decodes a six-byte wire frame; every malformed frame is rejected as a
    /// `CommunicationProblem`.
    pub fn try_from(bytes: &Vec<u8>) -> (out: Result<Command, ConfigErr>)
        ensures
            out == spec_deserialize_command(bytes@),
    {
        if bytes.len() != 6 {
            return Result::Err(ConfigErr::CommunicationProblem);
        }
        let b0 = bytes[0];
        let b1 = bytes[1];
        let b2 = bytes[2];
        let b3 = bytes[3];
        let b4 = bytes[4];
        let b5 = bytes[5];
        if b0 == 0 {
            if b1 == 0 && b2 == 0 && b3 == 0 && b4 == 0 && b5 == 0 {
                Result::Ok(Command::Stop)
            } else {
                Result::Err(ConfigErr::CommunicationProblem)
            }
        } else if b0 == 1 || b0 == 2 {
            match kind_of_byte(b1) {
                Some(k) => if b2 == 0 && b3 == 0 && b4 == 0 && b5 == 0 {
                    if b0 == 1 {
                        Result::Ok(Command::Continues(k))
                    } else {
                        Result::Ok(Command::Burst(k))
                    }
                } else {
                    Result::Err(ConfigErr::CommunicationProblem)
                },
                None => Result::Err(ConfigErr::CommunicationProblem),
            }
        } else if b0 == 3 {
            proof {
                assert(bytes@.subrange(1, 6) =~= seq![b1, b2, b3, b4, b5]);
            }
            match deserialize_action_body(b1, b2, b3, b4, b5) {
                Result::Ok(a) => Result::Ok(Command::Config(a)),
                Result::Err(e) => Result::Err(e),
            }
        } else {
            Result::Err(ConfigErr::CommunicationProblem)
        }
    }
}

impl Reply {
    /// Width in bytes of an encoded `Reply` frame.
    pub const SIZE: usize = 6;

    /// Encodes this reply into its six-byte wire frame.
    pub fn serialize(&self) -> (out: Vec<u8>)
        ensures
            out@ == spec_serialize_reply(*self),
            out@.len() == 6,
    {
        match self {
            Reply::Done(d) => {
                let le = u32_le(*d);
                let out = frame(0, le[0], le[1], le[2], le[3], 0);
                proof {
                    assert(out@ =~= seq![0u8].add(spec_u32_le(*d)).push(0u8));
                }
                out
            }
            Reply::Data(n) => {
                let le = u32_le(*n);
                let out = frame(1, le[0], le[1], le[2], le[3], 0);
                proof {
                    assert(out@ =~= seq![1u8].add(spec_u32_le(*n)).push(0u8));
                }
                out
            }
            Reply::Fault(e) => {
                let body = serialize_err_body(e);
                let out = frame(2, body[0], body[1], body[2], body[3], body[4]);
                proof {
                    assert(out@ =~= seq![2u8].add(spec_serialize_err(*e)));
                }
                out
            }
            Reply::Accepted => frame(3, 0, 0, 0, 0, 0),
        }
    }

    /// Decodes a six-byte wire frame; every malformed frame is rejected as a
    /// `CommunicationProblem`.
    pub fn try_from(bytes: &Vec<u8>) -> (out: Result<Reply, ConfigErr>)
        ensures
            out == spec_deserialize_reply(bytes@),
    {
        if bytes.len() != 6 {
            return Result::Err(ConfigErr::CommunicationProblem);
        }
        let b0 = bytes[0];
        let b1 = bytes[1];
        let b2 = bytes[2];
        let b3 = bytes[3];
        let b4 = bytes[4];
        let b5 = bytes[5];
        if b0 == 0 || b0 == 1 {
            if b5 == 0 {
                let v = u32_from_le(b1, b2, b3, b4);
                if b0 == 0 {
                    Result::Ok(Reply::Done(v))
                } else {
                    Result::Ok(Reply::Data(v))
                }
            } else {
                Result::Err(ConfigErr::CommunicationProblem)
            }
        } else if b0 == 2 {
            proof {
                assert(bytes@.subrange(1, 6) =~= seq![b1, b2, b3, b4, b5]);
            }
            match deserialize_err_body(b1, b2, b3, b4, b5) {
                Result::Ok(e) => Result::Ok(Reply::Fault(e)),
                Result::Err(e) => Result::Err(e),
            }
        } else if b0 == 3 {
            if b1 == 0 && b2 == 0 && b3 == 0 && b4 == 0 && b5 == 0 {
                Result::Ok(Reply::Accepted)
            } else {
                Result::Err(ConfigErr::CommunicationProblem)
            }
        } else {
            Result::Err(ConfigErr::CommunicationProblem)
        }
    }
}

fn serialize_err_body(e: &ConfigErr) -> (out: [u8; 5])
    ensures
        out@ =~= spec_serialize_err(*e),
{
    match e {
        ConfigErr::UnavailibleSampler(s) => [0, *s, 0, 0, 0],
        ConfigErr::PinTaken(p) => [1, *p, 0, 0, 0],
        ConfigErr::InvalidPin(p) => [2, *p, 0, 0, 0],
        ConfigErr::InvalidRate(r) => {
            let le = u32_le(*r);
            let out = [3, le[0], le[1], le[2], le[3]];
            proof {
                assert(out@ =~= seq![3u8].add(spec_u32_le(*r)));
            }
            out
        }
        ConfigErr::Unimplemented => [4, 0, 0, 0, 0],
        ConfigErr::CommunicationProblem => [5, 0, 0, 0, 0],
    }
}

} // verus!
