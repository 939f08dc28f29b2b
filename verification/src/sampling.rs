//! Sampling pipeline: the analog-to-digital converter model, the monotonic
//! clock model, the bounded sample queue, and the two sampling strategies.
//!
//! The physical converter and clock are out-of-scope collaborators; the
//! `Adc` and `Clock` types model exactly what the sampling logic reads from
//! them: a stream of raw conversions delivered in order, and a microsecond
//! counter that only moves forward. The burst path is a deliberate
//! synchronous hot loop — it takes no suspension point, so a burst cannot be
//! interrupted once started.

use vstd::prelude::*;
use crate::codec::ConfigErr;
use crate::config::{valid_pin, AdcPin, Config, ConfigView};
use crate::pinvec::{pin_list, pins_get, pins_len};

verus! {

/// Capacity of the bounded sample queue between sampler and sender.
pub const CHANNEL_CAPACITY: usize = 32;

/// Model of the analog-to-digital converter: `readings` are the raw
/// conversions the hardware will deliver, in acquisition order; `reads`
/// records which pin each conversion so far was acquired from. A read past
/// the end of the stream models a hardware read failure.
pub struct Adc {
    pub readings: Vec<i16>,
    pub reads: Vec<u8>,
}

impl Adc {
    /// How many conversions have been consumed.
    pub open spec fn consumed(self) -> int {
        self.reads@.len() as int
    }

    /// Whether the next read would fail.
    pub open spec fn exhausted(self) -> bool {
        self.reads@.len() >= self.readings@.len()
    }

    /// A converter that will deliver `readings`, none consumed yet.
    pub fn new(readings: Vec<i16>) -> (adc: Adc)
        ensures
            adc.readings == readings,
            adc.reads@ == Seq::<u8>::empty(),
    {
        Adc { readings, reads: Vec::new() }
    }
}

/// Model of the monotonic clock: the current instant in microseconds.
pub struct Clock {
    pub micros: u64,
}

/// Acquires one raw sample from `pin`: the next conversion of the stream, in
/// order. A read past the end of the stream is a hardware read failure and
/// is reported, never swallowed.
pub fn sample(adc: &mut Adc, pin: &AdcPin) -> (r: Result<i16, ConfigErr>)
    ensures
        match r {
            Result::Ok(v) => {
                &&& !old(adc).exhausted()
                &&& v == old(adc).readings@[old(adc).consumed()]
                &&& final(adc).reads@ == old(adc).reads@.push(pin.spec_id())
                &&& final(adc).readings@ == old(adc).readings@
            },
            Result::Err(e) => {
                &&& e == ConfigErr::CommunicationProblem
                &&& old(adc).exhausted()
                &&& *final(adc) == *old(adc)
            },
        },
{
    let n = adc.reads.len();
    if n < adc.readings.len() {
        let v = adc.readings[n];
        adc.reads.push(pin.id());
        Result::Ok(v)
    } else {
        Result::Err(ConfigErr::CommunicationProblem)
    }
}

/// Spins until the clock reaches `time`; a deliberate busy wait with no
/// suspension point, so burst pacing cannot be preempted.
pub fn busy_wait_till(clock: &mut Clock, time: u64)
    ensures
        final(clock).micros == if old(clock).micros >= time {
            old(clock).micros
        } else {
            time
        },
{
    if clock.micros < time {
        clock.micros = time;
    }
}

/// The bounded queue of raw samples between the sampler and the sender.
/// Samples leave in exactly the order they entered; a full queue exerts
/// backpressure instead of dropping.
pub struct Channel {
    pub buf: Vec<i16>,
}

impl Channel {
    /// An empty queue.
    pub fn new() -> (c: Channel)
        ensures
            c.buf@ == Seq::<i16>::empty(),
    {
        Channel { buf: Vec::new() }
    }

    /// Appends a sample if the queue has room; reports whether it did, so a
    /// cooperative caller can yield and retry (backpressure, not drop).
    pub fn try_send(&mut self, v: i16) -> (sent: bool)
        ensures
            sent == (old(self).buf@.len() < CHANNEL_CAPACITY),
            sent ==> final(self).buf@ == old(self).buf@.push(v),
            !sent ==> *final(self) == *old(self),
    {
        if self.buf.len() < CHANNEL_CAPACITY {
            self.buf.push(v);
            true
        } else {
            false
        }
    }

    /// Takes the oldest queued sample, if any.
    pub fn receive(&mut self) -> (r: Option<i16>)
        ensures
            match r {
                Some(v) => old(self).buf@.len() > 0 && v == old(self).buf@[0] && final(self).buf@
                    == old(self).buf@.skip(1),
                None => old(self).buf@.len() == 0 && *final(self) == *old(self),
            },
    {
        if self.buf.len() > 0 {
            let v = self.buf.remove(0);
            proof {
                assert(self.buf@ =~= old(self).buf@.skip(1));
            }
            Some(v)
        } else {
            None
        }
    }

    /// How many samples are queued.
    pub fn len(&self) -> (n: usize)
        ensures
            n == self.buf@.len(),
    {
        self.buf.len()
    }
}

/// The pin each burst sample is acquired from: sample `i` comes from enabled
/// channel `i mod N`, round-robin in enabled-list order.
pub open spec fn spec_burst_log(en: Seq<u8>, count: nat) -> Seq<u8>
    recommends
        en.len() > 0,
{
    Seq::new(count, |i: int| en[i % (en.len() as int)])
}

/// The sample period in microseconds the store is configured for; none
/// configured means sampling at full speed.
pub open spec fn spec_period(v: ConfigView) -> int {
    match v.period {
        Some(p) => p as int,
        None => 0,
    }
}

/// Elapsed microseconds of a paced burst of `count` samples: the first
/// sample is taken at the start instant, each further one a period later.
pub open spec fn spec_burst_duration(count: nat, period: int) -> int {
    if count == 0 {
        0
    } else {
        (count - 1) * period
    }
}

/// Copies the enabled channel list out of the locked store, in order.
fn snapshot_pins(config: &mut Config) -> (out: (Vec<u8>, u64))
    requires
        !old(config).0.raw.locked,
    ensures
        !final(config).0.raw.locked,
        final(config).0.value == old(config).0.value,
        out.0@ == old(config).0.value@.enabled,
        out.1 as int == spec_period(old(config).0.value@),
{
    config.0.raw.lock();
    let n = pins_len(&config.0.value.analog_enabled);
    let mut pins: Vec<u8> = Vec::new();
    let mut j: usize = 0;
    while j < n
        invariant
            j <= n,
            n == pin_list(config.0.value.analog_enabled).len(),
            config.0.value == old(config).0.value,
            pins@ == pin_list(config.0.value.analog_enabled).subrange(0, j as int),
        decreases n - j,
    {
        let p = pins_get(&config.0.value.analog_enabled, j);
        pins.push(p);
        proof {
            assert(pins@ =~= pin_list(config.0.value.analog_enabled).subrange(0, j + 1));
        }
        j += 1;
    }
    let period: u64 = match config.0.value.sample_period {
        Some(p) => p as u64,
        None => 0,
    };
    config.0.raw.unlock();
    proof {
        assert(pins@ =~= old(config).0.value@.enabled);
    }
    (pins, period)
}

/// One uninterruptible burst capture: `count` raw samples, acquired
/// round-robin over the enabled channels in enabled-list order, each taken
/// at the next tick of the configured period; returns the samples in
/// acquisition order together with the elapsed capture time in microseconds.
/// A hardware read failure aborts the burst with `CommunicationProblem` and
/// leaves no partial effects.
pub fn burst_capture(adc: &mut Adc, clock: &mut Clock, config: &mut Config, count: usize) -> (out:
    Result<(Vec<i16>, u64), ConfigErr>)
    requires
        !old(config).0.raw.locked,
        old(config).0.value.wf(),
        old(config).0.value@.enabled.len() > 0,
        old(clock).micros + count * spec_period(old(config).0.value@) <= u64::MAX,
    ensures
        !final(config).0.raw.locked,
        final(config).0.value == old(config).0.value,
        ({
            let used = old(adc).reads@.len() as int;
            let en = old(config).0.value@.enabled;
            let p = spec_period(old(config).0.value@);
            match out {
                Result::Ok(pair) => {
                    &&& used + count <= old(adc).readings@.len()
                    &&& pair.0@ == old(adc).readings@.subrange(used, used + count as int)
                    &&& pair.1 as int == spec_burst_duration(count as nat, p)
                    &&& final(adc).reads@ == old(adc).reads@ + spec_burst_log(en, count as nat)
                    &&& final(adc).readings@ == old(adc).readings@
                    &&& final(clock).micros == old(clock).micros + pair.1
                },
                Result::Err(e) => {
                    &&& e == ConfigErr::CommunicationProblem
                    &&& used + count > old(adc).readings@.len()
                    &&& *final(adc) == *old(adc)
                    &&& *final(clock) == *old(clock)
                },
            }
        }),
{
    let (pins, period) = snapshot_pins(config);
    let n = pins.len();
    let used = adc.reads.len();
    if used > adc.readings.len() || count > adc.readings.len() - used {
        return Result::Err(ConfigErr::CommunicationProblem);
    }
    let ghost en = old(config).0.value@.enabled;
    let ghost p = period as int;
    let mut data: Vec<i16> = Vec::new();
    let start = clock.micros;
    let mut next = start;
    let mut i: usize = 0;
    while i < count
        invariant
            i <= count,
            n == en.len(),
            n > 0,
            pins@ == en,
            forall|k: int| 0 <= k < en.len() ==> valid_pin(#[trigger] en[k]),
            used == old(adc).reads@.len(),
            used + count <= old(adc).readings@.len(),
            adc.readings@ == old(adc).readings@,
            adc.reads@ == old(adc).reads@ + spec_burst_log(en, i as nat),
            data@ == old(adc).readings@.subrange(used as int, used + i),
            start == old(clock).micros,
            p == period,
            start + count * p <= u64::MAX,
            next as int == start + i * p,
            clock.micros as int == start + spec_burst_duration(i as nat, p),
        decreases count - i,
    {
        proof {
            vstd::arithmetic::mul::lemma_mul_inequality(i as int, count as int, p);
            vstd::arithmetic::mul::lemma_mul_inequality(i + 1, count as int, p);
            vstd::arithmetic::mul::lemma_mul_is_distributive_add_other_way(p, i as int, 1);
            if i > 0 {
                vstd::arithmetic::mul::lemma_mul_inequality(i - 1, i as int, p);
            }
        }
        let idx = i % n;
        let pid = pins[idx];
        let handle = AdcPin::from_id(pid).unwrap();
        busy_wait_till(clock, next);
        match sample(adc, &handle) {
            Result::Ok(v) => {
                data.push(v);
                proof {
                    assert(data@ =~= old(adc).readings@.subrange(used as int, used + i + 1));
                    assert(adc.reads@ =~= old(adc).reads@ + spec_burst_log(en, (i + 1) as nat));
                }
            }
            Result::Err(_) => {
                proof {
                    assert(false);
                }
                return Result::Err(ConfigErr::CommunicationProblem);
            }
        }
        next = next + period;
        i += 1;
    }
    let duration = clock.micros - start;
    Result::Ok((data, duration))
}

/// One round of continuous sampling: acquires one sample per enabled
/// channel, in enabled-list order, and queues them in acquisition order. The
/// caller guarantees room in the queue (backpressure is the embedding loop's
/// concern). A hardware read failure aborts the round with
/// `CommunicationProblem` and leaves no partial effects.
pub fn continuous_round(adc: &mut Adc, config: &mut Config, channel: &mut Channel) -> (r: Result<
    (),
    ConfigErr,
>)
    requires
        !old(config).0.raw.locked,
        old(config).0.value.wf(),
        old(channel).buf@.len() + old(config).0.value@.enabled.len() <= CHANNEL_CAPACITY,
    ensures
        !final(config).0.raw.locked,
        final(config).0.value == old(config).0.value,
        ({
            let used = old(adc).reads@.len() as int;
            let en = old(config).0.value@.enabled;
            match r {
                Result::Ok(_) => {
                    &&& used + en.len() <= old(adc).readings@.len()
                    &&& final(adc).reads@ == old(adc).reads@ + en
                    &&& final(adc).readings@ == old(adc).readings@
                    &&& final(channel).buf@ == old(channel).buf@ + old(adc).readings@.subrange(
                        used,
                        used + en.len(),
                    )
                },
                Result::Err(e) => {
                    &&& e == ConfigErr::CommunicationProblem
                    &&& used + en.len() > old(adc).readings@.len()
                    &&& *final(adc) == *old(adc)
                    &&& *final(channel) == *old(channel)
                },
            }
        }),
{
    let (pins, _period) = snapshot_pins(config);
    let n = pins.len();
    let used = adc.reads.len();
    if used > adc.readings.len() || n > adc.readings.len() - used {
        return Result::Err(ConfigErr::CommunicationProblem);
    }
    let ghost en = old(config).0.value@.enabled;
    let mut i: usize = 0;
    while i < n
        invariant
            i <= n,
            n == en.len(),
            pins@ == en,
            forall|k: int| 0 <= k < en.len() ==> valid_pin(#[trigger] en[k]),
            used == old(adc).reads@.len(),
            used + n <= old(adc).readings@.len(),
            adc.readings@ == old(adc).readings@,
            adc.reads@ == old(adc).reads@ + en.subrange(0, i as int),
            channel.buf@ == old(channel).buf@ + old(adc).readings@.subrange(
                used as int,
                used + i,
            ),
            old(channel).buf@.len() + n <= CHANNEL_CAPACITY,
        decreases n - i,
    {
        let pid = pins[i];
        let handle = AdcPin::from_id(pid).unwrap();
        match sample(adc, &handle) {
            Result::Ok(v) => {
                let sent = channel.try_send(v);
                proof {
                    assert(sent);
                    assert(adc.reads@ =~= old(adc).reads@ + en.subrange(0, i + 1));
                    assert(channel.buf@ =~= old(channel).buf@ + old(adc).readings@.subrange(
                        used as int,
                        used + i + 1,
                    ));
                }
            }
            Result::Err(_) => {
                proof {
                    assert(false);
                }
                return Result::Err(ConfigErr::CommunicationProblem);
            }
        }
        i += 1;
    }
    proof {
        assert(en.subrange(0, en.len() as int) =~= en);
    }
    Result::Ok(())
}

/// Takes the oldest eight samples off the queue as one send batch, in queue
/// order, if at least eight are ready; the sender forwards such batches and
/// never reorders samples.
pub fn drain_batch(channel: &mut Channel) -> (r: Option<Vec<i16>>)
    ensures
        match r {
            Some(batch) => old(channel).buf@.len() >= 8 && batch@ == old(channel).buf@.subrange(
                0,
                8,
            ) && final(channel).buf@ == old(channel).buf@.skip(8),
            None => old(channel).buf@.len() < 8 && *final(channel) == *old(channel),
        },
{
    if channel.len() < 8 {
        return None;
    }
    let mut batch: Vec<i16> = Vec::new();
    let mut i: usize = 0;
    while i < 8
        invariant
            i <= 8,
            old(channel).buf@.len() >= 8,
            batch@ == old(channel).buf@.subrange(0, i as int),
            channel.buf@ == old(channel).buf@.skip(i as int),
        decreases 8 - i,
    {
        match channel.receive() {
            Some(v) => {
                batch.push(v);
                proof {
                    assert(batch@ =~= old(channel).buf@.subrange(0, i + 1));
                    assert(channel.buf@ =~= old(channel).buf@.skip(i + 1));
                }
            }
            None => {
                proof {
                    assert(false);
                }
                return None;
            }
        }
        i += 1;
    }
    Some(batch)
}

} // verus!
