//! Pin configuration store: the pool of sampleable pins and the ordered list
//! of enabled channels.
//!
//! Every pin of the analog capability catalog is, at any time, in exactly one
//! place: either `Available` in the pool or exactly one entry of the enabled
//! list. `ResetPins` returns every owned pin to the pool; enabling an owned
//! pin fails with `PinTaken`; enabling a pin outside the catalog fails with
//! `InvalidPin`.

use vstd::prelude::*;
use arrayvec::ArrayVec;
use crate::codec::{ConfigAction, ConfigErr};
use crate::mutex::Mutex;
use crate::pinvec::{pin_list, pins_clear, pins_get, pins_len, pins_new, pins_push};

verus! {

/// An exclusively owned analog-capable pin, identified by its port-0 number.
/// Holding a value of this type stands for holding the physical pin resource.
#[derive(Clone, Copy, Debug, PartialEq, Eq, Structural)]
pub enum AdcPin {
    P0_02,
    P0_03,
    P0_04,
    P0_05,
    P0_28,
    P0_29,
    P0_30,
    P0_31,
}

impl AdcPin {
    /// The pin number this handle stands for.
    pub open spec fn spec_id(self) -> u8 {
        match self {
            AdcPin::P0_02 => 2u8,
            AdcPin::P0_03 => 3u8,
            AdcPin::P0_04 => 4u8,
            AdcPin::P0_05 => 5u8,
            AdcPin::P0_28 => 28u8,
            AdcPin::P0_29 => 29u8,
            AdcPin::P0_30 => 30u8,
            AdcPin::P0_31 => 31u8,
        }
    }

    /// The pin number this handle stands for.
    pub fn id(&self) -> (p: u8)
        ensures
            p == self.spec_id(),
    {
        match self {
            AdcPin::P0_02 => 2,
            AdcPin::P0_03 => 3,
            AdcPin::P0_04 => 4,
            AdcPin::P0_05 => 5,
            AdcPin::P0_28 => 28,
            AdcPin::P0_29 => 29,
            AdcPin::P0_30 => 30,
            AdcPin::P0_31 => 31,
        }
    }

    /// The handle for a pin number, for every number in the catalog.
    pub fn from_id(p: u8) -> (r: Option<AdcPin>)
        ensures
            r is Some <==> valid_pin(p),
            r is Some ==> r->Some_0.spec_id() == p,
    {
        if p == 2 {
            Some(AdcPin::P0_02)
        } else if p == 3 {
            Some(AdcPin::P0_03)
        } else if p == 4 {
            Some(AdcPin::P0_04)
        } else if p == 5 {
            Some(AdcPin::P0_05)
        } else if p == 28 {
            Some(AdcPin::P0_28)
        } else if p == 29 {
            Some(AdcPin::P0_29)
        } else if p == 30 {
            Some(AdcPin::P0_30)
        } else if p == 31 {
            Some(AdcPin::P0_31)
        } else {
            None
        }
    }
}

/// Whether `p` is in the fixed catalog of analog-capable pins.
pub open spec fn valid_pin(p: u8) -> bool {
    p == 2 || p == 3 || p == 4 || p == 5 || p == 28 || p == 29 || p == 30 || p == 31
}

/// The catalog of analog-capable pins as a set.
pub open spec fn catalog() -> Set<u8> {
    Set::new(|p: u8| valid_pin(p))
}

/// Which catalog pins are still available in the pool, one flag per pin.
/// A set flag stands for a pin resource still held by the pool.
pub struct AdcPins {
    pub p0_02: bool,
    pub p0_03: bool,
    pub p0_04: bool,
    pub p0_05: bool,
    pub p0_28: bool,
    pub p0_29: bool,
    pub p0_30: bool,
    pub p0_31: bool,
}

/// Mathematical model of the configuration store: which pins are enabled, in
/// which order, which are still available, and the configured sample period.
#[verifier::ext_equal]
pub ghost struct ConfigView {
    pub enabled: Seq<u8>,
    pub available: Set<u8>,
    pub period: Option<u32>,
}

/// The configuration store proper. All pins start available; `apply` moves
/// them between the pool and the enabled list.
pub struct InnerConfig {
    pub analog_enabled: ArrayVec<u8, 8>,
    pub analog_available: AdcPins,
    /// Microseconds between burst samples; none configured means sampling at
    /// full speed. The rate command that would set it is not implemented.
    pub sample_period: Option<u32>,
}

impl View for InnerConfig {
    type V = ConfigView;

    open spec fn view(&self) -> ConfigView {
        ConfigView {
            enabled: pin_list(self.analog_enabled),
            available: Set::new(|p: u8| self.spec_available(p)),
            period: self.sample_period,
        }
    }
}

/// Structural health of a configuration model: every enabled pin is in the
/// catalog, no pin is both available and enabled, no pin is enabled twice,
/// and only catalog pins are available.
pub open spec fn view_wf(v: ConfigView) -> bool {
    &&& forall|i: int| 0 <= i < v.enabled.len() ==> valid_pin(#[trigger] v.enabled[i])
    &&& forall|i: int| 0 <= i < v.enabled.len() ==> !v.available.contains(#[trigger] v.enabled[i])
    &&& forall|i: int, j: int|
        0 <= i < j < v.enabled.len() ==> v.enabled[i] != v.enabled[j]
    &&& forall|p: u8| #[trigger] v.available.contains(p) ==> valid_pin(p)
}

/// What one configuration action does to the store model, and what it
/// returns: the full transition relation of the store.
pub open spec fn spec_apply(v: ConfigView, change: ConfigAction) -> (ConfigView, Result<
    (),
    ConfigErr,
>) {
    match change {
        ConfigAction::ResetPins => (
            ConfigView { enabled: Seq::<u8>::empty(), available: catalog(), period: v.period },
            Result::Ok(()),
        ),
        ConfigAction::DigitalPins(_) => (v, Result::Err(ConfigErr::Unimplemented)),
        ConfigAction::AnalogPins(p) => if !valid_pin(p) {
            (v, Result::Err(ConfigErr::InvalidPin(p)))
        } else if !v.available.contains(p) {
            (v, Result::Err(ConfigErr::PinTaken(p)))
        } else {
            (
                ConfigView {
                    enabled: v.enabled.push(p),
                    available: v.available.remove(p),
                    period: v.period,
                },
                Result::Ok(()),
            )
        },
        ConfigAction::AnalogRate(_) => (v, Result::Err(ConfigErr::Unimplemented)),
    }
}

impl InnerConfig {
    /// Whether pin `p` is still available in the pool.
    pub open spec fn spec_available(self, p: u8) -> bool {
        if p == 2 {
            self.analog_available.p0_02
        } else if p == 3 {
            self.analog_available.p0_03
        } else if p == 4 {
            self.analog_available.p0_04
        } else if p == 5 {
            self.analog_available.p0_05
        } else if p == 28 {
            self.analog_available.p0_28
        } else if p == 29 {
            self.analog_available.p0_29
        } else if p == 30 {
            self.analog_available.p0_30
        } else if p == 31 {
            self.analog_available.p0_31
        } else {
            false
        }
    }

    /// How many catalog pins are still available.
    pub open spec fn avail_count(self) -> int {
        (if self.spec_available(2) { 1int } else { 0int })
        + (if self.spec_available(3) { 1int } else { 0int })
        + (if self.spec_available(4) { 1int } else { 0int })
        + (if self.spec_available(5) { 1int } else { 0int })
        + (if self.spec_available(28) { 1int } else { 0int })
        + (if self.spec_available(29) { 1int } else { 0int })
        + (if self.spec_available(30) { 1int } else { 0int })
        + (if self.spec_available(31) { 1int } else { 0int })
    }

    /// Well-formedness: the model is healthy and every catalog pin is in
    /// exactly one place, so the enabled list can never exceed the catalog's
    /// eight pins.
    pub open spec fn wf(self) -> bool {
        &&& view_wf(self@)
        &&& self@.enabled.len() + self.avail_count() == 8
    }

    /// A fresh store: every catalog pin available, nothing enabled.
    pub fn from_gpios() -> (c: InnerConfig)
        ensures
            c.wf(),
            c@.enabled == Seq::<u8>::empty(),
            c@.available == catalog(),
            c@.period is None,
    {
        let c = InnerConfig {
            analog_enabled: pins_new(),
            analog_available: AdcPins {
                p0_02: true,
                p0_03: true,
                p0_04: true,
                p0_05: true,
                p0_28: true,
                p0_29: true,
                p0_30: true,
                p0_31: true,
            },
            sample_period: None,
        };
        proof {
            assert(c@.available =~= catalog());
        }
        c
    }

    fn is_available(&self, pin: u8) -> (r: bool)
        ensures
            r == self.spec_available(pin),
    {
        if pin == 2 {
            self.analog_available.p0_02
        } else if pin == 3 {
            self.analog_available.p0_03
        } else if pin == 4 {
            self.analog_available.p0_04
        } else if pin == 5 {
            self.analog_available.p0_05
        } else if pin == 28 {
            self.analog_available.p0_28
        } else if pin == 29 {
            self.analog_available.p0_29
        } else if pin == 30 {
            self.analog_available.p0_30
        } else if pin == 31 {
            self.analog_available.p0_31
        } else {
            false
        }
    }

    fn set_unavailable(&mut self, pin: u8)
        requires
            valid_pin(pin),
        ensures
            final(self).analog_enabled == old(self).analog_enabled,
            final(self).sample_period == old(self).sample_period,
            forall|q: u8|
                final(self).spec_available(q) == (old(self).spec_available(q) && q != pin),
    {
        if pin == 2 {
            self.analog_available.p0_02 = false;
        } else if pin == 3 {
            self.analog_available.p0_03 = false;
        } else if pin == 4 {
            self.analog_available.p0_04 = false;
        } else if pin == 5 {
            self.analog_available.p0_05 = false;
        } else if pin == 28 {
            self.analog_available.p0_28 = false;
        } else if pin == 29 {
            self.analog_available.p0_29 = false;
        } else if pin == 30 {
            self.analog_available.p0_30 = false;
        } else {
            self.analog_available.p0_31 = false;
        }
    }

    /// Applies one configuration action, per the store's transition relation:
    /// `ResetPins` always succeeds and returns every pin to the pool;
    /// `AnalogPins` enables an available catalog pin and reports `InvalidPin`
    /// or `PinTaken` otherwise; digital pins and rate setting are
    /// unimplemented.
    pub fn apply(&mut self, change: ConfigAction) -> (r: Result<(), ConfigErr>)
        requires
            old(self).wf(),
        ensures
            final(self).wf(),
            final(self)@ == spec_apply(old(self)@, change).0,
            r == spec_apply(old(self)@, change).1,
    {
        match change {
            ConfigAction::ResetPins => {
                pins_clear(&mut self.analog_enabled);
                self.analog_available = AdcPins {
                    p0_02: true,
                    p0_03: true,
                    p0_04: true,
                    p0_05: true,
                    p0_28: true,
                    p0_29: true,
                    p0_30: true,
                    p0_31: true,
                };
                proof {
                    assert(self@.available =~= catalog());
                    assert(self@ =~= spec_apply(old(self)@, change).0);
                }
                Result::Ok(())
            }
            ConfigAction::DigitalPins(_) => Result::Err(ConfigErr::Unimplemented),
            ConfigAction::AnalogPins(pin) => {
                let valid = pin == 2 || pin == 3 || pin == 4 || pin == 5 || pin == 28 || pin == 29
                    || pin == 30 || pin == 31;
                if !valid {
                    Result::Err(ConfigErr::InvalidPin(pin))
                } else if !self.is_available(pin) {
                    proof {
                        assert(!old(self)@.available.contains(pin));
                    }
                    Result::Err(ConfigErr::PinTaken(pin))
                } else {
                    proof {
                        assert(old(self)@.available.contains(pin));
                        assert(old(self).avail_count() >= 1);
                        assert(pin_list(old(self).analog_enabled).len() < 8);
                    }
                    self.set_unavailable(pin);
                    pins_push(&mut self.analog_enabled, pin);
                    proof {
                        let pre = old(self)@;
                        let post = spec_apply(pre, change).0;
                        assert(self@.enabled == pre.enabled.push(pin));
                        assert(self@.available =~= pre.available.remove(pin));
                        assert(self@ =~= post);
                        assert(self.avail_count() == old(self).avail_count() - 1);
                        assert forall|i: int, j: int|
                            0 <= i < j < self@.enabled.len() implies self@.enabled[i]
                            != self@.enabled[j] by {
                            if j == self@.enabled.len() - 1 {
                                assert(!pre.available.contains(pre.enabled[i]));
                            }
                        }
                        assert(view_wf(self@));
                    }
                    Result::Ok(())
                }
            }
            ConfigAction::AnalogRate(_) => Result::Err(ConfigErr::Unimplemented),
        }
    }
}

/// The store behind its exclusion primitive, shared between the command
/// handler and the sampler.
pub struct Config(pub Mutex<InnerConfig>);

impl Config {
    /// A fresh, unlocked store with every catalog pin available.
    pub fn from_gpios() -> (c: Config)
        ensures
            !c.0.raw.locked,
            c.0.value.wf(),
            c.0.value@.enabled == Seq::<u8>::empty(),
            c.0.value@.available == catalog(),
            c.0.value@.period is None,
    {
        Config(Mutex::new(InnerConfig::from_gpios()))
    }

    /// Applies one action under the store's lock; see [`InnerConfig::apply`].
    pub fn apply(&mut self, change: ConfigAction) -> (r: Result<(), ConfigErr>)
        requires
            !old(self).0.raw.locked,
            old(self).0.value.wf(),
        ensures
            !final(self).0.raw.locked,
            final(self).0.value.wf(),
            final(self).0.value@ == spec_apply(old(self).0.value@, change).0,
            r == spec_apply(old(self).0.value@, change).1,
    {
        self.0.raw.lock();
        let r = self.0.value.apply(change);
        self.0.raw.unlock();
        r
    }
}

/// Pin exclusivity is preserved by every sequence of configuration actions:
/// each single action keeps the model healthy — no pin both available and
/// enabled, none enabled twice — so by induction over the sequence every
/// reachable store state is healthy.
pub proof fn lemma_apply_preserves_exclusivity(v: ConfigView, change: ConfigAction)
    requires
        view_wf(v),
    ensures
        view_wf(spec_apply(v, change).0),
{
    match change {
        ConfigAction::AnalogPins(p) => {
            if valid_pin(p) && v.available.contains(p) {
                let w = spec_apply(v, change).0;
                assert forall|i: int, j: int|
                    0 <= i < j < w.enabled.len() implies w.enabled[i] != w.enabled[j] by {
                    if j == w.enabled.len() - 1 {
                        assert(!v.available.contains(v.enabled[i]));
                    }
                }
            }
        }
        _ => {}
    }
}

/// The store model after a whole sequence of configuration actions.
pub open spec fn spec_apply_all(v: ConfigView, actions: Seq<ConfigAction>) -> ConfigView
    decreases actions.len(),
{
    if actions.len() == 0 {
        v
    } else {
        spec_apply_all(spec_apply(v, actions[0]).0, actions.skip(1))
    }
}

/// Pin exclusivity holds at every point of every sequence of configuration
/// actions: starting from a healthy store, after any sequence the store is
/// still healthy — and so, by [`lemma_apply_preserves_exclusivity`], at each
/// intermediate point as well.
pub proof fn lemma_apply_all_preserves_exclusivity(v: ConfigView, actions: Seq<ConfigAction>)
    requires
        view_wf(v),
    ensures
        view_wf(spec_apply_all(v, actions)),
    decreases actions.len(),
{
    if actions.len() > 0 {
        lemma_apply_preserves_exclusivity(v, actions[0]);
        lemma_apply_all_preserves_exclusivity(spec_apply(v, actions[0]).0, actions.skip(1));
    }
}

/// Enabling a pin that is already enabled always fails with `PinTaken`: an
/// enabled pin is never available, so the store refuses to hand it out again.
pub proof fn lemma_enabled_pin_yields_pin_taken(v: ConfigView, p: u8)
    requires
        view_wf(v),
        v.enabled.contains(p),
    ensures
        spec_apply(v, ConfigAction::AnalogPins(p)).1 == Result::<(), ConfigErr>::Err(
            ConfigErr::PinTaken(p),
        ),
{
    let i = choose|i: int| 0 <= i < v.enabled.len() && v.enabled[i] == p;
    assert(valid_pin(v.enabled[i]));
    assert(!v.available.contains(v.enabled[i]));
}

/// Applying `ResetPins` twice in a row is the same as applying it once: the
/// second application changes nothing and still reports success.
pub proof fn lemma_reset_idempotent(v: ConfigView)
    ensures
        spec_apply(spec_apply(v, ConfigAction::ResetPins).0, ConfigAction::ResetPins) == spec_apply(
            v,
            ConfigAction::ResetPins,
        ),
{
}

} // verus!
