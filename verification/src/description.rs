//! The instrument's capability description: which pins can be sampled, at
//! which resolutions, against which voltage references.

use vstd::prelude::*;
use crate::config::valid_pin;

verus! {

/// What this instrument can do, as reported to a host.
pub struct Abilities {
    /// Pins that can be configured to listen on.
    pub adc_pins: Vec<u8>,
    /// Resolution options in bits.
    pub adc_res: Vec<u8>,
    /// Voltage reference options.
    pub adc_ref: Vec<&'static str>,
}

/// The fixed capabilities of this instrument. The pin list is exactly the
/// analog capability catalog that the configuration store enforces.
pub fn abilities() -> (a: Abilities)
    ensures
        a.adc_pins@ == seq![2u8, 3u8, 4u8, 5u8, 28u8, 29u8, 30u8, 31u8],
        forall|p: u8| a.adc_pins@.contains(p) <==> valid_pin(p),
        a.adc_res@ == seq![8u8, 10u8, 12u8, 14u8],
        a.adc_ref@.len() == 2,
{
    let mut adc_pins: Vec<u8> = Vec::new();
    adc_pins.push(2);
    adc_pins.push(3);
    adc_pins.push(4);
    adc_pins.push(5);
    adc_pins.push(28);
    adc_pins.push(29);
    adc_pins.push(30);
    adc_pins.push(31);
    let mut adc_res: Vec<u8> = Vec::new();
    adc_res.push(8);
    adc_res.push(10);
    adc_res.push(12);
    adc_res.push(14);
    let mut adc_ref: Vec<&'static str> = Vec::new();
    adc_ref.push("internal (0.6 V)");
    adc_ref.push("VDD/4");
    proof {
        assert(adc_pins@ =~= seq![2u8, 3u8, 4u8, 5u8, 28u8, 29u8, 30u8, 31u8]);
        assert(adc_res@ =~= seq![8u8, 10u8, 12u8, 14u8]);
        assert forall|p: u8| adc_pins@.contains(p) <==> valid_pin(p) by {
            if valid_pin(p) {
                if p == 2 {
                    assert(adc_pins@[0] == p);
                } else if p == 3 {
                    assert(adc_pins@[1] == p);
                } else if p == 4 {
                    assert(adc_pins@[2] == p);
                } else if p == 5 {
                    assert(adc_pins@[3] == p);
                } else if p == 28 {
                    assert(adc_pins@[4] == p);
                } else if p == 29 {
                    assert(adc_pins@[5] == p);
                } else if p == 30 {
                    assert(adc_pins@[6] == p);
                } else {
                    assert(adc_pins@[7] == p);
                }
            }
        }
    }
    Abilities { adc_pins, adc_res, adc_ref }
}

} // verus!
