//! One cycle of the sampling loop: toggle the status indicator, take one
//! measurement over the shared bus, and hand the decoded reading (if any)
//! back to the caller, who formats it, drives the display sink, and waits
//! out the sampling interval.
//!
//! A failed measurement is skipped, not fatal: the cycle reports `None` and
//! leaves the bus released, so the next cycle can run.  (The alternative,
//! halting on the first failed cycle, is a policy choice left to the code
//! that runs the loop.)

use vstd::prelude::*;
use crate::bus::{BusPort, SharedBus};
use crate::sht3x::{
    measure_succeeded, read_phase_failed, write_phase_failed, decoded_from, Sht3x, Sht3xMeasurement,
};

verus! {

/// One cycle: the new state of the status indicator is the old one toggled,
/// and the reading is the decoded result of one complete measurement
/// transaction, or `None` when a phase of that transaction failed.  The bus
/// is left released either way.
pub fn sample_cycle<P: BusPort>(sht: &mut Sht3x, bus: &mut SharedBus<P>, led_on: bool) -> (r: (
    bool,
    Option<Sht3xMeasurement>,
))
    requires
        !old(bus).busy(),
    ensures
        r.0 == !led_on,
        *final(sht) == *old(sht),
        !final(bus).busy(),
        final(bus).handles() == old(bus).handles(),
        r.1 is None ==> write_phase_failed(
            old(sht).addr(),
            old(bus).port_log(),
            final(bus).port_log(),
        ) || read_phase_failed(old(sht).addr(), old(bus).port_log(), final(bus).port_log()),
        r.1 matches Some(m) ==> exists|data: Seq<u8>|
            #[trigger] measure_succeeded(
                old(sht).addr(),
                old(bus).port_log(),
                final(bus).port_log(),
                data,
            ) && decoded_from(m, data),
{
    let led = !led_on;
    let reading = match sht.measure(bus) {
        Ok(m) => Some(m),
        Err(_) => None,
    };
    (led, reading)
}

} // verus!
