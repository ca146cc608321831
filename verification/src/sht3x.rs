//! SHT3x sensor driver: issues the fixed measurement command over its
//! logical device handle, reads the six-byte raw reply, and decodes it into
//! fixed-point engineering units (hundredths of a degree Celsius and
//! hundredths of a percent relative humidity).

use vstd::prelude::*;
use vstd::arithmetic::div_mod::{lemma_div_is_ordered, lemma_div_multiples_vanish};
use crate::bus::{BusError, BusEvent, BusPort, DeviceHandle, SharedBus, TransactionError};

verus! {

/// A measurement failed: one phase of the bus transaction reported a
/// [`BusError`], which this error wraps.
#[derive(Clone, Copy, Debug, PartialEq, Eq)]
pub enum SensorError {
    Bus(BusError),
}

/// The sensor's bus address in the reference deployment.
pub const SHT3X_ADDRESS: u8 = 0x44;

/// The fixed two-byte single-shot measurement command frame.
pub open spec fn measure_command() -> Seq<u8> {
    seq![0x2cu8, 0x06u8]
}

/// The measurement command frame as bytes on the wire.
pub fn measure_command_frame() -> (frame: Vec<u8>)
    ensures
        frame@ == measure_command(),
{
    let mut frame: Vec<u8> = Vec::new();
    frame.push(0x2c);
    frame.push(0x06);
    proof {
        assert(frame@ =~= measure_command());
    }
    frame
}

/// The big-endian 16-bit word formed by two reply bytes.
pub open spec fn word_be(msb: u8, lsb: u8) -> int {
    msb * 256 + lsb
}

/// Temperature in hundredths of a degree Celsius decoded from a raw sensor
/// word: -45 degrees at 0, 130 degrees at 65535, linear in between, with the
/// scaled quotient rounded down.
pub open spec fn temp_centi_from_raw(raw: int) -> int {
    -4500 + (17500 * raw) / 65535
}

/// Relative humidity in hundredths of a percent decoded from a raw sensor
/// word: 0 percent at 0, 100 percent at 65535, linear in between, with the
/// scaled quotient rounded down.
pub open spec fn hum_centi_from_raw(raw: int) -> int {
    (10000 * raw) / 65535
}

/// The decoded temperature is monotone in the raw word.
pub proof fn lemma_temperature_monotonic(a: int, b: int)
    requires
        0 <= a <= b <= 65535,
    ensures
        temp_centi_from_raw(a) <= temp_centi_from_raw(b),
{
    lemma_div_is_ordered(17500 * a, 17500 * b, 65535);
}

/// The decoded temperature spans exactly -45.00 to 130.00 degrees Celsius
/// over the raw word's range, meeting both endpoints.
pub proof fn lemma_temperature_bounds(raw: int)
    requires
        0 <= raw <= 65535,
    ensures
        -4500 <= temp_centi_from_raw(raw) <= 13000,
        temp_centi_from_raw(0) == -4500,
        temp_centi_from_raw(65535) == 13000,
{
    lemma_div_multiples_vanish(17500, 65535);
    assert(65535 * 17500 == 17500 * 65535);
    lemma_temperature_monotonic(0, raw);
    lemma_temperature_monotonic(raw, 65535);
}

/// The decoded humidity is monotone in the raw word.
pub proof fn lemma_humidity_monotonic(a: int, b: int)
    requires
        0 <= a <= b <= 65535,
    ensures
        hum_centi_from_raw(a) <= hum_centi_from_raw(b),
{
    lemma_div_is_ordered(10000 * a, 10000 * b, 65535);
}

/// The decoded humidity spans exactly 0.00 to 100.00 percent over the raw
/// word's range, meeting both endpoints.
pub proof fn lemma_humidity_bounds(raw: int)
    requires
        0 <= raw <= 65535,
    ensures
        0 <= hum_centi_from_raw(raw) <= 10000,
        hum_centi_from_raw(0) == 0,
        hum_centi_from_raw(65535) == 10000,
{
    lemma_div_multiples_vanish(10000, 65535);
    assert(65535 * 10000 == 10000 * 65535);
    lemma_humidity_monotonic(0, raw);
    lemma_humidity_monotonic(raw, 65535);
}

/// The big-endian word of two bytes.
pub fn word_from_be(msb: u8, lsb: u8) -> (w: u16)
    ensures
        w as int == word_be(msb, lsb),
{
    (msb as u16) * 256 + (lsb as u16)
}

/// Temperature in hundredths of a degree Celsius from the raw sensor word.
pub fn decode_temperature(raw: u16) -> (t: i32)
    ensures
        t == temp_centi_from_raw(raw as int),
        -4500 <= t <= 13000,
{
    proof {
        lemma_temperature_bounds(raw as int);
    }
    let scaled: u32 = 17500u32 * (raw as u32) / 65535;
    -4500 + (scaled as i32)
}

/// Relative humidity in hundredths of a percent from the raw sensor word.
pub fn decode_humidity(raw: u16) -> (h: u32)
    ensures
        h == hum_centi_from_raw(raw as int),
        h <= 10000,
{
    proof {
        lemma_humidity_bounds(raw as int);
    }
    10000u32 * (raw as u32) / 65535
}

/// The decoded engineering-unit result of one sensor transaction:
/// temperature in hundredths of a degree Celsius, relative humidity in
/// hundredths of a percent.
#[derive(Clone, Copy, Debug, PartialEq, Eq)]
pub struct Sht3xMeasurement {
    pub temp_centi_celsius: i32,
    pub humidity_centi_percent: u32,
}

/// `m` is the decoded reading of the six raw reply bytes `data`: bytes 0-1
/// are the big-endian temperature word, bytes 3-4 the big-endian humidity
/// word, bytes 2 and 5 the (unchecked) CRC bytes.
pub open spec fn decoded_from(m: Sht3xMeasurement, data: Seq<u8>) -> bool {
    &&& m.temp_centi_celsius == temp_centi_from_raw(word_be(data[0], data[1]))
    &&& m.humidity_centi_percent == hum_centi_from_raw(word_be(data[3], data[4]))
}

/// Decode a raw six-byte reply.  The CRC bytes (2 and 5) are present in the
/// frame but deliberately not validated, matching the sensor protocol as
/// this core uses it.
pub fn decode_reply(data: &Vec<u8>) -> (m: Sht3xMeasurement)
    requires
        data@.len() == 6,
    ensures
        decoded_from(m, data@),
        -4500 <= m.temp_centi_celsius <= 13000,
        m.humidity_centi_percent <= 10000,
{
    let temp_raw = word_from_be(data[0], data[1]);
    let hum_raw = word_from_be(data[3], data[4]);
    Sht3xMeasurement {
        temp_centi_celsius: decode_temperature(temp_raw),
        humidity_centi_percent: decode_humidity(hum_raw),
    }
}

/// The port history grew by one failed write of the measurement command:
/// the read phase was never attempted.
pub open spec fn write_phase_failed(addr: u8, oldlog: Seq<BusEvent>, newlog: Seq<BusEvent>) -> bool {
    newlog == oldlog.push(BusEvent::Write { address: addr, bytes: measure_command(), ok: false })
}

/// The port history grew by one acknowledged write of the measurement
/// command and one failed read of the six reply bytes: no retry of either
/// phase.
pub open spec fn read_phase_failed(addr: u8, oldlog: Seq<BusEvent>, newlog: Seq<BusEvent>) -> bool {
    newlog == oldlog.push(BusEvent::Write { address: addr, bytes: measure_command(), ok: true })
        .push(BusEvent::Read { address: addr, len: 6, data: None })
}

/// The port history grew by exactly one acknowledged write of the
/// measurement command and one successful read that returned `data`.
pub open spec fn measure_succeeded(
    addr: u8,
    oldlog: Seq<BusEvent>,
    newlog: Seq<BusEvent>,
    data: Seq<u8>,
) -> bool {
    &&& data.len() == 6
    &&& newlog == oldlog.push(BusEvent::Write {
        address: addr,
        bytes: measure_command(),
        ok: true,
    }).push(BusEvent::Read { address: addr, len: 6, data: Some(data) })
}

/// The SHT3x driver: owns the logical device handle over which it talks to
/// the sensor.
pub struct Sht3x {
    pub i2c: DeviceHandle,
}

impl Sht3x {
    /// The bus address the driver's handle is scoped to.
    pub open spec fn addr(&self) -> u8 {
        self.i2c.addr()
    }

    /// A driver over the given logical device handle.
    pub fn new(i2c: DeviceHandle) -> (s: Sht3x)
        ensures
            s.i2c == i2c,
    {
        Sht3x { i2c }
    }

    /// One complete measurement: send the fixed command frame `[0x2C, 0x06]`
    /// to the sensor's address, read the six reply bytes back over the same
    /// handle, decode.  Exactly one write is offered to the bus, always
    /// carrying the measurement command; a read is issued only after the
    /// write was acknowledged; a failed phase propagates at once as
    /// [`SensorError`], with no retry.  The bus is left released.
    pub fn measure<P: BusPort>(&mut self, bus: &mut SharedBus<P>) -> (r: Result<
        Sht3xMeasurement,
        SensorError,
    >)
        requires
            !old(bus).busy(),
        ensures
            *final(self) == *old(self),
            !final(bus).busy(),
            final(bus).handles() == old(bus).handles(),
            r is Err ==> write_phase_failed(
                old(self).addr(),
                old(bus).port_log(),
                final(bus).port_log(),
            ) || read_phase_failed(old(self).addr(), old(bus).port_log(), final(bus).port_log()),
            r matches Ok(m) ==> exists|data: Seq<u8>|
                #[trigger] measure_succeeded(
                    old(self).addr(),
                    old(bus).port_log(),
                    final(bus).port_log(),
                    data,
                ) && decoded_from(m, data),
            r matches Ok(m) ==> -4500 <= m.temp_centi_celsius <= 13000
                && m.humidity_centi_percent <= 10000,
    {
        let command = measure_command_frame();
        let result = bus.transaction(&self.i2c, &command, 6);
        match result {
            Ok(data) => {
                let m = decode_reply(&data);
                proof {
                    assert(measure_succeeded(
                        self.addr(),
                        old(bus).port_log(),
                        bus.port_log(),
                        data@,
                    ));
                }
                Ok(m)
            },
            Err(TransactionError::Bus(e)) => Err(SensorError::Bus(e)),
            // The bus was free on entry, so the arbiter cannot have refused
            // the exchange.
            Err(TransactionError::Arbitration(_)) => vstd::pervasive::unreached(),
        }
    }
}

} // verus!
