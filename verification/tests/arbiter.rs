use sht3x_bus::bus::{SharedBus, TransactionError, MAX_HANDLES};
use sht3x_bus::sample::sample_cycle;
use sht3x_bus::sht3x::{Sht3x, SHT3X_ADDRESS};
use sht3x_bus::stub::{BusRecord, StubBus};

const DISPLAY_ADDRESS: u8 = 0x3C;

#[test]
fn derive_handles_up_to_capacity() {
    let mut bus = SharedBus::new(StubBus::new(vec![]));
    assert_eq!(MAX_HANDLES, 2);
    let sensor = bus.derive_handle(SHT3X_ADDRESS);
    let display = bus.derive_handle(DISPLAY_ADDRESS);
    assert!(sensor.is_some());
    assert!(display.is_some());
    assert_eq!(sensor.unwrap().address(), SHT3X_ADDRESS);
    assert_eq!(display.unwrap().address(), DISPLAY_ADDRESS);
    assert_eq!(bus.handle_count(), 2);
    // The capacity is fixed at two consumers: a third derivation fails.
    assert!(bus.derive_handle(0x45).is_none());
    assert_eq!(bus.handle_count(), 2);
}

#[test]
fn acquire_is_exclusive_until_released() {
    let mut bus = SharedBus::new(StubBus::new(vec![]));
    let sensor = bus.derive_handle(SHT3X_ADDRESS).unwrap();
    let display = bus.derive_handle(DISPLAY_ADDRESS).unwrap();
    assert!(!bus.is_busy());
    assert!(bus.acquire(&sensor).is_ok());
    assert!(bus.is_busy());
    // Reentrant acquisition, even by the same handle, is a violation.
    assert!(bus.acquire(&sensor).is_err());
    assert!(bus.acquire(&display).is_err());
    bus.release();
    assert!(!bus.is_busy());
    assert!(bus.acquire(&display).is_ok());
}

#[test]
fn overlapping_transaction_is_a_violation() {
    let reply = vec![0x66, 0x66, 0x00, 0x99, 0x99, 0x00];
    let mut bus = SharedBus::new(StubBus::new(reply));
    let sensor = bus.derive_handle(SHT3X_ADDRESS).unwrap();
    let display = bus.derive_handle(DISPLAY_ADDRESS).unwrap();

    // A transaction on the sensor handle is outstanding...
    bus.acquire(&sensor).expect("free bus");
    // ...so a transaction on the display handle must be rejected, never
    // silently interleaved: the port sees no operation at all.
    let r = bus.transaction(&display, &vec![0xAE], 0);
    assert!(matches!(r, Err(TransactionError::Arbitration(_))));
    assert!(bus.port().history.is_empty());
    // The outstanding acquisition is still in place.
    assert!(bus.is_busy());

    // Once the sensor's transaction completes, the display's goes through.
    bus.release();
    let r = bus.transaction(&display, &vec![0x2C, 0x06], 6);
    assert!(r.is_ok());
    assert!(!bus.is_busy());
}

#[test]
fn transaction_returns_requested_bytes() {
    let reply = vec![0x01, 0x02, 0x03, 0x04, 0x05, 0x06];
    let mut bus = SharedBus::new(StubBus::new(reply.clone()));
    let sensor = bus.derive_handle(SHT3X_ADDRESS).unwrap();
    let data = bus.transaction(&sensor, &vec![0x2C, 0x06], 6).expect("fault-free exchange");
    assert_eq!(data, reply);
    let history = &bus.port().history;
    assert_eq!(history.len(), 2);
    assert!(matches!(history[0], BusRecord::Write { address: SHT3X_ADDRESS, .. }));
    assert!(matches!(history[1], BusRecord::Read { address: SHT3X_ADDRESS, len: 6, .. }));
}

#[test]
fn transaction_releases_after_write_fault() {
    let mut stub = StubBus::new(vec![0x01, 0x02, 0x03, 0x04, 0x05, 0x06]);
    stub.write_fault = true;
    let mut bus = SharedBus::new(stub);
    let sensor = bus.derive_handle(SHT3X_ADDRESS).unwrap();
    let r = bus.transaction(&sensor, &vec![0x2C, 0x06], 6);
    assert!(matches!(r, Err(TransactionError::Bus(_))));
    // The scoped acquisition was released on the error path: the next
    // exchange is not an arbitration violation.
    assert!(!bus.is_busy());
    let r = bus.transaction(&sensor, &vec![0x2C, 0x06], 6);
    assert!(matches!(r, Err(TransactionError::Bus(_))));
    assert!(!matches!(r, Err(TransactionError::Arbitration(_))));
}

#[test]
fn sample_cycle_toggles_and_reads() {
    let reply = vec![0x00, 0x00, 0x00, 0xFF, 0xFF, 0x00];
    let mut bus = SharedBus::new(StubBus::new(reply));
    let handle = bus.derive_handle(SHT3X_ADDRESS).unwrap();
    let mut sht = Sht3x::new(handle);
    let (led, reading) = sample_cycle(&mut sht, &mut bus, false);
    assert!(led);
    let m = reading.expect("fault-free cycle yields a reading");
    assert_eq!(m.temp_centi_celsius, -4500);
    assert_eq!(m.humidity_centi_percent, 10000);
    assert!(!bus.is_busy());
}

#[test]
fn sample_cycle_skips_failed_measurement() {
    let mut stub = StubBus::new(vec![0x00, 0x00, 0x00, 0xFF, 0xFF, 0x00]);
    stub.write_fault = true;
    let mut bus = SharedBus::new(stub);
    let handle = bus.derive_handle(SHT3X_ADDRESS).unwrap();
    let mut sht = Sht3x::new(handle);
    let (led, reading) = sample_cycle(&mut sht, &mut bus, true);
    assert!(!led);
    assert!(reading.is_none());
    // The failed cycle left the bus released: the next cycle can run.
    assert!(!bus.is_busy());
    let stub = bus.port();
    assert_eq!(stub.history.len(), 1);
}
