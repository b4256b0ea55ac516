//! Tests for the DHT sensor library: payload decoding, checksum handling,
//! the heat index, and the cache/retry policy driven through a scripted
//! GPIO pin.

use gpio_sensors::dht::{checksum_ok, decode_cycles, DhtError, DhtSensor, DhtType, DhtValue};
use gpio_sensors::gpio::{gpio_pin_new, GpioPin};
use gpio_sensors::heat::{heat_index_c_hundredths, heat_index_f_hundredths, isqrt};
use std::cell::Cell;
use std::rc::Rc;
use std::time::Duration;
use std::time::Instant;

/// A scripted GPIO pin: each physical transaction (marked by the sensor
/// driving the line high) replays the next sample sequence; once a sequence
/// is exhausted its last sample repeats forever.
struct MockPin {
    scripts: Vec<Vec<bool>>,
    txns: Rc<Cell<usize>>,
    pos: usize,
}

impl MockPin {
    fn new(scripts: Vec<Vec<bool>>) -> (MockPin, Rc<Cell<usize>>) {
        let txns = Rc::new(Cell::new(0));
        (MockPin { scripts, txns: Rc::clone(&txns), pos: 0 }, txns)
    }
}

impl GpioPin for MockPin {
    fn direction_input(&mut self) -> Result<(), DhtError> {
        Ok(())
    }

    fn direction_output(&mut self, _value: i32) -> Result<(), DhtError> {
        self.txns.set(self.txns.get() + 1);
        self.pos = 0;
        Ok(())
    }

    fn set(&mut self, _value: i32) {}

    fn set_high(&mut self) {}

    fn set_low(&mut self) {}

    fn read(&mut self) -> i32 {
        let t = self.txns.get();
        let script = if t == 0 {
            &self.scripts[0]
        } else if t - 1 < self.scripts.len() {
            &self.scripts[t - 1]
        } else {
            &self.scripts[self.scripts.len() - 1]
        };
        let v = if self.pos < script.len() {
            script[self.pos]
        } else {
            *script.last().unwrap()
        };
        self.pos += 1;
        if v {
            1
        } else {
            0
        }
    }
}

/// The 83 cycle counts a clean capture of `payload` produces: two samples
/// per handshake span and per bit low phase, three samples of high for a 1
/// bit and one for a 0 bit.
fn cycle_counts(payload: [u8; 5]) -> Vec<u32> {
    let mut counts: Vec<u32> = vec![2, 2, 2];
    for i in 0..40 {
        let bit = (payload[i / 8] >> (7 - (i % 8))) & 1 == 1;
        counts.push(2);
        counts.push(if bit { 3 } else { 1 });
    }
    counts
}

/// The sample stream whose capture yields exactly `counts`: the sample on
/// which the level flips is consumed by the bucket transition, so every run
/// after the first is one sample longer than its count.
fn samples_for(counts: &[u32]) -> Vec<bool> {
    let mut s: Vec<bool> = Vec::new();
    for _ in 0..counts[0] {
        s.push(true);
    }
    for (b, c) in counts.iter().enumerate().skip(1) {
        let level = b % 2 == 0;
        for _ in 0..(c + 1) {
            s.push(level);
        }
    }
    s.push(false);
    s
}

fn success_script(payload: [u8; 5]) -> Vec<bool> {
    samples_for(&cycle_counts(payload))
}

/// A line stuck high: the capture loop never completes and hits its 10 ms
/// deadline.
fn timeout_script() -> Vec<bool> {
    vec![true]
}

fn spin_for(d: Duration) {
    let t0 = Instant::now();
    while t0.elapsed() < d {}
}

#[test]
fn it_works() {
    assert_eq!(2 + 2, 4);
}

#[test]
fn checksum_is_mod256_sum_of_first_four() {
    assert!(checksum_ok(&[45, 0, 23, 0, 68]));
    assert!(checksum_ok(&[0x02, 0x8C, 0x01, 0x05, 0x94]));
    assert!(checksum_ok(&[0, 0, 0, 0, 0]));
    assert!(checksum_ok(&[255, 255, 255, 255, 252]));
    assert!(!checksum_ok(&[45, 0, 23, 0, 69]));
    assert!(!checksum_ok(&[1, 2, 3, 4, 99]));
}

#[test]
fn dht11_decode() {
    let v = DhtValue::new(DhtType::DHT11, [45, 0, 23, 0, 68]);
    assert_eq!(v.humidity_tenths(), 450);
    assert_eq!(v.temperature_tenths(), 230);
}

#[test]
fn dht22_decode() {
    let v = DhtValue::new(DhtType::DHT22, [0x02, 0x8C, 0x01, 0x05, 0x94]);
    assert_eq!(v.humidity_tenths(), 652);
    assert_eq!(v.temperature_tenths(), 261);
}

#[test]
fn dht22_negative_temperature() {
    let v = DhtValue::new(DhtType::DHT22, [0, 0, 0x81, 0x05, 0x86]);
    assert_eq!(v.temperature_tenths(), -261);
    assert_eq!(v.temperature_f_hundredths(), -261 * 18 + 3200);
}

#[test]
fn isqrt_characterization() {
    for n in [0u64, 1, 2, 3, 4, 99, 100, 99994000, 100000000] {
        let r = isqrt(n);
        assert!(r * r <= n);
        assert!(n < (r + 1) * (r + 1));
    }
}

#[test]
fn heat_index_linear_branch() {
    // 68.00 F at 0 % humidity: the simple estimate stays below 79 F, so the
    // linear formula applies exactly: 0.5 * (68 + 61 + 0) = 64.50 F.
    assert_eq!(heat_index_f_hundredths(6800, 0), 6450);
    // (64.5 - 32) * 0.55555 = 18.0554... C.
    assert_eq!(heat_index_c_hundredths(6800, 0), 1805);
}

#[test]
fn heat_index_regression_branch() {
    // 95.00 F at 50.0 % humidity: the simple estimate exceeds 79 F, so the
    // Rothfusz regression applies; it gives 105.21 F (the NOAA table lists
    // 105 F for this cell), well above the linear estimate.
    let hi = heat_index_f_hundredths(9500, 500);
    assert_eq!(hi, 10521);
    // No correction term applies at 50 % humidity.
    assert!(hi > 7900);
}

#[test]
fn heat_index_corrections() {
    // 95.00 F at 10.0 % humidity: the dry correction is subtracted.
    assert_eq!(heat_index_f_hundredths(9500, 100), 8944);
    // 85.00 F at 90.0 % humidity: the humid correction is added.
    assert_eq!(heat_index_f_hundredths(8500, 900), 10178);
}

#[test]
fn decode_cycles_recovers_payload() {
    let payload: [u8; 5] = [0x02, 0x8C, 0x01, 0x05, 0x94];
    let counts = cycle_counts(payload);
    assert_eq!(counts.len(), 83);
    let decoded = decode_cycles(&counts);
    assert_eq!(decoded, payload);
}

#[test]
fn gpio_pin_rejects_impossible_pin() {
    match gpio_pin_new(300) {
        Err(DhtError::Connection) => {}
        _ => panic!("a pin number above 255 must be refused"),
    }
}

#[test]
fn read_returns_decoded_payload() {
    let payload: [u8; 5] = [0x02, 0x8C, 0x01, 0x05, 0x94];
    let (pin, txns) = MockPin::new(vec![success_script(payload)]);
    let mut sensor = DhtSensor::new_common(4, DhtType::DHT22, pin).unwrap();
    let v = sensor.read().unwrap();
    assert_eq!(v.payload_bytes(), payload);
    assert_eq!(v.humidity_tenths(), 652);
    assert_eq!(v.temperature_tenths(), 261);
    assert_eq!(txns.get(), 1);
}

#[test]
fn read_is_idempotent_within_cache_window() {
    let payload: [u8; 5] = [45, 0, 23, 0, 68];
    let (pin, txns) = MockPin::new(vec![success_script(payload)]);
    let mut sensor = DhtSensor::new_common(4, DhtType::DHT11, pin).unwrap();
    let v1 = sensor.read().unwrap();
    // Well within the 1250 ms window: no second physical transaction, and a
    // bit-identical reading.
    let v2 = sensor.read().unwrap();
    let v3 = sensor.read_with_age(Some(0)).unwrap();
    assert_eq!(txns.get(), 1);
    assert_eq!(v1.payload_bytes(), v2.payload_bytes());
    assert_eq!(v1.payload_bytes(), v3.payload_bytes());
    assert!(matches!(v2.dht_type(), DhtType::DHT11));
}

#[test]
fn dht21_decodes_like_dht22() {
    let v = DhtValue::new(DhtType::DHT21, [0x02, 0x8C, 0x01, 0x05, 0x94]);
    assert_eq!(v.humidity_tenths(), 652);
    assert_eq!(v.temperature_tenths(), 261);
}

#[test]
fn cache_window_boundary() {
    let payload: [u8; 5] = [45, 0, 23, 0, 68];
    let (pin, txns) = MockPin::new(vec![success_script(payload), timeout_script()]);
    let mut sensor = DhtSensor::new_common(4, DhtType::DHT11, pin).unwrap();
    sensor.read().unwrap();
    // One millisecond inside the window: served from cache.
    let v = sensor.read_with_age(Some(1249)).unwrap();
    assert_eq!(txns.get(), 1);
    assert_eq!(v.payload_bytes(), payload);
    // Exactly at the window: a physical transaction is attempted (here it
    // times out, and the error-window fallback returns the cached value).
    let v = sensor.read_with_age(Some(1250)).unwrap();
    assert_eq!(txns.get(), 2);
    assert_eq!(v.payload_bytes(), payload);
}

#[test]
fn heat_index_stays_linear_below_branch_point() {
    // 79.00 F at 0 % humidity: the simple estimate is 76.6 F, still at or
    // below 79 F, so the linear value is returned.
    assert_eq!(heat_index_f_hundredths(7900, 0), 7660);
}

#[test]
fn read_falls_back_to_cache_on_error() {
    let payload: [u8; 5] = [45, 0, 23, 0, 68];
    let (pin, txns) = MockPin::new(vec![success_script(payload), timeout_script()]);
    let mut sensor = DhtSensor::new_common(4, DhtType::DHT11, pin).unwrap();
    let v1 = sensor.read().unwrap();
    // 2 s later (past the 1250 ms fast window, within the 5 s error
    // window): the physical read times out and the cached value is
    // returned instead of the error.
    spin_for(Duration::from_millis(2000));
    let v2 = sensor.read().unwrap();
    assert_eq!(txns.get(), 2);
    assert_eq!(v1.payload_bytes(), v2.payload_bytes());
}

#[test]
fn read_propagates_error_after_cache_expiry() {
    let payload: [u8; 5] = [45, 0, 23, 0, 68];
    let (pin, txns) = MockPin::new(vec![success_script(payload), timeout_script()]);
    let mut sensor = DhtSensor::new_common(4, DhtType::DHT11, pin).unwrap();
    sensor.read().unwrap();
    // 6 s later the cache is past the 5 s error window: the timeout
    // surfaces.
    spin_for(Duration::from_millis(6000));
    match sensor.read() {
        Err(DhtError::TimedOut) => {}
        other => panic!("expected a timeout, got {:?}", other.is_ok()),
    }
    assert_eq!(txns.get(), 2);
}

#[test]
fn read_reports_checksum_mismatch() {
    let (pin, txns) = MockPin::new(vec![success_script([1, 2, 3, 4, 99])]);
    let mut sensor = DhtSensor::new_common(4, DhtType::DHT22, pin).unwrap();
    match sensor.read() {
        Err(DhtError::ChecksumMismatch) => {}
        other => panic!("expected a checksum mismatch, got {:?}", other.is_ok()),
    }
    assert_eq!(txns.get(), 1);
}

#[test]
fn read_times_out_on_stuck_line() {
    let (pin, _txns) = MockPin::new(vec![timeout_script()]);
    let mut sensor = DhtSensor::new_common(4, DhtType::DHT22, pin).unwrap();
    match sensor.read() {
        Err(DhtError::TimedOut) => {}
        other => panic!("expected a timeout, got {:?}", other.is_ok()),
    }
}

#[test]
fn read_until_backs_off_only_on_timeouts() {
    let payload: [u8; 5] = [0x02, 0x8C, 0x01, 0x05, 0x94];
    let (pin, txns) = MockPin::new(vec![
        timeout_script(),
        timeout_script(),
        success_script(payload),
    ]);
    let mut sensor = DhtSensor::new_common(4, DhtType::DHT22, pin).unwrap();
    let t0 = Instant::now();
    let v = sensor.read_until(5, 0).unwrap();
    let elapsed = t0.elapsed();
    // Two timeouts, each followed by the 150 ms backoff, then the success:
    // exactly three transactions even though more attempts were allowed.
    assert_eq!(txns.get(), 3);
    assert_eq!(v.payload_bytes(), payload);
    // Each transaction holds the line for at least 270 ms; the two backoffs
    // add 300 ms more.
    assert!(elapsed >= Duration::from_millis(3 * 270 + 2 * 150));
}

#[test]
fn resolve_failure_applies_error_cache_window() {
    let payload: [u8; 5] = [45, 0, 23, 0, 68];
    let (pin, _txns) = MockPin::new(vec![success_script(payload)]);
    let mut sensor = DhtSensor::new_common(4, DhtType::DHT11, pin).unwrap();
    sensor.read().unwrap();
    // Within the 5 s window the cached reading stands in for the error.
    let v = sensor.resolve_failure(DhtError::TimedOut, Some(2000)).unwrap();
    assert_eq!(v.payload_bytes(), payload);
    let v = sensor.resolve_failure(DhtError::ChecksumMismatch, Some(5000)).unwrap();
    assert_eq!(v.payload_bytes(), payload);
    // Past it (or with no prior success), the error surfaces unchanged.
    assert!(matches!(
        sensor.resolve_failure(DhtError::TimedOut, Some(5001)),
        Err(DhtError::TimedOut)
    ));
    assert!(matches!(
        sensor.resolve_failure(DhtError::ChecksumMismatch, None),
        Err(DhtError::ChecksumMismatch)
    ));
}

#[test]
fn read_until_with_age_serves_fresh_cache() {
    let payload: [u8; 5] = [45, 0, 23, 0, 68];
    let (pin, txns) = MockPin::new(vec![success_script(payload)]);
    let mut sensor = DhtSensor::new_common(4, DhtType::DHT11, pin).unwrap();
    sensor.read().unwrap();
    // A cache said to be 20 s old is still inside a 30 s window: returned
    // bit-identically, with no further transaction.
    let v = sensor.read_until_with_age(Some(20_000), 3, 30).unwrap();
    assert_eq!(txns.get(), 1);
    assert_eq!(v.payload_bytes(), payload);
}

#[test]
fn read_until_consumes_all_attempts_on_failure() {
    let (pin, txns) = MockPin::new(vec![timeout_script()]);
    let mut sensor = DhtSensor::new_common(4, DhtType::DHT22, pin).unwrap();
    // Every attempt times out: exactly 1 + attempts transactions, and the
    // last error is returned.
    match sensor.read_until(2, 0) {
        Err(DhtError::TimedOut) => {}
        other => panic!("expected a timeout, got {:?}", other.is_ok()),
    }
    assert_eq!(txns.get(), 3);
}

#[test]
fn read_until_serves_cache_within_given_window() {
    let payload: [u8; 5] = [45, 0, 23, 0, 68];
    let (pin, txns) = MockPin::new(vec![success_script(payload)]);
    let mut sensor = DhtSensor::new_common(4, DhtType::DHT11, pin).unwrap();
    sensor.read().unwrap();
    // Several seconds old, but read_until is told a 30 s window is fine.
    spin_for(Duration::from_millis(2000));
    let v = sensor.read_until(0, 30).unwrap();
    assert_eq!(txns.get(), 1);
    assert_eq!(v.payload_bytes(), payload);
}
