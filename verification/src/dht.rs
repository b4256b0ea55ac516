//! Payload decoding and sensor state for DHT-family sensors.

use crate::gpio::gpio_pin_new;
use crate::gpio::GpioPin;
use crate::gpio::GpioPinRppal;
use std::time::Instant;
use vstd::arithmetic::power2::lemma2_to64;
use vstd::arithmetic::power2::lemma_pow2_strictly_increases;
use vstd::arithmetic::power2::pow2;
use vstd::prelude::*;

verus! {

/// The supported DHT sensor variants. The variant fixes how the 5-byte
/// payload is decoded into physical units.
#[derive(Debug, Clone, Copy, PartialEq, Eq, Structural)]
pub enum DhtType {
    DHT11,
    DHT21,
    DHT22,
}

/// Errors a sensor read can surface.
#[derive(Debug, Clone, Copy, PartialEq, Eq, Structural)]
pub enum DhtError {
    /// The GPIO line could not be acquired at construction time.
    Connection,
    /// The capture loop did not observe a complete 40-bit frame in time.
    TimedOut,
    /// The decoded payload's checksum byte did not match the data bytes.
    ChecksumMismatch,
}

/// The checksum a valid 5-byte payload carries in its last byte: the low
/// byte of the sum of the first four bytes.
pub open spec fn checksum_spec(b: Seq<u8>) -> u8
    recommends
        b.len() == 5,
{
    (((b[0] as int) + (b[1] as int) + (b[2] as int) + (b[3] as int)) % 256) as u8
}

/// Whether a 5-byte payload is checksum-valid.
pub open spec fn payload_valid(b: Seq<u8>) -> bool {
    b.len() == 5 && b[4] == checksum_spec(b)
}

/// Recomputes the checksum over the first four bytes and compares it with
/// the fifth; true exactly for checksum-valid payloads.
pub fn checksum_ok(data: &[u8; 5]) -> (r: bool)
    ensures
        r == payload_valid(data@),
{
    let sum: u16 = data[0] as u16 + data[1] as u16 + data[2] as u16 + data[3] as u16;
    (sum % 256) as u8 == data[4]
}

/// Relative humidity in tenths of a percent, by variant.
pub open spec fn humidity_tenths_spec(t: DhtType, b: Seq<u8>) -> int
    recommends
        b.len() == 5,
{
    match t {
        DhtType::DHT11 => (b[0] as int) * 10,
        _ => (b[0] as int) * 256 + (b[1] as int),
    }
}

/// The 15-bit temperature magnitude of the two-byte encoding, in tenths of
/// a degree Celsius. The top bit of the high byte is the sign flag and is
/// not part of the magnitude.
pub open spec fn temperature_magnitude_tenths_spec(b: Seq<u8>) -> int
    recommends
        b.len() == 5,
{
    ((b[2] as int) % 128) * 256 + (b[3] as int)
}

/// Temperature in tenths of a degree Celsius, by variant. DHT11 reports
/// whole degrees in one byte; DHT21/DHT22 use a sign-magnitude two-byte
/// encoding in tenths.
pub open spec fn temperature_tenths_spec(t: DhtType, b: Seq<u8>) -> int
    recommends
        b.len() == 5,
{
    match t {
        DhtType::DHT11 => (b[2] as int) * 10,
        _ => if b[2] as int >= 128 {
            -temperature_magnitude_tenths_spec(b)
        } else {
            temperature_magnitude_tenths_spec(b)
        },
    }
}

/// A decoded reading: an immutable view over a raw 5-byte payload plus the
/// sensor variant that fixes the decoding rules.
#[derive(Debug, Clone)]
pub struct DhtValue {
    dht_type: DhtType,
    value: [u8; 5],
}

impl DhtValue {
    /// The sensor variant this reading was decoded for.
    pub closed spec fn typ(&self) -> DhtType {
        self.dht_type
    }

    /// The raw 5-byte payload backing this reading.
    pub closed spec fn payload(&self) -> Seq<u8> {
        self.value@
    }

    /// Builds a reading from a raw payload and a variant.
    pub fn new(dht_type: DhtType, value: [u8; 5]) -> (r: DhtValue)
        ensures
            r.typ() == dht_type,
            r.payload() == value@,
    {
        DhtValue { dht_type, value }
    }

    /// The sensor variant this reading was decoded for.
    pub fn dht_type(&self) -> (r: DhtType)
        ensures
            r == self.typ(),
    {
        self.dht_type
    }

    /// The raw 5-byte payload backing this reading.
    pub fn payload_bytes(&self) -> (r: [u8; 5])
        ensures
            r@ == self.payload(),
    {
        self.value
    }

    /// Relative humidity in tenths of a percent (65.2 % is 652).
    pub fn humidity_tenths(&self) -> (r: u16)
        ensures
            r as int == humidity_tenths_spec(self.typ(), self.payload()),
    {
        match self.dht_type {
            DhtType::DHT11 => (self.value[0] as u16) * 10,
            _ => (self.value[0] as u16) * 256 + (self.value[1] as u16),
        }
    }

    /// Temperature in tenths of a degree Celsius (-26.1 C is -261).
    pub fn temperature_tenths(&self) -> (r: i32)
        ensures
            r as int == temperature_tenths_spec(self.typ(), self.payload()),
            -32767 <= r <= 32767,
    {
        match self.dht_type {
            DhtType::DHT11 => (self.value[2] as i32) * 10,
            _ => {
                let magnitude: i32 = ((self.value[2] % 128) as i32) * 256 + (self.value[3] as i32);
                if self.value[2] >= 128 {
                    -magnitude
                } else {
                    magnitude
                }
            },
        }
    }

    /// Temperature in hundredths of a degree Fahrenheit (73.40 F is 7340);
    /// hundredths make the Celsius-to-Fahrenheit conversion exact.
    pub fn temperature_f_hundredths(&self) -> (r: i32)
        ensures
            r as int == temperature_tenths_spec(self.typ(), self.payload()) * 18 + 3200,
            -600000 <= r <= 600000,
    {
        self.temperature_tenths() * 18 + 3200
    }

    /// The heat index in hundredths of a degree Fahrenheit.
    pub fn heat_index_f_hundredths(&self) -> (r: i64)
        ensures
            r as int == crate::heat::div_toward_zero(
                crate::heat::heat_index_e14(
                    temperature_tenths_spec(self.typ(), self.payload()) * 18 + 3200,
                    humidity_tenths_spec(self.typ(), self.payload()),
                ),
                1000000000000,
            ),
    {
        crate::heat::heat_index_f_hundredths(self.temperature_f_hundredths(), self.humidity_tenths())
    }

    /// The heat index in hundredths of a degree Celsius.
    pub fn heat_index_c_hundredths(&self) -> (r: i64)
        ensures
            r as int == crate::heat::div_toward_zero(
                (crate::heat::heat_index_e14(
                    temperature_tenths_spec(self.typ(), self.payload()) * 18 + 3200,
                    humidity_tenths_spec(self.typ(), self.payload()),
                ) - 3200000000000000) * 11111,
                20000000000000000,
            ),
    {
        crate::heat::heat_index_c_hundredths(self.temperature_f_hundredths(), self.humidity_tenths())
    }
}

/// The value of bit `i` (0 is sent first) in a captured cycle-count
/// sequence: a bit is 1 exactly when its variable high phase lasted longer
/// than its fixed low phase. Buckets 0..3 hold the response handshake;
/// bit `i` occupies buckets `2*i + 3` (low) and `2*i + 4` (high).
pub open spec fn bit_val(c: Seq<u32>, i: int) -> int
    recommends
        c.len() == 83,
        0 <= i < 40,
{
    if c[2 * i + 4] > c[2 * i + 3] {
        1
    } else {
        0
    }
}

/// The first `k` bits of payload byte `j`, packed most-significant-first.
pub open spec fn byte_prefix(c: Seq<u32>, j: int, k: int) -> int
    recommends
        c.len() == 83,
        0 <= j < 5,
        0 <= k <= 8,
    decreases k,
{
    if k <= 0 {
        0
    } else {
        byte_prefix(c, j, k - 1) * 2 + bit_val(c, 8 * j + k - 1)
    }
}

/// Payload byte `j` of a captured cycle-count sequence.
pub open spec fn byte_of(c: Seq<u32>, j: int) -> int
    recommends
        c.len() == 83,
        0 <= j < 5,
{
    byte_prefix(c, j, 8)
}

/// A prefix of `k` packed bits is below `2^k`.
proof fn lemma_byte_prefix_bound(c: Seq<u32>, j: int, k: int)
    requires
        0 <= k <= 8,
    ensures
        0 <= byte_prefix(c, j, k) < pow2(k as nat),
    decreases k,
{
    lemma2_to64();
    if k > 0 {
        lemma_byte_prefix_bound(c, j, k - 1);
        lemma_pow2_strictly_increases((k - 1) as nat, k as nat);
        assert(pow2(k as nat) == 2 * pow2((k - 1) as nat)) by {
            vstd::arithmetic::power2::lemma_pow2_unfold(k as nat);
        }
    }
}

/// Decodes payload byte `j` from the cycle counts by comparing each bit's
/// high phase against its low phase, packing most-significant-first.
fn decode_byte(cycles: &Vec<u32>, j: usize) -> (b: u8)
    requires
        cycles@.len() == 83,
        j < 5,
    ensures
        b as int == byte_of(cycles@, j as int),
{
    let mut b: u8 = 0;
    let mut k: usize = 0;
    while k < 8
        invariant
            cycles@.len() == 83,
            j < 5,
            k <= 8,
            b as int == byte_prefix(cycles@, j as int, k as int),
        decreases 8 - k,
    {
        let i: usize = 8 * j + k;
        let low_cycles: u32 = cycles[2 * i + 3];
        let high_cycles: u32 = cycles[2 * i + 4];
        let bit: u8 = if high_cycles > low_cycles {
            1
        } else {
            0
        };
        proof {
            lemma_byte_prefix_bound(cycles@, j as int, k as int);
            lemma2_to64();
            if k < 7 {
                lemma_pow2_strictly_increases(k as nat, 7);
            }
            assert(b < 128);
        }
        b = b * 2 + bit;
        k = k + 1;
        proof {
            assert(b as int == byte_prefix(cycles@, j as int, k as int));
        }
    }
    b
}

/// Decodes the 40 data bits of a captured cycle-count sequence into the
/// 5-byte payload.
pub fn decode_cycles(cycles: &Vec<u32>) -> (data: [u8; 5])
    requires
        cycles@.len() == 83,
    ensures
        forall|j: int| 0 <= j < 5 ==> data@[j] as int == #[trigger] byte_of(cycles@, j),
{
    let b0 = decode_byte(cycles, 0);
    let b1 = decode_byte(cycles, 1);
    let b2 = decode_byte(cycles, 2);
    let b3 = decode_byte(cycles, 3);
    let b4 = decode_byte(cycles, 4);
    let data: [u8; 5] = [b0, b1, b2, b3, b4];
    data
}

/// A reading younger than this (milliseconds) is served from the cache
/// without touching the hardware: the sensor misbehaves when polled too
/// often.
pub const MINIMUM_CACHE_MS: u64 = 1250;

/// On a failed physical transaction, a cached reading at most this old
/// (milliseconds) is returned in place of the error: ambient conditions
/// change slowly, so a few-second-stale reading beats a transient error.
pub const CACHE_ON_ERROR_MS: u64 = 5000;

/// Whether a cached reading of the given age may be served without a
/// physical transaction.
pub open spec fn cache_fresh_spec(age_ms: Option<u64>, window_ms: int) -> bool {
    match age_ms {
        Some(a) => a < window_ms,
        None => false,
    }
}

/// Whether a cached reading of the given age may stand in for a failed
/// physical transaction.
pub open spec fn cache_usable_spec(age_ms: Option<u64>) -> bool {
    match age_ms {
        Some(a) => a <= CACHE_ON_ERROR_MS,
        None => false,
    }
}

/// Decides cache freshness; `None` means no prior successful reading.
fn cache_fresh(age_ms: Option<u64>, window_ms: u64) -> (r: bool)
    ensures
        r == cache_fresh_spec(age_ms, window_ms as int),
{
    match age_ms {
        Some(a) => a < window_ms,
        None => false,
    }
}

/// How many samples the capture loop may take in all before it gives up;
/// this bound exists so the loop provably terminates even on a stuck line,
/// and is far beyond what the 10 ms deadline allows.
const MAX_SAMPLES: u64 = 100_000_000;

/// The wall-clock deadline for one capture, in milliseconds.
const CAPTURE_DEADLINE_MS: u64 = 10;

/// Samples the line and buckets consecutive same-level samples into 83
/// cycle counts: one leading high span, the response low and high, then for
/// each of the 40 bits its fixed low phase and its variable high phase.
/// Even buckets count high spans, odd buckets low spans; the sample on
/// which the level flips is consumed by the transition. The capture is
/// bounded by a wall-clock deadline, checked on every sample.
fn capture_cycles<G: GpioPin>(gpio: &mut G) -> (r: Result<Vec<u32>, DhtError>)
    ensures
        r matches Ok(c) ==> c@.len() == 83,
        r matches Err(e) ==> e == DhtError::TimedOut,
{
    let started = crate::clock::instant_now();
    let mut cycles: Vec<u32> = Vec::new();
    let mut i: usize = 0;
    let mut samples: u64 = 0;
    while i < 83
        invariant
            cycles@.len() == i as int,
            i <= 83,
            samples <= MAX_SAMPLES,
        decreases 83 - i,
    {
        let expect_high: bool = i % 2 == 0;
        let mut count: u32 = 0;
        loop
            invariant
                samples <= MAX_SAMPLES,
            ensures
                samples <= MAX_SAMPLES,
            decreases MAX_SAMPLES - samples,
        {
            if samples >= MAX_SAMPLES {
                return Err(DhtError::TimedOut);
            }
            samples = samples + 1;
            let high: bool = gpio.read() == 1;
            if high == expect_high {
                // A span long enough to saturate the count would blow the
                // deadline first; saturating keeps the decode well-defined.
                if count < 0xffff_ffff {
                    count = count + 1;
                }
            } else {
                break ;
            }
            if crate::clock::millis_since(&started) > CAPTURE_DEADLINE_MS {
                return Err(DhtError::TimedOut);
            }
        }
        cycles.push(count);
        i = i + 1;
    }
    Ok(cycles)
}

/// A DHT sensor bound to one GPIO pin. It owns the pin for its lifetime,
/// drives the bit-banged protocol over it, and keeps the last
/// checksum-valid payload together with the time it was accepted; the two
/// are only ever updated together, by a successful physical transaction.
pub struct DhtSensor<G: GpioPin> {
    pin: u8,
    dht_type: DhtType,
    gpio: G,
    last_read: Option<Instant>,
    value: [u8; 5],
    txns: Ghost<nat>,
}

impl<G: GpioPin> DhtSensor<G> {
    /// The sensor variant readings are decoded for.
    pub closed spec fn typ(&self) -> DhtType {
        self.dht_type
    }

    /// The BCM number of the pin the sensor hangs on.
    pub closed spec fn pin_number(&self) -> u8 {
        self.pin
    }

    /// The payload of the most recent successful reading (all zero before
    /// the first success; the all-zero payload is itself checksum-valid).
    pub closed spec fn cached_payload(&self) -> Seq<u8> {
        self.value@
    }

    /// When the cached payload was accepted; `None` before the first
    /// success.
    pub closed spec fn stamp(&self) -> Option<Instant> {
        self.last_read
    }

    /// Whether a prior successful reading exists.
    pub open spec fn has_reading(&self) -> bool {
        self.stamp() is Some
    }

    /// How many physical transactions this sensor has started.
    pub closed spec fn transactions(&self) -> nat {
        self.txns@
    }

    /// The cached payload is always checksum-valid: it starts all-zero and
    /// is only ever replaced by an accepted payload.
    pub open spec fn wf(&self) -> bool {
        payload_valid(self.cached_payload())
    }

    /// Wraps a pin into a sensor. The pin is put into input mode; the
    /// initial payload is all zero (itself checksum-valid) and the cache
    /// starts empty, so the first read always attempts a physical
    /// transaction.
    pub fn new_common(pin: u8, dht_type: DhtType, gpio: G) -> (r: Result<DhtSensor<G>, DhtError>)
        ensures
            r matches Ok(s) && s.wf() && s.typ() == dht_type && s.pin_number() == pin
                && !s.has_reading() && s.transactions() == 0 && s.cached_payload() =~= seq![
                0u8,
                0u8,
                0u8,
                0u8,
                0u8,
            ],
    {
        let mut gpio = gpio;
        let _ = gpio.direction_input();
        let value: [u8; 5] = [0, 0, 0, 0, 0];
        let s = DhtSensor { pin, dht_type, gpio, last_read: None, value, txns: Ghost(0) };
        assert(s.cached_payload()[4] == checksum_spec(s.cached_payload()));
        Ok(s)
    }

    /// The cached reading, as a decoded value.
    fn cached_value(&self) -> (v: DhtValue)
        ensures
            v.typ() == self.typ(),
            v.payload() == self.cached_payload(),
    {
        DhtValue::new(self.dht_type, self.value)
    }

    /// The age of the cached reading in milliseconds, read from the clock;
    /// `None` when no successful reading exists yet. The value itself
    /// carries no promise (it is a clock reading).
    fn age_ms(&self) -> (r: Option<u64>)
        ensures
            r is Some <==> self.has_reading(),
    {
        match &self.last_read {
            None => None,
            Some(t) => Some(crate::clock::millis_since(t)),
        }
    }

    /// Accepts a captured payload exactly when it is checksum-valid: the
    /// cached payload and its timestamp are then updated, together. An
    /// invalid payload is discarded and leaves the sensor untouched.
    fn accept_payload(&mut self, data: [u8; 5]) -> (accepted: bool)
        ensures
            accepted <==> payload_valid(data@),
            final(self).typ() == old(self).typ(),
            final(self).pin_number() == old(self).pin_number(),
            final(self).transactions() == old(self).transactions(),
            accepted ==> final(self).cached_payload() == data@ && final(self).has_reading(),
            !accepted ==> *final(self) == *old(self),
    {
        if checksum_ok(&data) {
            self.value = data;
            self.last_read = Some(crate::clock::instant_now());
            true
        } else {
            false
        }
    }

    /// One physical transaction: wake the sensor (drive the line high to
    /// settle, then hold it low for at least 18 ms), release the line,
    /// capture the pulse train, decode it and validate the checksum. The
    /// cached payload and its timestamp are updated, together, exactly when
    /// the decoded payload is checksum-valid.
    fn read_raw(&mut self) -> (r: Result<DhtValue, DhtError>)
        requires
            old(self).wf(),
        ensures
            final(self).wf(),
            final(self).typ() == old(self).typ(),
            final(self).pin_number() == old(self).pin_number(),
            final(self).transactions() == old(self).transactions() + 1,
            match r {
                Ok(v) => v.typ() == old(self).typ() && payload_valid(v.payload()) && v.payload()
                    == final(self).cached_payload() && final(self).has_reading(),
                Err(e) => final(self).cached_payload() == old(self).cached_payload() && final(self).stamp() == old(self).stamp() && (e == DhtError::TimedOut || e
                    == DhtError::ChecksumMismatch),
            },
    {
        self.txns = Ghost(self.txns@ + 1);
        let _ = self.gpio.direction_output(1);
        crate::clock::wait_ms(250);
        self.gpio.set_low();
        // The sensor needs the line held low for at least 18 ms to wake.
        crate::clock::wait_ms(20);
        let _ = self.gpio.direction_input();
        let captured = capture_cycles(&mut self.gpio);
        let cycles = match captured {
            Ok(c) => c,
            Err(e) => {
                return Err(e);
            },
        };
        let data = decode_cycles(&cycles);
        if self.accept_payload(data) {
            Ok(DhtValue::new(self.dht_type, data))
        } else {
            Err(DhtError::ChecksumMismatch)
        }
    }

    /// On a failed physical transaction: fall back to the cached reading
    /// while it is at most `CACHE_ON_ERROR_MS` old — ambient conditions
    /// change slowly, so a few-second-stale reading beats a transient error
    /// — otherwise surface the error unchanged. Public so the fallback rule
    /// stands on its own contract; `read` applies it with the cache age
    /// re-sampled after the failed attempt.
    pub fn resolve_failure(&self, err: DhtError, age_ms: Option<u64>) -> (r: Result<
        DhtValue,
        DhtError,
    >)
        ensures
            cache_usable_spec(age_ms) ==> (r matches Ok(v) && v.typ() == self.typ() && v.payload()
                == self.cached_payload()),
            !cache_usable_spec(age_ms) ==> r == Err::<DhtValue, DhtError>(err),
    {
        if let Some(a) = age_ms {
            if a <= CACHE_ON_ERROR_MS {
                return Ok(self.cached_value());
            }
        }
        Err(err)
    }

    /// `read`, with the age of the cache made explicit. While the cached
    /// reading is younger than `MINIMUM_CACHE_MS` the call returns it
    /// bit-identically, leaves the sensor untouched and starts no physical
    /// transaction — so any number of reads inside that window are
    /// idempotent. Otherwise exactly one physical transaction is started,
    /// and on failure a cached reading at most `CACHE_ON_ERROR_MS` old (on
    /// the clock sampled after the attempt) stands in for the error.
    pub fn read_with_age(&mut self, age_ms: Option<u64>) -> (r: Result<DhtValue, DhtError>)
        requires
            old(self).wf(),
        ensures
            final(self).wf(),
            final(self).typ() == old(self).typ(),
            final(self).pin_number() == old(self).pin_number(),
            cache_fresh_spec(age_ms, MINIMUM_CACHE_MS as int) ==> *final(self) == *old(self) && (
            r matches Ok(v) && v.typ() == old(self).typ() && v.payload() == old(self).cached_payload()),
            !cache_fresh_spec(age_ms, MINIMUM_CACHE_MS as int) ==> final(self).transactions()
                == old(self).transactions() + 1,
            final(self).transactions() <= old(self).transactions() + 1,
            r is Err ==> final(self).transactions() == old(self).transactions() + 1,
            match r {
                Ok(v) => v.typ() == old(self).typ() && payload_valid(v.payload()) && v.payload()
                    == final(self).cached_payload(),
                Err(e) => final(self).cached_payload() == old(self).cached_payload() && final(self).stamp() == old(self).stamp() && (e == DhtError::TimedOut || e
                    == DhtError::ChecksumMismatch),
            },
    {
        if cache_fresh(age_ms, MINIMUM_CACHE_MS) {
            return Ok(self.cached_value());
        }
        let raw = self.read_raw();
        match raw {
            Ok(v) => Ok(v),
            Err(e) => {
                let age_now = self.age_ms();
                self.resolve_failure(e, age_now)
            },
        }
    }

    /// Reads the sensor, preferring the cache: a reading younger than
    /// `MINIMUM_CACHE_MS` is returned without touching the hardware; then
    /// one physical transaction is performed, and on failure a cached
    /// reading at most `CACHE_ON_ERROR_MS` old is returned in place of the
    /// error. Only checksum-valid payloads are ever returned or cached.
    pub fn read(&mut self) -> (r: Result<DhtValue, DhtError>)
        requires
            old(self).wf(),
        ensures
            final(self).wf(),
            final(self).typ() == old(self).typ(),
            final(self).pin_number() == old(self).pin_number(),
            !old(self).has_reading() ==> final(self).transactions() == old(self).transactions()
                + 1,
            final(self).transactions() <= old(self).transactions() + 1,
            r is Err ==> final(self).transactions() == old(self).transactions() + 1,
            match r {
                Ok(v) => v.typ() == old(self).typ() && payload_valid(v.payload()) && v.payload()
                    == final(self).cached_payload(),
                Err(e) => final(self).cached_payload() == old(self).cached_payload() && final(self).stamp() == old(self).stamp() && (e == DhtError::TimedOut || e
                    == DhtError::ChecksumMismatch),
            },
    {
        let age = self.age_ms();
        self.read_with_age(age)
    }

    /// `read_until`, with the age of the cache made explicit. While the
    /// cached reading is younger than `cache_sec` seconds the call returns
    /// it bit-identically, leaves the sensor untouched and starts no
    /// physical transaction (this bypasses the finer `read` window).
    /// Otherwise at most `1 + attempts` physical transactions are started —
    /// none after the first success — and if the result is an error, every
    /// one of the `1 + attempts` transactions was made and the last error
    /// is returned.
    pub fn read_until_with_age(&mut self, age_ms: Option<u64>, attempts: u8, cache_sec: u8) -> (r:
        Result<DhtValue, DhtError>)
        requires
            old(self).wf(),
        ensures
            final(self).wf(),
            final(self).typ() == old(self).typ(),
            final(self).pin_number() == old(self).pin_number(),
            cache_fresh_spec(age_ms, (cache_sec as int) * 1000) ==> *final(self) == *old(self) && (
            r matches Ok(v) && v.typ() == old(self).typ() && v.payload() == old(self).cached_payload()),
            final(self).transactions() <= old(self).transactions() + 1 + attempts,
            r is Err ==> final(self).transactions() == old(self).transactions() + 1 + attempts,
            match r {
                Ok(v) => v.typ() == old(self).typ() && payload_valid(v.payload()) && v.payload()
                    == final(self).cached_payload(),
                Err(e) => final(self).cached_payload() == old(self).cached_payload() && final(self).stamp() == old(self).stamp() && (e == DhtError::TimedOut || e
                    == DhtError::ChecksumMismatch),
            },
    {
        if cache_fresh(age_ms, (cache_sec as u64) * 1000) {
            return Ok(self.cached_value());
        }
        let max_attempts: u16 = attempts as u16 + 1;
        let mut i: u16 = 0;
        let ghost entry = *self;
        loop
            invariant
                i < max_attempts,
                max_attempts == attempts as u16 + 1,
                entry == *old(self),
                !cache_fresh_spec(age_ms, (cache_sec as int) * 1000),
                self.wf(),
                self.typ() == entry.typ(),
                self.pin_number() == entry.pin_number(),
                self.cached_payload() == entry.cached_payload(),
                self.stamp() == entry.stamp(),
                self.transactions() == entry.transactions() + i,
            decreases max_attempts - i,
        {
            let res = self.read();
            match res {
                Ok(v) => {
                    return Ok(v);
                },
                Err(e) => {
                    if i + 1 >= max_attempts {
                        return Err(e);
                    }
                    if matches!(e, DhtError::TimedOut) {
                        crate::clock::wait_ms(150);
                    }
                    i = i + 1;
                },
            }
        }
    }

    /// Reads the sensor with retries. A cached reading younger than
    /// `cache_sec` seconds is returned at once, without any hardware
    /// access. Otherwise up to `1 + attempts` reads are made — none after
    /// the first success; after a timeout (and only a timeout) a 150 ms
    /// pause precedes the next attempt, since timeouts suggest line
    /// contention while checksum glitches are safe to retry at once. The
    /// first success is returned; if every attempt fails, the last error.
    pub fn read_until(&mut self, attempts: u8, cache_sec: u8) -> (r: Result<DhtValue, DhtError>)
        requires
            old(self).wf(),
        ensures
            final(self).wf(),
            final(self).typ() == old(self).typ(),
            final(self).pin_number() == old(self).pin_number(),
            final(self).transactions() <= old(self).transactions() + 1 + attempts,
            r is Err ==> final(self).transactions() == old(self).transactions() + 1 + attempts,
            match r {
                Ok(v) => v.typ() == old(self).typ() && payload_valid(v.payload()) && v.payload()
                    == final(self).cached_payload(),
                Err(e) => final(self).cached_payload() == old(self).cached_payload() && final(self).stamp() == old(self).stamp() && (e == DhtError::TimedOut || e
                    == DhtError::ChecksumMismatch),
            },
    {
        let age = self.age_ms();
        self.read_until_with_age(age, attempts, cache_sec)
    }
}

impl DhtSensor<GpioPinRppal> {
    /// A sensor on the physical GPIO driver: claims the pin with the given
    /// BCM number through rppal and binds it to a sensor of the given
    /// variant. A driver failure surfaces as a connection error,
    /// immediately and without retry.
    pub fn new(pin: u8, dht_type: DhtType) -> (r: Result<DhtSensor<GpioPinRppal>, DhtError>)
        ensures
            r matches Ok(s) ==> s.wf() && s.typ() == dht_type && s.pin_number() == pin
                && !s.has_reading() && s.transactions() == 0 && s.cached_payload() =~= seq![
                0u8,
                0u8,
                0u8,
                0u8,
                0u8,
            ],
            r matches Err(e) ==> e == DhtError::Connection,
    {
        let gpio = match gpio_pin_new(pin as u32) {
            Ok(g) => g,
            Err(e) => {
                return Err(e);
            },
        };
        DhtSensor::new_common(pin, dht_type, gpio)
    }
}

} // verus!
