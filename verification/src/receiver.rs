//! What the receiving side decides: which part of a datagram is a payload,
//! what to do after each event of the receive loop, and the samples of the
//! mock receiver.
use vstd::prelude::*;
use vstd::slice::slice_subrange;
use crate::metrics::{seconds_since_epoch, RoomMetrics};

verus! {

/// Bytes of the buffer that one datagram is read into.
pub const RECEIVE_BUFFER_SIZE: usize = 1024;

/// The payload of a datagram of `size` bytes read into `buf`: its first
/// `size` bytes.
pub fn datagram_payload(buf: &[u8], size: usize) -> (payload: &[u8])
    requires
        size <= buf@.len(),
    ensures
        payload@ == buf@.subrange(0, size as int),
{
    slice_subrange(buf, 0, size)
}

/// What happened in the receive loop.
#[derive(Clone, Copy, Debug, PartialEq, Eq, Structural)]
pub enum ReceiveEvent {
    /// A datagram of `size` bytes arrived in the receive buffer.
    Datagram { size: usize },
    /// Reading from the socket failed.
    ReceiveFailed,
    /// The payload decoded into a sample.
    Decoded,
    /// The payload did not decode into a sample.
    DecodeFailed,
    /// The sample was handed on.
    Delivered,
    /// The sample could not be handed on: its consumer has gone.
    ChannelClosed,
    /// A failure to read or to decode was reported.
    Reported,
}

/// What the receive loop does next.
#[derive(Clone, Copy, Debug, PartialEq, Eq, Structural)]
pub enum ReceiveAction {
    /// Wait for the next datagram.
    Receive,
    /// Decode the first `len` bytes of the receive buffer.
    Decode { len: usize },
    /// Hand the decoded sample on (to the channel, or to the log).
    Deliver,
    /// Report that reading failed.
    ReportReceiveError,
    /// Report that decoding failed.
    ReportDecodeError,
    /// Report that the consumer has gone, and end the loop.
    Stop,
}

/// The action that follows `event`.
pub open spec fn next_action_of(event: ReceiveEvent) -> ReceiveAction {
    match event {
        ReceiveEvent::Datagram { size } => ReceiveAction::Decode { len: size },
        ReceiveEvent::ReceiveFailed => ReceiveAction::ReportReceiveError,
        ReceiveEvent::Decoded => ReceiveAction::Deliver,
        ReceiveEvent::DecodeFailed => ReceiveAction::ReportDecodeError,
        ReceiveEvent::Delivered => ReceiveAction::Receive,
        ReceiveEvent::ChannelClosed => ReceiveAction::Stop,
        ReceiveEvent::Reported => ReceiveAction::Receive,
    }
}

/// Decides what the receive loop does after `event`: a datagram is decoded
/// whole, a sample that decoded is handed on, failures are reported and the
/// loop then waits for the next datagram, and it ends only when the consumer
/// has gone.
pub fn next_action(event: ReceiveEvent) -> (action: ReceiveAction)
    ensures
        action == next_action_of(event),
{
    match event {
        ReceiveEvent::Datagram { size } => ReceiveAction::Decode { len: size },
        ReceiveEvent::ReceiveFailed => ReceiveAction::ReportReceiveError,
        ReceiveEvent::Decoded => ReceiveAction::Deliver,
        ReceiveEvent::DecodeFailed => ReceiveAction::ReportDecodeError,
        ReceiveEvent::Delivered => ReceiveAction::Receive,
        ReceiveEvent::ChannelClosed => ReceiveAction::Stop,
        ReceiveEvent::Reported => ReceiveAction::Receive,
    }
}

/// The receive loop ends only when the consumer of the samples has gone;
/// no failure to read or to decode ends it.
pub proof fn law_stops_only_when_channel_closed(event: ReceiveEvent)
    ensures
        next_action_of(event) == ReceiveAction::Stop <==> event == ReceiveEvent::ChannelClosed,
{
}

/// A datagram is decoded whole: after a datagram of `size` bytes the loop
/// decodes exactly `size` bytes, whatever `size` is.
pub proof fn law_datagram_decoded_whole(size: usize)
    ensures
        next_action_of(ReceiveEvent::Datagram { size }) == (ReceiveAction::Decode { len: size }),
{
}

/// A failure to read or to decode is reported, and after the report the loop
/// waits for the next datagram.
pub proof fn law_failures_are_reported_then_receiving_resumes()
    ensures
        next_action_of(ReceiveEvent::ReceiveFailed) == ReceiveAction::ReportReceiveError,
        next_action_of(ReceiveEvent::DecodeFailed) == ReceiveAction::ReportDecodeError,
        next_action_of(ReceiveEvent::Reported) == ReceiveAction::Receive,
{
}

/// A receiver that makes up a few samples instead of listening on a socket.
pub struct MockReceiver;

/// How many samples the mock receiver sends.
pub const MOCK_SAMPLE_COUNT: u8 = 5;

/// 22.5: the temperature of the first mock sample; each next one is 1.0 warmer.
pub const MOCK_FIRST_TEMPERATURE_BITS: u32 = 0x41B4_0000;

/// How far apart, as patterns, two temperatures 1.0 apart lie between 16.0
/// and 32.0.
pub const MOCK_TEMPERATURE_STEP_BITS: u32 = 0x0008_0000;

/// 45.0: the humidity of every mock sample.
pub const MOCK_HUMIDITY_BITS: u32 = 0x4234_0000;

/// 1013.0: the pressure of every mock sample.
pub const MOCK_PRESSURE_BITS: u32 = 0x447D_4000;

/// 50.0: the vibration level of every mock sample.
pub const MOCK_VIBRATION_LEVEL_BITS: u32 = 0x4248_0000;

/// The mock sample number `index` taken at `timestamp`: 22.5 + `index`
/// degrees, 45% humidity, 1013 hPa, the door open on even numbers, 50%
/// vibration.
pub open spec fn mock_sample_of(index: u8, timestamp: u64) -> RoomMetrics {
    RoomMetrics {
        timestamp,
        temperature_bits: (MOCK_FIRST_TEMPERATURE_BITS + index * MOCK_TEMPERATURE_STEP_BITS) as u32,
        humidity_bits: MOCK_HUMIDITY_BITS,
        pressure_bits: MOCK_PRESSURE_BITS,
        door_open: index % 2 == 0,
        vibration_level_bits: MOCK_VIBRATION_LEVEL_BITS,
    }
}

/// `chrono::DateTime::from_timestamp(secs, 0)`, read back with
/// `DateTime::timestamp`: the UTC time `secs` seconds after the Unix epoch,
/// or nothing when that lies outside the dates chrono can represent.
///
/// `from_timestamp` splits `secs` into whole days (`div_euclid(86_400)`) and
/// the seconds of the day (`rem_euclid(86_400)`), and `timestamp` joins them
/// again, so the seconds that come back are `secs`. The date-time value stays
/// inside this item: its type is generic over chrono's `TimeZone` trait, which
/// the library does not declare. Which `secs` are out of range is not stated.
#[verifier::external_body]
fn utc_timestamp(secs: i64) -> (r: Option<i64>)
    ensures
        r matches Some(t) ==> t == secs,
{
    match chrono::DateTime::from_timestamp(secs, 0) {
        Some(t) => Some(t.timestamp()),
        None => None,
    }
}

/// The address the mock samples appear to come from.
pub fn mock_source() -> (address: &'static str)
    ensures
        address@ == "127.0.0.1:9999"@,
{
    "127.0.0.1:9999"
}

impl MockReceiver {
    /// The mock sample number `index`, taken at `timestamp`.
    pub fn sample(index: u8, timestamp: u64) -> (m: RoomMetrics)
        requires
            index < MOCK_SAMPLE_COUNT,
        ensures
            m == mock_sample_of(index, timestamp),
    {
        let step: u32 = index as u32 * MOCK_TEMPERATURE_STEP_BITS;
        RoomMetrics {
            timestamp,
            temperature_bits: MOCK_FIRST_TEMPERATURE_BITS + step,
            humidity_bits: MOCK_HUMIDITY_BITS,
            pressure_bits: MOCK_PRESSURE_BITS,
            door_open: index % 2 == 0,
            vibration_level_bits: MOCK_VIBRATION_LEVEL_BITS,
        }
    }

    /// The mock sample number `index`, stamped with the current UTC time.
    ///
    /// Gives nothing when the system clock stands before the Unix epoch, or so
    /// far after it that chrono cannot represent the date.
    pub fn next_sample(index: u8) -> (r: Option<RoomMetrics>)
        requires
            index < MOCK_SAMPLE_COUNT,
        ensures
            r matches Some(m) ==> m == mock_sample_of(index, m.timestamp),
    {
        let utc = match seconds_since_epoch() {
            Some(secs) => utc_timestamp(secs as i64),
            None => None,
        };
        MockReceiver::stamped_sample(index, utc)
    }

    /// The mock sample number `index` stamped with a UTC reading: `utc`
    /// holds the seconds since the Unix epoch, or nothing when no time could
    /// be read.
    pub fn stamped_sample(index: u8, utc: Option<i64>) -> (r: Option<RoomMetrics>)
        requires
            index < MOCK_SAMPLE_COUNT,
        ensures
            r == stamped_mock_sample(index, utc),
    {
        match utc {
            Some(t) => Some(MockReceiver::sample(index, t as u64)),
            None => None,
        }
    }
}

/// The mock sample number `index` stamped with the UTC reading `utc`.
pub open spec fn stamped_mock_sample(index: u8, utc: Option<i64>) -> Option<RoomMetrics> {
    match utc {
        Some(t) => Some(mock_sample_of(index, t as u64)),
        None => None,
    }
}

/// Every one of the mock samples comes out whenever a time was read: whether
/// a sample comes out depends on the time reading alone, never on which
/// sample it is, and it then carries that time and the sample's readings.
pub proof fn law_every_mock_sample_comes_out(index: u8, utc: Option<i64>, r: Option<RoomMetrics>)
    requires
        index < MOCK_SAMPLE_COUNT,
        r == stamped_mock_sample(index, utc),
    ensures
        r is Some <==> utc is Some,
        r matches Some(m) ==> {
            &&& utc == Some(m.timestamp as i64)
            &&& m.door_open == (index % 2 == 0)
            &&& m.temperature_bits == MOCK_FIRST_TEMPERATURE_BITS + index * MOCK_TEMPERATURE_STEP_BITS
            &&& m.humidity_bits == MOCK_HUMIDITY_BITS
            &&& m.pressure_bits == MOCK_PRESSURE_BITS
            &&& m.vibration_level_bits == MOCK_VIBRATION_LEVEL_BITS
        },
{
    if let Some(t) = utc {
        assert((t as u64) as i64 == t) by (bit_vector);
    }
}

/// Consecutive mock samples are one degree apart and alternate the door,
/// starting with it open.
pub proof fn law_mock_samples_alternate(index: u8, t1: u64, t2: u64)
    requires
        index + 1 < MOCK_SAMPLE_COUNT,
    ensures
        mock_sample_of((index + 1) as u8, t2).temperature_bits == mock_sample_of(index, t1).temperature_bits
            + MOCK_TEMPERATURE_STEP_BITS,
        mock_sample_of((index + 1) as u8, t2).door_open == !mock_sample_of(index, t1).door_open,
        mock_sample_of(0, t1).door_open,
{
}

} // verus!
