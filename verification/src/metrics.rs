//! One sample of a room's sensors, and the alert the monitor raises for it.
use vstd::prelude::*;
use vstd::string::*;
use crate::binary32::{gt, lt, spec_gt, spec_lt};
use crate::decimal::{decimal, push_decimal};

verus! {

/// One sample of the sensors of a room.
///
/// Each reading is held as the bit pattern of the `f32` the sensor produced
/// (`f32::to_bits`), so that nothing is lost and the alert rules compare
/// exactly what the sensor sent.
#[derive(Clone, Copy, Debug, PartialEq, Eq, Structural)]
pub struct RoomMetrics {
    /// Seconds since the Unix epoch when the sample was taken.
    pub timestamp: u64,
    /// Temperature in degrees Celsius, as a binary32 bit pattern.
    pub temperature_bits: u32,
    /// Relative humidity in percent, as a binary32 bit pattern.
    pub humidity_bits: u32,
    /// Air pressure in hectopascal, as a binary32 bit pattern.
    pub pressure_bits: u32,
    /// Whether the vault door is open.
    pub door_open: bool,
    /// Vibration level in percent, as a binary32 bit pattern.
    pub vibration_level_bits: u32,
}

/// 25.0: a temperature above it is too high.
pub const TEMPERATURE_LIMIT_BITS: u32 = 0x41C8_0000;

/// 60.0: a humidity above it is too high.
pub const HUMIDITY_LIMIT_BITS: u32 = 0x4270_0000;

/// 980.0: a pressure below it is out of range.
pub const PRESSURE_MIN_BITS: u32 = 0x4475_0000;

/// 1020.0: a pressure above it is out of range.
pub const PRESSURE_MAX_BITS: u32 = 0x447F_0000;

/// 80.0: a vibration level above it is too high.
pub const VIBRATION_LIMIT_BITS: u32 = 0x42A0_0000;

/// What the monitor reports for a sample, from the most to the least urgent.
#[derive(Clone, Copy, Debug, PartialEq, Eq, Structural)]
pub enum AlertStatus {
    DoorOpen,
    HighTemperature,
    HighHumidity,
    PressureOutOfRange,
    HighVibration,
    AllWell,
}

/// True when the pressure of `m` lies outside the accepted range.
pub open spec fn pressure_out_of_range(m: RoomMetrics) -> bool {
    spec_lt(m.pressure_bits, PRESSURE_MIN_BITS) || spec_gt(m.pressure_bits, PRESSURE_MAX_BITS)
}

/// The alert for `m`: the first of the checks, in order of urgency, that the
/// sample fails, or all-well when it fails none.
pub open spec fn alert_of(m: RoomMetrics) -> AlertStatus {
    if m.door_open {
        AlertStatus::DoorOpen
    } else if spec_gt(m.temperature_bits, TEMPERATURE_LIMIT_BITS) {
        AlertStatus::HighTemperature
    } else if spec_gt(m.humidity_bits, HUMIDITY_LIMIT_BITS) {
        AlertStatus::HighHumidity
    } else if pressure_out_of_range(m) {
        AlertStatus::PressureOutOfRange
    } else if spec_gt(m.vibration_level_bits, VIBRATION_LIMIT_BITS) {
        AlertStatus::HighVibration
    } else {
        AlertStatus::AllWell
    }
}

/// An open door is an alarm, whatever the readings are.
pub proof fn law_open_door_alarms(m: RoomMetrics)
    requires
        m.door_open,
    ensures
        alert_of(m) == AlertStatus::DoorOpen,
{
}

/// A sample is all well exactly when the door is closed and no reading is
/// past its limit.
pub proof fn law_all_well_iff_within_limits(m: RoomMetrics)
    ensures
        alert_of(m) == AlertStatus::AllWell <==> {
            &&& !m.door_open
            &&& !spec_gt(m.temperature_bits, TEMPERATURE_LIMIT_BITS)
            &&& !spec_gt(m.humidity_bits, HUMIDITY_LIMIT_BITS)
            &&& !pressure_out_of_range(m)
            &&& !spec_gt(m.vibration_level_bits, VIBRATION_LIMIT_BITS)
        },
{
}

/// Which alert a sample gets, checked in order: an open door is the alarm;
/// with the door closed, each warning is given exactly when none of the
/// checks before it (temperature, humidity, pressure, vibration, in that
/// order) fires and its own reading is past its limit.
pub proof fn law_alert_order(m: RoomMetrics)
    ensures
        alert_of(m) == AlertStatus::DoorOpen <==> m.door_open,
        alert_of(m) == AlertStatus::HighTemperature <==> {
            &&& !m.door_open
            &&& spec_gt(m.temperature_bits, TEMPERATURE_LIMIT_BITS)
        },
        alert_of(m) == AlertStatus::HighHumidity <==> {
            &&& !m.door_open
            &&& !spec_gt(m.temperature_bits, TEMPERATURE_LIMIT_BITS)
            &&& spec_gt(m.humidity_bits, HUMIDITY_LIMIT_BITS)
        },
        alert_of(m) == AlertStatus::PressureOutOfRange <==> {
            &&& !m.door_open
            &&& !spec_gt(m.temperature_bits, TEMPERATURE_LIMIT_BITS)
            &&& !spec_gt(m.humidity_bits, HUMIDITY_LIMIT_BITS)
            &&& (spec_lt(m.pressure_bits, PRESSURE_MIN_BITS) || spec_gt(
                m.pressure_bits,
                PRESSURE_MAX_BITS,
            ))
        },
        alert_of(m) == AlertStatus::HighVibration <==> {
            &&& !m.door_open
            &&& !spec_gt(m.temperature_bits, TEMPERATURE_LIMIT_BITS)
            &&& !spec_gt(m.humidity_bits, HUMIDITY_LIMIT_BITS)
            &&& !spec_lt(m.pressure_bits, PRESSURE_MIN_BITS)
            &&& !spec_gt(m.pressure_bits, PRESSURE_MAX_BITS)
            &&& spec_gt(m.vibration_level_bits, VIBRATION_LIMIT_BITS)
        },
{
}

/// The time of a sample plays no part in its alert.
pub proof fn law_alert_ignores_time(m: RoomMetrics, timestamp: u64)
    ensures
        alert_of(RoomMetrics { timestamp, ..m }) == alert_of(m),
{
}

/// The text the monitor prints for each alert.
pub open spec fn alert_text(a: AlertStatus) -> Seq<char> {
    match a {
        AlertStatus::DoorOpen => "🚨 ALARM: DOOR OPEN!"@,
        AlertStatus::HighTemperature => "⚠️ WARNING: High temperature"@,
        AlertStatus::HighHumidity => "⚠️ WARNING: High humidity"@,
        AlertStatus::PressureOutOfRange => "⚠️ WARNING: Pressure out of range"@,
        AlertStatus::HighVibration => "⚠️ WARNING: High vibration"@,
        AlertStatus::AllWell => "✅ All is well"@,
    }
}

impl AlertStatus {
    /// The line the monitor prints for this alert.
    pub fn message(&self) -> (text: &'static str)
        ensures
            text@ == alert_text(*self),
    {
        match self {
            AlertStatus::DoorOpen => "🚨 ALARM: DOOR OPEN!",
            AlertStatus::HighTemperature => "⚠️ WARNING: High temperature",
            AlertStatus::HighHumidity => "⚠️ WARNING: High humidity",
            AlertStatus::PressureOutOfRange => "⚠️ WARNING: Pressure out of range",
            AlertStatus::HighVibration => "⚠️ WARNING: High vibration",
            AlertStatus::AllWell => "✅ All is well",
        }
    }
}

/// The clock reading type of std, carried through opaquely.
#[verifier::external_type_specification]
#[verifier::external_body]
pub struct ExSystemTime(std::time::SystemTime);

/// The error std gives for a clock reading before the Unix epoch.
#[verifier::external_type_specification]
#[verifier::external_body]
pub struct ExSystemTimeError(std::time::SystemTimeError);

/// `std::time::SystemTime::now`: the current reading of the system clock.
/// It depends on the clock, so nothing is stated of it.
#[verifier::external_body]
pub(crate) fn system_time_now() -> (now: std::time::SystemTime) {
    std::time::SystemTime::now()
}

/// `SystemTime::duration_since(UNIX_EPOCH)`: how long after the Unix epoch
/// `t` lies, or an error when it lies before it. Which of the two comes back
/// depends on the clock reading, so nothing is stated of it.
#[verifier::external_body]
pub(crate) fn since_unix_epoch(t: &std::time::SystemTime) -> (r: Result<
    std::time::Duration,
    std::time::SystemTimeError,
>) {
    t.duration_since(std::time::UNIX_EPOCH)
}

/// `Duration::as_secs`: the whole seconds of `d`. Nothing is stated of it;
/// the callers take it as it comes.
#[verifier::external_body]
pub(crate) fn whole_seconds(d: &std::time::Duration) -> (secs: u64) {
    d.as_secs()
}

/// The whole seconds since the Unix epoch by the system clock, or nothing
/// when the clock stands before the epoch.
pub(crate) fn seconds_since_epoch() -> (secs: Option<u64>) {
    let now = system_time_now();
    match since_unix_epoch(&now) {
        Ok(elapsed) => Some(whole_seconds(&elapsed)),
        Err(_) => None,
    }
}

/// The sample with the given readings stamped with a clock reading `clock`
/// (seconds since the Unix epoch, or nothing for a clock before it).
pub open spec fn stamped_spec(
    clock: Option<u64>,
    temperature_bits: u32,
    humidity_bits: u32,
    pressure_bits: u32,
    door_open: bool,
    vibration_level_bits: u32,
) -> Option<RoomMetrics> {
    match clock {
        Some(timestamp) => Some(
            RoomMetrics {
                timestamp,
                temperature_bits,
                humidity_bits,
                pressure_bits,
                door_open,
                vibration_level_bits,
            },
        ),
        None => None,
    }
}

/// Whether a stamped sample comes out depends on the clock reading alone,
/// never on the readings: every reading gets a sample from a clock reading
/// after the epoch, and none from one before it; and the sample keeps the
/// readings and takes the clock's seconds as its time.
pub proof fn law_stamping_depends_on_the_clock_only(
    clock: Option<u64>,
    temperature_bits: u32,
    humidity_bits: u32,
    pressure_bits: u32,
    door_open: bool,
    vibration_level_bits: u32,
    r: Option<RoomMetrics>,
)
    requires
        r == stamped_spec(clock, temperature_bits, humidity_bits, pressure_bits, door_open, vibration_level_bits),
    ensures
        r is Some <==> clock is Some,
        r matches Some(m) ==> {
            &&& Some(m.timestamp) == clock
            &&& m.temperature_bits == temperature_bits
            &&& m.humidity_bits == humidity_bits
            &&& m.pressure_bits == pressure_bits
            &&& m.door_open == door_open
            &&& m.vibration_level_bits == vibration_level_bits
        },
{
}

impl RoomMetrics {
    /// A sample taken at `timestamp` with the given readings.
    pub fn at(
        timestamp: u64,
        temperature_bits: u32,
        humidity_bits: u32,
        pressure_bits: u32,
        door_open: bool,
        vibration_level_bits: u32,
    ) -> (m: RoomMetrics)
        ensures
            m == (RoomMetrics {
                timestamp,
                temperature_bits,
                humidity_bits,
                pressure_bits,
                door_open,
                vibration_level_bits,
            }),
    {
        RoomMetrics {
            timestamp,
            temperature_bits,
            humidity_bits,
            pressure_bits,
            door_open,
            vibration_level_bits,
        }
    }

    /// The sample with the given readings stamped with a clock reading:
    /// `clock` holds the seconds since the Unix epoch, or nothing when the
    /// clock stood before it.
    pub fn stamped(
        clock: Option<u64>,
        temperature_bits: u32,
        humidity_bits: u32,
        pressure_bits: u32,
        door_open: bool,
        vibration_level_bits: u32,
    ) -> (r: Option<RoomMetrics>)
        ensures
            r == stamped_spec(
                clock,
                temperature_bits,
                humidity_bits,
                pressure_bits,
                door_open,
                vibration_level_bits,
            ),
    {
        match clock {
            Some(timestamp) => Some(
                RoomMetrics::at(
                    timestamp,
                    temperature_bits,
                    humidity_bits,
                    pressure_bits,
                    door_open,
                    vibration_level_bits,
                ),
            ),
            None => None,
        }
    }

    /// A sample with the given readings, stamped with the current time.
    ///
    /// Gives nothing when the system clock stands before the Unix epoch.
    pub fn new(
        temperature_bits: u32,
        humidity_bits: u32,
        pressure_bits: u32,
        door_open: bool,
        vibration_level_bits: u32,
    ) -> (r: Option<RoomMetrics>)
        ensures
            r matches Some(m) ==> m == (RoomMetrics {
                timestamp: m.timestamp,
                temperature_bits,
                humidity_bits,
                pressure_bits,
                door_open,
                vibration_level_bits,
            }),
    {
        let clock = seconds_since_epoch();
        RoomMetrics::stamped(
            clock,
            temperature_bits,
            humidity_bits,
            pressure_bits,
            door_open,
            vibration_level_bits,
        )
    }

    /// The time of the sample as seconds followed by `s`, such as `"42s"`.
    pub fn formatted_time(&self) -> (text: String)
        ensures
            text@ == decimal(self.timestamp as nat).push('s'),
    {
        let mut text = String::new();
        push_decimal(&mut text, self.timestamp);
        proof {
            reveal_strlit("s");
        }
        text.append("s");
        assert(text@ =~= decimal(self.timestamp as nat).push('s'));
        text
    }

    /// `"Open"` when the door is open, `"Closed"` otherwise.
    pub fn door_to_string(&self) -> (text: &'static str)
        ensures
            text@ == (if self.door_open {
                "Open"@
            } else {
                "Closed"@
            }),
    {
        if self.door_open {
            "Open"
        } else {
            "Closed"
        }
    }

    /// The SQL statement that stores this sample in the `metrics` table.
    ///
    /// The four readings come as the caller printed them (one decimal place);
    /// the time is written in decimal and the door as `true` or `false`.
    pub fn sql_insert(
        &self,
        temperature: &str,
        humidity: &str,
        pressure: &str,
        vibration_level: &str,
    ) -> (sql: String)
        ensures
            sql@ == "INSERT INTO metrics (timestamp, temperature, humidity, pressure, door_open, vibration_level) VALUES ("@
                + decimal(self.timestamp as nat) + ", "@ + temperature@ + ", "@ + humidity@ + ", "@
                + pressure@ + ", "@ + (if self.door_open {
                "true"@
            } else {
                "false"@
            }) + ", "@ + vibration_level@ + ")"@,
    {
        let mut sql = String::from_str(
            "INSERT INTO metrics (timestamp, temperature, humidity, pressure, door_open, vibration_level) VALUES (",
        );
        push_decimal(&mut sql, self.timestamp);
        sql.append(", ");
        sql.append(temperature);
        sql.append(", ");
        sql.append(humidity);
        sql.append(", ");
        sql.append(pressure);
        sql.append(", ");
        if self.door_open {
            sql.append("true");
        } else {
            sql.append("false");
        }
        sql.append(", ");
        sql.append(vibration_level);
        sql.append(")");
        sql
    }

    /// The alert the monitor raises for this sample.
    pub fn alert_status(&self) -> (a: AlertStatus)
        ensures
            a == alert_of(*self),
    {
        if self.door_open {
            AlertStatus::DoorOpen
        } else if gt(self.temperature_bits, TEMPERATURE_LIMIT_BITS) {
            AlertStatus::HighTemperature
        } else if gt(self.humidity_bits, HUMIDITY_LIMIT_BITS) {
            AlertStatus::HighHumidity
        } else if lt(self.pressure_bits, PRESSURE_MIN_BITS) || gt(
            self.pressure_bits,
            PRESSURE_MAX_BITS,
        ) {
            AlertStatus::PressureOutOfRange
        } else if gt(self.vibration_level_bits, VIBRATION_LIMIT_BITS) {
            AlertStatus::HighVibration
        } else {
            AlertStatus::AllWell
        }
    }
}

} // verus!
