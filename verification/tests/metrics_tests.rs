use yandex_upd_monitor::binary32;
use yandex_upd_monitor::metrics::{
    AlertStatus, RoomMetrics, HUMIDITY_LIMIT_BITS, PRESSURE_MAX_BITS, PRESSURE_MIN_BITS,
    TEMPERATURE_LIMIT_BITS, VIBRATION_LIMIT_BITS,
};

fn sample(t: f32, h: f32, p: f32, door: bool, v: f32) -> RoomMetrics {
    RoomMetrics::at(1_700_000_000, t.to_bits(), h.to_bits(), p.to_bits(), door, v.to_bits())
}

fn expected_alert(t: f32, h: f32, p: f32, door: bool, v: f32) -> AlertStatus {
    if door {
        AlertStatus::DoorOpen
    } else if t > 25.0 {
        AlertStatus::HighTemperature
    } else if h > 60.0 {
        AlertStatus::HighHumidity
    } else if p < 980.0 || p > 1020.0 {
        AlertStatus::PressureOutOfRange
    } else if v > 80.0 {
        AlertStatus::HighVibration
    } else {
        AlertStatus::AllWell
    }
}

fn special_values() -> Vec<f32> {
    vec![
        0.0,
        -0.0,
        1.0,
        -1.0,
        25.0,
        25.000002,
        24.999998,
        60.0,
        60.1,
        80.0,
        80.5,
        979.9,
        980.0,
        1020.0,
        1020.1,
        1013.0,
        f32::INFINITY,
        f32::NEG_INFINITY,
        f32::NAN,
        -f32::NAN,
        f32::MAX,
        f32::MIN,
        f32::MIN_POSITIVE,
        -f32::MIN_POSITIVE,
        f32::from_bits(1),
        f32::from_bits(0x8000_0001),
        f32::from_bits(0x7FC0_0001),
    ]
}

#[test]
fn gt_and_lt_agree_with_f32_comparisons() {
    let values = special_values();
    for &a in &values {
        for &b in &values {
            assert_eq!(binary32::gt(a.to_bits(), b.to_bits()), a > b, "{} > {}", a, b);
            assert_eq!(binary32::lt(a.to_bits(), b.to_bits()), a < b, "{} < {}", a, b);
        }
    }
}

#[test]
fn nan_never_compares() {
    let nan = f32::NAN.to_bits();
    assert!(!binary32::gt(nan, 0));
    assert!(!binary32::lt(nan, 0));
    assert!(!binary32::gt(0, nan));
    assert!(!binary32::lt(nan, nan));
}

#[test]
fn zeros_are_equal() {
    assert!(!binary32::gt(0.0f32.to_bits(), (-0.0f32).to_bits()));
    assert!(!binary32::gt((-0.0f32).to_bits(), 0.0f32.to_bits()));
    assert!(!binary32::lt((-0.0f32).to_bits(), 0.0f32.to_bits()));
}

#[test]
fn thresholds_are_the_monitor_limits() {
    assert_eq!(f32::from_bits(TEMPERATURE_LIMIT_BITS), 25.0);
    assert_eq!(f32::from_bits(HUMIDITY_LIMIT_BITS), 60.0);
    assert_eq!(f32::from_bits(PRESSURE_MIN_BITS), 980.0);
    assert_eq!(f32::from_bits(PRESSURE_MAX_BITS), 1020.0);
    assert_eq!(f32::from_bits(VIBRATION_LIMIT_BITS), 80.0);
}

#[test]
fn alert_matches_the_monitor_rule_on_a_grid() {
    let temps = [20.0f32, 25.0, 25.5, f32::NAN, -5.0];
    let hums = [45.0f32, 60.0, 60.5, f32::NAN];
    let pressures = [1013.0f32, 979.0, 980.0, 1020.0, 1021.0, f32::NAN, f32::NEG_INFINITY];
    let vibs = [50.0f32, 80.0, 81.0, f32::INFINITY];
    for &door in &[false, true] {
        for &t in &temps {
            for &h in &hums {
                for &p in &pressures {
                    for &v in &vibs {
                        let m = sample(t, h, p, door, v);
                        assert_eq!(m.alert_status(), expected_alert(t, h, p, door, v));
                    }
                }
            }
        }
    }
}

#[test]
fn open_door_alarms_whatever_the_readings() {
    let m = sample(40.0, 90.0, 500.0, true, 99.0);
    assert_eq!(m.alert_status(), AlertStatus::DoorOpen);
    assert_eq!(m.alert_status().message(), "🚨 ALARM: DOOR OPEN!");
}

#[test]
fn each_alert_has_its_message() {
    assert_eq!(sample(26.0, 45.0, 1013.0, false, 50.0).alert_status(), AlertStatus::HighTemperature);
    assert_eq!(sample(22.0, 61.0, 1013.0, false, 50.0).alert_status(), AlertStatus::HighHumidity);
    assert_eq!(sample(22.0, 45.0, 979.5, false, 50.0).alert_status(), AlertStatus::PressureOutOfRange);
    assert_eq!(sample(22.0, 45.0, 1020.5, false, 50.0).alert_status(), AlertStatus::PressureOutOfRange);
    assert_eq!(sample(22.0, 45.0, 1013.0, false, 85.0).alert_status(), AlertStatus::HighVibration);
    assert_eq!(sample(22.0, 45.0, 1013.0, false, 50.0).alert_status(), AlertStatus::AllWell);
    assert_eq!(AlertStatus::HighTemperature.message(), "⚠️ WARNING: High temperature");
    assert_eq!(AlertStatus::HighHumidity.message(), "⚠️ WARNING: High humidity");
    assert_eq!(AlertStatus::PressureOutOfRange.message(), "⚠️ WARNING: Pressure out of range");
    assert_eq!(AlertStatus::HighVibration.message(), "⚠️ WARNING: High vibration");
    assert_eq!(AlertStatus::AllWell.message(), "✅ All is well");
}

#[test]
fn limits_themselves_are_all_well() {
    assert_eq!(sample(25.0, 60.0, 980.0, false, 80.0).alert_status(), AlertStatus::AllWell);
    assert_eq!(sample(25.0, 60.0, 1020.0, false, 80.0).alert_status(), AlertStatus::AllWell);
}

#[test]
fn alert_ignores_the_time() {
    let a = RoomMetrics::at(0, 30.0f32.to_bits(), 45.0f32.to_bits(), 1013.0f32.to_bits(), false, 50.0f32.to_bits());
    let b = RoomMetrics::at(u64::MAX, 30.0f32.to_bits(), 45.0f32.to_bits(), 1013.0f32.to_bits(), false, 50.0f32.to_bits());
    assert_eq!(a.alert_status(), b.alert_status());
}

#[test]
fn formatted_time_is_seconds_with_suffix() {
    assert_eq!(RoomMetrics::at(0, 0, 0, 0, false, 0).formatted_time(), "0s");
    assert_eq!(RoomMetrics::at(42, 0, 0, 0, false, 0).formatted_time(), "42s");
    assert_eq!(RoomMetrics::at(1_700_000_000, 0, 0, 0, false, 0).formatted_time(), "1700000000s");
    assert_eq!(
        RoomMetrics::at(u64::MAX, 0, 0, 0, false, 0).formatted_time(),
        format!("{}s", u64::MAX)
    );
}

#[test]
fn door_to_string_names_the_door_state() {
    assert_eq!(sample(20.0, 45.0, 1013.0, true, 50.0).door_to_string(), "Open");
    assert_eq!(sample(20.0, 45.0, 1013.0, false, 50.0).door_to_string(), "Closed");
}

#[test]
fn sql_insert_writes_the_statement() {
    let m = RoomMetrics::at(1234, 0, 0, 0, true, 0);
    assert_eq!(
        m.sql_insert("22.5", "45.0", "1013.0", "50.0"),
        "INSERT INTO metrics (timestamp, temperature, humidity, pressure, door_open, vibration_level) VALUES (1234, 22.5, 45.0, 1013.0, true, 50.0)"
    );
    let m = RoomMetrics::at(0, 0, 0, 0, false, 0);
    assert_eq!(
        m.sql_insert("a", "b", "c", "d"),
        "INSERT INTO metrics (timestamp, temperature, humidity, pressure, door_open, vibration_level) VALUES (0, a, b, c, false, d)"
    );
}

#[test]
fn new_stamps_the_current_time_and_keeps_readings() {
    let before = std::time::SystemTime::now()
        .duration_since(std::time::UNIX_EPOCH)
        .unwrap()
        .as_secs();
    let m = RoomMetrics::new(1, 2, 3, true, 4).expect("clock after the epoch");
    let after = std::time::SystemTime::now()
        .duration_since(std::time::UNIX_EPOCH)
        .unwrap()
        .as_secs();
    assert!(before <= m.timestamp && m.timestamp <= after);
    assert_eq!((m.temperature_bits, m.humidity_bits, m.pressure_bits, m.door_open, m.vibration_level_bits), (1, 2, 3, true, 4));
}

#[test]
fn at_keeps_every_field() {
    let m = RoomMetrics::at(7, 8, 9, 10, false, 11);
    assert_eq!(
        m,
        RoomMetrics {
            timestamp: 7,
            temperature_bits: 8,
            humidity_bits: 9,
            pressure_bits: 10,
            door_open: false,
            vibration_level_bits: 11
        }
    );
}
