use yandex_upd_monitor::settings::{interval_ms, target_address, DEFAULT_INTERVAL_MS};

#[test]
fn target_defaults_to_local_monitor() {
    assert_eq!(target_address(None), "127.0.0.1:8080");
    assert_eq!(target_address(Some("10.0.0.1:9000")), "10.0.0.1:9000");
}

#[test]
fn interval_is_parsed_or_defaulted() {
    assert_eq!(DEFAULT_INTERVAL_MS, 2000);
    assert_eq!(interval_ms(None), 2000);
    assert_eq!(interval_ms(Some("500")), 500);
    assert_eq!(interval_ms(Some("+500")), 500);
    assert_eq!(interval_ms(Some("-500")), 2000);
    assert_eq!(interval_ms(Some("fast")), 2000);
    assert_eq!(interval_ms(Some("")), 2000);
    assert_eq!(interval_ms(Some("18446744073709551616")), 2000);
}

#[test]
fn init_logger_does_nothing_visible() {
    yandex_upd_monitor::init_logger();
    yandex_upd_monitor::init_logger();
}
