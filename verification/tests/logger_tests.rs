use yandex_upd_monitor::logger::{Logger, MemoryLogger};

#[test]
fn new_memory_logger_is_empty() {
    let logger = MemoryLogger::new();
    assert!(logger.get_entries().is_empty());
}

#[test]
fn memory_logger_keeps_lines_in_order() {
    let mut logger = MemoryLogger::new();
    logger.log("first");
    logger.log("second");
    logger.log("");
    logger.log("third ✅");
    assert_eq!(logger.get_entries(), vec!["first", "second", "", "third ✅"]);
}

#[test]
fn get_entries_leaves_the_log_unchanged() {
    let mut logger = <MemoryLogger as Logger>::new();
    logger.log("only");
    let a = logger.get_entries();
    let b = logger.get_entries();
    assert_eq!(a, b);
    assert_eq!(a, vec!["only".to_string()]);
}

fn log_all<L: Logger>(logger: &mut L, lines: &[&str]) {
    for line in lines {
        logger.log(line);
    }
}

#[test]
fn memory_logger_through_the_trait() {
    let mut logger: MemoryLogger = Logger::new();
    log_all(&mut logger, &["a", "b"]);
    assert_eq!(logger.get_entries(), vec!["a", "b"]);
}

#[test]
fn memory_logger_entries_only_grow() {
    let mut logger = MemoryLogger::new();
    let mut seen: Vec<Vec<String>> = vec![logger.get_entries()];
    for line in ["one", "two", "two", "three"] {
        logger.log(line);
        seen.push(logger.get_entries());
    }
    for i in 0..seen.len() {
        for j in i..seen.len() {
            assert!(seen[j].starts_with(&seen[i]));
        }
    }
    assert_eq!(seen.last().unwrap(), &vec!["one", "two", "two", "three"]);
}
