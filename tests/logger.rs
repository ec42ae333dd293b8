use udp_logger::{format_line, now_rfc3339, stamp_at, Delivery, DrainCycle, Level, MessageQueue, UdpLogger};

fn sent_line(d: Delivery) -> String {
    match d {
        Delivery::Send(line) => line,
        other => panic!("expected a line to send, got {:?}", other),
    }
}

fn run_cycle(cycle: &mut DrainCycle, fail_on: usize) -> Vec<String> {
    let mut attempted = Vec::new();
    while let Some(m) = cycle.next_message() {
        let n = attempted.len() + 1;
        attempted.push(m);
        cycle.record(n != fail_on);
    }
    attempted
}

#[test]
fn test_new() {
    UdpLogger::new().set_level(Level::Debug);
}

#[test]
fn test_message_queue() {
    let mut logger = UdpLogger::new();
    logger.set_level(Level::Debug);
    let line = sent_line(logger.log(Level::Info, "testing"));
    assert!(line.starts_with("INFO ["));
    assert!(line.ends_with("] testing\n"));
}

#[test]
fn set_level_returns_the_logger_for_chaining() {
    let mut logger = UdpLogger::new_buffered();
    let level = logger.set_level(Level::Warn).level();
    assert_eq!(level, Level::Warn);
    assert_eq!(logger.level(), Level::Warn);
    assert!(logger.is_buffered());
}

#[test]
fn new_loggers_default_to_info() {
    assert_eq!(UdpLogger::new().level(), Level::Info);
    assert_eq!(UdpLogger::new_buffered().level(), Level::Info);
    assert!(!UdpLogger::new().is_buffered());
    assert_eq!(UdpLogger::new_buffered().pending_len(), 0);
}

#[test]
fn format_line_exact() {
    let line = format_line(Level::Warn, "2024-01-02T03:04:05+00:00", "disk low");
    assert_eq!(line, "WARN [2024-01-02T03:04:05+00:00] disk low\n");
    assert_eq!(format_line(Level::Error, "", ""), "ERROR [] \n");
}

#[test]
fn level_names() {
    assert_eq!(Level::Error.as_str(), "ERROR");
    assert_eq!(Level::Warn.as_str(), "WARN");
    assert_eq!(Level::Info.as_str(), "INFO");
    assert_eq!(Level::Debug.as_str(), "DEBUG");
    assert_eq!(Level::Trace.as_str(), "TRACE");
}

#[test]
fn level_severity_order() {
    assert!(Level::Error.is_at_least(Level::Info));
    assert!(Level::Info.is_at_least(Level::Info));
    assert!(!Level::Debug.is_at_least(Level::Info));
    assert!(!Level::Trace.is_at_least(Level::Debug));
    assert!(Level::Error.is_at_least(Level::Error));
    assert!(!Level::Warn.is_at_least(Level::Error));
    assert_eq!(Level::Error.rank_of(), 1);
    assert_eq!(Level::Trace.rank_of(), 5);
}

#[test]
fn enabled_follows_threshold() {
    let mut logger = UdpLogger::new();
    assert!(logger.enabled(Level::Error));
    assert!(logger.enabled(Level::Warn));
    assert!(logger.enabled(Level::Info));
    assert!(!logger.enabled(Level::Debug));
    assert!(!logger.enabled(Level::Trace));
    logger.set_level(Level::Error);
    assert!(logger.enabled(Level::Error));
    assert!(!logger.enabled(Level::Warn));
    logger.set_level(Level::Trace);
    assert!(logger.enabled(Level::Trace));
}

#[test]
fn debug_event_below_info_never_reaches_the_writer() {
    let mut logger = UdpLogger::new_buffered();
    assert_eq!(logger.log_at(Level::Debug, "ts", "hidden"), Delivery::Filtered);
    assert_eq!(logger.log(Level::Trace, "hidden"), Delivery::Filtered);
    assert_eq!(logger.pending_len(), 0);
    let mut unbuffered = UdpLogger::new();
    assert_eq!(unbuffered.log(Level::Debug, "hidden"), Delivery::Filtered);
}

#[test]
fn unbuffered_logger_returns_the_line_to_send() {
    let mut logger = UdpLogger::new();
    let d = logger.log_at(Level::Error, "2024-01-02T03:04:05+00:00", "boom");
    assert_eq!(d, Delivery::Send("ERROR [2024-01-02T03:04:05+00:00] boom\n".to_string()));
    assert_eq!(logger.pending_len(), 0);
    assert_eq!(logger.drain().batch_len(), 0);
}

#[test]
fn log_stamps_lines_with_rfc3339_time() {
    let mut logger = UdpLogger::new();
    let line = sent_line(logger.log(Level::Info, "hello"));
    let open = line.find('[').expect("an opening bracket");
    let close = line.find(']').expect("a closing bracket");
    assert_eq!(&line[..open], "INFO ");
    assert_eq!(&line[close..], "] hello\n");
    let stamp = &line[open + 1..close];
    assert!(!stamp.is_empty());
    assert!(chrono::DateTime::parse_from_rfc3339(stamp).is_ok());
}

#[test]
fn buffered_logger_queues_in_order() {
    let mut logger = UdpLogger::new_buffered();
    assert_eq!(logger.log_at(Level::Info, "t1", "one"), Delivery::Queued);
    assert_eq!(logger.log_at(Level::Warn, "t2", "two"), Delivery::Queued);
    assert_eq!(logger.log_at(Level::Debug, "t3", "dropped"), Delivery::Filtered);
    assert_eq!(logger.log_at(Level::Error, "t4", "three"), Delivery::Queued);
    assert_eq!(logger.pending_len(), 3);
    let mut cycle = logger.drain();
    assert_eq!(logger.pending_len(), 0);
    let sent = run_cycle(&mut cycle, 0);
    assert_eq!(sent, vec!["INFO [t1] one\n", "WARN [t2] two\n", "ERROR [t4] three\n"]);
}

#[test]
fn queue_drains_in_fifo_order() {
    let mut q = MessageQueue::new();
    let msgs: Vec<String> = (0..10).map(|i| format!("message {}", i)).collect();
    for m in &msgs {
        q.enqueue(m.clone());
    }
    assert_eq!(q.len(), 10);
    assert_eq!(q.drain_all(), msgs);
    assert!(q.is_empty());
}

#[test]
fn drain_of_empty_queue_is_empty_and_idempotent() {
    let mut q = MessageQueue::new();
    assert!(q.drain_all().is_empty());
    assert!(q.drain_all().is_empty());
    assert_eq!(q.len(), 0);
    q.enqueue("x".to_string());
    assert_eq!(q.drain_all(), vec!["x".to_string()]);
    assert!(q.drain_all().is_empty());
    let mut logger = UdpLogger::new_buffered();
    assert_eq!(logger.drain().batch_len(), 0);
    assert_eq!(logger.drain().batch_len(), 0);
}

#[test]
fn interleaved_enqueues_lose_nothing() {
    let queue = std::sync::Mutex::new(MessageQueue::new());
    for m in 0..25 {
        for k in 0..4 {
            queue.lock().unwrap().enqueue(format!("{}-{}", k, m));
        }
    }
    let mut drained = queue.lock().unwrap().drain_all();
    assert_eq!(drained.len(), 100);
    assert_eq!(drained[0], "0-0");
    assert_eq!(drained[5], "1-1");
    drained.sort();
    drained.dedup();
    assert_eq!(drained.len(), 100);
}

#[test]
fn failed_send_does_not_abort_the_batch() {
    let mut logger = UdpLogger::new_buffered();
    logger.log_at(Level::Info, "t", "first");
    logger.log_at(Level::Info, "t", "second");
    logger.log_at(Level::Info, "t", "third");
    let mut cycle = logger.drain();
    let attempted = run_cycle(&mut cycle, 2);
    assert_eq!(attempted, vec!["INFO [t] first\n", "INFO [t] second\n", "INFO [t] third\n"]);
    assert!(cycle.is_done());
    assert_eq!(cycle.attempted_len(), 3);
    assert!(cycle.next_message().is_none());
}

#[test]
fn drain_cycle_steps() {
    let mut cycle = DrainCycle::new(vec!["a".to_string(), "b".to_string()]);
    assert_eq!(cycle.batch_len(), 2);
    assert!(!cycle.is_done());
    assert_eq!(cycle.next_message(), Some("a".to_string()));
    cycle.record(false);
    assert_eq!(cycle.next_message(), Some("b".to_string()));
    cycle.record(true);
    assert!(cycle.is_done());
    assert_eq!(cycle.next_message(), None);
    let empty = DrainCycle::new(Vec::new());
    assert!(empty.is_done());
}

#[test]
fn now_rfc3339_is_a_utc_time() {
    let stamp = now_rfc3339().expect("the clock reads after the Unix epoch");
    assert!(stamp.len() >= 25);
    assert!(stamp.ends_with("+00:00"));
    assert_eq!(stamp.as_bytes()[10], b'T');
    assert!(stamp
        .chars()
        .all(|c| c.is_ascii_digit() || "-+T:.".contains(c)));
    let parsed = chrono::DateTime::parse_from_rfc3339(&stamp).expect("RFC 3339 text");
    assert!(parsed.timestamp() > 1_600_000_000);
}

#[test]
fn log_line_carries_a_utc_stamp() {
    let mut logger = UdpLogger::new_buffered();
    assert_eq!(logger.log(Level::Info, "hello"), Delivery::Queued);
    let mut cycle = logger.drain();
    let line = cycle.next_message().expect("one queued line");
    assert!(line.starts_with("INFO ["));
    assert!(line.ends_with("+00:00] hello\n"));
    let stamp = &line["INFO [".len()..line.len() - "] hello\n".len()];
    assert!(chrono::DateTime::parse_from_rfc3339(stamp).is_ok());
    cycle.record(true);
    assert!(cycle.is_done());
}

#[test]
fn stamp_at_exact_values() {
    assert_eq!(stamp_at(0, 0), Some("1970-01-01T00:00:00+00:00".to_string()));
    assert_eq!(
        stamp_at(1_431_648_000, 500_000_000),
        Some("2015-05-15T00:00:00.500+00:00".to_string())
    );
    assert_eq!(
        stamp_at(253_402_300_799, 999_999_999),
        Some("9999-12-31T23:59:59.999999999+00:00".to_string())
    );
}

#[test]
fn stamp_at_out_of_range() {
    assert_eq!(stamp_at(u64::MAX, 0), None);
    assert_eq!(stamp_at(i64::MAX as u64 + 1, 0), None);
    assert_eq!(stamp_at(i64::MAX as u64, 0), None);
    assert_eq!(stamp_at(0, 1_500_000_000), None);
}
