use std::time::Duration;

use crosslab_runtime::candidate::{CandidateConfig, TaskRegistry, TerminalFlag};
use crosslab_runtime::command::Command;
use crosslab_runtime::config::EvalConfig;
use crosslab_runtime::error::EvalError;
use crosslab_runtime::metrics::{
    Measurement, MetricKind, Report, ResourceObservations, TransportKind, bytes_per_second, rss_kib_from_status,
};
use crosslab_runtime::text::{parse_u64, parse_usize, str_eq};

#[test]
fn local_command_parses_typed_sample_and_payload_limits() {
    let command = Command::parse(&["local-all", "--samples", "3", "--payload-bytes", "1048576"])
        .expect("typed local command");
    let config = command.eval_config().expect("local evaluation config");

    assert_eq!(config.samples(), 3);
    assert_eq!(config.bulk_payload_bytes(), 1_048_576);
}

#[test]
fn command_without_options_uses_defaults() {
    let command = Command::parse(&["local-quinn"]).unwrap();
    assert_eq!(command, Command::LocalQuinn(EvalConfig::default()));
    let config = command.eval_config().unwrap();
    assert_eq!(config.samples(), 5);
    assert_eq!(config.bulk_payload_bytes(), 4 * 1024 * 1024);
    assert_eq!(config.timeout(), Duration::from_secs(15));
}

#[test]
fn command_errors_follow_the_argument_rules() {
    assert_eq!(Command::parse(&[]), Err(EvalError::InvalidCommand));
    assert_eq!(Command::parse(&["local-nothing"]), Err(EvalError::InvalidCommand));
    assert_eq!(Command::parse(&["local-quinn", "--bogus"]), Err(EvalError::InvalidArgument));
    assert_eq!(Command::parse(&["local-quinn", "--samples"]), Err(EvalError::InvalidArgument));
    assert_eq!(Command::parse(&["local-quinn", "--samples", "x1"]), Err(EvalError::InvalidValue));
    assert_eq!(Command::parse(&["local-quinn", "--samples", "0"]), Err(EvalError::InvalidValue));
    assert_eq!(
        Command::parse(&["local-nothing", "--samples", "-1"]),
        Err(EvalError::InvalidValue)
    );
    assert_eq!(
        Command::parse(&["local-iroh-relay", "--payload-bytes", "+7", "--samples", "2"]),
        Ok(Command::LocalIrohRelay(EvalConfig::with_limits(2, 7).unwrap()))
    );
    assert_eq!(
        Command::parse(&["local-iroh-direct", "--samples", "1", "--samples", "9"]),
        Ok(Command::LocalIrohDirect(EvalConfig::with_limits(9, 4 * 1024 * 1024).unwrap()))
    );
}

#[test]
fn test_config_is_one_small_sample() {
    let config = EvalConfig::test();
    assert_eq!(config.samples(), 1);
    assert_eq!(config.bulk_payload_bytes(), 64 * 1024);
    assert_eq!(config.timeout(), Duration::from_secs(5));
    assert_eq!(EvalConfig::with_limits(0, 1), Err(EvalError::InvalidValue));
    assert_eq!(EvalConfig::with_limits(1, 0), Err(EvalError::InvalidValue));
}

#[test]
fn unsigned_numbers_read_as_std_reads_them() {
    assert_eq!(parse_usize("0"), Some(0));
    assert_eq!(parse_usize("+42"), Some(42));
    assert_eq!(parse_usize("007"), Some(7));
    assert_eq!(parse_usize(""), None);
    assert_eq!(parse_usize("+"), None);
    assert_eq!(parse_usize("-1"), None);
    assert_eq!(parse_usize("12a"), None);
    assert_eq!(parse_usize("18446744073709551615"), Some(usize::MAX));
    assert_eq!(parse_usize("18446744073709551616"), None);
    assert!(str_eq("abc", "abc"));
    assert!(!str_eq("abc", "abd"));
}

#[test]
fn report_tsv_records_reproducibility_header() {
    let config = EvalConfig::test();
    let report = Report::for_run(
        config,
        vec![Measurement::new(
            TransportKind::Quinn,
            MetricKind::ProtectedConnectMicros,
            0,
            42,
        )],
    );
    let output = report.to_tsv("linux", "x86_64");

    for expected in [
        "# os=linux".to_owned(),
        "# arch=x86_64".to_owned(),
        "# rust=1.98.1".to_owned(),
        format!("# samples={}", config.samples()),
        format!("# payload_bytes={}", config.bulk_payload_bytes()),
        "# quinn=0.11.11".to_owned(),
        "# iroh=1.2.0".to_owned(),
        "# rss_kib=-".to_owned(),
        "# fd_count=-".to_owned(),
    ] {
        assert!(output.lines().any(|line| line == expected), "missing {expected}");
    }
    assert!(output.contains("transport\tmetric\tsample\tvalue\n"));
    assert!(output.contains("quinn\tprotected_connect_us\t0\t42\n"));
}

#[test]
fn report_without_run_has_only_rows_in_order() {
    let mut report = Report::new(vec![Measurement::new(
        TransportKind::IrohRelay,
        MetricKind::RelayUpgradeMicros,
        3,
        1234567890123,
    )]);
    report.extend(vec![Measurement::new(
        TransportKind::IrohRelayThenDirect,
        MetricKind::ShutdownMicros,
        10,
        0,
    )]);
    assert_eq!(
        report.to_tsv("os", "arch"),
        "transport\tmetric\tsample\tvalue\niroh_relay\trelay_upgrade_us\t3\t1234567890123\niroh_relay_then_direct\tshutdown_us\t10\t0\n"
    );
    assert!(report.contains(MetricKind::ShutdownMicros));
    assert!(!report.contains(MetricKind::ControlRttMicros));
    assert!(report.contains_transport(TransportKind::IrohRelay));
    assert!(!report.contains_transport(TransportKind::Quinn));
}

#[test]
fn appended_reports_keep_the_first_header_and_record_resources() {
    let mut report = Report::for_run(EvalConfig::test(), Vec::new());
    report.append(Report::new(vec![Measurement::new(
        TransportKind::IrohDirect,
        MetricKind::SessionAuthMicros,
        0,
        7,
    )]));
    report.record_resources(ResourceObservations { rss_kib: Some(2048), fd_count: Some(17) });
    let output = report.to_tsv("linux", "aarch64");
    assert!(output.starts_with("# os=linux\n# arch=aarch64\n"));
    assert!(output.lines().any(|line| line == "# rss_kib=2048"));
    assert!(output.lines().any(|line| line == "# fd_count=17"));
    assert!(output.ends_with("iroh_direct\tsession_auth_us\t0\t7\n"));
    assert!(Measurement::new(TransportKind::Quinn, MetricKind::BulkBytesPerSecond, 0, 1).metric() == MetricKind::BulkBytesPerSecond);
}

#[test]
fn error_messages_match_their_kind() {
    assert_eq!(EvalError::InvalidCommand.message(), "unknown networking evaluation command");
    assert_eq!(EvalError::Timeout.message(), "networking evaluation timed out");
}

#[test]
fn candidate_defaults_match_quinn_semantic_limits() {
    let candidate = CandidateConfig::default();

    assert_eq!(candidate.control_queue_capacity(), 8);
    assert_eq!(candidate.incoming_stream_queue_capacity(), 8);
    assert_eq!(candidate.outgoing_stream_capacity(), 8);
    assert_eq!(candidate.stream_chunk_queue_capacity(), 8);
    assert_eq!(candidate.max_control_frame_bytes(), 256 * 1024 + 4);
    assert_eq!(candidate.max_opening_frame_bytes(), 4 * 1024 + 4);
    assert_eq!(candidate.max_chunk_bytes(), 64 * 1024);
    assert_eq!(candidate.max_concurrent_remote_uni_streams(), 32);
    assert_eq!(candidate.max_concurrent_remote_bi_streams(), 1);
    assert_eq!(candidate.stream_receive_window(), 512 * 1024);
    assert_eq!(candidate.connection_receive_window(), 4 * 1024 * 1024);
    assert_eq!(candidate.idle_timeout(), Duration::from_millis(30_000));
}

#[test]
fn control_limits_replace_only_the_control_limits() {
    let candidate = CandidateConfig::default().with_control_limits(2, 64);
    assert_eq!(candidate.control_queue_capacity(), 2);
    assert_eq!(candidate.max_control_frame_bytes(), 64);
    assert_eq!(candidate.max_chunk_bytes(), 64 * 1024);
}

#[test]
fn task_registry_rejects_spawn_after_shutdown_admission_closes() {
    let mut registry: TaskRegistry<u32> = TaskRegistry::new();
    assert!(registry.close_and_take().is_empty());

    let mut ran = false;
    assert!(!registry.spawn(|| {
        ran = true;
        1
    }));
    assert!(!ran);
}

#[test]
fn task_registry_hands_out_every_spawned_task() {
    let mut registry: TaskRegistry<u32> = TaskRegistry::new();
    assert!(registry.spawn(|| 1));
    assert!(registry.spawn(|| 2));
    assert_eq!(registry.close_and_take(), vec![1, 2]);
    assert!(!registry.spawn(|| 3));
}

#[test]
fn terminal_flag_is_marked_once() {
    let mut flag = TerminalFlag::new();
    assert!(!flag.is_terminal());
    assert!(flag.mark_terminal());
    assert!(!flag.mark_terminal());
    assert!(flag.is_terminal());
}

#[test]
fn u64_text_reads_like_std() {
    assert_eq!(parse_u64("18446744073709551615"), Some(u64::MAX));
    assert_eq!(parse_u64("18446744073709551616"), None);
    assert_eq!(parse_u64("+7"), Some(7));
    assert_eq!(parse_u64(" 7"), None);
}

#[test]
fn resident_set_size_is_read_from_process_status() {
    let status = "Name:\tm9\nVmPeak:\t  9000 kB\nVmRSS:\t   12345 kB\nVmRSS:\t1 kB\n";
    assert_eq!(rss_kib_from_status(status), Some(12345));
    assert_eq!(rss_kib_from_status("VmRSS:\u{3000}77\u{A0}kB"), Some(77));
    assert_eq!(rss_kib_from_status("Name:\tm9\nVmSize:\t10 kB\n"), None);
    assert_eq!(rss_kib_from_status("VmRSS:\t   \nVmRSS:\t5 kB\n"), None);
    assert_eq!(rss_kib_from_status("VmRSS:\tlots kB\n"), None);
    assert_eq!(rss_kib_from_status(" VmRSS:\t5 kB\n"), None);
    assert_eq!(rss_kib_from_status(""), None);
}

#[test]
fn throughput_is_whole_bytes_per_second() {
    assert_eq!(bytes_per_second(4 * 1024 * 1024, 2_000_000_000), 2_097_152);
    assert_eq!(bytes_per_second(3, 2), 1_500_000_000);
    assert_eq!(bytes_per_second(1, 0), 1_000_000_000);
    assert_eq!(bytes_per_second(usize::MAX, 1), usize::MAX as u128 * 1_000_000_000);
}

#[test]
fn run_report_lines_are_header_then_plain_report_lines() {
    let measurements = vec![
        Measurement::new(TransportKind::Quinn, MetricKind::ControlRttMicros, 0, 17),
        Measurement::new(TransportKind::IrohRelay, MetricKind::ShutdownMicros, 1, 9),
    ];
    let plain = Report::new(measurements.clone()).to_tsv("linux", "x86_64");
    let run = Report::for_run(EvalConfig::test(), measurements).to_tsv("linux", "x86_64");
    let plain_lines: Vec<&str> = plain.lines().collect();
    assert_eq!(
        plain_lines,
        vec![
            "transport\tmetric\tsample\tvalue",
            "quinn\tcontrol_rtt_us\t0\t17",
            "iroh_relay\tshutdown_us\t1\t9",
        ]
    );
    let run_lines: Vec<&str> = run.lines().collect();
    assert_eq!(run_lines.len(), 9 + plain_lines.len());
    assert!(run_lines[..9].iter().all(|line| line.starts_with('#')));
    assert_eq!(run_lines[9..].to_vec(), plain_lines);
}
