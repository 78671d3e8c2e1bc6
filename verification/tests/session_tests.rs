use process_logger::LoopError;
use process_logger::ProcessSample;
use process_logger::RunConfig;
use process_logger::TickInput;
use process_logger::encode_tick;
use process_logger::render_tick;
use process_logger::run_session;

fn config(interval_seconds: u64, max_duration_seconds: u64) -> RunConfig {
    RunConfig {
        interval_seconds,
        output_path: String::from("process_usage.csv"),
        max_duration_seconds,
    }
}

fn sample(pid: u64, name: &str, cpu: u64, mem: u64) -> ProcessSample {
    ProcessSample {
        pid,
        name: String::from(name),
        cpu_hundredths: cpu,
        memory_hundredths: mem,
    }
}

fn clean_tick(elapsed_seconds: u64, timestamp: &str, samples: Vec<ProcessSample>) -> TickInput {
    TickInput {
        elapsed_seconds,
        cancel_requested: false,
        timestamp: String::from(timestamp),
        samples,
        write_error: None,
        flush_error: None,
    }
}

const HEADER: &str = "Timestamp,PID,Process Name,CPU Usage (%),Memory Usage (%)\n";

#[test]
fn test_zero_duration_yields_header_only() {
    let ticks = vec![clean_tick(0, "2024-01-01T12:00:00+00:00", vec![sample(1, "init", 50, 123)])];
    let r = run_session(&config(1, 0), &None, &ticks);
    assert_eq!(r.output, HEADER);
    assert_eq!(r.output.lines().count(), 1);
    assert_eq!(r.ticks_completed, 0);
    assert!(r.outcome.is_ok());
}

#[test]
fn test_cancel_before_first_check_yields_header_only() {
    let mut tick = clean_tick(0, "2024-01-01T12:00:00+00:00", vec![sample(1, "init", 50, 123)]);
    tick.cancel_requested = true;
    let r = run_session(&config(1, 60), &None, &vec![tick]);
    assert_eq!(r.output, HEADER);
    assert_eq!(r.ticks_completed, 0);
    assert!(r.outcome.is_ok());
}

#[test]
fn test_log_processes() {
    let ticks = vec![clean_tick(
        0,
        "2024-01-01T12:00:00+00:00",
        vec![sample(1234, "some-process", 50, 123)],
    )];
    let r = run_session(&config(1, 60), &None, &ticks);
    assert!(r.outcome.is_ok(), "Failed to log processes");
    let lines: Vec<&str> = r.output.lines().collect();
    assert!(lines.len() > 1, "No process data logged");
    assert_eq!(lines[1], "2024-01-01T12:00:00+00:00,1234,some-process,0.50,1.23");
}

#[test]
fn test_rows_of_one_tick_share_its_timestamp() {
    let ticks = vec![
        clean_tick(
            0,
            "2024-01-01T12:00:00+00:00",
            vec![sample(1, "a", 0, 0), sample(2, "b", 1, 2), sample(3, "c", 10, 20)],
        ),
        clean_tick(1, "2024-01-01T12:00:01+00:00", vec![sample(1, "a", 0, 0), sample(2, "b", 1, 2)]),
    ];
    let r = run_session(&config(1, 60), &None, &ticks);
    let lines: Vec<&str> = r.output.lines().collect();
    assert_eq!(lines.len(), 1 + 3 + 2);
    for line in &lines[1..4] {
        assert_eq!(line.split(',').next().unwrap(), "2024-01-01T12:00:00+00:00");
    }
    for line in &lines[4..6] {
        assert_eq!(line.split(',').next().unwrap(), "2024-01-01T12:00:01+00:00");
    }
}

#[test]
fn test_three_second_budget_completes_one_to_four_ticks() {
    let mut ticks = Vec::new();
    for elapsed in 0..6u64 {
        ticks.push(clean_tick(elapsed, "2024-01-01T12:00:00+00:00", vec![sample(9, "p", 0, 0)]));
    }
    let r = run_session(&config(1, 3), &None, &ticks);
    assert!(r.outcome.is_ok());
    assert!(r.ticks_completed >= 1, "a three second budget runs at least one tick");
    assert!(r.ticks_completed <= 4, "a three second budget runs at most four ticks");
    assert_eq!(r.ticks_completed, 3);
    assert_eq!(r.output.lines().count(), 4);
    assert_eq!(r.output.lines().next().unwrap(), HEADER.trim_end());
}

#[test]
fn test_header_write_failure_reported() {
    let ticks = vec![clean_tick(0, "t", vec![sample(1, "a", 0, 0)])];
    let r = run_session(&config(1, 60), &Some(String::from("permission denied")), &ticks);
    assert_eq!(r.output, "");
    assert_eq!(r.ticks_completed, 0);
    match r.outcome {
        Err(LoopError::HeaderWrite { cause }) => assert_eq!(cause, "permission denied"),
        _ => panic!("expected a header-write error"),
    }
}

#[test]
fn test_write_failure_on_first_data_write_stops_run() {
    let mut first = clean_tick(0, "2024-01-01T12:00:00+00:00", vec![sample(1, "a", 0, 0)]);
    first.write_error = Some(String::from("disk full"));
    let later = clean_tick(1, "2024-01-01T12:00:01+00:00", vec![sample(2, "b", 0, 0)]);
    let r = run_session(&config(1, 60), &None, &vec![first, later]);
    assert_eq!(r.output, HEADER, "a failed tick leaves nothing in the file");
    assert_eq!(r.ticks_completed, 0);
    match r.outcome {
        Err(LoopError::RowWrite { cause }) => assert_eq!(cause, "disk full"),
        _ => panic!("expected a row-write error"),
    }
}

#[test]
fn test_write_failure_on_second_tick_keeps_first_tick_only() {
    let first = clean_tick(0, "2024-01-01T12:00:00+00:00", vec![sample(1, "a", 25, 50)]);
    let mut second = clean_tick(1, "2024-01-01T12:00:01+00:00", vec![sample(2, "b", 0, 0)]);
    second.write_error = Some(String::from("broken pipe"));
    let third = clean_tick(2, "2024-01-01T12:00:02+00:00", vec![sample(3, "c", 0, 0)]);
    let r = run_session(&config(1, 60), &None, &vec![first, second, third]);
    assert_eq!(r.ticks_completed, 1, "no further ticks after the failure");
    assert_eq!(r.output.lines().count(), 2);
    assert!(matches!(r.outcome, Err(LoopError::RowWrite { .. })));
}

#[test]
fn test_flush_failure_reported() {
    let mut first = clean_tick(0, "2024-01-01T12:00:00+00:00", vec![sample(1, "a", 0, 0)]);
    first.flush_error = Some(String::from("device gone"));
    let r = run_session(&config(1, 60), &None, &vec![first]);
    assert_eq!(r.output, HEADER);
    assert_eq!(r.ticks_completed, 0);
    match r.outcome {
        Err(LoopError::Flush { cause }) => assert_eq!(cause, "device gone"),
        _ => panic!("expected a flush error"),
    }
}

#[test]
fn test_exhausted_inputs_complete_normally() {
    let r = run_session(&config(1, 60), &None, &Vec::new());
    assert_eq!(r.output, HEADER);
    assert_eq!(r.ticks_completed, 0);
    assert!(r.outcome.is_ok());
}

#[test]
fn test_rows_parse_back_with_five_fields() {
    let samples = vec![
        sample(1234, "some-process", 50, 123),
        sample(7, "weird,name", 0, 5),
        sample(8, "quoted\"name", 12345, 10000),
        sample(9, "multi\nline", 1, 2),
    ];
    let rows = encode_tick("2024-01-01T12:00:00+00:00", &samples);
    let mut reader = csv::ReaderBuilder::new().has_headers(false).from_reader(rows.as_bytes());
    let mut n = 0;
    for (i, record) in reader.records().enumerate() {
        let record = record.expect("every data row parses back");
        assert_eq!(record.len(), 5, "every data row has exactly five fields");
        assert_eq!(&record[0], "2024-01-01T12:00:00+00:00");
        assert_eq!(&record[2], &samples[i].name as &str, "the name survives quoting");
        let pid: u64 = record[1].parse().expect("the PID parses as a non-negative integer");
        assert_eq!(pid, samples[i].pid);
        for field in [&record[3], &record[4]] {
            let v: f64 = field.parse().expect("the percentage parses as a float");
            assert!(v.is_finite() && v >= 0.0);
            let (_, decimals) = field.split_once('.').expect("a decimal point");
            assert_eq!(decimals.len(), 2, "exactly two decimal digits");
        }
        n += 1;
    }
    assert_eq!(n, 4);
}

#[test]
fn test_header_parses_back_as_five_titles() {
    let ticks = vec![clean_tick(0, "2024-01-01T12:00:00+00:00", vec![sample(1, "a", 0, 0)])];
    let r = run_session(&config(1, 60), &None, &ticks);
    let mut reader = csv::Reader::from_reader(r.output.as_bytes());
    let headers = reader.headers().expect("the header parses").clone();
    assert_eq!(headers.len(), 5);
    assert_eq!(&headers[0], "Timestamp");
    assert_eq!(&headers[1], "PID");
    assert_eq!(&headers[2], "Process Name");
    assert_eq!(&headers[3], "CPU Usage (%)");
    assert_eq!(&headers[4], "Memory Usage (%)");
}

#[test]
fn test_render_tick_timestamp_is_rfc3339() {
    let samples = vec![sample(42, "clock-user", 100, 200)];
    let (timestamp, rows) = render_tick(&samples);
    chrono::DateTime::parse_from_rfc3339(&timestamp).expect("a current RFC 3339 timestamp");
    let line = rows.lines().next().expect("one row");
    assert!(line.starts_with(&timestamp));
    assert!(line.ends_with(",42,clock-user,1.00,2.00"));
}
