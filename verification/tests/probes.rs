use hostprobe::encode::{accepted_text, encode_record};
use hostprobe::placeholder::{placeholder_check, verdict_for, Verdict, MIN_WAIT_SECS, WAIT_LIMIT_SECS};
use hostprobe::probe::{collect_batch, construct_error, process_host_test, Observation};
use hostprobe::record::{ProbeResult, RunTally};
use hostprobe::text::{decimal, incremental_name};
use hostprobe::timing::elapsed_between;

fn observation(target: &str, succeeded: bool, detail: &str, start: u64, end: u64) -> Observation {
    Observation {
        target: target.to_string(),
        succeeded,
        detail: detail.to_string(),
        start,
        end,
    }
}

#[test]
fn failed_probe_keeps_its_diagnostic() {
    let r = construct_error("db-1", 1_000, 32_001_000, "connection refused".to_string());
    assert_eq!(r.target, "db-1");
    assert_eq!(r.outcome, "connection refused");
    assert_eq!(r.elapsed, "32ms");
    assert!(!r.succeeded);
}

#[test]
fn successful_probe_gets_the_success_marker() {
    let r = process_host_test("web-1", true, "ignored".to_string(), 0, 1_500_000_000);
    assert_eq!(
        r,
        ProbeResult {
            target: "web-1".to_string(),
            outcome: "test".to_string(),
            elapsed: "1s 500ms".to_string(),
            succeeded: true,
        }
    );
}

#[test]
fn failed_check_goes_through_the_error_record() {
    let r = process_host_test("web-2", false, "timed out".to_string(), 10, 9_420_000_000_010);
    assert_eq!(r, construct_error("web-2", 10, 9_420_000_000_010, "timed out".to_string()));
    assert_eq!(r.elapsed, "2h 37m");
    assert_eq!(r.outcome, "timed out");
}

#[test]
fn empty_target_is_accepted() {
    let r = process_host_test("", true, String::new(), 7, 7);
    assert_eq!(r.target, "");
    assert_eq!(r.elapsed, "0s");
}

#[test]
fn elapsed_is_never_negative() {
    assert_eq!(elapsed_between(5, 9), 4);
    assert_eq!(elapsed_between(9, 9), 0);
    assert_eq!(elapsed_between(9, 5), 0);
    assert_eq!(elapsed_between(0, u64::MAX), u64::MAX);
    let r = process_host_test("h", true, String::new(), 9, 5);
    assert_eq!(r.elapsed, "0s");
}

#[test]
fn elapsed_text_has_every_unit() {
    let r = process_host_test("h", true, String::new(), 0, 3_661_001_002_003);
    assert_eq!(r.elapsed, "1h 1m 1s 1ms 2us 3ns");
}

#[test]
fn batch_keeps_input_order_whatever_the_completion_order() {
    let batch = vec![
        observation("host1", true, "", 0, 9_000_000_000),
        observation("host2", false, "unreachable", 1, 2_000_000_001),
        observation("host3", true, "", 2, 5_000_000_002),
    ];
    let results = collect_batch(&batch);
    assert_eq!(results.len(), 3);
    let targets: Vec<&str> = results.iter().map(|r| r.target.as_str()).collect();
    assert_eq!(targets, vec!["host1", "host2", "host3"]);
    assert_eq!(results[0].elapsed, "9s");
    assert_eq!(results[1].elapsed, "2s");
    assert_eq!(results[2].elapsed, "5s");
    assert_eq!(results[1].outcome, "unreachable");
    assert!(results[0].succeeded && !results[1].succeeded && results[2].succeeded);
}

#[test]
fn batch_of_nothing_is_empty() {
    let results = collect_batch(&Vec::new());
    assert!(results.is_empty());
}

#[test]
fn batch_has_one_record_per_host() {
    let mut batch = Vec::new();
    for i in 0..250u64 {
        batch.push(observation(&format!("h{}", i), i % 3 == 0, "x", i, i + 1_000_000));
    }
    let results = collect_batch(&batch);
    assert_eq!(results.len(), 250);
    for (i, r) in results.iter().enumerate() {
        assert_eq!(r.target, format!("h{}", i));
        assert_eq!(r.succeeded, i % 3 == 0);
        assert_eq!(r.elapsed, "1ms");
    }
}

#[test]
fn duplicate_is_equal() {
    let r = construct_error("a", 0, 1, "b".to_string());
    assert_eq!(r.duplicate(), r);
}

#[test]
fn tally_counts_each_side() {
    let mut t = RunTally::new();
    assert_eq!(t, RunTally { succeeded: 0, failed: 0 });
    t.record(true);
    t.record(false);
    t.record(true);
    assert_eq!(t, RunTally { succeeded: 2, failed: 1 });
    assert_eq!(t.count(), 3);
}

#[test]
fn decimal_numerals() {
    assert_eq!(decimal(0), "0");
    assert_eq!(decimal(7), "7");
    assert_eq!(decimal(10), "10");
    assert_eq!(decimal(1_234_567_890), "1234567890");
    assert_eq!(decimal(u64::MAX), "18446744073709551615");
}

#[test]
fn output_is_named_after_the_start_time() {
    assert_eq!(incremental_name(1_700_000_000), "incremental_1700000000.json");
    assert_eq!(incremental_name(0), "incremental_0.json");
}

#[test]
fn record_is_encoded_as_a_json_object() {
    let r = construct_error("host \"a\"", 0, 2_000_000_000, "line1\nline2".to_string());
    let text = encode_record(&r).expect("a record of strings is serializable");
    let value: serde_json::Value = serde_json::from_str(&text).expect("valid JSON");
    let object = value.as_object().expect("an object");
    assert_eq!(object.len(), 4);
    assert_eq!(object["target"].as_str(), Some("host \"a\""));
    assert_eq!(object["outcome"].as_str(), Some("line1\nline2"));
    assert_eq!(object["elapsed"].as_str(), Some("2s"));
    assert_eq!(object["succeeded"].as_bool(), Some(false));
}

#[test]
fn record_text_is_pretty_printed() {
    let r = process_host_test("h", true, String::new(), 0, 1_000_000_000);
    let text = encode_record(&r).expect("a record of strings is serializable");
    assert_eq!(
        text,
        "{\n  \"elapsed\": \"1s\",\n  \"outcome\": \"test\",\n  \"succeeded\": true,\n  \"target\": \"h\"\n}"
    );
}

#[test]
fn placeholder_verdict_carries_its_detail() {
    assert_eq!(
        verdict_for(true, 3),
        Verdict { succeeded: true, detail: String::new(), wait_secs: 3 }
    );
    assert_eq!(
        verdict_for(false, 14),
        Verdict { succeeded: false, detail: "Proizoshel trolling".to_string(), wait_secs: 14 }
    );
}

#[test]
fn placeholder_wait_stays_in_bounds() {
    assert_eq!((MIN_WAIT_SECS, WAIT_LIMIT_SECS), (2, 15));
    let mut seen_success = false;
    let mut seen_failure = false;
    for _ in 0..400 {
        let verdict = placeholder_check();
        assert!(verdict.wait_secs >= 2 && verdict.wait_secs < 15);
        if verdict.succeeded {
            assert_eq!(verdict.detail, "");
            seen_success = true;
        } else {
            assert_eq!(verdict.detail, "Proizoshel trolling");
            seen_failure = true;
        }
    }
    assert!(seen_success && seen_failure);
}

#[test]
fn serializer_answer_becomes_text_or_nothing() {
    assert_eq!(accepted_text(Ok("{}".to_string())), Some("{}".to_string()));
    let refusal = serde_json::from_str::<serde_json::Value>("{").unwrap_err();
    assert_eq!(accepted_text(Err(refusal)), None);
}
