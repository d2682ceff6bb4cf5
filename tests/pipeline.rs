use call_export::batch::Batch;
use call_export::fetch::{is_success, on_existing, on_reply, on_written, Action, FetchError, Reply};
use call_export::manifest::{field, parse_table, resolve_column, ManifestError};
use call_export::plan::{
    audio_tasks_from_csv, build_tasks, has_distinct_destinations, transcript_tasks_from_csv,
};
use call_export::task::{
    build_audio_url, build_destination, build_task, build_transcript_url, normalize_filename,
    ArtifactKind, DownloadTask,
};

fn strings(v: &[&str]) -> Vec<String> {
    v.iter().map(|s| s.to_string()).collect()
}

fn transcript_task() -> DownloadTask {
    build_task(ArtifactKind::Transcript, "http://api", "c1", "2024 01 01", "K")
}

#[test]
fn filename_spaces_become_underscores() {
    assert_eq!(normalize_filename("2024 01 01"), "2024_01_01");
    assert_eq!(normalize_filename("  a b  "), "__a_b__");
    assert_eq!(normalize_filename(""), "");
    assert_eq!(normalize_filename("no-spaces"), "no-spaces");
}

#[test]
fn urls_carry_the_api_key() {
    assert_eq!(build_audio_url("http://x/a", "K"), "http://x/a?apikey=K");
    assert_eq!(build_transcript_url("http://api", "c1", "K"), "http://api/c1?apikey=K");
}

#[test]
fn destinations_by_kind() {
    assert_eq!(build_destination(ArtifactKind::Audio, "2024 01 01"), "export/2024_01_01.mp3");
    assert_eq!(
        build_destination(ArtifactKind::Transcript, "2024 01 01"),
        "export/transcripts/2024_01_01.json"
    );
}

#[test]
fn audio_manifest_scenario() {
    let data = b"recording_url,date\nhttp://x/a,2024 01 01\nhttp://x/b,2024 01 02\n";
    let tasks = audio_tasks_from_csv(data, "K", "recording_url", "date").unwrap();
    assert_eq!(tasks.len(), 2);
    assert_eq!(tasks[0].request_url, "http://x/a?apikey=K");
    assert_eq!(tasks[0].destination, "export/2024_01_01.mp3");
    assert_eq!(tasks[0].kind, ArtifactKind::Audio);
    assert_eq!(tasks[1].request_url, "http://x/b?apikey=K");
    assert_eq!(tasks[1].destination, "export/2024_01_02.mp3");
}

#[test]
fn transcript_task_scenario() {
    let data = b"call_id,date\nc1,2024 01 01\n";
    let tasks = transcript_tasks_from_csv(data, "K", "http://api", "call_id", "date").unwrap();
    assert_eq!(tasks.len(), 1);
    assert_eq!(tasks[0].request_url, "http://api/c1?apikey=K");
    assert_eq!(tasks[0].destination, "export/transcripts/2024_01_01.json");
    assert_eq!(tasks[0].kind, ArtifactKind::Transcript);
}

#[test]
fn columns_may_stand_in_any_order() {
    let data = b"date,other,recording_url\n2024 01 01,z,http://x/a\n";
    let tasks = audio_tasks_from_csv(data, "K", "recording_url", "date").unwrap();
    assert_eq!(tasks.len(), 1);
    assert_eq!(tasks[0].request_url, "http://x/a?apikey=K");
    assert_eq!(tasks[0].destination, "export/2024_01_01.mp3");
}

#[test]
fn missing_filename_column_fails_the_manifest() {
    let data = b"recording_url,day\nhttp://x/a,2024 01 01\n";
    match audio_tasks_from_csv(data, "K", "recording_url", "date") {
        Err(ManifestError::MissingColumn(name)) => assert_eq!(name, "date"),
        other => panic!("unexpected {:?}", other),
    }
}

#[test]
fn missing_key_column_is_reported_first() {
    let data = b"x,y\n1,2\n";
    match transcript_tasks_from_csv(data, "K", "http://api", "call_id", "date") {
        Err(ManifestError::MissingColumn(name)) => assert_eq!(name, "call_id"),
        other => panic!("unexpected {:?}", other),
    }
}

#[test]
fn unreadable_header_is_malformed() {
    let data = b"\xff\xfe,date\nhttp://x/a,2024\n";
    assert!(matches!(
        audio_tasks_from_csv(data, "K", "recording_url", "date"),
        Err(ManifestError::Malformed)
    ));
}

#[test]
fn unreadable_rows_are_skipped() {
    let data = b"recording_url,date\nhttp://x/a,d1\nonly-one-field\nhttp://x/c,d3\n";
    let tasks = audio_tasks_from_csv(data, "K", "recording_url", "date").unwrap();
    assert_eq!(tasks.len(), 2);
    assert_eq!(tasks[0].request_url, "http://x/a?apikey=K");
    assert_eq!(tasks[1].request_url, "http://x/c?apikey=K");
    assert_eq!(tasks[1].destination, "export/d3.mp3");
}

#[test]
fn header_only_manifest_gives_no_tasks() {
    let data = b"recording_url,date\n";
    let tasks = audio_tasks_from_csv(data, "K", "recording_url", "date").unwrap();
    assert!(tasks.is_empty());
}

#[test]
fn parse_keeps_headers_and_rows() {
    let table = parse_table(b"a,b\n1,2\n3,4\n").unwrap();
    assert_eq!(table.headers, strings(&["a", "b"]));
    assert_eq!(table.rows, vec![strings(&["1", "2"]), strings(&["3", "4"])]);
}

#[test]
fn resolve_column_finds_first_match() {
    let headers = strings(&["a", "b", "b"]);
    assert_eq!(resolve_column(&headers, "b").unwrap(), 1);
    match resolve_column(&headers, "c") {
        Err(ManifestError::MissingColumn(name)) => assert_eq!(name, "c"),
        other => panic!("unexpected {:?}", other),
    }
}

#[test]
fn short_row_reads_empty_field() {
    let row = strings(&["x"]);
    assert_eq!(field(&row, 0), "x");
    assert_eq!(field(&row, 3), "");
}

#[test]
fn build_tasks_reads_missing_fields_as_empty() {
    let table = call_export::manifest::Table {
        headers: strings(&["call_id", "date"]),
        rows: vec![strings(&["c9"])],
    };
    let tasks = build_tasks(&table, ArtifactKind::Transcript, "http://api", "K", "call_id", "date")
        .unwrap();
    assert_eq!(tasks[0].request_url, "http://api/c9?apikey=K");
    assert_eq!(tasks[0].destination, "export/transcripts/.json");
}

#[test]
fn existing_destination_skips_the_request() {
    match on_existing(&transcript_task(), Some(42)) {
        Action::Finish(Err(FetchError::AlreadyExists { existing_size })) => {
            assert_eq!(existing_size, 42)
        }
        other => panic!("unexpected {:?}", other),
    }
}

#[test]
fn absent_destination_requests_once() {
    match on_existing(&transcript_task(), None) {
        Action::Get { url, accept_json } => {
            assert_eq!(url, "http://api/c1?apikey=K");
            assert!(accept_json);
        }
        other => panic!("unexpected {:?}", other),
    }
    let audio = build_task(ArtifactKind::Audio, "", "http://x/a", "d", "K");
    match on_existing(&audio, None) {
        Action::Get { url, accept_json } => {
            assert_eq!(url, "http://x/a?apikey=K");
            assert!(!accept_json);
        }
        other => panic!("unexpected {:?}", other),
    }
}

#[test]
fn error_status_writes_nothing() {
    for status in [500u16, 404, 199, 300] {
        let reply = Reply::Received { status, body: vec![1, 2, 3] };
        match on_reply(&transcript_task(), reply) {
            Action::Finish(Err(FetchError::HttpStatus { code })) => assert_eq!(code, status),
            other => panic!("unexpected {:?}", other),
        }
    }
}

#[test]
fn success_body_is_written_unchanged() {
    for status in [200u16, 204, 299] {
        let body = vec![0u8, 255, 10, 13, 7];
        match on_reply(&transcript_task(), Reply::Received { status, body: body.clone() }) {
            Action::Write { path, body: written } => {
                assert_eq!(path, "export/transcripts/2024_01_01.json");
                assert_eq!(written, body);
            }
            other => panic!("unexpected {:?}", other),
        }
    }
}

#[test]
fn failed_request_is_a_network_error() {
    assert!(matches!(
        on_reply(&transcript_task(), Reply::Failed),
        Action::Finish(Err(FetchError::Network))
    ));
}

#[test]
fn write_outcome() {
    assert_eq!(on_written(true), Ok(()));
    assert_eq!(on_written(false), Err(FetchError::Io));
}

#[test]
fn success_statuses() {
    assert!(is_success(200));
    assert!(is_success(299));
    assert!(!is_success(199));
    assert!(!is_success(300));
    assert!(!is_success(500));
}

#[test]
fn batch_counts_one_outcome_per_task_in_any_order() {
    let mut batch = Batch::new(4);
    assert_eq!(batch.len(), 4);
    assert_eq!(batch.completed(), 0);
    for i in [2usize, 0, 3, 1] {
        batch.record(i, Ok(()));
    }
    assert!(batch.is_done());
    assert_eq!(batch.completed(), 4);
    assert_eq!(batch.succeeded(), 4);
}

#[test]
fn one_failure_among_ten_leaves_nine_successes() {
    let mut batch = Batch::new(10);
    for i in [9usize, 3, 0, 7, 1, 5, 8, 2, 6, 4] {
        let outcome = if i == 5 {
            on_reply(&transcript_task(), Reply::Received { status: 500, body: vec![] })
        } else {
            Action::Finish(on_written(true))
        };
        match outcome {
            Action::Finish(r) => batch.record(i, r),
            other => panic!("unexpected {:?}", other),
        }
    }
    assert!(batch.is_done());
    assert_eq!(batch.succeeded(), 9);
    assert_eq!(batch.outcome(5), Some(Err(FetchError::HttpStatus { code: 500 })));
    assert_eq!(batch.outcome(4), Some(Ok(())));
}

#[test]
fn incomplete_batch_is_not_done() {
    let mut batch = Batch::new(3);
    batch.record(1, Err(FetchError::Network));
    assert!(!batch.is_done());
    assert_eq!(batch.completed(), 1);
    assert_eq!(batch.succeeded(), 0);
    assert_eq!(batch.outcome(0), None);
}

#[test]
fn distinct_file_names_give_distinct_destinations() {
    let data = b"recording_url,date\nhttp://x/a,2024 01 01\nhttp://x/b,2024 01 02\n";
    let tasks = audio_tasks_from_csv(data, "K", "recording_url", "date").unwrap();
    assert!(has_distinct_destinations(&tasks));
    assert!(has_distinct_destinations(&Vec::new()));
}

#[test]
fn names_equal_after_normalising_collide() {
    let data = b"recording_url,date\nhttp://x/a,2024 01 01\nhttp://x/b,2024_01_01\n";
    let tasks = audio_tasks_from_csv(data, "K", "recording_url", "date").unwrap();
    assert_eq!(tasks.len(), 2);
    assert!(!has_distinct_destinations(&tasks));
}
