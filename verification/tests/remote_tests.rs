use loggify::Aws;
use loggify::AwsBuilder;
use loggify::RemoteAppendError;
use loggify::RemoteGroup;
use loggify::RemoteProvisionError;
use loggify::StreamInfo;

fn handle() -> Aws {
    Aws::new(
        String::from("eu-central-1"),
        String::from("loggify"),
        String::from("stream_1"),
    )
}

fn group() -> RemoteGroup {
    RemoteGroup { name: String::from("loggify"), streams: Vec::new() }
}

#[test]
fn create_provisions_an_empty_stream() {
    let aws = handle();
    let mut g = group();
    aws.create_log_stream(&mut g).unwrap();
    assert_eq!(g.streams.len(), 1);
    assert_eq!(g.streams[0].name, "stream_1");
    assert_eq!(g.streams[0].events.len(), 0);
    assert_eq!(g.streams[0].token, 0);
}

#[test]
fn create_rejects_a_taken_name() {
    let aws = handle();
    let mut g = group();
    aws.create_log_stream(&mut g).unwrap();
    let second = aws.create_log_stream(&mut g);
    assert_eq!(second, Err(RemoteProvisionError::StreamAlreadyExists));
    assert_eq!(g.streams.len(), 1);
}

#[test]
fn sequential_puts_chain_their_tokens() {
    let aws = handle();
    let mut g = group();
    aws.create_log_stream(&mut g).unwrap();
    // Each call re-reads the stream listing; with no other writer the
    // observed token is exactly the one the previous call returned.
    let t1 = aws.put_log(&mut g, String::from("first"), 1000).unwrap();
    assert_eq!(t1, 1);
    assert_eq!(g.streams[0].token, 1);
    let t2 = aws.put_log(&mut g, String::from("second"), 2000).unwrap();
    assert_eq!(t2, 2);
    let t3 = aws.put_log(&mut g, String::from("third"), 3000).unwrap();
    assert_eq!(t3, 3);
    let events = &g.streams[0].events;
    assert_eq!(events.len(), 3);
    assert_eq!(events[0].message, "first");
    assert_eq!(events[0].timestamp, 1000);
    assert_eq!(events[2].message, "third");
    assert_eq!(events[2].timestamp, 3000);
}

#[test]
fn put_log_rejects_a_missing_stream() {
    let aws = handle();
    let mut g = group();
    let r = aws.put_log(&mut g, String::from("lost"), 1000);
    assert_eq!(r, Err(RemoteAppendError::StreamNotFound));
}

#[test]
fn stale_token_is_rejected_and_changes_nothing() {
    let aws = handle();
    let mut g = group();
    aws.create_log_stream(&mut g).unwrap();
    aws.put_log(&mut g, String::from("first"), 1000).unwrap();
    // A second writer that read the token before the append now holds a
    // stale one: the service rejects it.
    let stale = g.put_events("stream_1", 0, 2000, String::from("late"));
    assert_eq!(stale, Err(RemoteAppendError::InvalidSequenceToken));
    assert_eq!(g.streams[0].events.len(), 1);
    assert_eq!(g.streams[0].token, 1);
}

#[test]
fn put_events_accepts_the_current_token() {
    let aws = handle();
    let mut g = group();
    aws.create_log_stream(&mut g).unwrap();
    let next = g.put_events("stream_1", 0, 500, String::from("direct")).unwrap();
    assert_eq!(next, 1);
    assert_eq!(g.streams[0].events[0].message, "direct");
}

#[test]
fn select_stream_token_picks_the_named_entry() {
    let streams = vec![
        StreamInfo {
            log_stream_name: Some(String::from("other")),
            upload_sequence_token: Some(String::from("t-other")),
        },
        StreamInfo { log_stream_name: None, upload_sequence_token: None },
        StreamInfo {
            log_stream_name: Some(String::from("mine")),
            upload_sequence_token: Some(String::from("t-mine")),
        },
    ];
    let token = loggify::select_stream_token(&streams, "mine");
    assert_eq!(token, Some(Some(String::from("t-mine"))));
}

#[test]
fn select_stream_token_reports_a_fresh_stream_without_token() {
    let streams = vec![StreamInfo {
        log_stream_name: Some(String::from("fresh")),
        upload_sequence_token: None,
    }];
    assert_eq!(loggify::select_stream_token(&streams, "fresh"), Some(None));
}

#[test]
fn select_stream_token_reports_a_missing_stream() {
    let streams = vec![StreamInfo {
        log_stream_name: Some(String::from("other")),
        upload_sequence_token: Some(String::from("t")),
    }];
    assert_eq!(loggify::select_stream_token(&streams, "mine"), None);
}

#[test]
fn stream_names_get_a_milliseconds_suffix() {
    let b = AwsBuilder::default().set_log_stream_name(String::from("base"));
    let name = b.log_stream_name.clone();
    assert!(name.starts_with("base_"));
    let suffix = &name["base_".len()..];
    assert!(!suffix.is_empty());
    assert!(suffix.chars().all(|c| c.is_ascii_digit()));
}

#[test]
fn default_builder_names() {
    let b = AwsBuilder::default();
    assert_eq!(b.region, "eu-central-1");
    assert_eq!(b.log_group_name, "loggify");
    assert!(!b.log_stream_name.is_empty());
    assert!(b.log_stream_name.chars().all(|c| c.is_ascii_digit()));
}

#[test]
fn builder_hands_its_fields_to_the_handle() {
    let aws = AwsBuilder::default()
        .set_region(String::from("us-east-1"))
        .set_log_group_name(String::from("my-group"))
        .build();
    assert_eq!(aws.region, "us-east-1");
    assert_eq!(aws.log_group_name, "my-group");
}
