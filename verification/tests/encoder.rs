use owning_stream::{ByteStream, CursorError, ErrorKind, Polled, Step, StreamState, User, BATCH_ROWS, DEFAULT_RESULTS};

const SQL: &str = "SELECT id, name, email FROM users ORDER BY RANDOM() LIMIT ?";

fn user(id: u32) -> User {
    User { id, name: format!("user {}", id), email: format!("u{}@example.com", id) }
}

/// Drives the encoder as a consumer would: one call per poll of the
/// consumer, each of which polls the producer until the encoder answers
/// with something other than `Continue`. Returns the chunks.
fn drain(stream: &mut ByteStream, rows: Vec<User>) -> Vec<Vec<u8>> {
    let mut chunks = Vec::new();
    let mut rows = rows.into_iter();
    loop {
        let polled = match rows.next() {
            Some(row) => Polled::Item(row),
            None => Polled::Exhausted,
        };
        match stream.poll_next::<String>(Some(polled)) {
            Step::Continue => {}
            Step::Emit(chunk) => chunks.push(chunk),
            Step::Pending => panic!("nothing was not ready"),
            Step::Fail(error) => panic!("unexpected failure: {:?}", error),
            Step::Done => return chunks,
        }
    }
}

fn parse(bytes: &[u8]) -> Vec<serde_json::Value> {
    let value: serde_json::Value = serde_json::from_slice(bytes).unwrap();
    value.as_array().unwrap().clone()
}

fn check_rows(n: u32) {
    let mut stream = ByteStream::new(SQL, Some(n));
    let chunks = drain(&mut stream, (0..n).map(user).collect());
    let all: Vec<u8> = chunks.concat();
    let items = parse(&all);
    assert_eq!(items.len(), n as usize);
    for (i, item) in items.iter().enumerate() {
        let object = item.as_object().unwrap();
        assert_eq!(object.len(), 3);
        assert_eq!(object["id"].as_u64(), Some(i as u64));
        assert_eq!(object["name"].as_str(), Some(format!("user {}", i).as_str()));
        assert_eq!(object["email"].as_str(), Some(format!("u{}@example.com", i).as_str()));
    }
    assert!(stream.is_closed());
}

#[test]
fn any_number_of_rows_gives_one_array_in_row_order() {
    for n in [0, 1, 2, 3, 7, 99, 100, 101, 199, 200, 201, 250] {
        check_rows(n);
    }
}

#[test]
fn no_rows_give_exactly_two_bytes() {
    let mut stream = ByteStream::new(SQL, None);
    let chunks = drain(&mut stream, Vec::new());
    assert_eq!(chunks, vec![b"[]".to_vec()]);
}

#[test]
fn one_row_has_no_leading_comma() {
    let mut stream = ByteStream::new(SQL, None);
    let chunks = drain(&mut stream, vec![user(7)]);
    let all: Vec<u8> = chunks.concat();
    assert_eq!(all, br#"[{"id":7,"name":"user 7","email":"u7@example.com"}]"#.to_vec());
    assert_eq!(parse(&all).len(), 1);
    assert_eq!(&all[..2], b"[{");
}

#[test]
fn two_rows_are_separated_by_one_comma() {
    let mut stream = ByteStream::new(SQL, None);
    let chunks = drain(&mut stream, vec![user(1), user(2)]);
    assert_eq!(chunks.len(), 1);
    assert_eq!(
        chunks[0],
        br#"[{"id":1,"name":"user 1","email":"u1@example.com"},{"id":2,"name":"user 2","email":"u2@example.com"}]"#
            .to_vec()
    );
}

#[test]
fn a_hundred_and_fifty_rows_come_in_two_chunks() {
    let mut stream = ByteStream::new(SQL, Some(150));
    let chunks = drain(&mut stream, (0..150).map(user).collect());
    assert_eq!(chunks.len(), 2);
    let first = &chunks[0];
    assert_eq!(first[0], b'[');
    assert_eq!(*first.last().unwrap(), b'}');
    let mut closed = first.clone();
    closed.push(b']');
    assert_eq!(parse(&closed).len(), 100);
    let last = &chunks[1];
    assert_eq!(last[0], b',');
    assert_eq!(*last.last().unwrap(), b']');
    let mut opened = vec![b'['];
    opened.extend_from_slice(&last[1..]);
    assert_eq!(parse(&opened).len(), 50);
    for chunk in &chunks[..chunks.len() - 1] {
        let rows = chunk.iter().filter(|b| **b == b'{').count();
        assert!(rows <= BATCH_ROWS);
    }
}

#[test]
fn the_hundredth_row_flushes_the_batch() {
    let mut stream = ByteStream::new(SQL, None);
    for i in 0..99 {
        assert!(matches!(stream.poll_next::<String>(Some(Polled::Item(user(i)))), Step::Continue));
    }
    let chunk = match stream.poll_next::<String>(Some(Polled::Item(user(99)))) {
        Step::Emit(chunk) => chunk,
        other => panic!("expected a chunk, got {:?}", other),
    };
    let mut closed = chunk.clone();
    closed.push(b']');
    assert_eq!(parse(&closed).len(), 100);
    assert_eq!(stream.state(), StreamState::AdditionalRecords);
    match stream.poll_next::<String>(Some(Polled::Exhausted)) {
        Step::Emit(chunk) => assert_eq!(chunk, b"]".to_vec()),
        other => panic!("expected the closing chunk, got {:?}", other),
    }
}

#[test]
fn not_ready_with_nothing_buffered_is_passed_on() {
    let mut stream = ByteStream::new(SQL, None);
    assert_eq!(stream.state(), StreamState::Unstarted);
    assert!(matches!(stream.poll_next::<String>(Some(Polled::NotReady)), Step::Pending));
    assert_eq!(stream.state(), StreamState::FirstRecord);
    assert!(matches!(stream.poll_next::<String>(Some(Polled::NotReady)), Step::Pending));
    assert_eq!(stream.state(), StreamState::FirstRecord);
    match stream.poll_next::<String>(Some(Polled::Exhausted)) {
        Step::Emit(chunk) => assert_eq!(chunk, b"[]".to_vec()),
        other => panic!("expected a chunk, got {:?}", other),
    }
}

#[test]
fn not_ready_flushes_the_rows_that_wait() {
    let mut stream = ByteStream::new(SQL, None);
    assert!(matches!(stream.poll_next::<String>(Some(Polled::Item(user(1)))), Step::Continue));
    assert_eq!(stream.state(), StreamState::AdditionalRecords);
    match stream.poll_next::<String>(Some(Polled::NotReady)) {
        Step::Emit(chunk) => {
            assert_eq!(chunk, br#"[{"id":1,"name":"user 1","email":"u1@example.com"}"#.to_vec())
        }
        other => panic!("expected a chunk, got {:?}", other),
    }
    assert!(matches!(stream.poll_next::<String>(Some(Polled::NotReady)), Step::Pending));
    assert!(matches!(stream.poll_next::<String>(Some(Polled::Item(user(2)))), Step::Continue));
    match stream.poll_next::<String>(Some(Polled::Exhausted)) {
        Step::Emit(chunk) => {
            assert_eq!(chunk, br#",{"id":2,"name":"user 2","email":"u2@example.com"}]"#.to_vec())
        }
        other => panic!("expected a chunk, got {:?}", other),
    }
}

#[test]
fn a_closed_encoder_reports_exhaustion_and_writes_no_bracket() {
    let mut stream = ByteStream::new(SQL, None);
    drain(&mut stream, vec![user(1)]);
    assert_eq!(stream.state(), StreamState::Closed);
    assert!(matches!(stream.poll_next::<String>(Some(Polled::Exhausted)), Step::Done));
    assert!(matches!(stream.poll_next::<String>(Some(Polled::NotReady)), Step::Done));
    assert!(matches!(stream.poll_next::<String>(Some(Polled::Item(user(2)))), Step::Done));
    assert!(matches!(stream.poll_next(Some(Polled::Failed("late".to_string()))), Step::Done));
    assert!(matches!(stream.poll_next::<String>(None), Step::Done));
    assert!(matches!(stream.push_row::<String>(Ok(b"{}".to_vec())), Step::Done));
    assert_eq!(stream.state(), StreamState::Closed);
}

#[test]
fn dropping_before_exhaustion_does_not_fail() {
    let mut stream = ByteStream::new(SQL, None);
    assert!(matches!(stream.poll_next::<String>(Some(Polled::Item(user(1)))), Step::Continue));
    assert!(matches!(stream.poll_next::<String>(Some(Polled::Item(user(2)))), Step::Continue));
    assert!(!stream.is_closed());
    drop(stream);
}

#[test]
fn a_driver_error_is_reported_once_and_ends_the_output() {
    let mut stream = ByteStream::new(SQL, Some(300));
    let mut chunks: Vec<Vec<u8>> = Vec::new();
    for i in 0..100 {
        if let Step::Emit(chunk) = stream.poll_next::<String>(Some(Polled::Item(user(i)))) {
            chunks.push(chunk);
        }
    }
    assert_eq!(chunks.len(), 1);
    let before = chunks[0].clone();
    for i in 100..120 {
        assert!(matches!(stream.poll_next::<String>(Some(Polled::Item(user(i)))), Step::Continue));
    }
    match stream.poll_next(Some(Polled::Failed("disk on fire".to_string()))) {
        Step::Fail(CursorError::Driver(message)) => assert_eq!(message, "disk on fire"),
        other => panic!("expected the driver's error, got {:?}", other),
    }
    assert!(stream.is_closed());
    for _ in 0..3 {
        assert!(matches!(stream.poll_next::<String>(Some(Polled::Item(user(1)))), Step::Done));
        assert!(matches!(stream.poll_next::<String>(Some(Polled::Exhausted)), Step::Done));
    }
    assert_eq!(chunks[0], before);
    let mut closed = before;
    closed.push(b']');
    assert_eq!(parse(&closed).len(), 100);
}

#[test]
fn a_driver_error_before_any_row_closes_the_encoder() {
    let mut stream = ByteStream::new(SQL, None);
    match stream.poll_next(Some(Polled::Failed(5u8))) {
        Step::Fail(error) => {
            assert_eq!(error.kind(), ErrorKind::Driver);
            assert!(!error.is_fatal());
        }
        other => panic!("expected a failure, got {:?}", other),
    }
    assert!(matches!(stream.poll_next::<u8>(Some(Polled::Exhausted)), Step::Done));
}

#[test]
fn a_missing_producer_is_a_fatal_error() {
    let mut stream = ByteStream::new(SQL, None);
    match stream.poll_next::<String>(None) {
        Step::Fail(error) => {
            assert!(matches!(error, CursorError::UninitializedProducer));
            assert_eq!(error.kind(), ErrorKind::UninitializedProducer);
            assert!(error.is_fatal());
        }
        other => panic!("expected a failure, got {:?}", other),
    }
    assert!(stream.is_closed());
    assert!(matches!(stream.poll_next::<String>(None), Step::Done));
}

#[test]
fn a_serialization_error_is_reported_and_drops_the_batch() {
    let mut stream = ByteStream::new(SQL, None);
    assert!(matches!(stream.push_row::<String>(Ok(b"1".to_vec())), Step::Continue));
    let error = serde_json::from_str::<u32>("not json").unwrap_err();
    let text = error.to_string();
    match stream.push_row::<String>(Err(error)) {
        Step::Fail(CursorError::Serialization(same)) => assert_eq!(same.to_string(), text),
        other => panic!("expected the serialization error, got {:?}", other),
    }
    assert!(stream.is_closed());
    assert!(matches!(stream.push_row::<String>(Ok(b"2".to_vec())), Step::Done));
    assert!(matches!(stream.poll_next::<String>(Some(Polled::Exhausted)), Step::Done));
}

#[test]
fn serialised_rows_are_framed_as_they_are() {
    let mut stream = ByteStream::new(SQL, None);
    assert!(matches!(stream.push_row::<String>(Ok(b"1".to_vec())), Step::Continue));
    assert!(matches!(stream.push_row::<String>(Ok(b"\"two\"".to_vec())), Step::Continue));
    assert!(matches!(stream.push_row::<String>(Ok(b"[3]".to_vec())), Step::Continue));
    match stream.poll_next::<String>(Some(Polled::Exhausted)) {
        Step::Emit(chunk) => assert_eq!(chunk, b"[1,\"two\",[3]]".to_vec()),
        other => panic!("expected a chunk, got {:?}", other),
    }
}

#[test]
fn the_state_only_advances() {
    fn rank(state: StreamState) -> u8 {
        match state {
            StreamState::Unstarted => 0,
            StreamState::FirstRecord => 1,
            StreamState::AdditionalRecords => 2,
            StreamState::Closed => 3,
        }
    }
    let mut stream = ByteStream::new(SQL, None);
    let mut last = rank(stream.state());
    let script: Vec<Option<Polled<User, String>>> = vec![
        Some(Polled::NotReady),
        Some(Polled::Item(user(1))),
        Some(Polled::NotReady),
        Some(Polled::NotReady),
        Some(Polled::Item(user(2))),
        Some(Polled::Exhausted),
        Some(Polled::NotReady),
        None,
    ];
    for polled in script {
        stream.poll_next(polled);
        let now = rank(stream.state());
        assert!(last <= now);
        last = now;
    }
    assert_eq!(last, 3);
}

#[test]
fn a_new_encoder_copies_its_query() {
    let sql = String::from(SQL);
    let stream = ByteStream::new(&sql, Some(25));
    drop(sql);
    assert_eq!(stream.sql(), SQL);
    assert_eq!(stream.results(), 25);
    assert_eq!(stream.state(), StreamState::Unstarted);
    assert!(!stream.is_closed());
}

#[test]
fn the_row_limit_defaults_to_ten() {
    let stream = ByteStream::new(SQL, None);
    assert_eq!(stream.results(), 10);
    assert_eq!(DEFAULT_RESULTS, 10);
    assert_eq!(BATCH_ROWS, 100);
}
