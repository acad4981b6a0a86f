use bot_api_relay::{
    check_segments, content_type_for, contains_dot_dot, extension_of, resolve_file,
    storage_path, FileSession, RelayError, CHUNK_SIZE,
};

/// Drives a session the way the server does, with every read returning `got(asked)`.
fn deliver(session: &mut FileSession, mut got: impl FnMut(u64) -> Option<u64>) -> u64 {
    let mut sent = 0u64;
    loop {
        let want = session.next_read_len();
        if want == 0 {
            return sent;
        }
        match session.on_read(got(want)) {
            Ok(n) => sent += n,
            Err(_) => return sent,
        }
    }
}

#[test]
fn dot_dot_in_bot_segment_is_refused() {
    assert_eq!(check_segments("12..3", "a.jpg"), Err(RelayError::InvalidPath));
    assert_eq!(resolve_file("/data", "..", "a.jpg"), Err(RelayError::InvalidPath));
}

#[test]
fn dot_dot_in_file_segment_is_refused() {
    for file in ["../../etc/passwd", "photos/..", "a..b", "..", "x/../y"] {
        assert_eq!(resolve_file("/data", "123", file), Err(RelayError::InvalidPath));
    }
}

#[test]
fn single_dots_are_accepted() {
    assert_eq!(check_segments("123", "photos/a.b.jpg"), Ok(()));
    assert_eq!(check_segments("1.2", "./a.jpg"), Ok(()));
    assert!(!contains_dot_dot(".a.b."));
    assert!(contains_dot_dot("a.."));
}

#[test]
fn invalid_path_answers_bad_request() {
    assert_eq!(RelayError::InvalidPath.status_code(), Some(400));
    assert_eq!(RelayError::NotFound.status_code(), Some(404));
    assert_eq!(RelayError::UpstreamUnavailable.status_code(), Some(500));
    assert_eq!(RelayError::StreamingFailure.status_code(), None);
}

#[test]
fn photo_request_resolves_under_storage_root() {
    let path = resolve_file("/data", "123", "photos/a.jpg").unwrap();
    assert_eq!(path, "/data/123/photos/a.jpg");
    assert_eq!(content_type_for(&path), "image/jpeg");
    let mut session = FileSession::open(path, 1000);
    assert_eq!(session.size(), 1000);
    assert_eq!(deliver(&mut session, Some), 1000);
    let intent = session.finish().expect("a full read removes the file");
    assert_eq!(intent.path, "/data/123/photos/a.jpg");
}

#[test]
fn traversal_request_is_refused() {
    assert_eq!(resolve_file("/data", "123", "../../etc/passwd"), Err(RelayError::InvalidPath));
}

#[test]
fn storage_path_joins_with_slashes() {
    assert_eq!(storage_path("/var/lib/store", "42", "documents/file_7.pdf"), "/var/lib/store/42/documents/file_7.pdf");
    assert_eq!(storage_path("/r", "", ""), "/r//");
}

#[test]
fn extension_follows_last_dot_of_file_name() {
    assert_eq!(extension_of("/d/1/a.tar.gz"), Some("gz"));
    assert_eq!(extension_of("/d/1/.bashrc"), None);
    assert_eq!(extension_of("/d/1.x/readme"), None);
    assert_eq!(extension_of("/d/1/file."), Some(""));
    assert_eq!(extension_of("noslash.PNG"), Some("PNG"));
    assert_eq!(extension_of(""), None);
}

#[test]
fn content_type_falls_back_to_octet_stream() {
    assert_eq!(content_type_for("/d/1/voice"), "application/octet-stream");
    assert_eq!(content_type_for("/d/1/blob.unknownext"), "application/octet-stream");
    assert_eq!(content_type_for("/d/1/file."), "application/octet-stream");
    assert_eq!(content_type_for("/d/1/clip.mp4"), "video/mp4");
    assert_eq!(content_type_for("/d/1/Sticker.PNG"), "image/png");
}

#[test]
fn reads_are_bounded_by_chunk_size() {
    let mut session = FileSession::open(String::from("/d/f"), 2 * CHUNK_SIZE + 5);
    assert_eq!(session.next_read_len(), CHUNK_SIZE);
    assert_eq!(session.on_read(Some(CHUNK_SIZE)), Ok(CHUNK_SIZE));
    assert_eq!(session.on_read(Some(CHUNK_SIZE)), Ok(CHUNK_SIZE));
    assert_eq!(session.next_read_len(), 5);
    assert_eq!(session.on_read(Some(5)), Ok(5));
    assert_eq!(session.next_read_len(), 0);
    assert!(session.is_complete());
}

#[test]
fn short_reads_are_counted_exactly() {
    let mut session = FileSession::open(String::from("/d/f"), 10);
    assert_eq!(deliver(&mut session, |want| Some(want.min(3))), 10);
    assert_eq!(session.delivered(), 10);
    assert!(session.finish().is_some());
}

#[test]
fn aborted_delivery_keeps_file() {
    let mut session = FileSession::open(String::from("/d/f"), 1000);
    assert_eq!(session.on_read(Some(400)), Ok(400));
    assert_eq!(session.delivered(), 400);
    assert!(!session.is_complete());
    assert!(session.finish().is_none());
}

#[test]
fn early_end_of_file_is_a_streaming_failure() {
    let mut session = FileSession::open(String::from("/d/f"), 1000);
    assert_eq!(session.on_read(Some(600)), Ok(600));
    assert_eq!(session.on_read(Some(0)), Err(RelayError::StreamingFailure));
    assert_eq!(session.delivered(), 600);
    assert!(session.finish().is_none());
}

#[test]
fn read_error_is_a_streaming_failure() {
    let mut session = FileSession::open(String::from("/d/f"), 1000);
    assert_eq!(session.on_read(None), Err(RelayError::StreamingFailure));
    assert_eq!(session.delivered(), 0);
    assert!(session.finish().is_none());
}

#[test]
fn empty_file_is_removed_without_reads() {
    let session = FileSession::open(String::from("/d/empty"), 0);
    assert_eq!(session.next_read_len(), 0);
    assert_eq!(session.finish().map(|d| d.path), Some(String::from("/d/empty")));
}

#[test]
fn two_full_reads_of_one_file_both_remove_it() {
    let path = resolve_file("/data", "7", "v.ogg").unwrap();
    let mut first = FileSession::open(path.clone(), 3 * CHUNK_SIZE);
    let mut second = FileSession::open(path.clone(), 3 * CHUNK_SIZE);
    assert_eq!(first.on_read(Some(CHUNK_SIZE)), Ok(CHUNK_SIZE));
    assert_eq!(deliver(&mut second, Some), 3 * CHUNK_SIZE);
    assert_eq!(first.delivered(), CHUNK_SIZE);
    assert_eq!(deliver(&mut first, Some), 2 * CHUNK_SIZE);
    assert_eq!(first.finish().unwrap().path, path);
    assert_eq!(second.finish().unwrap().path, path);
}
