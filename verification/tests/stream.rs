use musikr::iostream::DynIOStream;
use musikr::iostream::IOStream;
use musikr::iostream::MemoryStream;
use musikr::iostream::StreamError;
use musikr::iostream::Whence;

fn sample_stream(read_only: bool) -> MemoryStream {
    MemoryStream::new(
        vec![0u8, 1, 2, 3, 4, 5, 6, 7, 8, 9],
        String::from("sample"),
        read_only,
    )
}

#[test]
fn read_yields_exactly_the_buffer_bytes() {
    let mut s = sample_stream(true);
    assert_eq!(s.read_block(4), vec![0u8, 1, 2, 3]);
    assert_eq!(s.tell(), 4);
    assert_eq!(s.read_block(100), vec![4u8, 5, 6, 7, 8, 9]);
    assert_eq!(s.tell(), 10);
    assert_eq!(s.read_block(5), Vec::<u8>::new());
}

#[test]
fn seek_moves_the_cursor_as_expected() {
    let mut s = sample_stream(true);
    assert!(s.seek(2, Whence::Start).is_ok());
    assert_eq!(s.tell(), 2);
    assert_eq!(s.read_block(3), vec![2u8, 3, 4]);
    assert!(s.seek(1, Whence::Current).is_ok());
    assert_eq!(s.tell(), 6);
    assert_eq!(s.read_block(2), vec![6u8, 7]);
    assert!(s.seek(-2, Whence::End).is_ok());
    assert_eq!(s.tell(), 8);
    assert_eq!(s.read_block(10), vec![8u8, 9]);
}

#[test]
fn seek_outside_the_stream_is_rejected_and_moves_nothing() {
    let mut s = sample_stream(true);
    assert!(s.seek(3, Whence::Start).is_ok());
    assert_eq!(s.seek(-1, Whence::Start), Err(StreamError::OutOfBounds));
    assert_eq!(s.seek(11, Whence::Start), Err(StreamError::OutOfBounds));
    assert_eq!(s.seek(8, Whence::Current), Err(StreamError::OutOfBounds));
    assert_eq!(s.seek(1, Whence::End), Err(StreamError::OutOfBounds));
    assert_eq!(s.tell(), 3);
}

#[test]
fn length_never_changes_as_a_side_effect_of_read() {
    let mut s = sample_stream(true);
    assert_eq!(s.length(), 10);
    let _ = s.read_block(7);
    assert_eq!(s.length(), 10);
    let _ = s.read_block(100);
    assert_eq!(s.length(), 10);
}

#[test]
fn read_only_stream_rejects_write_and_truncate() {
    let mut s = sample_stream(true);
    assert!(s.is_readonly());
    assert_eq!(s.write_block(&vec![42u8]), Err(StreamError::ReadOnly));
    assert_eq!(s.truncate(4), Err(StreamError::ReadOnly));
    // Reads and seeks are unaffected.
    assert_eq!(s.length(), 10);
    assert!(s.seek(5, Whence::Start).is_ok());
    assert_eq!(s.read_block(2), vec![5u8, 6]);
}

#[test]
fn writable_stream_overwrites_and_extends() {
    let mut s = sample_stream(false);
    assert!(!s.is_readonly());
    assert!(s.seek(8, Whence::Start).is_ok());
    assert!(s.write_block(&vec![80u8, 90, 100]).is_ok());
    assert_eq!(s.tell(), 11);
    assert_eq!(s.length(), 11);
    assert_eq!(
        s.into_inner(),
        vec![0u8, 1, 2, 3, 4, 5, 6, 7, 80, 90, 100]
    );
}

#[test]
fn truncate_cuts_the_stream_and_clamps_the_cursor() {
    let mut s = sample_stream(false);
    assert!(s.seek(9, Whence::Start).is_ok());
    assert!(s.truncate(4).is_ok());
    assert_eq!(s.length(), 4);
    assert_eq!(s.tell(), 4);
    assert_eq!(s.truncate(-1), Err(StreamError::OutOfBounds));
    assert!(s.truncate(100).is_ok());
    assert_eq!(s.length(), 4);
    assert_eq!(s.into_inner(), vec![0u8, 1, 2, 3]);
}

#[test]
fn stream_reports_its_name() {
    let s = sample_stream(true);
    assert_eq!(s.name(), String::from("sample"));
}

#[test]
fn call_table_maps_raw_whence_codes() {
    let mut d = DynIOStream::new(sample_stream(true));
    assert_eq!(d.name(), String::from("sample"));
    assert!(d.seek(2, 0).is_ok());
    assert_eq!(d.tell(), 2);
    assert!(d.seek(3, 1).is_ok());
    assert_eq!(d.tell(), 5);
    assert!(d.seek(-1, 2).is_ok());
    assert_eq!(d.tell(), 9);
    assert_eq!(d.seek(0, 3), Err(StreamError::OutOfBounds));
    assert_eq!(d.tell(), 9);
    assert_eq!(d.read(5), vec![9u8]);
    assert_eq!(d.length(), 10);
    assert!(d.is_readonly());
    assert_eq!(d.write(&vec![1u8]), Err(StreamError::ReadOnly));
    assert_eq!(d.truncate(2), Err(StreamError::ReadOnly));
}
