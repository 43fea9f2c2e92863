use musikr::builder::extract;
use musikr::iostream::MemoryStream;
use musikr::session::Session;

fn stream_over(bytes: Vec<u8>) -> MemoryStream {
    MemoryStream::new(bytes, String::from("mem"), true)
}

fn ogg_page(payload: &[u8]) -> Vec<u8> {
    let mut b = vec![0u8; 28];
    b[0] = b'O';
    b[1] = b'g';
    b[2] = b'g';
    b[3] = b'S';
    b[26] = 1; // one segment
    b[27] = payload.len() as u8;
    b.extend_from_slice(payload);
    b
}

fn legacy_trailer(title: &[u8], year: &[u8], track: u8, genre: u8) -> Vec<u8> {
    let mut t = vec![0u8; 128];
    t[0] = b'T';
    t[1] = b'A';
    t[2] = b'G';
    t[3..3 + title.len()].copy_from_slice(title);
    t[93..97].copy_from_slice(year);
    t[126] = track;
    t[127] = genre;
    t
}

#[test]
fn opus_magic_dispatches_to_the_low_latency_branch() {
    let s = Session::open(stream_over(ogg_page(b"OpusHead")));
    let f = s.file().expect("recognized");
    assert!(f.as_opus().is_some());
    assert!(f.as_vorbis().is_none());
    assert_eq!(extract(f).mime_type, Some(String::from("audio/opus")));
}

#[test]
fn vorbis_magic_dispatches_to_the_base_branch() {
    let s = Session::open(stream_over(ogg_page(b"\x01vorbis")));
    let f = s.file().expect("recognized");
    assert!(f.as_vorbis().is_some());
    assert!(f.as_opus().is_none());
    assert_eq!(extract(f).mime_type, Some(String::from("audio/ogg")));
}

#[test]
fn ogg_page_with_unknown_codec_is_unrecognized() {
    let s = Session::open(stream_over(ogg_page(b"theora!!")));
    assert!(s.file().is_none());
}

#[test]
fn flac_magic_dispatches_to_the_frame_stream_branch() {
    let mut bytes = b"fLaC".to_vec();
    bytes.extend_from_slice(&[0u8; 16]);
    let s = Session::open(stream_over(bytes));
    let f = s.file().expect("recognized");
    assert!(f.as_flac().is_some());
    assert_eq!(extract(f).mime_type, Some(String::from("audio/flac")));
}

#[test]
fn ftyp_box_dispatches_to_the_atom_box_branch() {
    let mut bytes = vec![0u8, 0, 0, 24];
    bytes.extend_from_slice(b"ftypM4A ");
    let s = Session::open(stream_over(bytes));
    let f = s.file().expect("recognized");
    assert!(f.as_mp4().is_some());
    assert_eq!(extract(f).mime_type, Some(String::from("audio/mp4")));
}

#[test]
fn riff_wave_dispatches_to_the_riff_branch() {
    let mut bytes = b"RIFF".to_vec();
    bytes.extend_from_slice(&[8, 0, 0, 0]);
    bytes.extend_from_slice(b"WAVE");
    let s = Session::open(stream_over(bytes));
    let f = s.file().expect("recognized");
    assert!(f.as_wav().is_some());
    assert_eq!(extract(f).mime_type, Some(String::from("audio/wav")));
}

#[test]
fn sync_word_dispatches_to_the_legacy_frame_branch() {
    let s = Session::open(stream_over(vec![0xffu8, 0xfb, 0x90, 0x00]));
    let f = s.file().expect("recognized");
    assert!(f.as_mpeg().is_some());
    let mpeg = f.as_mpeg().unwrap();
    assert!(mpeg.id3v1_tag().is_none());
    assert_eq!(extract(f).mime_type, Some(String::from("audio/mpeg")));
}

#[test]
fn unrecognized_bytes_yield_an_empty_root_handle() {
    let s = Session::open(stream_over(b"hello world".to_vec()));
    assert!(s.file().is_none());
}

#[test]
fn empty_stream_yields_an_empty_root_handle() {
    let s = Session::open(stream_over(Vec::new()));
    assert!(s.file().is_none());
}

#[test]
fn legacy_frame_scenario_returns_the_exact_flat_record() {
    // A minimal legacy-frame container: only the 128-byte flat record.
    let bytes = legacy_trailer(b"Test", b"2001", 3, 255);
    let s = Session::open(stream_over(bytes));
    let f = s.file().expect("dispatch matches the legacy-frame branch");
    assert!(f.as_vorbis().is_none());
    assert!(f.as_opus().is_none());
    assert!(f.as_flac().is_none());
    assert!(f.as_mp4().is_none());
    assert!(f.as_wav().is_none());
    let mpeg = f.as_mpeg().expect("legacy-frame view");
    let tag = mpeg.id3v1_tag().expect("flat record present");
    assert_eq!(tag.title().as_str(), "Test");
    assert_eq!(tag.track(), 3);
    assert_eq!(tag.year(), 2001);
    assert_eq!(tag.genre_index(), 255); // the sentinel: genre absent
    let m = extract(f);
    assert_eq!(m.mime_type, Some(String::from("audio/mpeg")));
    let mut found_tcon = false;
    let mut i = 0;
    while i < m.id3v2.len() {
        if m.id3v2.key_at(i).as_str() == "TCON" {
            found_tcon = true;
        }
        i += 1;
    }
    assert!(!found_tcon);
}

#[test]
fn trailer_fields_are_cut_at_nul_and_trimmed() {
    let mut bytes = legacy_trailer(b"Name  ", b"20x1", 0, 80);
    // Pad the title with spaces before the zero bytes.
    bytes[125] = 1; // old layout: no track byte
    let s = Session::open(stream_over(bytes));
    let f = s.file().expect("recognized");
    let tag = f.as_mpeg().unwrap().id3v1_tag().expect("flat record");
    assert_eq!(tag.title().as_str(), "Name");
    assert_eq!(tag.track(), 0);
    assert_eq!(tag.year(), 0); // not four decimal digits
    assert_eq!(tag.genre_index(), 80);
}

#[test]
fn flac_with_trailer_carries_the_flat_record() {
    let mut bytes = b"fLaC".to_vec();
    bytes.extend_from_slice(&[0u8; 32]);
    bytes.extend_from_slice(&legacy_trailer(b"FlacTitle", b"1999", 9, 255));
    let s = Session::open(stream_over(bytes));
    let f = s.file().expect("recognized");
    let flac = f.as_flac().expect("frame-stream view");
    let tag = flac.id3v1_tag().expect("flat record");
    assert_eq!(tag.title().as_str(), "FlacTitle");
    assert_eq!(tag.year(), 1999);
    assert_eq!(tag.track(), 9);
}

#[test]
fn recognition_leaves_the_stream_bytes_untouched() {
    let bytes = legacy_trailer(b"Same", b"2002", 1, 255);
    let s = Session::open(stream_over(bytes.clone()));
    assert!(s.file().is_some());
    let stream = s.close();
    assert_eq!(stream.into_inner(), bytes);
}

#[test]
fn teardown_survives_many_construction_cycles() {
    let bytes = legacy_trailer(b"Loop", b"2003", 2, 255);
    let mut recovered = bytes.clone();
    for round in 0..200 {
        let s = Session::open(stream_over(recovered));
        {
            // Borrow views in varying orders, all gone before the drop.
            let f = s.file().expect("recognized");
            let mpeg = f.as_mpeg().expect("legacy-frame view");
            let tag = mpeg.id3v1_tag().expect("flat record");
            if round % 2 == 0 {
                assert_eq!(tag.track(), 2);
                assert_eq!(tag.title().as_str(), "Loop");
            } else {
                assert_eq!(tag.title().as_str(), "Loop");
                assert_eq!(tag.track(), 2);
            }
        }
        if round % 3 == 0 {
            // Implicit teardown: the whole session is dropped at once.
            recovered = bytes.clone();
        } else {
            // Explicit teardown: the root handle goes first, the adapter
            // comes back and its bytes live on.
            recovered = s.close().into_inner();
        }
    }
    assert_eq!(recovered, bytes);
}
