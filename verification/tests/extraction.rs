use musikr::audioproperties::AudioProperties;
use musikr::builder::extract;
use musikr::builder::Metadata;
use musikr::builder::MetadataBuilder;
use musikr::file::File;
use musikr::file::FileData;
use musikr::flac::FLACFile;
use musikr::flac::FLACPicture;
use musikr::id3v1::ID3v1Tag;
use musikr::id3v2::AttachedPictureFrame;
use musikr::id3v2::Frame;
use musikr::id3v2::FrameBody;
use musikr::id3v2::ID3v2Tag;
use musikr::id3v2::PictureType;
use musikr::id3v2::TextIdentificationFrame;
use musikr::id3v2::UserTextIdentificationFrame;
use musikr::mp4::CoverArt;
use musikr::mp4::CoverArtFormat;
use musikr::mp4::IntPair;
use musikr::mp4::ItemEntry;
use musikr::mp4::ItemMap;
use musikr::mp4::MP4Data;
use musikr::mp4::MP4File;
use musikr::mp4::MP4Item;
use musikr::mp4::MP4ItemType;
use musikr::mp4::MP4Tag;
use musikr::mpeg::MPEGFile;
use musikr::ogg::VorbisFile;
use musikr::riff::WAVFile;
use musikr::tagmap::TagEntry;
use musikr::tagmap::TagMap;
use musikr::xiph::FieldListMap;
use musikr::xiph::XiphComment;

fn lookup(map: &TagMap, key: &str) -> Option<Vec<String>> {
    let mut i = 0;
    while i < map.len() {
        if map.key_at(i).as_str() == key {
            return Some(map.values_at(i).clone());
        }
        i += 1;
    }
    None
}

fn strings(values: &[&str]) -> Vec<String> {
    values.iter().map(|v| v.to_string()).collect()
}

fn entry(key: &str, values: &[&str]) -> TagEntry {
    TagEntry { key: key.to_string(), values: strings(values) }
}

fn text_frame(id: &str, fields: &[&str]) -> Frame {
    Frame::new(
        id.to_string(),
        FrameBody::TextIdentification(TextIdentificationFrame::new(strings(fields))),
    )
}

fn user_text_frame(id: &str, fields: &[&str]) -> Frame {
    Frame::new(
        id.to_string(),
        FrameBody::UserTextIdentification(UserTextIdentificationFrame::new(strings(fields))),
    )
}

fn picture_frame(type_code: u32, data: &[u8]) -> Frame {
    Frame::new(
        String::from("APIC"),
        FrameBody::AttachedPicture(AttachedPictureFrame::new(type_code, data.to_vec())),
    )
}

fn item(key: &str, value: MP4Data) -> ItemEntry {
    ItemEntry { key: key.to_string(), item: MP4Item::new(true, value) }
}

#[test]
fn tag_map_keeps_insertion_order_and_appends_values() {
    let mut map = TagMap::new();
    map.add_id("B", String::from("1"));
    map.add_id("A", String::from("2"));
    map.add_id("B", String::from("3"));
    map.add_id_list("A", strings(&["4", "5"]));
    assert_eq!(map.len(), 2);
    assert_eq!(map.key_at(0), "B");
    assert_eq!(map.values_at(0), &strings(&["1", "3"]));
    assert_eq!(map.key_at(1), "A");
    assert_eq!(map.values_at(1), &strings(&["2", "4", "5"]));
}

#[test]
fn tag_map_combined_key_joins_id_and_description() {
    let mut map = TagMap::new();
    map.add_combined("TXXX", "MOOD", String::from("calm"));
    assert_eq!(lookup(&map, "TXXX:MOOD"), Some(strings(&["calm"])));
}

#[test]
fn flat_record_feeds_fixed_keys() {
    let tag = ID3v1Tag::new(
        String::from("Title"),
        String::from("Artist"),
        String::from("Album"),
        String::from("Comment"),
        7,
        1990,
        17,
    );
    let mut b = MetadataBuilder::new();
    b.set_id3v1(&tag);
    let m: Metadata = b.build();
    assert_eq!(lookup(&m.id3v2, "TIT2"), Some(strings(&["Title"])));
    assert_eq!(lookup(&m.id3v2, "TPE1"), Some(strings(&["Artist"])));
    assert_eq!(lookup(&m.id3v2, "TALB"), Some(strings(&["Album"])));
    assert_eq!(lookup(&m.id3v2, "TRCK"), Some(strings(&["7"])));
    assert_eq!(lookup(&m.id3v2, "TYER"), Some(strings(&["1990"])));
    assert_eq!(lookup(&m.id3v2, "TCON"), Some(strings(&["17"])));
}

#[test]
fn flat_record_genre_sentinel_is_absent() {
    let tag = ID3v1Tag::new(
        String::from("t"),
        String::from("a"),
        String::from("b"),
        String::from("c"),
        1,
        2000,
        255,
    );
    let mut b = MetadataBuilder::new();
    b.set_id3v1(&tag);
    let m = b.build();
    assert_eq!(lookup(&m.id3v2, "TCON"), None);
}

#[test]
fn frame_walk_feeds_text_and_user_text_frames() {
    let frames = vec![
        text_frame("TIT2", &["Song"]),
        user_text_frame("TXXX", &["REPLAYGAIN", "-6.5 dB", "extra"]),
        user_text_frame("TXXX", &[]),
        Frame::new(String::from("PRIV"), FrameBody::Other),
    ];
    let tag = ID3v2Tag::new(frames);
    let mut b = MetadataBuilder::new();
    b.set_id3v2(&tag);
    let m = b.build();
    assert_eq!(lookup(&m.id3v2, "TIT2"), Some(strings(&["Song"])));
    assert_eq!(
        lookup(&m.id3v2, "TXXX:REPLAYGAIN"),
        Some(strings(&["-6.5 dB", "extra"]))
    );
    assert_eq!(m.cover, None);
}

#[test]
fn cover_prefers_front_cover_over_earlier_pictures() {
    let frames = vec![
        picture_frame(4, b"back"),
        picture_frame(3, b"front"),
        picture_frame(3, b"front2"),
    ];
    let mut b = MetadataBuilder::new();
    b.set_id3v2(&ID3v2Tag::new(frames));
    let m = b.build();
    assert_eq!(m.cover, Some(b"front".to_vec()));
}

#[test]
fn cover_falls_back_to_first_picture() {
    let frames = vec![picture_frame(4, b"back"), picture_frame(6, b"media")];
    let mut b = MetadataBuilder::new();
    b.set_id3v2(&ID3v2Tag::new(frames));
    let m = b.build();
    assert_eq!(m.cover, Some(b"back".to_vec()));
}

#[test]
fn picture_type_codes_map_to_classifications() {
    assert_eq!(PictureType::from_u32(3), Some(PictureType::FrontCover));
    assert_eq!(PictureType::from_u32(0), Some(PictureType::Other));
    assert_eq!(PictureType::from_u32(20), Some(PictureType::PublisherLogo));
    assert_eq!(PictureType::from_u32(21), None);
    let apf = AttachedPictureFrame::new(99, b"x".to_vec());
    assert_eq!(apf.picture_type(), None);
    assert_eq!(apf.picture(), &b"x".to_vec());
}

#[test]
fn field_map_extraction_is_idempotent() {
    let map = FieldListMap::new(vec![
        entry("ARTIST", &["A1", "A2"]),
        entry("title", &["T"]),
    ]);
    let first: Vec<TagEntry> = map.to_hashmap().clone();
    let second: Vec<TagEntry> = map.to_hashmap().clone();
    assert_eq!(first, second);
}

#[test]
fn field_map_keys_are_uppercased_in_order() {
    let xiph = XiphComment::new(
        FieldListMap::new(vec![
            entry("artist", &["A"]),
            entry("Title", &["T1", "T2"]),
        ]),
        vec![],
    );
    let mut b = MetadataBuilder::new();
    b.set_xiph(&xiph);
    let m = b.build();
    assert_eq!(m.xiph.len(), 2);
    assert_eq!(m.xiph.key_at(0), "ARTIST");
    assert_eq!(m.xiph.values_at(0), &strings(&["A"]));
    assert_eq!(m.xiph.key_at(1), "TITLE");
    assert_eq!(m.xiph.values_at(1), &strings(&["T1", "T2"]));
}

#[test]
fn flac_pictures_prefer_front_cover_then_first() {
    let mut b = MetadataBuilder::new();
    b.set_flac_pictures(&vec![
        FLACPicture::new(4, b"back".to_vec()),
        FLACPicture::new(3, b"front".to_vec()),
    ]);
    assert_eq!(b.cover, Some(b"front".to_vec()));

    let mut b2 = MetadataBuilder::new();
    b2.set_flac_pictures(&vec![FLACPicture::new(6, b"media".to_vec())]);
    assert_eq!(b2.cover, Some(b"media".to_vec()));

    let mut b3 = MetadataBuilder::new();
    b3.cover = Some(b"kept".to_vec());
    b3.set_flac_pictures(&vec![]);
    assert_eq!(b3.cover, Some(b"kept".to_vec()));
}

#[test]
fn item_map_reports_the_runtime_tag_of_each_item() {
    let i = MP4Item::new(true, MP4Data::Int(-5));
    assert_eq!(i.item_type(), MP4ItemType::Int);
    assert_eq!(i.data(), Some(&MP4Data::Int(-5)));
    let invalid = MP4Item::new(false, MP4Data::Bool(true));
    assert_eq!(invalid.item_type(), MP4ItemType::Bool);
    assert_eq!(invalid.data(), None);
    assert_eq!(MP4ItemType::from_u32(7), Some(MP4ItemType::StringList));
    assert_eq!(MP4ItemType::from_u32(10), None);
}

#[test]
fn typed_items_render_numbers_exactly() {
    let entries = vec![
        item("trkn", MP4Data::IntPair(IntPair::new(3, 10))),
        item("tmpo", MP4Data::Int(-128)),
        item("plID", MP4Data::LongLong(-9000000000)),
        item("sfID", MP4Data::LongLong(i64::MIN)),
        item("cnID", MP4Data::UInt(4000000000)),
        item("skip", MP4Data::Byte(1)),
        item("flag", MP4Data::Bool(true)),
    ];
    let tag = MP4Tag::new(ItemMap::new(entries));
    let mut b = MetadataBuilder::new();
    b.set_mp4(&tag);
    let m = b.build();
    assert_eq!(lookup(&m.mp4, "trkn"), Some(strings(&["3/10"])));
    assert_eq!(lookup(&m.mp4, "tmpo"), Some(strings(&["-128"])));
    assert_eq!(lookup(&m.mp4, "plID"), Some(strings(&["-9000000000"])));
    assert_eq!(
        lookup(&m.mp4, "sfID"),
        Some(strings(&["-9223372036854775808"]))
    );
    assert_eq!(lookup(&m.mp4, "cnID"), Some(strings(&["4000000000"])));
    assert_eq!(lookup(&m.mp4, "skip"), None);
    assert_eq!(lookup(&m.mp4, "flag"), None);
    assert_eq!(m.mp4.len(), 5);
}

#[test]
fn freeform_keys_are_split_at_the_first_colon() {
    let entries = vec![
        item(
            "----:com.apple.iTunes:MOOD",
            MP4Data::StringList(strings(&["calm", "slow"])),
        ),
        item("----nocolon", MP4Data::StringList(strings(&["dropped"]))),
        item("gnre", MP4Data::StringList(strings(&["Rock"]))),
    ];
    let tag = MP4Tag::new(ItemMap::new(entries));
    let mut b = MetadataBuilder::new();
    b.set_mp4(&tag);
    let m = b.build();
    assert_eq!(
        lookup(&m.mp4, "----:com.apple.iTunes:MOOD"),
        Some(strings(&["calm", "slow"]))
    );
    assert_eq!(lookup(&m.mp4, "gnre"), Some(strings(&["Rock"])));
    assert_eq!(m.mp4.len(), 2);
}

#[test]
fn cover_art_list_prefers_png_or_jpeg() {
    let entries = vec![item(
        "covr",
        MP4Data::CoverArtList(vec![
            CoverArt::new(CoverArtFormat::BMP, b"bmp".to_vec()),
            CoverArt::new(CoverArtFormat::JPEG, b"jpeg".to_vec()),
            CoverArt::new(CoverArtFormat::PNG, b"png".to_vec()),
        ]),
    )];
    let mut b = MetadataBuilder::new();
    b.set_mp4(&MP4Tag::new(ItemMap::new(entries)));
    assert_eq!(b.cover, Some(b"jpeg".to_vec()));

    let only_other = vec![item(
        "covr",
        MP4Data::CoverArtList(vec![CoverArt::new(
            CoverArtFormat::GIF,
            b"gif".to_vec(),
        )]),
    )];
    let mut b2 = MetadataBuilder::new();
    b2.set_mp4(&MP4Tag::new(ItemMap::new(only_other)));
    assert_eq!(b2.cover, Some(b"gif".to_vec()));

    let empty = vec![item("covr", MP4Data::CoverArtList(vec![]))];
    let mut b3 = MetadataBuilder::new();
    b3.set_mp4(&MP4Tag::new(ItemMap::new(empty)));
    assert_eq!(b3.cover, None);
    assert_eq!(CoverArtFormat::from_u32(4), CoverArtFormat::PNG);
    assert_eq!(CoverArtFormat::from_u32(9), CoverArtFormat::Unknown);
}

#[test]
fn dispatch_matches_exactly_one_branch() {
    let file = File::new(
        FileData::FLAC(FLACFile::new(None, None, None, vec![])),
        Some(AudioProperties::new(1000, 320, 44100, 2)),
    );
    assert!(file.as_flac().is_some());
    assert!(file.as_vorbis().is_none());
    assert!(file.as_opus().is_none());
    assert!(file.as_mpeg().is_none());
    assert!(file.as_mp4().is_none());
    assert!(file.as_wav().is_none());
    let p = file.audio_properties().unwrap();
    assert_eq!(p.length_in_milliseconds(), 1000);
    assert_eq!(p.bitrate(), 320);
    assert_eq!(p.sample_rate(), 44100);
    assert_eq!(p.channels(), 2);
}

#[test]
fn extract_sets_the_mime_of_the_matched_branch() {
    let vorbis = File::new(
        FileData::Vorbis(VorbisFile::new(Some(XiphComment::new(
            FieldListMap::new(vec![entry("artist", &["A"])]),
            vec![],
        )))),
        None,
    );
    let m = extract(&vorbis);
    assert_eq!(m.mime_type, Some(String::from("audio/ogg")));
    assert_eq!(lookup(&m.xiph, "ARTIST"), Some(strings(&["A"])));
    assert!(m.properties.is_none());

    let mp4 = File::new(FileData::MP4(MP4File::new(Some(MP4Tag::new(ItemMap::new(
        vec![item("tmpo", MP4Data::Int(120))],
    ))))), None);
    let m2 = extract(&mp4);
    assert_eq!(m2.mime_type, Some(String::from("audio/mp4")));
    assert_eq!(lookup(&m2.mp4, "tmpo"), Some(strings(&["120"])));
}

#[test]
fn extract_carries_properties_and_both_legacy_containers() {
    let mpeg = File::new(
        FileData::MPEG(MPEGFile::new(
            Some(ID3v1Tag::new(
                String::from("Old"),
                String::from("A"),
                String::from("B"),
                String::from("C"),
                4,
                1985,
                255,
            )),
            Some(ID3v2Tag::new(vec![
                text_frame("TIT2", &["New"]),
                picture_frame(3, b"art"),
            ])),
        )),
        Some(AudioProperties::new(180000, 192, 48000, 2)),
    );
    let m = extract(&mpeg);
    assert_eq!(m.mime_type, Some(String::from("audio/mpeg")));
    // The flat record feeds the map first, the frame walk appends after it.
    assert_eq!(lookup(&m.id3v2, "TIT2"), Some(strings(&["Old", "New"])));
    assert_eq!(m.cover, Some(b"art".to_vec()));
    assert_eq!(m.properties, Some(AudioProperties::new(180000, 192, 48000, 2)));
}

#[test]
fn extract_riff_branch_carries_only_the_frame_list() {
    let wav = File::new(
        FileData::WAV(WAVFile::new(Some(ID3v2Tag::new(vec![text_frame(
            "TPE1",
            &["Band"],
        )])))),
        None,
    );
    let m = extract(&wav);
    assert_eq!(m.mime_type, Some(String::from("audio/wav")));
    assert_eq!(lookup(&m.id3v2, "TPE1"), Some(strings(&["Band"])));
    assert_eq!(m.xiph.len(), 0);
    assert_eq!(m.mp4.len(), 0);
    assert_eq!(m.cover, None);
}

#[test]
fn extract_walks_every_container_a_file_carries() {
    let flac = File::new(
        FileData::FLAC(FLACFile::new(
            Some(XiphComment::new(
                FieldListMap::new(vec![entry("album", &["X"])]),
                vec![],
            )),
            Some(ID3v1Tag::new(
                String::from("T"),
                String::from("A"),
                String::from("B"),
                String::from("C"),
                1,
                2001,
                255,
            )),
            Some(ID3v2Tag::new(vec![text_frame("TIT2", &["T2"])])),
            vec![FLACPicture::new(3, b"cover".to_vec())],
        )),
        None,
    );
    let m = extract(&flac);
    assert_eq!(m.mime_type, Some(String::from("audio/flac")));
    assert_eq!(lookup(&m.id3v2, "TIT2"), Some(strings(&["T", "T2"])));
    assert_eq!(lookup(&m.id3v2, "TRCK"), Some(strings(&["1"])));
    assert_eq!(lookup(&m.xiph, "ALBUM"), Some(strings(&["X"])));
    assert_eq!(m.cover, Some(b"cover".to_vec()));
}
