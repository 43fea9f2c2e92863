//! The metadata builder: walks the tag views of a dispatched file and
//! aggregates host-native values into one record, exactly one map per tag
//! family, one optional cover image, one optional properties block and the
//! mime type of the matched format.
use vstd::prelude::*;
use crate::audioproperties::AudioProperties;
use crate::file::File;
use crate::file::FileData;
use crate::flac::FLACPicture;
use crate::id3v1::ID3v1Tag;
use crate::id3v2::AttachedPictureFrame;
use crate::id3v2::Frame;
use crate::id3v2::FrameBody;
use crate::id3v2::ID3v2Tag;
use crate::id3v2::PictureType;
use crate::id3v2::picture_type_of;
use crate::mp4::CoverArt;
use crate::mp4::CoverArtFormat;
use crate::mp4::ItemEntry;
use crate::mp4::MP4Data;
use crate::mp4::MP4Tag;
use crate::tagmap::TagEntry;
use crate::tagmap::TagEntryView;
use crate::tagmap::TagMap;
use crate::tagmap::map_add;
use crate::text::clone_bytes;
use crate::text::clone_strings;
use crate::text::dec_of;
use crate::text::int_dec_of;
use crate::text::pair_dec_of;
use crate::text::upper_seq;
use crate::text::i32_to_string;
use crate::text::i64_to_string;
use crate::text::pair_to_string;
use crate::text::to_uppercase;
use crate::text::u32_to_string;
use crate::xiph::XiphComment;

verus! {

/// The mathematical shape of one extracted record.
#[verifier::ext_equal]
pub struct MetadataView {
    pub id3v2: Seq<TagEntryView>,
    pub xiph: Seq<TagEntryView>,
    pub mp4: Seq<TagEntryView>,
    pub cover: Option<Seq<u8>>,
    pub properties: Option<AudioProperties>,
    pub mime_type: Option<Seq<char>>,
}

/// The record the extraction yields: three tag maps, an optional cover image,
/// an optional properties block and the mime type of the matched format.
#[derive(Debug)]
pub struct Metadata {
    pub id3v2: TagMap,
    pub xiph: TagMap,
    pub mp4: TagMap,
    pub cover: Option<Vec<u8>>,
    pub properties: Option<AudioProperties>,
    pub mime_type: Option<String>,
}

impl View for Metadata {
    type V = MetadataView;

    open spec fn view(&self) -> MetadataView {
        MetadataView {
            id3v2: self.id3v2@,
            xiph: self.xiph@,
            mp4: self.mp4@,
            cover: self.cover.deep_view(),
            properties: self.properties,
            mime_type: self.mime_type.deep_view(),
        }
    }
}

/// The builder that accumulates one record while the tag views are walked.
#[derive(Debug)]
pub struct MetadataBuilder {
    pub id3v2: TagMap,
    pub xiph: TagMap,
    pub mp4: TagMap,
    pub cover: Option<Vec<u8>>,
    pub properties: Option<AudioProperties>,
    pub mime_type: Option<String>,
}

impl View for MetadataBuilder {
    type V = MetadataView;

    open spec fn view(&self) -> MetadataView {
        MetadataView {
            id3v2: self.id3v2@,
            xiph: self.xiph@,
            mp4: self.mp4@,
            cover: self.cover.deep_view(),
            properties: self.properties,
            mime_type: self.mime_type.deep_view(),
        }
    }
}

/// The flat record's contribution to the frame-family map: one scalar under
/// each fixed key, and the genre index only when it is meaningful.
pub open spec fn spec_set_id3v1(m: Seq<TagEntryView>, t: &ID3v1Tag) -> Seq<TagEntryView> {
    let m1 = map_add(m, "TIT2"@, seq![t.title@]);
    let m2 = map_add(m1, "TPE1"@, seq![t.artist@]);
    let m3 = map_add(m2, "TALB"@, seq![t.album@]);
    let m4 = map_add(m3, "TRCK"@, seq![dec_of(t.track as nat)]);
    let m5 = map_add(m4, "TYER"@, seq![dec_of(t.year as nat)]);
    if t.genre_index != 255 {
        map_add(m5, "TCON"@, seq![dec_of(t.genre_index as nat)])
    } else {
        m5
    }
}

/// The field map's contribution to the field-family map: every (key,
/// value-list) pair in foreign order, with the key upper-cased.
pub open spec fn spec_set_xiph(m: Seq<TagEntryView>, entries: Seq<TagEntry>) -> Seq<TagEntryView>
    decreases entries.len(),
{
    if entries.len() == 0 {
        m
    } else {
        spec_set_xiph(
            map_add(m, upper_seq(entries[0].key@), entries[0].values.deep_view()),
            entries.drop_first(),
        )
    }
}

/// One value added under the combined key `id:description` for each element
/// of the list, in order.
pub open spec fn spec_add_combined_list(
    m: Seq<TagEntryView>,
    id: Seq<char>,
    desc: Seq<char>,
    values: Seq<Seq<char>>,
) -> Seq<TagEntryView>
    decreases values.len(),
{
    if values.len() == 0 {
        m
    } else {
        spec_add_combined_list(
            map_add(m, id + seq![':'] + desc, seq![values[0]]),
            id,
            desc,
            values.drop_first(),
        )
    }
}

/// One frame's contribution to the frame-family map: a text frame adds its
/// field list under the frame identifier; a user-text frame adds its values
/// under the identifier combined with its leading description, or nothing
/// when the list is empty; picture frames and unrecognized frames add
/// nothing.
pub open spec fn spec_add_frame(m: Seq<TagEntryView>, f: Frame) -> Seq<TagEntryView> {
    match f.body {
        FrameBody::TextIdentification(tf) => map_add(m, f.id@, tf.fields.deep_view()),
        FrameBody::UserTextIdentification(uf) => if uf.fields@.len() > 0 {
            spec_add_combined_list(m, f.id@, uf.fields@[0]@, uf.fields.deep_view().drop_first())
        } else {
            m
        },
        FrameBody::AttachedPicture(_) => m,
        FrameBody::Other => m,
    }
}

/// The frame list's contribution to the frame-family map, frame by frame in
/// list order.
pub open spec fn spec_add_frames(m: Seq<TagEntryView>, frames: Seq<Frame>) -> Seq<TagEntryView>
    decreases frames.len(),
{
    if frames.len() == 0 {
        m
    } else {
        spec_add_frames(spec_add_frame(m, frames[0]), frames.drop_first())
    }
}

/// Whether an attached-picture frame is tagged as the front cover.
pub open spec fn is_front_cover(f: &AttachedPictureFrame) -> bool {
    picture_type_of(f.picture_type_code) == Some(PictureType::FrontCover)
}

/// The payload of the first front-cover-tagged picture frame, if any.
pub open spec fn first_front_cover(frames: Seq<Frame>) -> Option<Seq<u8>>
    decreases frames.len(),
{
    if frames.len() == 0 {
        None
    } else {
        match frames[0].body {
            FrameBody::AttachedPicture(p) => if is_front_cover(&p) {
                Some(p.picture@)
            } else {
                first_front_cover(frames.drop_first())
            },
            _ => first_front_cover(frames.drop_first()),
        }
    }
}

/// The payload of the first picture frame of any classification, if any.
pub open spec fn first_picture(frames: Seq<Frame>) -> Option<Seq<u8>>
    decreases frames.len(),
{
    if frames.len() == 0 {
        None
    } else {
        match frames[0].body {
            FrameBody::AttachedPicture(p) => Some(p.picture@),
            _ => first_picture(frames.drop_first()),
        }
    }
}

/// The cover a frame list yields: the first front-cover-tagged picture when
/// one is present, otherwise the first picture present, otherwise none.
pub open spec fn spec_select_cover(frames: Seq<Frame>) -> Option<Seq<u8>> {
    if first_front_cover(frames) is Some {
        first_front_cover(frames)
    } else {
        first_picture(frames)
    }
}

/// Cover preference over a frame list: as soon as any frame carries a
/// front-cover-tagged picture, the cover selected for the whole list is the
/// first such picture's payload, never a differently tagged one.
pub proof fn lemma_cover_prefers_front(frames: Seq<Frame>, i: int)
    requires
        0 <= i < frames.len(),
        frames[i].body is AttachedPicture,
        is_front_cover(&frames[i].body->AttachedPicture_0),
    ensures
        first_front_cover(frames) is Some,
        spec_select_cover(frames) == first_front_cover(frames),
    decreases i,
{
    if frames.len() > 0 {
        match frames[0].body {
            FrameBody::AttachedPicture(p) => {
                if !is_front_cover(&p) {
                    lemma_cover_prefers_front(frames.drop_first(), i - 1);
                }
            },
            _ => {
                lemma_cover_prefers_front(frames.drop_first(), i - 1);
            },
        }
    }
}

/// Cover fallback over a frame list: when no frame carries a
/// front-cover-tagged picture, the cover selected is the first picture
/// present, of whatever classification.
pub proof fn lemma_cover_falls_back_to_first(frames: Seq<Frame>)
    requires
        forall|i: int| 0 <= i < frames.len() ==> ((#[trigger] frames[i].body) is AttachedPicture
            ==> !is_front_cover(&frames[i].body->AttachedPicture_0)),
    ensures
        first_front_cover(frames) is None,
        spec_select_cover(frames) == first_picture(frames),
    decreases frames.len(),
{
    if frames.len() > 0 {
        lemma_cover_falls_back_to_first(frames.drop_first());
    }
}

/// The payload of the first embedded picture tagged as the front cover, if
/// any.
pub open spec fn first_front_flac_picture(pics: Seq<FLACPicture>) -> Option<Seq<u8>>
    decreases pics.len(),
{
    if pics.len() == 0 {
        None
    } else if picture_type_of(pics[0].picture_type_code) == Some(PictureType::FrontCover) {
        Some(pics[0].data@)
    } else {
        first_front_flac_picture(pics.drop_first())
    }
}

/// The cover an embedded picture list yields: the first front-cover-tagged
/// picture when one is present, otherwise the first picture present,
/// otherwise none.
pub open spec fn spec_select_picture(pics: Seq<FLACPicture>) -> Option<Seq<u8>> {
    if first_front_flac_picture(pics) is Some {
        first_front_flac_picture(pics)
    } else if pics.len() > 0 {
        Some(pics[0].data@)
    } else {
        None
    }
}

/// The payload of the first cover-art image in a preferred format, if any.
pub open spec fn first_preferred_cover(list: Seq<CoverArt>) -> Option<Seq<u8>>
    decreases list.len(),
{
    if list.len() == 0 {
        None
    } else if list[0].format == CoverArtFormat::PNG || list[0].format == CoverArtFormat::JPEG {
        Some(list[0].data@)
    } else {
        first_preferred_cover(list.drop_first())
    }
}

/// The cover a cover-art list yields: the first image in a preferred format
/// when one is present, otherwise the first image present, otherwise the
/// cover already selected.
pub open spec fn spec_mp4_cover(list: Seq<CoverArt>, cover: Option<Seq<u8>>) -> Option<Seq<u8>> {
    if first_preferred_cover(list) is Some {
        first_preferred_cover(list)
    } else if list.len() > 0 {
        Some(list[0].data@)
    } else {
        cover
    }
}

/// Whether a key begins with the reserved free-form prefix of four hyphens.
pub open spec fn is_freeform_key(s: Seq<char>) -> bool {
    s.len() >= 4 && s[0] == '-' && s[1] == '-' && s[2] == '-' && s[3] == '-'
}

/// The position of the first colon in a key, or a negative value when the key
/// holds none.
pub open spec fn find_colon(s: Seq<char>) -> int
    decreases s.len(),
{
    if s.len() == 0 {
        -1
    } else if s[0] == ':' {
        0
    } else if find_colon(s.drop_first()) < 0 {
        -1
    } else {
        find_colon(s.drop_first()) + 1
    }
}

/// A string list's contribution to the item-family map: a free-form key is
/// split at its first colon into an atom name and a description that form a
/// combined key (a free-form key without a colon contributes nothing); any
/// other key receives the whole list.
pub open spec fn spec_string_list_adds(
    m: Seq<TagEntryView>,
    key: Seq<char>,
    values: Seq<Seq<char>>,
) -> Seq<TagEntryView> {
    if is_freeform_key(key) {
        if find_colon(key) >= 0 {
            spec_add_combined_list(
                m,
                key.subrange(0, find_colon(key)),
                key.subrange(find_colon(key) + 1, key.len() as int),
                values,
            )
        } else {
            m
        }
    } else {
        map_add(m, key, values)
    }
}

/// One typed item's contribution to the item-family map and the cover slot.
/// Only the extraction matching the item's runtime tag contributes; an
/// invalid item contributes nothing.
pub open spec fn spec_add_item(
    m: Seq<TagEntryView>,
    cover: Option<Seq<u8>>,
    e: ItemEntry,
) -> (Seq<TagEntryView>, Option<Seq<u8>>) {
    if !e.item.valid {
        (m, cover)
    } else {
        match e.item.value {
            MP4Data::CoverArtList(list) => if e.key@ == "covr"@ {
                (m, spec_mp4_cover(list@, cover))
            } else {
                (m, cover)
            },
            MP4Data::StringList(vs) => (spec_string_list_adds(m, e.key@, vs.deep_view()), cover),
            MP4Data::Int(v) => (map_add(m, e.key@, seq![int_dec_of(v as int)]), cover),
            MP4Data::UInt(v) => (map_add(m, e.key@, seq![dec_of(v as nat)]), cover),
            MP4Data::LongLong(v) => (map_add(m, e.key@, seq![int_dec_of(v as int)]), cover),
            MP4Data::IntPair(p) => (
                map_add(m, e.key@, seq![pair_dec_of(p.first as int, p.second as int)]),
                cover,
            ),
            _ => (m, cover),
        }
    }
}

/// The item map's contribution, item by item in map order.
pub open spec fn spec_set_mp4(
    m: Seq<TagEntryView>,
    cover: Option<Seq<u8>>,
    entries: Seq<ItemEntry>,
) -> (Seq<TagEntryView>, Option<Seq<u8>>)
    decreases entries.len(),
{
    if entries.len() == 0 {
        (m, cover)
    } else {
        let s = spec_add_item(m, cover, entries[0]);
        spec_set_mp4(s.0, s.1, entries.drop_first())
    }
}

/// Whether a key begins with the reserved free-form prefix.
fn is_freeform(s: &str) -> (r: bool)
    ensures
        r == is_freeform_key(s@),
{
    let n: usize = s.unicode_len();
    if n < 4 {
        return false;
    }
    s.get_char(0) == '-' && s.get_char(1) == '-' && s.get_char(2) == '-' && s.get_char(3) == '-'
}

/// The first colon of a key holds at position `i`: no earlier character is a
/// colon and the character there is one.
proof fn lemma_find_colon_at(s: Seq<char>, i: int)
    requires
        0 <= i < s.len(),
        s[i] == ':',
        forall|j: int| 0 <= j < i ==> s[j] != ':',
    ensures
        find_colon(s) == i,
    decreases i,
{
    if i > 0 {
        lemma_find_colon_at(s.drop_first(), i - 1);
    }
}

/// A key without a colon has no first colon.
proof fn lemma_find_colon_none(s: Seq<char>)
    requires
        forall|j: int| 0 <= j < s.len() ==> s[j] != ':',
    ensures
        find_colon(s) < 0,
    decreases s.len(),
{
    if s.len() > 0 {
        lemma_find_colon_none(s.drop_first());
    }
}

/// The position of the first colon of a key, when the key holds one.
fn find_colon_at(s: &str) -> (r: Option<usize>)
    ensures
        r is Some <==> find_colon(s@) >= 0,
        r is Some ==> r->0 == find_colon(s@) && r->0 < s@.len(),
{
    let n: usize = s.unicode_len();
    let mut i: usize = 0;
    while i < n
        invariant
            n == s@.len(),
            i <= n,
            forall|j: int| 0 <= j < i ==> s@[j] != ':',
        decreases n - i,
    {
        if s.get_char(i) == ':' {
            proof {
                lemma_find_colon_at(s@, i as int);
            }
            return Some(i);
        }
        i = i + 1;
    }
    proof {
        lemma_find_colon_none(s@);
    }
    None
}

/// The cover a cover-art list yields, when it yields one: the first image in
/// a preferred format, otherwise the first image present.
fn pick_mp4_cover(list: &Vec<CoverArt>) -> (r: Option<Vec<u8>>)
    ensures
        first_preferred_cover(list@) is Some ==> r.deep_view() == first_preferred_cover(list@),
        first_preferred_cover(list@) is None && list@.len() > 0 ==> r.deep_view() == Some(
            list@[0].data@,
        ),
        list@.len() == 0 ==> r is None,
{
    proof {
        assert(list@.skip(0) =~= list@);
    }
    let n: usize = list.len();
    let mut i: usize = 0;
    while i < n
        invariant
            n == list@.len(),
            i <= n,
            first_preferred_cover(list@) == first_preferred_cover(list@.skip(i as int)),
        decreases n - i,
    {
        proof {
            assert(list@.skip(i as int)[0] == list@[i as int]);
            assert(list@.skip(i as int).drop_first() =~= list@.skip(i as int + 1));
        }
        let fmt = list[i].format();
        if fmt == CoverArtFormat::PNG || fmt == CoverArtFormat::JPEG {
            return Some(clone_bytes(list[i].data()));
        }
        i = i + 1;
    }
    proof {
        assert(list@.skip(n as int) =~= Seq::<CoverArt>::empty());
    }
    if n > 0 {
        Some(clone_bytes(list[0].data()))
    } else {
        None
    }
}

/// Adds one value under `id:desc` for every element of `values` from
/// position `start` on.
fn add_combined_values(map: &mut TagMap, id: &str, desc: &str, values: &Vec<String>, start: usize)
    requires
        start <= values@.len(),
    ensures
        final(map)@ == spec_add_combined_list(
            old(map)@,
            id@,
            desc@,
            values.deep_view().skip(start as int),
        ),
        old(map).wf() ==> final(map).wf(),
{
    let ghost all = values.deep_view();
    let n: usize = values.len();
    let mut j: usize = start;
    while j < n
        invariant
            n == all.len(),
            all == values.deep_view(),
            start <= j <= n,
            spec_add_combined_list(old(map)@, id@, desc@, all.skip(start as int))
                == spec_add_combined_list(map@, id@, desc@, all.skip(j as int)),
            old(map).wf() ==> map.wf(),
        decreases n - j,
    {
        proof {
            assert(all.skip(j as int)[0] == all[j as int]);
            assert(all.skip(j as int).drop_first() =~= all.skip(j as int + 1));
        }
        map.add_combined(id, desc, values[j].clone());
        j = j + 1;
    }
    proof {
        assert(all.skip(n as int) =~= Seq::<Seq<char>>::empty());
    }
}

impl MetadataBuilder {
    /// A builder with empty maps and nothing selected yet.
    pub fn new() -> (r: MetadataBuilder)
        ensures
            r.id3v2@ =~= Seq::<TagEntryView>::empty(),
            r.xiph@ =~= Seq::<TagEntryView>::empty(),
            r.mp4@ =~= Seq::<TagEntryView>::empty(),
            r.cover is None,
            r.properties is None,
            r.mime_type is None,
            r.id3v2.wf() && r.xiph.wf() && r.mp4.wf(),
    {
        MetadataBuilder {
            id3v2: TagMap::new(),
            xiph: TagMap::new(),
            mp4: TagMap::new(),
            cover: None,
            properties: None,
            mime_type: None,
        }
    }

    /// Records the mime type of the matched format branch.
    pub fn set_mime_type(&mut self, mime_type: &str)
        ensures
            final(self).mime_type.deep_view() == Some(mime_type@),
            final(self).id3v2 == old(self).id3v2,
            final(self).xiph == old(self).xiph,
            final(self).mp4 == old(self).mp4,
            final(self).cover == old(self).cover,
            final(self).properties == old(self).properties,
    {
        self.mime_type = Some(mime_type.to_owned());
    }

    /// Records the audio properties block.
    pub fn set_properties(&mut self, properties: AudioProperties)
        ensures
            final(self).properties == Some(properties),
            final(self).id3v2 == old(self).id3v2,
            final(self).xiph == old(self).xiph,
            final(self).mp4 == old(self).mp4,
            final(self).cover == old(self).cover,
            final(self).mime_type == old(self).mime_type,
    {
        self.properties = Some(properties);
    }

    /// Feeds the fields of a flat record into the frame-family map, each
    /// scalar copied independently.
    pub fn set_id3v1(&mut self, tag: &ID3v1Tag)
        ensures
            final(self).id3v2@ == spec_set_id3v1(old(self).id3v2@, tag),
            old(self).id3v2.wf() ==> final(self).id3v2.wf(),
            final(self).xiph == old(self).xiph,
            final(self).mp4 == old(self).mp4,
            final(self).cover == old(self).cover,
            final(self).properties == old(self).properties,
            final(self).mime_type == old(self).mime_type,
    {
        self.id3v2.add_id("TIT2", tag.title().clone());
        self.id3v2.add_id("TPE1", tag.artist().clone());
        self.id3v2.add_id("TALB", tag.album().clone());
        self.id3v2.add_id("TRCK", u32_to_string(tag.track()));
        self.id3v2.add_id("TYER", u32_to_string(tag.year()));
        let genre = tag.genre_index();
        if genre != 255 {
            self.id3v2.add_id("TCON", u32_to_string(genre));
        }
    }

    /// Feeds every (key, value-list) pair of a field-map tag into the
    /// field-family map, keys upper-cased, foreign order kept.
    pub fn set_xiph(&mut self, tag: &XiphComment)
        ensures
            final(self).xiph@ == spec_set_xiph(old(self).xiph@, tag.fields.entries@),
            old(self).xiph.wf() ==> final(self).xiph.wf(),
            final(self).id3v2 == old(self).id3v2,
            final(self).mp4 == old(self).mp4,
            final(self).cover == old(self).cover,
            final(self).properties == old(self).properties,
            final(self).mime_type == old(self).mime_type,
    {
        let ghost all = tag.fields.entries@;
        proof {
            assert(all.skip(0) =~= all);
        }
        let entries = tag.field_list_map().to_hashmap();
        let n: usize = entries.len();
        let mut i: usize = 0;
        while i < n
            invariant
                n == all.len(),
                entries@ == all,
                i <= n,
                spec_set_xiph(old(self).xiph@, all) == spec_set_xiph(
                    self.xiph@,
                    all.skip(i as int),
                ),
                old(self).xiph.wf() ==> self.xiph.wf(),
                self.id3v2 == old(self).id3v2,
                self.mp4 == old(self).mp4,
                self.cover == old(self).cover,
                self.properties == old(self).properties,
                self.mime_type == old(self).mime_type,
            decreases n - i,
        {
            proof {
                assert(all.skip(i as int)[0] == all[i as int]);
                assert(all.skip(i as int).drop_first() =~= all.skip(i as int + 1));
            }
            let key_upper = to_uppercase(entries[i].key.as_str());
            let values = clone_strings(&entries[i].values);
            self.xiph.add_id_list(key_upper.as_str(), values);
            i = i + 1;
        }
        proof {
            assert(all.skip(n as int) =~= Seq::<TagEntry>::empty());
        }
    }

    /// Walks the frames of a structured tag: text frames feed the
    /// frame-family map, user-text frames feed combined keys, and the cover
    /// slot receives the front-cover picture when one is present, otherwise
    /// the first picture present, otherwise nothing.
    pub fn set_id3v2(&mut self, tag: &ID3v2Tag)
        ensures
            final(self).id3v2@ == spec_add_frames(old(self).id3v2@, tag.frames@),
            final(self).cover.deep_view() == spec_select_cover(tag.frames@),
            old(self).id3v2.wf() ==> final(self).id3v2.wf(),
            final(self).xiph == old(self).xiph,
            final(self).mp4 == old(self).mp4,
            final(self).properties == old(self).properties,
            final(self).mime_type == old(self).mime_type,
    {
        let ghost all = tag.frames@;
        proof {
            assert(all.skip(0) =~= all);
        }
        let mut first_pic: Option<Vec<u8>> = None;
        let mut front_cover_pic: Option<Vec<u8>> = None;
        let frames = tag.frames();
        let n: usize = frames.len();
        let mut i: usize = 0;
        while i < n
            invariant
                n == all.len(),
                frames@ == all,
                i <= n,
                spec_add_frames(old(self).id3v2@, all) == spec_add_frames(
                    self.id3v2@,
                    all.skip(i as int),
                ),
                old(self).id3v2.wf() ==> self.id3v2.wf(),
                front_cover_pic is Some ==> first_front_cover(all) == front_cover_pic.deep_view(),
                front_cover_pic is None ==> first_front_cover(all) == first_front_cover(
                    all.skip(i as int),
                ),
                first_pic is Some ==> first_picture(all) == first_pic.deep_view(),
                first_pic is None ==> first_picture(all) == first_picture(all.skip(i as int)),
                self.xiph == old(self).xiph,
                self.mp4 == old(self).mp4,
                self.cover == old(self).cover,
                self.properties == old(self).properties,
                self.mime_type == old(self).mime_type,
            decreases n - i,
        {
            proof {
                assert(all.skip(i as int)[0] == all[i as int]);
                assert(all.skip(i as int).drop_first() =~= all.skip(i as int + 1));
            }
            let frame = &frames[i];
            if let Some(text_frame) = frame.as_text_identification() {
                let values = clone_strings(text_frame.field_list());
                self.id3v2.add_id_list(frame.id().as_str(), values);
            } else if let Some(user_text_frame) = frame.as_user_text_identification() {
                let fields = user_text_frame.values();
                if fields.len() > 0 {
                    let description = fields[0].clone();
                    add_combined_values(&mut self.id3v2, frame.id().as_str(), description.as_str(), fields, 1);
                    proof {
                        assert(fields.deep_view().skip(1) =~= fields.deep_view().drop_first());
                    }
                }
            } else if let Some(picture_frame) = frame.as_attached_picture() {
                if first_pic.is_none() {
                    first_pic = Some(clone_bytes(picture_frame.picture()));
                    proof {
                        assert(first_picture(all.skip(i as int)) == first_pic.deep_view());
                    }
                }
                if front_cover_pic.is_none() {
                    let is_front = match picture_frame.picture_type() {
                        Some(PictureType::FrontCover) => true,
                        _ => false,
                    };
                    if is_front {
                        front_cover_pic = Some(clone_bytes(picture_frame.picture()));
                        proof {
                            assert(first_front_cover(all.skip(i as int))
                                == front_cover_pic.deep_view());
                        }
                    }
                }
            }
            i = i + 1;
        }
        proof {
            assert(all.skip(n as int) =~= Seq::<Frame>::empty());
        }
        if front_cover_pic.is_some() {
            self.cover = front_cover_pic;
        } else {
            self.cover = first_pic;
        }
    }

    /// Selects the cover from an embedded picture list: the front-cover-
    /// tagged picture when one is present, otherwise the first picture.  An
    /// empty list leaves the cover slot as it was.
    pub fn set_flac_pictures(&mut self, pictures: &Vec<FLACPicture>)
        ensures
            spec_select_picture(pictures@) is Some ==> final(self).cover.deep_view()
                == spec_select_picture(pictures@),
            spec_select_picture(pictures@) is None ==> final(self).cover == old(self).cover,
            final(self).id3v2 == old(self).id3v2,
            final(self).xiph == old(self).xiph,
            final(self).mp4 == old(self).mp4,
            final(self).properties == old(self).properties,
            final(self).mime_type == old(self).mime_type,
    {
        proof {
            assert(pictures@.skip(0) =~= pictures@);
        }
        let n: usize = pictures.len();
        let mut i: usize = 0;
        while i < n
            invariant
                n == pictures@.len(),
                i <= n,
                first_front_flac_picture(pictures@) == first_front_flac_picture(
                    pictures@.skip(i as int),
                ),
                self.id3v2 == old(self).id3v2,
                self.xiph == old(self).xiph,
                self.mp4 == old(self).mp4,
                self.cover == old(self).cover,
                self.properties == old(self).properties,
                self.mime_type == old(self).mime_type,
            decreases n - i,
        {
            proof {
                assert(pictures@.skip(i as int)[0] == pictures@[i as int]);
                assert(pictures@.skip(i as int).drop_first() =~= pictures@.skip(i as int + 1));
            }
            let is_front = match pictures[i].picture_type() {
                Some(PictureType::FrontCover) => true,
                _ => false,
            };
            if is_front {
                self.cover = Some(clone_bytes(pictures[i].data()));
                return ;
            }
            i = i + 1;
        }
        proof {
            assert(pictures@.skip(n as int) =~= Seq::<FLACPicture>::empty());
        }
        if n > 0 {
            self.cover = Some(clone_bytes(pictures[0].data()));
        }
    }

    /// Walks the typed items of an atom-box tag: the runtime tag of each item
    /// is read first and only the matching extraction feeds the item-family
    /// map; a cover-art list under the reserved cover key feeds the cover
    /// slot instead.
    pub fn set_mp4(&mut self, tag: &MP4Tag)
        ensures
            final(self).mp4@ == spec_set_mp4(
                old(self).mp4@,
                old(self).cover.deep_view(),
                tag.items.entries@,
            ).0,
            final(self).cover.deep_view() == spec_set_mp4(
                old(self).mp4@,
                old(self).cover.deep_view(),
                tag.items.entries@,
            ).1,
            old(self).mp4.wf() ==> final(self).mp4.wf(),
            final(self).id3v2 == old(self).id3v2,
            final(self).xiph == old(self).xiph,
            final(self).properties == old(self).properties,
            final(self).mime_type == old(self).mime_type,
    {
        let ghost all = tag.items.entries@;
        proof {
            assert(all.skip(0) =~= all);
        }
        let covr_key: String = "covr".to_owned();
        let entries = tag.item_map().to_hashmap();
        let n: usize = entries.len();
        let mut i: usize = 0;
        while i < n
            invariant
                n == all.len(),
                entries@ == all,
                covr_key@ == "covr"@,
                i <= n,
                spec_set_mp4(old(self).mp4@, old(self).cover.deep_view(), all) == spec_set_mp4(
                    self.mp4@,
                    self.cover.deep_view(),
                    all.skip(i as int),
                ),
                old(self).mp4.wf() ==> self.mp4.wf(),
                self.id3v2 == old(self).id3v2,
                self.xiph == old(self).xiph,
                self.properties == old(self).properties,
                self.mime_type == old(self).mime_type,
            decreases n - i,
        {
            proof {
                assert(all.skip(i as int)[0] == all[i as int]);
                assert(all.skip(i as int).drop_first() =~= all.skip(i as int + 1));
            }
            let e = &entries[i];
            if let Some(d) = e.item.data() {
                let is_covr = e.key == covr_key;
                match d {
                    MP4Data::CoverArtList(list) => {
                        if is_covr {
                            if let Some(c) = pick_mp4_cover(list) {
                                self.cover = Some(c);
                            }
                        }
                    },
                    MP4Data::StringList(vs) => {
                        if is_freeform(e.key.as_str()) {
                            if let Some(idx) = find_colon_at(e.key.as_str()) {
                                let key_len: usize = e.key.as_str().unicode_len();
                                let name = e.key.as_str().substring_char(0, idx);
                                let desc = e.key.as_str().substring_char(idx + 1, key_len);
                                proof {
                                    assert(vs.deep_view().skip(0) =~= vs.deep_view());
                                }
                                add_combined_values(&mut self.mp4, name, desc, vs, 0);
                            }
                        } else {
                            let values = clone_strings(vs);
                            self.mp4.add_id_list(e.key.as_str(), values);
                        }
                    },
                    MP4Data::Int(v) => {
                        self.mp4.add_id(e.key.as_str(), i32_to_string(*v));
                    },
                    MP4Data::UInt(v) => {
                        self.mp4.add_id(e.key.as_str(), u32_to_string(*v));
                    },
                    MP4Data::LongLong(v) => {
                        self.mp4.add_id(e.key.as_str(), i64_to_string(*v));
                    },
                    MP4Data::IntPair(p) => {
                        self.mp4.add_id(e.key.as_str(), pair_to_string(p.first, p.second));
                    },
                    _ => {},
                }
            }
            i = i + 1;
        }
        proof {
            assert(all.skip(n as int) =~= Seq::<ItemEntry>::empty());
        }
    }

    /// Packages what was accumulated into one record.
    pub fn build(self) -> (r: Metadata)
        ensures
            r@ == self@,
    {
        Metadata {
            id3v2: self.id3v2,
            xiph: self.xiph,
            mp4: self.mp4,
            cover: self.cover,
            properties: self.properties,
            mime_type: self.mime_type,
        }
    }
}

/// The record a dispatched file yields: every tag container the matched
/// format carries is walked in a fixed order, and the mime type names the
/// matched branch.
pub open spec fn spec_extract(file: &File) -> MetadataView {
    let empty = Seq::<TagEntryView>::empty();
    match file.data {
        FileData::Vorbis(v) => MetadataView {
            id3v2: empty,
            xiph: match v.xiph {
                Some(t) => spec_set_xiph(empty, t.fields.entries@),
                None => empty,
            },
            mp4: empty,
            cover: None,
            properties: file.properties,
            mime_type: Some("audio/ogg"@),
        },
        FileData::Opus(o) => MetadataView {
            id3v2: empty,
            xiph: match o.xiph {
                Some(t) => spec_set_xiph(empty, t.fields.entries@),
                None => empty,
            },
            mp4: empty,
            cover: None,
            properties: file.properties,
            mime_type: Some("audio/opus"@),
        },
        FileData::FLAC(fl) => {
            let m1 = match fl.id3v1 {
                Some(t) => spec_set_id3v1(empty, &t),
                None => empty,
            };
            let m2 = match fl.id3v2 {
                Some(t) => spec_add_frames(m1, t.frames@),
                None => m1,
            };
            let c1 = match fl.id3v2 {
                Some(t) => spec_select_cover(t.frames@),
                None => None,
            };
            let c2 = if spec_select_picture(fl.pictures@) is Some {
                spec_select_picture(fl.pictures@)
            } else {
                c1
            };
            MetadataView {
                id3v2: m2,
                xiph: match fl.xiph {
                    Some(t) => spec_set_xiph(empty, t.fields.entries@),
                    None => empty,
                },
                mp4: empty,
                cover: c2,
                properties: file.properties,
                mime_type: Some("audio/flac"@),
            }
        },
        FileData::MPEG(mf) => {
            let m1 = match mf.id3v1 {
                Some(t) => spec_set_id3v1(empty, &t),
                None => empty,
            };
            let m2 = match mf.id3v2 {
                Some(t) => spec_add_frames(m1, t.frames@),
                None => m1,
            };
            let c = match mf.id3v2 {
                Some(t) => spec_select_cover(t.frames@),
                None => None,
            };
            MetadataView {
                id3v2: m2,
                xiph: empty,
                mp4: empty,
                cover: c,
                properties: file.properties,
                mime_type: Some("audio/mpeg"@),
            }
        },
        FileData::MP4(m4) => {
            let p = match m4.tag {
                Some(t) => spec_set_mp4(empty, None, t.items.entries@),
                None => (empty, None),
            };
            MetadataView {
                id3v2: empty,
                xiph: empty,
                mp4: p.0,
                cover: p.1,
                properties: file.properties,
                mime_type: Some("audio/mp4"@),
            }
        },
        FileData::WAV(w) => {
            let m2 = match w.id3v2 {
                Some(t) => spec_add_frames(empty, t.frames@),
                None => empty,
            };
            let c = match w.id3v2 {
                Some(t) => spec_select_cover(t.frames@),
                None => None,
            };
            MetadataView {
                id3v2: m2,
                xiph: empty,
                mp4: empty,
                cover: c,
                properties: file.properties,
                mime_type: Some("audio/wav"@),
            }
        },
    }
}

/// Tries each format branch in priority order on a dispatched file, feeds
/// every tag container the matching branch carries into a builder, and yields
/// the finished record with that branch's mime type.
pub fn extract(file: &File) -> (r: Metadata)
    ensures
        r@ == spec_extract(file),
        r.id3v2.wf(),
        r.xiph.wf(),
        r.mp4.wf(),
{
    let mut builder = MetadataBuilder::new();
    if let Some(properties) = file.audio_properties() {
        builder.set_properties(properties);
    }
    if let Some(vorbis) = file.as_vorbis() {
        builder.set_mime_type("audio/ogg");
        if let Some(tag) = vorbis.xiph_comments() {
            builder.set_xiph(tag);
        }
    }
    if let Some(opus) = file.as_opus() {
        builder.set_mime_type("audio/opus");
        if let Some(tag) = opus.xiph_comments() {
            builder.set_xiph(tag);
        }
    }
    if let Some(flac) = file.as_flac() {
        builder.set_mime_type("audio/flac");
        if let Some(tag) = flac.id3v1_tag() {
            builder.set_id3v1(tag);
        }
        if let Some(tag) = flac.id3v2_tag() {
            builder.set_id3v2(tag);
        }
        if let Some(tag) = flac.xiph_comments() {
            builder.set_xiph(tag);
        }
        builder.set_flac_pictures(flac.picture_list());
    }
    if let Some(mpeg) = file.as_mpeg() {
        builder.set_mime_type("audio/mpeg");
        if let Some(tag) = mpeg.id3v1_tag() {
            builder.set_id3v1(tag);
        }
        if let Some(tag) = mpeg.id3v2_tag() {
            builder.set_id3v2(tag);
        }
    }
    if let Some(mp4) = file.as_mp4() {
        builder.set_mime_type("audio/mp4");
        if let Some(tag) = mp4.tag() {
            builder.set_mp4(tag);
        }
    }
    if let Some(wav) = file.as_wav() {
        builder.set_mime_type("audio/wav");
        if let Some(tag) = wav.id3v2_tag() {
            builder.set_id3v2(tag);
        }
    }
    let r = builder.build();
    proof {
        assert(r@ =~= spec_extract(file));
    }
    r
}

} // verus!
