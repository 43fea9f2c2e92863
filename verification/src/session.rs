//! The session: the sole owner of one opened file's resources.  Opening reads
//! the container magic through the stream bridge, recognizes the format, and
//! materializes the legacy flat record when the file carries one; an
//! unrecognized file yields a session whose root handle is empty, never a
//! failure.
use vstd::prelude::*;
use crate::file::File;
use crate::file::FileData;
use crate::flac::FLACFile;
use crate::id3v1::ID3v1Tag;
use crate::iostream::IOStream;
use crate::iostream::Whence;
use crate::mp4::MP4File;
use crate::mpeg::MPEGFile;
use crate::ogg::OpusFile;
use crate::ogg::VorbisFile;
use crate::riff::WAVFile;
use crate::text::push_char;

verus! {

/// The recognized container format of a byte stream.
#[derive(Clone, Copy, Debug, PartialEq, Eq, Structural)]
pub enum Format {
    Vorbis,
    Opus,
    FLAC,
    MPEG,
    MP4,
    WAV,
}

/// Whether the stream opens with the chunked container's page magic.
pub open spec fn is_ogg(b: Seq<u8>) -> bool {
    b.len() >= 4 && b[0] == 0x4f && b[1] == 0x67 && b[2] == 0x67 && b[3] == 0x53
}

/// Where the first page's payload begins: after the fixed page header and the
/// segment table whose length the header gives.
pub open spec fn ogg_payload(b: Seq<u8>) -> int {
    27 + b[26] as int
}

/// Whether the first page payload carries the low-latency codec's magic.
pub open spec fn is_opus(b: Seq<u8>) -> bool {
    let off = ogg_payload(b);
    is_ogg(b) && b.len() >= 27 && off + 8 <= b.len() && b[off] == 0x4f && b[off + 1] == 0x70
        && b[off + 2] == 0x75 && b[off + 3] == 0x73 && b[off + 4] == 0x48 && b[off + 5] == 0x65
        && b[off + 6] == 0x61 && b[off + 7] == 0x64
}

/// Whether the first page payload carries the base codec's magic.
pub open spec fn is_vorbis(b: Seq<u8>) -> bool {
    let off = ogg_payload(b);
    is_ogg(b) && b.len() >= 27 && off + 7 <= b.len() && b[off] == 0x01 && b[off + 1] == 0x76 && b[
        off + 2
    ] == 0x6f && b[off + 3] == 0x72 && b[off + 4] == 0x62 && b[off + 5] == 0x69 && b[off + 6]
        == 0x73
}

/// Whether the stream opens with the open-codec frame-stream magic.
pub open spec fn is_flac(b: Seq<u8>) -> bool {
    b.len() >= 4 && b[0] == 0x66 && b[1] == 0x4c && b[2] == 0x61 && b[3] == 0x43
}

/// Whether the stream carries the atom-box file-type box at its head.
pub open spec fn is_mp4(b: Seq<u8>) -> bool {
    b.len() >= 8 && b[4] == 0x66 && b[5] == 0x74 && b[6] == 0x79 && b[7] == 0x70
}

/// Whether the stream is a RIFF container wrapping wave audio.
pub open spec fn is_wav(b: Seq<u8>) -> bool {
    b.len() >= 12 && b[0] == 0x52 && b[1] == 0x49 && b[2] == 0x46 && b[3] == 0x46 && b[8] == 0x57
        && b[9] == 0x41 && b[10] == 0x56 && b[11] == 0x45
}

/// Whether the last 128 bytes open with the legacy flat record's marker.
pub open spec fn has_id3v1_trailer(b: Seq<u8>) -> bool {
    b.len() >= 128 && b[b.len() - 128] == 0x54 && b[b.len() - 127] == 0x41 && b[b.len() - 126]
        == 0x47
}

/// Whether the stream opens with a structured-tag header.
pub open spec fn has_id3v2_header(b: Seq<u8>) -> bool {
    b.len() >= 3 && b[0] == 0x49 && b[1] == 0x44 && b[2] == 0x33
}

/// Whether the stream opens with a legacy-frame synchronization word.
pub open spec fn has_mpeg_sync(b: Seq<u8>) -> bool {
    b.len() >= 2 && b[0] == 0xff && (b[1] & 0xe0) == 0xe0
}

/// Whether the stream looks like the legacy-frame container: a structured-tag
/// header, a frame synchronization word, or a flat-record trailer.
pub open spec fn is_mpeg(b: Seq<u8>) -> bool {
    has_id3v2_header(b) || has_mpeg_sync(b) || has_id3v1_trailer(b)
}

/// The container format the stream's bytes discriminate, container-specific
/// magics checked before the generic legacy-frame fallback.
pub open spec fn spec_detect(b: Seq<u8>) -> Option<Format> {
    if is_ogg(b) {
        if is_opus(b) {
            Some(Format::Opus)
        } else if is_vorbis(b) {
            Some(Format::Vorbis)
        } else {
            None
        }
    } else if is_flac(b) {
        Some(Format::FLAC)
    } else if is_mp4(b) {
        Some(Format::MP4)
    } else if is_wav(b) {
        Some(Format::WAV)
    } else if is_mpeg(b) {
        Some(Format::MPEG)
    } else {
        None
    }
}

/// The position of the first zero byte, or a negative value when there is
/// none.
pub open spec fn find_nul(s: Seq<u8>) -> int
    decreases s.len(),
{
    if s.len() == 0 {
        -1
    } else if s[0] == 0 {
        0
    } else if find_nul(s.drop_first()) < 0 {
        -1
    } else {
        find_nul(s.drop_first()) + 1
    }
}

/// The bytes before the first zero byte; all of them when there is none.
pub open spec fn until_nul(s: Seq<u8>) -> Seq<u8> {
    if find_nul(s) >= 0 {
        s.take(find_nul(s))
    } else {
        s
    }
}

/// The bytes with trailing padding spaces removed.
pub open spec fn trim_spaces(s: Seq<u8>) -> Seq<u8>
    decreases s.len(),
{
    if s.len() > 0 && s[s.len() - 1] == 0x20 {
        trim_spaces(s.drop_last())
    } else {
        s
    }
}

/// The characters the bytes stand for, one character per byte.
pub open spec fn latin1(s: Seq<u8>) -> Seq<char> {
    Seq::new(s.len(), |i: int| s[i] as char)
}

/// A fixed text field of the flat record: cut at the first zero byte, padding
/// spaces removed, one character per byte.
pub open spec fn id3v1_text(s: Seq<u8>) -> Seq<char> {
    latin1(trim_spaces(until_nul(s)))
}

/// Whether every byte is a decimal digit.
pub open spec fn all_digits(s: Seq<u8>) -> bool {
    forall|i: int| 0 <= i < s.len() ==> 48 <= #[trigger] s[i] <= 57
}

/// The number a run of decimal digit bytes denotes.
pub open spec fn digits_value(s: Seq<u8>) -> int
    decreases s.len(),
{
    if s.len() == 0 {
        0
    } else {
        digits_value(s.drop_last()) * 10 + (s[s.len() - 1] - 48)
    }
}

/// The year a flat record's four-byte field denotes: its value when the field
/// is four decimal digits, zero otherwise.
pub open spec fn id3v1_year(s: Seq<u8>) -> int {
    if s.len() == 4 && all_digits(s) {
        digits_value(s)
    } else {
        0
    }
}

/// Whether the 128-byte trailer carries a track number: the revised layout
/// marks the last comment byte zero and a nonzero track byte follows.
pub open spec fn id3v1_has_track(tr: Seq<u8>) -> bool {
    tr[125] == 0 && tr[126] != 0
}

/// Whether a flat record holds exactly the fields of a 128-byte trailer.
pub open spec fn id3v1_tag_matches(t: ID3v1Tag, tr: Seq<u8>) -> bool {
    &&& t.title@ == id3v1_text(tr.subrange(3, 33))
    &&& t.artist@ == id3v1_text(tr.subrange(33, 63))
    &&& t.album@ == id3v1_text(tr.subrange(63, 93))
    &&& t.comment@ == id3v1_text(
        if id3v1_has_track(tr) {
            tr.subrange(97, 125)
        } else {
            tr.subrange(97, 127)
        },
    )
    &&& t.track == (if id3v1_has_track(tr) {
        tr[126] as u32
    } else {
        0u32
    })
    &&& t.year == id3v1_year(tr.subrange(93, 97))
    &&& t.genre_index == tr[127] as u32
}

/// The first zero byte of a slice holds at the claimed position.
proof fn lemma_find_nul_at(s: Seq<u8>, i: int)
    requires
        0 <= i < s.len(),
        s[i] == 0,
        forall|j: int| 0 <= j < i ==> s[j] != 0,
    ensures
        find_nul(s) == i,
    decreases i,
{
    if i > 0 {
        lemma_find_nul_at(s.drop_first(), i - 1);
    }
}

/// A slice without a zero byte has no first zero byte.
proof fn lemma_find_nul_none(s: Seq<u8>)
    requires
        forall|j: int| 0 <= j < s.len() ==> s[j] != 0,
    ensures
        find_nul(s) < 0,
    decreases s.len(),
{
    if s.len() > 0 {
        lemma_find_nul_none(s.drop_first());
    }
}

/// One fixed text field of the flat record, copied out of the trailer.
fn parse_text(tr: &Vec<u8>, from: usize, to: usize) -> (r: String)
    requires
        from <= to <= tr@.len(),
    ensures
        r@ == id3v1_text(tr@.subrange(from as int, to as int)),
{
    let ghost s = tr@.subrange(from as int, to as int);
    // Cut at the first zero byte.
    let mut i: usize = from;
    while i < to && tr[i] != 0
        invariant
            from <= i <= to <= tr@.len(),
            s == tr@.subrange(from as int, to as int),
            forall|j: int| 0 <= j < i - from ==> s[j] != 0,
        decreases to - i,
    {
        i = i + 1;
    }
    let mut end: usize = i;
    proof {
        if end < to {
            assert(s[end - from] == tr@[end as int]);
            lemma_find_nul_at(s, end - from);
        } else {
            lemma_find_nul_none(s);
        }
        assert(until_nul(s) =~= s.take(end - from));
    }
    // Remove trailing padding spaces.
    let ghost cut = s.take(end - from);
    while end > from && tr[end - 1] == 0x20
        invariant
            from <= end <= to <= tr@.len(),
            s == tr@.subrange(from as int, to as int),
            cut == until_nul(s),
            trim_spaces(cut) == trim_spaces(s.take(end - from)),
        decreases end - from,
    {
        proof {
            assert(s[end - 1 - from] == tr@[end - 1]);
            assert(s.take(end - from).drop_last() =~= s.take(end - from - 1));
        }
        end = end - 1;
    }
    proof {
        if end > from {
            assert(s[end - 1 - from] == tr@[end - 1]);
        }
        assert(trim_spaces(s.take(end - from)) == s.take(end - from));
        assert(trim_spaces(cut) =~= s.take(end - from));
    }
    // One character per byte.
    let mut r = String::new();
    let mut k: usize = from;
    while k < end
        invariant
            from <= k <= end <= to <= tr@.len(),
            s == tr@.subrange(from as int, to as int),
            r@.len() == k - from,
            forall|j: int| 0 <= j < k - from ==> r@[j] == (s[j] as char),
        decreases end - k,
    {
        push_char(&mut r, tr[k] as char);
        k = k + 1;
    }
    proof {
        assert(r@ =~= latin1(s.take(end - from)));
        assert(r@ =~= id3v1_text(s));
    }
    r
}

/// The year field of the trailer: four decimal digits, or zero.
fn parse_year(tr: &Vec<u8>) -> (r: u32)
    requires
        tr@.len() == 128,
    ensures
        r == id3v1_year(tr@.subrange(93, 97)),
{
    let ghost s = tr@.subrange(93, 97);
    let d0: u8 = tr[93];
    let d1: u8 = tr[94];
    let d2: u8 = tr[95];
    let d3: u8 = tr[96];
    if 48 <= d0 && d0 <= 57 && 48 <= d1 && d1 <= 57 && 48 <= d2 && d2 <= 57 && 48 <= d3 && d3
        <= 57 {
        let value: u32 = (((d0 - 48) as u32 * 10 + (d1 - 48) as u32) * 10 + (d2 - 48) as u32) * 10
            + (d3 - 48) as u32;
        proof {
            assert(s.len() == 4);
            assert(s[0] == d0 && s[1] == d1 && s[2] == d2 && s[3] == d3);
            assert forall|i: int| 0 <= i < s.len() implies 48 <= #[trigger] s[i] <= 57 by {
                if i == 0 {
                } else if i == 1 {
                } else if i == 2 {
                } else {
                    assert(i == 3);
                }
            }
            assert(s =~= s.take(4));
            assert(s.take(4).drop_last() =~= s.take(3));
            assert(s.take(3).drop_last() =~= s.take(2));
            assert(s.take(2).drop_last() =~= s.take(1));
            assert(s.take(1).drop_last() =~= s.take(0));
            assert(digits_value(s.take(0)) == 0);
            assert(digits_value(s.take(1)) == d0 - 48);
            assert(digits_value(s.take(2)) == digits_value(s.take(1)) * 10 + (d1 - 48));
            assert(digits_value(s.take(3)) == digits_value(s.take(2)) * 10 + (d2 - 48));
            assert(digits_value(s.take(4)) == digits_value(s.take(3)) * 10 + (d3 - 48));
            assert(digits_value(s) == value);
        }
        value
    } else {
        proof {
            assert(s[0] == d0 && s[1] == d1 && s[2] == d2 && s[3] == d3);
            if all_digits(s) {
                assert(48 <= s[0] <= 57);
                assert(48 <= s[1] <= 57);
                assert(48 <= s[2] <= 57);
                assert(48 <= s[3] <= 57);
            }
        }
        0
    }
}

/// Whether the flat-record slot of a root handle matches the stream: the
/// parsed trailer when the stream ends in one, empty otherwise.
pub open spec fn id3v1_part_matches(t: Option<ID3v1Tag>, b: Seq<u8>) -> bool {
    if has_id3v1_trailer(b) {
        t is Some && id3v1_tag_matches(t->0, b.subrange(b.len() - 128, b.len() as int))
    } else {
        t is None
    }
}

/// Whether a root handle matches what the stream's bytes encode: the view of
/// the detected format, carrying the legacy flat record where the container
/// can hold one.  The remaining tag containers and the properties block are
/// materialized by the codec parser, not by recognition, so they start empty.
pub open spec fn spec_open_matches(f: File, b: Seq<u8>) -> bool {
    &&& f.properties is None
    &&& match spec_detect(b) {
        Some(Format::Opus) => f.data is Opus && f.data->Opus_0.xiph is None,
        Some(Format::Vorbis) => f.data is Vorbis && f.data->Vorbis_0.xiph is None,
        Some(Format::FLAC) => f.data is FLAC && f.data->FLAC_0.xiph is None
            && f.data->FLAC_0.id3v2 is None && f.data->FLAC_0.pictures@.len() == 0
            && id3v1_part_matches(f.data->FLAC_0.id3v1, b),
        Some(Format::MPEG) => f.data is MPEG && f.data->MPEG_0.id3v2 is None
            && id3v1_part_matches(f.data->MPEG_0.id3v1, b),
        Some(Format::MP4) => f.data is MP4 && f.data->MP4_0.tag is None,
        Some(Format::WAV) => f.data is WAV && f.data->WAV_0.id3v2 is None,
        None => false,
    }
}

/// The flat record a 128-byte trailer encodes.
fn parse_id3v1(tr: &Vec<u8>) -> (r: ID3v1Tag)
    requires
        tr@.len() == 128,
    ensures
        id3v1_tag_matches(r, tr@),
{
    let has_track: bool = tr[125] == 0 && tr[126] != 0;
    let title = parse_text(tr, 3, 33);
    let artist = parse_text(tr, 33, 63);
    let album = parse_text(tr, 63, 93);
    let comment = if has_track {
        parse_text(tr, 97, 125)
    } else {
        parse_text(tr, 97, 127)
    };
    let track: u32 = if has_track {
        tr[126] as u32
    } else {
        0
    };
    let year = parse_year(tr);
    let genre_index: u32 = tr[127] as u32;
    ID3v1Tag::new(title, artist, album, comment, track, year, genre_index)
}

/// The session: the sole owner of one opened file's resources, one stream
/// adapter and one root handle.  The root handle being empty is the
/// legitimate state of an unrecognized file, distinct from a stream failure.
#[derive(Debug)]
pub struct Session<S: IOStream> {
    pub stream: S,
    pub file: Option<File>,
}

impl<S: IOStream> Session<S> {
    /// Opens a file over the given stream: reads the container magic through
    /// the adapter, recognizes the format and materializes the legacy flat
    /// record when the stream ends in one.  Recognition moves only the
    /// stream's cursor; the bytes are untouched.
    pub fn open(stream: S) -> (r: Session<S>)
        requires
            stream.inv(),
        ensures
            r.stream.inv(),
            r.stream.contents() == stream.contents(),
            r.stream.readonly() == stream.readonly(),
            r.stream.name_spec() == stream.name_spec(),
            r.file is Some <==> spec_detect(stream.contents()) is Some,
            r.file is Some ==> spec_open_matches(r.file->0, stream.contents()),
    {
        let ghost b = stream.contents();
        let mut stream = stream;
        let total: i64 = stream.length();
        let _to_start = stream.seek(0, Whence::Start);
        let header: Vec<u8> = stream.read_block(290);
        let hlen: usize = header.len();
        proof {
            assert(hlen as int == vstd::math::min(290, b.len() as int));
            assert forall|i: int| 0 <= i < header@.len() implies header@[i] == b[i] by {
                assert(header@[i] == b.subrange(0, vstd::math::min(290, b.len() as int))[i]);
            }
        }
        let mut trailer_opt: Option<Vec<u8>> = None;
        if total >= 128 {
            let _to_trailer = stream.seek(-128, Whence::End);
            let t = stream.read_block(128);
            proof {
                assert(t@ =~= b.subrange(b.len() - 128, b.len() as int));
            }
            trailer_opt = Some(t);
        }
        let id3v1_opt: Option<ID3v1Tag> = match &trailer_opt {
            Some(t) => {
                proof {
                    assert(t@ =~= b.subrange(b.len() - 128, b.len() as int));
                    assert(t@[0] == b[b.len() - 128]);
                    assert(t@[1] == b[b.len() - 127]);
                    assert(t@[2] == b[b.len() - 126]);
                }
                if t[0] == 0x54 && t[1] == 0x41 && t[2] == 0x47 {
                    Some(parse_id3v1(t))
                } else {
                    None
                }
            },
            None => None,
        };
        proof {
            assert(id3v1_opt is Some <==> has_id3v1_trailer(b));
            assert(id3v1_part_matches(id3v1_opt, b));
        }
        let has_trailer: bool = id3v1_opt.is_some();
        let file: Option<File> = if hlen >= 4 && header[0] == 0x4f && header[1] == 0x67 && header[2]
            == 0x67 && header[3] == 0x53 {
            proof {
                assert(is_ogg(b));
            }
            if hlen >= 27 {
                let seg: usize = header[26] as usize;
                let off: usize = 27 + seg;
                if off + 8 <= hlen && header[off] == 0x4f && header[off + 1] == 0x70 && header[off
                    + 2] == 0x75 && header[off + 3] == 0x73 && header[off + 4] == 0x48 && header[off
                    + 5] == 0x65 && header[off + 6] == 0x61 && header[off + 7] == 0x64 {
                    proof {
                        assert(is_opus(b));
                    }
                    Some(File::new(FileData::Opus(OpusFile::new(None)), None))
                } else if off + 7 <= hlen && header[off] == 0x01 && header[off + 1] == 0x76
                    && header[off + 2] == 0x6f && header[off + 3] == 0x72 && header[off + 4] == 0x62
                    && header[off + 5] == 0x69 && header[off + 6] == 0x73 {
                    proof {
                        assert(!is_opus(b));
                        assert(is_vorbis(b));
                    }
                    Some(File::new(FileData::Vorbis(VorbisFile::new(None)), None))
                } else {
                    proof {
                        assert(!is_opus(b));
                        assert(!is_vorbis(b));
                    }
                    None
                }
            } else {
                proof {
                    assert(b.len() < 27);
                    assert(!is_opus(b));
                    assert(!is_vorbis(b));
                }
                None
            }
        } else if hlen >= 4 && header[0] == 0x66 && header[1] == 0x4c && header[2] == 0x61
            && header[3] == 0x43 {
            proof {
                assert(!is_ogg(b));
                assert(is_flac(b));
            }
            Some(File::new(FileData::FLAC(FLACFile::new(None, id3v1_opt, None, Vec::new())), None))
        } else if hlen >= 8 && header[4] == 0x66 && header[5] == 0x74 && header[6] == 0x79
            && header[7] == 0x70 {
            proof {
                assert(!is_ogg(b) && !is_flac(b));
                assert(is_mp4(b));
            }
            Some(File::new(FileData::MP4(MP4File::new(None)), None))
        } else if hlen >= 12 && header[0] == 0x52 && header[1] == 0x49 && header[2] == 0x46
            && header[3] == 0x46 && header[8] == 0x57 && header[9] == 0x41 && header[10] == 0x56
            && header[11] == 0x45 {
            proof {
                assert(!is_ogg(b) && !is_flac(b) && !is_mp4(b));
                assert(is_wav(b));
            }
            Some(File::new(FileData::WAV(WAVFile::new(None)), None))
        } else {
            let has_header_id3: bool = hlen >= 3 && header[0] == 0x49 && header[1] == 0x44
                && header[2] == 0x33;
            let has_sync: bool = hlen >= 2 && header[0] == 0xff && (header[1] & 0xe0) == 0xe0;
            if has_header_id3 || has_sync || has_trailer {
                proof {
                    assert(!is_ogg(b) && !is_flac(b) && !is_mp4(b) && !is_wav(b));
                    assert(is_mpeg(b));
                }
                Some(File::new(FileData::MPEG(MPEGFile::new(id3v1_opt, None)), None))
            } else {
                proof {
                    assert(!is_ogg(b) && !is_flac(b) && !is_mp4(b) && !is_wav(b) && !is_mpeg(b));
                    assert(spec_detect(b) is None);
                }
                None
            }
        };
        Session { stream, file }
    }

    /// The generic view over the opened file, or nothing when the container
    /// was not recognized.
    pub fn file(&self) -> (r: Option<&File>)
        ensures
            r is Some <==> self.file is Some,
            r is Some ==> *r->0 == self.file->0,
    {
        match &self.file {
            Some(f) => Some(f),
            None => None,
        }
    }

    /// Tears the session down in the safe order and hands the adapter back:
    /// the root handle, which refers into the adapter, is dropped first, and
    /// only then is the adapter released to the caller.
    pub fn close(self) -> (r: S)
        ensures
            r == self.stream,
    {
        let Session { stream, file } = self;
        // `file` goes out of scope here, before the adapter leaves.
        stream
    }
}

} // verus!
