//! The root handle of an opened file and its format dispatch: runtime-checked
//! downcasts from the generic handle to one codec-specific view each.
use vstd::prelude::*;
use crate::audioproperties::AudioProperties;
use crate::flac::FLACFile;
use crate::mp4::MP4File;
use crate::mpeg::MPEGFile;
use crate::ogg::OpusFile;
use crate::ogg::VorbisFile;
use crate::riff::WAVFile;

verus! {

/// The codec-specific shape behind the generic root handle.  Exactly one
/// downcast matches it.
#[derive(Debug, Clone, PartialEq)]
pub enum FileData {
    Vorbis(VorbisFile),
    Opus(OpusFile),
    FLAC(FLACFile),
    MPEG(MPEGFile),
    MP4(MP4File),
    WAV(WAVFile),
}

/// The generic view over an opened file: its audio properties and the
/// container shape that format dispatch re-types.
#[derive(Debug, Clone, PartialEq)]
pub struct File {
    pub data: FileData,
    pub properties: Option<AudioProperties>,
}

impl File {
    pub fn new(data: FileData, properties: Option<AudioProperties>) -> (r: File)
        ensures
            r.data == data,
            r.properties == properties,
    {
        File { data, properties }
    }

    /// The audio properties block, when the file has one.
    pub fn audio_properties(&self) -> (r: Option<AudioProperties>)
        ensures
            r == self.properties,
    {
        self.properties
    }

    /// Downcast to the chunked container's base variant; yields nothing and
    /// leaves the file untouched when the container is of another format.
    pub fn as_vorbis(&self) -> (r: Option<&VorbisFile>)
        ensures
            r is Some <==> self.data is Vorbis,
            r is Some ==> *r->0 == self.data->Vorbis_0,
    {
        match &self.data {
            FileData::Vorbis(f) => Some(f),
            _ => None,
        }
    }

    /// Downcast to the chunked container's low-latency variant.
    pub fn as_opus(&self) -> (r: Option<&OpusFile>)
        ensures
            r is Some <==> self.data is Opus,
            r is Some ==> *r->0 == self.data->Opus_0,
    {
        match &self.data {
            FileData::Opus(f) => Some(f),
            _ => None,
        }
    }

    /// Downcast to the open-codec frame-stream format.
    pub fn as_flac(&self) -> (r: Option<&FLACFile>)
        ensures
            r is Some <==> self.data is FLAC,
            r is Some ==> *r->0 == self.data->FLAC_0,
    {
        match &self.data {
            FileData::FLAC(f) => Some(f),
            _ => None,
        }
    }

    /// Downcast to the legacy-frame format.
    pub fn as_mpeg(&self) -> (r: Option<&MPEGFile>)
        ensures
            r is Some <==> self.data is MPEG,
            r is Some ==> *r->0 == self.data->MPEG_0,
    {
        match &self.data {
            FileData::MPEG(f) => Some(f),
            _ => None,
        }
    }

    /// Downcast to the atom-box format.
    pub fn as_mp4(&self) -> (r: Option<&MP4File>)
        ensures
            r is Some <==> self.data is MP4,
            r is Some ==> *r->0 == self.data->MP4_0,
    {
        match &self.data {
            FileData::MP4(f) => Some(f),
            _ => None,
        }
    }

    /// Downcast to the RIFF-wrapped format.
    pub fn as_wav(&self) -> (r: Option<&WAVFile>)
        ensures
            r is Some <==> self.data is WAV,
            r is Some ==> *r->0 == self.data->WAV_0,
    {
        match &self.data {
            FileData::WAV(f) => Some(f),
            _ => None,
        }
    }
}

/// Format dispatch is exclusive: for one opened file, at most one downcast
/// matches, so at most one of the format views exists; every non-matching
/// downcast yields nothing.
pub proof fn lemma_dispatch_exclusive(f: &File)
    ensures
        f.data is Vorbis ==> !(f.data is Opus) && !(f.data is FLAC) && !(f.data is MPEG) && !(
        f.data is MP4) && !(f.data is WAV),
        f.data is Opus ==> !(f.data is Vorbis) && !(f.data is FLAC) && !(f.data is MPEG) && !(
        f.data is MP4) && !(f.data is WAV),
        f.data is FLAC ==> !(f.data is Vorbis) && !(f.data is Opus) && !(f.data is MPEG) && !(
        f.data is MP4) && !(f.data is WAV),
        f.data is MPEG ==> !(f.data is Vorbis) && !(f.data is Opus) && !(f.data is FLAC) && !(
        f.data is MP4) && !(f.data is WAV),
        f.data is MP4 ==> !(f.data is Vorbis) && !(f.data is Opus) && !(f.data is FLAC) && !(
        f.data is MPEG) && !(f.data is WAV),
        f.data is WAV ==> !(f.data is Vorbis) && !(f.data is Opus) && !(f.data is FLAC) && !(
        f.data is MPEG) && !(f.data is MP4),
{
}

} // verus!
