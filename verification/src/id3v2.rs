//! The structured frame-list tag: an ordered sequence of frames, each
//! downcastable into a text-identification, user-text or attached-picture
//! frame.
use vstd::prelude::*;

verus! {

/// The classification a picture frame carries.
#[derive(Clone, Copy, Debug, PartialEq, Eq, Structural)]
pub enum PictureType {
    Other,
    FileIcon,
    OtherFileIcon,
    FrontCover,
    BackCover,
    LeafletPage,
    Media,
    LeadArtist,
    Artist,
    Conductor,
    Band,
    Composer,
    Lyricist,
    RecordingLocation,
    DuringRecording,
    DuringPerformance,
    MovieScreenCapture,
    ColoredFish,
    Illustration,
    BandLogo,
    PublisherLogo,
}

/// The picture type a raw classification code stands for, if any.
pub open spec fn picture_type_of(value: u32) -> Option<PictureType> {
    if value == 0 {
        Some(PictureType::Other)
    } else if value == 1 {
        Some(PictureType::FileIcon)
    } else if value == 2 {
        Some(PictureType::OtherFileIcon)
    } else if value == 3 {
        Some(PictureType::FrontCover)
    } else if value == 4 {
        Some(PictureType::BackCover)
    } else if value == 5 {
        Some(PictureType::LeafletPage)
    } else if value == 6 {
        Some(PictureType::Media)
    } else if value == 7 {
        Some(PictureType::LeadArtist)
    } else if value == 8 {
        Some(PictureType::Artist)
    } else if value == 9 {
        Some(PictureType::Conductor)
    } else if value == 10 {
        Some(PictureType::Band)
    } else if value == 11 {
        Some(PictureType::Composer)
    } else if value == 12 {
        Some(PictureType::Lyricist)
    } else if value == 13 {
        Some(PictureType::RecordingLocation)
    } else if value == 14 {
        Some(PictureType::DuringRecording)
    } else if value == 15 {
        Some(PictureType::DuringPerformance)
    } else if value == 16 {
        Some(PictureType::MovieScreenCapture)
    } else if value == 17 {
        Some(PictureType::ColoredFish)
    } else if value == 18 {
        Some(PictureType::Illustration)
    } else if value == 19 {
        Some(PictureType::BandLogo)
    } else if value == 20 {
        Some(PictureType::PublisherLogo)
    } else {
        None
    }
}

impl PictureType {
    /// The picture type for a raw classification code; codes outside the
    /// known range have none.
    pub fn from_u32(value: u32) -> (r: Option<PictureType>)
        ensures
            r == picture_type_of(value),
    {
        match value {
            0 => Some(PictureType::Other),
            1 => Some(PictureType::FileIcon),
            2 => Some(PictureType::OtherFileIcon),
            3 => Some(PictureType::FrontCover),
            4 => Some(PictureType::BackCover),
            5 => Some(PictureType::LeafletPage),
            6 => Some(PictureType::Media),
            7 => Some(PictureType::LeadArtist),
            8 => Some(PictureType::Artist),
            9 => Some(PictureType::Conductor),
            10 => Some(PictureType::Band),
            11 => Some(PictureType::Composer),
            12 => Some(PictureType::Lyricist),
            13 => Some(PictureType::RecordingLocation),
            14 => Some(PictureType::DuringRecording),
            15 => Some(PictureType::DuringPerformance),
            16 => Some(PictureType::MovieScreenCapture),
            17 => Some(PictureType::ColoredFish),
            18 => Some(PictureType::Illustration),
            19 => Some(PictureType::BandLogo),
            20 => Some(PictureType::PublisherLogo),
            _ => None,
        }
    }
}

/// A text-identification frame: one ordered field list.
#[derive(Debug, Clone, PartialEq)]
pub struct TextIdentificationFrame {
    pub fields: Vec<String>,
}

impl TextIdentificationFrame {
    pub fn new(fields: Vec<String>) -> (r: TextIdentificationFrame)
        ensures
            r.fields == fields,
    {
        TextIdentificationFrame { fields }
    }

    /// The ordered field list of the frame.
    pub fn field_list(&self) -> (r: &Vec<String>)
        ensures
            r == &self.fields,
    {
        &self.fields
    }
}

/// A user-text frame: a field list where, by convention, the first element is
/// a description and the rest are values.
#[derive(Debug, Clone, PartialEq)]
pub struct UserTextIdentificationFrame {
    pub fields: Vec<String>,
}

impl UserTextIdentificationFrame {
    pub fn new(fields: Vec<String>) -> (r: UserTextIdentificationFrame)
        ensures
            r.fields == fields,
    {
        UserTextIdentificationFrame { fields }
    }

    /// The field list: description first, then the values.
    pub fn values(&self) -> (r: &Vec<String>)
        ensures
            r == &self.fields,
    {
        &self.fields
    }
}

/// An attached-picture frame: a binary payload and a raw classification code.
#[derive(Debug, Clone, PartialEq)]
pub struct AttachedPictureFrame {
    pub picture_type_code: u32,
    pub picture: Vec<u8>,
}

impl AttachedPictureFrame {
    pub fn new(picture_type_code: u32, picture: Vec<u8>) -> (r: AttachedPictureFrame)
        ensures
            r.picture_type_code == picture_type_code,
            r.picture == picture,
    {
        AttachedPictureFrame { picture_type_code, picture }
    }

    /// The recognized classification of the picture, if any.  An absent
    /// classification never withholds the raw bytes.
    pub fn picture_type(&self) -> (r: Option<PictureType>)
        ensures
            r == picture_type_of(self.picture_type_code),
    {
        PictureType::from_u32(self.picture_type_code)
    }

    /// The binary payload of the picture.
    pub fn picture(&self) -> (r: &Vec<u8>)
        ensures
            r == &self.picture,
    {
        &self.picture
    }
}

/// What one frame holds once downcast.
#[derive(Debug, Clone, PartialEq)]
pub enum FrameBody {
    TextIdentification(TextIdentificationFrame),
    UserTextIdentification(UserTextIdentificationFrame),
    AttachedPicture(AttachedPictureFrame),
    Other,
}

/// One structured entry of a frame-list tag: an identifier and a sub-typed
/// body reached through runtime-checked downcasts.
#[derive(Debug, Clone, PartialEq)]
pub struct Frame {
    pub id: String,
    pub body: FrameBody,
}

impl Frame {
    pub fn new(id: String, body: FrameBody) -> (r: Frame)
        ensures
            r.id == id,
            r.body == body,
    {
        Frame { id, body }
    }

    /// The frame identifier.
    pub fn id(&self) -> (r: &String)
        ensures
            r == &self.id,
    {
        &self.id
    }

    /// Downcast to a text-identification frame; yields nothing when the frame
    /// is of another kind.
    pub fn as_text_identification(&self) -> (r: Option<&TextIdentificationFrame>)
        ensures
            r is Some <==> self.body is TextIdentification,
            r is Some ==> *r->0 == self.body->TextIdentification_0,
    {
        match &self.body {
            FrameBody::TextIdentification(f) => Some(f),
            _ => None,
        }
    }

    /// Downcast to a user-text frame; yields nothing when the frame is of
    /// another kind.
    pub fn as_user_text_identification(&self) -> (r: Option<&UserTextIdentificationFrame>)
        ensures
            r is Some <==> self.body is UserTextIdentification,
            r is Some ==> *r->0 == self.body->UserTextIdentification_0,
    {
        match &self.body {
            FrameBody::UserTextIdentification(f) => Some(f),
            _ => None,
        }
    }

    /// Downcast to an attached-picture frame; yields nothing when the frame
    /// is of another kind.
    pub fn as_attached_picture(&self) -> (r: Option<&AttachedPictureFrame>)
        ensures
            r is Some <==> self.body is AttachedPicture,
            r is Some ==> *r->0 == self.body->AttachedPicture_0,
    {
        match &self.body {
            FrameBody::AttachedPicture(f) => Some(f),
            _ => None,
        }
    }
}

/// A structured frame-list tag: an ordered sequence of frames.
#[derive(Debug, Clone, PartialEq)]
pub struct ID3v2Tag {
    pub frames: Vec<Frame>,
}

impl ID3v2Tag {
    pub fn new(frames: Vec<Frame>) -> (r: ID3v2Tag)
        ensures
            r.frames == frames,
    {
        ID3v2Tag { frames }
    }

    /// The ordered frames of the tag.
    pub fn frames(&self) -> (r: &Vec<Frame>)
        ensures
            r == &self.frames,
    {
        &self.frames
    }
}

} // verus!
