//! The open-codec frame-stream format view: it can carry a legacy flat
//! record, a structured frame list and a field map at the same time, plus a
//! list of embedded pictures.
use vstd::prelude::*;
use crate::id3v1::ID3v1Tag;
use crate::id3v2::ID3v2Tag;
use crate::id3v2::PictureType;
use crate::id3v2::picture_type_of;
use crate::xiph::XiphComment;

verus! {

/// One embedded picture: a binary payload and a raw classification code.
#[derive(Debug, Clone, PartialEq)]
pub struct FLACPicture {
    pub picture_type_code: u32,
    pub data: Vec<u8>,
}

impl FLACPicture {
    pub fn new(picture_type_code: u32, data: Vec<u8>) -> (r: FLACPicture)
        ensures
            r.picture_type_code == picture_type_code,
            r.data == data,
    {
        FLACPicture { picture_type_code, data }
    }

    /// The recognized classification of the picture, if any.
    pub fn picture_type(&self) -> (r: Option<PictureType>)
        ensures
            r == picture_type_of(self.picture_type_code),
    {
        PictureType::from_u32(self.picture_type_code)
    }

    /// The binary payload of the picture.
    pub fn data(&self) -> (r: &Vec<u8>)
        ensures
            r == &self.data,
    {
        &self.data
    }
}

/// The format view for the open-codec frame-stream container.
#[derive(Debug, Clone, PartialEq)]
pub struct FLACFile {
    pub xiph: Option<XiphComment>,
    pub id3v1: Option<ID3v1Tag>,
    pub id3v2: Option<ID3v2Tag>,
    pub pictures: Vec<FLACPicture>,
}

impl FLACFile {
    pub fn new(
        xiph: Option<XiphComment>,
        id3v1: Option<ID3v1Tag>,
        id3v2: Option<ID3v2Tag>,
        pictures: Vec<FLACPicture>,
    ) -> (r: FLACFile)
        ensures
            r.xiph == xiph,
            r.id3v1 == id3v1,
            r.id3v2 == id3v2,
            r.pictures == pictures,
    {
        FLACFile { xiph, id3v1, id3v2, pictures }
    }

    /// The field-map tag, when the file has one.
    pub fn xiph_comments(&self) -> (r: Option<&XiphComment>)
        ensures
            r is Some <==> self.xiph is Some,
            r is Some ==> *r->0 == self.xiph->0,
    {
        match &self.xiph {
            Some(t) => Some(t),
            None => None,
        }
    }

    /// The legacy flat record, when the file has one.
    pub fn id3v1_tag(&self) -> (r: Option<&ID3v1Tag>)
        ensures
            r is Some <==> self.id3v1 is Some,
            r is Some ==> *r->0 == self.id3v1->0,
    {
        match &self.id3v1 {
            Some(t) => Some(t),
            None => None,
        }
    }

    /// The structured frame-list tag, when the file has one.
    pub fn id3v2_tag(&self) -> (r: Option<&ID3v2Tag>)
        ensures
            r is Some <==> self.id3v2 is Some,
            r is Some ==> *r->0 == self.id3v2->0,
    {
        match &self.id3v2 {
            Some(t) => Some(t),
            None => None,
        }
    }

    /// The embedded pictures, in file order.
    pub fn picture_list(&self) -> (r: &Vec<FLACPicture>)
        ensures
            r == &self.pictures,
    {
        &self.pictures
    }
}

} // verus!
