//! The legacy-frame format view: it can carry a legacy flat record and a
//! structured frame list.
use vstd::prelude::*;
use crate::id3v1::ID3v1Tag;
use crate::id3v2::ID3v2Tag;

verus! {

/// The format view for the legacy-frame container.
#[derive(Debug, Clone, PartialEq)]
pub struct MPEGFile {
    pub id3v1: Option<ID3v1Tag>,
    pub id3v2: Option<ID3v2Tag>,
}

impl MPEGFile {
    pub fn new(id3v1: Option<ID3v1Tag>, id3v2: Option<ID3v2Tag>) -> (r: MPEGFile)
        ensures
            r.id3v1 == id3v1,
            r.id3v2 == id3v2,
    {
        MPEGFile { id3v1, id3v2 }
    }

    /// The legacy flat record, when the file has one.
    pub fn id3v1_tag(&self) -> (r: Option<&ID3v1Tag>)
        ensures
            r is Some <==> self.id3v1 is Some,
            r is Some ==> *r->0 == self.id3v1->0,
    {
        match &self.id3v1 {
            Some(t) => Some(t),
            None => None,
        }
    }

    /// The structured frame-list tag, when the file has one.
    pub fn id3v2_tag(&self) -> (r: Option<&ID3v2Tag>)
        ensures
            r is Some <==> self.id3v2 is Some,
            r is Some ==> *r->0 == self.id3v2->0,
    {
        match &self.id3v2 {
            Some(t) => Some(t),
            None => None,
        }
    }
}

} // verus!
