//! The RIFF-wrapped format view: it can carry a structured frame list only.
use vstd::prelude::*;
use crate::id3v2::ID3v2Tag;

verus! {

/// The format view for the RIFF-wrapped container.
#[derive(Debug, Clone, PartialEq)]
pub struct WAVFile {
    pub id3v2: Option<ID3v2Tag>,
}

impl WAVFile {
    pub fn new(id3v2: Option<ID3v2Tag>) -> (r: WAVFile)
        ensures
            r.id3v2 == id3v2,
    {
        WAVFile { id3v2 }
    }

    /// The structured frame-list tag, when the file has one.
    pub fn id3v2_tag(&self) -> (r: Option<&ID3v2Tag>)
        ensures
            r is Some <==> self.id3v2 is Some,
            r is Some ==> *r->0 == self.id3v2->0,
    {
        match &self.id3v2 {
            Some(t) => Some(t),
            None => None,
        }
    }
}

} // verus!
