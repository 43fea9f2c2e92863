//! The chunked-container format views: both carry at most one field-map tag.
use vstd::prelude::*;
use crate::xiph::XiphComment;

verus! {

/// The format view for the chunked container in its base variant.
#[derive(Debug, Clone, PartialEq)]
pub struct VorbisFile {
    pub xiph: Option<XiphComment>,
}

impl VorbisFile {
    pub fn new(xiph: Option<XiphComment>) -> (r: VorbisFile)
        ensures
            r.xiph == xiph,
    {
        VorbisFile { xiph }
    }

    /// The field-map tag, when the file has one.
    pub fn xiph_comments(&self) -> (r: Option<&XiphComment>)
        ensures
            r is Some <==> self.xiph is Some,
            r is Some ==> *r->0 == self.xiph->0,
    {
        match &self.xiph {
            Some(t) => Some(t),
            None => None,
        }
    }
}

/// The format view for the chunked container in its low-latency variant.
#[derive(Debug, Clone, PartialEq)]
pub struct OpusFile {
    pub xiph: Option<XiphComment>,
}

impl OpusFile {
    pub fn new(xiph: Option<XiphComment>) -> (r: OpusFile)
        ensures
            r.xiph == xiph,
    {
        OpusFile { xiph }
    }

    /// The field-map tag, when the file has one.
    pub fn xiph_comments(&self) -> (r: Option<&XiphComment>)
        ensures
            r is Some <==> self.xiph is Some,
            r is Some ==> *r->0 == self.xiph->0,
    {
        match &self.xiph {
            Some(t) => Some(t),
            None => None,
        }
    }
}

} // verus!
