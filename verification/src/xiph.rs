//! The field-map tag: format-defined short keys mapped to ordered lists of
//! free text, plus embedded pictures.
use vstd::prelude::*;
use crate::flac::FLACPicture;
use crate::tagmap::TagEntry;

verus! {

/// The ordered key to value-list mapping of a field-map tag.
#[derive(Debug, Clone, PartialEq)]
pub struct FieldListMap {
    pub entries: Vec<TagEntry>,
}

impl FieldListMap {
    pub fn new(entries: Vec<TagEntry>) -> (r: FieldListMap)
        ensures
            r.entries == entries,
    {
        FieldListMap { entries }
    }

    /// The ordered (key, value-list) pairs of the map.  Extraction is a pure
    /// read: every call yields the same pairs in the same order.
    pub fn to_hashmap(&self) -> (r: &Vec<TagEntry>)
        ensures
            r == &self.entries,
    {
        &self.entries
    }
}

/// Extracting the field map twice from the same tag view yields identical
/// (key, value-list) pairs in identical order.
pub proof fn lemma_field_map_idempotent(
    m: &FieldListMap,
    r1: &Vec<TagEntry>,
    r2: &Vec<TagEntry>,
)
    requires
        r1 == &m.entries,
        r2 == &m.entries,
    ensures
        r1 == r2,
        r1.deep_view() =~= r2.deep_view(),
{
}

/// A field-map tag together with its embedded pictures.
#[derive(Debug, Clone, PartialEq)]
pub struct XiphComment {
    pub fields: FieldListMap,
    pub pictures: Vec<FLACPicture>,
}

impl XiphComment {
    pub fn new(fields: FieldListMap, pictures: Vec<FLACPicture>) -> (r: XiphComment)
        ensures
            r.fields == fields,
            r.pictures == pictures,
    {
        XiphComment { fields, pictures }
    }

    /// The key to value-list map of the tag.
    pub fn field_list_map(&self) -> (r: &FieldListMap)
        ensures
            r == &self.fields,
    {
        &self.fields
    }

    /// The embedded pictures, in file order.
    pub fn picture_list(&self) -> (r: &Vec<FLACPicture>)
        ensures
            r == &self.pictures,
    {
        &self.pictures
    }
}

} // verus!
