//! The atom-box format view: a typed item map whose values are a tagged
//! union, interrogated for their runtime type before any extraction.
use vstd::prelude::*;

verus! {

/// The runtime type tag of a typed item.
#[derive(Clone, Copy, Debug, PartialEq, Eq, Structural)]
pub enum MP4ItemType {
    Void,
    Bool,
    Int,
    IntPair,
    Byte,
    UInt,
    LongLong,
    StringList,
    ByteVectorList,
    CoverArtList,
}

/// The item type a raw type code stands for, if any.
pub open spec fn item_type_of(value: u32) -> Option<MP4ItemType> {
    if value == 0 {
        Some(MP4ItemType::Void)
    } else if value == 1 {
        Some(MP4ItemType::Bool)
    } else if value == 2 {
        Some(MP4ItemType::Int)
    } else if value == 3 {
        Some(MP4ItemType::IntPair)
    } else if value == 4 {
        Some(MP4ItemType::Byte)
    } else if value == 5 {
        Some(MP4ItemType::UInt)
    } else if value == 6 {
        Some(MP4ItemType::LongLong)
    } else if value == 7 {
        Some(MP4ItemType::StringList)
    } else if value == 8 {
        Some(MP4ItemType::ByteVectorList)
    } else if value == 9 {
        Some(MP4ItemType::CoverArtList)
    } else {
        None
    }
}

impl MP4ItemType {
    /// The item type for a raw type code; codes outside the known range have
    /// none.
    pub fn from_u32(value: u32) -> (r: Option<MP4ItemType>)
        ensures
            r == item_type_of(value),
    {
        match value {
            0 => Some(MP4ItemType::Void),
            1 => Some(MP4ItemType::Bool),
            2 => Some(MP4ItemType::Int),
            3 => Some(MP4ItemType::IntPair),
            4 => Some(MP4ItemType::Byte),
            5 => Some(MP4ItemType::UInt),
            6 => Some(MP4ItemType::LongLong),
            7 => Some(MP4ItemType::StringList),
            8 => Some(MP4ItemType::ByteVectorList),
            9 => Some(MP4ItemType::CoverArtList),
            _ => None,
        }
    }
}

/// The format of one cover-art image.
#[derive(Clone, Copy, Debug, PartialEq, Eq, Structural)]
pub enum CoverArtFormat {
    Unknown,
    BMP,
    JPEG,
    GIF,
    PNG,
}

/// The cover-art format a raw format code stands for; unknown codes fall back
/// to `Unknown`.
pub open spec fn cover_art_format_of(value: u32) -> CoverArtFormat {
    if value == 1 {
        CoverArtFormat::BMP
    } else if value == 2 {
        CoverArtFormat::JPEG
    } else if value == 3 {
        CoverArtFormat::GIF
    } else if value == 4 {
        CoverArtFormat::PNG
    } else {
        CoverArtFormat::Unknown
    }
}

impl CoverArtFormat {
    /// The cover-art format for a raw format code.
    pub fn from_u32(value: u32) -> (r: CoverArtFormat)
        ensures
            r == cover_art_format_of(value),
    {
        match value {
            1 => CoverArtFormat::BMP,
            2 => CoverArtFormat::JPEG,
            3 => CoverArtFormat::GIF,
            4 => CoverArtFormat::PNG,
            _ => CoverArtFormat::Unknown,
        }
    }
}

/// One cover-art image: a format tag and the binary payload.
#[derive(Debug, Clone, PartialEq)]
pub struct CoverArt {
    pub format: CoverArtFormat,
    pub data: Vec<u8>,
}

impl CoverArt {
    pub fn new(format: CoverArtFormat, data: Vec<u8>) -> (r: CoverArt)
        ensures
            r.format == format,
            r.data == data,
    {
        CoverArt { format, data }
    }

    /// The format tag of the image.
    pub fn format(&self) -> (r: CoverArtFormat)
        ensures
            r == self.format,
    {
        self.format
    }

    /// The binary payload of the image.
    pub fn data(&self) -> (r: &Vec<u8>)
        ensures
            r == &self.data,
    {
        &self.data
    }
}

/// A pair of integers, as a typed item can hold (for example track number and
/// track total).
#[derive(Clone, Copy, Debug, PartialEq, Eq, Structural)]
pub struct IntPair {
    pub first: i32,
    pub second: i32,
}

impl IntPair {
    pub fn new(first: i32, second: i32) -> (r: IntPair)
        ensures
            r.first == first,
            r.second == second,
    {
        IntPair { first, second }
    }

    /// The two integers of the pair.
    pub fn to_tuple(&self) -> (r: Option<(i32, i32)>)
        ensures
            r == Some((self.first, self.second)),
    {
        Some((self.first, self.second))
    }
}

/// The tagged union a typed item holds.
#[derive(Debug, Clone, PartialEq)]
pub enum MP4Data {
    Void,
    Bool(bool),
    Int(i32),
    Byte(u8),
    UInt(u32),
    LongLong(i64),
    IntPair(IntPair),
    StringList(Vec<String>),
    ByteVectorList(Vec<Vec<u8>>),
    CoverArtList(Vec<CoverArt>),
}

/// The runtime type tag that classifies a union value.
pub open spec fn data_type_of(d: &MP4Data) -> MP4ItemType {
    match d {
        MP4Data::Void => MP4ItemType::Void,
        MP4Data::Bool(_) => MP4ItemType::Bool,
        MP4Data::Int(_) => MP4ItemType::Int,
        MP4Data::Byte(_) => MP4ItemType::Byte,
        MP4Data::UInt(_) => MP4ItemType::UInt,
        MP4Data::LongLong(_) => MP4ItemType::LongLong,
        MP4Data::IntPair(_) => MP4ItemType::IntPair,
        MP4Data::StringList(_) => MP4ItemType::StringList,
        MP4Data::ByteVectorList(_) => MP4ItemType::ByteVectorList,
        MP4Data::CoverArtList(_) => MP4ItemType::CoverArtList,
    }
}

/// One typed item: its validity and its tagged-union value.  The runtime tag
/// is read first, and only the extraction matching that tag is performed.
#[derive(Debug, Clone, PartialEq)]
pub struct MP4Item {
    pub valid: bool,
    pub value: MP4Data,
}

impl MP4Item {
    pub fn new(valid: bool, value: MP4Data) -> (r: MP4Item)
        ensures
            r.valid == valid,
            r.value == value,
    {
        MP4Item { valid, value }
    }

    /// The runtime type tag of the item's value.
    pub fn item_type(&self) -> (r: MP4ItemType)
        ensures
            r == data_type_of(&self.value),
    {
        match &self.value {
            MP4Data::Void => MP4ItemType::Void,
            MP4Data::Bool(_) => MP4ItemType::Bool,
            MP4Data::Int(_) => MP4ItemType::Int,
            MP4Data::Byte(_) => MP4ItemType::Byte,
            MP4Data::UInt(_) => MP4ItemType::UInt,
            MP4Data::LongLong(_) => MP4ItemType::LongLong,
            MP4Data::IntPair(_) => MP4ItemType::IntPair,
            MP4Data::StringList(_) => MP4ItemType::StringList,
            MP4Data::ByteVectorList(_) => MP4ItemType::ByteVectorList,
            MP4Data::CoverArtList(_) => MP4ItemType::CoverArtList,
        }
    }

    /// The value of the item, when the item is valid.
    pub fn data(&self) -> (r: Option<&MP4Data>)
        ensures
            r is Some <==> self.valid,
            r is Some ==> *r->0 == self.value,
    {
        if self.valid {
            Some(&self.value)
        } else {
            None
        }
    }
}

/// The value a valid item hands out carries exactly the runtime tag the item
/// reports: extraction under any other tag never sees data.
pub proof fn lemma_item_type_safety(item: &MP4Item, d: &MP4Data, t: MP4ItemType)
    requires
        item.valid,
        d == &item.value,
        t != data_type_of(&item.value),
    ensures
        data_type_of(d) == data_type_of(&item.value),
        data_type_of(d) != t,
{
}

/// One key of the item map together with its typed item.
#[derive(Debug, Clone, PartialEq)]
pub struct ItemEntry {
    pub key: String,
    pub item: MP4Item,
}

/// The typed key to item mapping of an atom-box tag, in file order.
#[derive(Debug, Clone, PartialEq)]
pub struct ItemMap {
    pub entries: Vec<ItemEntry>,
}

impl ItemMap {
    pub fn new(entries: Vec<ItemEntry>) -> (r: ItemMap)
        ensures
            r.entries == entries,
    {
        ItemMap { entries }
    }

    /// The ordered (key, item) pairs of the map.
    pub fn to_hashmap(&self) -> (r: &Vec<ItemEntry>)
        ensures
            r == &self.entries,
    {
        &self.entries
    }
}

/// The tag view of the atom-box format: one typed item map.
#[derive(Debug, Clone, PartialEq)]
pub struct MP4Tag {
    pub items: ItemMap,
}

impl MP4Tag {
    pub fn new(items: ItemMap) -> (r: MP4Tag)
        ensures
            r.items == items,
    {
        MP4Tag { items }
    }

    /// The typed item map of the tag.
    pub fn item_map(&self) -> (r: &ItemMap)
        ensures
            r == &self.items,
    {
        &self.items
    }
}

/// The format view for the atom-box container.
#[derive(Debug, Clone, PartialEq)]
pub struct MP4File {
    pub tag: Option<MP4Tag>,
}

impl MP4File {
    pub fn new(tag: Option<MP4Tag>) -> (r: MP4File)
        ensures
            r.tag == tag,
    {
        MP4File { tag }
    }

    /// The atom-box tag, when the file has one.
    pub fn tag(&self) -> (r: Option<&MP4Tag>)
        ensures
            r is Some <==> self.tag is Some,
            r is Some ==> *r->0 == self.tag->0,
    {
        match &self.tag {
            Some(t) => Some(t),
            None => None,
        }
    }
}

} // verus!
