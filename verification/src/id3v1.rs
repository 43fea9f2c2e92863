//! The legacy flat tag record: fixed scalar fields, each copied out
//! independently.
use vstd::prelude::*;

verus! {

/// A flat single-value tag record: title, artist, album, comment, track
/// number, year and genre index.
#[derive(Debug, Clone, PartialEq)]
pub struct ID3v1Tag {
    pub title: String,
    pub artist: String,
    pub album: String,
    pub comment: String,
    pub track: u32,
    pub year: u32,
    pub genre_index: u32,
}

impl ID3v1Tag {
    pub fn new(
        title: String,
        artist: String,
        album: String,
        comment: String,
        track: u32,
        year: u32,
        genre_index: u32,
    ) -> (r: ID3v1Tag)
        ensures
            r.title == title,
            r.artist == artist,
            r.album == album,
            r.comment == comment,
            r.track == track,
            r.year == year,
            r.genre_index == genre_index,
    {
        ID3v1Tag { title, artist, album, comment, track, year, genre_index }
    }

    pub fn title(&self) -> (r: &String)
        ensures
            r == &self.title,
    {
        &self.title
    }

    pub fn artist(&self) -> (r: &String)
        ensures
            r == &self.artist,
    {
        &self.artist
    }

    pub fn album(&self) -> (r: &String)
        ensures
            r == &self.album,
    {
        &self.album
    }

    pub fn comment(&self) -> (r: &String)
        ensures
            r == &self.comment,
    {
        &self.comment
    }

    pub fn genre_index(&self) -> (r: u32)
        ensures
            r == self.genre_index,
    {
        self.genre_index
    }

    pub fn year(&self) -> (r: u32)
        ensures
            r == self.year,
    {
        self.year
    }

    pub fn track(&self) -> (r: u32)
        ensures
            r == self.track,
    {
        self.track
    }
}

} // verus!
