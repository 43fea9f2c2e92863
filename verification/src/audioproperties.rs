//! Scalar audio properties borrowed from an opened file: duration, bitrate,
//! sample rate and channel count.
use vstd::prelude::*;

verus! {

/// The four scalar properties an opened file reports about its audio stream.
#[derive(Clone, Copy, Debug, PartialEq, Eq, Structural)]
pub struct AudioProperties {
    pub length_in_milliseconds: i32,
    pub bitrate: i32,
    pub sample_rate: i32,
    pub channels: i32,
}

impl AudioProperties {
    pub fn new(
        length_in_milliseconds: i32,
        bitrate: i32,
        sample_rate: i32,
        channels: i32,
    ) -> (r: AudioProperties)
        ensures
            r.length_in_milliseconds == length_in_milliseconds,
            r.bitrate == bitrate,
            r.sample_rate == sample_rate,
            r.channels == channels,
    {
        AudioProperties { length_in_milliseconds, bitrate, sample_rate, channels }
    }

    pub fn length_in_milliseconds(&self) -> (r: i32)
        ensures
            r == self.length_in_milliseconds,
    {
        self.length_in_milliseconds
    }

    pub fn bitrate(&self) -> (r: i32)
        ensures
            r == self.bitrate,
    {
        self.bitrate
    }

    pub fn sample_rate(&self) -> (r: i32)
        ensures
            r == self.sample_rate,
    {
        self.sample_rate
    }

    pub fn channels(&self) -> (r: i32)
        ensures
            r == self.channels,
    {
        self.channels
    }
}

} // verus!
