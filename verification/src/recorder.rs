//! Output formats of the movie recorder.

use vstd::prelude::*;

verus! {

/// Container or codec that a recording is written in.
#[derive(Clone, Copy, Debug, PartialEq, Eq, Structural)]
pub enum Codec {
    WebM,
    H264,
    TGA,
    WAV,
}

impl Codec {
    /// The argument that selects this codec on the game's `startmovie` command.
    pub open spec fn spec_params(self) -> Seq<char> {
        match self {
            Codec::WebM => "webm"@,
            Codec::H264 => "h264"@,
            Codec::TGA => "raw"@,
            Codec::WAV => "wav"@,
        }
    }

    /// Returns the `startmovie` argument for this codec.
    pub fn params(&self) -> (r: String)
        ensures
            r@ == self.spec_params(),
    {
        match self {
            Codec::WebM => "webm".to_owned(),
            Codec::H264 => "h264".to_owned(),
            Codec::TGA => "raw".to_owned(),
            Codec::WAV => "wav".to_owned(),
        }
    }
}

} // verus!
