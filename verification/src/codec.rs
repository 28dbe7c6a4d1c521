//! Names of the binary codecs that encode opaque objects.

use vstd::prelude::*;

verus! {

/// A binary codec.
#[derive(Clone, Debug, PartialEq, Eq)]
pub enum CodecId {
    Bincode,
    Postcard,
    Rkyv,
    Custom(String),
}

/// The name a codec is recorded under.
pub open spec fn codec_name(codec: CodecId) -> Seq<char> {
    match codec {
        CodecId::Bincode => "bincode"@,
        CodecId::Postcard => "postcard"@,
        CodecId::Rkyv => "rkyv"@,
        CodecId::Custom(value) => value@,
    }
}

impl CodecId {
    pub fn as_str(&self) -> (res: &str)
        ensures
            res@ == codec_name(*self),
    {
        match self {
            CodecId::Bincode => "bincode",
            CodecId::Postcard => "postcard",
            CodecId::Rkyv => "rkyv",
            CodecId::Custom(value) => value.as_str(),
        }
    }
}

} // verus!
