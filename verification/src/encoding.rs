//! Message encodings, selected by name, and the codec that each one uses on
//! the wire.

use vstd::prelude::*;
use crate::text::same_text;

verus! {

/// An encoding that a user can ask for.
#[derive(Clone, Copy, Debug, PartialEq, Eq, Structural)]
pub enum Encoding {
    Json,
    MsgPack,
    Cbor,
    Protobuf,
}

/// A codec that turns a record into bytes and back.
#[derive(Clone, Copy, Debug, PartialEq, Eq, Structural)]
pub enum Codec {
    Json,
    MsgPack,
    Cbor,
}

/// Why no codec could be selected.
#[derive(Clone, Copy, Debug, PartialEq, Eq, Structural)]
pub enum CodecError {
    /// The name is none of the four known encodings.
    UnsupportedEncoding,
}

/// The encoding that a name selects, if any. Names are matched exactly.
pub open spec fn encoding_named(name: Seq<char>) -> Option<Encoding> {
    if name == "json"@ {
        Some(Encoding::Json)
    } else if name == "msgpack"@ {
        Some(Encoding::MsgPack)
    } else if name == "cbor"@ {
        Some(Encoding::Cbor)
    } else if name == "protobuf"@ {
        Some(Encoding::Protobuf)
    } else {
        None
    }
}

/// What `select_codec` returns for a name.
pub open spec fn codec_named(name: Seq<char>) -> Result<Codec, CodecError> {
    match encoding_named(name) {
        Some(encoding) => Ok(encoding.spec_codec()),
        None => Err(CodecError::UnsupportedEncoding),
    }
}

impl Encoding {
    /// The name by which this encoding is selected.
    pub open spec fn spec_name(self) -> Seq<char> {
        match self {
            Encoding::Json => "json"@,
            Encoding::MsgPack => "msgpack"@,
            Encoding::Cbor => "cbor"@,
            Encoding::Protobuf => "protobuf"@,
        }
    }

    /// The codec used on the wire. The schema-based encoding has no codec of
    /// its own yet and is carried as JSON.
    pub open spec fn spec_codec(self) -> Codec {
        match self {
            Encoding::Json => Codec::Json,
            Encoding::MsgPack => Codec::MsgPack,
            Encoding::Cbor => Codec::Cbor,
            Encoding::Protobuf => Codec::Json,
        }
    }

    /// Looks an encoding up by name.
    pub fn from_name(name: &str) -> (found: Option<Encoding>)
        ensures
            found == encoding_named(name@),
    {
        if same_text(name, "json") {
            Some(Encoding::Json)
        } else if same_text(name, "msgpack") {
            Some(Encoding::MsgPack)
        } else if same_text(name, "cbor") {
            Some(Encoding::Cbor)
        } else if same_text(name, "protobuf") {
            Some(Encoding::Protobuf)
        } else {
            None
        }
    }

    /// The name by which this encoding is selected.
    pub fn name(self) -> (name: &'static str)
        ensures
            name@ == self.spec_name(),
    {
        match self {
            Encoding::Json => "json",
            Encoding::MsgPack => "msgpack",
            Encoding::Cbor => "cbor",
            Encoding::Protobuf => "protobuf",
        }
    }

    /// The codec used on the wire for this encoding.
    pub fn codec(self) -> (codec: Codec)
        ensures
            codec == self.spec_codec(),
    {
        match self {
            Encoding::Json => Codec::Json,
            Encoding::MsgPack => Codec::MsgPack,
            Encoding::Cbor => Codec::Cbor,
            Encoding::Protobuf => Codec::Json,
        }
    }
}

impl CodecError {
    /// What to tell the user about this error.
    pub fn message(self) -> (text: &'static str)
        ensures
            text@ == "Unsupported encoding"@,
    {
        "Unsupported encoding"
    }
}

/// Selects the codec for an encoding given by name: the codec of the encoding
/// with that name, or an error where no encoding has it.
pub fn select_codec(name: &str) -> (selected: Result<Codec, CodecError>)
    ensures
        selected == codec_named(name@),
{
    match Encoding::from_name(name) {
        Some(encoding) => Ok(encoding.codec()),
        None => Err(CodecError::UnsupportedEncoding),
    }
}

/// Each encoding is found again under its own name, so no two encodings share
/// a name.
pub proof fn lemma_name_selects_encoding(encoding: Encoding)
    ensures
        encoding_named(encoding.spec_name()) == Some(encoding),
        codec_named(encoding.spec_name()) == Ok::<Codec, CodecError>(encoding.spec_codec()),
{
    reveal_strlit("json");
    reveal_strlit("msgpack");
    reveal_strlit("cbor");
    reveal_strlit("protobuf");
    assert("json"@.len() == 4);
    assert("msgpack"@.len() == 7);
    assert("cbor"@.len() == 4);
    assert("protobuf"@.len() == 8);
    assert("json"@[0] == 'j');
    assert("cbor"@[0] == 'c');
}

} // verus!
