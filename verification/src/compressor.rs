//! From the compression record of a descriptor to the settings of a codec.

use crate::error::DechunkError;
use vstd::prelude::*;

verus! {

/// The family of codecs that a descriptor may name. There is only one.
#[derive(Debug, Clone, Copy, PartialEq, Eq, Structural)]
pub enum CompressionId {
    Blosc,
}

/// How hard the codec tries; higher levels compress more.
#[derive(Debug, Clone, Copy, PartialEq, Eq, Structural)]
pub enum Clevel {
    L1,
    L2,
    L3,
    L4,
    L5,
    L6,
    L7,
    L8,
    L9,
}

/// The reordering of bytes that precedes compression.
#[derive(Debug, Clone, Copy, PartialEq, Eq, Structural)]
pub enum ShuffleMode {
    /// The bytes are compressed as they are.
    Unshuffled,
    /// Bytes of equal significance are brought together.
    Byte,
    /// Bits of equal significance are brought together.
    Bit,
}

/// The codecs on the allow-list.
#[derive(Debug, Clone, Copy, PartialEq, Eq, Structural)]
pub enum Codec {
    /// The fast general-purpose LZ variant.
    BloscLz,
    /// The byte-oriented fast codec.
    Lz4,
    /// Its high-compression variant.
    Lz4Hc,
    /// The network-style fast codec.
    Snappy,
    /// The deflate-family codec.
    Zlib,
}

impl Clevel {
    /// The number under which a descriptor gives this level.
    pub open spec fn number(self) -> int {
        match self {
            Clevel::L1 => 1,
            Clevel::L2 => 2,
            Clevel::L3 => 3,
            Clevel::L4 => 4,
            Clevel::L5 => 5,
            Clevel::L6 => 6,
            Clevel::L7 => 7,
            Clevel::L8 => 8,
            Clevel::L9 => 9,
        }
    }

    /// The level that a descriptor means by `n`, if it means one.
    pub open spec fn numbered(n: int) -> Option<Clevel> {
        if n == 1 {
            Some(Clevel::L1)
        } else if n == 2 {
            Some(Clevel::L2)
        } else if n == 3 {
            Some(Clevel::L3)
        } else if n == 4 {
            Some(Clevel::L4)
        } else if n == 5 {
            Some(Clevel::L5)
        } else if n == 6 {
            Some(Clevel::L6)
        } else if n == 7 {
            Some(Clevel::L7)
        } else if n == 8 {
            Some(Clevel::L8)
        } else if n == 9 {
            Some(Clevel::L9)
        } else {
            None
        }
    }

    /// Reads a level from its number.
    pub fn from_number(n: u8) -> (r: Option<Clevel>)
        ensures
            r == Clevel::numbered(n as int),
            r is Some <==> 1 <= n <= 9,
            r matches Some(level) ==> level.number() == n,
    {
        match n {
            1 => Some(Clevel::L1),
            2 => Some(Clevel::L2),
            3 => Some(Clevel::L3),
            4 => Some(Clevel::L4),
            5 => Some(Clevel::L5),
            6 => Some(Clevel::L6),
            7 => Some(Clevel::L7),
            8 => Some(Clevel::L8),
            9 => Some(Clevel::L9),
            _ => None,
        }
    }
}

impl ShuffleMode {
    /// The number under which a descriptor gives this mode.
    pub open spec fn number(self) -> int {
        match self {
            ShuffleMode::Unshuffled => 0,
            ShuffleMode::Byte => 1,
            ShuffleMode::Bit => 2,
        }
    }

    /// The mode that a descriptor means by `n`, if it means one.
    pub open spec fn numbered(n: int) -> Option<ShuffleMode> {
        if n == 0 {
            Some(ShuffleMode::Unshuffled)
        } else if n == 1 {
            Some(ShuffleMode::Byte)
        } else if n == 2 {
            Some(ShuffleMode::Bit)
        } else {
            None
        }
    }

    /// Reads a shuffle mode from its number.
    pub fn from_number(n: u8) -> (r: Option<ShuffleMode>)
        ensures
            r == ShuffleMode::numbered(n as int),
            r is Some <==> n <= 2,
            r matches Some(mode) ==> mode.number() == n,
    {
        match n {
            0 => Some(ShuffleMode::Unshuffled),
            1 => Some(ShuffleMode::Byte),
            2 => Some(ShuffleMode::Bit),
            _ => None,
        }
    }
}

impl Codec {
    /// The name under which a descriptor gives this codec.
    pub open spec fn name(self) -> Seq<char> {
        match self {
            Codec::BloscLz => "blosclz"@,
            Codec::Lz4 => "lz4"@,
            Codec::Lz4Hc => "lz4hc"@,
            Codec::Snappy => "snappy"@,
            Codec::Zlib => "zlib"@,
        }
    }

    /// The codec that a descriptor means by `name`, if it means one.
    pub open spec fn named(name: Seq<char>) -> Option<Codec> {
        if name == Codec::BloscLz.name() {
            Some(Codec::BloscLz)
        } else if name == Codec::Lz4.name() {
            Some(Codec::Lz4)
        } else if name == Codec::Lz4Hc.name() {
            Some(Codec::Lz4Hc)
        } else if name == Codec::Snappy.name() {
            Some(Codec::Snappy)
        } else if name == Codec::Zlib.name() {
            Some(Codec::Zlib)
        } else {
            None
        }
    }

    /// No two codecs share a name, so a name stands for the codec that bears it
    /// and for no other.
    pub proof fn lemma_named_inverts_name(name: Seq<char>, codec: Codec)
        ensures
            Codec::named(name) == Some(codec) <==> name == codec.name(),
    {
        reveal_strlit("blosclz");
        reveal_strlit("lz4");
        reveal_strlit("lz4hc");
        reveal_strlit("snappy");
        reveal_strlit("zlib");
        assert("blosclz"@.len() == 7);
        assert("lz4"@.len() == 3);
        assert("lz4hc"@.len() == 5);
        assert("snappy"@.len() == 6);
        assert("zlib"@.len() == 4);
    }

    /// Reads a codec from its name.
    pub fn from_name(name: &String) -> (r: Option<Codec>)
        ensures
            r == Codec::named(name@),
    {
        if *name == String::from_str("blosclz") {
            Some(Codec::BloscLz)
        } else if *name == String::from_str("lz4") {
            Some(Codec::Lz4)
        } else if *name == String::from_str("lz4hc") {
            Some(Codec::Lz4Hc)
        } else if *name == String::from_str("snappy") {
            Some(Codec::Snappy)
        } else if *name == String::from_str("zlib") {
            Some(Codec::Zlib)
        } else {
            None
        }
    }
}

/// The compression record of a descriptor, as it was written there.
#[derive(Debug, PartialEq, Eq)]
pub struct CompressorConfig {
    pub blocksize: u8,
    pub clevel: u8,
    pub cname: String,
    pub id: CompressionId,
    pub shuffle: u8,
}

/// A compression record with its text taken as a sequence of characters.
pub struct CompressorConfigView {
    pub blocksize: u8,
    pub clevel: u8,
    pub cname: Seq<char>,
    pub id: CompressionId,
    pub shuffle: u8,
}

impl View for CompressorConfig {
    type V = CompressorConfigView;

    open spec fn view(&self) -> CompressorConfigView {
        CompressorConfigView {
            blocksize: self.blocksize,
            clevel: self.clevel,
            cname: self.cname@,
            id: self.id,
            shuffle: self.shuffle,
        }
    }
}

impl Clone for CompressorConfig {
    fn clone(&self) -> (res: Self)
        ensures
            res == *self,
    {
        CompressorConfig {
            blocksize: self.blocksize,
            clevel: self.clevel,
            cname: self.cname.clone(),
            id: self.id,
            shuffle: self.shuffle,
        }
    }
}

/// What a codec needs to know to compress: which codec, how hard, and how
/// the bytes are shuffled first. The block size is left to the codec.
#[derive(Debug, Clone, Copy, PartialEq, Eq, Structural)]
pub struct CompressorHandle {
    pub codec: Codec,
    pub level: Clevel,
    pub shuffle: ShuffleMode,
}

/// The settings that a compression record stands for. The level is looked at
/// first, then the shuffle mode, then the codec's name; the first of them
/// that is not recognized decides the error.
pub open spec fn resolve(config: CompressorConfigView) -> Result<CompressorHandle, DechunkError> {
    match Clevel::numbered(config.clevel as int) {
        None => Err(DechunkError::UnsupportedLevel),
        Some(level) => match ShuffleMode::numbered(config.shuffle as int) {
            None => Err(DechunkError::UnsupportedShuffle),
            Some(shuffle) => match Codec::named(config.cname) {
                None => Err(DechunkError::UnsupportedCodec),
                Some(codec) => Ok(CompressorHandle { codec, level, shuffle }),
            },
        },
    }
}

/// A record resolves to given settings exactly when its three entries are
/// the number of that level, the number of that shuffle mode and the name of
/// that codec.
pub proof fn lemma_resolve_ok(config: CompressorConfigView, handle: CompressorHandle)
    ensures
        resolve(config) == Ok::<CompressorHandle, DechunkError>(handle) <==> {
            &&& config.clevel == handle.level.number()
            &&& config.shuffle == handle.shuffle.number()
            &&& config.cname == handle.codec.name()
        },
{
    Codec::lemma_named_inverts_name(config.cname, handle.codec);
}

/// A record fails to resolve exactly when one of its entries is off its list,
/// and the error names the first such entry.
pub proof fn lemma_resolve_err(config: CompressorConfigView)
    ensures
        resolve(config) == Err::<CompressorHandle, DechunkError>(DechunkError::UnsupportedLevel)
            <==> !(1 <= config.clevel <= 9),
        resolve(config) == Err::<CompressorHandle, DechunkError>(DechunkError::UnsupportedShuffle)
            <==> 1 <= config.clevel <= 9 && config.shuffle > 2,
        resolve(config) == Err::<CompressorHandle, DechunkError>(DechunkError::UnsupportedCodec)
            <==> 1 <= config.clevel <= 9 && config.shuffle <= 2 && Codec::named(config.cname)
            is None,
        resolve(config) is Err <==> !(1 <= config.clevel <= 9) || config.shuffle > 2
            || Codec::named(config.cname) is None,
{
}

impl CompressorConfig {
    /// Works out the codec settings that this record asks for, or says which
    /// entry of it is not supported.
    pub fn compressor_from_config(&self) -> (r: Result<CompressorHandle, DechunkError>)
        ensures
            r == resolve(self@),
    {
        let level = match Clevel::from_number(self.clevel) {
            Some(level) => level,
            None => {
                return Err(DechunkError::UnsupportedLevel);
            },
        };
        let shuffle = match ShuffleMode::from_number(self.shuffle) {
            Some(shuffle) => shuffle,
            None => {
                return Err(DechunkError::UnsupportedShuffle);
            },
        };
        let codec = match Codec::from_name(&self.cname) {
            Some(codec) => codec,
            None => {
                return Err(DechunkError::UnsupportedCodec);
            },
        };
        Ok(CompressorHandle { codec, level, shuffle })
    }
}

} // verus!
