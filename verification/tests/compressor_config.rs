use dechunkrs::compressor::{
    Clevel, Codec, CompressionId, CompressorConfig, CompressorHandle, ShuffleMode,
};
use dechunkrs::error::DechunkError;

fn config(clevel: u8, cname: &str, shuffle: u8) -> CompressorConfig {
    CompressorConfig {
        blocksize: 0,
        clevel,
        cname: cname.to_string(),
        id: CompressionId::Blosc,
        shuffle,
    }
}

#[test]
fn resolves_fast_lz_level_five_unshuffled() {
    assert_eq!(
        config(5, "lz4", 0).compressor_from_config(),
        Ok(CompressorHandle {
            codec: Codec::Lz4,
            level: Clevel::L5,
            shuffle: ShuffleMode::Unshuffled,
        })
    );
}

#[test]
fn resolves_every_codec_on_the_list() {
    let names = [
        ("blosclz", Codec::BloscLz),
        ("lz4", Codec::Lz4),
        ("lz4hc", Codec::Lz4Hc),
        ("snappy", Codec::Snappy),
        ("zlib", Codec::Zlib),
    ];
    for (name, codec) in names {
        let handle = config(1, name, 1).compressor_from_config().unwrap();
        assert_eq!(handle.codec, codec);
        assert_eq!(Codec::from_name(&name.to_string()), Some(codec));
    }
}

#[test]
fn resolves_every_level() {
    let levels = [
        Clevel::L1,
        Clevel::L2,
        Clevel::L3,
        Clevel::L4,
        Clevel::L5,
        Clevel::L6,
        Clevel::L7,
        Clevel::L8,
        Clevel::L9,
    ];
    for (i, level) in levels.iter().enumerate() {
        let n = (i + 1) as u8;
        assert_eq!(Clevel::from_number(n), Some(*level));
        assert_eq!(
            config(n, "zlib", 2).compressor_from_config().unwrap().level,
            *level
        );
    }
}

#[test]
fn resolves_every_shuffle_mode() {
    assert_eq!(ShuffleMode::from_number(0), Some(ShuffleMode::Unshuffled));
    assert_eq!(ShuffleMode::from_number(1), Some(ShuffleMode::Byte));
    assert_eq!(ShuffleMode::from_number(2), Some(ShuffleMode::Bit));
    assert_eq!(ShuffleMode::from_number(3), None);
    assert_eq!(
        config(9, "snappy", 2).compressor_from_config(),
        Ok(CompressorHandle {
            codec: Codec::Snappy,
            level: Clevel::L9,
            shuffle: ShuffleMode::Bit,
        })
    );
}

#[test]
fn rejects_level_out_of_range() {
    assert_eq!(Clevel::from_number(0), None);
    assert_eq!(Clevel::from_number(10), None);
    assert_eq!(
        config(0, "lz4", 0).compressor_from_config(),
        Err(DechunkError::UnsupportedLevel)
    );
    assert_eq!(
        config(10, "lz4", 0).compressor_from_config(),
        Err(DechunkError::UnsupportedLevel)
    );
}

#[test]
fn rejects_unknown_shuffle() {
    assert_eq!(
        config(5, "lz4", 3).compressor_from_config(),
        Err(DechunkError::UnsupportedShuffle)
    );
}

#[test]
fn rejects_unknown_codec_name() {
    assert_eq!(
        config(5, "zstd", 1).compressor_from_config(),
        Err(DechunkError::UnsupportedCodec)
    );
    assert_eq!(
        config(5, "", 1).compressor_from_config(),
        Err(DechunkError::UnsupportedCodec)
    );
    assert_eq!(
        config(5, "LZ4", 1).compressor_from_config(),
        Err(DechunkError::UnsupportedCodec)
    );
    assert_eq!(Codec::from_name(&"lz4h".to_string()), None);
}

#[test]
fn first_unsupported_entry_decides_the_error() {
    assert_eq!(
        config(0, "nope", 7).compressor_from_config(),
        Err(DechunkError::UnsupportedLevel)
    );
    assert_eq!(
        config(3, "nope", 7).compressor_from_config(),
        Err(DechunkError::UnsupportedShuffle)
    );
}

#[test]
fn block_size_does_not_matter() {
    let mut with_hint = config(5, "lz4", 0);
    with_hint.blocksize = 200;
    assert_eq!(
        with_hint.compressor_from_config(),
        config(5, "lz4", 0).compressor_from_config()
    );
}

#[test]
fn config_clone_keeps_every_entry() {
    let original = config(4, "lz4hc", 1);
    assert_eq!(original.clone(), original);
}
