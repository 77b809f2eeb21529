use dechunkrs::compressor::{
    Clevel, Codec, CompressionId, CompressorConfig, CompressorHandle, ShuffleMode,
};
use dechunkrs::dechunker::ArrayDechunker;
use dechunkrs::error::DechunkError;
use dechunkrs::metadata::{ArrayMetaData, DimensionOrder, ZarrFormat};
use dechunkrs::swap::FsStep;

fn metadata(shape: u32, chunks: u32, dtype: &str, cname: &str) -> ArrayMetaData {
    ArrayMetaData {
        chunks: [chunks],
        compressor: CompressorConfig {
            blocksize: 0,
            clevel: 5,
            cname: cname.to_string(),
            id: CompressionId::Blosc,
            shuffle: 0,
        },
        dtype: dtype.to_string(),
        fill_value: Some(0),
        filters: None,
        order: DimensionOrder::C,
        shape: [shape],
        zarr_format: ZarrFormat::Two,
    }
}

fn dechunker(shape: u32, chunks: u32, dtype: &str) -> ArrayDechunker {
    ArrayDechunker::from_metadata(
        &"some/array.zarr".to_string(),
        metadata(shape, chunks, dtype, "lz4"),
    )
    .unwrap()
}

#[test]
fn twelve_bytes_are_trimmed_to_ten() {
    let chunks: Vec<Vec<u8>> = vec![
        vec![1, 2, 3],
        vec![4, 5, 6],
        vec![7, 8, 9],
        vec![10, 11, 12],
    ];
    assert_eq!(
        dechunker(10, 3, "<i1").dechunk(&chunks),
        Ok(vec![1, 2, 3, 4, 5, 6, 7, 8, 9, 10])
    );
}

#[test]
fn end_to_end_on_decoded_chunks() {
    let array = dechunker(10, 3, "<i1");
    assert_eq!(
        array.compressor(),
        CompressorHandle {
            codec: Codec::Lz4,
            level: Clevel::L5,
            shuffle: ShuffleMode::Unshuffled,
        }
    );
    assert_eq!(array.n_bytes_from_dtype(), Ok(1));

    let mut pass = array.array_chunk_iter();
    assert_eq!(pass.n_chunks(), 4);
    let mut paths: Vec<String> = Vec::new();
    while let Some(path) = pass.next_chunk_path() {
        paths.push(path);
    }
    assert_eq!(
        paths,
        vec![
            "some/array.zarr/0".to_string(),
            "some/array.zarr/1".to_string(),
            "some/array.zarr/2".to_string(),
            "some/array.zarr/3".to_string(),
        ]
    );

    let decoded: Vec<Vec<u8>> = vec![
        vec![0xa0, 0xa1, 0xa2],
        vec![0xb0, 0xb1, 0xb2],
        vec![0xc0, 0xc1, 0xc2],
        vec![0xd0],
    ];
    assert_eq!(
        array.dechunk(&decoded),
        Ok(vec![0xa0, 0xa1, 0xa2, 0xb0, 0xb1, 0xb2, 0xc0, 0xc1, 0xc2, 0xd0])
    );

    let derived = array.dechunked_metadata();
    assert_eq!(derived.chunks, [10]);
    assert_eq!(derived.shape, [10]);
    assert_eq!(derived.chunks, derived.shape);
}

#[test]
fn wider_elements_take_more_bytes() {
    let chunks: Vec<Vec<u8>> = vec![vec![1, 2, 3, 4, 5, 6, 7, 8], vec![9, 10, 11, 12, 13, 14, 15, 16]];
    assert_eq!(
        dechunker(3, 2, "<i4").dechunk(&chunks),
        Ok(vec![1, 2, 3, 4, 5, 6, 7, 8, 9, 10, 11, 12])
    );
}

#[test]
fn exact_fit_is_not_trimmed() {
    let chunks: Vec<Vec<u8>> = vec![vec![1, 2, 3], vec![4, 5, 6], vec![7, 8, 9]];
    assert_eq!(
        dechunker(9, 3, "|u1").dechunk(&chunks),
        Ok(vec![1, 2, 3, 4, 5, 6, 7, 8, 9])
    );
}

#[test]
fn single_chunk_array_comes_out_as_it_went_in() {
    let original = metadata(5, 5, "<i2", "zlib");
    let array =
        ArrayDechunker::from_metadata(&"a".to_string(), original.clone()).unwrap();
    let mut pass = array.array_chunk_iter();
    assert_eq!(pass.n_chunks(), 1);
    assert_eq!(pass.next_chunk_path(), Some("a/0".to_string()));
    assert_eq!(pass.next_chunk_path(), None);
    let chunk: Vec<u8> = vec![1, 0, 2, 0, 3, 0, 4, 0, 5, 0];
    assert_eq!(array.dechunk(&vec![chunk.clone()]), Ok(chunk));
    assert_eq!(array.dechunked_metadata(), original);
}

#[test]
fn too_few_bytes_are_an_error() {
    let chunks: Vec<Vec<u8>> = vec![vec![1, 2, 3], vec![4, 5, 6], vec![7, 8, 9]];
    assert_eq!(
        dechunker(10, 3, "<i1").dechunk(&chunks),
        Err(DechunkError::MissingData)
    );
    assert_eq!(
        dechunker(10, 3, "<i1").dechunk(&Vec::new()),
        Err(DechunkError::MissingData)
    );
}

#[test]
fn size_beyond_the_machine_is_missing_data() {
    let width = usize::MAX.to_string();
    let dtype = format!("<V{}", width);
    let chunks: Vec<Vec<u8>> = vec![vec![0; 16]];
    assert_eq!(
        dechunker(2, 1, &dtype).dechunk(&chunks),
        Err(DechunkError::MissingData)
    );
}

#[test]
fn dtype_errors_come_before_the_data_is_looked_at() {
    let chunks: Vec<Vec<u8>> = vec![vec![1, 2, 3]];
    assert_eq!(
        dechunker(3, 3, "<i").dechunk(&chunks),
        Err(DechunkError::DtypeTooShort)
    );
    assert_eq!(
        dechunker(3, 3, "<ix").dechunk(&chunks),
        Err(DechunkError::DtypeWidth)
    );
    assert_eq!(
        dechunker(3, 3, "<i").n_bytes_from_dtype(),
        Err(DechunkError::DtypeTooShort)
    );
}

#[test]
fn unknown_codec_stops_before_anything_is_planned() {
    let r = ArrayDechunker::from_metadata(
        &"some/array.zarr".to_string(),
        metadata(10, 3, "<i1", "brotli"),
    );
    assert_eq!(r.err(), Some(DechunkError::UnsupportedCodec));
}

#[test]
fn unsupported_level_and_shuffle_stop_the_conversion() {
    let mut bad_level = metadata(10, 3, "<i1", "lz4");
    bad_level.compressor.clevel = 0;
    assert_eq!(
        ArrayDechunker::from_metadata(&"a".to_string(), bad_level).err(),
        Some(DechunkError::UnsupportedLevel)
    );
    let mut bad_shuffle = metadata(10, 3, "<i1", "lz4");
    bad_shuffle.compressor.shuffle = 3;
    assert_eq!(
        ArrayDechunker::from_metadata(&"a".to_string(), bad_shuffle).err(),
        Some(DechunkError::UnsupportedShuffle)
    );
}

#[test]
fn empty_dimensions_are_rejected() {
    assert_eq!(
        metadata(0, 3, "<i1", "lz4").validate(),
        Err(DechunkError::EmptyDimension)
    );
    assert_eq!(
        metadata(3, 0, "<i1", "lz4").validate(),
        Err(DechunkError::EmptyDimension)
    );
    assert_eq!(metadata(3, 3, "<i1", "lz4").validate(), Ok(()));
    assert_eq!(
        ArrayDechunker::from_metadata(&"a".to_string(), metadata(0, 3, "<i1", "nope")).err(),
        Some(DechunkError::EmptyDimension)
    );
}

#[test]
fn derived_metadata_changes_the_chunks_only() {
    let original = metadata(10, 3, "<f8", "blosclz");
    let derived = original.dechunked();
    assert_eq!(derived.chunks, [10]);
    let mut expected = original.clone();
    expected.chunks = [10];
    assert_eq!(derived, expected);
    assert_eq!(derived.fill_value, Some(0));
    assert_eq!(derived.filters, None);
    assert_eq!(derived.order, DimensionOrder::C);
    assert_eq!(derived.dechunked(), derived);
    assert_eq!(original.chunks, [3]);
}

#[test]
fn dechunker_keeps_what_it_was_given() {
    let original = metadata(10, 3, "<f8", "blosclz");
    let array = ArrayDechunker::from_metadata(&"p/q".to_string(), original.clone()).unwrap();
    assert_eq!(*array.metadata(), original);
    assert_eq!(array.array_path(), "p/q");
}

#[test]
fn save_files_lays_out_the_swap() {
    let array = dechunker(10, 3, "<i1");
    let plan = array.save_files(vec![9, 8, 7], b"{}".to_vec());
    assert_eq!(
        plan,
        vec![
            FsStep::CreateDir {
                path: "./new_array_dir.zarr".to_string()
            },
            FsStep::WriteFile {
                path: "./new_array_dir.zarr/0".to_string(),
                contents: vec![9, 8, 7],
            },
            FsStep::WriteFile {
                path: "./new_array_dir.zarr/.zarray".to_string(),
                contents: b"{}".to_vec(),
            },
            FsStep::Rename {
                from: "some/array.zarr".to_string(),
                to: "./tmp_array.zarr".to_string(),
            },
            FsStep::Rename {
                from: "./new_array_dir.zarr".to_string(),
                to: "some/array.zarr".to_string(),
            },
            FsStep::RemoveDirAll {
                path: "./tmp_array.zarr".to_string()
            },
        ]
    );
}

#[test]
fn assembled_bytes_are_length_times_width() {
    let chunks: Vec<Vec<u8>> = vec![vec![7; 32], vec![8; 32], vec![9; 32]];
    let out = dechunker(5, 2, "<f8").dechunk(&chunks).unwrap();
    assert_eq!(out.len(), 40);
    let mut expected: Vec<u8> = vec![7; 32];
    expected.extend(vec![8; 8]);
    assert_eq!(out, expected);
}

#[test]
fn surplus_chunks_are_cut_off_too() {
    let chunks: Vec<Vec<u8>> = vec![vec![1, 2], vec![], vec![3, 4], vec![5, 6]];
    assert_eq!(dechunker(3, 2, "|b1").dechunk(&chunks), Ok(vec![1, 2, 3]));
}

#[test]
fn derived_metadata_is_fit_for_a_conversion_too() {
    let array = dechunker(10, 3, "<i1");
    let derived = array.dechunked_metadata();
    let again = ArrayDechunker::from_metadata(&"some/array.zarr".to_string(), derived).unwrap();
    assert_eq!(again.compressor(), array.compressor());
    assert_eq!(again.array_chunk_iter().n_chunks(), 1);
}
