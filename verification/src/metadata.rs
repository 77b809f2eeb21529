//! The descriptor of a one-dimensional array.

use crate::compressor::{CompressorConfig, CompressorConfigView};
use crate::error::DechunkError;
use vstd::prelude::*;

verus! {

/// The memory order that a descriptor records. A one-dimensional array reads
/// the same in both, so it is carried along and never looked at.
#[derive(Debug, Clone, Copy, PartialEq, Eq, Structural)]
pub enum DimensionOrder {
    /// Row-major.
    C,
    /// Column-major.
    F,
}

/// The version of the storage format. There is only one.
#[derive(Debug, Clone, Copy, PartialEq, Eq, Structural)]
pub enum ZarrFormat {
    Two,
}

/// What an array's descriptor says: how long the array is, how long its
/// chunks are, what its elements are, and how its chunks are compressed.
/// `fill_value` and `filters` are kept as they were found and mean nothing
/// here.
#[derive(Debug, PartialEq, Eq)]
pub struct ArrayMetaData {
    pub chunks: [u32; 1],
    pub compressor: CompressorConfig,
    pub dtype: String,
    pub fill_value: Option<u8>,
    pub filters: Option<u8>,
    pub order: DimensionOrder,
    pub shape: [u32; 1],
    pub zarr_format: ZarrFormat,
}

/// A descriptor with its texts taken as sequences of characters and its two
/// one-element lists as the numbers they hold.
pub struct ArrayMetaDataView {
    pub chunk_len: nat,
    pub compressor: CompressorConfigView,
    pub dtype: Seq<char>,
    pub fill_value: Option<u8>,
    pub filters: Option<u8>,
    pub order: DimensionOrder,
    pub len: nat,
    pub zarr_format: ZarrFormat,
}

impl View for ArrayMetaData {
    type V = ArrayMetaDataView;

    open spec fn view(&self) -> ArrayMetaDataView {
        ArrayMetaDataView {
            chunk_len: self.chunks[0] as nat,
            compressor: self.compressor@,
            dtype: self.dtype@,
            fill_value: self.fill_value,
            filters: self.filters,
            order: self.order,
            len: self.shape[0] as nat,
            zarr_format: self.zarr_format,
        }
    }
}

impl ArrayMetaDataView {
    /// The array and its chunks have at least one element each.
    pub open spec fn well_formed(self) -> bool {
        self.len > 0 && self.chunk_len > 0
    }

    /// The same descriptor for an array whose one chunk spans all of it.
    pub open spec fn dechunked(self) -> ArrayMetaDataView {
        ArrayMetaDataView { chunk_len: self.len, ..self }
    }
}

/// The single-chunk form is reached in one step and stays.
pub proof fn lemma_dechunked_twice(metadata: ArrayMetaDataView)
    ensures
        metadata.dechunked().dechunked() == metadata.dechunked(),
        metadata.dechunked().chunk_len == metadata.dechunked().len,
        metadata.well_formed() ==> metadata.dechunked().well_formed(),
{
}

impl Clone for ArrayMetaData {
    fn clone(&self) -> (res: Self)
        ensures
            res == *self,
    {
        ArrayMetaData {
            chunks: self.chunks,
            compressor: self.compressor.clone(),
            dtype: self.dtype.clone(),
            fill_value: self.fill_value,
            filters: self.filters,
            order: self.order,
            shape: self.shape,
            zarr_format: self.zarr_format,
        }
    }
}

impl ArrayMetaData {
    /// Rejects a descriptor of an array without elements or with chunks
    /// without elements.
    pub fn validate(&self) -> (r: Result<(), DechunkError>)
        ensures
            r is Ok <==> self@.well_formed(),
            r is Err ==> r == Err::<(), DechunkError>(DechunkError::EmptyDimension),
    {
        if self.shape[0] == 0 || self.chunks[0] == 0 {
            Err(DechunkError::EmptyDimension)
        } else {
            Ok(())
        }
    }

    /// The descriptor of the same array held in a single chunk: the chunk
    /// length becomes the array's length, and every other entry stays.
    pub fn dechunked(&self) -> (res: ArrayMetaData)
        ensures
            res == (ArrayMetaData { chunks: self.shape, ..*self }),
            res@ == self@.dechunked(),
            self@.well_formed() ==> res@.well_formed(),
    {
        let mut res = self.clone();
        res.chunks = self.shape;
        res
    }
}

} // verus!
