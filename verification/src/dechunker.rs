//! The conversion itself: from a validated descriptor and the decoded chunks
//! to the bytes and the descriptor of the single-chunk array.

use crate::chunks::{chunk_count, count_chunks, ArrayChunk, ArrayChunkView};
use crate::compressor::{resolve, CompressorHandle};
use crate::dtype::{dtype_width_usize, n_bytes_from_dtype};
use crate::error::DechunkError;
use crate::metadata::{ArrayMetaData, ArrayMetaDataView};
use crate::swap::{plan_swap, steps_view, swap_plan, FsStep};
use vstd::prelude::*;

verus! {

/// The contents of a list of byte buffers, in the same order.
pub open spec fn contents(chunks: Seq<Vec<u8>>) -> Seq<Seq<u8>> {
    chunks.map_values(|chunk: Vec<u8>| chunk@)
}

/// The codec settings with which an array of the given descriptor is
/// converted, if it can be: the descriptor has to describe an array that has
/// elements, in chunks that have elements, and its compression record has to
/// resolve.
pub open spec fn settings_for(metadata: ArrayMetaDataView) -> Result<
    CompressorHandle,
    DechunkError,
> {
    if !metadata.well_formed() {
        Err(DechunkError::EmptyDimension)
    } else {
        resolve(metadata.compressor)
    }
}

/// The bytes of an array of `len` elements of the given dtype, put together
/// from its decoded chunks: the chunks one after the other, cut off where
/// the array ends, so that the padding of a last chunk that is only partly
/// used is dropped. Chunks that decode to less than the array holds are an
/// error.
pub open spec fn assemble(len: nat, dtype: Seq<char>, chunks: Seq<Seq<u8>>) -> Result<
    Seq<u8>,
    DechunkError,
> {
    match dtype_width_usize(dtype) {
        Err(e) => Err(e),
        Ok(width) => {
            let data = chunks.flatten();
            if len * width <= data.len() {
                Ok(data.take(len * width))
            } else {
                Err(DechunkError::MissingData)
            }
        },
    }
}

/// An array that is held in one chunk already comes out as it went in: it
/// has one chunk, putting that chunk together gives the chunk, and its
/// descriptor stays as it is.
pub proof fn lemma_single_chunk_unchanged(metadata: ArrayMetaDataView, chunk: Seq<u8>)
    requires
        metadata.well_formed(),
        metadata.chunk_len == metadata.len,
        dtype_width_usize(metadata.dtype) is Ok,
        chunk.len() == metadata.len * dtype_width_usize(metadata.dtype)->Ok_0,
    ensures
        chunk_count(metadata.len, metadata.chunk_len) == 1,
        assemble(metadata.len, metadata.dtype, seq![chunk]) == Ok::<Seq<u8>, DechunkError>(chunk),
        metadata.dechunked() == metadata,
{
    let c = metadata.chunk_len as int;
    assert((c + c - 1) / c == 1) by (nonlinear_arith)
        requires
            c > 0,
    {
        vstd::arithmetic::div_mod::lemma_fundamental_div_mod_converse(c + c - 1, c, 1, c - 1);
    }
    seq![chunk].lemma_flatten_one_element();
    assert(chunk.take(chunk.len() as int) =~= chunk);
}

/// What comes out has exactly as many bytes as the array has: its length
/// times the width of an element.
pub proof fn lemma_assembled_length(len: nat, dtype: Seq<char>, chunks: Seq<Seq<u8>>)
    requires
        assemble(len, dtype, chunks) is Ok,
    ensures
        dtype_width_usize(dtype) is Ok,
        assemble(len, dtype, chunks)->Ok_0.len() == len * dtype_width_usize(dtype)->Ok_0,
        assemble(len, dtype, chunks)->Ok_0 == chunks.flatten().take(
            len * dtype_width_usize(dtype)->Ok_0,
        ),
{
}

/// An array that is about to be converted: its descriptor, found fit for
/// the conversion, the path of its directory, and the codec settings that
/// the descriptor asks for.
#[derive(Debug)]
pub struct ArrayDechunker {
    metadata: ArrayMetaData,
    array_path: String,
    compressor: CompressorHandle,
}

/// An array that is about to be converted, with its descriptor and its path
/// as plain values.
pub struct ArrayDechunkerView {
    pub metadata: ArrayMetaDataView,
    pub array_path: Seq<char>,
    pub compressor: CompressorHandle,
}

impl View for ArrayDechunker {
    type V = ArrayDechunkerView;

    closed spec fn view(&self) -> ArrayDechunkerView {
        ArrayDechunkerView {
            metadata: self.metadata@,
            array_path: self.array_path@,
            compressor: self.compressor,
        }
    }
}

impl ArrayDechunker {
    #[verifier::type_invariant]
    spec fn fit(self) -> bool {
        settings_for(self.metadata@) == Ok::<CompressorHandle, DechunkError>(self.compressor)
    }

    /// Takes on the array at `array_path` with the descriptor `metadata`, if
    /// the descriptor is fit for a conversion: the array and its chunks have
    /// elements, and the compression record names a level, a shuffle mode and
    /// a codec that are supported.
    pub fn from_metadata(array_path: &String, metadata: ArrayMetaData) -> (r: Result<
        ArrayDechunker,
        DechunkError,
    >)
        ensures
            match settings_for(metadata@) {
                Ok(handle) => r matches Ok(dechunker) && dechunker@ == (ArrayDechunkerView {
                    metadata: metadata@,
                    array_path: array_path@,
                    compressor: handle,
                }),
                Err(e) => r matches Err(err) && err == e,
            },
    {
        match metadata.validate() {
            Ok(()) => {},
            Err(e) => {
                return Err(e);
            },
        }
        let compressor = match metadata.compressor.compressor_from_config() {
            Ok(handle) => handle,
            Err(e) => {
                return Err(e);
            },
        };
        Ok(ArrayDechunker { metadata, array_path: array_path.clone(), compressor })
    }

    /// The descriptor of the array. It is fit for a conversion, and the
    /// codec settings are the ones it asks for.
    pub fn metadata(&self) -> (metadata: &ArrayMetaData)
        ensures
            metadata@ == self@.metadata,
            settings_for(metadata@) == Ok::<CompressorHandle, DechunkError>(self@.compressor),
    {
        proof {
            use_type_invariant(self);
        }
        &self.metadata
    }

    /// The path of the array's directory.
    pub fn array_path(&self) -> (path: &String)
        ensures
            path@ == self@.array_path,
    {
        &self.array_path
    }

    /// The codec settings with which the single chunk is to be compressed:
    /// those that the descriptor's compression record resolves to.
    pub fn compressor(&self) -> (handle: CompressorHandle)
        ensures
            handle == self@.compressor,
            resolve(self@.metadata.compressor) == Ok::<CompressorHandle, DechunkError>(handle),
    {
        proof {
            use_type_invariant(self);
        }
        self.compressor
    }

    /// The width in bytes of an element of the array.
    pub fn n_bytes_from_dtype(&self) -> (r: Result<usize, DechunkError>)
        ensures
            r == dtype_width_usize(self@.metadata.dtype),
    {
        n_bytes_from_dtype(self.metadata.dtype.as_str())
    }

    /// The descriptor that the array gets: one chunk that spans all of it,
    /// and every other entry as before.
    pub fn dechunked_metadata(&self) -> (res: ArrayMetaData)
        ensures
            res@ == self@.metadata.dechunked(),
            settings_for(res@) == Ok::<CompressorHandle, DechunkError>(self@.compressor),
    {
        proof {
            use_type_invariant(self);
        }
        self.metadata.dechunked()
    }

    /// A pass over the chunk files of the array, about to hand out the
    /// first. There are as many as it takes to hold the array.
    pub fn array_chunk_iter(&self) -> (pass: ArrayChunk)
        ensures
            pass@ == (ArrayChunkView {
                current_chunk: 0,
                n_chunks: chunk_count(self@.metadata.len, self@.metadata.chunk_len),
                array_path: self@.array_path,
            }),
    {
        proof {
            use_type_invariant(self);
        }
        let n_chunks = count_chunks(self.metadata.shape[0], self.metadata.chunks[0]);
        ArrayChunk::new(n_chunks, self.array_path.clone())
    }

    /// Puts the array's bytes together from its decoded chunks, given first
    /// to last: strings them together and cuts the result off where the
    /// array ends.
    pub fn dechunk(&self, chunks: &Vec<Vec<u8>>) -> (r: Result<Vec<u8>, DechunkError>)
        ensures
            match assemble(self@.metadata.len, self@.metadata.dtype, contents(chunks@)) {
                Ok(bytes) => r matches Ok(out) && out@ == bytes,
                Err(e) => r matches Err(err) && err == e,
            },
    {
        let width = match self.n_bytes_from_dtype() {
            Ok(width) => width,
            Err(e) => {
                return Err(e);
            },
        };
        let ghost parts = contents(chunks@);
        let mut out: Vec<u8> = Vec::new();
        let mut i: usize = 0;
        assert(parts.take(0) =~= Seq::<Seq<u8>>::empty());
        while i < chunks.len()
            invariant
                i <= chunks.len(),
                parts == contents(chunks@),
                out@ == parts.take(i as int).flatten(),
            decreases chunks.len() - i,
        {
            let ghost before = out@;
            out.extend_from_slice(chunks[i].as_slice());
            proof {
                assert(out@ =~= before + chunks[i as int]@);
                assert(parts.take(i + 1) =~= parts.take(i as int).push(parts[i as int]));
                parts.take(i as int).lemma_flatten_push(parts[i as int]);
            }
            i = i + 1;
        }
        assert(parts.take(chunks.len() as int) =~= parts);
        let ghost data = out@;
        let have: usize = out.len();
        let len: usize = self.metadata.shape[0] as usize;
        match len.checked_mul(width) {
            Some(size) => {
                if size <= have {
                    out.truncate(size);
                    assert(out@ =~= data.take(size as int));
                    Ok(out)
                } else {
                    Err(DechunkError::MissingData)
                }
            },
            None => Err(DechunkError::MissingData),
        }
    }

    /// Lays out the steps that put the single-chunk array in the place of
    /// the original: `compressed_single_chunk` becomes its only chunk file
    /// and `descriptor` its descriptor file.
    pub fn save_files(&self, compressed_single_chunk: Vec<u8>, descriptor: Vec<u8>) -> (plan: Vec<
        FsStep,
    >)
        ensures
            steps_view(plan@) == swap_plan(self@.array_path, compressed_single_chunk@, descriptor@),
    {
        plan_swap(&self.array_path, compressed_single_chunk, descriptor)
    }
}

} // verus!
