//! How many chunk files an array has, what they are called, and in which
//! order they are read.

use crate::decimal::{decimal_string, index_to_string, lemma_decimal_string_injective};
use crate::path::{child_path, join_path};
use vstd::prelude::*;

verus! {

/// The number of chunks of `chunk_len` elements that it takes to hold `len`
/// elements: `len / chunk_len`, rounded up, so that a last chunk that is only
/// partly used is counted.
pub open spec fn chunk_count(len: nat, chunk_len: nat) -> nat
    recommends
        chunk_len > 0,
{
    ((len + chunk_len - 1) / (chunk_len as int)) as nat
}

/// `n` chunks of `chunk_len` elements have room for `len` elements.
pub open spec fn holds(n: nat, chunk_len: nat, len: nat) -> bool {
    n * chunk_len >= len
}

/// Rounding a quotient up: the rounded quotient is the whole quotient when
/// the division leaves no rest and one more when it does, and it is the one
/// number whose multiple reaches `len` while the multiple before it does not.
proof fn lemma_round_up(len: int, chunk_len: int)
    requires
        len >= 0,
        chunk_len > 0,
    ensures
        (len + chunk_len - 1) / chunk_len == if len % chunk_len == 0 {
            len / chunk_len
        } else {
            len / chunk_len + 1
        },
        (len + chunk_len - 1) / chunk_len * chunk_len >= len,
        ((len + chunk_len - 1) / chunk_len - 1) * chunk_len < len,
        0 <= len / chunk_len <= len,
{
    let whole = len / chunk_len;
    let rest = len % chunk_len;
    vstd::arithmetic::div_mod::lemma_fundamental_div_mod(len, chunk_len);
    vstd::arithmetic::div_mod::lemma_mod_bound(len, chunk_len);
    vstd::arithmetic::div_mod::lemma_div_pos_is_pos(len, chunk_len);
    vstd::arithmetic::div_mod::lemma_div_is_ordered_by_denominator(len, 1, chunk_len);
    vstd::arithmetic::div_mod::lemma_div_basics(len);
    assert(chunk_len * whole == whole * chunk_len) by (nonlinear_arith);
    assert((whole - 1) * chunk_len == whole * chunk_len - chunk_len) by (nonlinear_arith);
    assert((whole + 1) * chunk_len == whole * chunk_len + chunk_len) by (nonlinear_arith);
    if rest == 0 {
        vstd::arithmetic::div_mod::lemma_fundamental_div_mod_converse(
            len + chunk_len - 1,
            chunk_len,
            whole,
            chunk_len - 1,
        );
    } else {
        vstd::arithmetic::div_mod::lemma_fundamental_div_mod_converse(
            len + chunk_len - 1,
            chunk_len,
            whole + 1,
            rest - 1,
        );
    }
}

/// `chunk_count(len, chunk_len)` chunks hold `len` elements, and no smaller
/// number of chunks does. An array without elements has no chunks, and
/// every other array has at least one.
pub proof fn lemma_chunk_count_is_least_cover(len: nat, chunk_len: nat)
    requires
        chunk_len > 0,
    ensures
        holds(chunk_count(len, chunk_len), chunk_len, len),
        forall|n: nat| #[trigger] holds(n, chunk_len, len) ==> n >= chunk_count(len, chunk_len),
        len == 0 <==> chunk_count(len, chunk_len) == 0,
{
    let count = chunk_count(len, chunk_len);
    lemma_round_up(len as int, chunk_len as int);
    if len == 0 {
        assert(0int % (chunk_len as int) == 0) by {
            vstd::arithmetic::div_mod::lemma_small_mod(0, chunk_len);
        }
    }
    if count == 0 {
        assert(count * chunk_len == 0) by (nonlinear_arith)
            requires
                count == 0,
        {
        }
    }
    assert forall|n: nat| #[trigger] holds(n, chunk_len, len) implies n >= count by {
        if n < count {
            assert(n * chunk_len <= (count - 1) * chunk_len) by (nonlinear_arith)
                requires
                    n <= count - 1,
                    chunk_len > 0,
            {
            }
        }
    }
}

/// Counts the chunks of an array of `len` elements held in chunks of
/// `chunk_len` elements.
pub fn count_chunks(len: u32, chunk_len: u32) -> (n: u32)
    requires
        chunk_len > 0,
    ensures
        n == chunk_count(len as nat, chunk_len as nat),
{
    let whole: u32 = len / chunk_len;
    let rest: u32 = len % chunk_len;
    proof {
        lemma_round_up(len as int, chunk_len as int);
        if rest != 0 {
            vstd::arithmetic::div_mod::lemma_fundamental_div_mod(len as int, chunk_len as int);
            assert(whole * chunk_len >= whole) by (nonlinear_arith)
                requires
                    chunk_len >= 1,
                    whole >= 0,
            {
            }
        }
    }
    if rest == 0 {
        whole
    } else {
        whole + 1
    }
}

/// The path of chunk number `index` of the array at `base`: the entry of
/// the array's directory that has the index, in decimal, for its name.
pub open spec fn chunk_path(base: Seq<char>, index: nat) -> Seq<char> {
    child_path(base, decimal_string(index))
}

/// Different chunks of one array lie in different files.
pub proof fn lemma_chunk_paths_differ(base: Seq<char>, i: nat, j: nat)
    requires
        i != j,
    ensures
        chunk_path(base, i) != chunk_path(base, j),
{
    let prefix = base + "/"@;
    if chunk_path(base, i) == chunk_path(base, j) {
        assert(decimal_string(i) =~= chunk_path(base, i).skip(prefix.len() as int));
        assert(decimal_string(j) =~= chunk_path(base, j).skip(prefix.len() as int));
        lemma_decimal_string_injective(i, j);
    }
}

/// A pass over the chunk files of an array, first to last. It hands out one
/// path at a time, never goes back, and is spent when every chunk has had
/// its turn.
#[derive(Debug)]
pub struct ArrayChunk {
    current_chunk: u32,
    n_chunks: u32,
    array_path: String,
}

/// The state of a pass: the index of the chunk that comes next, the number
/// of chunks, and the array's path.
pub struct ArrayChunkView {
    pub current_chunk: nat,
    pub n_chunks: nat,
    pub array_path: Seq<char>,
}

impl View for ArrayChunk {
    type V = ArrayChunkView;

    closed spec fn view(&self) -> ArrayChunkView {
        ArrayChunkView {
            current_chunk: self.current_chunk as nat,
            n_chunks: self.n_chunks as nat,
            array_path: self.array_path@,
        }
    }
}

impl ArrayChunk {
    #[verifier::type_invariant]
    spec fn in_range(self) -> bool {
        self.current_chunk <= self.n_chunks
    }

    /// A pass over the `n_chunks` chunk files of the array at `array_path`,
    /// about to hand out the first.
    pub fn new(n_chunks: u32, array_path: String) -> (pass: ArrayChunk)
        ensures
            pass@ == (ArrayChunkView {
                current_chunk: 0,
                n_chunks: n_chunks as nat,
                array_path: array_path@,
            }),
    {
        ArrayChunk { current_chunk: 0, n_chunks, array_path }
    }

    /// The index of the chunk that comes next; it is the number of chunks
    /// when the pass is spent, and never more.
    pub fn current_chunk(&self) -> (index: u32)
        ensures
            index == self@.current_chunk,
            index <= self@.n_chunks,
    {
        proof {
            use_type_invariant(self);
        }
        self.current_chunk
    }

    /// The number of chunks of the array.
    pub fn n_chunks(&self) -> (count: u32)
        ensures
            count == self@.n_chunks,
    {
        self.n_chunks
    }

    /// The path of the array.
    pub fn array_path(&self) -> (path: &String)
        ensures
            path@ == self@.array_path,
    {
        &self.array_path
    }

    /// Hands out the path of the chunk that comes next and moves on by one,
    /// or `None`, with nothing changed, when every chunk has had its turn.
    pub fn next_chunk_path(&mut self) -> (path: Option<String>)
        ensures
            old(self)@.current_chunk <= old(self)@.n_chunks,
            old(self)@.current_chunk == old(self)@.n_chunks ==> path is None && final(self)@ == old(
                self,
            )@,
            old(self)@.current_chunk < old(self)@.n_chunks ==> {
                &&& path matches Some(p)
                &&& p@ == chunk_path(old(self)@.array_path, old(self)@.current_chunk)
                &&& final(self)@ == (ArrayChunkView {
                    current_chunk: old(self)@.current_chunk + 1,
                    ..old(self)@
                })
            },
    {
        proof {
            use_type_invariant(&*self);
        }
        if self.current_chunk == self.n_chunks {
            return None;
        }
        let name = index_to_string(self.current_chunk);
        let path = join_path(self.array_path.as_str(), name.as_str());
        self.current_chunk = self.current_chunk + 1;
        Some(path)
    }
}

} // verus!
