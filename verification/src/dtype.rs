//! The byte width of an array's elements, read off its dtype.
//!
//! A dtype is a short text: a character for the byte order, a character for
//! the kind of element, and the element's width in bytes, in decimal.

use crate::decimal::{parse_unsigned, parse_unsigned_str};
use crate::error::DechunkError;
use vstd::prelude::*;

verus! {

/// The kind code `kind` stands for a point in time or for a span of time.
pub open spec fn is_time_kind(kind: char) -> bool {
    kind == 'M' || kind == 'm'
}

/// The width in bytes of an element of the given dtype. Points and spans of
/// time take eight bytes whatever follows their kind code; for every other
/// kind the width is the number written from the third character on.
pub open spec fn dtype_width(dtype: Seq<char>) -> Result<nat, DechunkError> {
    if dtype.len() < 3 {
        Err(DechunkError::DtypeTooShort)
    } else if is_time_kind(dtype[1]) {
        Ok(8)
    } else {
        match parse_unsigned(dtype.skip(2)) {
            Some(width) => Ok(width),
            None => Err(DechunkError::DtypeWidth),
        }
    }
}

/// The width as a machine holds it: one that does not fit in a `usize` is
/// no width.
pub open spec fn dtype_width_usize(dtype: Seq<char>) -> Result<usize, DechunkError> {
    match dtype_width(dtype) {
        Ok(width) => if width <= usize::MAX {
            Ok(width as usize)
        } else {
            Err(DechunkError::DtypeWidth)
        },
        Err(e) => Err(e),
    }
}

/// Reads the width in bytes of an element off a dtype.
pub fn n_bytes_from_dtype(dtype: &str) -> (r: Result<usize, DechunkError>)
    ensures
        r == dtype_width_usize(dtype@),
{
    let len: usize = dtype.unicode_len();
    if len < 3 {
        return Err(DechunkError::DtypeTooShort);
    }
    let kind: char = dtype.get_char(1);
    if kind == 'M' || kind == 'm' {
        return Ok(8);
    }
    let digits = dtype.substring_char(2, len);
    assert(digits@ =~= dtype@.skip(2));
    match parse_unsigned_str(digits) {
        Some(width) => Ok(width),
        None => Err(DechunkError::DtypeWidth),
    }
}

} // verus!
