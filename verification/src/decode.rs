//! The decoding framework: the error type and the traits that every
//! decodable scalar and table implement.
//!
//! A decode either returns a value whose relation to the input bytes is
//! pinned down by the implementing type's `spec_parses` predicate, or fails
//! with the exact error given by the type's `spec_parse_err` function.

pub mod parse;
pub mod primitives;

use vstd::prelude::*;
use vstd::slice::slice_subrange;

verus! {

/// Why a decode failed.
///
/// `UnexpectedEof`: the buffer is shorter than the decode requires.
/// `InvalidData`: a discriminant, tag or version matches no known variant.
/// `TtcfUnsupported`: the buffer is a `ttcf` font collection, a deliberate
/// feature boundary rather than a corruption.
/// `UnsupportedCmapFormat`: a cmap subtable format outside {4, 6, 12}, kept
/// distinct so callers can skip such a subtable instead of aborting.
#[derive(Debug, Clone, Copy, PartialEq, Eq, Structural)]
pub enum Error {
    InvalidData,
    UnexpectedEof,
    TtcfUnsupported,
    UnsupportedCmapFormat,
}

/// A fixed-width scalar that decodes from the front of a byte view.
///
/// `spec_parses(s, v)` holds exactly of the value `v` encoded by the first
/// `spec_size()` bytes of `s`; `spec_parse_err(s)` names the error `parse`
/// returns on `s`, or `None` when `parse` succeeds.  `parse` itself demands
/// enough bytes from its caller; the bounds-checked entry point is
/// [`ReadPrimitive::read`].
pub trait Primitive: Sized {
    /// The fixed encoded byte width.
    spec fn spec_size() -> nat;

    /// Relates the input bytes to a successfully decoded value.
    spec fn spec_parses(s: Seq<u8>, v: Self) -> bool;

    /// The error `parse` reports on input `s`, if any.
    spec fn spec_parse_err(s: Seq<u8>) -> Option<Error>;

    fn size() -> (r: usize)
        ensures
            r as nat == Self::spec_size(),
    ;

    fn parse(buffer: &[u8]) -> (r: Result<Self, Error>)
        requires
            buffer@.len() >= Self::spec_size(),
        ensures
            match r {
                Ok(v) => Self::spec_parse_err(buffer@) is None && Self::spec_parses(buffer@, v),
                Err(e) => Self::spec_parse_err(buffer@) == Some(e),
            },
    ;
}

/// A cursor-style bounds-checked decode of a [`Primitive`]: on success the
/// view advances past the consumed bytes; a too-short view fails with
/// `UnexpectedEof` and is left untouched.
pub trait ReadPrimitive: View<V = Seq<u8>> + Sized {
    fn read<T: Primitive>(&mut self) -> (r: Result<T, Error>)
        ensures
            ({
                let pre = old(self)@;
                if pre.len() >= T::spec_size() {
                    &&& final(self)@ == pre.skip(T::spec_size() as int)
                    &&& match r {
                        Ok(v) => T::spec_parse_err(pre) is None && T::spec_parses(pre, v),
                        Err(e) => T::spec_parse_err(pre) == Some(e),
                    }
                } else {
                    &&& r == Err::<T, Error>(Error::UnexpectedEof)
                    &&& final(self)@ == pre
                }
            }),
    ;
}

impl<'a> ReadPrimitive for &'a [u8] {
    fn read<T: Primitive>(&mut self) -> (r: Result<T, Error>) {
        if self.len() < T::size() {
            return Err(Error::UnexpectedEof);
        }
        let result = T::parse(*self);
        *self = slice_subrange(*self, T::size(), self.len());
        result
    }
}

/// A structured type with a fixed (minimum) encoded size.
pub trait SizedTable {
    /// The fixed encoded byte width.
    spec fn spec_size() -> nat;

    fn size() -> (r: usize)
        ensures
            r as nat == Self::spec_size(),
    ;
}

/// A structured table that decodes from a byte view.
///
/// Unlike [`Primitive::parse`], `parse` here performs its own up-front
/// length check: a buffer shorter than `spec_min_size()` always fails with
/// `UnexpectedEof` (each implementation proves `lemma_short_input_eof`), and
/// partially-decoded values are never observable.
pub trait Table<'tbl>: Sized {
    /// The least number of bytes any successful parse consumes.
    spec fn spec_min_size() -> nat;

    /// Relates the input bytes to a successfully parsed table.
    spec fn spec_parses(s: Seq<u8>, v: Self) -> bool;

    /// The error `parse` reports on input `s`, if any.
    spec fn spec_parse_err(s: Seq<u8>) -> Option<Error>;

    /// A buffer shorter than the required size is rejected with
    /// `UnexpectedEof` — never a panic, never an out-of-bounds read.
    proof fn lemma_short_input_eof(s: Seq<u8>)
        requires
            s.len() < Self::spec_min_size(),
        ensures
            Self::spec_parse_err(s) == Some(Error::UnexpectedEof),
    ;

    fn parse(buffer: &'tbl [u8]) -> (r: Result<Self, Error>)
        ensures
            match r {
                Ok(v) => Self::spec_parse_err(buffer@) is None && Self::spec_parses(buffer@, v),
                Err(e) => Self::spec_parse_err(buffer@) == Some(e),
            },
    ;
}

/// A cursor-style decode of a fixed-size [`Table`]: on success the view
/// advances past `T::spec_size()` bytes; a too-short view fails with
/// `UnexpectedEof` and is left untouched.
pub trait ReadTable<'tbl>: View<V = Seq<u8>> + Sized {
    fn read_table<T: Table<'tbl> + SizedTable>(&mut self) -> (r: Result<T, Error>)
        ensures
            ({
                let pre = old(self)@;
                if pre.len() >= <T as SizedTable>::spec_size() {
                    &&& final(self)@ == pre.skip(<T as SizedTable>::spec_size() as int)
                    &&& match r {
                        Ok(v) => T::spec_parse_err(pre) is None && T::spec_parses(pre, v),
                        Err(e) => T::spec_parse_err(pre) == Some(e),
                    }
                } else {
                    &&& r == Err::<T, Error>(Error::UnexpectedEof)
                    &&& final(self)@ == pre
                }
            }),
    ;
}

impl<'a: 'tbl, 'tbl> ReadTable<'tbl> for &'a [u8] {
    fn read_table<T: Table<'tbl> + SizedTable>(&mut self) -> (r: Result<T, Error>) {
        if self.len() < <T as SizedTable>::size() {
            return Err(Error::UnexpectedEof);
        }
        let result = T::parse(*self);
        *self = slice_subrange(*self, <T as SizedTable>::size(), self.len());
        result
    }
}

} // verus!
