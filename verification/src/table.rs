//! The structured tables of the font container.

pub mod cmap;
pub mod gdef;
pub mod gpos;
pub mod head;
pub mod hhea;
pub mod hmtx;
pub mod maxp;
pub mod name;
pub mod os2;
pub mod post;

use crate::decode::primitives::Tag;
use crate::decode::Table;
use vstd::prelude::*;

verus! {

/// A table that the font directory names by a fixed 4-byte tag, so that it
/// can be fetched generically through [`crate::font::Font::get_table`].
pub trait TaggedTable<'tbl>: Table<'tbl> {
    /// The table's directory tag, as bytes.
    spec fn spec_tag() -> Seq<u8>;

    fn tag() -> (r: Tag)
        ensures
            r@ == Self::spec_tag(),
    ;
}

} // verus!
