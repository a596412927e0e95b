//! The `GPOS` table header and the value-record building block.
//!
//! Only the header's offset resolution and the value-record field gating
//! are decoded; lookup-subtable semantics (positioning) are out of scope,
//! so [`SinglePosFormat1`] is a declared layout without a decoder.

use crate::decode::parse::{read_i16_at, read_u16_at, read_u32_at, spec_be_i16_at, spec_be_u16_at,
    spec_be_u32_at};
use crate::decode::{Error, Table};
use vstd::prelude::*;
use vstd::slice::slice_subrange;

verus! {

/// The largest of the three 16-bit script/feature/lookup offsets of a GPOS
/// header `s`.
pub open spec fn spec_gpos_max_offset(s: Seq<u8>) -> int {
    let a = spec_be_u16_at(s, 4) as int;
    let b = spec_be_u16_at(s, 6) as int;
    let c = spec_be_u16_at(s, 8) as int;
    if a >= b && a >= c {
        a
    } else if b >= c {
        b
    } else {
        c
    }
}

/// The `GPOS` header: script, feature and lookup list sub-views, and (for
/// minor version 1) the feature variations sub-view.
pub struct Header<'tbl> {
    scripts: &'tbl [u8],
    features: &'tbl [u8],
    lookups: &'tbl [u8],
    variations: Option<&'tbl [u8]>,
}

impl<'tbl> Header<'tbl> {
    /// The script list sub-view.
    pub closed spec fn spec_scripts(self) -> Seq<u8> {
        self.scripts@
    }

    /// The feature list sub-view.
    pub closed spec fn spec_features(self) -> Seq<u8> {
        self.features@
    }

    /// The lookup list sub-view.
    pub closed spec fn spec_lookups(self) -> Seq<u8> {
        self.lookups@
    }

    /// The feature variations sub-view, when the minor version has one.
    pub closed spec fn spec_variations(self) -> Option<Seq<u8>> {
        match self.variations {
            Some(v) => Some(v@),
            None => None,
        }
    }
}

impl<'tbl> Table<'tbl> for Header<'tbl> {
    open spec fn spec_min_size() -> nat {
        10
    }

    open spec fn spec_parses(s: Seq<u8>, v: Self) -> bool {
        &&& v.spec_scripts() == s.skip(spec_be_u16_at(s, 4) as int)
        &&& v.spec_features() == s.skip(spec_be_u16_at(s, 6) as int)
        &&& v.spec_lookups() == s.skip(spec_be_u16_at(s, 8) as int)
        &&& if spec_be_u16_at(s, 2) == 0 {
            v.spec_variations() is None
        } else {
            v.spec_variations() == Some(s.skip(spec_be_u32_at(s, 10) as int))
        }
    }

    open spec fn spec_parse_err(s: Seq<u8>) -> Option<Error> {
        if s.len() < 10 {
            Some(Error::UnexpectedEof)
        } else if spec_be_u16_at(s, 0) != 1 {
            Some(Error::InvalidData)
        } else if s.len() < spec_gpos_max_offset(s) {
            Some(Error::UnexpectedEof)
        } else if spec_be_u16_at(s, 2) == 0 {
            None
        } else if spec_be_u16_at(s, 2) == 1 {
            if s.len() < 14 {
                Some(Error::UnexpectedEof)
            } else if s.len() < spec_be_u32_at(s, 10) {
                Some(Error::UnexpectedEof)
            } else {
                None
            }
        } else {
            Some(Error::InvalidData)
        }
    }

    proof fn lemma_short_input_eof(s: Seq<u8>) {
    }

    fn parse(buffer: &'tbl [u8]) -> Result<Self, Error> {
        if buffer.len() < 10 {
            return Err(Error::UnexpectedEof);
        }
        let major = read_u16_at(buffer, 0);
        let minor = read_u16_at(buffer, 2);
        if major != 1 {
            return Err(Error::InvalidData);
        }
        let scripts_offset = read_u16_at(buffer, 4) as usize;
        let feature_offset = read_u16_at(buffer, 6) as usize;
        let lookup_offset = read_u16_at(buffer, 8) as usize;
        let mut max_offset = scripts_offset;
        if feature_offset > max_offset {
            max_offset = feature_offset;
        }
        if lookup_offset > max_offset {
            max_offset = lookup_offset;
        }
        if buffer.len() < max_offset {
            return Err(Error::UnexpectedEof);
        }
        let scripts = slice_subrange(buffer, scripts_offset, buffer.len());
        let features = slice_subrange(buffer, feature_offset, buffer.len());
        let lookups = slice_subrange(buffer, lookup_offset, buffer.len());
        let variations = match minor {
            0 => None,
            1 => {
                if buffer.len() < 14 {
                    return Err(Error::UnexpectedEof);
                }
                let offset = read_u32_at(buffer, 10);
                if (buffer.len() as u64) < offset as u64 {
                    return Err(Error::UnexpectedEof);
                }
                Some(slice_subrange(buffer, offset as usize, buffer.len()))
            },
            _ => {
                return Err(Error::InvalidData);
            },
        };
        Ok(Header { scripts, features, lookups, variations })
    }
}

/// One positioning value record.  The wire format carries four 16-bit
/// fields; the `format` bit mask decides which of them are meaningful, and
/// the rest decode as absent.
#[derive(Debug, Clone, Copy, PartialEq, Eq, Structural)]
pub struct ValueRecord {
    pub x_placement: Option<i16>,
    pub y_placement: Option<i16>,
    pub x_advance: Option<i16>,
    pub y_advance: Option<i16>,
}

impl ValueRecord {
    /// Decodes a value record, gating each field on its `format` bit
    /// (placement x/y, advance x/y, in bit order from the lowest).
    pub fn parse(buffer: &[u8], format: u16) -> (r: Result<ValueRecord, Error>)
        ensures
            match r {
                Ok(v) => {
                    &&& buffer@.len() >= 8
                    &&& v.x_placement == if format & 0x1 != 0 {
                        Some(spec_be_i16_at(buffer@, 0))
                    } else {
                        None::<i16>
                    }
                    &&& v.y_placement == if format & 0x2 != 0 {
                        Some(spec_be_i16_at(buffer@, 2))
                    } else {
                        None::<i16>
                    }
                    &&& v.x_advance == if format & 0x4 != 0 {
                        Some(spec_be_i16_at(buffer@, 4))
                    } else {
                        None::<i16>
                    }
                    &&& v.y_advance == if format & 0x8 != 0 {
                        Some(spec_be_i16_at(buffer@, 6))
                    } else {
                        None::<i16>
                    }
                },
                Err(e) => e == Error::UnexpectedEof && buffer@.len() < 8,
            },
    {
        if buffer.len() < 8 {
            return Err(Error::UnexpectedEof);
        }
        let temp_x_pla = read_i16_at(buffer, 0);
        let temp_y_pla = read_i16_at(buffer, 2);
        let temp_x_adv = read_i16_at(buffer, 4);
        let temp_y_adv = read_i16_at(buffer, 6);
        let x_placement = if format & 0x1 != 0 {
            Some(temp_x_pla)
        } else {
            None
        };
        let y_placement = if format & 0x2 != 0 {
            Some(temp_y_pla)
        } else {
            None
        };
        let x_advance = if format & 0x4 != 0 {
            Some(temp_x_adv)
        } else {
            None
        };
        let y_advance = if format & 0x8 != 0 {
            Some(temp_y_adv)
        } else {
            None
        };
        Ok(ValueRecord { x_placement, y_placement, x_advance, y_advance })
    }
}

/// The single-positioning (format 1) subtable layout.  Positioning lookup
/// semantics are out of scope, so no decoder is provided.
pub struct SinglePosFormat1<'tbl> {
    coverage: &'tbl [u8],
    value: ValueRecord,
}

} // verus!
