use vstd::prelude::*;

use crate::cursor::Cursor;
use crate::descriptor::{descriptor_matches, parse_descriptor, Descriptor};
use crate::error::ParseError;
use crate::header::{
    display_matches, header_failure, header_matches, magic, parse_display, parse_header, Display,
    Header,
};

verus! {

/// A decoded base block.
#[derive(Debug, PartialEq, Clone)]
pub struct EDID {
    pub header: Header,
    pub display: Display,
    /// Colour characteristics, kept undecoded.
    pub chromaticity: [u8; 10],
    /// The established-timing bitmap, kept undecoded.
    pub established_timing: [u8; 3],
    /// The standard-timing identifiers, kept undecoded.
    pub standard_timing: [u8; 16],
    /// The four descriptor slots, in the order they appear.
    pub descriptors: Vec<Descriptor>,
}

/// Some byte among the first eight that `s` has differs from the tag.
pub open spec fn tag_differs(s: Seq<u8>) -> bool {
    exists|k: int| 0 <= k < 8 && k < s.len() && s[k] != magic()[k]
}

/// Why decoding `s` fails, if it does: a wrong tag first, then a block shorter
/// than 128 bytes.
pub open spec fn parse_failure(s: Seq<u8>) -> Option<ParseError> {
    if tag_differs(s) {
        Some(ParseError::MagicMismatch)
    } else if s.len() < 128 {
        Some(ParseError::Incomplete)
    } else {
        None
    }
}

/// `e` is what the 128-byte base block at the start of `s` holds.
pub open spec fn edid_matches(e: EDID, s: Seq<u8>) -> bool {
    &&& header_matches(e.header, s, 8)
    &&& display_matches(e.display, s, 20)
    &&& e.chromaticity@ == s.subrange(25, 35)
    &&& e.established_timing@ == s.subrange(35, 38)
    &&& e.standard_timing@ == s.subrange(38, 54)
    &&& e.descriptors@.len() == 4
    &&& forall|i: int| 0 <= i < 4 ==> descriptor_matches(#[trigger] e.descriptors@[i], s, 54 + 18 * i)
}

/// Decodes the base block at the start of `data`. On success it also returns how
/// many bytes follow the block: extension blocks, which are not decoded. The
/// checksum byte is not checked.
pub fn parse(data: &[u8]) -> (r: Result<(EDID, usize), ParseError>)
    ensures
        r is Err <==> parse_failure(data@) is Some,
        r is Err ==> r->Err_0 == parse_failure(data@)->Some_0,
        r is Ok ==> edid_matches(r->Ok_0.0, data@) && r->Ok_0.1 == data@.len() - 128,
{
    let mut c = Cursor::new(data);
    proof {
        assert(header_failure(data@, 0) == parse_failure(data@) || (header_failure(data@, 0) is None
            && parse_failure(data@) == Some(ParseError::Incomplete))) by {
            if tag_differs(data@) {
                let k = choose|k: int| 0 <= k < 8 && k < data@.len() && data@[k] != magic()[k];
                assert(data@[0 + k] != magic()[k]);
            }
        }
    }
    let header = parse_header(&mut c)?;
    let display = parse_display(&mut c)?;
    let chromaticity: [u8; 10] = c.take_array()?;
    let established_timing: [u8; 3] = c.take_array()?;
    let standard_timing: [u8; 16] = c.take_array()?;
    let mut descriptors: Vec<Descriptor> = Vec::new();
    let mut i: usize = 0;
    while i < 4
        invariant
            c.wf(),
            c.bytes() == data@,
            c.pos() == 54 + 18 * i,
            i <= 4,
            descriptors@.len() == i,
            forall|j: int| 0 <= j < i ==> descriptor_matches(#[trigger] descriptors@[j], data@, 54 + 18 * j),
            parse_failure(data@) is None || parse_failure(data@) == Some(ParseError::Incomplete),
            parse_failure(data@) is None <==> 128 <= data@.len(),
        decreases 4 - i,
    {
        let d = parse_descriptor(&mut c)?;
        descriptors.push(d);
        i = i + 1;
    }
    c.skip(1)?;
    c.skip(1)?;
    let edid = EDID { header, display, chromaticity, established_timing, standard_timing, descriptors };
    Ok((edid, c.remaining()))
}

/// A buffer of at least 128 bytes that starts with the tag decodes.
pub proof fn lemma_tagged_block_decodes(s: Seq<u8>)
    requires
        s.len() >= 128,
        s.subrange(0, 8) == magic(),
    ensures
        parse_failure(s) is None,
{
    assert forall|k: int| 0 <= k < 8 && k < s.len() implies s[k] == magic()[k] by {
        assert(s[k] == s.subrange(0, 8)[k]);
    }
}

/// A buffer shorter than 128 bytes whose bytes agree with the tag, as far as it
/// has them, is incomplete.
pub proof fn lemma_short_block_incomplete(s: Seq<u8>)
    requires
        s.len() < 128,
        forall|k: int| 0 <= k < 8 && k < s.len() ==> s[k] == magic()[k],
    ensures
        parse_failure(s) == Some(ParseError::Incomplete),
{
}

/// A buffer whose first eight bytes are not the tag is a mismatch, however long
/// it is.
pub proof fn lemma_wrong_tag_mismatch(s: Seq<u8>)
    requires
        s.len() >= 8,
        s.subrange(0, 8) != magic(),
    ensures
        parse_failure(s) == Some(ParseError::MagicMismatch),
{
    if !tag_differs(s) {
        assert(s.subrange(0, 8) =~= magic());
    }
}

} // verus!
