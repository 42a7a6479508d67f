use vstd::prelude::*;

use crate::cursor::{le_u16_at, Cursor};
use crate::error::ParseError;
use crate::text::{decode_text, text_of};
use crate::timing::{parse_detailed_timing, timing_matches, DetailedTiming};

verus! {

/// One of the four eighteen-byte slots of a block.
#[derive(Debug, PartialEq, Clone)]
pub enum Descriptor {
    DetailedTiming(DetailedTiming),
    SerialNumber(String),
    UnspecifiedText(String),
    /// Range limits, kept undecoded.
    RangeLimits([u8; 13]),
    ProductName(String),
    /// White point data, kept undecoded.
    WhitePoint([u8; 13]),
    /// Standard timing identifiers, kept undecoded.
    StandardTiming([u8; 13]),
    /// Colour management data, kept undecoded.
    ColorManagement([u8; 13]),
    /// Timing codes, kept undecoded.
    TimingCodes([u8; 13]),
    /// Established timings, kept undecoded.
    EstablishedTimings([u8; 13]),
    Dummy,
    /// A display descriptor of a kind not listed here, with its payload as it was.
    Unknown([u8; 13]),
}

/// The discriminators that name a kind of display descriptor.
pub open spec fn known_kind(k: u8) -> bool {
    k == 0x10 || 0xF7 <= k
}

/// `d` is what the eighteen-byte slot from `s[p]` on holds. A slot whose first two
/// bytes are not both zero is a timing record; otherwise byte 3 says which kind of
/// display descriptor it is, and bytes 5 to 17 are its payload.
pub open spec fn descriptor_matches(d: Descriptor, s: Seq<u8>, p: int) -> bool {
    let kind = s[p + 3];
    let payload = s.subrange(p + 5, p + 18);
    if le_u16_at(s, p) != 0 {
        match d {
            Descriptor::DetailedTiming(t) => timing_matches(t, s, p),
            _ => false,
        }
    } else {
        match d {
            Descriptor::DetailedTiming(_) => false,
            Descriptor::SerialNumber(x) => kind == 0xFF && x@ == text_of(payload),
            Descriptor::UnspecifiedText(x) => kind == 0xFE && x@ == text_of(payload),
            Descriptor::RangeLimits(b) => kind == 0xFD && b@ == payload,
            Descriptor::ProductName(x) => kind == 0xFC && x@ == text_of(payload),
            Descriptor::WhitePoint(b) => kind == 0xFB && b@ == payload,
            Descriptor::StandardTiming(b) => kind == 0xFA && b@ == payload,
            Descriptor::ColorManagement(b) => kind == 0xF9 && b@ == payload,
            Descriptor::TimingCodes(b) => kind == 0xF8 && b@ == payload,
            Descriptor::EstablishedTimings(b) => kind == 0xF7 && b@ == payload,
            Descriptor::Dummy => kind == 0x10,
            Descriptor::Unknown(b) => !known_kind(kind) && b@ == payload,
        }
    }
}

/// Reads one eighteen-byte descriptor slot.
pub fn parse_descriptor(c: &mut Cursor) -> (r: Result<Descriptor, ParseError>)
    requires
        old(c).wf(),
    ensures
        final(c).wf(),
        r is Ok <==> 18 <= old(c).left(),
        r is Ok ==> old(c).advanced(&*final(c), 18) && descriptor_matches(
            r->Ok_0,
            old(c).bytes(),
            old(c).pos(),
        ),
        r is Err ==> r == Err::<Descriptor, ParseError>(ParseError::Incomplete),
{
    if c.remaining() < 18 {
        return Err(ParseError::Incomplete);
    }
    if c.peek_u16_le()? != 0 {
        let t = parse_detailed_timing(c)?;
        return Ok(Descriptor::DetailedTiming(t));
    }
    c.skip(3)?;
    let kind = c.read_u8()?;
    c.skip(1)?;
    let payload: [u8; 13] = c.take_array()?;
    let d = match kind {
        0xFF => Descriptor::SerialNumber(decode_text(&payload)),
        0xFE => Descriptor::UnspecifiedText(decode_text(&payload)),
        0xFD => Descriptor::RangeLimits(payload),
        0xFC => Descriptor::ProductName(decode_text(&payload)),
        0xFB => Descriptor::WhitePoint(payload),
        0xFA => Descriptor::StandardTiming(payload),
        0xF9 => Descriptor::ColorManagement(payload),
        0xF8 => Descriptor::TimingCodes(payload),
        0xF7 => Descriptor::EstablishedTimings(payload),
        0x10 => Descriptor::Dummy,
        _ => Descriptor::Unknown(payload),
    };
    Ok(d)
}

/// A display descriptor of an unlisted kind decodes to `Unknown`, which holds its
/// thirteen payload bytes exactly as they were.
pub proof fn lemma_unknown_kind_kept(d: Descriptor, s: Seq<u8>, p: int)
    requires
        0 <= p,
        p + 18 <= s.len(),
        le_u16_at(s, p) == 0,
        !known_kind(s[p + 3]),
        descriptor_matches(d, s, p),
    ensures
        d matches Descriptor::Unknown(b) && b@ == s.subrange(p + 5, p + 18),
{
}

} // verus!
