use vstd::prelude::*;

use crate::cursor::{be_u16_at, le_u16_at, le_u32_at, tag_outcome, Cursor};
use crate::error::ParseError;

verus! {

/// The eight bytes that open every block.
pub open spec fn magic() -> Seq<u8> {
    seq![0x00u8, 0xFFu8, 0xFFu8, 0xFFu8, 0xFFu8, 0xFFu8, 0xFFu8, 0x00u8]
}

/// The letter encoded by a 5-bit code: 1 stands for 'A', 26 for 'Z'.
pub open spec fn letter_of(code: int) -> char {
    (code + 64) as char
}

/// The three letters packed into a big-endian vendor field, five bits each,
/// the first in the highest bits.
pub open spec fn vendor_letters(v: u16) -> Seq<char> {
    seq![letter_of((v as int / 1024) % 32), letter_of((v as int / 32) % 32), letter_of(v as int % 32)]
}

/// The vendor field that holds three letters: the inverse of `vendor_letters`.
pub open spec fn vendor_code(l: Seq<char>) -> int {
    1024 * (l[0] as int - 64) + 32 * (l[1] as int - 64) + (l[2] as int - 64)
}

/// Identity of the display and of the block's format.
#[derive(Debug, PartialEq, Clone, Copy)]
pub struct Header {
    pub vendor: [char; 3],
    pub product: u16,
    pub serial: u32,
    pub week: u8,
    /// Years since 1990.
    pub year: u8,
    pub version: u8,
    pub revision: u8,
}

/// `h` is what the twelve bytes after the tag, from `s[p]` on, hold.
pub open spec fn header_matches(h: Header, s: Seq<u8>, p: int) -> bool {
    &&& h.vendor@ == vendor_letters(be_u16_at(s, p) as u16)
    &&& h.product == le_u16_at(s, p + 2)
    &&& h.serial == le_u32_at(s, p + 4)
    &&& h.week == s[p + 8]
    &&& h.year == s[p + 9]
    &&& h.version == s[p + 10]
    &&& h.revision == s[p + 11]
}

/// Basic physical parameters of the display.
#[derive(Debug, PartialEq, Eq, Clone, Copy, Structural)]
pub struct Display {
    pub video_input: u8,
    /// Centimetres.
    pub width: u8,
    /// Centimetres.
    pub height: u8,
    /// Stored as gamma * 100 - 100, for gammas from 1.00 to 3.54.
    pub gamma: u8,
    pub features: u8,
}

/// `d` is what the five bytes from `s[p]` on hold.
pub open spec fn display_matches(d: Display, s: Seq<u8>, p: int) -> bool {
    &&& d.video_input == s[p]
    &&& d.width == s[p + 1]
    &&& d.height == s[p + 2]
    &&& d.gamma == s[p + 3]
    &&& d.features == s[p + 4]
}

pub fn parse_vendor(v: u16) -> (r: [char; 3])
    ensures
        r@ == vendor_letters(v),
{
    let hi: u16 = (v >> 10u16) & 0x1F;
    let mid: u16 = (v >> 5u16) & 0x1F;
    let lo: u16 = v & 0x1F;
    proof {
        assert(((v >> 10u16) & 0x1Fu16) == (v / 1024) % 32) by (bit_vector);
        assert(((v >> 5u16) & 0x1Fu16) == (v / 32) % 32) by (bit_vector);
        assert((v & 0x1Fu16) == v % 32) by (bit_vector);
    }
    let a: u8 = hi as u8 + 0x40;
    let b: u8 = mid as u8 + 0x40;
    let c: u8 = lo as u8 + 0x40;
    let r = [a as char, b as char, c as char];
    assert(r@ =~= vendor_letters(v));
    r
}

/// Three letters from 'A' to 'Z', packed as the vendor field, unpack to themselves.
pub proof fn lemma_vendor_round_trip(l: Seq<char>)
    requires
        l.len() == 3,
        forall|i: int| 0 <= i < 3 ==> 'A' <= #[trigger] l[i] <= 'Z',
    ensures
        0 <= vendor_code(l) < 65536,
        vendor_letters(vendor_code(l) as u16) == l,
{
    let a = l[0] as int - 64;
    let b = l[1] as int - 64;
    let c = l[2] as int - 64;
    assert('A' <= l[0] <= 'Z' && 'A' <= l[1] <= 'Z' && 'A' <= l[2] <= 'Z');
    let v = vendor_code(l);
    assert(v == 1024 * a + 32 * b + c);
    assert((v / 1024) % 32 == a && (v / 32) % 32 == b && v % 32 == c) by (nonlinear_arith)
        requires
            v == 1024 * a + 32 * b + c,
            1 <= a <= 26,
            1 <= b <= 26,
            1 <= c <= 26,
    ;
    assert(vendor_letters(v as u16) =~= l);
}

/// Why reading a header from `s[pos]` on fails, if it does: the tag decides
/// first, then the length.
pub open spec fn header_failure(s: Seq<u8>, pos: int) -> Option<ParseError> {
    match tag_outcome(s, pos, magic()) {
        Err(e) => Some(e),
        Ok(_) => if s.len() - pos < 20 {
            Some(ParseError::Incomplete)
        } else {
            None
        },
    }
}

/// Reads the tag and the twelve header bytes after it.
pub fn parse_header(c: &mut Cursor) -> (r: Result<Header, ParseError>)
    requires
        old(c).wf(),
    ensures
        final(c).wf(),
        r is Err <==> header_failure(old(c).bytes(), old(c).pos()) is Some,
        r is Err ==> r->Err_0 == header_failure(old(c).bytes(), old(c).pos())->Some_0,
        r is Ok ==> old(c).advanced(&*final(c), 20) && header_matches(
            r->Ok_0,
            old(c).bytes(),
            old(c).pos() + 8,
        ),
{
    let tag: [u8; 8] = [0x00, 0xFF, 0xFF, 0xFF, 0xFF, 0xFF, 0xFF, 0x00];
    assert(tag@ =~= magic());
    c.expect_tag(&tag)?;
    let vendor = c.read_u16_be()?;
    let product = c.read_u16_le()?;
    let serial = c.read_u32_le()?;
    let week = c.read_u8()?;
    let year = c.read_u8()?;
    let version = c.read_u8()?;
    let revision = c.read_u8()?;
    Ok(Header { vendor: parse_vendor(vendor), product, serial, week, year, version, revision })
}

/// Reads the five display-parameter bytes.
pub fn parse_display(c: &mut Cursor) -> (r: Result<Display, ParseError>)
    requires
        old(c).wf(),
    ensures
        final(c).wf(),
        r is Ok <==> 5 <= old(c).left(),
        r is Ok ==> old(c).advanced(&*final(c), 5) && display_matches(
            r->Ok_0,
            old(c).bytes(),
            old(c).pos(),
        ),
        r is Err ==> r == Err::<Display, ParseError>(ParseError::Incomplete),
{
    let video_input = c.read_u8()?;
    let width = c.read_u8()?;
    let height = c.read_u8()?;
    let gamma = c.read_u8()?;
    let features = c.read_u8()?;
    Ok(Display { video_input, width, height, gamma, features })
}

} // verus!
