use vstd::prelude::*;

use crate::cursor::{le_u16_at, Cursor};
use crate::error::ParseError;

verus! {

/// A packed timing record: the preferred mode of the display, or another one.
#[derive(Debug, PartialEq, Eq, Clone, Copy, Structural)]
pub struct DetailedTiming {
    /// Pixel clock in kHz.
    pub pixel_clock: u32,
    pub horizontal_active_pixels: u16,
    pub horizontal_blanking_pixels: u16,
    pub vertical_active_lines: u16,
    pub vertical_blanking_lines: u16,
    pub horizontal_front_porch: u16,
    pub horizontal_sync_width: u16,
    pub vertical_front_porch: u16,
    pub vertical_sync_width: u16,
    /// Horizontal size in millimetres.
    pub horizontal_size: u16,
    /// Vertical size in millimetres.
    pub vertical_size: u16,
    /// Border pixels on one side of the screen (the total is twice this).
    pub horizontal_border_pixels: u8,
    /// Border pixels on one side of the screen (the total is twice this).
    pub vertical_border_pixels: u8,
    pub features: u8,
}

/// `t` is what the eighteen-byte record from `s[p]` on holds. A value split over
/// two bytes is its low byte plus 256 times its high bits.
pub open spec fn timing_matches(t: DetailedTiming, s: Seq<u8>, p: int) -> bool {
    &&& t.pixel_clock == 10 * le_u16_at(s, p)
    &&& t.horizontal_active_pixels == s[p + 2] + 256 * (s[p + 4] / 16)
    &&& t.horizontal_blanking_pixels == s[p + 3] + 256 * (s[p + 4] % 16)
    &&& t.vertical_active_lines == s[p + 5] + 256 * (s[p + 7] / 16)
    &&& t.vertical_blanking_lines == s[p + 6] + 256 * (s[p + 7] % 16)
    &&& t.horizontal_front_porch == s[p + 8] + 256 * (s[p + 11] / 64)
    &&& t.horizontal_sync_width == s[p + 9] + 256 * ((s[p + 11] / 16) % 4)
    &&& t.vertical_front_porch == s[p + 10] / 16 + 256 * ((s[p + 11] / 4) % 4)
    &&& t.vertical_sync_width == s[p + 10] % 16 + 256 * (s[p + 11] % 4)
    &&& t.horizontal_size == s[p + 12] + 256 * (s[p + 14] / 16)
    &&& t.vertical_size == s[p + 13] + 256 * (s[p + 14] % 16)
    &&& t.horizontal_border_pixels == s[p + 15]
    &&& t.vertical_border_pixels == s[p + 16]
    &&& t.features == s[p + 17]
}

/// `lo` with `high` above it, in the bits from 8 on.
fn join(lo: u16, high: u8) -> (r: u16)
    requires
        lo < 256,
    ensures
        r == lo + 256 * high,
{
    proof {
        lemma_join(lo, high);
    }
    lo | ((high as u16) << 8u16)
}

/// Reads an eighteen-byte timing record.
pub fn parse_detailed_timing(c: &mut Cursor) -> (r: Result<DetailedTiming, ParseError>)
    requires
        old(c).wf(),
    ensures
        final(c).wf(),
        r is Ok <==> 18 <= old(c).left(),
        r is Ok ==> old(c).advanced(&*final(c), 18) && timing_matches(
            r->Ok_0,
            old(c).bytes(),
            old(c).pos(),
        ),
        r is Err ==> r == Err::<DetailedTiming, ParseError>(ParseError::Incomplete),
{
    if c.remaining() < 18 {
        return Err(ParseError::Incomplete);
    }
    let pixel_clock_10khz = c.read_u16_le()?;
    let horizontal_active_lo = c.read_u8()?;
    let horizontal_blanking_lo = c.read_u8()?;
    let horizontal_px_hi = c.read_u8()?;
    let vertical_active_lo = c.read_u8()?;
    let vertical_blanking_lo = c.read_u8()?;
    let vertical_px_hi = c.read_u8()?;
    let horizontal_front_porch_lo = c.read_u8()?;
    let horizontal_sync_width_lo = c.read_u8()?;
    let vertical_lo = c.read_u8()?;
    let porch_sync_hi = c.read_u8()?;
    let horizontal_size_lo = c.read_u8()?;
    let vertical_size_lo = c.read_u8()?;
    let size_hi = c.read_u8()?;
    let horizontal_border = c.read_u8()?;
    let vertical_border = c.read_u8()?;
    let features = c.read_u8()?;
    proof {
        assert(forall|b: u8| #[trigger] (b >> 4u8) == b / 16) by (bit_vector);
        assert(forall|b: u8| #[trigger] (b & 0xfu8) == b % 16) by (bit_vector);
        assert(forall|b: u8| #[trigger] (b >> 6u8) == b / 64) by (bit_vector);
        assert(forall|b: u8| #[trigger] ((b >> 4u8) & 0x3u8) == (b / 16) % 4) by (bit_vector);
        assert(forall|b: u8| #[trigger] ((b >> 2u8) & 0x3u8) == (b / 4) % 4) by (bit_vector);
        assert(forall|b: u8| #[trigger] (b & 0x3u8) == b % 4) by (bit_vector);
    }
    Ok(DetailedTiming {
        pixel_clock: pixel_clock_10khz as u32 * 10,
        horizontal_active_pixels: join(horizontal_active_lo as u16, horizontal_px_hi >> 4u8),
        horizontal_blanking_pixels: join(horizontal_blanking_lo as u16, horizontal_px_hi & 0xf),
        vertical_active_lines: join(vertical_active_lo as u16, vertical_px_hi >> 4u8),
        vertical_blanking_lines: join(vertical_blanking_lo as u16, vertical_px_hi & 0xf),
        horizontal_front_porch: join(horizontal_front_porch_lo as u16, porch_sync_hi >> 6u8),
        horizontal_sync_width: join(horizontal_sync_width_lo as u16, (porch_sync_hi >> 4u8) & 0x3),
        vertical_front_porch: join((vertical_lo >> 4u8) as u16, (porch_sync_hi >> 2u8) & 0x3),
        vertical_sync_width: join((vertical_lo & 0xf) as u16, porch_sync_hi & 0x3),
        horizontal_size: join(horizontal_size_lo as u16, size_hi >> 4u8),
        vertical_size: join(vertical_size_lo as u16, size_hi & 0xf),
        horizontal_border_pixels: horizontal_border,
        vertical_border_pixels: vertical_border,
        features,
    })
}

proof fn lemma_join(lo: u16, high: u8)
    requires
        lo < 256,
    ensures
        (lo | ((high as u16) << 8u16)) == lo + 256 * high,
{
    assert((lo | ((high as u16) << 8u16)) == lo + 256u16 * (high as u16)) by (bit_vector)
        requires
            lo < 256u16,
    ;
}

/// Every split field of a decoded record equals its low part OR-ed with its high
/// bits shifted left by eight, whatever the two bytes it comes from.
pub proof fn lemma_timing_bit_layout(t: DetailedTiming, s: Seq<u8>, p: int)
    requires
        0 <= p,
        p + 18 <= s.len(),
        timing_matches(t, s, p),
    ensures
        t.horizontal_active_pixels == (s[p + 2] as u16) | (((s[p + 4] >> 4u8) as u16) << 8u16),
        t.horizontal_blanking_pixels == (s[p + 3] as u16) | (((s[p + 4] & 0xfu8) as u16) << 8u16),
        t.vertical_active_lines == (s[p + 5] as u16) | (((s[p + 7] >> 4u8) as u16) << 8u16),
        t.vertical_blanking_lines == (s[p + 6] as u16) | (((s[p + 7] & 0xfu8) as u16) << 8u16),
        t.horizontal_front_porch == (s[p + 8] as u16) | (((s[p + 11] >> 6u8) as u16) << 8u16),
        t.horizontal_sync_width == (s[p + 9] as u16) | ((((s[p + 11] >> 4u8) & 0x3u8) as u16)
            << 8u16),
        t.vertical_front_porch == ((s[p + 10] >> 4u8) as u16) | ((((s[p + 11] >> 2u8) & 0x3u8)
            as u16) << 8u16),
        t.vertical_sync_width == ((s[p + 10] & 0xfu8) as u16) | (((s[p + 11] & 0x3u8) as u16)
            << 8u16),
        t.horizontal_size == (s[p + 12] as u16) | (((s[p + 14] >> 4u8) as u16) << 8u16),
        t.vertical_size == (s[p + 13] as u16) | (((s[p + 14] & 0xfu8) as u16) << 8u16),
{
    assert(forall|b: u8| #[trigger] (b >> 4u8) == b / 16) by (bit_vector);
    assert(forall|b: u8| #[trigger] (b & 0xfu8) == b % 16) by (bit_vector);
    assert(forall|b: u8| #[trigger] (b >> 6u8) == b / 64) by (bit_vector);
    assert(forall|b: u8| #[trigger] ((b >> 4u8) & 0x3u8) == (b / 16) % 4) by (bit_vector);
    assert(forall|b: u8| #[trigger] ((b >> 2u8) & 0x3u8) == (b / 4) % 4) by (bit_vector);
    assert(forall|b: u8| #[trigger] (b & 0x3u8) == b % 4) by (bit_vector);
    lemma_join(s[p + 2] as u16, s[p + 4] >> 4u8);
    lemma_join(s[p + 3] as u16, s[p + 4] & 0xfu8);
    lemma_join(s[p + 5] as u16, s[p + 7] >> 4u8);
    lemma_join(s[p + 6] as u16, s[p + 7] & 0xfu8);
    lemma_join(s[p + 8] as u16, s[p + 11] >> 6u8);
    lemma_join(s[p + 9] as u16, (s[p + 11] >> 4u8) & 0x3u8);
    lemma_join((s[p + 10] >> 4u8) as u16, (s[p + 11] >> 2u8) & 0x3u8);
    lemma_join((s[p + 10] & 0xfu8) as u16, s[p + 11] & 0x3u8);
    lemma_join(s[p + 12] as u16, s[p + 14] >> 4u8);
    lemma_join(s[p + 13] as u16, s[p + 14] & 0xfu8);
}

} // verus!
