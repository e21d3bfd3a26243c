use vstd::prelude::*;
use crate::photo::Photo;
use crate::photo::lemma_wf_has_pixel;

verus! {

/// Cutoff used by [`bw_threshold`].
pub const DEFAULT_CUTOFF: u8 = 128;

/// Amounts added to the red, green and blue channel by a tint. No range is
/// imposed: sums saturate when the tint is applied.
#[derive(Clone, Copy, Debug, PartialEq, Eq, Structural)]
pub struct ChannelOffset {
    pub r_offset: u32,
    pub g_offset: u32,
    pub b_offset: u32,
}

/// The offsets behind the named tints. They are configuration: the library
/// fixes the algorithm, the caller the colours.
#[derive(Clone, Copy, Debug, PartialEq, Eq, Structural)]
pub struct TintPresets {
    pub ocean_blue: ChannelOffset,
    pub purple: ChannelOffset,
}

/// Index of the first byte of the pixel that byte `k` belongs to.
pub open spec fn pixel_base(k: int) -> int {
    k - k % 4
}

/// Whether byte `k` of a buffer of `len` bytes belongs to a pixel that the
/// colour transforms visit. The scan proceeds pixel by pixel and stops before
/// the last one, which is therefore never visited.
pub open spec fn in_scan(len: int, k: int) -> bool {
    0 <= k < len && pixel_base(k) + 4 < len
}

pub open spec fn min3(r: u8, g: u8, b: u8) -> u8 {
    if r <= g && r <= b {
        r
    } else if g <= b {
        g
    } else {
        b
    }
}

pub open spec fn max3(r: u8, g: u8, b: u8) -> u8 {
    if r >= g && r >= b {
        r
    } else if g >= b {
        g
    } else {
        b
    }
}

/// Desaturated gray: the mean of the weakest and the strongest channel,
/// rounded down.
pub open spec fn gray_level(r: u8, g: u8, b: u8) -> u8 {
    ((min3(r, g, b) + max3(r, g, b)) / 2) as u8
}

/// Mean of the three colour channels, rounded down.
pub open spec fn average_level(r: u8, g: u8, b: u8) -> int {
    (r + g + b) / 3
}

/// `level + offset`, limited to 255.
pub open spec fn saturating_offset(level: int, offset: u32) -> u8 {
    if level + offset < 255 {
        (level + offset) as u8
    } else {
        255
    }
}

/// Black or white, depending on which side of `cutoff` the gray level lies.
pub open spec fn threshold_level(r: u8, g: u8, b: u8, cutoff: u8) -> u8 {
    if gray_level(r, g, b) >= cutoff {
        255
    } else {
        0
    }
}

/// The buffer that [`grayscale`] produces from `s`.
pub open spec fn grayscale_pixels(s: Seq<u8>) -> Seq<u8> {
    Seq::new(
        s.len(),
        |k: int|
            if in_scan(s.len() as int, k) && k % 4 != 3 {
                gray_level(s[pixel_base(k)], s[pixel_base(k) + 1], s[pixel_base(k) + 2])
            } else {
                s[k]
            },
    )
}

/// The buffer that [`threshold`] produces from `s`.
pub open spec fn threshold_pixels(s: Seq<u8>, cutoff: u8) -> Seq<u8> {
    Seq::new(
        s.len(),
        |k: int|
            if in_scan(s.len() as int, k) && k % 4 != 3 {
                threshold_level(
                    s[pixel_base(k)],
                    s[pixel_base(k) + 1],
                    s[pixel_base(k) + 2],
                    cutoff,
                )
            } else {
                s[k]
            },
    )
}

/// The buffer that [`monochrome`] produces from `s`. The red slot receives the
/// average plus the red offset. The green slot receives the average plus the
/// *blue* offset; the blue slot keeps its value and the green offset is not
/// used.
pub open spec fn monochrome_pixels(s: Seq<u8>, r_offset: u32, g_offset: u32, b_offset: u32) -> Seq<
    u8,
> {
    Seq::new(
        s.len(),
        |k: int|
            if in_scan(s.len() as int, k) && k % 4 == 0 {
                saturating_offset(average_level(s[k], s[k + 1], s[k + 2]), r_offset)
            } else if in_scan(s.len() as int, k) && k % 4 == 1 {
                saturating_offset(average_level(s[k - 1], s[k], s[k + 1]), b_offset)
            } else {
                s[k]
            },
    )
}

/// The buffer that [`monochrome_corrected`] produces from `s`: each colour
/// slot receives the average plus its own offset.
pub open spec fn monochrome_corrected_pixels(
    s: Seq<u8>,
    r_offset: u32,
    g_offset: u32,
    b_offset: u32,
) -> Seq<u8> {
    Seq::new(
        s.len(),
        |k: int|
            if in_scan(s.len() as int, k) && k % 4 != 3 {
                saturating_offset(
                    average_level(s[pixel_base(k)], s[pixel_base(k) + 1], s[pixel_base(k) + 2]),
                    if k % 4 == 0 {
                        r_offset
                    } else if k % 4 == 1 {
                        g_offset
                    } else {
                        b_offset
                    },
                )
            } else {
                s[k]
            },
    )
}

pub open spec fn is_black_or_white(v: u8) -> bool {
    v == 0 || v == 255
}

/// Whether `t` has the alpha byte of every pixel of `s`.
pub open spec fn same_alpha(s: Seq<u8>, t: Seq<u8>) -> bool {
    &&& s.len() == t.len()
    &&& forall|k: int| 0 <= k < s.len() && k % 4 == 3 ==> #[trigger] t[k] == s[k]
}

fn gray_of(r: u8, g: u8, b: u8) -> (v: u8)
    ensures
        v == gray_level(r, g, b),
{
    let lo: u8 = if r <= g && r <= b {
        r
    } else if g <= b {
        g
    } else {
        b
    };
    let hi: u8 = if r >= g && r >= b {
        r
    } else if g >= b {
        g
    } else {
        b
    };
    let total: u16 = lo as u16 + hi as u16;
    (total / 2) as u8
}

fn average_of(r: u8, g: u8, b: u8) -> (v: u32)
    ensures
        v == average_level(r, g, b),
        v <= 255,
{
    let total: u32 = r as u32 + g as u32 + b as u32;
    let mean: u32 = total / 3;
    if mean >= 255 {
        255
    } else {
        mean
    }
}

fn offset_of(level: u32, offset: u32) -> (v: u8)
    requires
        level <= 255,
    ensures
        v == saturating_offset(level as int, offset),
{
    let total: u64 = level as u64 + offset as u64;
    if total < 255 {
        total as u8
    } else {
        255
    }
}

/// Converts the photo to gray by desaturation: every visited pixel gets
/// `(min + max) / 2` of its colour channels in all three of them.
pub fn grayscale(photo: &mut Photo)
    requires
        old(photo).wf(),
    ensures
        final(photo).pixels@ == grayscale_pixels(old(photo).pixels@),
        final(photo).width == old(photo).width,
        final(photo).height == old(photo).height,
        final(photo).wf(),
        same_alpha(old(photo).pixels@, final(photo).pixels@),
{
    proof {
        lemma_wf_has_pixel(*photo);
    }
    let n: usize = photo.pixels.len();
    let mut i: usize = 0;
    while i < n - 4
        invariant
            n >= 4,
            i % 4 == 0,
            n % 4 == 0,
            i <= n,
            photo.pixels@.len() == n,
            old(photo).pixels@.len() == n,
            photo.width == old(photo).width,
            photo.height == old(photo).height,
            forall|k: int|
                0 <= k < i ==> photo.pixels@[k] == #[trigger] grayscale_pixels(
                    old(photo).pixels@,
                )[k],
            forall|k: int| i <= k < n ==> #[trigger] photo.pixels@[k] == old(photo).pixels@[k],
        decreases n - i,
    {
        let gray: u8 = gray_of(photo.pixels[i], photo.pixels[i + 1], photo.pixels[i + 2]);
        photo.pixels.set(i, gray);
        photo.pixels.set(i + 1, gray);
        photo.pixels.set(i + 2, gray);
        i += 4;
    }
    assert(photo.pixels@ =~= grayscale_pixels(old(photo).pixels@));
}

/// Tints the photo around its per-pixel average, in the compatibility
/// channel order: red receives the average plus `r_offset`, the green slot receives
/// the average plus `b_offset`, and blue is left as it was. `g_offset` has no
/// effect. Sums above 255 saturate. See [`monochrome_corrected`] for the
/// transform that writes each channel to its own slot.
pub fn monochrome(photo: &mut Photo, r_offset: u32, g_offset: u32, b_offset: u32)
    requires
        old(photo).wf(),
    ensures
        final(photo).pixels@ == monochrome_pixels(
            old(photo).pixels@,
            r_offset,
            g_offset,
            b_offset,
        ),
        final(photo).width == old(photo).width,
        final(photo).height == old(photo).height,
        final(photo).wf(),
        same_alpha(old(photo).pixels@, final(photo).pixels@),
{
    proof {
        lemma_wf_has_pixel(*photo);
    }
    let n: usize = photo.pixels.len();
    let mut i: usize = 0;
    while i < n - 4
        invariant
            n >= 4,
            i % 4 == 0,
            n % 4 == 0,
            i <= n,
            photo.pixels@.len() == n,
            old(photo).pixels@.len() == n,
            photo.width == old(photo).width,
            photo.height == old(photo).height,
            forall|k: int|
                0 <= k < i ==> photo.pixels@[k] == #[trigger] monochrome_pixels(
                    old(photo).pixels@,
                    r_offset,
                    g_offset,
                    b_offset,
                )[k],
            forall|k: int| i <= k < n ==> #[trigger] photo.pixels@[k] == old(photo).pixels@[k],
        decreases n - i,
    {
        let avg: u32 = average_of(photo.pixels[i], photo.pixels[i + 1], photo.pixels[i + 2]);
        let new_r: u8 = offset_of(avg, r_offset);
        let new_b: u8 = offset_of(avg, b_offset);
        photo.pixels.set(i, new_r);
        // The blue result goes to the green slot; the blue slot is not written.
        photo.pixels.set(i + 1, new_b);
        i += 4;
    }
    assert(photo.pixels@ =~= monochrome_pixels(old(photo).pixels@, r_offset, g_offset, b_offset));
}

/// Tints the photo around its per-pixel average: each colour channel of a
/// visited pixel receives the average plus its own offset, saturating at 255.
pub fn monochrome_corrected(photo: &mut Photo, r_offset: u32, g_offset: u32, b_offset: u32)
    requires
        old(photo).wf(),
    ensures
        final(photo).pixels@ == monochrome_corrected_pixels(
            old(photo).pixels@,
            r_offset,
            g_offset,
            b_offset,
        ),
        final(photo).width == old(photo).width,
        final(photo).height == old(photo).height,
        final(photo).wf(),
        same_alpha(old(photo).pixels@, final(photo).pixels@),
{
    proof {
        lemma_wf_has_pixel(*photo);
    }
    let n: usize = photo.pixels.len();
    let mut i: usize = 0;
    while i < n - 4
        invariant
            n >= 4,
            i % 4 == 0,
            n % 4 == 0,
            i <= n,
            photo.pixels@.len() == n,
            old(photo).pixels@.len() == n,
            photo.width == old(photo).width,
            photo.height == old(photo).height,
            forall|k: int|
                0 <= k < i ==> photo.pixels@[k] == #[trigger] monochrome_corrected_pixels(
                    old(photo).pixels@,
                    r_offset,
                    g_offset,
                    b_offset,
                )[k],
            forall|k: int| i <= k < n ==> #[trigger] photo.pixels@[k] == old(photo).pixels@[k],
        decreases n - i,
    {
        let avg: u32 = average_of(photo.pixels[i], photo.pixels[i + 1], photo.pixels[i + 2]);
        let new_r: u8 = offset_of(avg, r_offset);
        let new_g: u8 = offset_of(avg, g_offset);
        let new_b: u8 = offset_of(avg, b_offset);
        photo.pixels.set(i, new_r);
        photo.pixels.set(i + 1, new_g);
        photo.pixels.set(i + 2, new_b);
        proof {
            let start = i as int;
            let wanted = monochrome_corrected_pixels(
                old(photo).pixels@,
                r_offset,
                g_offset,
                b_offset,
            );
            assert(pixel_base(start) == start && pixel_base(start + 1) == start && pixel_base(
                start + 2,
            ) == start);
            assert(wanted[start] == new_r);
            assert(wanted[start + 1] == new_g);
            assert(wanted[start + 2] == new_b);
            assert(wanted[start + 3] == old(photo).pixels@[start + 3]);
        }
        i += 4;
    }
    assert(photo.pixels@ =~= monochrome_corrected_pixels(
        old(photo).pixels@,
        r_offset,
        g_offset,
        b_offset,
    ));
}

/// Turns every visited pixel black or white: white where its desaturated gray
/// level reaches `cutoff`, black below it.
pub fn threshold(photo: &mut Photo, cutoff: u8)
    requires
        old(photo).wf(),
    ensures
        final(photo).pixels@ == threshold_pixels(old(photo).pixels@, cutoff),
        final(photo).width == old(photo).width,
        final(photo).height == old(photo).height,
        final(photo).wf(),
        same_alpha(old(photo).pixels@, final(photo).pixels@),
        forall|k: int|
            in_scan(old(photo).pixels@.len() as int, k) && k % 4 != 3 ==> is_black_or_white(
                #[trigger] final(photo).pixels@[k],
            ),
{
    proof {
        lemma_wf_has_pixel(*photo);
    }
    let n: usize = photo.pixels.len();
    let mut i: usize = 0;
    while i < n - 4
        invariant
            n >= 4,
            i % 4 == 0,
            n % 4 == 0,
            i <= n,
            photo.pixels@.len() == n,
            old(photo).pixels@.len() == n,
            photo.width == old(photo).width,
            photo.height == old(photo).height,
            forall|k: int|
                0 <= k < i ==> photo.pixels@[k] == #[trigger] threshold_pixels(
                    old(photo).pixels@,
                    cutoff,
                )[k],
            forall|k: int| i <= k < n ==> #[trigger] photo.pixels@[k] == old(photo).pixels@[k],
        decreases n - i,
    {
        let gray: u8 = gray_of(photo.pixels[i], photo.pixels[i + 1], photo.pixels[i + 2]);
        let level: u8 = if gray >= cutoff {
            255
        } else {
            0
        };
        photo.pixels.set(i, level);
        photo.pixels.set(i + 1, level);
        photo.pixels.set(i + 2, level);
        i += 4;
    }
    assert(photo.pixels@ =~= threshold_pixels(old(photo).pixels@, cutoff));
}

/// [`threshold`] at the default cutoff.
pub fn bw_threshold(photo: &mut Photo)
    requires
        old(photo).wf(),
    ensures
        final(photo).pixels@ == threshold_pixels(old(photo).pixels@, DEFAULT_CUTOFF),
        final(photo).width == old(photo).width,
        final(photo).height == old(photo).height,
        final(photo).wf(),
        same_alpha(old(photo).pixels@, final(photo).pixels@),
{
    threshold(photo, DEFAULT_CUTOFF);
}

/// Applying [`grayscale`] a second time changes nothing.
pub proof fn lemma_grayscale_idempotent(s: Seq<u8>)
    ensures
        grayscale_pixels(grayscale_pixels(s)) == grayscale_pixels(s),
{
    let once = grayscale_pixels(s);
    assert forall|k: int| 0 <= k < s.len() implies grayscale_pixels(once)[k] == once[k] by {
        if in_scan(s.len() as int, k) && k % 4 != 3 {
            let base = pixel_base(k);
            assert(in_scan(s.len() as int, base) && base % 4 == 0 && pixel_base(base) == base);
            assert(in_scan(s.len() as int, base + 1) && pixel_base(base + 1) == base);
            assert(in_scan(s.len() as int, base + 2) && pixel_base(base + 2) == base);
        }
    }
    assert(grayscale_pixels(once) =~= once);
}

/// Applying [`threshold`] a second time with the same cutoff changes nothing.
pub proof fn lemma_threshold_idempotent(s: Seq<u8>, cutoff: u8)
    ensures
        threshold_pixels(threshold_pixels(s, cutoff), cutoff) == threshold_pixels(s, cutoff),
{
    let once = threshold_pixels(s, cutoff);
    assert forall|k: int| 0 <= k < s.len() implies threshold_pixels(once, cutoff)[k]
        == once[k] by {
        if in_scan(s.len() as int, k) && k % 4 != 3 {
            let base = pixel_base(k);
            assert(in_scan(s.len() as int, base) && base % 4 == 0 && pixel_base(base) == base);
            assert(in_scan(s.len() as int, base + 1) && pixel_base(base + 1) == base);
            assert(in_scan(s.len() as int, base + 2) && pixel_base(base + 2) == base);
        }
    }
    assert(threshold_pixels(once, cutoff) =~= once);
}

/// After [`threshold`], each colour channel of every visited pixel is 0 or 255.
pub proof fn lemma_threshold_is_binary(s: Seq<u8>, cutoff: u8, k: int)
    requires
        in_scan(s.len() as int, k),
        k % 4 != 3,
    ensures
        is_black_or_white(threshold_pixels(s, cutoff)[k]),
{
}

/// A buffer in which every byte is 255 comes out of [`monochrome`] with every
/// byte still 255, whatever the offsets: sums saturate and never wrap.
pub proof fn lemma_monochrome_saturates(s: Seq<u8>, r_offset: u32, g_offset: u32, b_offset: u32)
    requires
        forall|k: int| 0 <= k < s.len() ==> s[k] == 255,
    ensures
        monochrome_pixels(s, r_offset, g_offset, b_offset).len() == s.len(),
        forall|k: int|
            0 <= k < s.len() ==> #[trigger] monochrome_pixels(s, r_offset, g_offset, b_offset)[k]
                == 255,
{
}

/// No colour transform changes any alpha byte.
pub proof fn lemma_filters_keep_alpha(
    s: Seq<u8>,
    r_offset: u32,
    g_offset: u32,
    b_offset: u32,
    cutoff: u8,
)
    ensures
        same_alpha(s, grayscale_pixels(s)),
        same_alpha(s, threshold_pixels(s, cutoff)),
        same_alpha(s, monochrome_pixels(s, r_offset, g_offset, b_offset)),
        same_alpha(s, monochrome_corrected_pixels(s, r_offset, g_offset, b_offset)),
{
}

/// [`monochrome`] with its three offsets taken from `offsets`.
pub fn tint(photo: &mut Photo, offsets: ChannelOffset)
    requires
        old(photo).wf(),
    ensures
        final(photo).pixels@ == monochrome_pixels(
            old(photo).pixels@,
            offsets.r_offset,
            offsets.g_offset,
            offsets.b_offset,
        ),
        final(photo).width == old(photo).width,
        final(photo).height == old(photo).height,
        final(photo).wf(),
        same_alpha(old(photo).pixels@, final(photo).pixels@),
{
    monochrome(photo, offsets.r_offset, offsets.g_offset, offsets.b_offset);
}

/// The tint named "ocean blue", with the offsets that `presets` gives it.
pub fn ocean_blue(photo: &mut Photo, presets: &TintPresets)
    requires
        old(photo).wf(),
    ensures
        final(photo).pixels@ == monochrome_pixels(
            old(photo).pixels@,
            presets.ocean_blue.r_offset,
            presets.ocean_blue.g_offset,
            presets.ocean_blue.b_offset,
        ),
        final(photo).width == old(photo).width,
        final(photo).height == old(photo).height,
        final(photo).wf(),
        same_alpha(old(photo).pixels@, final(photo).pixels@),
{
    tint(photo, presets.ocean_blue);
}

/// The tint named "purple", with the offsets that `presets` gives it.
pub fn purple(photo: &mut Photo, presets: &TintPresets)
    requires
        old(photo).wf(),
    ensures
        final(photo).pixels@ == monochrome_pixels(
            old(photo).pixels@,
            presets.purple.r_offset,
            presets.purple.g_offset,
            presets.purple.b_offset,
        ),
        final(photo).width == old(photo).width,
        final(photo).height == old(photo).height,
        final(photo).wf(),
        same_alpha(old(photo).pixels@, final(photo).pixels@),
{
    tint(photo, presets.purple);
}

} // verus!
