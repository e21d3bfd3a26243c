use vstd::prelude::*;
use vstd::arithmetic::div_mod::lemma_fundamental_div_mod_converse;
use crate::photo::Photo;
use crate::filters::same_alpha;

verus! {

/// Channel `c` of the pixel at column `x`, row `y`, in a row-major RGBA
/// buffer whose rows hold `width` pixels.
pub open spec fn channel_at(s: Seq<u8>, width: int, x: int, y: int, c: int) -> int {
    s[(y * width + x) * 4 + c] as int
}

/// The kernel laid over the 3×3 neighbourhood of `(x, y)`, weights in
/// row-major order with the fifth on the pixel itself.
pub open spec fn weighted_sum(kernel: Seq<i32>, s: Seq<u8>, width: int, x: int, y: int, c: int)
    -> int {
    kernel[0] * channel_at(s, width, x - 1, y - 1, c) + kernel[1] * channel_at(
        s,
        width,
        x,
        y - 1,
        c,
    ) + kernel[2] * channel_at(s, width, x + 1, y - 1, c) + kernel[3] * channel_at(
        s,
        width,
        x - 1,
        y,
        c,
    ) + kernel[4] * channel_at(s, width, x, y, c) + kernel[5] * channel_at(s, width, x + 1, y, c)
        + kernel[6] * channel_at(s, width, x - 1, y + 1, c) + kernel[7] * channel_at(
        s,
        width,
        x,
        y + 1,
        c,
    ) + kernel[8] * channel_at(s, width, x + 1, y + 1, c)
}

/// `v` limited to the range of a channel.
pub open spec fn clamp_channel(v: int) -> u8 {
    if v < 0 {
        0
    } else if v > 255 {
        255
    } else {
        v as u8
    }
}

/// Whether the whole 3×3 neighbourhood of `(x, y)` lies inside the image.
pub open spec fn is_interior(width: int, height: int, x: int, y: int) -> bool {
    1 <= x && x + 1 < width && 1 <= y && y + 1 < height
}

/// Byte `i` of the convolved buffer: the clamped weighted sum for a colour
/// channel of an interior pixel, the input byte for alpha and on the border.
pub open spec fn convolved_byte(kernel: Seq<i32>, s: Seq<u8>, width: int, height: int, i: int)
    -> u8 {
    let pixel = i / 4;
    let c = i % 4;
    let x = pixel % width;
    let y = pixel / width;
    if c < 3 && is_interior(width, height, x, y) {
        clamp_channel(weighted_sum(kernel, s, width, x, y, c))
    } else {
        s[i]
    }
}

/// The buffer that [`apply_convolution`] produces from `s`.
pub open spec fn convolved_pixels(kernel: Seq<i32>, s: Seq<u8>, width: int, height: int) -> Seq<
    u8,
> {
    Seq::new(s.len(), |i: int| convolved_byte(kernel, s, width, height, i))
}

/// The kernels that the library offers by name.
#[derive(Clone, Copy, Debug, PartialEq, Eq, Structural)]
pub enum NamedKernel {
    /// Laplacian-style edge detection.
    EdgeDetection,
    /// Sharpening by the discrete Laplacian.
    Sharpen,
    /// Embossing.
    Emboss,
}

/// The weights of each named kernel, in row-major order.
pub open spec fn named_weights(name: NamedKernel) -> Seq<i32> {
    match name {
        NamedKernel::EdgeDetection => seq![
            -1i32,
            -1i32,
            -1i32,
            -1i32,
            8i32,
            -1i32,
            -1i32,
            -1i32,
            -1i32,
        ],
        NamedKernel::Sharpen => seq![0i32, -1i32, 0i32, -1i32, 5i32, -1i32, 0i32, -1i32, 0i32],
        NamedKernel::Emboss => seq![-2i32, -1i32, 0i32, -1i32, 1i32, 1i32, 0i32, 1i32, 2i32],
    }
}

/// Looks up the weights of a named kernel.
pub fn kernel_for(name: NamedKernel) -> (kernel: [i32; 9])
    ensures
        kernel@ == named_weights(name),
{
    let kernel: [i32; 9] = match name {
        NamedKernel::EdgeDetection => [-1, -1, -1, -1, 8, -1, -1, -1, -1],
        NamedKernel::Sharpen => [0, -1, 0, -1, 5, -1, 0, -1, 0],
        NamedKernel::Emboss => [-2, -1, 0, -1, 1, 1, 0, 1, 2],
    };
    assert(kernel@ =~= named_weights(name));
    kernel
}

/// Position `(y * width + x) * 4 + c` decomposes back into `x`, `y` and `c`.
pub proof fn lemma_coordinates(width: int, x: int, y: int, c: int)
    requires
        0 <= x < width,
        0 <= y,
        0 <= c < 4,
    ensures
        ((y * width + x) * 4 + c) % 4 == c,
        ((y * width + x) * 4 + c) / 4 == y * width + x,
        (y * width + x) % width == x,
        (y * width + x) / width == y,
        (y * width + x) * 4 + c >= 0,
{
    let pixel = y * width + x;
    assert(y * width >= 0) by (nonlinear_arith)
        requires
            y >= 0,
            width > 0,
    ;
    lemma_fundamental_div_mod_converse(pixel * 4 + c, 4, pixel, c);
    lemma_fundamental_div_mod_converse(pixel, width, y, x);
}

fn sample(pixels: &Vec<u8>, w: usize, x: usize, y: usize, c: usize) -> (v: i64)
    requires
        x < w,
        c < 4,
        (y + 1) * w * 4 <= pixels@.len(),
    ensures
        v == channel_at(pixels@, w as int, x as int, y as int, c as int),
        0 <= v <= 255,
{
    assert(0 <= y * w && (y * w + x) * 4 + c < (y + 1) * w * 4) by (nonlinear_arith)
        requires
            0 <= x < w,
            0 <= c < 4,
            0 <= y,
    ;
    let n: usize = pixels.len();
    assert((y * w + x) * 4 + c < n);
    let row: usize = y * w;
    let at: usize = (row + x) * 4 + c;
    pixels[at] as i64
}

fn term(weight: i32, value: i64) -> (t: i64)
    requires
        0 <= value <= 255,
    ensures
        t == weight * value,
        -0x80_0000_0000 <= t <= 0x80_0000_0000,
{
    assert(-0x80_0000_0000 <= weight * value <= 0x80_0000_0000) by (nonlinear_arith)
        requires
            0 <= value <= 255,
            -0x8000_0000 <= weight <= 0x7fff_ffff,
    ;
    (weight as i64) * value
}

fn convolve_at(filter: &[i32; 9], pixels: &Vec<u8>, w: usize, x: usize, y: usize, c: usize) -> (v:
    u8)
    requires
        1 <= x,
        x + 1 < w,
        1 <= y,
        c < 3,
        (y + 2) * w * 4 <= pixels@.len(),
    ensures
        v == clamp_channel(
            weighted_sum(filter@, pixels@, w as int, x as int, y as int, c as int),
        ),
{
    assert((y + 1) * w * 4 <= (y + 2) * w * 4 && y * w * 4 <= (y + 2) * w * 4 && y + 2 <= (y + 2)
        * w * 4) by (nonlinear_arith)
        requires
            w >= 1,
            y >= 0,
    ;
    let n: usize = pixels.len();
    assert(y + 2 <= n);
    let total: i64 = term(filter[0], sample(pixels, w, x - 1, y - 1, c)) + term(
        filter[1],
        sample(pixels, w, x, y - 1, c),
    ) + term(filter[2], sample(pixels, w, x + 1, y - 1, c)) + term(
        filter[3],
        sample(pixels, w, x - 1, y, c),
    ) + term(filter[4], sample(pixels, w, x, y, c)) + term(
        filter[5],
        sample(pixels, w, x + 1, y, c),
    ) + term(filter[6], sample(pixels, w, x - 1, y + 1, c)) + term(
        filter[7],
        sample(pixels, w, x, y + 1, c),
    ) + term(filter[8], sample(pixels, w, x + 1, y + 1, c));
    if total < 0 {
        0
    } else if total > 255 {
        255
    } else {
        total as u8
    }
}

/// Convolves the three colour channels of every interior pixel with the 3×3
/// kernel `filter` and clamps each sum to a channel's range. Alpha and the
/// one-pixel border (first and last row, first and last column) keep their
/// input values. Every sum is taken over the input, never over bytes that
/// this call has already written.
pub fn apply_convolution(filter: [i32; 9], photo: &mut Photo)
    requires
        old(photo).len_matches(),
    ensures
        final(photo).pixels@ == convolved_pixels(
            filter@,
            old(photo).pixels@,
            old(photo).width as int,
            old(photo).height as int,
        ),
        final(photo).width == old(photo).width,
        final(photo).height == old(photo).height,
        final(photo).len_matches(),
        old(photo).wf() ==> final(photo).wf(),
        same_alpha(old(photo).pixels@, final(photo).pixels@),
{
    let n: usize = photo.pixels.len();
    let w: usize = photo.width as usize;
    let h: usize = photo.height as usize;
    let mut out: Vec<u8> = Vec::with_capacity(n);
    let mut i: usize = 0;
    while i < n
        invariant
            i <= n,
            n == photo.pixels@.len(),
            n == w * h * 4,
            w == photo.width,
            h == photo.height,
            *photo == *old(photo),
            out@.len() == i,
            forall|k: int|
                0 <= k < i ==> out@[k] == #[trigger] convolved_byte(
                    filter@,
                    photo.pixels@,
                    w as int,
                    h as int,
                    k,
                ),
        decreases n - i,
    {
        assert(w > 0 && h > 0) by (nonlinear_arith)
            requires
                w * h * 4 > 0,
        ;
        let pixel: usize = i / 4;
        let c: usize = i % 4;
        let x: usize = pixel % w;
        let y: usize = pixel / w;
        let v: u8 = if c < 3 && 1 <= x && x + 1 < w && 1 <= y && y + 1 < h {
            assert((y + 2) * w * 4 <= w * h * 4) by (nonlinear_arith)
                requires
                    y + 2 <= h,
                    w > 0,
            ;
            convolve_at(&filter, &photo.pixels, w, x, y, c)
        } else {
            photo.pixels[i]
        };
        out.push(v);
        i += 1;
    }
    photo.pixels = out;
    assert(photo.pixels@ =~= convolved_pixels(
        filter@,
        old(photo).pixels@,
        old(photo).width as int,
        old(photo).height as int,
    ));
}

/// Edge detection with the Laplacian-style kernel.
pub fn edge_detection(photo: &mut Photo)
    requires
        old(photo).len_matches(),
    ensures
        final(photo).pixels@ == convolved_pixels(
            named_weights(NamedKernel::EdgeDetection),
            old(photo).pixels@,
            old(photo).width as int,
            old(photo).height as int,
        ),
        final(photo).width == old(photo).width,
        final(photo).height == old(photo).height,
        final(photo).len_matches(),
        old(photo).wf() ==> final(photo).wf(),
        same_alpha(old(photo).pixels@, final(photo).pixels@),
{
    apply_convolution(kernel_for(NamedKernel::EdgeDetection), photo);
}

/// Sharpening with the discrete Laplacian kernel.
pub fn sharpen(photo: &mut Photo)
    requires
        old(photo).len_matches(),
    ensures
        final(photo).pixels@ == convolved_pixels(
            named_weights(NamedKernel::Sharpen),
            old(photo).pixels@,
            old(photo).width as int,
            old(photo).height as int,
        ),
        final(photo).width == old(photo).width,
        final(photo).height == old(photo).height,
        final(photo).len_matches(),
        old(photo).wf() ==> final(photo).wf(),
        same_alpha(old(photo).pixels@, final(photo).pixels@),
{
    apply_convolution(kernel_for(NamedKernel::Sharpen), photo);
}

/// Embossing.
pub fn emboss(photo: &mut Photo)
    requires
        old(photo).len_matches(),
    ensures
        final(photo).pixels@ == convolved_pixels(
            named_weights(NamedKernel::Emboss),
            old(photo).pixels@,
            old(photo).width as int,
            old(photo).height as int,
        ),
        final(photo).width == old(photo).width,
        final(photo).height == old(photo).height,
        final(photo).len_matches(),
        old(photo).wf() ==> final(photo).wf(),
        same_alpha(old(photo).pixels@, final(photo).pixels@),
{
    apply_convolution(kernel_for(NamedKernel::Emboss), photo);
}

/// A convolution keeps the buffer's length and every alpha byte, whatever the
/// kernel and the dimensions.
pub proof fn lemma_convolution_keeps_alpha(kernel: Seq<i32>, s: Seq<u8>, width: int, height: int)
    ensures
        convolved_pixels(kernel, s, width, height).len() == s.len(),
        same_alpha(s, convolved_pixels(kernel, s, width, height)),
{
}

/// An image less than three pixels wide or high has no interior: the
/// convolution returns it unchanged.
pub proof fn lemma_no_interior_is_copy(kernel: Seq<i32>, s: Seq<u8>, width: int, height: int)
    requires
        width < 3 || height < 3,
    ensures
        convolved_pixels(kernel, s, width, height) == s,
{
    assert(convolved_pixels(kernel, s, width, height) =~= s);
}

/// Every byte of a pixel outside the interior, and every alpha byte, comes
/// out of the convolution as it went in.
pub proof fn lemma_border_is_copied(
    kernel: Seq<i32>,
    s: Seq<u8>,
    width: int,
    height: int,
    x: int,
    y: int,
    c: int,
)
    requires
        s.len() == width * height * 4,
        0 <= x < width,
        0 <= y < height,
        0 <= c < 4,
        c == 3 || !is_interior(width, height, x, y),
    ensures
        0 <= (y * width + x) * 4 + c < s.len(),
        convolved_pixels(kernel, s, width, height)[(y * width + x) * 4 + c] == s[(y * width + x)
            * 4 + c],
{
    lemma_coordinates(width, x, y, c);
    lemma_in_bounds(width, height, x, y, c);
}

/// Each colour channel of an interior pixel comes out as the clamped
/// weighted sum over its neighbourhood in the input.
pub proof fn lemma_interior_is_filtered(
    kernel: Seq<i32>,
    s: Seq<u8>,
    width: int,
    height: int,
    x: int,
    y: int,
    c: int,
)
    requires
        s.len() == width * height * 4,
        is_interior(width, height, x, y),
        0 <= c < 3,
    ensures
        0 <= (y * width + x) * 4 + c < s.len(),
        convolved_pixels(kernel, s, width, height)[(y * width + x) * 4 + c] == clamp_channel(
            weighted_sum(kernel, s, width, x, y, c),
        ),
{
    lemma_coordinates(width, x, y, c);
    lemma_in_bounds(width, height, x, y, c);
}

/// The bytes of every pixel inside the image lie inside the buffer.
pub proof fn lemma_in_bounds(width: int, height: int, x: int, y: int, c: int)
    requires
        0 <= x < width,
        0 <= y < height,
        0 <= c < 4,
    ensures
        0 <= (y * width + x) * 4 + c < width * height * 4,
{
    assert(y * width + x < width * height && y * width >= 0) by (nonlinear_arith)
        requires
            0 <= x < width,
            0 <= y < height,
    ;
}

} // verus!
