use vstd::prelude::*;

verus! {

/// A raster image held as interleaved 8-bit channels (red, green, blue,
/// alpha), row-major and without padding between rows.
#[derive(Clone, Debug, PartialEq, Eq)]
pub struct Photo {
    pub pixels: Vec<u8>,
    pub width: u32,
    pub height: u32,
}

impl Photo {
    /// The buffer holds exactly four bytes for each of `width * height` pixels.
    pub open spec fn len_matches(&self) -> bool {
        self.pixels@.len() == self.width as int * self.height as int * 4
    }

    /// A well-formed photo has at least one pixel and a buffer of matching length.
    pub open spec fn wf(&self) -> bool {
        &&& self.width >= 1
        &&& self.height >= 1
        &&& self.len_matches()
    }

    /// Builds a photo from a raw buffer, or `None` when the buffer's length does
    /// not belong to the given dimensions or a dimension is zero.
    pub fn new(pixels: Vec<u8>, width: u32, height: u32) -> (r: Option<Photo>)
        ensures
            r is Some <==> (width >= 1 && height >= 1 && pixels@.len() == width as int
                * height as int * 4),
            r matches Some(p) ==> p.wf() && p.pixels@ == pixels@ && p.width == width && p.height
                == height,
    {
        if width == 0 || height == 0 {
            return None;
        }
        assert(width as int * height as int <= 0xffff_ffff * 0xffff_ffff) by (nonlinear_arith)
            requires
                width <= 0xffff_ffff,
                height <= 0xffff_ffff,
        ;
        let area: u128 = (width as u128) * (height as u128);
        let wanted: u128 = area * 4;
        if pixels.len() as u128 != wanted {
            return None;
        }
        Some(Photo { pixels, width, height })
    }

    /// An independent copy of the photo.
    pub fn duplicate(&self) -> (r: Photo)
        ensures
            r.pixels@ == self.pixels@,
            r.width == self.width,
            r.height == self.height,
    {
        Photo { pixels: self.pixels.clone(), width: self.width, height: self.height }
    }
}

/// Every well-formed photo holds at least one whole pixel.
pub proof fn lemma_wf_has_pixel(p: Photo)
    requires
        p.wf(),
    ensures
        p.pixels@.len() >= 4,
        p.pixels@.len() % 4 == 0,
{
    let w = p.width as int;
    let h = p.height as int;
    assert(w * h >= 1) by (nonlinear_arith)
        requires
            w >= 1,
            h >= 1,
    ;
}

} // verus!
