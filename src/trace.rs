use vstd::prelude::*;
use crate::anchor::PixelPoint;
use edges::{BinaryImage, EdgesIter};

verus! {

/// The contours that the `edges` tracer finds in a row-major mask of the given size.
pub uninterp spec fn contours_of(width: u32, height: u32, mask: Seq<u8>) -> Seq<Seq<PixelPoint>>;

/// A mask that the tracer accepts: one byte per pixel, at least one pixel, a pixel count within `u32`.
pub open spec fn mask_fits(width: u32, height: u32, mask: Seq<u8>) -> bool {
    &&& width as int * height as int >= 1
    &&& width as int * height as int == mask.len()
    &&& width as int * height as int <= u32::MAX as int
}

/// Relies on `edges::BinaryImage::from_raw` (one byte per pixel, foreground when non-zero)
/// and on collecting `edges::EdgesIter`: the contours depend on the mask alone.
#[verifier::external_body]
pub(crate) fn trace_all(width: u32, height: u32, mask: &Vec<u8>) -> (r: Vec<Vec<PixelPoint>>)
    requires
        mask_fits(width, height, mask@),
    ensures
        r@.len() == contours_of(width, height, mask@).len(),
        forall|k: int| 0 <= k < r@.len() ==> #[trigger] r@[k]@ == contours_of(width, height, mask@)[k],
{
    let image = BinaryImage::from_raw(width, height, mask);
    EdgesIter::new(&image).map(|c| c.into_iter().map(|p| (p.x, p.y)).collect()).collect()
}

/// Relies on `edges::BinaryImage::from_raw` and on the first item of `edges::EdgesIter`,
/// which is the first of the contours that collecting it gives; nothing further is traced.
#[verifier::external_body]
pub(crate) fn trace_first(width: u32, height: u32, mask: &Vec<u8>) -> (r: Option<Vec<PixelPoint>>)
    requires
        mask_fits(width, height, mask@),
    ensures
        r is None <==> contours_of(width, height, mask@).len() == 0,
        r matches Some(c) ==> c@ == contours_of(width, height, mask@)[0],
{
    let image = BinaryImage::from_raw(width, height, mask);
    EdgesIter::new(&image).next().map(|c| c.into_iter().map(|p| (p.x, p.y)).collect())
}

} // verus!
