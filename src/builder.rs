use vstd::prelude::*;
use crate::anchor::{Anchor, PixelPoint, translated_contour};
use crate::collider::{AbstractCollider, ColliderType};
use crate::heightfield::{heights_and_scale, heights_of, scale_of};
use crate::trace::{trace_all, trace_first, contours_of, mask_fits};

verus! {

/// What a collider built from contour `c` under `anchor` and `ty` satisfies.
pub open spec fn built_from(r: AbstractCollider, c: Seq<PixelPoint>, anchor: Anchor, ty: ColliderType) -> bool {
    match ty {
        ColliderType::Polyline => r is Polyline && r->Polyline_0@ == translated_contour(c, anchor),
        ColliderType::ConvexPolyline => r is ConvexPolyline && r->ConvexPolyline_0@ == translated_contour(c, anchor),
        ColliderType::ConvexHull => r is ConvexHull && r->ConvexHull_0@ == translated_contour(c, anchor),
        ColliderType::Heightfield => r is Heightfield
            && r->Heightfield_0@ == heights_of(c) && r->Heightfield_1 == scale_of(c),
    }
}

/// Two colliders of the same variant holding the same points, or the same heights and scale.
pub open spec fn same_collider(a: AbstractCollider, b: AbstractCollider) -> bool {
    match (a, b) {
        (AbstractCollider::Polyline(x), AbstractCollider::Polyline(y)) => x@ == y@,
        (AbstractCollider::ConvexPolyline(x), AbstractCollider::ConvexPolyline(y)) => x@ == y@,
        (AbstractCollider::ConvexHull(x), AbstractCollider::ConvexHull(y)) => x@ == y@,
        (AbstractCollider::Heightfield(h, s), AbstractCollider::Heightfield(g, t)) => h@ == g@ && s == t,
        _ => false,
    }
}

/// A contour, an anchor and a shape fix the collider: two builds of one contour give the
/// same collider, so repeated calls agree and the collider for the first traced contour is
/// the first of those built from all of them.
pub proof fn build_is_determined(r1: AbstractCollider, r2: AbstractCollider, c: Seq<PixelPoint>, anchor: Anchor, ty: ColliderType)
    requires
        built_from(r1, c, anchor, ty),
        built_from(r2, c, anchor, ty),
    ensures
        same_collider(r1, r2),
{
}

/// The collider for the first contour of a mask is the first of the colliders for all of them.
pub proof fn single_is_first_of_multiple(b: Builder, mask: Seq<u8>, one: Option<AbstractCollider>, all: Seq<AbstractCollider>)
    requires
        mask_fits(b.width, b.height, mask) ==> {
            &&& (one is None <==> contours_of(b.width, b.height, mask).len() == 0)
            &&& one is Some ==> built_from(one->Some_0, contours_of(b.width, b.height, mask)[0], b.anchor, b.collider_type)
        },
        !mask_fits(b.width, b.height, mask) ==> one is None && all.len() == 0,
        mask_fits(b.width, b.height, mask) ==> {
            &&& all.len() == contours_of(b.width, b.height, mask).len()
            &&& forall|k: int| 0 <= k < all.len() ==> built_from(#[trigger] all[k],
                contours_of(b.width, b.height, mask)[k], b.anchor, b.collider_type)
        },
    ensures
        one is None <==> all.len() == 0,
        one is Some ==> same_collider(one->Some_0, all[0]),
{
    if one is Some {
        build_is_determined(one->Some_0, all[0], contours_of(b.width, b.height, mask)[0], b.anchor, b.collider_type);
    }
}

/// The number of pixels of a `width` by `height` image.
pub fn pixel_count(width: u32, height: u32) -> (r: u64)
    ensures
        r as int == width as int * height as int,
{
    proof {
        assert(width as int * height as int <= u32::MAX as int * u32::MAX as int) by (nonlinear_arith);
    }
    (width as u64) * (height as u64)
}

/// Configuration for turning the contours of one image into colliders.
#[derive(Clone, Copy, Debug)]
pub struct Builder {
    pub width: u32,
    pub height: u32,
    pub anchor: Anchor,
    pub collider_type: ColliderType,
}

impl Builder {
    /// A builder for an image of the given size, centred on it, producing polylines.
    pub fn new(width: u32, height: u32) -> (r: Builder)
        ensures
            r.width == width,
            r.height == height,
            r.anchor == Anchor::Center(height, width),
            r.collider_type == ColliderType::Polyline,
    {
        Builder { width, height, anchor: Anchor::Center(height, width), collider_type: ColliderType::Polyline }
    }

    pub fn anchor(&self) -> (r: Anchor)
        ensures r == self.anchor,
    {
        self.anchor
    }

    pub fn with_anchor(self, anchor: Anchor) -> (r: Builder)
        ensures r == (Builder { anchor, ..self }),
    {
        Builder { anchor, ..self }
    }

    pub fn center(self, width: u32, height: u32) -> (r: Builder)
        ensures r == (Builder { anchor: Anchor::Center(height, width), ..self }),
    {
        self.with_anchor(Anchor::Center(height, width))
    }

    pub fn horisontal(self, width: u32) -> (r: Builder)
        ensures r == (Builder { anchor: Anchor::HorisontalCenter(width), ..self }),
    {
        self.with_anchor(Anchor::HorisontalCenter(width))
    }

    pub fn vertical(self, height: u32) -> (r: Builder)
        ensures r == (Builder { anchor: Anchor::VerticalCenter(height), ..self }),
    {
        self.with_anchor(Anchor::VerticalCenter(height))
    }

    pub fn absolute(self) -> (r: Builder)
        ensures r == (Builder { anchor: Anchor::AbsoluteCenter, ..self }),
    {
        self.with_anchor(Anchor::AbsoluteCenter)
    }

    pub fn collider_type(&self) -> (r: ColliderType)
        ensures r == self.collider_type,
    {
        self.collider_type
    }

    pub fn with_type(self, collider_type: ColliderType) -> (r: Builder)
        ensures r == (Builder { collider_type, ..self }),
    {
        Builder { collider_type, ..self }
    }

    pub fn polyline(self) -> (r: Builder)
        ensures r == (Builder { collider_type: ColliderType::Polyline, ..self }),
    {
        self.with_type(ColliderType::Polyline)
    }

    pub fn convex_polyline(self) -> (r: Builder)
        ensures r == (Builder { collider_type: ColliderType::ConvexPolyline, ..self }),
    {
        self.with_type(ColliderType::ConvexPolyline)
    }

    pub fn convex_hull(self) -> (r: Builder)
        ensures r == (Builder { collider_type: ColliderType::ConvexHull, ..self }),
    {
        self.with_type(ColliderType::ConvexHull)
    }

    pub fn heightfield(self) -> (r: Builder)
        ensures r == (Builder { collider_type: ColliderType::Heightfield, ..self }),
    {
        self.with_type(ColliderType::Heightfield)
    }

    /// The collider for one traced contour.
    ///
    /// The three polygon shapes carry the same anchor-translated points: this layer reduces
    /// none of them to a convex outline and leaves that to whatever consumes the collider.
    pub fn build_one(&self, contour: &Vec<PixelPoint>) -> (r: AbstractCollider)
        ensures
            built_from(r, contour@, self.anchor, self.collider_type),
    {
        match self.collider_type {
            ColliderType::Heightfield => {
                let (h, s) = heights_and_scale(contour, self.anchor);
                AbstractCollider::Heightfield(h, s)
            },
            ColliderType::Polyline => AbstractCollider::Polyline(self.anchor.translate(contour)),
            ColliderType::ConvexPolyline => AbstractCollider::ConvexPolyline(self.anchor.translate(contour)),
            ColliderType::ConvexHull => AbstractCollider::ConvexHull(self.anchor.translate(contour)),
        }
    }

    /// One collider per traced contour, in the tracer's order.
    pub fn multiple(&self, contours: &Vec<Vec<PixelPoint>>) -> (r: Vec<AbstractCollider>)
        ensures
            r@.len() == contours@.len(),
            forall|k: int| 0 <= k < r@.len() ==> built_from(#[trigger] r@[k], contours@[k]@, self.anchor, self.collider_type),
    {
        let mut out: Vec<AbstractCollider> = Vec::new();
        let mut i: usize = 0;
        while i < contours.len()
            invariant
                i <= contours@.len(),
                out@.len() == i,
                forall|k: int| 0 <= k < i ==> built_from(#[trigger] out@[k], contours@[k]@, self.anchor, self.collider_type),
            decreases contours@.len() - i,
        {
            out.push(self.build_one(&contours[i]));
            i = i + 1;
        }
        out
    }

    /// The collider for the first traced contour, if there is one.
    pub fn single(&self, first: Option<Vec<PixelPoint>>) -> (r: Option<AbstractCollider>)
        ensures
            r is None <==> first is None,
            first matches Some(c) ==> built_from(r->Some_0, c@, self.anchor, self.collider_type),
    {
        match first {
            Some(c) => Some(self.build_one(&c)),
            None => None,
        }
    }

    /// Traces a row-major mask of this builder's size (a pixel is foreground when its byte
    /// is non-zero) and builds one collider per contour. A mask whose length is not
    /// `width * height`, or an image with no pixel, yields nothing.
    pub fn multiple_from_mask(&self, mask: &Vec<u8>) -> (r: Vec<AbstractCollider>)
        ensures
            !mask_fits(self.width, self.height, mask@) ==> r@.len() == 0,
            mask_fits(self.width, self.height, mask@) ==> {
                &&& r@.len() == contours_of(self.width, self.height, mask@).len()
                &&& forall|k: int| 0 <= k < r@.len() ==> built_from(#[trigger] r@[k],
                    contours_of(self.width, self.height, mask@)[k], self.anchor, self.collider_type)
            },
    {
        let size = pixel_count(self.width, self.height);
        if size == 0 || size != mask.len() as u64 || size > u32::MAX as u64 {
            return Vec::new();
        }
        let contours = trace_all(self.width, self.height, mask);
        self.multiple(&contours)
    }

    /// Traces only the first contour of the mask and builds its collider.
    pub fn single_from_mask(&self, mask: &Vec<u8>) -> (r: Option<AbstractCollider>)
        ensures
            !mask_fits(self.width, self.height, mask@) ==> r is None,
            mask_fits(self.width, self.height, mask@) ==> {
                &&& (r is None <==> contours_of(self.width, self.height, mask@).len() == 0)
                &&& r is Some ==> built_from(r->Some_0,
                    contours_of(self.width, self.height, mask@)[0], self.anchor, self.collider_type)
            },
    {
        let size = pixel_count(self.width, self.height);
        if size == 0 || size != mask.len() as u64 || size > u32::MAX as u64 {
            return None;
        }
        let first = trace_first(self.width, self.height, mask);
        self.single(first)
    }
}

} // verus!
