use vstd::prelude::*;

verus! {

/// A point in pixel space: origin top-left, y grows downward.
pub type PixelPoint = (u32, u32);

/// A point after anchor translation.
pub type Point = (i64, i64);

/// The origin used for emitted collider coordinates.
#[derive(Clone, Copy, Debug, PartialEq, Eq, Structural)]
pub enum Anchor {
    /// Centre of an image of the given height and width.
    Center(u32, u32),
    /// Horizontal centre of the given width; y unshifted.
    HorisontalCenter(u32),
    /// Vertical centre of the given height; x unshifted.
    VerticalCenter(u32),
    /// No offset.
    AbsoluteCenter,
}

/// The offset that an anchor adds to every point, with floor division.
pub open spec fn offset_of(a: Anchor) -> (int, int) {
    match a {
        Anchor::Center(h, w) => (-(w as int / 2), -(h as int / 2)),
        Anchor::HorisontalCenter(w) => (-(w as int / 2), 0),
        Anchor::VerticalCenter(h) => (0, -(h as int / 2)),
        Anchor::AbsoluteCenter => (0, 0),
    }
}

pub open spec fn translated_point(p: PixelPoint, a: Anchor) -> Point {
    ((p.0 as int + offset_of(a).0) as i64, (p.1 as int + offset_of(a).1) as i64)
}

pub open spec fn translated_contour(c: Seq<PixelPoint>, a: Anchor) -> Seq<Point> {
    c.map_values(|p: PixelPoint| translated_point(p, a))
}

impl Anchor {
    /// The offset `(dx, dy)` of this anchor.
    pub fn resolve_offset(&self) -> (r: (i64, i64))
        ensures
            r.0 as int == offset_of(*self).0,
            r.1 as int == offset_of(*self).1,
    {
        match *self {
            Anchor::Center(h, w) => (-((w / 2) as i64), -((h / 2) as i64)),
            Anchor::HorisontalCenter(w) => (-((w / 2) as i64), 0),
            Anchor::VerticalCenter(h) => (0, -((h / 2) as i64)),
            Anchor::AbsoluteCenter => (0, 0),
        }
    }

    /// Translates one contour by this anchor's offset.
    pub fn translate(&self, contour: &Vec<PixelPoint>) -> (r: Vec<Point>)
        ensures
            r@ == translated_contour(contour@, *self),
    {
        let off = self.resolve_offset();
        let mut out: Vec<Point> = Vec::new();
        let mut i: usize = 0;
        while i < contour.len()
            invariant
                i <= contour@.len(),
                off.0 as int == offset_of(*self).0,
                off.1 as int == offset_of(*self).1,
                out@ == translated_contour(contour@.subrange(0, i as int), *self),
            decreases contour@.len() - i,
        {
            let p = contour[i];
            out.push((p.0 as i64 + off.0, p.1 as i64 + off.1));
            proof {
                assert(contour@.subrange(0, i + 1) =~= contour@.subrange(0, i as int).push(p));
                assert(translated_contour(contour@.subrange(0, i + 1), *self)
                    =~= translated_contour(contour@.subrange(0, i as int), *self).push(translated_point(p, *self)));
            }
            i = i + 1;
        }
        proof {
            assert(contour@.subrange(0, i as int) =~= contour@);
        }
        out
    }

    /// Translates every contour, in order.
    pub fn translate_polygons(&self, contours: &Vec<Vec<PixelPoint>>) -> (r: Vec<Vec<Point>>)
        ensures
            r@.len() == contours@.len(),
            forall|k: int| 0 <= k < r@.len() ==> #[trigger] r@[k]@ == translated_contour(contours@[k]@, *self),
    {
        let mut out: Vec<Vec<Point>> = Vec::new();
        let mut i: usize = 0;
        while i < contours.len()
            invariant
                i <= contours@.len(),
                out@.len() == i,
                forall|k: int| 0 <= k < i ==> #[trigger] out@[k]@ == translated_contour(contours@[k]@, *self),
            decreases contours@.len() - i,
        {
            out.push(self.translate(&contours[i]));
            i = i + 1;
        }
        out
    }
}

/// Under the absolute anchor every point keeps its coordinates.
pub proof fn absolute_is_identity(c: Seq<PixelPoint>)
    ensures
        translated_contour(c, Anchor::AbsoluteCenter).len() == c.len(),
        forall|k: int| 0 <= k < c.len() ==> (#[trigger] translated_contour(c, Anchor::AbsoluteCenter)[k]).0 == c[k].0 as i64
            && translated_contour(c, Anchor::AbsoluteCenter)[k].1 == c[k].1 as i64,
{
}

/// Under `Center(h, w)` every point moves by minus half the width and half the height, rounded down.
pub proof fn center_offset(c: Seq<PixelPoint>, h: u32, w: u32)
    ensures
        translated_contour(c, Anchor::Center(h, w)).len() == c.len(),
        forall|k: int| 0 <= k < c.len() ==> (#[trigger] translated_contour(c, Anchor::Center(h, w))[k]).0 as int == c[k].0 as int - w as int / 2
            && translated_contour(c, Anchor::Center(h, w))[k].1 as int == c[k].1 as int - h as int / 2,
{
}

} // verus!
