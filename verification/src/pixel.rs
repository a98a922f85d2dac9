//! The pixel index: scanned coordinates grouped by exact color identity.

use vstd::prelude::*;

use crate::color::Color;
use crate::point::Point;

verus! {

/// One bucket: every recorded coordinate of one exact color, in insertion
/// order, duplicates kept.
#[derive(Debug, Clone)]
pub struct Pixel {
    pub color: Color,
    pub points: Vec<Point>,
}

/// Coordinates grouped by structural color equality, with a running total
/// of every point ever pushed.
#[derive(Debug, Clone)]
pub struct PixelVec {
    pub pixels: Vec<Pixel>,
    pub points_count: usize,
}

/// The mathematical shape of a bucket: its color and its point sequence.
pub open spec fn bucket_model(p: Pixel) -> (Color, Seq<Point>) {
    (p.color, p.points@)
}

/// The mathematical shape of the whole index: the bucket sequence.
pub open spec fn pv_buckets(pv: PixelVec) -> Seq<(Color, Seq<Point>)> {
    pv.pixels@.map_values(|p: Pixel| bucket_model(p))
}

/// The index of the first bucket holding exactly `color`, or -1 if none
/// does.
pub open spec fn find_bucket(m: Seq<(Color, Seq<Point>)>, color: Color) -> int
    decreases m.len(),
{
    if m.len() == 0 {
        -1
    } else if m[0].0 == color {
        0
    } else {
        let rest = find_bucket(m.skip(1), color);
        if rest < 0 {
            -1
        } else {
            rest + 1
        }
    }
}

/// What one `push` does to the bucket sequence: append the point to the
/// first bucket of structurally equal color, or open a new bucket at the
/// end.
pub open spec fn push_model(
    m: Seq<(Color, Seq<Point>)>,
    color: Color,
    point: Point,
) -> Seq<(Color, Seq<Point>)> {
    let i = find_bucket(m, color);
    if i >= 0 {
        m.update(i, (m[i].0, m[i].1.push(point)))
    } else {
        m.push((color, seq![point]))
    }
}

/// `find_bucket` returns -1 exactly when no bucket matches, and otherwise
/// the first matching index.
pub proof fn lemma_find_bucket(m: Seq<(Color, Seq<Point>)>, color: Color)
    ensures
        -1 <= find_bucket(m, color) < m.len(),
        find_bucket(m, color) >= 0 ==> m[find_bucket(m, color)].0 == color,
        forall|j: int|
            0 <= j < m.len() && (find_bucket(m, color) == -1 || j < find_bucket(m, color))
                ==> (#[trigger] m[j]).0 != color,
    decreases m.len(),
{
    if m.len() != 0 && m[0].0 != color {
        lemma_find_bucket(m.skip(1), color);
        let fb = find_bucket(m, color);
        let rest = find_bucket(m.skip(1), color);
        assert forall|j: int| 0 <= j < m.len() && (fb == -1 || j < fb) implies (#[trigger] m[j]).0
            != color by {
            if j >= 1 {
                assert(m.skip(1)[j - 1] == m[j]);
            }
        }
    }
}

impl PixelVec {
    /// An empty index.
    pub fn new() -> (pv: Self)
        ensures
            pv_buckets(pv) == Seq::<(Color, Seq<Point>)>::empty(),
            pv.points_count == 0,
    {
        let pv = Self { pixels: Vec::new(), points_count: 0 };
        proof {
            assert(pv_buckets(pv) =~= Seq::<(Color, Seq<Point>)>::empty());
        }
        pv
    }

    /// Record one (color, point) pair: the total count always grows by one,
    /// and the point joins the first bucket of equal color, or a fresh one.
    #[verifier::loop_isolation(false)]
    pub fn push(&mut self, pair: (Color, Point))
        requires
            old(self).points_count < usize::MAX,
        ensures
            final(self).points_count == old(self).points_count + 1,
            pv_buckets(*final(self)) == push_model(pv_buckets(*old(self)), pair.0, pair.1),
    {
        let (color, point) = pair;
        let ghost m0 = pv_buckets(*old(self));
        proof {
            lemma_find_bucket(m0, color);
        }
        self.points_count = self.points_count + 1;
        let n = self.pixels.len();
        let mut i: usize = 0;
        while i < n
            invariant
                n == self.pixels.len(),
                0 <= i <= n,
                pv_buckets(*self) == m0,
                self.points_count == old(self).points_count + 1,
                forall|j: int| 0 <= j < i ==> (#[trigger] m0[j]).0 != color,
            decreases n - i,
        {
            if self.pixels[i].color == color {
                proof {
                    assert(m0[i as int].0 == color);
                    assert(find_bucket(m0, color) == i as int);
                }
                let bucket = &mut self.pixels[i];
                bucket.points.push(point);
                proof {
                    let m1 = push_model(m0, color, point);
                    assert forall|j: int| 0 <= j < self.pixels@.len() implies pv_buckets(
                        *self,
                    )[j] == m1[j] by {
                        assert(pv_buckets(*self)[j] == bucket_model(self.pixels@[j]));
                        assert(m0[j] == bucket_model(old(self).pixels@[j]));
                    }
                    assert(pv_buckets(*self) =~= m1);
                }
                return ;
            }
            proof {
                assert(m0[i as int].0 == self.pixels@[i as int].color);
            }
            i = i + 1;
        }
        proof {
            assert(find_bucket(m0, color) == -1);
        }
        self.pixels.push(Pixel { color, points: vec![point] });
        proof {
            let m1 = push_model(m0, color, point);
            assert forall|j: int| 0 <= j < self.pixels@.len() implies pv_buckets(*self)[j]
                == m1[j] by {
                assert(pv_buckets(*self)[j] == bucket_model(self.pixels@[j]));
                if j < m0.len() {
                    assert(m0[j] == bucket_model(old(self).pixels@[j]));
                } else {
                    assert(self.pixels@[j].points@ =~= seq![point]);
                }
            }
            assert(pv_buckets(*self) =~= m1);
        }
    }

    /// The first bucket whose color is structurally equal to `color`, if
    /// any.
    #[verifier::loop_isolation(false)]
    pub fn get_by_color(&self, color: &Color) -> (r: Option<&Pixel>)
        ensures
            ({
                let i = find_bucket(pv_buckets(*self), *color);
                match r {
                    Some(p) => i >= 0 && bucket_model(*p) == pv_buckets(*self)[i],
                    None => i == -1,
                }
            }),
    {
        let ghost m = pv_buckets(*self);
        proof {
            lemma_find_bucket(m, *color);
        }
        let n = self.pixels.len();
        let mut i: usize = 0;
        while i < n
            invariant
                n == self.pixels.len(),
                0 <= i <= n,
                m == pv_buckets(*self),
                forall|j: int| 0 <= j < i ==> (#[trigger] m[j]).0 != *color,
            decreases n - i,
        {
            if self.pixels[i].color == *color {
                proof {
                    assert(m[i as int].0 == *color);
                    assert(find_bucket(m, *color) == i as int);
                }
                return Some(&self.pixels[i]);
            }
            proof {
                assert(m[i as int].0 == self.pixels@[i as int].color);
            }
            i = i + 1;
        }
        None
    }
}

} // verus!
