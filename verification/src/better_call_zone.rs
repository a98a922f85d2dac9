//! Axis-aligned rectangular zones: containment, merging, and a deduplicated
//! zone collection.

use vstd::prelude::*;

use crate::point::Point;

verus! {

/// The fixed external bounds that zone geometry clamps to.
pub const ZONE_CLAMP_X: u32 = 800;

pub const ZONE_CLAMP_Y: u32 = 600;

/// An axis-aligned rectangle over image coordinates, defined by two corner
/// points. Immutable in spirit: its extent is derived from the corners on
/// access, so nothing can go stale when a corner moves during a merge.
#[derive(Debug, Clone, Copy, PartialEq, Eq, Structural)]
pub struct Zone {
    pub start: Point,
    pub end: Point,
}

/// Componentwise maximum of two points.
pub open spec fn pt_max(p: Point, q: Point) -> Point {
    Point {
        x: if p.x >= q.x {
            p.x
        } else {
            q.x
        },
        y: if p.y >= q.y {
            p.y
        } else {
            q.y
        },
    }
}

/// Componentwise minimum of two points.
pub open spec fn pt_min(p: Point, q: Point) -> Point {
    Point {
        x: if p.x <= q.x {
            p.x
        } else {
            q.x
        },
        y: if p.y <= q.y {
            p.y
        } else {
            q.y
        },
    }
}

/// The normalized bounding box of a zone, clamped to `(max_x, max_y)`:
/// `(min x, min y, clamped max x, clamped max y)`.
pub open spec fn area_spec(z: Zone, max_x: u32, max_y: u32) -> (u32, u32, u32, u32) {
    let lo = pt_min(z.start, z.end);
    let hi = pt_max(z.start, z.end);
    (
        lo.x,
        lo.y,
        if hi.x <= max_x {
            hi.x
        } else {
            max_x
        },
        if hi.y <= max_y {
            hi.y
        } else {
            max_y
        },
    )
}

/// Containment of clamped bounding boxes, both clamped to the fixed
/// external bounds.
pub open spec fn includes_spec(outer: Zone, inner: Zone) -> bool {
    let a = area_spec(inner, ZONE_CLAMP_X, ZONE_CLAMP_Y);
    let b = area_spec(outer, ZONE_CLAMP_X, ZONE_CLAMP_Y);
    a.0 >= b.0 && a.1 >= b.1 && a.2 <= b.2 && a.3 <= b.3
}

/// The merge rules, checked in order, first match wins:
/// 1. same `start`: grow `end` to the componentwise maximum;
/// 2. same `end`: retract `start` to the componentwise minimum;
/// 3. `self.start` equals the other's `end`: grow `end` toward the other's
///    `start`;
/// 4. `self.end` equals the other's `start`: retract `start` toward the
///    other's `end`;
/// 5. the other zone's clamped bounding box lies inside this one's: merge
///    succeeds with no change.
/// `None` when no rule applies.
pub open spec fn extend_result(a: Zone, b: Zone) -> Option<Zone> {
    if a.start == b.start {
        Some(Zone { start: a.start, end: pt_max(a.end, b.end) })
    } else if a.end == b.end {
        Some(Zone { start: pt_min(a.start, b.start), end: a.end })
    } else if a.start == b.end {
        Some(Zone { start: a.start, end: pt_max(a.end, b.start) })
    } else if a.end == b.start {
        Some(Zone { start: pt_min(a.start, b.end), end: a.end })
    } else if includes_spec(a, b) {
        Some(a)
    } else {
        None
    }
}

impl Zone {
    pub fn new(start: Point, end: Point) -> (z: Self)
        ensures
            z == (Zone { start, end }),
    {
        Self { start, end }
    }

    /// The square of the Euclidean length of the zone's diagonal, computed
    /// from the corners on every call.
    pub fn size_squared(&self) -> (r: u128)
        ensures
            r == (self.start.x - self.end.x) * (self.start.x - self.end.x) + (self.start.y
                - self.end.y) * (self.start.y - self.end.y),
    {
        self.start.distance_squared(&self.end)
    }

    /// The normalized bounding box, clamped to the given maxima.
    pub fn area(&self, max_x: u32, max_y: u32) -> (r: (u32, u32, u32, u32))
        ensures
            r == area_spec(*self, max_x, max_y),
    {
        let min_x = if self.start.x <= self.end.x {
            self.start.x
        } else {
            self.end.x
        };
        let min_y = if self.start.y <= self.end.y {
            self.start.y
        } else {
            self.end.y
        };
        let big_x = if self.start.x >= self.end.x {
            self.start.x
        } else {
            self.end.x
        };
        let big_y = if self.start.y >= self.end.y {
            self.start.y
        } else {
            self.end.y
        };
        let max_x = if big_x <= max_x {
            big_x
        } else {
            max_x
        };
        let max_y = if big_y <= max_y {
            big_y
        } else {
            max_y
        };
        (min_x, min_y, max_x, max_y)
    }

    /// Whether `zone`'s clamped bounding box lies within this zone's, both
    /// clamped to the fixed external bounds.
    pub fn includes(&self, zone: Zone) -> (r: bool)
        ensures
            r == includes_spec(*self, zone),
    {
        let a = zone.area(ZONE_CLAMP_X, ZONE_CLAMP_Y);
        let b = self.area(ZONE_CLAMP_X, ZONE_CLAMP_Y);
        a.0 >= b.0 && a.1 >= b.1 && a.2 <= b.2 && a.3 <= b.3
    }

    /// Inclusive containment of a point in the rectangle spanned by `start`
    /// and `end`.
    pub fn is_inside(&self, point: &Point) -> (r: bool)
        ensures
            r == (self.start.x <= point.x && point.x <= self.end.x && self.start.y <= point.y
                && point.y <= self.end.y),
    {
        point.is_inside(&self.start, &self.end)
    }

    /// Try to merge `zone` into this zone. On success this zone becomes the
    /// merged rectangle and `true` is returned; on failure nothing changes.
    pub fn extend(&mut self, zone: &Zone) -> (merged: bool)
        ensures
            merged == (extend_result(*old(self), *zone) is Some),
            *final(self) == (match extend_result(*old(self), *zone) {
                Some(z) => z,
                None => *old(self),
            }),
    {
        if self.start == zone.start {
            if self.end.x < zone.end.x {
                self.end.x = zone.end.x;
            }
            if self.end.y < zone.end.y {
                self.end.y = zone.end.y;
            }
            true
        } else if self.end == zone.end {
            if self.start.x > zone.start.x {
                self.start.x = zone.start.x;
            }
            if self.start.y > zone.start.y {
                self.start.y = zone.start.y;
            }
            true
        } else if self.start == zone.end {
            if self.end.x < zone.start.x {
                self.end.x = zone.start.x;
            }
            if self.end.y < zone.start.y {
                self.end.y = zone.start.y;
            }
            true
        } else if self.end == zone.start {
            if self.start.x > zone.end.x {
                self.start.x = zone.end.x;
            }
            if self.start.y > zone.end.y {
                self.start.y = zone.end.y;
            }
            true
        } else if self.includes(*zone) {
            true
        } else {
            false
        }
    }
}

/// What `add_zone` does: append the zone unless a structurally equal one is
/// already stored.
pub open spec fn add_zone_spec(zones: Seq<Zone>, zone: Zone) -> Seq<Zone> {
    if zones.contains(zone) {
        zones
    } else {
        zones.push(zone)
    }
}

/// Adding the same zone twice is the same as adding it once: the
/// deduplicating add is idempotent, so a second structurally identical
/// `add_zone` leaves the stored collection unchanged.
pub proof fn lemma_add_zone_idempotent(zones: Seq<Zone>, zone: Zone)
    ensures
        add_zone_spec(add_zone_spec(zones, zone), zone) == add_zone_spec(zones, zone),
{
    if !zones.contains(zone) {
        assert(zones.push(zone)[zones.len() as int] == zone);
        assert(zones.push(zone).contains(zone));
    }
}

/// The index of the first zone in `acc` that `z` merges into, or -1 if it
/// merges with none.
pub open spec fn first_merge(acc: Seq<Zone>, z: Zone) -> int
    decreases acc.len(),
{
    if acc.len() == 0 {
        -1
    } else if extend_result(acc[0], z) is Some {
        0
    } else {
        let rest = first_merge(acc.skip(1), z);
        if rest < 0 {
            -1
        } else {
            rest + 1
        }
    }
}

/// `first_merge` returns -1 exactly when no zone merges, and otherwise the
/// first index that does.
pub proof fn lemma_first_merge(acc: Seq<Zone>, z: Zone)
    ensures
        -1 <= first_merge(acc, z) < acc.len(),
        first_merge(acc, z) >= 0 ==> extend_result(acc[first_merge(acc, z)], z) is Some,
        forall|j: int|
            0 <= j < acc.len() && (first_merge(acc, z) == -1 || j < first_merge(acc, z))
                ==> extend_result(#[trigger] acc[j], z) is None,
    decreases acc.len(),
{
    if acc.len() != 0 && extend_result(acc[0], z) is None {
        lemma_first_merge(acc.skip(1), z);
        let fm = first_merge(acc, z);
        assert forall|j: int|
            0 <= j < acc.len() && (fm == -1 || j < fm) implies extend_result(
            #[trigger] acc[j],
            z,
        ) is None by {
            if j >= 1 {
                assert(acc.skip(1)[j - 1] == acc[j]);
            }
        }
    }
}

/// Fold one zone into the collection: it merges into the first zone that
/// accepts it, or is appended unchanged.
pub open spec fn merge_into(acc: Seq<Zone>, z: Zone) -> Seq<Zone> {
    let i = first_merge(acc, z);
    if i >= 0 {
        acc.update(
            i,
            match extend_result(acc[i], z) {
                Some(m) => m,
                None => acc[i],
            },
        )
    } else {
        acc.push(z)
    }
}

/// The single first-fit coalescing pass over the first `k` zones of the
/// input, in order. Not a fixed point: a zone that becomes mergeable only
/// after a later merge of the same pass is not retried.
pub open spec fn extend_zones_spec(zones: Seq<Zone>, k: int) -> Seq<Zone>
    decreases k,
{
    if k <= 0 {
        Seq::<Zone>::empty()
    } else {
        merge_into(extend_zones_spec(zones, k - 1), zones[k - 1])
    }
}

/// A deduplicated collection of zones, with the fixed image extent it was
/// created for.
#[derive(Debug, Clone, PartialEq)]
pub struct ZoneManager {
    pub zones: Vec<Zone>,
    pub width: u32,
    pub height: u32,
}

impl ZoneManager {
    pub fn new(width: u32, height: u32) -> (m: Self)
        ensures
            m.zones@ == Seq::<Zone>::empty(),
            m.width == width,
            m.height == height,
    {
        Self { zones: Vec::new(), width, height }
    }

    /// Store a zone unless a structurally equal one is already stored.
    #[verifier::loop_isolation(false)]
    pub fn add_zone(&mut self, zone: Zone)
        ensures
            final(self).zones@ == add_zone_spec(old(self).zones@, zone),
            final(self).zones@.contains(zone),
            final(self).width == old(self).width,
            final(self).height == old(self).height,
    {
        let n = self.zones.len();
        let mut i: usize = 0;
        while i < n
            invariant
                n == self.zones.len(),
                0 <= i <= n,
                *self == *old(self),
                forall|j: int| 0 <= j < i ==> self.zones@[j] != zone,
            decreases n - i,
        {
            if self.zones[i] == zone {
                assert(self.zones@.contains(zone));
                return ;
            }
            i = i + 1;
        }
        assert(!self.zones@.contains(zone));
        self.zones.push(zone);
        assert(self.zones@[old(self).zones@.len() as int] == zone);
        assert(self.zones@.contains(zone));
    }

    /// Re-derive the zone collection by folding every stored zone, in
    /// order, into the first zone of the new collection it merges with;
    /// zones that merge with none are kept unchanged. A single pass.
    #[verifier::loop_isolation(false)]
    pub fn extend_zones(&mut self)
        ensures
            final(self).zones@ == extend_zones_spec(old(self).zones@, old(self).zones@.len() as int),
            final(self).width == old(self).width,
            final(self).height == old(self).height,
    {
        let n = self.zones.len();
        let mut result: Vec<Zone> = Vec::new();
        let mut k: usize = 0;
        while k < n
            invariant
                n == self.zones.len(),
                0 <= k <= n,
                *self == *old(self),
                result@ == extend_zones_spec(self.zones@, k as int),
            decreases n - k,
        {
            let z = self.zones[k];
            let ghost acc0 = result@;
            proof {
                lemma_first_merge(acc0, z);
            }
            let mut i: usize = 0;
            let mut found = false;
            while i < result.len() && !found
                invariant
                    0 <= i <= result.len(),
                    !found ==> result@ == acc0,
                    !found ==> forall|j: int|
                        0 <= j < i ==> extend_result(#[trigger] acc0[j], z) is None,
                    found ==> result@ == merge_into(acc0, z),
                decreases result.len() - i,
            {
                let target = &mut result[i];
                let merged_here = target.extend(&z);
                if merged_here {
                    proof {
                        assert(first_merge(acc0, z) == i as int);
                    }
                    found = true;
                } else {
                    proof {
                        assert(result@ =~= acc0);
                    }
                }
                i = i + 1;
            }
            if !found {
                proof {
                    assert(first_merge(acc0, z) == -1);
                }
                result.push(z);
            }
            k = k + 1;
        }
        self.zones = result;
    }
}

} // verus!
