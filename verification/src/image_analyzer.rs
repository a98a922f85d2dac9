//! The scan engine: walk a rectangular region of an image in row-major
//! order, handing each pixel's color and coordinate to a handler that can
//! cut the current row short or halt the scan, and the detection helpers
//! that collect matching pixels into a `PixelVec`.

use vstd::prelude::*;

use crate::color::{color_compare_spec, color_of_rgb, Color};
use crate::image_source::{img_dims, img_pixels, RgbaBuffer};
use crate::pixel::{pv_buckets, push_model, PixelVec};
use crate::point::Point;
use crate::rgb::Rgb;

verus! {

/// A control signal returned by a scan handler: continue with or break out
/// of iteration along an axis. With the row-major loop structure, `X`
/// signals and `Continue(Y)` all cut the current row short, while
/// `Break(Y)` halts the whole scan.
#[derive(Debug, PartialEq, Eq, Structural, Clone, Copy)]
pub enum LoopResult {
    Continue(Axis),
    Break(Axis),
}

/// The axis a `LoopResult` applies to: `X` is the inner (column) loop, `Y`
/// the outer (row) loop.
#[derive(Debug, PartialEq, Eq, Structural, Clone, Copy)]
pub enum Axis {
    X,
    Y,
}

/// The region a scan covers: the whole image, or the rectangle spanned by
/// two corner points (start inclusive, end exclusive).
#[derive(Debug, PartialEq, Eq, Structural, Clone, Copy)]
pub enum ImageZone {
    Full,
    Partial(Point, Point),
}

/// Why a zone was rejected: corners out of order, extent beyond the image,
/// or a degenerate zero-area rectangle.
#[derive(Debug, PartialEq, Eq, Structural, Clone, Copy)]
pub enum ZoneError {
    Inverted,
    OutOfBounds,
    ZeroArea,
}

impl ZoneError {
    /// A human-readable description of the rejection.
    pub fn message(&self) -> (r: &'static str)
        ensures
            *self == ZoneError::Inverted ==> r@ == "Zone start lies beyond its end"@,
            *self == ZoneError::OutOfBounds ==> r@ == "Zone extends beyond the image"@,
            *self == ZoneError::ZeroArea ==> r@ == "Zone has zero area"@,
    {
        match self {
            ZoneError::Inverted => "Zone start lies beyond its end",
            ZoneError::OutOfBounds => "Zone extends beyond the image",
            ZoneError::ZeroArea => "Zone has zero area",
        }
    }
}

/// Validation and scan bounds of a zone against an image of `width` by
/// `height`: the full image is always accepted; a partial zone is rejected
/// when inverted, when it exceeds the image, or when it spans no pixels.
/// On acceptance the scan bounds `(x_lo, y_lo, x_hi, y_hi)` are returned.
pub open spec fn zone_check(zone: ImageZone, width: u32, height: u32) -> Result<
    (u32, u32, u32, u32),
    ZoneError,
> {
    match zone {
        ImageZone::Full => Ok((0u32, 0u32, width, height)),
        ImageZone::Partial(start, end) => {
            if start.x > end.x || start.y > end.y {
                Err(ZoneError::Inverted)
            } else if end.x > width || end.y > height {
                Err(ZoneError::OutOfBounds)
            } else if start.x == end.x || start.y == end.y {
                Err(ZoneError::ZeroArea)
            } else {
                Ok((start.x, start.y, end.x, end.y))
            }
        },
    }
}

/// The pixel the image stores at `(x, y)`, as an RGB value.
pub open spec fn rgb_at(img: RgbaBuffer, x: int, y: int) -> Rgb {
    let c = img_pixels(img)[(x, y)];
    Rgb { r: c.0, g: c.1, b: c.2, a: c.3 }
}

/// Validate a zone against image dimensions, returning the scan bounds
/// `(x_lo, y_lo, x_hi, y_hi)` it stands for.
pub fn validate_zone(zone: &ImageZone, width: u32, height: u32) -> (r: Result<
    (u32, u32, u32, u32),
    ZoneError,
>)
    ensures
        r == zone_check(*zone, width, height),
{
    match zone {
        ImageZone::Full => Ok((0, 0, width, height)),
        ImageZone::Partial(start, end) => {
            if start.x > end.x || start.y > end.y {
                Err(ZoneError::Inverted)
            } else if end.x > width || end.y > height {
                Err(ZoneError::OutOfBounds)
            } else if start.x == end.x || start.y == end.y {
                Err(ZoneError::ZeroArea)
            } else {
                Ok((start.x, start.y, end.x, end.y))
            }
        },
    }
}

/// A per-pixel scan callback. The handler sees each scanned pixel's color
/// and coordinate and may return a control signal; its own state is its
/// implementor's business.
pub trait ScanHandler {
    fn on_pixel(&mut self, color: Color, point: Point) -> Option<LoopResult>;
}

/// Where the scan goes after a step: the record's signal decides. `None`
/// means the scan ends. A `Break(Y)` signal ends it immediately; no signal
/// moves one pixel right if the row has more; otherwise (end of row, or a
/// row-cutting signal) the scan moves to the start of the next row, if one
/// remains.
pub open spec fn next_scan_pos(
    rec: (Point, Color, Option<LoopResult>),
    x_lo: int,
    x_hi: int,
    y_hi: int,
) -> Option<(int, int)> {
    if rec.2 == Some(LoopResult::Break(Axis::Y)) {
        None
    } else if rec.2 is None && rec.0.x + 1 < x_hi {
        Some(((rec.0.x + 1) as int, rec.0.y as int))
    } else if rec.0.y + 1 < y_hi {
        Some((x_lo, (rec.0.y + 1) as int))
    } else {
        None
    }
}

/// The coordinate a trace record was taken at.
pub open spec fn scan_pos(rec: (Point, Color, Option<LoopResult>)) -> (int, int) {
    (rec.0.x as int, rec.0.y as int)
}

/// One record is well-formed: taken inside the scan bounds, with the color
/// the image stores there.
pub open spec fn scan_rec_ok(
    rec: (Point, Color, Option<LoopResult>),
    img: RgbaBuffer,
    x_lo: int,
    y_lo: int,
    x_hi: int,
    y_hi: int,
) -> bool {
    &&& x_lo <= rec.0.x < x_hi
    &&& y_lo <= rec.0.y < y_hi
    &&& rec.1 == color_of_rgb(rgb_at(img, rec.0.x as int, rec.0.y as int))
}

/// A complete scan trace: one record per handled pixel, in the order the
/// scan visited them. The trace starts at the zone's corner, each record
/// is followed by exactly the position its signal demands, and the trace
/// ends only where the signals (or the zone's extent) end the scan. An
/// empty trace happens exactly for an empty zone.
pub open spec fn scan_trace_ok(
    t: Seq<(Point, Color, Option<LoopResult>)>,
    img: RgbaBuffer,
    x_lo: int,
    y_lo: int,
    x_hi: int,
    y_hi: int,
) -> bool {
    &&& (t.len() == 0 <==> (x_hi <= x_lo || y_hi <= y_lo))
    &&& (t.len() > 0 ==> t[0].0 == (Point { x: x_lo as u32, y: y_lo as u32 }))
    &&& (forall|i: int|
        0 <= i < t.len() ==> scan_rec_ok(#[trigger] t[i], img, x_lo, y_lo, x_hi, y_hi))
    &&& (forall|i: int|
        0 <= i < t.len() - 1 ==> next_scan_pos(#[trigger] t[i], x_lo, x_hi, y_hi) == Some(
            scan_pos(t[i + 1]),
        ))
    &&& (t.len() > 0 ==> next_scan_pos(t[t.len() - 1], x_lo, x_hi, y_hi) is None)
}

/// A handler that answers `Break(Y)` halts the scan on the spot: its
/// record is the last one, so no later pixel of that row and no later row
/// is visited.
pub proof fn lemma_break_halts_scan(
    t: Seq<(Point, Color, Option<LoopResult>)>,
    img: RgbaBuffer,
    x_lo: int,
    y_lo: int,
    x_hi: int,
    y_hi: int,
    i: int,
)
    requires
        scan_trace_ok(t, img, x_lo, y_lo, x_hi, y_hi),
        0 <= i < t.len(),
        t[i].2 == Some(LoopResult::Break(Axis::Y)),
    ensures
        t.len() == i + 1,
{
    if i < t.len() - 1 {
        assert(next_scan_pos(t[i], x_lo, x_hi, y_hi) == Some(scan_pos(t[i + 1])));
        assert(next_scan_pos(t[i], x_lo, x_hi, y_hi) is None);
    }
}

/// Does a pixel's color pass the detection filter? No filter accepts
/// everything; a reference color accepts what it compares equal to under
/// its own tolerance.
pub open spec fn scan_filter_matches(filter: Option<Color>, c: Color) -> bool {
    match filter {
        None => true,
        Some(t) => color_compare_spec(t, c),
    }
}

/// The reference color a detection filter holds, if any.
pub open spec fn filter_model(filter: Option<&Color>) -> Option<Color> {
    match filter {
        None => None,
        Some(c) => Some(*c),
    }
}

/// One cell of the detection fold over a state of (buckets, total count):
/// a matching pixel is pushed, any other leaves the state unchanged.
pub open spec fn scan_cell(
    st: (Seq<(Color, Seq<Point>)>, int),
    img: RgbaBuffer,
    filter: Option<Color>,
    x: int,
    y: int,
) -> (Seq<(Color, Seq<Point>)>, int) {
    let c = color_of_rgb(rgb_at(img, x, y));
    if scan_filter_matches(filter, c) {
        (push_model(st.0, c, Point { x: x as u32, y: y as u32 }), st.1 + 1)
    } else {
        st
    }
}

/// The detection fold over row `y`, cells `x_lo` up to `x`, left to right.
pub open spec fn scan_row(
    st: (Seq<(Color, Seq<Point>)>, int),
    img: RgbaBuffer,
    filter: Option<Color>,
    y: int,
    x_lo: int,
    x: int,
) -> (Seq<(Color, Seq<Point>)>, int)
    decreases x - x_lo,
{
    if x <= x_lo {
        st
    } else {
        scan_cell(scan_row(st, img, filter, y, x_lo, x - 1), img, filter, x - 1, y)
    }
}

/// The detection fold over the rows `y_lo` up to `y`, top to bottom, each
/// row scanned left to right over `x_lo..x_hi`.
pub open spec fn scan_rows(
    st: (Seq<(Color, Seq<Point>)>, int),
    img: RgbaBuffer,
    filter: Option<Color>,
    x_lo: int,
    x_hi: int,
    y_lo: int,
    y: int,
) -> (Seq<(Color, Seq<Point>)>, int)
    decreases y - y_lo,
{
    if y <= y_lo {
        st
    } else {
        scan_row(scan_rows(st, img, filter, x_lo, x_hi, y_lo, y - 1), img, filter, y - 1, x_lo, x_hi)
    }
}

/// The full detection result over accepted scan bounds, starting from an
/// empty index.
pub open spec fn detect_result(
    img: RgbaBuffer,
    filter: Option<Color>,
    b: (u32, u32, u32, u32),
) -> (Seq<(Color, Seq<Point>)>, int) {
    scan_rows(
        (Seq::<(Color, Seq<Point>)>::empty(), 0),
        img,
        filter,
        b.0 as int,
        b.2 as int,
        b.1 as int,
        b.3 as int,
    )
}

/// What one detection call leaves in the pixel index: the cached buffer
/// when it already holds points; otherwise, for a zone that validates, the
/// filtered scan of the zone; for one that does not, the old buffer.
pub open spec fn detect_step(
    img: RgbaBuffer,
    st: (Seq<(Color, Seq<Point>)>, int),
    zone: ImageZone,
    filter: Option<Color>,
) -> (Seq<(Color, Seq<Point>)>, int) {
    if st.1 > 0 {
        st
    } else {
        match zone_check(zone, img_dims(img).0, img_dims(img).1) {
            Ok(b) => detect_result(img, filter, b),
            Err(_) => st,
        }
    }
}

/// Scan the rectangle `x_lo..x_hi` by `y_lo..y_hi` in row-major order and
/// collect the pixels accepted by the filter into a fresh index.
#[verifier::loop_isolation(false)]
fn scan_collect(
    img: &RgbaBuffer,
    x_lo: u32,
    y_lo: u32,
    x_hi: u32,
    y_hi: u32,
    filter: Option<&Color>,
) -> (pv: PixelVec)
    requires
        x_lo <= x_hi,
        y_lo <= y_hi,
        x_hi <= img_dims(*img).0,
        y_hi <= img_dims(*img).1,
        (x_hi - x_lo) * (y_hi - y_lo) <= usize::MAX,
    ensures
        pv_buckets(pv) == scan_rows(
            (Seq::<(Color, Seq<Point>)>::empty(), 0),
            *img,
            filter_model(filter),
            x_lo as int,
            x_hi as int,
            y_lo as int,
            y_hi as int,
        ).0,
        pv.points_count as int == scan_rows(
            (Seq::<(Color, Seq<Point>)>::empty(), 0),
            *img,
            filter_model(filter),
            x_lo as int,
            x_hi as int,
            y_lo as int,
            y_hi as int,
        ).1,
{
    let mut pv = PixelVec::new();
    let ghost init: (Seq<(Color, Seq<Point>)>, int) = (Seq::<(Color, Seq<Point>)>::empty(), 0);
    let ghost f = filter_model(filter);
    let mut y = y_lo;
    while y < y_hi
        invariant
            y_lo <= y <= y_hi,
            pv_buckets(pv) == scan_rows(
                init,
                *img,
                f,
                x_lo as int,
                x_hi as int,
                y_lo as int,
                y as int,
            ).0,
            pv.points_count as int == scan_rows(
                init,
                *img,
                f,
                x_lo as int,
                x_hi as int,
                y_lo as int,
                y as int,
            ).1,
            pv.points_count <= (y - y_lo) * (x_hi - x_lo),
        decreases y_hi - y,
    {
        let ghost row0 = scan_rows(init, *img, f, x_lo as int, x_hi as int, y_lo as int, y as int);
        let mut x = x_lo;
        while x < x_hi
            invariant
                x_lo <= x <= x_hi,
                y_lo <= y < y_hi,
                pv_buckets(pv) == scan_row(row0, *img, f, y as int, x_lo as int, x as int).0,
                pv.points_count as int == scan_row(
                    row0,
                    *img,
                    f,
                    y as int,
                    x_lo as int,
                    x as int,
                ).1,
                pv.points_count <= (y - y_lo) * (x_hi - x_lo) + (x - x_lo),
            decreases x_hi - x,
        {
            let px = img.read_pixel(x, y);
            let rgb = Rgb { r: px.0, g: px.1, b: px.2, a: px.3 };
            let color = Color::from(rgb);
            proof {
                assert(rgb == rgb_at(*img, x as int, y as int));
            }
            let matched = match filter {
                None => true,
                Some(t) => t.compare(&color),
            };
            if matched {
                proof {
                    assert((y - y_lo) * (x_hi - x_lo) + (x - x_lo) < (y_hi - y_lo) * (x_hi
                        - x_lo)) by (nonlinear_arith)
                        requires
                            x_lo <= x < x_hi,
                            y_lo <= y < y_hi,
                    ;
                }
                pv.push((color, Point { x, y }));
            }
            proof {
                assert(scan_row(row0, *img, f, y as int, x_lo as int, x as int + 1) == scan_cell(
                    scan_row(row0, *img, f, y as int, x_lo as int, x as int),
                    *img,
                    f,
                    x as int,
                    y as int,
                ));
            }
            x = x + 1;
        }
        proof {
            assert(scan_rows(init, *img, f, x_lo as int, x_hi as int, y_lo as int, y as int + 1)
                == scan_row(row0, *img, f, y as int, x_lo as int, x_hi as int));
            assert((y - y_lo) * (x_hi - x_lo) + (x_hi - x_lo) == (y + 1 - y_lo) * (x_hi - x_lo))
                by (nonlinear_arith);
        }
        y = y + 1;
    }
    pv
}

/// The scanning engine: an image buffer plus the pixel index that the
/// detection helpers memoize their results into.
pub struct ImageAnalyzer {
    pub image: RgbaBuffer,
    pub pixels: PixelVec,
}

impl ImageAnalyzer {
    pub fn new(image: RgbaBuffer) -> (a: Self)
        ensures
            a.image == image,
            pv_buckets(a.pixels) == Seq::<(Color, Seq<Point>)>::empty(),
            a.pixels.points_count == 0,
    {
        let pixels = PixelVec::new();
        Self { image, pixels }
    }

    /// Replace the image and discard any detection results.
    pub fn set_image(&mut self, image: RgbaBuffer)
        ensures
            final(self).image == image,
            pv_buckets(final(self).pixels) == Seq::<(Color, Seq<Point>)>::empty(),
            final(self).pixels.points_count == 0,
    {
        self.image = image;
        self.reset_pixels();
    }

    /// Discard any detection results, so that the next detection scans
    /// afresh.
    pub fn reset_pixels(&mut self)
        ensures
            final(self).image == old(self).image,
            pv_buckets(final(self).pixels) == Seq::<(Color, Seq<Point>)>::empty(),
            final(self).pixels.points_count == 0,
    {
        self.pixels = PixelVec::new();
    }

    /// Walk the zone in row-major order (y outer, x inner, both ascending),
    /// handing each pixel's color and coordinate to the handler and obeying
    /// its control signals. Fails, visiting nothing, exactly when the zone
    /// fails validation; on success the returned ghost trace records every
    /// handled pixel and what the handler answered.
    #[verifier::loop_isolation(false)]
    pub fn process_image<H: ScanHandler>(&self, zone: ImageZone, handler: &mut H) -> (r: Result<
        Ghost<Seq<(Point, Color, Option<LoopResult>)>>,
        ZoneError,
    >)
        ensures
            ({
                let w = img_dims(self.image).0;
                let h = img_dims(self.image).1;
                match r {
                    Err(e) => zone_check(zone, w, h) == Err::<(u32, u32, u32, u32), ZoneError>(e),
                    Ok(t) => match zone_check(zone, w, h) {
                        Ok(b) => scan_trace_ok(
                            t@,
                            self.image,
                            b.0 as int,
                            b.1 as int,
                            b.2 as int,
                            b.3 as int,
                        ),
                        Err(_) => false,
                    },
                }
            }),
    {
        let width = self.image.width();
        let height = self.image.height();
        let bounds = match validate_zone(&zone, width, height) {
            Ok(b) => b,
            Err(e) => {
                return Err(e);
            },
        };
        let (x_lo, y_lo, x_hi, y_hi) = bounds;
        assert(x_hi <= img_dims(self.image).0 && y_hi <= img_dims(self.image).1);
        let ghost mut trace: Seq<(Point, Color, Option<LoopResult>)> = Seq::empty();
        let mut stop = false;
        let mut y = y_lo;
        while y < y_hi && !stop
            invariant
                y_lo <= y <= y_hi,
                trace.len() > 0 ==> x_lo < x_hi && y_lo < y_hi,
                trace.len() > 0 ==> trace[0].0 == (Point { x: x_lo, y: y_lo }),
                forall|i: int|
                    0 <= i < trace.len() ==> scan_rec_ok(
                        #[trigger] trace[i],
                        self.image,
                        x_lo as int,
                        y_lo as int,
                        x_hi as int,
                        y_hi as int,
                    ),
                forall|i: int|
                    0 <= i < trace.len() - 1 ==> next_scan_pos(
                        #[trigger] trace[i],
                        x_lo as int,
                        x_hi as int,
                        y_hi as int,
                    ) == Some(scan_pos(trace[i + 1])),
                !stop && trace.len() == 0 ==> (y == y_lo || x_lo >= x_hi),
                !stop && trace.len() > 0 ==> next_scan_pos(
                    trace[trace.len() - 1],
                    x_lo as int,
                    x_hi as int,
                    y_hi as int,
                ) == (if y < y_hi {
                    Some((x_lo as int, y as int))
                } else {
                    None::<(int, int)>
                }),
                stop ==> trace.len() > 0 && next_scan_pos(
                    trace[trace.len() - 1],
                    x_lo as int,
                    x_hi as int,
                    y_hi as int,
                ) is None,
            decreases y_hi - y,
        {
            let mut x = x_lo;
            let mut row_done = false;
            while x < x_hi && !row_done && !stop
                invariant
                    x_lo <= x <= x_hi,
                    y_lo <= y < y_hi,
                    trace.len() > 0 ==> x_lo < x_hi && y_lo < y_hi,
                    trace.len() > 0 ==> trace[0].0 == (Point { x: x_lo, y: y_lo }),
                    forall|i: int|
                        0 <= i < trace.len() ==> scan_rec_ok(
                            #[trigger] trace[i],
                            self.image,
                            x_lo as int,
                            y_lo as int,
                            x_hi as int,
                            y_hi as int,
                        ),
                    forall|i: int|
                        0 <= i < trace.len() - 1 ==> next_scan_pos(
                            #[trigger] trace[i],
                            x_lo as int,
                            x_hi as int,
                            y_hi as int,
                        ) == Some(scan_pos(trace[i + 1])),
                    !stop && !row_done && trace.len() == 0 ==> (x == x_lo && (y == y_lo || x_lo
                        >= x_hi)),
                    !stop && !row_done && trace.len() > 0 ==> next_scan_pos(
                        trace[trace.len() - 1],
                        x_lo as int,
                        x_hi as int,
                        y_hi as int,
                    ) == (if x < x_hi {
                        Some((x as int, y as int))
                    } else if y + 1 < y_hi {
                        Some((x_lo as int, y + 1 as int))
                    } else {
                        None::<(int, int)>
                    }),
                    !stop && row_done ==> trace.len() > 0 && next_scan_pos(
                        trace[trace.len() - 1],
                        x_lo as int,
                        x_hi as int,
                        y_hi as int,
                    ) == (if y + 1 < y_hi {
                        Some((x_lo as int, y + 1 as int))
                    } else {
                        None::<(int, int)>
                    }),
                    stop ==> trace.len() > 0 && next_scan_pos(
                        trace[trace.len() - 1],
                        x_lo as int,
                        x_hi as int,
                        y_hi as int,
                    ) is None,
                decreases x_hi - x,
            {
                let px = self.image.read_pixel(x, y);
                let rgb = Rgb { r: px.0, g: px.1, b: px.2, a: px.3 };
                let color = Color::from(rgb);
                let point = Point { x, y };
                let ghost c = color;
                let sig = handler.on_pixel(color, point);
                proof {
                    let oldt = trace;
                    let rec = (point, c, sig);
                    assert(rgb == rgb_at(self.image, x as int, y as int));
                    assert(scan_rec_ok(
                        rec,
                        self.image,
                        x_lo as int,
                        y_lo as int,
                        x_hi as int,
                        y_hi as int,
                    ));
                    trace = trace.push(rec);
                    assert(trace[trace.len() - 1] == rec);
                    assert forall|i: int| 0 <= i < trace.len() - 1 implies next_scan_pos(
                        #[trigger] trace[i],
                        x_lo as int,
                        x_hi as int,
                        y_hi as int,
                    ) == Some(scan_pos(trace[i + 1])) by {
                        assert(trace[i] == oldt[i]);
                        if i < oldt.len() - 1 {
                            assert(trace[i + 1] == oldt[i + 1]);
                        } else {
                            assert(trace[i + 1] == rec);
                        }
                    }
                    assert forall|i: int| 0 <= i < trace.len() implies scan_rec_ok(
                        #[trigger] trace[i],
                        self.image,
                        x_lo as int,
                        y_lo as int,
                        x_hi as int,
                        y_hi as int,
                    ) by {
                        if i < oldt.len() {
                            assert(trace[i] == oldt[i]);
                        }
                    }
                }
                match sig {
                    None => {},
                    Some(LoopResult::Continue(Axis::Y)) => {
                        row_done = true;
                    },
                    Some(LoopResult::Continue(Axis::X)) => {
                        row_done = true;
                    },
                    Some(LoopResult::Break(Axis::X)) => {
                        row_done = true;
                    },
                    Some(LoopResult::Break(Axis::Y)) => {
                        stop = true;
                    },
                }
                x = x + 1;
            }
            y = y + 1;
        }
        Ok(Ghost(trace))
    }

    /// Compare a scanned pixel against an optional reference color: false
    /// when no color is given, else the reference color's tolerance-bounded
    /// comparison.
    pub fn compare_pixel(new_pixel: &Color, color: Option<&Color>) -> (r: bool)
        ensures
            r == (match color {
                Some(c) => color_compare_spec(*c, *new_pixel),
                None => false,
            }),
    {
        if let Some(color) = color {
            color.compare(new_pixel)
        } else {
            false
        }
    }

    /// Collect every pixel of the zone into the index, memoized: when the
    /// index already holds points it is returned as is and nothing is
    /// scanned, even for a zone that would not validate.
    pub fn detect_pixels(&mut self, zone: ImageZone) -> (r: Result<(), ZoneError>)
        requires
            img_dims(old(self).image).0 * img_dims(old(self).image).1 <= usize::MAX,
        ensures
            final(self).image == old(self).image,
            ({
                let st0 = (pv_buckets(old(self).pixels), old(self).pixels.points_count as int);
                let st1 = detect_step(old(self).image, st0, zone, None);
                &&& pv_buckets(final(self).pixels) == st1.0
                &&& final(self).pixels.points_count as int == st1.1
            }),
            r is Ok <==> (old(self).pixels.points_count > 0 || zone_check(
                zone,
                img_dims(old(self).image).0,
                img_dims(old(self).image).1,
            ) is Ok),
            r matches Err(e) ==> zone_check(
                zone,
                img_dims(old(self).image).0,
                img_dims(old(self).image).1,
            ) == Err::<(u32, u32, u32, u32), ZoneError>(e),
    {
        self.detect_filtered(zone, None)
    }

    /// Collect the pixels of the zone whose color the given reference color
    /// accepts under its own tolerance. Memoized like `detect_pixels`.
    pub fn detect_pixels_color(&mut self, zone: ImageZone, color: Color) -> (r: Result<
        (),
        ZoneError,
    >)
        requires
            img_dims(old(self).image).0 * img_dims(old(self).image).1 <= usize::MAX,
        ensures
            final(self).image == old(self).image,
            ({
                let st0 = (pv_buckets(old(self).pixels), old(self).pixels.points_count as int);
                let st1 = detect_step(old(self).image, st0, zone, Some(color));
                &&& pv_buckets(final(self).pixels) == st1.0
                &&& final(self).pixels.points_count as int == st1.1
            }),
            r is Ok <==> (old(self).pixels.points_count > 0 || zone_check(
                zone,
                img_dims(old(self).image).0,
                img_dims(old(self).image).1,
            ) is Ok),
            r matches Err(e) ==> zone_check(
                zone,
                img_dims(old(self).image).0,
                img_dims(old(self).image).1,
            ) == Err::<(u32, u32, u32, u32), ZoneError>(e),
    {
        self.detect_filtered(zone, Some(&color))
    }

    /// Collect the pixels of the zone that the reference color accepts
    /// under its own tolerance. Memoized like `detect_pixels`.
    pub fn detect_pixel_with_tolerance(&mut self, zone: ImageZone, color: &Color) -> (r: Result<
        (),
        ZoneError,
    >)
        requires
            img_dims(old(self).image).0 * img_dims(old(self).image).1 <= usize::MAX,
        ensures
            final(self).image == old(self).image,
            ({
                let st0 = (pv_buckets(old(self).pixels), old(self).pixels.points_count as int);
                let st1 = detect_step(old(self).image, st0, zone, Some(*color));
                &&& pv_buckets(final(self).pixels) == st1.0
                &&& final(self).pixels.points_count as int == st1.1
            }),
            r is Ok <==> (old(self).pixels.points_count > 0 || zone_check(
                zone,
                img_dims(old(self).image).0,
                img_dims(old(self).image).1,
            ) is Ok),
            r matches Err(e) ==> zone_check(
                zone,
                img_dims(old(self).image).0,
                img_dims(old(self).image).1,
            ) == Err::<(u32, u32, u32, u32), ZoneError>(e),
    {
        self.detect_filtered(zone, Some(color))
    }

    /// The shared detection path: consult the memoized index, validate the
    /// zone, scan on a miss.
    fn detect_filtered(&mut self, zone: ImageZone, filter: Option<&Color>) -> (r: Result<
        (),
        ZoneError,
    >)
        requires
            img_dims(old(self).image).0 * img_dims(old(self).image).1 <= usize::MAX,
        ensures
            final(self).image == old(self).image,
            ({
                let st0 = (pv_buckets(old(self).pixels), old(self).pixels.points_count as int);
                let st1 = detect_step(old(self).image, st0, zone, filter_model(filter));
                &&& pv_buckets(final(self).pixels) == st1.0
                &&& final(self).pixels.points_count as int == st1.1
            }),
            r is Ok <==> (old(self).pixels.points_count > 0 || zone_check(
                zone,
                img_dims(old(self).image).0,
                img_dims(old(self).image).1,
            ) is Ok),
            r matches Err(e) ==> zone_check(
                zone,
                img_dims(old(self).image).0,
                img_dims(old(self).image).1,
            ) == Err::<(u32, u32, u32, u32), ZoneError>(e),
    {
        if self.pixels.points_count > 0 {
            return Ok(());
        }
        let width = self.image.width();
        let height = self.image.height();
        let b = match validate_zone(&zone, width, height) {
            Ok(b) => b,
            Err(e) => {
                return Err(e);
            },
        };
        proof {
            assert((b.2 - b.0) * (b.3 - b.1) <= width * height) by (nonlinear_arith)
                requires
                    0 <= b.2 - b.0 <= width,
                    0 <= b.3 - b.1 <= height,
            ;
        }
        let pv = scan_collect(&self.image, b.0, b.1, b.2, b.3, filter);
        self.pixels = pv;
        Ok(())
    }

    /// Deduplicate a list of zones, keeping the first occurrence of each
    /// structurally equal zone, in order.
    #[verifier::loop_isolation(false)]
    pub fn batch_zones(&self, zones: Vec<ImageZone>) -> (r: Vec<ImageZone>)
        ensures
            r@ == dedup_zones(zones@, zones@.len() as int),
    {
        let mut result: Vec<ImageZone> = Vec::new();
        let n = zones.len();
        let mut k: usize = 0;
        while k < n
            invariant
                n == zones.len(),
                0 <= k <= n,
                result@ == dedup_zones(zones@, k as int),
            decreases n - k,
        {
            let zone = zones[k];
            let ghost prev = result@;
            let m = result.len();
            let mut i: usize = 0;
            let mut exists_already = false;
            while i < m && !exists_already
                invariant
                    m == result.len(),
                    0 <= i <= m,
                    result@ == prev,
                    !exists_already ==> forall|j: int| 0 <= j < i ==> result@[j] != zone,
                    exists_already ==> result@.contains(zone),
                decreases m - i,
            {
                if result[i] == zone {
                    exists_already = true;
                }
                i = i + 1;
            }
            if !exists_already {
                assert(!prev.contains(zone));
                result.push(zone);
            }
            k = k + 1;
        }
        result
    }

    /// Run the memoized full detection over each zone in order: with an
    /// empty index only the first zone that validates is scanned, and any
    /// zone that fails validation is skipped.
    #[verifier::loop_isolation(false)]
    pub fn detect_zones(&mut self, zones: Vec<ImageZone>)
        requires
            img_dims(old(self).image).0 * img_dims(old(self).image).1 <= usize::MAX,
        ensures
            final(self).image == old(self).image,
            ({
                let st0 = (pv_buckets(old(self).pixels), old(self).pixels.points_count as int);
                let st1 = detect_fold(old(self).image, st0, zones@, zones@.len() as int);
                &&& pv_buckets(final(self).pixels) == st1.0
                &&& final(self).pixels.points_count as int == st1.1
            }),
    {
        let ghost st0 = (pv_buckets(old(self).pixels), old(self).pixels.points_count as int);
        let n = zones.len();
        let mut k: usize = 0;
        while k < n
            invariant
                n == zones.len(),
                0 <= k <= n,
                self.image == old(self).image,
                pv_buckets(self.pixels) == detect_fold(self.image, st0, zones@, k as int).0,
                self.pixels.points_count as int == detect_fold(self.image, st0, zones@, k as int).1,
            decreases n - k,
        {
            let zone = zones[k];
            let _ = self.detect_pixels(zone);
            k = k + 1;
        }
    }
}

/// Deduplication of a zone list, folding left over its first `k` entries:
/// an entry already present is dropped, any other is appended.
pub open spec fn dedup_zones(zones: Seq<ImageZone>, k: int) -> Seq<ImageZone>
    decreases k,
{
    if k <= 0 {
        Seq::<ImageZone>::empty()
    } else {
        let prev = dedup_zones(zones, k - 1);
        if prev.contains(zones[k - 1]) {
            prev
        } else {
            prev.push(zones[k - 1])
        }
    }
}

/// The state of the pixel index after detecting over each zone in order.
pub open spec fn detect_fold(
    img: RgbaBuffer,
    st: (Seq<(Color, Seq<Point>)>, int),
    zones: Seq<ImageZone>,
    k: int,
) -> (Seq<(Color, Seq<Point>)>, int)
    decreases k,
{
    if k <= 0 {
        st
    } else {
        detect_step(img, detect_fold(img, st, zones, k - 1), zones[k - 1], None)
    }
}

} // verus!
