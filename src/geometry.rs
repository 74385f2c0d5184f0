use vstd::prelude::*;

verus! {

/// An integer screen coordinate.
#[derive(Clone, Copy, Debug, PartialEq, Eq, Structural)]
pub struct Point {
    pub x: i32,
    pub y: i32,
}

/// An axis-aligned rectangle: top-left corner plus non-negative extent.
#[derive(Clone, Copy, Debug, PartialEq, Eq, Structural)]
pub struct Rect {
    pub x: i32,
    pub y: i32,
    pub width: u32,
    pub height: u32,
}

pub open spec fn min_int(a: int, b: int) -> int {
    if a <= b { a } else { b }
}

pub open spec fn abs_diff(a: int, b: int) -> int {
    if a <= b { b - a } else { a - b }
}

/// The rectangle spanned by two opposite corners.
pub open spec fn corner_rect(p1: Point, p2: Point) -> Rect {
    Rect {
        x: min_int(p1.x as int, p2.x as int) as i32,
        y: min_int(p1.y as int, p2.y as int) as i32,
        width: abs_diff(p1.x as int, p2.x as int) as u32,
        height: abs_diff(p1.y as int, p2.y as int) as u32,
    }
}

impl Point {
    pub fn new(x: i32, y: i32) -> (r: Point)
        ensures
            r.x == x,
            r.y == y,
    {
        Point { x, y }
    }
}

fn span(a: i32, b: i32) -> (r: (i32, u32))
    ensures
        r.0 as int == min_int(a as int, b as int),
        r.1 as int == abs_diff(a as int, b as int),
{
    if a <= b {
        (a, (b as i64 - a as i64) as u32)
    } else {
        (b, (a as i64 - b as i64) as u32)
    }
}

/// Normalizes two corners into a rectangle: the smaller coordinates give the
/// top-left corner and the absolute differences give the extent.
pub fn get_capture_rect(corner1: &Point, corner2: &Point) -> (r: Rect)
    ensures
        r == corner_rect(*corner1, *corner2),
        r.x as int == min_int(corner1.x as int, corner2.x as int),
        r.y as int == min_int(corner1.y as int, corner2.y as int),
        r.width as int == abs_diff(corner1.x as int, corner2.x as int),
        r.height as int == abs_diff(corner1.y as int, corner2.y as int),
{
    let (x, width) = span(corner1.x, corner2.x);
    let (y, height) = span(corner1.y, corner2.y);
    Rect { x, y, width, height }
}

/// The screen's size and the rectangle selected on it, fixed once the
/// selection completes.
#[derive(Clone, Copy, Debug)]
pub struct CaptureContext {
    pub screen_dimensions: (u32, u32),
    pub capture_area: Rect,
}

impl CaptureContext {
    pub fn new(screen_dimensions: (u32, u32), capture_area: Rect) -> (r: CaptureContext)
        ensures
            r.screen_dimensions == screen_dimensions,
            r.capture_area == capture_area,
    {
        CaptureContext { screen_dimensions, capture_area }
    }
}

/// Swapping the two corners gives the same rectangle, whose extent is the
/// absolute difference of the coordinates and whose corner is their minimum.
pub proof fn lemma_corner_rect_symmetric(p1: Point, p2: Point)
    ensures
        corner_rect(p1, p2) == corner_rect(p2, p1),
        corner_rect(p1, p2).width as int == abs_diff(p1.x as int, p2.x as int),
        corner_rect(p1, p2).height as int == abs_diff(p1.y as int, p2.y as int),
        corner_rect(p1, p2).x as int == min_int(p1.x as int, p2.x as int),
        corner_rect(p1, p2).y as int == min_int(p1.y as int, p2.y as int),
{
}

/// Equal corners give a rectangle of zero width and zero height at that point.
pub proof fn lemma_equal_corners_empty_rect(p: Point)
    ensures
        corner_rect(p, p) == (Rect { x: p.x, y: p.y, width: 0, height: 0 }),
{
}

} // verus!
