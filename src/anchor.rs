//! Where the overlay goes: the point it is anchored to, computed from the
//! trigger's bounds, and the box it finally occupies once it is kept inside
//! the window.
use vstd::prelude::*;
use crate::geometry::{AnchorCorner, Bounds, Point, Size, COORD_LIMIT};

verus! {

/// Distance the overlay keeps from every edge of the window.
pub const WINDOW_MARGIN: i64 = 8;

/// Paint priority of the overlay among deferred elements.
pub const OVERLAY_PRIORITY: usize = 1;

/// A point that may result from placing a corner of valid bounds and adding a
/// valid offset to it.
pub open spec fn reachable(p: Point) -> bool {
    -3 * COORD_LIMIT <= p.x <= 3 * COORD_LIMIT && -3 * COORD_LIMIT <= p.y <= 3 * COORD_LIMIT
}

/// The corner of the trigger used when none is configured: the corner
/// diagonally opposite the anchor corner, so the overlay sits beside the
/// trigger rather than over it.
pub open spec fn default_attach_spec(anchor: AnchorCorner) -> AnchorCorner {
    match anchor {
        AnchorCorner::TopLeft => AnchorCorner::BottomRight,
        AnchorCorner::TopRight => AnchorCorner::BottomLeft,
        AnchorCorner::BottomLeft => AnchorCorner::TopRight,
        AnchorCorner::BottomRight => AnchorCorner::TopLeft,
    }
}

pub fn default_attach(anchor: AnchorCorner) -> (r: AnchorCorner)
    ensures
        r == default_attach_spec(anchor),
{
    match anchor {
        AnchorCorner::TopLeft => AnchorCorner::BottomRight,
        AnchorCorner::TopRight => AnchorCorner::BottomLeft,
        AnchorCorner::BottomLeft => AnchorCorner::TopRight,
        AnchorCorner::BottomRight => AnchorCorner::TopLeft,
    }
}

/// The offset used when none is configured: `padding` pixels outward from
/// the anchor corner's side, nothing vertically.
pub open spec fn default_offset_spec(anchor: AnchorCorner, padding: i64) -> Point {
    Point { x: if anchor.is_left() { (-padding) as i64 } else { padding }, y: 0 }
}

pub fn default_offset(anchor: AnchorCorner, padding: i64) -> (r: Point)
    requires
        0 <= padding <= COORD_LIMIT,
    ensures
        r == default_offset_spec(anchor, padding),
        r.wf(),
{
    match anchor {
        AnchorCorner::TopLeft | AnchorCorner::BottomLeft => Point { x: -padding, y: 0 },
        AnchorCorner::TopRight | AnchorCorner::BottomRight => Point { x: padding, y: 0 },
    }
}

/// The attachment point: the `attach` corner of the trigger's last bounds,
/// moved by `offset`; nothing while the trigger has not been measured.
pub open spec fn anchor_position_spec(attach: AnchorCorner, offset: Point, trigger: Option<Bounds>) -> Option<Point> {
    match trigger {
        Some(b) => Some(
            Point {
                x: (attach.corner_spec(b).x + offset.x) as i64,
                y: (attach.corner_spec(b).y + offset.y) as i64,
            },
        ),
        None => None,
    }
}

pub fn resolve_anchor_position(attach: AnchorCorner, offset: Point, trigger: Option<Bounds>) -> (r: Option<Point>)
    requires
        offset.wf(),
        trigger matches Some(b) ==> b.wf(),
    ensures
        r == anchor_position_spec(attach, offset, trigger),
        r matches Some(p) ==> reachable(p),
{
    match trigger {
        Some(b) => {
            let c = attach.corner(&b);
            Some(Point { x: c.x + offset.x, y: c.y + offset.y })
        },
        None => None,
    }
}

/// Origin of a box of `size` whose `anchor` corner lies at `position`.
pub open spec fn anchored_origin_spec(anchor: AnchorCorner, position: Point, size: Size) -> Point {
    Point {
        x: if anchor.is_left() { position.x } else { (position.x - size.width) as i64 },
        y: if anchor.is_top() { position.y } else { (position.y - size.height) as i64 },
    }
}

pub fn anchored_origin(anchor: AnchorCorner, position: Point, size: Size) -> (r: Point)
    requires
        reachable(position),
        size.wf(),
    ensures
        r == anchored_origin_spec(anchor, position, size),
{
    let x = if matches!(anchor, AnchorCorner::TopLeft | AnchorCorner::BottomLeft) {
        position.x
    } else {
        position.x - size.width
    };
    let y = if matches!(anchor, AnchorCorner::TopLeft | AnchorCorner::TopRight) {
        position.y
    } else {
        position.y - size.height
    };
    Point { x, y }
}

/// The window with `margin` taken off every edge; an extent that would turn
/// negative becomes zero.
pub open spec fn shrink_spec(viewport: Bounds, margin: i64) -> Bounds {
    Bounds {
        origin: Point { x: (viewport.origin.x + margin) as i64, y: (viewport.origin.y + margin) as i64 },
        size: Size {
            width: if viewport.size.width >= 2 * margin { (viewport.size.width - 2 * margin) as i64 } else { 0 },
            height: if viewport.size.height >= 2 * margin { (viewport.size.height - 2 * margin) as i64 } else { 0 },
        },
    }
}

pub fn shrink(viewport: &Bounds, margin: i64) -> (r: Bounds)
    requires
        viewport.wf(),
        0 <= margin <= COORD_LIMIT,
    ensures
        r == shrink_spec(*viewport, margin),
{
    let width = if viewport.size.width >= 2 * margin { viewport.size.width - 2 * margin } else { 0 };
    let height = if viewport.size.height >= 2 * margin { viewport.size.height - 2 * margin } else { 0 };
    Bounds {
        origin: Point { x: viewport.origin.x + margin, y: viewport.origin.y + margin },
        size: Size { width, height },
    }
}

/// One axis of keeping a span inside limits: a span running past the far
/// limit moves back by the excess; one that then starts before the near limit
/// starts at it.
pub open spec fn snap_axis(start: int, extent: int, lo: int, hi: int) -> int {
    let moved = if start + extent > hi { hi - extent } else { start };
    if moved < lo { lo } else { moved }
}

/// `b` moved so that it stays inside `limits` where it fits, and starts at
/// their top-left where it does not.
pub open spec fn snap_spec(b: Bounds, limits: Bounds) -> Bounds {
    Bounds {
        origin: Point {
            x: snap_axis(b.origin.x as int, b.size.width as int, limits.left(), limits.right()) as i64,
            y: snap_axis(b.origin.y as int, b.size.height as int, limits.top(), limits.bottom()) as i64,
        },
        size: b.size,
    }
}

/// A box origin that a placed overlay may have.
pub open spec fn placeable(p: Point) -> bool {
    -5 * COORD_LIMIT <= p.x <= 5 * COORD_LIMIT && -5 * COORD_LIMIT <= p.y <= 5 * COORD_LIMIT
}

pub fn snap_to_window(b: &Bounds, limits: &Bounds) -> (r: Bounds)
    requires
        placeable(b.origin),
        b.size.wf(),
        placeable(limits.origin),
        limits.size.wf(),
    ensures
        r == snap_spec(*b, *limits),
        placeable(r.origin),
{
    let mut x = b.origin.x;
    if x + b.size.width > limits.origin.x + limits.size.width {
        x = limits.origin.x + limits.size.width - b.size.width;
    }
    if x < limits.origin.x {
        x = limits.origin.x;
    }
    let mut y = b.origin.y;
    if y + b.size.height > limits.origin.y + limits.size.height {
        y = limits.origin.y + limits.size.height - b.size.height;
    }
    if y < limits.origin.y {
        y = limits.origin.y;
    }
    Bounds { origin: Point { x, y }, size: b.size }
}

/// The box the overlay occupies: its `anchor` corner at `position`, or at
/// `fallback` (where the host was laid out) while no position is known, then
/// kept `margin` pixels inside the window.
pub open spec fn overlay_bounds_spec(
    anchor: AnchorCorner,
    position: Option<Point>,
    fallback: Point,
    size: Size,
    viewport: Bounds,
    margin: i64,
) -> Bounds {
    let at = match position {
        Some(p) => p,
        None => fallback,
    };
    snap_spec(
        Bounds { origin: anchored_origin_spec(anchor, at, size), size },
        shrink_spec(viewport, margin),
    )
}

pub fn overlay_bounds(
    anchor: AnchorCorner,
    position: Option<Point>,
    fallback: Point,
    size: Size,
    viewport: &Bounds,
    margin: i64,
) -> (r: Bounds)
    requires
        position matches Some(p) ==> reachable(p),
        fallback.wf(),
        size.wf(),
        viewport.wf(),
        0 <= margin <= COORD_LIMIT,
    ensures
        r == overlay_bounds_spec(anchor, position, fallback, size, *viewport, margin),
{
    let at = match position {
        Some(p) => p,
        None => fallback,
    };
    let origin = anchored_origin(anchor, at, size);
    let limits = shrink(viewport, margin);
    snap_to_window(&Bounds { origin, size }, &limits)
}

/// An overlay that fits inside the window once the margin is taken off ends
/// up wholly inside it, and one that ran past the right or bottom edge by
/// some excess is moved back by exactly that excess.
pub proof fn lemma_snap_keeps_inside(b: Bounds, limits: Bounds)
    requires
        b.size.wf(),
        limits.size.wf(),
        b.size.width <= limits.size.width,
        b.size.height <= limits.size.height,
    ensures
        limits.encloses(snap_spec(b, limits)),
        b.right() > limits.right() ==> snap_spec(b, limits).origin.x == b.origin.x - (b.right() - limits.right()),
        b.bottom() > limits.bottom() ==> snap_spec(b, limits).origin.y == b.origin.y - (b.bottom() - limits.bottom()),
        b.left() < limits.left() ==> snap_spec(b, limits).origin.x == b.origin.x + (limits.left() - b.left()),
        b.top() < limits.top() ==> snap_spec(b, limits).origin.y == b.origin.y + (limits.top() - b.top()),
        limits.encloses(b) ==> snap_spec(b, limits) == b,
{
}

} // verus!
