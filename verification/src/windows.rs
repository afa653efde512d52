//! Where the main window goes and whether it floats above the others.
//!
//! Positions and sizes are in physical pixels. A width or height is added to a
//! coordinate after a cast from `u32` to `i32`, which wraps; every sum is an
//! `i32` and is required not to overflow.
use vstd::prelude::*;
use crate::config::Config;

verus! {

/// A point on the virtual screen.
#[derive(Debug, Clone, Copy, PartialEq, Eq)]
pub struct Position {
    pub x: i32,
    pub y: i32,
}

/// A width and a height.
#[derive(Debug, Clone, Copy, PartialEq, Eq)]
pub struct Size {
    pub width: u32,
    pub height: u32,
}

/// The area that a monitor covers: its top-left corner and its size.
#[derive(Debug, Clone, Copy, PartialEq, Eq)]
pub struct MonitorRect {
    pub position: Position,
    pub size: Size,
}

/// The value of `v as i32`: `v` itself below 2^31, else `v - 2^32`.
pub open spec fn as_i32(v: u32) -> int {
    if v <= 0x7fff_ffff {
        v as int
    } else {
        v - 0x1_0000_0000
    }
}

/// Whether `v` is a value of `i32`.
pub open spec fn fits_i32(v: int) -> bool {
    i32::MIN <= v <= i32::MAX
}

/// `v as i32`.
fn wrap_to_i32(v: u32) -> (r: i32)
    ensures
        r == as_i32(v),
{
    if v <= 0x7fff_ffff {
        v as i32
    } else {
        let low: u32 = v - 0x8000_0000;
        (low as i32) + i32::MIN
    }
}

/// Along one axis: the start of a window of extent `extent` that should begin
/// at `at`, within a monitor that begins at `start` with extent `span`. When
/// the window would pass the monitor's far edge it is drawn back to end there.
pub open spec fn clamp_axis(at: int, extent: u32, start: int, span: u32) -> int {
    if at + as_i32(extent) > start + as_i32(span) {
        start + as_i32(span) - as_i32(extent)
    } else {
        at
    }
}

/// Whether [`clamp_axis`] can be computed in `i32` without overflow.
pub open spec fn clamp_axis_fits(at: int, extent: u32, start: int, span: u32) -> bool {
    &&& fits_i32(at + as_i32(extent))
    &&& fits_i32(start + as_i32(span))
    &&& at + as_i32(extent) > start + as_i32(span) ==> fits_i32(start + as_i32(span) - as_i32(extent))
}

/// Whether the window can be placed at `mouse` without an overflow.
pub open spec fn placement_fits(mouse: Position, window: Size, monitor: MonitorRect) -> bool {
    &&& clamp_axis_fits(mouse.x as int, window.width, monitor.position.x as int, monitor.size.width)
    &&& clamp_axis_fits(mouse.y as int, window.height, monitor.position.y as int, monitor.size.height)
}

/// Where a window of size `window` that should open at `mouse` is put: at the
/// mouse, drawn back along each axis where it would pass the monitor's right
/// or bottom edge.
pub open spec fn placed_at_mouse(mouse: Position, window: Size, monitor: MonitorRect) -> (int, int) {
    (
        clamp_axis(mouse.x as int, window.width, monitor.position.x as int, monitor.size.width),
        clamp_axis(mouse.y as int, window.height, monitor.position.y as int, monitor.size.height),
    )
}

/// One axis of [`place_window_at_mouse`].
fn clamp_to_monitor(at: i32, extent: u32, start: i32, span: u32) -> (r: i32)
    requires
        clamp_axis_fits(at as int, extent, start as int, span),
    ensures
        r == clamp_axis(at as int, extent, start as int, span),
        at + as_i32(extent) > start + as_i32(span) ==> r + as_i32(extent) == start + as_i32(span),
        at + as_i32(extent) <= start + as_i32(span) ==> r == at,
{
    let e = wrap_to_i32(extent);
    let s = wrap_to_i32(span);
    if at + e > start + s {
        start + s - e
    } else {
        at
    }
}

/// The position at which the main window opens when it follows the mouse.
pub fn place_window_at_mouse(mouse: Position, window: Size, monitor: MonitorRect) -> (r: Position)
    requires
        placement_fits(mouse, window, monitor),
    ensures
        (r.x as int, r.y as int) == placed_at_mouse(mouse, window, monitor),
        mouse.x + as_i32(window.width) > monitor.position.x + as_i32(monitor.size.width) ==> r.x
            + as_i32(window.width) == monitor.position.x + as_i32(monitor.size.width),
        mouse.x + as_i32(window.width) <= monitor.position.x + as_i32(monitor.size.width) ==> r.x
            == mouse.x,
        mouse.y + as_i32(window.height) > monitor.position.y + as_i32(monitor.size.height) ==> r.y
            + as_i32(window.height) == monitor.position.y + as_i32(monitor.size.height),
        mouse.y + as_i32(window.height) <= monitor.position.y + as_i32(monitor.size.height) ==> r.y
            == mouse.y,
{
    let x = clamp_to_monitor(mouse.x, window.width, monitor.position.x, monitor.size.width);
    let y = clamp_to_monitor(mouse.y, window.height, monitor.position.y, monitor.size.height);
    Position { x, y }
}

/// Whether `monitor` covers `p`, edges included.
pub open spec fn covers(monitor: MonitorRect, p: Position) -> bool {
    &&& p.x >= monitor.position.x
    &&& p.x <= monitor.position.x + as_i32(monitor.size.width)
    &&& p.y >= monitor.position.y
    &&& p.y <= monitor.position.y + as_i32(monitor.size.height)
}

/// Whether the test of [`covers`], evaluated left to right and stopping at the
/// first false conjunct, overflows nowhere.
pub open spec fn covers_fits(monitor: MonitorRect, p: Position) -> bool {
    &&& p.x >= monitor.position.x ==> fits_i32(monitor.position.x + as_i32(monitor.size.width))
    &&& (p.x >= monitor.position.x && p.x <= monitor.position.x + as_i32(monitor.size.width)
        && p.y >= monitor.position.y) ==> fits_i32(
        monitor.position.y + as_i32(monitor.size.height),
    )
}

/// Whether the search of [`monitor_at`] overflows nowhere: each monitor that it
/// tests, up to the first that covers `p`, is tested without overflow.
pub open spec fn search_fits(monitors: Seq<MonitorRect>, p: Position) -> bool {
    forall|i: int|
        0 <= i < monitors.len() && (forall|j: int| 0 <= j < i ==> !covers(#[trigger] monitors[j], p))
            ==> covers_fits(#[trigger] monitors[i], p)
}

/// Whether `r` is the index of the first monitor that covers `p`, or `None`
/// when none does.
pub open spec fn is_first_cover(monitors: Seq<MonitorRect>, p: Position, r: Option<usize>) -> bool {
    match r {
        Some(i) => {
            &&& i < monitors.len()
            &&& covers(monitors[i as int], p)
            &&& forall|j: int| 0 <= j < i ==> !covers(#[trigger] monitors[j], p)
        },
        None => forall|j: int| 0 <= j < monitors.len() ==> !covers(#[trigger] monitors[j], p),
    }
}

/// Tests whether `monitor` covers `p`, as [`covers`] says.
fn monitor_covers(monitor: &MonitorRect, p: Position) -> (r: bool)
    requires
        covers_fits(*monitor, p),
    ensures
        r == covers(*monitor, p),
        r == (monitor.position.x <= p.x <= monitor.position.x + as_i32(monitor.size.width)
            && monitor.position.y <= p.y <= monitor.position.y + as_i32(monitor.size.height)),
{
    p.x >= monitor.position.x && p.x <= monitor.position.x + wrap_to_i32(monitor.size.width) && p.y
        >= monitor.position.y && p.y <= monitor.position.y + wrap_to_i32(monitor.size.height)
}

/// The index of the first monitor that covers the point `p` (the mouse), if any.
pub fn monitor_at(monitors: &Vec<MonitorRect>, p: Position) -> (r: Option<usize>)
    requires
        search_fits(monitors@, p),
    ensures
        is_first_cover(monitors@, p, r),
        r matches Some(i) ==> i < monitors@.len() && (monitors@[i as int].position.x <= p.x <= monitors@[i as int].position.x + as_i32(monitors@[i as int].size.width) && monitors@[i as int].position.y <= p.y <= monitors@[i as int].position.y + as_i32(monitors@[i as int].size.height)) && forall|j: int|
            #![trigger monitors@[j]]
            0 <= j < i ==> !(monitors@[j].position.x <= p.x <= monitors@[j].position.x + as_i32(
                monitors@[j].size.width,
            ) && monitors@[j].position.y <= p.y <= monitors@[j].position.y + as_i32(
                monitors@[j].size.height,
            )),
        r is None ==> forall|j: int|
            #![trigger monitors@[j]]
            0 <= j < monitors@.len() ==> !(monitors@[j].position.x <= p.x <= monitors@[j].position.x + as_i32(
                monitors@[j].size.width,
            ) && monitors@[j].position.y <= p.y <= monitors@[j].position.y + as_i32(
                monitors@[j].size.height,
            )),
{
    let mut i: usize = 0;
    while i < monitors.len()
        invariant
            0 <= i <= monitors@.len(),
            search_fits(monitors@, p),
            forall|j: int| 0 <= j < i ==> !covers(#[trigger] monitors@[j], p),
        decreases monitors@.len() - i,
    {
        assert(covers_fits(monitors@[i as int], p));
        if monitor_covers(&monitors[i], p) {
            return Some(i);
        }
        i = i + 1;
    }
    None
}

/// Whether `v` fits in `i32`, computed without overflow.
fn fits(v: i64) -> (r: bool)
    ensures
        r == fits_i32(v as int),
{
    -0x8000_0000 <= v && v <= 0x7fff_ffff
}

/// `v as i32`, widened.
fn wide(v: u32) -> (r: i64)
    ensures
        r == as_i32(v),
{
    wrap_to_i32(v) as i64
}

/// Tests [`clamp_axis_fits`].
fn clamp_fits(at: i32, extent: u32, start: i32, span: u32) -> (r: bool)
    ensures
        r == clamp_axis_fits(at as int, extent, start as int, span),
{
    let end = at as i64 + wide(extent);
    let limit = start as i64 + wide(span);
    fits(end) && fits(limit) && (end <= limit || fits(limit - wide(extent)))
}

/// [`place_window_at_mouse`] where it can be computed in `i32`, and `None`
/// where an `i32` sum of it would overflow.
pub fn checked_place_window_at_mouse(mouse: Position, window: Size, monitor: MonitorRect) -> (r:
    Option<Position>)
    ensures
        r is Some <==> placement_fits(mouse, window, monitor),
        r matches Some(q) ==> (q.x as int, q.y as int) == placed_at_mouse(mouse, window, monitor),
        r matches Some(q) ==> (mouse.x + as_i32(window.width) > monitor.position.x + as_i32(
            monitor.size.width,
        ) ==> q.x + as_i32(window.width) == monitor.position.x + as_i32(monitor.size.width)),
        r matches Some(q) ==> (mouse.x + as_i32(window.width) <= monitor.position.x + as_i32(
            monitor.size.width,
        ) ==> q.x == mouse.x),
        r matches Some(q) ==> (mouse.y + as_i32(window.height) > monitor.position.y + as_i32(
            monitor.size.height,
        ) ==> q.y + as_i32(window.height) == monitor.position.y + as_i32(monitor.size.height)),
        r matches Some(q) ==> (mouse.y + as_i32(window.height) <= monitor.position.y + as_i32(
            monitor.size.height,
        ) ==> q.y == mouse.y),
{
    if clamp_fits(mouse.x, window.width, monitor.position.x, monitor.size.width) && clamp_fits(
        mouse.y,
        window.height,
        monitor.position.y,
        monitor.size.height,
    ) {
        Some(place_window_at_mouse(mouse, window, monitor))
    } else {
        None
    }
}

/// Tests [`covers_fits`].
fn monitor_covers_fits(monitor: &MonitorRect, p: Position) -> (r: bool)
    ensures
        r == covers_fits(*monitor, p),
{
    let right = monitor.position.x as i64 + wide(monitor.size.width);
    let bottom = monitor.position.y as i64 + wide(monitor.size.height);
    (p.x < monitor.position.x || fits(right)) && (!(p.x >= monitor.position.x && p.x as i64
        <= right && p.y >= monitor.position.y) || fits(bottom))
}

/// [`monitor_at`] where its search can be made in `i32`, and `None` where an
/// `i32` sum of it would overflow.
pub fn checked_monitor_at(monitors: &Vec<MonitorRect>, p: Position) -> (r: Option<Option<usize>>)
    ensures
        r is Some <==> search_fits(monitors@, p),
        r matches Some(found) ==> is_first_cover(monitors@, p, found),
        r matches Some(Some(i)) ==> i < monitors@.len() && (monitors@[i as int].position.x <= p.x <= monitors@[i as int].position.x + as_i32(monitors@[i as int].size.width) && monitors@[i as int].position.y <= p.y <= monitors@[i as int].position.y + as_i32(monitors@[i as int].size.height))
            && forall|j: int|
            #![trigger monitors@[j]]
            0 <= j < i ==> !(monitors@[j].position.x <= p.x <= monitors@[j].position.x + as_i32(
                monitors@[j].size.width,
            ) && monitors@[j].position.y <= p.y <= monitors@[j].position.y + as_i32(
                monitors@[j].size.height,
            )),
        r matches Some(None) ==> forall|j: int|
            #![trigger monitors@[j]]
            0 <= j < monitors@.len() ==> !(monitors@[j].position.x <= p.x <= monitors@[j].position.x + as_i32(
                monitors@[j].size.width,
            ) && monitors@[j].position.y <= p.y <= monitors@[j].position.y + as_i32(
                monitors@[j].size.height,
            )),
{
    let mut i: usize = 0;
    while i < monitors.len()
        invariant
            0 <= i <= monitors@.len(),
            forall|j: int|
                0 <= j < i ==> covers_fits(#[trigger] monitors@[j], p) && !covers(monitors@[j], p),
        decreases monitors@.len() - i,
    {
        if !monitor_covers_fits(&monitors[i], p) {
            assert(!search_fits(monitors@, p)) by {
                assert(forall|j: int| 0 <= j < i ==> !covers(#[trigger] monitors@[j], p));
            }
            return None;
        }
        if monitor_covers(&monitors[i], p) {
            assert(search_fits(monitors@, p)) by {
                assert forall|k: int|
                    0 <= k < monitors@.len() && (forall|j: int|
                        0 <= j < k ==> !covers(#[trigger] monitors@[j], p)) implies covers_fits(
                    #[trigger] monitors@[k],
                    p,
                ) by {
                    if k > i {
                        assert(!covers(monitors@[i as int], p));
                    }
                }
            }
            return Some(Some(i));
        }
        i = i + 1;
    }
    Some(None)
}

/// How the main window is placed when it is shown.
#[derive(Debug, Clone, Copy, PartialEq, Eq)]
pub enum Placement {
    /// Next to the mouse, kept on its monitor.
    FollowMouse,
    /// In the middle of its monitor.
    Center,
    /// Where it already is.
    Unchanged,
}

/// The placement asked for: following the mouse wins over centring.
pub fn placement(center: bool, to_mouse_position: bool) -> (r: Placement)
    ensures
        r == if to_mouse_position {
            Placement::FollowMouse
        } else if center {
            Placement::Center
        } else {
            Placement::Unchanged
        },
{
    if to_mouse_position {
        Placement::FollowMouse
    } else if center {
        Placement::Center
    } else {
        Placement::Unchanged
    }
}

/// A reading of the mouse pointer: where it is, or that it could not be read.
#[derive(Debug, Clone, Copy, PartialEq, Eq)]
pub enum MouseReading {
    Position { x: i32, y: i32 },
    Error,
}

/// The message returned when the mouse pointer cannot be read.
pub open spec fn mouse_error_message() -> Seq<char> {
    "Error getting mouse position"@
}

/// The mouse position from a reading of the pointer.
pub fn get_mouse_location(reading: MouseReading) -> (r: Result<(i32, i32), String>)
    ensures
        reading matches MouseReading::Position { x, y } ==> r == Ok::<(i32, i32), String>((x, y)),
        reading is Error ==> (r matches Err(m) && m@ == mouse_error_message()),
        reading is Error ==> (r matches Err(m) && m@ == "Error getting mouse position"@),
{
    match reading {
        MouseReading::Position { x, y } => Ok((x, y)),
        MouseReading::Error => Err("Error getting mouse position".to_owned()),
    }
}

/// How the main window is made when it does not exist yet.
#[derive(Debug, PartialEq, Eq)]
pub struct MainWindowSpec {
    /// The window's label, by which it is found again.
    pub label: String,
    /// The page that the window loads.
    pub url: String,
    pub title: String,
    pub fullscreen: bool,
    /// The size it opens with, in logical pixels.
    pub inner_size: Size,
    /// The smallest size it can be given, in logical pixels.
    pub min_inner_size: Size,
    pub resizable: bool,
    /// Whether it stays out of the task bar / dock.
    pub skip_taskbar: bool,
    /// Whether it is shown as soon as it is made.
    pub visible: bool,
    /// Whether it takes the focus as soon as it is made.
    pub focused: bool,
}

/// The main window for the settings `config`: "Recorder", 620 by 700, at
/// least 540 by 600, resizable, not full screen, made hidden and unfocused,
/// and kept out of the task bar unless the settings say otherwise.
pub fn main_window_spec(config: &Config) -> (r: MainWindowSpec)
    ensures
        r.label@ == "main"@,
        r.url@ == "/index.html"@,
        r.title@ == "Recorder"@,
        !r.fullscreen,
        r.inner_size == (Size { width: 620, height: 700 }),
        r.min_inner_size == (Size { width: 540, height: 600 }),
        r.resizable,
        r.skip_taskbar == match config.hide_the_icon_in_the_dock {
            Some(b) => b,
            None => true,
        },
        !r.visible,
        !r.focused,
{
    MainWindowSpec {
        label: "main".to_owned(),
        url: "/index.html".to_owned(),
        title: "Recorder".to_owned(),
        fullscreen: false,
        inner_size: Size { width: 620, height: 700 },
        min_inner_size: Size { width: 540, height: 600 },
        resizable: true,
        skip_taskbar: config.skip_taskbar(),
        visible: false,
        focused: false,
    }
}

/// Whether the main window is pinned above the others.
pub struct PinState {
    always_on_top: bool,
}

impl PinState {
    /// Whether the window is pinned.
    pub closed spec fn pinned(&self) -> bool {
        self.always_on_top
    }

    /// The state at start-up: not pinned.
    pub fn new() -> (r: PinState)
        ensures
            !r.pinned(),
    {
        PinState { always_on_top: false }
    }

    /// Records that the front end pinned or unpinned the window.
    pub fn set_pinned(&mut self, pinned: bool)
        ensures
            final(self).pinned() == pinned,
    {
        self.always_on_top = pinned;
    }
}

/// Whether the main window is pinned.
pub fn get_window_always_on_top(state: &PinState) -> (r: bool)
    ensures
        r == state.pinned(),
{
    state.always_on_top
}

/// The pinned state after the tray's pin item is chosen, and what the caller
/// returns. With a main window the pin flips and the new value is returned
/// (the caller sets the window's always-on-top flag to it); without one
/// nothing changes and `false` is returned.
pub open spec fn toggled(pinned: bool, has_main_window: bool) -> (bool, bool) {
    if has_main_window {
        (!pinned, !pinned)
    } else {
        (pinned, false)
    }
}

/// Flips the pin of the main window, if there is one, and returns the new
/// value; returns `false` when there is no main window.
pub fn set_window_always_on_top(state: &mut PinState, has_main_window: bool) -> (r: bool)
    ensures
        (final(state).pinned(), r) == toggled(old(state).pinned(), has_main_window),
        has_main_window ==> final(state).pinned() == !old(state).pinned() && r == final(state).pinned(),
        !has_main_window ==> final(state).pinned() == old(state).pinned() && !r,
{
    if has_main_window {
        let always_on_top = state.always_on_top;
        if !always_on_top {
            state.always_on_top = true;
        } else {
            state.always_on_top = false;
        }
        state.always_on_top
    } else {
        false
    }
}

/// A window placed at the mouse never passes its monitor's right or bottom
/// edge, never lies right of or below the mouse, and stays where it is when
/// placed again from where it was put.
pub proof fn law_placement_stays_inside(at: int, extent: u32, start: int, span: u32)
    ensures
        clamp_axis(at, extent, start, span) + as_i32(extent) <= start + as_i32(span),
        clamp_axis(at, extent, start, span) <= at,
        clamp_axis(clamp_axis(at, extent, start, span), extent, start, span) == clamp_axis(
            at,
            extent,
            start,
            span,
        ),
        at + as_i32(extent) <= start + as_i32(span) ==> clamp_axis(at, extent, start, span) == at,
{
}

/// The monitor under the mouse is well defined: there is one first covering
/// monitor, and there is none only when no monitor covers the mouse.
pub proof fn law_monitor_at_is_determined(
    monitors: Seq<MonitorRect>,
    p: Position,
    r1: Option<usize>,
    r2: Option<usize>,
)
    requires
        is_first_cover(monitors, p, r1),
        is_first_cover(monitors, p, r2),
    ensures
        r1 == r2,
        r1 is None <==> forall|j: int| 0 <= j < monitors.len() ==> !covers(#[trigger] monitors[j], p),
{
    match (r1, r2) {
        (Some(i1), Some(i2)) => {
            if i1 < i2 {
                assert(covers(monitors[i1 as int], p));
            } else if i2 < i1 {
                assert(covers(monitors[i2 as int], p));
            }
        },
        (Some(i1), None) => {
            assert(covers(monitors[i1 as int], p));
        },
        (None, Some(i2)) => {
            assert(covers(monitors[i2 as int], p));
        },
        (None, None) => {},
    }
    if r1 is Some {
        assert(covers(monitors[r1->0 as int], p));
    }
}

/// With a main window, choosing the pin entry twice leaves the pin as it was,
/// and each choice returns the pin that it left. Without one, the pin stays
/// and `false` is returned.
pub proof fn law_toggle_pin(pinned: bool)
    ensures
        toggled(toggled(pinned, true).0, true).0 == pinned,
        toggled(pinned, true).1 == toggled(pinned, true).0,
        toggled(pinned, true).0 != pinned,
        toggled(pinned, false) == (pinned, false),
{
}

/// The placed window is measured against its own monitor on each axis: when
/// it would pass the monitor's right (bottom) edge, it is drawn back to end
/// exactly at that edge, the monitor's origin plus its width (height);
/// otherwise it starts at the mouse.
pub proof fn law_placed_window_meets_monitor_edges(mouse: Position, window: Size, monitor: MonitorRect)
    ensures
        ({
            let (x, y) = placed_at_mouse(mouse, window, monitor);
            let w = as_i32(window.width);
            let h = as_i32(window.height);
            let right = monitor.position.x + as_i32(monitor.size.width);
            let bottom = monitor.position.y + as_i32(monitor.size.height);
            &&& mouse.x + w > right ==> x + w == right
            &&& mouse.x + w <= right ==> x == mouse.x
            &&& mouse.y + h > bottom ==> y + h == bottom
            &&& mouse.y + h <= bottom ==> y == mouse.y
        }),
{
}

/// Along one axis: a window that would pass the far edge `start + span` ends
/// exactly there; one that would not stays at `at`.
pub proof fn law_clamp_ends_at_far_edge(at: int, extent: u32, start: int, span: u32)
    ensures
        at + as_i32(extent) > start + as_i32(span) ==> clamp_axis(at, extent, start, span)
            + as_i32(extent) == start + as_i32(span),
        at + as_i32(extent) <= start + as_i32(span) ==> clamp_axis(at, extent, start, span) == at,
{
}

/// The monitor found under a point holds the point inside its whole
/// rectangle, `x <= p.x <= x + width` and `y <= p.y <= y + height`, and no
/// earlier monitor does; when none is found, no monitor holds the point.
pub proof fn law_found_monitor_holds_point(monitors: Seq<MonitorRect>, p: Position, r: Option<usize>)
    requires
        is_first_cover(monitors, p, r),
    ensures
        r matches Some(i) ==> ({
            let m = monitors[i as int];
            &&& i < monitors.len()
            &&& m.position.x <= p.x <= m.position.x + as_i32(m.size.width)
            &&& m.position.y <= p.y <= m.position.y + as_i32(m.size.height)
        }),
        r matches Some(i) ==> forall|j: int|
            #![trigger monitors[j]]
            0 <= j < i ==> !(monitors[j].position.x <= p.x <= monitors[j].position.x + as_i32(
                monitors[j].size.width,
            ) && monitors[j].position.y <= p.y <= monitors[j].position.y + as_i32(
                monitors[j].size.height,
            )),
        r is None ==> forall|j: int|
            #![trigger monitors[j]]
            0 <= j < monitors.len() ==> !(monitors[j].position.x <= p.x <= monitors[j].position.x
                + as_i32(monitors[j].size.width) && monitors[j].position.y <= p.y
                <= monitors[j].position.y + as_i32(monitors[j].size.height)),
{
    if r is Some {
        let i = r->0;
        assert forall|j: int| #![trigger monitors[j]] 0 <= j < i implies !(monitors[j].position.x
            <= p.x <= monitors[j].position.x + as_i32(monitors[j].size.width)
            && monitors[j].position.y <= p.y <= monitors[j].position.y + as_i32(
            monitors[j].size.height,
        )) by {
            assert(!covers(monitors[j], p));
        }
    } else {
        assert forall|j: int| #![trigger monitors[j]] 0 <= j < monitors.len() implies !(
        monitors[j].position.x <= p.x <= monitors[j].position.x + as_i32(monitors[j].size.width)
            && monitors[j].position.y <= p.y <= monitors[j].position.y + as_i32(
            monitors[j].size.height,
        )) by {
            assert(!covers(monitors[j], p));
        }
    }
}

/// A point below a monitor's bottom edge, right of its right edge, or above
/// or left of its corner is never taken to be on that monitor.
pub proof fn law_point_outside_is_not_covered(
    monitors: Seq<MonitorRect>,
    p: Position,
    r: Option<usize>,
    j: int,
)
    requires
        is_first_cover(monitors, p, r),
        0 <= j < monitors.len(),
        p.y > monitors[j].position.y + as_i32(monitors[j].size.height) || p.x > monitors[j].position.x
            + as_i32(monitors[j].size.width) || p.x < monitors[j].position.x || p.y
            < monitors[j].position.y,
    ensures
        r matches Some(i) ==> i != j,
{
}

/// `as_i32` is the value of Rust's `as i32` cast of a `u32`.
pub proof fn law_as_i32_is_the_cast(v: u32)
    ensures
        as_i32(v) == (v as i32) as int,
{
    assert(v <= 0x7fff_ffff ==> v as i32 == v) by (bit_vector);
    assert(v > 0x7fff_ffff ==> (v as i32) as i64 == (v as i64) - 0x1_0000_0000i64) by (bit_vector);
}

/// Placement needs no more than that its sums fit in `i32`: when every sum
/// that it may compute is an `i32`, it can be computed.
pub proof fn law_placement_needs_only_fitting_sums(mouse: Position, window: Size, monitor: MonitorRect)
    requires
        i32::MIN <= mouse.x + as_i32(window.width) <= i32::MAX,
        i32::MIN <= mouse.y + as_i32(window.height) <= i32::MAX,
        i32::MIN <= monitor.position.x + as_i32(monitor.size.width) <= i32::MAX,
        i32::MIN <= monitor.position.y + as_i32(monitor.size.height) <= i32::MAX,
        i32::MIN <= monitor.position.x + as_i32(monitor.size.width) - as_i32(window.width)
            <= i32::MAX,
        i32::MIN <= monitor.position.y + as_i32(monitor.size.height) - as_i32(window.height)
            <= i32::MAX,
    ensures
        placement_fits(mouse, window, monitor),
{
}

/// The search under the mouse needs no more than that each monitor's far
/// corner is an `i32` point.
pub proof fn law_search_needs_only_fitting_corners(monitors: Seq<MonitorRect>, p: Position)
    requires
        forall|i: int|
            #![trigger monitors[i]]
            0 <= i < monitors.len() ==> i32::MIN <= monitors[i].position.x + as_i32(
                monitors[i].size.width,
            ) <= i32::MAX && i32::MIN <= monitors[i].position.y + as_i32(monitors[i].size.height)
                <= i32::MAX,
    ensures
        search_fits(monitors, p),
{
}

/// Without a main window the pin stays and `false` is returned; with one the
/// pin flips and the new pin is returned.
pub proof fn law_toggle_flips_exactly_with_a_window(pinned: bool, has_main_window: bool)
    ensures
        has_main_window ==> toggled(pinned, has_main_window) == (!pinned, !pinned),
        !has_main_window ==> toggled(pinned, has_main_window) == (pinned, false),
{
}

} // verus!
