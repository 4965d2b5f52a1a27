//! Monitor enumeration: building the ordered monitor list from the display
//! server's raw answers, picking the monitor under a window, and caching
//! the list until a screen change invalidates it.
//!
//! The display-server round trips themselves (querying screen resources,
//! output information and the primary output) happen in the backend; their
//! plain results enter here.

use vstd::prelude::*;

use crate::geometry::FloatBits64;

verus! {

/// The bit pattern of a scale factor of one, the dummy monitor's value.
pub const SCALE_ONE_BITS: u64 = 0x3FF0000000000000;

/// The fields of a display mode that the refresh-rate computation reads.
#[derive(Debug, Clone, Copy, PartialEq, Eq, Hash, Structural)]
pub struct ModeInfo {
    /// The mode's identifier.
    pub id: u32,
    /// Pixel clock, in hertz.
    pub dot_clock: u32,
    /// Total horizontal pixels per line, blanking included.
    pub htotal: u16,
    /// Total lines per frame, blanking included.
    pub vtotal: u16,
}

/// The refresh rate of a mode in millihertz: the pixel clock over the
/// pixels per frame, none when a field is zero or the rate truncates to
/// zero in a machine word.
pub open spec fn spec_refresh_rate_millihertz(mode: ModeInfo) -> Option<u32> {
    if mode.dot_clock > 0 && mode.htotal > 0 && mode.vtotal > 0 {
        let rate = (mode.dot_clock as int * 1000) / (mode.htotal as int * mode.vtotal as int);
        let low = rate % 0x100000000;
        if low != 0 {
            Some(low as u32)
        } else {
            None
        }
    } else {
        None
    }
}

/// The refresh rate of a mode in millihertz; see
/// [`spec_refresh_rate_millihertz`].
pub fn mode_refresh_rate_millihertz(mode: &ModeInfo) -> (r: Option<u32>)
    ensures
        r == spec_refresh_rate_millihertz(*mode),
{
    if mode.dot_clock > 0 && mode.htotal > 0 && mode.vtotal > 0 {
        proof {
            assert(0 < (mode.htotal as int) * (mode.vtotal as int) <= 0xFFFFFFFF)
                by (nonlinear_arith)
                requires
                    0 < mode.htotal <= 0xFFFF,
                    0 < mode.vtotal <= 0xFFFF,
            ;
        }
        let total: u64 = (mode.htotal as u64) * (mode.vtotal as u64);
        let rate: u64 = (mode.dot_clock as u64) * 1000 / total;
        let low: u32 = (rate % 0x100000000) as u32;
        if low != 0 {
            Some(low)
        } else {
            None
        }
    } else {
        None
    }
}

/// Whether a display server of the given protocol version answers the
/// current-resources query, which avoids a round trip to the hardware.
pub fn prefers_current_resources(major_version: u32, minor_version: u32) -> (r: bool)
    ensures
        r == (major_version > 1 || (major_version == 1 && minor_version >= 3)),
{
    (major_version == 1 && minor_version >= 3) || major_version > 1
}

/// The display server's screen resources: the modes and display
/// controllers attached to a screen, as plain values.
#[derive(Debug, Clone, PartialEq, Eq)]
pub struct ScreenResources {
    modes: Vec<ModeInfo>,
    crtcs: Vec<u32>,
}

impl ScreenResources {
    /// The attached modes.
    pub closed spec fn spec_modes(&self) -> Seq<ModeInfo> {
        self.modes@
    }

    /// The attached display controllers.
    pub closed spec fn spec_crtcs(&self) -> Seq<u32> {
        self.crtcs@
    }

    /// Assemble the resources from a server reply's lists.
    pub fn new(modes: Vec<ModeInfo>, crtcs: Vec<u32>) -> (r: Self)
        ensures
            r.spec_modes() == modes@,
            r.spec_crtcs() == crtcs@,
    {
        Self { modes, crtcs }
    }

    /// The attached modes.
    pub fn modes(&self) -> (r: &Vec<ModeInfo>)
        ensures
            r@ == self.spec_modes(),
    {
        &self.modes
    }

    /// The attached display controllers.
    pub fn crtcs(&self) -> (r: &Vec<u32>)
        ensures
            r@ == self.spec_crtcs(),
    {
        &self.crtcs
    }
}

/// An axis-aligned rectangle in screen coordinates, kept as its two
/// corners.
#[derive(Debug, Clone, Copy, PartialEq, Eq, Hash, Structural)]
pub struct AaRect {
    pub x1: i64,
    pub y1: i64,
    pub x2: i64,
    pub y2: i64,
}

impl AaRect {
    /// A rectangle built from a position and dimensions: corners ordered,
    /// sides at most a full coordinate range.
    pub open spec fn wf(&self) -> bool {
        &&& self.x1 <= self.x2 <= self.x1 + u32::MAX
        &&& self.y1 <= self.y2 <= self.y1 + u32::MAX
        &&& i32::MIN <= self.x1 <= i32::MAX
        &&& i32::MIN <= self.y1 <= i32::MAX
    }

    /// The rectangle with the given top-left position and dimensions.
    pub fn new(position: (i32, i32), dimensions: (u32, u32)) -> (r: Self)
        ensures
            r.x1 == position.0 && r.y1 == position.1,
            r.x2 == position.0 + dimensions.0,
            r.y2 == position.1 + dimensions.1,
            r.wf(),
    {
        let (x, y) = position;
        let (width, height) = dimensions;
        AaRect {
            x1: x as i64,
            y1: y as i64,
            x2: x as i64 + width as i64,
            y2: y as i64 + height as i64,
        }
    }

    /// The area shared by the two rectangles, zero when they do not meet.
    pub fn get_overlapping_area(&self, other: &AaRect) -> (r: u64)
        requires
            self.wf(),
            other.wf(),
        ensures
            r == overlap_area(*self, *other),
    {
        let x_hi: i64 = if self.x2 < other.x2 {
            self.x2
        } else {
            other.x2
        };
        let x_lo: i64 = if self.x1 > other.x1 {
            self.x1
        } else {
            other.x1
        };
        let y_hi: i64 = if self.y2 < other.y2 {
            self.y2
        } else {
            other.y2
        };
        let y_lo: i64 = if self.y1 > other.y1 {
            self.y1
        } else {
            other.y1
        };
        if x_hi > x_lo && y_hi > y_lo {
            let x_overlap: u64 = (x_hi - x_lo) as u64;
            let y_overlap: u64 = (y_hi - y_lo) as u64;
            proof {
                assert(x_overlap <= u32::MAX && y_overlap <= u32::MAX);
                assert(x_overlap * y_overlap <= 0xFFFFFFFF * 0xFFFFFFFFu64) by (nonlinear_arith)
                    requires
                        x_overlap <= 0xFFFFFFFFu64,
                        y_overlap <= 0xFFFFFFFFu64,
                ;
            }
            x_overlap * y_overlap
        } else {
            0
        }
    }
}

/// The area shared by two well-formed rectangles.
pub open spec fn overlap_area(a: AaRect, b: AaRect) -> int {
    let x_overlap = vstd::math::min(a.x2 as int, b.x2 as int) - vstd::math::max(
        a.x1 as int,
        b.x1 as int,
    );
    let y_overlap = vstd::math::min(a.y2 as int, b.y2 as int) - vstd::math::max(
        a.y1 as int,
        b.y1 as int,
    );
    if x_overlap > 0 && y_overlap > 0 {
        x_overlap * y_overlap
    } else {
        0
    }
}

/// One video mode a monitor offers.
#[derive(Debug, Clone, Copy, PartialEq, Eq, Hash, Structural)]
pub struct VideoMode {
    /// Horizontal resolution, in pixels.
    pub width: u32,
    /// Vertical resolution, in pixels.
    pub height: u32,
    /// Colour depth, in bits, when the server reports one.
    pub bit_depth: Option<u16>,
    /// Refresh rate in millihertz, when it could be computed.
    pub refresh_rate_millihertz: Option<u32>,
}

/// A video mode together with its standing on one monitor.
#[derive(Debug, Clone, Copy, PartialEq, Eq, Hash, Structural)]
pub struct VideoModeHandle {
    /// Whether this mode is the monitor's current one.
    pub current: bool,
    /// The mode itself.
    pub mode: VideoMode,
    /// The server's identifier for the mode.
    pub native_mode: u32,
}

/// A monitor known to the backend.
#[derive(Debug, Clone, PartialEq)]
pub struct MonitorHandle {
    /// The display controller's identifier; zero marks the dummy.
    pub id: u32,
    /// The monitor's name.
    pub name: String,
    /// The monitor's position in the screen.
    pub position: dpi::PhysicalPosition<i32>,
    /// Whether this is the primary monitor.
    pub primary: bool,
    /// The monitor's scale factor, as raw bits.
    pub scale_factor: FloatBits64,
    /// The monitor's extent, used to find the monitor under a window.
    pub rect: AaRect,
    /// The video modes the monitor supports.
    pub video_modes: Vec<VideoModeHandle>,
}

/// What a display controller reports about itself.
#[derive(Debug, Clone, Copy, PartialEq, Eq, Hash, Structural)]
pub struct CrtcInfo {
    pub x: i16,
    pub y: i16,
    pub width: u16,
    pub height: u16,
    /// The first connected output, when there is one; the controller is
    /// skipped otherwise.
    pub first_output: Option<u32>,
}

/// What the output query adds for a live controller.
#[derive(Debug, Clone, PartialEq)]
pub struct OutputInfo {
    /// The monitor's name.
    pub name: String,
    /// The monitor's scale factor, as raw bits.
    pub scale_factor: FloatBits64,
    /// The video modes the monitor supports.
    pub video_modes: Vec<VideoModeHandle>,
}

/// One candidate entry for the monitor list: a controller, and the output
/// information when the query for it succeeded.
#[derive(Debug, Clone, PartialEq)]
pub struct MonitorSource {
    /// The controller's identifier.
    pub crtc: u32,
    /// What the controller reports.
    pub info: CrtcInfo,
    /// What the output query reported, if it succeeded.
    pub output: Option<OutputInfo>,
}

/// Whether a candidate makes a monitor: it must have an extent, a
/// connected output, and an answered output query.
pub open spec fn monitor_included(source: MonitorSource) -> bool {
    &&& source.info.width != 0
    &&& source.info.height != 0
    &&& source.info.first_output is Some
    &&& source.output is Some
}

/// The monitor a candidate makes, primary when its first output is the
/// server's primary output.
pub open spec fn monitor_of(source: MonitorSource, primary_output: u32) -> MonitorHandle {
    let output = source.output->Some_0;
    MonitorHandle {
        id: source.crtc,
        name: output.name,
        position: dpi::PhysicalPosition { x: source.info.x as i32, y: source.info.y as i32 },
        primary: source.info.first_output == Some(primary_output),
        scale_factor: output.scale_factor,
        rect: AaRect {
            x1: source.info.x as i64,
            y1: source.info.y as i64,
            x2: (source.info.x + source.info.width) as i64,
            y2: (source.info.y + source.info.height) as i64,
        },
        video_modes: output.video_modes,
    }
}

/// The monitor list before the primary fallback: the monitors of the
/// included candidates, in candidate order.
pub open spec fn raw_monitor_list(sources: Seq<MonitorSource>, primary_output: u32) -> Seq<
    MonitorHandle,
> {
    sources.filter(|s: MonitorSource| monitor_included(s)).map_values(
        |s: MonitorSource| monitor_of(s, primary_output),
    )
}

/// Whether some monitor in the list is primary.
pub open spec fn has_primary(monitors: Seq<MonitorHandle>) -> bool {
    exists|i: int| 0 <= i < monitors.len() && monitors[i].primary
}

/// The final monitor list: when the server named no primary among them,
/// the first monitor is taken to be primary.
pub open spec fn adjusted_monitor_list(monitors: Seq<MonitorHandle>) -> Seq<MonitorHandle> {
    if monitors.len() > 0 && !has_primary(monitors) {
        monitors.update(0, MonitorHandle { primary: true, ..monitors[0] })
    } else {
        monitors
    }
}

/// Build the monitor list from the per-controller answers: controllers
/// without an extent, without a connected output or whose output query
/// failed are skipped; the rest become monitors in controller order; and
/// when the server named no primary among them, the first monitor stands
/// in as primary.
pub fn build_monitor_list(sources: Vec<MonitorSource>, primary_output: u32) -> (r: Vec<
    MonitorHandle,
>)
    ensures
        r@ == adjusted_monitor_list(raw_monitor_list(sources@, primary_output)),
{
    let ghost orig = sources@;
    let mut remaining = sources;
    let mut monitors: Vec<MonitorHandle> = Vec::new();
    let mut saw_primary: bool = false;
    while remaining.len() > 0
        invariant
            remaining@.len() <= orig.len(),
            remaining@ == orig.subrange(
                orig.len() - remaining@.len(),
                orig.len() as int,
            ),
            monitors@ == raw_monitor_list(
                orig.subrange(0, orig.len() - remaining@.len()),
                primary_output,
            ),
            saw_primary == has_primary(monitors@),
        decreases remaining@.len(),
    {
        let ghost idx = orig.len() - remaining@.len();
        let ghost prefix = orig.subrange(0, idx);
        let ghost step = orig.subrange(0, idx + 1);
        let source = remaining.remove(0);
        let ghost elem = source;
        proof {
            assert(elem == orig[idx]);
            assert(remaining@ =~= orig.subrange(idx + 1, orig.len() as int));
        }
        let included = source.info.width != 0 && source.info.height != 0
            && source.info.first_output.is_some() && source.output.is_some();
        let ghost before = monitors@;
        let ghost was_primary = saw_primary;
        if included {
            let MonitorSource { crtc, info, output } = source;
            let is_primary = match info.first_output {
                Some(first) => first == primary_output,
                None => false,
            };
            let monitor = match output {
                Some(out) => MonitorHandle {
                    id: crtc,
                    name: out.name,
                    position: dpi::PhysicalPosition { x: info.x as i32, y: info.y as i32 },
                    primary: is_primary,
                    scale_factor: out.scale_factor,
                    rect: AaRect {
                        x1: info.x as i64,
                        y1: info.y as i64,
                        x2: info.x as i64 + info.width as i64,
                        y2: info.y as i64 + info.height as i64,
                    },
                    video_modes: out.video_modes,
                },
                None => MonitorHandle::dummy(),
            };
            proof {
                assert(monitor == monitor_of(elem, primary_output));
            }
            if is_primary {
                saw_primary = true;
            }
            monitors.push(monitor);
            proof {
                let pred = |s: MonitorSource| monitor_included(s);
                assert(step =~= prefix + seq![orig[idx]]);
                Seq::<MonitorSource>::filter_distributes_over_add(prefix, seq![orig[idx]], pred);
                reveal_with_fuel(Seq::filter, 3);
                assert(seq![orig[idx]].filter(pred) =~= seq![orig[idx]]);
                assert(monitors@ =~= raw_monitor_list(step, primary_output));
                let n = monitors@.len();
                if is_primary {
                    assert(monitors@[n - 1].primary);
                    assert(has_primary(monitors@));
                } else if was_primary {
                    let k = choose|k: int| 0 <= k < before.len() && before[k].primary;
                    assert(monitors@[k].primary);
                    assert(has_primary(monitors@));
                } else {
                    assert forall|j: int| 0 <= j < n implies !(#[trigger] monitors@[j]).primary by {
                        if j < before.len() {
                            assert(before[j] == monitors@[j]);
                            if monitors@[j].primary {
                                assert(has_primary(before));
                            }
                        }
                    }
                    assert(!has_primary(monitors@));
                }
            }
        } else {
            proof {
                let pred = |s: MonitorSource| monitor_included(s);
                assert(step =~= prefix + seq![orig[idx]]);
                Seq::<MonitorSource>::filter_distributes_over_add(prefix, seq![orig[idx]], pred);
                reveal_with_fuel(Seq::filter, 3);
                assert(seq![orig[idx]].filter(pred) =~= Seq::<MonitorSource>::empty());
                assert(step.filter(pred) =~= prefix.filter(pred));
                assert(monitors@ =~= raw_monitor_list(step, primary_output));
            }
        }
    }
    proof {
        assert(orig.subrange(0, orig.len() as int) =~= orig);
    }
    if monitors.len() > 0 && !saw_primary {
        let mut first = monitors.remove(0);
        first.primary = true;
        monitors.insert(0, first);
        proof {
            assert(monitors@ =~= adjusted_monitor_list(raw_monitor_list(orig, primary_output)));
        }
    }
    monitors
}

/// An owned copy of a mode list.
fn copy_modes(modes: &Vec<VideoModeHandle>) -> (r: Vec<VideoModeHandle>)
    ensures
        r@ == modes@,
{
    let mut out: Vec<VideoModeHandle> = Vec::new();
    let mut idx: usize = 0;
    while idx < modes.len()
        invariant
            idx <= modes@.len(),
            out@ == modes@.subrange(0, idx as int),
        decreases modes@.len() - idx,
    {
        out.push(modes[idx]);
        proof {
            assert(out@ =~= modes@.subrange(0, idx as int + 1));
        }
        idx = idx + 1;
    }
    proof {
        assert(modes@.subrange(0, modes@.len() as int) =~= modes@);
    }
    out
}

impl MonitorHandle {
    /// A stand-in monitor for a headless screen, so that a caller always
    /// has one to work with. The zero identifier marks it; no real
    /// monitor carries it.
    pub fn dummy() -> (r: Self)
        ensures
            r.id == 0,
            r.primary,
            r.position == (dpi::PhysicalPosition { x: 0i32, y: 0i32 }),
            r.scale_factor == (FloatBits64 { bits: SCALE_ONE_BITS }),
            r.video_modes@.len() == 0,
    {
        MonitorHandle {
            id: 0,
            name: String::new(),
            position: dpi::PhysicalPosition { x: 0, y: 0 },
            primary: true,
            scale_factor: FloatBits64 { bits: SCALE_ONE_BITS },
            rect: AaRect { x1: 0, y1: 0, x2: 1, y2: 1 },
            video_modes: Vec::new(),
        }
    }

    /// Whether this is the stand-in monitor; zero is an invalid native
    /// identifier, so no real monitor matches.
    pub fn is_dummy(&self) -> (r: bool)
        ensures
            r == (self.id == 0),
    {
        self.id == 0
    }
}

/// The index of the best monitor for a window: the first monitor whose
/// overlap with the window is positive and not exceeded by any other,
/// and the first monitor when none overlaps; none only when the list is
/// empty. Without a window rectangle, the first monitor.
pub fn get_monitor_for_window(monitors: &Vec<MonitorHandle>, window_rect: Option<AaRect>) -> (r:
    Option<usize>)
    requires
        forall|i: int| 0 <= i < monitors@.len() ==> (#[trigger] monitors@[i].rect).wf(),
        window_rect matches Some(rect) ==> rect.wf(),
    ensures
        monitors@.len() == 0 <==> r is None,
        r matches Some(best) ==> 0 <= best < monitors@.len(),
        ({
            match (r, window_rect) {
                (Some(best), Some(rect)) => {
                    &&& (forall|j: int|
                        0 <= j < monitors@.len() ==> overlap_area(rect, #[trigger] monitors@[j].rect)
                            <= overlap_area(rect, monitors@[best as int].rect) || overlap_area(
                            rect,
                            monitors@[best as int].rect,
                        ) == 0)
                    &&& (overlap_area(rect, monitors@[best as int].rect) == 0 ==> best == 0)
                    &&& (overlap_area(rect, monitors@[best as int].rect) > 0 ==> forall|j: int|
                        0 <= j < best ==> overlap_area(rect, #[trigger] monitors@[j].rect)
                            < overlap_area(rect, monitors@[best as int].rect))
                },
                (Some(best), None) => best == 0,
                _ => true,
            }
        }),
{
    if monitors.len() == 0 {
        return None;
    }
    let rect = match window_rect {
        Some(rect) => rect,
        None => {
            return Some(0);
        },
    };
    let mut largest_overlap: u64 = 0;
    let mut best: usize = 0;
    let mut idx: usize = 0;
    while idx < monitors.len()
        invariant
            idx <= monitors@.len(),
            monitors@.len() > 0,
            0 <= best < monitors@.len(),
            rect.wf(),
            forall|i: int| 0 <= i < monitors@.len() ==> (#[trigger] monitors@[i].rect).wf(),
            largest_overlap == if idx == 0 {
                0int
            } else {
                overlap_area(rect, monitors@[best as int].rect)
            } || largest_overlap == 0,
            largest_overlap == 0 ==> best == 0,
            largest_overlap > 0 ==> largest_overlap == overlap_area(
                rect,
                monitors@[best as int].rect,
            ),
            forall|j: int|
                0 <= j < idx ==> overlap_area(rect, #[trigger] monitors@[j].rect)
                    <= largest_overlap || largest_overlap == 0,
            forall|j: int|
                0 <= j < idx ==> overlap_area(rect, #[trigger] monitors@[j].rect) == 0
                    || largest_overlap > 0,
            largest_overlap > 0 ==> forall|j: int|
                0 <= j < best ==> overlap_area(rect, #[trigger] monitors@[j].rect)
                    < largest_overlap,
        decreases monitors@.len() - idx,
    {
        let overlapping_area = rect.get_overlapping_area(&monitors[idx].rect);
        if overlapping_area > largest_overlap {
            largest_overlap = overlapping_area;
            best = idx;
        }
        idx = idx + 1;
    }
    Some(best)
}

/// The index of the first primary monitor, none where no monitor is
/// primary.
pub fn primary_monitor_index(monitors: &Vec<MonitorHandle>) -> (r: Option<usize>)
    ensures
        match r {
            Some(i) => 0 <= i < monitors@.len() && monitors@[i as int].primary && (forall|j: int|
                0 <= j < i ==> !(#[trigger] monitors@[j].primary)),
            None => forall|j: int| 0 <= j < monitors@.len() ==> !(#[trigger] monitors@[j].primary),
        },
{
    let mut idx: usize = 0;
    while idx < monitors.len()
        invariant
            idx <= monitors@.len(),
            forall|j: int| 0 <= j < idx ==> !(#[trigger] monitors@[j].primary),
        decreases monitors@.len() - idx,
    {
        if monitors[idx].primary {
            return Some(idx);
        }
        idx = idx + 1;
    }
    None
}

/// The cached monitor list, refreshed on demand and kept until a screen
/// change invalidates it.
pub struct MonitorCache {
    cached: Option<Vec<MonitorHandle>>,
}

impl MonitorCache {
    /// The cached list, if one stands.
    pub closed spec fn spec_cached(&self) -> Option<Seq<MonitorHandle>> {
        match self.cached {
            Some(ref monitors) => Some(monitors@),
            None => None,
        }
    }

    /// An empty cache: the next query must ask the server.
    pub fn new() -> (r: Self)
        ensures
            r.spec_cached() is None,
    {
        Self { cached: None }
    }

    /// Drop the cached list, handing it back; the next query must ask the
    /// server anew.
    pub fn invalidate_cached_monitor_list(&mut self) -> (r: Option<Vec<MonitorHandle>>)
        ensures
            final(self).spec_cached() is None,
            match r {
                Some(monitors) => old(self).spec_cached() == Some(monitors@),
                None => old(self).spec_cached() is None,
            },
    {
        self.cached.take()
    }

    /// The cached list, when one stands.
    pub fn cached_monitors(&self) -> (r: Option<&Vec<MonitorHandle>>)
        ensures
            match r {
                Some(monitors) => self.spec_cached() == Some(monitors@),
                None => self.spec_cached() is None,
            },
    {
        match &self.cached {
            Some(monitors) => Some(monitors),
            None => None,
        }
    }

    /// Remember a freshly queried list.
    pub fn store(&mut self, monitors: Vec<MonitorHandle>)
        ensures
            final(self).spec_cached() == Some(monitors@),
    {
        self.cached = Some(monitors);
    }
}

} // verus!
