use winit_core::geometry::FloatBits64;
use winit_core::monitor::{
    build_monitor_list, get_monitor_for_window, mode_refresh_rate_millihertz,
    prefers_current_resources, primary_monitor_index, AaRect, CrtcInfo, ModeInfo, MonitorCache,
    MonitorHandle, MonitorSource, OutputInfo, ScreenResources, VideoMode, VideoModeHandle,
};

fn mode(dot_clock: u32, htotal: u16, vtotal: u16) -> ModeInfo {
    ModeInfo { id: 1, dot_clock, htotal, vtotal }
}

fn source(crtc: u32, x: i16, y: i16, width: u16, height: u16, output: Option<u32>) -> MonitorSource {
    MonitorSource {
        crtc,
        info: CrtcInfo { x, y, width, height, first_output: output },
        output: Some(OutputInfo {
            name: format!("output-{crtc}"),
            scale_factor: FloatBits64 { bits: (1.0f64).to_bits() },
            video_modes: vec![VideoModeHandle {
                current: true,
                mode: VideoMode {
                    width: width as u32,
                    height: height as u32,
                    bit_depth: Some(24),
                    refresh_rate_millihertz: Some(60000),
                },
                native_mode: 7,
            }],
        }),
    }
}

#[test]
fn refresh_rate_follows_the_pixel_clock() {
    // a 1280x1024 timing: 108 MHz over 1688x1066 total pixels
    assert_eq!(mode_refresh_rate_millihertz(&mode(108_000_000, 1688, 1066)), Some(60019));
    // the VGA timing: 25.175 MHz over 800x525
    assert_eq!(mode_refresh_rate_millihertz(&mode(25_175_000, 800, 525)), Some(59940));
}

#[test]
fn refresh_rate_rejects_degenerate_modes() {
    assert_eq!(mode_refresh_rate_millihertz(&mode(0, 1688, 1066)), None);
    assert_eq!(mode_refresh_rate_millihertz(&mode(108_000_000, 0, 1066)), None);
    assert_eq!(mode_refresh_rate_millihertz(&mode(108_000_000, 1688, 0)), None);
    // a rate that rounds down to nothing is no rate
    assert_eq!(mode_refresh_rate_millihertz(&mode(1, 65535, 65535)), None);
}

#[test]
fn current_resources_need_a_recent_server() {
    assert!(!prefers_current_resources(1, 2));
    assert!(prefers_current_resources(1, 3));
    assert!(prefers_current_resources(1, 6));
    assert!(prefers_current_resources(2, 0));
    assert!(!prefers_current_resources(0, 9));
}

#[test]
fn screen_resources_keep_their_lists() {
    let modes = vec![mode(108_000_000, 1688, 1066)];
    let crtcs = vec![61, 62];
    let resources = ScreenResources::new(modes.clone(), crtcs.clone());
    assert_eq!(resources.modes(), &modes);
    assert_eq!(resources.crtcs(), &crtcs);
}

#[test]
fn overlap_area_measures_the_intersection() {
    let a = AaRect::new((0, 0), (100, 100));
    let b = AaRect::new((50, 50), (100, 100));
    assert_eq!(a.get_overlapping_area(&b), 2500);
    assert_eq!(b.get_overlapping_area(&a), 2500);
    // disjoint rectangles share nothing
    let c = AaRect::new((200, 200), (10, 10));
    assert_eq!(a.get_overlapping_area(&c), 0);
    // touching edges share nothing
    let d = AaRect::new((100, 0), (10, 100));
    assert_eq!(a.get_overlapping_area(&d), 0);
}

#[test]
fn monitor_list_skips_dead_controllers() {
    let sources = vec![
        source(61, 0, 0, 1920, 1080, Some(100)),
        // no extent: skipped
        source(62, 0, 0, 0, 0, Some(101)),
        // no connected output: skipped
        source(63, 1920, 0, 1280, 1024, None),
        source(64, 1920, 0, 1280, 1024, Some(102)),
    ];
    let monitors = build_monitor_list(sources, 102);
    assert_eq!(monitors.len(), 2);
    assert_eq!(monitors[0].id, 61);
    assert!(!monitors[0].primary);
    assert_eq!(monitors[1].id, 64);
    assert!(monitors[1].primary);
    assert_eq!(monitors[1].name, "output-64");
    assert_eq!(monitors[1].position, dpi::PhysicalPosition::new(1920, 0));
}

#[test]
fn first_monitor_stands_in_when_no_primary_is_named() {
    let sources = vec![
        source(61, 0, 0, 1920, 1080, Some(100)),
        source(62, 1920, 0, 1280, 1024, Some(101)),
    ];
    let monitors = build_monitor_list(sources, 999);
    assert_eq!(monitors.len(), 2);
    assert!(monitors[0].primary);
    assert!(!monitors[1].primary);
    assert_eq!(primary_monitor_index(&monitors), Some(0));
}

#[test]
fn window_lands_on_the_monitor_with_the_largest_overlap() {
    let sources = vec![
        source(61, 0, 0, 1920, 1080, Some(100)),
        source(62, 1920, 0, 1280, 1024, Some(100)),
    ];
    let monitors = build_monitor_list(sources, 100);

    // mostly on the second monitor
    let window = AaRect::new((1800, 100), (400, 300));
    assert_eq!(get_monitor_for_window(&monitors, Some(window)), Some(1));

    // mostly on the first
    let window = AaRect::new((100, 100), (400, 300));
    assert_eq!(get_monitor_for_window(&monitors, Some(window)), Some(0));

    // off-screen windows fall back to the first monitor
    let window = AaRect::new((-5000, -5000), (10, 10));
    assert_eq!(get_monitor_for_window(&monitors, Some(window)), Some(0));

    // no rectangle means the first monitor
    assert_eq!(get_monitor_for_window(&monitors, None), Some(0));

    // an empty list has no monitor: the caller falls back to the dummy
    let empty: Vec<MonitorHandle> = Vec::new();
    assert_eq!(get_monitor_for_window(&empty, Some(window)), None);
    let dummy = MonitorHandle::dummy();
    assert!(dummy.is_dummy());
    assert!(dummy.primary);
    assert_eq!(f64::from_bits(dummy.scale_factor.bits), 1.0);
}

#[test]
fn monitor_cache_is_kept_until_invalidated() {
    let mut cache = MonitorCache::new();
    assert!(cache.cached_monitors().is_none());

    let monitors = build_monitor_list(vec![source(61, 0, 0, 1920, 1080, Some(100))], 100);
    cache.store(monitors.clone());
    assert_eq!(cache.cached_monitors(), Some(&monitors));

    // a screen change invalidates; the stale list is handed back
    let stale = cache.invalidate_cached_monitor_list();
    assert_eq!(stale, Some(monitors));
    assert!(cache.cached_monitors().is_none());
    assert!(cache.invalidate_cached_monitor_list().is_none());
}
