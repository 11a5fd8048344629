use std::cell::Cell;
use std::rc::Rc;

use servo_embedder::{
    BootstrapError, BrowserEvent, BrowserId, Compositor, Constellation, Cursor, DrawableGeometry,
    EventLoopWaker, EventQueue, GLMethods, HidpiFactor, Key, KeyModifiers, NavigationReplyToken,
};

struct TestGL {
    current_ok: bool,
    make_current_calls: Rc<Cell<u32>>,
    swaps: Rc<Cell<u32>>,
}

impl GLMethods for TestGL {
    fn make_current(&self) -> Result<(), ()> {
        self.make_current_calls.set(self.make_current_calls.get() + 1);
        if self.current_ok {
            Ok(())
        } else {
            Err(())
        }
    }

    fn swap_buffers(&self) {
        self.swaps.set(self.swaps.get() + 1);
    }
}

#[derive(Clone)]
struct TestWaker {
    wakes: Rc<Cell<u32>>,
}

impl EventLoopWaker for TestWaker {
    fn wake(&self) {
        self.wakes.set(self.wakes.get() + 1);
    }
}

fn geometry(
    view: (u32, u32),
    margins: (u32, u32, u32, u32),
    position: (i32, i32),
    thousandths: u32,
) -> DrawableGeometry {
    DrawableGeometry {
        view_size: view,
        margins,
        position,
        hidpi_factor: HidpiFactor { thousandths },
    }
}

fn compositor(g: DrawableGeometry) -> (Compositor<TestGL, TestWaker>, Rc<Cell<u32>>, Rc<Cell<u32>>, Rc<Cell<u32>>) {
    let make_current_calls = Rc::new(Cell::new(0));
    let swaps = Rc::new(Cell::new(0));
    let wakes = Rc::new(Cell::new(0));
    let gl = TestGL {
        current_ok: true,
        make_current_calls: make_current_calls.clone(),
        swaps: swaps.clone(),
    };
    let waker = TestWaker { wakes: wakes.clone() };
    let constellation = Constellation::new(true).unwrap();
    assert!(g.check_valid());
    let c = constellation.new_compositor(gl, waker, g);
    (c, make_current_calls, swaps, wakes)
}

fn id(n: u32) -> BrowserId {
    BrowserId { namespace_id: 0, index: n }
}

#[test]
fn geometry_scenario_hidpi_two() {
    let g = geometry((800, 600), (20, 0, 0, 0), (0, 0), 2000);
    assert!(g.check_valid());
    assert_eq!(g.framebuffer_size(), (1600, 1200));
    let r = g.window_rect();
    assert_eq!(r.origin, (0, 40));
    assert_eq!(r.size, (1600, 1160));
}

#[test]
fn framebuffer_uses_fractional_factor_margins_use_truncated() {
    // At 1.5 the framebuffer is scaled fractionally while margins are
    // scaled by the factor truncated to 1.
    let g = geometry((800, 600), (20, 10, 6, 4), (0, 0), 1500);
    assert!(g.check_valid());
    assert_eq!(g.framebuffer_size(), (1200, 900));
    let r = g.window_rect();
    assert_eq!(r.origin, (4, 20));
    assert_eq!(r.size, (1200 - 4 - 10, 900 - 20 - 6));
}

#[test]
fn sub_unit_factor_scales_margins_to_zero() {
    // Truncating 0.5 leaves a zero margin scale; the framebuffer is halved.
    let g = geometry((801, 600), (20, 10, 6, 4), (0, 0), 500);
    assert!(g.check_valid());
    assert_eq!(g.framebuffer_size(), (400, 300));
    let r = g.window_rect();
    assert_eq!(r.origin, (0, 0));
    assert_eq!(r.size, (400, 300));
}

#[test]
fn window_rect_within_framebuffer_cases() {
    let cases = [
        geometry((800, 600), (20, 0, 0, 0), (0, 0), 2000),
        geometry((100, 50), (5, 10, 0, 3), (7, -3), 1500),
        geometry((1920, 1080), (40, 40, 40, 40), (-10, 20), 1000),
        geometry((640, 480), (0, 0, 0, 0), (0, 0), 3250),
    ];
    for g in cases {
        assert!(g.check_valid());
        let (fw, fh) = g.framebuffer_size();
        let r = g.window_rect();
        assert!(r.origin.0 + r.size.0 <= fw);
        assert!(r.origin.1 + r.size.1 <= fh);
    }
}

#[test]
fn invalid_geometry_is_rejected() {
    // A zero scale factor is never accepted.
    assert!(!geometry((800, 600), (0, 0, 0, 0), (0, 0), 0).check_valid());
    // Margins exceeding the scaled view are a caller bug.
    assert!(!geometry((100, 100), (0, 300, 0, 300), (0, 0), 2000).check_valid());
    // A framebuffer dimension past 32 bits is refused.
    assert!(!geometry((u32::MAX, 1), (0, 0, 0, 0), (0, 0), 2000).check_valid());
}

#[test]
fn events_drained_in_arrival_order() {
    let g = geometry((800, 600), (0, 0, 0, 0), (0, 0), 1000);
    let (mut c, _, _, _) = compositor(g);

    c.callbacks.set_page_title(id(1), Some(String::from("hello")));
    c.callbacks.handle_key(Some(id(1)), Some('a'), Key { code: 65 }, KeyModifiers { bits: 0 });
    c.callbacks.load_start(id(2));
    c.callbacks.set_cursor(Cursor { code: 3 });
    c.callbacks.load_end(id(2));

    let events = c.get_events();
    assert_eq!(events.len(), 5);
    assert!(matches!(&events[0], BrowserEvent::TitleChanged(b, Some(t)) if *b == id(1) && t == "hello"));
    assert!(matches!(&events[1], BrowserEvent::Key(Some(b), Some('a'), k, m) if *b == id(1) && k.code == 65 && m.bits == 0));
    assert!(matches!(&events[2], BrowserEvent::LoadStart(b) if *b == id(2)));
    assert!(matches!(&events[3], BrowserEvent::CursorChanged(cur) if cur.code == 3));
    assert!(matches!(&events[4], BrowserEvent::LoadEnd(b) if *b == id(2)));

    // A second drain with no new activity is empty.
    assert!(c.get_events().is_empty());
}

#[test]
fn every_notification_variant_is_queued() {
    let g = geometry((800, 600), (0, 0, 0, 0), (0, 0), 1000);
    let (mut c, _, _, _) = compositor(g);

    c.callbacks.set_inner_size(id(1), 640, 480);
    c.callbacks.set_position(id(1), -5, 12);
    c.callbacks.set_fullscreen_state(id(1), true);
    c.callbacks.status(id(1), None);
    c.callbacks.load_error(id(1), String::from("https://example.com/missing"));
    c.callbacks.head_parsed(id(1));
    c.callbacks.history_changed(id(1), Vec::new(), 0);
    c.callbacks.set_favicon(id(1), String::from("https://example.com/favicon.ico"));

    let events = c.get_events();
    assert_eq!(events.len(), 8);
    assert!(matches!(&events[0], BrowserEvent::SetWindowInnerSize(b, 640, 480) if *b == id(1)));
    assert!(matches!(&events[1], BrowserEvent::SetWindowPosition(b, -5, 12) if *b == id(1)));
    assert!(matches!(&events[2], BrowserEvent::SetFullScreenState(b, true) if *b == id(1)));
    assert!(matches!(&events[3], BrowserEvent::StatusChanged(b, None) if *b == id(1)));
    assert!(matches!(&events[4], BrowserEvent::LoadError(b, u) if *b == id(1) && u == "https://example.com/missing"));
    assert!(matches!(&events[5], BrowserEvent::HeadParsed(b) if *b == id(1)));
    assert!(matches!(&events[6], BrowserEvent::HistoryChanged(b, entries, 0) if *b == id(1) && entries.is_empty()));
    assert!(matches!(&events[7], BrowserEvent::FaviconChanged(b, u) if *b == id(1) && u == "https://example.com/favicon.ico"));
}

#[test]
fn empty_drain_is_idempotent() {
    let g = geometry((800, 600), (0, 0, 0, 0), (0, 0), 1000);
    let (mut c, _, _, _) = compositor(g);
    assert!(c.get_events().is_empty());
    assert!(c.get_events().is_empty());
    assert!(c.get_events().is_empty());
}

#[test]
fn no_synchronous_notification_delivery_is_assumed() {
    // Immediately after the compositor is created, before the engine has
    // had any chance to run, the queue may legitimately be empty.
    let g = geometry((800, 600), (0, 0, 0, 0), (0, 0), 1000);
    let (mut c, _, _, _) = compositor(g);
    let events = c.get_events();
    assert!(events.is_empty());
}

#[test]
fn redundant_wakes_neither_duplicate_nor_drop_events() {
    let g = geometry((800, 600), (0, 0, 0, 0), (0, 0), 1000);
    let (mut c, _, _, wakes) = compositor(g);

    c.callbacks.load_start(id(1));
    c.callbacks.load_end(id(1));

    // The engine may wake the host more often than work arrives.
    let waker = c.callbacks.create_event_loop_waker();
    waker.wake();
    waker.wake();
    assert_eq!(wakes.get(), 2);

    let events = c.get_events();
    assert_eq!(events.len(), 2);
    assert!(matches!(&events[0], BrowserEvent::LoadStart(b) if *b == id(1)));
    assert!(matches!(&events[1], BrowserEvent::LoadEnd(b) if *b == id(1)));
    assert!(c.get_events().is_empty());
}

#[test]
fn unanswered_navigation_request_changes_nothing() {
    let g = geometry((800, 600), (0, 0, 0, 0), (0, 0), 1000);
    let (mut c, _, _, _) = compositor(g);

    let token = NavigationReplyToken { token: 7 };
    c.callbacks.allow_navigation(id(1), String::from("https://example.com/next"), token);

    let events = c.get_events();
    assert_eq!(events.len(), 1);
    assert!(matches!(&events[0], BrowserEvent::AllowNavigation(b, u, t)
        if *b == id(1) && u == "https://example.com/next" && t.token == 7));

    // The host never answers: no further events appear and the adapter
    // keeps answering queries as before.
    assert!(c.get_events().is_empty());
    assert_eq!(c.callbacks.framebuffer_size(), (800, 600));
    assert_eq!(c.callbacks.client_window(id(1)), ((800, 600), (0, 0)));
}

#[test]
fn client_window_tracks_latest_geometry() {
    let g1 = geometry((800, 600), (0, 0, 0, 0), (10, 20), 1000);
    let (mut c, _, _, _) = compositor(g1);
    assert_eq!(c.callbacks.client_window(id(1)), ((800, 600), (10, 20)));
    // Any number of queries may precede the update.
    assert_eq!(c.callbacks.client_window(id(1)), ((800, 600), (10, 20)));
    assert_eq!(c.callbacks.size(), (800, 600));

    let g2 = geometry((1024, 768), (0, 0, 0, 0), (-4, 9), 2000);
    assert!(g2.check_valid());
    let view = c.new_view(g2);
    view.show(Some(id(1)));

    assert_eq!(c.callbacks.client_window(id(1)), ((1024, 768), (-4, 9)));
    assert_eq!(c.callbacks.framebuffer_size(), (2048, 1536));
    assert_eq!(c.callbacks.hidpi_factor(), HidpiFactor { thousandths: 2000 });
}

#[test]
fn new_view_leaves_queued_events_alone() {
    let g1 = geometry((800, 600), (0, 0, 0, 0), (0, 0), 1000);
    let (mut c, _, _, _) = compositor(g1);
    c.callbacks.load_start(id(1));

    let g2 = geometry((640, 480), (0, 0, 0, 0), (0, 0), 1000);
    assert!(g2.check_valid());
    c.new_view(g2);

    let events = c.get_events();
    assert_eq!(events.len(), 1);
    assert!(matches!(&events[0], BrowserEvent::LoadStart(b) if *b == id(1)));
}

#[test]
fn constellation_bootstrap_requires_resources_directory() {
    assert!(Constellation::new(true).is_ok());
    assert_eq!(Constellation::new(false).unwrap_err(), BootstrapError::MissingResourceDirectory);
}

#[test]
fn compositing_hooks_reach_the_gl_capability() {
    let g = geometry((800, 600), (0, 0, 0, 0), (0, 0), 1000);
    let (c, make_current_calls, swaps, _) = compositor(g);

    assert!(c.callbacks.prepare_for_composite(800, 600));
    assert_eq!(make_current_calls.get(), 1);

    c.callbacks.present();
    assert_eq!(swaps.get(), 1);

    assert!(!c.callbacks.supports_clipboard());
}

#[test]
fn failed_make_current_reports_false() {
    let gl = TestGL {
        current_ok: false,
        make_current_calls: Rc::new(Cell::new(0)),
        swaps: Rc::new(Cell::new(0)),
    };
    let waker = TestWaker { wakes: Rc::new(Cell::new(0)) };
    let constellation = Constellation::new(true).unwrap();
    let g = geometry((800, 600), (0, 0, 0, 0), (0, 0), 1000);
    assert!(g.check_valid());
    let c = constellation.new_compositor(gl, waker, g);
    assert!(!c.callbacks.prepare_for_composite(800, 600));
}

#[test]
fn event_queue_push_then_drain_preserves_order() {
    let mut q = EventQueue::new();
    q.push(BrowserEvent::LoadStart(id(9)));
    q.push(BrowserEvent::HeadParsed(id(9)));
    q.push(BrowserEvent::LoadEnd(id(9)));
    let drained = q.drain();
    assert_eq!(drained.len(), 3);
    assert!(matches!(&drained[0], BrowserEvent::LoadStart(b) if *b == id(9)));
    assert!(matches!(&drained[1], BrowserEvent::HeadParsed(b) if *b == id(9)));
    assert!(matches!(&drained[2], BrowserEvent::LoadEnd(b) if *b == id(9)));
    assert!(q.drain().is_empty());
}
