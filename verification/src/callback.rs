use vstd::prelude::*;
use crate::BrowserId;
use crate::events::{BrowserEvent, Cursor, HistoryEntry, Key, KeyModifiers, NavigationReplyToken};
use crate::geometry::{DrawableGeometry, HidpiFactor, WindowRect};
use crate::queue::EventQueue;

verus! {

/// The GL capability a host hands in: the adapter asks it to make the GL
/// context current before a paint pass and to swap buffers on present.
/// Hosts implement it; nothing is promised of what an implementation does.
pub trait GLMethods {
    /// Makes the host's GL context current; an `Err` means the engine must
    /// skip this paint pass and retry on the next tick.
    fn make_current(&self) -> Result<(), ()>;

    /// Swaps the host's front and back buffers.
    fn swap_buffers(&self);
}

/// The cross-thread wake-up capability: the engine clones it and calls
/// `wake` from its own threads whenever host-visible work is ready. A wake
/// carries no payload, so calling it more often than work arrives is
/// harmless; it must never block.
pub trait EventLoopWaker {
    /// Signals the host that new host-visible work is pending.
    fn wake(&self);
}

/// Implements every capability the engine requires of its host: geometry
/// queries answered from the current geometry snapshot, compositing hooks
/// forwarded to the GL capability, and every notification normalized into a
/// `BrowserEvent` and appended to the outbound queue.
pub struct WindowCallback<G: GLMethods, W: EventLoopWaker + Clone> {
    gl_methods: G,
    waker: W,
    event_queue: EventQueue,
    geometry: DrawableGeometry,
}

impl<G: GLMethods, W: EventLoopWaker + Clone> WindowCallback<G, W> {
    /// The outbound events queued so far, in arrival order.
    pub closed spec fn events(&self) -> Seq<BrowserEvent> {
        self.event_queue@
    }

    /// The geometry the host last published.
    pub closed spec fn geom(&self) -> DrawableGeometry {
        self.geometry
    }

    /// A callback state the adapter accepts: its geometry is valid.
    pub open spec fn wf(&self) -> bool {
        self.geom().is_valid()
    }

    /// A fresh adapter with the given capabilities, the given geometry and
    /// an empty event queue.
    pub fn new(gl_methods: G, waker: W, geometry: DrawableGeometry) -> (r: WindowCallback<G, W>)
        requires
            geometry.is_valid(),
        ensures
            r.events() == Seq::<BrowserEvent>::empty(),
            r.geom() == geometry,
            r.wf(),
    {
        WindowCallback {
            gl_methods,
            waker,
            event_queue: EventQueue::new(),
            geometry,
        }
    }

    /// Publishes a new geometry; every later query answers from it.
    pub fn set_geometry(&mut self, geometry: DrawableGeometry)
        requires
            geometry.is_valid(),
        ensures
            final(self).geom() == geometry,
            final(self).events() == old(self).events(),
            final(self).wf(),
    {
        self.geometry = geometry;
    }

    /// Asks the GL capability to make the context current; `false` tells
    /// the engine to skip this paint pass and retry next frame.
    pub fn prepare_for_composite(&self, _width: usize, _height: usize) -> bool {
        self.gl_methods.make_current().is_ok()
    }

    /// Clipboard access is not offered by this adapter.
    pub fn supports_clipboard(&self) -> (r: bool)
        ensures
            r == false,
    {
        false
    }

    /// Hands the engine its own wake-up handle: a clone of the host's
    /// waker, safe to carry into the engine's internal threads.
    pub fn create_event_loop_waker(&self) -> W {
        self.waker.clone()
    }

    /// Presents the finished frame at once by swapping buffers, rather
    /// than queueing a notification: presentation must happen before the
    /// next frame's geometry query, not on the host's next poll.
    pub fn present(&self) {
        self.gl_methods.swap_buffers();
    }

    /// The current HiDPI scale factor.
    pub fn hidpi_factor(&self) -> (r: HidpiFactor)
        ensures
            r == self.geom().hidpi_factor,
    {
        self.geometry.hidpi_factor
    }

    /// The framebuffer size in device pixels, recomputed from the current
    /// geometry on every call so that an update is visible to the very
    /// next query.
    pub fn framebuffer_size(&self) -> (r: (u32, u32))
        requires
            self.wf(),
        ensures
            r.0 == self.geom().spec_fb_width(),
            r.1 == self.geom().spec_fb_height(),
    {
        self.geometry.framebuffer_size()
    }

    /// The content rectangle in device pixels, recomputed from the current
    /// geometry on every call.
    pub fn window_rect(&self) -> (r: WindowRect)
        requires
            self.wf(),
        ensures
            r.origin.0 == self.geom().spec_rect_left(),
            r.origin.1 == self.geom().spec_rect_top(),
            r.size.0 == self.geom().spec_rect_width(),
            r.size.1 == self.geom().spec_rect_height(),
    {
        self.geometry.window_rect()
    }

    /// The logical view size, recomputed from the current geometry.
    pub fn size(&self) -> (r: (u32, u32))
        ensures
            r == self.geom().view_size,
    {
        self.geometry.size()
    }

    /// The client window of a browsing context: the most recently set view
    /// size and position, read fresh on every call — no caching, so no
    /// query can observe stale geometry.
    pub fn client_window(&self, _id: BrowserId) -> (r: ((u32, u32), (i32, i32)))
        ensures
            r.0 == self.geom().view_size,
            r.1 == self.geom().position,
    {
        (self.geometry.view_size, self.geometry.position)
    }

    /// Atomically drains the queue: returns everything queued so far in
    /// arrival order and leaves the queue empty. With nothing queued it
    /// returns an empty sequence, however often it is repeated.
    pub fn get_events(&mut self) -> (r: Vec<BrowserEvent>)
        ensures
            r@ == old(self).events(),
            final(self).events() == Seq::<BrowserEvent>::empty(),
            final(self).geom() == old(self).geom(),
    {
        self.event_queue.drain()
    }

    /// The engine asks the host to resize the window's inner area.
    pub fn set_inner_size(&mut self, id: BrowserId, width: u32, height: u32)
        ensures
            final(self).events() == old(self).events().push(
                BrowserEvent::SetWindowInnerSize(id, width, height),
            ),
            final(self).geom() == old(self).geom(),
    {
        self.event_queue.push(BrowserEvent::SetWindowInnerSize(id, width, height));
    }

    /// The engine asks the host to move the window.
    pub fn set_position(&mut self, id: BrowserId, x: i32, y: i32)
        ensures
            final(self).events() == old(self).events().push(
                BrowserEvent::SetWindowPosition(id, x, y),
            ),
            final(self).geom() == old(self).geom(),
    {
        self.event_queue.push(BrowserEvent::SetWindowPosition(id, x, y));
    }

    /// The engine reports a fullscreen state change.
    pub fn set_fullscreen_state(&mut self, id: BrowserId, state: bool)
        ensures
            final(self).events() == old(self).events().push(
                BrowserEvent::SetFullScreenState(id, state),
            ),
            final(self).geom() == old(self).geom(),
    {
        self.event_queue.push(BrowserEvent::SetFullScreenState(id, state));
    }

    /// The engine reports a page title change.
    pub fn set_page_title(&mut self, id: BrowserId, title: Option<String>)
        ensures
            final(self).events() == old(self).events().push(
                BrowserEvent::TitleChanged(id, title),
            ),
            final(self).geom() == old(self).geom(),
    {
        self.event_queue.push(BrowserEvent::TitleChanged(id, title));
    }

    /// The engine reports a status line change.
    pub fn status(&mut self, id: BrowserId, status: Option<String>)
        ensures
            final(self).events() == old(self).events().push(
                BrowserEvent::StatusChanged(id, status),
            ),
            final(self).geom() == old(self).geom(),
    {
        self.event_queue.push(BrowserEvent::StatusChanged(id, status));
    }

    /// The engine reports that a page load began.
    pub fn load_start(&mut self, id: BrowserId)
        ensures
            final(self).events() == old(self).events().push(BrowserEvent::LoadStart(id)),
            final(self).geom() == old(self).geom(),
    {
        self.event_queue.push(BrowserEvent::LoadStart(id));
    }

    /// The engine reports that a page load finished.
    pub fn load_end(&mut self, id: BrowserId)
        ensures
            final(self).events() == old(self).events().push(BrowserEvent::LoadEnd(id)),
            final(self).geom() == old(self).geom(),
    {
        self.event_queue.push(BrowserEvent::LoadEnd(id));
    }

    /// The engine reports that a page load failed, with the failing URL.
    pub fn load_error(&mut self, id: BrowserId, url: String)
        ensures
            final(self).events() == old(self).events().push(BrowserEvent::LoadError(id, url)),
            final(self).geom() == old(self).geom(),
    {
        self.event_queue.push(BrowserEvent::LoadError(id, url));
    }

    /// The engine reports that the document head was parsed.
    pub fn head_parsed(&mut self, id: BrowserId)
        ensures
            final(self).events() == old(self).events().push(BrowserEvent::HeadParsed(id)),
            final(self).geom() == old(self).geom(),
    {
        self.event_queue.push(BrowserEvent::HeadParsed(id));
    }

    /// The engine reports a session-history change: the entries and the
    /// index of the current one.
    pub fn history_changed(&mut self, id: BrowserId, entries: Vec<HistoryEntry>, current: usize)
        ensures
            final(self).events() == old(self).events().push(
                BrowserEvent::HistoryChanged(id, entries, current),
            ),
            final(self).geom() == old(self).geom(),
    {
        self.event_queue.push(BrowserEvent::HistoryChanged(id, entries, current));
    }

    /// The engine asks the host to change the mouse cursor; this is the
    /// one notification tied to no browsing context.
    pub fn set_cursor(&mut self, cursor: Cursor)
        ensures
            final(self).events() == old(self).events().push(BrowserEvent::CursorChanged(cursor)),
            final(self).geom() == old(self).geom(),
    {
        self.event_queue.push(BrowserEvent::CursorChanged(cursor));
    }

    /// The engine reports a favicon change, with the icon's URL.
    pub fn set_favicon(&mut self, id: BrowserId, url: String)
        ensures
            final(self).events() == old(self).events().push(
                BrowserEvent::FaviconChanged(id, url),
            ),
            final(self).geom() == old(self).geom(),
    {
        self.event_queue.push(BrowserEvent::FaviconChanged(id, url));
    }

    /// The engine asks whether a navigation may proceed. The request is
    /// queued with its reply token intact; the engine blocks that one
    /// navigation until the host answers through the channel the token
    /// names, and the adapter never answers on the host's behalf.
    pub fn allow_navigation(&mut self, id: BrowserId, url: String, reply: NavigationReplyToken)
        ensures
            final(self).events() == old(self).events().push(
                BrowserEvent::AllowNavigation(id, url, reply),
            ),
            final(self).geom() == old(self).geom(),
    {
        self.event_queue.push(BrowserEvent::AllowNavigation(id, url, reply));
    }

    /// The engine reports a key event, possibly without a browsing context
    /// when the key was not aimed at any page.
    pub fn handle_key(
        &mut self,
        id: Option<BrowserId>,
        ch: Option<char>,
        key: Key,
        mods: KeyModifiers,
    )
        ensures
            final(self).events() == old(self).events().push(
                BrowserEvent::Key(id, ch, key, mods),
            ),
            final(self).geom() == old(self).geom(),
    {
        self.event_queue.push(BrowserEvent::Key(id, ch, key, mods));
    }
}

} // verus!
