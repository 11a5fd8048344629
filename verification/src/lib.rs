pub mod callback;
pub mod events;
pub mod geometry;
pub mod queue;

pub use crate::callback::{EventLoopWaker, GLMethods, WindowCallback};
pub use crate::events::{BrowserEvent, Cursor, HistoryEntry, Key, KeyModifiers,
    NavigationReplyToken};
pub use crate::geometry::{DrawableGeometry, HidpiFactor, WindowRect};
pub use crate::queue::EventQueue;

use vstd::prelude::*;
use vstd::view::View as _;

verus! {

/// Identifier of one browsing context (tab or window content).
///
/// The engine assigns one on creation and carries it on every subsequent
/// notification; the value is stable for the lifetime of the context.
#[derive(Clone, Copy, PartialEq, Eq, Structural, Debug)]
pub struct BrowserId {
    pub namespace_id: u32,
    pub index: u32,
}

/// A lightweight handle for one presented view; it carries no state of its
/// own and exists so a host can hold something that stands for the window.
pub struct View {}

impl View {
    /// Host-side window presentation hook; presentation itself belongs to
    /// the host, so this adapter has nothing to do here.
    pub fn show(&self, _browser: Option<BrowserId>) {
    }
}

/// A failure while bootstrapping the process-wide engine state; fatal and
/// surfaced immediately, with no retry.
#[derive(Clone, Copy, PartialEq, Eq, Structural, Debug)]
pub enum BootstrapError {
    /// The required resources directory was not found under the process's
    /// working directory.
    MissingResourceDirectory,
}

/// Process-wide bootstrap state: created once, it outlives every
/// compositor it spawns. The host locates the required resources
/// directory (an I/O step that belongs to the host) and reports whether it
/// exists; bootstrapping fails exactly when it does not.
#[derive(Debug)]
pub struct Constellation {
}

impl Constellation {
    /// Bootstraps the process-wide state. `resources_dir_exists` is the
    /// host's answer to whether the required resources directory is
    /// present under the working directory; without it the bootstrap
    /// fails, fatally and without retry.
    pub fn new(resources_dir_exists: bool) -> (r: Result<Constellation, BootstrapError>)
        ensures
            resources_dir_exists <==> r is Ok,
            !resources_dir_exists ==> (r matches Err(e)
                && e == BootstrapError::MissingResourceDirectory),
    {
        if resources_dir_exists {
            Ok(Constellation {})
        } else {
            Err(BootstrapError::MissingResourceDirectory)
        }
    }

    /// Constructs the shared callback state for one compositor, wiring in
    /// the GL capability, the waker and the starting geometry. No engine
    /// work happens yet; the queue starts empty.
    pub fn new_compositor<G: GLMethods, W: EventLoopWaker + Clone>(
        &self,
        gl_methods: G,
        waker: W,
        geometry: DrawableGeometry,
    ) -> (r: Compositor<G, W>)
        requires
            geometry.is_valid(),
        ensures
            r.callbacks.events() == Seq::<BrowserEvent>::empty(),
            r.callbacks.geom() == geometry,
            r.callbacks.wf(),
    {
        Compositor {
            callbacks: WindowCallback::new(gl_methods, waker, geometry),
        }
    }
}

/// Owns the adapter state for one engine instance and brokers between the
/// polling host and the engine's callbacks. The engine instance itself is
/// the host's to create and drive; everything the engine reports flows
/// through `callbacks` and is retrieved with `get_events`.
pub struct Compositor<G: GLMethods, W: EventLoopWaker + Clone> {
    pub callbacks: WindowCallback<G, W>,
}

impl<G: GLMethods, W: EventLoopWaker + Clone> Compositor<G, W> {
    /// Publishes updated geometry into the shared callback state, so that
    /// the very next geometry query answers from it, and returns a fresh
    /// view handle. Queued events are untouched.
    pub fn new_view(&mut self, geometry: DrawableGeometry) -> (r: View)
        requires
            geometry.is_valid(),
        ensures
            final(self).callbacks.geom() == geometry,
            final(self).callbacks.events() == old(self).callbacks.events(),
            final(self).callbacks.wf(),
    {
        self.callbacks.set_geometry(geometry);
        View {}
    }

    /// Atomically drains and returns the entire queue content in arrival
    /// order; the queue is empty afterwards, and repeated calls with no
    /// new activity return an empty sequence.
    pub fn get_events(&mut self) -> (r: Vec<BrowserEvent>)
        ensures
            r@ == old(self).callbacks.events(),
            final(self).callbacks.events() == Seq::<BrowserEvent>::empty(),
            final(self).callbacks.geom() == old(self).callbacks.geom(),
    {
        self.callbacks.get_events()
    }
}

} // verus!
