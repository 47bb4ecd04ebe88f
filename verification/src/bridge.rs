//! The shared bridge state and its state machine.
//!
//! A [`Window`] holds the configuration fixed at construction and the three
//! cells shared between the caller's threads and the dedicated event-loop
//! thread: the pending-event queue, the running flag, and the optional
//! raw handle of the created window. The verified core is sequential; the
//! process boundary owns one `Window` per native window, guards it with its
//! locks, and calls in from both sides. The consumer side is `start`,
//! `stop`, `is_running`, `poll_event` and `get_window_handle`; the producer
//! side — the event loop's handler — drives `needs_window`,
//! `on_window_created`, `on_window_creation_failed` and
//! `handle_native_event`, and performs the [`LoopDirective`] each returns.

use std::collections::VecDeque;

use vstd::prelude::*;

use crate::events::NativeEvent;
use crate::events::WindowEvent;
use crate::handle::HandleKind;
use crate::handle::extract_handle;
use crate::handle::spec_extract_handle;
use crate::translate::is_close_request;
use crate::translate::is_redraw_request;
use crate::translate::spec_translate;
use crate::translate::translate;

verus! {

/// What the owning event loop must do after the bridge has decided one
/// lifecycle callback: carry on, re-arm the platform's redraw facility and
/// carry on, or request loop exit.
#[derive(Clone, Copy, Debug, PartialEq, Eq, Structural)]
pub enum LoopDirective {
    Continue,
    RequestRedraw,
    Exit,
}

/// The mathematical state of a bridge: the configuration, the queued
/// portable events in arrival order (front first), the running flag, and
/// the raw handle of the created window, if any.
#[verifier::ext_equal]
pub struct BridgeView {
    pub title: Seq<char>,
    pub width: u32,
    pub height: u32,
    pub queue: Seq<WindowEvent>,
    pub running: bool,
    pub handle: Option<HandleKind>,
}

/// The window bridge the caller drives.
///
/// Owns the configuration and the three shared cells. Only the event-loop
/// handler appends to the queue; only `poll_event` removes, one event at a
/// time, from the front.
pub struct Window {
    title: String,
    width: u32,
    height: u32,
    event_queue: VecDeque<WindowEvent>,
    running: bool,
    window_instance: Option<HandleKind>,
}

impl View for Window {
    type V = BridgeView;

    closed spec fn view(&self) -> BridgeView {
        BridgeView {
            title: self.title@,
            width: self.width,
            height: self.height,
            queue: self.event_queue@,
            running: self.running,
            handle: self.window_instance,
        }
    }
}

/// The numeric handle a bridge reports: the extracted value of the stored
/// handle kind, or the zero sentinel while no window exists.
pub open spec fn spec_window_handle(v: BridgeView) -> u64 {
    match v.handle {
        Some(kind) => spec_extract_handle(kind),
        None => 0u64,
    }
}

/// The event a poll returns: the front of the queue, or `None` — and only
/// then — when the queue is empty.
pub open spec fn spec_poll_result(v: BridgeView) -> Option<WindowEvent> {
    if v.queue.len() == 0 {
        None
    } else {
        Some(v.queue[0])
    }
}

/// The state after a poll: the front event removed, everything else — and
/// an empty bridge entirely — untouched.
pub open spec fn spec_poll_state(v: BridgeView) -> BridgeView {
    if v.queue.len() == 0 {
        v
    } else {
        BridgeView { queue: v.queue.subrange(1, v.queue.len() as int), ..v }
    }
}

/// The state after the handler has processed one native event.
///
/// A stopped bridge discards the event. A running one appends the event's
/// translation, if any, to the back of the queue; a close request also
/// clears the running flag — the one translation with a lifecycle side
/// effect on the flag.
pub open spec fn spec_step_state(pre: BridgeView, ev: NativeEvent) -> BridgeView {
    if !pre.running {
        pre
    } else {
        BridgeView {
            queue: match spec_translate(ev) {
                Some(e) => pre.queue.push(e),
                None => pre.queue,
            },
            running: !is_close_request(ev),
            ..pre
        }
    }
}

/// The directive the handler returns for one native event: exit when the
/// bridge is already stopped or the event is a close request, a redraw
/// re-arm for a redraw request, and carry on otherwise.
pub open spec fn spec_step_directive(pre: BridgeView, ev: NativeEvent) -> LoopDirective {
    if !pre.running || is_close_request(ev) {
        LoopDirective::Exit
    } else if is_redraw_request(ev) {
        LoopDirective::RequestRedraw
    } else {
        LoopDirective::Continue
    }
}

impl Window {
    /// Creates a bridge for a window with the given title and requested
    /// size. Pure construction: no window exists yet, the queue is empty
    /// and the running flag is down. Never fails.
    pub fn new(title: String, width: u32, height: u32) -> (w: Window)
        ensures
            w@.title == title@,
            w@.width == width,
            w@.height == height,
            w@.queue == Seq::<WindowEvent>::empty(),
            !w@.running,
            w@.handle is None,
    {
        Window {
            title,
            width,
            height,
            event_queue: VecDeque::new(),
            running: false,
            window_instance: None,
        }
    }

    /// Raises the running flag. The process boundary then spawns the
    /// dedicated thread that builds the native loop and drives the handler;
    /// its warm-up delay is a timing heuristic outside the verified core.
    pub fn start(&mut self)
        ensures
            final(self)@ == (BridgeView { running: true, ..old(self)@ }),
    {
        self.running = true;
    }

    /// Lowers the running flag. Cooperative and lazy: the native loop only
    /// observes the flag on its next event, so actual termination happens
    /// asynchronously.
    pub fn stop(&mut self)
        ensures
            final(self)@ == (BridgeView { running: false, ..old(self)@ }),
    {
        self.running = false;
    }

    /// A non-blocking snapshot of the running flag.
    pub fn is_running(&self) -> (r: bool)
        ensures
            r == self@.running,
    {
        self.running
    }

    /// Removes and returns the oldest queued portable event, or `None` when
    /// the queue is empty — also before any window was started. Never
    /// blocks, and leaves an empty queue untouched.
    pub fn poll_event(&mut self) -> (r: Option<WindowEvent>)
        ensures
            r == spec_poll_result(old(self)@),
            final(self)@ == spec_poll_state(old(self)@),
    {
        self.event_queue.pop_front()
    }

    /// The OS-level numeric handle of the created window: 0 while the
    /// window does not exist yet or when the platform reports an
    /// unsupported handle kind, the extracted handle otherwise.
    pub fn get_window_handle(&self) -> (r: u64)
        ensures
            r == spec_window_handle(self@),
    {
        match &self.window_instance {
            Some(kind) => extract_handle(kind),
            None => 0u64,
        }
    }

    /// True while no window has been created: the loop's first resume
    /// callback creates one exactly when this holds.
    pub fn needs_window(&self) -> (r: bool)
        ensures
            r == (self@.handle is None),
    {
        self.window_instance.is_none()
    }

    /// Records the raw handle of the window the loop created on its first
    /// resume. Only the handle cell changes.
    pub fn on_window_created(&mut self, kind: HandleKind)
        ensures
            final(self)@ == (BridgeView { handle: Some(kind), ..old(self)@ }),
    {
        self.window_instance = Some(kind);
    }

    /// Window creation failed: terminal. The running flag goes down and the
    /// loop is directed to exit, so the caller discovers the failure
    /// through `is_running` and an event stream that stays empty.
    pub fn on_window_creation_failed(&mut self) -> (d: LoopDirective)
        ensures
            final(self)@ == (BridgeView { running: false, ..old(self)@ }),
            d == LoopDirective::Exit,
    {
        self.running = false;
        LoopDirective::Exit
    }

    /// Processes one native event on the producer side.
    ///
    /// A stopped bridge discards the event and directs the loop to exit.
    /// Otherwise the event's translation, if any, is appended to the back
    /// of the queue; a close request additionally lowers the running flag
    /// and exits the loop, and a redraw request directs the loop to re-arm
    /// the platform's redraw facility.
    pub fn handle_native_event(&mut self, ev: NativeEvent) -> (d: LoopDirective)
        ensures
            final(self)@ == spec_step_state(old(self)@, ev),
            d == spec_step_directive(old(self)@, ev),
    {
        if !self.running {
            return LoopDirective::Exit;
        }
        let directive = if matches!(ev, NativeEvent::CloseRequested) {
            self.running = false;
            LoopDirective::Exit
        } else if matches!(ev, NativeEvent::RedrawRequested) {
            LoopDirective::RequestRedraw
        } else {
            LoopDirective::Continue
        };
        match translate(ev) {
            Some(e) => self.event_queue.push_back(e),
            None => (),
        }
        directive
    }

    /// The configured title, as handed to the toolkit when the window is
    /// created.
    pub fn title(&self) -> (r: &String)
        ensures
            r@ == self@.title,
    {
        &self.title
    }

    /// The requested width, as handed to the toolkit when the window is
    /// created.
    pub fn width(&self) -> (r: u32)
        ensures
            r == self@.width,
    {
        self.width
    }

    /// The requested height, as handed to the toolkit when the window is
    /// created.
    pub fn height(&self) -> (r: u32)
        ensures
            r == self@.height,
    {
        self.height
    }
}

} // verus!
