use vstd::prelude::*;

use crate::text::ascii_lower_text;
use crate::text::contains_ignoring_case;
use crate::text::contains_text;
use crate::text::contains_text_ignoring_case;
use crate::text::occurs_at;
use crate::surface::SurfaceStatus;
use crate::surface::frame_error;

verus! {

/// The decision state of the engine's window application: the window it
/// asks for, and which of the window and the graphics pipeline exist.
pub struct ObitoApp {
    title: String,
    width: u32,
    height: u32,
    has_window: bool,
    has_graphics: bool,
}

/// The state of an [`ObitoApp`] as plain values.
pub struct AppView {
    pub title: Seq<char>,
    pub width: u32,
    pub height: u32,
    pub has_window: bool,
    pub has_graphics: bool,
}

/// What the host tells the application.
#[derive(Debug)]
pub enum AppEvent {
    /// The application was resumed.
    Resumed,
    /// The window asked for by `CreateWindow` was created.
    WindowCreated,
    /// The window asked for by `CreateWindow` could not be created.
    WindowCreationFailed,
    /// The graphics pipeline asked for by `InitGraphics` is ready.
    GraphicsReady,
    /// The user asked to close the window.
    CloseRequested,
    /// The window has a new physical size.
    Resized { width: u32, height: u32 },
    /// The window must be drawn again.
    RedrawRequested,
    /// The frame asked for by `Render` was drawn.
    RenderSucceeded,
    /// The frame asked for by `Render` failed with this message.
    RenderFailed { message: String },
    /// The event loop is about to wait for new events.
    AboutToWait,
    /// Any other window event.
    Other,
}

/// An [`AppEvent`] as plain values.
pub enum EventView {
    Resumed,
    WindowCreated,
    WindowCreationFailed,
    GraphicsReady,
    CloseRequested,
    Resized { width: u32, height: u32 },
    RedrawRequested,
    RenderSucceeded,
    RenderFailed { message: Seq<char> },
    AboutToWait,
    Other,
}

/// What the application asks the host to do.
#[derive(Debug)]
pub enum AppAction {
    /// Nothing.
    Nothing,
    /// Create a window with this title and this logical size.
    CreateWindow { title: String, width: u32, height: u32 },
    /// Build the graphics pipeline for the window.
    InitGraphics,
    /// Report that the window could not be created.
    ReportWindowError,
    /// Leave the event loop.
    Exit,
    /// Resize the surface to this physical size.
    ResizeSurface { width: u32, height: u32 },
    /// Draw a frame.
    Render,
    /// Resize the surface to the window's current size.
    ResizeToWindow,
    /// Report that the GPU ran out of memory, and leave the event loop.
    ExitOutOfMemory,
    /// Report this render error.
    ReportRenderError { message: String },
    /// Ask the window to be drawn again.
    RequestRedraw,
}

/// An [`AppAction`] as plain values.
pub enum ActionView {
    Nothing,
    CreateWindow { title: Seq<char>, width: u32, height: u32 },
    InitGraphics,
    ReportWindowError,
    Exit,
    ResizeSurface { width: u32, height: u32 },
    Render,
    ResizeToWindow,
    ExitOutOfMemory,
    ReportRenderError { message: Seq<char> },
    RequestRedraw,
}

impl View for ObitoApp {
    type V = AppView;

    closed spec fn view(&self) -> AppView {
        AppView {
            title: self.title@,
            width: self.width,
            height: self.height,
            has_window: self.has_window,
            has_graphics: self.has_graphics,
        }
    }
}

impl View for AppEvent {
    type V = EventView;

    open spec fn view(&self) -> EventView {
        match self {
            AppEvent::Resumed => EventView::Resumed,
            AppEvent::WindowCreated => EventView::WindowCreated,
            AppEvent::WindowCreationFailed => EventView::WindowCreationFailed,
            AppEvent::GraphicsReady => EventView::GraphicsReady,
            AppEvent::CloseRequested => EventView::CloseRequested,
            AppEvent::Resized { width, height } => EventView::Resized {
                width: *width,
                height: *height,
            },
            AppEvent::RedrawRequested => EventView::RedrawRequested,
            AppEvent::RenderSucceeded => EventView::RenderSucceeded,
            AppEvent::RenderFailed { message } => EventView::RenderFailed { message: message@ },
            AppEvent::AboutToWait => EventView::AboutToWait,
            AppEvent::Other => EventView::Other,
        }
    }
}

impl View for AppAction {
    type V = ActionView;

    open spec fn view(&self) -> ActionView {
        match self {
            AppAction::Nothing => ActionView::Nothing,
            AppAction::CreateWindow { title, width, height } => ActionView::CreateWindow {
                title: title@,
                width: *width,
                height: *height,
            },
            AppAction::InitGraphics => ActionView::InitGraphics,
            AppAction::ReportWindowError => ActionView::ReportWindowError,
            AppAction::Exit => ActionView::Exit,
            AppAction::ResizeSurface { width, height } => ActionView::ResizeSurface {
                width: *width,
                height: *height,
            },
            AppAction::Render => ActionView::Render,
            AppAction::ResizeToWindow => ActionView::ResizeToWindow,
            AppAction::ExitOutOfMemory => ActionView::ExitOutOfMemory,
            AppAction::ReportRenderError { message } => ActionView::ReportRenderError {
                message: message@,
            },
            AppAction::RequestRedraw => ActionView::RequestRedraw,
        }
    }
}

/// A state that the application can be in: the graphics pipeline is only
/// ever built for an existing window.
pub open spec fn app_wf(s: AppView) -> bool {
    s.has_graphics ==> s.has_window
}

/// What a failed frame leads to. A message that names a lost surface
/// ("Lost", in any case of its letters) resizes the surface to the window,
/// if there is one; one that names exhausted GPU memory ("OutOfMemory", in
/// any case) ends the application; any other is reported.
pub open spec fn render_failure_action(s: AppView, message: Seq<char>) -> ActionView {
    if contains_text_ignoring_case(message, "Lost"@) {
        if s.has_window {
            ActionView::ResizeToWindow
        } else {
            ActionView::Nothing
        }
    } else if contains_text_ignoring_case(message, "OutOfMemory"@) {
        ActionView::ExitOutOfMemory
    } else {
        ActionView::ReportRenderError { message }
    }
}

/// The state and the action that an event leads to.
pub open spec fn app_next(s: AppView, e: EventView) -> (AppView, ActionView) {
    match e {
        EventView::Resumed => if s.has_window {
            (s, ActionView::Nothing)
        } else {
            (s, ActionView::CreateWindow { title: s.title, width: s.width, height: s.height })
        },
        EventView::WindowCreated => (AppView { has_window: true, ..s }, ActionView::InitGraphics),
        EventView::WindowCreationFailed => (s, ActionView::ReportWindowError),
        EventView::GraphicsReady => (
            AppView { has_graphics: s.has_graphics || s.has_window, ..s },
            ActionView::Nothing,
        ),
        EventView::CloseRequested => (s, ActionView::Exit),
        EventView::Resized { width, height } => if s.has_graphics {
            (s, ActionView::ResizeSurface { width, height })
        } else {
            (s, ActionView::Nothing)
        },
        EventView::RedrawRequested => if s.has_graphics {
            (s, ActionView::Render)
        } else {
            (s, ActionView::Nothing)
        },
        EventView::RenderSucceeded => (s, ActionView::Nothing),
        EventView::RenderFailed { message } => if s.has_graphics {
            (s, render_failure_action(s, message))
        } else {
            (s, ActionView::Nothing)
        },
        EventView::AboutToWait => if s.has_window {
            (s, ActionView::RequestRedraw)
        } else {
            (s, ActionView::Nothing)
        },
        EventView::Other => (s, ActionView::Nothing),
    }
}

impl ObitoApp {
    /// A fresh application that will ask for a window with this title and
    /// this logical size; it has neither a window nor graphics yet.
    pub fn new(title: String, width: u32, height: u32) -> (r: ObitoApp)
        ensures
            r@ == (AppView {
                title: title@,
                width,
                height,
                has_window: false,
                has_graphics: false,
            }),
            app_wf(r@),
    {
        ObitoApp { title, width, height, has_window: false, has_graphics: false }
    }

    /// The title of the window that the application asks for.
    pub fn title(&self) -> (r: &str)
        ensures
            r@ == self@.title,
    {
        self.title.as_str()
    }

    /// Whether the window exists.
    pub fn has_window(&self) -> (r: bool)
        ensures
            r == self@.has_window,
    {
        self.has_window
    }

    /// Whether the graphics pipeline exists.
    pub fn has_graphics(&self) -> (r: bool)
        ensures
            r == self@.has_graphics,
    {
        self.has_graphics
    }

    /// Takes one event and answers with the action that the host performs.
    pub fn step(&mut self, event: AppEvent) -> (action: AppAction)
        ensures
            (final(self)@, action@) == app_next(old(self)@, event@),
            event is Resumed && !old(self)@.has_window ==> action@ == (ActionView::CreateWindow {
                title: old(self)@.title,
                width: old(self)@.width,
                height: old(self)@.height,
            }),
            event matches AppEvent::Resized { width, height } ==> (old(self)@.has_graphics
                ==> action@ == (ActionView::ResizeSurface { width, height })),
    {
        match event {
            AppEvent::Resumed => {
                if self.has_window {
                    AppAction::Nothing
                } else {
                    AppAction::CreateWindow {
                        title: self.title.clone(),
                        width: self.width,
                        height: self.height,
                    }
                }
            },
            AppEvent::WindowCreated => {
                self.has_window = true;
                AppAction::InitGraphics
            },
            AppEvent::WindowCreationFailed => AppAction::ReportWindowError,
            AppEvent::GraphicsReady => {
                self.has_graphics = self.has_graphics || self.has_window;
                AppAction::Nothing
            },
            AppEvent::CloseRequested => AppAction::Exit,
            AppEvent::Resized { width, height } => {
                if self.has_graphics {
                    AppAction::ResizeSurface { width, height }
                } else {
                    AppAction::Nothing
                }
            },
            AppEvent::RedrawRequested => {
                if self.has_graphics {
                    AppAction::Render
                } else {
                    AppAction::Nothing
                }
            },
            AppEvent::RenderSucceeded => AppAction::Nothing,
            AppEvent::RenderFailed { message } => {
                if self.has_graphics {
                    self.render_failure(message)
                } else {
                    AppAction::Nothing
                }
            },
            AppEvent::AboutToWait => {
                if self.has_window {
                    AppAction::RequestRedraw
                } else {
                    AppAction::Nothing
                }
            },
            AppEvent::Other => AppAction::Nothing,
        }
    }

    /// The action for a failed frame.
    fn render_failure(&self, message: String) -> (action: AppAction)
        ensures
            action@ == render_failure_action(self@, message@),
    {
        if contains_ignoring_case(message.as_str(), "Lost") {
            if self.has_window {
                AppAction::ResizeToWindow
            } else {
                AppAction::Nothing
            }
        } else if contains_ignoring_case(message.as_str(), "OutOfMemory") {
            AppAction::ExitOutOfMemory
        } else {
            AppAction::ReportRenderError { message }
        }
    }
}

/// Every event keeps the application in a well-formed state, keeps the
/// window title and size it asks for, and never takes away a window or a
/// graphics pipeline once it exists.
pub proof fn lemma_step_keeps_state(s: AppView, e: EventView)
    requires
        app_wf(s),
    ensures
        app_wf(app_next(s, e).0),
        app_next(s, e).0.title == s.title,
        app_next(s, e).0.width == s.width,
        app_next(s, e).0.height == s.height,
        s.has_window ==> app_next(s, e).0.has_window,
        s.has_graphics ==> app_next(s, e).0.has_graphics,
{
}

/// The host is asked for GPU work (drawing, resizing the surface) only once
/// the graphics pipeline exists, for a redraw only once the window exists,
/// for the graphics pipeline only right after the window was created, and
/// for a window only while there is none: a window is created at most once.
pub proof fn lemma_actions_need_resources(s: AppView, e: EventView)
    requires
        app_wf(s),
    ensures
        ({
            let a = app_next(s, e).1;
            &&& (a is Render || a is ResizeSurface || a is ResizeToWindow) ==> s.has_graphics
            &&& a is RequestRedraw ==> s.has_window
            &&& a is InitGraphics ==> e is WindowCreated
            &&& a is CreateWindow ==> !s.has_window && e is Resumed
        }),
{
}

/// Whatever the state, a close request asks to leave the event loop and
/// changes nothing.
pub proof fn lemma_close_exits(s: AppView)
    ensures
        app_next(s, EventView::CloseRequested) == (s, ActionView::Exit),
{
}

/// Resuming without a window asks for a window with exactly the title and
/// the logical size the application was made with, and changes nothing;
/// resuming with a window asks for nothing.
pub proof fn lemma_resume_requests_the_given_window(title: Seq<char>, width: u32, height: u32, has_graphics: bool)
    ensures
        ({
            let s = AppView { title, width, height, has_window: false, has_graphics };
            app_next(s, EventView::Resumed) == (
                s,
                ActionView::CreateWindow { title, width, height },
            )
        }),
        ({
            let s = AppView { title, width, height, has_window: true, has_graphics };
            app_next(s, EventView::Resumed) == (s, ActionView::Nothing)
        }),
{
}

/// A fresh application, resumed, asks for a window with exactly the title
/// and the logical size it was made with.
pub proof fn lemma_fresh_app_requests_its_window(title: Seq<char>, width: u32, height: u32)
    ensures
        app_next(
            AppView { title, width, height, has_window: false, has_graphics: false },
            EventView::Resumed,
        ).1 == (ActionView::CreateWindow { title, width, height }),
{
}

/// A new window size, once the graphics pipeline exists, asks the host to
/// resize the surface to exactly that size, whatever it is and whatever
/// size was first asked for, and changes nothing; before the graphics
/// pipeline exists it asks for nothing.
pub proof fn lemma_resize_follows_the_window(s: AppView, width: u32, height: u32)
    ensures
        s.has_graphics ==> app_next(s, EventView::Resized { width, height }) == (
            s,
            ActionView::ResizeSurface { width, height },
        ),
        !s.has_graphics ==> app_next(s, EventView::Resized { width, height }) == (
            s,
            ActionView::Nothing,
        ),
{
}

/// Two different new window sizes lead to two different resize requests:
/// the request carries the size it answers.
pub proof fn lemma_resize_requests_differ(s: AppView, w1: u32, h1: u32, w2: u32, h2: u32)
    requires
        s.has_graphics,
        w1 != w2 || h1 != h2,
    ensures
        app_next(s, EventView::Resized { width: w1, height: h1 }).1 != app_next(
            s,
            EventView::Resized { width: w2, height: h2 },
        ).1,
{
}

/// A redraw request draws a frame exactly when the graphics pipeline exists;
/// the wait before new events asks for a redraw exactly when the window
/// exists; neither changes the state.
pub proof fn lemma_redraw_cycle(s: AppView)
    ensures
        app_next(s, EventView::RedrawRequested) == (
            s,
            if s.has_graphics { ActionView::Render } else { ActionView::Nothing },
        ),
        app_next(s, EventView::AboutToWait) == (
            s,
            if s.has_window { ActionView::RequestRedraw } else { ActionView::Nothing },
        ),
        app_next(s, EventView::RenderSucceeded) == (s, ActionView::Nothing),
        app_next(s, EventView::Other) == (s, ActionView::Nothing),
{
}

/// A created window is recorded and its graphics pipeline asked for; a
/// failed one is reported and nothing is recorded; a ready pipeline is
/// recorded exactly when its window exists. Title and size never change.
pub proof fn lemma_window_and_graphics_creation(s: AppView)
    ensures
        app_next(s, EventView::WindowCreated) == (
            AppView { has_window: true, ..s },
            ActionView::InitGraphics,
        ),
        app_next(s, EventView::WindowCreationFailed) == (s, ActionView::ReportWindowError),
        app_next(s, EventView::GraphicsReady).0.has_graphics == (s.has_graphics || s.has_window),
        app_next(s, EventView::GraphicsReady).0.has_window == s.has_window,
        app_next(s, EventView::GraphicsReady).0.title == s.title,
        app_next(s, EventView::GraphicsReady).0.width == s.width,
        app_next(s, EventView::GraphicsReady).0.height == s.height,
        app_next(s, EventView::GraphicsReady).1 == ActionView::Nothing,
{
}

/// A frame that fails with a message naming neither a lost surface nor
/// exhausted memory is reported with exactly that message, once graphics
/// exist, and changes nothing.
pub proof fn lemma_other_render_errors_are_reported(s: AppView, message: Seq<char>)
    requires
        s.has_graphics,
        !contains_text_ignoring_case(message, "Lost"@),
        !contains_text_ignoring_case(message, "OutOfMemory"@),
    ensures
        app_next(s, EventView::RenderFailed { message }) == (
            s,
            ActionView::ReportRenderError { message },
        ),
{
}

/// A frame that fails with a message naming a lost surface, in any case of
/// its letters, resizes the surface to the window once graphics exist; one
/// naming exhausted memory (and no lost surface) ends the application.
pub proof fn lemma_render_error_recovery(s: AppView, message: Seq<char>)
    requires
        app_wf(s),
        s.has_graphics,
    ensures
        contains_text_ignoring_case(message, "Lost"@) ==> app_next(
            s,
            EventView::RenderFailed { message },
        ) == (s, ActionView::ResizeToWindow),
        !contains_text_ignoring_case(message, "Lost"@) && contains_text_ignoring_case(
            message,
            "OutOfMemory"@,
        ) ==> app_next(s, EventView::RenderFailed { message }) == (s, ActionView::ExitOutOfMemory),
{
}

/// A frame that fails because the surface was lost makes the host resize
/// the surface to the window; a frame that fails for any other reason is
/// reported, and nothing else happens: no resize, no exit, no change of
/// state.
pub proof fn lemma_frame_errors_are_answered(s: AppView, status: SurfaceStatus)
    requires
        s.has_graphics,
        s.has_window,
        frame_error(status) is Some,
    ensures
        status is Lost ==> app_next(s, EventView::RenderFailed { message: frame_error(status)->0 })
            == (s, ActionView::ResizeToWindow),
        !(status is Lost) ==> app_next(
            s,
            EventView::RenderFailed { message: frame_error(status)->0 },
        ) == (s, ActionView::ReportRenderError { message: frame_error(status)->0 }),
{
    reveal_strlit("Lost");
    reveal_strlit("OutOfMemory");
    reveal_strlit("Surface timeout");
    reveal_strlit("Surface outdated");
    reveal_strlit("Surface lost");
    reveal_strlit("Surface error occurred");
    let m = ascii_lower_text(frame_error(status)->0);
    let lost = ascii_lower_text("Lost"@);
    let oom = ascii_lower_text("OutOfMemory"@);
    assert(lost =~= seq!['l', 'o', 's', 't']);
    assert(oom[0] == 'o' && oom[1] == 'u');
    if status is Lost {
        assert(m =~= seq!['s', 'u', 'r', 'f', 'a', 'c', 'e', ' ', 'l', 'o', 's', 't']);
        assert(m.subrange(8, 12) =~= lost);
        assert(occurs_at(m, lost, 8));
    } else {
        assert(forall|i: int| 0 <= i < m.len() ==> m[i] != 'l');
        lemma_first_char_absent(m, lost);
        assert forall|k: int| !occurs_at(m, oom, k) by {
            if occurs_at(m, oom, k) {
                assert(m.subrange(k, k + oom.len())[0] == oom[0]);
                assert(m.subrange(k, k + oom.len())[1] == oom[1]);
            }
        }
    }
}

/// A text none of whose characters is the first character of `needle` does
/// not contain `needle`, unless `needle` is empty.
proof fn lemma_first_char_absent(hay: Seq<char>, needle: Seq<char>)
    requires
        needle.len() > 0,
        forall|i: int| 0 <= i < hay.len() ==> hay[i] != needle[0],
    ensures
        !contains_text(hay, needle),
{
    assert forall|k: int| !occurs_at(hay, needle, k) by {
        if occurs_at(hay, needle, k) {
            assert(hay.subrange(k, k + needle.len())[0] == needle[0]);
        }
    }
}

/// The event with which the host answers an action it has performed: the
/// window it created, or failed to create (`window_created`); the graphics
/// pipeline it built; the frame it drew, or failed to draw with the message
/// in `render_error`. `None` where the action asks for no answer.
pub open spec fn host_reply(
    a: ActionView,
    window_created: bool,
    render_error: Option<Seq<char>>,
) -> Option<EventView> {
    match a {
        ActionView::CreateWindow { .. } => Some(
            if window_created {
                EventView::WindowCreated
            } else {
                EventView::WindowCreationFailed
            },
        ),
        ActionView::InitGraphics => Some(EventView::GraphicsReady),
        ActionView::Render => Some(
            match render_error {
                None => EventView::RenderSucceeded,
                Some(message) => EventView::RenderFailed { message },
            },
        ),
        _ => None,
    }
}

/// The state after the host has passed an event and then, for at most
/// `rounds` more steps, its answer to each action; with the answer still to
/// pass, if any.
pub open spec fn after_callback(
    s: AppView,
    e: EventView,
    window_created: bool,
    render_error: Option<Seq<char>>,
    rounds: nat,
) -> (AppView, Option<EventView>)
    decreases rounds,
{
    let (next, action) = app_next(s, e);
    match host_reply(action, window_created, render_error) {
        None => (next, None),
        Some(reply) => if rounds == 0 {
            (next, Some(reply))
        } else {
            after_callback(next, reply, window_created, render_error, (rounds - 1) as nat)
        },
    }
}

/// An event that the window system hands the application on its own, as
/// opposed to an answer of the host to an action.
pub open spec fn is_callback_event(e: EventView) -> bool {
    ||| e is Resumed
    ||| e is CloseRequested
    ||| e is Resized
    ||| e is RedrawRequested
    ||| e is AboutToWait
    ||| e is Other
}

/// Each callback of the window system ends, after at most two answers of
/// the host, with the window and the graphics pipeline either both present
/// or both absent, provided they were so before: the window is never left
/// without its graphics, whatever the host's window creation and drawing
/// gave.
pub proof fn lemma_callback_pairs_window_and_graphics(
    s: AppView,
    e: EventView,
    window_created: bool,
    render_error: Option<Seq<char>>,
)
    requires
        s.has_window == s.has_graphics,
        is_callback_event(e),
    ensures
        ({
            let (after, pending) = after_callback(s, e, window_created, render_error, 2);
            &&& pending is None
            &&& after.has_window == after.has_graphics
        }),
{
    reveal_with_fuel(after_callback, 4);
}

} // verus!
