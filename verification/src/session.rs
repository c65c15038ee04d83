//! The main window: how the client starts in it once the user has logged in, and how it
//! takes the events of the window.

use vstd::prelude::*;

use crate::platform::TargetOs;

verus! {

/// Below this width, in pixels, the client starts in its minimal view.
pub const STARTUP_MINIMAL_WIDTH: u32 = 1200;

/// Below this width, in pixels, a resized window shows the minimal view.
pub const RESIZED_MINIMAL_WIDTH: u32 = 600;

/// What the client knows of its window.
#[derive(Clone, Copy, Debug, PartialEq, Eq, Structural)]
pub struct WindowMeta {
    pub focused: bool,
    pub maximized: bool,
    pub minimized: bool,
    pub minimal_view: bool,
}

/// What stands when a user has just logged in.
#[derive(Clone, Copy, Debug, PartialEq, Eq, Structural)]
pub struct LoginFacts {
    /// The client runs on mock data.
    pub use_mock: bool,
    /// The state that was loaded holds friends and chats.
    pub initialized: bool,
    /// The user has the overlay switched on.
    pub enable_overlay: bool,
    /// The operating system.
    pub os: TargetOs,
    /// The window has the focus.
    pub focused: bool,
    /// The window is maximized.
    pub maximized: bool,
    /// The window is minimized.
    pub minimized: bool,
    /// The inner width of the window, in pixels.
    pub width: u32,
}

impl LoginFacts {
    /// What the client knows of its window when it starts.
    pub open spec fn metadata(self) -> WindowMeta {
        WindowMeta {
            focused: self.focused,
            maximized: self.maximized,
            minimized: self.minimized,
            minimal_view: self.width < STARTUP_MINIMAL_WIDTH,
        }
    }

    /// The identity that becomes the user's own once `identity` has logged in.
    pub open spec fn own_identity<I>(self, identity: I) -> Option<I> {
        if self.use_mock {
            None
        } else {
            Some(identity)
        }
    }

    /// The overlay window opens.
    pub open spec fn opens_overlay(self) -> bool {
        self.enable_overlay && self.os != TargetOs::Windows
    }
}

/// What the client starts with.
#[derive(Debug, PartialEq, Eq)]
pub struct Startup<I> {
    /// The identity that becomes the user's own, where one does.
    pub own_identity: Option<I>,
    /// Whether the overlay window opens.
    pub open_overlay: bool,
    /// What the client knows of its window.
    pub metadata: WindowMeta,
}

/// Decides what the client starts with once `identity` has logged in.
///
/// On mock data the loaded state keeps its own identity, and has to be complete.
pub fn app_bootstrap<I>(identity: I, facts: LoginFacts) -> (res: Startup<I>)
    requires
        facts.use_mock ==> facts.initialized,
    ensures
        res.own_identity == if facts.use_mock {
            None
        } else {
            Some(identity)
        },
        res.open_overlay <==> facts.enable_overlay && facts.os != TargetOs::Windows,
        res.metadata == facts.metadata(),
        res.own_identity == facts.own_identity(identity),
        res.open_overlay == facts.opens_overlay(),
{
    let own_identity: Option<I> = if facts.use_mock {
        None
    } else {
        Some(identity)
    };
    Startup {
        own_identity,
        open_overlay: facts.os != TargetOs::Windows && facts.enable_overlay,
        metadata: WindowMeta {
            focused: facts.focused,
            maximized: facts.maximized,
            minimized: facts.minimized,
            minimal_view: facts.width < STARTUP_MINIMAL_WIDTH,
        },
    }
}

/// An event of the window.
#[derive(Clone, Copy, Debug, PartialEq, Eq, Structural)]
pub enum WindowEvent {
    /// The window gained or lost the focus.
    Focused(bool),
    /// The user wants the window closed.
    CloseRequested,
    /// The window has a new size; its inner width is now `width` pixels.
    Resized { width: u32 },
    /// Anything else.
    Other,
}

/// A step that an event of the window asks of the program. Each has the client drawn anew.
#[derive(Clone, Copy, Debug, PartialEq, Eq, Structural)]
pub enum WindowStep {
    /// The view as it is now goes into the state.
    StoreView,
    /// The badge that counts notifications is cleared.
    ClearBadge,
    /// The state is saved. A failure to do so is passed over.
    TrySave,
    /// All windows that were popped out are closed.
    ClearPopouts,
}

/// How the window is shown.
#[derive(Clone, Copy, Debug, PartialEq, Eq, Structural)]
pub struct WindowView {
    pub metadata: WindowMeta,
    pub sidebar_hidden: bool,
}

impl WindowView {
    /// How the window is shown after `event`.
    pub open spec fn after(self, event: WindowEvent) -> WindowView {
        match event {
            WindowEvent::Focused(focused) => WindowView {
                metadata: WindowMeta { focused, ..self.metadata },
                ..self
            },
            WindowEvent::Resized { width } => {
                let minimal_view = width < RESIZED_MINIMAL_WIDTH;
                if minimal_view == self.metadata.minimal_view {
                    self
                } else {
                    WindowView {
                        metadata: WindowMeta { minimal_view, ..self.metadata },
                        sidebar_hidden: minimal_view,
                    }
                }
            },
            WindowEvent::CloseRequested | WindowEvent::Other => self,
        }
    }

    /// How the window is shown after all of `events`, in order.
    pub open spec fn after_all(self, events: Seq<WindowEvent>) -> WindowView
        decreases events.len(),
    {
        if events.len() == 0 {
            self
        } else {
            self.after_all(events.drop_last()).after(events.last())
        }
    }

    /// The window has the focus after `event` and had not before.
    pub open spec fn gains_focus(self, event: WindowEvent) -> bool {
        event == WindowEvent::Focused(true) && !self.metadata.focused
    }

    /// The steps that `event` asks of the program, in their order.
    pub open spec fn steps(self, event: WindowEvent) -> Seq<WindowStep> {
        if self.gains_focus(event) {
            seq![WindowStep::StoreView, WindowStep::ClearBadge, WindowStep::TrySave]
        } else if self.after(event) != self {
            seq![WindowStep::StoreView]
        } else if event is CloseRequested {
            seq![WindowStep::ClearPopouts]
        } else {
            Seq::empty()
        }
    }

    /// Takes an event of the window, and hands out the steps that the program has to
    /// perform, in their order. Without steps nothing is written and nothing drawn.
    pub fn on_event(&mut self, event: WindowEvent) -> (res: Vec<WindowStep>)
        ensures
            *final(self) == old(self).after(event),
            res@ == old(self).steps(event),
    {
        match event {
            WindowEvent::Focused(focused) => {
                if self.metadata.focused != focused {
                    self.metadata.focused = focused;
                    if focused {
                        vec![WindowStep::StoreView, WindowStep::ClearBadge, WindowStep::TrySave]
                    } else {
                        vec![WindowStep::StoreView]
                    }
                } else {
                    Vec::new()
                }
            },
            WindowEvent::CloseRequested => vec![WindowStep::ClearPopouts],
            WindowEvent::Resized { width } => {
                let metadata: WindowMeta = self.metadata;
                let new_metadata: WindowMeta = WindowMeta {
                    minimal_view: width < RESIZED_MINIMAL_WIDTH,
                    ..metadata
                };
                if metadata != new_metadata {
                    self.sidebar_hidden = new_metadata.minimal_view;
                    self.metadata = new_metadata;
                    vec![WindowStep::StoreView]
                } else {
                    Vec::new()
                }
            },
            WindowEvent::Other => Vec::new(),
        }
    }
}

/// The badge is cleared, and the state saved, exactly when the window gains the focus:
/// each once, the badge first, and both after the focus stands in the state.
pub proof fn badge_is_cleared_before_saving(view: WindowView, event: WindowEvent)
    ensures
        view.steps(event).contains(WindowStep::ClearBadge) <==> view.gains_focus(event),
        view.steps(event).contains(WindowStep::TrySave) <==> view.gains_focus(event),
        view.gains_focus(event) ==> view.steps(event) == seq![
            WindowStep::StoreView,
            WindowStep::ClearBadge,
            WindowStep::TrySave,
        ],
{
    if view.gains_focus(event) {
        assert(view.steps(event)[1] == WindowStep::ClearBadge);
        assert(view.steps(event)[2] == WindowStep::TrySave);
    }
}

/// An event that leaves the view as it is, and does not ask to close the window, has
/// nothing written.
pub proof fn unchanged_view_is_not_written(view: WindowView, event: WindowEvent)
    ensures
        view.steps(event).len() == 0 <==> view.after(event) == view && !(event is CloseRequested),
{
}

/// An event that comes a second time in a row leaves the view as it is, and asks for
/// nothing more; only the wish to close the window has the popped-out ones closed again.
pub proof fn repeated_event_changes_nothing(view: WindowView, event: WindowEvent)
    ensures
        view.after(event).after(event) == view.after(event),
        !(event is CloseRequested) ==> view.after(event).steps(event).len() == 0,
{
}

/// The focus never touches the layout, and the layout never touches the focus: two events
/// of different kinds leave the same view in either order.
pub proof fn focus_and_size_are_independent(view: WindowView, focused: bool, width: u32)
    ensures
        view.after(WindowEvent::Focused(focused)).after(WindowEvent::Resized { width })
            == view.after(WindowEvent::Resized { width }).after(WindowEvent::Focused(focused)),
{
}

/// After a resize the view is minimal exactly below [`RESIZED_MINIMAL_WIDTH`], and the
/// window is otherwise as it was.
pub proof fn resize_decides_minimal_view(view: WindowView, width: u32)
    ensures
        view.after(WindowEvent::Resized { width }).metadata == (WindowMeta {
            minimal_view: width < RESIZED_MINIMAL_WIDTH,
            ..view.metadata
        }),
{
}

/// A first report of the size that the window has had from the start changes the view
/// exactly at the widths between [`RESIZED_MINIMAL_WIDTH`] and [`STARTUP_MINIMAL_WIDTH`]:
/// there the client starts in its minimal view and leaves it.
pub proof fn first_report_of_size(facts: LoginFacts, sidebar_hidden: bool)
    ensures
        ({
            let view = WindowView { metadata: facts.metadata(), sidebar_hidden };
            view.after(WindowEvent::Resized { width: facts.width }) != view
        }) <==> RESIZED_MINIMAL_WIDTH <= facts.width < STARTUP_MINIMAL_WIDTH,
{
}

/// Where the sidebar is hidden exactly in the minimal view, it stays so through every
/// sequence of events.
pub proof fn sidebar_follows_minimal_view(view: WindowView, events: Seq<WindowEvent>)
    requires
        view.sidebar_hidden == view.metadata.minimal_view,
    ensures
        view.after_all(events).sidebar_hidden == view.after_all(events).metadata.minimal_view,
    decreases events.len(),
{
    if events.len() > 0 {
        sidebar_follows_minimal_view(view, events.drop_last());
    }
}

/// No event maximizes or minimizes the window as the client knows it.
pub proof fn events_keep_window_state(view: WindowView, events: Seq<WindowEvent>)
    ensures
        view.after_all(events).metadata.maximized == view.metadata.maximized,
        view.after_all(events).metadata.minimized == view.metadata.minimized,
    decreases events.len(),
{
    if events.len() > 0 {
        events_keep_window_state(view, events.drop_last());
    }
}

/// The client starts with the window as it is: what is known of the focus and of the size
/// is what the window reports, and the view is minimal exactly below
/// [`STARTUP_MINIMAL_WIDTH`].
pub proof fn client_starts_with_the_window_as_it_is(facts: LoginFacts)
    ensures
        facts.metadata().focused <==> facts.focused,
        facts.metadata().maximized <==> facts.maximized,
        facts.metadata().minimized <==> facts.minimized,
        facts.metadata().minimal_view <==> facts.width < STARTUP_MINIMAL_WIDTH,
{
}

/// Of two windows the narrower starts in the minimal view wherever the wider does, whatever
/// else is different between them.
pub proof fn narrower_window_starts_as_minimal(wide: LoginFacts, narrow: LoginFacts)
    requires
        narrow.width <= wide.width,
    ensures
        wide.metadata().minimal_view ==> narrow.metadata().minimal_view,
        narrow.width == wide.width ==> wide.metadata().minimal_view
            == narrow.metadata().minimal_view,
{
}

/// Whoever logs in becomes the user, and no one else: only on mock data the loaded state
/// keeps the user that it has.
pub proof fn login_makes_the_user<I>(facts: LoginFacts, identity: I, user: I)
    ensures
        facts.own_identity(identity) == Some(user) <==> !facts.use_mock && user == identity,
        facts.own_identity(identity) is None <==> facts.use_mock,
{
}

/// The overlay opens for those who have it switched on, on every system but Windows, where
/// it never opens; nothing else has a say in it.
pub proof fn overlay_opens_where_it_is_wanted(facts: LoginFacts, other: LoginFacts)
    ensures
        facts.opens_overlay() ==> facts.enable_overlay,
        facts.os is Windows ==> !facts.opens_overlay(),
        !(facts.os is Windows) && facts.enable_overlay ==> facts.opens_overlay(),
        facts.enable_overlay == other.enable_overlay && facts.os == other.os
            ==> facts.opens_overlay() == other.opens_overlay(),
{
}

/// The client knows of the focus what the window last reported, and the focus changes
/// nothing else.
pub proof fn focus_is_tracked(view: WindowView, focused: bool)
    ensures
        view.after(WindowEvent::Focused(focused)).metadata.focused == focused,
        view.after(WindowEvent::Focused(focused)).metadata.maximized == view.metadata.maximized,
        view.after(WindowEvent::Focused(focused)).metadata.minimized == view.metadata.minimized,
        view.after(WindowEvent::Focused(focused)).metadata.minimal_view
            == view.metadata.minimal_view,
        view.after(WindowEvent::Focused(focused)).sidebar_hidden == view.sidebar_hidden,
{
}

/// The focus is that of the last report in a sequence of events, or that of the beginning
/// if none reports it.
pub proof fn last_report_of_focus_stands(view: WindowView, events: Seq<WindowEvent>, i: int)
    requires
        -1 <= i < events.len(),
        i >= 0 ==> events[i] is Focused,
        forall|j: int| i < j < events.len() ==> !(#[trigger] events[j] is Focused),
    ensures
        i < 0 ==> view.after_all(events).metadata.focused == view.metadata.focused,
        i >= 0 ==> events[i] == WindowEvent::Focused(view.after_all(events).metadata.focused),
    decreases events.len(),
{
    if events.len() > 0 && i < events.len() - 1 {
        let shorter = events.drop_last();
        assert(!(events[events.len() - 1] is Focused));
        assert forall|j: int| i < j < shorter.len() implies !(#[trigger] shorter[j] is Focused) by {
            assert(shorter[j] == events[j]);
        }
        last_report_of_focus_stands(view, shorter, i);
    }
}

/// A resize that changes between the minimal and the full view hides the sidebar in the
/// minimal one and shows it in the full one, whatever it was before; any other resize
/// leaves it, and the whole view, as it was.
pub proof fn resize_decides_the_sidebar(view: WindowView, width: u32)
    ensures
        ({
            let after = view.after(WindowEvent::Resized { width });
            let changes = view.metadata.minimal_view != after.metadata.minimal_view;
            &&& changes <==> view.metadata.minimal_view != (width < RESIZED_MINIMAL_WIDTH)
            &&& changes ==> (after.sidebar_hidden <==> width < RESIZED_MINIMAL_WIDTH)
            &&& !changes ==> after == view
            &&& after.metadata.focused == view.metadata.focused
        }),
{
}

/// Two views that a resize changes have the sidebar alike afterwards, however different
/// they were.
pub proof fn changed_views_agree_on_the_sidebar(one: WindowView, other: WindowView, width: u32)
    requires
        one.after(WindowEvent::Resized { width }) != one,
        other.after(WindowEvent::Resized { width }) != other,
    ensures
        one.after(WindowEvent::Resized { width }).sidebar_hidden == other.after(
            WindowEvent::Resized { width },
        ).sidebar_hidden,
        one.after(WindowEvent::Resized { width }).sidebar_hidden <==> one.after(
            WindowEvent::Resized { width },
        ).metadata.minimal_view,
{
}

/// Asking to close the window, and every event that says neither of the focus nor of the
/// size, leaves the view as it is.
pub proof fn other_events_leave_the_view(view: WindowView)
    ensures
        view.after(WindowEvent::CloseRequested) == view,
        view.after(WindowEvent::Other) == view,
{
}

/// What the program does over an event of the window: it stores the view exactly where that
/// has changed, clears the badge and saves exactly where the window has got a focus that it
/// had not, and closes the popped-out windows exactly where the user wants the window
/// closed. Each of these is done once at most, and storing comes first.
pub proof fn window_steps_have_their_reasons(view: WindowView, event: WindowEvent)
    ensures
        view.steps(event).contains(WindowStep::StoreView) <==> view.after(event) != view,
        view.steps(event).contains(WindowStep::ClearBadge) <==> event == WindowEvent::Focused(true)
            && !view.metadata.focused,
        view.steps(event).contains(WindowStep::TrySave) <==> event == WindowEvent::Focused(true)
            && !view.metadata.focused,
        view.steps(event).contains(WindowStep::ClearPopouts) <==> event is CloseRequested,
        view.steps(event).no_duplicates(),
        forall|i: int|
            0 < i < view.steps(event).len() ==> #[trigger] view.steps(event)[i]
                != WindowStep::StoreView,
        forall|i: int, j: int|
            0 <= i < view.steps(event).len() && 0 <= j < view.steps(event).len() && #[trigger] view.steps(
                event,
            )[i] == WindowStep::ClearBadge && #[trigger] view.steps(event)[j] == WindowStep::TrySave
                ==> i < j,
{
    let steps = view.steps(event);
    if event == WindowEvent::Focused(true) && !view.metadata.focused {
        assert(steps[0] == WindowStep::StoreView);
        assert(steps[1] == WindowStep::ClearBadge);
        assert(steps[2] == WindowStep::TrySave);
    } else if view.after(event) != view {
        assert(steps[0] == WindowStep::StoreView);
    } else if event is CloseRequested {
        assert(steps[0] == WindowStep::ClearPopouts);
    }
}

} // verus!
