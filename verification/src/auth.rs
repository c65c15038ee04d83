//! The pages that a user sees before the client itself: logging in and making an account.

use vstd::prelude::*;

use crate::platform::TargetOs;
use crate::window::LogicalSize;

verus! {

/// The pages of the login.
#[derive(Debug, PartialEq, Eq)]
pub enum AuthPages<I> {
    /// Unlocking an account that exists.
    Unlock,
    /// Making an account.
    CreateAccount,
    /// The user is logged in under this identity.
    Success(I),
}

/// What the login shows.
#[derive(Debug, PartialEq, Eq)]
pub enum AuthView<'a, I> {
    /// The client itself, for a user who is logged in.
    App(&'a I),
    /// The frame round the pages of the login.
    Wrapper,
}

/// A page inside the frame of the login.
#[derive(Clone, Copy, Debug, PartialEq, Eq, Structural)]
pub enum AuthLayout {
    Unlock,
    CreateAccount,
}

/// The frame round the pages of the login.
#[derive(Clone, Copy, Debug, PartialEq, Eq)]
pub struct AuthFrame {
    /// The id that styles the title bar.
    pub titlebar_id: &'static str,
    /// The page inside.
    pub layout: AuthLayout,
}

impl<I> AuthPages<I> {
    /// What the login shows for the page: only a user who is logged in gets to the
    /// client, under the identity that logged in.
    pub open spec fn view_of(&self) -> AuthView<'_, I> {
        match self {
            AuthPages::Success(identity) => AuthView::App(identity),
            _ => AuthView::Wrapper,
        }
    }

    /// The layout of the page inside the frame.
    pub open spec fn layout(&self) -> AuthLayout {
        if *self is Unlock {
            AuthLayout::Unlock
        } else {
            AuthLayout::CreateAccount
        }
    }

    /// The page has a layout inside the frame.
    pub open spec fn has_layout(&self) -> bool {
        self is Unlock || self is CreateAccount
    }
}

/// The id that styles the title bar of the login.
pub open spec fn login_titlebar(os: TargetOs) -> Seq<char> {
    if os == TargetOs::MacOs {
        ""@
    } else {
        "lockscreen-controls"@
    }
}

/// Decides between the client itself and the pages of the login.
pub fn auth_page_manager<I>(page: &AuthPages<I>) -> (res: AuthView<'_, I>)
    ensures
        res == page.view_of(),
{
    match page {
        AuthPages::Success(identity) => AuthView::App(identity),
        _ => AuthView::Wrapper,
    }
}

/// Lays out the pages of the login. There is no such page for a user who is logged in.
pub fn auth_wrapper<I>(page: &AuthPages<I>, os: TargetOs) -> (res: AuthFrame)
    requires
        page.has_layout(),
    ensures
        res.titlebar_id@ == if os == TargetOs::MacOs {
            ""@
        } else {
            "lockscreen-controls"@
        },
        res.layout == if *page is Unlock {
            AuthLayout::Unlock
        } else {
            AuthLayout::CreateAccount
        },
        res.titlebar_id@ == login_titlebar(os),
        res.layout == page.layout(),
{
    let titlebar_id: &'static str = if os == TargetOs::MacOs {
        ""
    } else {
        "lockscreen-controls"
    };
    let layout: AuthLayout = match page {
        AuthPages::Unlock => AuthLayout::Unlock,
        _ => AuthLayout::CreateAccount,
    };
    AuthFrame { titlebar_id, layout }
}

/// The size that the window takes while the user logs in.
pub fn bootstrap() -> (res: LogicalSize)
    ensures
        res == crate::window::login_window_size(),
{
    LogicalSize { width: 500, height: 350 }
}

/// The frame is laid out exactly for the pages that have a layout inside it.
pub proof fn frame_is_for_login_pages<I>(page: AuthPages<I>)
    ensures
        page.view_of() is Wrapper <==> page.has_layout(),
        page.view_of() is App <==> page is Success,
{
}

/// A user who is logged in gets to the client under the very identity that logged in, and
/// no one else gets there.
pub proof fn only_who_logged_in_gets_to_the_client<I>(page: AuthPages<I>, identity: I)
    ensures
        page.view_of() == AuthView::App(&identity) <==> page == AuthPages::Success(identity),
        page is Unlock || page is CreateAccount ==> page.view_of() is Wrapper,
        page.has_layout() <==> !(page is Success),
{
}

/// Each page of the login has a layout of its own.
pub proof fn login_pages_have_their_layouts<I>(page: AuthPages<I>)
    requires
        page.has_layout(),
    ensures
        page.layout() is Unlock <==> page is Unlock,
        page.layout() is CreateAccount <==> page is CreateAccount,
{
}

/// The title bar of the login is styled for the controls that the client draws, except on
/// macOS, where the system draws them.
pub proof fn titlebar_is_styled_off_mac(os: TargetOs, other: TargetOs)
    ensures
        login_titlebar(os).len() == 0 <==> os is MacOs,
        !(os is MacOs) ==> login_titlebar(os) == "lockscreen-controls"@,
        login_titlebar(os) == login_titlebar(other) <==> (os is MacOs <==> other is MacOs),
{
    reveal_strlit("");
    reveal_strlit("lockscreen-controls");
}

} // verus!
