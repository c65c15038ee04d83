//! The main window and its menu, as the client asks the toolkit for them.

use vstd::prelude::*;

use crate::platform::TargetOs;
use crate::text::TextKey;

verus! {

/// A size in logical pixels.
#[derive(Clone, Copy, Debug, PartialEq, Eq, Structural)]
pub struct LogicalSize {
    pub width: u32,
    pub height: u32,
}

impl LogicalSize {
    /// The size is at least `other`, both ways.
    pub open spec fn covers(self, other: LogicalSize) -> bool {
        self.width >= other.width && self.height >= other.height
    }
}

/// The smallest size that the window can be given.
pub open spec fn min_window_size() -> LogicalSize {
    LogicalSize { width: 300, height: 350 }
}

/// The size of the window in use.
pub open spec fn usual_window_size() -> LogicalSize {
    LogicalSize { width: 950, height: 600 }
}

/// The size of the window while the user logs in.
pub open spec fn login_window_size() -> LogicalSize {
    LogicalSize { width: 500, height: 350 }
}

/// No size that the client gives its window is below the smallest one.
pub proof fn sizes_keep_to_minimum()
    ensures
        usual_window_size().covers(min_window_size()),
        login_window_size().covers(min_window_size()),
{
}

/// An item of a menu that the system provides, with its shortcut.
#[derive(Clone, Copy, Debug, PartialEq, Eq)]
pub enum MenuItem {
    About { application: &'static str },
    Quit,
    Undo,
    Redo,
    Separator,
    Cut,
    Copy,
    Paste,
    SelectAll,
    Minimize,
    Zoom,
    ShowAll,
    EnterFullScreen,
    CloseWindow,
}

/// A menu in the menu bar.
#[derive(Debug, PartialEq, Eq)]
pub struct Submenu {
    pub title: &'static str,
    pub enabled: bool,
    pub items: Vec<MenuItem>,
}

impl Submenu {
    /// The menu has this title and these items, and can be opened.
    pub open spec fn offers(self, title: Seq<char>, items: Seq<MenuItem>) -> bool {
        &&& self.title@ == title
        &&& self.enabled
        &&& self.items@ == items
    }
}

/// The items of the application's own menu.
pub open spec fn app_menu_items() -> Seq<MenuItem> {
    seq![MenuItem::About { application: "Uplink" }, MenuItem::Quit]
}

/// The items of the menu that edits text.
pub open spec fn edit_menu_items() -> Seq<MenuItem> {
    seq![
        MenuItem::Undo,
        MenuItem::Redo,
        MenuItem::Separator,
        MenuItem::Cut,
        MenuItem::Copy,
        MenuItem::Paste,
        MenuItem::SelectAll,
    ]
}

/// The items of the menu that places the window.
pub open spec fn window_menu_items() -> Seq<MenuItem> {
    seq![
        MenuItem::Minimize,
        MenuItem::Zoom,
        MenuItem::Separator,
        MenuItem::ShowAll,
        MenuItem::EnterFullScreen,
        MenuItem::Separator,
        MenuItem::CloseWindow,
    ]
}

/// `menu` is the menu bar of the client.
pub open spec fn is_main_menu(menu: Seq<Submenu>) -> bool {
    &&& menu.len() == 3
    &&& menu[0].offers("Uplink"@, app_menu_items())
    &&& menu[1].offers("Edit"@, edit_menu_items())
    &&& menu[2].offers("Window"@, window_menu_items())
}

/// How a macOS window is drawn.
#[derive(Clone, Copy, Debug, PartialEq, Eq, Structural)]
pub struct MacChrome {
    pub has_shadow: bool,
    pub fullsize_content_view: bool,
    pub titlebar_transparent: bool,
}

/// A window as the client asks for it. What stands at `None` is left to the toolkit.
#[derive(Debug, PartialEq, Eq)]
pub struct WindowPlan {
    /// The text in the title bar; `None` for no text at all.
    pub title: Option<TextKey>,
    pub resizable: bool,
    pub min_inner_size: LogicalSize,
    pub inner_size: Option<LogicalSize>,
    pub menu: Option<Vec<Submenu>>,
    pub transparent: bool,
    /// Whether the system draws a frame.
    pub decorations: Option<bool>,
    /// How the window is drawn on macOS.
    pub mac_chrome: Option<MacChrome>,
}

/// A menu, by its views.
#[verifier::ext_equal]
pub ghost struct SubmenuModel {
    pub title: Seq<char>,
    pub enabled: bool,
    pub items: Seq<MenuItem>,
}

impl View for Submenu {
    type V = SubmenuModel;

    open spec fn view(&self) -> SubmenuModel {
        SubmenuModel { title: self.title@, enabled: self.enabled, items: self.items@ }
    }
}

/// A window as the client asks for it, by its views.
#[verifier::ext_equal]
pub ghost struct WindowModel {
    pub title: Option<TextKey>,
    pub resizable: bool,
    pub min_inner_size: LogicalSize,
    pub inner_size: Option<LogicalSize>,
    pub menu: Option<Seq<SubmenuModel>>,
    pub transparent: bool,
    pub decorations: Option<bool>,
    pub mac_chrome: Option<MacChrome>,
}

impl View for WindowPlan {
    type V = WindowModel;

    open spec fn view(&self) -> WindowModel {
        WindowModel {
            title: self.title,
            resizable: self.resizable,
            min_inner_size: self.min_inner_size,
            inner_size: self.inner_size,
            menu: match self.menu {
                Some(menu) => Some(menu@.map_values(|submenu: Submenu| submenu@)),
                None => None,
            },
            transparent: self.transparent,
            decorations: self.decorations,
            mac_chrome: self.mac_chrome,
        }
    }
}

/// The menu bar of the client, by its views.
pub open spec fn menu_bar() -> Seq<SubmenuModel> {
    seq![
        SubmenuModel { title: "Uplink"@, enabled: true, items: app_menu_items() },
        SubmenuModel { title: "Edit"@, enabled: true, items: edit_menu_items() },
        SubmenuModel { title: "Window"@, enabled: true, items: window_menu_items() },
    ]
}

/// The window that the client opens on `os`.
pub open spec fn window_plan(with_predefined_size: bool, with_menu: bool, os: TargetOs) -> WindowModel {
    let plain = WindowModel {
        title: Some(TextKey::Uplink),
        resizable: true,
        min_inner_size: min_window_size(),
        inner_size: if with_predefined_size {
            Some(usual_window_size())
        } else {
            None
        },
        menu: None,
        transparent: true,
        decorations: Some(false),
        mac_chrome: None,
    };
    if os == TargetOs::MacOs {
        WindowModel {
            title: None,
            menu: if with_menu {
                Some(menu_bar())
            } else {
                None
            },
            decorations: None,
            mac_chrome: Some(
                MacChrome {
                    has_shadow: true,
                    fullsize_content_view: true,
                    titlebar_transparent: true,
                },
            ),
            ..plain
        }
    } else {
        plain
    }
}

/// The menu bar of the client.
fn main_menu() -> (res: Vec<Submenu>)
    ensures
        is_main_menu(res@),
{
    let app_items: Vec<MenuItem> = vec![MenuItem::About { application: "Uplink" }, MenuItem::Quit];
    let edit_items: Vec<MenuItem> = vec![
        MenuItem::Undo,
        MenuItem::Redo,
        MenuItem::Separator,
        MenuItem::Cut,
        MenuItem::Copy,
        MenuItem::Paste,
        MenuItem::SelectAll,
    ];
    let window_items: Vec<MenuItem> = vec![
        MenuItem::Minimize,
        MenuItem::Zoom,
        MenuItem::Separator,
        MenuItem::ShowAll,
        MenuItem::EnterFullScreen,
        MenuItem::Separator,
        MenuItem::CloseWindow,
    ];
    vec![
        Submenu { title: "Uplink", enabled: true, items: app_items },
        Submenu { title: "Edit", enabled: true, items: edit_items },
        Submenu { title: "Window", enabled: true, items: window_items },
    ]
}

/// The window that the client opens on `os`.
///
/// The smallest size is well below the usual one, because the pages of the login can be
/// shown much smaller. Only macOS has a menu bar; its keyboard shortcuts need the items
/// that the system provides.
pub fn get_window_builder(with_predefined_size: bool, with_menu: bool, os: TargetOs) -> (res:
    WindowPlan)
    ensures
        res.title == if os == TargetOs::MacOs {
            None
        } else {
            Some(TextKey::Uplink)
        },
        res.resizable,
        res.min_inner_size == min_window_size(),
        res.inner_size == if with_predefined_size {
            Some(usual_window_size())
        } else {
            None
        },
        res.menu is Some <==> with_menu && os == TargetOs::MacOs,
        res.menu matches Some(menu) ==> is_main_menu(menu@),
        res.transparent,
        res.decorations == if os == TargetOs::MacOs {
            None
        } else {
            Some(false)
        },
        res.mac_chrome == if os == TargetOs::MacOs {
            Some(
                MacChrome {
                    has_shadow: true,
                    fullsize_content_view: true,
                    titlebar_transparent: true,
                },
            )
        } else {
            None
        },
        res@ == window_plan(with_predefined_size, with_menu, os),
{
    let mut plan: WindowPlan = WindowPlan {
        title: Some(TextKey::Uplink),
        resizable: true,
        min_inner_size: LogicalSize { width: 300, height: 350 },
        inner_size: None,
        menu: None,
        transparent: false,
        decorations: None,
        mac_chrome: None,
    };
    if with_predefined_size {
        plan.inner_size = Some(LogicalSize { width: 950, height: 600 });
    }
    if os == TargetOs::MacOs {
        if with_menu {
            plan.menu = Some(main_menu());
        }
        plan.title = None;
        plan.mac_chrome = Some(
            MacChrome {
                has_shadow: true,
                fullsize_content_view: true,
                titlebar_transparent: true,
            },
        );
    } else {
        plan.decorations = Some(false);
    }
    plan.transparent = true;
    proof {
        if plan.menu is Some {
            assert(plan.menu->0@.map_values(|submenu: Submenu| submenu@) =~= menu_bar());
        }
    }
    plan
}

/// The size that a window is given has a say in its first size alone: the usual size where
/// one is asked for, the toolkit's otherwise.
pub proof fn size_is_given_on_demand(with_menu: bool, os: TargetOs)
    ensures
        window_plan(true, with_menu, os).inner_size == Some(usual_window_size()),
        window_plan(false, with_menu, os).inner_size is None,
        window_plan(true, with_menu, os) == (WindowModel {
            inner_size: Some(usual_window_size()),
            ..window_plan(false, with_menu, os)
        }),
{
}

/// A menu bar is there exactly where one is asked for on macOS, and asking for it changes
/// nothing else.
pub proof fn menu_is_for_mac(with_predefined_size: bool, with_menu: bool, os: TargetOs)
    ensures
        window_plan(with_predefined_size, with_menu, os).menu is Some <==> with_menu && os is MacOs,
        window_plan(with_predefined_size, with_menu, os).menu matches Some(menu) ==> menu
            == menu_bar(),
        (WindowModel { menu: None, ..window_plan(with_predefined_size, with_menu, os) }) == (
        WindowModel { menu: None, ..window_plan(with_predefined_size, !with_menu, os) }),
        !(os is MacOs) ==> window_plan(with_predefined_size, with_menu, os) == window_plan(
            with_predefined_size,
            !with_menu,
            os,
        ),
{
}

/// The client draws its own frame: on macOS the system's is there, but transparent and
/// without a title; elsewhere there is none, and the title is the client's name. All
/// systems but macOS have the same window.
pub proof fn client_draws_its_own_frame(
    with_predefined_size: bool,
    with_menu: bool,
    os: TargetOs,
    other: TargetOs,
)
    ensures
        ({
            let window = window_plan(with_predefined_size, with_menu, os);
            &&& window.title is None <==> os is MacOs
            &&& window.mac_chrome is Some <==> os is MacOs
            &&& window.decorations is None <==> os is MacOs
            &&& window.title matches Some(title) ==> title.key() == "uplink"@
            &&& window.decorations matches Some(decorations) ==> !decorations
            &&& window.mac_chrome matches Some(chrome) ==> chrome.has_shadow
                && chrome.fullsize_content_view && chrome.titlebar_transparent
        }),
        !(os is MacOs) && !(other is MacOs) ==> window_plan(with_predefined_size, with_menu, os)
            == window_plan(with_predefined_size, with_menu, other),
{
}

/// On every system the window can be resized, shows what is behind it where the client
/// draws nothing, and has the same smallest size, which its first size is not below.
pub proof fn every_window_can_be_resized(
    with_predefined_size: bool,
    with_menu: bool,
    os: TargetOs,
)
    ensures
        ({
            let window = window_plan(with_predefined_size, with_menu, os);
            &&& window.resizable
            &&& window.transparent
            &&& window.min_inner_size.width == 300 && window.min_inner_size.height == 350
            &&& login_window_size().covers(window.min_inner_size)
            &&& window.inner_size matches Some(size) ==> size.width == 950 && size.height == 600
                && size.covers(window.min_inner_size)
        }),
{
}

/// The window is smaller while the user logs in, and then as low as it can be.
pub proof fn login_window_is_smaller()
    ensures
        usual_window_size().covers(login_window_size()),
        usual_window_size().width > login_window_size().width,
        usual_window_size().height > login_window_size().height,
        login_window_size().height == min_window_size().height,
        login_window_size().width == 500,
{
}

/// The menu bar has three menus, all of which can be opened: the client's own, from which
/// it is left; the one that edits text; and the one that places the window.
pub proof fn menus_can_be_opened(i: int, j: int)
    requires
        0 <= i < menu_bar().len(),
        0 <= j < menu_bar().len(),
    ensures
        menu_bar().len() == 3,
        menu_bar()[i].enabled,
        menu_bar()[i].items.len() > 0,
        menu_bar()[i].title == menu_bar()[j].title <==> i == j,
        menu_bar()[0].title == "Uplink"@,
        menu_bar()[1].title == "Edit"@,
        menu_bar()[2].title == "Window"@,
        menu_bar()[i].items.contains(MenuItem::Quit) <==> i == 0,
        menu_bar()[i].items.contains(MenuItem::Copy) <==> i == 1,
        menu_bar()[i].items.contains(MenuItem::CloseWindow) <==> i == 2,
{
    reveal_strlit("Uplink");
    reveal_strlit("Edit");
    reveal_strlit("Window");
    assert("Uplink"@[0] == 'U' && "Edit"@[0] == 'E' && "Window"@[0] == 'W');
    assert(app_menu_items()[1] == MenuItem::Quit);
    assert(edit_menu_items()[4] == MenuItem::Copy);
    assert(window_menu_items()[6] == MenuItem::CloseWindow);
}

/// What the menus offer, each item once and none in two menus: about the client and leaving
/// it; undoing and redoing, then what goes by the clipboard; sizing the window, then seeing
/// all of them, then closing this one. Separators stand only between other items.
pub proof fn menus_offer_each_item_once(item: MenuItem)
    ensures
        app_menu_items().len() == 2,
        app_menu_items().contains(item) <==> item == (MenuItem::About { application: "Uplink" })
            || item is Quit,
        edit_menu_items().len() == 7,
        edit_menu_items().contains(item) <==> item is Undo || item is Redo || item is Separator
            || item is Cut || item is Copy || item is Paste || item is SelectAll,
        edit_menu_items()[2] is Separator,
        edit_menu_items().no_duplicates(),
        window_menu_items().len() == 7,
        window_menu_items().contains(item) <==> item is Minimize || item is Zoom
            || item is Separator || item is ShowAll || item is EnterFullScreen
            || item is CloseWindow,
        window_menu_items()[2] is Separator && window_menu_items()[5] is Separator,
{
    assert(app_menu_items()[0] == (MenuItem::About { application: "Uplink" }));
    assert(app_menu_items()[1] is Quit);
    let edit = edit_menu_items();
    assert(edit[0] is Undo && edit[1] is Redo && edit[2] is Separator && edit[3] is Cut
        && edit[4] is Copy && edit[5] is Paste && edit[6] is SelectAll);
    let window = window_menu_items();
    assert(window[0] is Minimize && window[1] is Zoom && window[2] is Separator
        && window[3] is ShowAll && window[4] is EnterFullScreen && window[6] is CloseWindow);
}

/// The view of a window leaves nothing out: each part of it stands for the part of that name,
/// and each menu for the menu in its place.
pub proof fn window_view_is_complete(plan: WindowPlan, i: int)
    ensures
        plan@.title == plan.title,
        plan@.resizable == plan.resizable,
        plan@.min_inner_size == plan.min_inner_size,
        plan@.inner_size == plan.inner_size,
        plan@.transparent == plan.transparent,
        plan@.decorations == plan.decorations,
        plan@.mac_chrome == plan.mac_chrome,
        plan@.menu is Some <==> plan.menu is Some,
        plan.menu matches Some(menu) ==> plan@.menu->0.len() == menu@.len() && (0 <= i
            < menu@.len() ==> {
            &&& plan@.menu->0[i].title == menu@[i].title@
            &&& plan@.menu->0[i].enabled == menu@[i].enabled
            &&& plan@.menu->0[i].items == menu@[i].items@
        }),
{
}

} // verus!
