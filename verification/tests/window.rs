use uplink::auth::{auth_page_manager, auth_wrapper, bootstrap, AuthLayout, AuthPages, AuthView};
use uplink::platform::TargetOs;
use uplink::session::{
    app_bootstrap, LoginFacts, WindowEvent, WindowMeta, WindowStep, WindowView,
};
use uplink::text::TextKey;
use uplink::window::{get_window_builder, LogicalSize, MacChrome, MenuItem};

const ALL: [TargetOs; 4] = [
    TargetOs::MacOs,
    TargetOs::Windows,
    TargetOs::Linux,
    TargetOs::Other,
];

#[test]
fn mac_window_has_a_menu_and_no_title() {
    let plan = get_window_builder(true, true, TargetOs::MacOs);
    assert_eq!(plan.title, None);
    assert!(plan.resizable && plan.transparent);
    assert_eq!(
        plan.min_inner_size,
        LogicalSize {
            width: 300,
            height: 350
        }
    );
    assert_eq!(
        plan.inner_size,
        Some(LogicalSize {
            width: 950,
            height: 600
        })
    );
    assert_eq!(plan.decorations, None);
    assert_eq!(
        plan.mac_chrome,
        Some(MacChrome {
            has_shadow: true,
            fullsize_content_view: true,
            titlebar_transparent: true
        })
    );
    let menu = plan.menu.unwrap();
    let titles: Vec<&str> = menu.iter().map(|m| m.title).collect();
    assert_eq!(titles, vec!["Uplink", "Edit", "Window"]);
    assert!(menu.iter().all(|m| m.enabled));
    assert_eq!(
        menu[0].items,
        vec![
            MenuItem::About {
                application: "Uplink"
            },
            MenuItem::Quit
        ]
    );
    assert_eq!(
        menu[1].items,
        vec![
            MenuItem::Undo,
            MenuItem::Redo,
            MenuItem::Separator,
            MenuItem::Cut,
            MenuItem::Copy,
            MenuItem::Paste,
            MenuItem::SelectAll
        ]
    );
    assert_eq!(
        menu[2].items,
        vec![
            MenuItem::Minimize,
            MenuItem::Zoom,
            MenuItem::Separator,
            MenuItem::ShowAll,
            MenuItem::EnterFullScreen,
            MenuItem::Separator,
            MenuItem::CloseWindow
        ]
    );
}

#[test]
fn menu_is_left_out_on_request() {
    assert!(get_window_builder(true, false, TargetOs::MacOs).menu.is_none());
}

#[test]
fn other_windows_have_a_title_and_no_frame() {
    for os in [TargetOs::Windows, TargetOs::Linux, TargetOs::Other] {
        let plan = get_window_builder(false, true, os);
        assert_eq!(plan.title, Some(TextKey::Uplink));
        assert!(plan.menu.is_none());
        assert_eq!(plan.inner_size, None);
        assert_eq!(plan.decorations, Some(false));
        assert_eq!(plan.mac_chrome, None);
        assert!(plan.transparent);
    }
}

#[test]
fn login_window_is_small() {
    assert_eq!(
        bootstrap(),
        LogicalSize {
            width: 500,
            height: 350
        }
    );
}

#[test]
fn only_a_login_leads_to_the_client() {
    assert_eq!(
        auth_page_manager(&AuthPages::Success("did:key:me")),
        AuthView::App(&"did:key:me")
    );
    assert_eq!(
        auth_page_manager(&AuthPages::<u8>::Unlock),
        AuthView::Wrapper
    );
    assert_eq!(
        auth_page_manager(&AuthPages::<u8>::CreateAccount),
        AuthView::Wrapper
    );
}

#[test]
fn login_pages_have_a_frame() {
    for os in ALL {
        let unlock = auth_wrapper(&AuthPages::<u8>::Unlock, os);
        let create = auth_wrapper(&AuthPages::<u8>::CreateAccount, os);
        assert_eq!(unlock.layout, AuthLayout::Unlock);
        assert_eq!(create.layout, AuthLayout::CreateAccount);
        let id = if os == TargetOs::MacOs {
            ""
        } else {
            "lockscreen-controls"
        };
        assert_eq!(unlock.titlebar_id, id);
        assert_eq!(create.titlebar_id, id);
    }
}

fn facts() -> LoginFacts {
    LoginFacts {
        use_mock: false,
        initialized: false,
        enable_overlay: true,
        os: TargetOs::Linux,
        focused: true,
        maximized: false,
        minimized: true,
        width: 1199,
    }
}

#[test]
fn client_starts_with_the_identity() {
    let start = app_bootstrap("me", facts());
    assert_eq!(start.own_identity, Some("me"));
    assert!(start.open_overlay);
    assert_eq!(
        start.metadata,
        WindowMeta {
            focused: true,
            maximized: false,
            minimized: true,
            minimal_view: true
        }
    );
    let wide = app_bootstrap(
        "me",
        LoginFacts {
            width: 1200,
            ..facts()
        },
    );
    assert!(!wide.metadata.minimal_view);
}

#[test]
fn mock_data_keeps_its_identity() {
    let start = app_bootstrap(
        "me",
        LoginFacts {
            use_mock: true,
            initialized: true,
            ..facts()
        },
    );
    assert_eq!(start.own_identity, None);
}

#[test]
fn overlay_opens_where_it_works() {
    for os in ALL {
        let start = app_bootstrap("me", LoginFacts { os, ..facts() });
        assert_eq!(start.open_overlay, os != TargetOs::Windows);
        let start = app_bootstrap(
            "me",
            LoginFacts {
                os,
                enable_overlay: false,
                ..facts()
            },
        );
        assert!(!start.open_overlay);
    }
}

fn view() -> WindowView {
    WindowView {
        metadata: WindowMeta {
            focused: false,
            maximized: true,
            minimized: false,
            minimal_view: false,
        },
        sidebar_hidden: false,
    }
}

#[test]
fn focus_clears_the_badge_then_saves() {
    let mut window = view();
    assert_eq!(
        window.on_event(WindowEvent::Focused(true)),
        vec![
            WindowStep::StoreView,
            WindowStep::ClearBadge,
            WindowStep::TrySave
        ]
    );
    assert!(window.metadata.focused && window.metadata.maximized);
    assert_eq!(window.on_event(WindowEvent::Focused(true)), vec![]);
    assert_eq!(
        window.on_event(WindowEvent::Focused(false)),
        vec![WindowStep::StoreView]
    );
    assert_eq!(window, view());
    assert_eq!(window.on_event(WindowEvent::Focused(false)), vec![]);
}

#[test]
fn resize_decides_the_layout() {
    let mut window = view();
    assert_eq!(window.on_event(WindowEvent::Resized { width: 600 }), vec![]);
    assert_eq!(window, view());
    assert_eq!(
        window.on_event(WindowEvent::Resized { width: 599 }),
        vec![WindowStep::StoreView]
    );
    assert!(window.sidebar_hidden && window.metadata.minimal_view);
    assert_eq!(window.on_event(WindowEvent::Resized { width: 10 }), vec![]);
    assert_eq!(
        window.on_event(WindowEvent::Resized { width: 600 }),
        vec![WindowStep::StoreView]
    );
    assert_eq!(window, view());
}

#[test]
fn unchanged_layout_leaves_the_sidebar_alone() {
    let mut window = WindowView {
        sidebar_hidden: true,
        ..view()
    };
    assert_eq!(window.on_event(WindowEvent::Resized { width: 900 }), vec![]);
    assert!(window.sidebar_hidden);
}

#[test]
fn first_size_report_after_the_start() {
    for (width, changes) in [(599, false), (600, true), (1199, true), (1200, false)] {
        let start = app_bootstrap("me", LoginFacts { width, ..facts() });
        let mut window = WindowView {
            metadata: start.metadata,
            sidebar_hidden: false,
        };
        let steps = window.on_event(WindowEvent::Resized { width });
        assert_eq!(!steps.is_empty(), changes);
    }
}

#[test]
fn closing_clears_the_popouts() {
    let mut window = view();
    assert_eq!(
        window.on_event(WindowEvent::CloseRequested),
        vec![WindowStep::ClearPopouts]
    );
    assert_eq!(window.on_event(WindowEvent::Other), vec![]);
    assert_eq!(window, view());
}
