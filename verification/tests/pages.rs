use uplink::calls::{
    call_to_ask_about, get_call_dialog, on_answer_event, AnswerAction, AnswerEvent, CallDialogCmd,
    Participant,
};
use uplink::routes::{
    get_router, notification_action_handler, uplink_routes, FriendRoute, NavPage, NotificationAction,
    NotificationStep, Page, Route, RouteDefaults, RouteIcon, RouteInfo,
};
use uplink::text::TextKey;
use uplink::toasts::{get_toasts, Toast, ToastIcon, ToastNotification};
use uuid::Uuid;

fn participant(key: &str, profile: u8) -> Participant<u8> {
    Participant {
        did_key: key.to_string(),
        profile,
    }
}

#[test]
fn first_pending_call_is_asked_about() {
    assert_eq!(call_to_ask_about(false, &vec![7, 8]), Some(&7));
    assert_eq!(call_to_ask_about(true, &vec![7, 8]), None);
    assert_eq!(call_to_ask_about::<u8>(false, &vec![]), None);
}

#[test]
fn dialog_leaves_the_user_out() {
    let id = Uuid::from_u128(5);
    let identities = vec![
        participant("me", 1),
        participant("a", 2),
        participant("me", 3),
        participant("b", 4),
        participant("a", 5),
    ];
    let dialog = get_call_dialog(id, identities, &"me".to_string());
    assert_eq!(
        dialog.callers,
        vec![
            participant("a", 2),
            participant("b", 4),
            participant("a", 5)
        ]
    );
    assert_eq!(dialog.description, TextKey::IncomingCall);
    assert_eq!(dialog.accept, CallDialogCmd::Accept(id));
    assert_eq!(dialog.deny, CallDialogCmd::Reject(id));
    let alone = get_call_dialog(id, vec![participant("me", 1)], &"me".to_string());
    assert!(alone.callers.is_empty());
}

#[test]
fn accepted_call_is_shown_after_the_reply() {
    let id = Uuid::from_u128(5);
    let next = on_answer_event;
    assert_eq!(
        next(AnswerEvent::Answered(CallDialogCmd::Accept(id))),
        AnswerAction::SendAnswer { id }
    );
    assert_eq!(
        next(AnswerEvent::Sent {
            id,
            delivered: true
        }),
        AnswerAction::AwaitReply { id }
    );
    assert_eq!(
        next(AnswerEvent::Replied { id, received: true }),
        AnswerAction::ShowTaken { id }
    );
    assert_eq!(next(AnswerEvent::Done), AnswerAction::AwaitAnswer);
    assert_eq!(next(AnswerEvent::Closed), AnswerAction::Stop);
}

#[test]
fn failed_answers_are_given_up() {
    let id = Uuid::from_u128(5);
    assert_eq!(
        on_answer_event(AnswerEvent::Sent {
            id,
            delivered: false
        }),
        AnswerAction::AwaitAnswer
    );
    assert_eq!(
        on_answer_event(AnswerEvent::Replied {
            id,
            received: false
        }),
        AnswerAction::AwaitAnswer
    );
}

#[test]
fn refused_call_is_dropped() {
    let id = Uuid::from_u128(6);
    assert_eq!(
        on_answer_event(AnswerEvent::Answered(CallDialogCmd::Reject(id))),
        AnswerAction::DropCall { id }
    );
}

#[test]
fn pages_have_their_paths() {
    let routes = uplink_routes();
    assert_eq!(routes.loading, "/");
    assert_eq!(routes.chat, "/chat");
    assert_eq!(routes.friends, "/friends");
    assert_eq!(routes.files, "/files");
    assert_eq!(routes.settings, "/settings");
}

fn route(to: &'static str, name: TextKey, icon: RouteIcon) -> Route {
    Route {
        to,
        name,
        icon,
        with_badge: None,
        loading: None,
    }
}

#[test]
fn router_serves_every_page_with_the_bar() {
    let defaults = RouteDefaults {
        with_badge: None,
        loading: None,
    };
    let plan = get_router(12, &defaults);
    let chat = route(
        "/chat",
        TextKey::Chats,
        RouteIcon::ChatBubbleBottomCenterText,
    );
    let files = route("/files", TextKey::Files, RouteIcon::Folder);
    let friends = Route {
        with_badge: Some("12".to_string()),
        ..route("/friends", TextKey::Friends, RouteIcon::Users)
    };
    let settings = route("/settings", TextKey::Settings, RouteIcon::Cog6Tooth);
    let bar = vec![
        chat.clone(),
        files.clone(),
        friends.clone(),
        settings.clone(),
    ];
    let paths: Vec<&str> = plan.entries.iter().map(|e| e.to).collect();
    assert_eq!(paths, vec!["/", "/chat", "/settings", "/friends", "/files"]);
    assert_eq!(plan.entries[0].page, Page::Loading);
    let pages = [
        (1, NavPage::Chat, chat),
        (2, NavPage::Settings, settings),
        (3, NavPage::Friends, friends),
        (4, NavPage::Files, files),
    ];
    for (i, page, active) in pages {
        assert_eq!(
            plan.entries[i].page,
            Page::Nav {
                page,
                route_info: RouteInfo {
                    routes: bar.clone(),
                    active
                }
            }
        );
    }
    assert_eq!(plan.initial_friend_page, FriendRoute::All);
}

#[test]
fn badge_comes_with_requests_only() {
    let defaults = RouteDefaults {
        with_badge: Some("d".to_string()),
        loading: Some(true),
    };
    let plan = get_router(0, &defaults);
    for entry in plan.entries {
        if let Page::Nav { route_info, .. } = entry.page {
            assert_eq!(route_info.routes[2].with_badge, None);
            assert_eq!(route_info.routes[2].loading, None);
            for i in [0, 1, 3] {
                assert_eq!(route_info.routes[i].with_badge, Some("d".to_string()));
                assert_eq!(route_info.routes[i].loading, Some(true));
            }
        }
    }
}

#[test]
fn notifications_prepare_their_pages_first() {
    let id = Uuid::from_u128(9);
    assert_eq!(
        notification_action_handler(NotificationAction::DisplayChat(id)),
        vec![
            NotificationStep::OpenChat {
                id,
                move_to_front: true
            },
            NotificationStep::ReplaceRoute { to: "/chat" }
        ]
    );
    assert_eq!(
        notification_action_handler(NotificationAction::FriendListPending),
        vec![
            NotificationStep::OpenFriendPage {
                page: FriendRoute::Pending
            },
            NotificationStep::ReplaceRoute { to: "/friends" }
        ]
    );
    assert_eq!(
        notification_action_handler(NotificationAction::Dummy),
        vec![]
    );
}

#[test]
fn toasts_show_their_notifications() {
    let notifications = vec![
        (
            Uuid::from_u128(1),
            ToastNotification {
                title: "hello".to_string(),
                content: "world".to_string(),
                icon: Some('x'),
            },
        ),
        (
            Uuid::from_u128(2),
            ToastNotification {
                title: "t".to_string(),
                content: "c".to_string(),
                icon: None,
            },
        ),
    ];
    assert_eq!(
        get_toasts(&notifications),
        vec![
            Toast {
                id: Uuid::from_u128(1),
                with_title: "hello".to_string(),
                with_content: "world".to_string(),
                icon: ToastIcon::Own('x')
            },
            Toast {
                id: Uuid::from_u128(2),
                with_title: "t".to_string(),
                with_content: "c".to_string(),
                icon: ToastIcon::InformationCircle
            }
        ]
    );
    assert!(get_toasts::<char>(&vec![]).is_empty());
}
