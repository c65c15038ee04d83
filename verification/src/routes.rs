//! The pages of the client: their paths, the bar that leads from one to another, and
//! where a notification leads.

use uuid::Uuid;
use vstd::prelude::*;

use crate::text::decimal_text;
use crate::text::TextKey;

verus! {

/// The paths of the client's pages.
#[derive(Clone, Copy, Debug, PartialEq, Eq)]
pub struct UplinkRoutes<'a> {
    pub loading: &'a str,
    pub chat: &'a str,
    pub friends: &'a str,
    pub files: &'a str,
    pub settings: &'a str,
}

/// The paths, as they are.
pub open spec fn route_paths() -> UplinkRoutes<'static> {
    UplinkRoutes {
        loading: "/",
        chat: "/chat",
        friends: "/friends",
        files: "/files",
        settings: "/settings",
    }
}

/// The paths of the client's pages.
pub fn uplink_routes() -> (res: UplinkRoutes<'static>)
    ensures
        res == route_paths(),
{
    UplinkRoutes {
        loading: "/",
        chat: "/chat",
        friends: "/friends",
        files: "/files",
        settings: "/settings",
    }
}

/// No two pages share a path.
pub proof fn paths_are_distinct()
    ensures
        route_paths().loading@ != route_paths().chat@,
        route_paths().loading@ != route_paths().friends@,
        route_paths().loading@ != route_paths().files@,
        route_paths().loading@ != route_paths().settings@,
        route_paths().chat@ != route_paths().friends@,
        route_paths().chat@ != route_paths().files@,
        route_paths().chat@ != route_paths().settings@,
        route_paths().friends@ != route_paths().files@,
        route_paths().friends@ != route_paths().settings@,
        route_paths().files@ != route_paths().settings@,
{
    reveal_strlit("/");
    reveal_strlit("/chat");
    reveal_strlit("/friends");
    reveal_strlit("/files");
    reveal_strlit("/settings");
    assert(route_paths().loading@.len() == 1);
    assert(route_paths().chat@.len() == 5);
    assert(route_paths().friends@.len() == 8);
    assert(route_paths().files@.len() == 6);
}

/// The icons of the bar.
#[derive(Clone, Copy, Debug, PartialEq, Eq, Structural)]
pub enum RouteIcon {
    ChatBubbleBottomCenterText,
    Folder,
    Users,
    Cog6Tooth,
}

/// An entry of the bar.
#[derive(Clone, Debug, PartialEq, Eq)]
pub struct Route {
    pub to: &'static str,
    pub name: TextKey,
    pub icon: RouteIcon,
    pub with_badge: Option<String>,
    pub loading: Option<bool>,
}

/// An entry of the bar, by its views.
#[verifier::ext_equal]
pub ghost struct RouteModel {
    pub to: Seq<char>,
    pub name: TextKey,
    pub icon: RouteIcon,
    pub with_badge: Option<Seq<char>>,
    pub loading: Option<bool>,
}

/// What the bar's toolkit gives an entry that says nothing of its badge and of whether it
/// is loading.
#[derive(Debug, PartialEq, Eq)]
pub struct RouteDefaults {
    pub with_badge: Option<String>,
    pub loading: Option<bool>,
}

/// A badge, by its view.
pub open spec fn badge_view(badge: Option<String>) -> Option<Seq<char>> {
    match badge {
        Some(badge) => Some(badge@),
        None => None,
    }
}

impl View for Route {
    type V = RouteModel;

    open spec fn view(&self) -> RouteModel {
        RouteModel {
            to: self.to@,
            name: self.name,
            icon: self.icon,
            with_badge: badge_view(self.with_badge),
            loading: self.loading,
        }
    }
}

/// The entries of the bar, and the one that is open.
#[derive(Clone, Debug, PartialEq, Eq)]
pub struct RouteInfo {
    pub routes: Vec<Route>,
    pub active: Route,
}

/// The pages that the bar leads to.
#[derive(Clone, Copy, Debug, PartialEq, Eq, Structural)]
pub enum NavPage {
    Chat,
    Files,
    Friends,
    Settings,
}

/// The badge of the friends: how many ask to become one, if anyone does.
pub open spec fn friends_badge(incoming_requests: nat) -> Option<Seq<char>> {
    if incoming_requests > 0 {
        Some(crate::text::decimal(incoming_requests))
    } else {
        None
    }
}

impl NavPage {
    /// The entry of the bar that leads to the page.
    pub open spec fn entry(self, incoming_requests: nat, defaults: RouteDefaults) -> RouteModel {
        match self {
            NavPage::Chat => RouteModel {
                to: route_paths().chat@,
                name: TextKey::Chats,
                icon: RouteIcon::ChatBubbleBottomCenterText,
                with_badge: badge_view(defaults.with_badge),
                loading: defaults.loading,
            },
            NavPage::Files => RouteModel {
                to: route_paths().files@,
                name: TextKey::Files,
                icon: RouteIcon::Folder,
                with_badge: badge_view(defaults.with_badge),
                loading: defaults.loading,
            },
            NavPage::Friends => RouteModel {
                to: route_paths().friends@,
                name: TextKey::Friends,
                icon: RouteIcon::Users,
                with_badge: friends_badge(incoming_requests),
                loading: None,
            },
            NavPage::Settings => RouteModel {
                to: route_paths().settings@,
                name: TextKey::Settings,
                icon: RouteIcon::Cog6Tooth,
                with_badge: badge_view(defaults.with_badge),
                loading: defaults.loading,
            },
        }
    }
}

/// The pages that the bar leads to, in the order in which they stand in it.
pub open spec fn bar_pages() -> Seq<NavPage> {
    seq![NavPage::Chat, NavPage::Files, NavPage::Friends, NavPage::Settings]
}

/// The entries of the bar.
pub open spec fn bar(incoming_requests: nat, defaults: RouteDefaults) -> Seq<RouteModel> {
    bar_pages().map_values(|page: NavPage| page.entry(incoming_requests, defaults))
}

impl RouteInfo {
    /// The bar is complete, with the entry of `page` open.
    pub open spec fn shows(
        self,
        page: NavPage,
        incoming_requests: nat,
        defaults: RouteDefaults,
    ) -> bool {
        &&& self.routes@.map_values(|route: Route| route@) == bar(incoming_requests, defaults)
        &&& self.active@ == page.entry(incoming_requests, defaults)
    }
}

fn copy_badge(badge: &Option<String>) -> (res: Option<String>)
    ensures
        badge_view(res) == badge_view(*badge),
{
    match badge {
        Some(badge) => Some(badge.clone()),
        None => None,
    }
}

/// The entry of the bar that leads to `page`.
fn nav_route(page: NavPage, incoming_requests: usize, defaults: &RouteDefaults) -> (res: Route)
    ensures
        res@ == page.entry(incoming_requests as nat, *defaults),
{
    let paths: UplinkRoutes<'static> = uplink_routes();
    match page {
        NavPage::Chat => Route {
            to: paths.chat,
            name: TextKey::Chats,
            icon: RouteIcon::ChatBubbleBottomCenterText,
            with_badge: copy_badge(&defaults.with_badge),
            loading: defaults.loading,
        },
        NavPage::Files => Route {
            to: paths.files,
            name: TextKey::Files,
            icon: RouteIcon::Folder,
            with_badge: copy_badge(&defaults.with_badge),
            loading: defaults.loading,
        },
        NavPage::Friends => Route {
            to: paths.friends,
            name: TextKey::Friends,
            icon: RouteIcon::Users,
            with_badge: if incoming_requests > 0 {
                Some(decimal_text(incoming_requests as u64))
            } else {
                None
            },
            loading: None,
        },
        NavPage::Settings => Route {
            to: paths.settings,
            name: TextKey::Settings,
            icon: RouteIcon::Cog6Tooth,
            with_badge: copy_badge(&defaults.with_badge),
            loading: defaults.loading,
        },
    }
}

/// The bar, with the entry of `page` open.
fn route_info(page: NavPage, incoming_requests: usize, defaults: &RouteDefaults) -> (res: RouteInfo)
    ensures
        res.shows(page, incoming_requests as nat, *defaults),
{
    let routes: Vec<Route> = vec![
        nav_route(NavPage::Chat, incoming_requests, defaults),
        nav_route(NavPage::Files, incoming_requests, defaults),
        nav_route(NavPage::Friends, incoming_requests, defaults),
        nav_route(NavPage::Settings, incoming_requests, defaults),
    ];
    assert(routes@.map_values(|route: Route| route@) =~= bar(incoming_requests as nat, *defaults));
    RouteInfo { routes, active: nav_route(page, incoming_requests, defaults) }
}

/// The pages of the friends.
#[derive(Clone, Copy, Debug, PartialEq, Eq, Structural)]
pub enum FriendRoute {
    All,
    Pending,
}

/// What stands at a path.
#[derive(Debug, PartialEq, Eq)]
pub enum Page {
    /// That the client is loading.
    Loading,
    /// A page that the bar leads to, with the bar.
    Nav { page: NavPage, route_info: RouteInfo },
}

/// A path, and what stands there.
#[derive(Debug, PartialEq, Eq)]
pub struct RouterEntry {
    pub to: &'static str,
    pub page: Page,
}

impl RouterEntry {
    /// At the path of `page` stands that page, with its entry of the bar open.
    pub open spec fn serves(
        self,
        page: NavPage,
        incoming_requests: nat,
        defaults: RouteDefaults,
    ) -> bool {
        &&& self.to@ == page.entry(incoming_requests, defaults).to
        &&& self.page matches Page::Nav { page: served, route_info }
        &&& served == page
        &&& route_info.shows(page, incoming_requests, defaults)
    }
}

/// The pages of the client and what they start with.
#[derive(Debug, PartialEq, Eq)]
pub struct RouterPlan {
    pub entries: Vec<RouterEntry>,
    /// The page of the friends that is open at first.
    pub initial_friend_page: FriendRoute,
}

/// The page of the friends that is open at first.
pub open spec fn first_friend_page() -> FriendRoute {
    FriendRoute::All
}

/// `entries` are the pages of the client: the loading page first, then those that the bar
/// leads to.
pub open spec fn is_router(
    entries: Seq<RouterEntry>,
    incoming_requests: nat,
    defaults: RouteDefaults,
) -> bool {
    &&& entries.len() == 5
    &&& entries[0].to@ == route_paths().loading@
    &&& entries[0].page is Loading
    &&& entries[1].serves(NavPage::Chat, incoming_requests, defaults)
    &&& entries[2].serves(NavPage::Settings, incoming_requests, defaults)
    &&& entries[3].serves(NavPage::Friends, incoming_requests, defaults)
    &&& entries[4].serves(NavPage::Files, incoming_requests, defaults)
}

/// The pages of the client, where `incoming_requests` ask to become friends.
pub fn get_router(incoming_requests: usize, defaults: &RouteDefaults) -> (res: RouterPlan)
    ensures
        is_router(res.entries@, incoming_requests as nat, *defaults),
        res.initial_friend_page == FriendRoute::All,
        res.initial_friend_page == first_friend_page(),
{
    let paths: UplinkRoutes<'static> = uplink_routes();
    let entries: Vec<RouterEntry> = vec![
        RouterEntry { to: paths.loading, page: Page::Loading },
        RouterEntry {
            to: paths.chat,
            page: Page::Nav {
                page: NavPage::Chat,
                route_info: route_info(NavPage::Chat, incoming_requests, defaults),
            },
        },
        RouterEntry {
            to: paths.settings,
            page: Page::Nav {
                page: NavPage::Settings,
                route_info: route_info(NavPage::Settings, incoming_requests, defaults),
            },
        },
        RouterEntry {
            to: paths.friends,
            page: Page::Nav {
                page: NavPage::Friends,
                route_info: route_info(NavPage::Friends, incoming_requests, defaults),
            },
        },
        RouterEntry {
            to: paths.files,
            page: Page::Nav {
                page: NavPage::Files,
                route_info: route_info(NavPage::Files, incoming_requests, defaults),
            },
        },
    ];
    RouterPlan { entries, initial_friend_page: FriendRoute::All }
}

/// The open entry is one of the bar's entries.
pub proof fn active_entry_is_in_bar(page: NavPage, incoming_requests: nat, defaults: RouteDefaults)
    ensures
        bar(incoming_requests, defaults).contains(page.entry(incoming_requests, defaults)),
{
    let entries = bar(incoming_requests, defaults);
    let i: int = match page {
        NavPage::Chat => 0,
        NavPage::Files => 1,
        NavPage::Friends => 2,
        NavPage::Settings => 3,
    };
    assert(entries[i] == page.entry(incoming_requests, defaults));
}

/// Every entry of the bar leads to a page of the client.
pub proof fn bar_leads_to_pages(
    entries: Seq<RouterEntry>,
    incoming_requests: nat,
    defaults: RouteDefaults,
    page: NavPage,
)
    requires
        is_router(entries, incoming_requests, defaults),
    ensures
        exists|i: int|
            0 <= i < entries.len() && (#[trigger] entries[i]).serves(
                page,
                incoming_requests,
                defaults,
            ),
{
    let i: int = match page {
        NavPage::Chat => 1,
        NavPage::Settings => 2,
        NavPage::Friends => 3,
        NavPage::Files => 4,
    };
}

/// The friends have a badge exactly when someone asks to become one, and it reads how
/// many do.
pub proof fn badge_counts_requests(incoming_requests: nat, defaults: RouteDefaults)
    ensures
        NavPage::Friends.entry(incoming_requests, defaults).with_badge is Some <==> incoming_requests
            > 0,
        NavPage::Friends.entry(incoming_requests, defaults).with_badge matches Some(badge)
            ==> crate::text::decimal_value(badge) == incoming_requests,
{
    crate::text::decimal_reads_back(incoming_requests);
}

/// What a notification asks for when the user clicks on it.
#[derive(Clone, Copy, Debug, PartialEq, Eq)]
pub enum NotificationAction {
    /// Show this chat.
    DisplayChat(Uuid),
    /// Show who asks to become a friend.
    FriendListPending,
    /// Nothing.
    Dummy,
}

/// A step on the way to where a notification leads.
#[derive(Clone, Copy, Debug, PartialEq, Eq)]
pub enum NotificationStep {
    /// This chat is opened, without drawing anything anew.
    OpenChat {
        id: Uuid,
        /// Whether the chat moves to the front of the sidebar.
        move_to_front: bool,
    },
    /// This page of the friends is opened, without drawing anything anew.
    OpenFriendPage { page: FriendRoute },
    /// This path takes the place of the one now open.
    ReplaceRoute { to: &'static str },
}

impl NotificationAction {
    /// The steps to where the notification leads, in their order: what is shown on a page
    /// is chosen before the page changes.
    pub open spec fn steps(self) -> Seq<NotificationStep> {
        match self {
            NotificationAction::DisplayChat(id) => seq![
                NotificationStep::OpenChat { id, move_to_front: true },
                NotificationStep::ReplaceRoute { to: route_paths().chat },
            ],
            NotificationAction::FriendListPending => seq![
                NotificationStep::OpenFriendPage { page: FriendRoute::Pending },
                NotificationStep::ReplaceRoute { to: route_paths().friends },
            ],
            NotificationAction::Dummy => Seq::empty(),
        }
    }
}

/// Decides by which steps the program gets to where a notification leads.
pub fn notification_action_handler(action: NotificationAction) -> (res: Vec<NotificationStep>)
    ensures
        res@ == action.steps(),
{
    let paths: UplinkRoutes<'static> = uplink_routes();
    match action {
        NotificationAction::DisplayChat(id) => vec![
            NotificationStep::OpenChat { id, move_to_front: true },
            NotificationStep::ReplaceRoute { to: paths.chat },
        ],
        NotificationAction::FriendListPending => vec![
            NotificationStep::OpenFriendPage { page: FriendRoute::Pending },
            NotificationStep::ReplaceRoute { to: paths.friends },
        ],
        NotificationAction::Dummy => Vec::new(),
    }
}

/// A notification leads nowhere but to pages of the client, and only as its last step.
pub proof fn notifications_lead_to_pages(
    action: NotificationAction,
    entries: Seq<RouterEntry>,
    incoming_requests: nat,
    defaults: RouteDefaults,
    i: int,
)
    requires
        is_router(entries, incoming_requests, defaults),
        0 <= i < action.steps().len(),
        action.steps()[i] is ReplaceRoute,
    ensures
        i == action.steps().len() - 1,
        action.steps()[i] matches NotificationStep::ReplaceRoute { to } && exists|j: int|
            0 <= j < entries.len() && (#[trigger] entries[j]).to@ == to@ && entries[j].page is Nav,
{
    assert(entries[1].serves(NavPage::Chat, incoming_requests, defaults));
    assert(entries[3].serves(NavPage::Friends, incoming_requests, defaults));
}

/// Before a notification changes the page it chooses what the page shows: the chat on the
/// page of the chats, a page of the friends on theirs.
pub proof fn pages_are_prepared_before_they_open(action: NotificationAction, i: int)
    requires
        0 <= i < action.steps().len(),
        action.steps()[i] is ReplaceRoute,
    ensures
        0 < i,
        action.steps()[i] == (NotificationStep::ReplaceRoute { to: route_paths().chat })
            <==> action.steps()[i - 1] is OpenChat,
        action.steps()[i] == (NotificationStep::ReplaceRoute { to: route_paths().friends })
            <==> action.steps()[i - 1] is OpenFriendPage,
{
    paths_are_distinct();
}

/// The path of a page is its name after a slash.
pub open spec fn path_of(page: NavPage) -> Seq<char> {
    match page {
        NavPage::Chat => "/"@ + "chat"@,
        NavPage::Files => "/"@ + "files"@,
        NavPage::Friends => "/"@ + "friends"@,
        NavPage::Settings => "/"@ + "settings"@,
    }
}

proof fn lemma_paths(page: NavPage, incoming_requests: nat, defaults: RouteDefaults)
    ensures
        page.entry(incoming_requests, defaults).to == path_of(page),
        path_of(page).len() == match page {
            NavPage::Chat => 5int,
            NavPage::Files => 6,
            NavPage::Friends => 8,
            NavPage::Settings => 9,
        },
        route_paths().loading@.len() == 1,
{
    reveal_strlit("/");
    reveal_strlit("chat");
    reveal_strlit("files");
    reveal_strlit("friends");
    reveal_strlit("settings");
    reveal_strlit("/chat");
    reveal_strlit("/files");
    reveal_strlit("/friends");
    reveal_strlit("/settings");
    assert("/chat"@ =~= "/"@ + "chat"@);
    assert("/files"@ =~= "/"@ + "files"@);
    assert("/friends"@ =~= "/"@ + "friends"@);
    assert("/settings"@ =~= "/"@ + "settings"@);
}

/// The entry of a page leads to the path of that page, however many ask to become friends
/// and whatever the toolkit's defaults are; so entries of different pages lead to different
/// paths.
pub proof fn entry_leads_to_its_page(
    page: NavPage,
    other: NavPage,
    incoming_requests: nat,
    other_requests: nat,
    defaults: RouteDefaults,
    other_defaults: RouteDefaults,
)
    ensures
        page.entry(incoming_requests, defaults).to == path_of(page),
        page.entry(incoming_requests, defaults).to == other.entry(other_requests, other_defaults).to
            <==> page == other,
        page.entry(incoming_requests, defaults).to != route_paths().loading@,
{
    lemma_paths(page, incoming_requests, defaults);
    lemma_paths(other, other_requests, other_defaults);
}

/// An entry shows the name and the icon of its page, and no other page has either, however
/// many ask to become friends.
pub proof fn entry_shows_its_page(
    page: NavPage,
    other: NavPage,
    incoming_requests: nat,
    other_requests: nat,
    defaults: RouteDefaults,
    other_defaults: RouteDefaults,
)
    ensures
        page.entry(incoming_requests, defaults).name == other.entry(
            other_requests,
            other_defaults,
        ).name <==> page == other,
        page.entry(incoming_requests, defaults).icon == other.entry(
            other_requests,
            other_defaults,
        ).icon <==> page == other,
        page.entry(incoming_requests, defaults).name is Chats <==> page is Chat,
        page.entry(incoming_requests, defaults).name is Files <==> page is Files,
        page.entry(incoming_requests, defaults).name is Friends <==> page is Friends,
        page.entry(incoming_requests, defaults).name is Settings <==> page is Settings,
        page.entry(incoming_requests, defaults).icon is ChatBubbleBottomCenterText
            <==> page is Chat,
        page.entry(incoming_requests, defaults).icon is Folder <==> page is Files,
        page.entry(incoming_requests, defaults).icon is Users <==> page is Friends,
        page.entry(incoming_requests, defaults).icon is Cog6Tooth <==> page is Settings,
{
}

/// Only the entry of the friends has a say of its own in its badge, and is never loading;
/// the others have what the toolkit gives them, and do not change with the requests.
pub proof fn other_entries_keep_the_defaults(
    page: NavPage,
    incoming_requests: nat,
    other_requests: nat,
    defaults: RouteDefaults,
    other_defaults: RouteDefaults,
)
    ensures
        !(page is Friends) ==> page.entry(incoming_requests, defaults).loading == defaults.loading,
        !(page is Friends) ==> page.entry(incoming_requests, defaults).with_badge == badge_view(
            defaults.with_badge,
        ),
        !(page is Friends) ==> page.entry(incoming_requests, defaults) == page.entry(
            other_requests,
            defaults,
        ),
        page is Friends ==> page.entry(incoming_requests, defaults) == page.entry(
            incoming_requests,
            other_defaults,
        ),
        page is Friends ==> page.entry(incoming_requests, defaults).loading is None,
{
}

/// The badge of the friends reads the number of requests in plain digits, and changes with
/// every change of that number.
pub proof fn badge_tells_requests_apart(
    incoming_requests: nat,
    other_requests: nat,
    defaults: RouteDefaults,
)
    ensures
        NavPage::Friends.entry(incoming_requests, defaults).with_badge == NavPage::Friends.entry(
            other_requests,
            defaults,
        ).with_badge <==> incoming_requests == other_requests,
        NavPage::Friends.entry(incoming_requests, defaults).with_badge matches Some(badge)
            ==> badge.len() > 0 && badge[0] != '0' && forall|i: int|
            0 <= i < badge.len() ==> crate::text::is_digit(#[trigger] badge[i]),
{
    crate::text::decimal_is_unambiguous(incoming_requests, other_requests);
    crate::text::decimal_is_plain(incoming_requests);
}

/// The bar holds an entry for each of its four pages, each once and always in the same
/// order: the chats, the files, the friends, the settings.
pub proof fn bar_holds_every_page_once(incoming_requests: nat, defaults: RouteDefaults)
    ensures
        bar(incoming_requests, defaults).len() == 4,
        bar(incoming_requests, defaults)[0].to == path_of(NavPage::Chat),
        bar(incoming_requests, defaults)[1].to == path_of(NavPage::Files),
        bar(incoming_requests, defaults)[2].to == path_of(NavPage::Friends),
        bar(incoming_requests, defaults)[3].to == path_of(NavPage::Settings),
        forall|i: int, j: int|
            0 <= i < 4 && 0 <= j < 4 && (#[trigger] bar(incoming_requests, defaults)[i]).to == (
            #[trigger] bar(incoming_requests, defaults)[j]).to ==> i == j,
        forall|i: int|
            0 <= i < 4 && i != 2 ==> #[trigger] bar(incoming_requests, defaults)[i] == bar(
                0,
                defaults,
            )[i],
{
    lemma_paths(NavPage::Chat, incoming_requests, defaults);
    lemma_paths(NavPage::Files, incoming_requests, defaults);
    lemma_paths(NavPage::Friends, incoming_requests, defaults);
    lemma_paths(NavPage::Settings, incoming_requests, defaults);
    assert forall|i: int| 0 <= i < 4 && i != 2 implies #[trigger] bar(
        incoming_requests,
        defaults,
    )[i] == bar(0, defaults)[i] by {
        assert(bar_pages()[i].entry(incoming_requests, defaults) == bar_pages()[i].entry(
            0,
            defaults,
        ));
    }
}

/// No two of the client's pages stand at the same path: the loading page stands at "/", and
/// each of the others at the path that is its own.
pub proof fn every_page_stands_at_its_path(
    entries: Seq<RouterEntry>,
    incoming_requests: nat,
    defaults: RouteDefaults,
    i: int,
    j: int,
)
    requires
        is_router(entries, incoming_requests, defaults),
        0 <= i < entries.len(),
        0 <= j < entries.len(),
    ensures
        entries.len() == 5,
        entries[i].to@ == entries[j].to@ <==> i == j,
        entries[i].page is Loading <==> i == 0,
        entries[i].page is Loading <==> entries[i].to@ == "/"@,
        entries[i].page matches Page::Nav { page, .. } ==> entries[i].to@ == path_of(page),
{
    lemma_paths(NavPage::Chat, incoming_requests, defaults);
    lemma_paths(NavPage::Files, incoming_requests, defaults);
    lemma_paths(NavPage::Friends, incoming_requests, defaults);
    lemma_paths(NavPage::Settings, incoming_requests, defaults);
    reveal_strlit("/");
    assert(entries[1].serves(NavPage::Chat, incoming_requests, defaults));
    assert(entries[2].serves(NavPage::Settings, incoming_requests, defaults));
    assert(entries[3].serves(NavPage::Friends, incoming_requests, defaults));
    assert(entries[4].serves(NavPage::Files, incoming_requests, defaults));
}

/// Every page shows the same bar, of four entries, and has open in it the entry that leads
/// to where the page stands.
pub proof fn every_page_shows_the_same_bar(
    entries: Seq<RouterEntry>,
    incoming_requests: nat,
    defaults: RouteDefaults,
    i: int,
    j: int,
)
    requires
        is_router(entries, incoming_requests, defaults),
        0 < i < entries.len(),
        0 < j < entries.len(),
    ensures
        entries[i].page matches Page::Nav { page, route_info } && ({
            &&& route_info.active@.to == entries[i].to@
            &&& route_info.active@ == page.entry(incoming_requests, defaults)
            &&& route_info.routes@.len() == 4
            &&& entries[j].page matches Page::Nav { route_info: other, .. }
            &&& route_info.routes@.map_values(|route: Route| route@) == other.routes@.map_values(
                |route: Route| route@,
            )
        }),
{
    assert(entries[1].serves(NavPage::Chat, incoming_requests, defaults));
    assert(entries[2].serves(NavPage::Settings, incoming_requests, defaults));
    assert(entries[3].serves(NavPage::Friends, incoming_requests, defaults));
    assert(entries[4].serves(NavPage::Files, incoming_requests, defaults));
    match entries[i].page {
        Page::Nav { route_info, .. } => {
            assert(route_info.routes@.map_values(|route: Route| route@).len() == bar(
                incoming_requests,
                defaults,
            ).len());
        },
        _ => {},
    }
}

/// What stands in the bar as a page shows it, place by place.
pub proof fn shown_bar_leads_to_the_pages(
    shown: RouteInfo,
    page: NavPage,
    incoming_requests: nat,
    defaults: RouteDefaults,
)
    requires
        shown.shows(page, incoming_requests, defaults),
    ensures
        shown.routes@.len() == 4,
        shown.routes@[0].to@ == path_of(NavPage::Chat),
        shown.routes@[1].to@ == path_of(NavPage::Files),
        shown.routes@[2].to@ == path_of(NavPage::Friends),
        shown.routes@[3].to@ == path_of(NavPage::Settings),
        shown.active.to@ == path_of(page),
        exists|i: int| 0 <= i < 4 && #[trigger] shown.routes@[i]@ == shown.active@,
{
    let routes = shown.routes@.map_values(|route: Route| route@);
    bar_holds_every_page_once(incoming_requests, defaults);
    lemma_paths(page, incoming_requests, defaults);
    assert(routes == bar(incoming_requests, defaults));
    assert(routes.len() == shown.routes@.len());
    assert(shown.routes@[0]@ == routes[0]);
    assert(shown.routes@[1]@ == routes[1]);
    assert(shown.routes@[2]@ == routes[2]);
    assert(shown.routes@[3]@ == routes[3]);
    let i: int = match page {
        NavPage::Chat => 0,
        NavPage::Files => 1,
        NavPage::Friends => 2,
        NavPage::Settings => 3,
    };
    assert(routes[i] == page.entry(incoming_requests, defaults));
    assert(shown.routes@[i]@ == shown.active@);
}

/// At first the friends show all of them; those who ask to become one are shown only where
/// a notification leads there.
pub proof fn pending_friends_are_shown_on_demand(action: NotificationAction, i: int)
    ensures
        first_friend_page() is All,
        0 <= i < action.steps().len() ==> (action.steps()[i] is OpenFriendPage <==> i == 0
            && action is FriendListPending),
        0 <= i < action.steps().len() && action.steps()[i] is OpenFriendPage
            ==> action.steps()[i] == (NotificationStep::OpenFriendPage {
            page: FriendRoute::Pending,
        }),
{
}

/// A notification of a chat opens that very chat, at the front of the sidebar, and goes to
/// the chats; one of a request goes to the friends; and one that asks for nothing does
/// nothing.
pub proof fn notification_leads_where_it_says(action: NotificationAction, id: Uuid)
    ensures
        action == NotificationAction::DisplayChat(id) <==> action.steps().len() > 0
            && action.steps()[0] == (NotificationStep::OpenChat { id, move_to_front: true }),
        action is DisplayChat <==> action.steps().len() == 2 && (
        action.steps()[1] matches NotificationStep::ReplaceRoute { to } && to@ == path_of(
            NavPage::Chat,
        )),
        action is FriendListPending <==> action.steps().len() == 2 && (
        action.steps()[1] matches NotificationStep::ReplaceRoute { to } && to@ == path_of(
            NavPage::Friends,
        )),
        action is Dummy <==> action.steps().len() == 0,
{
    let defaults = RouteDefaults { with_badge: None, loading: None };
    lemma_paths(NavPage::Chat, 0, defaults);
    lemma_paths(NavPage::Friends, 0, defaults);
}

/// The view of an entry leaves nothing out: each part of it stands for the part of that name.
pub proof fn entry_view_is_complete(route: Route, badge: String)
    ensures
        route@.to == route.to@,
        route@.name == route.name,
        route@.icon == route.icon,
        route@.loading == route.loading,
        route@.with_badge is None <==> route.with_badge is None,
        route.with_badge == Some(badge) ==> route@.with_badge == Some(badge@),
        badge_view(Some(badge)) == Some(badge@),
        badge_view(None) is None,
{
}

} // verus!
