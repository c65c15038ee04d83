//! Newer releases: when one is announced, what the icon in the title bar shows, and how
//! the user gets the release.

use vstd::prelude::*;

use crate::platform::TargetOs;
use crate::text::Label;
use crate::text::TextKey;

verus! {

/// What came of looking for a newer release.
#[derive(Debug, PartialEq, Eq)]
pub enum ReleaseCheck {
    /// There is a release with this tag.
    Found { tag: String },
    /// There is none.
    UpToDate,
    /// It could not be found out.
    Failed,
}

/// A tag that is there or not, by its view.
pub open spec fn tag_view(tag: Option<String>) -> Option<Seq<char>> {
    match tag {
        Some(tag) => Some(tag@),
        None => None,
    }
}

/// The tag of the release that is announced, if any.
pub open spec fn announced_tag(check: ReleaseCheck, dismissed: Option<Seq<char>>) -> Option<
    Seq<char>,
> {
    match check {
        ReleaseCheck::Found { tag } => if dismissed == Some(tag@) {
            None
        } else {
            Some(tag@)
        },
        _ => None,
    }
}

/// Decides which release is announced, if any: one that was found, unless the user has
/// dismissed that very release.
pub fn release_to_announce(check: ReleaseCheck, dismissed: &Option<String>) -> (res: Option<String>)
    ensures
        res is Some <==> (check matches ReleaseCheck::Found { tag } && tag_view(*dismissed) != Some(
            tag@,
        )),
        res matches Some(announced) ==> (check matches ReleaseCheck::Found { tag } && announced@
            == tag@),
        tag_view(res) == announced_tag(check, tag_view(*dismissed)),
{
    match check {
        ReleaseCheck::Found { tag } => {
            let known: bool = match dismissed {
                Some(dismissed) => *dismissed == tag,
                None => false,
            };
            if known {
                None
            } else {
                Some(tag)
            }
        },
        ReleaseCheck::UpToDate => None,
        ReleaseCheck::Failed => None,
    }
}

/// How far the user has got with a release.
#[derive(Clone, Copy, Debug, PartialEq, Eq, Structural)]
pub enum DownloadProgress {
    /// Nothing has been done.
    Idle,
    /// The user is told how to get the release.
    PickFolder,
    /// The release is being downloaded.
    Pending,
    /// The release has been downloaded.
    Finished,
}

/// The download of a release, to a place of type `D`.
#[derive(Debug, PartialEq, Eq)]
pub struct DownloadState<D> {
    pub stage: DownloadProgress,
    pub destination: Option<D>,
}

/// What can happen to the download of a release.
#[derive(Clone, Copy, Debug, PartialEq, Eq, Structural)]
pub enum DownloadEvent {
    /// The user dismissed the release in the menu of the icon.
    Dismissed,
    /// The user asked for the release, in the menu or by a click on the icon.
    Requested,
    /// The user closed the window that tells how to get the release.
    ModalDismissed,
    /// The channel that reports how far a download has got has ended.
    ChannelClosed,
    /// The user clicked on the icon of a release that has been downloaded.
    Opened,
}

/// A step that an event asks of the program beside the change of the download.
#[derive(Debug, PartialEq, Eq)]
pub enum DownloadStep<D> {
    /// The release counts as dismissed from now on.
    DismissUpdate,
    /// The system's browser of files is started, with `place` as its only argument.
    StartFileBrowser { program: &'static str, place: D },
    /// It is reported that no browser of files is known on this system.
    ReportNoFileBrowser,
    /// It is reported that the release was downloaded to no known place.
    ReportNoDestination,
    /// The window closes.
    CloseWindow,
    /// The download as it is now goes into the state, and the icon is drawn anew.
    StoreDownload,
}

impl<D> DownloadState<D> {
    /// The download before anything has been done.
    pub open spec fn untouched() -> Self {
        DownloadState { stage: DownloadProgress::Idle, destination: None }
    }

    /// The download after `event`.
    pub open spec fn after(self, event: DownloadEvent) -> Self {
        match event {
            DownloadEvent::Dismissed => self,
            DownloadEvent::Requested => DownloadState { stage: DownloadProgress::PickFolder, ..self },
            DownloadEvent::ModalDismissed => DownloadState { stage: DownloadProgress::Idle, ..self },
            DownloadEvent::ChannelClosed => DownloadState {
                stage: DownloadProgress::Finished,
                ..self
            },
            DownloadEvent::Opened => Self::untouched(),
        }
    }

    /// The download after all of `events`, in order.
    pub open spec fn after_all(self, events: Seq<DownloadEvent>) -> Self
        decreases events.len(),
    {
        if events.len() == 0 {
            self
        } else {
            self.after_all(events.drop_last()).after(events.last())
        }
    }

    /// The steps that `event` asks of the program, in their order.
    pub open spec fn steps(self, event: DownloadEvent, os: TargetOs) -> Seq<DownloadStep<D>> {
        match event {
            DownloadEvent::Dismissed => seq![DownloadStep::DismissUpdate],
            DownloadEvent::Opened => match self.destination {
                Some(place) => seq![
                    DownloadStep::DismissUpdate,
                    match file_browser_name(os) {
                        Some(program) => DownloadStep::StartFileBrowser { program, place },
                        None => DownloadStep::ReportNoFileBrowser,
                    },
                    DownloadStep::CloseWindow,
                    DownloadStep::StoreDownload,
                ],
                None => seq![
                    DownloadStep::DismissUpdate,
                    DownloadStep::ReportNoDestination,
                    DownloadStep::StoreDownload,
                ],
            },
            _ => seq![DownloadStep::StoreDownload],
        }
    }

    /// Takes an event of the download, and hands out the steps that the program has to
    /// perform, in their order.
    ///
    /// A release that is opened is dismissed before the window closes, or it would be
    /// announced again. Opening a release that was downloaded without a destination shows
    /// nothing and leaves the window open.
    pub fn on_event(&mut self, event: DownloadEvent, os: TargetOs) -> (res: Vec<DownloadStep<D>>)
        ensures
            *final(self) == old(self).after(event),
            res@ == old(self).steps(event, os),
    {
        match event {
            DownloadEvent::Dismissed => vec![DownloadStep::DismissUpdate],
            DownloadEvent::Requested => {
                self.stage = DownloadProgress::PickFolder;
                vec![DownloadStep::StoreDownload]
            },
            DownloadEvent::ModalDismissed => {
                self.stage = DownloadProgress::Idle;
                vec![DownloadStep::StoreDownload]
            },
            DownloadEvent::ChannelClosed => {
                self.stage = DownloadProgress::Finished;
                vec![DownloadStep::StoreDownload]
            },
            DownloadEvent::Opened => {
                let destination: Option<D> = self.destination.take();
                self.stage = DownloadProgress::Idle;
                match destination {
                    Some(place) => {
                        let show: DownloadStep<D> = match file_browser(os) {
                            Some(program) => DownloadStep::StartFileBrowser { program, place },
                            None => DownloadStep::ReportNoFileBrowser,
                        };
                        vec![
                            DownloadStep::DismissUpdate,
                            show,
                            DownloadStep::CloseWindow,
                            DownloadStep::StoreDownload,
                        ]
                    },
                    None => vec![
                        DownloadStep::DismissUpdate,
                        DownloadStep::ReportNoDestination,
                        DownloadStep::StoreDownload,
                    ],
                }
            },
        }
    }
}

impl<D> Default for DownloadState<D> {
    fn default() -> (res: Self)
        ensures
            res == DownloadState::<D>::untouched(),
    {
        DownloadState { stage: DownloadProgress::Idle, destination: None }
    }
}

/// Opening a release that has been downloaded starts over: the download is as if nothing
/// had been done.
pub proof fn opening_starts_over<D>(download: DownloadState<D>)
    ensures
        download.after(DownloadEvent::Opened) == DownloadState::<D>::untouched(),
{
}

/// Closing the window that tells how to get the release undoes asking for it.
pub proof fn closing_undoes_asking<D>(download: DownloadState<D>)
    requires
        download.stage is Idle,
    ensures
        download.after(DownloadEvent::Requested).after(DownloadEvent::ModalDismissed) == download,
{
}

/// Whenever an event has the window closed, it has the release dismissed first, and each
/// of the two once.
pub proof fn release_is_dismissed_before_closing<D>(
    download: DownloadState<D>,
    event: DownloadEvent,
    os: TargetOs,
    i: int,
)
    requires
        0 <= i < download.steps(event, os).len(),
        download.steps(event, os)[i] is CloseWindow,
    ensures
        0 < i,
        download.steps(event, os)[0] is DismissUpdate,
        forall|j: int|
            0 < j < download.steps(event, os).len() ==> !((#[trigger] download.steps(
                event,
                os,
            )[j]) is DismissUpdate),
        forall|j: int|
            0 <= j < download.steps(event, os).len() && (#[trigger] download.steps(
                event,
                os,
            )[j]) is CloseWindow ==> j == i,
{
}

/// No event gives a download a destination or puts it under way: from the beginning, the
/// client never starts the browser of files, and never closes its window over a release.
pub proof fn nothing_is_downloaded_by_itself<D>(
    events: Seq<DownloadEvent>,
    event: DownloadEvent,
    os: TargetOs,
    i: int,
)
    ensures
        DownloadState::<D>::untouched().after_all(events).destination is None,
        !(DownloadState::<D>::untouched().after_all(events).stage is Pending),
        0 <= i < DownloadState::<D>::untouched().after_all(events).steps(event, os).len() ==> ({
            let step = DownloadState::<D>::untouched().after_all(events).steps(event, os)[i];
            !(step is StartFileBrowser) && !(step is CloseWindow)
        }),
    decreases events.len(),
{
    if events.len() > 0 {
        nothing_is_downloaded_by_itself::<D>(events.drop_last(), event, os, i);
    }
}

/// The program that shows a place in the system's browser of files.
pub open spec fn file_browser_name(os: TargetOs) -> Option<&'static str> {
    match os {
        TargetOs::Windows => Some("explorer"),
        TargetOs::Linux => Some("xdg-open"),
        TargetOs::MacOs => Some("open"),
        TargetOs::Other => None,
    }
}

/// Names the program that shows a place in the system's browser of files, if one is known.
pub fn file_browser(os: TargetOs) -> (res: Option<&'static str>)
    ensures
        res == file_browser_name(os),
{
    match os {
        TargetOs::Windows => Some("explorer"),
        TargetOs::Linux => Some("xdg-open"),
        TargetOs::MacOs => Some("open"),
        TargetOs::Other => None,
    }
}

/// An entry of the menu of the icon.
#[derive(Clone, Copy, Debug, PartialEq, Eq)]
pub struct ContextItem {
    pub aria_label: &'static str,
    pub text: TextKey,
    /// What happens when the entry is pressed.
    pub event: DownloadEvent,
}

impl ContextItem {
    /// The entry goes by this label, shows this text and does this.
    pub open spec fn offers(self, aria_label: Seq<char>, text: TextKey, event: DownloadEvent) -> bool {
        self.aria_label@ == aria_label && self.text == text && self.event == event
    }
}

/// What the icon shows.
#[derive(Debug, PartialEq, Eq)]
pub enum UpdateIcon {
    /// Nothing.
    Hidden,
    /// The release, with a menu; a click on it does `on_click`.
    Available { label: Label, menu: Vec<ContextItem>, on_click: DownloadEvent },
    /// The window that tells how to get the release; closing it does `on_dismiss`.
    Modal { on_dismiss: DownloadEvent },
    /// How far the download has got.
    Downloading { label: Label },
    /// That the download is there; a click on it does `on_click`.
    Downloaded { label: Label, on_click: DownloadEvent },
}

/// An entry of the menu, by its views.
#[verifier::ext_equal]
pub ghost struct ContextModel {
    pub aria_label: Seq<char>,
    pub text: TextKey,
    pub event: DownloadEvent,
}

impl View for ContextItem {
    type V = ContextModel;

    open spec fn view(&self) -> ContextModel {
        ContextModel { aria_label: self.aria_label@, text: self.text, event: self.event }
    }
}

/// What the icon shows, by its views. Labels are there as the text that is looked up and
/// what they read for it.
#[verifier::ext_equal]
pub ghost enum IconModel {
    Hidden,
    Available {
        key: TextKey,
        reading: spec_fn(Seq<char>) -> Seq<char>,
        menu: Seq<ContextModel>,
        on_click: DownloadEvent,
    },
    Modal { on_dismiss: DownloadEvent },
    Downloading { key: TextKey, reading: spec_fn(Seq<char>) -> Seq<char> },
    Downloaded { key: TextKey, reading: spec_fn(Seq<char>) -> Seq<char>, on_click: DownloadEvent },
}

/// What a label reads, for every text that its key may stand for.
pub open spec fn readings(label: Label) -> spec_fn(Seq<char>) -> Seq<char> {
    |local: Seq<char>| label.reading(local)
}

impl View for UpdateIcon {
    type V = IconModel;

    open spec fn view(&self) -> IconModel {
        match *self {
            UpdateIcon::Hidden => IconModel::Hidden,
            UpdateIcon::Available { label, menu, on_click } => IconModel::Available {
                key: label.text_key(),
                reading: readings(label),
                menu: menu@.map_values(|item: ContextItem| item@),
                on_click,
            },
            UpdateIcon::Modal { on_dismiss } => IconModel::Modal { on_dismiss },
            UpdateIcon::Downloading { label } => IconModel::Downloading {
                key: label.text_key(),
                reading: readings(label),
            },
            UpdateIcon::Downloaded { label, on_click } => IconModel::Downloaded {
                key: label.text_key(),
                reading: readings(label),
                on_click,
            },
        }
    }
}

/// The menu of the icon.
pub open spec fn update_menu() -> Seq<ContextModel> {
    seq![
        ContextModel {
            aria_label: "update-menu-dismiss"@,
            text: TextKey::UpdateMenuDismiss,
            event: DownloadEvent::Dismissed,
        },
        ContextModel {
            aria_label: "update-menu-download"@,
            text: TextKey::UpdateMenuDownload,
            event: DownloadEvent::Requested,
        },
    ]
}

/// What the icon shows of the release `available`, if there is one, where its download has
/// reached `stage` and `percent`.
pub open spec fn update_icon(
    available: Option<Seq<char>>,
    stage: DownloadProgress,
    percent: u32,
) -> IconModel {
    match available {
        None => IconModel::Hidden,
        Some(version) => match stage {
            DownloadProgress::Idle => IconModel::Available {
                key: TextKey::UpdateAvailable,
                reading: |local: Seq<char>| local + ": "@ + version,
                menu: update_menu(),
                on_click: DownloadEvent::Requested,
            },
            DownloadProgress::PickFolder => IconModel::Modal {
                on_dismiss: DownloadEvent::ModalDismissed,
            },
            DownloadProgress::Pending => IconModel::Downloading {
                key: TextKey::UpdateDownloading,
                reading: |local: Seq<char>|
                    local + ": "@ + crate::text::decimal(percent as nat) + "%"@,
            },
            DownloadProgress::Finished => IconModel::Downloaded {
                key: TextKey::UpdateDownloaded,
                reading: |local: Seq<char>| local,
                on_click: DownloadEvent::Opened,
            },
        },
    }
}

/// `menu` lets the user dismiss the release or ask for it.
pub open spec fn is_update_menu(menu: Seq<ContextItem>) -> bool {
    &&& menu.len() == 2
    &&& menu[0].offers(
        "update-menu-dismiss"@,
        TextKey::UpdateMenuDismiss,
        DownloadEvent::Dismissed,
    )
    &&& menu[1].offers(
        "update-menu-download"@,
        TextKey::UpdateMenuDownload,
        DownloadEvent::Requested,
    )
}

/// Decides what the icon shows of the release `available`, if there is one, where its
/// download has reached `stage` and `percent`.
pub fn get_update_icon(available: &Option<String>, stage: DownloadProgress, percent: u32) -> (res:
    UpdateIcon)
    ensures
        match *available {
            None => res is Hidden,
            Some(version) => match stage {
                DownloadProgress::Idle => {
                    &&& res matches UpdateIcon::Available { label, menu, on_click }
                    &&& label matches Label::Version(key, shown)
                    &&& key == TextKey::UpdateAvailable
                    &&& shown@ == version@
                    &&& is_update_menu(menu@)
                    &&& on_click == DownloadEvent::Requested
                },
                DownloadProgress::PickFolder => res == (UpdateIcon::Modal {
                    on_dismiss: DownloadEvent::ModalDismissed,
                }),
                DownloadProgress::Pending => res == (UpdateIcon::Downloading {
                    label: Label::Percent(TextKey::UpdateDownloading, percent),
                }),
                DownloadProgress::Finished => res == (UpdateIcon::Downloaded {
                    label: Label::Plain(TextKey::UpdateDownloaded),
                    on_click: DownloadEvent::Opened,
                }),
            },
        },
        res@ == update_icon(tag_view(*available), stage, percent),
{
    let version: String = match available {
        Some(version) => version.clone(),
        None => {
            return UpdateIcon::Hidden;
        },
    };
    let icon: UpdateIcon = match stage {
        DownloadProgress::Idle => UpdateIcon::Available {
            label: Label::Version(TextKey::UpdateAvailable, version),
            menu: vec![
                ContextItem {
                    aria_label: "update-menu-dismiss",
                    text: TextKey::UpdateMenuDismiss,
                    event: DownloadEvent::Dismissed,
                },
                ContextItem {
                    aria_label: "update-menu-download",
                    text: TextKey::UpdateMenuDownload,
                    event: DownloadEvent::Requested,
                },
            ],
            on_click: DownloadEvent::Requested,
        },
        DownloadProgress::PickFolder => UpdateIcon::Modal {
            on_dismiss: DownloadEvent::ModalDismissed,
        },
        DownloadProgress::Pending => UpdateIcon::Downloading {
            label: Label::Percent(TextKey::UpdateDownloading, percent),
        },
        DownloadProgress::Finished => UpdateIcon::Downloaded {
            label: Label::Plain(TextKey::UpdateDownloaded),
            on_click: DownloadEvent::Opened,
        },
    };
    proof {
        let expected = update_icon(tag_view(*available), stage, percent);
        match (icon@, expected) {
            (
                IconModel::Available { reading, menu, .. },
                IconModel::Available { reading: shown, menu: offered, .. },
            ) => {
                assert(reading =~= shown);
                assert(menu =~= offered);
            },
            (
                IconModel::Downloading { reading, .. },
                IconModel::Downloading { reading: shown, .. },
            ) => {
                assert(reading =~= shown);
            },
            (
                IconModel::Downloaded { reading, .. },
                IconModel::Downloaded { reading: shown, .. },
            ) => {
                assert(reading =~= shown);
            },
            _ => {},
        }
    }
    icon
}

/// A step of the instructions.
#[derive(Clone, Copy, Debug, PartialEq, Eq)]
pub enum Instruction {
    /// A sentence.
    Text(TextKey),
    /// A button, labelled `label` for eyes and ears alike, that opens `url`.
    Link { label: TextKey, url: &'static str },
}

/// The window that tells how to get a release.
#[derive(Debug, PartialEq, Eq)]
pub struct DownloadModal {
    pub title: TextKey,
    pub steps: Vec<Instruction>,
    pub closing: TextKey,
}

/// The key of the title of the window, and of the sentence that closes it.
pub open spec fn modal_frame() -> (TextKey, TextKey) {
    (TextKey::UpdatesTitle, TextKey::UpdatesInstruction5)
}

/// The steps that lead to a release.
pub open spec fn download_steps() -> Seq<Instruction> {
    seq![
        Instruction::Text(TextKey::UpdatesInstruction1),
        Instruction::Link {
            label: TextKey::UpdatesDownloadLabel,
            url: "https://github.com/Satellite-im/Uplink/releases/latest",
        },
        Instruction::Text(TextKey::UpdatesInstruction2),
        Instruction::Text(TextKey::UpdatesInstruction3),
        Instruction::Text(TextKey::UpdatesInstruction4),
    ]
}

/// What the window that tells how to get a release holds.
pub fn get_download_modal() -> (res: DownloadModal)
    ensures
        res.title == TextKey::UpdatesTitle,
        res.steps@ == download_steps(),
        res.closing == TextKey::UpdatesInstruction5,
        (res.title, res.closing) == modal_frame(),
{
    let steps: Vec<Instruction> = vec![
        Instruction::Text(TextKey::UpdatesInstruction1),
        Instruction::Link {
            label: TextKey::UpdatesDownloadLabel,
            url: "https://github.com/Satellite-im/Uplink/releases/latest",
        },
        Instruction::Text(TextKey::UpdatesInstruction2),
        Instruction::Text(TextKey::UpdatesInstruction3),
        Instruction::Text(TextKey::UpdatesInstruction4),
    ];
    DownloadModal { title: TextKey::UpdatesTitle, steps, closing: TextKey::UpdatesInstruction5 }
}

/// A release is announced exactly where one was found that the user has not dismissed, and
/// it is the one that was found.
pub proof fn found_release_is_announced(check: ReleaseCheck, dismissed: Option<Seq<char>>, tag: Seq<
    char,
>)
    ensures
        announced_tag(check, dismissed) == Some(tag) <==> (check matches ReleaseCheck::Found {
            tag: found,
        } && found@ == tag && dismissed != Some(tag)),
        !(check is Found) ==> announced_tag(check, dismissed) is None,
        announced_tag(check, None) is Some <==> check is Found,
{
}

/// Dismissing a release that is announced silences that release and no other.
pub proof fn dismissing_silences_one_release(check: ReleaseCheck, other: ReleaseCheck)
    requires
        announced_tag(check, None) is Some,
        announced_tag(other, None) is Some,
    ensures
        announced_tag(check, announced_tag(check, None)) is None,
        announced_tag(other, announced_tag(check, None)) is None <==> announced_tag(other, None)
            == announced_tag(check, None),
        announced_tag(other, announced_tag(check, None)) is Some ==> announced_tag(
            other,
            announced_tag(check, None),
        ) == announced_tag(other, None),
{
}

/// Where a download stands after an event is told by the event alone, except that
/// dismissing the release leaves it where it was.
pub proof fn event_tells_the_stage<D>(one: DownloadState<D>, other: DownloadState<D>, event:
    DownloadEvent)
    ensures
        event is Dismissed ==> one.after(event).stage == one.stage,
        !(event is Dismissed) ==> one.after(event).stage == other.after(event).stage,
        event is Requested ==> one.after(event).stage is PickFolder,
        event is ModalDismissed || event is Opened ==> one.after(event).stage is Idle,
        event is ChannelClosed ==> one.after(event).stage is Finished,
{
}

/// The place that a release was downloaded to is forgotten when the release is opened, and
/// at no other event.
pub proof fn opening_forgets_the_destination<D>(download: DownloadState<D>, event: DownloadEvent)
    ensures
        event is Opened ==> download.after(event).destination is None,
        !(event is Opened) ==> download.after(event).destination == download.destination,
{
}

/// A release counts as dismissed from the very start of what is done over an event exactly
/// where the user dismissed it or opened it, in whatever stage and on whatever system.
pub proof fn release_is_dismissed_when_asked<D>(
    download: DownloadState<D>,
    event: DownloadEvent,
    os: TargetOs,
)
    ensures
        download.steps(event, os).len() > 0,
        download.steps(event, os)[0] is DismissUpdate <==> event is Dismissed || event is Opened,
        forall|i: int|
            0 < i < download.steps(event, os).len() ==> !((#[trigger] download.steps(
                event,
                os,
            )[i]) is DismissUpdate),
{
}

/// Dismissing a release does that and nothing else, in whatever stage and on whatever
/// system.
pub proof fn dismissing_only_dismisses<D>(download: DownloadState<D>, os: TargetOs)
    ensures
        download.steps(DownloadEvent::Dismissed, os).len() == 1,
        download.steps(DownloadEvent::Dismissed, os)[0] is DismissUpdate,
        download.after(DownloadEvent::Dismissed) == download,
{
}

/// The download goes into the state over every event but the dismissal, as the last step
/// and once.
pub proof fn changed_download_is_stored<D>(
    download: DownloadState<D>,
    event: DownloadEvent,
    os: TargetOs,
)
    ensures
        download.steps(event, os).last() is StoreDownload <==> !(event is Dismissed),
        forall|i: int|
            0 <= i < download.steps(event, os).len() - 1 ==> !((#[trigger] download.steps(
                event,
                os,
            )[i]) is StoreDownload),
{
}

/// Opening a release shows the place that it was downloaded to and closes the window, or,
/// where there is no such place, says so and leaves the window open. No other event shows,
/// closes or says anything.
pub proof fn opening_shows_the_release<D>(
    download: DownloadState<D>,
    event: DownloadEvent,
    os: TargetOs,
    i: int,
)
    ensures
        0 <= i < download.steps(event, os).len() ==> match download.steps(event, os)[i] {
            DownloadStep::StartFileBrowser { program, place } => event is Opened
                && download.destination == Some(place) && file_browser_name(os) == Some(program),
            DownloadStep::ReportNoFileBrowser => event is Opened && download.destination is Some
                && file_browser_name(os) is None,
            DownloadStep::ReportNoDestination => event is Opened && download.destination is None,
            DownloadStep::CloseWindow => event is Opened && download.destination is Some,
            DownloadStep::DismissUpdate | DownloadStep::StoreDownload => true,
        },
        event is Opened && download.destination is Some ==> ({
            let steps = download.steps(event, os);
            &&& steps.len() == 4
            &&& steps[1] is StartFileBrowser <==> file_browser_name(os) is Some
            &&& steps[1] is ReportNoFileBrowser <==> file_browser_name(os) is None
            &&& steps[2] is CloseWindow
        }),
        event is Opened && download.destination is None ==> ({
            let steps = download.steps(event, os);
            &&& steps.len() == 3
            &&& steps[1] is ReportNoDestination
        }),
        !(event is Opened) ==> download.steps(event, os).len() == 1,
{
}

/// Every system that the client knows has a browser of files of its own, and an unknown one
/// has none.
pub proof fn systems_have_their_own_file_browser(one: TargetOs, other: TargetOs)
    ensures
        file_browser_name(one) is None <==> one is Other,
        file_browser_name(one) == file_browser_name(other) ==> one == other,
        file_browser_name(one) == Some("explorer") <==> one is Windows,
        file_browser_name(one) == Some("xdg-open") <==> one is Linux,
        file_browser_name(one) == Some("open") <==> one is MacOs,
{
    reveal_strlit("explorer");
    reveal_strlit("xdg-open");
    reveal_strlit("open");
    assert("explorer"@[0] == 'e' && "xdg-open"@[0] == 'x' && "open"@[0] == 'o');
}

/// There is something to see exactly where there is a release, and what it is depends on
/// the stage of the download alone.
pub proof fn icon_follows_the_stage(
    available: Option<Seq<char>>,
    stage: DownloadProgress,
    percent: u32,
)
    ensures
        update_icon(available, stage, percent) is Hidden <==> available is None,
        update_icon(available, stage, percent) is Available <==> available is Some && stage is Idle,
        update_icon(available, stage, percent) is Modal <==> available is Some
            && stage is PickFolder,
        update_icon(available, stage, percent) is Downloading <==> available is Some
            && stage is Pending,
        update_icon(available, stage, percent) is Downloaded <==> available is Some
            && stage is Finished,
{
}

/// What the icon reads: the version of the release that is there, the percentage that a
/// download has reached, or just that the download is there; each after its own text in the
/// language of the user.
pub proof fn icon_reads_what_there_is(
    version: Seq<char>,
    stage: DownloadProgress,
    percent: u32,
    local: Seq<char>,
)
    ensures
        match update_icon(Some(version), stage, percent) {
            IconModel::Available { key, reading, .. } => key == TextKey::UpdateAvailable && reading(
                local,
            ) == local + ": "@ + version,
            IconModel::Downloading { key, reading } => key == TextKey::UpdateDownloading
                && reading(local).len() > local.len() + 3 && reading(local).take(
                local.len() as int + 2,
            ) == local + ": "@ && reading(local).last() == '%' && crate::text::decimal_value(
                reading(local).subrange(local.len() as int + 2, reading(local).len() - 1),
            ) == percent,
            IconModel::Downloaded { key, reading, .. } => key == TextKey::UpdateDownloaded
                && reading(local) == local,
            IconModel::Hidden | IconModel::Modal { .. } => true,
        },
{
    reveal_strlit(": ");
    reveal_strlit("%");
    match update_icon(Some(version), stage, percent) {
        IconModel::Downloading { reading, .. } => {
            let digits = crate::text::decimal(percent as nat);
            crate::text::decimal_reads_back(percent as nat);
            crate::text::decimal_is_plain(percent as nat);
            let text = reading(local);
            assert(text == local + ": "@ + digits + "%"@);
            assert(text.take(local.len() as int + 2) =~= local + ": "@);
            assert(text.subrange(local.len() as int + 2, text.len() - 1) =~= digits);
        },
        _ => {},
    }
}

/// Whatever the icon offers leads on: asking for the release, by a click or in the menu,
/// shows how to get it; closing that brings the icon back; and opening a release that was
/// downloaded brings it back too.
pub proof fn icon_leads_on<D>(
    download: DownloadState<D>,
    version: Seq<char>,
    percent: u32,
    i: int,
)
    ensures
        match update_icon(Some(version), download.stage, percent) {
            IconModel::Available { menu, on_click, .. } => {
                &&& update_icon(Some(version), download.after(on_click).stage, percent) is Modal
                &&& 0 <= i < menu.len() ==> (update_icon(
                    Some(version),
                    download.after(menu[i].event).stage,
                    percent,
                ) is Modal <==> !(menu[i].event is Dismissed))
            },
            IconModel::Modal { on_dismiss } => update_icon(
                Some(version),
                download.after(on_dismiss).stage,
                percent,
            ) is Available && !(on_dismiss is Opened),
            IconModel::Downloaded { on_click, .. } => update_icon(
                Some(version),
                download.after(on_click).stage,
                percent,
            ) is Available && on_click is Opened,
            IconModel::Hidden | IconModel::Downloading { .. } => true,
        },
{
}

/// The menu offers to dismiss the release and to ask for it, each once and under its own
/// text and label, and nothing else.
pub proof fn menu_offers_to_dismiss_and_to_ask(version: Seq<char>, percent: u32)
    ensures
        update_icon(Some(version), DownloadProgress::Idle, percent) matches IconModel::Available {
            menu,
            ..
        } && menu.len() == 2 && forall|i: int|
            0 <= i < menu.len() ==> {
                &&& (#[trigger] menu[i]).event == if i == 0 {
                    DownloadEvent::Dismissed
                } else {
                    DownloadEvent::Requested
                }
                &&& menu[i].event is Dismissed <==> menu[i].text == TextKey::UpdateMenuDismiss
                &&& menu[i].event is Requested <==> menu[i].text == TextKey::UpdateMenuDownload
                &&& "uplink."@ + menu[i].aria_label == menu[i].text.key()
            },
{
    reveal_strlit("uplink.");
    reveal_strlit("update-menu-dismiss");
    reveal_strlit("update-menu-download");
    reveal_strlit("uplink.update-menu-dismiss");
    reveal_strlit("uplink.update-menu-download");
    assert("uplink."@ + "update-menu-dismiss"@ =~= "uplink.update-menu-dismiss"@);
    assert("uplink."@ + "update-menu-download"@ =~= "uplink.update-menu-download"@);
}

/// The instructions hold one link, right after the first sentence, and it leads to the
/// latest release; all sentences, the title and the closing one among them, are different.
pub proof fn instructions_link_to_the_release(i: int, j: int)
    requires
        0 <= i < download_steps().len(),
        0 <= j < download_steps().len(),
    ensures
        download_steps().len() == 5,
        download_steps()[i] is Link <==> i == 1,
        download_steps()[i] matches Instruction::Link { label, url } ==> label
            == TextKey::UpdatesDownloadLabel && url@
            == "https://github.com/Satellite-im/Uplink/releases/latest"@,
        download_steps()[i] == download_steps()[j] ==> i == j,
        download_steps()[i] != Instruction::Text(modal_frame().0),
        download_steps()[i] != Instruction::Text(modal_frame().1),
        modal_frame().0.key() == "updates.title"@,
        modal_frame().1.key() == "updates.instruction5"@,
        download_steps()[i] matches Instruction::Text(key) ==> key.key().len() == 20
            && key.key().last() as int - '0' as int == if i == 0 {
            1
        } else {
            i
        },
{
    reveal_strlit("updates.instruction1");
    reveal_strlit("updates.instruction2");
    reveal_strlit("updates.instruction3");
    reveal_strlit("updates.instruction4");
}

/// The view of a tag is the tag, where there is one.
pub proof fn tag_view_is_the_tag(tag: String)
    ensures
        tag_view(Some(tag)) == Some(tag@),
        tag_view(None) is None,
{
}

/// The view of the icon leaves nothing out: labels are there with the text that they look up
/// and with all that they read, menus with every entry in its place.
pub proof fn icon_view_is_complete(
    label: Label,
    menu: Vec<ContextItem>,
    event: DownloadEvent,
    local: Seq<char>,
    i: int,
)
    ensures
        UpdateIcon::Hidden@ is Hidden,
        (UpdateIcon::Modal { on_dismiss: event })@ == (IconModel::Modal { on_dismiss: event }),
        (UpdateIcon::Available { label, menu, on_click: event })@ matches IconModel::Available {
            key,
            reading,
            menu: offered,
            on_click,
        } && key == label.text_key() && reading(local) == label.reading(local) && on_click == event
            && offered.len() == menu@.len() && (0 <= i < menu@.len() ==> offered[i].aria_label
            == menu@[i].aria_label@ && offered[i].text == menu@[i].text && offered[i].event
            == menu@[i].event),
        (UpdateIcon::Downloading { label })@ matches IconModel::Downloading { key, reading } && key
            == label.text_key() && reading(local) == label.reading(local),
        (UpdateIcon::Downloaded { label, on_click: event })@ matches IconModel::Downloaded {
            key,
            reading,
            on_click,
        } && key == label.text_key() && reading(local) == label.reading(local) && on_click == event,
{
}

} // verus!
