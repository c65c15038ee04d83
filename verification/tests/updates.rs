use uplink::platform::TargetOs;
use uplink::text::{Label, TextKey};
use uplink::updates::{
    file_browser, get_download_modal, get_update_icon, release_to_announce, ContextItem,
    DownloadEvent, DownloadModal, DownloadProgress, DownloadState, DownloadStep, Instruction,
    ReleaseCheck, UpdateIcon,
};

fn found(tag: &str) -> ReleaseCheck {
    ReleaseCheck::Found {
        tag: tag.to_string(),
    }
}

#[test]
fn releases_are_announced_unless_dismissed() {
    let dismissed = Some("v1".to_string());
    assert_eq!(
        release_to_announce(found("v2"), &dismissed),
        Some("v2".to_string())
    );
    assert_eq!(release_to_announce(found("v1"), &dismissed), None);
    assert_eq!(
        release_to_announce(found("v1"), &None),
        Some("v1".to_string())
    );
    assert_eq!(release_to_announce(ReleaseCheck::UpToDate, &None), None);
    assert_eq!(release_to_announce(ReleaseCheck::Failed, &dismissed), None);
}

const OS: TargetOs = TargetOs::Linux;

#[test]
fn download_goes_through_its_stages() {
    let mut download: DownloadState<u8> = DownloadState::default();
    assert_eq!(download.stage, DownloadProgress::Idle);
    assert_eq!(download.destination, None);
    let stored = vec![DownloadStep::StoreDownload];
    assert_eq!(download.on_event(DownloadEvent::Requested, OS), stored);
    assert_eq!(download.stage, DownloadProgress::PickFolder);
    assert_eq!(download.on_event(DownloadEvent::ModalDismissed, OS), stored);
    assert_eq!(download, DownloadState::default());
    assert_eq!(download.on_event(DownloadEvent::ChannelClosed, OS), stored);
    assert_eq!(download.stage, DownloadProgress::Finished);
}

#[test]
fn dismissing_changes_no_stage() {
    let mut download: DownloadState<u8> = DownloadState {
        stage: DownloadProgress::PickFolder,
        destination: Some(1),
    };
    assert_eq!(
        download.on_event(DownloadEvent::Dismissed, OS),
        vec![DownloadStep::DismissUpdate]
    );
    assert_eq!(download.stage, DownloadProgress::PickFolder);
    assert_eq!(download.destination, Some(1));
}

#[test]
fn opening_dismisses_then_shows_then_closes() {
    for (os, program) in [
        (TargetOs::Windows, "explorer"),
        (TargetOs::Linux, "xdg-open"),
        (TargetOs::MacOs, "open"),
    ] {
        let mut download: DownloadState<u8> = DownloadState {
            stage: DownloadProgress::Finished,
            destination: Some(4),
        };
        assert_eq!(
            download.on_event(DownloadEvent::Opened, os),
            vec![
                DownloadStep::DismissUpdate,
                DownloadStep::StartFileBrowser { program, place: 4 },
                DownloadStep::CloseWindow,
                DownloadStep::StoreDownload
            ]
        );
        assert_eq!(download, DownloadState::default());
    }
}

#[test]
fn opening_closes_the_window_on_unknown_systems_too() {
    let mut download: DownloadState<u8> = DownloadState {
        stage: DownloadProgress::Finished,
        destination: Some(4),
    };
    assert_eq!(
        download.on_event(DownloadEvent::Opened, TargetOs::Other),
        vec![
            DownloadStep::DismissUpdate,
            DownloadStep::ReportNoFileBrowser,
            DownloadStep::CloseWindow,
            DownloadStep::StoreDownload
        ]
    );
    assert_eq!(download, DownloadState::default());
}

#[test]
fn opening_without_a_destination_keeps_the_window() {
    let mut download: DownloadState<u8> = DownloadState {
        stage: DownloadProgress::Finished,
        destination: None,
    };
    assert_eq!(
        download.on_event(DownloadEvent::Opened, OS),
        vec![
            DownloadStep::DismissUpdate,
            DownloadStep::ReportNoDestination,
            DownloadStep::StoreDownload
        ]
    );
    assert_eq!(download, DownloadState::default());
}

#[test]
fn files_are_shown_by_the_system() {
    assert_eq!(file_browser(TargetOs::Windows), Some("explorer"));
    assert_eq!(file_browser(TargetOs::Linux), Some("xdg-open"));
    assert_eq!(file_browser(TargetOs::MacOs), Some("open"));
    assert_eq!(file_browser(TargetOs::Other), None);
}

#[test]
fn icon_follows_the_stage() {
    let version = Some("v2".to_string());
    for stage in [
        DownloadProgress::Idle,
        DownloadProgress::PickFolder,
        DownloadProgress::Pending,
        DownloadProgress::Finished,
    ] {
        assert_eq!(get_update_icon(&None, stage, 3), UpdateIcon::Hidden);
    }
    assert_eq!(
        get_update_icon(&version, DownloadProgress::Idle, 3),
        UpdateIcon::Available {
            label: Label::Version(TextKey::UpdateAvailable, "v2".to_string()),
            menu: vec![
                ContextItem {
                    aria_label: "update-menu-dismiss",
                    text: TextKey::UpdateMenuDismiss,
                    event: DownloadEvent::Dismissed
                },
                ContextItem {
                    aria_label: "update-menu-download",
                    text: TextKey::UpdateMenuDownload,
                    event: DownloadEvent::Requested
                }
            ],
            on_click: DownloadEvent::Requested
        }
    );
    assert_eq!(
        get_update_icon(&version, DownloadProgress::PickFolder, 3),
        UpdateIcon::Modal {
            on_dismiss: DownloadEvent::ModalDismissed
        }
    );
    assert_eq!(
        get_update_icon(&version, DownloadProgress::Pending, 3),
        UpdateIcon::Downloading {
            label: Label::Percent(TextKey::UpdateDownloading, 3)
        }
    );
    assert_eq!(
        get_update_icon(&version, DownloadProgress::Finished, 3),
        UpdateIcon::Downloaded {
            label: Label::Plain(TextKey::UpdateDownloaded),
            on_click: DownloadEvent::Opened
        }
    );
}

#[test]
fn modal_tells_how_to_get_the_release() {
    assert_eq!(
        get_download_modal(),
        DownloadModal {
            title: TextKey::UpdatesTitle,
            steps: vec![
                Instruction::Text(TextKey::UpdatesInstruction1),
                Instruction::Link {
                    label: TextKey::UpdatesDownloadLabel,
                    url: "https://github.com/Satellite-im/Uplink/releases/latest"
                },
                Instruction::Text(TextKey::UpdatesInstruction2),
                Instruction::Text(TextKey::UpdatesInstruction3),
                Instruction::Text(TextKey::UpdatesInstruction4)
            ],
            closing: TextKey::UpdatesInstruction5
        }
    );
}
