use uplink::tasks::{
    files_start_loaded, on_feed_event, on_files_event, on_startup_event, on_timestamp_round,
    on_toast_round, on_typing_round,
    on_watch_event, FeedAction, FeedEvent, FilesAction, FilesEvent, RoundEffect, StartupAction,
    StartupEvent, TimedTask, WatchAction, WatchEvent,
};
use uuid::Uuid;

type Feed = FeedEvent<&'static str, u8, char>;
type Startup = StartupEvent<&'static str, u8>;
type Files = FilesEvent<&'static str>;
type Watch = WatchEvent<&'static str>;

#[test]
fn feed_waits_until_the_state_is_loaded() {
    assert_eq!(
        on_feed_event(Feed::Checked { initialized: false }),
        FeedAction::Wait { millis: 10 }
    );
    assert_eq!(
        on_feed_event(Feed::Checked { initialized: true }),
        FeedAction::Listen
    );
}

#[test]
fn reported_progress_is_stored() {
    let chat = Uuid::from_u128(1);
    assert_eq!(
        on_feed_event(Feed::AttachmentProgress {
            conversation_id: chat,
            msg: "hello",
            progress: 42
        }),
        FeedAction::StoreProgress {
            conversation_id: chat,
            msg: "hello",
            progress: 42
        }
    );
}

#[test]
fn progress_refreshes_the_open_chat_only() {
    let chat = Uuid::from_u128(1);
    let other = Uuid::from_u128(2);
    let stored = |active_chat, pending_component| {
        on_feed_event(Feed::ProgressStored {
            conversation_id: chat,
            active_chat,
            pending_component,
        })
    };
    assert_eq!(
        stored(Some(Uuid::from_u128(1)), Some(4)),
        FeedAction::Refresh { component: 4 }
    );
    assert_eq!(stored(Some(chat), None), FeedAction::Listen);
    assert_eq!(stored(Some(other), Some(4)), FeedAction::Listen);
    assert_eq!(stored(None, Some(4)), FeedAction::Listen);
}

#[test]
fn other_events_are_processed() {
    assert_eq!(
        on_feed_event(Feed::Other { event: 'e' }),
        FeedAction::Process { event: 'e' }
    );
    assert_eq!(on_feed_event(Feed::Handled), FeedAction::Listen);
    assert_eq!(on_feed_event(Feed::Closed), FeedAction::Stop);
}

#[test]
fn startup_retries_until_the_state_is_loaded() {
    let next = on_startup_event::<&'static str, u8>;
    assert_eq!(
        next(Startup::Started { initialized: false }),
        StartupAction::SearchExtensions
    );
    assert_eq!(
        next(Startup::ExtensionsSearched { found: Some("x") }),
        StartupAction::RegisterExtensions { extensions: "x" }
    );
    assert_eq!(
        next(Startup::ExtensionsRegistered),
        StartupAction::SendRequest
    );
    assert_eq!(
        next(Startup::Sent { delivered: false }),
        StartupAction::Rest { secs: 1 }
    );
    assert_eq!(next(Startup::Rested), StartupAction::SendRequest);
    assert_eq!(
        next(Startup::Sent { delivered: true }),
        StartupAction::AwaitReply
    );
    assert_eq!(
        next(Startup::Replied { loaded: None }),
        StartupAction::Rest { secs: 1 }
    );
    assert_eq!(
        next(Startup::Replied { loaded: Some(5) }),
        StartupAction::LoadState { loaded: 5 }
    );
}

#[test]
fn startup_goes_on_without_extensions() {
    assert_eq!(
        on_startup_event(Startup::ExtensionsSearched { found: None }),
        StartupAction::SendRequest
    );
}

#[test]
fn loaded_client_has_nothing_to_start() {
    assert_eq!(
        on_startup_event(Startup::Started { initialized: true }),
        StartupAction::Stop
    );
}

#[test]
fn files_are_asked_for_once() {
    let next = on_files_event::<&'static str>;
    assert_eq!(next(Files::Started { loaded: true }), FilesAction::Stop);
    assert_eq!(
        next(Files::Started { loaded: false }),
        FilesAction::SendRequest
    );
    assert_eq!(
        next(Files::Sent { delivered: true }),
        FilesAction::AwaitReply
    );
    assert_eq!(next(Files::Sent { delivered: false }), FilesAction::Stop);
    assert_eq!(
        next(Files::Replied {
            listed: Some("files")
        }),
        FilesAction::Finish {
            store: Some("files")
        }
    );
    assert_eq!(
        next(Files::Replied { listed: None }),
        FilesAction::Finish { store: None }
    );
}

#[test]
fn mock_data_has_no_files_to_ask_for() {
    assert_eq!(
        on_files_event(Files::Started {
            loaded: files_start_loaded(true)
        }),
        FilesAction::Stop
    );
    assert_eq!(
        on_files_event(Files::Started {
            loaded: files_start_loaded(false)
        }),
        FilesAction::SendRequest
    );
}

#[test]
fn watcher_survives_errors() {
    let next = on_watch_event::<&'static str>;
    assert_eq!(next(Watch::WatcherMade { made: false }), WatchAction::Stop);
    assert_eq!(
        next(Watch::WatcherMade { made: true }),
        WatchAction::AddDirectory
    );
    assert_eq!(
        next(Watch::DirectoryAdded { added: false }),
        WatchAction::Stop
    );
    assert_eq!(
        next(Watch::DirectoryAdded { added: true }),
        WatchAction::AwaitNotification
    );
    assert_eq!(
        next(Watch::Notified { change: false }),
        WatchAction::AwaitNotification
    );
    assert_eq!(
        next(Watch::Notified { change: true }),
        WatchAction::SearchExtensions
    );
    assert_eq!(
        next(Watch::ExtensionsSearched { found: None }),
        WatchAction::AwaitNotification
    );
    assert_eq!(
        next(Watch::ExtensionsSearched { found: Some("x") }),
        WatchAction::RegisterExtensions { extensions: "x" }
    );
    assert_eq!(
        next(Watch::ExtensionsRegistered),
        WatchAction::AwaitNotification
    );
    assert_eq!(next(Watch::Closed), WatchAction::Stop);
}

#[test]
fn timed_tasks_have_their_periods() {
    assert_eq!(TimedTask::ClearToasts.period_secs(5), 1);
    assert_eq!(TimedTask::ClearTyping.period_secs(5), 5);
    assert_eq!(TimedTask::RefreshTimestamps.period_secs(5), 60);
    assert_eq!(TimedTask::CheckForUpdates.period_secs(5), 86400);
}

#[test]
fn rounds_without_work_draw_nothing() {
    assert_eq!(on_toast_round(false), RoundEffect::Nothing);
    assert_eq!(on_toast_round(true), RoundEffect::AgeToasts);
    assert_eq!(on_typing_round(false), RoundEffect::Nothing);
    assert_eq!(on_typing_round(true), RoundEffect::Redraw);
    assert_eq!(on_timestamp_round(), RoundEffect::Redraw);
}

#[test]
fn only_the_update_check_works_before_it_rests() {
    for (task, first) in [
        (TimedTask::ClearToasts, Some(1)),
        (TimedTask::ClearTyping, Some(5)),
        (TimedTask::RefreshTimestamps, Some(60)),
        (TimedTask::CheckForUpdates, None),
    ] {
        assert_eq!(task.sleep_before_round(true, 5), first);
        assert_eq!(
            task.sleep_before_round(false, 5),
            Some(task.period_secs(5))
        );
    }
}
