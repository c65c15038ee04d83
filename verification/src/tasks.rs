//! The tasks that run beside the user interface for as long as the client does.
//!
//! Each task is a function from what has just happened to what the task does next; the
//! program performs that and reports back. A task remembers nothing else, so a run of it
//! is a sequence of events in which every event answers the action before it.

use uuid::Uuid;
use vstd::prelude::*;

use crate::ids::same_id;

verus! {

/// How long the feed of backend events waits before it looks at the state again.
pub const STATE_POLL_MILLIS: u64 = 10;

/// How long the start-up task rests after the backend failed it.
pub const RETRY_SECS: u64 = 1;

/// How often the watcher looks at the extension directory where it has to poll.
pub const WATCH_POLL_SECS: u64 = 1;

// ---- events of the backend ----

/// What has happened to the task that passes on the events of the backend. `M` is a
/// message, `P` how far its attachment has got, `E` any other event.
#[derive(Debug, PartialEq, Eq)]
pub enum FeedEvent<M, P, E> {
    /// The task looked whether friends and chats have been loaded.
    Checked { initialized: bool },
    /// The backend reported how far an attachment of a conversation has got.
    AttachmentProgress { conversation_id: Uuid, msg: M, progress: P },
    /// That progress stands in the state; this is the chat now open, and the component
    /// that shows the messages on their way.
    ProgressStored {
        conversation_id: Uuid,
        active_chat: Option<Uuid>,
        pending_component: Option<usize>,
    },
    /// The backend reported anything else.
    Other { event: E },
    /// What the backend reported has been dealt with.
    Handled,
    /// The backend reports nothing any more.
    Closed,
}

/// What the task does next.
#[derive(Debug, PartialEq, Eq)]
pub enum FeedAction<M, P, E> {
    /// Sleep, then look at the state again.
    Wait { millis: u64 },
    /// Take the next event of the backend.
    Listen,
    /// Store the progress in the state without drawing anything anew.
    StoreProgress { conversation_id: Uuid, msg: M, progress: P },
    /// Draw one component anew.
    Refresh { component: usize },
    /// Hand the event to the state, and draw the client anew.
    Process { event: E },
    /// End.
    Stop,
}

impl<M, P, E> FeedEvent<M, P, E> {
    /// What the task does next: what it stores or processes is what was reported.
    pub open spec fn next(self) -> FeedAction<M, P, E> {
        match self {
            FeedEvent::Checked { initialized } => {
                if initialized {
                    FeedAction::Listen
                } else {
                    FeedAction::Wait { millis: STATE_POLL_MILLIS }
                }
            },
            FeedEvent::AttachmentProgress { conversation_id, msg, progress } => {
                FeedAction::StoreProgress { conversation_id, msg, progress }
            },
            FeedEvent::ProgressStored { conversation_id, active_chat, pending_component } => {
                if active_chat == Some(conversation_id) && pending_component is Some {
                    FeedAction::Refresh { component: pending_component->0 }
                } else {
                    FeedAction::Listen
                }
            },
            FeedEvent::Other { event } => FeedAction::Process { event },
            FeedEvent::Handled => FeedAction::Listen,
            FeedEvent::Closed => FeedAction::Stop,
        }
    }

    /// The event is one that the backend reported.
    pub open spec fn is_report(self) -> bool {
        self is AttachmentProgress || self is Other
    }
}

impl<M, P, E> FeedAction<M, P, E> {
    /// `event` is something that can come of the action.
    pub open spec fn leads_to(self, event: FeedEvent<M, P, E>) -> bool {
        match self {
            FeedAction::Wait { .. } => event is Checked,
            FeedAction::Listen => event.is_report() || event is Closed,
            FeedAction::StoreProgress { conversation_id: stored, .. } => {
                event matches FeedEvent::ProgressStored { conversation_id, .. } && conversation_id
                    == stored
            },
            FeedAction::Refresh { .. } | FeedAction::Process { .. } => event is Handled,
            FeedAction::Stop => false,
        }
    }
}

/// Decides what the task that passes on backend events does after `event`.
pub fn on_feed_event<M, P, E>(event: FeedEvent<M, P, E>) -> (res: FeedAction<M, P, E>)
    ensures
        res == event.next(),
{
    match event {
        FeedEvent::Checked { initialized } => {
            if initialized {
                FeedAction::Listen
            } else {
                FeedAction::Wait { millis: STATE_POLL_MILLIS }
            }
        },
        FeedEvent::AttachmentProgress { conversation_id, msg, progress } => {
            FeedAction::StoreProgress { conversation_id, msg, progress }
        },
        FeedEvent::ProgressStored { conversation_id, active_chat, pending_component } => {
            let shown: bool = match active_chat {
                Some(chat) => same_id(&chat, &conversation_id),
                None => false,
            };
            match pending_component {
                Some(component) if shown => FeedAction::Refresh { component },
                _ => FeedAction::Listen,
            }
        },
        FeedEvent::Other { event } => FeedAction::Process { event },
        FeedEvent::Handled => FeedAction::Listen,
        FeedEvent::Closed => FeedAction::Stop,
    }
}

/// A run of the task that passes on backend events.
pub open spec fn feed_run<M, P, E>(events: Seq<FeedEvent<M, P, E>>) -> bool {
    &&& events.len() > 0 ==> events[0] is Checked
    &&& forall|i: int|
        0 < i < events.len() ==> events[i - 1].next().leads_to(#[trigger] events[i])
}

/// No event of the backend is taken until friends and chats have been loaded.
pub proof fn feed_waits_for_state<M, P, E>(events: Seq<FeedEvent<M, P, E>>, i: int)
    requires
        feed_run(events),
        0 <= i < events.len(),
        !(events[i] is Checked),
    ensures
        exists|j: int|
            0 <= j < i && #[trigger] events[j] == (FeedEvent::<M, P, E>::Checked {
                initialized: true,
            }),
    decreases i,
{
    if !(events[i - 1] is Checked) {
        feed_waits_for_state(events, i - 1);
    }
}

/// Once the feed listens it never looks at the state again.
pub proof fn feed_keeps_listening<M, P, E>(events: Seq<FeedEvent<M, P, E>>, i: int, j: int)
    requires
        feed_run(events),
        0 <= i < j < events.len(),
        events[i] == (FeedEvent::<M, P, E>::Checked { initialized: true }),
    ensures
        !(events[j] is Checked),
    decreases j,
{
    if i < j - 1 {
        feed_keeps_listening(events, i, j - 1);
    }
}

/// The progress of an attachment never has the whole client drawn anew, and has one
/// component drawn anew only where its conversation is the one now open.
pub proof fn progress_draws_one_component_at_most<M, P, E>(events: Seq<FeedEvent<M, P, E>>, i: int)
    requires
        feed_run(events),
        0 <= i,
        i + 1 < events.len(),
        events[i] is AttachmentProgress,
    ensures
        !(events[i].next() is Process),
        !(events[i + 1].next() is Process),
        events[i + 1].next() is Refresh ==> (events[i] matches FeedEvent::AttachmentProgress {
            conversation_id,
            ..
        } && events[i + 1] matches FeedEvent::ProgressStored { active_chat, .. } && active_chat
            == Some(conversation_id)),
{
}

/// The feed ends only when the backend reports nothing any more, and what it handed to
/// the state until then is what the backend reported.
pub proof fn feed_ends_with_backend<M, P, E>(events: Seq<FeedEvent<M, P, E>>, i: int)
    requires
        feed_run(events),
        0 <= i < events.len(),
    ensures
        events[i].next() is Stop <==> events[i] is Closed,
        events[i] is Closed ==> i == events.len() - 1,
        events[i].next() matches FeedAction::Process { event: processed } ==> events[i]
            == (FeedEvent::<M, P, E>::Other { event: processed }),
        events[i].next() matches FeedAction::StoreProgress { conversation_id, msg, progress }
            ==> events[i] == (FeedEvent::<M, P, E>::AttachmentProgress {
            conversation_id,
            msg,
            progress,
        }),
{
    if i + 1 < events.len() {
        assert(events[i + 1 - 1].next().leads_to(events[i + 1]));
    }
}

/// What the feed does, and what alone has it do that: it waits while nothing is loaded,
/// stores the progress and processes the events that the backend reports, and ends when
/// there is nothing more to report.
pub proof fn feed_does_what_is_reported<M, P, E>(
    event: FeedEvent<M, P, E>,
    conversation_id: Uuid,
    msg: M,
    progress: P,
    reported: E,
)
    ensures
        event.next() is Wait <==> event == (FeedEvent::<M, P, E>::Checked { initialized: false }),
        event.next() matches FeedAction::Wait { millis } ==> millis == STATE_POLL_MILLIS,
        event.next() == (FeedAction::<M, P, E>::StoreProgress { conversation_id, msg, progress })
            <==> event == (FeedEvent::<M, P, E>::AttachmentProgress {
            conversation_id,
            msg,
            progress,
        }),
        event.next() == (FeedAction::<M, P, E>::Process { event: reported }) <==> event == (
        FeedEvent::<M, P, E>::Other { event: reported }),
        event.next() is Stop <==> event is Closed,
        event is Handled || event == (FeedEvent::<M, P, E>::Checked { initialized: true })
            ==> event.next() is Listen,
{
}

/// Stored progress has the component of the messages on their way drawn anew exactly where
/// it belongs to the open chat and there is such a component; otherwise the feed listens on.
pub proof fn stored_progress_is_drawn_in_the_open_chat<M, P, E>(
    conversation_id: Uuid,
    active_chat: Option<Uuid>,
    pending_component: Option<usize>,
    component: usize,
)
    ensures
        ({
            let stored = FeedEvent::<M, P, E>::ProgressStored {
                conversation_id,
                active_chat,
                pending_component,
            };
            &&& stored.next() == (FeedAction::<M, P, E>::Refresh { component }) <==> active_chat
                == Some(conversation_id) && pending_component == Some(component)
            &&& stored.next() is Refresh || stored.next() is Listen
        }),
{
}

/// Only stored progress has a component drawn anew.
pub proof fn only_progress_draws_a_component<M, P, E>(event: FeedEvent<M, P, E>)
    requires
        event.next() is Refresh,
    ensures
        event is ProgressStored,
{
}

// ---- start-up: extensions, friends and chats ----

/// What has happened to the task that loads extensions, friends and chats. `X` are
/// extensions, `S` what the backend holds of friends and chats.
#[derive(Debug, PartialEq, Eq)]
pub enum StartupEvent<X, S> {
    /// The task began; friends and chats may have been loaded already.
    Started { initialized: bool },
    /// The search for extensions is over, with a result or without.
    ExtensionsSearched { found: Option<X> },
    /// The extensions stand in the state.
    ExtensionsRegistered,
    /// The request to initialize was handed to the backend, or could not be.
    Sent { delivered: bool },
    /// The backend replied: with friends and chats, or with an error.
    Replied { loaded: Option<S> },
    /// The task has rested.
    Rested,
}

/// What the task does next.
#[derive(Debug, PartialEq, Eq)]
pub enum StartupAction<X, S> {
    /// Search for extensions.
    SearchExtensions,
    /// Insert the extensions that were found into the state.
    RegisterExtensions { extensions: X },
    /// Ask the backend to initialize.
    SendRequest,
    /// Wait for the backend's reply.
    AwaitReply,
    /// Rest.
    Rest { secs: u64 },
    /// Put the friends and chats of the reply into the state, and end.
    LoadState { loaded: S },
    /// End.
    Stop,
}

impl<X, S> StartupEvent<X, S> {
    /// What the task does next: what it puts into the state is what was found or replied.
    pub open spec fn next(self) -> StartupAction<X, S> {
        match self {
            StartupEvent::Started { initialized } => {
                if initialized {
                    StartupAction::Stop
                } else {
                    StartupAction::SearchExtensions
                }
            },
            StartupEvent::ExtensionsSearched { found } => match found {
                Some(extensions) => StartupAction::RegisterExtensions { extensions },
                None => StartupAction::SendRequest,
            },
            StartupEvent::ExtensionsRegistered => StartupAction::SendRequest,
            StartupEvent::Sent { delivered } => {
                if delivered {
                    StartupAction::AwaitReply
                } else {
                    StartupAction::Rest { secs: RETRY_SECS }
                }
            },
            StartupEvent::Replied { loaded } => match loaded {
                Some(loaded) => StartupAction::LoadState { loaded },
                None => StartupAction::Rest { secs: RETRY_SECS },
            },
            StartupEvent::Rested => StartupAction::SendRequest,
        }
    }

    /// The backend failed the task: it took no request, or replied with an error.
    pub open spec fn is_failure(self) -> bool {
        ||| self matches StartupEvent::Sent { delivered } && !delivered
        ||| self matches StartupEvent::Replied { loaded } && loaded is None
    }
}

impl<X, S> StartupAction<X, S> {
    /// `event` is something that can come of the action.
    pub open spec fn leads_to(self, event: StartupEvent<X, S>) -> bool {
        match self {
            StartupAction::SearchExtensions => event is ExtensionsSearched,
            StartupAction::RegisterExtensions { .. } => event is ExtensionsRegistered,
            StartupAction::SendRequest => event is Sent,
            StartupAction::AwaitReply => event is Replied,
            StartupAction::Rest { .. } => event is Rested,
            StartupAction::LoadState { .. } | StartupAction::Stop => false,
        }
    }
}

/// Decides what the start-up task does after `event`.
pub fn on_startup_event<X, S>(event: StartupEvent<X, S>) -> (res: StartupAction<X, S>)
    ensures
        res == event.next(),
{
    match event {
        StartupEvent::Started { initialized: true } => StartupAction::Stop,
        StartupEvent::Started { initialized: false } => StartupAction::SearchExtensions,
        StartupEvent::ExtensionsSearched { found: Some(extensions) } => {
            StartupAction::RegisterExtensions { extensions }
        },
        StartupEvent::ExtensionsSearched { found: None } => StartupAction::SendRequest,
        StartupEvent::ExtensionsRegistered => StartupAction::SendRequest,
        StartupEvent::Sent { delivered: true } => StartupAction::AwaitReply,
        StartupEvent::Sent { delivered: false } => StartupAction::Rest { secs: RETRY_SECS },
        StartupEvent::Replied { loaded: Some(loaded) } => StartupAction::LoadState { loaded },
        StartupEvent::Replied { loaded: None } => StartupAction::Rest { secs: RETRY_SECS },
        StartupEvent::Rested => StartupAction::SendRequest,
    }
}

/// A run of the start-up task.
pub open spec fn startup_run<X, S>(events: Seq<StartupEvent<X, S>>) -> bool {
    &&& events.len() > 0 ==> events[0] is Started
    &&& forall|i: int|
        0 < i < events.len() ==> events[i - 1].next().leads_to(#[trigger] events[i])
}

/// The state is loaded at most once, at the end of a run, with what the reply holds.
pub proof fn state_is_loaded_once<X, S>(events: Seq<StartupEvent<X, S>>, i: int)
    requires
        startup_run(events),
        0 <= i < events.len(),
        events[i].next() is LoadState,
    ensures
        i == events.len() - 1,
        events[i].next() matches StartupAction::LoadState { loaded } && events[i]
            == (StartupEvent::<X, S>::Replied { loaded: Some(loaded) }),
{
    if i + 1 < events.len() {
        assert(events[i + 1 - 1].next().leads_to(events[i + 1]));
    }
}

/// A client whose state is loaded neither searches for extensions nor asks the backend.
pub proof fn loaded_client_starts_nothing<X, S>(events: Seq<StartupEvent<X, S>>)
    requires
        startup_run(events),
        events.len() > 0,
        events[0] == (StartupEvent::<X, S>::Started { initialized: true }),
    ensures
        events.len() == 1,
        events[0].next() is Stop,
{
    if events.len() > 1 {
        assert(events[1 - 1].next().leads_to(events[1]));
    }
}

/// Whenever the backend fails the task, it rests for [`RETRY_SECS`] and asks again.
pub proof fn failed_request_is_repeated<X, S>(events: Seq<StartupEvent<X, S>>, i: int)
    requires
        startup_run(events),
        0 <= i < events.len(),
        events[i].is_failure(),
    ensures
        events[i].next() == (StartupAction::<X, S>::Rest { secs: RETRY_SECS }),
        i + 1 < events.len() ==> events[i + 1] is Rested && events[i + 1].next() is SendRequest,
{
}

/// The task ends by itself only where the state is loaded.
pub proof fn startup_ends_with_loaded_state<X, S>(events: Seq<StartupEvent<X, S>>, i: int)
    requires
        startup_run(events),
        0 <= i < events.len(),
    ensures
        events[i].next() is Stop || events[i].next() is LoadState <==> events[i]
            == (StartupEvent::<X, S>::Started { initialized: true }) || (
        events[i] matches StartupEvent::Replied { loaded } && loaded is Some),
        events[i].next() is Stop || events[i].next() is LoadState ==> i == events.len() - 1,
{
    if i + 1 < events.len() {
        assert(events[i + 1 - 1].next().leads_to(events[i + 1]));
    }
}

/// What is registered is what the search found.
pub proof fn found_extensions_are_registered<X, S>(event: StartupEvent<X, S>, extensions: X)
    ensures
        event.next() == (StartupAction::<X, S>::RegisterExtensions { extensions }) <==> event
            == (StartupEvent::<X, S>::ExtensionsSearched { found: Some(extensions) }),
{
}

/// Extensions are searched for at most once in a run, at its beginning.
pub proof fn extensions_are_searched_once<X, S>(events: Seq<StartupEvent<X, S>>, i: int)
    requires
        startup_run(events),
        0 <= i < events.len(),
        events[i].next() is SearchExtensions,
    ensures
        i == 0,
{
}

/// What the start-up task does, and what alone has it do that.
pub proof fn startup_goes_step_by_step<X, S>(event: StartupEvent<X, S>, extensions: X, loaded: S)
    ensures
        event.next() is SearchExtensions <==> event == (StartupEvent::<X, S>::Started {
            initialized: false,
        }),
        event.next() is Stop <==> event == (StartupEvent::<X, S>::Started { initialized: true }),
        event.next() == (StartupAction::<X, S>::RegisterExtensions { extensions }) <==> event == (
        StartupEvent::<X, S>::ExtensionsSearched { found: Some(extensions) }),
        event.next() is SendRequest <==> event == (StartupEvent::<X, S>::ExtensionsSearched {
            found: None,
        }) || event is ExtensionsRegistered || event is Rested,
        event.next() is AwaitReply <==> event == (StartupEvent::<X, S>::Sent { delivered: true }),
        event.next() is Rest <==> event == (StartupEvent::<X, S>::Sent { delivered: false })
            || event == (StartupEvent::<X, S>::Replied { loaded: None }),
        event.next() matches StartupAction::Rest { secs } ==> secs == RETRY_SECS,
        event.next() == (StartupAction::<X, S>::LoadState { loaded }) <==> event == (
        StartupEvent::<X, S>::Replied { loaded: Some(loaded) }),
{
}

/// A client with nothing loaded gets to ask the backend whatever comes of the search for
/// extensions, and what the search found is registered before that.
pub proof fn backend_is_asked_after_the_search<X, S>(events: Seq<StartupEvent<X, S>>)
    requires
        startup_run(events),
        events.len() >= 3,
    ensures
        events[1] is ExtensionsSearched,
        events[1] == (StartupEvent::<X, S>::ExtensionsSearched { found: None })
            ==> events[1].next() is SendRequest,
        events[1] != (StartupEvent::<X, S>::ExtensionsSearched { found: None })
            ==> events[1].next() is RegisterExtensions && events[2].next() is SendRequest,
{
    assert(events[1 - 1].next().leads_to(events[1]));
    assert(events[2 - 1].next().leads_to(events[2]));
}

// ---- the user's files ----

/// Whether the files count as loaded before anything has been done: on mock data nothing
/// is fetched.
pub open spec fn files_loaded_from_start(use_mock: bool) -> bool {
    use_mock
}

/// Whether the files count as loaded when the client starts.
pub fn files_start_loaded(use_mock: bool) -> (res: bool)
    ensures
        res == files_loaded_from_start(use_mock),
{
    use_mock
}

/// What has happened to the task that loads the user's files. `S` are files.
#[derive(Debug, PartialEq, Eq)]
pub enum FilesEvent<S> {
    /// The task began; the files may count as loaded already.
    Started { loaded: bool },
    /// The request for the current directory was handed to the backend, or could not be.
    Sent { delivered: bool },
    /// The backend replied: with the files, or with an error.
    Replied { listed: Option<S> },
}

/// What the task does next.
#[derive(Debug, PartialEq, Eq)]
pub enum FilesAction<S> {
    /// Ask the backend for the current directory.
    SendRequest,
    /// Wait for the backend's reply.
    AwaitReply,
    /// Count the files as loaded, after storing those of the reply if there are any.
    Finish { store: Option<S> },
    /// End, and leave everything as it is.
    Stop,
}

impl<S> FilesEvent<S> {
    /// What the task does next: the files that it stores are those of the reply.
    pub open spec fn next(self) -> FilesAction<S> {
        match self {
            FilesEvent::Started { loaded } => {
                if loaded {
                    FilesAction::Stop
                } else {
                    FilesAction::SendRequest
                }
            },
            FilesEvent::Sent { delivered } => {
                if delivered {
                    FilesAction::AwaitReply
                } else {
                    FilesAction::Stop
                }
            },
            FilesEvent::Replied { listed } => FilesAction::Finish { store: listed },
        }
    }
}

impl<S> FilesAction<S> {
    /// `event` is something that can come of the action.
    pub open spec fn leads_to(self, event: FilesEvent<S>) -> bool {
        match self {
            FilesAction::SendRequest => event is Sent,
            FilesAction::AwaitReply => event is Replied,
            FilesAction::Finish { .. } | FilesAction::Stop => false,
        }
    }
}

/// Decides what the task that loads the user's files does after `event`.
pub fn on_files_event<S>(event: FilesEvent<S>) -> (res: FilesAction<S>)
    ensures
        res == event.next(),
{
    match event {
        FilesEvent::Started { loaded: true } => FilesAction::Stop,
        FilesEvent::Started { loaded: false } => FilesAction::SendRequest,
        FilesEvent::Sent { delivered: true } => FilesAction::AwaitReply,
        FilesEvent::Sent { delivered: false } => FilesAction::Stop,
        FilesEvent::Replied { listed } => FilesAction::Finish { store: listed },
    }
}

/// A run of the task that loads the user's files.
pub open spec fn files_run<S>(events: Seq<FilesEvent<S>>) -> bool {
    &&& events.len() > 0 ==> events[0] is Started
    &&& forall|i: int|
        0 < i < events.len() ==> events[i - 1].next().leads_to(#[trigger] events[i])
}

/// The files come to count as loaded exactly when the backend replied, whatever it
/// replied; the files that are stored are those that the reply holds, if it holds any.
pub proof fn any_reply_ends_loading<S>(events: Seq<FilesEvent<S>>, i: int)
    requires
        files_run(events),
        0 <= i < events.len(),
    ensures
        events[i].next() is Finish <==> events[i] is Replied,
        events[i].next() matches FilesAction::Finish { store } ==> events[i]
            == (FilesEvent::<S>::Replied { listed: store }),
        events[i].next() is Finish ==> i == 2 && events.len() == 3,
{
    if i + 1 < events.len() {
        assert(events[i + 1 - 1].next().leads_to(events[i + 1]));
    }
}

/// A request that could not be handed over ends the task with the files still to load.
pub proof fn undelivered_request_loads_nothing<S>(events: Seq<FilesEvent<S>>, i: int)
    requires
        files_run(events),
        0 <= i < events.len(),
        events[i] == (FilesEvent::<S>::Sent { delivered: false }),
    ensures
        events[i].next() is Stop,
        i == events.len() - 1,
        forall|j: int| 0 <= j < events.len() ==> !(#[trigger] events[j].next() is Finish),
{
    if i + 1 < events.len() {
        assert(events[i + 1 - 1].next().leads_to(events[i + 1]));
    }
    assert forall|j: int| 0 <= j < events.len() implies !(#[trigger] events[j].next() is Finish) by {
        any_reply_ends_loading(events, j);
    }
}

/// On mock data the files are not asked for.
pub proof fn mock_data_fetches_no_files<S>(events: Seq<FilesEvent<S>>)
    requires
        files_run(events),
        events.len() > 0,
        events[0] == (FilesEvent::<S>::Started { loaded: files_loaded_from_start(true) }),
    ensures
        events.len() == 1,
        events[0].next() is Stop,
{
    if events.len() > 1 {
        assert(events[1 - 1].next().leads_to(events[1]));
    }
}

/// Files count as loaded from the start exactly on mock data.
pub proof fn files_are_loaded_from_start_on_mock_data(use_mock: bool)
    ensures
        files_loaded_from_start(use_mock) <==> use_mock,
{
}

/// What the task that loads the files does, and what alone has it do that.
pub proof fn files_are_loaded_step_by_step<S>(event: FilesEvent<S>, listed: Option<S>)
    ensures
        event.next() is SendRequest <==> event == (FilesEvent::<S>::Started { loaded: false }),
        event.next() is AwaitReply <==> event == (FilesEvent::<S>::Sent { delivered: true }),
        event.next() == (FilesAction::<S>::Finish { store: listed }) <==> event == (FilesEvent::<
            S,
        >::Replied { listed }),
        event.next() is Stop <==> event == (FilesEvent::<S>::Started { loaded: true }) || event == (
        FilesEvent::<S>::Sent { delivered: false }),
{
}

/// Off mock data the backend is asked for the files, and whatever files it lists are stored.
pub proof fn listed_files_are_stored<S>(events: Seq<FilesEvent<S>>, files: S)
    requires
        files_run(events),
        events.len() > 0,
        events[0] == (FilesEvent::<S>::Started { loaded: files_loaded_from_start(false) }),
    ensures
        events[0].next() is SendRequest,
        events.len() > 2 ==> events[2] is Replied,
        events.len() > 2 && events[2] == (FilesEvent::<S>::Replied { listed: Some(files) })
            ==> events[2].next() == (FilesAction::<S>::Finish { store: Some(files) }),
{
    if events.len() > 2 {
        assert(events[1 - 1].next().leads_to(events[1]));
        assert(events[2 - 1].next().leads_to(events[2]));
    }
}

// ---- new extensions ----

/// What has happened to the task that watches the extension directory. `X` are extensions.
#[derive(Debug, PartialEq, Eq)]
pub enum WatchEvent<X> {
    /// A watcher was made, or could not be.
    WatcherMade { made: bool },
    /// The extension directory, with all below it, is being watched, or cannot be.
    DirectoryAdded { added: bool },
    /// The watcher reported a change, or an error of its own.
    Notified { change: bool },
    /// The search for extensions is over, with a result or without.
    ExtensionsSearched { found: Option<X> },
    /// The extensions stand in the state.
    ExtensionsRegistered,
    /// The watcher has ended.
    Closed,
}

/// What the task does next.
#[derive(Debug, PartialEq, Eq)]
pub enum WatchAction<X> {
    /// Watch the extension directory and all below it.
    AddDirectory,
    /// Wait for the watcher's next report.
    AwaitNotification,
    /// Search for extensions.
    SearchExtensions,
    /// Hand the extensions that were found to the state.
    RegisterExtensions { extensions: X },
    /// End.
    Stop,
}

impl<X> WatchEvent<X> {
    /// What the task does next: what it hands to the state is what was found.
    pub open spec fn next(self) -> WatchAction<X> {
        match self {
            WatchEvent::WatcherMade { made } => {
                if made {
                    WatchAction::AddDirectory
                } else {
                    WatchAction::Stop
                }
            },
            WatchEvent::DirectoryAdded { added } => {
                if added {
                    WatchAction::AwaitNotification
                } else {
                    WatchAction::Stop
                }
            },
            WatchEvent::Notified { change } => {
                if change {
                    WatchAction::SearchExtensions
                } else {
                    WatchAction::AwaitNotification
                }
            },
            WatchEvent::ExtensionsSearched { found } => match found {
                Some(extensions) => WatchAction::RegisterExtensions { extensions },
                None => WatchAction::AwaitNotification,
            },
            WatchEvent::ExtensionsRegistered => WatchAction::AwaitNotification,
            WatchEvent::Closed => WatchAction::Stop,
        }
    }
}

impl<X> WatchAction<X> {
    /// `event` is something that can come of the action.
    pub open spec fn leads_to(self, event: WatchEvent<X>) -> bool {
        match self {
            WatchAction::AddDirectory => event is DirectoryAdded,
            WatchAction::AwaitNotification => event is Notified || event is Closed,
            WatchAction::SearchExtensions => event is ExtensionsSearched,
            WatchAction::RegisterExtensions { .. } => event is ExtensionsRegistered,
            WatchAction::Stop => false,
        }
    }
}

/// Decides what the task that watches the extension directory does after `event`.
pub fn on_watch_event<X>(event: WatchEvent<X>) -> (res: WatchAction<X>)
    ensures
        res == event.next(),
{
    match event {
        WatchEvent::WatcherMade { made: true } => WatchAction::AddDirectory,
        WatchEvent::WatcherMade { made: false } => WatchAction::Stop,
        WatchEvent::DirectoryAdded { added: true } => WatchAction::AwaitNotification,
        WatchEvent::DirectoryAdded { added: false } => WatchAction::Stop,
        WatchEvent::Notified { change: true } => WatchAction::SearchExtensions,
        WatchEvent::Notified { change: false } => WatchAction::AwaitNotification,
        WatchEvent::ExtensionsSearched { found: Some(extensions) } => {
            WatchAction::RegisterExtensions { extensions }
        },
        WatchEvent::ExtensionsSearched { found: None } => WatchAction::AwaitNotification,
        WatchEvent::ExtensionsRegistered => WatchAction::AwaitNotification,
        WatchEvent::Closed => WatchAction::Stop,
    }
}

/// A run of the task that watches the extension directory.
pub open spec fn watch_run<X>(events: Seq<WatchEvent<X>>) -> bool {
    &&& events.len() > 0 ==> events[0] is WatcherMade
    &&& forall|i: int|
        0 < i < events.len() ==> events[i - 1].next().leads_to(#[trigger] events[i])
}

/// Extensions are searched for exactly when the watcher reports a change, and handed to
/// the state exactly when a search has a result: that result, of a search that a change
/// set off.
pub proof fn changes_are_searched<X>(events: Seq<WatchEvent<X>>, i: int)
    requires
        watch_run(events),
        0 <= i < events.len(),
    ensures
        events[i].next() is SearchExtensions <==> events[i] == (WatchEvent::<X>::Notified {
            change: true,
        }),
        events[i].next() is RegisterExtensions <==> (
        events[i] matches WatchEvent::ExtensionsSearched { found } && found is Some),
        events[i].next() matches WatchAction::RegisterExtensions { extensions } ==> events[i]
            == (WatchEvent::<X>::ExtensionsSearched { found: Some(extensions) }) && i > 0
            && events[i - 1] == (WatchEvent::<X>::Notified { change: true }),
{
}

/// Once the directory is watched, neither an error of the watcher nor a search without a
/// result ends the task: it runs until the watcher has ended.
pub proof fn watch_survives_errors<X>(events: Seq<WatchEvent<X>>, i: int)
    requires
        watch_run(events),
        2 <= i < events.len(),
    ensures
        events[i].next() is Stop <==> events[i] is Closed,
    decreases i,
{
    if i > 2 {
        watch_survives_errors(events, i - 1);
    }
}

/// What the task that watches for extensions does, and what alone has it do that.
pub proof fn watch_goes_step_by_step<X>(event: WatchEvent<X>, extensions: X)
    ensures
        event.next() is AddDirectory <==> event == (WatchEvent::<X>::WatcherMade { made: true }),
        event.next() is SearchExtensions <==> event == (WatchEvent::<X>::Notified { change: true }),
        event.next() == (WatchAction::<X>::RegisterExtensions { extensions }) <==> event == (
        WatchEvent::<X>::ExtensionsSearched { found: Some(extensions) }),
        event.next() is AwaitNotification <==> event == (WatchEvent::<X>::DirectoryAdded {
            added: true,
        }) || event == (WatchEvent::<X>::Notified { change: false }) || event == (WatchEvent::<
            X,
        >::ExtensionsSearched { found: None }) || event is ExtensionsRegistered,
        event.next() is Stop <==> event is Closed || event == (WatchEvent::<X>::WatcherMade {
            made: false,
        }) || event == (WatchEvent::<X>::DirectoryAdded { added: false }),
{
}

// ---- tasks that the clock drives ----

/// A task that wakes up at a fixed interval.
#[derive(Clone, Copy, Debug, PartialEq, Eq, Structural)]
pub enum TimedTask {
    /// Takes toasts away when their time is up.
    ClearToasts,
    /// Takes the marks of who is typing away when their time is up.
    ClearTyping,
    /// Has the age of messages shown anew.
    RefreshTimestamps,
    /// Looks for a newer release.
    CheckForUpdates,
}

impl TimedTask {
    /// Seconds between two rounds, where a mark of who is typing lasts `typing_timeout`.
    pub open spec fn period(self, typing_timeout: u64) -> u64 {
        match self {
            TimedTask::ClearToasts => 1,
            TimedTask::ClearTyping => typing_timeout,
            TimedTask::RefreshTimestamps => 60,
            TimedTask::CheckForUpdates => 86400,
        }
    }

    /// The task rests before its first round too. Only the look for a newer release comes
    /// as soon as the client runs.
    pub open spec fn rests_first(self) -> bool {
        !(self is CheckForUpdates)
    }

    /// Seconds that the task rests before its round number `round`, counted from 0.
    pub open spec fn rest_before(self, round: nat, typing_timeout: u64) -> u64 {
        if round == 0 && !self.rests_first() {
            0
        } else {
            self.period(typing_timeout)
        }
    }

    /// Seconds from the start of the task to its round number `round`, as far as it rests.
    pub open spec fn rested_until(self, round: nat, typing_timeout: u64) -> int
        decreases round,
    {
        if round == 0 {
            self.rest_before(0, typing_timeout) as int
        } else {
            self.rested_until((round - 1) as nat, typing_timeout) + self.rest_before(
                round,
                typing_timeout,
            )
        }
    }

    /// How many seconds the task sleeps between two rounds.
    pub fn period_secs(self, typing_timeout: u64) -> (res: u64)
        ensures
            res == self.period(typing_timeout),
    {
        match self {
            TimedTask::ClearToasts => 1,
            TimedTask::ClearTyping => typing_timeout,
            TimedTask::RefreshTimestamps => 60,
            TimedTask::CheckForUpdates => 3600 * 24,
        }
    }

    /// How many seconds the task sleeps before its next round, if it sleeps at all.
    pub fn sleep_before_round(self, first_round: bool, typing_timeout: u64) -> (res: Option<u64>)
        ensures
            res == if first_round && !self.rests_first() {
                None
            } else {
                Some(self.period(typing_timeout))
            },
            forall|round: nat|
                (round == 0) == first_round ==> #[trigger] self.rest_before(round, typing_timeout)
                    == match res {
                    Some(secs) => secs,
                    None => 0,
                },
    {
        match self {
            TimedTask::CheckForUpdates if first_round => None,
            _ => Some(self.period_secs(typing_timeout)),
        }
    }
}

/// Rounds come one period apart, the first a period after the start of the task; the look
/// for a newer release is one period ahead of that.
pub proof fn rounds_are_one_period_apart(task: TimedTask, round: nat, typing_timeout: u64)
    ensures
        task.rests_first() ==> task.rested_until(round, typing_timeout) == task.period(
            typing_timeout,
        ) * (round + 1),
        !task.rests_first() ==> task.rested_until(round, typing_timeout) == task.period(
            typing_timeout,
        ) * round,
    decreases round,
{
    let period = task.period(typing_timeout) as int;
    if round > 0 {
        rounds_are_one_period_apart(task, (round - 1) as nat, typing_timeout);
        assert(period * (round - 1) + period == period * round) by (nonlinear_arith);
        assert(period * round + period == period * (round + 1)) by (nonlinear_arith);
    } else {
        assert(period * 0 == 0 && period * (0 + 1) == period) by (nonlinear_arith);
    }
}

/// What a round of a task changes.
#[derive(Clone, Copy, Debug, PartialEq, Eq, Structural)]
pub enum RoundEffect {
    /// Nothing.
    Nothing,
    /// Every toast has one second less, and the client is drawn anew.
    AgeToasts,
    /// The client is drawn anew.
    Redraw,
}

/// What a round of the task that takes toasts away changes.
pub open spec fn toast_round(has_toasts: bool) -> RoundEffect {
    if has_toasts {
        RoundEffect::AgeToasts
    } else {
        RoundEffect::Nothing
    }
}

/// What a round of the task that takes typing marks away changes.
pub open spec fn typing_round(mark_cleared: bool) -> RoundEffect {
    if mark_cleared {
        RoundEffect::Redraw
    } else {
        RoundEffect::Nothing
    }
}

/// What a round of the task that has the age of messages shown anew changes.
pub open spec fn timestamp_round() -> RoundEffect {
    RoundEffect::Redraw
}

/// A round of the task that takes toasts away.
pub fn on_toast_round(has_toasts: bool) -> (res: RoundEffect)
    ensures
        res == if has_toasts {
            RoundEffect::AgeToasts
        } else {
            RoundEffect::Nothing
        },
        res == toast_round(has_toasts),
{
    if !has_toasts {
        return RoundEffect::Nothing;
    }
    RoundEffect::AgeToasts
}

/// A round of the task that takes typing marks away: the client is drawn anew only where
/// a mark was taken away.
pub fn on_typing_round(mark_cleared: bool) -> (res: RoundEffect)
    ensures
        res == if mark_cleared {
            RoundEffect::Redraw
        } else {
            RoundEffect::Nothing
        },
        res == typing_round(mark_cleared),
{
    if mark_cleared {
        RoundEffect::Redraw
    } else {
        RoundEffect::Nothing
    }
}

/// A round of the task that has the age of messages shown anew: the client is drawn anew
/// in every one.
pub fn on_timestamp_round() -> (res: RoundEffect)
    ensures
        res == RoundEffect::Redraw,
        res == timestamp_round(),
{
    RoundEffect::Redraw
}

/// How long tasks rest between two rounds: typing marks are looked at as often as they last;
/// of the others, none asks how long that is, toasts are aged every second, messages sixty
/// times as seldom, and releases are looked for once in a day of such minutes.
pub proof fn periods_are_seconds_minutes_and_days(typing_timeout: u64, other_timeout: u64)
    ensures
        TimedTask::ClearTyping.period(typing_timeout) == typing_timeout,
        TimedTask::ClearToasts.period(typing_timeout) == 1,
        TimedTask::RefreshTimestamps.period(typing_timeout) == 60 * TimedTask::ClearToasts.period(
            other_timeout,
        ),
        TimedTask::CheckForUpdates.period(typing_timeout) == 24 * 60
            * TimedTask::RefreshTimestamps.period(other_timeout),
{
}

/// Every task but the look for a newer release rests before its first round, and all rest
/// for the same time before each of the others.
pub proof fn all_but_the_update_check_rest_first(
    task: TimedTask,
    round: nat,
    other_round: nat,
    typing_timeout: u64,
)
    ensures
        task.rests_first() <==> !(task is CheckForUpdates),
        task.rests_first() ==> task.rest_before(round, typing_timeout) == task.period(
            typing_timeout,
        ),
        task is CheckForUpdates ==> task.rest_before(0, typing_timeout) == 0,
        round > 0 && other_round > 0 ==> task.rest_before(round, typing_timeout)
            == task.rest_before(other_round, typing_timeout),
        round > 0 ==> task.rest_before(round, typing_timeout) == task.period(typing_timeout),
{
}

/// A round changes something exactly where there is something to change: toasts grow older
/// where there are any, the client is drawn anew where a typing mark was taken away, and in
/// every round that shows the age of messages.
pub proof fn rounds_change_what_there_is(has_toasts: bool, mark_cleared: bool)
    ensures
        toast_round(has_toasts) is AgeToasts <==> has_toasts,
        toast_round(has_toasts) is Nothing <==> !has_toasts,
        typing_round(mark_cleared) is Redraw <==> mark_cleared,
        typing_round(mark_cleared) is Nothing <==> !mark_cleared,
        timestamp_round() is Redraw,
{
}

} // verus!
