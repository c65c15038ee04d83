//! Incoming calls: which one the user is asked about, who is calling, and what becomes of
//! the answer.

use uuid::Uuid;
use vstd::prelude::*;

use crate::text::TextKey;

verus! {

/// Someone who takes part in a call: their key, and what is shown of them.
#[derive(Debug, PartialEq, Eq)]
pub struct Participant<P> {
    pub did_key: String,
    pub profile: P,
}

/// What the user answers to a call.
#[derive(Clone, Copy, Debug, PartialEq, Eq)]
pub enum CallDialogCmd {
    Accept(Uuid),
    Reject(Uuid),
}

/// The dialog of an incoming call.
#[derive(Debug, PartialEq, Eq)]
pub struct CallDialog<P> {
    /// Those who call, the user left out.
    pub callers: Vec<Participant<P>>,
    pub description: TextKey,
    /// What the button that takes the call answers.
    pub accept: CallDialogCmd,
    /// What the button that refuses the call answers.
    pub deny: CallDialogCmd,
}

/// The call that the user is asked about, if any.
pub open spec fn asked_call<C>(in_call: bool, pending: Seq<C>) -> Option<C> {
    if in_call || pending.len() == 0 {
        None
    } else {
        Some(pending[0])
    }
}

/// Decides which call the user is asked about: the first that waits, unless the user is
/// in a call already.
pub fn call_to_ask_about<C>(in_call: bool, pending: &Vec<C>) -> (res: Option<&C>)
    ensures
        res is Some <==> !in_call && pending@.len() > 0,
        res matches Some(call) ==> *call == pending@[0],
        asked_call(in_call, pending@) == match res {
            Some(call) => Some(*call),
            None => None,
        },
{
    if in_call || pending.len() == 0 {
        None
    } else {
        Some(&pending[0])
    }
}

/// Someone other than the user with key `own`.
pub open spec fn is_other<P>(own: Seq<char>) -> spec_fn(Participant<P>) -> bool {
    |participant: Participant<P>| participant.did_key@ != own
}

/// Those who call, of all who take part, for the user with key `own`.
pub open spec fn callers<P>(identities: Seq<Participant<P>>, own: Seq<char>) -> Seq<Participant<P>> {
    identities.filter(is_other::<P>(own))
}

/// What the two buttons of the dialog of the call `id` answer: the one that takes the call,
/// and the one that refuses it.
pub open spec fn dialog_answers(id: Uuid) -> (CallDialogCmd, CallDialogCmd) {
    (CallDialogCmd::Accept(id), CallDialogCmd::Reject(id))
}

/// What the dialog of every call says.
pub open spec fn dialog_description() -> TextKey {
    TextKey::IncomingCall
}

/// Lays out the dialog of the call `id` between `identities`, one of whom may be the user
/// with key `own_did`. The others are shown in the order in which they are given.
pub fn get_call_dialog<P>(id: Uuid, identities: Vec<Participant<P>>, own_did: &String) -> (res:
    CallDialog<P>)
    ensures
        res.callers@ == identities@.filter(is_other::<P>(own_did@)),
        res.description == TextKey::IncomingCall,
        res.accept == CallDialogCmd::Accept(id),
        res.deny == CallDialogCmd::Reject(id),
        res.callers@ == callers(identities@, own_did@),
        (res.accept, res.deny) == dialog_answers(id),
        res.description == dialog_description(),
{
    let callers: Vec<Participant<P>> = without_user(identities, own_did);
    CallDialog {
        callers,
        description: TextKey::IncomingCall,
        accept: CallDialogCmd::Accept(id),
        deny: CallDialogCmd::Reject(id),
    }
}

/// Leaves the user out of those who take part in a call.
fn without_user<P>(identities: Vec<Participant<P>>, own_did: &String) -> (res: Vec<Participant<P>>)
    ensures
        res@ == identities@.filter(is_other::<P>(own_did@)),
{
    let ghost all = identities@;
    let ghost keep = is_other::<P>(own_did@);
    let mut rest: Vec<Participant<P>> = identities;
    let mut i: usize = rest.len();
    assert(all.take(i as int) =~= all);
    while i > 0
        invariant
            keep == is_other::<P>(own_did@),
            i <= rest.len(),
            i <= all.len(),
            rest@.take(i as int) == all.take(i as int),
            all.filter(keep) == all.take(i as int).filter(keep) + rest@.skip(i as int),
        decreases i,
    {
        let ghost before = rest@;
        let ghost head = all.take(i as int);
        i = i - 1;
        proof {
            reveal_with_fuel(Seq::filter, 2);
            assert(head.drop_last() =~= all.take(i as int));
            assert(before.take(i as int) =~= all.take(i as int));
        }
        if rest[i].did_key == *own_did {
            rest.remove(i);
        } else {
            assert(all.take(i as int).filter(keep).push(before[i as int]) + before.skip(i + 1)
                =~= all.take(i as int).filter(keep) + before.skip(i as int));
        }
    }
    assert(all.take(0).filter(keep) =~= Seq::<Participant<P>>::empty()) by {
        reveal_with_fuel(Seq::filter, 1);
    }
    rest
}

/// The user never stands among those who call.
pub proof fn user_is_no_caller<P>(identities: Seq<Participant<P>>, own: Seq<char>, i: int)
    requires
        0 <= i < identities.filter(is_other::<P>(own)).len(),
    ensures
        identities.filter(is_other::<P>(own))[i].did_key@ != own,
{
    identities.lemma_filter_pred(is_other::<P>(own), i);
}

/// Everyone else who takes part in a call stands among those who call.
pub proof fn everyone_else_is_a_caller<P>(identities: Seq<Participant<P>>, own: Seq<char>, i: int)
    requires
        0 <= i < identities.len(),
        identities[i].did_key@ != own,
    ensures
        identities.filter(is_other::<P>(own)).contains(identities[i]),
{
    identities.lemma_filter_contains(is_other::<P>(own), i);
}

// ---- the answer ----

/// What has happened to the task that carries out answers.
#[derive(Clone, Copy, Debug, PartialEq, Eq)]
pub enum AnswerEvent {
    /// The user answered a call.
    Answered(CallDialogCmd),
    /// The backend was told to take the call, or could not be.
    Sent { id: Uuid, delivered: bool },
    /// The backend replied, or went away without a reply. What it replied is not looked at.
    Replied { id: Uuid, received: bool },
    /// The answer has been carried out.
    Done,
    /// The user cannot answer any more: the dialogs are gone.
    Closed,
}

/// What the task does next.
#[derive(Clone, Copy, Debug, PartialEq, Eq)]
pub enum AnswerAction {
    /// Tell the backend to take the call.
    SendAnswer { id: Uuid },
    /// Wait for the backend's reply.
    AwaitReply { id: Uuid },
    /// Show the call as taken.
    ShowTaken { id: Uuid },
    /// Take the call off those that wait.
    DropCall { id: Uuid },
    /// Wait for the user's next answer.
    AwaitAnswer,
    /// End.
    Stop,
}

impl AnswerEvent {
    /// What the task does next.
    pub open spec fn next(self) -> AnswerAction {
        match self {
            AnswerEvent::Answered(CallDialogCmd::Accept(id)) => AnswerAction::SendAnswer { id },
            AnswerEvent::Answered(CallDialogCmd::Reject(id)) => AnswerAction::DropCall { id },
            AnswerEvent::Sent { id, delivered } => {
                if delivered {
                    AnswerAction::AwaitReply { id }
                } else {
                    AnswerAction::AwaitAnswer
                }
            },
            AnswerEvent::Replied { id, received } => {
                if received {
                    AnswerAction::ShowTaken { id }
                } else {
                    AnswerAction::AwaitAnswer
                }
            },
            AnswerEvent::Done => AnswerAction::AwaitAnswer,
            AnswerEvent::Closed => AnswerAction::Stop,
        }
    }
}

impl AnswerAction {
    /// `event` is something that can come of the action.
    pub open spec fn leads_to(self, event: AnswerEvent) -> bool {
        match self {
            AnswerAction::SendAnswer { id: sent } => event matches AnswerEvent::Sent { id, .. }
                && id == sent,
            AnswerAction::AwaitReply { id: awaited } => event matches AnswerEvent::Replied {
                id,
                ..
            } && id == awaited,
            AnswerAction::ShowTaken { .. } | AnswerAction::DropCall { .. } => event is Done,
            AnswerAction::AwaitAnswer => event is Answered || event is Closed,
            AnswerAction::Stop => false,
        }
    }
}

/// Decides what the task that carries out answers does after `event`.
pub fn on_answer_event(event: AnswerEvent) -> (res: AnswerAction)
    ensures
        res == event.next(),
{
    match event {
        AnswerEvent::Answered(CallDialogCmd::Accept(id)) => AnswerAction::SendAnswer { id },
        AnswerEvent::Answered(CallDialogCmd::Reject(id)) => AnswerAction::DropCall { id },
        AnswerEvent::Sent { id, delivered: true } => AnswerAction::AwaitReply { id },
        AnswerEvent::Sent { delivered: false, .. } => AnswerAction::AwaitAnswer,
        AnswerEvent::Replied { id, received: true } => AnswerAction::ShowTaken { id },
        AnswerEvent::Replied { received: false, .. } => AnswerAction::AwaitAnswer,
        AnswerEvent::Done => AnswerAction::AwaitAnswer,
        AnswerEvent::Closed => AnswerAction::Stop,
    }
}

/// A run of the task that carries out answers.
pub open spec fn answer_run(events: Seq<AnswerEvent>) -> bool {
    &&& events.len() > 0 ==> events[0] is Answered || events[0] is Closed
    &&& forall|i: int|
        0 < i < events.len() ==> events[i - 1].next().leads_to(#[trigger] events[i])
}

/// A call is shown as taken only where the user accepted that very call, the backend was
/// told, and the backend replied.
pub proof fn only_accepted_calls_are_taken(events: Seq<AnswerEvent>, i: int, id: Uuid)
    requires
        answer_run(events),
        0 <= i < events.len(),
        events[i].next() == (AnswerAction::ShowTaken { id }),
    ensures
        i >= 2,
        events[i] == (AnswerEvent::Replied { id, received: true }),
        events[i - 1] == (AnswerEvent::Sent { id, delivered: true }),
        events[i - 2] == AnswerEvent::Answered(CallDialogCmd::Accept(id)),
{
}

/// Refusing a call drops that call and tells the backend nothing.
pub proof fn refused_call_is_dropped(events: Seq<AnswerEvent>, i: int, id: Uuid)
    requires
        answer_run(events),
        0 <= i < events.len(),
        events[i] == AnswerEvent::Answered(CallDialogCmd::Reject(id)),
    ensures
        events[i].next() == (AnswerAction::DropCall { id }),
        i + 1 < events.len() ==> events[i + 1].next() is AwaitAnswer,
{
}

/// The task ends only when the user cannot answer any more, never over an answer that
/// could not be carried out.
pub proof fn answers_end_with_dialogs(events: Seq<AnswerEvent>, i: int)
    requires
        answer_run(events),
        0 <= i < events.len(),
    ensures
        events[i].next() is Stop <==> events[i] is Closed,
        events[i] is Closed ==> i == events.len() - 1,
{
    if i + 1 < events.len() {
        assert(events[i + 1 - 1].next().leads_to(events[i + 1]));
    }
}

/// The task always comes back for the next answer: whatever happens, it waits for one
/// within three further events.
pub proof fn every_answer_is_finished(events: Seq<AnswerEvent>, i: int)
    requires
        answer_run(events),
        0 <= i,
        i + 3 < events.len(),
        events[i] is Answered,
    ensures
        exists|j: int| i < j <= i + 3 && (#[trigger] events[j]).next() is AwaitAnswer,
{
    assert(events[i + 3 - 1].next().leads_to(events[i + 3]));
}

/// A user who is in a call is asked about none; any other is asked about the first that
/// waits, whatever waits behind it.
pub proof fn first_waiting_call_is_asked_about<C>(pending: Seq<C>, call: C, behind: Seq<C>)
    ensures
        asked_call(true, pending) is None,
        asked_call(false, Seq::<C>::empty()) is None,
        asked_call(false, seq![call] + behind) == Some(call),
        asked_call(false, pending) is None <==> pending.len() == 0,
        pending.len() > 0 ==> asked_call(false, pending + behind) == asked_call(false, pending),
{
}

/// Those who call are all who take part but the user, in the order in which they are given:
/// one more participant is one more caller, at the end, unless that is the user, who changes
/// nothing.
pub proof fn participant_is_a_caller_unless_the_user<P>(
    identities: Seq<Participant<P>>,
    participant: Participant<P>,
    own: Seq<char>,
)
    ensures
        callers(Seq::<Participant<P>>::empty(), own).len() == 0,
        participant.did_key@ == own ==> callers(identities.push(participant), own) == callers(
            identities,
            own,
        ),
        participant.did_key@ != own ==> callers(identities.push(participant), own) == callers(
            identities,
            own,
        ).push(participant),
{
    reveal_with_fuel(Seq::filter, 2);
    assert(identities.push(participant).drop_last() =~= identities);
}

/// Of a call between others, all are callers.
pub proof fn call_between_others_keeps_everyone<P>(identities: Seq<Participant<P>>, own: Seq<char>)
    requires
        forall|i: int| 0 <= i < identities.len() ==> (#[trigger] identities[i]).did_key@ != own,
    ensures
        callers(identities, own) == identities,
    decreases identities.len(),
{
    reveal_with_fuel(Seq::filter, 2);
    if identities.len() > 0 {
        let shorter = identities.drop_last();
        assert forall|i: int| 0 <= i < shorter.len() implies (#[trigger] shorter[i]).did_key@
            != own by {
            assert(shorter[i] == identities[i]);
        }
        call_between_others_keeps_everyone(shorter, own);
        assert(identities =~= shorter.push(identities.last()));
    } else {
        assert(callers(identities, own) =~= identities);
    }
}

/// The buttons of a dialog carry out what they say, on the call that the dialog is about:
/// the one has the backend told to take that call, the other has that call dropped.
pub proof fn buttons_answer_their_call(id: Uuid)
    ensures
        AnswerEvent::Answered(dialog_answers(id).0).next() == (AnswerAction::SendAnswer { id }),
        AnswerEvent::Answered(dialog_answers(id).1).next() == (AnswerAction::DropCall { id }),
        dialog_answers(id).0 is Accept,
        dialog_answers(id).1 is Reject,
        dialog_description().key() == "remote-controls.incoming-call"@,
{
}

/// What the task does, and what alone has it do that: it tells the backend of a call that
/// the user accepts, waits for the reply to what was delivered, shows as taken what the
/// backend replied to, drops what the user refuses, and otherwise waits for the next answer.
pub proof fn answers_are_carried_out(event: AnswerEvent, id: Uuid)
    ensures
        event.next() == (AnswerAction::SendAnswer { id }) <==> event == AnswerEvent::Answered(
            CallDialogCmd::Accept(id),
        ),
        event.next() == (AnswerAction::DropCall { id }) <==> event == AnswerEvent::Answered(
            CallDialogCmd::Reject(id),
        ),
        event.next() == (AnswerAction::AwaitReply { id }) <==> event == (AnswerEvent::Sent {
            id,
            delivered: true,
        }),
        event.next() == (AnswerAction::ShowTaken { id }) <==> event == (AnswerEvent::Replied {
            id,
            received: true,
        }),
        event.next() is AwaitAnswer <==> event is Done || (event matches AnswerEvent::Sent {
            delivered,
            ..
        } && !delivered) || (event matches AnswerEvent::Replied { received, .. } && !received),
        event.next() is Stop <==> event is Closed,
{
}

/// A call that the user accepts is shown as taken once the backend was told and replied.
pub proof fn accepted_call_is_taken(events: Seq<AnswerEvent>, i: int, id: Uuid)
    requires
        answer_run(events),
        0 <= i,
        i + 2 < events.len(),
        events[i] == AnswerEvent::Answered(CallDialogCmd::Accept(id)),
        events[i + 1] matches AnswerEvent::Sent { delivered, .. } && delivered,
        events[i + 2] matches AnswerEvent::Replied { received, .. } && received,
    ensures
        events[i + 2].next() == (AnswerAction::ShowTaken { id }),
{
    assert(events[i + 1 - 1].next().leads_to(events[i + 1]));
    assert(events[i + 2 - 1].next().leads_to(events[i + 2]));
}

} // verus!
