//! Short messages that come up over the client.

use uuid::Uuid;
use vstd::prelude::*;

verus! {

/// A short message, with an icon of the toolkit's if it has one.
#[derive(Debug, PartialEq, Eq)]
pub struct ToastNotification<I> {
    pub title: String,
    pub content: String,
    pub icon: Option<I>,
}

/// The icon of a toast.
#[derive(Debug, PartialEq, Eq)]
pub enum ToastIcon<I> {
    /// The one that the message brought along.
    Own(I),
    /// The one of messages that brought none.
    InformationCircle,
}

/// A short message as it is shown.
#[derive(Debug, PartialEq, Eq)]
pub struct Toast<I> {
    pub id: Uuid,
    pub with_title: String,
    pub with_content: String,
    pub icon: ToastIcon<I>,
}

impl<I> Toast<I> {
    /// The toast shows the message `entry.1`, which goes by `entry.0`.
    pub open spec fn shows(self, entry: (Uuid, ToastNotification<I>)) -> bool {
        &&& self.id == entry.0
        &&& self.with_title@ == entry.1.title@
        &&& self.with_content@ == entry.1.content@
        &&& self.icon == match entry.1.icon {
            Some(icon) => ToastIcon::Own(icon),
            None => ToastIcon::InformationCircle,
        }
    }
}

/// `toasts` show `notifications`, one each and in their order.
pub open spec fn all_shown<I>(
    toasts: Seq<Toast<I>>,
    notifications: Seq<(Uuid, ToastNotification<I>)>,
) -> bool {
    &&& toasts.len() == notifications.len()
    &&& forall|i: int| 0 <= i < notifications.len() ==> (#[trigger] toasts[i]).shows(notifications[i])
}

/// The toasts for `notifications`, one for each, in the order in which they are given.
pub fn get_toasts<I: Copy>(notifications: &Vec<(Uuid, ToastNotification<I>)>) -> (res: Vec<
    Toast<I>,
>)
    ensures
        res@.len() == notifications@.len(),
        forall|i: int|
            0 <= i < notifications@.len() ==> (#[trigger] res@[i]).shows(notifications@[i]),
        all_shown(res@, notifications@),
{
    let mut toasts: Vec<Toast<I>> = Vec::new();
    let mut i: usize = 0;
    while i < notifications.len()
        invariant
            i <= notifications.len(),
            toasts@.len() == i,
            forall|j: int| 0 <= j < i ==> (#[trigger] toasts@[j]).shows(notifications@[j]),
        decreases notifications.len() - i,
    {
        let id: Uuid = notifications[i].0;
        let notification: &ToastNotification<I> = &notifications[i].1;
        let icon: ToastIcon<I> = match notification.icon {
            Some(icon) => ToastIcon::Own(icon),
            None => ToastIcon::InformationCircle,
        };
        toasts.push(
            Toast {
                id,
                with_title: notification.title.clone(),
                with_content: notification.content.clone(),
                icon,
            },
        );
        i = i + 1;
    }
    toasts
}

/// A toast goes by the id of its message, says what the message says, and has the icon that
/// the message brought along, or the one of messages that brought none.
pub proof fn toast_says_what_its_message_says<I>(
    toast: Toast<I>,
    entry: (Uuid, ToastNotification<I>),
    icon: I,
)
    requires
        toast.shows(entry),
    ensures
        toast.id == entry.0,
        toast.with_title@ == entry.1.title@,
        toast.with_content@ == entry.1.content@,
        toast.icon == ToastIcon::Own(icon) <==> entry.1.icon == Some(icon),
        toast.icon is InformationCircle <==> entry.1.icon is None,
{
}

/// Every message has its own toast, in its own place, and a message that comes in behind
/// the others changes none of theirs.
pub proof fn every_message_has_its_toast<I>(
    toasts: Seq<Toast<I>>,
    notifications: Seq<(Uuid, ToastNotification<I>)>,
    i: int,
)
    requires
        all_shown(toasts, notifications),
        0 <= i < notifications.len(),
    ensures
        toasts.len() == notifications.len(),
        toasts[i].id == notifications[i].0,
        toasts[i].with_title@ == notifications[i].1.title@,
        toasts[i].with_content@ == notifications[i].1.content@,
        toasts[i].icon is InformationCircle <==> notifications[i].1.icon is None,
        toasts[i].icon matches ToastIcon::Own(icon) ==> notifications[i].1.icon == Some(icon),
        all_shown(toasts.drop_last(), notifications.drop_last()),
{
    assert(toasts[i].shows(notifications[i]));
    assert forall|j: int| 0 <= j < notifications.drop_last().len() implies (
    #[trigger] toasts.drop_last()[j]).shows(notifications.drop_last()[j]) by {
        assert(toasts[j].shows(notifications[j]));
    }
}

} // verus!
