//! The notification queue shared by the panels of a project window: a
//! bounded queue of messages and the number of messages ever pushed, from
//! which each reader learns what it has not seen yet.
use std::collections::VecDeque;

use vstd::prelude::*;

verus! {

/// The most messages the queue holds; older ones are dropped.
pub const MAX_MESSAGES: usize = 16;

/// A message waiting in the queue, and whether it reports a success.
pub struct QueuedNotification {
    message: String,
    success: bool,
}

impl View for QueuedNotification {
    type V = (Seq<char>, bool);

    closed spec fn view(&self) -> (Seq<char>, bool) {
        (self.message@, self.success)
    }
}

/// The views of a sequence of queued messages.
pub open spec fn queued_views(v: Seq<QueuedNotification>) -> Seq<(Seq<char>, bool)> {
    v.map_values(|q: QueuedNotification| q@)
}

/// A bounded queue of notifications.
pub struct UiNotifications {
    messages: VecDeque<QueuedNotification>,
    total_pushed: u64,
}

/// The mathematical value of a [`UiNotifications`]: the messages held, oldest
/// first, and how many messages were ever pushed (saturating).
pub struct NotificationsView {
    pub messages: Seq<(Seq<char>, bool)>,
    pub total_pushed: u64,
}

impl View for UiNotifications {
    type V = NotificationsView;

    closed spec fn view(&self) -> NotificationsView {
        NotificationsView { messages: queued_views(self.messages@), total_pushed: self.total_pushed }
    }
}

/// The queue holds at most [`MAX_MESSAGES`] messages, and no more than were pushed.
pub open spec fn notifications_wf(v: NotificationsView) -> bool {
    v.messages.len() <= MAX_MESSAGES && v.messages.len() <= v.total_pushed
}

/// `a + b`, or `u64::MAX` when that overflows.
pub open spec fn saturating_add_u64(a: u64, b: u64) -> u64 {
    if a + b > u64::MAX { u64::MAX } else { (a + b) as u64 }
}

/// `a - b`, or 0 when that underflows.
pub open spec fn saturating_sub_u64(a: u64, b: u64) -> u64 {
    if a < b { 0 } else { (a - b) as u64 }
}

/// The queue after pushing `m`: the oldest message leaves when the queue is full.
pub open spec fn push_spec(v: NotificationsView, m: (Seq<char>, bool)) -> NotificationsView {
    let kept = if v.messages.len() == MAX_MESSAGES { v.messages.drop_first() } else { v.messages };
    NotificationsView { messages: kept.push(m), total_pushed: saturating_add_u64(v.total_pushed, 1) }
}

/// The held messages a reader has not seen, given how many messages it had
/// seen (the total it got from its previous poll).
pub open spec fn unseen_spec(v: NotificationsView, seen: u64) -> Seq<(Seq<char>, bool)> {
    let held = v.messages.len();
    let first = saturating_sub_u64(v.total_pushed, held as u64);
    let skip = saturating_sub_u64(seen, first);
    let start = if skip < held { skip as int } else { held as int };
    v.messages.subrange(start, held as int)
}

impl Default for UiNotifications {
    fn default() -> (res: Self)
        ensures
            res@.messages == Seq::<(Seq<char>, bool)>::empty(),
            res@.total_pushed == 0,
            notifications_wf(res@),
    {
        UiNotifications::new()
    }
}

impl UiNotifications {
    /// An empty queue.
    pub fn new() -> (res: Self)
        ensures
            res@.messages == Seq::<(Seq<char>, bool)>::empty(),
            res@.total_pushed == 0,
            notifications_wf(res@),
    {
        let res = UiNotifications { messages: VecDeque::new(), total_pushed: 0 };
        assert(queued_views(res.messages@) =~= Seq::<(Seq<char>, bool)>::empty());
        res
    }

    /// The queue holds at most [`MAX_MESSAGES`] messages, and no more than
    /// were pushed.
    #[verifier::type_invariant]
    closed spec fn queue_invariant(self) -> bool {
        notifications_wf(self@)
    }

    /// Pushes a message, dropping the oldest one when the queue is full.
    fn push_inner(&mut self, message: String, success: bool)
        ensures
            final(self)@ == push_spec(old(self)@, (message@, success)),
            notifications_wf(final(self)@),
    {
        proof {
            use_type_invariant(&*self);
        }
        let mut messages: VecDeque<QueuedNotification> = VecDeque::new();
        std::mem::swap(&mut messages, &mut self.messages);
        let ghost before = messages@;
        assert(queued_views(before) == old(self)@.messages);
        if messages.len() == MAX_MESSAGES {
            messages.pop_front();
            assert(queued_views(messages@) =~= queued_views(before).drop_first());
        }
        let ghost kept = messages@;
        let item = QueuedNotification { message, success };
        messages.push_back(item);
        assert(queued_views(messages@) =~= queued_views(kept).push((message@, success)));
        let total_pushed = self.total_pushed.saturating_add(1);
        *self = UiNotifications { messages, total_pushed };
    }

    /// Pushes a failure notification.
    pub fn push(&mut self, message: String)
        ensures
            final(self)@ == push_spec(old(self)@, (message@, false)),
            notifications_wf(final(self)@),
    {
        self.push_inner(message, false);
    }

    /// Pushes a success notification.
    pub fn push_success(&mut self, message: String)
        ensures
            final(self)@ == push_spec(old(self)@, (message@, true)),
            notifications_wf(final(self)@),
    {
        self.push_inner(message, true);
    }

    /// The held messages a reader has not seen yet, with whether each is a
    /// success, and the total to pass next time.
    pub fn unseen_since(&self, seen: u64) -> (res: (Vec<(String, bool)>, u64))
        ensures
            res.0@.map_values(|p: (String, bool)| (p.0@, p.1)) == unseen_spec(self@, seen),
            res.1 == self@.total_pushed,
    {
        let held = self.messages.len() as u64;
        let first = self.total_pushed.saturating_sub(held);
        let skip = seen.saturating_sub(first);
        let start: usize = if skip < held { skip as usize } else { held as usize };
        let n = self.messages.len();
        let mut unseen: Vec<(String, bool)> = Vec::new();
        let mut i = start;
        assert(start <= n);
        while i < n
            invariant
                start <= i <= n,
                n == self.messages@.len(),
                unseen@.map_values(|p: (String, bool)| (p.0@, p.1)) == queued_views(self.messages@).subrange(
                    start as int,
                    i as int,
                ),
            decreases n - i,
        {
            let queued = &self.messages[i];
            assert(queued_views(self.messages@)[i as int] == queued@);
            let ghost prev = unseen@;
            unseen.push((queued.message.clone(), queued.success));
            assert(unseen@.map_values(|p: (String, bool)| (p.0@, p.1)) =~= prev.map_values(
                |p: (String, bool)| (p.0@, p.1),
            ).push(queued@));
            assert(queued_views(self.messages@).subrange(start as int, i + 1) =~= queued_views(
                self.messages@,
            ).subrange(start as int, i as int).push(queued@));
            i = i + 1;
        }
        (unseen, self.total_pushed)
    }
}


/// One push onto a queue that holds at most [`MAX_MESSAGES`] messages: the
/// queue then holds one more message, or as many when it was full; the new
/// message comes last, after the old messages (without the oldest when the
/// queue was full); and the count of pushes goes up by one, saturating.
pub proof fn lemma_push_shape(v: NotificationsView, m: (Seq<char>, bool))
    requires
        v.messages.len() <= MAX_MESSAGES,
    ensures
        push_spec(v, m).messages.len() == (if v.messages.len() + 1 <= MAX_MESSAGES {
            v.messages.len() + 1
        } else {
            MAX_MESSAGES as nat
        }),
        push_spec(v, m).messages.last() == m,
        push_spec(v, m).messages.drop_last() == (if v.messages.len() == MAX_MESSAGES {
            v.messages.drop_first()
        } else {
            v.messages
        }),
        push_spec(v, m).total_pushed == saturating_add_u64(v.total_pushed, 1),
{
    let kept = if v.messages.len() == MAX_MESSAGES { v.messages.drop_first() } else { v.messages };
    assert(kept.push(m).drop_last() =~= kept);
}

/// The queue after pushing the messages `ms`, in order.
pub open spec fn push_all(v: NotificationsView, ms: Seq<(Seq<char>, bool)>) -> NotificationsView
    decreases ms.len(),
{
    if ms.len() == 0 {
        v
    } else {
        push_spec(push_all(v, ms.drop_last()), ms.last())
    }
}

/// The last `k` elements of `s` (all of `s` when it is shorter).
pub open spec fn last_n<A>(s: Seq<A>, k: nat) -> Seq<A> {
    if s.len() <= k {
        s
    } else {
        s.subrange(s.len() - k, s.len() as int)
    }
}

/// After any pushes the queue holds the newest messages, at most
/// [`MAX_MESSAGES`] of them, and counts every push.
pub proof fn lemma_queue_keeps_newest(v: NotificationsView, ms: Seq<(Seq<char>, bool)>)
    requires
        notifications_wf(v),
        v.total_pushed + ms.len() <= u64::MAX,
    ensures
        push_all(v, ms).messages == last_n(v.messages + ms, MAX_MESSAGES as nat),
        push_all(v, ms).total_pushed == v.total_pushed + ms.len(),
        notifications_wf(push_all(v, ms)),
    decreases ms.len(),
{
    if ms.len() > 0 {
        let prefix = ms.drop_last();
        let m = ms.last();
        lemma_queue_keeps_newest(v, prefix);
        let w = push_all(v, prefix);
        let s = v.messages + prefix;
        assert(v.messages + ms =~= s.push(m));
        if s.len() < MAX_MESSAGES {
            assert(push_all(v, ms).messages =~= s.push(m));
        } else {
            assert(w.messages.len() == MAX_MESSAGES);
            assert(push_all(v, ms).messages =~= s.push(m).subrange(
                s.len() + 1 - MAX_MESSAGES as int,
                s.len() + 1 as int,
            ));
        }
    } else {
        assert(v.messages + ms =~= v.messages);
    }
}

/// A reader that polls with the total of its previous poll is handed
/// exactly the messages pushed since then, in order, as far as the queue
/// still holds them (the newest [`MAX_MESSAGES`]).
pub proof fn lemma_reader_sees_new_messages(v: NotificationsView, ms: Seq<(Seq<char>, bool)>)
    requires
        notifications_wf(v),
        v.total_pushed + ms.len() <= u64::MAX,
    ensures
        unseen_spec(push_all(v, ms), v.total_pushed) == last_n(ms, MAX_MESSAGES as nat),
{
    lemma_queue_keeps_newest(v, ms);
    let u = push_all(v, ms);
    let s = v.messages + ms;
    let k = ms.len();
    let held = u.messages.len();
    if held >= k {
        assert(u.messages.subrange(held - k, held as int) =~= ms);
    } else {
        assert(u.messages =~= ms.subrange(k - MAX_MESSAGES, k as int));
    }
}

} // verus!
