//! The client's adaptive sync scheduler.
//!
//! The gateway offers no push channel, so the client keeps its selected
//! conversation fresh by polling.  The scheduler tracks user activity,
//! whether a fetch is in flight, and when each conversation was last
//! updated; it picks the next sleep interval from the idle time and
//! decides on each wake-up whether to issue a `GetMessages` command.
//! Time is carried as milliseconds on the caller's clock.

use vstd::prelude::*;

verus! {

/// When one conversation was last updated.
pub struct StampEntry {
    pub chat_id: i64,
    pub at_ms: u64,
}

pub open spec fn stamps_have(s: Seq<StampEntry>, id: i64) -> bool {
    exists|i: int| 0 <= i < s.len() && s[i].chat_id == id
}

pub open spec fn stamps_index(s: Seq<StampEntry>, id: i64) -> int {
    choose|i: int| 0 <= i < s.len() && s[i].chat_id == id
}

pub open spec fn stamps_at(s: Seq<StampEntry>, id: i64) -> u64 {
    s[stamps_index(s, id)].at_ms
}

pub open spec fn distinct_stamps(s: Seq<StampEntry>) -> bool {
    forall|i: int, j: int| 0 <= i < j < s.len() ==> s[i].chat_id != s[j].chat_id
}

proof fn lemma_stamp_entry_unique(s: Seq<StampEntry>, id: i64, i: int)
    requires
        distinct_stamps(s),
        0 <= i < s.len(),
        s[i].chat_id == id,
    ensures
        stamps_have(s, id),
        stamps_index(s, id) == i,
        stamps_at(s, id) == s[i].at_ms,
{
    assert(stamps_have(s, id));
    let j = stamps_index(s, id);
    if j != i {
        assert(s[i].chat_id != s[j].chat_id);
        assert(false);
    }
}

/// The scheduler's whole state.
pub struct SyncScheduler {
    connected: bool,
    loading: bool,
    last_activity_ms: u64,
    last_update: Vec<StampEntry>,
}

impl SyncScheduler {
    pub closed spec fn wf(&self) -> bool {
        distinct_stamps(self.last_update@)
    }

    pub closed spec fn connected(&self) -> bool {
        self.connected
    }

    pub closed spec fn loading(&self) -> bool {
        self.loading
    }

    pub closed spec fn last_activity(&self) -> u64 {
        self.last_activity_ms
    }

    pub closed spec fn has_stamp(&self, id: i64) -> bool {
        stamps_have(self.last_update@, id)
    }

    pub closed spec fn stamp(&self, id: i64) -> u64 {
        stamps_at(self.last_update@, id)
    }
}

pub open spec fn stamps_unchanged(pre: SyncScheduler, post: SyncScheduler) -> bool {
    &&& forall|id: i64| #[trigger] post.has_stamp(id) == pre.has_stamp(id)
    &&& forall|id: i64| pre.has_stamp(id) ==> #[trigger] post.stamp(id) == pre.stamp(id)
}

/// Idle time on a clock that may jump backwards: never negative.
pub open spec fn idle_of(last_activity: u64, now: u64) -> u64 {
    if now >= last_activity {
        (now - last_activity) as u64
    } else {
        0
    }
}

/// The poll-interval tiers: half a minute of idling slows polling to
/// thirty seconds; full activity polls every two seconds.
pub open spec fn interval_for(idle_ms: u64) -> u64 {
    if idle_ms > 60000 {
        30000
    } else if idle_ms > 30000 {
        10000
    } else if idle_ms > 10000 {
        5000
    } else {
        2000
    }
}

/// Whether a wake-up must issue a fetch for the selected conversation
/// `id`: the connection is live, no fetch is in flight, and the
/// conversation's last update lies more than 1.5 s in the past (or was
/// never recorded).
pub open spec fn fetch_due(s: SyncScheduler, id: i64, now: u64) -> bool {
    &&& s.connected()
    &&& !s.loading()
    &&& (!s.has_stamp(id) || now > s.stamp(id) + 1500)
}

impl SyncScheduler {
    /// A fresh scheduler: disconnected, no fetch in flight, activity "now".
    pub fn new(now_ms: u64) -> (r: Self)
        ensures
            r.wf(),
            !r.connected(),
            !r.loading(),
            r.last_activity() == now_ms,
            forall|id: i64| !(#[trigger] r.has_stamp(id)),
    {
        SyncScheduler {
            connected: false,
            loading: false,
            last_activity_ms: now_ms,
            last_update: Vec::new(),
        }
    }

    /// The transport connection came up or went down.
    pub fn set_connected(&mut self, connected: bool)
        requires
            old(self).wf(),
        ensures
            final(self).wf(),
            final(self).connected() == connected,
            final(self).loading() == old(self).loading(),
            final(self).last_activity() == old(self).last_activity(),
            stamps_unchanged(*old(self), *final(self)),
    {
        self.connected = connected;
    }

    /// A user input event was observed.
    pub fn note_activity(&mut self, now_ms: u64)
        requires
            old(self).wf(),
        ensures
            final(self).wf(),
            final(self).connected() == old(self).connected(),
            final(self).loading() == old(self).loading(),
            final(self).last_activity() == now_ms,
            stamps_unchanged(*old(self), *final(self)),
    {
        self.last_activity_ms = now_ms;
    }

    /// The client sent a `GetMessages` command outside the polling cycle
    /// (it opened a chat): a response is now in flight.
    pub fn note_fetch_started(&mut self)
        requires
            old(self).wf(),
        ensures
            final(self).wf(),
            final(self).connected() == old(self).connected(),
            final(self).loading(),
            final(self).last_activity() == old(self).last_activity(),
            stamps_unchanged(*old(self), *final(self)),
    {
        self.loading = true;
    }

    /// A `Messages` response for `chat_id` arrived: the in-flight fetch is
    /// over and the conversation's update stamp moves to now.
    pub fn note_messages_arrived(&mut self, chat_id: i64, now_ms: u64)
        requires
            old(self).wf(),
        ensures
            final(self).wf(),
            final(self).connected() == old(self).connected(),
            !final(self).loading(),
            final(self).last_activity() == old(self).last_activity(),
            final(self).has_stamp(chat_id),
            final(self).stamp(chat_id) == now_ms,
            forall|id: i64| id != chat_id
                ==> #[trigger] final(self).has_stamp(id) == old(self).has_stamp(id),
            forall|id: i64| id != chat_id && old(self).has_stamp(id)
                ==> #[trigger] final(self).stamp(id) == old(self).stamp(id),
    {
        self.loading = false;
        let mut i: usize = 0;
        while i < self.last_update.len()
            invariant
                distinct_stamps(self.last_update@),
                self.last_update@ == old(self).last_update@,
                self.connected == old(self).connected,
                self.loading == false,
                self.last_activity_ms == old(self).last_activity_ms,
                i <= self.last_update@.len(),
                forall|j: int| 0 <= j < i ==> self.last_update@[j].chat_id != chat_id,
            decreases self.last_update@.len() - i,
        {
            if self.last_update[i].chat_id == chat_id {
                proof {
                    lemma_stamp_entry_unique(self.last_update@, chat_id, i as int);
                }
                let ghost pre = self.last_update@;
                self.last_update[i] = StampEntry { chat_id, at_ms: now_ms };
                proof {
                    assert(self.last_update@ == pre.update(i as int, StampEntry { chat_id, at_ms: now_ms }));
                    lemma_stamp_entry_unique(self.last_update@, chat_id, i as int);
                    assert forall|id: i64| id != chat_id implies #[trigger] self.has_stamp(id) == old(self).has_stamp(id) by {
                        if stamps_have(pre, id) {
                            let j = stamps_index(pre, id);
                            lemma_stamp_entry_unique(pre, id, j);
                            assert(self.last_update@[j].chat_id == id);
                        }
                        if stamps_have(self.last_update@, id) {
                            let j = stamps_index(self.last_update@, id);
                            lemma_stamp_entry_unique(self.last_update@, id, j);
                            assert(pre[j].chat_id == id);
                        }
                    }
                    assert forall|id: i64| id != chat_id && old(self).has_stamp(id) implies #[trigger] self.stamp(id) == old(self).stamp(id) by {
                        let j = stamps_index(pre, id);
                        lemma_stamp_entry_unique(pre, id, j);
                        assert(self.last_update@[j].chat_id == id);
                        lemma_stamp_entry_unique(self.last_update@, id, j);
                    }
                }
                return;
            }
            i += 1;
        }
        let ghost pre = self.last_update@;
        let e = StampEntry { chat_id, at_ms: now_ms };
        self.last_update.push(e);
        proof {
            assert(!stamps_have(pre, chat_id));
            lemma_stamp_entry_unique(self.last_update@, chat_id, pre.len() as int);
            assert forall|id: i64| id != chat_id implies #[trigger] self.has_stamp(id) == old(self).has_stamp(id) by {
                if stamps_have(pre, id) {
                    let j = stamps_index(pre, id);
                    lemma_stamp_entry_unique(pre, id, j);
                    assert(self.last_update@[j].chat_id == id);
                }
                if stamps_have(self.last_update@, id) {
                    let j = stamps_index(self.last_update@, id);
                    lemma_stamp_entry_unique(self.last_update@, id, j);
                    assert(j < pre.len());
                    assert(pre[j].chat_id == id);
                }
            }
            assert forall|id: i64| id != chat_id && old(self).has_stamp(id) implies #[trigger] self.stamp(id) == old(self).stamp(id) by {
                let j = stamps_index(pre, id);
                lemma_stamp_entry_unique(pre, id, j);
                assert(self.last_update@[j].chat_id == id);
                lemma_stamp_entry_unique(self.last_update@, id, j);
            }
        }
    }

    /// How long to sleep before the next wake-up, from the idle tiers.
    pub fn poll_interval_ms(&self, now_ms: u64) -> (r: u64)
        ensures
            r == interval_for(idle_of(self.last_activity(), now_ms)),
    {
        let idle: u64 = if now_ms >= self.last_activity_ms {
            now_ms - self.last_activity_ms
        } else {
            0
        };
        if idle > 60000 {
            30000
        } else if idle > 30000 {
            10000
        } else if idle > 10000 {
            5000
        } else {
            2000
        }
    }

    /// One wake-up: issues a fetch for the selected conversation exactly
    /// when one is due, and marks it in flight.
    pub fn wake(&mut self, selected: Option<i64>, now_ms: u64) -> (r: Option<i64>)
        requires
            old(self).wf(),
        ensures
            final(self).wf(),
            final(self).connected() == old(self).connected(),
            final(self).last_activity() == old(self).last_activity(),
            stamps_unchanged(*old(self), *final(self)),
            match selected {
                Some(id) => if fetch_due(*old(self), id, now_ms) {
                    r == Some(id) && final(self).loading()
                } else {
                    r is None && final(self).loading() == old(self).loading()
                },
                None => r is None && final(self).loading() == old(self).loading(),
            },
    {
        if !self.connected || self.loading {
            return None;
        }
        match selected {
            Some(id) => {
                let due = if !self.has_stamp_for(id) {
                    true
                } else {
                    let at = self.stamp_for(id);
                    now_ms >= at && now_ms - at > 1500
                };
                proof {
                    if self.has_stamp(id) && now_ms < self.stamp(id) {
                        assert(!(now_ms > self.stamp(id) + 1500));
                    }
                }
                if due {
                    self.loading = true;
                    Some(id)
                } else {
                    None
                }
            }
            None => None,
        }
    }

    fn has_stamp_for(&self, id: i64) -> (r: bool)
        requires
            self.wf(),
        ensures
            r == self.has_stamp(id),
    {
        let mut i: usize = 0;
        while i < self.last_update.len()
            invariant
                distinct_stamps(self.last_update@),
                i <= self.last_update@.len(),
                forall|j: int| 0 <= j < i ==> self.last_update@[j].chat_id != id,
            decreases self.last_update@.len() - i,
        {
            if self.last_update[i].chat_id == id {
                proof {
                    lemma_stamp_entry_unique(self.last_update@, id, i as int);
                }
                return true;
            }
            i += 1;
        }
        false
    }

    fn stamp_for(&self, id: i64) -> (r: u64)
        requires
            self.wf(),
            self.has_stamp(id),
        ensures
            r == self.stamp(id),
    {
        let mut i: usize = 0;
        while i < self.last_update.len()
            invariant
                distinct_stamps(self.last_update@),
                i <= self.last_update@.len(),
                forall|j: int| 0 <= j < i ==> self.last_update@[j].chat_id != id,
                stamps_have(self.last_update@, id),
            decreases self.last_update@.len() - i,
        {
            if self.last_update[i].chat_id == id {
                proof {
                    lemma_stamp_entry_unique(self.last_update@, id, i as int);
                }
                return self.last_update[i].at_ms;
            }
            i += 1;
        }
        proof {
            assert(false);
        }
        0
    }
}

} // verus!
