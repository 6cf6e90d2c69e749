//! The timer registry: pending timers ordered by deadline.
//!
//! `request_timer` allocates a fresh token and files the deadline; the
//! native timer source is reprogrammed only when the new timer becomes the
//! earliest pending one, so the source always points at the next timer to
//! fire. Deadlines and the current time are microseconds of one monotonic
//! clock; the embedder reads that clock and performs the actual arming.

use vstd::prelude::*;

use crate::tokens::{TimerToken, TokenCounter};

verus! {

/// One pending timer: when it is due and the token to hand the handler.
#[derive(Clone, Copy, Debug, PartialEq, Eq, Structural)]
pub struct TimerEntry {
    pub deadline: u64,
    pub token: TimerToken,
}

/// Whether `s` holds a timer with token `t`.
pub open spec fn spec_has_token(s: Seq<TimerEntry>, t: TimerToken) -> bool {
    exists|i: int| 0 <= i < s.len() && s[i].token == t
}

/// The position where a timer due at `d` files into the sorted sequence
/// `s`: after every pending timer due at `d` or earlier, so timers with
/// coincident deadlines keep their insertion order.
pub open spec fn spec_insert_pos(s: Seq<TimerEntry>, d: u64) -> int
    decreases s.len(),
{
    if s.len() == 0 {
        0
    } else if s[0].deadline <= d {
        1 + spec_insert_pos(s.drop_first(), d)
    } else {
        0
    }
}

proof fn lemma_insert_pos_bounds(s: Seq<TimerEntry>, d: u64)
    ensures
        0 <= spec_insert_pos(s, d) <= s.len(),
        forall|i: int| 0 <= i < spec_insert_pos(s, d) ==> s[i].deadline <= d,
        spec_insert_pos(s, d) < s.len() ==> d < s[spec_insert_pos(s, d)].deadline,
    decreases s.len(),
{
    if s.len() != 0 && s[0].deadline <= d {
        lemma_insert_pos_bounds(s.drop_first(), d);
        assert forall|i: int| 0 <= i < spec_insert_pos(s, d) implies s[i].deadline <= d by {
            if i > 0 {
                assert(s.drop_first()[i - 1] == s[i]);
            }
        }
        if spec_insert_pos(s, d) < s.len() {
            assert(s.drop_first()[spec_insert_pos(s, d) - 1] == s[spec_insert_pos(s, d)]);
        }
    }
}

/// The registry of pending timers for one window or application.
pub struct TimerRegistry {
    entries: Vec<TimerEntry>,
    counter: TokenCounter,
}

impl TimerRegistry {
    /// The pending timers, earliest deadline first.
    pub closed spec fn view(self) -> Seq<TimerEntry> {
        self.entries@
    }

    pub closed spec fn spec_next_token(self) -> u64 {
        self.counter.spec_next()
    }

    /// Internal order: deadlines nondecreasing, so the front entry is
    /// always the next timer to fire; every issued token is below the
    /// counter and no token appears twice.
    pub closed spec fn wf(self) -> bool {
        &&& forall|i: int, j: int|
            0 <= i < j < self.entries@.len() ==> self.entries@[i].deadline
                <= self.entries@[j].deadline
        &&& forall|i: int|
            0 <= i < self.entries@.len() ==> self.entries@[i].token.spec_raw()
                < self.counter.spec_next()
        &&& forall|i: int, j: int|
            0 <= i < j < self.entries@.len() ==> self.entries@[i].token
                != self.entries@[j].token
    }

    pub fn new() -> (r: TimerRegistry)
        ensures
            r.wf(),
            r@ == Seq::<TimerEntry>::empty(),
            r.spec_next_token() == 1,
    {
        TimerRegistry { entries: Vec::new(), counter: TokenCounter::new() }
    }

    /// How many timers are pending.
    pub fn len(&self) -> (n: usize)
        ensures
            n == self@.len(),
    {
        self.entries.len()
    }

    /// Whether another timer can be filed: token numbers and entry space
    /// are both left.
    pub fn has_capacity(&self) -> (b: bool)
        ensures
            b == (self.spec_next_token() < u64::MAX && self@.len() < usize::MAX),
    {
        self.counter.raw_left() && self.entries.len() < usize::MAX
    }

    /// The earliest pending deadline, if any timer is pending. Under
    /// [`TimerRegistry::wf`] it is the minimum over all pending timers.
    pub fn next_deadline(&self) -> (r: Option<u64>)
        requires
            self.wf(),
        ensures
            r == (if self@.len() == 0 {
                None::<u64>
            } else {
                Some(self@[0].deadline)
            }),
            forall|i: int| 0 <= i < self@.len() ==> self@[0].deadline <= #[trigger] self@[i].deadline,
    {
        if self.entries.len() == 0 {
            None
        } else {
            Some(self.entries[0].deadline)
        }
    }

    /// File a timer due at `deadline`, given the current time `now`, and
    /// return its fresh token together with the reprogramming decision:
    /// `Some(timeout)` exactly when the new timer is due strictly before
    /// every previously pending one (in particular when none was pending),
    /// where `timeout` is how long the native source should wait — zero if
    /// the deadline has already passed, so a late timer fires immediately
    /// and never blocks.
    pub fn request_timer(&mut self, deadline: u64, now: u64) -> (r: (TimerToken, Option<u64>))
        requires
            old(self).wf(),
            old(self).spec_next_token() < u64::MAX,
            old(self)@.len() < usize::MAX,
        ensures
            final(self).wf(),
            final(self).spec_next_token() == old(self).spec_next_token() + 1,
            r.0.spec_raw() == old(self).spec_next_token(),
            !spec_has_token(old(self)@, r.0),
            final(self)@ == old(self)@.insert(
                spec_insert_pos(old(self)@, deadline),
                TimerEntry { deadline, token: r.0 },
            ),
            final(self)@.len() == old(self)@.len() + 1,
            r.1 is Some <==> (old(self)@.len() == 0 || deadline < old(self)@[0].deadline),
            r.1 matches Some(timeout) ==> timeout == (if deadline <= now {
                0u64
            } else {
                (deadline - now) as u64
            }),
    {
        let ghost old_entries = self.entries@;
        let sooner = self.entries.len() == 0 || deadline < self.entries[0].deadline;

        let raw = self.counter.next_raw();
        let token = TimerToken::from_raw(raw);
        let entry = TimerEntry { deadline, token };

        let mut pos: usize = 0;
        while pos < self.entries.len() && self.entries[pos].deadline <= deadline
            invariant
                0 <= pos <= self.entries@.len(),
                forall|i: int| 0 <= i < pos ==> self.entries@[i].deadline <= deadline,
                self.entries@ == old_entries,
            decreases self.entries@.len() - pos,
        {
            pos = pos + 1;
        }

        proof {
            lemma_insert_pos_agrees(self.entries@, deadline, pos as int);
        }
        self.entries.insert(pos, entry);

        let timeout = if deadline <= now {
            0
        } else {
            deadline - now
        };

        proof {
            lemma_insert_pos_bounds(old_entries, deadline);
            let s = self.entries@;
            assert forall|i: int, j: int| 0 <= i < j < s.len() implies s[i].deadline
                <= s[j].deadline by {
                lemma_sorted_after_insert(old_entries, deadline, pos as int, entry, s, i, j);
            }
            assert forall|i: int| 0 <= i < old_entries.len() implies old_entries[i].token
                != token by {
                assert(old_entries[i].token.spec_raw() < token.spec_raw());
            }
        }

        (token, if sooner {
            Some(timeout)
        } else {
            None
        })
    }

    /// Pop the front timer if it is due at or before `now`. The embedder
    /// calls this when the native source fires, forwarding each returned
    /// token to the handler's timer hook, until `None` comes back.
    pub fn pop_due(&mut self, now: u64) -> (r: Option<TimerToken>)
        requires
            old(self).wf(),
        ensures
            final(self).wf(),
            final(self).spec_next_token() == old(self).spec_next_token(),
            r is Some <==> (old(self)@.len() > 0 && old(self)@[0].deadline <= now),
            r matches Some(t) ==> t == old(self)@[0].token && final(self)@ == old(
                self,
            )@.drop_first(),
            r is None ==> final(self)@ == old(self)@,
    {
        if self.entries.len() > 0 && self.entries[0].deadline <= now {
            let entry = self.entries.remove(0);
            proof {
                assert(self.entries@ =~= old(self).entries@.drop_first());
            }
            Some(entry.token)
        } else {
            None
        }
    }

    /// Whether a token still names a pending timer. A token that does not
    /// — already fired, or filed on a window since closed — is stale, and
    /// a firing for it is silently ignored.
    pub fn is_pending(&self, token: TimerToken) -> (b: bool)
        ensures
            b == spec_has_token(self@, token),
    {
        let mut i: usize = 0;
        while i < self.entries.len()
            invariant
                0 <= i <= self.entries@.len(),
                forall|k: int| 0 <= k < i ==> self.entries@[k].token != token,
            decreases self.entries@.len() - i,
        {
            if self.entries[i].token.into_raw() == token.into_raw() {
                proof {
                    crate::tokens::lemma_timer_token_raw_injective(self.entries@[i as int].token, token);
                }
                return true;
            }
            i = i + 1;
        }
        false
    }
}

/// Inserting an entry at the scan position of its deadline keeps the
/// sequence sorted by deadline.
proof fn lemma_sorted_after_insert(
    s_old: Seq<TimerEntry>,
    d: u64,
    pos: int,
    entry: TimerEntry,
    s_new: Seq<TimerEntry>,
    i: int,
    j: int,
)
    requires
        0 <= pos <= s_old.len(),
        forall|k: int| 0 <= k < pos ==> s_old[k].deadline <= d,
        pos < s_old.len() ==> d < s_old[pos].deadline,
        forall|k: int, l: int| 0 <= k < l < s_old.len() ==> s_old[k].deadline <= s_old[l].deadline,
        entry.deadline == d,
        s_new == s_old.insert(pos, entry),
        0 <= i < j < s_new.len(),
    ensures
        s_new[i].deadline <= s_new[j].deadline,
{
    assert(s_new.len() == s_old.len() + 1);
    assert(forall|k: int| 0 <= k < pos ==> s_new[k] == s_old[k]);
    assert(s_new[pos] == entry);
    assert(forall|k: int| pos < k < s_new.len() ==> s_new[k] == s_old[k - 1]);
}

/// A loop that scans for the first later deadline lands on the same
/// position that [`spec_insert_pos`] names.
proof fn lemma_insert_pos_agrees(s: Seq<TimerEntry>, d: u64, pos: int)
    requires
        0 <= pos <= s.len(),
        forall|i: int| 0 <= i < pos ==> s[i].deadline <= d,
        pos < s.len() ==> d < s[pos].deadline,
        forall|i: int, j: int| 0 <= i < j < s.len() ==> s[i].deadline <= s[j].deadline,
    ensures
        spec_insert_pos(s, d) == pos,
    decreases s.len(),
{
    if s.len() != 0 {
        if s[0].deadline <= d {
            assert(pos >= 1) by {
                assert(s[0].deadline <= d);
            }
            lemma_insert_pos_agrees(s.drop_first(), d, pos - 1);
        }
    }
}

} // verus!
