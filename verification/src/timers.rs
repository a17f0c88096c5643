//! Script timers: id allocation, scheduling, cancellation, and firing.
//! Ids are never zero (scripts test them for truthiness) and advance by
//! one per allocation, wrapping around the id space and skipping zero.
//! Timers fire no earlier than their due time, in due-time order.

use boa_engine::{Context, JsObject};
use vstd::prelude::*;

use vstd::string::StringExecFns;

use crate::engine::{call_function, js_error_message};

verus! {

broadcast use {vstd::seq_lib::group_seq_lib_default, vstd::seq_lib::group_to_multiset_ensures, vstd::seq::Seq::lemma_filter_push};

/// One armed timer: its id, the absolute time it is due, and the
/// script function to call.
pub struct Timer {
    pub id: u16,
    pub due_ms: u64,
    pub callback: JsObject,
}

/// The id an allocation yields for a given counter: the counter
/// itself, except that zero is skipped.
pub open spec fn spec_alloc_id(next: u16) -> u16 {
    if next == 0 {
        1u16
    } else {
        next
    }
}

/// The counter after an allocation: one past the id handed out,
/// wrapping.
pub open spec fn spec_alloc_next(next: u16) -> u16 {
    ((spec_alloc_id(next) + 1) % 0x10000) as u16
}

/// The timer id counter, shared by every script of the worker.
pub struct TimerIdAlloc {
    pub next: u16,
}

impl TimerIdAlloc {
    pub fn new() -> (r: TimerIdAlloc)
        ensures
            r.next == 1u16,
    {
        TimerIdAlloc { next: 1 }
    }

    /// Hands out the next id: never zero, one more than the last
    /// (modulo the id space, skipping zero).
    pub fn allocate(&mut self) -> (id: u16)
        ensures
            id != 0,
            id == spec_alloc_id(old(self).next),
            final(self).next == spec_alloc_next(old(self).next),
    {
        let mut id = self.next;
        self.next = self.next.wrapping_add(1);
        if id == 0 {
            id = self.next;
            self.next = self.next.wrapping_add(1);
        }
        id
    }
}

/// Ids never collide with the JavaScript falsy zero, and each
/// allocation yields the successor of the one before, modulo the id
/// space with zero skipped: ids are strictly increasing until the
/// counter wraps.
pub proof fn lemma_timer_ids_increase(next: u16)
    ensures
        spec_alloc_id(next) != 0,
        spec_alloc_id(spec_alloc_next(next)) == if spec_alloc_id(next) == 0xFFFF {
            1u16
        } else {
            (spec_alloc_id(next) + 1) as u16
        },
{
}

/// When a timer scheduled now for a delay comes due: saturating, so an
/// absurd delay stays a valid instant.
pub open spec fn spec_due_time(now_ms: u64, delay_ms: u64) -> u64 {
    if now_ms + delay_ms > u64::MAX {
        u64::MAX
    } else {
        (now_ms + delay_ms) as u64
    }
}

/// Arms a timer: allocates its id and appends it, due after the delay.
pub fn set_timeout(
    timers: &mut Vec<Timer>,
    ids: &mut TimerIdAlloc,
    now_ms: u64,
    delay_ms: u64,
    callback: JsObject,
) -> (id: u16)
    ensures
        id != 0,
        id == spec_alloc_id(old(ids).next),
        final(ids).next == spec_alloc_next(old(ids).next),
        final(timers)@ == old(timers)@.push(
            Timer { id, due_ms: spec_due_time(now_ms, delay_ms), callback },
        ),
{
    let id = ids.allocate();
    let due_ms = if delay_ms > u64::MAX - now_ms {
        u64::MAX
    } else {
        now_ms + delay_ms
    };
    timers.push(Timer { id, due_ms, callback });
    id
}

/// Disarms every timer with the id; everything else stays, in order.
pub fn clear_timeout(timers: &mut Vec<Timer>, id: u16)
    ensures
        final(timers)@ == old(timers)@.filter(|t: Timer| t.id != id),
{
    let ghost orig = timers@;
    let total = timers.len();
    proof {
        assert(orig.len() == total as int);
    }
    let mut i: usize = 0;
    let mut jj: usize = 0;
    while i < timers.len()
        invariant
            orig.len() <= usize::MAX,
            jj <= orig.len(),
            i <= timers@.len(),
            timers@ =~= orig.subrange(0, jj as int).filter(|t: Timer| t.id != id) + orig.subrange(
                jj as int,
                orig.len() as int,
            ),
            i as int == orig.subrange(0, jj as int).filter(|t: Timer| t.id != id).len(),
        decreases orig.len() - jj,
    {
        let ghost prefix = orig.subrange(0, jj as int);
        proof {
            assert(jj < orig.len());
            assert(timers@[i as int] == orig[jj as int]);
            assert(prefix.push(orig[jj as int]) =~= orig.subrange(0, jj as int + 1));
        }
        if timers[i].id == id {
            timers.remove(i);
            proof {
                assert(timers@ =~= orig.subrange(0, jj as int + 1).filter(|t: Timer| t.id != id)
                    + orig.subrange(jj as int + 1, orig.len() as int));
            }
        } else {
            i = i + 1;
            proof {
                assert(timers@ =~= orig.subrange(0, jj as int + 1).filter(|t: Timer| t.id != id)
                    + orig.subrange(jj as int + 1, orig.len() as int));
            }
        }
        jj = jj + 1;
    }
    proof {
        assert(jj as int == orig.len());
        assert(orig.subrange(0, orig.len() as int) =~= orig);
        assert(orig.subrange(orig.len() as int, orig.len() as int) =~= Seq::<Timer>::empty());
        assert(timers@ =~= orig.filter(|t: Timer| t.id != id));
    }
}

/// The earliest due time of any armed timer, if one is armed.
pub fn nearest_due(timers: &Vec<Timer>) -> (r: Option<u64>)
    ensures
        match r {
            Some(d) => (exists|i: int|
                0 <= i < timers@.len() && timers@[i].due_ms == d) && forall|i: int|
                0 <= i < timers@.len() ==> d <= timers@[i].due_ms,
            None => timers@.len() == 0,
        },
{
    if timers.len() == 0 {
        return None;
    }
    let mut best: u64 = timers[0].due_ms;
    let mut i: usize = 1;
    while i < timers.len()
        invariant
            1 <= i <= timers@.len(),
            exists|k: int| 0 <= k < i && timers@[k].due_ms == best,
            forall|k: int| 0 <= k < i ==> best <= timers@[k].due_ms,
        decreases timers@.len() - i,
    {
        if timers[i].due_ms < best {
            best = timers[i].due_ms;
        }
        i = i + 1;
    }
    Some(best)
}

/// How long to wait for a deadline: zero once it has passed.
pub fn wait_duration(deadline: u64, now_ms: u64) -> (r: u64)
    ensures
        r == if deadline > now_ms {
            (deadline - now_ms) as u64
        } else {
            0u64
        },
{
    if deadline > now_ms {
        deadline - now_ms
    } else {
        0
    }
}

/// The index of the due timer with the earliest due time, if any timer
/// is due.
fn find_due_min(timers: &Vec<Timer>, now_ms: u64) -> (r: Option<usize>)
    ensures
        match r {
            Some(m) => m < timers@.len() && timers@[m as int].due_ms <= now_ms && forall|i: int|
                0 <= i < timers@.len() && timers@[i].due_ms <= now_ms ==> timers@[m as int].due_ms
                    <= timers@[i].due_ms,
            None => forall|i: int| 0 <= i < timers@.len() ==> timers@[i].due_ms > now_ms,
        },
{
    let mut found: Option<usize> = None;
    let mut i: usize = 0;
    while i < timers.len()
        invariant
            i <= timers@.len(),
            match found {
                Some(m) => m < i && timers@[m as int].due_ms <= now_ms && forall|k: int|
                    0 <= k < i && timers@[k].due_ms <= now_ms ==> timers@[m as int].due_ms
                        <= timers@[k].due_ms,
                None => forall|k: int| 0 <= k < i ==> timers@[k].due_ms > now_ms,
            },
        decreases timers@.len() - i,
    {
        if timers[i].due_ms <= now_ms {
            match found {
                Some(m) => {
                    if timers[i].due_ms < timers[m].due_ms {
                        found = Some(i);
                    }
                },
                None => {
                    found = Some(i);
                },
            }
        }
        i = i + 1;
    }
    found
}

/// Prefixes compose: growing the error log twice keeps the first
/// state a prefix of the last.
proof fn lemma_prefix_trans_timers(a: Seq<String>, b: Seq<String>, c: Seq<String>)
    requires
        a.is_prefix_of(b),
        b.is_prefix_of(c),
    ensures
        a.is_prefix_of(c),
{
    assert(b.subrange(0, a.len() as int) =~= c.subrange(0, a.len() as int));
}

/// A timer list in which nothing has come due filters to itself.
proof fn lemma_filter_all_undue(s: Seq<Timer>, now_ms: u64)
    requires
        forall|i: int| 0 <= i < s.len() ==> s[i].due_ms > now_ms,
    ensures
        s.filter(|t: Timer| t.due_ms > now_ms) == s,
    decreases s.len(),
{
    let pred = |t: Timer| t.due_ms > now_ms;
    if s.len() == 0 {
        assert(s.filter(pred) =~= s);
    } else {
        lemma_filter_all_undue(s.drop_last(), now_ms);
        assert(s =~= s.drop_last().push(s.last()));
        assert(pred(s.last()));
        assert(s.drop_last().push(s.last()).filter(pred) =~= s.drop_last().filter(pred).push(
            s.last(),
        ));
    }
}

/// Removing an element the predicate rejects leaves the filtered
/// sequence as it was.
proof fn lemma_filter_remove_rejected<A>(s: Seq<A>, pred: spec_fn(A) -> bool, i: int)
    requires
        0 <= i < s.len(),
        !pred(s[i]),
    ensures
        s.remove(i).filter(pred) == s.filter(pred),
{
    let left = s.subrange(0, i);
    let mid = seq![s[i]];
    let right = s.subrange(i + 1, s.len() as int);
    assert(s =~= left + mid + right);
    assert(s.remove(i) =~= left + right);
    assert(mid =~= Seq::<A>::empty().push(s[i]));
    assert(Seq::<A>::empty().push(s[i]).filter(pred) =~= Seq::<A>::empty().filter(pred));
    assert(Seq::<A>::empty().filter(pred) =~= Seq::<A>::empty());
    assert((left + mid).filter(pred) =~= left.filter(pred) + mid.filter(pred));
    assert((left + mid + right).filter(pred) =~= (left + mid).filter(pred) + right.filter(pred));
    assert((left + right).filter(pred) =~= left.filter(pred) + right.filter(pred));
    assert(s.remove(i).filter(pred) =~= s.filter(pred));
}

/// Fires every timer that has come due: each is removed and its
/// callback invoked (a callback failure only loses that callback). The
/// due timers fire in due-time order, none fires early, none fires
/// twice, and exactly the not-yet-due timers stay armed, in order.
pub fn run_timers(
    timers: &mut Vec<Timer>,
    ctx: &mut Context<'_>,
    now_ms: u64,
    errors: &mut Vec<String>,
) -> (fired: Vec<Timer>)
    ensures
        final(timers)@ == old(timers)@.filter(|t: Timer| t.due_ms > now_ms),
        forall|i: int, j: int|
            0 <= i < j < fired@.len() ==> fired@[i].due_ms <= fired@[j].due_ms,
        forall|i: int| 0 <= i < fired@.len() ==> fired@[i].due_ms <= now_ms,
        fired@.to_multiset().add(final(timers)@.to_multiset()) == old(timers)@.to_multiset(),
        old(errors)@.is_prefix_of(final(errors)@),
{
    let ghost orig = timers@;
    let ghost errors0 = errors@;
    proof {
        assert(errors0.is_prefix_of(errors0)) by {
            assert(errors0.subrange(0, errors0.len() as int) =~= errors0);
        }
    }
    let mut fired: Vec<Timer> = Vec::new();
    loop
        invariant_except_break
            orig.filter(|t: Timer| t.due_ms > now_ms) == timers@.filter(
                |t: Timer| t.due_ms > now_ms,
            ),
            forall|i: int, j: int|
                0 <= i < j < fired@.len() ==> fired@[i].due_ms <= fired@[j].due_ms,
            forall|i: int| 0 <= i < fired@.len() ==> fired@[i].due_ms <= now_ms,
            fired@.len() > 0 ==> forall|k: int|
                0 <= k < timers@.len() && timers@[k].due_ms <= now_ms ==> fired@[fired@.len()
                    - 1].due_ms <= timers@[k].due_ms,
            fired@.to_multiset().add(timers@.to_multiset()) == orig.to_multiset(),
            errors0 == old(errors)@,
            errors0.is_prefix_of(errors@),
        ensures
            orig.filter(|t: Timer| t.due_ms > now_ms) == timers@.filter(
                |t: Timer| t.due_ms > now_ms,
            ),
            forall|i: int, j: int|
                0 <= i < j < fired@.len() ==> fired@[i].due_ms <= fired@[j].due_ms,
            forall|i: int| 0 <= i < fired@.len() ==> fired@[i].due_ms <= now_ms,
            fired@.to_multiset().add(timers@.to_multiset()) == orig.to_multiset(),
            forall|i: int| 0 <= i < timers@.len() ==> timers@[i].due_ms > now_ms,
            errors0 == old(errors)@,
            errors0.is_prefix_of(errors@),
        decreases timers@.len(),
    {
        let m = match find_due_min(timers, now_ms) {
            Some(m) => m,
            None => {
                break;
            },
        };
        proof {
            lemma_filter_remove_rejected(timers@, |t: Timer| t.due_ms > now_ms, m as int);
            vstd::seq_lib::to_multiset_remove(timers@, m as int);
        }
        let t = timers.remove(m);
        if let Err(e) = call_function(&t.callback, None, ctx) {
            let ghost errors_before = errors@;
            let mut message = String::from_str("failed to run timeout: ");
            message.append(js_error_message(&e).as_str());
            errors.push(message);
            proof {
                assert(errors@.subrange(0, errors_before.len() as int) =~= errors_before);
                lemma_prefix_trans_timers(errors0, errors_before, errors@);
            }
        }
        proof {
            assert(fired@.push(t).to_multiset() =~= fired@.to_multiset().insert(t));
            assert(fired@.push(t).to_multiset().add(timers@.to_multiset()) =~= orig.to_multiset());
        }
        fired.push(t);
    }
    proof {
        lemma_filter_all_undue(timers@, now_ms);
    }
    fired
}

} // verus!
