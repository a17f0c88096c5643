//! The recent-input log: a bounded FIFO correlating raw-input sightings
//! (which carry the device) with hook strokes (which do not). Entries
//! pair with at most one hook stroke and go stale after one second.

use vstd::prelude::*;
use vstd::string::StringExecFns;

use crate::devices::Device;
use crate::error::RekeyError;
use crate::keys::KeyDirection;

verus! {

/// The log never holds more than this many entries.
pub const MAX_INPUT_LOG_LENGTH: usize = 100;

/// An entry older than this many milliseconds no longer pairs with a
/// hook stroke.
pub const INPUT_LOG_MAX_AGE_MS: u64 = 1000;

/// One raw-input sighting: when it arrived, from which device, which
/// key, which way.
pub struct InputLogItem {
    pub time_ms: u64,
    pub device: Device,
    pub vkey_code: u16,
    pub direction: KeyDirection,
}

/// The bounded FIFO of recent raw-input sightings.
pub struct InputLog {
    pub entries: Vec<InputLogItem>,
}

impl InputLog {
    /// An empty log, trivially within its bound.
    pub fn new() -> (r: InputLog)
        ensures
            r.entries@.len() == 0,
            log_well_formed(r),
    {
        InputLog { entries: Vec::new() }
    }
}

/// The log's bound.
pub open spec fn log_well_formed(log: InputLog) -> bool {
    log.entries@.len() <= MAX_INPUT_LOG_LENGTH as int
}

/// An entry answers for a (key, direction) pair.
pub open spec fn entry_matches(e: InputLogItem, vkey_code: u16, direction: KeyDirection) -> bool {
    e.vkey_code == vkey_code && e.direction == direction
}

/// A matching entry young enough to pair with a hook stroke.
pub open spec fn entry_fresh(e: InputLogItem, now_ms: u64) -> bool {
    e.time_ms <= now_ms && now_ms - e.time_ms < INPUT_LOG_MAX_AGE_MS
}

/// What a scan of the log finds, front (oldest) first: `Err` when the
/// first matching entry not yet skipped lies in the future (the clock
/// went backwards), `Ok(Some(i))` for the first fresh match, `Ok(None)`
/// when no fresh match exists. Matching but stale entries are passed
/// over and stay.
pub open spec fn spec_log_find(
    entries: Seq<InputLogItem>,
    now_ms: u64,
    vkey_code: u16,
    direction: KeyDirection,
) -> Result<Option<int>, ()>
    decreases entries.len(),
{
    if entries.len() == 0 {
        Ok(None)
    } else {
        let e = entries[0];
        if entry_matches(e, vkey_code, direction) && e.time_ms > now_ms {
            Err(())
        } else if entry_matches(e, vkey_code, direction) && entry_fresh(e, now_ms) {
            Ok(Some(0))
        } else {
            match spec_log_find(entries.drop_first(), now_ms, vkey_code, direction) {
                Ok(Some(i)) => Ok(Some(i + 1)),
                other => other,
            }
        }
    }
}

/// The index a scan finds is a fresh match.
pub proof fn lemma_log_find_fresh(
    entries: Seq<InputLogItem>,
    now_ms: u64,
    vkey_code: u16,
    direction: KeyDirection,
)
    ensures
        match spec_log_find(entries, now_ms, vkey_code, direction) {
            Ok(Some(i)) => 0 <= i < entries.len() && entry_matches(entries[i], vkey_code, direction)
                && entry_fresh(entries[i], now_ms),
            _ => true,
        },
    decreases entries.len(),
{
    if entries.len() > 0 {
        lemma_log_find_fresh(entries.drop_first(), now_ms, vkey_code, direction);
    }
}

/// A scanned prefix of entries that neither match freshly nor error
/// can be cut off without changing what the scan finds (up to the
/// index shift).
proof fn lemma_log_find_skip(
    entries: Seq<InputLogItem>,
    now_ms: u64,
    vkey_code: u16,
    direction: KeyDirection,
    i: int,
)
    requires
        0 <= i <= entries.len(),
        forall|j: int| 0 <= j < i ==> !(entry_matches(entries[j], vkey_code, direction)
            && entries[j].time_ms > now_ms),
        forall|j: int| 0 <= j < i ==> !(entry_matches(entries[j], vkey_code, direction)
            && entry_fresh(entries[j], now_ms)),
    ensures
        spec_log_find(entries, now_ms, vkey_code, direction) == (match spec_log_find(
            entries.subrange(i, entries.len() as int),
            now_ms,
            vkey_code,
            direction,
        ) {
            Ok(Some(k)) => Ok(Some(i + k)),
            other => other,
        }),
    decreases i,
{
    if i == 0 {
        assert(entries.subrange(0, entries.len() as int) =~= entries);
    } else {
        lemma_log_find_skip(entries, now_ms, vkey_code, direction, i - 1);
        let tail = entries.subrange(i - 1, entries.len() as int);
        assert(tail[0] == entries[i - 1]);
        assert(tail.drop_first() =~= entries.subrange(i, entries.len() as int));
    }
}

/// Appends a sighting; when the log is full the oldest entry leaves
/// first. The log never exceeds its bound.
pub fn input_log_add_wm_input(
    log: &mut InputLog,
    now_ms: u64,
    device: Device,
    vkey_code: u16,
    direction: KeyDirection,
) -> (r: Result<(), RekeyError>)
    requires
        log_well_formed(*old(log)),
    ensures
        r is Ok,
        log_well_formed(*final(log)),
        ({
            let pushed = old(log).entries@.push(
                InputLogItem { time_ms: now_ms, device, vkey_code, direction },
            );
            final(log).entries@ == if pushed.len() > MAX_INPUT_LOG_LENGTH as int {
                pushed.drop_first()
            } else {
                pushed
            }
        }),
{
    let ghost pushed = old(log).entries@.push(
        InputLogItem { time_ms: now_ms, device, vkey_code, direction },
    );
    log.entries.push(InputLogItem { time_ms: now_ms, device, vkey_code, direction });
    while log.entries.len() > MAX_INPUT_LOG_LENGTH
        invariant
            pushed.len() <= MAX_INPUT_LOG_LENGTH as int + 1,
            log.entries@ == pushed || (pushed.len() > MAX_INPUT_LOG_LENGTH as int && log.entries@
                == pushed.drop_first()),
        decreases log.entries@.len(),
    {
        log.entries.remove(0);
        proof {
            assert(pushed.remove(0) =~= pushed.drop_first());
        }
    }
    Ok(())
}

/// Pops the device of the first fresh sighting of (key, direction), if
/// one exists: exactly that entry leaves the log, everything else
/// stays in order. A matching entry from the future fails the call and
/// leaves the log unchanged; so does the absence of a fresh match,
/// without the failure.
pub fn input_log_get_device(
    log: &mut InputLog,
    now_ms: u64,
    vkey_code: u16,
    direction: KeyDirection,
) -> (r: Result<Option<Device>, RekeyError>)
    ensures
        log_well_formed(*old(log)) ==> log_well_formed(*final(log)),
        ({
            match spec_log_find(old(log).entries@, now_ms, vkey_code, direction) {
                Ok(Some(i)) => r matches Ok(d) && d == Some(old(log).entries@[i].device)
                    && final(log).entries@ == old(log).entries@.remove(i),
                Ok(None) => r matches Ok(d) && d is None && final(log).entries@ == old(
                    log,
                ).entries@,
                Err(()) => r is Err && final(log).entries@ == old(log).entries@,
            }
        }),
{
    let ghost entries0 = log.entries@;
    let n = log.entries.len();
    let mut i: usize = 0;
    while i < n
        invariant
            entries0 == old(log).entries@,
            log.entries@ == entries0,
            n == entries0.len(),
            i <= n,
            forall|j: int| 0 <= j < i ==> !(entry_matches(entries0[j], vkey_code, direction)
                && entries0[j].time_ms > now_ms),
            forall|j: int| 0 <= j < i ==> !(entry_matches(entries0[j], vkey_code, direction)
                && entry_fresh(entries0[j], now_ms)),
        decreases n - i,
    {
        let matches_here = log.entries[i].vkey_code == vkey_code && log.entries[i].direction
            == direction;
        if matches_here {
            if log.entries[i].time_ms > now_ms {
                proof {
                    lemma_log_find_skip(entries0, now_ms, vkey_code, direction, i as int);
                    let tail = entries0.subrange(i as int, n as int);
                    assert(tail[0] == entries0[i as int]);
                    assert(spec_log_find(tail, now_ms, vkey_code, direction) == Err::<
                        Option<int>,
                        (),
                    >(()));
                    assert(spec_log_find(entries0, now_ms, vkey_code, direction) == Err::<
                        Option<int>,
                        (),
                    >(()));
                }
                return Err(
                    RekeyError::GenericError(String::from_str("time error: sighting in the future")),
                );
            }
            if now_ms - log.entries[i].time_ms < INPUT_LOG_MAX_AGE_MS {
                proof {
                    lemma_log_find_skip(entries0, now_ms, vkey_code, direction, i as int);
                    let tail = entries0.subrange(i as int, n as int);
                    assert(tail[0] == entries0[i as int]);
                    assert(entry_fresh(entries0[i as int], now_ms));
                    assert(spec_log_find(tail, now_ms, vkey_code, direction) == Ok::<
                        Option<int>,
                        (),
                    >(Some(0)));
                    assert(spec_log_find(entries0, now_ms, vkey_code, direction) == Ok::<
                        Option<int>,
                        (),
                    >(Some(i as int)));
                }
                let removed = log.entries.remove(i);
                proof {
                    assert(log.entries@ =~= entries0.remove(i as int));
                }
                return Ok(Some(removed.device));
            }
        }
        i = i + 1;
    }
    proof {
        lemma_log_find_skip(entries0, now_ms, vkey_code, direction, n as int);
        assert(entries0.subrange(n as int, n as int) =~= Seq::<InputLogItem>::empty());
    }
    Ok(None)
}

} // verus!
