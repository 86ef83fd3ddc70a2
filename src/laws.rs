//! Properties of the rotation scheduler that relate several of its operations.
use vstd::prelude::*;
use crate::rotation::{candidates, is_candidate, is_image_name, DirEntryInfo};
use crate::scheduler::{
    polled, reconfigured, reconfigured_all, rotation_finished, wait_deadline, Action, Phase,
    SchedulerView, MILLIS_PER_SEC,
};

verus! {

/// After a reconfiguration to any positive number of seconds, querying the
/// interval gives that number.
pub proof fn set_then_get(s: SchedulerView, secs: u64)
    requires
        secs > 0,
    ensures
        reconfigured(s, secs).interval == secs,
{
}

/// A reconfiguration during a wait ends the wait at the very next poll,
/// however much of it remained, and the wait that follows the rotation uses
/// the new interval.
pub proof fn reconfigure_wakes_at_once(s: SchedulerView, secs: u64, now: u64, later: u64)
    requires
        s.phase is Waiting,
        secs > 0,
    ensures
        polled(reconfigured(s, secs), now).1 == Action::Rotate,
        polled(reconfigured(s, secs), now).0.phase == Phase::Rotating,
        !polled(reconfigured(s, secs), now).0.wake,
        rotation_finished(polled(reconfigured(s, secs), now).0, later).phase
            == (Phase::Waiting { deadline: wait_deadline(later, secs) }),
{
}

/// Without a reconfiguration, a rotation that ends at `start` is followed by
/// the next one exactly when the interval in effect at `start` has passed:
/// every earlier poll waits for the rest of it, and changes nothing.
pub proof fn rotations_spaced_by_interval(s: SchedulerView, start: u64, now: u64)
    ensures
        ({
            let w = rotation_finished(s, start);
            let d = wait_deadline(start, s.interval);
            &&& start + s.interval * MILLIS_PER_SEC <= u64::MAX ==> d == start + s.interval
                * MILLIS_PER_SEC
            &&& now < d ==> polled(w, now) == (w, Action::Wait { timeout_ms: (d - now) as u64 })
            &&& now >= d ==> polled(w, now).1 == Action::Rotate
        }),
{
}

/// A rotation made outside the cycle leaves the scheduler's state as it is,
/// so the wait in progress keeps its deadline: polls before it still wait
/// until exactly that deadline, and the poll at it rotates.
pub proof fn one_shot_keeps_deadline(s: SchedulerView, deadline: u64, now: u64)
    requires
        s.phase == (Phase::Waiting { deadline }),
        !s.wake,
    ensures
        now < deadline ==> polled(s, now) == (s, Action::Wait { timeout_ms: (deadline - now) as u64 }),
        now < deadline ==> now + polled(s, now).1->timeout_ms == deadline,
        now >= deadline ==> polled(s, now).1 == Action::Rotate,
{
}

/// Whatever the outcome of a rotation, the loop goes on: the next rotation is
/// due once the full interval has passed after it ended.
pub proof fn failure_keeps_schedule(s: SchedulerView, end: u64)
    ensures
        polled(rotation_finished(s, end), wait_deadline(end, s.interval)).1 == Action::Rotate,
        rotation_finished(s, end).interval == s.interval,
{
}

/// Reconfigurations from many callers, serialised by the lock in whatever
/// order they took it, leave the interval equal to exactly one of the
/// submitted values, provided one of them was accepted: the last accepted
/// one. Where all were accepted, that is the last to take the lock.
pub proof fn concurrent_reconfigure_keeps_one(s: SchedulerView, requests: Seq<u64>)
    requires
        exists|i: int| 0 <= i < requests.len() && requests[i] > 0,
    ensures
        requests.contains(reconfigured_all(s, requests).interval),
        reconfigured_all(s, requests).interval > 0,
        (forall|i: int| 0 <= i < requests.len() ==> requests[i] > 0) ==> reconfigured_all(
            s,
            requests,
        ).interval == requests.last(),
    decreases requests.len(),
{
    let n = requests.len();
    assert(requests[n - 1] == requests.last());
    if requests.last() == 0 {
        let prev = requests.drop_last();
        let i = choose|i: int| 0 <= i < requests.len() && requests[i] > 0;
        assert(prev[i] == requests[i]);
        concurrent_reconfigure_keeps_one(s, prev);
        let k = choose|k: int| 0 <= k < prev.len() && prev[k] == reconfigured_all(s, prev).interval;
        assert(requests[k] == prev[k]);
    }
}

/// A query that takes the lock while reconfigurations from many callers
/// are under way, after the first `taken` of them, sees a whole value: the
/// interval from before them all, or one of the submitted values.
pub proof fn query_during_reconfigures_sees_whole_value(
    s: SchedulerView,
    requests: Seq<u64>,
    taken: int,
)
    requires
        0 <= taken <= requests.len(),
    ensures
        reconfigured_all(s, requests.subrange(0, taken)).interval == s.interval
            || requests.contains(reconfigured_all(s, requests.subrange(0, taken)).interval),
    decreases taken,
{
    if taken > 0 {
        let done = requests.subrange(0, taken);
        assert(done.drop_last() =~= requests.subrange(0, taken - 1));
        assert(done.last() == requests[taken - 1]);
        query_during_reconfigures_sees_whole_value(s, requests, taken - 1);
    }
}

/// The selector draws only from image files: every candidate is the name of
/// a listed regular file with an image extension, and there is none exactly
/// when no listed entry is such a file.
pub proof fn candidates_are_image_files(entries: Seq<DirEntryInfo>)
    ensures
        forall|k: int|
            0 <= k < candidates(entries).len() ==> is_image_name(#[trigger] candidates(entries)[k])
                && exists|i: int|
                0 <= i < entries.len() && entries[i].is_file && entries[i].name@ == candidates(
                    entries,
                )[k],
        candidates(entries).len() == 0 <==> forall|i: int|
            0 <= i < entries.len() ==> !is_candidate(#[trigger] entries[i]),
    decreases entries.len(),
{
    if entries.len() > 0 {
        let prev = entries.drop_last();
        candidates_are_image_files(prev);
        assert forall|k: int| 0 <= k < candidates(entries).len() implies is_image_name(
            #[trigger] candidates(entries)[k],
        ) && exists|i: int|
            0 <= i < entries.len() && entries[i].is_file && entries[i].name@ == candidates(
                entries,
            )[k] by {
            if k < candidates(prev).len() {
                let i = choose|i: int|
                    0 <= i < prev.len() && prev[i].is_file && prev[i].name@ == candidates(prev)[k];
                assert(entries[i] == prev[i]);
            } else {
                assert(entries[entries.len() - 1] == entries.last());
            }
        }
        if candidates(entries).len() == 0 {
            assert forall|i: int| 0 <= i < entries.len() implies !is_candidate(
                #[trigger] entries[i],
            ) by {
                if i < prev.len() {
                    assert(entries[i] == prev[i]);
                }
            }
        } else if forall|i: int| 0 <= i < entries.len() ==> !is_candidate(#[trigger] entries[i]) {
            assert(!is_candidate(entries[entries.len() - 1]));
            assert forall|i: int| 0 <= i < prev.len() implies !is_candidate(#[trigger] prev[i]) by {
                assert(entries[i] == prev[i]);
            }
        }
    }
}

} // verus!
