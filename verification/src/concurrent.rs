//! What holds of runs at once.
//!
//! Herdr starts a run for each event, so several of them may work on one state file.
//! Each goes on step by step, in any order; only a run that takes the lock has to wait
//! while another has it.

use crate::laws;
use crate::laws::World;
use crate::session::Doing;
use crate::state::{Changing, Saved};
use vstd::prelude::*;

verus! {

impl World {
    /// The same answers, except that where the state can be read it is this one.
    pub open spec fn finding(self, disk: Saved) -> World {
        World {
            read: match self.read {
                Ok(_) => Ok(disk),
                Err(error) => Err(error),
            },
            ..self
        }
    }
}

/// The stored state after a run did its next thing.
pub open spec fn disk_after(doing: Doing, world: World, disk: Saved) -> Saved {
    match doing {
        Doing::WriteState { state, .. } => if world.write is Ok {
            state
        } else {
            disk
        },
        _ => disk,
    }
}

/// Runs that have come so far, and the state that is stored.
pub struct Together {
    pub runs: Seq<Doing>,
    pub disk: Saved,
}

impl Together {
    /// Whether at most one run has the lock.
    pub open spec fn exclusive(self) -> bool {
        forall|i: int, j: int|
            0 <= i < self.runs.len() && 0 <= j < self.runs.len() && #[trigger] laws::locked(
                self.runs[i],
            ) && #[trigger] laws::locked(self.runs[j]) ==> i == j
    }

    /// Whether all runs are finished.
    pub open spec fn finished(self) -> bool {
        forall|i: int| 0 <= i < self.runs.len() ==> #[trigger] self.runs[i] is Finish
    }

    /// Whether a run can do its next thing: a finished one has none, and a lock that is
    /// to be had is had only when no other run has it.
    pub open spec fn may_move(self, worlds: Seq<World>, i: int) -> bool {
        &&& 0 <= i < self.runs.len()
        &&& !(self.runs[i] is Finish)
        &&& self.runs[i] is LockState && worlds[i].lock is Ok ==> forall|j: int|
            0 <= j < self.runs.len() && j != i ==> !#[trigger] laws::locked(self.runs[j])
    }

    /// The runs after one of them had a turn, which it used if it could.
    pub open spec fn step(self, worlds: Seq<World>, i: int) -> Together {
        if self.may_move(worlds, i) {
            Together {
                runs: self.runs.update(
                    i,
                    laws::after(self.runs[i], worlds[i].finding(self.disk)),
                ),
                disk: disk_after(self.runs[i], worlds[i], self.disk),
            }
        } else {
            self
        }
    }

    /// The runs after they had these turns.
    pub open spec fn play(self, worlds: Seq<World>, turns: Seq<int>) -> Together
        decreases turns.len(),
    {
        if turns.len() == 0 {
            self
        } else {
            self.step(worlds, turns.first()).play(worlds, turns.drop_first())
        }
    }
}

/// The state that a run leaves behind where it has the stored state for itself.
pub open spec fn alone(doing: Doing, world: World, disk: Saved) -> Saved {
    laws::left_behind(doing, world.finding(disk), disk)
}

/// Whether the runs that `order` names, one after the other, come to `end`: each starts
/// from the state that the one before it left behind, and ends as it does when it has
/// the stored state for itself.
pub open spec fn one_after_the_other(
    order: Seq<int>,
    runs: Seq<Doing>,
    worlds: Seq<World>,
    disk: Saved,
    end: Together,
) -> bool
    decreases order.len(),
{
    if order.len() == 0 {
        end.disk == disk
    } else {
        let i = order.first();
        &&& end.runs[i] == (Doing::Finish {
            outcome: laws::outcome(runs[i], worlds[i].finding(disk)),
        })
        &&& one_after_the_other(
            order.drop_first(),
            runs,
            worlds,
            alone(runs[i], worlds[i], disk),
            end,
        )
    }
}

/// Whether `order` names each of `count` runs once.
pub open spec fn orders(order: Seq<int>, count: nat) -> bool {
    &&& order.len() == count
    &&& order.no_duplicates()
    &&& forall|i: int| 0 <= i < count <==> #[trigger] order.contains(i)
}

/// Whether a run that has the lock is named first.
pub open spec fn lock_first(order: Seq<int>, runs: Seq<Doing>) -> bool {
    forall|i: int| 0 <= i < runs.len() && #[trigger] laws::locked(runs[i]) ==> order.first() == i
}

/// Whether `end` is what comes of the runs one after the other in this order, in which a
/// run that has the lock comes first.
pub open spec fn in_turn(
    order: Seq<int>,
    start: Together,
    worlds: Seq<World>,
    end: Together,
) -> bool {
    &&& orders(order, start.runs.len())
    &&& lock_first(order, start.runs)
    &&& one_after_the_other(order, start.runs, worlds, start.disk, end)
}

/// A run that moves keeps what will come of it: where it has no lock, whatever state it
/// will find; where it has the lock, with the state that is stored. Once it gives the
/// lock back, nothing that is stored matters to it.
proof fn lemma_moved(doing: Doing, world: World, disk: Saved, found: Saved)
    requires
        !(doing is Finish),
    ensures
        ({
            let next = laws::after(doing, world.finding(disk));
            let disk_next = disk_after(doing, world, disk);
            &&& alone(next, world, disk_next) == alone(doing, world, disk)
            &&& laws::outcome(next, world.finding(disk_next)) == laws::outcome(
                doing,
                world.finding(disk),
            )
            &&& !laws::locked(doing) || doing is UnlockState ==> {
                &&& disk_next == disk
                &&& alone(next, world, found) == alone(doing, world, found)
                &&& laws::outcome(next, world.finding(found)) == laws::outcome(
                    doing,
                    world.finding(found),
                )
            }
            &&& doing is UnlockState ==> {
                &&& alone(doing, world, found) == found
                &&& laws::outcome(doing, world.finding(found)) == laws::outcome(
                    doing,
                    world.finding(disk),
                )
            }
        }),
{
    reveal_with_fuel(laws::write_asked, 5);
    reveal_with_fuel(laws::outcome, 5);
}

/// Finished runs come to where they are, in any order.
proof fn lemma_finished(order: Seq<int>, end: Together, worlds: Seq<World>)
    requires
        end.finished(),
        forall|k: int| 0 <= k < order.len() ==> 0 <= #[trigger] order[k] < end.runs.len(),
    ensures
        one_after_the_other(order, end.runs, worlds, end.disk, end),
    decreases order.len(),
{
    if order.len() > 0 {
        assert(end.runs[order.first()] is Finish);
        lemma_finished(order.drop_first(), end, worlds);
    }
}

/// Only the runs that are named matter.
proof fn lemma_named(
    order: Seq<int>,
    left: Seq<Doing>,
    right: Seq<Doing>,
    worlds: Seq<World>,
    disk: Saved,
    end: Together,
)
    requires
        forall|k: int| 0 <= k < order.len() ==> left[#[trigger] order[k]] == right[order[k]],
        one_after_the_other(order, left, worlds, disk, end),
    ensures
        one_after_the_other(order, right, worlds, disk, end),
    decreases order.len(),
{
    if order.len() > 0 {
        let i = order.first();
        assert(left[order[0]] == right[order[0]]);
        let rest = order.drop_first();
        assert forall|k: int| 0 <= k < rest.len() implies left[#[trigger] rest[k]]
            == right[rest[k]] by {
            assert(rest[k] == order[k + 1]);
        }
        lemma_named(rest, left, right, worlds, alone(left[i], worlds[i], disk), end);
    }
}

/// A move of a run that has no lock, or that gives it back, changes nothing in what
/// comes of the runs in an order.
proof fn lemma_free_move(
    order: Seq<int>,
    start: Together,
    worlds: Seq<World>,
    i: int,
    disk: Saved,
    end: Together,
)
    requires
        start.may_move(worlds, i),
        !laws::locked(start.runs[i]) || start.runs[i] is UnlockState,
        forall|k: int| 0 <= k < order.len() ==> 0 <= #[trigger] order[k] < start.runs.len(),
        one_after_the_other(order, start.step(worlds, i).runs, worlds, disk, end),
    ensures
        one_after_the_other(order, start.runs, worlds, disk, end),
    decreases order.len(),
{
    if order.len() > 0 {
        let j = order.first();
        assert(0 <= order[0] < start.runs.len());
        lemma_moved(start.runs[i], worlds[i], start.disk, disk);
        lemma_free_move(
            order.drop_first(),
            start,
            worlds,
            i,
            alone(start.runs[j], worlds[j], disk),
            end,
        );
    }
}

/// A run that only has to give the lock back may as well come first.
proof fn lemma_to_front(
    order: Seq<int>,
    k: int,
    runs: Seq<Doing>,
    worlds: Seq<World>,
    disk: Saved,
    end: Together,
)
    requires
        0 <= k < order.len(),
        runs[order[k]] is UnlockState,
        one_after_the_other(order, runs, worlds, disk, end),
    ensures
        one_after_the_other(seq![order[k]] + order.remove(k), runs, worlds, disk, end),
    decreases k,
{
    let i = order[k];
    let front = seq![i] + order.remove(k);
    assert(front.drop_first() =~= order.remove(k));
    if k == 0 {
        assert(front =~= order);
    } else {
        let j = order.first();
        let rest = order.drop_first();
        let between = alone(runs[j], worlds[j], disk);
        lemma_to_front(rest, k - 1, runs, worlds, between, end);
        let rest_front = seq![i] + rest.remove(k - 1);
        assert(rest_front.drop_first() =~= rest.remove(k - 1));
        assert(rest_front.first() == i);
        lemma_moved(runs[i], worlds[i], disk, between);
        lemma_moved(runs[i], worlds[i], disk, disk);
        assert(order.remove(k).first() == j);
        assert(order.remove(k).drop_first() =~= rest.remove(k - 1));
        assert(one_after_the_other(order.remove(k), runs, worlds, disk, end));
    }
}

/// To name one run earlier still names each run once.
proof fn lemma_front_orders(order: Seq<int>, k: int, count: nat)
    requires
        orders(order, count),
        0 <= k < count,
    ensures
        orders(seq![order[k]] + order.remove(k), count),
{
    let front = seq![order[k]] + order.remove(k);
    assert(forall|m: int| 0 < m <= k ==> front[m] == order[m - 1]);
    assert(forall|m: int| k < m < count ==> front[m] == order[m]);
    assert forall|i: int| 0 <= i < count <==> #[trigger] front.contains(i) by {
        if 0 <= i < count {
            assert(order.contains(i));
            let m = choose|m: int| 0 <= m < order.len() && order[m] == i;
            if m < k {
                assert(front[m + 1] == i);
            } else if m == k {
                assert(front[0] == i);
            } else {
                assert(front[m] == i);
            }
        }
        if front.contains(i) {
            let m = choose|m: int| 0 <= m < front.len() && front[m] == i;
            if m == 0 {
                assert(order[k] == i);
            } else if m <= k {
                assert(order[m - 1] == i);
            } else {
                assert(order[m] == i);
            }
            assert(order.contains(i));
        }
    }
}

/// What comes of the runs one after the other, from where they are after a turn, comes
/// of them from where they were before it.
proof fn lemma_step(
    order: Seq<int>,
    start: Together,
    worlds: Seq<World>,
    i: int,
    end: Together,
) -> (before: Seq<int>)
    requires
        start.exclusive(),
        in_turn(order, start.step(worlds, i), worlds, end),
    ensures
        in_turn(before, start, worlds, end),
{
    let next = start.step(worlds, i);
    assert forall|k: int| 0 <= k < order.len() implies 0 <= #[trigger] order[k]
        < start.runs.len() by {
        assert(order.contains(order[k]));
    }
    if !start.may_move(worlds, i) {
        order
    } else {
        let doing = start.runs[i];
        laws::lock_is_taken_and_given_back(doing, worlds[i].finding(start.disk));
        if doing is UnlockState {
            lemma_moved(doing, worlds[i], start.disk, start.disk);
            lemma_free_move(order, start, worlds, i, start.disk, end);
            assert(order.contains(i));
            let k = choose|k: int| 0 <= k < order.len() && order[k] == i;
            lemma_to_front(order, k, start.runs, worlds, start.disk, end);
            lemma_front_orders(order, k, start.runs.len());
            let before = seq![order[k]] + order.remove(k);
            assert(before.first() == i);
            assert(laws::locked(start.runs[i]));
            before
        } else if laws::locked(doing) {
            assert(laws::locked(next.runs[i]));
            assert(order.first() == i);
            lemma_moved(doing, worlds[i], start.disk, start.disk);
            let rest = order.drop_first();
            assert forall|k: int| 0 <= k < rest.len() implies next.runs[#[trigger] rest[k]]
                == start.runs[rest[k]] by {
                assert(rest[k] == order[k + 1]);
                assert(order[k + 1] != order[0]);
            }
            lemma_named(
                rest,
                next.runs,
                start.runs,
                worlds,
                alone(doing, worlds[i], start.disk),
                end,
            );
            order
        } else {
            lemma_moved(doing, worlds[i], start.disk, start.disk);
            lemma_free_move(order, start, worlds, i, start.disk, end);
            assert forall|j: int|
                0 <= j < start.runs.len() && #[trigger] laws::locked(
                    start.runs[j],
                ) implies order.first() == j by {
                assert(laws::locked(next.runs[j]));
            }
            order
        }
    }
}

proof fn lemma_step_exclusive(start: Together, worlds: Seq<World>, i: int)
    requires
        start.exclusive(),
    ensures
        start.step(worlds, i).exclusive(),
{
    let next = start.step(worlds, i);
    if start.may_move(worlds, i) {
        laws::lock_is_taken_and_given_back(start.runs[i], worlds[i].finding(start.disk));
        assert forall|j: int, k: int|
            0 <= j < next.runs.len() && 0 <= k < next.runs.len() && #[trigger] laws::locked(
                next.runs[j],
            ) && #[trigger] laws::locked(next.runs[k]) implies j == k by {
            if j != i {
                assert(laws::locked(start.runs[j]));
            }
            if k != i {
                assert(laws::locked(start.runs[k]));
            }
        }
    }
}

/// Runs of which at most one has the lock are never two to have it, whatever the answers
/// and however they take turns. So while one reads, changes and writes the state, no
/// other reads or writes it.
pub proof fn only_one_run_has_the_lock(start: Together, worlds: Seq<World>, turns: Seq<int>)
    requires
        start.exclusive(),
    ensures
        start.play(worlds, turns).exclusive(),
    decreases turns.len(),
{
    if turns.len() > 0 {
        lemma_step_exclusive(start, worlds, turns.first());
        only_one_run_has_the_lock(
            start.step(worlds, turns.first()),
            worlds,
            turns.drop_first(),
        );
    }
}

/// Runs do not wait for each other for ever: until all are finished, one of them can go
/// on, and whenever one does, less is left for it to do.
pub proof fn one_run_can_always_go_on(start: Together, worlds: Seq<World>) -> (i: int)
    requires
        start.exclusive(),
        !start.finished(),
    ensures
        start.may_move(worlds, i),
        forall|j: int| #[trigger]
            start.may_move(worlds, j) ==> laws::steps_left(start.step(worlds, j).runs[j])
                < laws::steps_left(start.runs[j]),
{
    let unfinished = choose|i: int|
        0 <= i < start.runs.len() && !(#[trigger] start.runs[i] is Finish);
    let i = if exists|j: int| 0 <= j < start.runs.len() && #[trigger] laws::locked(start.runs[j]) {
        choose|j: int| 0 <= j < start.runs.len() && #[trigger] laws::locked(start.runs[j])
    } else {
        unfinished
    };
    assert forall|j: int| #[trigger] start.may_move(worlds, j) implies laws::steps_left(
        start.step(worlds, j).runs[j],
    ) < laws::steps_left(start.runs[j]) by {
        laws::runs_end(start.runs[j], worlds[j].finding(start.disk));
    }
    i
}

/// Runs at once, however many there are, however they take turns and whatever the
/// answers, come to what they come to one after the other in some order: the state that
/// is stored in the end and the outcome of each are the same.
pub proof fn runs_take_effect_one_after_the_other(
    start: Together,
    worlds: Seq<World>,
    turns: Seq<int>,
) -> (order: Seq<int>)
    requires
        start.exclusive(),
        start.play(worlds, turns).finished(),
    ensures
        in_turn(order, start, worlds, start.play(worlds, turns)),
    decreases turns.len(),
{
    let end = start.play(worlds, turns);
    if turns.len() > 0 {
        let next = start.step(worlds, turns.first());
        lemma_step_exclusive(start, worlds, turns.first());
        let order = runs_take_effect_one_after_the_other(next, worlds, turns.drop_first());
        lemma_step(order, start, worlds, turns.first(), end)
    } else {
        let order = Seq::new(start.runs.len(), |i: int| i);
        assert forall|i: int| 0 <= i < start.runs.len() <==> #[trigger] order.contains(i) by {
            if 0 <= i < start.runs.len() {
                assert(order[i] == i);
            }
        }
        assert forall|i: int| 0 <= i < start.runs.len() implies !#[trigger] laws::locked(
            start.runs[i],
        ) by {
            assert(start.runs[i] is Finish);
        }
        lemma_finished(order, end, worlds);
        order
    }
}

/// An update that ends well was made to the state that it found.
proof fn lemma_reported_update(change: Changing, world: World, disk: Saved)
    requires
        laws::outcome(Doing::CreateStateDir { change }, world.finding(disk)) is Ok,
    ensures
        alone(Doing::CreateStateDir { change }, world, disk).workspaces == disk.changed(
            change,
            world.now_ms,
        ).workspaces,
{
    reveal_with_fuel(laws::outcome, 8);
    reveal_with_fuel(laws::write_asked, 8);
    laws::only_real_changes_are_written(disk, change, world.now_ms);
}

/// A state after these changes, each at the time of its run.
pub open spec fn changed_in_order(
    order: Seq<int>,
    changes: Seq<Changing>,
    worlds: Seq<World>,
    saved: Saved,
) -> Saved
    decreases order.len(),
{
    if order.len() == 0 {
        saved
    } else {
        let i = order.first();
        changed_in_order(
            order.drop_first(),
            changes,
            worlds,
            saved.changed(changes[i], worlds[i].now_ms),
        )
    }
}

/// Runs that are about to make these changes.
pub open spec fn updating(changes: Seq<Changing>) -> Seq<Doing> {
    changes.map_values(|change: Changing| Doing::CreateStateDir { change })
}

/// Whether all runs have ended well.
pub open spec fn all_well(end: Together) -> bool {
    forall|i: int|
        0 <= i < end.runs.len() ==> #[trigger] end.runs[i] == (Doing::Finish { outcome: Ok(()) })
}

proof fn lemma_updates(
    order: Seq<int>,
    changes: Seq<Changing>,
    worlds: Seq<World>,
    disk: Saved,
    saved: Saved,
    end: Together,
)
    requires
        forall|k: int| 0 <= k < order.len() ==> 0 <= #[trigger] order[k] < changes.len(),
        end.runs.len() == changes.len(),
        all_well(end),
        disk.workspaces == saved.workspaces,
        one_after_the_other(order, updating(changes), worlds, disk, end),
    ensures
        end.disk.workspaces == changed_in_order(order, changes, worlds, saved).workspaces,
    decreases order.len(),
{
    if order.len() > 0 {
        let i = order.first();
        assert(0 <= order[0] < changes.len());
        assert(end.runs[i] == (Doing::Finish { outcome: Ok(()) }));
        lemma_reported_update(changes[i], worlds[i], disk);
        lemma_updates(
            order.drop_first(),
            changes,
            worlds,
            alone(updating(changes)[i], worlds[i], disk),
            saved.changed(changes[i], worlds[i].now_ms),
            end,
        );
    }
}

proof fn lemma_count(start: Together, worlds: Seq<World>, turns: Seq<int>)
    ensures
        start.play(worlds, turns).runs.len() == start.runs.len(),
    decreases turns.len(),
{
    if turns.len() > 0 {
        lemma_count(start.step(worlds, turns.first()), worlds, turns.drop_first());
    }
}

/// No update is lost: where updates of one state are made at once, however many there
/// are, and all end well, the workspaces that are stored in the end are those after all
/// the changes, one after the other in some order.
pub proof fn no_update_is_lost(
    changes: Seq<Changing>,
    saved: Saved,
    worlds: Seq<World>,
    turns: Seq<int>,
) -> (order: Seq<int>)
    requires
        all_well((Together { runs: updating(changes), disk: saved }).play(worlds, turns)),
    ensures
        orders(order, changes.len()),
        (Together { runs: updating(changes), disk: saved }).play(worlds, turns).disk.workspaces
            == changed_in_order(order, changes, worlds, saved).workspaces,
{
    let start = Together { runs: updating(changes), disk: saved };
    let end = start.play(worlds, turns);
    lemma_count(start, worlds, turns);
    assert forall|i: int| 0 <= i < end.runs.len() implies #[trigger] end.runs[i] is Finish by {
        assert(end.runs[i] == (Doing::Finish { outcome: Ok(()) }));
    }
    let order = runs_take_effect_one_after_the_other(start, worlds, turns);
    assert forall|k: int| 0 <= k < order.len() implies 0 <= #[trigger] order[k]
        < changes.len() by {
        assert(order.contains(order[k]));
    }
    lemma_updates(order, changes, worlds, saved, saved, end);
    order
}

/// Of two updates at once that both end well, the workspaces that are stored in the end
/// are those after the first change and then the second, or after the second and then
/// the first.
pub proof fn two_updates_count_one_after_the_other(
    change1: Changing,
    change2: Changing,
    saved: Saved,
    world1: World,
    world2: World,
    turns: Seq<int>,
)
    requires
        all_well(
            (Together { runs: updating(seq![change1, change2]), disk: saved }).play(
                seq![world1, world2],
                turns,
            ),
        ),
    ensures
        ({
            let start = Together { runs: updating(seq![change1, change2]), disk: saved };
            let end = start.play(seq![world1, world2], turns).disk.workspaces;
            ||| end == saved.changed(change1, world1.now_ms).changed(
                change2,
                world2.now_ms,
            ).workspaces
            ||| end == saved.changed(change2, world2.now_ms).changed(
                change1,
                world1.now_ms,
            ).workspaces
        }),
{
    let order = no_update_is_lost(
        seq![change1, change2],
        saved,
        seq![world1, world2],
        turns,
    );
    assert(order.contains(order[0]) && order.contains(order[1]));
    assert(order[0] != order[1]);
    reveal_with_fuel(changed_in_order, 3);
}

} // verus!
