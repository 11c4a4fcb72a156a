//! The background task that keeps the virtual filesystem up to date.
use crate::error::VfsError;
use vstd::prelude::*;

verus! {

/// What the task does on a tick of its timer.
#[derive(Clone, Copy, Debug, PartialEq, Eq, Structural)]
pub enum TickAction {
    /// Wait for the next tick.
    Wait,
    /// Rebuild the virtual filesystem, then wait for the next tick.
    Rebuild,
    /// End the task.
    Exit,
}

/// What the task does once a rebuild is over.
#[derive(Debug)]
pub enum RebuildAction<V> {
    /// Serve the new filesystem from now on.
    Install(V),
    /// Go on serving the one that is there, and log why.
    Keep(VfsError),
}

/// What to do on a tick: the first is spent waiting, as the timer fires right
/// away; from then on the task goes on as long as its owner is there.
pub open spec fn tick_action(primed: bool, owner_alive: bool) -> TickAction {
    if !primed {
        TickAction::Wait
    } else if owner_alive {
        TickAction::Rebuild
    } else {
        TickAction::Exit
    }
}

/// What to do once a rebuild is over.
pub open spec fn rebuild_action<V>(rebuilt: Result<V, VfsError>) -> RebuildAction<V> {
    match rebuilt {
        Ok(vfs) => RebuildAction::Install(vfs),
        Err(error) => RebuildAction::Keep(error),
    }
}

/// Decides what the background task does. The timer, the rebuild and the swap
/// are done by whoever runs it.
#[derive(Debug)]
pub struct RefreshTask {
    /// Whether the first tick is over.
    primed: bool,
}

impl View for RefreshTask {
    type V = bool;

    /// Whether the first tick is over.
    closed spec fn view(&self) -> bool {
        self.primed
    }
}

impl RefreshTask {
    /// A task whose timer has not fired yet.
    pub fn new() -> (task: RefreshTask)
        ensures
            !task@,
    {
        RefreshTask { primed: false }
    }

    /// What to do now that the timer has fired, given whether the owner of the
    /// virtual filesystem is still there.
    pub fn tick(&mut self, owner_alive: bool) -> (action: TickAction)
        ensures
            action == tick_action(old(self)@, owner_alive),
            final(self)@,
    {
        if !self.primed {
            self.primed = true;
            TickAction::Wait
        } else if owner_alive {
            TickAction::Rebuild
        } else {
            TickAction::Exit
        }
    }

    /// What to do now that a rebuild is over.
    pub fn rebuilt<V>(rebuilt: Result<V, VfsError>) -> (action: RebuildAction<V>)
        ensures
            action == rebuild_action(rebuilt),
    {
        match rebuilt {
            Ok(vfs) => RebuildAction::Install(vfs),
            Err(error) => RebuildAction::Keep(error),
        }
    }
}

/// One tick of the timer: whether the owner is there, and what a rebuild would
/// give.
pub struct Tick<V> {
    /// Whether the owner of the virtual filesystem is there.
    pub owner_alive: bool,
    /// What a rebuild would give.
    pub rebuilt: Result<V, VfsError>,
}

/// The task at work: what it serves, and how far it has come.
pub struct Refreshing<V> {
    /// The filesystem that is served.
    pub vfs: V,
    /// Whether the first tick is over.
    pub primed: bool,
    /// Whether the task has not ended.
    pub running: bool,
}

impl<V> Refreshing<V> {
    /// A task that has just been started, over the filesystem `vfs`.
    pub open spec fn started(vfs: V) -> Refreshing<V> {
        Refreshing { vfs, primed: false, running: true }
    }

    /// The task after one more tick.
    pub open spec fn after_tick(self, tick: Tick<V>) -> Refreshing<V> {
        if !self.running {
            self
        } else {
            match tick_action(self.primed, tick.owner_alive) {
                TickAction::Wait => Refreshing { primed: true, ..self },
                TickAction::Exit => Refreshing { primed: true, running: false, ..self },
                TickAction::Rebuild => match rebuild_action(tick.rebuilt) {
                    RebuildAction::Install(vfs) => Refreshing { vfs, primed: true, ..self },
                    RebuildAction::Keep(_) => Refreshing { primed: true, ..self },
                },
            }
        }
    }

    /// The task after a number of ticks.
    pub open spec fn after(self, ticks: Seq<Tick<V>>) -> Refreshing<V>
        decreases ticks.len(),
    {
        if ticks.len() == 0 {
            self
        } else {
            self.after(ticks.drop_last()).after_tick(ticks.last())
        }
    }
}

/// Whether the task runs for `ticks` and rebuilds on the tick `i`: it is not the
/// first, and the owner was there on all ticks from the second to this one.
pub open spec fn rebuilds_on<V>(ticks: Seq<Tick<V>>, i: int) -> bool {
    &&& 1 <= i < ticks.len()
    &&& forall|j: int| 1 <= j <= i ==> (#[trigger] ticks[j]).owner_alive
}

/// A task runs on until the first tick, its own first one apart, on which its
/// owner is gone; on that tick it ends, and it never starts again.
pub proof fn law_task_ends_with_its_owner<V>(vfs: V, ticks: Seq<Tick<V>>)
    ensures
        Refreshing::started(vfs).after(ticks).running <==> (forall|j: int|
            1 <= j < ticks.len() ==> (#[trigger] ticks[j]).owner_alive),
        Refreshing::started(vfs).after(ticks).primed <==> ticks.len() > 0,
    decreases ticks.len(),
{
    if ticks.len() > 0 {
        let before = ticks.drop_last();
        law_task_ends_with_its_owner(vfs, before);
        let last = ticks.len() - 1;
        assert forall|j: int| 0 <= j < last implies before[j] == #[trigger] ticks[j] by {}
        if forall|j: int| 1 <= j < ticks.len() ==> (#[trigger] ticks[j]).owner_alive {
            assert forall|j: int| 1 <= j < before.len() implies (
            #[trigger] before[j]).owner_alive by {
                assert(ticks[j].owner_alive);
            }
        } else if forall|j: int| 1 <= j < before.len() ==> (#[trigger] before[j]).owner_alive {
            let j = choose|j: int| 1 <= j < ticks.len() && !(#[trigger] ticks[j]).owner_alive;
            assert(j == last) by {
                if j < last {
                    assert(before[j].owner_alive);
                }
            }
        } else {
            let j = choose|j: int| 1 <= j < before.len() && !(#[trigger] before[j]).owner_alive;
            assert(!ticks[j].owner_alive);
        }
    }
}

/// A rebuild that succeeds is what is served from then on, up to the next that
/// succeeds: failures in between, and the end of the task, change nothing.
pub proof fn law_last_good_rebuild_is_served<V>(vfs: V, ticks: Seq<Tick<V>>, i: int)
    requires
        rebuilds_on(ticks, i),
        ticks[i].rebuilt is Ok,
        forall|j: int|
            i < j < ticks.len() && rebuilds_on(ticks, j) ==> (#[trigger] ticks[j]).rebuilt is Err,
    ensures
        Refreshing::started(vfs).after(ticks).vfs == ticks[i].rebuilt->Ok_0,
    decreases ticks.len(),
{
    let before = ticks.drop_last();
    let last = ticks.len() - 1;
    law_task_ends_with_its_owner(vfs, before);
    assert forall|j: int| 0 <= j < last implies before[j] == #[trigger] ticks[j] by {}
    let state = Refreshing::started(vfs).after(before);
    if i == last {
        assert forall|j: int| 1 <= j < before.len() implies (#[trigger] before[j]).owner_alive by {
            assert(ticks[j].owner_alive);
        }
        assert(state.running && state.primed);
    } else {
        assert forall|j: int| 1 <= j <= i implies (#[trigger] before[j]).owner_alive by {
            assert(ticks[j].owner_alive);
        }
        assert forall|j: int| i < j < before.len() && rebuilds_on(before, j) implies (
        #[trigger] before[j]).rebuilt is Err by {
            assert forall|k: int| 1 <= k <= j implies (#[trigger] ticks[k]).owner_alive by {
                assert(before[k].owner_alive);
            }
            assert(rebuilds_on(ticks, j));
            assert(ticks[j].rebuilt is Err);
        }
        law_last_good_rebuild_is_served(vfs, before, i);
        if state.running && ticks[last].owner_alive {
            assert forall|k: int| 1 <= k <= last implies (#[trigger] ticks[k]).owner_alive by {
                if k < last {
                    assert(before[k].owner_alive);
                }
            }
            assert(rebuilds_on(ticks, last));
            assert(ticks[last].rebuilt is Err);
        }
    }
}

/// As long as no rebuild succeeds, what was there at the start is served.
pub proof fn law_failed_rebuilds_change_nothing<V>(vfs: V, ticks: Seq<Tick<V>>)
    requires
        forall|j: int| rebuilds_on(ticks, j) ==> (#[trigger] ticks[j]).rebuilt is Err,
    ensures
        Refreshing::started(vfs).after(ticks).vfs == vfs,
    decreases ticks.len(),
{
    if ticks.len() > 0 {
        let before = ticks.drop_last();
        let last = ticks.len() - 1;
        law_task_ends_with_its_owner(vfs, before);
        assert forall|j: int| 0 <= j < last implies before[j] == #[trigger] ticks[j] by {}
        assert forall|j: int| rebuilds_on(before, j) implies (#[trigger] before[j]).rebuilt is Err by {
            assert forall|k: int| 1 <= k <= j implies (#[trigger] ticks[k]).owner_alive by {
                assert(before[k].owner_alive);
            }
            assert(rebuilds_on(ticks, j));
            assert(ticks[j].rebuilt is Err);
        }
        law_failed_rebuilds_change_nothing(vfs, before);
        let state = Refreshing::started(vfs).after(before);
        if last > 0 && state.running && ticks[last].owner_alive {
            assert forall|k: int| 1 <= k <= last implies (#[trigger] ticks[k]).owner_alive by {
                if k < last {
                    assert(before[k].owner_alive);
                }
            }
            assert(rebuilds_on(ticks, last));
            assert(ticks[last].rebuilt is Err);
        }
    }
}

/// A tick replaces what is served as a whole or not at all: it is what it was, or
/// all of what the rebuild gave. Where the owner is there and the rebuild succeeds,
/// a running task past its first tick serves what the rebuild gave.
pub proof fn law_tick_swaps_the_whole<V>(state: Refreshing<V>, tick: Tick<V>)
    ensures
        state.after_tick(tick).vfs == state.vfs || tick.rebuilt == Ok::<V, VfsError>(
            state.after_tick(tick).vfs,
        ),
        state.running && state.primed && tick.owner_alive && tick.rebuilt is Ok ==> tick.rebuilt
            == Ok::<V, VfsError>(state.after_tick(tick).vfs),
{
}

/// Whoever looks after any number of ticks sees a whole filesystem: the one from
/// the start, or what one of the rebuilds up to then gave.
pub proof fn law_readers_see_a_whole_filesystem<V>(vfs: V, ticks: Seq<Tick<V>>, n: int)
    requires
        0 <= n <= ticks.len(),
    ensures
        ({
            let seen = Refreshing::started(vfs).after(ticks.take(n)).vfs;
            seen == vfs || exists|i: int|
                0 <= i < n && rebuilds_on(ticks, i) && (#[trigger] ticks[i]).rebuilt == Ok::<
                    V,
                    VfsError,
                >(seen)
        }),
    decreases n,
{
    if n > 0 {
        law_readers_see_a_whole_filesystem(vfs, ticks, n - 1);
        let before = ticks.take(n - 1);
        let now = ticks.take(n);
        assert(now.drop_last() =~= before);
        assert(now.last() == ticks[n - 1]);
        law_task_ends_with_its_owner(vfs, before);
        let state = Refreshing::started(vfs).after(before);
        if state.running && state.primed && ticks[n - 1].owner_alive {
            assert forall|j: int| 1 <= j <= n - 1 implies (#[trigger] ticks[j]).owner_alive by {
                if j < n - 1 {
                    assert(before[j].owner_alive);
                }
            }
            assert(rebuilds_on(ticks, n - 1));
        }
    }
}

/// The first tick of a new task is spent waiting, whether or not its owner is there.
pub proof fn law_first_tick_waits(
    new: RefreshTask,
    task: &mut RefreshTask,
    owner_alive: bool,
    action: TickAction,
)
    requires
        call_ensures(RefreshTask::new, (), new),
        *old(task) == new,
        call_ensures(RefreshTask::tick, (task, owner_alive), action),
    ensures
        action == TickAction::Wait,
{
}

/// On every tick after another, the task rebuilds where its owner is there, and ends
/// where it is not.
pub proof fn law_later_ticks_rebuild_or_end(
    task: &mut RefreshTask,
    owner_alive: bool,
    action: TickAction,
    later: &mut RefreshTask,
    owner_alive_later: bool,
    action_later: TickAction,
)
    requires
        call_ensures(RefreshTask::tick, (task, owner_alive), action),
        *old(later) == *final(task),
        call_ensures(RefreshTask::tick, (later, owner_alive_later), action_later),
    ensures
        owner_alive_later ==> action_later == TickAction::Rebuild,
        !owner_alive_later ==> action_later == TickAction::Exit,
{
}

/// What a rebuild gives is served, and nothing but that; a rebuild that fails
/// replaces nothing, and its error is what is logged.
pub proof fn law_rebuild_is_installed_or_not<V>(
    rebuilt: Result<V, VfsError>,
    action: RebuildAction<V>,
)
    requires
        call_ensures(RefreshTask::rebuilt::<V>, (rebuilt,), action),
    ensures
        rebuilt matches Ok(vfs) ==> action == RebuildAction::Install(vfs),
        rebuilt matches Err(error) ==> action == RebuildAction::<V>::Keep(error),
{
}

} // verus!
