use vstd::prelude::*;

verus! {

/// Where a spawn request is carried out.
#[derive(Debug, PartialEq, Eq, Structural)]
pub enum SpawnRoute {
    /// The calling thread is the main thread: it starts the worker itself.
    Direct,
    /// The calling thread is a worker: it asks the main thread to start the
    /// worker, since only the main thread can.
    ForwardToMain,
}

/// The main thread after a spawn by `current`, when it was `main` before: the
/// first thread to spawn becomes the main thread, and stays so.
pub open spec fn next_main<Id>(main: Option<Id>, current: Id) -> Option<Id> {
    match main {
        None => Some(current),
        Some(m) => Some(m),
    }
}

/// Where a spawn by thread `current` is carried out, when the main thread is
/// `main`: on the main thread itself (the first spawner is the main thread),
/// elsewhere forwarded to it.
pub open spec fn route_for(main: Option<u64>, current: u64) -> SpawnRoute {
    match main {
        None => SpawnRoute::Direct,
        Some(m) => if m == current {
            SpawnRoute::Direct
        } else {
            SpawnRoute::ForwardToMain
        },
    }
}

/// Remembers which thread is the main thread: the first one that spawns.
/// Threads are told apart by a number unique to each thread.
pub struct SpawnRouter {
    main_thread: Option<u64>,
}

impl SpawnRouter {
    /// The main thread, once known.
    pub closed spec fn main_view(&self) -> Option<u64> {
        self.main_thread
    }

    /// A router that has not yet seen a spawn.
    pub fn new() -> (r: Self)
        ensures
            r.main_view() is None,
    {
        SpawnRouter { main_thread: None }
    }

    /// The main thread, once known.
    pub fn main_thread(&self) -> (m: Option<u64>)
        ensures
            m == self.main_view(),
    {
        self.main_thread
    }

    /// Decides where a spawn requested by thread `current` is carried out. The
    /// first thread to spawn becomes the main thread; a spawn on the main thread
    /// is carried out there, any other is forwarded to it.
    pub fn route(&mut self, current: u64) -> (r: SpawnRoute)
        ensures
            final(self).main_view() == next_main(old(self).main_view(), current),
            r == route_for(old(self).main_view(), current),
            r == SpawnRoute::Direct <==> final(self).main_view() == Some(current),
    {
        match self.main_thread {
            None => {
                self.main_thread = Some(current);
                SpawnRoute::Direct
            },
            Some(main) => {
                if main == current {
                    SpawnRoute::Direct
                } else {
                    SpawnRoute::ForwardToMain
                }
            },
        }
    }
}

/// The main thread known after the threads in `spawners` have spawned, in that
/// order, starting from a router that has seen no spawn.
pub open spec fn main_after<Id>(spawners: Seq<Id>) -> Option<Id>
    decreases spawners.len(),
{
    if spawners.len() == 0 {
        None
    } else {
        next_main(main_after(spawners.drop_last()), spawners.last())
    }
}

/// Whatever threads spawn, in whatever order, the main thread is the first of
/// them.
pub proof fn lemma_first_spawner_is_main<Id>(spawners: Seq<Id>)
    requires
        spawners.len() > 0,
    ensures
        main_after(spawners) == Some(spawners[0]),
    decreases spawners.len(),
{
    if spawners.len() > 1 {
        lemma_first_spawner_is_main(spawners.drop_last());
        assert(spawners.drop_last()[0] == spawners[0]);
    } else {
        assert(spawners.drop_last() =~= Seq::<Id>::empty());
        assert(main_after(spawners.drop_last()) is None);
        assert(spawners.last() == spawners[0]);
    }
}

/// After any threads have spawned, the first of them is the main thread: a
/// spawn there is carried out directly, a spawn anywhere else is forwarded, and
/// the next spawn leaves the main thread as it was.
pub proof fn lemma_spawn_routes_to_first_spawner(spawners: Seq<u64>, current: u64)
    requires
        spawners.len() > 0,
    ensures
        route_for(main_after(spawners), current) == SpawnRoute::Direct <==> current == spawners[0],
        main_after(spawners.push(current)) == Some(spawners[0]),
{
    lemma_first_spawner_is_main(spawners);
    assert(spawners.push(current).drop_last() =~= spawners);
}

/// A spawn is carried out directly exactly when the spawning thread is the main
/// thread once it has spawned: always for the very first spawn, and afterwards
/// only on the first spawner.
pub proof fn lemma_direct_exactly_on_main_thread(spawners: Seq<u64>, current: u64)
    ensures
        route_for(main_after(spawners), current) == SpawnRoute::Direct <==> next_main(
            main_after(spawners),
            current,
        ) == Some(current),
        spawners.len() == 0 ==> route_for(main_after(spawners), current) == SpawnRoute::Direct,
{
    if spawners.len() > 0 {
        lemma_first_spawner_is_main(spawners);
    }
}

} // verus!
