use vstd::prelude::*;

verus! {

/// Returned when a pool is asked for with zero workers.
#[derive(Debug, PartialEq, Eq, Structural, Clone, Copy)]
pub struct PoolCreationError;

/// Accepts a worker count if it is positive.
pub fn check_size(size: usize) -> (r: Result<usize, PoolCreationError>)
    ensures
        r == (if size > 0 {
            Ok::<usize, PoolCreationError>(size)
        } else {
            Err::<usize, PoolCreationError>(PoolCreationError)
        }),
{
    if size > 0 {
        Ok(size)
    } else {
        Err(PoolCreationError)
    }
}

/// Abstract state of a pool: for worker `i`, the handle not yet joined (if
/// any), and the submission handle while submissions are accepted.
pub struct PoolState<S, H> {
    pub threads: Seq<Option<H>>,
    pub sender: Option<S>,
}

/// The handles still to be joined, paired with their worker ids, in id order.
pub open spec fn joinable<H>(threads: Seq<Option<H>>) -> Seq<(usize, H)>
    decreases threads.len(),
{
    if threads.len() == 0 {
        Seq::empty()
    } else {
        let rest = joinable(threads.drop_last());
        match threads.last() {
            Some(h) => rest.push(((threads.len() - 1) as usize, h)),
            None => rest,
        }
    }
}

impl<S, H> PoolState<S, H> {
    /// State after shutdown: no submission handle, no handle left to join.
    pub open spec fn shut_down(self) -> PoolState<S, H> {
        PoolState { threads: Seq::new(self.threads.len(), |i: int| None), sender: None }
    }
}

/// Lifecycle bookkeeping of a worker pool: one slot per worker, slot `i`
/// holding the thread handle `H` of worker `i` until it is joined, and the
/// submission handle `S`.
///
/// Shutdown first gives up the submission handle, so the caller can close
/// the queue, then moves every thread handle out of its slot, so each worker
/// is joined at most once however often shutdown runs.
pub struct Pool<S, H> {
    threads: Vec<Option<H>>,
    sender: Option<S>,
}

impl<S, H> View for Pool<S, H> {
    type V = PoolState<S, H>;

    closed spec fn view(&self) -> PoolState<S, H> {
        PoolState { threads: self.threads@, sender: self.sender }
    }
}

impl<S, H> Pool<S, H> {
    /// Builds a pool from a submission handle and one thread handle per
    /// worker, worker `i` owning `threads[i]`; refuses an empty set.
    pub fn build(sender: S, threads: Vec<H>) -> (r: Result<Pool<S, H>, PoolCreationError>)
        ensures
            r is Err <==> threads@.len() == 0,
            r matches Ok(p) ==> {
                &&& p@.sender == Some(sender)
                &&& p@.threads.len() == threads@.len()
                &&& forall|i: int| 0 <= i < threads@.len() ==> #[trigger] p@.threads[i] == Some(threads@[i])
            },
    {
        if threads.len() == 0 {
            return Err(PoolCreationError);
        }
        let ghost all = threads@;
        let mut rest = threads;
        let mut slots: Vec<Option<H>> = Vec::new();
        while rest.len() > 0
            invariant
                slots@.len() + rest@.len() == all.len(),
                rest@ == all.subrange(slots@.len() as int, all.len() as int),
                forall|i: int| 0 <= i < slots@.len() ==> #[trigger] slots@[i] == Some(all[i]),
            decreases rest@.len(),
        {
            let h = rest.remove(0);
            slots.push(Some(h));
        }
        Ok(Pool { threads: slots, sender: Some(sender) })
    }

    /// Number of workers.
    pub fn size(&self) -> (r: usize)
        ensures
            r == self@.threads.len(),
    {
        self.threads.len()
    }

    /// The submission handle, while the pool accepts work.
    pub fn sender(&self) -> (r: Option<&S>)
        ensures
            r == (match self@.sender {
                Some(s) => Some(&s),
                None => None,
            }),
    {
        self.sender.as_ref()
    }

    /// Begins shutdown: hands back the submission handle (for the caller to
    /// close) and every thread handle not yet joined, with its worker id, in
    /// id order, leaving no handle behind.
    pub fn shutdown(&mut self) -> (r: (Option<S>, Vec<(usize, H)>))
        ensures
            r.0 == old(self)@.sender,
            r.1@ == joinable(old(self)@.threads),
            final(self)@ == old(self)@.shut_down(),
    {
        let sender = self.sender.take();
        let ghost before = self@.threads;
        let mut handles: Vec<(usize, H)> = Vec::new();
        let n = self.threads.len();
        let mut i: usize = 0;
        while i < n
            invariant
                n == self.threads@.len() == before.len(),
                i <= n,
                self.sender is None,
                forall|j: int| 0 <= j < i ==> #[trigger] self.threads@[j] is None,
                forall|j: int| i <= j < n ==> #[trigger] self.threads@[j] == before[j],
                handles@ == joinable(before.subrange(0, i as int)),
            decreases n - i,
        {
            let mut slot: Option<H> = None;
            self.threads.set_and_swap(i, &mut slot);
            assert(before.subrange(0, i + 1).drop_last() =~= before.subrange(0, i as int));
            match slot {
                Some(h) => handles.push((i, h)),
                None => {},
            }
            i = i + 1;
        }
        assert(before.subrange(0, n as int) =~= before);
        assert(self@.threads =~= Seq::new(n as nat, |k: int| None::<H>));
        (sender, handles)
    }
}

/// Every entry of `joinable(threads)` names a worker below `threads.len()`,
/// and the ids strictly increase.
pub proof fn lemma_joinable_ids<H>(threads: Seq<Option<H>>)
    requires
        threads.len() <= usize::MAX,
    ensures
        forall|k: int|
            0 <= k < joinable(threads).len() ==> (#[trigger] joinable(threads)[k]).0
                < threads.len(),
        forall|k: int, m: int|
            0 <= k < m < joinable(threads).len() ==> (#[trigger] joinable(threads)[k]).0
                < (#[trigger] joinable(threads)[m]).0,
    decreases threads.len(),
{
    if threads.len() > 0 {
        let rest = threads.drop_last();
        lemma_joinable_ids(rest);
        let all = joinable(threads);
        let prev = joinable(rest);
        if threads.last() is Some {
            let h = threads.last()->Some_0;
            assert(all == prev.push(((threads.len() - 1) as usize, h)));
            assert(all.len() == prev.len() + 1);
            assert forall|k: int| 0 <= k < all.len() implies (#[trigger] all[k]).0
                < threads.len() by {
                if k < prev.len() {
                    assert(all[k] == prev[k]);
                }
            }
            assert forall|k: int, m: int| 0 <= k < m < all.len() implies (#[trigger] all[k]).0
                < (#[trigger] all[m]).0 by {
                assert(all[k] == prev[k]);
                assert(prev[k].0 < rest.len());
                if m < prev.len() {
                    assert(all[m] == prev[m]);
                }
            }
        } else {
            assert(all == prev);
        }
    }
}

/// Shutdown joins each worker at most once: one shutdown hands out each
/// handle under a distinct worker id, and shutting down again hands out no
/// handle and no submission handle, leaving the pool as it was.
pub proof fn shutdown_joins_each_worker_once<S, H>(p: PoolState<S, H>)
    requires
        p.threads.len() <= usize::MAX,
    ensures
        forall|k: int, m: int|
            0 <= k < m < joinable(p.threads).len() ==> (#[trigger] joinable(p.threads)[k]).0
                != (#[trigger] joinable(p.threads)[m]).0,
        joinable(p.shut_down().threads).len() == 0,
        p.shut_down().sender is None,
        p.shut_down().shut_down() == p.shut_down(),
{
    lemma_joinable_ids(p.threads);
    lemma_joinable_none(p.shut_down().threads);
    assert(p.shut_down().shut_down().threads =~= p.shut_down().threads);
}

/// A sequence of empty slots has nothing to join.
proof fn lemma_joinable_none<H>(threads: Seq<Option<H>>)
    requires
        forall|i: int| 0 <= i < threads.len() ==> #[trigger] threads[i] is None,
    ensures
        joinable(threads).len() == 0,
    decreases threads.len(),
{
    if threads.len() > 0 {
        lemma_joinable_none(threads.drop_last());
    }
}

} // verus!
