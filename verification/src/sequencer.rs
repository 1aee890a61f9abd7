//! The acquire/release sequencer: each swapchain keeps a FIFO queue of
//! acquired-but-unreleased image indices. An acquire pushes the index the
//! inner runtime returned; a release always targets the front of the queue
//! and is rejected outright when nothing is outstanding.
use vstd::prelude::*;

use crate::records::SwapchainRecord;
use crate::registry::LayerContext;
use crate::LayerError;

verus! {

/// What one release does to a queue of outstanding indices: rejected when
/// the queue is empty, otherwise it yields the oldest index and the queue
/// without it.
pub open spec fn spec_release(q: Seq<u32>) -> Option<(u32, Seq<u32>)> {
    if q.len() == 0 {
        None
    } else {
        Some((q[0], q.subrange(1, q.len() as int)))
    }
}

/// The queue after a whole sequence of acquires, oldest first.
pub open spec fn spec_enqueue_all(q: Seq<u32>, xs: Seq<u32>) -> Seq<u32>
    decreases xs.len(),
{
    if xs.len() == 0 {
        q
    } else {
        spec_enqueue_all(q.push(xs[0]), xs.subrange(1, xs.len() as int))
    }
}

/// Two swapchain records that agree on everything but whose queue of
/// acquired indices is the given sequence.
pub open spec fn spec_with_queue(a: SwapchainRecord, b: SwapchainRecord, q: Seq<u32>) -> bool {
    &&& b.handle == a.handle
    &&& b.session == a.session
    &&& b.instance == a.instance
    &&& b.width == a.width
    &&& b.height == a.height
    &&& b.layers == a.layers
    &&& b.graphics == a.graphics
    &&& b.acquired@ == q
}

/// The answer a release gets before any native work is done: the index at
/// the front of the queue, "handle invalid" for an unknown swapchain, or
/// "call order invalid" for a release with nothing outstanding.
pub open spec fn spec_front_to_release(swaps: Map<u64, SwapchainRecord>, h: u64) -> Result<
    u32,
    LayerError,
> {
    if !swaps.dom().contains(h) {
        Err(LayerError::HandleInvalid)
    } else if swaps[h].acquired@.len() == 0 {
        Err(LayerError::CallOrderInvalid)
    } else {
        Ok(swaps[h].acquired@[0])
    }
}

impl LayerContext {
    /// Records a successful acquire: the index the inner runtime returned
    /// joins the back of the swapchain's FIFO queue.
    pub fn record_acquire(&mut self, h: u64, index: u32) -> (r: Result<(), LayerError>)
        ensures
            final(self).insts() == old(self).insts(),
            final(self).sess() == old(self).sess(),
            !old(self).swaps().dom().contains(h) ==> r == Err::<(), LayerError>(
                LayerError::HandleInvalid,
            ) && final(self).swaps() == old(self).swaps(),
            old(self).swaps().dom().contains(h) ==> {
                &&& r == Ok::<(), LayerError>(())
                &&& spec_with_queue(
                    old(self).swaps()[h],
                    final(self).swaps()[h],
                    old(self).swaps()[h].acquired@.push(index),
                )
                &&& final(self).swaps() == old(self).swaps().insert(h, final(self).swaps()[h])
            },
    {
        match self.get_swapchain(h) {
            None => Err(LayerError::HandleInvalid),
            Some(rec) => {
                let mut rec = rec;
                rec.acquired.push_back(index);
                self.put_swapchain(h, rec);
                Ok(())
            },
        }
    }

    /// The index a release must target: the front of the queue. Nothing is
    /// popped yet; the native blit and the inner runtime's own release run
    /// first, and only their success commits the pop.
    pub fn front_to_release(&self, h: u64) -> (r: Result<u32, LayerError>)
        ensures
            r == spec_front_to_release(self.swaps(), h),
    {
        match self.get_swapchain(h) {
            None => Err(LayerError::HandleInvalid),
            Some(rec) => {
                if rec.acquired.len() == 0 {
                    Err(LayerError::CallOrderInvalid)
                } else {
                    Ok(rec.acquired[0])
                }
            },
        }
    }

    /// Commits a release that the inner runtime accepted: exactly the front
    /// entry leaves the queue, and it is returned. A release with nothing
    /// outstanding is rejected and changes nothing.
    pub fn commit_release(&mut self, h: u64) -> (r: Result<u32, LayerError>)
        ensures
            final(self).insts() == old(self).insts(),
            final(self).sess() == old(self).sess(),
            r == spec_front_to_release(old(self).swaps(), h),
            r is Err ==> final(self).swaps() == old(self).swaps(),
            r is Ok ==> {
                &&& spec_release(old(self).swaps()[h].acquired@) matches Some((front, rest))
                    && r == Ok::<u32, LayerError>(front) && spec_with_queue(
                    old(self).swaps()[h],
                    final(self).swaps()[h],
                    rest,
                )
                &&& final(self).swaps() == old(self).swaps().insert(h, final(self).swaps()[h])
            },
    {
        match self.get_swapchain(h) {
            None => Err(LayerError::HandleInvalid),
            Some(rec) => {
                let mut rec = rec;
                match rec.acquired.pop_front() {
                    None => Err(LayerError::CallOrderInvalid),
                    Some(front) => {
                        self.put_swapchain(h, rec);
                        Ok(front)
                    },
                }
            },
        }
    }
}

/// FIFO law, first half: any sequence of acquires applied to a queue lands
/// behind what was already outstanding, in call order.
pub proof fn lemma_acquires_keep_order(q: Seq<u32>, xs: Seq<u32>)
    ensures
        spec_enqueue_all(q, xs) == q + xs,
    decreases xs.len(),
{
    if xs.len() == 0 {
        assert(spec_enqueue_all(q, xs) =~= q + xs);
    } else {
        lemma_acquires_keep_order(q.push(xs[0]), xs.subrange(1, xs.len() as int));
        assert(q.push(xs[0]) + xs.subrange(1, xs.len() as int) =~= q + xs);
    }
}

/// FIFO law, second half: after the indices `xs` were acquired into an
/// empty queue and `k` of them released, the next release yields `xs[k]`
/// and nothing else; with every acquire released, a further release is
/// rejected.
pub proof fn lemma_fifo_release_order(xs: Seq<u32>, k: int)
    requires
        0 <= k <= xs.len(),
    ensures
        k < xs.len() ==> spec_release(xs.subrange(k, xs.len() as int)) == Some(
            (xs[k], xs.subrange(k + 1, xs.len() as int)),
        ),
        k == xs.len() ==> spec_release(xs.subrange(k, xs.len() as int)) is None,
{
    lemma_acquires_keep_order(Seq::empty(), xs);
    if k < xs.len() {
        let tail = xs.subrange(k, xs.len() as int);
        assert(tail.subrange(1, tail.len() as int) =~= xs.subrange(k + 1, xs.len() as int));
    }
}

} // verus!
