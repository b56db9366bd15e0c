use vstd::prelude::*;
use vstd::arithmetic::div_mod::lemma_mod_self_0;
use vstd::arithmetic::div_mod::lemma_small_mod;
use vstd::std_specs::vec::vec_index_mut;
use crate::coords::Coords;
use crate::indexing::Sized3D;

verus! {

/// A container that can commit its write buffer and rotate its cursors.
pub trait Swapable {
    /// The structural invariant that swapping needs and keeps.
    spec fn sw_wf(&self) -> bool;

    /// The full relation between the value after a swap and the value
    /// before it.
    spec fn swapped_from(&self, pre: &Self) -> bool;

    /// Commits each write buffer as the new snapshot by advancing the
    /// cursors, and pre-seeds each new write buffer from the state just
    /// committed.
    fn swap_buffers(&mut self)
        requires
            old(self).sw_wf(),
        ensures
            final(self).sw_wf(),
            final(self).swapped_from(old(self)),
    ;
}

/// A ring of `N >= 2` buffers with a consumer (read) cursor and a producer
/// (write) cursor that sit one apart and advance together modulo `N`.
///
/// Kernels read the stable snapshot behind the consumer cursor and write the
/// buffer behind the producer cursor; `swap_buffers` commits the write side.
#[derive(Clone, Debug)]
pub struct Swapchain<T> {
    pub data: Vec<T>,
    pub current_producer: usize,
    pub current_consumer: usize,
}

impl<T> Swapchain<T> {
    /// The ring invariant: at least two buffers, both cursors in range, and
    /// the producer exactly one step ahead of the consumer.
    pub open spec fn wf(&self) -> bool {
        &&& 2 <= self.data@.len()
        &&& self.current_consumer < self.data@.len()
        &&& self.current_producer < self.data@.len()
        &&& self.current_producer != self.current_consumer
        &&& self.current_producer == (self.current_consumer + 1) % (self.data@.len() as int)
    }

    /// A new swap-chain over the given ring of buffers, reading buffer 0 and
    /// writing buffer 1.
    pub fn new(buffers: Vec<T>) -> (r: Swapchain<T>)
        requires
            2 <= buffers@.len(),
        ensures
            r.wf(),
            r.data@ == buffers@,
            r.current_consumer == 0,
            r.current_producer == 1,
    {
        proof {
            lemma_small_mod(1nat, buffers@.len() as nat);
        }
        Swapchain { data: buffers, current_producer: 1, current_consumer: 0 }
    }

    /// Read the committed snapshot.
    pub fn consumer(&self) -> (r: &T)
        requires
            self.wf(),
        ensures
            *r == self.data@[self.current_consumer as int],
    {
        &self.data[self.current_consumer]
    }

    /// Read the write buffer without committing it.
    pub fn producer_ref(&self) -> (r: &T)
        requires
            self.wf(),
        ensures
            *r == self.data@[self.current_producer as int],
    {
        &self.data[self.current_producer]
    }

    /// Borrow the write buffer; the snapshot and the cursors are untouched.
    pub fn producer(&mut self) -> (r: &mut T)
        requires
            old(self).wf(),
        ensures
            *r == old(self).data@[old(self).current_producer as int],
            final(self).data@ == old(self).data@.update(
                old(self).current_producer as int,
                *final(r),
            ),
            final(self).current_consumer == old(self).current_consumer,
            final(self).current_producer == old(self).current_producer,
            final(self).wf(),
    {
        let i = self.current_producer;
        vec_index_mut(&mut self.data, i)
    }

    /// Borrow the snapshot and the write buffer at once; the two are always
    /// distinct buffers of the ring, so a kernel can read one while it
    /// writes the other.
    pub fn rw_pair(&mut self) -> (pair: (&T, &mut T))
        requires
            old(self).wf(),
        ensures
            *pair.0 == old(self).data@[old(self).current_consumer as int],
            *pair.1 == old(self).data@[old(self).current_producer as int],
            final(self).data@.len() == old(self).data@.len(),
            final(self).data@[old(self).current_producer as int] == *final(pair.1),
            forall|i: int|
                0 <= i < old(self).data@.len() && i != old(self).current_producer
                    ==> final(self).data@[i] == old(self).data@[i],
            final(self).current_consumer == old(self).current_consumer,
            final(self).current_producer == old(self).current_producer,
            final(self).wf(),
    {
        let w_idx = self.current_producer;
        let r_idx = self.current_consumer;
        let ghost n = self.data@.len() as int;
        proof {
            if r_idx + 1 < n {
                lemma_small_mod((r_idx + 1) as nat, n as nat);
            } else {
                lemma_mod_self_0(n);
            }
        }
        let slice = self.data.as_mut_slice();
        if w_idx > r_idx {
            let (rs, ws) = slice.split_at_mut(w_idx);
            let r = rs.last().unwrap();
            let w = ws.first_mut().unwrap();
            (r, w)
        } else {
            let (ws, rs) = slice.split_at_mut(r_idx);
            let r = rs.first().unwrap();
            let w = ws.first_mut().unwrap();
            (r, w)
        }
    }
}

impl<T: Clone> Swapchain<T> {
    /// The relation established by one `swap_buffers` call: both cursors
    /// advance by one buffer modulo the ring length, so the new consumer is
    /// exactly the old producer with its content untouched, and the buffer
    /// behind the new producer cursor receives a clone of that committed
    /// state; every other buffer is untouched.
    pub open spec fn spec_swapped(&self, pre: &Self) -> bool {
        let n = pre.data@.len() as int;
        let next = (pre.current_producer + 1) % n;
        &&& self.data@.len() == pre.data@.len()
        &&& self.current_consumer == pre.current_producer
        &&& self.current_producer == next
        &&& forall|i: int| 0 <= i < n && i != next ==> self.data@[i] == pre.data@[i]
        &&& cloned::<T>(pre.data@[pre.current_producer as int], self.data@[next])
    }
}

impl<T: Clone> Swapable for Swapchain<T> {
    open spec fn sw_wf(&self) -> bool {
        self.wf()
    }

    open spec fn swapped_from(&self, pre: &Self) -> bool {
        self.spec_swapped(pre)
    }

    /// Advances both cursors by one buffer: the write buffer, with its
    /// content untouched, becomes the new committed snapshot, and the new
    /// write buffer is pre-seeded with a clone of that snapshot, so the next
    /// write phase starts from the state just committed.
    fn swap_buffers(&mut self) {
        let p_idx = self.current_producer;
        let n = self.data.len();
        let next = if p_idx + 1 < n {
            p_idx + 1
        } else {
            0
        };
        proof {
            if p_idx + 1 < n {
                lemma_small_mod((p_idx + 1) as nat, n as nat);
            } else {
                lemma_mod_self_0(n as int);
            }
        }
        let snapshot = self.data[p_idx].clone();
        self.data.set(next, snapshot);
        self.current_consumer = p_idx;
        self.current_producer = next;
    }
}

/// A read/write pair never aliases: in a well-formed swap-chain the consumer
/// cursor and the producer cursor always name two distinct buffers, and after
/// a swap the new consumer cursor is exactly the old producer cursor.
pub proof fn lemma_swap_chain_aliasing<T: Clone>(pre: Swapchain<T>, post: Swapchain<T>)
    requires
        pre.wf(),
        post.spec_swapped(&pre),
    ensures
        pre.current_consumer != pre.current_producer,
        post.current_consumer == pre.current_producer,
{
}

/// A pack of independent swap-chains, one per channel of a multi-channel
/// field, that swap in lock-step.
#[derive(Clone, Debug)]
pub struct SwapchainPack<T> {
    pub data: Vec<Swapchain<T>>,
}

impl<T> SwapchainPack<T> {
    /// Every chain of the pack satisfies the ring invariant.
    pub open spec fn wf(&self) -> bool {
        forall|k: int| 0 <= k < self.data@.len() ==> (#[trigger] self.data@[k]).wf()
    }

    /// A new pack over the given chains.
    pub fn new(chains: Vec<Swapchain<T>>) -> (r: SwapchainPack<T>)
        requires
            forall|k: int| 0 <= k < chains@.len() ==> (#[trigger] chains@[k]).wf(),
        ensures
            r.wf(),
            r.data@ == chains@,
    {
        SwapchainPack { data: chains }
    }

    /// The number of channels.
    pub fn len(&self) -> (r: usize)
        ensures
            r == self.data@.len(),
    {
        self.data.len()
    }

    /// Borrow the chain of channel `k`.
    pub fn chain(&self, k: usize) -> (r: &Swapchain<T>)
        requires
            k < self.data@.len(),
        ensures
            *r == self.data@[k as int],
    {
        &self.data[k]
    }

    /// Borrow the chain of channel `k` for reading and writing.
    pub fn chain_mut(&mut self, k: usize) -> (r: &mut Swapchain<T>)
        requires
            k < old(self).data@.len(),
        ensures
            *r == old(self).data@[k as int],
            final(self).data@ == old(self).data@.update(k as int, *final(r)),
    {
        vec_index_mut(&mut self.data, k)
    }
}

impl<T: Clone> Swapable for SwapchainPack<T> {
    open spec fn sw_wf(&self) -> bool {
        self.wf()
    }

    open spec fn swapped_from(&self, pre: &Self) -> bool {
        &&& self.data@.len() == pre.data@.len()
        &&& forall|k: int|
            0 <= k < pre.data@.len() ==> (#[trigger] self.data@[k]).spec_swapped(&pre.data@[k])
    }

    /// Swaps every channel's chain, in lock-step.
    fn swap_buffers(&mut self) {
        let ghost pre = *self;
        let n = self.data.len();
        let mut k: usize = 0;
        while k < n
            invariant
                pre.wf(),
                n == self.data@.len(),
                n == pre.data@.len(),
                k <= n,
                forall|j: int|
                    0 <= j < k ==> (#[trigger] self.data@[j]).wf() && self.data@[j].spec_swapped(
                        &pre.data@[j],
                    ),
                forall|j: int| k <= j < n ==> self.data@[j] == pre.data@[j],
            decreases n - k,
        {
            proof {
                assert(pre.data@[k as int].wf());
                assert(self.data@[k as int] == pre.data@[k as int]);
            }
            let ch = vec_index_mut(&mut self.data, k);
            ch.swap_buffers();
            k = k + 1;
        }
    }
}

impl<T: Sized3D> Sized3D for SwapchainPack<T> {
    open spec fn well_sized(&self) -> bool {
        &&& self.wf()
        &&& 1 <= self.data@.len()
        &&& forall|k: int| 0 <= k < self.data@.len() ==> (#[trigger] self.data@[k]).well_sized()
        &&& forall|k: int|
            0 <= k < self.data@.len() ==> (#[trigger] self.data@[k]).spec_size()
                == self.data@[0].spec_size()
    }

    open spec fn spec_size(&self) -> Coords {
        self.data@[0].spec_size()
    }

    fn size(&self) -> (r: Coords) {
        self.data[0].size()
    }
}

impl<T: Sized3D> Sized3D for Swapchain<T> {
    open spec fn well_sized(&self) -> bool {
        &&& self.wf()
        &&& forall|i: int| 0 <= i < self.data@.len() ==> (#[trigger] self.data@[i]).well_sized()
        &&& forall|i: int|
            0 <= i < self.data@.len() ==> (#[trigger] self.data@[i]).spec_size()
                == self.data@[0].spec_size()
    }

    open spec fn spec_size(&self) -> Coords {
        self.data@[0].spec_size()
    }

    fn size(&self) -> (r: Coords) {
        self.data[self.current_consumer].size()
    }
}

} // verus!
