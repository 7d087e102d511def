//! Reusable byte storage that moves into a transfer at submission and comes
//! back in its completion.

use vstd::prelude::*;

verus! {

/// Outbound bytes for a transfer, with a logical capacity of its own that
/// the bytes never exceed.
#[derive(Debug)]
pub struct RequestBuffer {
    bytes: Vec<u8>,
    capacity: usize,
}

impl RequestBuffer {
    /// The bytes held.
    pub closed spec fn contents(&self) -> Seq<u8> {
        self.bytes@
    }

    /// The logical capacity.
    pub closed spec fn cap(&self) -> nat {
        self.capacity as nat
    }

    pub closed spec fn wf(&self) -> bool {
        self.bytes@.len() <= self.capacity
    }

    /// An empty buffer that can hold `capacity` bytes.
    pub fn allocate(capacity: usize) -> (r: RequestBuffer)
        ensures
            r.wf(),
            r.contents() == Seq::<u8>::empty(),
            r.cap() == capacity,
    {
        RequestBuffer { bytes: Vec::new(), capacity }
    }

    /// A full buffer holding the bytes of `data`.
    pub fn from_vec(data: Vec<u8>) -> (r: RequestBuffer)
        ensures
            r.wf(),
            r.contents() == data@,
            r.cap() == data@.len(),
    {
        let capacity = data.len();
        RequestBuffer { bytes: data, capacity }
    }

    /// The number of bytes held.
    pub fn len(&self) -> (r: usize)
        ensures
            r == self.contents().len(),
    {
        self.bytes.len()
    }

    /// The logical capacity.
    pub fn capacity(&self) -> (r: usize)
        ensures
            r == self.cap(),
    {
        self.capacity
    }

    /// Append as much of `src` as there is room for; returns how many bytes
    /// were taken.
    pub fn fill(&mut self, src: &[u8]) -> (n: usize)
        requires
            old(self).wf(),
        ensures
            final(self).wf(),
            final(self).cap() == old(self).cap(),
            n == if src@.len() <= old(self).cap() - old(self).contents().len() {
                src@.len() as int
            } else {
                old(self).cap() - old(self).contents().len()
            },
            final(self).contents() == old(self).contents() + src@.subrange(0, n as int),
    {
        let room = self.capacity - self.bytes.len();
        let n = if src.len() <= room {
            src.len()
        } else {
            room
        };
        let ghost start = self.bytes@;
        let mut i: usize = 0;
        while i < n
            invariant
                0 <= i <= n,
                n <= src@.len(),
                start.len() + n <= self.capacity,
                self.capacity == old(self).capacity,
                self.bytes@ == start + src@.subrange(0, i as int),
            decreases n - i,
        {
            self.bytes.push(src[i]);
            assert(src@.subrange(0, i + 1) =~= src@.subrange(0, i as int).push(src@[i as int]));
            i = i + 1;
        }
        n
    }

    /// Remove and return the first `n` bytes, or all of them when fewer are
    /// held; the rest move to the front.
    pub fn consume(&mut self, n: usize) -> (taken: Vec<u8>)
        requires
            old(self).wf(),
        ensures
            final(self).wf(),
            final(self).cap() == old(self).cap(),
            n <= old(self).contents().len() ==> taken@ == old(self).contents().subrange(0, n as int)
                && final(self).contents() == old(self).contents().subrange(
                n as int,
                old(self).contents().len() as int,
            ),
            n > old(self).contents().len() ==> taken@ == old(self).contents()
                && final(self).contents() == Seq::<u8>::empty(),
    {
        let len = self.bytes.len();
        let k = if n <= len {
            n
        } else {
            len
        };
        let mut taken: Vec<u8> = Vec::new();
        let mut rest: Vec<u8> = Vec::new();
        let mut i: usize = 0;
        while i < len
            invariant
                0 <= k <= len,
                len == self.bytes@.len(),
                0 <= i <= len,
                i <= k ==> taken@ == self.bytes@.subrange(0, i as int) && rest@.len() == 0,
                i > k ==> taken@ == self.bytes@.subrange(0, k as int) && rest@
                    == self.bytes@.subrange(k as int, i as int),
            decreases len - i,
        {
            let b = self.bytes[i];
            if i < k {
                taken.push(b);
                assert(self.bytes@.subrange(0, i + 1) =~= self.bytes@.subrange(0, i as int).push(b));
            } else {
                rest.push(b);
                assert(self.bytes@.subrange(k as int, i + 1) =~= self.bytes@.subrange(
                    k as int,
                    i as int,
                ).push(b));
            }
            i = i + 1;
        }
        assert(self.bytes@.subrange(0, len as int) =~= self.bytes@);
        assert(self.bytes@.subrange(k as int, k as int) =~= Seq::<u8>::empty());
        self.bytes = rest;
        taken
    }

    /// Drop the bytes, keeping the capacity for reuse.
    pub fn clear(&mut self)
        requires
            old(self).wf(),
        ensures
            final(self).wf(),
            final(self).cap() == old(self).cap(),
            final(self).contents() == Seq::<u8>::empty(),
    {
        self.bytes.clear();
    }

    /// The bytes held.
    pub fn into_vec(self) -> (r: Vec<u8>)
        ensures
            r@ == self.contents(),
    {
        self.bytes
    }
}

/// Storage the device writes into, with the number of bytes the transfer
/// actually moved, which never exceeds the storage.
#[derive(Debug)]
pub struct ResponseBuffer {
    storage: Vec<u8>,
    transferred: usize,
}

impl ResponseBuffer {
    /// The whole storage.
    pub closed spec fn storage(&self) -> Seq<u8> {
        self.storage@
    }

    /// The number of bytes the transfer moved.
    pub closed spec fn actual(&self) -> nat {
        self.transferred as nat
    }

    pub closed spec fn wf(&self) -> bool {
        self.transferred <= self.storage@.len()
    }

    /// The bytes the transfer moved.
    pub open spec fn data(&self) -> Seq<u8> {
        self.storage().subrange(0, self.actual() as int)
    }

    /// Zeroed storage of `capacity` bytes, nothing transferred yet.
    pub fn allocate(capacity: usize) -> (r: ResponseBuffer)
        ensures
            r.wf(),
            r.storage() == Seq::new(capacity as nat, |i: int| 0u8),
            r.actual() == 0,
    {
        let mut storage: Vec<u8> = Vec::new();
        let mut i: usize = 0;
        while i < capacity
            invariant
                0 <= i <= capacity,
                storage@ == Seq::new(i as nat, |j: int| 0u8),
            decreases capacity - i,
        {
            storage.push(0);
            assert(storage@ =~= Seq::new((i + 1) as nat, |j: int| 0u8));
            i = i + 1;
        }
        ResponseBuffer { storage, transferred: 0 }
    }

    /// The storage `storage` after a transfer that moved `transferred` bytes
    /// of it; a count beyond the storage is cut to its length.
    pub fn from_vec(storage: Vec<u8>, transferred: usize) -> (r: ResponseBuffer)
        ensures
            r.wf(),
            r.storage() == storage@,
            r.actual() == if transferred <= storage@.len() {
                transferred as nat
            } else {
                storage@.len()
            },
    {
        let n = if transferred <= storage.len() {
            transferred
        } else {
            storage.len()
        };
        ResponseBuffer { storage, transferred: n }
    }

    /// The number of bytes the transfer moved.
    pub fn actual_length(&self) -> (r: usize)
        ensures
            r == self.actual(),
    {
        self.transferred
    }

    /// The size of the storage.
    pub fn capacity(&self) -> (r: usize)
        ensures
            r == self.storage().len(),
    {
        self.storage.len()
    }

    /// Record what the device wrote: as much of `src` as the storage holds is
    /// copied to its front and becomes the transferred data.
    pub fn fill(&mut self, src: &[u8])
        requires
            old(self).wf(),
        ensures
            final(self).wf(),
            final(self).storage().len() == old(self).storage().len(),
            final(self).actual() == if src@.len() <= old(self).storage().len() {
                src@.len()
            } else {
                old(self).storage().len()
            },
            final(self).data() == src@.subrange(0, final(self).actual() as int),
            forall|i: int|
                final(self).actual() <= i < old(self).storage().len()
                    ==> #[trigger] final(self).storage()[i] == old(self).storage()[i],
    {
        let cap = self.storage.len();
        let n = if src.len() <= cap {
            src.len()
        } else {
            cap
        };
        let ghost start = self.storage@;
        let mut i: usize = 0;
        while i < n
            invariant
                0 <= i <= n,
                n <= src@.len(),
                n <= cap,
                self.storage@.len() == cap,
                start.len() == cap,
                forall|j: int| 0 <= j < i ==> #[trigger] self.storage@[j] == src@[j],
                forall|j: int| i <= j < cap ==> #[trigger] self.storage@[j] == start[j],
            decreases n - i,
        {
            self.storage.set(i, src[i]);
            i = i + 1;
        }
        self.transferred = n;
        assert(self.storage@.subrange(0, n as int) =~= src@.subrange(0, n as int));
    }

    /// The bytes the transfer moved, giving up the rest of the storage.
    pub fn into_vec(self) -> (r: Vec<u8>)
        requires
            self.wf(),
        ensures
            r@ == self.data(),
    {
        let mut v = self.storage;
        v.truncate(self.transferred);
        assert(v@ =~= self.data());
        v
    }

    /// The same storage, ready for another transfer.
    pub fn reuse(self) -> (r: ResponseBuffer)
        ensures
            r.wf(),
            r.storage() == self.storage(),
            r.actual() == 0,
    {
        ResponseBuffer { storage: self.storage, transferred: 0 }
    }
}

} // verus!
