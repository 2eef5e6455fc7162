//! A device buffer of equally sized elements that only ever grows.
use vstd::prelude::*;

verus! {

/// What a device buffer holds. Every buffer is also a destination of copies,
/// since its contents are uploaded anew each frame.
#[derive(Clone, Copy, Debug, PartialEq, Eq, Structural)]
pub enum BufferUsage {
    Vertex,
    Index,
    Uniform,
}

/// The bookkeeping of one device buffer: how many elements it can hold, how
/// many bytes an element takes, and what it is used for.
///
/// The device handle itself lives with the backend. Whenever `expand` answers
/// `true`, the backend allocates a fresh buffer of `byte_size()` bytes and
/// drops the old one; the old contents are not carried over.
#[derive(Clone, Copy, Debug)]
pub struct Buffer {
    size: usize,
    stride: usize,
    usage: BufferUsage,
}

/// The capacity of a buffer of capacity `capacity` once it has been asked to
/// hold `requested` elements: the larger of the two.
pub open spec fn grown(capacity: nat, requested: nat) -> nat {
    if capacity < requested {
        requested
    } else {
        capacity
    }
}

impl Buffer {
    pub closed spec fn spec_size(&self) -> usize {
        self.size
    }

    pub closed spec fn spec_stride(&self) -> usize {
        self.stride
    }

    pub closed spec fn spec_usage(&self) -> BufferUsage {
        self.usage
    }

    /// The bytes that the device buffer occupies.
    pub open spec fn byte_len(&self) -> nat {
        (self.stride() * self.size()) as nat
    }

    /// The byte length is addressable on the device.
    pub open spec fn wf(&self) -> bool {
        self.byte_len() <= u64::MAX
    }

    /// A buffer of `size` elements of `stride` bytes each.
    pub fn new(stride: usize, size: usize, usage: BufferUsage) -> (buffer: Buffer)
        requires
            stride * size <= u64::MAX,
        ensures
            buffer.size() == size,
            buffer.stride() == stride,
            buffer.usage() == usage,
            buffer.wf(),
    {
        Buffer { size, stride, usage }
    }

    /// Makes room for `size` elements. Grows to exactly `size` when the
    /// buffer holds fewer, and then answers `true`: the device buffer has to
    /// be replaced and whatever refers to it bound again. Otherwise nothing
    /// changes.
    pub fn expand(&mut self, size: usize) -> (changed: bool)
        requires
            old(self).wf(),
            old(self).size() < size ==> old(self).stride() * size <= u64::MAX,
        ensures
            changed == (old(self).size() < size),
            final(self).size() == grown(old(self).size() as nat, size as nat),
            final(self).stride() == old(self).stride(),
            final(self).usage() == old(self).usage(),
            final(self).wf(),
            !changed ==> *final(self) == *old(self),
    {
        let needs_resize = self.size < size;
        if needs_resize {
            self.size = size;
        }
        needs_resize
    }

    /// The capacity, in elements.
    #[verifier::when_used_as_spec(spec_size)]
    pub fn size(&self) -> (size: usize)
        ensures
            size == self.size(),
    {
        self.size
    }

    /// The bytes that one element takes.
    #[verifier::when_used_as_spec(spec_stride)]
    pub fn stride(&self) -> (stride: usize)
        ensures
            stride == self.stride(),
    {
        self.stride
    }

    #[verifier::when_used_as_spec(spec_usage)]
    pub fn usage(&self) -> (usage: BufferUsage)
        ensures
            usage == self.usage(),
    {
        self.usage
    }

    /// The bytes to allocate on the device for this buffer.
    pub fn byte_size(&self) -> (bytes: u64)
        requires
            self.wf(),
        ensures
            bytes == self.byte_len(),
    {
        (self.stride as u64) * (self.size as u64)
    }
}

/// The capacity that a buffer of capacity `capacity` has after it was asked,
/// in turn, to make room for each of `requests`.
pub open spec fn capacity_after(capacity: nat, requests: Seq<nat>) -> nat
    decreases requests.len(),
{
    if requests.len() == 0 {
        capacity
    } else {
        grown(capacity_after(capacity, requests.drop_last()), requests.last())
    }
}

/// Capacity never shrinks: after any run of requests the capacity is at least
/// what it was at any earlier point of the run, at least every request made so
/// far, and it is either the first capacity or one of the requests. One more
/// request leaves the larger of the capacity before it and the request.
pub proof fn lemma_capacity_monotone(capacity: nat, requests: Seq<nat>, k: int)
    requires
        0 <= k <= requests.len(),
    ensures
        forall|request: nat| #[trigger]
            capacity_after(capacity, requests.push(request)) == grown(
                capacity_after(capacity, requests),
                request,
            ),
        capacity_after(capacity, requests.take(k)) <= capacity_after(capacity, requests),
        forall|i: int| 0 <= i < requests.len() ==> requests[i] <= capacity_after(capacity, requests),
        capacity_after(capacity, requests) == capacity || requests.contains(
            capacity_after(capacity, requests),
        ),
    decreases requests.len(),
{
    assert forall|request: nat| #[trigger]
        capacity_after(capacity, requests.push(request)) == grown(
            capacity_after(capacity, requests),
            request,
        ) by {
        assert(requests.push(request).drop_last() =~= requests);
    }
    if requests.len() == 0 {
        assert(requests.take(k) =~= requests);
    } else {
        let front = requests.drop_last();
        if k == requests.len() {
            assert(requests.take(k) =~= requests);
            lemma_capacity_monotone(capacity, front, 0);
        } else {
            assert(requests.take(k) =~= front.take(k));
            lemma_capacity_monotone(capacity, front, k);
        }
        assert forall|i: int| 0 <= i < requests.len() implies requests[i] <= capacity_after(
            capacity,
            requests,
        ) by {
            if i < front.len() {
                assert(front[i] == requests[i]);
            }
        }
        let before = capacity_after(capacity, front);
        if before < requests.last() {
            assert(requests[requests.len() - 1] == requests.last());
        } else if before != capacity {
            let j = choose|j: int| 0 <= j < front.len() && front[j] == before;
            assert(requests[j] == before);
        }
    }
}

} // verus!
