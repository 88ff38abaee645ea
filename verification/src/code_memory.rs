//! Executable code memory.
//!
//! Code memory is a bump allocator over a contiguous span of the address
//! space.  Function bodies and trampolines are copied into fresh ranges while
//! the pages are writable; [`CodeMemory::publish`] then flips every range to
//! executable.  An address handed out before `publish` is not callable, and
//! after `publish` the ranges are immutable for the lifetime of the code
//! memory.

use vstd::prelude::*;

verus! {

/// The alignment of every allocated range.
pub const CODE_ALIGN: u64 = 16;

/// One allocated range of code memory.
#[derive(Debug, Clone, Copy)]
pub struct CodeRange {
    /// The first address of the range.
    pub start: u64,
    /// The length of the range in bytes.
    pub len: u64,
    /// Whether the range has been flipped from read-write to read-execute.
    pub published: bool,
}

impl CodeRange {
    /// Whether `pc` lies within this range.
    pub open spec fn spec_contains(&self, pc: u64) -> bool {
        self.start <= pc < self.start + self.len
    }
}

/// A span of the address space in which code ranges are allocated bump-wise
/// and later published.
#[derive(Debug)]
pub struct CodeMemory {
    /// The first address of the span the allocator works in.
    pub base: u64,
    /// The number of bytes handed out so far, from `base` upward.
    pub used: u64,
    /// The allocated ranges, in allocation order.
    pub ranges: Vec<CodeRange>,
}

/// The bump offset rounded up to the allocation alignment.
pub open spec fn spec_align_up(u: int) -> int {
    if u % (CODE_ALIGN as int) == 0 {
        u
    } else {
        u + ((CODE_ALIGN as int) - u % (CODE_ALIGN as int))
    }
}

/// All ranges flipped to executable.
pub open spec fn spec_publish(ranges: Seq<CodeRange>) -> Seq<CodeRange> {
    ranges.map(|i: int, r: CodeRange| CodeRange { start: r.start, len: r.len, published: true })
}

impl CodeMemory {
    /// Well-formedness: ranges lie in `[base, base + used)` in allocation
    /// order without overlap, and the span does not wrap the address space.
    pub open spec fn wf(&self) -> bool {
        &&& self.base + self.used <= u64::MAX
        &&& forall|i: int|
            0 <= i < self.ranges@.len() ==> self.base <= (#[trigger] self.ranges@[i]).start
                && self.ranges@[i].start + self.ranges@[i].len <= self.base + self.used
        &&& forall|i: int, j: int|
            0 <= i < j < self.ranges@.len() ==> (#[trigger] self.ranges@[i]).start
                + self.ranges@[i].len <= (#[trigger] self.ranges@[j]).start
    }

    /// Creates an empty code memory working upward from `base`.
    ///
    /// The base models where the host placed the backing pages.
    pub fn new(base: u64) -> (r: CodeMemory)
        ensures
            r.wf(),
            r.base == base,
            r.used == 0,
            r.ranges@.len() == 0,
    {
        CodeMemory { base, used: 0, ranges: Vec::new() }
    }

    /// Whether `pc` lies in a published range: only then is it callable.
    pub open spec fn spec_contains_published(&self, pc: u64) -> bool {
        exists|i: int|
            0 <= i < self.ranges@.len() && (#[trigger] self.ranges@[i]).published
                && self.ranges@[i].spec_contains(pc)
    }

    /// Whether every range has been published.
    pub open spec fn spec_all_published(&self) -> bool {
        forall|i: int| 0 <= i < self.ranges@.len() ==> (#[trigger] self.ranges@[i]).published
    }

    /// Reserves an aligned range of `len` bytes and returns its first
    /// address.  Fails with the host's resource error when the span cannot
    /// back the requested bytes.
    pub fn allocate(&mut self, len: u64) -> (r: Result<u64, String>)
        requires
            old(self).wf(),
        ensures
            final(self).wf(),
            final(self).base == old(self).base,
            match r {
                Ok(start) => {
                    &&& final(self).ranges@ == old(self).ranges@.push(
                        CodeRange { start, len, published: false },
                    )
                    &&& start == old(self).base + spec_align_up(old(self).used as int)
                    &&& start + len == final(self).base + final(self).used
                },
                Err(_) => *final(self) == *old(self),
            },
            r is Err <==> old(self).base + spec_align_up(old(self).used as int) + len > u64::MAX,
    {
        proof {
            reveal_strlit("cannot allocate executable memory");
        }
        // Round the bump pointer up to the next aligned offset.
        let rem = self.used % CODE_ALIGN;
        let pad = if rem == 0 { 0u64 } else { CODE_ALIGN - rem };
        if self.used > u64::MAX - pad {
            return Err(String::from_str("cannot allocate executable memory"));
        }
        let aligned = self.used + pad;
        if aligned > u64::MAX - len || self.base > u64::MAX - (aligned + len) {
            return Err(String::from_str("cannot allocate executable memory"));
        }
        let start = self.base + aligned;
        self.used = aligned + len;
        self.ranges.push(CodeRange { start, len, published: false });
        Ok(start)
    }

    /// Copies a function body into a fresh range and returns its address.
    /// The returned address is not callable until [`CodeMemory::publish`].
    pub fn allocate_for_function(&mut self, body: &Vec<u8>) -> (r: Result<u64, String>)
        requires
            old(self).wf(),
        ensures
            final(self).wf(),
            final(self).base == old(self).base,
            match r {
                Ok(start) => final(self).ranges@ == old(self).ranges@.push(
                    CodeRange { start, len: body@.len() as u64, published: false },
                ),
                Err(_) => *final(self) == *old(self),
            },
            r is Err <==> old(self).base + spec_align_up(old(self).used as int) + body@.len()
                > u64::MAX,
    {
        self.allocate(body.len() as u64)
    }

    /// Copies a whole object image into a fresh range and returns its
    /// first address; function and trampoline slices are located inside it
    /// by their image offsets.
    pub fn allocate_for_object(&mut self, obj: &Vec<u8>) -> (r: Result<u64, String>)
        requires
            old(self).wf(),
        ensures
            final(self).wf(),
            final(self).base == old(self).base,
            match r {
                Ok(start) => {
                    &&& final(self).ranges@ == old(self).ranges@.push(
                        CodeRange { start, len: obj@.len() as u64, published: false },
                    )
                    &&& start == old(self).base + spec_align_up(old(self).used as int)
                },
                Err(_) => *final(self) == *old(self),
            },
            r is Err <==> old(self).base + spec_align_up(old(self).used as int) + obj@.len()
                > u64::MAX,
    {
        self.allocate(obj.len() as u64)
    }

    /// Flips every allocated range to executable.  Idempotent; must be
    /// called before any contained address is invoked.
    pub fn publish(&mut self)
        requires
            old(self).wf(),
        ensures
            final(self).wf(),
            final(self).base == old(self).base,
            final(self).used == old(self).used,
            final(self).ranges@ == spec_publish(old(self).ranges@),
    {
        let n = self.ranges.len();
        let mut published: Vec<CodeRange> = Vec::new();
        let mut i: usize = 0;
        while i < n
            invariant
                n == self.ranges@.len(),
                i <= n,
                published@ == spec_publish(self.ranges@.subrange(0, i as int)),
            decreases n - i,
        {
            let r = self.ranges[i];
            published.push(CodeRange { start: r.start, len: r.len, published: true });
            proof {
                assert(spec_publish(self.ranges@.subrange(0, i + 1 as int)) =~= spec_publish(
                    self.ranges@.subrange(0, i as int),
                ).push(CodeRange { start: r.start, len: r.len, published: true }));
            }
            i += 1;
        }
        proof {
            assert(self.ranges@.subrange(0, n as int) =~= self.ranges@);
        }
        self.ranges = published;
    }

    /// Returns the published ranges as `(start, length)` pairs; the store's
    /// frame-info classifier is built from them.
    pub fn published_ranges(&self) -> (r: Vec<(u64, u64)>)
        ensures
            r@ == self.ranges@.filter(|c: CodeRange| c.published).map(
                |i: int, c: CodeRange| (c.start, c.len),
            ),
    {
        let n = self.ranges.len();
        let mut out: Vec<(u64, u64)> = Vec::new();
        let mut i: usize = 0;
        while i < n
            invariant
                n == self.ranges@.len(),
                i <= n,
                out@ == self.ranges@.subrange(0, i as int).filter(|c: CodeRange| c.published).map(
                    |k: int, c: CodeRange| (c.start, c.len),
                ),
            decreases n - i,
        {
            let r = self.ranges[i];
            proof {
                reveal(Seq::filter);
                assert(self.ranges@.subrange(0, i + 1 as int).drop_last() =~= self.ranges@.subrange(
                    0,
                    i as int,
                ));
                assert(self.ranges@.subrange(0, i + 1 as int).last() == self.ranges@[i as int]);
            }
            if r.published {
                out.push((r.start, r.len));
                proof {
                    let pre = self.ranges@.subrange(0, i as int).filter(|c: CodeRange| c.published);
                    assert(self.ranges@.subrange(0, i + 1 as int).filter(
                        |c: CodeRange| c.published,
                    ) =~= pre.push(self.ranges@[i as int]));
                    assert(pre.push(self.ranges@[i as int]).map(
                        |k: int, c: CodeRange| (c.start, c.len),
                    ) =~= pre.map(|k: int, c: CodeRange| (c.start, c.len)).push(
                        (r.start, r.len),
                    ));
                }
            }
            i += 1;
        }
        proof {
            assert(self.ranges@.subrange(0, n as int) =~= self.ranges@);
        }
        out
    }

    /// Whether `pc` lies in a published range.
    pub fn contains(&self, pc: u64) -> (r: bool)
        ensures
            r == self.spec_contains_published(pc),
    {
        let n = self.ranges.len();
        let mut i: usize = 0;
        while i < n
            invariant
                n == self.ranges@.len(),
                i <= n,
                forall|j: int|
                    0 <= j < i ==> !((#[trigger] self.ranges@[j]).published
                        && self.ranges@[j].spec_contains(pc)),
            decreases n - i,
        {
            let r = self.ranges[i];
            if r.published && r.start <= pc && pc - r.start < r.len {
                proof {
                    assert(self.ranges@[i as int].published
                        && self.ranges@[i as int].spec_contains(pc));
                }
                return true;
            }
            i += 1;
        }
        false
    }

    /// The byte span of the whole image: `(base, used)`.
    pub fn code_range(&self) -> (r: (u64, u64))
        ensures
            r.0 == self.base,
            r.1 == self.used,
    {
        (self.base, self.used)
    }
}

/// Publication is idempotent: publishing published ranges changes nothing.
pub proof fn lemma_publish_idempotent(ranges: Seq<CodeRange>)
    ensures
        spec_publish(spec_publish(ranges)) == spec_publish(ranges),
{
    assert(spec_publish(spec_publish(ranges)) =~= spec_publish(ranges));
}

/// Publication keeps every range's span: only the protection flag changes.
pub proof fn lemma_publish_keeps_spans(ranges: Seq<CodeRange>, i: int)
    requires
        0 <= i < ranges.len(),
    ensures
        spec_publish(ranges)[i].start == ranges[i].start,
        spec_publish(ranges)[i].len == ranges[i].len,
        spec_publish(ranges)[i].published,
{
}

} // verus!
