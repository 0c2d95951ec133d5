//! The caller's memory as the dispatcher sees it, and views into it.
//!
//! An address space lists the mapped regions with what each permits. A view is
//! made only by checking a raw address and length against that list, so holding
//! one means that every byte of it was accessible when the call came in.

use core::marker::PhantomData;
use vstd::prelude::*;
use crate::error::{Error, EFAULT};

verus! {

/// A run of mapped addresses, from `start` to `last` inclusive, with one
/// permission for all of them.
#[derive(Clone, Copy, Debug, PartialEq, Eq, Structural)]
pub struct Region {
    pub start: usize,
    pub last: usize,
    /// Whether unprivileged code may read the region.
    pub user: bool,
    /// Whether unprivileged code may also write it.
    pub writable: bool,
}

/// A run of `len` elements of `size` bytes each that begins at `address`.
#[derive(Clone, Copy, Debug, PartialEq, Eq, Structural)]
pub struct Span {
    pub address: usize,
    pub len: usize,
    pub size: usize,
}

/// The mapped regions of one address space, in ascending order and disjoint.
/// The null address is never mapped.
pub struct AddressSpace {
    regions: Vec<Region>,
}

/// A read-only view of caller memory. It lives no longer than the borrow of
/// the address space that it was checked against.
#[derive(Clone, Copy, Debug, PartialEq, Eq)]
pub struct Slice<'a> {
    span: Span,
    scope: PhantomData<&'a AddressSpace>,
}

/// A view of caller memory that may be written through. It lives no longer
/// than the borrow of the address space that it was checked against, and it
/// cannot be copied.
#[derive(Debug, PartialEq, Eq)]
pub struct SliceMut<'a> {
    span: Span,
    scope: PhantomData<&'a AddressSpace>,
}

impl Region {
    /// Whether `address` lies in the region.
    pub open spec fn contains(self, address: int) -> bool {
        self.start <= address <= self.last
    }

    /// Whether unprivileged code may read the region, or write it if `write`.
    pub open spec fn allows(self, write: bool) -> bool {
        self.user && (write ==> self.writable)
    }

    /// Whether the two regions share no address.
    pub open spec fn apart(self, other: Region) -> bool {
        self.last < other.start || other.last < self.start
    }
}

impl Span {
    /// The number of bytes in the span.
    pub open spec fn bytes(self) -> int {
        self.len * self.size
    }

    /// Whether `address` is the address of a byte of the span.
    pub open spec fn contains(self, address: int) -> bool {
        self.address <= address < self.address + self.bytes()
    }

    /// The addresses of the bytes of the span.
    pub open spec fn footprint(self) -> Set<int> {
        Set::new(|address: int| self.contains(address))
    }
}

impl<'a> Slice<'a> {
    /// The view of `span`.
    pub closed spec fn spec_over(span: Span) -> Slice<'a> {
        Slice { span, scope: PhantomData }
    }

    /// The span that the view covers.
    pub closed spec fn view(self) -> Span {
        self.span
    }

    /// The span that the view covers.
    pub fn span(&self) -> (span: Span)
        ensures
            span == self@,
            *self == Slice::spec_over(span),
    {
        self.span
    }

    /// A view is its span and nothing else.
    pub proof fn lemma_span(span: Span, slice: Slice<'a>)
        ensures
            Slice::spec_over(span)@ == span,
            Slice::spec_over(slice@) == slice,
    {
    }
}

impl<'a> SliceMut<'a> {
    /// The view of `span`.
    pub closed spec fn spec_over(span: Span) -> SliceMut<'a> {
        SliceMut { span, scope: PhantomData }
    }

    /// The span that the view covers.
    pub closed spec fn view(self) -> Span {
        self.span
    }

    /// The span that the view covers.
    pub fn span(&self) -> (span: Span)
        ensures
            span == self@,
            *self == SliceMut::spec_over(span),
    {
        self.span
    }

    /// A view is its span and nothing else.
    pub proof fn lemma_span(span: Span, slice: SliceMut<'a>)
        ensures
            SliceMut::spec_over(span)@ == span,
            SliceMut::spec_over(slice@) == slice,
    {
    }
}

/// Whether `regions` is a well-formed list: no region is empty or holds the
/// null address, and each ends before the next begins.
pub open spec fn ordered(regions: Seq<Region>) -> bool {
    &&& forall|i: int| 0 <= i < regions.len() ==> 0 < (#[trigger] regions[i]).start <= regions[i].last
    &&& forall|i: int, j: int|
        0 <= i < j < regions.len() ==> (#[trigger] regions[i]).last < (#[trigger] regions[j]).start
}

impl AddressSpace {
    /// The regions, in ascending order.
    pub closed spec fn view(&self) -> Seq<Region> {
        self.regions@
    }

    #[verifier::type_invariant]
    closed spec fn inv(&self) -> bool {
        ordered(self.regions@)
    }

    /// Whether the space is well formed. It always is for a value that this
    /// module made.
    pub open spec fn wf(&self) -> bool {
        ordered(self@)
    }

    /// Whether unprivileged code may read the byte at `address`, or write it if
    /// `write`.
    pub open spec fn permits(&self, address: int, write: bool) -> bool {
        exists|i: int|
            0 <= i < self@.len() && (#[trigger] self@[i]).contains(address) && self@[i].allows(write)
    }

    /// Whether unprivileged code may read every byte of `span`, or write every
    /// byte if `write`. An empty span is granted wherever it lies.
    pub open spec fn grants(&self, span: Span, write: bool) -> bool {
        forall|address: int| span.contains(address) ==> #[trigger] self.permits(address, write)
    }

    /// Whether `region` can be added: it is not empty, does not hold the null
    /// address and shares no address with a region already mapped.
    pub open spec fn admits(&self, region: Region) -> bool {
        &&& 0 < region.start <= region.last
        &&& forall|i: int| 0 <= i < self@.len() ==> (#[trigger] self@[i]).apart(region)
    }

    /// The space with nothing mapped.
    pub fn new() -> (space: AddressSpace)
        ensures
            space@ == Seq::<Region>::empty(),
            space.wf(),
    {
        AddressSpace { regions: Vec::new() }
    }

    /// The number of regions.
    pub fn len(&self) -> (len: usize)
        ensures
            len == self@.len(),
    {
        self.regions.len()
    }

    /// The region at `index` in ascending order, if there is one.
    pub fn region(&self, index: usize) -> (region: Option<Region>)
        ensures
            region == (if index < self@.len() {
                Some(self@[index as int])
            } else {
                None
            }),
    {
        if index < self.regions.len() {
            Some(self.regions[index])
        } else {
            None
        }
    }

    /// Whether every byte from `first` to `last` inclusive is permitted.
    fn covers(&self, first: usize, last: usize, write: bool) -> (covered: bool)
        requires
            first <= last,
        ensures
            self.wf(),
            covered == (forall|address: int|
                first <= address <= last ==> #[trigger] self.permits(address, write)),
    {
        proof {
            use_type_invariant(self);
        }
        let mut cursor: usize = first;
        let mut i: usize = 0;
        while i < self.regions.len()
            invariant
                self.wf(),
                self@ == self.regions@,
                first <= cursor <= last,
                i <= self.regions.len(),
                forall|address: int|
                    first <= address < cursor ==> #[trigger] self.permits(address, write),
                forall|j: int| 0 <= j < i ==> (#[trigger] self@[j]).last < cursor,
            decreases self.regions.len() - i,
        {
            let region = self.regions[i];
            if region.last >= cursor {
                if region.start > cursor || !region.user || (write && !region.writable) {
                    assert(!self.permits(cursor as int, write)) by {
                        assert forall|k: int| 0 <= k < self@.len() implies !((#[trigger] self@[k]).contains(
                            cursor as int,
                        ) && self@[k].allows(write)) by {
                            if k > i {
                                assert(self@[i as int].last < self@[k].start);
                            }
                        }
                    }
                    return false;
                }
                if region.last >= last {
                    assert forall|address: int| first <= address <= last implies self.permits(
                        address,
                        write,
                    ) by {
                        if address >= cursor {
                            assert(self@[i as int].contains(address) && self@[i as int].allows(write));
                        }
                    }
                    return true;
                }
                assert forall|address: int| first <= address < region.last + 1 implies self.permits(
                    address,
                    write,
                ) by {
                    if address >= cursor {
                        assert(self@[i as int].contains(address) && self@[i as int].allows(write));
                    }
                }
                assert forall|j: int| 0 <= j < i + 1 implies (#[trigger] self@[j]).last < region.last
                    + 1 by {
                    if j < i {
                        assert(self@[j].last < self@[i as int].start);
                    }
                }
                cursor = region.last + 1;
            }
            i += 1;
        }
        assert(!self.permits(cursor as int, write));
        false
    }

    /// Whether the space grants `span`, for reading or, if `write`, for writing.
    pub fn check(&self, span: Span, write: bool) -> (granted: bool)
        ensures
            self.wf(),
            granted == self.grants(span, write),
    {
        proof {
            use_type_invariant(self);
        }
        let bytes = match span.len.checked_mul(span.size) {
            Some(bytes) => bytes,
            None => {
                proof {
                    self.lemma_beyond(span, write);
                }
                return false;
            },
        };
        if bytes == 0 {
            return true;
        }
        match span.address.checked_add(bytes - 1) {
            Some(last) => {
                let covered = self.covers(span.address, last, write);
                proof {
                    if covered {
                        assert forall|address: int| span.contains(address) implies #[trigger] self.permits(
                            address,
                            write,
                        ) by {
                            assert(span.address <= address <= last);
                        }
                    } else {
                        let address = choose|address: int|
                            span.address <= address <= last && !self.permits(address, write);
                        assert(span.contains(address));
                    }
                }
                covered
            },
            None => {
                proof {
                    self.lemma_beyond(span, write);
                }
                false
            },
        }
    }

    /// A span that holds the null address or runs past the last address is not
    /// granted.
    proof fn lemma_beyond(&self, span: Span, write: bool)
        requires
            self.wf(),
            span.bytes() > 0,
            span.address == 0 || span.address + span.bytes() - 1 > usize::MAX,
        ensures
            !self.grants(span, write),
    {
        let outside: int = if span.address == 0 {
            0
        } else {
            usize::MAX + 1
        };
        assert(span.contains(outside));
        assert(!self.permits(outside, write));
    }

    /// Maps `region`, if the space admits it, and says whether it did.
    pub fn map(&mut self, region: Region) -> (mapped: bool)
        ensures
            final(self).wf(),
            mapped == old(self).admits(region),
            !mapped ==> final(self)@ == old(self)@,
            mapped ==> exists|at: int|
                0 <= at <= old(self)@.len() && final(self)@ == #[trigger] old(self)@.insert(at, region),
            mapped ==> forall|address: int, write: bool|
                final(self).permits(address, write) <==> old(self).permits(address, write) || (
                region.contains(address) && region.allows(write)),
    {
        proof {
            use_type_invariant(&*self);
        }
        if region.start == 0 || region.start > region.last {
            return false;
        }
        let mut at: usize = 0;
        while at < self.regions.len() && self.regions[at].last < region.start
            invariant
                at <= self.regions.len(),
                forall|j: int| 0 <= j < at ==> (#[trigger] self.regions@[j]).last < region.start,
            decreases self.regions.len() - at,
        {
            at += 1;
        }
        if at < self.regions.len() && self.regions[at].start <= region.last {
            assert(!self@[at as int].apart(region));
            return false;
        }
        let ghost before = self@;
        assert(self.admits(region)) by {
            assert forall|i: int| 0 <= i < self@.len() implies (#[trigger] self@[i]).apart(region) by {
                if i > at {
                    assert(self@[at as int].last < self@[i].start);
                }
            }
        }
        let mut regions: Vec<Region> = Vec::new();
        core::mem::swap(&mut self.regions, &mut regions);
        regions.insert(at, region);
        self.regions = regions;
        let ghost after = self.regions@;
        assert(after == before.insert(at as int, region));
        assert(ordered(after)) by {
            assert forall|i: int, j: int| 0 <= i < j < after.len() implies (#[trigger] after[i]).last < (
            #[trigger] after[j]).start by {
                let pi = if i < at { i } else { i - 1 };
                let pj = if j < at { j } else { j - 1 };
                if i != at && j != at {
                    assert(before[pi].last < before[pj].start);
                } else if i == at {
                    if pj > at {
                        assert(before[at as int].last < before[pj].start);
                    }
                } else {
                    assert(before[pi].last < region.start);
                }
            }
            assert forall|i: int| 0 <= i < after.len() implies 0 < (#[trigger] after[i]).start
                <= after[i].last by {
                let pi = if i < at { i } else { i - 1 };
                if i != at {
                    assert(0 < before[pi].start <= before[pi].last);
                }
            }
        }
        assert(self@ == after && old(self)@ == before);
        assert forall|address: int, write: bool|
            self.permits(address, write) <==> old(self).permits(address, write) || (region.contains(
                address,
            ) && region.allows(write)) by {
            if old(self).permits(address, write) {
                let k = choose|k: int|
                    0 <= k < before.len() && (#[trigger] before[k]).contains(address) && before[k].allows(
                        write,
                    );
                let nk = if k < at { k } else { k + 1 };
                assert(after[nk] == before[k]);
                assert(0 <= nk < after.len() && after[nk].contains(address) && after[nk].allows(write));
                assert(self.permits(address, write));
            }
            if region.contains(address) && region.allows(write) {
                assert(after[at as int] == region);
                assert(after[at as int].contains(address) && after[at as int].allows(write));
                assert(self.permits(address, write));
            }
            if self.permits(address, write) {
                let k = choose|k: int|
                    0 <= k < after.len() && (#[trigger] after[k]).contains(address) && after[k].allows(
                        write,
                    );
                if k != at {
                    let pk = if k < at { k } else { k - 1 };
                    assert(before[pk] == after[k]);
                    assert(0 <= pk < before.len() && before[pk].contains(address) && before[pk].allows(
                        write,
                    ));
                    assert(old(self).permits(address, write));
                } else {
                    assert(after[k] == region);
                }
            }
        }
        true
    }
}

/// Checks that the caller may read `len` elements of `size` bytes at `address`
/// and hands out the view of them.
pub fn validate_slice<'a>(space: &'a AddressSpace, address: usize, len: usize, size: usize) -> (result:
    Result<Slice<'a>, Error>)
    ensures
        space.wf(),
        result == spec_validate_slice(*space, Span { address, len, size }),
{
    let span = Span { address, len, size };
    if space.check(span, false) {
        Ok(Slice { span, scope: PhantomData })
    } else {
        Err(Error::new(EFAULT))
    }
}

/// Checks that the caller may write `len` elements of `size` bytes at `address`
/// and hands out the view of them.
pub fn validate_slice_mut<'a>(space: &'a AddressSpace, address: usize, len: usize, size: usize) -> (result:
    Result<SliceMut<'a>, Error>)
    ensures
        space.wf(),
        result == spec_validate_slice_mut(*space, Span { address, len, size }),
{
    let span = Span { address, len, size };
    if space.check(span, true) {
        Ok(SliceMut { span, scope: PhantomData })
    } else {
        Err(Error::new(EFAULT))
    }
}

/// A view is handed out exactly when the caller may access every byte of the
/// span as asked, and it covers those bytes and no others. Every other request
/// is a bad address.
pub proof fn lemma_validation(space: AddressSpace, span: Span)
    ensures
        spec_validate_slice(space, span) is Ok <==> forall|address: int|
            span.contains(address) ==> #[trigger] space.permits(address, false),
        spec_validate_slice_mut(space, span) is Ok <==> forall|address: int|
            span.contains(address) ==> #[trigger] space.permits(address, true),
        spec_validate_slice(space, span) matches Ok(slice) ==> slice@ == span && slice@.footprint()
            == span.footprint(),
        spec_validate_slice_mut(space, span) matches Ok(slice) ==> slice@ == span
            && slice@.footprint() == span.footprint(),
        spec_validate_slice(space, span) matches Err(error) ==> error.errno == EFAULT,
        spec_validate_slice_mut(space, span) matches Err(error) ==> error.errno == EFAULT,
{
}

/// What is granted lies in mapped memory: a granted span that is not empty
/// does not hold the null address, does not run past the last address, and
/// touches no region that is kept from unprivileged code. What is granted for
/// writing is granted for reading.
pub proof fn lemma_granted(space: AddressSpace, span: Span, write: bool)
    requires
        space.wf(),
        space.grants(span, write),
    ensures
        space.grants(span, false),
        span.bytes() > 0 ==> 0 < span.address && span.address + span.bytes() - 1 <= usize::MAX,
        forall|i: int, address: int|
            #![trigger space@[i].contains(address)]
            0 <= i < space@.len() && span.contains(address) && space@[i].contains(address)
                ==> space@[i].allows(write),
{
    assert forall|address: int| span.contains(address) implies #[trigger] space.permits(
        address,
        false,
    ) by {
        assert(space.permits(address, write));
    }
    if span.bytes() > 0 {
        if span.address == 0 {
            assert(span.contains(0));
            assert(space.permits(0, write));
        }
        if span.address + span.bytes() - 1 > usize::MAX {
            assert(span.contains(usize::MAX + 1));
            assert(space.permits(usize::MAX + 1, write));
        }
    }
    assert forall|i: int, address: int|
        #![trigger space@[i].contains(address)]
        0 <= i < space@.len() && span.contains(address) && space@[i].contains(
            address,
        ) implies space@[i].allows(write) by {
        assert(space.permits(address, write));
        let k = choose|k: int|
            0 <= k < space@.len() && (#[trigger] space@[k]).contains(address) && space@[k].allows(write);
        if k < i {
            assert(space@[k].last < space@[i].start);
        }
        if i < k {
            assert(space@[i].last < space@[k].start);
        }
    }
}

/// The read-only view of `span` where the space grants it, else a bad address.
pub open spec fn spec_validate_slice<'a>(space: AddressSpace, span: Span) -> Result<Slice<'a>, Error> {
    if space.grants(span, false) {
        Ok(Slice::spec_over(span))
    } else {
        Err(Error { errno: EFAULT })
    }
}

/// The writable view of `span` where the space grants it, else a bad address.
pub open spec fn spec_validate_slice_mut<'a>(space: AddressSpace, span: Span) -> Result<
    SliceMut<'a>,
    Error,
> {
    if space.grants(span, true) {
        Ok(SliceMut::spec_over(span))
    } else {
        Err(Error { errno: EFAULT })
    }
}

} // verus!
