use vstd::prelude::*;
use crate::context::{Command, CommandView, Context, ObjectKind};
use crate::error::Error;
use vstd::slice::slice_subrange;

verus! {

/// The sum of a list of region lengths.
pub open spec fn total(sizes: Seq<u32>) -> int
    decreases sizes.len(),
{
    if sizes.len() == 0 {
        0
    } else {
        total(sizes.drop_last()) + sizes.last()
    }
}

/// Where region `i` starts: the sum of the lengths of the regions before it.
pub open spec fn region_start(sizes: Seq<u32>, i: int) -> int {
    total(sizes.subrange(0, i))
}

/// The store `s` with `data` written over the `len` entries from `start`.
pub open spec fn splice(s: Seq<u32>, start: int, len: int, data: Seq<u32>) -> Seq<u32> {
    s.subrange(0, start) + data + s.subrange(start + len, s.len() as int)
}

pub proof fn lemma_region_start_step(sizes: Seq<u32>, i: int)
    requires
        0 <= i < sizes.len(),
    ensures
        region_start(sizes, i + 1) == region_start(sizes, i) + sizes[i],
{
    assert(sizes.subrange(0, i + 1).drop_last() =~= sizes.subrange(0, i));
}

pub proof fn lemma_region_start_mono(sizes: Seq<u32>, i: int, j: int)
    requires
        0 <= i <= j <= sizes.len(),
    ensures
        region_start(sizes, i) <= region_start(sizes, j),
    decreases j - i,
{
    if i < j {
        lemma_region_start_mono(sizes, i, j - 1);
        lemma_region_start_step(sizes, j - 1);
    }
}

pub proof fn lemma_region_start_end(sizes: Seq<u32>)
    ensures
        region_start(sizes, sizes.len() as int) == total(sizes),
{
    assert(sizes.subrange(0, sizes.len() as int) =~= sizes);
}

/// A region's extent lies within the whole store.
pub proof fn lemma_region_within(sizes: Seq<u32>, i: int)
    requires
        0 <= i < sizes.len(),
    ensures
        0 <= region_start(sizes, i),
        region_start(sizes, i) + sizes[i] <= total(sizes),
{
    lemma_region_start_mono(sizes, 0, i);
    assert(sizes.subrange(0, 0) =~= Seq::<u32>::empty());
    lemma_region_start_step(sizes, i);
    lemma_region_start_mono(sizes, i + 1, sizes.len() as int);
    lemma_region_start_end(sizes);
}

/// Writing region `i` with data of its declared length, as `update` does, and
/// reading region `i` back gives exactly that data; the store keeps its length
/// and every other region keeps its values.
pub proof fn lemma_update_then_get(b: UniformBuffer, i: int, data: Seq<u32>)
    requires
        b.wf(),
        0 <= i < b.regions().len(),
        data.len() == b.regions()[i],
    ensures
        ({
            let after = splice(b.contents(), region_start(b.regions(), i), b.regions()[i] as int, data);
            &&& after.len() == total(b.regions())
            &&& after.subrange(region_start(b.regions(), i), region_start(b.regions(), i) + b.regions()[i]) == data
            &&& forall|j: int| 0 <= j < b.regions().len() && j != i ==>
                after.subrange(region_start(b.regions(), j), region_start(b.regions(), j) + b.regions()[j])
                    == #[trigger] b.region(j)
        }),
{
    let sizes = b.regions();
    let s = region_start(sizes, i);
    lemma_region_within(sizes, i);
    let after = splice(b.contents(), s, sizes[i] as int, data);
    assert(after.subrange(s, s + sizes[i]) =~= data);
    assert forall|j: int| 0 <= j < sizes.len() && j != i implies
        after.subrange(region_start(sizes, j), region_start(sizes, j) + sizes[j]) == #[trigger] b.region(j) by {
        lemma_region_within(sizes, j);
        if j < i {
            lemma_region_start_step(sizes, j);
            lemma_region_start_mono(sizes, j + 1, i);
        } else {
            lemma_region_start_step(sizes, i);
            lemma_region_start_mono(sizes, i + 1, j);
        }
        assert(after.subrange(region_start(sizes, j), region_start(sizes, j) + sizes[j]) =~= b.region(j));
    }
}

/// A buffer that hands a set of uniform variables to a program's uniform
/// block. Its store is cut into regions whose lengths are fixed when it is
/// made; values are 32-bit floats, held as their bit patterns.
pub struct UniformBuffer {
    id: u32,
    offsets: Vec<usize>,
    data: Vec<u32>,
    sizes: Ghost<Seq<u32>>,
}

impl UniformBuffer {
    /// The device name of the buffer.
    pub closed spec fn id_spec(&self) -> u32 {
        self.id
    }

    /// The declared region lengths, in order.
    pub closed spec fn regions(&self) -> Seq<u32> {
        self.sizes@
    }

    /// The whole local copy of the store.
    pub closed spec fn contents(&self) -> Seq<u32> {
        self.data@
    }

    pub closed spec fn wf(&self) -> bool {
        &&& self.offsets@.len() == self.sizes@.len()
        &&& forall|k: int| 0 <= k < self.offsets@.len() ==> #[trigger] self.offsets@[k] == region_start(self.sizes@, k)
        &&& self.data@.len() == total(self.sizes@)
        &&& total(self.sizes@) <= usize::MAX
    }

    /// The values of region `i`.
    pub open spec fn region(&self, i: int) -> Seq<u32> {
        self.contents().subrange(region_start(self.regions(), i), region_start(self.regions(), i) + self.regions()[i])
    }

    pub fn id(&self) -> (r: u32)
        ensures
            r == self.id_spec(),
    {
        self.id
    }

    /// Makes a buffer with one region per entry of `sizes`, of that length,
    /// all values zero. Fails only when the device has no name left.
    pub fn new(context: &mut Context, sizes: &[u32]) -> (r: Result<UniformBuffer, Error>)
        requires
            old(context).wf(),
            total(sizes@) <= usize::MAX,
        ensures
            final(context).wf(),
            r is Ok <==> old(context).names_left() > 0,
            match r {
                Ok(b) => {
                    &&& final(context).names_left() == old(context).names_left() - 1
                    &&& b.wf()
                    &&& b.regions() == sizes@
                    &&& b.contents() == Seq::new(total(sizes@) as nat, |k: int| 0u32)
                    &&& !old(context).live().contains((ObjectKind::Buffer, b.id_spec()))
                    &&& final(context).live() == old(context).live().insert((ObjectKind::Buffer, b.id_spec()))
                    &&& final(context).log() == old(context).log().push(CommandView::Create { kind: ObjectKind::Buffer, id: b.id_spec() })
                },
                Err(e) => {
                    &&& e is DeviceError
                    &&& final(context).live() == old(context).live()
                    &&& final(context).log() == old(context).log()
                },
            },
    {
        let mut offsets: Vec<usize> = Vec::new();
        let mut length: usize = 0;
        let mut i: usize = 0;
        while i < sizes.len()
            invariant
                i <= sizes@.len(),
                total(sizes@) <= usize::MAX,
                offsets@.len() == i,
                length == region_start(sizes@, i as int),
                forall|k: int| 0 <= k < i ==> #[trigger] offsets@[k] == region_start(sizes@, k),
            decreases sizes@.len() - i,
        {
            offsets.push(length);
            proof {
                lemma_region_start_step(sizes@, i as int);
                lemma_region_start_mono(sizes@, i as int + 1, sizes@.len() as int);
                lemma_region_start_end(sizes@);
            }
            length = length + sizes[i] as usize;
            i = i + 1;
        }
        proof {
            lemma_region_start_end(sizes@);
        }
        let mut data: Vec<u32> = Vec::new();
        let mut j: usize = 0;
        while j < length
            invariant
                j <= length,
                data@ == Seq::new(j as nat, |k: int| 0u32),
            decreases length - j,
        {
            data.push(0);
            j = j + 1;
            assert(data@ =~= Seq::new(j as nat, |k: int| 0u32));
        }
        let id = context.create(ObjectKind::Buffer)?;
        Ok(UniformBuffer { id, offsets, data, sizes: Ghost(sizes@) })
    }

    /// The length of the whole store: the sum of the region lengths.
    pub fn len(&self) -> (r: usize)
        requires
            self.wf(),
        ensures
            r == total(self.regions()),
    {
        self.data.len()
    }

    /// Where region `index` starts and how long it is.
    fn offset_length(&self, index: usize) -> (r: Result<(usize, usize), Error>)
        requires
            self.wf(),
        ensures
            index >= self.regions().len() ==> r == Err::<(usize, usize), Error>(
                Error::IndexOutOfRange { index: index as u32, count: self.regions().len() as usize },
            ),
            index < self.regions().len() ==> {
                &&& r is Ok
                &&& r->Ok_0.0 == region_start(self.regions(), index as int)
                &&& r->Ok_0.1 == self.regions()[index as int]
                &&& r->Ok_0.0 + r->Ok_0.1 <= self.contents().len()
            },
    {
        if index >= self.offsets.len() {
            return Err(Error::IndexOutOfRange { index: index as u32, count: self.offsets.len() });
        }
        proof {
            lemma_region_within(self.sizes@, index as int);
        }
        let offset = self.offsets[index];
        let end = if index + 1 == self.offsets.len() {
            proof {
                lemma_region_start_step(self.sizes@, index as int);
                lemma_region_start_end(self.sizes@);
            }
            self.data.len()
        } else {
            proof {
                lemma_region_start_step(self.sizes@, index as int);
            }
            self.offsets[index + 1]
        };
        Ok((offset, end - offset))
    }

    /// Writes `data` over region `index` and uploads the whole store again.
    /// Fails, changing nothing, when the region does not exist or `data`
    /// differs from it in length.
    pub fn update(&mut self, context: &mut Context, index: u32, data: &[u32]) -> (r: Result<(), Error>)
        requires
            old(self).wf(),
            old(context).wf(),
        ensures
            final(self).wf(),
            final(context).wf(),
            final(self).regions() == old(self).regions(),
            final(self).id_spec() == old(self).id_spec(),
            final(context).live() == old(context).live(),
            final(context).names_left() == old(context).names_left(),
            index >= old(self).regions().len() ==> r == Err::<(), Error>(
                Error::IndexOutOfRange { index, count: old(self).regions().len() as usize },
            ),
            index < old(self).regions().len() && data@.len() != old(self).regions()[index as int]
                ==> r == Err::<(), Error>(Error::SizeMismatch {
                    index,
                    expected: old(self).regions()[index as int] as usize,
                    actual: data@.len() as usize,
                }),
            r is Err ==> final(self).contents() == old(self).contents() && final(context).log() == old(context).log(),
            index < old(self).regions().len() && data@.len() == old(self).regions()[index as int] ==> {
                &&& r is Ok
                &&& final(self).contents() == splice(
                    old(self).contents(),
                    region_start(old(self).regions(), index as int),
                    old(self).regions()[index as int] as int,
                    data@,
                )
                &&& final(context).log() == old(context).log().push(
                    CommandView::BufferData { id: old(self).id_spec(), words: final(self).contents() },
                )
            },
    {
        let (offset, length) = match self.offset_length(index as usize) {
            Ok(p) => p,
            Err(e) => return Err(e),
        };
        if data.len() != length {
            return Err(Error::SizeMismatch { index, expected: length, actual: data.len() });
        }
        proof {
            lemma_region_within(self.sizes@, index as int);
        }
        let ghost before = self.data@;
        let mut k: usize = 0;
        while k < length
            invariant
                self.wf(),
                self.sizes@ == old(self).sizes@,
                self.id == old(self).id,
                before == old(self).data@,
                offset == region_start(self.sizes@, index as int),
                length == data@.len(),
                offset + length <= before.len(),
                k <= length,
                self.data@.len() == before.len(),
                before.len() <= usize::MAX,
                forall|m: int| 0 <= m < offset ==> #[trigger] self.data@[m] == before[m],
                forall|m: int| offset + length <= m < before.len() ==> #[trigger] self.data@[m] == before[m],
                forall|m: int| 0 <= m < k ==> #[trigger] self.data@[offset + m] == data@[m],
            decreases length - k,
        {
            self.data.set(offset + k, data[k]);
            k = k + 1;
        }
        assert(self.data@ =~= splice(before, offset as int, length as int, data@)) by {
            assert forall|m: int| offset <= m < offset + length implies self.data@[m] == data@[m - offset] by {
                assert(self.data@[offset + (m - offset)] == data@[m - offset]);
            }
        }
        self.send(context);
        Ok(())
    }

    /// The values of region `index`, or the out-of-range failure.
    pub fn get(&self, index: u32) -> (r: Result<&[u32], Error>)
        requires
            self.wf(),
        ensures
            index >= self.regions().len() ==> r == Err::<&[u32], Error>(
                Error::IndexOutOfRange { index, count: self.regions().len() as usize },
            ),
            index < self.regions().len() ==> r is Ok && r->Ok_0@ == self.region(index as int),
    {
        let (offset, length) = match self.offset_length(index as usize) {
            Ok(p) => p,
            Err(e) => return Err(e),
        };
        proof {
            lemma_region_within(self.sizes@, index as int);
        }
        Ok(slice_subrange(self.data.as_slice(), offset, offset + length))
    }

    /// Uploads the whole local store to the device.
    fn send(&self, context: &mut Context)
        requires
            old(context).wf(),
        ensures
            final(context).wf(),
            final(context).live() == old(context).live(),
            final(context).names_left() == old(context).names_left(),
            final(context).log() == old(context).log().push(CommandView::BufferData { id: self.id, words: self.data@ }),
    {
        let words = self.data.clone();
        assert(words@ =~= self.data@);
        context.issue(Command::BufferData { id: self.id, words });
    }

    /// Releases the buffer's device storage. Consumes the handle, so the
    /// release happens once.
    pub fn destroy(self, context: &mut Context)
        requires
            old(context).wf(),
            old(context).live().contains((ObjectKind::Buffer, self.id_spec())),
        ensures
            final(context).wf(),
            final(context).live() == old(context).live().remove((ObjectKind::Buffer, self.id_spec())),
            final(context).names_left() == old(context).names_left(),
            final(context).log() == old(context).log().push(CommandView::Delete { kind: ObjectKind::Buffer, id: self.id_spec() }),
    {
        context.delete(ObjectKind::Buffer, self.id);
    }
}

} // verus!
