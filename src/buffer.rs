use vstd::prelude::*;
use crate::context::{Command, CommandView, Context, IndexWidth, ObjectKind};
use crate::error::Error;

verus! {

/// A buffer of per-vertex (or per-instance) values, 32-bit floats held as
/// their bit patterns.
pub struct VertexBuffer {
    id: u32,
    count: usize,
    words: Ghost<Seq<u32>>,
}

impl VertexBuffer {
    pub closed spec fn id_spec(&self) -> u32 {
        self.id
    }

    /// What the device holds for this buffer.
    pub closed spec fn contents(&self) -> Seq<u32> {
        self.words@
    }

    pub closed spec fn wf(&self) -> bool {
        self.count == self.words@.len()
    }

    pub fn id(&self) -> (r: u32)
        ensures
            r == self.id_spec(),
    {
        self.id
    }

    /// The number of values the buffer holds.
    pub fn count(&self) -> (r: usize)
        requires
            self.wf(),
        ensures
            r == self.contents().len(),
    {
        self.count
    }

    /// An empty buffer. Fails only when the device has no name left.
    pub fn new(context: &mut Context) -> (r: Result<VertexBuffer, Error>)
        requires
            old(context).wf(),
        ensures
            final(context).wf(),
            r is Ok <==> old(context).names_left() > 0,
            match r {
                Ok(b) => {
                    &&& final(context).names_left() == old(context).names_left() - 1
                    &&& b.wf()
                    &&& b.contents() == Seq::<u32>::empty()
                    &&& !old(context).live().contains((ObjectKind::Buffer, b.id_spec()))
                    &&& final(context).live() == old(context).live().insert((ObjectKind::Buffer, b.id_spec()))
                    &&& final(context).log() == old(context).log().push(CommandView::Create { kind: ObjectKind::Buffer, id: b.id_spec() })
                },
                Err(e) => {
                    &&& e is DeviceError
                    &&& final(context).live() == old(context).live()
                    &&& final(context).log() == old(context).log()
                },
            },
    {
        let id = context.create(ObjectKind::Buffer)?;
        Ok(VertexBuffer { id, count: 0, words: Ghost(Seq::empty()) })
    }

    /// A buffer that holds `data`, uploaded once. Fails, creating nothing,
    /// only when the device has no name left.
    pub fn new_with_static(context: &mut Context, data: &[u32]) -> (r: Result<VertexBuffer, Error>)
        requires
            old(context).wf(),
        ensures
            final(context).wf(),
            r is Ok <==> old(context).names_left() > 0,
            match r {
                Ok(b) => {
                    &&& final(context).names_left() == old(context).names_left() - 1
                    &&& b.wf()
                    &&& b.contents() == data@
                    &&& !old(context).live().contains((ObjectKind::Buffer, b.id_spec()))
                    &&& final(context).live() == old(context).live().insert((ObjectKind::Buffer, b.id_spec()))
                    &&& final(context).log() == old(context).log().push(
                        CommandView::Create { kind: ObjectKind::Buffer, id: b.id_spec() },
                    ).push(CommandView::BufferData { id: b.id_spec(), words: data@ })
                },
                Err(e) => {
                    &&& e is DeviceError
                    &&& final(context).live() == old(context).live()
                    &&& final(context).log() == old(context).log()
                },
            },
    {
        let mut b = VertexBuffer::new(context)?;
        b.fill_with_dynamic(context, data);
        Ok(b)
    }

    /// Replaces what the buffer holds with `data`.
    pub fn fill_with_dynamic(&mut self, context: &mut Context, data: &[u32])
        requires
            old(context).wf(),
        ensures
            final(self).wf(),
            final(self).id_spec() == old(self).id_spec(),
            final(self).contents() == data@,
            final(context).wf(),
            final(context).live() == old(context).live(),
            final(context).names_left() == old(context).names_left(),
            final(context).log() == old(context).log().push(CommandView::BufferData { id: old(self).id_spec(), words: data@ }),
    {
        let words = vstd::slice::slice_to_vec(data);
        self.count = words.len();
        self.words = Ghost(data@);
        context.issue(Command::BufferData { id: self.id, words });
    }

    /// Releases the buffer's device storage, once.
    pub fn destroy(self, context: &mut Context)
        requires
            old(context).wf(),
            old(context).live().contains((ObjectKind::Buffer, self.id_spec())),
        ensures
            final(context).wf(),
            final(context).live() == old(context).live().remove((ObjectKind::Buffer, self.id_spec())),
            final(context).names_left() == old(context).names_left(),
            final(context).log() == old(context).log().push(CommandView::Delete { kind: ObjectKind::Buffer, id: self.id_spec() }),
    {
        context.delete(ObjectKind::Buffer, self.id);
    }
}

/// Triangle indices of one of three integer widths.
#[derive(Debug)]
pub enum Indices {
    U8(Vec<u8>),
    U16(Vec<u16>),
    U32(Vec<u32>),
}

/// The indices as unsigned integers, whatever their width.
pub open spec fn index_values(ind: Indices) -> Seq<u32> {
    match ind {
        Indices::U8(v) => v@.map_values(|x: u8| x as u32),
        Indices::U16(v) => v@.map_values(|x: u16| x as u32),
        Indices::U32(v) => v@,
    }
}

pub open spec fn index_width(ind: Indices) -> IndexWidth {
    match ind {
        Indices::U8(_) => IndexWidth::U8,
        Indices::U16(_) => IndexWidth::U16,
        Indices::U32(_) => IndexWidth::U32,
    }
}

/// A buffer of triangle indices into the vertex buffers of a mesh.
pub struct ElementBuffer {
    id: u32,
    count: usize,
    width: IndexWidth,
    values: Ghost<Seq<u32>>,
}

impl ElementBuffer {
    pub closed spec fn id_spec(&self) -> u32 {
        self.id
    }

    pub closed spec fn contents(&self) -> Seq<u32> {
        self.values@
    }

    pub closed spec fn width_spec(&self) -> IndexWidth {
        self.width
    }

    pub closed spec fn wf(&self) -> bool {
        self.count == self.values@.len()
    }

    pub fn id(&self) -> (r: u32)
        ensures
            r == self.id_spec(),
    {
        self.id
    }

    /// The number of indices.
    pub fn count(&self) -> (r: usize)
        requires
            self.wf(),
        ensures
            r == self.contents().len(),
    {
        self.count
    }

    /// A buffer holding `indices`, uploaded as the device index type of their
    /// width. Fails, creating nothing, only when the device has no name left.
    pub fn new_with(context: &mut Context, indices: &Indices) -> (r: Result<ElementBuffer, Error>)
        requires
            old(context).wf(),
        ensures
            final(context).wf(),
            r is Ok <==> old(context).names_left() > 0,
            match r {
                Ok(b) => {
                    &&& final(context).names_left() == old(context).names_left() - 1
                    &&& b.wf()
                    &&& b.contents() == index_values(*indices)
                    &&& b.width_spec() == index_width(*indices)
                    &&& !old(context).live().contains((ObjectKind::Buffer, b.id_spec()))
                    &&& final(context).live() == old(context).live().insert((ObjectKind::Buffer, b.id_spec()))
                    &&& final(context).log() == old(context).log().push(
                        CommandView::Create { kind: ObjectKind::Buffer, id: b.id_spec() },
                    ).push(CommandView::ElementData {
                        id: b.id_spec(),
                        width: index_width(*indices),
                        indices: index_values(*indices),
                    })
                },
                Err(e) => {
                    &&& e is DeviceError
                    &&& final(context).live() == old(context).live()
                    &&& final(context).log() == old(context).log()
                },
            },
    {
        let id = context.create(ObjectKind::Buffer)?;
        let mut values: Vec<u32> = Vec::new();
        let width = match indices {
            Indices::U8(v) => {
                let mut i: usize = 0;
                while i < v.len()
                    invariant
                        i <= v@.len(),
                        values@ == v@.subrange(0, i as int).map_values(|x: u8| x as u32),
                    decreases v@.len() - i,
                {
                    values.push(v[i] as u32);
                    i = i + 1;
                    assert(values@ =~= v@.subrange(0, i as int).map_values(|x: u8| x as u32));
                }
                assert(v@.subrange(0, v@.len() as int) =~= v@);
                IndexWidth::U8
            },
            Indices::U16(v) => {
                let mut i: usize = 0;
                while i < v.len()
                    invariant
                        i <= v@.len(),
                        values@ == v@.subrange(0, i as int).map_values(|x: u16| x as u32),
                    decreases v@.len() - i,
                {
                    values.push(v[i] as u32);
                    i = i + 1;
                    assert(values@ =~= v@.subrange(0, i as int).map_values(|x: u16| x as u32));
                }
                assert(v@.subrange(0, v@.len() as int) =~= v@);
                IndexWidth::U16
            },
            Indices::U32(v) => {
                values = vstd::slice::slice_to_vec(v.as_slice());
                IndexWidth::U32
            },
        };
        let count = values.len();
        let ghost vals = values@;
        context.issue(Command::ElementData { id, width, indices: values });
        Ok(ElementBuffer { id, count, width, values: Ghost(vals) })
    }

    /// Releases the buffer's device storage, once.
    pub fn destroy(self, context: &mut Context)
        requires
            old(context).wf(),
            old(context).live().contains((ObjectKind::Buffer, self.id_spec())),
        ensures
            final(context).wf(),
            final(context).live() == old(context).live().remove((ObjectKind::Buffer, self.id_spec())),
            final(context).names_left() == old(context).names_left(),
            final(context).log() == old(context).log().push(CommandView::Delete { kind: ObjectKind::Buffer, id: self.id_spec() }),
    {
        context.delete(ObjectKind::Buffer, self.id);
    }
}

} // verus!
