use vstd::prelude::*;
use crate::error::Error;
use crate::texture::TextureDesc;

verus! {

/// The three kinds of objects that the device allocates.
#[derive(Clone, Copy, Debug, PartialEq, Eq, Structural)]
pub enum ObjectKind {
    Buffer,
    Texture,
    Program,
}

/// The integer width of the indices held by an element buffer.
#[derive(Clone, Copy, Debug, PartialEq, Eq, Structural)]
pub enum IndexWidth {
    U8,
    U16,
    U32,
}

/// How a draw combines its output with what the target already holds.
#[derive(Clone, Copy, Debug, PartialEq, Eq, Structural)]
pub enum Blending {
    /// The output replaces the target.
    Opaque,
    /// Colour: source-alpha over one-minus-source-alpha; alpha: zero over one.
    AlphaOver,
}

/// Which triangles a draw discards by their winding as seen.
#[derive(Clone, Copy, Debug, PartialEq, Eq, Structural)]
pub enum Cull {
    /// Every triangle is drawn.
    Nothing,
    /// Triangles facing away from the viewer are discarded.
    Back,
}

/// The rectangle of the render target that a draw covers.
#[derive(Clone, Copy, Debug, PartialEq, Eq, Structural)]
pub struct Viewport {
    pub x: i32,
    pub y: i32,
    pub width: u32,
    pub height: u32,
}

impl Viewport {
    /// A viewport of the given size with its corner at the origin.
    pub fn new_at_origo(width: u32, height: u32) -> (r: Viewport)
        ensures
            r == (Viewport { x: 0, y: 0, width, height }),
    {
        Viewport { x: 0, y: 0, width, height }
    }
}

/// The draw call issued once a program's inputs are bound.
#[derive(Clone, Copy, Debug, PartialEq, Eq, Structural)]
pub enum DrawCall {
    /// Non-indexed triangles over `vertex_count` vertices, `instance_count` times.
    Arrays { blending: Blending, cull: Cull, viewport: Viewport, vertex_count: u32, instance_count: u32 },
    /// Indexed triangles over the `count` indices of element buffer `elements`.
    Elements { blending: Blending, cull: Cull, viewport: Viewport, elements: u32, count: u32 },
}

/// A value handed to a named input of a program. Floating-point payloads are
/// carried as their IEEE-754 bit patterns.
#[derive(Debug, Clone)]
pub enum Binding {
    /// A per-vertex (divisor 0) or per-instance (divisor n) input read from a buffer.
    Attribute { name: String, buffer: u32, components: u32, divisor: u32 },
    /// A uniform block backed by a buffer.
    UniformBlock { name: String, buffer: u32 },
    /// A sampler reading a texture.
    Texture { name: String, texture: u32 },
    /// An integer uniform.
    UniformInt { name: String, value: i32 },
    /// A 3x3 matrix uniform, column major.
    UniformMat3 { name: String, value: [u32; 9] },
    /// A 4x4 matrix uniform, column major.
    UniformMat4 { name: String, value: [u32; 16] },
    /// The inverse transpose of the given 4x4 matrix, as a matrix uniform.
    UniformNormalMatrix { name: String, model: [u32; 16] },
}

/// What a binding holds, with its name as a sequence of characters.
pub ghost enum BindingView {
    Attribute { name: Seq<char>, buffer: u32, components: u32, divisor: u32 },
    UniformBlock { name: Seq<char>, buffer: u32 },
    Texture { name: Seq<char>, texture: u32 },
    UniformInt { name: Seq<char>, value: i32 },
    UniformMat3 { name: Seq<char>, value: [u32; 9] },
    UniformMat4 { name: Seq<char>, value: [u32; 16] },
    UniformNormalMatrix { name: Seq<char>, model: [u32; 16] },
}

impl View for Binding {
    type V = BindingView;

    open spec fn view(&self) -> BindingView {
        match *self {
            Binding::Attribute { name, buffer, components, divisor } => BindingView::Attribute {
                name: name@,
                buffer,
                components,
                divisor,
            },
            Binding::UniformBlock { name, buffer } => BindingView::UniformBlock { name: name@, buffer },
            Binding::Texture { name, texture } => BindingView::Texture { name: name@, texture },
            Binding::UniformInt { name, value } => BindingView::UniformInt { name: name@, value },
            Binding::UniformMat3 { name, value } => BindingView::UniformMat3 { name: name@, value },
            Binding::UniformMat4 { name, value } => BindingView::UniformMat4 { name: name@, value },
            Binding::UniformNormalMatrix { name, model } => BindingView::UniformNormalMatrix { name: name@, model },
        }
    }
}

/// The name of the program input that a binding addresses.
pub open spec fn binding_name(b: BindingView) -> Seq<char> {
    match b {
        BindingView::Attribute { name, .. } => name,
        BindingView::UniformBlock { name, .. } => name,
        BindingView::Texture { name, .. } => name,
        BindingView::UniformInt { name, .. } => name,
        BindingView::UniformMat3 { name, .. } => name,
        BindingView::UniformMat4 { name, .. } => name,
        BindingView::UniformNormalMatrix { name, .. } => name,
    }
}

/// Whether a binding feeds a per-vertex attribute (as opposed to a uniform).
pub open spec fn is_attribute_binding(b: BindingView) -> bool {
    b is Attribute
}

impl Binding {
    /// The name of the program input this binding addresses.
    pub fn name(&self) -> (r: &String)
        ensures
            r@ == binding_name(self@),
    {
        match self {
            Binding::Attribute { name, .. } => name,
            Binding::UniformBlock { name, .. } => name,
            Binding::Texture { name, .. } => name,
            Binding::UniformInt { name, .. } => name,
            Binding::UniformMat3 { name, .. } => name,
            Binding::UniformMat4 { name, .. } => name,
            Binding::UniformNormalMatrix { name, .. } => name,
        }
    }

    pub fn is_attribute(&self) -> (r: bool)
        ensures
            r == is_attribute_binding(self@),
    {
        match self {
            Binding::Attribute { .. } => true,
            _ => false,
        }
    }
}

/// One state-changing call on the device, in the order the library issued it.
/// Object names are the context's own; floating-point payloads are bit patterns.
#[derive(Debug)]
pub enum Command {
    Create { kind: ObjectKind, id: u32 },
    Delete { kind: ObjectKind, id: u32 },
    /// Replaces the whole store of a vertex or uniform buffer.
    BufferData { id: u32, words: Vec<u32> },
    /// Replaces the whole store of an element buffer.
    ElementData { id: u32, width: IndexWidth, indices: Vec<u32> },
    /// Allocates the image storage of a texture.
    TextureStorage { id: u32, desc: TextureDesc },
    /// Fills a single-channel 2D texture.
    TextureData { id: u32, width: u32, height: u32, words: Vec<u32> },
    /// Compiles and links a program from its two stages.
    ProgramSource { id: u32, vertex_source: String, fragment_source: String },
    /// Hands a value to a declared input of a program.
    Bind { program: u32, binding: Binding },
    /// Draws triangles with a program whose inputs were bound before.
    Draw { program: u32, call: DrawCall },
    /// Starts rendering into one layer of a colour and a depth texture array,
    /// after clearing it to transparent black and the farthest depth.
    BeginLayer { color: u32, depth: u32, layer: u32 },
    /// Ends rendering into an off-screen target.
    EndTarget,
}

/// What a command holds, with sequences in place of vectors and strings.
pub ghost enum CommandView {
    Create { kind: ObjectKind, id: u32 },
    Delete { kind: ObjectKind, id: u32 },
    BufferData { id: u32, words: Seq<u32> },
    ElementData { id: u32, width: IndexWidth, indices: Seq<u32> },
    TextureStorage { id: u32, desc: TextureDesc },
    TextureData { id: u32, width: u32, height: u32, words: Seq<u32> },
    ProgramSource { id: u32, vertex_source: Seq<char>, fragment_source: Seq<char> },
    Bind { program: u32, binding: BindingView },
    Draw { program: u32, call: DrawCall },
    BeginLayer { color: u32, depth: u32, layer: u32 },
    EndTarget,
}

impl View for Command {
    type V = CommandView;

    open spec fn view(&self) -> CommandView {
        match *self {
            Command::Create { kind, id } => CommandView::Create { kind, id },
            Command::Delete { kind, id } => CommandView::Delete { kind, id },
            Command::BufferData { id, words } => CommandView::BufferData { id, words: words@ },
            Command::ElementData { id, width, indices } => CommandView::ElementData { id, width, indices: indices@ },
            Command::TextureStorage { id, desc } => CommandView::TextureStorage { id, desc },
            Command::TextureData { id, width, height, words } => CommandView::TextureData { id, width, height, words: words@ },
            Command::ProgramSource { id, vertex_source, fragment_source } => CommandView::ProgramSource {
                id,
                vertex_source: vertex_source@,
                fragment_source: fragment_source@,
            },
            Command::Bind { program, binding } => CommandView::Bind { program, binding: binding@ },
            Command::Draw { program, call } => CommandView::Draw { program, call },
            Command::BeginLayer { color, depth, layer } => CommandView::BeginLayer { color, depth, layer },
            Command::EndTarget => CommandView::EndTarget,
        }
    }
}

/// The library's handle to the graphics device. Every object creation, update,
/// binding, draw and deletion passes through it and is appended to its command
/// log, which the embedding application replays on the driver in order.
pub struct Context {
    next_id: u32,
    live: Ghost<Set<(ObjectKind, u32)>>,
    commands: Vec<Command>,
}

impl Context {
    /// The objects that were created and not yet deleted.
    pub closed spec fn live(&self) -> Set<(ObjectKind, u32)> {
        self.live@
    }

    /// The commands issued so far, oldest first.
    pub closed spec fn log(&self) -> Seq<CommandView> {
        self.commands@.map_values(|c: Command| c@)
    }

    /// How many more objects the device can name.
    pub closed spec fn names_left(&self) -> nat {
        (u32::MAX - self.next_id) as nat
    }

    pub closed spec fn wf(&self) -> bool {
        &&& self.next_id >= 1
        &&& forall|o: (ObjectKind, u32)| #[trigger] self.live@.contains(o) ==> 1 <= o.1 < self.next_id
    }

    /// A context on which nothing was created yet.
    pub fn new() -> (r: Context)
        ensures
            r.wf(),
            r.live() == Set::<(ObjectKind, u32)>::empty(),
            r.names_left() == u32::MAX - 1,
            r.log() == Seq::<CommandView>::empty(),
    {
        let r = Context { next_id: 1, live: Ghost(Set::empty()), commands: Vec::new() };
        assert(r.log() =~= Seq::<CommandView>::empty());
        r
    }

    /// Allocates a fresh object name of the given kind. Fails only when the
    /// device has no name left to give.
    pub(crate) fn create(&mut self, kind: ObjectKind) -> (r: Result<u32, Error>)
        requires
            old(self).wf(),
        ensures
            final(self).wf(),
            r is Ok <==> old(self).names_left() > 0,
            match r {
                Ok(id) => {
                    &&& final(self).names_left() == old(self).names_left() - 1
                    &&& !old(self).live().contains((kind, id))
                    &&& final(self).live() == old(self).live().insert((kind, id))
                    &&& final(self).log() == old(self).log().push(CommandView::Create { kind, id })
                },
                Err(e) => {
                    &&& e is DeviceError
                    &&& final(self).names_left() == old(self).names_left()
                    &&& final(self).live() == old(self).live()
                    &&& final(self).log() == old(self).log()
                },
            },
    {
        if self.next_id == u32::MAX {
            return Err(Error::DeviceError { message: String::from_str("no object name is left") });
        }
        let id = self.next_id;
        self.next_id = self.next_id + 1;
        self.live = Ghost(self.live@.insert((kind, id)));
        self.commands.push(Command::Create { kind, id });
        Ok(id)
    }

    /// Releases a live object. The handle types consume themselves to call
    /// this, so no object is released twice.
    pub(crate) fn delete(&mut self, kind: ObjectKind, id: u32)
        requires
            old(self).wf(),
            old(self).live().contains((kind, id)),
        ensures
            final(self).wf(),
            final(self).live() == old(self).live().remove((kind, id)),
            final(self).names_left() == old(self).names_left(),
            final(self).log() == old(self).log().push(CommandView::Delete { kind, id }),
    {
        self.live = Ghost(self.live@.remove((kind, id)));
        self.commands.push(Command::Delete { kind, id });
    }

    /// Appends a command that neither creates nor deletes an object.
    pub(crate) fn issue(&mut self, c: Command)
        requires
            old(self).wf(),
            !(c is Create),
            !(c is Delete),
        ensures
            final(self).wf(),
            final(self).live() == old(self).live(),
            final(self).names_left() == old(self).names_left(),
            final(self).log() == old(self).log().push(c@),
    {
        self.commands.push(c);
        assert(self.log() =~= old(self).log().push(c@));
    }

    /// Hands the commands issued so far to the caller and empties the log.
    pub fn take_commands(&mut self) -> (r: Vec<Command>)
        requires
            old(self).wf(),
        ensures
            final(self).wf(),
            r@.map_values(|c: Command| c@) == old(self).log(),
            final(self).names_left() == old(self).names_left(),
            final(self).log() == Seq::<CommandView>::empty(),
            final(self).live() == old(self).live(),
    {
        let mut taken = Vec::new();
        std::mem::swap(&mut taken, &mut self.commands);
        assert(self.log() =~= Seq::<CommandView>::empty());
        taken
    }

    /// How many more objects the device can name.
    pub fn available_names(&self) -> (r: u32)
        requires
            self.wf(),
        ensures
            r == self.names_left(),
    {
        u32::MAX - self.next_id
    }

    /// The number of commands waiting in the log.
    pub fn pending(&self) -> (r: usize)
        ensures
            r == self.log().len(),
    {
        assert(self.log().len() == self.commands@.len());
        self.commands.len()
    }
}

} // verus!
