use vstd::prelude::*;
use vstd::string::{StringExecFns, StringSliceAdditionalSpecFns};
use crate::buffer::{index_values, index_width, ElementBuffer, Indices, VertexBuffer};
use crate::context::{Binding, BindingView, Blending, CommandView, Context, Cull, DrawCall, ObjectKind, Viewport};
use crate::error::{Error, MeshAttribute};
use crate::program::{views, Program, ProgramCache};
use crate::shader::{declares, source_declares};
use crate::uniform_buffer::UniformBuffer;

verus! {

/// Functions shared by the shaders of the library.
pub const SHARED_SHADER_SOURCE: &'static str = "\nfloat saturate(float v) { return clamp(v, 0.0, 1.0); }\nvec3 rgb_from_srgb(vec3 c) { return pow(c, vec3(2.2)); }\nvec3 srgb_from_rgb(vec3 c) { return pow(c, vec3(1.0 / 2.2)); }\n";

/// The vertex stage of a mesh; the `USE_*` defines placed before it select
/// the outputs that the fragment stage reads.
pub const MESH_VERTEX_SOURCE: &'static str = "\nlayout (std140) uniform Camera\n{\n    mat4 viewProjection;\n    mat4 view;\n    mat4 projection;\n    vec3 position;\n    float padding;\n} camera;\n\nuniform mat4 modelMatrix;\nin vec3 position;\n\n#ifdef USE_POSITIONS\nout vec3 pos;\n#endif\n\n#ifdef USE_NORMALS\nuniform mat4 normalMatrix;\nin vec3 normal;\nout vec3 nor;\n#ifdef USE_TANGENTS\nin vec4 tangent;\nout vec3 tang;\nout vec3 bitang;\n#endif\n#endif\n\n#ifdef USE_UVS\nuniform mat3 textureTransform;\nin vec2 uv_coordinates;\nout vec2 uvs;\n#endif\n\n#ifdef USE_COLORS\nin vec4 color;\nout vec4 col;\n#endif\n\nvoid main()\n{\n    vec4 worldPosition = modelMatrix * vec4(position, 1.);\n    gl_Position = camera.viewProjection * worldPosition;\n#ifdef USE_POSITIONS\n    pos = worldPosition.xyz;\n#endif\n#ifdef USE_NORMALS\n    nor = normalize(mat3(normalMatrix) * normal);\n#ifdef USE_TANGENTS\n    tang = normalize(mat3(normalMatrix) * tangent.xyz);\n    bitang = normalize(cross(nor, tang) * tangent.w);\n#endif\n#endif\n#ifdef USE_UVS\n    uvs = (textureTransform * vec3(uv_coordinates, 1.0)).xy;\n#endif\n#ifdef USE_COLORS\n    col = color;\n#endif\n}\n";

/// The 4x4 identity matrix, as float bit patterns.
pub const IDENTITY4: [u32; 16] = [
    1065353216, 0, 0, 0,
    0, 1065353216, 0, 0,
    0, 0, 1065353216, 0,
    0, 0, 0, 1065353216,
];

/// The 3x3 identity matrix, as float bit patterns.
pub const IDENTITY3: [u32; 9] = [
    1065353216, 0, 0,
    0, 1065353216, 0,
    0, 0, 1065353216,
];

/// `text` when `flag` holds, else nothing.
pub open spec fn define_if(flag: bool, text: &str) -> Seq<char> {
    if flag { text@ } else { Seq::empty() }
}

/// A fragment stage reads tangents without declaring a bitangent input.
pub open spec fn lacks_bitangent(src: Seq<u8>) -> bool {
    declares(src, "in vec3 tang;") && !declares(src, "in vec3 bitang;")
}

/// The vertex stage that serves a fragment stage with UTF-8 bytes `src`:
/// one define per input that `src` declares, then the shared functions and
/// the mesh vertex stage.
pub open spec fn mesh_vertex_source(src: Seq<u8>) -> Seq<char> {
    define_if(declares(src, "in vec3 pos;"), "#define USE_POSITIONS\n")
        + define_if(declares(src, "in vec3 nor;"), "#define USE_NORMALS\n")
        + define_if(declares(src, "in vec3 tang;"), "#define USE_TANGENTS\n")
        + define_if(declares(src, "in vec2 uvs;"), "#define USE_UVS\n")
        + define_if(declares(src, "in vec4 col;"), "#define USE_COLORS\n")
        + SHARED_SHADER_SOURCE@
        + MESH_VERTEX_SOURCE@
}

/// The per-vertex data of a triangle mesh as it is read in, float values as
/// bit patterns: three per position, normal and tangent direction (tangents
/// four), two per uv coordinate, four per colour.
#[derive(Debug)]
pub struct CpuMesh {
    pub positions: Vec<u32>,
    pub normals: Option<Vec<u32>>,
    pub tangents: Option<Vec<u32>>,
    pub uvs: Option<Vec<u32>>,
    pub colors: Option<Vec<u32>>,
    pub indices: Option<Indices>,
}

/// The values of an optional vertex array.
pub open spec fn opt_words(o: Option<Vec<u32>>) -> Option<Seq<u32>> {
    match o {
        Some(v) => Some(v@),
        None => None,
    }
}

/// The values of an optional vertex buffer.
pub open spec fn buffer_words(o: Option<VertexBuffer>) -> Option<Seq<u32>> {
    match o {
        Some(b) => Some(b.contents()),
        None => None,
    }
}

/// How many device objects a mesh made from `cpu` takes.
pub open spec fn buffers_needed(cpu: CpuMesh) -> nat {
    1 + (if cpu.normals is Some { 1nat } else { 0 }) + (if cpu.tangents is Some { 1nat } else { 0 })
        + (if cpu.uvs is Some { 1nat } else { 0 }) + (if cpu.colors is Some { 1nat } else { 0 })
        + (if cpu.indices is Some { 1nat } else { 0 })
}

/// The device objects of an optional buffer.
pub open spec fn buffer_set(o: Option<VertexBuffer>) -> Set<(ObjectKind, u32)> {
    match o {
        Some(b) => set![(ObjectKind::Buffer, b.id_spec())],
        None => Set::empty(),
    }
}

/// The first per-vertex input that program `p` reads and mesh `m` lacks, in
/// the order uv coordinates, normals, tangents, colours.
pub open spec fn missing_buffer(m: Mesh, p: Program) -> Option<MeshAttribute> {
    if p.attribute_names().contains("uv_coordinates"@) && m.uvs() is None {
        Some(MeshAttribute::UvCoordinates)
    } else if p.attribute_names().contains("normal"@) && m.normals() is None {
        Some(MeshAttribute::Normal)
    } else if p.attribute_names().contains("tangent"@) && m.tangents() is None {
        Some(MeshAttribute::Tangent)
    } else if p.attribute_names().contains("color"@) && m.colors() is None {
        Some(MeshAttribute::Color)
    } else {
        None
    }
}

/// A program that reads normals, drawn with a mesh that has none, fails on
/// the missing normal buffer, unless it already failed on missing uv
/// coordinates, which are checked first.
pub proof fn lemma_missing_normals(m: Mesh, p: Program)
    requires
        p.attribute_names().contains("normal"@),
        m.normals() is None,
        !(p.attribute_names().contains("uv_coordinates"@) && m.uvs() is None),
    ensures
        missing_buffer(m, p) == Some(MeshAttribute::Normal),
{
}

/// `s` when `flag` holds, else nothing.
pub open spec fn when(flag: bool, s: Seq<BindingView>) -> Seq<BindingView> {
    if flag { s } else { Seq::empty() }
}

/// What a mesh hands to program `p` besides the material's values: the
/// camera block and model transform, then each per-vertex input that `p`
/// reads, with the uniforms that go with it.
pub open spec fn mesh_bindings(m: Mesh, p: Program, camera: u32) -> Seq<BindingView> {
    let reads = |n: Seq<char>| p.attribute_names().contains(n);
    seq![
        BindingView::UniformBlock { name: "Camera"@, buffer: camera },
        BindingView::UniformMat4 { name: "modelMatrix"@, value: m.transformation_spec() },
    ] + when(reads("position"@), seq![
        BindingView::Attribute { name: "position"@, buffer: m.positions().id_spec(), components: 3, divisor: 0 },
    ]) + when(reads("uv_coordinates"@), seq![
        BindingView::UniformMat3 { name: "textureTransform"@, value: m.texture_transform_spec() },
        BindingView::Attribute { name: "uv_coordinates"@, buffer: m.uvs()->Some_0.id_spec(), components: 2, divisor: 0 },
    ]) + when(reads("normal"@), seq![
        BindingView::Attribute { name: "normal"@, buffer: m.normals()->Some_0.id_spec(), components: 3, divisor: 0 },
        BindingView::UniformNormalMatrix { name: "normalMatrix"@, model: m.transformation_spec() },
    ]) + when(reads("tangent"@), seq![
        BindingView::Attribute { name: "tangent"@, buffer: m.tangents()->Some_0.id_spec(), components: 4, divisor: 0 },
    ]) + when(reads("color"@), seq![
        BindingView::Attribute { name: "color"@, buffer: m.colors()->Some_0.id_spec(), components: 4, divisor: 0 },
    ])
}

/// The draw that covers a whole mesh: indexed where it has indices, else one
/// triangle per three vertices.
pub open spec fn mesh_draw(m: Mesh, blending: Blending, cull: Cull, viewport: Viewport) -> DrawCall {
    match m.indices() {
        Some(ib) => DrawCall::Elements { blending, cull, viewport, elements: ib.id_spec(), count: ib.contents().len() as u32 },
        None => DrawCall::Arrays {
            blending,
            cull,
            viewport,
            vertex_count: (m.positions().contents().len() as u32) / 3,
            instance_count: 1,
        },
    }
}

/// The device name of an optional buffer.
pub open spec fn opt_id(o: Option<VertexBuffer>) -> Option<u32> {
    match o {
        Some(b) => Some(b.id_spec()),
        None => None,
    }
}

/// Two optional names are not the same name.
pub open spec fn apart(a: Option<u32>, b: Option<u32>) -> bool {
    a is Some && b is Some ==> a != b
}

/// The commands that make an optional buffer and fill it.
pub open spec fn upload_log(o: Option<VertexBuffer>) -> Seq<CommandView> {
    match o {
        Some(b) => seq![
            CommandView::Create { kind: ObjectKind::Buffer, id: b.id_spec() },
            CommandView::BufferData { id: b.id_spec(), words: b.contents() },
        ],
        None => Seq::empty(),
    }
}

/// The commands that make an optional element buffer and fill it.
pub open spec fn element_log(o: Option<ElementBuffer>) -> Seq<CommandView> {
    match o {
        Some(ib) => seq![
            CommandView::Create { kind: ObjectKind::Buffer, id: ib.id_spec() },
            CommandView::ElementData { id: ib.id_spec(), width: ib.width_spec(), indices: ib.contents() },
        ],
        None => Seq::empty(),
    }
}

/// The command that releases an optional buffer.
pub open spec fn release_log(o: Option<VertexBuffer>) -> Seq<CommandView> {
    match o {
        Some(b) => seq![CommandView::Delete { kind: ObjectKind::Buffer, id: b.id_spec() }],
        None => Seq::empty(),
    }
}

proof fn lemma_creation_log(
    m: Mesh,
    l0: Seq<CommandView>,
    l1: Seq<CommandView>,
    l2: Seq<CommandView>,
    l3: Seq<CommandView>,
    l4: Seq<CommandView>,
    l5: Seq<CommandView>,
    l6: Seq<CommandView>,
)
    requires
        l1 == l0 + upload_log(Some(m.positions())),
        l2 == l1 + upload_log(m.normals()),
        l3 == l2 + upload_log(m.tangents()),
        l4 == l3 + element_log(m.indices()),
        l5 == l4 + upload_log(m.uvs()),
        l6 == l5 + upload_log(m.colors()),
    ensures
        l6 == l0 + m.creation_log(),
{
    assert(l6 =~= l0 + m.creation_log());
}

/// Releases an optional buffer.
fn release(context: &mut Context, o: Option<VertexBuffer>)
    requires
        old(context).wf(),
        o matches Some(b) ==> old(context).live().contains((ObjectKind::Buffer, b.id_spec())),
    ensures
        final(context).wf(),
        final(context).live() == old(context).live() - buffer_set(o),
        final(context).names_left() == old(context).names_left(),
        final(context).log() == old(context).log() + release_log(o),
{
    match o {
        Some(b) => {
            b.destroy(context);
            assert(context.live() =~= old(context).live() - buffer_set(Some(b)));
            assert(context.log() =~= old(context).log() + release_log(Some(b)));
        },
        None => {
            assert(context.live() =~= old(context).live() - buffer_set(None));
            assert(context.log() =~= old(context).log() + release_log(None));
        },
    }
}

/// What drawing mesh `m` with program `p` does, from log `before` to log
/// `after` with result `r`: it fails with the first input the mesh lacks, or
/// with a missing binding, issuing nothing; otherwise it hands `p` the
/// material's values and the mesh's own that `p` reads, then draws.
pub open spec fn draw_outcome(
    m: Mesh,
    p: Program,
    material: Seq<BindingView>,
    camera: u32,
    blending: Blending,
    cull: Cull,
    viewport: Viewport,
    before: Seq<CommandView>,
    r: Result<(), Error>,
    after: Seq<CommandView>,
) -> bool {
    &&& r is Err ==> after == before
    &&& missing_buffer(m, p) matches Some(a) ==> r == Err::<(), Error>(Error::MissingMeshBuffer { attribute: a })
    &&& missing_buffer(m, p) is None ==> ({
        let all = material + mesh_bindings(m, p, camera);
        &&& (r is Ok <==> p.complete(all))
        &&& (r is Ok ==> after == before + p.bind_commands(all).push(
            CommandView::Draw { program: p.id_spec(), call: mesh_draw(m, blending, cull, viewport) },
        ))
        &&& (r matches Err(e) ==> e is MissingBinding)
    })
}

/// A triangle mesh whose per-vertex data lives on the device.
pub struct Mesh {
    position_buffer: VertexBuffer,
    normal_buffer: Option<VertexBuffer>,
    tangent_buffer: Option<VertexBuffer>,
    uv_buffer: Option<VertexBuffer>,
    color_buffer: Option<VertexBuffer>,
    index_buffer: Option<ElementBuffer>,
    transformation: [u32; 16],
    texture_transform: [u32; 9],
}

impl Mesh {
    pub closed spec fn positions(&self) -> VertexBuffer {
        self.position_buffer
    }

    pub closed spec fn normals(&self) -> Option<VertexBuffer> {
        self.normal_buffer
    }

    pub closed spec fn tangents(&self) -> Option<VertexBuffer> {
        self.tangent_buffer
    }

    pub closed spec fn uvs(&self) -> Option<VertexBuffer> {
        self.uv_buffer
    }

    pub closed spec fn colors(&self) -> Option<VertexBuffer> {
        self.color_buffer
    }

    pub closed spec fn indices(&self) -> Option<ElementBuffer> {
        self.index_buffer
    }

    /// The model transform, column major, as float bit patterns.
    pub closed spec fn transformation_spec(&self) -> [u32; 16] {
        self.transformation
    }

    /// The transform applied to uv coordinates, as float bit patterns.
    pub closed spec fn texture_transform_spec(&self) -> [u32; 9] {
        self.texture_transform
    }

    /// The names of the mesh's buffers, in the order they are made.
    pub open spec fn names(&self) -> Seq<Option<u32>> {
        seq![
            Some(self.positions().id_spec()),
            opt_id(self.normals()),
            opt_id(self.tangents()),
            match self.indices() {
                Some(ib) => Some(ib.id_spec()),
                None => None,
            },
            opt_id(self.uvs()),
            opt_id(self.colors()),
        ]
    }

    pub open spec fn wf(&self) -> bool {
        &&& self.positions().wf()
        &&& (self.indices() matches Some(ib) ==> ib.wf())
        &&& forall|i: int, j: int| 0 <= i < j < 6 ==> apart(#[trigger] self.names()[i], #[trigger] self.names()[j])
    }

    /// The commands that make the mesh's buffers and fill them, in order.
    pub open spec fn creation_log(&self) -> Seq<CommandView> {
        upload_log(Some(self.positions())) + upload_log(self.normals()) + upload_log(self.tangents())
            + element_log(self.indices()) + upload_log(self.uvs()) + upload_log(self.colors())
    }

    /// The commands that release the mesh's buffers, in order.
    pub open spec fn release_log(&self) -> Seq<CommandView> {
        release_log(Some(self.positions())) + release_log(self.normals()) + release_log(self.tangents())
            + match self.indices() {
                Some(ib) => seq![CommandView::Delete { kind: ObjectKind::Buffer, id: ib.id_spec() }],
                None => Seq::empty(),
            } + release_log(self.uvs()) + release_log(self.colors())
    }

    /// The device objects the mesh owns.
    pub open spec fn objects(&self) -> Set<(ObjectKind, u32)> {
        set![(ObjectKind::Buffer, self.positions().id_spec())]
            + buffer_set(self.normals())
            + buffer_set(self.tangents())
            + buffer_set(self.uvs())
            + buffer_set(self.colors())
            + match self.indices() {
                Some(ib) => set![(ObjectKind::Buffer, ib.id_spec())],
                None => Set::empty(),
            }
    }

    /// Makes an optional buffer, where there is data for it.
    fn optional_buffer(context: &mut Context, data: &Option<Vec<u32>>) -> (r: Result<Option<VertexBuffer>, Error>)
        requires
            old(context).wf(),
            data is Some ==> old(context).names_left() > 0,
        ensures
            final(context).wf(),
            r is Ok,
            r matches Ok(o) && buffer_words(o) == opt_words(*data)
                && final(context).names_left() == old(context).names_left() - (if data is Some { 1nat } else { 0 })
                && (o matches Some(b) ==> b.wf() && !old(context).live().contains((ObjectKind::Buffer, b.id_spec())))
                && final(context).live() == old(context).live() + buffer_set(o),
            r matches Ok(o) && final(context).log() == old(context).log() + upload_log(o),
    {
        match data {
            Some(v) => {
                let b = VertexBuffer::new_with_static(context, v.as_slice())?;
                assert(context.live() =~= old(context).live() + buffer_set(Some(b)));
                assert(context.log() =~= old(context).log() + upload_log(Some(b)));
                Ok(Some(b))
            },
            None => {
                assert(context.live() =~= old(context).live() + buffer_set(None));
                assert(context.log() =~= old(context).log() + upload_log(None));
                Ok(None)
            },
        }
    }

    /// Makes an element buffer, where there are indices for it.
    fn optional_elements(context: &mut Context, indices: &Option<Indices>) -> (r: Result<Option<ElementBuffer>, Error>)
        requires
            old(context).wf(),
            indices is Some ==> old(context).names_left() > 0,
        ensures
            final(context).wf(),
            r is Ok,
            r matches Ok(o) && (o is Some <==> indices is Some)
                && final(context).names_left() == old(context).names_left() - (if indices is Some { 1nat } else { 0 })
                && (o matches Some(ib) ==> ib.wf() && !old(context).live().contains((ObjectKind::Buffer, ib.id_spec()))
                    && ib.contents() == index_values(indices->Some_0) && ib.width_spec() == index_width(indices->Some_0))
                && final(context).live() == old(context).live() + match o {
                    Some(ib) => set![(ObjectKind::Buffer, ib.id_spec())],
                    None => Set::empty(),
                }
                && final(context).log() == old(context).log() + element_log(o),
    {
        match indices {
            Some(ind) => {
                let ib = ElementBuffer::new_with(context, ind)?;
                assert(context.live() =~= old(context).live() + set![(ObjectKind::Buffer, ib.id_spec())]);
                assert(context.log() =~= old(context).log() + element_log(Some(ib)));
                Ok(Some(ib))
            },
            None => {
                assert(context.live() =~= old(context).live() + Set::empty());
                assert(context.log() =~= old(context).log() + element_log(None));
                Ok(None)
            },
        }
    }

    /// Copies the per-vertex data of `cpu_mesh` to the device. Succeeds
    /// exactly when the device can name every buffer it needs; otherwise it
    /// creates nothing.
    #[verifier::rlimit(60)]
    pub fn new(context: &mut Context, cpu_mesh: &CpuMesh) -> (r: Result<Mesh, Error>)
        requires
            old(context).wf(),
        ensures
            final(context).wf(),
            r is Ok <==> old(context).names_left() >= buffers_needed(*cpu_mesh),
            match r {
                Ok(m) => {
                    &&& m.wf()
                    &&& m.positions().contents() == cpu_mesh.positions@
                    &&& buffer_words(m.normals()) == opt_words(cpu_mesh.normals)
                    &&& buffer_words(m.tangents()) == opt_words(cpu_mesh.tangents)
                    &&& buffer_words(m.uvs()) == opt_words(cpu_mesh.uvs)
                    &&& buffer_words(m.colors()) == opt_words(cpu_mesh.colors)
                    &&& (m.indices() is Some <==> cpu_mesh.indices is Some)
                    &&& (m.indices() matches Some(ib) ==> ib.contents() == index_values(cpu_mesh.indices->Some_0))
                    &&& m.transformation_spec() == IDENTITY4
                    &&& m.texture_transform_spec() == IDENTITY3
                    &&& old(context).live().disjoint(m.objects())
                    &&& final(context).live() == old(context).live() + m.objects()
                    &&& (m.indices() matches Some(ib) ==> ib.width_spec() == index_width(cpu_mesh.indices->Some_0))
                    &&& final(context).log() == old(context).log() + m.creation_log()
                },
                Err(e) => {
                    &&& e is DeviceError
                    &&& final(context).live() == old(context).live()
                    &&& final(context).log() == old(context).log()
                },
            },
    {
        let mut needed: u32 = 1;
        if cpu_mesh.normals.is_some() { needed = needed + 1; }
        if cpu_mesh.tangents.is_some() { needed = needed + 1; }
        if cpu_mesh.uvs.is_some() { needed = needed + 1; }
        if cpu_mesh.colors.is_some() { needed = needed + 1; }
        if cpu_mesh.indices.is_some() { needed = needed + 1; }
        assert(needed == buffers_needed(*cpu_mesh));
        if context.available_names() < needed {
            return Err(Error::DeviceError { message: String::from_str("not enough object names are left for the mesh") });
        }
        let ghost l0 = context.log();
        let position_buffer = VertexBuffer::new_with_static(context, cpu_mesh.positions.as_slice())?;
        let ghost l1 = context.log();
        let ghost s1 = context.live();
        assert(l1 =~= l0 + upload_log(Some(position_buffer)));
        let normal_buffer = Self::optional_buffer(context, &cpu_mesh.normals)?;
        let ghost l2 = context.log();
        let ghost s2 = context.live();
        let tangent_buffer = Self::optional_buffer(context, &cpu_mesh.tangents)?;
        let ghost l3 = context.log();
        let ghost s3 = context.live();
        let index_buffer = Self::optional_elements(context, &cpu_mesh.indices)?;
        let ghost l4 = context.log();
        let ghost s4 = context.live();
        let uv_buffer = Self::optional_buffer(context, &cpu_mesh.uvs)?;
        let ghost l5 = context.log();
        let ghost s5 = context.live();
        let color_buffer = Self::optional_buffer(context, &cpu_mesh.colors)?;
        let m = Mesh {
            position_buffer,
            normal_buffer,
            tangent_buffer,
            uv_buffer,
            color_buffer,
            index_buffer,
            transformation: IDENTITY4,
            texture_transform: IDENTITY3,
        };
        assert(context.live() =~= old(context).live() + m.objects());
        assert(old(context).live().disjoint(m.objects()));
        assert forall|i: int, j: int| 0 <= i < j < 6 implies apart(#[trigger] m.names()[i], #[trigger] m.names()[j]) by {
            assert(s1.contains((ObjectKind::Buffer, m.positions().id_spec())));
            assert(s1.subset_of(s2) && s2.subset_of(s3) && s3.subset_of(s4) && s4.subset_of(s5));
            if m.names()[j] is Some && m.names()[i] is Some {
                assert(s5.contains((ObjectKind::Buffer, m.names()[i]->Some_0)) || i >= 5);
            }
        }
        proof {
            lemma_creation_log(m, l0, l1, l2, l3, l4, l5, context.log());
        }
        Ok(m)
    }

    /// Releases every buffer of the mesh, once each.
    pub fn destroy(self, context: &mut Context)
        requires
            old(context).wf(),
            self.wf(),
            self.objects().subset_of(old(context).live()),
        ensures
            final(context).wf(),
            final(context).live() == old(context).live() - self.objects(),
            final(context).names_left() == old(context).names_left(),
            final(context).log() == old(context).log() + self.release_log(),
    {
        let ghost objs = self.objects();
        let ghost rl = self.release_log();
        let ghost n = self.names();
        assert(apart(n[0], n[1]) && apart(n[0], n[2]) && apart(n[0], n[3]) && apart(n[0], n[4]) && apart(n[0], n[5]));
        assert(apart(n[1], n[2]) && apart(n[1], n[3]) && apart(n[1], n[4]) && apart(n[1], n[5]));
        assert(apart(n[2], n[3]) && apart(n[2], n[4]) && apart(n[2], n[5]));
        assert(apart(n[3], n[4]) && apart(n[3], n[5]) && apart(n[4], n[5]));
        let Mesh { position_buffer, normal_buffer, tangent_buffer, uv_buffer, color_buffer, index_buffer, .. } = self;
        position_buffer.destroy(context);
        release(context, normal_buffer);
        release(context, tangent_buffer);
        match index_buffer {
            Some(ib) => ib.destroy(context),
            None => {},
        }
        release(context, uv_buffer);
        release(context, color_buffer);
        assert(context.live() =~= old(context).live() - objs);
        assert(context.log() =~= old(context).log() + rl);
    }

    /// The transform applied to the uv coordinates.
    pub fn texture_transform(&mut self) -> (r: &[u32; 9])
        ensures
            *r == old(self).texture_transform_spec(),
            *final(self) == *old(self),
    {
        &self.texture_transform
    }

    /// Sets the transform applied to the uv coordinates.
    pub fn set_texture_transform(&mut self, texture_transform: [u32; 9])
        ensures
            final(self).texture_transform_spec() == texture_transform,
            final(self).transformation_spec() == old(self).transformation_spec(),
            final(self).objects() == old(self).objects(),
            final(self).wf() == old(self).wf(),
            final(self).positions() == old(self).positions(),
            final(self).normals() == old(self).normals(),
            final(self).tangents() == old(self).tangents(),
            final(self).uvs() == old(self).uvs(),
            final(self).colors() == old(self).colors(),
            final(self).indices() == old(self).indices(),
    {
        self.texture_transform = texture_transform;
        assert(self.names() =~= old(self).names());
    }

    /// Whether the mesh has per-vertex colours, which decides the fragment
    /// stage a material chooses.
    pub fn has_colors(&self) -> (r: bool)
        ensures
            r == (self.colors() is Some),
    {
        self.color_buffer.is_some()
    }

    /// The model transform.
    pub fn transformation(&self) -> (r: [u32; 16])
        ensures
            r == self.transformation_spec(),
    {
        self.transformation
    }

    /// Sets the model transform.
    pub fn set_transformation(&mut self, transformation: [u32; 16])
        ensures
            final(self).transformation_spec() == transformation,
            final(self).texture_transform_spec() == old(self).texture_transform_spec(),
            final(self).objects() == old(self).objects(),
            final(self).wf() == old(self).wf(),
            final(self).positions() == old(self).positions(),
            final(self).normals() == old(self).normals(),
            final(self).tangents() == old(self).tangents(),
            final(self).uvs() == old(self).uvs(),
            final(self).colors() == old(self).colors(),
            final(self).indices() == old(self).indices(),
    {
        self.transformation = transformation;
        assert(self.names() =~= old(self).names());
    }

    /// The bindings a draw of the mesh with `program` hands over: the
    /// material's, then the mesh's own; or the first input the mesh lacks.
    #[verifier::rlimit(50)]
    fn bindings_for(
        &self,
        program: &Program,
        material_bindings: Vec<Binding>,
        camera: &UniformBuffer,
    ) -> (r: Result<Vec<Binding>, Error>)
        requires
            self.wf(),
        ensures
            missing_buffer(*self, *program) matches Some(a)
                ==> r == Err::<Vec<Binding>, Error>(Error::MissingMeshBuffer { attribute: a }),
            missing_buffer(*self, *program) is None ==> r is Ok
                && views(r->Ok_0@) == views(material_bindings@) + mesh_bindings(*self, *program, camera.id_spec()),
    {
        let mut bindings = material_bindings;
        let ghost m0 = views(bindings@);
        bindings.push(Binding::UniformBlock { name: String::from_str("Camera"), buffer: camera.id() });
        bindings.push(Binding::UniformMat4 { name: String::from_str("modelMatrix"), value: self.transformation });
        let ghost m1 = views(bindings@);
        assert(m1 =~= m0 + seq![
            BindingView::UniformBlock { name: "Camera"@, buffer: camera.id_spec() },
            BindingView::UniformMat4 { name: "modelMatrix"@, value: self.transformation },
        ]);
        let position = String::from_str("position");
        let reads_position = program.requires_attribute(&position);
        if reads_position {
            bindings.push(Binding::Attribute { name: position, buffer: self.position_buffer.id(), components: 3, divisor: 0 });
        }
        let ghost m2 = views(bindings@);
        assert(m2 =~= m1 + when(reads_position, seq![
            BindingView::Attribute { name: "position"@, buffer: self.position_buffer.id_spec(), components: 3, divisor: 0 },
        ]));
        let uv_name = String::from_str("uv_coordinates");
        let reads_uvs = program.requires_attribute(&uv_name);
        if reads_uvs {
            match &self.uv_buffer {
                Some(b) => {
                    bindings.push(Binding::UniformMat3 { name: String::from_str("textureTransform"), value: self.texture_transform });
                    bindings.push(Binding::Attribute { name: uv_name, buffer: b.id(), components: 2, divisor: 0 });
                },
                None => {
                    return Err(Error::MissingMeshBuffer { attribute: MeshAttribute::UvCoordinates });
                },
            }
        }
        let ghost m3 = views(bindings@);
        assert(m3 =~= m2 + when(reads_uvs, seq![
            BindingView::UniformMat3 { name: "textureTransform"@, value: self.texture_transform },
            BindingView::Attribute { name: "uv_coordinates"@, buffer: self.uv_buffer->Some_0.id_spec(), components: 2, divisor: 0 },
        ]));
        let normal_name = String::from_str("normal");
        let reads_normals = program.requires_attribute(&normal_name);
        let tangent_name = String::from_str("tangent");
        let reads_tangents = program.requires_attribute(&tangent_name);
        if reads_normals {
            match &self.normal_buffer {
                Some(b) => {
                    bindings.push(Binding::Attribute { name: normal_name, buffer: b.id(), components: 3, divisor: 0 });
                    bindings.push(Binding::UniformNormalMatrix { name: String::from_str("normalMatrix"), model: self.transformation });
                },
                None => {
                    return Err(Error::MissingMeshBuffer { attribute: MeshAttribute::Normal });
                },
            }
        }
        if reads_tangents {
            match &self.tangent_buffer {
                Some(b) => {
                    bindings.push(Binding::Attribute { name: tangent_name, buffer: b.id(), components: 4, divisor: 0 });
                },
                None => {
                    return Err(Error::MissingMeshBuffer { attribute: MeshAttribute::Tangent });
                },
            }
        }
        let ghost m4 = views(bindings@);
        assert(m4 =~= m3 + when(reads_normals, seq![
            BindingView::Attribute { name: "normal"@, buffer: self.normal_buffer->Some_0.id_spec(), components: 3, divisor: 0 },
            BindingView::UniformNormalMatrix { name: "normalMatrix"@, model: self.transformation },
        ]) + when(reads_tangents, seq![
            BindingView::Attribute { name: "tangent"@, buffer: self.tangent_buffer->Some_0.id_spec(), components: 4, divisor: 0 },
        ]));
        let color_name = String::from_str("color");
        let reads_colors = program.requires_attribute(&color_name);
        if reads_colors {
            match &self.color_buffer {
                Some(b) => {
                    bindings.push(Binding::Attribute { name: color_name, buffer: b.id(), components: 4, divisor: 0 });
                },
                None => {
                    return Err(Error::MissingMeshBuffer { attribute: MeshAttribute::Color });
                },
            }
        }
        let ghost m5 = views(bindings@);
        assert(m5 =~= m4 + when(reads_colors, seq![
            BindingView::Attribute { name: "color"@, buffer: self.color_buffer->Some_0.id_spec(), components: 4, divisor: 0 },
        ]));
        assert(m5 =~= views(material_bindings@) + mesh_bindings(*self, *program, camera.id_spec()));
        Ok(bindings)
    }

    /// Draws the mesh with a material: its fragment stage and values. Fails,
    /// issuing nothing, with `MissingBitangent` when the fragment stage reads
    /// tangents without bitangents, and with `ProgramNotLinked` when `cache`
    /// holds no program for the pair (`vertex_shader_source` of the fragment
    /// stage, the fragment stage); otherwise draws with that program as
    /// `render_with_program` does.
    pub fn render_with_material(
        &self,
        context: &mut Context,
        cache: &ProgramCache,
        fragment_source: &str,
        material_bindings: Vec<Binding>,
        camera: &UniformBuffer,
        blending: Blending,
        cull: Cull,
        viewport: Viewport,
    ) -> (r: Result<(), Error>)
        requires
            old(context).wf(),
            self.wf(),
            cache.wf(),
        ensures
            final(context).wf(),
            final(context).live() == old(context).live(),
            final(context).names_left() == old(context).names_left(),
            lacks_bitangent(fragment_source.spec_bytes()) ==> r == Err::<(), Error>(Error::MissingBitangent)
                && final(context).log() == old(context).log(),
            !lacks_bitangent(fragment_source.spec_bytes()) ==> ({
                let key = (mesh_vertex_source(fragment_source.spec_bytes()), fragment_source@);
                &&& !cache.programs().contains_key(key) ==> r == Err::<(), Error>(Error::ProgramNotLinked)
                    && final(context).log() == old(context).log()
                &&& cache.programs().contains_key(key) ==> draw_outcome(*self, cache.programs()[key],
                    views(material_bindings@), camera.id_spec(), blending, cull, viewport,
                    old(context).log(), r, final(context).log())
            }),
    {
        let vertex_source = Self::vertex_shader_source(fragment_source)?;
        let fragment = String::from_str(fragment_source);
        match cache.get(&vertex_source, &fragment) {
            Some(program) => self.render_with_program(context, program, material_bindings, camera, blending, cull, viewport),
            None => Err(Error::ProgramNotLinked),
        }
    }

    /// Draws the mesh with `program`, which was linked from
    /// `vertex_shader_source` of a material's fragment stage and that
    /// fragment stage. The material's values come first, then the camera
    /// block, the model transform and each per-vertex input the program reads.
    /// Fails, issuing nothing, when the program reads an input the mesh lacks
    /// or requires an input that nothing binds.
    pub fn render_with_program(
        &self,
        context: &mut Context,
        program: &Program,
        material_bindings: Vec<Binding>,
        camera: &UniformBuffer,
        blending: Blending,
        cull: Cull,
        viewport: Viewport,
    ) -> (r: Result<(), Error>)
        requires
            old(context).wf(),
            self.wf(),
        ensures
            final(context).wf(),
            final(context).live() == old(context).live(),
            final(context).names_left() == old(context).names_left(),
            draw_outcome(*self, *program, views(material_bindings@), camera.id_spec(), blending, cull, viewport,
                old(context).log(), r, final(context).log()),
    {
        let bindings = self.bindings_for(program, material_bindings, camera)?;
        let call = match &self.index_buffer {
            Some(ib) => DrawCall::Elements { blending, cull, viewport, elements: ib.id(), count: ib.count() as u32 },
            None => DrawCall::Arrays {
                blending,
                cull,
                viewport,
                vertex_count: (self.position_buffer.count() as u32) / 3,
                instance_count: 1,
            },
        };
        program.draw(context, bindings, call)
    }

    /// Builds the vertex stage that feeds `fragment_shader_source`: a define
    /// for each input it declares, then the shared functions and the mesh
    /// vertex stage. A fragment stage that reads tangents must also declare
    /// bitangents; otherwise this fails before anything is compiled.
    pub fn vertex_shader_source(fragment_shader_source: &str) -> (r: Result<String, Error>)
        ensures
            lacks_bitangent(fragment_shader_source.spec_bytes()) ==> r == Err::<String, Error>(Error::MissingBitangent),
            !lacks_bitangent(fragment_shader_source.spec_bytes()) ==> r is Ok
                && r->Ok_0@ == mesh_vertex_source(fragment_shader_source.spec_bytes()),
    {
        let use_positions = source_declares(fragment_shader_source, "in vec3 pos;");
        let use_normals = source_declares(fragment_shader_source, "in vec3 nor;");
        let use_tangents = source_declares(fragment_shader_source, "in vec3 tang;");
        let use_uvs = source_declares(fragment_shader_source, "in vec2 uvs;");
        let use_colors = source_declares(fragment_shader_source, "in vec4 col;");
        if use_tangents && !source_declares(fragment_shader_source, "in vec3 bitang;") {
            return Err(Error::MissingBitangent);
        }
        let mut out = String::new();
        if use_positions {
            out.append("#define USE_POSITIONS\n");
        }
        if use_normals {
            out.append("#define USE_NORMALS\n");
        }
        if use_tangents {
            out.append("#define USE_TANGENTS\n");
        }
        if use_uvs {
            out.append("#define USE_UVS\n");
        }
        if use_colors {
            out.append("#define USE_COLORS\n");
        }
        out.append(SHARED_SHADER_SOURCE);
        out.append(MESH_VERTEX_SOURCE);
        assert(out@ =~= mesh_vertex_source(fragment_shader_source.spec_bytes()));
        Ok(out)
    }
}

} // verus!
