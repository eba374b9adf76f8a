use vstd::prelude::*;
use vstd::string::StringExecFns;
use crate::buffer::VertexBuffer;
use crate::context::{Binding, BindingView, Blending, Command, CommandView, Context, Cull, DrawCall, ObjectKind, Viewport};
use crate::error::Error;
use crate::mesh::SHARED_SHADER_SOURCE;
use crate::program::{name_views, views, Program};
use crate::texture::{Format, Interpolation, Texture, TextureDesc, Wrapping};
use crate::uniform_buffer::UniformBuffer;

verus! {

/// The number of directions, evenly spaced around the vertical axis, from
/// which an object is baked.
pub const NO_VIEW_ANGLES: u32 = 8;

/// The vertex stage of the imposter billboards.
pub const IMPOSTER_VERTEX_SOURCE: &'static str = "\nlayout (std140) uniform Camera\n{\n    mat4 viewProjection;\n    mat4 view;\n    mat4 projection;\n    vec3 position;\n    float padding;\n} camera;\n\nin vec3 position;\nin vec2 uv_coordinate;\nin vec3 center;\nin float theta;\nout vec2 uv;\nout float angle;\n\nvoid main()\n{\n    vec3 right = normalize(vec3(camera.view[0][0], 0.0, camera.view[2][0]));\n    vec3 world = center + position.x * right + vec3(0.0, position.y, 0.0);\n    vec3 dir = normalize(camera.position - center);\n    angle = atan(dir.x, dir.z) - theta;\n    uv = uv_coordinate;\n    gl_Position = camera.viewProjection * vec4(world, 1.0);\n}\n";

/// The fragment stage of the imposter billboards; it follows the shared functions.
pub const IMPOSTER_FRAGMENT_SOURCE: &'static str = "\nuniform sampler2DArray tex;\nuniform int no_views;\nin vec2 uv;\nin float angle;\nlayout (location = 0) out vec4 color;\n\nvoid main()\n{\n    float step = 6.2831853 / float(no_views);\n    float a = mod(angle + 0.5 * step, 6.2831853);\n    float layer = mod(floor(a / step), float(no_views));\n    color = texture(tex, vec3(uv.x, uv.y, layer));\n    if (color.a < 0.5) {\n        discard;\n    }\n}\n";

/// The texture coordinates of the two triangles of a billboard, as float bit patterns.
pub const BILLBOARD_UVS: [u32; 12] = [
    0, 0, 1065353216, 0, 1065353216, 1065353216,
    1065353216, 1065353216, 0, 1065353216, 0, 0,
];

/// The colour texture array that holds one baked view per layer.
pub open spec fn view_array_desc(width: u32, height: u32) -> TextureDesc {
    TextureDesc {
        width,
        height,
        layers: NO_VIEW_ANGLES,
        min_filter: Interpolation::Nearest,
        mag_filter: Interpolation::Nearest,
        mip_filter: None,
        wrap_s: Wrapping::ClampToEdge,
        wrap_t: Wrapping::ClampToEdge,
        format: Format::RGBA8,
    }
}

/// The depth texture array used while baking the views.
pub open spec fn depth_array_desc(width: u32, height: u32) -> TextureDesc {
    TextureDesc {
        width,
        height,
        layers: NO_VIEW_ANGLES,
        min_filter: Interpolation::Nearest,
        mag_filter: Interpolation::Nearest,
        mip_filter: None,
        wrap_s: Wrapping::ClampToEdge,
        wrap_t: Wrapping::ClampToEdge,
        format: Format::Depth32F,
    }
}

fn view_array(width: u32, height: u32, format: Format) -> (r: TextureDesc)
    ensures
        format == Format::RGBA8 ==> r == view_array_desc(width, height),
        format == Format::Depth32F ==> r == depth_array_desc(width, height),
{
    TextureDesc {
        width,
        height,
        layers: NO_VIEW_ANGLES,
        min_filter: Interpolation::Nearest,
        mag_filter: Interpolation::Nearest,
        mip_filter: None,
        wrap_s: Wrapping::ClampToEdge,
        wrap_t: Wrapping::ClampToEdge,
        format,
    }
}

/// Draws an object, seen from one of the baked directions, into the target
/// that is current. Implemented by the caller of `Imposters::update_texture`.
/// A rebake of the imposter views in progress. The caller asks `next_view`
/// which view to draw and into which viewport, brackets its drawing with
/// `begin_view` and `end_view` (handing over how the drawing went), and hands
/// the finished bake to `Imposters::finish_texture`. The first failed view
/// ends the bake.
pub struct TextureBake {
    color: u32,
    depth: Texture,
    width: u32,
    height: u32,
    next: u32,
    drawing: bool,
    failure: Option<Error>,
}

impl TextureBake {
    /// The colour texture array being baked into.
    pub closed spec fn color(&self) -> u32 {
        self.color
    }

    /// The depth texture array used while baking.
    pub closed spec fn depth(&self) -> Texture {
        self.depth
    }

    /// The size of both arrays' layers.
    pub closed spec fn size(&self) -> (u32, u32) {
        (self.width, self.height)
    }

    /// How many views were drawn without failure.
    pub closed spec fn done(&self) -> u32 {
        self.next
    }

    /// Whether a view was begun and not yet ended.
    pub closed spec fn drawing_spec(&self) -> bool {
        self.drawing
    }

    /// The failure of the view that ended the bake, if one did.
    pub closed spec fn failure(&self) -> Option<Error> {
        self.failure
    }

    pub closed spec fn wf(&self) -> bool {
        &&& self.next <= NO_VIEW_ANGLES
        &&& (self.failure is Some ==> self.next < NO_VIEW_ANGLES && !self.drawing)
        &&& (self.drawing ==> self.next < NO_VIEW_ANGLES)
    }

    /// The view to draw next and its viewport, the whole layer: `None` once
    /// every view is drawn or one failed.
    pub open spec fn next_spec(&self) -> Option<(u32, Viewport)> {
        if self.failure() is None && self.done() < NO_VIEW_ANGLES {
            Some((self.done(), Viewport { x: 0, y: 0, width: self.size().0, height: self.size().1 }))
        } else {
            None
        }
    }

    pub fn next_view(&self) -> (r: Option<(u32, Viewport)>)
        requires
            self.wf(),
        ensures
            r == self.next_spec(),
    {
        if self.failure.is_none() && self.next < NO_VIEW_ANGLES {
            Some((self.next, Viewport::new_at_origo(self.width, self.height)))
        } else {
            None
        }
    }

    /// Makes the layer of the next view the target, cleared to transparent
    /// black and the farthest depth.
    pub fn begin_view(&mut self, context: &mut Context)
        requires
            old(self).wf(),
            old(context).wf(),
            old(self).next_spec() is Some,
            !old(self).drawing_spec(),
        ensures
            final(self).wf(),
            final(self).drawing_spec(),
            final(self).color() == old(self).color(),
            final(self).depth() == old(self).depth(),
            final(self).size() == old(self).size(),
            final(self).done() == old(self).done(),
            final(self).failure() == old(self).failure(),
            final(context).wf(),
            final(context).live() == old(context).live(),
            final(context).names_left() == old(context).names_left(),
            final(context).log() == old(context).log().push(
                CommandView::BeginLayer { color: old(self).color(), depth: old(self).depth().id_spec(), layer: old(self).done() },
            ),
    {
        context.issue(Command::BeginLayer { color: self.color, depth: self.depth.id(), layer: self.next });
        self.drawing = true;
    }

    /// Ends drawing the current view with how it went: a success moves on
    /// to the next view, a failure ends the bake.
    pub fn end_view(&mut self, context: &mut Context, outcome: Result<(), Error>)
        requires
            old(self).wf(),
            old(context).wf(),
            old(self).drawing_spec(),
        ensures
            final(self).wf(),
            !final(self).drawing_spec(),
            final(self).color() == old(self).color(),
            final(self).depth() == old(self).depth(),
            final(self).size() == old(self).size(),
            outcome is Ok ==> final(self).done() == old(self).done() + 1 && final(self).failure() is None,
            outcome matches Err(e) ==> final(self).done() == old(self).done() && final(self).failure() == Some(e),
            final(context).wf(),
            final(context).live() == old(context).live(),
            final(context).names_left() == old(context).names_left(),
            final(context).log() == old(context).log().push(CommandView::EndTarget),
    {
        context.issue(Command::EndTarget);
        self.drawing = false;
        match outcome {
            Ok(()) => {
                self.next = self.next + 1;
            },
            Err(e) => {
                self.failure = Some(e);
            },
        }
    }
}

/// A bake that stopped asking for views with no failure drew every view,
/// each into its own layer.
pub proof fn lemma_bake_complete(bake: TextureBake)
    requires
        bake.wf(),
        bake.next_spec() is None,
        bake.failure() is None,
    ensures
        bake.done() == NO_VIEW_ANGLES,
{
}

/// A level-of-detail stand-in for a mesh: the mesh is rendered once from
/// several directions into the layers of a texture array, and many instances
/// are then drawn as camera-facing billboards that pick the nearest view.
pub struct Imposters {
    program: Program,
    center_buffer: VertexBuffer,
    rotation_buffer: VertexBuffer,
    positions_buffer: VertexBuffer,
    uvs_buffer: VertexBuffer,
    instance_count: u32,
    texture: Texture,
}

/// The values the imposters hand their program for one draw.
pub open spec fn imposter_bindings(im: Imposters, camera: u32) -> Seq<BindingView> {
    seq![
        BindingView::UniformInt { name: "no_views"@, value: NO_VIEW_ANGLES as i32 },
        BindingView::UniformBlock { name: "Camera"@, buffer: camera },
        BindingView::Texture { name: "tex"@, texture: im.texture().id_spec() },
        BindingView::Attribute { name: "position"@, buffer: im.positions().id_spec(), components: 3, divisor: 0 },
        BindingView::Attribute { name: "uv_coordinate"@, buffer: im.uvs().id_spec(), components: 2, divisor: 0 },
        BindingView::Attribute { name: "center"@, buffer: im.centers().id_spec(), components: 3, divisor: 1 },
        BindingView::Attribute { name: "theta"@, buffer: im.rotations().id_spec(), components: 1, divisor: 1 },
    ]
}

impl Imposters {
    pub closed spec fn program(&self) -> Program {
        self.program
    }

    pub closed spec fn centers(&self) -> VertexBuffer {
        self.center_buffer
    }

    pub closed spec fn rotations(&self) -> VertexBuffer {
        self.rotation_buffer
    }

    pub closed spec fn positions(&self) -> VertexBuffer {
        self.positions_buffer
    }

    pub closed spec fn uvs(&self) -> VertexBuffer {
        self.uvs_buffer
    }

    pub closed spec fn texture(&self) -> Texture {
        self.texture
    }

    pub closed spec fn instance_count_spec(&self) -> u32 {
        self.instance_count
    }

    /// The names of the four buffers.
    pub open spec fn buffer_names(&self) -> Seq<u32> {
        seq![self.positions().id_spec(), self.uvs().id_spec(), self.centers().id_spec(), self.rotations().id_spec()]
    }

    /// The commands that make the imposters' objects, in order: the position
    /// buffer, the filled uv buffer, the program from its two stages, the
    /// centre and rotation buffers, and the 1x1 view texture array.
    pub open spec fn creation_log(&self) -> Seq<CommandView> {
        seq![
            CommandView::Create { kind: ObjectKind::Buffer, id: self.positions().id_spec() },
            CommandView::Create { kind: ObjectKind::Buffer, id: self.uvs().id_spec() },
            CommandView::BufferData { id: self.uvs().id_spec(), words: BILLBOARD_UVS@ },
            CommandView::Create { kind: ObjectKind::Program, id: self.program().id_spec() },
            CommandView::ProgramSource {
                id: self.program().id_spec(),
                vertex_source: IMPOSTER_VERTEX_SOURCE@,
                fragment_source: SHARED_SHADER_SOURCE@ + IMPOSTER_FRAGMENT_SOURCE@,
            },
            CommandView::Create { kind: ObjectKind::Buffer, id: self.centers().id_spec() },
            CommandView::Create { kind: ObjectKind::Buffer, id: self.rotations().id_spec() },
            CommandView::Create { kind: ObjectKind::Texture, id: self.texture().id_spec() },
            CommandView::TextureStorage { id: self.texture().id_spec(), desc: view_array_desc(1, 1) },
        ]
    }

    /// The commands that release the imposters' objects, in order.
    pub open spec fn release_log(&self) -> Seq<CommandView> {
        seq![
            CommandView::Delete { kind: ObjectKind::Buffer, id: self.positions().id_spec() },
            CommandView::Delete { kind: ObjectKind::Buffer, id: self.uvs().id_spec() },
            CommandView::Delete { kind: ObjectKind::Program, id: self.program().id_spec() },
            CommandView::Delete { kind: ObjectKind::Buffer, id: self.centers().id_spec() },
            CommandView::Delete { kind: ObjectKind::Buffer, id: self.rotations().id_spec() },
            CommandView::Delete { kind: ObjectKind::Texture, id: self.texture().id_spec() },
        ]
    }

    /// The device objects the imposters own.
    pub open spec fn objects(&self) -> Set<(ObjectKind, u32)> {
        set![
            (ObjectKind::Buffer, self.positions().id_spec()),
            (ObjectKind::Buffer, self.uvs().id_spec()),
            (ObjectKind::Program, self.program().id_spec()),
            (ObjectKind::Buffer, self.centers().id_spec()),
            (ObjectKind::Buffer, self.rotations().id_spec()),
            (ObjectKind::Texture, self.texture().id_spec()),
        ]
    }

    pub open spec fn wf(&self) -> bool {
        &&& self.centers().wf()
        &&& self.rotations().wf()
        &&& self.positions().wf()
        &&& self.uvs().wf()
        &&& self.buffer_names().no_duplicates()
    }

    pub fn instance_count(&self) -> (r: u32)
        ensures
            r == self.instance_count_spec(),
    {
        self.instance_count
    }

    pub fn texture_desc(&self) -> (r: TextureDesc)
        ensures
            r == self.texture().desc_spec(),
    {
        self.texture.desc()
    }

    /// The vertex and fragment stages of the billboard program, to be linked
    /// for `new`.
    pub fn shader_sources() -> (r: (String, String))
        ensures
            r.0@ == IMPOSTER_VERTEX_SOURCE@,
            r.1@ == SHARED_SHADER_SOURCE@ + IMPOSTER_FRAGMENT_SOURCE@,
    {
        let vertex = String::from_str(IMPOSTER_VERTEX_SOURCE);
        let mut fragment = String::from_str(SHARED_SHADER_SOURCE);
        fragment.append(IMPOSTER_FRAGMENT_SOURCE);
        (vertex, fragment)
    }

    /// Sets up the billboard program (from the outcome of linking
    /// `shader_sources`), its buffers and a 1x1 texture array with a layer per
    /// view. Fails, creating nothing, on a failed link or when the device
    /// cannot name six objects.
    pub fn new(context: &mut Context, link: Result<(Vec<String>, Vec<String>), String>) -> (r: Result<Imposters, Error>)
        requires
            old(context).wf(),
        ensures
            final(context).wf(),
            link is Err ==> r == Err::<Imposters, Error>(Error::ShaderCompileError { message: link->Err_0 }),
            link is Ok ==> (r is Ok <==> old(context).names_left() >= 6),
            r is Err ==> final(context).live() == old(context).live() && final(context).log() == old(context).log(),
            r matches Ok(im) ==> {
                &&& im.wf()
                &&& im.instance_count_spec() == 0
                &&& im.texture().desc_spec() == view_array_desc(1, 1)
                &&& im.uvs().contents() == BILLBOARD_UVS@
                &&& im.positions().contents() == Seq::<u32>::empty()
                &&& im.centers().contents() == Seq::<u32>::empty()
                &&& im.rotations().contents() == Seq::<u32>::empty()
                &&& im.program().attribute_names() == name_views(link->Ok_0.0@)
                &&& im.program().uniform_names() == name_views(link->Ok_0.1@)
                &&& old(context).live().disjoint(im.objects())
                &&& final(context).live() == old(context).live() + im.objects()
                &&& final(context).log() == old(context).log() + im.creation_log()
            },
    {
        if let Err(message) = link {
            return Err(Error::ShaderCompileError { message });
        }
        if context.available_names() < 6 {
            return Err(Error::DeviceError { message: String::from_str("not enough object names are left for the imposters") });
        }
        let ghost l0 = context.log();
        let positions_buffer = VertexBuffer::new(context)?;
        let ghost l1 = context.log();
        let uvs_buffer = VertexBuffer::new_with_static(context, BILLBOARD_UVS.as_slice())?;
        let ghost l2 = context.log();
        let (vertex_source, fragment_source) = Self::shader_sources();
        let program = Program::from_link(context, vertex_source, fragment_source, link)?;
        let ghost l3 = context.log();
        let center_buffer = VertexBuffer::new(context)?;
        let ghost l4 = context.log();
        let rotation_buffer = VertexBuffer::new(context)?;
        let ghost l5 = context.log();
        let texture = Texture::new(context, view_array(1, 1, Format::RGBA8))?;
        let im = Imposters {
            program,
            center_buffer,
            rotation_buffer,
            positions_buffer,
            uvs_buffer,
            instance_count: 0,
            texture,
        };
        assert(context.live() =~= old(context).live() + im.objects());
        assert(im.buffer_names().no_duplicates());
        assert(context.log() =~= l0 + im.creation_log());
        Ok(im)
    }

    /// Starts baking the views again into a new `texture_width` by
    /// `texture_height` colour texture array with a layer per view, which
    /// replaces the old one whole, with a depth array of the same size. Fails,
    /// changing nothing, only when the device cannot name the two arrays.
    pub fn update_texture(
        &mut self,
        context: &mut Context,
        texture_width: u32,
        texture_height: u32,
    ) -> (r: Result<TextureBake, Error>)
        requires
            old(context).wf(),
            old(self).wf(),
            old(context).live().contains((ObjectKind::Texture, old(self).texture().id_spec())),
        ensures
            final(context).wf(),
            final(self).wf(),
            final(self).program() == old(self).program(),
            final(self).centers() == old(self).centers(),
            final(self).rotations() == old(self).rotations(),
            final(self).uvs() == old(self).uvs(),
            final(self).positions() == old(self).positions(),
            final(self).instance_count_spec() == old(self).instance_count_spec(),
            r is Ok <==> old(context).names_left() >= 2,
            r is Err ==> r->Err_0 is DeviceError && *final(self) == *old(self)
                && final(context).live() == old(context).live() && final(context).log() == old(context).log(),
            r matches Ok(bake) ==> {
                &&& bake.wf()
                &&& bake.color() == final(self).texture().id_spec()
                &&& bake.size() == (texture_width, texture_height)
                &&& bake.done() == 0
                &&& bake.failure() is None
                &&& !bake.drawing_spec()
                &&& final(self).texture().desc_spec() == view_array_desc(texture_width, texture_height)
                &&& bake.depth().desc_spec() == depth_array_desc(texture_width, texture_height)
                &&& !old(context).live().contains((ObjectKind::Texture, bake.color()))
                &&& !old(context).live().remove((ObjectKind::Texture, old(self).texture().id_spec())).contains(
                    (ObjectKind::Texture, bake.depth().id_spec()),
                )
                &&& bake.color() != bake.depth().id_spec()
                &&& final(context).live() == old(context).live().remove(
                    (ObjectKind::Texture, old(self).texture().id_spec()),
                ).insert((ObjectKind::Texture, bake.color())).insert((ObjectKind::Texture, bake.depth().id_spec()))
                &&& final(context).log() == old(context).log() + seq![
                    CommandView::Create { kind: ObjectKind::Texture, id: bake.color() },
                    CommandView::TextureStorage { id: bake.color(), desc: view_array_desc(texture_width, texture_height) },
                    CommandView::Delete { kind: ObjectKind::Texture, id: old(self).texture().id_spec() },
                    CommandView::Create { kind: ObjectKind::Texture, id: bake.depth().id_spec() },
                    CommandView::TextureStorage {
                        id: bake.depth().id_spec(),
                        desc: depth_array_desc(texture_width, texture_height),
                    },
                ]
            },
    {
        if context.available_names() < 2 {
            return Err(Error::DeviceError { message: String::from_str("not enough object names are left for the view textures") });
        }
        let color = Texture::new(context, view_array(texture_width, texture_height, Format::RGBA8))?;
        let mut previous = color;
        std::mem::swap(&mut self.texture, &mut previous);
        previous.destroy(context);
        let depth = Texture::new(context, view_array(texture_width, texture_height, Format::Depth32F))?;
        let bake = TextureBake {
            color: self.texture.id(),
            depth,
            width: texture_width,
            height: texture_height,
            next: 0,
            drawing: false,
            failure: None,
        };
        assert(context.log() =~= old(context).log() + seq![
            CommandView::Create { kind: ObjectKind::Texture, id: bake.color },
            CommandView::TextureStorage { id: bake.color, desc: view_array_desc(texture_width, texture_height) },
            CommandView::Delete { kind: ObjectKind::Texture, id: old(self).texture().id_spec() },
            CommandView::Create { kind: ObjectKind::Texture, id: bake.depth.id_spec() },
            CommandView::TextureStorage { id: bake.depth.id_spec(), desc: depth_array_desc(texture_width, texture_height) },
        ]);
        Ok(bake)
    }

    /// Ends a bake: releases its depth array and, when every view was drawn
    /// without failure, uploads `quad`, the six corners (three values each)
    /// of the billboard that spans the baked object, and succeeds; otherwise
    /// hands back the failure that ended the bake.
    pub fn finish_texture(&mut self, context: &mut Context, bake: TextureBake, quad: &[u32]) -> (r: Result<(), Error>)
        requires
            old(context).wf(),
            old(self).wf(),
            bake.wf(),
            bake.next_spec() is None,
            bake.color() == old(self).texture().id_spec(),
            old(context).live().contains((ObjectKind::Texture, bake.depth().id_spec())),
        ensures
            final(context).wf(),
            final(self).wf(),
            final(self).program() == old(self).program(),
            final(self).centers() == old(self).centers(),
            final(self).rotations() == old(self).rotations(),
            final(self).uvs() == old(self).uvs(),
            final(self).texture() == old(self).texture(),
            final(self).positions().id_spec() == old(self).positions().id_spec(),
            final(self).instance_count_spec() == old(self).instance_count_spec(),
            final(context).live() == old(context).live().remove((ObjectKind::Texture, bake.depth().id_spec())),
            bake.failure() matches Some(e) ==> {
                &&& r == Err::<(), Error>(e)
                &&& final(self).positions() == old(self).positions()
                &&& final(context).log() == old(context).log().push(
                    CommandView::Delete { kind: ObjectKind::Texture, id: bake.depth().id_spec() },
                )
            },
            bake.failure() is None ==> {
                &&& r is Ok
                &&& final(self).positions().contents() == quad@
                &&& final(context).log() == old(context).log().push(
                    CommandView::Delete { kind: ObjectKind::Texture, id: bake.depth().id_spec() },
                ).push(CommandView::BufferData { id: old(self).positions().id_spec(), words: quad@ })
            },
    {
        let TextureBake { depth, failure, .. } = bake;
        depth.destroy(context);
        match failure {
            Some(e) => Err(e),
            None => {
                self.positions_buffer.fill_with_dynamic(context, quad);
                Ok(())
            },
        }
    }

    /// Releases the program, the buffers and the texture array, once each.
    pub fn destroy(self, context: &mut Context)
        requires
            old(context).wf(),
            self.wf(),
            self.objects().subset_of(old(context).live()),
        ensures
            final(context).wf(),
            final(context).live() == old(context).live() - self.objects(),
            final(context).names_left() == old(context).names_left(),
            final(context).log() == old(context).log() + self.release_log(),
    {
        let ghost objs = self.objects();
        let ghost rl = self.release_log();
        let ghost n = self.buffer_names();
        assert(n[0] != n[1] && n[0] != n[2] && n[0] != n[3] && n[1] != n[2] && n[1] != n[3] && n[2] != n[3]);
        let Imposters { program, center_buffer, rotation_buffer, positions_buffer, uvs_buffer, texture, .. } = self;
        positions_buffer.destroy(context);
        uvs_buffer.destroy(context);
        program.destroy(context);
        center_buffer.destroy(context);
        rotation_buffer.destroy(context);
        texture.destroy(context);
        assert(context.live() =~= old(context).live() - objs);
        assert(context.log() =~= old(context).log() + rl);
    }

    /// Hands the per-instance positions (three values each) and rotations
    /// about the vertical axis (one each) to the device; one billboard is
    /// drawn per position.
    pub fn update_positions(&mut self, context: &mut Context, positions: &[u32], angles_in_radians: &[u32])
        requires
            old(context).wf(),
            old(self).wf(),
        ensures
            final(self).wf(),
            final(context).wf(),
            final(context).live() == old(context).live(),
            final(self).centers().contents() == positions@,
            final(self).rotations().contents() == angles_in_radians@,
            final(self).instance_count_spec() == (positions@.len() as u32) / 3,
            final(self).centers().id_spec() == old(self).centers().id_spec(),
            final(self).rotations().id_spec() == old(self).rotations().id_spec(),
            final(self).positions() == old(self).positions(),
            final(self).uvs() == old(self).uvs(),
            final(self).texture() == old(self).texture(),
            final(self).program() == old(self).program(),
            final(context).log() == old(context).log().push(
                CommandView::BufferData { id: old(self).centers().id_spec(), words: positions@ },
            ).push(CommandView::BufferData { id: old(self).rotations().id_spec(), words: angles_in_radians@ }),
    {
        self.center_buffer.fill_with_dynamic(context, positions);
        self.rotation_buffer.fill_with_dynamic(context, angles_in_radians);
        self.instance_count = (positions.len() as u32) / 3;
    }

    /// Draws every instance as a billboard showing the baked view nearest to
    /// the camera's direction, blended over what the target holds. Fails,
    /// issuing nothing, when the program requires an input not handed to it.
    pub fn render(&self, context: &mut Context, viewport: Viewport, camera: &UniformBuffer) -> (r: Result<(), Error>)
        requires
            old(context).wf(),
        ensures
            final(context).wf(),
            final(context).live() == old(context).live(),
            r is Ok <==> self.program().complete(imposter_bindings(*self, camera.id_spec())),
            r is Ok ==> final(context).log() == old(context).log() + self.program().bind_commands(
                imposter_bindings(*self, camera.id_spec()),
            ).push(CommandView::Draw {
                program: self.program().id_spec(),
                call: DrawCall::Arrays {
                    blending: Blending::AlphaOver,
                    cull: Cull::Back,
                    viewport,
                    vertex_count: 6,
                    instance_count: self.instance_count_spec(),
                },
            }),
            r is Err ==> final(context).log() == old(context).log(),
            r matches Err(e) ==> e is MissingBinding,
    {
        let mut bindings: Vec<Binding> = Vec::new();
        bindings.push(Binding::UniformInt { name: String::from_str("no_views"), value: NO_VIEW_ANGLES as i32 });
        bindings.push(Binding::UniformBlock { name: String::from_str("Camera"), buffer: camera.id() });
        bindings.push(Binding::Texture { name: String::from_str("tex"), texture: self.texture.id() });
        bindings.push(Binding::Attribute { name: String::from_str("position"), buffer: self.positions_buffer.id(), components: 3, divisor: 0 });
        bindings.push(Binding::Attribute { name: String::from_str("uv_coordinate"), buffer: self.uvs_buffer.id(), components: 2, divisor: 0 });
        bindings.push(Binding::Attribute { name: String::from_str("center"), buffer: self.center_buffer.id(), components: 3, divisor: 1 });
        bindings.push(Binding::Attribute { name: String::from_str("theta"), buffer: self.rotation_buffer.id(), components: 1, divisor: 1 });
        assert(views(bindings@) =~= imposter_bindings(*self, camera.id_spec()));
        let call = DrawCall::Arrays {
            blending: Blending::AlphaOver,
            cull: Cull::Back,
            viewport,
            vertex_count: 6,
            instance_count: self.instance_count,
        };
        self.program.draw(context, bindings, call)
    }
}

} // verus!
