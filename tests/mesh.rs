use three_d::{
    Binding, Blending, Command, Context, CpuMesh, Cull, DrawCall, ProgramCache, Error, Indices, MeshAttribute, Mesh, Program,
    UniformBuffer, Viewport,
};

fn names(v: &[&str]) -> Vec<String> {
    v.iter().map(|s| s.to_string()).collect()
}

fn link(
    ctx: &mut Context,
    attributes: &[&str],
    uniforms: &[&str],
) -> Program {
    Program::from_link(
        ctx,
        "vertex".to_string(),
        "fragment".to_string(),
        Ok((names(attributes), names(uniforms))),
    )
    .unwrap()
}

fn triangle(normals: bool) -> CpuMesh {
    CpuMesh {
        positions: vec![0, 0, 0, 1, 0, 0, 0, 1, 0],
        normals: if normals { Some(vec![0, 0, 1, 0, 0, 1, 0, 0, 1]) } else { None },
        tangents: None,
        uvs: None,
        colors: None,
        indices: None,
    }
}

fn viewport() -> Viewport {
    Viewport::new_at_origo(640, 480)
}

#[test]
fn missing_bitangent_is_rejected() {
    let fragment = "in vec3 nor;\nin vec3 tang;\nvoid main() {}";
    assert!(matches!(Mesh::vertex_shader_source(fragment), Err(Error::MissingBitangent)));
}

#[test]
fn tangents_with_bitangent_are_accepted() {
    let fragment = "in vec3 nor;\nin vec3 tang;\nin vec3 bitang;\nvoid main() {}";
    let source = Mesh::vertex_shader_source(fragment).unwrap();
    assert!(source.starts_with("#define USE_NORMALS\n#define USE_TANGENTS\n"));
    assert!(!source.contains("#define USE_UVS"));
}

#[test]
fn defines_follow_declared_inputs() {
    let fragment = "in vec3 pos;\nin vec2 uvs;\nin vec4 col;\nout vec4 color;";
    let source = Mesh::vertex_shader_source(fragment).unwrap();
    assert!(source.starts_with("#define USE_POSITIONS\n#define USE_UVS\n#define USE_COLORS\n"));
    assert!(!source.contains("#define USE_NORMALS"));
    assert!(source.contains("void main()"));
}

#[test]
fn plain_fragment_gets_no_defines() {
    let source = Mesh::vertex_shader_source("out vec4 color; void main() {}").unwrap();
    assert!(!source.contains("#define"));
    assert!(source.contains("uniform mat4 modelMatrix;"));
}

#[test]
fn mesh_creates_a_buffer_per_array() {
    let mut ctx = Context::new();
    let mut cpu = triangle(true);
    cpu.indices = Some(Indices::U8(vec![0, 1, 2]));
    let _mesh = Mesh::new(&mut ctx, &cpu).unwrap();
    let commands = ctx.take_commands();
    let creates = commands.iter().filter(|c| matches!(c, Command::Create { .. })).count();
    assert_eq!(creates, 3);
    assert!(commands.iter().any(|c| matches!(
        c,
        Command::ElementData { indices, .. } if indices == &vec![0u32, 1, 2]
    )));
}

#[test]
fn missing_normal_buffer_fails_without_draw() {
    let mut ctx = Context::new();
    let camera = UniformBuffer::new(&mut ctx, &[16]).unwrap();
    let mesh = Mesh::new(&mut ctx, &triangle(false)).unwrap();
    let program = link(&mut ctx, &["position", "normal"], &["Camera", "modelMatrix", "normalMatrix"]);
    let pending = ctx.pending();
    let r = mesh.render_with_program(&mut ctx, &program, Vec::new(), &camera, Blending::Opaque, Cull::Nothing, viewport());
    assert!(matches!(r, Err(Error::MissingMeshBuffer { attribute: MeshAttribute::Normal })));
    assert_eq!(ctx.pending(), pending);
}

#[test]
fn missing_uvs_are_reported_first() {
    let mut ctx = Context::new();
    let camera = UniformBuffer::new(&mut ctx, &[16]).unwrap();
    let mesh = Mesh::new(&mut ctx, &triangle(false)).unwrap();
    let program = link(&mut ctx, &["position", "normal", "uv_coordinates"], &[]);
    let r = mesh.render_with_program(&mut ctx, &program, Vec::new(), &camera, Blending::Opaque, Cull::Nothing, viewport());
    assert!(matches!(r, Err(Error::MissingMeshBuffer { attribute: MeshAttribute::UvCoordinates })));
}

#[test]
fn draw_binds_required_inputs() {
    let mut ctx = Context::new();
    let camera = UniformBuffer::new(&mut ctx, &[16]).unwrap();
    let mesh = Mesh::new(&mut ctx, &triangle(true)).unwrap();
    let program = link(
        &mut ctx,
        &["position", "normal"],
        &["Camera", "modelMatrix", "normalMatrix", "diffuse"],
    );
    ctx.take_commands();
    let material = vec![
        Binding::UniformInt { name: "diffuse".to_string(), value: 3 },
        Binding::UniformInt { name: "unused".to_string(), value: 1 },
    ];
    mesh.render_with_program(&mut ctx, &program, material, &camera, Blending::Opaque, Cull::Nothing, viewport()).unwrap();
    let commands = ctx.take_commands();
    // diffuse, Camera, modelMatrix, position, normal, normalMatrix, then the draw
    assert_eq!(commands.len(), 7);
    assert!(matches!(&commands[0], Command::Bind { binding: Binding::UniformInt { value: 3, .. }, .. }));
    match &commands[6] {
        Command::Draw { program: p, call: DrawCall::Arrays { vertex_count, instance_count, .. } } => {
            assert_eq!(*p, program.id());
            assert_eq!(*vertex_count, 3);
            assert_eq!(*instance_count, 1);
        }
        other => panic!("unexpected command {:?}", other),
    }
}

#[test]
fn indexed_mesh_draws_elements() {
    let mut ctx = Context::new();
    let camera = UniformBuffer::new(&mut ctx, &[16]).unwrap();
    let mut cpu = triangle(false);
    cpu.indices = Some(Indices::U16(vec![0, 1, 2, 2, 1, 0]));
    let mesh = Mesh::new(&mut ctx, &cpu).unwrap();
    let program = link(&mut ctx, &["position"], &["Camera", "modelMatrix"]);
    ctx.take_commands();
    mesh.render_with_program(&mut ctx, &program, Vec::new(), &camera, Blending::Opaque, Cull::Nothing, viewport()).unwrap();
    let commands = ctx.take_commands();
    assert!(matches!(
        commands.last(),
        Some(Command::Draw { call: DrawCall::Elements { count: 6, .. }, .. })
    ));
}

#[test]
fn unbound_uniform_is_missing_binding() {
    let mut ctx = Context::new();
    let camera = UniformBuffer::new(&mut ctx, &[16]).unwrap();
    let mesh = Mesh::new(&mut ctx, &triangle(false)).unwrap();
    let program = link(&mut ctx, &["position"], &["Camera", "modelMatrix", "shininess"]);
    let pending = ctx.pending();
    let r = mesh.render_with_program(&mut ctx, &program, Vec::new(), &camera, Blending::Opaque, Cull::Nothing, viewport());
    match r {
        Err(Error::MissingBinding { name }) => assert_eq!(name, "shininess"),
        other => panic!("unexpected result {:?}", other),
    }
    assert_eq!(ctx.pending(), pending);
}

#[test]
fn failed_link_creates_nothing() {
    let mut ctx = Context::new();
    let r = Program::from_link(&mut ctx, "v".to_string(), "f".to_string(), Err("0:1: syntax error".to_string()));
    match r {
        Err(Error::ShaderCompileError { message }) => assert_eq!(message, "0:1: syntax error"),
        other => panic!("unexpected result {:?}", other.is_ok()),
    }
    assert_eq!(ctx.pending(), 0);
}

#[test]
fn transforms_are_kept() {
    let mut ctx = Context::new();
    let mut mesh = Mesh::new(&mut ctx, &triangle(false)).unwrap();
    assert_eq!(mesh.transformation()[0], 1.0f32.to_bits());
    assert_eq!(mesh.texture_transform()[4], 1.0f32.to_bits());
    let mut m = [0u32; 16];
    m[0] = 2.0f32.to_bits();
    mesh.set_transformation(m);
    assert_eq!(mesh.transformation(), m);
    let t = [5u32; 9];
    mesh.set_texture_transform(t);
    assert_eq!(*mesh.texture_transform(), t);
}

#[test]
fn mesh_destroy_releases_every_buffer() {
    let mut ctx = Context::new();
    let mut cpu = triangle(true);
    cpu.uvs = Some(vec![0, 0, 0, 0, 0, 0]);
    cpu.indices = Some(Indices::U32(vec![0, 1, 2]));
    let mesh = Mesh::new(&mut ctx, &cpu).unwrap();
    let created: Vec<u32> = ctx
        .take_commands()
        .iter()
        .filter_map(|c| match c {
            Command::Create { id, .. } => Some(*id),
            _ => None,
        })
        .collect();
    assert_eq!(created.len(), 4);
    mesh.destroy(&mut ctx);
    let mut deleted: Vec<u32> = ctx
        .take_commands()
        .iter()
        .filter_map(|c| match c {
            Command::Delete { id, .. } => Some(*id),
            _ => None,
        })
        .collect();
    deleted.sort();
    let mut expected = created.clone();
    expected.sort();
    assert_eq!(deleted, expected);
}

#[test]
fn cache_reuses_program_per_source_pair() {
    let mut ctx = Context::new();
    let mut cache = three_d::ProgramCache::new();
    let vs = "vertex".to_string();
    let fs = "fragment".to_string();
    assert!(cache.get(&vs, &fs).is_none());
    let first = link(&mut ctx, &["position"], &[]);
    let first_id = first.id();
    assert!(cache.insert(vs.clone(), fs.clone(), first).is_none());
    assert_eq!(cache.get(&vs, &fs).map(|p| p.id()), Some(first_id));
    let second = link(&mut ctx, &["position"], &[]);
    let second_id = second.id();
    let back = cache.insert(vs.clone(), fs.clone(), second);
    assert_eq!(back.map(|p| p.id()), Some(second_id));
    assert_eq!(cache.get(&vs, &fs).map(|p| p.id()), Some(first_id));
    assert!(cache.get(&vs, &"other".to_string()).is_none());
}

#[test]
fn missing_tangent_buffer_fails_without_normals() {
    let mut ctx = Context::new();
    let camera = UniformBuffer::new(&mut ctx, &[16]).unwrap();
    let mesh = Mesh::new(&mut ctx, &triangle(false)).unwrap();
    let program = link(&mut ctx, &["position", "tangent"], &[]);
    let pending = ctx.pending();
    let r = mesh.render_with_program(&mut ctx, &program, Vec::new(), &camera, Blending::Opaque, Cull::Nothing, viewport());
    assert!(matches!(r, Err(Error::MissingMeshBuffer { attribute: MeshAttribute::Tangent })));
    assert_eq!(ctx.pending(), pending);
}

#[test]
fn tangents_bound_without_normals() {
    let mut ctx = Context::new();
    let camera = UniformBuffer::new(&mut ctx, &[16]).unwrap();
    let mut cpu = triangle(false);
    cpu.tangents = Some(vec![0; 12]);
    let mesh = Mesh::new(&mut ctx, &cpu).unwrap();
    let program = link(&mut ctx, &["position", "tangent"], &["Camera", "modelMatrix"]);
    ctx.take_commands();
    mesh.render_with_program(&mut ctx, &program, Vec::new(), &camera, Blending::Opaque, Cull::Back, viewport()).unwrap();
    let commands = ctx.take_commands();
    assert!(commands.iter().any(|c| matches!(
        c,
        Command::Bind { binding: Binding::Attribute { name, components: 4, .. }, .. } if name == "tangent"
    )));
    assert!(matches!(commands.last(), Some(Command::Draw { call: DrawCall::Arrays { cull: Cull::Back, .. }, .. })));
}

#[test]
fn material_draw_checks_bitangent_before_lookup() {
    let mut ctx = Context::new();
    let camera = UniformBuffer::new(&mut ctx, &[16]).unwrap();
    let mesh = Mesh::new(&mut ctx, &triangle(true)).unwrap();
    let cache = ProgramCache::new();
    let pending = ctx.pending();
    let fragment = "in vec3 tang;\nout vec4 color;";
    let r = mesh.render_with_material(&mut ctx, &cache, fragment, Vec::new(), &camera, Blending::Opaque, Cull::Nothing, viewport());
    assert!(matches!(r, Err(Error::MissingBitangent)));
    assert_eq!(ctx.pending(), pending);
}

#[test]
fn material_draw_uses_cached_program() {
    let mut ctx = Context::new();
    let camera = UniformBuffer::new(&mut ctx, &[16]).unwrap();
    let mesh = Mesh::new(&mut ctx, &triangle(true)).unwrap();
    let mut cache = ProgramCache::new();
    let fragment = "in vec3 nor;\nout vec4 color;";
    let r = mesh.render_with_material(&mut ctx, &cache, fragment, Vec::new(), &camera, Blending::Opaque, Cull::Nothing, viewport());
    assert!(matches!(r, Err(Error::ProgramNotLinked)));
    let vertex = Mesh::vertex_shader_source(fragment).unwrap();
    let program = Program::from_link(
        &mut ctx,
        vertex.clone(),
        fragment.to_string(),
        Ok((names(&["position", "normal"]), names(&["Camera", "modelMatrix", "normalMatrix"]))),
    )
    .unwrap();
    let id = program.id();
    assert!(cache.insert(vertex, fragment.to_string(), program).is_none());
    ctx.take_commands();
    mesh.render_with_material(&mut ctx, &cache, fragment, Vec::new(), &camera, Blending::Opaque, Cull::Nothing, viewport()).unwrap();
    let commands = ctx.take_commands();
    assert!(matches!(commands.last(), Some(Command::Draw { program, .. }) if *program == id));
}

#[test]
fn index_width_is_kept() {
    let mut ctx = Context::new();
    let mut cpu = triangle(false);
    cpu.indices = Some(Indices::U8(vec![0, 1, 2]));
    let _mesh = Mesh::new(&mut ctx, &cpu).unwrap();
    assert!(ctx.take_commands().iter().any(|c| matches!(
        c,
        Command::ElementData { width: three_d::IndexWidth::U8, .. }
    )));
}
