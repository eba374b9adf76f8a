use three_d::{
    BringUp, Command, Context, ElementBuffer, Format, Imposters, IndexWidth, Indices, ObjectKind, Program,
    Strategy, Texture, UniformBuffer, VertexBuffer, Viewport, NO_VIEW_ANGLES,
};
use three_d::Error;

#[test]
fn created_names_are_fresh() {
    let mut ctx = Context::new();
    let a = VertexBuffer::new(&mut ctx).unwrap();
    let b = Texture::create(&mut ctx).unwrap();
    assert_ne!(a.id(), b.id());
    let first = a.id();
    a.destroy(&mut ctx);
    let c = VertexBuffer::new(&mut ctx).unwrap();
    assert_ne!(c.id(), first);
    assert_eq!(ctx.take_commands().len(), 4);
    assert_eq!(ctx.pending(), 0);
}

#[test]
fn vertex_buffer_uploads_once() {
    let mut ctx = Context::new();
    let buffer = VertexBuffer::new_with_static(&mut ctx, &[1, 2, 3]).unwrap();
    assert_eq!(buffer.count(), 3);
    let commands = ctx.take_commands();
    assert_eq!(commands.len(), 2);
    assert!(matches!(&commands[1], Command::BufferData { words, .. } if words == &vec![1u32, 2, 3]));
    buffer.destroy(&mut ctx);
    assert!(matches!(ctx.take_commands()[0], Command::Delete { kind: ObjectKind::Buffer, .. }));
}

#[test]
fn element_buffer_widens_indices() {
    let mut ctx = Context::new();
    let buffer = ElementBuffer::new_with(&mut ctx, &Indices::U16(vec![7, 65535])).unwrap();
    assert_eq!(buffer.count(), 2);
    let commands = ctx.take_commands();
    match &commands[1] {
        Command::ElementData { width, indices, .. } => {
            assert_eq!(*width, IndexWidth::U16);
            assert_eq!(indices, &vec![7u32, 65535]);
        }
        other => panic!("unexpected command {:?}", other),
    }
}

#[test]
fn texture_fill_uploads_image() {
    let mut ctx = Context::new();
    let texture = Texture::create(&mut ctx).unwrap();
    assert_eq!(texture.desc().format, Format::R32F);
    texture.fill_with(&mut ctx, &vec![1, 2, 3, 4, 5, 6], 3, 2);
    let commands = ctx.take_commands();
    assert!(matches!(
        &commands[1],
        Command::TextureData { width: 3, height: 2, words, .. } if words.len() == 6
    ));
    let id = texture.id();
    texture.destroy(&mut ctx);
    assert!(matches!(ctx.take_commands()[0], Command::Delete { kind: ObjectKind::Texture, id: d } if d == id));
}

#[test]
fn program_destroy_releases() {
    let mut ctx = Context::new();
    let program = Program::from_link(&mut ctx, "v".to_string(), "f".to_string(), Ok((vec![], vec![]))).unwrap();
    let id = program.id();
    program.destroy(&mut ctx);
    assert!(matches!(ctx.take_commands()[2], Command::Delete { kind: ObjectKind::Program, id: d } if d == id));
}

/// Drives a bake the way a caller does, drawing nothing for each view and
/// failing at `fail_at`; returns the views drawn and their viewports.
fn bake(
    ctx: &mut Context,
    im: &mut Imposters,
    width: u32,
    height: u32,
    fail_at: Option<u32>,
) -> (Result<(), Error>, Vec<(u32, Viewport)>) {
    let mut bake = im.update_texture(ctx, width, height).unwrap();
    let mut seen = Vec::new();
    while let Some((view, viewport)) = bake.next_view() {
        bake.begin_view(ctx);
        seen.push((view, viewport));
        let outcome = if fail_at == Some(view) { Err(Error::MissingBitangent) } else { Ok(()) };
        bake.end_view(ctx, outcome);
    }
    (im.finish_texture(ctx, bake, &[0u32; 18]), seen)
}

fn imposters(ctx: &mut Context) -> Imposters {
    let attributes = vec!["position".to_string(), "uv_coordinate".to_string(), "center".to_string(), "theta".to_string()];
    let uniforms = vec!["Camera".to_string(), "tex".to_string(), "no_views".to_string()];
    Imposters::new(ctx, Ok((attributes, uniforms))).unwrap()
}

#[test]
fn imposter_rebuild_bakes_every_view() {
    let mut ctx = Context::new();
    let mut im = imposters(&mut ctx);
    assert_eq!(im.texture_desc().layers, NO_VIEW_ANGLES);
    assert_eq!(im.texture_desc().width, 1);
    ctx.take_commands();
    let (r, seen) = bake(&mut ctx, &mut im, 64, 32, None);
    assert!(r.is_ok());
    let views: Vec<u32> = seen.iter().map(|v| v.0).collect();
    assert_eq!(views, vec![0, 1, 2, 3, 4, 5, 6, 7]);
    assert!(seen.iter().all(|v| v.1 == Viewport::new_at_origo(64, 32)));
    let desc = im.texture_desc();
    assert_eq!((desc.width, desc.height, desc.layers), (64, 32, 8));
    let commands = ctx.take_commands();
    let layers: Vec<u32> = commands
        .iter()
        .filter_map(|c| match c {
            Command::BeginLayer { layer, .. } => Some(*layer),
            _ => None,
        })
        .collect();
    assert_eq!(layers, vec![0, 1, 2, 3, 4, 5, 6, 7]);
    let deleted_textures = commands
        .iter()
        .filter(|c| matches!(c, Command::Delete { kind: ObjectKind::Texture, .. }))
        .count();
    assert_eq!(deleted_textures, 2);
    assert!(matches!(commands.last(), Some(Command::BufferData { words, .. }) if words.len() == 18));
}

#[test]
fn imposter_rebuild_stops_on_render_failure() {
    let mut ctx = Context::new();
    let mut im = imposters(&mut ctx);
    ctx.take_commands();
    let (r, seen) = bake(&mut ctx, &mut im, 64, 64, Some(2));
    assert!(matches!(r, Err(Error::MissingBitangent)));
    assert_eq!(seen.len(), 3);
    let commands = ctx.take_commands();
    let layers = commands.iter().filter(|c| matches!(c, Command::BeginLayer { .. })).count();
    assert_eq!(layers, 3);
    assert!(!commands.iter().any(|c| matches!(c, Command::BufferData { .. })));
}

#[test]
fn imposter_rebuilds_repeat_the_same_way() {
    let mut ctx = Context::new();
    let mut im = imposters(&mut ctx);
    let (r1, seen1) = bake(&mut ctx, &mut im, 16, 8, None);
    let (r2, seen2) = bake(&mut ctx, &mut im, 16, 8, None);
    assert!(r1.is_ok() && r2.is_ok());
    assert_eq!(seen1, seen2);
}

#[test]
fn imposters_draw_every_instance() {
    let mut ctx = Context::new();
    let camera = UniformBuffer::new(&mut ctx, &[16]).unwrap();
    let mut im = imposters(&mut ctx);
    im.update_positions(&mut ctx, &[0, 0, 0, 1, 1, 1], &[0, 0]);
    assert_eq!(im.instance_count(), 2);
    ctx.take_commands();
    im.render(&mut ctx, Viewport::new_at_origo(10, 10), &camera).unwrap();
    let commands = ctx.take_commands();
    assert_eq!(commands.len(), 8);
    assert!(matches!(
        commands.last(),
        Some(Command::Draw {
            call: three_d::DrawCall::Arrays { vertex_count: 6, instance_count: 2, cull: three_d::Cull::Back, .. },
            ..
        })
    ));
}

#[test]
fn imposters_need_a_linked_program() {
    let mut ctx = Context::new();
    let r = Imposters::new(&mut ctx, Err("link failed".to_string()));
    assert!(matches!(r, Err(Error::ShaderCompileError { .. })));
    assert_eq!(ctx.pending(), 0);
}

#[test]
fn bring_up_takes_first_success() {
    let mut b = BringUp::new();
    assert_eq!(b.next_strategy(), Some(Strategy::Surfaceless));
    b.record(Err("no surfaceless".to_string()));
    assert_eq!(b.next_strategy(), Some(Strategy::Pbuffer));
    assert!(b.outcome().is_none());
    b.record(Ok(()));
    assert_eq!(b.next_strategy(), None);
    assert!(matches!(b.outcome(), Some(Ok(Strategy::Pbuffer))));
}

#[test]
fn bring_up_keeps_every_failure() {
    let mut b = BringUp::new();
    b.record(Err("a".to_string()));
    b.record(Err("b".to_string()));
    assert_eq!(b.next_strategy(), Some(Strategy::OsMesa));
    b.record(Err("c".to_string()));
    assert_eq!(b.next_strategy(), None);
    assert!(!matches!(b.outcome(), Some(Ok(_))));
    match b.outcome() {
        Some(Err(errors)) => assert_eq!(errors, vec!["a".to_string(), "b".to_string(), "c".to_string()]),
        _ => panic!("expected every failure"),
    }
}

#[test]
fn imposters_destroy_releases_everything() {
    let mut ctx = Context::new();
    let im = imposters(&mut ctx);
    let created = ctx.take_commands().iter().filter(|c| matches!(c, Command::Create { .. })).count();
    assert_eq!(created, 6);
    im.destroy(&mut ctx);
    let deleted = ctx.take_commands().iter().filter(|c| matches!(c, Command::Delete { .. })).count();
    assert_eq!(deleted, 6);
}
