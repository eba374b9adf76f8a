use three_d::{Command, Context, Error, UniformBuffer};

fn bits(v: &[f32]) -> Vec<u32> {
    v.iter().map(|x| x.to_bits()).collect()
}

fn floats(v: &[u32]) -> Vec<f32> {
    v.iter().map(|x| f32::from_bits(*x)).collect()
}

#[test]
fn round_trip_two_regions() {
    let mut ctx = Context::new();
    let mut buffer = UniformBuffer::new(&mut ctx, &[2, 3]).unwrap();
    assert_eq!(buffer.len(), 5);
    buffer.update(&mut ctx, 0, &bits(&[1.0, 2.0])).unwrap();
    buffer.update(&mut ctx, 1, &bits(&[3.0, 4.0, 5.0])).unwrap();
    assert_eq!(floats(buffer.get(0).unwrap()), vec![1.0, 2.0]);
    assert_eq!(floats(buffer.get(1).unwrap()), vec![3.0, 4.0, 5.0]);
    assert_eq!(buffer.len(), 5);
}

#[test]
fn new_buffer_is_zeroed() {
    let mut ctx = Context::new();
    let buffer = UniformBuffer::new(&mut ctx, &[1, 4, 2]).unwrap();
    assert_eq!(buffer.len(), 7);
    assert_eq!(buffer.get(1).unwrap(), &[0u32, 0, 0, 0][..]);
    assert_eq!(buffer.get(2).unwrap(), &[0u32, 0][..]);
}

#[test]
fn update_then_get_each_region() {
    let sizes = [3u32, 0, 1, 16];
    let mut ctx = Context::new();
    let mut buffer = UniformBuffer::new(&mut ctx, &sizes).unwrap();
    for (i, size) in sizes.iter().enumerate() {
        let data: Vec<u32> = (0..*size).map(|k| k + 100 * i as u32).collect();
        buffer.update(&mut ctx, i as u32, &data).unwrap();
        assert_eq!(buffer.get(i as u32).unwrap(), &data[..]);
    }
    assert_eq!(buffer.get(0).unwrap(), &[0u32, 1, 2][..]);
}

#[test]
fn update_leaves_other_regions() {
    let mut ctx = Context::new();
    let mut buffer = UniformBuffer::new(&mut ctx, &[2, 2, 2]).unwrap();
    buffer.update(&mut ctx, 0, &[1, 2]).unwrap();
    buffer.update(&mut ctx, 2, &[5, 6]).unwrap();
    buffer.update(&mut ctx, 1, &[3, 4]).unwrap();
    assert_eq!(buffer.get(0).unwrap(), &[1u32, 2][..]);
    assert_eq!(buffer.get(1).unwrap(), &[3u32, 4][..]);
    assert_eq!(buffer.get(2).unwrap(), &[5u32, 6][..]);
}

#[test]
fn out_of_range_index_fails() {
    let mut ctx = Context::new();
    let mut buffer = UniformBuffer::new(&mut ctx, &[2, 3]).unwrap();
    assert!(matches!(buffer.get(2), Err(Error::IndexOutOfRange { index: 2, count: 2 })));
    assert!(matches!(
        buffer.update(&mut ctx, 7, &[1, 2]),
        Err(Error::IndexOutOfRange { index: 7, count: 2 })
    ));
}

#[test]
fn out_of_range_on_empty_buffer() {
    let mut ctx = Context::new();
    let mut buffer = UniformBuffer::new(&mut ctx, &[]).unwrap();
    assert_eq!(buffer.len(), 0);
    assert!(matches!(buffer.get(0), Err(Error::IndexOutOfRange { index: 0, count: 0 })));
    assert!(matches!(
        buffer.update(&mut ctx, 0, &[]),
        Err(Error::IndexOutOfRange { index: 0, count: 0 })
    ));
}

#[test]
fn size_mismatch_fails_and_keeps_contents() {
    let mut ctx = Context::new();
    let mut buffer = UniformBuffer::new(&mut ctx, &[2, 3]).unwrap();
    buffer.update(&mut ctx, 1, &[7, 8, 9]).unwrap();
    let pending = ctx.pending();
    assert!(matches!(
        buffer.update(&mut ctx, 1, &[1, 2]),
        Err(Error::SizeMismatch { index: 1, expected: 3, actual: 2 })
    ));
    assert!(matches!(
        buffer.update(&mut ctx, 0, &[1, 2, 3]),
        Err(Error::SizeMismatch { index: 0, expected: 2, actual: 3 })
    ));
    assert_eq!(buffer.get(1).unwrap(), &[7u32, 8, 9][..]);
    assert_eq!(buffer.get(0).unwrap(), &[0u32, 0][..]);
    assert_eq!(ctx.pending(), pending);
}

#[test]
fn update_uploads_whole_store() {
    let mut ctx = Context::new();
    let mut buffer = UniformBuffer::new(&mut ctx, &[2, 3]).unwrap();
    buffer.update(&mut ctx, 1, &[3, 4, 5]).unwrap();
    let commands = ctx.take_commands();
    assert_eq!(commands.len(), 2);
    assert!(matches!(commands[0], Command::Create { id, .. } if id == buffer.id()));
    match &commands[1] {
        Command::BufferData { id, words } => {
            assert_eq!(*id, buffer.id());
            assert_eq!(words, &vec![0, 0, 3, 4, 5]);
        }
        other => panic!("unexpected command {:?}", other),
    }
}

#[test]
fn destroy_releases_once() {
    let mut ctx = Context::new();
    let buffer = UniformBuffer::new(&mut ctx, &[4]).unwrap();
    let id = buffer.id();
    buffer.destroy(&mut ctx);
    let commands = ctx.take_commands();
    let deletes = commands
        .iter()
        .filter(|c| matches!(c, Command::Delete { id: d, .. } if *d == id))
        .count();
    assert_eq!(deletes, 1);
}
