use learnopengl::layout::{interleaved_f32_layout, VertexAttribute};

fn attr(location: u32, components: i32, offset_bytes: u32) -> VertexAttribute {
    VertexAttribute { location, components, offset_bytes }
}

#[test]
fn position_and_colour() {
    let l = interleaved_f32_layout(&[3, 3]);
    assert_eq!(l.stride_bytes, 24);
    assert_eq!(l.attributes, vec![attr(0, 3, 0), attr(1, 3, 12)]);
}

#[test]
fn position_colour_and_texture_coordinates() {
    let l = interleaved_f32_layout(&[3, 3, 2]);
    assert_eq!(l.stride_bytes, 32);
    assert_eq!(l.attributes, vec![attr(0, 3, 0), attr(1, 3, 12), attr(2, 2, 24)]);
}

#[test]
fn position_and_texture_coordinates() {
    let l = interleaved_f32_layout(&[3, 2]);
    assert_eq!(l.stride_bytes, 20);
    assert_eq!(l.attributes, vec![attr(0, 3, 0), attr(1, 2, 12)]);
}

#[test]
fn no_attributes() {
    let l = interleaved_f32_layout(&[]);
    assert_eq!(l.stride_bytes, 0);
    assert!(l.attributes.is_empty());
}

#[test]
fn attributes_abut() {
    let comps = [4u32, 1, 2, 3];
    let l = interleaved_f32_layout(&comps);
    assert_eq!(l.attributes[0].offset_bytes, 0);
    for i in 0..comps.len() - 1 {
        assert_eq!(
            l.attributes[i + 1].offset_bytes,
            l.attributes[i].offset_bytes + 4 * comps[i]
        );
    }
    let last = l.attributes[comps.len() - 1];
    assert_eq!(last.offset_bytes as i32 + 4 * last.components, l.stride_bytes);
}
