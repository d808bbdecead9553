use glcore::buffer::{Buffer, BufferType, DrawType};
use glcore::command::GlCommand;
use glcore::device::Device;
use glcore::vertex_array::{GlFloat, VertexArray};

fn f32s_to_bytes(values: &[f32]) -> Vec<u8> {
    let mut out = Vec::new();
    for v in values {
        out.extend_from_slice(&v.to_le_bytes());
    }
    out
}

#[test]
fn upload_round_trip() {
    let mut dev = Device::new();
    let (buf, gen) = Buffer::new(&mut dev, BufferType::Array);
    assert_eq!(gen, GlCommand::GenBuffer { id: buf.id() });

    let payload = f32s_to_bytes(&[0.5f32, -1.25, 3.0, 42.0, -0.0125]);
    let cs = buf.data(&mut dev, payload.clone(), DrawType::StaticDraw);
    assert_eq!(cs.len(), 2);
    assert_eq!(
        cs[0],
        GlCommand::BindBuffer { kind: BufferType::Array, id: buf.id() }
    );
    match &cs[1] {
        GlCommand::BufferData { kind, bytes, usage } => {
            assert_eq!(*kind, BufferType::Array);
            assert_eq!(*bytes, payload);
            assert_eq!(*usage, DrawType::StaticDraw);
        }
        other => panic!("expected BufferData, got {:?}", other),
    }

    let back = dev.read_buffer(buf.id()).expect("uploaded buffer reads back");
    assert_eq!(back, payload);
}

#[test]
fn read_back_before_upload_is_none() {
    let mut dev = Device::new();
    let (buf, _) = Buffer::new(&mut dev, BufferType::ElementArray);
    assert!(dev.read_buffer(buf.id()).is_none());
    assert!(dev.read_buffer(0).is_none());
    assert!(dev.read_buffer(17).is_none());
}

#[test]
fn attribute_read_exact() {
    // Two vertices of five floats each: three position, two uv.
    let verts: [f32; 10] = [1.0, 2.0, 3.0, 4.0, 5.0, 6.0, 7.0, 8.0, 9.0, 10.0];
    let payload = f32s_to_bytes(&verts);

    let mut dev = Device::new();
    let (vao, _) = VertexArray::new(&mut dev);
    vao.bind(&mut dev);
    let (buf, _) = Buffer::new(&mut dev, BufferType::Array);
    buf.data(&mut dev, payload, DrawType::StaticDraw);

    VertexArray::vertex_atrrib_pointer::<GlFloat>(&mut dev, 0, 3, false, 5, 0);
    VertexArray::enable_vertex_attrib_array(&mut dev, 0);
    VertexArray::vertex_atrrib_pointer::<GlFloat>(&mut dev, 1, 2, false, 5, 3);
    VertexArray::enable_vertex_attrib_array(&mut dev, 1);

    // Attribute 0 of vertex 0: floats 1, 2, 3.
    let a00 = dev.read_attribute(vao.id, 0, 0).expect("declared and enabled");
    assert_eq!(a00, f32s_to_bytes(&[1.0f32, 2.0, 3.0]));
    // Attribute 1 of vertex 0: floats 4, 5 (offset 3 components).
    let a10 = dev.read_attribute(vao.id, 1, 0).expect("declared and enabled");
    assert_eq!(a10, f32s_to_bytes(&[4.0f32, 5.0]));
    // Attribute 0 of vertex 1: floats 6, 7, 8 (stride 5 components).
    let a01 = dev.read_attribute(vao.id, 0, 1).expect("declared and enabled");
    assert_eq!(a01, f32s_to_bytes(&[6.0f32, 7.0, 8.0]));
    // Attribute 1 of vertex 1: floats 9, 10.
    let a11 = dev.read_attribute(vao.id, 1, 1).expect("declared and enabled");
    assert_eq!(a11, f32s_to_bytes(&[9.0f32, 10.0]));
    // Vertex 2 would run past the payload: refused, not garbage.
    assert!(dev.read_attribute(vao.id, 0, 2).is_none());
}

#[test]
fn attribute_needs_declare_and_enable() {
    let mut dev = Device::new();
    let (vao, _) = VertexArray::new(&mut dev);
    vao.bind(&mut dev);
    let (buf, _) = Buffer::new(&mut dev, BufferType::Array);
    buf.data(&mut dev, vec![0u8; 20], DrawType::StaticDraw);

    // Declared but not enabled: no read.
    VertexArray::vertex_atrrib_pointer::<GlFloat>(&mut dev, 0, 1, false, 1, 0);
    assert!(dev.read_attribute(vao.id, 0, 0).is_none());
    // Enabled too: reads.
    VertexArray::enable_vertex_attrib_array(&mut dev, 0);
    assert!(dev.read_attribute(vao.id, 0, 0).is_some());
    // A never-declared slot stays unreadable even if enabled.
    VertexArray::enable_vertex_attrib_array(&mut dev, 3);
    assert!(dev.read_attribute(vao.id, 3, 0).is_none());
}

#[test]
fn delete_buffer_clears_binding() {
    let mut dev = Device::new();
    let (buf, _) = Buffer::new(&mut dev, BufferType::Array);
    let id = buf.id();
    buf.bind(&mut dev);
    assert_eq!(dev.buffer_binding(BufferType::Array), id);

    let (buf2, _) = Buffer::new(&mut dev, BufferType::Array);
    let del = buf2.delete(&mut dev);
    assert_eq!(del, GlCommand::DeleteBuffer { id: 2 });
    // Deleting an unbound buffer leaves the binding alone.
    assert_eq!(dev.buffer_binding(BufferType::Array), id);
    assert!(!dev.is_buffer_live(2));
    assert!(dev.is_buffer_live(id));
}

#[test]
fn vertex_array_bind_and_unbind() {
    let mut dev = Device::new();
    let (vao, gen) = VertexArray::new(&mut dev);
    assert_eq!(gen, GlCommand::GenVertexArray { id: vao.id });
    let c = vao.bind(&mut dev);
    assert_eq!(c, GlCommand::BindVertexArray { id: vao.id });
    assert_eq!(dev.vertex_array_binding(), vao.id);
    let c = VertexArray::unbind(&mut dev);
    assert_eq!(c, GlCommand::BindVertexArray { id: 0 });
    assert_eq!(dev.vertex_array_binding(), 0);
}
