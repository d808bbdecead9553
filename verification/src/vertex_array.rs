//! Vertex-array objects: how draws read attribute slots out of a buffer.

use vstd::prelude::*;

use crate::command::GlCommand;
use crate::device::spec_read_attribute;
use crate::device::Device;
use crate::device::DeviceView;
use crate::device::MAX_VERTEX_ATTRIBS;

verus! {

/// A component type a vertex attribute can be declared with: its driver
/// type code and its width in bytes.
pub trait GlType {
    spec fn spec_code() -> u32;

    spec fn spec_size() -> u32;

    fn resolve() -> (c: u32)
        ensures
            c == Self::spec_code(),
    ;

    fn byte_size() -> (n: u32)
        ensures
            n == Self::spec_size(),
            1 <= n <= 16,
    ;
}

/// Marker for 32-bit float components, the one component type this layer
/// declares attributes with.
pub struct GlFloat;

impl GlType for GlFloat {
    open spec fn spec_code() -> u32 {
        0x1406
    }

    open spec fn spec_size() -> u32 {
        4
    }

    fn resolve() -> (c: u32) {
        0x1406
    }

    fn byte_size() -> (n: u32) {
        4
    }
}

/// Owner of one vertex-array object handle.
pub struct VertexArray {
    pub id: u32,
}

impl VertexArray {
    /// Allocates a fresh vertex-array object with blank attribute slots.
    pub fn new(dev: &mut Device) -> (r: (VertexArray, GlCommand))
        requires
            old(dev)@.wf(),
            old(dev)@.arrays.len() < 0xFFFF_FFFF,
        ensures
            final(dev)@.wf(),
            r.0.id == old(dev)@.arrays.len() + 1,
            !old(dev)@.vao_live(r.0.id),
            final(dev)@.vao_live(r.0.id),
            final(dev)@ == (DeviceView {
                arrays: final(dev)@.arrays,
                attribs: final(dev)@.attribs,
                ..old(dev)@
            }),
            final(dev)@.arrays == old(dev)@.arrays.push(true),
            forall|s: u32|
                s < MAX_VERTEX_ATTRIBS ==> !(#[trigger] final(dev)@.attrib_at(r.0.id, s)).declared
                    && !final(dev)@.attrib_at(r.0.id, s).enabled,
            r.1 == (GlCommand::GenVertexArray { id: r.0.id }),
    {
        let id = dev.fresh_vertex_array();
        (VertexArray { id }, GlCommand::GenVertexArray { id })
    }

    /// Makes this vertex array current: subsequent attribute declarations
    /// and draws are scoped to it.
    pub fn bind(&self, dev: &mut Device) -> (c: GlCommand)
        requires
            old(dev)@.wf(),
            old(dev)@.vao_live(self.id),
        ensures
            final(dev)@.wf(),
            final(dev)@ == (DeviceView { bound_vertex_array: self.id, ..old(dev)@ }),
            c == (GlCommand::BindVertexArray { id: self.id }),
    {
        dev.bind_vertex_array(self.id);
        GlCommand::BindVertexArray { id: self.id }
    }

    /// Clears the current vertex array.
    pub fn unbind(dev: &mut Device) -> (c: GlCommand)
        requires
            old(dev)@.wf(),
        ensures
            final(dev)@.wf(),
            final(dev)@ == (DeviceView { bound_vertex_array: 0u32, ..old(dev)@ }),
            c == (GlCommand::BindVertexArray { id: 0u32 }),
    {
        dev.bind_vertex_array(0);
        GlCommand::BindVertexArray { id: 0 }
    }

    /// Declares attribute slot `index` of the bound vertex array: draws read
    /// `size` components of `T`, stepping `step` components per vertex,
    /// starting `pointer` components into the buffer currently bound to the
    /// array target (captured now). `step` and `pointer` are in components
    /// of `T`; the recorded stride and offset are in bytes.
    pub fn vertex_atrrib_pointer<T: GlType>(
        dev: &mut Device,
        index: u32,
        size: u32,
        normalized: bool,
        step: u32,
        pointer: u32,
    ) -> (c: GlCommand)
        requires
            old(dev)@.wf(),
            index < MAX_VERTEX_ATTRIBS,
            old(dev)@.vao_live(old(dev)@.bound_vertex_array),
            old(dev)@.buffer_live(old(dev)@.bound_array_buffer),
            step * T::spec_size() <= u32::MAX,
            pointer * T::spec_size() <= u32::MAX,
        ensures
            final(dev)@.wf(),
            final(dev)@ == (DeviceView { attribs: final(dev)@.attribs, ..old(dev)@ }),
            final(dev)@.attribs == old(dev)@.attribs.update(
                old(dev)@.attrib_index(old(dev)@.bound_vertex_array, index),
                final(dev)@.attrib_at(old(dev)@.bound_vertex_array, index),
            ),
            final(dev)@.attrib_at(old(dev)@.bound_vertex_array, index) == (crate::device::AttribSlot {
                declared: true,
                enabled: old(dev)@.attrib_at(old(dev)@.bound_vertex_array, index).enabled,
                buffer: old(dev)@.bound_array_buffer,
                components: size,
                type_code: T::spec_code(),
                comp_bytes: T::spec_size(),
                normalized,
                stride: (step * T::spec_size()) as u32,
                offset: (pointer * T::spec_size()) as u32,
            }),
            c == (GlCommand::VertexAttribPointer {
                index,
                components: size,
                type_code: T::spec_code(),
                normalized,
                stride: (step * T::spec_size()) as u32,
                offset: (pointer * T::spec_size()) as u32,
            }),
    {
        let bs = T::byte_size();
        let stride = step * bs;
        let offset = pointer * bs;
        let code = T::resolve();
        dev.set_attrib(index, size, code, bs, normalized, stride, offset);
        GlCommand::VertexAttribPointer {
            index,
            components: size,
            type_code: code,
            normalized,
            stride,
            offset,
        }
    }

    /// Activates attribute slot `index` of the bound vertex array for
    /// reading during draws; required once per slot after declaration.
    pub fn enable_vertex_attrib_array(dev: &mut Device, index: u32) -> (c: GlCommand)
        requires
            old(dev)@.wf(),
            index < MAX_VERTEX_ATTRIBS,
            old(dev)@.vao_live(old(dev)@.bound_vertex_array),
        ensures
            final(dev)@.wf(),
            final(dev)@ == (DeviceView { attribs: final(dev)@.attribs, ..old(dev)@ }),
            final(dev)@.attribs == old(dev)@.attribs.update(
                old(dev)@.attrib_index(old(dev)@.bound_vertex_array, index),
                final(dev)@.attrib_at(old(dev)@.bound_vertex_array, index),
            ),
            final(dev)@.attrib_at(old(dev)@.bound_vertex_array, index)
                == (crate::device::AttribSlot {
                enabled: true,
                ..old(dev)@.attrib_at(old(dev)@.bound_vertex_array, index)
            }),
            c == (GlCommand::EnableVertexAttribArray { index }),
    {
        dev.enable_attrib(index);
        GlCommand::EnableVertexAttribArray { index }
    }

    /// Releases the handle: the vertex-array object is freed and unbound if
    /// it was the current one.
    pub fn delete(self, dev: &mut Device) -> (c: GlCommand)
        requires
            old(dev)@.wf(),
        ensures
            final(dev)@.wf(),
            !final(dev)@.vao_live(self.id),
            final(dev)@ == (DeviceView {
                arrays: final(dev)@.arrays,
                attribs: final(dev)@.attribs,
                bound_vertex_array: final(dev)@.bound_vertex_array,
                ..old(dev)@
            }),
            c == (GlCommand::DeleteVertexArray { id: self.id }),
    {
        dev.delete_vertex_array(self.id);
        GlCommand::DeleteVertexArray { id: self.id }
    }
}

/// Law: once a slot is declared and enabled, and its captured source buffer
/// can supply the range, a draw's read of vertex `vertex` yields exactly
/// `components` components of `comp_bytes` bytes each, starting at byte
/// `offset + vertex * stride` of the uploaded payload, stepping `stride`
/// bytes per vertex.
pub proof fn lemma_attribute_read_exact(v: DeviceView, vao: u32, slot: u32, vertex: u32)
    requires
        v.vao_live(vao),
        slot < MAX_VERTEX_ATTRIBS,
        v.attrib_at(vao, slot).declared,
        v.attrib_at(vao, slot).enabled,
        v.buffer_live(v.attrib_at(vao, slot).buffer),
        v.buffers[v.attrib_at(vao, slot).buffer - 1].uploaded,
        v.attrib_at(vao, slot).offset + vertex * v.attrib_at(vao, slot).stride + v.attrib_at(
            vao,
            slot,
        ).components * v.attrib_at(vao, slot).comp_bytes <= v.buffers[v.attrib_at(vao, slot).buffer
            - 1].contents@.len(),
    ensures
        spec_read_attribute(v, vao, slot, vertex) == Some(
            v.buffers[v.attrib_at(vao, slot).buffer - 1].contents@.subrange(
                v.attrib_at(vao, slot).offset + vertex * v.attrib_at(vao, slot).stride,
                v.attrib_at(vao, slot).offset + vertex * v.attrib_at(vao, slot).stride
                    + v.attrib_at(vao, slot).components * v.attrib_at(vao, slot).comp_bytes,
            ),
        ),
{
}

} // verus!
