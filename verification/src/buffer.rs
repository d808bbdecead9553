//! Geometry buffers: GPU buffer objects that hold one immutable payload.

use vstd::prelude::*;

use crate::command::GlCommand;
use crate::device::clone_bytes;
use crate::device::spec_read_buffer;
use crate::device::Device;
use crate::device::DeviceView;

verus! {

/// Which binding target a buffer is used with.
#[derive(Clone, Copy, PartialEq, Eq, Structural, Debug)]
pub enum BufferType {
    Array,
    ElementArray,
}

/// Usage hint for the upload; this layer only ever uploads once.
#[derive(Clone, Copy, PartialEq, Eq, Structural, Debug)]
pub enum DrawType {
    StaticDraw,
}

/// Owner of one GPU buffer object handle.
pub struct Buffer {
    id: u32,
    t: BufferType,
}

impl Buffer {
    /// The owned handle; non-zero once constructed.
    pub closed spec fn spec_id(&self) -> u32 {
        self.id
    }

    /// The binding target this buffer is used with.
    pub closed spec fn spec_kind(&self) -> BufferType {
        self.t
    }

    /// The owned handle, for observation and replay.
    pub fn id(&self) -> (id: u32)
        ensures
            id == self.spec_id(),
    {
        self.id
    }

    /// Allocates a fresh buffer object on the device.
    pub fn new(dev: &mut Device, t: BufferType) -> (r: (Buffer, GlCommand))
        requires
            old(dev)@.wf(),
            old(dev)@.buffers.len() < 0xFFFF_FFFF,
        ensures
            final(dev)@.wf(),
            r.0.spec_kind() == t,
            r.0.spec_id() == old(dev)@.buffers.len() + 1,
            !old(dev)@.buffer_live(r.0.spec_id()),
            final(dev)@.buffer_live(r.0.spec_id()),
            final(dev)@ == (DeviceView { buffers: final(dev)@.buffers, ..old(dev)@ }),
            final(dev)@.buffers == old(dev)@.buffers.push(final(dev)@.buffers.last()),
            final(dev)@.buffers.last().alive,
            !final(dev)@.buffers.last().uploaded,
            r.1 == (GlCommand::GenBuffer { id: r.0.spec_id() }),
    {
        let id = dev.fresh_buffer();
        (Buffer { id, t }, GlCommand::GenBuffer { id })
    }

    /// Makes this buffer current for its target. Idempotent: binding twice
    /// leaves the same state.
    pub fn bind(&self, dev: &mut Device) -> (c: GlCommand)
        requires
            old(dev)@.wf(),
            old(dev)@.buffer_live(self.spec_id()),
        ensures
            final(dev)@.wf(),
            final(dev)@ == match self.spec_kind() {
                BufferType::Array => (DeviceView {
                    bound_array_buffer: self.spec_id(),
                    ..old(dev)@
                }),
                BufferType::ElementArray => (DeviceView {
                    bound_element_buffer: self.spec_id(),
                    ..old(dev)@
                }),
            },
            final(dev)@.bound_buffer(self.spec_kind()) == self.spec_id(),
            c == (GlCommand::BindBuffer { kind: self.spec_kind(), id: self.spec_id() }),
    {
        dev.bind_buffer(self.t, self.id);
        GlCommand::BindBuffer { kind: self.t, id: self.id }
    }

    /// Binds this buffer and uploads its one payload: the device stores
    /// exactly `bytes`, and reading the buffer back yields those bytes.
    pub fn data(&self, dev: &mut Device, bytes: Vec<u8>, t: DrawType) -> (cs: Vec<GlCommand>)
        requires
            old(dev)@.wf(),
            old(dev)@.buffer_live(self.spec_id()),
        ensures
            final(dev)@.wf(),
            final(dev)@.bound_buffer(self.spec_kind()) == self.spec_id(),
            final(dev)@.buffers == old(dev)@.buffers.update(
                self.spec_id() - 1,
                final(dev)@.buffers[self.spec_id() - 1],
            ),
            final(dev)@.buffers[self.spec_id() - 1].alive,
            final(dev)@.buffers[self.spec_id() - 1].uploaded,
            final(dev)@.buffers[self.spec_id() - 1].contents@ == bytes@,
            spec_read_buffer(final(dev)@, self.spec_id()) == Some(bytes@),
            final(dev)@ == (DeviceView {
                buffers: final(dev)@.buffers,
                bound_array_buffer: final(dev)@.bound_array_buffer,
                bound_element_buffer: final(dev)@.bound_element_buffer,
                ..old(dev)@
            }),
            forall|k: BufferType|
                k != self.spec_kind() ==> final(dev)@.bound_buffer(k) == old(dev)@.bound_buffer(
                    k,
                ),
            cs@.len() == 2,
            cs@[0] == (GlCommand::BindBuffer { kind: self.spec_kind(), id: self.spec_id() }),
            (cs@[1] matches GlCommand::BufferData { kind: k2, bytes: b2, usage: u2 } && k2
                == self.spec_kind() && b2@ == bytes@ && u2 == t),
    {
        let replay = clone_bytes(&bytes);
        let c0 = self.bind(dev);
        dev.upload_bound(self.t, bytes);
        let mut cs: Vec<GlCommand> = Vec::new();
        cs.push(c0);
        cs.push(GlCommand::BufferData { kind: self.t, bytes: replay, usage: t });
        cs
    }

    /// Releases the handle: the buffer object is freed and any target it
    /// was bound to is cleared.
    pub fn delete(self, dev: &mut Device) -> (c: GlCommand)
        requires
            old(dev)@.wf(),
        ensures
            final(dev)@.wf(),
            !final(dev)@.buffer_live(self.spec_id()),
            final(dev)@.buffers.len() == old(dev)@.buffers.len(),
            forall|j: int|
                0 <= j < old(dev)@.buffers.len() && j != self.spec_id() - 1
                    ==> final(dev)@.buffers[j] == old(dev)@.buffers[j],
            final(dev)@ == (DeviceView {
                buffers: final(dev)@.buffers,
                bound_array_buffer: final(dev)@.bound_array_buffer,
                bound_element_buffer: final(dev)@.bound_element_buffer,
                ..old(dev)@
            }),
            c == (GlCommand::DeleteBuffer { id: self.spec_id() }),
    {
        dev.delete_buffer(self.id);
        GlCommand::DeleteBuffer { id: self.id }
    }
}

/// Law: a buffer that holds an uploaded payload reads back byte-identical
/// contents. `Buffer::data` leaves the device in exactly this state, so an
/// upload followed by a read-back yields the input, unchanged.
pub proof fn lemma_upload_read_back(v: DeviceView, id: u32, payload: Seq<u8>)
    requires
        v.buffer_live(id),
        v.buffers[id - 1].uploaded,
        v.buffers[id - 1].contents@ == payload,
    ensures
        spec_read_buffer(v, id) == Some(payload),
{
}

} // verus!
