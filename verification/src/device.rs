//! A verified model of the graphics driver's resource and binding state.
//!
//! The `Device` holds what the driver holds: one table per resource kind,
//! keyed by handle (handles are allocated densely, starting at 1; 0 means
//! "unallocated"), plus the hidden "currently bound" slots that most driver
//! calls read implicitly. Resource wrappers mutate a `Device` and return the
//! raw commands an unverified shell replays against the real driver, so the
//! model is the contract for what that replay leaves behind.

use vstd::prelude::*;

use crate::buffer::BufferType;
use crate::shader_program::ShaderType;
use crate::texture::TextureFormat;

verus! {

/// Attribute slots guaranteed per vertex-array object.
pub const MAX_VERTEX_ATTRIBS: u32 = 16;

/// Texture units guaranteed by the model.
pub const MAX_TEXTURE_UNITS: u32 = 32;

/// One buffer object: a byte payload, uploaded at most once here.
pub struct BufferObj {
    pub alive: bool,
    pub uploaded: bool,
    pub contents: Vec<u8>,
}

/// One attribute slot of a vertex-array object: how draws read the slot's
/// source buffer. `buffer` is captured at declaration time, as the driver
/// captures the buffer bound when the pointer is declared.
#[derive(Clone, Copy, PartialEq, Eq, Structural, Debug)]
pub struct AttribSlot {
    pub declared: bool,
    pub enabled: bool,
    pub buffer: u32,
    pub components: u32,
    pub type_code: u32,
    pub comp_bytes: u32,
    pub normalized: bool,
    pub stride: u32,
    pub offset: u32,
}

/// One shader stage object: its kind and the source text it was given.
pub struct ShaderObj {
    pub alive: bool,
    pub kind: ShaderType,
    pub source: String,
}

/// One program object. The set of attached stages lives with the builder
/// that owns the pre-link program.
#[derive(Clone, Copy, PartialEq, Eq, Structural, Debug)]
pub struct ProgramObj {
    pub alive: bool,
    pub linked: bool,
}

/// One recorded uniform write. The model's programs accept every name; the
/// real driver silently ignores names the program does not declare.
pub struct UniformWrite {
    pub program: u32,
    pub name: String,
    pub value: u32,
}

/// One 2D texture object: sampling parameters and the base-level image.
pub struct TextureObj {
    pub alive: bool,
    pub wrap_s: u32,
    pub wrap_t: u32,
    pub min_filter: u32,
    pub mag_filter: u32,
    pub has_image: bool,
    pub img_width: u32,
    pub img_height: u32,
    pub img_format: TextureFormat,
    pub pixels: Vec<u8>,
    pub mipmapped: bool,
}

/// The mathematical value of a `Device`.
pub struct DeviceView {
    pub buffers: Seq<BufferObj>,
    pub arrays: Seq<bool>,
    pub attribs: Seq<AttribSlot>,
    pub shaders: Seq<ShaderObj>,
    pub programs: Seq<ProgramObj>,
    pub uniforms: Seq<UniformWrite>,
    pub textures: Seq<TextureObj>,
    pub bound_array_buffer: u32,
    pub bound_element_buffer: u32,
    pub bound_vertex_array: u32,
    pub current_program: u32,
    pub active_unit: u32,
    pub units: Seq<u32>,
}

impl DeviceView {
    /// Structural well-formedness: fixed table shapes.
    pub open spec fn wf(self) -> bool {
        &&& self.units.len() == MAX_TEXTURE_UNITS
        &&& self.attribs.len() == self.arrays.len() * (MAX_VERTEX_ATTRIBS as int)
        &&& self.active_unit < MAX_TEXTURE_UNITS
    }

    pub open spec fn buffer_live(self, id: u32) -> bool {
        1 <= id && id <= self.buffers.len() && self.buffers[id - 1].alive
    }

    pub open spec fn vao_live(self, id: u32) -> bool {
        1 <= id && id <= self.arrays.len() && self.arrays[id - 1]
    }

    pub open spec fn shader_live(self, id: u32) -> bool {
        1 <= id && id <= self.shaders.len() && self.shaders[id - 1].alive
    }

    pub open spec fn program_live(self, id: u32) -> bool {
        1 <= id && id <= self.programs.len() && self.programs[id - 1].alive
    }

    pub open spec fn texture_live(self, id: u32) -> bool {
        1 <= id && id <= self.textures.len() && self.textures[id - 1].alive
    }

    /// The buffer currently bound to the given target (0 = none).
    pub open spec fn bound_buffer(self, kind: BufferType) -> u32 {
        match kind {
            BufferType::Array => self.bound_array_buffer,
            BufferType::ElementArray => self.bound_element_buffer,
        }
    }

    /// Index into the flat attribute table for a vertex array's slot.
    pub open spec fn attrib_index(self, vao: u32, slot: u32) -> int {
        (vao - 1) * (MAX_VERTEX_ATTRIBS as int) + slot
    }

    /// The attribute slot `slot` of vertex array `vao`.
    pub open spec fn attrib_at(self, vao: u32, slot: u32) -> AttribSlot {
        self.attribs[self.attrib_index(vao, slot)]
    }

    /// The texture bound to the active unit (0 = none).
    pub open spec fn bound_texture(self) -> u32 {
        self.units[self.active_unit as int]
    }
}

/// What reading back a buffer's payload yields: the uploaded bytes, or
/// nothing if the handle is dead or nothing was uploaded.
pub open spec fn spec_read_buffer(v: DeviceView, id: u32) -> Option<Seq<u8>> {
    if v.buffer_live(id) && v.buffers[id - 1].uploaded {
        Some(v.buffers[id - 1].contents@)
    } else {
        None
    }
}

/// A fresh, undeclared, disabled attribute slot.
pub open spec fn blank_attrib() -> AttribSlot {
    AttribSlot {
        declared: false,
        enabled: false,
        buffer: 0,
        components: 0,
        type_code: 0,
        comp_bytes: 0,
        normalized: false,
        stride: 0,
        offset: 0,
    }
}

/// The driver-state model. Handles index into the tables: handle `id`
/// is entry `id - 1`; entries are never removed, only marked dead.
pub struct Device {
    buffers: Vec<BufferObj>,
    arrays: Vec<bool>,
    attribs: Vec<AttribSlot>,
    shaders: Vec<ShaderObj>,
    programs: Vec<ProgramObj>,
    uniforms: Vec<UniformWrite>,
    textures: Vec<TextureObj>,
    bound_array_buffer: u32,
    bound_element_buffer: u32,
    bound_vertex_array: u32,
    current_program: u32,
    active_unit: u32,
    units: Vec<u32>,
}

impl View for Device {
    type V = DeviceView;

    closed spec fn view(&self) -> DeviceView {
        DeviceView {
            buffers: self.buffers@,
            arrays: self.arrays@,
            attribs: self.attribs@,
            shaders: self.shaders@,
            programs: self.programs@,
            uniforms: self.uniforms@,
            textures: self.textures@,
            bound_array_buffer: self.bound_array_buffer,
            bound_element_buffer: self.bound_element_buffer,
            bound_vertex_array: self.bound_vertex_array,
            current_program: self.current_program,
            active_unit: self.active_unit,
            units: self.units@,
        }
    }
}

/// Copies a byte vector; used where a payload must go both into the model
/// and into a command for the shell to replay.
pub fn clone_bytes(v: &Vec<u8>) -> (r: Vec<u8>)
    ensures
        r@ == v@,
{
    let mut r: Vec<u8> = Vec::new();
    let mut i: usize = 0;
    while i < v.len()
        invariant
            i <= v@.len(),
            r@ == v@.subrange(0, i as int),
        decreases v@.len() - i,
    {
        r.push(v[i]);
        proof {
            assert(r@ =~= v@.subrange(0, i + 1 as int));
        }
        i = i + 1;
    }
    proof {
        assert(r@ =~= v@);
    }
    r
}

impl Device {
    /// A fresh device: no resources, nothing bound, unit 0 active.
    pub fn new() -> (d: Device)
        ensures
            d@.wf(),
            d@.buffers == Seq::<BufferObj>::empty(),
            d@.arrays == Seq::<bool>::empty(),
            d@.attribs == Seq::<AttribSlot>::empty(),
            d@.shaders == Seq::<ShaderObj>::empty(),
            d@.programs == Seq::<ProgramObj>::empty(),
            d@.uniforms == Seq::<UniformWrite>::empty(),
            d@.textures == Seq::<TextureObj>::empty(),
            d@.bound_array_buffer == 0,
            d@.bound_element_buffer == 0,
            d@.bound_vertex_array == 0,
            d@.current_program == 0,
            d@.active_unit == 0,
            d@.units == Seq::new(MAX_TEXTURE_UNITS as nat, |i: int| 0u32),
    {
        let mut units: Vec<u32> = Vec::new();
        let mut k: u32 = 0;
        while k < MAX_TEXTURE_UNITS
            invariant
                k <= MAX_TEXTURE_UNITS,
                units@ == Seq::new(k as nat, |i: int| 0u32),
            decreases MAX_TEXTURE_UNITS - k,
        {
            units.push(0);
            proof {
                assert(units@ =~= Seq::new((k + 1) as nat, |i: int| 0u32));
            }
            k = k + 1;
        }
        Device {
            buffers: Vec::new(),
            arrays: Vec::new(),
            attribs: Vec::new(),
            shaders: Vec::new(),
            programs: Vec::new(),
            uniforms: Vec::new(),
            textures: Vec::new(),
            bound_array_buffer: 0,
            bound_element_buffer: 0,
            bound_vertex_array: 0,
            current_program: 0,
            active_unit: 0,
            units,
        }
    }

    /// Allocates a fresh buffer handle.
    pub fn fresh_buffer(&mut self) -> (id: u32)
        requires
            old(self)@.wf(),
            old(self)@.buffers.len() < 0xFFFF_FFFF,
        ensures
            final(self)@.wf(),
            id == old(self)@.buffers.len() + 1,
            !old(self)@.buffer_live(id),
            final(self)@.buffer_live(id),
            final(self)@ == (DeviceView { buffers: final(self)@.buffers, ..old(self)@ }),
            final(self)@.buffers == old(self)@.buffers.push(final(self)@.buffers.last()),
            final(self)@.buffers.last().alive,
            !final(self)@.buffers.last().uploaded,
            final(self)@.buffers.last().contents@ == Seq::<u8>::empty(),
    {
        let id = (self.buffers.len() as u32) + 1;
        self.buffers.push(BufferObj { alive: true, uploaded: false, contents: Vec::new() });
        id
    }

    /// Binds a buffer (or 0) to a target slot.
    pub fn bind_buffer(&mut self, kind: BufferType, id: u32)
        requires
            old(self)@.wf(),
            id == 0 || old(self)@.buffer_live(id),
        ensures
            final(self)@.wf(),
            final(self)@ == match kind {
                BufferType::Array => (DeviceView { bound_array_buffer: id, ..old(self)@ }),
                BufferType::ElementArray => (DeviceView {
                    bound_element_buffer: id,
                    ..old(self)@
                }),
            },
    {
        match kind {
            BufferType::Array => {
                self.bound_array_buffer = id;
            },
            BufferType::ElementArray => {
                self.bound_element_buffer = id;
            },
        }
    }

    /// Stores a payload in the buffer bound to `kind`. The driver sizes the
    /// store to exactly the payload; this model keeps the bytes themselves.
    pub fn upload_bound(&mut self, kind: BufferType, bytes: Vec<u8>)
        requires
            old(self)@.wf(),
            old(self)@.buffer_live(old(self)@.bound_buffer(kind)),
        ensures
            final(self)@.wf(),
            final(self)@ == (DeviceView { buffers: final(self)@.buffers, ..old(self)@ }),
            final(self)@.buffers == old(self)@.buffers.update(
                old(self)@.bound_buffer(kind) - 1,
                final(self)@.buffers[old(self)@.bound_buffer(kind) - 1],
            ),
            final(self)@.buffers[old(self)@.bound_buffer(kind) - 1].alive,
            final(self)@.buffers[old(self)@.bound_buffer(kind) - 1].uploaded,
            final(self)@.buffers[old(self)@.bound_buffer(kind) - 1].contents == bytes,
            spec_read_buffer(final(self)@, old(self)@.bound_buffer(kind)) == Some(bytes@),
    {
        let id = match kind {
            BufferType::Array => self.bound_array_buffer,
            BufferType::ElementArray => self.bound_element_buffer,
        };
        let idx = (id - 1) as usize;
        self.buffers.set(idx, BufferObj { alive: true, uploaded: true, contents: bytes });
    }

    /// Reads a buffer's payload back, if the handle is live and uploaded.
    pub fn read_buffer(&self, id: u32) -> (r: Option<Vec<u8>>)
        ensures
            r is Some <==> spec_read_buffer(self@, id) is Some,
            r matches Some(b) ==> spec_read_buffer(self@, id) == Some(b@),
    {
        if id >= 1 && (id as usize) <= self.buffers.len() {
            let idx = (id - 1) as usize;
            if self.buffers[idx].alive && self.buffers[idx].uploaded {
                Some(clone_bytes(&self.buffers[idx].contents))
            } else {
                None
            }
        } else {
            None
        }
    }

    /// Marks a buffer dead and clears any target slot it was bound to, as
    /// the driver does when a bound buffer is deleted. Dead or unallocated
    /// handles are ignored.
    pub fn delete_buffer(&mut self, id: u32)
        requires
            old(self)@.wf(),
        ensures
            final(self)@.wf(),
            !final(self)@.buffer_live(id),
            final(self)@.buffers.len() == old(self)@.buffers.len(),
            forall|j: int|
                0 <= j < old(self)@.buffers.len() && j != id - 1 ==> final(self)@.buffers[j]
                    == old(self)@.buffers[j],
            old(self)@.buffer_live(id) ==> {
                &&& !final(self)@.buffers[id - 1].alive
                &&& final(self)@.bound_array_buffer == if old(self)@.bound_array_buffer == id {
                    0u32
                } else {
                    old(self)@.bound_array_buffer
                }
                &&& final(self)@.bound_element_buffer == if old(self)@.bound_element_buffer
                    == id {
                    0u32
                } else {
                    old(self)@.bound_element_buffer
                }
            },
            !old(self)@.buffer_live(id) ==> final(self)@ == old(self)@,
            final(self)@ == (DeviceView {
                buffers: final(self)@.buffers,
                bound_array_buffer: final(self)@.bound_array_buffer,
                bound_element_buffer: final(self)@.bound_element_buffer,
                ..old(self)@
            }),
    {
        if id >= 1 && (id as usize) <= self.buffers.len() {
            let idx = (id - 1) as usize;
            if self.buffers[idx].alive {
                self.buffers.set(
                    idx,
                    BufferObj { alive: false, uploaded: false, contents: Vec::new() },
                );
                if self.bound_array_buffer == id {
                    self.bound_array_buffer = 0;
                }
                if self.bound_element_buffer == id {
                    self.bound_element_buffer = 0;
                }
            }
        }
    }

    /// Allocates a fresh vertex-array handle with all-blank attribute slots.
    pub fn fresh_vertex_array(&mut self) -> (id: u32)
        requires
            old(self)@.wf(),
            old(self)@.arrays.len() < 0xFFFF_FFFF,
        ensures
            final(self)@.wf(),
            id == old(self)@.arrays.len() + 1,
            !old(self)@.vao_live(id),
            final(self)@.vao_live(id),
            final(self)@ == (DeviceView {
                arrays: final(self)@.arrays,
                attribs: final(self)@.attribs,
                ..old(self)@
            }),
            final(self)@.arrays == old(self)@.arrays.push(true),
            final(self)@.attribs == old(self)@.attribs + Seq::new(
                MAX_VERTEX_ATTRIBS as nat,
                |i: int| blank_attrib(),
            ),
            forall|s: u32|
                s < MAX_VERTEX_ATTRIBS ==> #[trigger] final(self)@.attrib_at(id, s)
                    == blank_attrib(),
    {
        let id = (self.arrays.len() as u32) + 1;
        let mut fresh: Vec<AttribSlot> = Vec::new();
        let mut k: u32 = 0;
        while k < MAX_VERTEX_ATTRIBS
            invariant
                k <= MAX_VERTEX_ATTRIBS,
                fresh@ == Seq::new(k as nat, |i: int| blank_attrib()),
            decreases MAX_VERTEX_ATTRIBS - k,
        {
            fresh.push(
                AttribSlot {
                    declared: false,
                    enabled: false,
                    buffer: 0,
                    components: 0,
                    type_code: 0,
                    comp_bytes: 0,
                    normalized: false,
                    stride: 0,
                    offset: 0,
                },
            );
            proof {
                assert(fresh@ =~= Seq::new((k + 1) as nat, |i: int| blank_attrib()));
            }
            k = k + 1;
        }
        self.arrays.push(true);
        self.attribs.append(&mut fresh);
        id
    }

    /// Binds a vertex array (or 0) as the current one.
    pub fn bind_vertex_array(&mut self, id: u32)
        requires
            old(self)@.wf(),
            id == 0 || old(self)@.vao_live(id),
        ensures
            final(self)@.wf(),
            final(self)@ == (DeviceView { bound_vertex_array: id, ..old(self)@ }),
    {
        self.bound_vertex_array = id;
    }

    /// Declares how draws read attribute slot `slot` of the bound vertex
    /// array: the source is the buffer currently bound to the array target,
    /// captured now, as the driver captures it.
    pub fn set_attrib(
        &mut self,
        slot: u32,
        components: u32,
        type_code: u32,
        comp_bytes: u32,
        normalized: bool,
        stride: u32,
        offset: u32,
    )
        requires
            old(self)@.wf(),
            slot < MAX_VERTEX_ATTRIBS,
            old(self)@.vao_live(old(self)@.bound_vertex_array),
            old(self)@.buffer_live(old(self)@.bound_array_buffer),
        ensures
            final(self)@.wf(),
            final(self)@ == (DeviceView {
                attribs: old(self)@.attribs.update(
                    old(self)@.attrib_index(old(self)@.bound_vertex_array, slot),
                    (AttribSlot {
                        declared: true,
                        enabled: old(self)@.attrib_at(old(self)@.bound_vertex_array, slot).enabled,
                        buffer: old(self)@.bound_array_buffer,
                        components,
                        type_code,
                        comp_bytes,
                        normalized,
                        stride,
                        offset,
                    }),
                ),
                ..old(self)@
            }),
    {
        let vao = self.bound_vertex_array;
        let n: usize = self.attribs.len();
        let aidx64: u64 = ((vao - 1) as u64) * (MAX_VERTEX_ATTRIBS as u64) + (slot as u64);
        proof {
            assert(aidx64 < n as u64);
        }
        let aidx = aidx64 as usize;
        let prev = self.attribs[aidx];
        self.attribs.set(
            aidx,
            AttribSlot {
                declared: true,
                enabled: prev.enabled,
                buffer: self.bound_array_buffer,
                components,
                type_code,
                comp_bytes,
                normalized,
                stride,
                offset,
            },
        );
    }

    /// Enables attribute slot `slot` of the bound vertex array for draws.
    pub fn enable_attrib(&mut self, slot: u32)
        requires
            old(self)@.wf(),
            slot < MAX_VERTEX_ATTRIBS,
            old(self)@.vao_live(old(self)@.bound_vertex_array),
        ensures
            final(self)@.wf(),
            final(self)@ == (DeviceView {
                attribs: old(self)@.attribs.update(
                    old(self)@.attrib_index(old(self)@.bound_vertex_array, slot),
                    (AttribSlot {
                        enabled: true,
                        ..old(self)@.attrib_at(old(self)@.bound_vertex_array, slot)
                    }),
                ),
                ..old(self)@
            }),
    {
        let vao = self.bound_vertex_array;
        let n: usize = self.attribs.len();
        let aidx64: u64 = ((vao - 1) as u64) * (MAX_VERTEX_ATTRIBS as u64) + (slot as u64);
        proof {
            assert(aidx64 < n as u64);
        }
        let aidx = aidx64 as usize;
        let prev = self.attribs[aidx];
        self.attribs.set(aidx, AttribSlot { enabled: true, ..prev });
    }

    /// Marks a vertex array dead; unbinds it if it was the bound one. Dead
    /// or unallocated handles are ignored. Its attribute slots are blanked.
    pub fn delete_vertex_array(&mut self, id: u32)
        requires
            old(self)@.wf(),
        ensures
            final(self)@.wf(),
            !final(self)@.vao_live(id),
            final(self)@.arrays.len() == old(self)@.arrays.len(),
            final(self)@.attribs.len() == old(self)@.attribs.len(),
            forall|j: int|
                0 <= j < old(self)@.arrays.len() && j != id - 1 ==> final(self)@.arrays[j]
                    == old(self)@.arrays[j],
            old(self)@.vao_live(id) ==> {
                &&& !final(self)@.arrays[id - 1]
                &&& final(self)@.bound_vertex_array == if old(self)@.bound_vertex_array == id {
                    0u32
                } else {
                    old(self)@.bound_vertex_array
                }
            },
            !old(self)@.vao_live(id) ==> final(self)@ == old(self)@,
            final(self)@ == (DeviceView {
                arrays: final(self)@.arrays,
                attribs: final(self)@.attribs,
                bound_vertex_array: final(self)@.bound_vertex_array,
                ..old(self)@
            }),
    {
        if id >= 1 && (id as usize) <= self.arrays.len() {
            let idx = (id - 1) as usize;
            if self.arrays[idx] {
                self.arrays.set(idx, false);
                if self.bound_vertex_array == id {
                    self.bound_vertex_array = 0;
                }
            }
        }
    }
}

/// How many shader stage handles are currently alive; stages are consumed
/// by a successful or failed link, so this returns to zero once every
/// builder has linked.
pub open spec fn count_live_shaders(s: Seq<ShaderObj>) -> int
    decreases s.len(),
{
    if s.len() == 0 {
        0
    } else {
        count_live_shaders(s.drop_last()) + if s.last().alive {
            1int
        } else {
            0int
        }
    }
}

/// The value the driver hands a program for a uniform name: the last
/// recorded write to that program and name, if any.
pub open spec fn spec_uniform_value(
    writes: Seq<UniformWrite>,
    program: u32,
    name: Seq<char>,
) -> Option<u32>
    decreases writes.len(),
{
    if writes.len() == 0 {
        None
    } else if writes.last().program == program && writes.last().name@ == name {
        Some(writes.last().value)
    } else {
        spec_uniform_value(writes.drop_last(), program, name)
    }
}

/// Updates one sampling parameter of a texture object.
pub open spec fn spec_set_tex_param(t: TextureObj, param: crate::command::TexParam, value: u32) -> TextureObj {
    match param {
        crate::command::TexParam::WrapS => TextureObj { wrap_s: value, ..t },
        crate::command::TexParam::WrapT => TextureObj { wrap_t: value, ..t },
        crate::command::TexParam::MinFilter => TextureObj { min_filter: value, ..t },
        crate::command::TexParam::MagFilter => TextureObj { mag_filter: value, ..t },
    }
}

impl Device {
    /// Allocates a fresh shader stage handle holding the given source text.
    pub fn fresh_shader(&mut self, kind: ShaderType, source: String) -> (id: u32)
        requires
            old(self)@.wf(),
            old(self)@.shaders.len() < 0xFFFF_FFFF,
        ensures
            final(self)@.wf(),
            id == old(self)@.shaders.len() + 1,
            !old(self)@.shader_live(id),
            final(self)@.shader_live(id),
            final(self)@ == (DeviceView { shaders: final(self)@.shaders, ..old(self)@ }),
            final(self)@.shaders == old(self)@.shaders.push(final(self)@.shaders.last()),
            final(self)@.shaders.last().alive,
            final(self)@.shaders.last().kind == kind,
            final(self)@.shaders.last().source == source,
            count_live_shaders(final(self)@.shaders) == count_live_shaders(old(self)@.shaders)
                + 1,
    {
        let id = (self.shaders.len() as u32) + 1;
        self.shaders.push(ShaderObj { alive: true, kind, source });
        proof {
            assert(self.shaders@.drop_last() =~= old(self).shaders@);
        }
        id
    }

    /// Marks a shader stage dead, releasing its handle. Dead or unallocated
    /// handles are ignored.
    pub fn delete_shader(&mut self, id: u32)
        requires
            old(self)@.wf(),
        ensures
            final(self)@.wf(),
            !final(self)@.shader_live(id),
            final(self)@.shaders.len() == old(self)@.shaders.len(),
            forall|j: int|
                0 <= j < old(self)@.shaders.len() && j != id - 1 ==> final(self)@.shaders[j]
                    == old(self)@.shaders[j],
            old(self)@.shader_live(id) ==> !final(self)@.shaders[id - 1].alive
                && count_live_shaders(final(self)@.shaders) == count_live_shaders(
                old(self)@.shaders,
            ) - 1,
            !old(self)@.shader_live(id) ==> final(self)@ == old(self)@,
            final(self)@ == (DeviceView { shaders: final(self)@.shaders, ..old(self)@ }),
    {
        if id >= 1 && (id as usize) <= self.shaders.len() {
            let idx = (id - 1) as usize;
            if self.shaders[idx].alive {
                let kind = self.shaders[idx].kind;
                self.shaders.set(idx, ShaderObj { alive: false, kind, source: String::new() });
                proof {
                    lemma_count_live_update(old(self)@.shaders, idx as int, self@.shaders[idx as int]);
                }
            }
        }
    }

    /// Counts the live shader stage handles.
    pub fn live_shaders(&self) -> (n: u64)
        requires
            self@.shaders.len() < 0xFFFF_FFFF_FFFF_FFFF,
        ensures
            n == count_live_shaders(self@.shaders),
    {
        let mut n: u64 = 0;
        let mut i: usize = 0;
        while i < self.shaders.len()
            invariant
                i <= self.shaders@.len(),
                self@.shaders.len() < 0xFFFF_FFFF_FFFF_FFFF,
                n == count_live_shaders(self@.shaders.subrange(0, i as int)),
                n <= i,
            decreases self.shaders@.len() - i,
        {
            proof {
                assert(self@.shaders.subrange(0, i + 1).drop_last() =~= self@.shaders.subrange(
                    0,
                    i as int,
                ));
                assert(self@.shaders.subrange(0, i + 1).last() == self@.shaders[i as int]);
            }
            if self.shaders[i].alive {
                n = n + 1;
            }
            i = i + 1;
        }
        proof {
            assert(self@.shaders.subrange(0, self@.shaders.len() as int) =~= self@.shaders);
        }
        n
    }

    /// Allocates a fresh program handle, not yet linked.
    pub fn fresh_program(&mut self) -> (id: u32)
        requires
            old(self)@.wf(),
            old(self)@.programs.len() < 0xFFFF_FFFF,
        ensures
            final(self)@.wf(),
            id == old(self)@.programs.len() + 1,
            !old(self)@.program_live(id),
            final(self)@.program_live(id),
            final(self)@ == (DeviceView {
                programs: old(self)@.programs.push((ProgramObj { alive: true, linked: false })),
                ..old(self)@
            }),
    {
        let id = (self.programs.len() as u32) + 1;
        self.programs.push(ProgramObj { alive: true, linked: false });
        id
    }

    /// Marks a program linked: its executable form now exists.
    pub fn link_program(&mut self, id: u32)
        requires
            old(self)@.wf(),
            old(self)@.program_live(id),
        ensures
            final(self)@.wf(),
            final(self)@ == (DeviceView {
                programs: old(self)@.programs.update(
                    id - 1,
                    (ProgramObj { alive: true, linked: true }),
                ),
                ..old(self)@
            }),
    {
        let idx = (id - 1) as usize;
        self.programs.set(idx, ProgramObj { alive: true, linked: true });
    }

    /// Makes a program the current one for draws and uniform writes; only a
    /// program whose link step has run is usable.
    pub fn set_current_program(&mut self, id: u32)
        requires
            old(self)@.wf(),
            old(self)@.program_live(id),
            old(self)@.programs[id - 1].linked,
        ensures
            final(self)@.wf(),
            final(self)@ == (DeviceView { current_program: id, ..old(self)@ }),
    {
        self.current_program = id;
    }

    /// Records a uniform write on the current program. The model's programs
    /// accept every name; the real driver silently ignores names the linked
    /// program does not declare.
    pub fn push_uniform(&mut self, program: u32, name: String, value: u32)
        requires
            old(self)@.wf(),
            old(self)@.program_live(program),
            old(self)@.current_program == program,
        ensures
            final(self)@.wf(),
            final(self)@ == (DeviceView { uniforms: final(self)@.uniforms, ..old(self)@ }),
            final(self)@.uniforms == old(self)@.uniforms.push(final(self)@.uniforms.last()),
            final(self)@.uniforms.last().program == program,
            final(self)@.uniforms.last().name == name,
            final(self)@.uniforms.last().value == value,
            spec_uniform_value(final(self)@.uniforms, program, name@) == Some(value),
            forall|p: u32, n: Seq<char>|
                !(p == program && n == name@) ==> spec_uniform_value(final(self)@.uniforms, p, n)
                    == spec_uniform_value(old(self)@.uniforms, p, n),
    {
        let ghost prev = self.uniforms@;
        self.uniforms.push(UniformWrite { program, name, value });
        proof {
            assert(self.uniforms@.drop_last() =~= prev);
        }
    }

    /// Marks a program dead. The driver defers actual deletion while the
    /// program is current, so the current-program slot is left as it is.
    /// Dead or unallocated handles are ignored.
    pub fn delete_program(&mut self, id: u32)
        requires
            old(self)@.wf(),
        ensures
            final(self)@.wf(),
            !final(self)@.program_live(id),
            final(self)@.programs.len() == old(self)@.programs.len(),
            forall|j: int|
                0 <= j < old(self)@.programs.len() && j != id - 1 ==> final(self)@.programs[j]
                    == old(self)@.programs[j],
            old(self)@.program_live(id) ==> !final(self)@.programs[id - 1].alive,
            !old(self)@.program_live(id) ==> final(self)@ == old(self)@,
            final(self)@ == (DeviceView { programs: final(self)@.programs, ..old(self)@ }),
    {
        if id >= 1 && (id as usize) <= self.programs.len() {
            let idx = (id - 1) as usize;
            if self.programs[idx].alive {
                self.programs.set(idx, ProgramObj { alive: false, linked: false });
            }
        }
    }
}

impl Device {
    /// Allocates a fresh texture handle: no image, parameters zeroed.
    pub fn fresh_texture(&mut self) -> (id: u32)
        requires
            old(self)@.wf(),
            old(self)@.textures.len() < 0xFFFF_FFFF,
        ensures
            final(self)@.wf(),
            id == old(self)@.textures.len() + 1,
            !old(self)@.texture_live(id),
            final(self)@.texture_live(id),
            final(self)@ == (DeviceView { textures: final(self)@.textures, ..old(self)@ }),
            final(self)@.textures == old(self)@.textures.push(final(self)@.textures.last()),
            final(self)@.textures.last().alive,
            final(self)@.textures.last().wrap_s == 0,
            final(self)@.textures.last().wrap_t == 0,
            final(self)@.textures.last().min_filter == 0,
            final(self)@.textures.last().mag_filter == 0,
            !final(self)@.textures.last().has_image,
            !final(self)@.textures.last().mipmapped,
            final(self)@.textures.last().pixels@ == Seq::<u8>::empty(),
    {
        let id = (self.textures.len() as u32) + 1;
        self.textures.push(
            TextureObj {
                alive: true,
                wrap_s: 0,
                wrap_t: 0,
                min_filter: 0,
                mag_filter: 0,
                has_image: false,
                img_width: 0,
                img_height: 0,
                img_format: TextureFormat::Rgb,
                pixels: Vec::new(),
                mipmapped: false,
            },
        );
        id
    }

    /// Selects the active texture unit.
    pub fn active_texture(&mut self, unit: u32)
        requires
            old(self)@.wf(),
            unit < MAX_TEXTURE_UNITS,
        ensures
            final(self)@.wf(),
            final(self)@ == (DeviceView { active_unit: unit, ..old(self)@ }),
    {
        self.active_unit = unit;
    }

    /// Binds a texture to the active unit's 2D slot.
    pub fn bind_texture(&mut self, id: u32)
        requires
            old(self)@.wf(),
            old(self)@.texture_live(id),
        ensures
            final(self)@.wf(),
            final(self)@ == (DeviceView {
                units: old(self)@.units.update(old(self)@.active_unit as int, id),
                ..old(self)@
            }),
            final(self)@.bound_texture() == id,
    {
        let u = self.active_unit as usize;
        self.units.set(u, id);
    }

    /// Sets one sampling parameter of the texture bound to the active unit.
    pub fn tex_parameter(&mut self, param: crate::command::TexParam, value: u32)
        requires
            old(self)@.wf(),
            old(self)@.texture_live(old(self)@.bound_texture()),
        ensures
            final(self)@.wf(),
            final(self)@ == (DeviceView {
                textures: old(self)@.textures.update(
                    old(self)@.bound_texture() - 1,
                    spec_set_tex_param(
                        old(self)@.textures[old(self)@.bound_texture() - 1],
                        param,
                        value,
                    ),
                ),
                ..old(self)@
            }),
    {
        let tid = self.units[self.active_unit as usize];
        let idx = (tid - 1) as usize;
        let mut obj = blank_texture_obj();
        self.textures.set_and_swap(idx, &mut obj);
        match param {
            crate::command::TexParam::WrapS => {
                obj.wrap_s = value;
            },
            crate::command::TexParam::WrapT => {
                obj.wrap_t = value;
            },
            crate::command::TexParam::MinFilter => {
                obj.min_filter = value;
            },
            crate::command::TexParam::MagFilter => {
                obj.mag_filter = value;
            },
        }
        self.textures.set(idx, obj);
        proof {
            assert(self@.textures =~= old(self)@.textures.update(
                old(self)@.bound_texture() - 1,
                spec_set_tex_param(
                    old(self)@.textures[old(self)@.bound_texture() - 1],
                    param,
                    value,
                ),
            ));
        }
    }

    /// Stores the base-level image of the texture bound to the active unit.
    /// The payload must match the declared extent and format exactly.
    pub fn tex_image_2d(&mut self, width: u32, height: u32, format: TextureFormat, pixels: Vec<u8>)
        requires
            old(self)@.wf(),
            old(self)@.texture_live(old(self)@.bound_texture()),
            pixels@.len() == width * height * format.spec_channels(),
        ensures
            final(self)@.wf(),
            final(self)@ == (DeviceView {
                textures: old(self)@.textures.update(
                    old(self)@.bound_texture() - 1,
                    (TextureObj {
                        has_image: true,
                        img_width: width,
                        img_height: height,
                        img_format: format,
                        pixels,
                        mipmapped: false,
                        ..old(self)@.textures[old(self)@.bound_texture() - 1]
                    }),
                ),
                ..old(self)@
            }),
    {
        let tid = self.units[self.active_unit as usize];
        let idx = (tid - 1) as usize;
        let mut obj = blank_texture_obj();
        self.textures.set_and_swap(idx, &mut obj);
        obj.has_image = true;
        obj.img_width = width;
        obj.img_height = height;
        obj.img_format = format;
        obj.pixels = pixels;
        obj.mipmapped = false;
        self.textures.set(idx, obj);
        proof {
            assert(self@.textures =~= old(self)@.textures.update(
                old(self)@.bound_texture() - 1,
                (TextureObj {
                    has_image: true,
                    img_width: width,
                    img_height: height,
                    img_format: format,
                    pixels,
                    mipmapped: false,
                    ..old(self)@.textures[old(self)@.bound_texture() - 1]
                }),
            ));
        }
    }

    /// Derives the full mipmap chain of the texture bound to the active
    /// unit from its base-level image.
    pub fn generate_mipmap(&mut self)
        requires
            old(self)@.wf(),
            old(self)@.texture_live(old(self)@.bound_texture()),
            old(self)@.textures[old(self)@.bound_texture() - 1].has_image,
        ensures
            final(self)@.wf(),
            final(self)@ == (DeviceView {
                textures: old(self)@.textures.update(
                    old(self)@.bound_texture() - 1,
                    (TextureObj {
                        mipmapped: true,
                        ..old(self)@.textures[old(self)@.bound_texture() - 1]
                    }),
                ),
                ..old(self)@
            }),
    {
        let tid = self.units[self.active_unit as usize];
        let idx = (tid - 1) as usize;
        let mut obj = blank_texture_obj();
        self.textures.set_and_swap(idx, &mut obj);
        obj.mipmapped = true;
        self.textures.set(idx, obj);
        proof {
            assert(self@.textures =~= old(self)@.textures.update(
                old(self)@.bound_texture() - 1,
                (TextureObj {
                    mipmapped: true,
                    ..old(self)@.textures[old(self)@.bound_texture() - 1]
                }),
            ));
        }
    }

    /// Marks a texture dead and clears every unit it was bound to, as the
    /// driver does. Dead or unallocated handles are ignored.
    pub fn delete_texture(&mut self, id: u32)
        requires
            old(self)@.wf(),
        ensures
            final(self)@.wf(),
            !final(self)@.texture_live(id),
            final(self)@.textures.len() == old(self)@.textures.len(),
            forall|j: int|
                0 <= j < old(self)@.textures.len() && j != id - 1 ==> final(self)@.textures[j]
                    == old(self)@.textures[j],
            old(self)@.texture_live(id) ==> !final(self)@.textures[id - 1].alive
                && final(self)@.units == old(self)@.units.map(
                |i: int, u: u32| if u == id { 0u32 } else { u },
            ),
            !old(self)@.texture_live(id) ==> final(self)@ == old(self)@,
            final(self)@ == (DeviceView {
                textures: final(self)@.textures,
                units: final(self)@.units,
                ..old(self)@
            }),
    {
        if id >= 1 && (id as usize) <= self.textures.len() {
            let idx = (id - 1) as usize;
            if self.textures[idx].alive {
                self.textures.set(idx, blank_texture_obj());
                let ghost mapped = old(self)@.units.map(
                    |i: int, u: u32| if u == id { 0u32 } else { u },
                );
                let mut k: usize = 0;
                while k < self.units.len()
                    invariant
                        k <= self.units@.len(),
                        self.units@.len() == old(self)@.units.len(),
                        mapped == old(self)@.units.map(
                            |i: int, u: u32| if u == id { 0u32 } else { u },
                        ),
                        forall|j: int| 0 <= j < k ==> self.units@[j] == mapped[j],
                        forall|j: int|
                            k <= j < self.units@.len() ==> self.units@[j] == old(self)@.units[j],
                        1 <= id <= old(self)@.textures.len(),
                        self@.textures.len() == old(self)@.textures.len(),
                        !self@.textures[id - 1].alive,
                        forall|j: int|
                            0 <= j < old(self)@.textures.len() && j != id - 1
                                ==> self@.textures[j] == old(self)@.textures[j],
                        self@ == (DeviceView {
                            textures: self@.textures,
                            units: self@.units,
                            ..old(self)@
                        }),
                    decreases self.units@.len() - k,
                {
                    if self.units[k] == id {
                        self.units.set(k, 0);
                    }
                    k = k + 1;
                }
                proof {
                    assert(self.units@ =~= mapped);
                }
            }
        }
    }
}

impl Device {
    /// Whether a buffer handle is allocated and not deleted.
    pub fn is_buffer_live(&self, id: u32) -> (r: bool)
        ensures
            r == self@.buffer_live(id),
    {
        id >= 1 && (id as usize) <= self.buffers.len() && self.buffers[(id - 1) as usize].alive
    }

    /// Whether a vertex-array handle is allocated and not deleted.
    pub fn is_vertex_array_live(&self, id: u32) -> (r: bool)
        ensures
            r == self@.vao_live(id),
    {
        id >= 1 && (id as usize) <= self.arrays.len() && self.arrays[(id - 1) as usize]
    }

    /// Whether a shader stage handle is allocated and not deleted.
    pub fn is_shader_live(&self, id: u32) -> (r: bool)
        ensures
            r == self@.shader_live(id),
    {
        id >= 1 && (id as usize) <= self.shaders.len() && self.shaders[(id - 1) as usize].alive
    }

    /// Whether a program handle is allocated and not deleted.
    pub fn is_program_live(&self, id: u32) -> (r: bool)
        ensures
            r == self@.program_live(id),
    {
        id >= 1 && (id as usize) <= self.programs.len() && self.programs[(id - 1) as usize].alive
    }

    /// Whether a program has been linked.
    pub fn is_program_linked(&self, id: u32) -> (r: bool)
        ensures
            r == (self@.program_live(id) && self@.programs[id - 1].linked),
    {
        id >= 1 && (id as usize) <= self.programs.len() && self.programs[(id - 1) as usize].alive
            && self.programs[(id - 1) as usize].linked
    }

    /// Whether a texture handle is allocated and not deleted.
    pub fn is_texture_live(&self, id: u32) -> (r: bool)
        ensures
            r == self@.texture_live(id),
    {
        id >= 1 && (id as usize) <= self.textures.len() && self.textures[(id - 1) as usize].alive
    }

    /// The active texture unit.
    pub fn active_unit(&self) -> (u: u32)
        ensures
            u == self@.active_unit,
    {
        self.active_unit
    }

    /// The texture bound to a unit (0 = none).
    pub fn unit_binding(&self, unit: u32) -> (r: u32)
        requires
            self@.wf(),
            unit < MAX_TEXTURE_UNITS,
        ensures
            r == self@.units[unit as int],
    {
        self.units[unit as usize]
    }

    /// The buffer bound to a target (0 = none).
    pub fn buffer_binding(&self, kind: BufferType) -> (r: u32)
        ensures
            r == self@.bound_buffer(kind),
    {
        match kind {
            BufferType::Array => self.bound_array_buffer,
            BufferType::ElementArray => self.bound_element_buffer,
        }
    }

    /// The bound vertex array (0 = none).
    pub fn vertex_array_binding(&self) -> (r: u32)
        ensures
            r == self@.bound_vertex_array,
    {
        self.bound_vertex_array
    }

    /// The current program (0 = none).
    pub fn current_program_id(&self) -> (r: u32)
        ensures
            r == self@.current_program,
    {
        self.current_program
    }

    /// A live texture's sampling parameters: wrap on both axes, then the
    /// minification and magnification filters.
    pub fn texture_settings(&self, id: u32) -> (r: Option<(u32, u32, u32, u32)>)
        ensures
            r is Some <==> self@.texture_live(id),
            r matches Some(t) ==> {
                &&& t.0 == self@.textures[id - 1].wrap_s
                &&& t.1 == self@.textures[id - 1].wrap_t
                &&& t.2 == self@.textures[id - 1].min_filter
                &&& t.3 == self@.textures[id - 1].mag_filter
            },
    {
        if id >= 1 && (id as usize) <= self.textures.len() {
            let idx = (id - 1) as usize;
            if self.textures[idx].alive {
                Some(
                    (
                        self.textures[idx].wrap_s,
                        self.textures[idx].wrap_t,
                        self.textures[idx].min_filter,
                        self.textures[idx].mag_filter,
                    ),
                )
            } else {
                None
            }
        } else {
            None
        }
    }

    /// A live texture's base-level extent and whether its mipmap chain was
    /// derived; `None` when dead or before any upload.
    pub fn texture_extent(&self, id: u32) -> (r: Option<(u32, u32, bool)>)
        ensures
            r is Some <==> self@.texture_live(id) && self@.textures[id - 1].has_image,
            r matches Some(t) ==> {
                &&& t.0 == self@.textures[id - 1].img_width
                &&& t.1 == self@.textures[id - 1].img_height
                &&& t.2 == self@.textures[id - 1].mipmapped
            },
    {
        if id >= 1 && (id as usize) <= self.textures.len() {
            let idx = (id - 1) as usize;
            if self.textures[idx].alive && self.textures[idx].has_image {
                Some(
                    (
                        self.textures[idx].img_width,
                        self.textures[idx].img_height,
                        self.textures[idx].mipmapped,
                    ),
                )
            } else {
                None
            }
        } else {
            None
        }
    }

    /// A live texture's uploaded base-level pixels.
    pub fn read_texture(&self, id: u32) -> (r: Option<Vec<u8>>)
        ensures
            r is Some <==> self@.texture_live(id) && self@.textures[id - 1].has_image,
            r matches Some(b) ==> b@ == self@.textures[id - 1].pixels@,
    {
        if id >= 1 && (id as usize) <= self.textures.len() {
            let idx = (id - 1) as usize;
            if self.textures[idx].alive && self.textures[idx].has_image {
                Some(clone_bytes(&self.textures[idx].pixels))
            } else {
                None
            }
        } else {
            None
        }
    }
}

/// A dead texture object with everything zeroed; the placeholder swapped in
/// while an entry is edited, and the value a deleted entry keeps.
fn blank_texture_obj() -> (r: TextureObj)
    ensures
        !r.alive,
{
    TextureObj {
        alive: false,
        wrap_s: 0,
        wrap_t: 0,
        min_filter: 0,
        mag_filter: 0,
        has_image: false,
        img_width: 0,
        img_height: 0,
        img_format: TextureFormat::Rgb,
        pixels: Vec::new(),
        mipmapped: false,
    }
}

/// Counting live stages: updating one entry to a dead one drops the count
/// by one if the entry was alive, else keeps it.
proof fn lemma_count_live_update(s: Seq<ShaderObj>, i: int, obj: ShaderObj)
    requires
        0 <= i < s.len(),
        !obj.alive,
    ensures
        count_live_shaders(s.update(i, obj)) == count_live_shaders(s) - if s[i].alive {
            1int
        } else {
            0int
        },
    decreases s.len(),
{
    if s.len() > 0 {
        if i == s.len() - 1 {
            assert(s.update(i, obj).drop_last() =~= s.drop_last());
        } else {
            assert(s.update(i, obj).drop_last() =~= s.drop_last().update(i, obj));
            lemma_count_live_update(s.drop_last(), i, obj);
        }
    }
}

/// What a draw call reads for vertex `vertex` from attribute slot `slot` of
/// vertex array `vao`: the declared number of components, each of the
/// declared component width, starting `offset` bytes into the slot's source
/// buffer and stepping `stride` bytes per vertex. `None` when the slot is
/// not both declared and enabled, or the source buffer cannot supply the
/// range (the real driver would read garbage there; the model refuses).
pub open spec fn spec_read_attribute(
    v: DeviceView,
    vao: u32,
    slot: u32,
    vertex: u32,
) -> Option<Seq<u8>> {
    if !(v.vao_live(vao) && slot < MAX_VERTEX_ATTRIBS) {
        None
    } else {
        let a = v.attrib_at(vao, slot);
        if !(a.declared && a.enabled) {
            None
        } else if !(v.buffer_live(a.buffer) && v.buffers[a.buffer - 1].uploaded) {
            None
        } else {
            let bytes = v.buffers[a.buffer - 1].contents@;
            let start = a.offset + vertex * a.stride;
            let need = a.components * a.comp_bytes;
            if start + need > bytes.len() {
                None
            } else {
                Some(bytes.subrange(start, start + need))
            }
        }
    }
}

impl Device {
    /// Reads back what a draw would fetch for one vertex from one slot.
    pub fn read_attribute(&self, vao: u32, slot: u32, vertex: u32) -> (r: Option<Vec<u8>>)
        requires
            self@.wf(),
        ensures
            r is Some <==> spec_read_attribute(self@, vao, slot, vertex) is Some,
            r matches Some(b) ==> spec_read_attribute(self@, vao, slot, vertex) == Some(b@),
    {
        if !(vao >= 1 && (vao as usize) <= self.arrays.len() && slot < MAX_VERTEX_ATTRIBS) {
            return None;
        }
        if !self.arrays[(vao - 1) as usize] {
            return None;
        }
        let n: usize = self.attribs.len();
        let base: u64 = (vao - 1) as u64;
        proof {
            assert(base * (MAX_VERTEX_ATTRIBS as u64) <= 0xFFFF_FFFEu64 * 16) by (nonlinear_arith)
                requires
                    base <= 0xFFFF_FFFEu64,
            ;
        }
        let aidx64: u64 = base * (MAX_VERTEX_ATTRIBS as u64) + (slot as u64);
        proof {
            let alen = self@.arrays.len() as int;
            assert(n == alen * 16);
            assert((vao - 1) * 16 + slot < alen * 16) by (nonlinear_arith)
                requires
                    1 <= vao,
                    vao <= alen,
                    slot < 16,
            ;
            assert(aidx64 < n as u64);
        }
        let a = self.attribs[aidx64 as usize];
        if !(a.declared && a.enabled) {
            return None;
        }
        if !(a.buffer >= 1 && (a.buffer as usize) <= self.buffers.len()) {
            return None;
        }
        let bidx = (a.buffer - 1) as usize;
        if !(self.buffers[bidx].alive && self.buffers[bidx].uploaded) {
            return None;
        }
        proof {
            vstd::arithmetic::mul::lemma_mul_upper_bound(
                vertex as int,
                0xFFFF_FFFF,
                a.stride as int,
                0xFFFF_FFFF,
            );
            vstd::arithmetic::mul::lemma_mul_upper_bound(
                a.components as int,
                0xFFFF_FFFF,
                a.comp_bytes as int,
                0xFFFF_FFFF,
            );
            vstd::arithmetic::mul::lemma_mul_nonnegative(vertex as int, a.stride as int);
            vstd::arithmetic::mul::lemma_mul_nonnegative(a.components as int, a.comp_bytes as int);
        }
        let start128: u128 = (a.offset as u128) + (vertex as u128) * (a.stride as u128);
        let need128: u128 = (a.components as u128) * (a.comp_bytes as u128);
        let blen: usize = self.buffers[bidx].contents.len();
        if start128 + need128 > (blen as u128) {
            return None;
        }
        let start = start128 as usize;
        let need = need128 as usize;
        let mut out: Vec<u8> = Vec::new();
        let mut i: usize = 0;
        while i < need
            invariant
                i <= need,
                bidx < self.buffers@.len(),
                blen == self.buffers@[bidx as int].contents@.len(),
                start + need <= blen,
                out@ == self.buffers@[bidx as int].contents@.subrange(
                    start as int,
                    start + i as int,
                ),
            decreases need - i,
        {
            out.push(self.buffers[bidx].contents[start + i]);
            proof {
                assert(out@ =~= self.buffers@[bidx as int].contents@.subrange(
                    start as int,
                    start + (i + 1) as int,
                ));
            }
            i = i + 1;
        }
        proof {
            assert(out@ =~= self.buffers@[bidx as int].contents@.subrange(
                start as int,
                start + need as int,
            ));
        }
        Some(out)
    }
}

} // verus!
