//! Shader stages, the program builder, and link/compile diagnostics.
//!
//! A program goes `empty -> (attach stage)* -> linked`. Stage handles are
//! consumed by the link step and released there, whether or not the driver
//! reports the link as successful; compile and link status is read back by
//! the shell and turned into a diagnostic by [`check_errors`], which is
//! surfaced rather than fatal.

use vstd::prelude::*;
use vstd::string::StringExecFns;

use crate::command::GlCommand;
use crate::device::count_live_shaders;
use crate::device::Device;
use crate::device::DeviceView;
use crate::device::ProgramObj;

verus! {

/// The pipeline stage a shader object belongs to.
#[derive(Clone, Copy, PartialEq, Eq, Structural, Debug)]
pub enum ShaderType {
    Fragment,
    Vertex,
}

/// Owner of one shader stage handle, from creation until a link consumes
/// it.
pub struct Shader {
    id: u32,
    t: ShaderType,
}

impl Shader {
    /// The owned stage handle; non-zero once constructed.
    pub closed spec fn spec_id(&self) -> u32 {
        self.id
    }

    /// The stage kind this shader was created as.
    pub closed spec fn spec_kind(&self) -> ShaderType {
        self.t
    }

    /// The owned stage handle, for observation and replay.
    pub fn id(&self) -> (id: u32)
        ensures
            id == self.spec_id(),
    {
        self.id
    }

    /// Creates a stage, hands it its source text and asks the driver to
    /// compile it. Compile status is read back separately (`check_errors`);
    /// the stage handle exists either way.
    pub fn new(dev: &mut Device, source: &str, t: ShaderType) -> (r: (Shader, Vec<GlCommand>))
        requires
            old(dev)@.wf(),
            old(dev)@.shaders.len() < 0xFFFF_FFFF,
        ensures
            final(dev)@.wf(),
            r.0.spec_id() == old(dev)@.shaders.len() + 1,
            r.0.spec_kind() == t,
            !old(dev)@.shader_live(r.0.spec_id()),
            final(dev)@.shader_live(r.0.spec_id()),
            final(dev)@ == (DeviceView { shaders: final(dev)@.shaders, ..old(dev)@ }),
            final(dev)@.shaders == old(dev)@.shaders.push(final(dev)@.shaders.last()),
            final(dev)@.shaders.last().alive,
            final(dev)@.shaders.last().kind == t,
            final(dev)@.shaders.last().source@ == source@,
            count_live_shaders(final(dev)@.shaders) == count_live_shaders(old(dev)@.shaders) + 1,
            r.1@.len() == 3,
            r.1@[0] == (GlCommand::CreateShader { id: r.0.spec_id(), kind: t }),
            (r.1@[1] matches GlCommand::ShaderSource { id: i1, source: s1 } && i1 == r.0.spec_id()
                && s1@ == source@),
            r.1@[2] == (GlCommand::CompileShader { id: r.0.spec_id() }),
    {
        let stored = String::from_str(source);
        let replay = String::from_str(source);
        let id = dev.fresh_shader(t, stored);
        let mut cs: Vec<GlCommand> = Vec::new();
        cs.push(GlCommand::CreateShader { id, kind: t });
        cs.push(GlCommand::ShaderSource { id, source: replay });
        cs.push(GlCommand::CompileShader { id });
        (Shader { id, t }, cs)
    }
}

/// A program being assembled: the pre-link program handle plus the stages
/// attached so far, whose ownership it has consumed.
pub struct Builder {
    id: u32,
    attached_shaders: Vec<Shader>,
}

/// A linked program; usable for draws and uniform writes.
pub struct ShaderProgram {
    pub id: u32,
}

impl Builder {
    /// The program handle under construction.
    pub closed spec fn spec_id(&self) -> u32 {
        self.id
    }

    /// Handles of the stages attached so far, in attach order.
    pub closed spec fn attached_ids(&self) -> Seq<u32> {
        self.attached_shaders@.map(|i: int, s: Shader| s.spec_id())
    }

    fn new(dev: &mut Device) -> (r: (Builder, GlCommand))
        requires
            old(dev)@.wf(),
            old(dev)@.programs.len() < 0xFFFF_FFFF,
        ensures
            final(dev)@.wf(),
            r.0.spec_id() == old(dev)@.programs.len() + 1,
            r.0.attached_ids() == Seq::<u32>::empty(),
            !old(dev)@.program_live(r.0.spec_id()),
            final(dev)@.program_live(r.0.spec_id()),
            !final(dev)@.programs[r.0.spec_id() - 1].linked,
            final(dev)@ == (DeviceView {
                programs: old(dev)@.programs.push((ProgramObj { alive: true, linked: false })),
                ..old(dev)@
            }),
            r.1 == (GlCommand::CreateProgram { id: r.0.spec_id() }),
    {
        let id = dev.fresh_program();
        let b = Builder { id, attached_shaders: Vec::new() };
        proof {
            assert(b.attached_ids() =~= Seq::<u32>::empty());
        }
        (b, GlCommand::CreateProgram { id })
    }

    /// Consumes one more stage into the pending link set. The device state
    /// does not change; the attached set lives with the builder until the
    /// link step consumes it.
    pub fn attach(self, dev: &mut Device, shader: Shader) -> (r: (Builder, GlCommand))
        requires
            old(dev)@.wf(),
            old(dev)@.program_live(self.spec_id()),
            old(dev)@.shader_live(shader.spec_id()),
        ensures
            final(dev)@.wf(),
            final(dev)@ == old(dev)@,
            r.0.spec_id() == self.spec_id(),
            r.0.attached_ids() == self.attached_ids().push(shader.spec_id()),
            r.1 == (GlCommand::AttachShader {
                program: self.spec_id(),
                shader: shader.spec_id(),
            }),
    {
        let ghost prev = self.attached_ids();
        let c = GlCommand::AttachShader { program: self.id, shader: shader.id };
        let mut b = self;
        b.attached_shaders.push(shader);
        proof {
            assert(b.attached_ids() =~= prev.push(shader.spec_id()));
        }
        (b, c)
    }

    /// Links the attached stages into the finished program and releases
    /// every attached stage handle — also on a failed link, so no stage
    /// handle outlives the link step. Link status is read back separately
    /// (`check_errors`).
    pub fn link(self, dev: &mut Device) -> (r: (ShaderProgram, Vec<GlCommand>))
        requires
            old(dev)@.wf(),
            old(dev)@.program_live(self.spec_id()),
        ensures
            final(dev)@.wf(),
            r.0.id == self.spec_id(),
            final(dev)@.program_live(r.0.id),
            final(dev)@.programs == old(dev)@.programs.update(
                self.spec_id() - 1,
                (ProgramObj { alive: true, linked: true }),
            ),
            forall|k: int|
                0 <= k < self.attached_ids().len() ==> !final(dev)@.shader_live(
                    #[trigger] self.attached_ids()[k],
                ),
            final(dev)@.shaders.len() == old(dev)@.shaders.len(),
            forall|j: int|
                0 <= j < old(dev)@.shaders.len() && !self.attached_ids().contains((j + 1) as u32)
                    ==> final(dev)@.shaders[j] == old(dev)@.shaders[j],
            final(dev)@ == (DeviceView {
                shaders: final(dev)@.shaders,
                programs: final(dev)@.programs,
                ..old(dev)@
            }),
            r.1@.len() == 1 + self.attached_ids().len(),
            r.1@[0] == (GlCommand::LinkProgram { id: self.spec_id() }),
            forall|k: int|
                0 <= k < self.attached_ids().len() ==> r.1@[1 + k] == (GlCommand::DeleteShader {
                    id: self.attached_ids()[k],
                }),
    {
        let Builder { id, attached_shaders } = self;
        let ghost ids = self.attached_ids();
        dev.link_program(id);
        let ghost mid = dev@;
        let mut cs: Vec<GlCommand> = Vec::new();
        cs.push(GlCommand::LinkProgram { id });
        let mut i: usize = 0;
        while i < attached_shaders.len()
            invariant
                i <= attached_shaders@.len(),
                ids == attached_shaders@.map(|n: int, s: Shader| s.spec_id()),
                dev@.wf(),
                dev@.shaders.len() == mid.shaders.len(),
                forall|k: int| 0 <= k < i ==> !dev@.shader_live(#[trigger] ids[k]),
                forall|j: int|
                    0 <= j < mid.shaders.len() && !ids.subrange(0, i as int).contains(
                        (j + 1) as u32,
                    ) ==> dev@.shaders[j] == mid.shaders[j],
                dev@ == (DeviceView { shaders: dev@.shaders, ..mid }),
                cs@.len() == 1 + i,
                cs@[0] == (GlCommand::LinkProgram { id }),
                forall|k: int|
                    0 <= k < i ==> cs@[1 + k] == (GlCommand::DeleteShader { id: ids[k] }),
            decreases attached_shaders@.len() - i,
        {
            let sid = attached_shaders[i].id;
            let ghost before = dev@;
            dev.delete_shader(sid);
            cs.push(GlCommand::DeleteShader { id: sid });
            proof {
                assert(ids.subrange(0, (i + 1) as int) =~= ids.subrange(0, i as int).push(
                    ids[i as int],
                ));
                assert forall|j: int|
                    0 <= j < mid.shaders.len() && !ids.subrange(0, (i + 1) as int).contains(
                        (j + 1) as u32,
                    ) implies dev@.shaders[j] == mid.shaders[j] by {
                    assert(!ids.subrange(0, i as int).contains((j + 1) as u32)) by {
                        if ids.subrange(0, i as int).contains((j + 1) as u32) {
                            let k = choose|k: int|
                                0 <= k < i && ids.subrange(0, i as int)[k] == (j + 1) as u32;
                            assert(ids.subrange(0, (i + 1) as int)[k] == (j + 1) as u32);
                        }
                    }
                    assert(ids.subrange(0, (i + 1) as int)[i as int] == ids[i as int]);
                    assert(j != sid - 1) by {
                        if j == sid - 1 {
                            assert(ids.subrange(0, (i + 1) as int).contains((j + 1) as u32));
                        }
                    }
                    assert(before.shaders[j] == mid.shaders[j]);
                    assert(dev@.shaders[j] == before.shaders[j]);
                };
            }
            i = i + 1;
        }
        proof {
            assert(ids.subrange(0, ids.len() as int) =~= ids);
        }
        (ShaderProgram { id }, cs)
    }
}

impl ShaderProgram {
    /// Starts an empty builder around a fresh program handle.
    pub fn builder(dev: &mut Device) -> (r: (Builder, GlCommand))
        requires
            old(dev)@.wf(),
            old(dev)@.programs.len() < 0xFFFF_FFFF,
        ensures
            final(dev)@.wf(),
            r.0.spec_id() == old(dev)@.programs.len() + 1,
            r.0.attached_ids() == Seq::<u32>::empty(),
            !old(dev)@.program_live(r.0.spec_id()),
            final(dev)@.program_live(r.0.spec_id()),
            !final(dev)@.programs[r.0.spec_id() - 1].linked,
            final(dev)@ == (DeviceView {
                programs: old(dev)@.programs.push((ProgramObj { alive: true, linked: false })),
                ..old(dev)@
            }),
            r.1 == (GlCommand::CreateProgram { id: r.0.spec_id() }),
    {
        Builder::new(dev)
    }

    /// Makes this program the active one for draws and uniform writes; a
    /// program is usable only once its link step has run.
    pub fn use_program(&self, dev: &mut Device) -> (c: GlCommand)
        requires
            old(dev)@.wf(),
            old(dev)@.program_live(self.id),
            old(dev)@.programs[self.id - 1].linked,
        ensures
            final(dev)@.wf(),
            final(dev)@ == (DeviceView { current_program: self.id, ..old(dev)@ }),
            c == (GlCommand::UseProgram { id: self.id }),
    {
        dev.set_current_program(self.id);
        GlCommand::UseProgram { id: self.id }
    }

    /// Writes an unsigned integer uniform on this program, looked up by
    /// name per call. The program must be current, as the driver applies
    /// uniform writes to the current program.
    pub fn set_uint(&self, dev: &mut Device, name: &str, value: u32) -> (c: GlCommand)
        requires
            old(dev)@.wf(),
            old(dev)@.program_live(self.id),
            old(dev)@.current_program == self.id,
        ensures
            final(dev)@.wf(),
            final(dev)@ == (DeviceView { uniforms: final(dev)@.uniforms, ..old(dev)@ }),
            final(dev)@.uniforms == old(dev)@.uniforms.push(final(dev)@.uniforms.last()),
            final(dev)@.uniforms.last().program == self.id,
            final(dev)@.uniforms.last().name@ == name@,
            final(dev)@.uniforms.last().value == value,
            crate::device::spec_uniform_value(final(dev)@.uniforms, self.id, name@) == Some(value),
            forall|p: u32, n: Seq<char>|
                !(p == self.id && n == name@) ==> crate::device::spec_uniform_value(
                    final(dev)@.uniforms,
                    p,
                    n,
                ) == crate::device::spec_uniform_value(old(dev)@.uniforms, p, n),
            (c matches GlCommand::SetUniform { program: p1, name: n1, value: v1 } && p1 == self.id
                && n1@ == name@ && v1 == value),
    {
        let stored = String::from_str(name);
        let replay = String::from_str(name);
        dev.push_uniform(self.id, stored, value);
        GlCommand::SetUniform { program: self.id, name: replay, value }
    }

    /// Releases the program handle. The driver defers the actual deletion
    /// while the program is current.
    pub fn delete(self, dev: &mut Device) -> (c: GlCommand)
        requires
            old(dev)@.wf(),
        ensures
            final(dev)@.wf(),
            !final(dev)@.program_live(self.id),
            final(dev)@.programs.len() == old(dev)@.programs.len(),
            forall|j: int|
                0 <= j < old(dev)@.programs.len() && j != self.id - 1
                    ==> final(dev)@.programs[j] == old(dev)@.programs[j],
            final(dev)@ == (DeviceView { programs: final(dev)@.programs, ..old(dev)@ }),
            c == (GlCommand::DeleteProgram { id: self.id }),
    {
        dev.delete_program(self.id);
        GlCommand::DeleteProgram { id: self.id }
    }
}

/// Which object a status read-back concerns.
#[derive(Clone, Copy, PartialEq, Eq, Structural, Debug)]
pub enum CheckTarget {
    Stage(ShaderType),
    Program,
}

/// A compile or link diagnostic. Surfaced to the caller and logged; the
/// object stays allocated but non-functional, and the process carries on.
pub enum ShaderError {
    Compile { stage: ShaderType, log: String },
    Link { log: String },
}

impl ShaderError {
    /// The driver's diagnostic text.
    pub fn log_text(&self) -> (r: &String)
        ensures
            r@ == self.spec_log(),
    {
        match self {
            ShaderError::Compile { log, .. } => log,
            ShaderError::Link { log } => log,
        }
    }

    pub open spec fn spec_log(&self) -> Seq<char> {
        match self {
            ShaderError::Compile { log, .. } => log@,
            ShaderError::Link { log } => log@,
        }
    }
}

/// Turns a status read-back into a diagnostic: the driver reports `1` for
/// success; anything else carries the given info log out as a compile or
/// link error, matching the queried target.
pub fn check_errors(target: CheckTarget, success: i32, log: String) -> (r: Option<ShaderError>)
    ensures
        r is None <==> success == 1,
        r matches Some(e) ==> match target {
            CheckTarget::Stage(st) => (e matches ShaderError::Compile { stage, log: l } && stage
                == st && l@ == log@),
            CheckTarget::Program => (e matches ShaderError::Link { log: l } && l@ == log@),
        },
{
    if success == 1 {
        None
    } else {
        match target {
            CheckTarget::Stage(st) => Some(ShaderError::Compile { stage: st, log }),
            CheckTarget::Program => Some(ShaderError::Link { log }),
        }
    }
}

} // verus!
