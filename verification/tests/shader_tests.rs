use glcore::command::GlCommand;
use glcore::device::Device;
use glcore::shader_program::{check_errors, CheckTarget, Shader, ShaderError, ShaderProgram, ShaderType};

const BAD_VERTEX: &str = "#version 330 core\nvoid main() { gl_Position = nonsense; }";
const BAD_FRAGMENT: &str = "#version 330 core\nout vec4 c; void main() { c = alsonons; }";

#[test]
fn link_releases_all_stage_handles() {
    let mut dev = Device::new();
    assert_eq!(dev.live_shaders(), 0);

    let (vs, _) = Shader::new(&mut dev, BAD_VERTEX, ShaderType::Vertex);
    let (fs, _) = Shader::new(&mut dev, BAD_FRAGMENT, ShaderType::Fragment);
    assert_eq!(dev.live_shaders(), 2);
    let vs_id = vs.id();
    let fs_id = fs.id();

    let (builder, _) = ShaderProgram::builder(&mut dev);
    let (builder, c1) = builder.attach(&mut dev, vs);
    assert_eq!(c1, GlCommand::AttachShader { program: 1, shader: vs_id });
    let (builder, _) = builder.attach(&mut dev, fs);
    let (program, cs) = builder.link(&mut dev);

    // Whether or not the driver reports the link as successful, every
    // attached stage handle is released: the count returns to zero.
    assert_eq!(dev.live_shaders(), 0);
    assert!(!dev.is_shader_live(vs_id));
    assert!(!dev.is_shader_live(fs_id));
    assert!(dev.is_program_linked(program.id));

    assert_eq!(cs.len(), 3);
    assert_eq!(cs[0], GlCommand::LinkProgram { id: program.id });
    assert_eq!(cs[1], GlCommand::DeleteShader { id: vs_id });
    assert_eq!(cs[2], GlCommand::DeleteShader { id: fs_id });
}

#[test]
fn failed_link_surfaces_nonempty_diagnostic() {
    let log = String::from("error: 'nonsense' : undeclared identifier");
    let diag = check_errors(CheckTarget::Program, 0, log.clone());
    match diag {
        Some(ShaderError::Link { log: l }) => {
            assert!(!l.is_empty());
            assert_eq!(l, log);
        }
        other => panic!("expected a link diagnostic, got none or wrong kind: {}", other.is_some()),
    }
}

#[test]
fn successful_status_yields_no_diagnostic() {
    assert!(check_errors(CheckTarget::Program, 1, String::new()).is_none());
    assert!(check_errors(CheckTarget::Stage(ShaderType::Vertex), 1, String::new()).is_none());
}

#[test]
fn compile_diagnostic_carries_stage_and_log() {
    let diag = check_errors(
        CheckTarget::Stage(ShaderType::Fragment),
        0,
        String::from("0:2: 'alsonons' : undeclared identifier"),
    );
    match diag {
        Some(e @ ShaderError::Compile { .. }) => {
            match &e {
                ShaderError::Compile { stage, log } => {
                    assert!(matches!(stage, ShaderType::Fragment));
                    assert!(!log.is_empty());
                }
                _ => unreachable!(),
            }
            assert_eq!(
                e.log_text(),
                "0:2: 'alsonons' : undeclared identifier"
            );
        }
        _ => panic!("expected a compile diagnostic"),
    }
}

#[test]
fn shader_creation_commands_carry_source() {
    let mut dev = Device::new();
    let (vs, cs) = Shader::new(&mut dev, BAD_VERTEX, ShaderType::Vertex);
    assert_eq!(cs.len(), 3);
    assert_eq!(cs[0], GlCommand::CreateShader { id: vs.id(), kind: ShaderType::Vertex });
    match &cs[1] {
        GlCommand::ShaderSource { id, source } => {
            assert_eq!(*id, vs.id());
            assert_eq!(source, BAD_VERTEX);
        }
        other => panic!("expected ShaderSource, got {:?}", other),
    }
    assert_eq!(cs[2], GlCommand::CompileShader { id: vs.id() });
}

#[test]
fn use_program_and_uniform_write() {
    let mut dev = Device::new();
    let (builder, _) = ShaderProgram::builder(&mut dev);
    let (program, _) = builder.link(&mut dev);
    let c = program.use_program(&mut dev);
    assert_eq!(c, GlCommand::UseProgram { id: program.id });
    assert_eq!(dev.current_program_id(), program.id);

    let c = program.set_uint(&mut dev, "texture1", 0);
    match c {
        GlCommand::SetUniform { program: p, name, value } => {
            assert_eq!(p, program.id);
            assert_eq!(name, "texture1");
            assert_eq!(value, 0);
        }
        other => panic!("expected SetUniform, got {:?}", other),
    }
}
