use meliusgfx::gpu::{GpuCall, GpuReply};
use meliusgfx::shader::{
    compile_program, compile_shader, BuildStep, ProgramBuild, ProgramStage, ShaderError, ShaderStage,
    ShaderType, STATUS_OK,
};

const VS: &str = "void main() { gl_Position = vec4(0.0); }";
const FS: &str = "void main() { }";

fn start() -> ProgramBuild {
    let (build, first) = compile_program(String::from(VS), String::from(FS));
    assert_eq!(first, GpuCall::CreateProgram);
    assert_eq!(build.stage(), ProgramStage::Program);
    build
}

fn feed(mut build: ProgramBuild, replies: Vec<GpuReply>) -> (ProgramBuild, Vec<BuildStep>) {
    let mut steps = Vec::new();
    for reply in replies {
        let (next, step) = build.advance(reply);
        build = next;
        steps.push(step);
    }
    (build, steps)
}

fn through_vertex() -> Vec<GpuReply> {
    vec![
        GpuReply::Name(10),
        GpuReply::Name(11),
        GpuReply::Done,
        GpuReply::Done,
        GpuReply::Number(1),
        GpuReply::Done,
    ]
}

fn through_fragment() -> Vec<GpuReply> {
    let mut replies = through_vertex();
    replies.extend(vec![
        GpuReply::Name(12),
        GpuReply::Done,
        GpuReply::Done,
        GpuReply::Number(1),
        GpuReply::Done,
        GpuReply::Done,
    ]);
    replies
}

#[test]
fn status_ok_is_one() {
    assert_eq!(STATUS_OK, 1);
}

#[test]
fn a_build_that_meets_no_trouble_links() {
    let mut replies = through_fragment();
    replies.push(GpuReply::Number(1));
    let (build, steps) = feed(start(), replies);
    assert_eq!(
        steps,
        vec![
            BuildStep::Call(GpuCall::CreateShader(ShaderType::Vertex)),
            BuildStep::Call(GpuCall::ShaderSource { shader: 11, source: String::from(VS) }),
            BuildStep::Call(GpuCall::CompileShader(11)),
            BuildStep::Call(GpuCall::GetCompileStatus(11)),
            BuildStep::Call(GpuCall::AttachShader { program: 10, shader: 11 }),
            BuildStep::Call(GpuCall::CreateShader(ShaderType::Fragment)),
            BuildStep::Call(GpuCall::ShaderSource { shader: 12, source: String::from(FS) }),
            BuildStep::Call(GpuCall::CompileShader(12)),
            BuildStep::Call(GpuCall::GetCompileStatus(12)),
            BuildStep::Call(GpuCall::AttachShader { program: 10, shader: 12 }),
            BuildStep::Call(GpuCall::LinkProgram(10)),
            BuildStep::Call(GpuCall::GetLinkStatus(10)),
            BuildStep::Finished(10),
        ]
    );
    assert_eq!(build.stage(), ProgramStage::Linked);
}

#[test]
fn a_vertex_shader_that_does_not_compile_fails_with_its_log() {
    let (build, steps) = feed(
        start(),
        vec![
            GpuReply::Name(10),
            GpuReply::Name(11),
            GpuReply::Done,
            GpuReply::Done,
            GpuReply::Number(0),
            GpuReply::Number(23),
            GpuReply::Text(String::from("0:1: syntax error")),
        ],
    );
    assert_eq!(steps[4], BuildStep::Call(GpuCall::GetShaderLogLength(11)));
    assert_eq!(steps[5], BuildStep::Call(GpuCall::GetShaderLog { shader: 11, length: 23 }));
    assert_eq!(
        steps[6],
        BuildStep::Failed(ShaderError::Compile(ShaderType::Vertex, String::from("0:1: syntax error")))
    );
    assert_eq!(build.stage(), ProgramStage::Failed);
}

#[test]
fn a_fragment_shader_that_does_not_compile_fails_with_its_log() {
    let mut replies = through_vertex();
    replies.extend(vec![
        GpuReply::Name(12),
        GpuReply::Done,
        GpuReply::Done,
        GpuReply::Number(-1),
        GpuReply::Number(4),
        GpuReply::Text(String::from("bad")),
    ]);
    let (build, steps) = feed(start(), replies);
    assert_eq!(steps[9], BuildStep::Call(GpuCall::GetShaderLogLength(12)));
    assert_eq!(steps[10], BuildStep::Call(GpuCall::GetShaderLog { shader: 12, length: 4 }));
    assert_eq!(
        steps[11],
        BuildStep::Failed(ShaderError::Compile(ShaderType::Fragment, String::from("bad")))
    );
    assert_eq!(build.stage(), ProgramStage::Failed);
}

#[test]
fn a_program_that_does_not_link_fails_with_its_log() {
    let mut replies = through_fragment();
    replies.extend(vec![
        GpuReply::Number(0),
        GpuReply::Number(30),
        GpuReply::Text(String::from("unresolved varying")),
    ]);
    let (build, steps) = feed(start(), replies);
    assert_eq!(steps[12], BuildStep::Call(GpuCall::GetProgramLogLength(10)));
    assert_eq!(steps[13], BuildStep::Call(GpuCall::GetProgramLog { program: 10, length: 30 }));
    assert_eq!(steps[14], BuildStep::Failed(ShaderError::Link(String::from("unresolved varying"))));
    assert_eq!(build.stage(), ProgramStage::Failed);
}

#[test]
fn only_the_status_of_success_counts_as_success() {
    for status in [0, 2, -1, i32::MAX, i32::MIN] {
        let mut replies = through_fragment();
        replies.push(GpuReply::Number(status));
        let (build, steps) = feed(start(), replies);
        assert_eq!(steps[12], BuildStep::Call(GpuCall::GetProgramLogLength(10)));
        assert_eq!(build.stage(), ProgramStage::LogLength);
    }
}

#[test]
fn an_answer_that_does_not_fit_fails_the_build() {
    let (build, step) = start().advance(GpuReply::Done);
    assert_eq!(step, BuildStep::Failed(ShaderError::UnexpectedReply));
    assert_eq!(build.stage(), ProgramStage::Failed);

    let (build, steps) = feed(start(), vec![GpuReply::Name(10), GpuReply::Number(3)]);
    assert_eq!(steps[1], BuildStep::Failed(ShaderError::UnexpectedReply));
    assert_eq!(build.stage(), ProgramStage::Failed);

    let (build, step) = build.advance(GpuReply::Name(1));
    assert_eq!(step, BuildStep::Failed(ShaderError::UnexpectedReply));
    assert_eq!(build.stage(), ProgramStage::Failed);
}

#[test]
fn a_linked_build_stays_linked() {
    let mut replies = through_fragment();
    replies.push(GpuReply::Number(1));
    let (build, _) = feed(start(), replies);
    let (build, step) = build.advance(GpuReply::Done);
    assert_eq!(step, BuildStep::Failed(ShaderError::UnexpectedReply));
    assert_eq!(build.stage(), ProgramStage::Linked);
}

#[test]
fn compile_shader_asks_for_a_shader_of_its_stage() {
    let (build, call) = compile_shader(ShaderType::Fragment, String::from(FS));
    assert_eq!(call, GpuCall::CreateShader(ShaderType::Fragment));
    assert_eq!(build.stage(), ShaderStage::Name);
}

#[test]
fn a_shader_build_ends_with_the_shader_name() {
    let (build, _) = compile_shader(ShaderType::Vertex, String::from(VS));
    let (build, step) = build.advance(GpuReply::Name(5));
    assert_eq!(step, BuildStep::Call(GpuCall::ShaderSource { shader: 5, source: String::from(VS) }));
    assert_eq!(build.stage(), ShaderStage::Source);
    let (build, step) = build.advance(GpuReply::Done);
    assert_eq!(step, BuildStep::Call(GpuCall::CompileShader(5)));
    let (build, step) = build.advance(GpuReply::Done);
    assert_eq!(step, BuildStep::Call(GpuCall::GetCompileStatus(5)));
    let (build, step) = build.advance(GpuReply::Number(1));
    assert_eq!(step, BuildStep::Finished(5));
    assert_eq!(build.stage(), ShaderStage::Compiled);
    let (build, step) = build.advance(GpuReply::Done);
    assert_eq!(step, BuildStep::Failed(ShaderError::UnexpectedReply));
    assert_eq!(build.stage(), ShaderStage::Compiled);
}

#[test]
fn a_shader_build_fails_with_the_whole_log() {
    let (build, _) = compile_shader(ShaderType::Vertex, String::from(VS));
    let (build, _) = build.advance(GpuReply::Name(5));
    let (build, _) = build.advance(GpuReply::Done);
    let (build, _) = build.advance(GpuReply::Done);
    let (build, step) = build.advance(GpuReply::Number(0));
    assert_eq!(step, BuildStep::Call(GpuCall::GetShaderLogLength(5)));
    let (build, step) = build.advance(GpuReply::Number(2));
    assert_eq!(step, BuildStep::Call(GpuCall::GetShaderLog { shader: 5, length: 2 }));
    let (build, step) = build.advance(GpuReply::Text(String::from("a much longer log than announced")));
    assert_eq!(
        step,
        BuildStep::Failed(ShaderError::Compile(
            ShaderType::Vertex,
            String::from("a much longer log than announced")
        ))
    );
    assert_eq!(build.stage(), ShaderStage::Failed);
}

#[test]
fn a_shader_build_refuses_an_answer_of_the_wrong_kind() {
    let (build, _) = compile_shader(ShaderType::Vertex, String::from(VS));
    let (build, step) = build.advance(GpuReply::Text(String::from("?")));
    assert_eq!(step, BuildStep::Failed(ShaderError::UnexpectedReply));
    assert_eq!(build.stage(), ShaderStage::Failed);
}

#[test]
fn the_status_of_success_is_the_drivers_true() {
    assert_eq!(STATUS_OK, gl::TRUE as i32);
}
