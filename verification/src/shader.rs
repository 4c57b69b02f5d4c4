//! Building a program from the source of its two stages, as a conversation
//! with the driver.
//!
//! A build asks for one GPU call at a time and is advanced with the driver's
//! answer to it. It ends with the name of the compiled shader or linked
//! program, or with the driver's log of what went wrong.

use vstd::prelude::*;
use crate::gpu::{GpuCall, GpuCallView, GpuReply, GpuReplyView};

verus! {

/// A programmable stage of the pipeline.
#[derive(Clone, Copy, Debug, PartialEq, Eq, Structural)]
pub enum ShaderType {
    Vertex,
    Fragment,
}

/// The status with which the driver reports success.
pub const STATUS_OK: i32 = 1;

/// Why a build ended without a program.
#[derive(Clone, Debug, PartialEq, Eq)]
pub enum ShaderError {
    /// A stage did not compile; the driver's log says why.
    Compile(ShaderType, String),
    /// The program did not link; the driver's log says why.
    Link(String),
    /// The answer handed in was not an answer to the call asked for, or the
    /// build was over already.
    UnexpectedReply,
}

/// The mathematical content of a [`ShaderError`].
pub enum ShaderErrorView {
    Compile(ShaderType, Seq<char>),
    Link(Seq<char>),
    UnexpectedReply,
}

impl View for ShaderError {
    type V = ShaderErrorView;

    open spec fn view(&self) -> ShaderErrorView {
        match self {
            ShaderError::Compile(stage, log) => ShaderErrorView::Compile(*stage, log@),
            ShaderError::Link(log) => ShaderErrorView::Link(log@),
            ShaderError::UnexpectedReply => ShaderErrorView::UnexpectedReply,
        }
    }
}

/// What a build wants next.
#[derive(Clone, Debug, PartialEq, Eq)]
pub enum BuildStep {
    /// Make this call and come back with the driver's answer.
    Call(GpuCall),
    /// The build is done: the name of what was built.
    Finished(u32),
    /// The build has failed.
    Failed(ShaderError),
}

/// The mathematical content of a [`BuildStep`].
pub enum BuildStepView {
    Call(GpuCallView),
    Finished(u32),
    Failed(ShaderErrorView),
}

impl View for BuildStep {
    type V = BuildStepView;

    open spec fn view(&self) -> BuildStepView {
        match self {
            BuildStep::Call(call) => BuildStepView::Call(call@),
            BuildStep::Finished(name) => BuildStepView::Finished(*name),
            BuildStep::Failed(error) => BuildStepView::Failed(error@),
        }
    }
}

/// The answer a shader build is waiting for.
#[derive(Clone, Copy, Debug, PartialEq, Eq, Structural)]
pub enum ShaderStage {
    /// The name of the new shader.
    Name,
    /// That the source was set.
    Source,
    /// That the compiler ran.
    Compile,
    /// The compile status.
    Status,
    /// The size of the log.
    LogLength,
    /// The log.
    Log,
    /// Nothing: the shader is compiled.
    Compiled,
    /// Nothing: the build has failed.
    Failed,
}

/// What a shader build is, mathematically.
pub struct ShaderBuildView {
    pub stage: ShaderStage,
    pub shader_type: ShaderType,
    pub source: Seq<char>,
    /// The shader's name, once the driver has given it.
    pub shader: u32,
}

impl ShaderBuildView {
    /// The build with another answer awaited.
    pub open spec fn at(self, stage: ShaderStage) -> ShaderBuildView {
        ShaderBuildView { stage, ..self }
    }

    /// The build after an answer that does not fit, and the step that says so.
    pub open spec fn refuse(self) -> (ShaderBuildView, BuildStepView) {
        (
            if self.stage == ShaderStage::Compiled {
                self
            } else {
                self.at(ShaderStage::Failed)
            },
            BuildStepView::Failed(ShaderErrorView::UnexpectedReply),
        )
    }

    /// The build after the driver's answer, and what it wants next.
    ///
    /// In order: the shader is named, given its source and compiled, and its
    /// status is asked for. A status of success ends the build with the
    /// shader's name. Any other status has the log's size and then the log
    /// fetched, and the build fails with that log.
    pub open spec fn step(self, reply: GpuReplyView) -> (ShaderBuildView, BuildStepView) {
        match (self.stage, reply) {
            (ShaderStage::Name, GpuReplyView::Name(shader)) => (
                ShaderBuildView { stage: ShaderStage::Source, shader, ..self },
                BuildStepView::Call(GpuCallView::ShaderSource { shader, source: self.source }),
            ),
            (ShaderStage::Source, GpuReplyView::Done) => (
                self.at(ShaderStage::Compile),
                BuildStepView::Call(GpuCallView::CompileShader(self.shader)),
            ),
            (ShaderStage::Compile, GpuReplyView::Done) => (
                self.at(ShaderStage::Status),
                BuildStepView::Call(GpuCallView::GetCompileStatus(self.shader)),
            ),
            (ShaderStage::Status, GpuReplyView::Number(status)) => if status == STATUS_OK {
                (self.at(ShaderStage::Compiled), BuildStepView::Finished(self.shader))
            } else {
                (
                    self.at(ShaderStage::LogLength),
                    BuildStepView::Call(GpuCallView::GetShaderLogLength(self.shader)),
                )
            },
            (ShaderStage::LogLength, GpuReplyView::Number(length)) => (
                self.at(ShaderStage::Log),
                BuildStepView::Call(GpuCallView::GetShaderLog { shader: self.shader, length }),
            ),
            (ShaderStage::Log, GpuReplyView::Text(log)) => (
                self.at(ShaderStage::Failed),
                BuildStepView::Failed(ShaderErrorView::Compile(self.shader_type, log)),
            ),
            _ => self.refuse(),
        }
    }
}

/// The compilation of one shader, under way.
#[derive(Debug, PartialEq, Eq)]
pub struct ShaderBuild {
    stage: ShaderStage,
    shader_type: ShaderType,
    source: String,
    shader: u32,
}

impl View for ShaderBuild {
    type V = ShaderBuildView;

    closed spec fn view(&self) -> ShaderBuildView {
        ShaderBuildView {
            stage: self.stage,
            shader_type: self.shader_type,
            source: self.source@,
            shader: self.shader,
        }
    }
}

/// A shader build that has asked for nothing but a new shader.
pub open spec fn new_shader_build(shader_type: ShaderType, source: Seq<char>) -> ShaderBuildView {
    ShaderBuildView { stage: ShaderStage::Name, shader_type, source, shader: 0 }
}

/// Starts compiling a shader of the given stage from its source text: the
/// build, and the call that asks the driver for a new shader.
pub fn compile_shader(shader_type: ShaderType, source: String) -> (r: (ShaderBuild, GpuCall))
    ensures
        r.0@ == new_shader_build(shader_type, source@),
        r.1@ == GpuCallView::CreateShader(shader_type),
{
    (
        ShaderBuild { stage: ShaderStage::Name, shader_type, source, shader: 0 },
        GpuCall::CreateShader(shader_type),
    )
}

impl ShaderBuild {
    /// The answer the build is waiting for.
    pub fn stage(&self) -> (r: ShaderStage)
        ensures
            r == self@.stage,
    {
        self.stage
    }

    /// Takes the driver's answer to the call last asked for.
    pub fn advance(self, reply: GpuReply) -> (r: (ShaderBuild, BuildStep))
        ensures
            (r.0@, r.1@) == self@.step(reply@),
    {
        let ShaderBuild { stage, shader_type, source, shader } = self;
        match (stage, reply) {
            (ShaderStage::Name, GpuReply::Name(name)) => {
                let call = GpuCall::ShaderSource { shader: name, source: source.clone() };
                (
                    ShaderBuild { stage: ShaderStage::Source, shader_type, source, shader: name },
                    BuildStep::Call(call),
                )
            },
            (ShaderStage::Source, GpuReply::Done) => (
                ShaderBuild { stage: ShaderStage::Compile, shader_type, source, shader },
                BuildStep::Call(GpuCall::CompileShader(shader)),
            ),
            (ShaderStage::Compile, GpuReply::Done) => (
                ShaderBuild { stage: ShaderStage::Status, shader_type, source, shader },
                BuildStep::Call(GpuCall::GetCompileStatus(shader)),
            ),
            (ShaderStage::Status, GpuReply::Number(status)) => {
                if status == STATUS_OK {
                    (
                        ShaderBuild { stage: ShaderStage::Compiled, shader_type, source, shader },
                        BuildStep::Finished(shader),
                    )
                } else {
                    (
                        ShaderBuild { stage: ShaderStage::LogLength, shader_type, source, shader },
                        BuildStep::Call(GpuCall::GetShaderLogLength(shader)),
                    )
                }
            },
            (ShaderStage::LogLength, GpuReply::Number(length)) => (
                ShaderBuild { stage: ShaderStage::Log, shader_type, source, shader },
                BuildStep::Call(GpuCall::GetShaderLog { shader, length }),
            ),
            (ShaderStage::Log, GpuReply::Text(log)) => (
                ShaderBuild { stage: ShaderStage::Failed, shader_type, source, shader },
                BuildStep::Failed(ShaderError::Compile(shader_type, log)),
            ),
            (ShaderStage::Compiled, _) => (
                ShaderBuild { stage: ShaderStage::Compiled, shader_type, source, shader },
                BuildStep::Failed(ShaderError::UnexpectedReply),
            ),
            _ => (
                ShaderBuild { stage: ShaderStage::Failed, shader_type, source, shader },
                BuildStep::Failed(ShaderError::UnexpectedReply),
            ),
        }
    }
}

/// The answer a program build is waiting for.
#[derive(Clone, Copy, Debug, PartialEq, Eq, Structural)]
pub enum ProgramStage {
    /// The name of the new program.
    Program,
    /// Whatever the build of this stage's shader is waiting for.
    Shader(ShaderType),
    /// That this stage's shader was attached.
    Attach(ShaderType),
    /// That the linker ran.
    Link,
    /// The link status.
    Status,
    /// The size of the log.
    LogLength,
    /// The log.
    Log,
    /// Nothing: the program is linked.
    Linked,
    /// Nothing: the build has failed.
    Failed,
}

/// What a program build is, mathematically.
pub struct ProgramBuildView {
    pub stage: ProgramStage,
    /// The program's name, once the driver has given it.
    pub program: u32,
    /// The build of the shader now, or last, being compiled.
    pub shader: ShaderBuildView,
    pub fragment_source: Seq<char>,
}

impl ProgramBuildView {
    /// The build with another answer awaited.
    pub open spec fn at(self, stage: ProgramStage) -> ProgramBuildView {
        ProgramBuildView { stage, ..self }
    }

    /// The build after an answer that does not fit, and the step that says so.
    pub open spec fn refuse(self) -> (ProgramBuildView, BuildStepView) {
        (
            if self.stage == ProgramStage::Linked {
                self
            } else {
                self.at(ProgramStage::Failed)
            },
            BuildStepView::Failed(ShaderErrorView::UnexpectedReply),
        )
    }

    /// The build after the driver's answer, and what it wants next.
    ///
    /// In order: the program is named; the vertex shader is compiled and
    /// attached; the fragment shader is compiled and attached; the program is
    /// linked and its status asked for. A status of success ends the build
    /// with the program's name. Any other status has the log's size and then
    /// the log fetched, and the build fails with that log. A shader that does
    /// not compile fails the build at once, with its own log.
    pub open spec fn step(self, reply: GpuReplyView) -> (ProgramBuildView, BuildStepView) {
        match (self.stage, reply) {
            (ProgramStage::Program, GpuReplyView::Name(program)) => (
                ProgramBuildView {
                    stage: ProgramStage::Shader(ShaderType::Vertex),
                    program,
                    ..self
                },
                BuildStepView::Call(GpuCallView::CreateShader(ShaderType::Vertex)),
            ),
            (ProgramStage::Shader(shader_type), _) => {
                let (shader, wanted) = self.shader.step(reply);
                match wanted {
                    BuildStepView::Call(call) => (
                        ProgramBuildView { shader, ..self },
                        BuildStepView::Call(call),
                    ),
                    BuildStepView::Finished(name) => (
                        ProgramBuildView {
                            stage: ProgramStage::Attach(shader_type),
                            shader,
                            ..self
                        },
                        BuildStepView::Call(
                            GpuCallView::AttachShader { program: self.program, shader: name },
                        ),
                    ),
                    BuildStepView::Failed(error) => (
                        ProgramBuildView { stage: ProgramStage::Failed, shader, ..self },
                        BuildStepView::Failed(error),
                    ),
                }
            },
            (ProgramStage::Attach(ShaderType::Vertex), GpuReplyView::Done) => (
                ProgramBuildView {
                    stage: ProgramStage::Shader(ShaderType::Fragment),
                    shader: new_shader_build(ShaderType::Fragment, self.fragment_source),
                    ..self
                },
                BuildStepView::Call(GpuCallView::CreateShader(ShaderType::Fragment)),
            ),
            (ProgramStage::Attach(ShaderType::Fragment), GpuReplyView::Done) => (
                self.at(ProgramStage::Link),
                BuildStepView::Call(GpuCallView::LinkProgram(self.program)),
            ),
            (ProgramStage::Link, GpuReplyView::Done) => (
                self.at(ProgramStage::Status),
                BuildStepView::Call(GpuCallView::GetLinkStatus(self.program)),
            ),
            (ProgramStage::Status, GpuReplyView::Number(status)) => if status == STATUS_OK {
                (self.at(ProgramStage::Linked), BuildStepView::Finished(self.program))
            } else {
                (
                    self.at(ProgramStage::LogLength),
                    BuildStepView::Call(GpuCallView::GetProgramLogLength(self.program)),
                )
            },
            (ProgramStage::LogLength, GpuReplyView::Number(length)) => (
                self.at(ProgramStage::Log),
                BuildStepView::Call(
                    GpuCallView::GetProgramLog { program: self.program, length },
                ),
            ),
            (ProgramStage::Log, GpuReplyView::Text(log)) => (
                self.at(ProgramStage::Failed),
                BuildStepView::Failed(ShaderErrorView::Link(log)),
            ),
            _ => self.refuse(),
        }
    }

    /// The build after a run of answers, and the steps it took, one for each
    /// answer.
    pub open spec fn run(self, replies: Seq<GpuReplyView>) -> (ProgramBuildView, Seq<BuildStepView>)
        decreases replies.len(),
    {
        if replies.len() == 0 {
            (self, Seq::empty())
        } else {
            let (build, steps) = self.run(replies.drop_last());
            let (next, step) = build.step(replies.last());
            (next, steps.push(step))
        }
    }
}

/// A program build that has asked for nothing but a new program.
pub open spec fn new_program_build(
    vertex_source: Seq<char>,
    fragment_source: Seq<char>,
) -> ProgramBuildView {
    ProgramBuildView {
        stage: ProgramStage::Program,
        program: 0,
        shader: new_shader_build(ShaderType::Vertex, vertex_source),
        fragment_source,
    }
}

/// The building of a program, under way.
#[derive(Debug, PartialEq, Eq)]
pub struct ProgramBuild {
    stage: ProgramStage,
    program: u32,
    shader: ShaderBuild,
    fragment_source: String,
}

impl View for ProgramBuild {
    type V = ProgramBuildView;

    closed spec fn view(&self) -> ProgramBuildView {
        ProgramBuildView {
            stage: self.stage,
            program: self.program,
            shader: self.shader@,
            fragment_source: self.fragment_source@,
        }
    }
}

/// Starts building a program from the source of its vertex and fragment
/// stages: the build, and the call that asks the driver for a new program.
pub fn compile_program(vertex_shader: String, fragment_shader: String) -> (r: (
    ProgramBuild,
    GpuCall,
))
    ensures
        r.0@ == new_program_build(vertex_shader@, fragment_shader@),
        r.1@ == GpuCallView::CreateProgram,
{
    let (shader, _) = compile_shader(ShaderType::Vertex, vertex_shader);
    (
        ProgramBuild {
            stage: ProgramStage::Program,
            program: 0,
            shader,
            fragment_source: fragment_shader,
        },
        GpuCall::CreateProgram,
    )
}

impl ProgramBuild {
    /// The answer the build is waiting for.
    pub fn stage(&self) -> (r: ProgramStage)
        ensures
            r == self@.stage,
    {
        self.stage
    }

    /// Takes the driver's answer to the call last asked for.
    pub fn advance(self, reply: GpuReply) -> (r: (ProgramBuild, BuildStep))
        ensures
            (r.0@, r.1@) == self@.step(reply@),
    {
        let ProgramBuild { stage, program, shader, fragment_source } = self;
        match (stage, reply) {
            (ProgramStage::Program, GpuReply::Name(name)) => (
                ProgramBuild {
                    stage: ProgramStage::Shader(ShaderType::Vertex),
                    program: name,
                    shader,
                    fragment_source,
                },
                BuildStep::Call(GpuCall::CreateShader(ShaderType::Vertex)),
            ),
            (ProgramStage::Shader(shader_type), reply) => {
                let (shader, wanted) = shader.advance(reply);
                match wanted {
                    BuildStep::Call(call) => (
                        ProgramBuild { stage, program, shader, fragment_source },
                        BuildStep::Call(call),
                    ),
                    BuildStep::Finished(name) => (
                        ProgramBuild {
                            stage: ProgramStage::Attach(shader_type),
                            program,
                            shader,
                            fragment_source,
                        },
                        BuildStep::Call(GpuCall::AttachShader { program, shader: name }),
                    ),
                    BuildStep::Failed(error) => (
                        ProgramBuild {
                            stage: ProgramStage::Failed,
                            program,
                            shader,
                            fragment_source,
                        },
                        BuildStep::Failed(error),
                    ),
                }
            },
            (ProgramStage::Attach(ShaderType::Vertex), GpuReply::Done) => {
                let (fragment, call) = compile_shader(
                    ShaderType::Fragment,
                    fragment_source.clone(),
                );
                (
                    ProgramBuild {
                        stage: ProgramStage::Shader(ShaderType::Fragment),
                        program,
                        shader: fragment,
                        fragment_source,
                    },
                    BuildStep::Call(call),
                )
            },
            (ProgramStage::Attach(ShaderType::Fragment), GpuReply::Done) => (
                ProgramBuild { stage: ProgramStage::Link, program, shader, fragment_source },
                BuildStep::Call(GpuCall::LinkProgram(program)),
            ),
            (ProgramStage::Link, GpuReply::Done) => (
                ProgramBuild { stage: ProgramStage::Status, program, shader, fragment_source },
                BuildStep::Call(GpuCall::GetLinkStatus(program)),
            ),
            (ProgramStage::Status, GpuReply::Number(status)) => {
                if status == STATUS_OK {
                    (
                        ProgramBuild {
                            stage: ProgramStage::Linked,
                            program,
                            shader,
                            fragment_source,
                        },
                        BuildStep::Finished(program),
                    )
                } else {
                    (
                        ProgramBuild {
                            stage: ProgramStage::LogLength,
                            program,
                            shader,
                            fragment_source,
                        },
                        BuildStep::Call(GpuCall::GetProgramLogLength(program)),
                    )
                }
            },
            (ProgramStage::LogLength, GpuReply::Number(length)) => (
                ProgramBuild { stage: ProgramStage::Log, program, shader, fragment_source },
                BuildStep::Call(GpuCall::GetProgramLog { program, length }),
            ),
            (ProgramStage::Log, GpuReply::Text(log)) => (
                ProgramBuild { stage: ProgramStage::Failed, program, shader, fragment_source },
                BuildStep::Failed(ShaderError::Link(log)),
            ),
            (ProgramStage::Linked, _) => (
                ProgramBuild { stage: ProgramStage::Linked, program, shader, fragment_source },
                BuildStep::Failed(ShaderError::UnexpectedReply),
            ),
            _ => (
                ProgramBuild { stage: ProgramStage::Failed, program, shader, fragment_source },
                BuildStep::Failed(ShaderError::UnexpectedReply),
            ),
        }
    }
}

/// The answers of a driver that names the program `program`, the vertex
/// shader `vertex` and the fragment shader `fragment`, and reports success
/// every time it is asked.
pub open spec fn agreeable_replies(program: u32, vertex: u32, fragment: u32) -> Seq<GpuReplyView> {
    seq![
        GpuReplyView::Name(program),
        GpuReplyView::Name(vertex),
        GpuReplyView::Done,
        GpuReplyView::Done,
        GpuReplyView::Number(STATUS_OK),
        GpuReplyView::Done,
        GpuReplyView::Name(fragment),
        GpuReplyView::Done,
        GpuReplyView::Done,
        GpuReplyView::Number(STATUS_OK),
        GpuReplyView::Done,
        GpuReplyView::Done,
        GpuReplyView::Number(STATUS_OK),
    ]
}

/// With a driver that reports success every time, a build asks in turn for
/// the vertex shader to be made, given its source, compiled, checked and
/// attached, then the same for the fragment shader, then for the program to
/// be linked and checked, and it ends with the program's name.
pub proof fn lemma_agreeable_build_links(
    vertex_source: Seq<char>,
    fragment_source: Seq<char>,
    program: u32,
    vertex: u32,
    fragment: u32,
)
    ensures
        ({
            let (build, steps) = new_program_build(vertex_source, fragment_source).run(
                agreeable_replies(program, vertex, fragment),
            );
            &&& build.stage == ProgramStage::Linked
            &&& build.program == program
            &&& steps == seq![
                BuildStepView::Call(GpuCallView::CreateShader(ShaderType::Vertex)),
                BuildStepView::Call(
                    GpuCallView::ShaderSource { shader: vertex, source: vertex_source },
                ),
                BuildStepView::Call(GpuCallView::CompileShader(vertex)),
                BuildStepView::Call(GpuCallView::GetCompileStatus(vertex)),
                BuildStepView::Call(GpuCallView::AttachShader { program, shader: vertex }),
                BuildStepView::Call(GpuCallView::CreateShader(ShaderType::Fragment)),
                BuildStepView::Call(
                    GpuCallView::ShaderSource { shader: fragment, source: fragment_source },
                ),
                BuildStepView::Call(GpuCallView::CompileShader(fragment)),
                BuildStepView::Call(GpuCallView::GetCompileStatus(fragment)),
                BuildStepView::Call(GpuCallView::AttachShader { program, shader: fragment }),
                BuildStepView::Call(GpuCallView::LinkProgram(program)),
                BuildStepView::Call(GpuCallView::GetLinkStatus(program)),
                BuildStepView::Finished(program),
            ]
        }),
{
    let replies = agreeable_replies(program, vertex, fragment);
    let start = new_program_build(vertex_source, fragment_source);
    let r0 = replies.take(0);
    let r1 = replies.take(1);
    let r2 = replies.take(2);
    let r3 = replies.take(3);
    let r4 = replies.take(4);
    let r5 = replies.take(5);
    let r6 = replies.take(6);
    let r7 = replies.take(7);
    let r8 = replies.take(8);
    let r9 = replies.take(9);
    let r10 = replies.take(10);
    let r11 = replies.take(11);
    let r12 = replies.take(12);
    assert(r1.drop_last() =~= r0);
    assert(r2.drop_last() =~= r1);
    assert(r3.drop_last() =~= r2);
    assert(r4.drop_last() =~= r3);
    assert(r5.drop_last() =~= r4);
    assert(r6.drop_last() =~= r5);
    assert(r7.drop_last() =~= r6);
    assert(r8.drop_last() =~= r7);
    assert(r9.drop_last() =~= r8);
    assert(r10.drop_last() =~= r9);
    assert(r11.drop_last() =~= r10);
    assert(r12.drop_last() =~= r11);
    assert(replies.drop_last() =~= r12);
    assert(start.run(r0).1 =~= Seq::empty());
    assert(start.run(r1).1.len() == 1);
    assert(start.run(r2).1.len() == 2);
    assert(start.run(r3).1.len() == 3);
    assert(start.run(r4).1.len() == 4);
    assert(start.run(r5).1.len() == 5);
    assert(start.run(r6).1.len() == 6);
    assert(start.run(r7).1.len() == 7);
    assert(start.run(r8).1.len() == 8);
    assert(start.run(r9).1.len() == 9);
    assert(start.run(r10).1.len() == 10);
    assert(start.run(r11).1.len() == 11);
    assert(start.run(r12).1.len() == 12);
    let (build, steps) = start.run(replies);
    assert(steps =~= seq![
        BuildStepView::Call(GpuCallView::CreateShader(ShaderType::Vertex)),
        BuildStepView::Call(GpuCallView::ShaderSource { shader: vertex, source: vertex_source }),
        BuildStepView::Call(GpuCallView::CompileShader(vertex)),
        BuildStepView::Call(GpuCallView::GetCompileStatus(vertex)),
        BuildStepView::Call(GpuCallView::AttachShader { program, shader: vertex }),
        BuildStepView::Call(GpuCallView::CreateShader(ShaderType::Fragment)),
        BuildStepView::Call(
            GpuCallView::ShaderSource { shader: fragment, source: fragment_source },
        ),
        BuildStepView::Call(GpuCallView::CompileShader(fragment)),
        BuildStepView::Call(GpuCallView::GetCompileStatus(fragment)),
        BuildStepView::Call(GpuCallView::AttachShader { program, shader: fragment }),
        BuildStepView::Call(GpuCallView::LinkProgram(program)),
        BuildStepView::Call(GpuCallView::GetLinkStatus(program)),
        BuildStepView::Finished(program),
    ]);
}

/// A shader whose compile status is anything but success fails its build, and
/// the failure carries the whole log the driver hands over, whatever the
/// log's size was said to be.
pub proof fn lemma_failed_compile_surfaces_log(
    build: ShaderBuildView,
    status: i32,
    length: i32,
    log: Seq<char>,
)
    requires
        build.stage == ShaderStage::Status,
        status != STATUS_OK,
    ensures
        ({
            let (asked_size, first) = build.step(GpuReplyView::Number(status));
            let (asked_log, second) = asked_size.step(GpuReplyView::Number(length));
            let (failed, last) = asked_log.step(GpuReplyView::Text(log));
            &&& first == BuildStepView::Call(GpuCallView::GetShaderLogLength(build.shader))
            &&& second == BuildStepView::Call(
                GpuCallView::GetShaderLog { shader: build.shader, length },
            )
            &&& last == BuildStepView::Failed(ShaderErrorView::Compile(build.shader_type, log))
            &&& failed.stage == ShaderStage::Failed
        }),
{
}

/// A program whose link status is anything but success fails its build, and
/// the failure carries the whole log the driver hands over.
pub proof fn lemma_failed_link_surfaces_log(
    build: ProgramBuildView,
    status: i32,
    length: i32,
    log: Seq<char>,
)
    requires
        build.stage == ProgramStage::Status,
        status != STATUS_OK,
    ensures
        ({
            let (asked_size, first) = build.step(GpuReplyView::Number(status));
            let (asked_log, second) = asked_size.step(GpuReplyView::Number(length));
            let (failed, last) = asked_log.step(GpuReplyView::Text(log));
            &&& first == BuildStepView::Call(GpuCallView::GetProgramLogLength(build.program))
            &&& second == BuildStepView::Call(
                GpuCallView::GetProgramLog { program: build.program, length },
            )
            &&& last == BuildStepView::Failed(ShaderErrorView::Link(log))
            &&& failed.stage == ProgramStage::Failed
        }),
{
}

} // verus!
