//! Shader objects and programs: what to ask of the graphics API to compile,
//! attach, link and use them, and what its answers mean.

use crate::calls::{CallView, GlCall, GlReply, ReplyView, is_c_text, plan};
use crate::calls::{COMPILE_STATUS, FRAGMENT_SHADER, INFO_LOG_LENGTH, LINK_STATUS, VERTEX_SHADER};
use crate::text::{decode_lossy, keeps_well_formed, lossy_text};
use vstd::prelude::*;
use vstd::string::*;

verus! {

/// The error of an input or output operation, as std hands it out. Its inside
/// is not looked at here: it is carried along as the cause of a failure.
#[verifier::external_type_specification]
#[verifier::external_body]
pub struct ExIoError(std::io::Error);

/// Why a shader or a program could not be built.
#[derive(Debug)]
pub enum ShaderError {
    /// The source file `name` could not be read; `inner` is the cause.
    IoError { name: String, inner: std::io::Error },
    /// The shader read from `name` did not compile; `message` is the
    /// compiler's information log.
    CompileError { name: String, message: String },
    /// The program did not link; the field is the linker's information log.
    LinkError(String),
}

/// A [`ShaderError`] with its strings as sequences.
pub ghost enum ShaderErrorView {
    IoError { name: Seq<char>, inner: std::io::Error },
    CompileError { name: Seq<char>, message: Seq<char> },
    LinkError(Seq<char>),
}

impl ShaderErrorView {
    /// The line that describes the error to a reader. A link error is
    /// described without its log, an I/O error without its cause.
    pub open spec fn message(self) -> Seq<char> {
        match self {
            ShaderErrorView::IoError { name, .. } => "I/O Error ("@ + name + ")"@,
            ShaderErrorView::CompileError { name, message } => "Failed to compile shader "@ + name
                + ": "@ + message,
            ShaderErrorView::LinkError(_) => "Failed to link program: "@,
        }
    }
}

impl View for ShaderError {
    type V = ShaderErrorView;

    open spec fn view(&self) -> ShaderErrorView {
        match *self {
            ShaderError::IoError { name, inner } => ShaderErrorView::IoError { name: name@, inner },
            ShaderError::CompileError { name, message } => ShaderErrorView::CompileError {
                name: name@,
                message: message@,
            },
            ShaderError::LinkError(log) => ShaderErrorView::LinkError(log@),
        }
    }
}

impl ShaderError {
    /// The line that describes the error to a reader.
    pub fn message(&self) -> (text: String)
        ensures
            text@ == self@.message(),
    {
        match self {
            ShaderError::IoError { name, .. } => {
                let mut text = "I/O Error (".to_owned();
                text.append(name.as_str());
                text.append(")");
                text
            },
            ShaderError::CompileError { name, message } => {
                let mut text = "Failed to compile shader ".to_owned();
                text.append(name.as_str());
                text.append(": ");
                text.append(message.as_str());
                text
            },
            ShaderError::LinkError(_) => "Failed to link program: ".to_owned(),
        }
    }
}

/// A compiled shader object, known by the name the graphics API gave it.
#[derive(Debug)]
pub struct Shader {
    id: u32,
}

impl View for Shader {
    type V = u32;

    closed spec fn view(&self) -> u32 {
        self.id
    }
}

/// The compilation of one shader, between two answers of the graphics API.
///
/// [`Shader::new`] starts it and [`ShaderBuild::step`] takes it on by one
/// answer. Each of the two hands out, beside the build, the calls to make next;
/// the answer to the last of them is what the next `step` is given.
#[derive(Debug)]
pub enum ShaderBuild {
    /// A shader object was asked for; its name is awaited.
    Creating { path: String, source: String },
    /// The source was handed over and compiled; the compile status is awaited.
    Compiling { path: String, shader: u32 },
    /// The compilation failed; the length of the log is awaited.
    Measuring { path: String, shader: u32 },
    /// The compilation failed; the log is awaited.
    Logging { path: String, shader: u32 },
    /// The build is over, with the shader or with the reason why there is none.
    Finished(Result<Shader, ShaderError>),
}

/// A [`ShaderBuild`] with its strings as sequences and its shader by name.
pub ghost enum ShaderBuildView {
    Creating { path: Seq<char>, source: Seq<char> },
    Compiling { path: Seq<char>, shader: u32 },
    Measuring { path: Seq<char>, shader: u32 },
    Logging { path: Seq<char>, shader: u32 },
    Finished(Result<u32, ShaderErrorView>),
}

impl ShaderBuildView {
    /// The build of a shader of `kind` from the file `path`, given what reading
    /// that file gave, and the calls it begins with.
    ///
    /// A file that could not be read ends the build at once, with no call made.
    pub open spec fn start(
        kind: u32,
        path: Seq<char>,
        source: Result<Seq<char>, std::io::Error>,
    ) -> (ShaderBuildView, Seq<CallView>) {
        match source {
            Ok(source) => (
                ShaderBuildView::Creating { path, source },
                seq![CallView::CreateShader { kind }],
            ),
            Err(inner) => (
                ShaderBuildView::Finished(Err(ShaderErrorView::IoError { name: path, inner })),
                seq![],
            ),
        }
    }

    /// Whether the build awaits a log, of which it will make a text.
    pub open spec fn reads_log(self) -> bool {
        self is Logging
    }

    /// The build after `reply`, and the calls to make next.
    ///
    /// A status of zero means that the compilation failed: the log is then
    /// measured and fetched, and its text becomes the error's message. The
    /// shader object of a failed compilation is not deleted. A reply of a kind
    /// that the build does not await leaves it as it is, with no call to make.
    pub open spec fn step(self, reply: ReplyView) -> (ShaderBuildView, Seq<CallView>) {
        match (self, reply) {
            (ShaderBuildView::Creating { path, source }, ReplyView::Name(shader)) => (
                ShaderBuildView::Compiling { path, shader },
                seq![
                    CallView::ShaderSource { shader, source },
                    CallView::CompileShader { shader },
                    CallView::GetShaderiv { shader, pname: COMPILE_STATUS, preset: 1 },
                ],
            ),
            (ShaderBuildView::Compiling { path, shader }, ReplyView::Int(status)) => if status
                == 0 {
                (
                    ShaderBuildView::Measuring { path, shader },
                    seq![CallView::GetShaderiv { shader, pname: INFO_LOG_LENGTH, preset: 0 }],
                )
            } else {
                (ShaderBuildView::Finished(Ok(shader)), seq![])
            },
            (ShaderBuildView::Measuring { path, shader }, ReplyView::Int(len)) => (
                ShaderBuildView::Logging { path, shader },
                seq![CallView::GetShaderInfoLog { shader, len }],
            ),
            (ShaderBuildView::Logging { path, shader }, ReplyView::Bytes(log)) => (
                ShaderBuildView::Finished(
                    Err(ShaderErrorView::CompileError { name: path, message: lossy_text(log) }),
                ),
                seq![],
            ),
            _ => (self, seq![]),
        }
    }
}

impl View for ShaderBuild {
    type V = ShaderBuildView;

    open spec fn view(&self) -> ShaderBuildView {
        match *self {
            ShaderBuild::Creating { path, source } => ShaderBuildView::Creating {
                path: path@,
                source: source@,
            },
            ShaderBuild::Compiling { path, shader } => ShaderBuildView::Compiling {
                path: path@,
                shader,
            },
            ShaderBuild::Measuring { path, shader } => ShaderBuildView::Measuring {
                path: path@,
                shader,
            },
            ShaderBuild::Logging { path, shader } => ShaderBuildView::Logging {
                path: path@,
                shader,
            },
            ShaderBuild::Finished(Ok(shader)) => ShaderBuildView::Finished(Ok(shader@)),
            ShaderBuild::Finished(Err(error)) => ShaderBuildView::Finished(Err(error@)),
        }
    }
}

impl Shader {
    /// Starts the build of a shader of `kind` from the file `path`, of which
    /// `source` is what reading it gave. A source with a NUL character in it
    /// cannot be handed to the graphics API.
    pub fn new(kind: u32, path: &str, source: Result<String, std::io::Error>) -> (started: (
        ShaderBuild,
        Vec<GlCall>,
    ))
        requires
            source matches Ok(text) ==> is_c_text(text@),
        ensures
            (started.0@, plan(started.1@)) == ShaderBuildView::start(
                kind,
                path@,
                match source {
                    Ok(text) => Ok(text@),
                    Err(inner) => Err(inner),
                },
            ),
    {
        match source {
            Ok(source) => {
                let calls = vec![GlCall::CreateShader { kind }];
                assert(plan(calls@) =~= seq![CallView::CreateShader { kind }]);
                (ShaderBuild::Creating { path: path.to_owned(), source }, calls)
            },
            Err(inner) => {
                let calls: Vec<GlCall> = Vec::new();
                assert(plan(calls@) =~= seq![]);
                (
                    ShaderBuild::Finished(
                        Err(ShaderError::IoError { name: path.to_owned(), inner }),
                    ),
                    calls,
                )
            },
        }
    }

    /// The name of the shader object.
    pub fn id(&self) -> (id: u32)
        ensures
            id == self@,
    {
        self.id
    }

    /// The call that deletes the shader object: what is owed when the shader
    /// is given up.
    pub fn release(&self) -> (call: GlCall)
        ensures
            call@ == (CallView::DeleteShader { shader: self@ }),
    {
        GlCall::DeleteShader { shader: self.id }
    }
}

impl ShaderBuild {
    /// The build that ends with a compile error for the file `path`, whose
    /// message is `message`.
    pub fn failed(path: String, message: String) -> (build: ShaderBuild)
        ensures
            build@ == ShaderBuildView::Finished(
                Err(ShaderErrorView::CompileError { name: path@, message: message@ }),
            ),
    {
        ShaderBuild::Finished(Err(ShaderError::CompileError { name: path, message }))
    }

    /// Takes the build on by one answer of the graphics API.
    pub fn step(self, reply: GlReply) -> (next: (ShaderBuild, Vec<GlCall>))
        ensures
            (next.0@, plan(next.1@)) == self@.step(reply@),
            self@.reads_log() ==> (reply@ matches ReplyView::Bytes(log) ==> keeps_well_formed(log)),
    {
        match (self, reply) {
            (ShaderBuild::Creating { path, source }, GlReply::Name(shader)) => {
                let calls = vec![
                    GlCall::ShaderSource { shader, source },
                    GlCall::CompileShader { shader },
                    GlCall::GetShaderiv { shader, pname: COMPILE_STATUS, preset: 1 },
                ];
                assert(plan(calls@) =~= self@.step(reply@).1);
                (ShaderBuild::Compiling { path, shader }, calls)
            },
            (ShaderBuild::Compiling { path, shader }, GlReply::Int(status)) => {
                if status == 0 {
                    let calls = vec![
                        GlCall::GetShaderiv { shader, pname: INFO_LOG_LENGTH, preset: 0 },
                    ];
                    assert(plan(calls@) =~= self@.step(reply@).1);
                    (ShaderBuild::Measuring { path, shader }, calls)
                } else {
                    let calls: Vec<GlCall> = Vec::new();
                    assert(plan(calls@) =~= self@.step(reply@).1);
                    (ShaderBuild::Finished(Ok(Shader { id: shader })), calls)
                }
            },
            (ShaderBuild::Measuring { path, shader }, GlReply::Int(len)) => {
                let calls = vec![GlCall::GetShaderInfoLog { shader, len }];
                assert(plan(calls@) =~= self@.step(reply@).1);
                (ShaderBuild::Logging { path, shader }, calls)
            },
            (ShaderBuild::Logging { path, shader }, GlReply::Bytes(log)) => {
                let calls: Vec<GlCall> = Vec::new();
                assert(plan(calls@) =~= self@.step(reply@).1);
                (ShaderBuild::failed(path, decode_lossy(&log)), calls)
            },
            (build, _) => {
                let calls: Vec<GlCall> = Vec::new();
                assert(plan(calls@) =~= self@.step(reply@).1);
                (build, calls)
            },
        }
    }
}

/// The two stages that a program is given a shader for.
#[derive(Debug, Clone, Copy, PartialEq, Eq, Structural)]
pub enum Stage {
    Vertex,
    Fragment,
}

impl Stage {
    /// The kind of shader object that the stage takes.
    pub open spec fn spec_kind(self) -> u32 {
        match self {
            Stage::Vertex => VERTEX_SHADER,
            Stage::Fragment => FRAGMENT_SHADER,
        }
    }

    /// The kind of shader object that the stage takes.
    #[verifier::when_used_as_spec(spec_kind)]
    pub fn kind(self) -> (kind: u32)
        ensures
            kind == self.spec_kind(),
    {
        match self {
            Stage::Vertex => VERTEX_SHADER,
            Stage::Fragment => FRAGMENT_SHADER,
        }
    }
}

/// A program object, known by the name the graphics API gave it, with the
/// shaders that it holds for its two stages.
#[derive(Debug)]
pub struct Program {
    id: u32,
    vert: Option<Shader>,
    frag: Option<Shader>,
}

/// A [`Program`] by the names of its objects.
pub ghost struct ProgramView {
    pub id: u32,
    pub vert: Option<u32>,
    pub frag: Option<u32>,
}

/// The call that is owed when the shader of a stage, if there is one, is
/// given up.
pub open spec fn shader_release(shader: Option<u32>) -> Seq<CallView> {
    match shader {
        Some(shader) => seq![CallView::DeleteShader { shader }],
        None => seq![],
    }
}

impl ProgramView {
    /// The calls that are owed when the program is given up: the program
    /// object is deleted first, then the vertex shader, then the fragment
    /// shader.
    pub open spec fn release(self) -> Seq<CallView> {
        seq![CallView::DeleteProgram { program: self.id }] + shader_release(self.vert)
            + shader_release(self.frag)
    }

    /// The shader that the program holds for a stage.
    pub open spec fn shader(self, stage: Stage) -> Option<u32> {
        match stage {
            Stage::Vertex => self.vert,
            Stage::Fragment => self.frag,
        }
    }

    /// The program with `shader` in the place of the one it held for `stage`.
    pub open spec fn with_shader(self, stage: Stage, shader: u32) -> ProgramView {
        match stage {
            Stage::Vertex => ProgramView { vert: Some(shader), ..self },
            Stage::Fragment => ProgramView { frag: Some(shader), ..self },
        }
    }

    /// The calls that give the program `shader` for `stage`: the shader is
    /// attached, and the one that the program held for that stage before, if
    /// any, is given up.
    pub open spec fn attach(self, stage: Stage, shader: u32) -> Seq<CallView> {
        seq![CallView::AttachShader { program: self.id, shader }] + shader_release(
            self.shader(stage),
        )
    }
}

impl View for Program {
    type V = ProgramView;

    closed spec fn view(&self) -> ProgramView {
        ProgramView {
            id: self.id,
            vert: match self.vert {
                Some(shader) => Some(shader@),
                None => None,
            },
            frag: match self.frag {
                Some(shader) => Some(shader@),
                None => None,
            },
        }
    }
}

/// The building of a program, between two answers of the graphics API.
///
/// [`Program::vertex_shader`], [`Program::fragment_shader`] and
/// [`Program::link`] start it and [`ProgramBuild::step`] takes it on by one
/// answer. Each hands out, beside the build, the calls to make next; the answer
/// to the last of them is what the next `step` is given.
#[derive(Debug)]
pub enum ProgramBuild {
    /// A shader for `stage` is being built.
    Attaching { program: Program, stage: Stage, build: ShaderBuild },
    /// The program was linked; the link status is awaited.
    Linking { program: Program },
    /// The link failed; the length of the log is awaited.
    Measuring { program: Program },
    /// The link failed; the log is awaited.
    Logging { program: Program },
    /// The build is over, with the program or with the reason why there is
    /// none.
    Finished(Result<Program, ShaderError>),
}

/// A [`ProgramBuild`] with its parts by their views.
pub ghost enum ProgramBuildView {
    Attaching { program: ProgramView, stage: Stage, build: ShaderBuildView },
    Linking { program: ProgramView },
    Measuring { program: ProgramView },
    Logging { program: ProgramView },
    Finished(Result<ProgramView, ShaderErrorView>),
}

impl ProgramBuildView {
    /// What becomes of a program that waits for a shader for `stage`, once the
    /// shader's build has come to `progress`.
    ///
    /// A finished shader is attached and kept, and the program is handed out.
    /// A failed build fails the program's: the program is given up, and the
    /// shader's error is handed out. Otherwise the program goes on waiting.
    pub open spec fn settle(
        program: ProgramView,
        stage: Stage,
        progress: (ShaderBuildView, Seq<CallView>),
    ) -> (ProgramBuildView, Seq<CallView>) {
        match progress.0 {
            ShaderBuildView::Finished(Ok(shader)) => (
                ProgramBuildView::Finished(Ok(program.with_shader(stage, shader))),
                progress.1 + program.attach(stage, shader),
            ),
            ShaderBuildView::Finished(Err(error)) => (
                ProgramBuildView::Finished(Err(error)),
                progress.1 + program.release(),
            ),
            build => (ProgramBuildView::Attaching { program, stage, build }, progress.1),
        }
    }

    /// The build that gives `program` a shader for `stage` from the file
    /// `path`, given what reading that file gave, and the calls it begins with.
    pub open spec fn start_shader(
        program: ProgramView,
        stage: Stage,
        path: Seq<char>,
        source: Result<Seq<char>, std::io::Error>,
    ) -> (ProgramBuildView, Seq<CallView>) {
        Self::settle(program, stage, ShaderBuildView::start(stage.kind(), path, source))
    }

    /// The build that links `program`, and the calls it begins with.
    pub open spec fn start_link(program: ProgramView) -> (ProgramBuildView, Seq<CallView>) {
        (
            ProgramBuildView::Linking { program },
            seq![
                CallView::LinkProgram { program: program.id },
                CallView::GetProgramiv { program: program.id, pname: LINK_STATUS, preset: 1 },
            ],
        )
    }

    /// The build after `reply`, and the calls to make next.
    ///
    /// While a shader is being built, the reply goes to that build. A link
    /// status of zero means that the link failed: the log is then measured and
    /// fetched, its text becomes the error, and the program is given up. A
    /// reply of a kind that the build does not await leaves it as it is, with
    /// no call to make.
    pub open spec fn step(self, reply: ReplyView) -> (ProgramBuildView, Seq<CallView>) {
        match (self, reply) {
            (ProgramBuildView::Attaching { program, stage, build }, _) => Self::settle(
                program,
                stage,
                build.step(reply),
            ),
            (ProgramBuildView::Linking { program }, ReplyView::Int(status)) => if status == 0 {
                (
                    ProgramBuildView::Measuring { program },
                    seq![
                        CallView::GetProgramiv {
                            program: program.id,
                            pname: INFO_LOG_LENGTH,
                            preset: 0,
                        },
                    ],
                )
            } else {
                (ProgramBuildView::Finished(Ok(program)), seq![])
            },
            (ProgramBuildView::Measuring { program }, ReplyView::Int(len)) => (
                ProgramBuildView::Logging { program },
                seq![CallView::GetProgramInfoLog { program: program.id, len }],
            ),
            (ProgramBuildView::Logging { program }, ReplyView::Bytes(log)) => Self::link_failed(
                program,
                lossy_text(log),
            ),
            _ => (self, seq![]),
        }
    }

    /// Whether the build awaits a log, of which it will make a text.
    pub open spec fn reads_log(self) -> bool {
        match self {
            ProgramBuildView::Attaching { build, .. } => build.reads_log(),
            ProgramBuildView::Logging { .. } => true,
            _ => false,
        }
    }

    /// The program that a build that is not over builds.
    pub open spec fn program(self) -> ProgramView
        recommends
            !(self is Finished),
    {
        match self {
            ProgramBuildView::Attaching { program, .. } => program,
            ProgramBuildView::Linking { program } => program,
            ProgramBuildView::Measuring { program } => program,
            ProgramBuildView::Logging { program } => program,
            ProgramBuildView::Finished(_) => arbitrary(),
        }
    }

    /// The end of a build whose link failed with the log text `message`: the
    /// error, and the calls that give the program up.
    pub open spec fn link_failed(program: ProgramView, message: Seq<char>) -> (
        ProgramBuildView,
        Seq<CallView>,
    ) {
        (ProgramBuildView::Finished(Err(ShaderErrorView::LinkError(message))), program.release())
    }
}

impl View for ProgramBuild {
    type V = ProgramBuildView;

    open spec fn view(&self) -> ProgramBuildView {
        match *self {
            ProgramBuild::Attaching { program, stage, build } => ProgramBuildView::Attaching {
                program: program@,
                stage,
                build: build@,
            },
            ProgramBuild::Linking { program } => ProgramBuildView::Linking { program: program@ },
            ProgramBuild::Measuring { program } => ProgramBuildView::Measuring {
                program: program@,
            },
            ProgramBuild::Logging { program } => ProgramBuildView::Logging { program: program@ },
            ProgramBuild::Finished(Ok(program)) => ProgramBuildView::Finished(Ok(program@)),
            ProgramBuild::Finished(Err(error)) => ProgramBuildView::Finished(Err(error@)),
        }
    }
}

/// The calls of two lists in a row are the calls of the first, then those of
/// the second.
pub proof fn plan_of_concatenation(first: Seq<GlCall>, second: Seq<GlCall>)
    ensures
        plan(first + second) == plan(first) + plan(second),
{
    assert(plan(first + second) =~= plan(first) + plan(second));
}

impl Program {
    /// The program whose object has the name `id`, with no shader yet.
    pub fn new(id: u32) -> (program: Program)
        ensures
            program@ == (ProgramView { id, vert: None, frag: None }),
    {
        Program { id, vert: None, frag: None }
    }

    /// Starts giving the program a vertex shader from the file `path`, of
    /// which `source` is what reading it gave. A source with a NUL character
    /// in it cannot be handed to the graphics API.
    pub fn vertex_shader(self, path: &str, source: Result<String, std::io::Error>) -> (started: (
        ProgramBuild,
        Vec<GlCall>,
    ))
        requires
            source matches Ok(text) ==> is_c_text(text@),
        ensures
            (started.0@, plan(started.1@)) == ProgramBuildView::start_shader(
                self@,
                Stage::Vertex,
                path@,
                match source {
                    Ok(text) => Ok(text@),
                    Err(inner) => Err(inner),
                },
            ),
    {
        let (build, calls) = Shader::new(Stage::Vertex.kind(), path, source);
        self.settle(Stage::Vertex, build, calls)
    }

    /// Starts giving the program a fragment shader from the file `path`, of
    /// which `source` is what reading it gave. A source with a NUL character
    /// in it cannot be handed to the graphics API.
    pub fn fragment_shader(self, path: &str, source: Result<String, std::io::Error>) -> (started: (
        ProgramBuild,
        Vec<GlCall>,
    ))
        requires
            source matches Ok(text) ==> is_c_text(text@),
        ensures
            (started.0@, plan(started.1@)) == ProgramBuildView::start_shader(
                self@,
                Stage::Fragment,
                path@,
                match source {
                    Ok(text) => Ok(text@),
                    Err(inner) => Err(inner),
                },
            ),
    {
        let (build, calls) = Shader::new(Stage::Fragment.kind(), path, source);
        self.settle(Stage::Fragment, build, calls)
    }

    /// Starts linking the program.
    pub fn link(self) -> (started: (ProgramBuild, Vec<GlCall>))
        ensures
            (started.0@, plan(started.1@)) == ProgramBuildView::start_link(self@),
    {
        let calls = vec![
            GlCall::LinkProgram { program: self.id },
            GlCall::GetProgramiv { program: self.id, pname: LINK_STATUS, preset: 1 },
        ];
        assert(plan(calls@) =~= ProgramBuildView::start_link(self@).1);
        (ProgramBuild::Linking { program: self }, calls)
    }

    /// The call that makes the program the current one.
    pub fn set_used(&self) -> (call: GlCall)
        ensures
            call@ == (CallView::UseProgram { program: self@.id }),
    {
        GlCall::UseProgram { program: self.id }
    }

    /// The call that looks up the uniform variable `name` of the program. Its
    /// answer is the variable's location. A name with a NUL character in it
    /// cannot be handed to the graphics API.
    pub fn get_uniform_location(&self, name: &str) -> (call: GlCall)
        requires
            is_c_text(name@),
        ensures
            call@ == (CallView::GetUniformLocation { program: self@.id, name: name@ }),
    {
        GlCall::GetUniformLocation { program: self.id, name: name.to_owned() }
    }

    /// The calls that are owed when the program is given up.
    pub fn release(&self) -> (calls: Vec<GlCall>)
        ensures
            plan(calls@) == self@.release(),
    {
        let mut calls = vec![GlCall::DeleteProgram { program: self.id }];
        if let Some(shader) = &self.vert {
            calls.push(shader.release());
        }
        if let Some(shader) = &self.frag {
            calls.push(shader.release());
        }
        assert(plan(calls@) =~= self@.release());
        calls
    }

    /// Attaches `shader` and keeps it for `stage`, after `calls`.
    fn attach(self, stage: Stage, shader: Shader, calls: Vec<GlCall>) -> (attached: (
        Program,
        Vec<GlCall>,
    ))
        ensures
            attached.0@ == self@.with_shader(stage, shader@),
            plan(attached.1@) == plan(calls@) + self@.attach(stage, shader@),
    {
        let ghost before = plan(calls@);
        let mut calls = calls;
        calls.push(GlCall::AttachShader { program: self.id, shader: shader.id });
        let Program { id, vert, frag } = self;
        let (program, held) = match stage {
            Stage::Vertex => (Program { id, vert: Some(shader), frag }, vert),
            Stage::Fragment => (Program { id, vert, frag: Some(shader) }, frag),
        };
        if let Some(previous) = held {
            calls.push(previous.release());
        }
        assert(plan(calls@) =~= before + self@.attach(stage, shader@));
        (program, calls)
    }

    /// What becomes of the program once the build of its shader for `stage`
    /// has come to `build`, with `calls` to make.
    fn settle(self, stage: Stage, build: ShaderBuild, calls: Vec<GlCall>) -> (settled: (
        ProgramBuild,
        Vec<GlCall>,
    ))
        ensures
            (settled.0@, plan(settled.1@)) == ProgramBuildView::settle(
                self@,
                stage,
                (build@, plan(calls@)),
            ),
    {
        match build {
            ShaderBuild::Finished(Ok(shader)) => {
                let (program, calls) = self.attach(stage, shader, calls);
                (ProgramBuild::Finished(Ok(program)), calls)
            },
            ShaderBuild::Finished(Err(error)) => {
                let mut calls = calls;
                let mut owed = self.release();
                proof {
                    plan_of_concatenation(calls@, owed@);
                }
                calls.append(&mut owed);
                (ProgramBuild::Finished(Err(error)), calls)
            },
            build => (ProgramBuild::Attaching { program: self, stage, build }, calls),
        }
    }
}

impl ProgramBuild {
    /// The end of a build whose link failed with the log text `message`.
    pub fn link_failed(program: Program, message: String) -> (ended: (ProgramBuild, Vec<GlCall>))
        ensures
            (ended.0@, plan(ended.1@)) == ProgramBuildView::link_failed(program@, message@),
    {
        let calls = program.release();
        (ProgramBuild::Finished(Err(ShaderError::LinkError(message))), calls)
    }

    /// Takes the build on by one answer of the graphics API.
    pub fn step(self, reply: GlReply) -> (next: (ProgramBuild, Vec<GlCall>))
        ensures
            (next.0@, plan(next.1@)) == self@.step(reply@),
            self@.reads_log() ==> (reply@ matches ReplyView::Bytes(log) ==> keeps_well_formed(log)),
    {
        match (self, reply) {
            (ProgramBuild::Attaching { program, stage, build }, reply) => {
                let (build, calls) = build.step(reply);
                program.settle(stage, build, calls)
            },
            (ProgramBuild::Linking { program }, GlReply::Int(status)) => {
                if status == 0 {
                    let calls = vec![
                        GlCall::GetProgramiv {
                            program: program.id,
                            pname: INFO_LOG_LENGTH,
                            preset: 0,
                        },
                    ];
                    assert(plan(calls@) =~= self@.step(reply@).1);
                    (ProgramBuild::Measuring { program }, calls)
                } else {
                    let calls: Vec<GlCall> = Vec::new();
                    assert(plan(calls@) =~= self@.step(reply@).1);
                    (ProgramBuild::Finished(Ok(program)), calls)
                }
            },
            (ProgramBuild::Measuring { program }, GlReply::Int(len)) => {
                let calls = vec![GlCall::GetProgramInfoLog { program: program.id, len }];
                assert(plan(calls@) =~= self@.step(reply@).1);
                (ProgramBuild::Logging { program }, calls)
            },
            (ProgramBuild::Logging { program }, GlReply::Bytes(log)) => {
                ProgramBuild::link_failed(program, decode_lossy(&log))
            },
            (build, _) => {
                let calls: Vec<GlCall> = Vec::new();
                assert(plan(calls@) =~= self@.step(reply@).1);
                (build, calls)
            },
        }
    }
}

} // verus!
