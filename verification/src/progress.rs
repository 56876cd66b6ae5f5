//! Whole builds: what a build comes to over the answers of the graphics API.

use crate::calls::{CallView, ReplyView, reply_fits};
use crate::calls::{COMPILE_STATUS, INFO_LOG_LENGTH, LINK_STATUS};
use crate::shader::{ProgramBuildView, ProgramView, ShaderBuildView, ShaderErrorView, Stage};
use crate::text::lossy_text;
use vstd::prelude::*;

verus! {

/// Whether the calls of `calls` end with those of `tail`.
pub open spec fn ends_with(calls: Seq<CallView>, tail: Seq<CallView>) -> bool {
    tail.len() <= calls.len() && calls.subrange(calls.len() - tail.len(), calls.len() as int)
        == tail
}

/// A shader whose source was read and whose compile status is not zero is
/// handed out under the name it was created with, after four calls: create,
/// source, compile, status.
pub proof fn compiled_shader_is_handed_out(
    kind: u32,
    path: Seq<char>,
    source: Seq<char>,
    shader: u32,
    status: i32,
)
    requires
        status != 0,
    ensures
        ({
            let started = ShaderBuildView::start(kind, path, Ok(source));
            let created = started.0.step(ReplyView::Name(shader));
            let ended = created.0.step(ReplyView::Int(status));
            &&& ended.0 == ShaderBuildView::Finished(Ok(shader))
            &&& started.1 + created.1 + ended.1 == seq![
                CallView::CreateShader { kind },
                CallView::ShaderSource { shader, source },
                CallView::CompileShader { shader },
                CallView::GetShaderiv { shader, pname: COMPILE_STATUS, preset: 1 },
            ]
        }),
{
    let started = ShaderBuildView::start(kind, path, Ok(source));
    let created = started.0.step(ReplyView::Name(shader));
    let ended = created.0.step(ReplyView::Int(status));
    assert(started.1 + created.1 + ended.1 =~= seq![
        CallView::CreateShader { kind },
        CallView::ShaderSource { shader, source },
        CallView::CompileShader { shader },
        CallView::GetShaderiv { shader, pname: COMPILE_STATUS, preset: 1 },
    ]);
}

/// A shader whose compile status is zero ends as a compile error that names
/// the file and holds the text of the log, after the log was measured and
/// fetched with the length that the measuring gave. No call deletes the
/// shader object.
pub proof fn failed_compile_reports_log(
    kind: u32,
    path: Seq<char>,
    source: Seq<char>,
    shader: u32,
    len: i32,
    log: Seq<u8>,
)
    ensures
        ({
            let started = ShaderBuildView::start(kind, path, Ok(source));
            let created = started.0.step(ReplyView::Name(shader));
            let checked = created.0.step(ReplyView::Int(0));
            let measured = checked.0.step(ReplyView::Int(len));
            let ended = measured.0.step(ReplyView::Bytes(log));
            &&& ended.0 == ShaderBuildView::Finished(
                Err(ShaderErrorView::CompileError { name: path, message: lossy_text(log) }),
            )
            &&& checked.1 + measured.1 + ended.1 == seq![
                CallView::GetShaderiv { shader, pname: INFO_LOG_LENGTH, preset: 0 },
                CallView::GetShaderInfoLog { shader, len },
            ]
        }),
{
    let started = ShaderBuildView::start(kind, path, Ok(source));
    let created = started.0.step(ReplyView::Name(shader));
    let checked = created.0.step(ReplyView::Int(0));
    let measured = checked.0.step(ReplyView::Int(len));
    let ended = measured.0.step(ReplyView::Bytes(log));
    assert(checked.1 + measured.1 + ended.1 =~= seq![
        CallView::GetShaderiv { shader, pname: INFO_LOG_LENGTH, preset: 0 },
        CallView::GetShaderInfoLog { shader, len },
    ]);
}

/// A shader build that a step has taken on and not finished has asked for a
/// call, and every reply that fits the last call it asked for takes it on
/// again: a build never waits for an answer that its own calls do not give.
pub proof fn shader_build_goes_on(build: ShaderBuildView, reply: ReplyView, answer: ReplyView)
    requires
        build.step(reply).0 != build,
        !(build.step(reply).0 is Finished),
    ensures
        build.step(reply).1.len() > 0,
        reply_fits(build.step(reply).1.last(), answer) ==> build.step(reply).0.step(answer).0
            != build.step(reply).0,
{
}

/// A finished shader build stays as it is, whatever the reply, and asks for
/// nothing more.
pub proof fn finished_shader_build_stays(build: ShaderBuildView, reply: ReplyView)
    requires
        build is Finished,
    ensures
        build.step(reply) == (build, Seq::<CallView>::empty()),
{
}

/// A program that is given a shader whose source was read and whose compile
/// status is not zero is handed out with that shader in the stage's place,
/// and the last calls attach the shader and give up the one it replaces.
pub proof fn built_shader_is_attached(
    program: ProgramView,
    stage: Stage,
    path: Seq<char>,
    source: Seq<char>,
    shader: u32,
    status: i32,
)
    requires
        status != 0,
    ensures
        ({
            let started = ProgramBuildView::start_shader(program, stage, path, Ok(source));
            let created = started.0.step(ReplyView::Name(shader));
            let ended = created.0.step(ReplyView::Int(status));
            &&& started.1 == seq![CallView::CreateShader { kind: stage.kind() }]
            &&& ended.0 == ProgramBuildView::Finished(Ok(program.with_shader(stage, shader)))
            &&& ended.1 == program.attach(stage, shader)
        }),
{
    let started = ProgramBuildView::start_shader(program, stage, path, Ok(source));
    let created = started.0.step(ReplyView::Name(shader));
    let ended = created.0.step(ReplyView::Int(status));
    assert(ended.1 =~= program.attach(stage, shader));
}

/// A program whose shader file could not be read is given up at once, with
/// an I/O error that names the file and holds the cause.
pub proof fn unread_source_gives_program_up(
    program: ProgramView,
    stage: Stage,
    path: Seq<char>,
    inner: std::io::Error,
)
    ensures
        ProgramBuildView::start_shader(program, stage, path, Err(inner)) == (
            ProgramBuildView::Finished(Err(ShaderErrorView::IoError { name: path, inner })),
            program.release(),
        ),
{
    assert(ProgramBuildView::start_shader(program, stage, path, Err(inner)).1
        =~= program.release());
}

/// A program whose link status is not zero is handed out as it was, after
/// two calls: link, status.
pub proof fn linked_program_is_handed_out(program: ProgramView, status: i32)
    requires
        status != 0,
    ensures
        ({
            let started = ProgramBuildView::start_link(program);
            let ended = started.0.step(ReplyView::Int(status));
            &&& ended.0 == ProgramBuildView::Finished(Ok(program))
            &&& started.1 + ended.1 == seq![
                CallView::LinkProgram { program: program.id },
                CallView::GetProgramiv { program: program.id, pname: LINK_STATUS, preset: 1 },
            ]
        }),
{
    let started = ProgramBuildView::start_link(program);
    let ended = started.0.step(ReplyView::Int(status));
    assert(started.1 + ended.1 =~= started.1);
}

/// A program whose link status is zero ends as a link error that holds the
/// text of the log, after the log was measured and fetched with the length
/// that the measuring gave, and the program is given up.
pub proof fn failed_link_reports_log(program: ProgramView, len: i32, log: Seq<u8>)
    ensures
        ({
            let started = ProgramBuildView::start_link(program);
            let checked = started.0.step(ReplyView::Int(0));
            let measured = checked.0.step(ReplyView::Int(len));
            let ended = measured.0.step(ReplyView::Bytes(log));
            &&& ended.0 == ProgramBuildView::Finished(
                Err(ShaderErrorView::LinkError(lossy_text(log))),
            )
            &&& checked.1 + measured.1 == seq![
                CallView::GetProgramiv { program: program.id, pname: INFO_LOG_LENGTH, preset: 0 },
                CallView::GetProgramInfoLog { program: program.id, len },
            ]
            &&& ended.1 == program.release()
        }),
{
    let started = ProgramBuildView::start_link(program);
    let checked = started.0.step(ReplyView::Int(0));
    let measured = checked.0.step(ReplyView::Int(len));
    assert(checked.1 + measured.1 =~= seq![
        CallView::GetProgramiv { program: program.id, pname: INFO_LOG_LENGTH, preset: 0 },
        CallView::GetProgramInfoLog { program: program.id, len },
    ]);
}

/// A program build that a step has taken on and not finished has asked for a
/// call, and every reply that fits the last call it asked for takes it on
/// again.
pub proof fn program_build_goes_on(build: ProgramBuildView, reply: ReplyView, answer: ReplyView)
    requires
        build.step(reply).0 != build,
        !(build.step(reply).0 is Finished),
    ensures
        build.step(reply).1.len() > 0,
        reply_fits(build.step(reply).1.last(), answer) ==> build.step(reply).0.step(answer).0
            != build.step(reply).0,
{
    if let ProgramBuildView::Attaching { program, stage, build: shader_build } = build {
        shader_build_goes_on(shader_build, reply, answer);
    }
}

/// Whenever a step ends a program build in an error, the last calls it asks
/// for give the program up: no failed build leaves its program object, or a
/// shader that the program held, behind.
pub proof fn failed_build_gives_program_up(build: ProgramBuildView, reply: ReplyView)
    requires
        !(build is Finished),
        build.step(reply).0 matches ProgramBuildView::Finished(Err(_)),
    ensures
        ends_with(build.step(reply).1, build.program().release()),
{
    let calls = build.step(reply).1;
    let owed = build.program().release();
    match build {
        ProgramBuildView::Attaching { program, stage, build: shader_build } => {
            let progress = shader_build.step(reply);
            assert(calls == progress.1 + owed);
            assert(calls.subrange(calls.len() - owed.len(), calls.len() as int) =~= owed);
        },
        _ => {
            assert(calls.subrange(calls.len() - owed.len(), calls.len() as int) =~= owed);
        },
    }
}

/// A step that does not end a program build in an error deletes nothing.
pub proof fn build_that_goes_on_deletes_no_program(
    build: ProgramBuildView,
    reply: ReplyView,
    at: int,
)
    requires
        !(build.step(reply).0 matches ProgramBuildView::Finished(Err(_))),
        0 <= at < build.step(reply).1.len(),
    ensures
        !(build.step(reply).1[at] is DeleteProgram),
{
}

} // verus!
