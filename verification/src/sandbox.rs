//! The pipeline itself: the output and error model and the
//! compile-then-conditionally-execute state machine.

use vstd::prelude::*;
use vstd::utf8::{decode_utf8, valid_utf8};

use crate::command::{
    argv_views, compile_command, execute_command, spec_compile_command, spec_execute_command,
    Language,
};

verus! {

/// The ways a pipeline can fail to operate, as opposed to the submitted
/// code failing to compile or run (the latter is ordinary data carried in
/// [`CommandOutput::success`], never an error of this enumeration).
#[derive(Clone, Copy, PartialEq, Eq, Structural, Debug)]
pub enum SandboxError {
    /// Captured output bytes are not valid text.
    StringConversionError,
    /// The workspace directory could not be created.
    TempError,
    /// The permission bits could not be set on the workspace.
    PermissionsError,
    /// The source text could not be written into the workspace.
    SourceFileError,
    /// The container engine could not be invoked for the compile phase.
    CompilationError,
    /// The compiler reported success but left no artifact behind.
    CompilationOutputError,
    /// The container engine could not be invoked for the execute phase.
    ExecutionError,
}

/// The permission bits a freshly provisioned workspace must carry:
/// read, write and execute for every principal, because the container
/// engine runs under an unrelated user and must write the compiled
/// artifact back through the bind mount.
pub const WORKSPACE_MODE: u32 = 0o777;

/// Mathematical model of one phase's captured output.
pub ghost struct CommandOutputView {
    pub success: bool,
    pub stdout: Seq<char>,
    pub stderr: Seq<char>,
}

/// Immutable record of one phase's result: whether the process exited
/// successfully, and its decoded standard output and standard error.
#[derive(Debug)]
pub struct CommandOutput {
    pub success: bool,
    pub stdout: String,
    pub stderr: String,
}

impl View for CommandOutput {
    type V = CommandOutputView;

    open spec fn view(&self) -> CommandOutputView {
        CommandOutputView { success: self.success, stdout: self.stdout@, stderr: self.stderr@ }
    }
}

/// Mathematical model of a full pipeline result.
pub ghost struct SandboxOutputView {
    pub compile_output: CommandOutputView,
    pub execute_output: CommandOutputView,
}

/// The result of a full pipeline run: the compile phase's output and the
/// execute phase's output. When the compile phase failed, the execute
/// phase was never attempted and `execute_output` is the empty record.
#[derive(Debug)]
pub struct SandboxOutput {
    pub compile_output: CommandOutput,
    pub execute_output: CommandOutput,
}

impl View for SandboxOutput {
    type V = SandboxOutputView;

    open spec fn view(&self) -> SandboxOutputView {
        SandboxOutputView {
            compile_output: self.compile_output@,
            execute_output: self.execute_output@,
        }
    }
}

/// The record standing for a phase that was never attempted: not
/// successful, with empty streams.
pub open spec fn spec_empty_output() -> CommandOutputView {
    CommandOutputView { success: false, stdout: Seq::empty(), stderr: Seq::empty() }
}

/// What decoding a phase's raw outcome yields: the record with both
/// streams decoded when both are valid UTF-8, and nothing otherwise.
pub open spec fn spec_decoded_output(success: bool, stdout: Seq<u8>, stderr: Seq<u8>) -> Option<
    CommandOutputView,
> {
    if valid_utf8(stdout) && valid_utf8(stderr) {
        Some(
            CommandOutputView {
                success,
                stdout: decode_utf8(stdout),
                stderr: decode_utf8(stderr),
            },
        )
    } else {
        None
    }
}

/// Relies on `String::from_utf8`: it returns the string decoded from the
/// given bytes when they are valid UTF-8, and an error otherwise. vstd's
/// `valid_utf8` and `decode_utf8` state the same encoding scheme.
#[verifier::external_body]
fn decode_utf8_vec(bytes: Vec<u8>) -> (r: Option<String>)
    ensures
        r matches Some(s) ==> valid_utf8(bytes@) && s@ == decode_utf8(bytes@),
        r is None ==> !valid_utf8(bytes@),
{
    String::from_utf8(bytes).ok()
}

impl CommandOutput {
    /// Adapts one phase's raw outcome — exit success and captured byte
    /// streams — into a record of decoded text. Bytes that are not valid
    /// UTF-8 are an infrastructure failure, not a phase result.
    pub fn new(success: bool, stdout: Vec<u8>, stderr: Vec<u8>) -> (r: Result<
        CommandOutput,
        SandboxError,
    >)
        ensures
            match r {
                Ok(c) => spec_decoded_output(success, stdout@, stderr@) == Some(c@),
                Err(e) => {
                    &&& spec_decoded_output(success, stdout@, stderr@) is None
                    &&& e == SandboxError::StringConversionError
                },
            },
    {
        let stdout_text = match decode_utf8_vec(stdout) {
            Some(s) => s,
            None => {
                return Err(SandboxError::StringConversionError);
            },
        };
        let stderr_text = match decode_utf8_vec(stderr) {
            Some(s) => s,
            None => {
                return Err(SandboxError::StringConversionError);
            },
        };
        Ok(CommandOutput { success, stdout: stdout_text, stderr: stderr_text })
    }

    /// Builds the empty, unattempted record.
    pub fn empty_failure() -> (c: CommandOutput)
        ensures
            c@ == spec_empty_output(),
    {
        CommandOutput { success: false, stdout: String::new(), stderr: String::new() }
    }
}

/// Mathematical model of what the driver observed of one container run.
pub ghost enum RunEventView {
    SpawnFailed,
    Finished { success: bool, stdout: Seq<u8>, stderr: Seq<u8>, artifact_exists: bool },
}

/// What the driver observed of one container run: either the engine could
/// not be spawned or awaited at all, or the process finished with an exit
/// status, raw byte streams, and word on whether the workspace now holds
/// the compiled artifact.
pub enum RunEvent {
    SpawnFailed,
    Finished { success: bool, stdout: Vec<u8>, stderr: Vec<u8>, artifact_exists: bool },
}

impl View for RunEvent {
    type V = RunEventView;

    open spec fn view(&self) -> RunEventView {
        match self {
            RunEvent::SpawnFailed => RunEventView::SpawnFailed,
            RunEvent::Finished { success, stdout, stderr, artifact_exists } => (
            RunEventView::Finished {
                success: *success,
                stdout: stdout@,
                stderr: stderr@,
                artifact_exists: *artifact_exists,
            }),
        }
    }
}

/// Mathematical model of the pipeline's state.
pub ghost enum PipelineStateView {
    Compiling { language: Language },
    CompileFailed { compile_output: CommandOutputView },
    Executing { compile_output: CommandOutputView },
    Completed { output: SandboxOutputView },
    Errored { error: SandboxError },
}

/// The pipeline's state machine. A fresh pipeline is `Compiling`; after the
/// compile run it either terminates (`CompileFailed`, `Errored`) or moves to
/// `Executing`; after the execute run it terminates (`Completed`,
/// `Errored`). `CompileFailed`, `Completed` and `Errored` are terminal.
pub enum PipelineState {
    /// The compile invocation is due to run.
    Compiling { language: Language },
    /// The submitted code did not compile; execution is never attempted.
    CompileFailed { compile_output: CommandOutput },
    /// Compilation succeeded and left the artifact; the execute invocation
    /// is due to run.
    Executing { compile_output: CommandOutput },
    /// Both phases ran; the assembled result is ready.
    Completed { output: SandboxOutput },
    /// The pipeline itself failed to operate.
    Errored { error: SandboxError },
}

impl View for PipelineState {
    type V = PipelineStateView;

    open spec fn view(&self) -> PipelineStateView {
        match self {
            PipelineState::Compiling { language } => (PipelineStateView::Compiling {
                language: *language,
            }),
            PipelineState::CompileFailed { compile_output } => (PipelineStateView::CompileFailed {
                compile_output: compile_output@,
            }),
            PipelineState::Executing { compile_output } => (PipelineStateView::Executing {
                compile_output: compile_output@,
            }),
            PipelineState::Completed { output } => (PipelineStateView::Completed {
                output: output@,
            }),
            PipelineState::Errored { error } => (PipelineStateView::Errored { error: *error }),
        }
    }
}

/// True of the states in which the pipeline has stopped: no further
/// container run is due.
pub open spec fn spec_is_terminal(state: PipelineStateView) -> bool {
    !(state is Compiling || state is Executing)
}

/// Where the compile run's outcome moves the pipeline: an engine failure
/// is `CompilationError`; a reported success that left no artifact behind
/// is `CompilationOutputError`, whatever the streams hold; after that,
/// undecodable output is `StringConversionError`; a reported compile
/// failure terminates the pipeline with the compiler's output and
/// execution never attempted; a success with the artifact moves on to
/// execution.
pub open spec fn spec_compile_transition(event: RunEventView) -> PipelineStateView {
    match event {
        RunEventView::SpawnFailed => (PipelineStateView::Errored {
            error: SandboxError::CompilationError,
        }),
        RunEventView::Finished { success, stdout, stderr, artifact_exists } => {
            if success && !artifact_exists {
                PipelineStateView::Errored { error: SandboxError::CompilationOutputError }
            } else {
                match spec_decoded_output(success, stdout, stderr) {
                    None => (PipelineStateView::Errored {
                        error: SandboxError::StringConversionError,
                    }),
                    Some(out) => {
                        if !out.success {
                            PipelineStateView::CompileFailed { compile_output: out }
                        } else {
                            PipelineStateView::Executing { compile_output: out }
                        }
                    },
                }
            }
        },
    }
}

/// Where the execute run's outcome moves the pipeline: an engine failure
/// is `ExecutionError`; undecodable output is `StringConversionError`;
/// otherwise both phase outputs are assembled into the completed result.
pub open spec fn spec_execute_transition(
    compile_output: CommandOutputView,
    event: RunEventView,
) -> PipelineStateView {
    match event {
        RunEventView::SpawnFailed => (PipelineStateView::Errored {
            error: SandboxError::ExecutionError,
        }),
        RunEventView::Finished { success, stdout, stderr, .. } => {
            match spec_decoded_output(success, stdout, stderr) {
                None => (PipelineStateView::Errored {
                    error: SandboxError::StringConversionError,
                }),
                Some(out) => (PipelineStateView::Completed {
                    output: SandboxOutputView { compile_output, execute_output: out },
                }),
            }
        },
    }
}

/// The full transition function: running states consume the event as
/// above, and terminal states absorb every event unchanged.
pub open spec fn spec_step(state: PipelineStateView, event: RunEventView) -> PipelineStateView {
    match state {
        PipelineStateView::Compiling { language } => spec_compile_transition(event),
        PipelineStateView::Executing { compile_output } => spec_execute_transition(
            compile_output,
            event,
        ),
        _ => state,
    }
}

/// The result a terminal state carries: a failed compile couples the
/// compiler's output with the empty, unattempted execute record; a
/// completed pipeline carries both phase outputs; an errored pipeline
/// carries its error. Running states carry none.
pub open spec fn spec_pipeline_result(state: PipelineStateView) -> Option<
    Result<SandboxOutputView, SandboxError>,
> {
    match state {
        PipelineStateView::CompileFailed { compile_output } => Some(
            Ok(SandboxOutputView { compile_output, execute_output: spec_empty_output() }),
        ),
        PipelineStateView::Completed { output } => Some(Ok(output)),
        PipelineStateView::Errored { error } => Some(Err(error)),
        _ => None,
    }
}

impl PipelineState {
    /// A fresh pipeline for one submission: the compile phase is due first.
    pub fn start(language: Language) -> (s: PipelineState)
        ensures
            s@ == (PipelineStateView::Compiling { language }),
    {
        PipelineState::Compiling { language }
    }

    /// Whether the pipeline has stopped.
    pub fn is_terminal(&self) -> (b: bool)
        ensures
            b == spec_is_terminal(self@),
    {
        match self {
            PipelineState::Compiling { .. } => false,
            PipelineState::Executing { .. } => false,
            _ => true,
        }
    }

    /// The container invocation due in this state, over the given host
    /// workspace: the language's compile command while compiling, the
    /// execute command while executing, and none once terminal.
    pub fn next_command(&self, workspace: &str) -> (cmd: Option<Vec<String>>)
        ensures
            self@ matches PipelineStateView::Compiling { language } ==> {
                &&& cmd matches Some(argv)
                &&& argv_views(argv@) == spec_compile_command(workspace@, language)
            },
            self@ is Executing ==> {
                &&& cmd matches Some(argv)
                &&& argv_views(argv@) == spec_execute_command(workspace@)
            },
            spec_is_terminal(self@) ==> cmd is None,
    {
        match self {
            PipelineState::Compiling { language } => Some(compile_command(workspace, *language)),
            PipelineState::Executing { .. } => Some(execute_command(workspace)),
            _ => None,
        }
    }

    /// Consumes the compile run's outcome, as [`spec_compile_transition`]
    /// says.
    pub fn compile_transition(event: RunEvent) -> (next: PipelineState)
        ensures
            next@ == spec_compile_transition(event@),
    {
        match event {
            RunEvent::SpawnFailed => PipelineState::Errored {
                error: SandboxError::CompilationError,
            },
            RunEvent::Finished { success, stdout, stderr, artifact_exists } => {
                if success && !artifact_exists {
                    PipelineState::Errored { error: SandboxError::CompilationOutputError }
                } else {
                    match CommandOutput::new(success, stdout, stderr) {
                        Err(error) => PipelineState::Errored { error },
                        Ok(out) => {
                            if !out.success {
                                PipelineState::CompileFailed { compile_output: out }
                            } else {
                                PipelineState::Executing { compile_output: out }
                            }
                        },
                    }
                }
            },
        }
    }

    /// Consumes the execute run's outcome, as [`spec_execute_transition`]
    /// says.
    pub fn execute_transition(compile_output: CommandOutput, event: RunEvent) -> (next:
        PipelineState)
        ensures
            next@ == spec_execute_transition(compile_output@, event@),
    {
        match event {
            RunEvent::SpawnFailed => PipelineState::Errored {
                error: SandboxError::ExecutionError,
            },
            RunEvent::Finished { success, stdout, stderr, .. } => {
                match CommandOutput::new(success, stdout, stderr) {
                    Err(error) => PipelineState::Errored { error },
                    Ok(out) => PipelineState::Completed {
                        output: SandboxOutput { compile_output, execute_output: out },
                    },
                }
            },
        }
    }

    /// Consumes the outcome of the container run that this state was
    /// awaiting, moving the pipeline as [`spec_step`] says; terminal
    /// states absorb every event unchanged.
    pub fn step(self, event: RunEvent) -> (next: PipelineState)
        ensures
            next@ == spec_step(self@, event@),
    {
        match self {
            PipelineState::Compiling { .. } => PipelineState::compile_transition(event),
            PipelineState::Executing { compile_output } => PipelineState::execute_transition(
                compile_output,
                event,
            ),
            other => other,
        }
    }

    /// Hands out the result a terminal state carries, as
    /// [`spec_pipeline_result`] says.
    pub fn into_result(self) -> (r: Result<SandboxOutput, SandboxError>)
        requires
            spec_is_terminal(self@),
        ensures
            match r {
                Ok(out) => spec_pipeline_result(self@) == Some(
                    Ok::<SandboxOutputView, SandboxError>(out@),
                ),
                Err(e) => spec_pipeline_result(self@) == Some(
                    Err::<SandboxOutputView, SandboxError>(e),
                ),
            },
    {
        match self {
            PipelineState::CompileFailed { compile_output } => Ok(
                SandboxOutput { compile_output, execute_output: CommandOutput::empty_failure() },
            ),
            PipelineState::Completed { output } => Ok(output),
            PipelineState::Errored { error } => Err(error),
            PipelineState::Compiling { .. } => {
                proof {
                    assert(false);
                }
                Err(SandboxError::CompilationError)
            },
            PipelineState::Executing { .. } => {
                proof {
                    assert(false);
                }
                Err(SandboxError::ExecutionError)
            },
        }
    }
}

/// A terminal state absorbs every event: once the pipeline has stopped —
/// with a result or with an error — no observed outcome moves it again.
pub proof fn lemma_terminal_states_absorb(state: PipelineStateView, event: RunEventView)
    requires
        spec_is_terminal(state),
    ensures
        spec_step(state, event) == state,
{
}

/// For every language: when the compile run reports success and leaves the
/// artifact, and the execute run then finishes with decodable streams, the
/// pipeline completes with a successful compile record and with the
/// program's decoded standard output as `execute_output.stdout`.
pub proof fn lemma_successful_run_reports_program_output(
    language: Language,
    compile_stdout: Seq<u8>,
    compile_stderr: Seq<u8>,
    execute_success: bool,
    execute_stdout: Seq<u8>,
    execute_stderr: Seq<u8>,
    execute_artifact: bool,
)
    requires
        valid_utf8(compile_stdout),
        valid_utf8(compile_stderr),
        valid_utf8(execute_stdout),
        valid_utf8(execute_stderr),
    ensures
        ({
            let after_compile = spec_step(
                PipelineStateView::Compiling { language },
                RunEventView::Finished {
                    success: true,
                    stdout: compile_stdout,
                    stderr: compile_stderr,
                    artifact_exists: true,
                },
            );
            let compile_record = CommandOutputView {
                success: true,
                stdout: decode_utf8(compile_stdout),
                stderr: decode_utf8(compile_stderr),
            };
            let execute_record = CommandOutputView {
                success: execute_success,
                stdout: decode_utf8(execute_stdout),
                stderr: decode_utf8(execute_stderr),
            };
            let after_execute = spec_step(
                after_compile,
                RunEventView::Finished {
                    success: execute_success,
                    stdout: execute_stdout,
                    stderr: execute_stderr,
                    artifact_exists: execute_artifact,
                },
            );
            let result = SandboxOutputView {
                compile_output: compile_record,
                execute_output: execute_record,
            };
            &&& after_compile == (PipelineStateView::Executing { compile_output: compile_record })
            &&& after_execute == (PipelineStateView::Completed { output: result })
            &&& spec_pipeline_result(after_execute) == Some(
                Ok::<SandboxOutputView, SandboxError>(result),
            )
        }),
{
}

/// For every language: a compile run that reports failure terminates the
/// pipeline at once. Its result couples the compiler's decoded output with
/// the empty, unattempted execute record, and no later event moves the
/// pipeline out of that state — execution is never attempted.
pub proof fn lemma_compile_failure_skips_execution(
    language: Language,
    stdout: Seq<u8>,
    stderr: Seq<u8>,
    artifact_exists: bool,
    later: RunEventView,
)
    requires
        valid_utf8(stdout),
        valid_utf8(stderr),
    ensures
        ({
            let after_compile = spec_step(
                PipelineStateView::Compiling { language },
                RunEventView::Finished {
                    success: false,
                    stdout,
                    stderr,
                    artifact_exists,
                },
            );
            let compile_record = CommandOutputView {
                success: false,
                stdout: decode_utf8(stdout),
                stderr: decode_utf8(stderr),
            };
            &&& after_compile == (PipelineStateView::CompileFailed {
                compile_output: compile_record,
            })
            &&& spec_is_terminal(after_compile)
            &&& spec_step(after_compile, later) == after_compile
            &&& spec_pipeline_result(after_compile) == Some(
                Ok::<SandboxOutputView, SandboxError>(
                    SandboxOutputView {
                        compile_output: compile_record,
                        execute_output: spec_empty_output(),
                    },
                ),
            )
        }),
{
}

/// For every language and whatever bytes the streams hold: a compile run
/// that exits successfully but leaves no artifact surfaces
/// `CompilationOutputError`, never a successful result — a broken
/// toolchain is distinguished from code that does not compile.
pub proof fn lemma_missing_artifact_is_an_error(
    language: Language,
    stdout: Seq<u8>,
    stderr: Seq<u8>,
)
    ensures
        ({
            let after_compile = spec_step(
                PipelineStateView::Compiling { language },
                RunEventView::Finished {
                    success: true,
                    stdout,
                    stderr,
                    artifact_exists: false,
                },
            );
            &&& after_compile == (PipelineStateView::Errored {
                error: SandboxError::CompilationOutputError,
            })
            &&& spec_is_terminal(after_compile)
            &&& spec_pipeline_result(after_compile) == Some(
                Err::<SandboxOutputView, SandboxError>(SandboxError::CompilationOutputError),
            )
        }),
{
}

} // verus!
