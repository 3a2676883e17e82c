//! Spawn-request validation and planning.
//!
//! A spawn request names a program, its arguments, an optional override for
//! the command name handed to the PTY backend, a working directory, an
//! explicit environment mapping that replaces (never inherits) the caller's
//! environment, and an optional explicit size. Planning rejects an empty
//! program before anything else, resolves the terminal size, and otherwise
//! pins down every value the host must hand to the PTY backend: the host
//! opens the PTY with the planned geometry, builds the child command from
//! the planned fields, and spawns it, mapping the two OS failures to
//! `PtyOpen` and `ChildSpawn`.

use vstd::prelude::*;

use crate::size::TerminalSize;
use crate::size::opt_chars;
use crate::size::resolved_size_of;
use crate::size::resolve;

verus! {

/// Everything a spawn needs from the caller, as plain values.
pub struct SpawnRequest {
    /// The program to run; must be non-empty.
    pub program: String,
    /// Arguments appended to the command, in order.
    pub args: Vec<String>,
    /// Overrides the command name handed to the PTY backend when present.
    pub argv0: Option<String>,
    /// Working directory of the child.
    pub cwd: String,
    /// The child's entire environment: nothing else is inherited.
    pub env: Vec<(String, String)>,
    /// Explicit terminal size, when the caller supplies one.
    pub size: Option<(u16, u16)>,
}

/// Why a spawn attempt failed before or at the OS boundary.
#[derive(Clone, Copy, Debug, PartialEq, Eq, Structural)]
pub enum SpawnError {
    /// The program name was empty; nothing was allocated.
    InvalidProgram,
    /// No explicit, probed, or environment-derived terminal size.
    NoSize,
    /// The OS failed to allocate the PTY device.
    PtyOpen,
    /// The OS failed to create the child process.
    ChildSpawn,
}

/// The values the host hands to the PTY backend, fixed by planning.
pub struct SpawnPlan {
    /// Command name for the backend: the override when given, else the program.
    pub command_program: String,
    /// Arguments, exactly as requested and in the same order.
    pub args: Vec<String>,
    /// Working directory, exactly as requested.
    pub cwd: String,
    /// The child's entire environment, exactly as requested.
    pub env: Vec<(String, String)>,
    /// The geometry to open the PTY with; both dimensions positive.
    pub size: TerminalSize,
}

/// The outcome of planning a spawn: an empty program is rejected first;
/// then a missing size; otherwise the plan carries the request's values
/// unchanged, with the command name resolved and the size clamped.
pub open spec fn spawn_outcome(
    request: SpawnRequest,
    stdout_probe: Option<(u16, u16)>,
    stdin_probe: Option<(u16, u16)>,
    env_rows: Option<Seq<char>>,
    env_cols: Option<Seq<char>>,
) -> Result<SpawnPlan, SpawnError> {
    if request.program@.len() == 0 {
        Err(SpawnError::InvalidProgram)
    } else {
        match resolved_size_of(request.size, stdout_probe, stdin_probe, env_rows, env_cols) {
            Some((rows, cols)) => Ok(
                SpawnPlan {
                    command_program: match request.argv0 {
                        Some(a) => a,
                        None => request.program,
                    },
                    args: request.args,
                    cwd: request.cwd,
                    env: request.env,
                    size: TerminalSize { rows, cols },
                },
            ),
            None => Err(SpawnError::NoSize),
        }
    }
}

/// Validate a spawn request and fix the values the host will hand to the
/// OS. Returns exactly `spawn_outcome` of the inputs: `InvalidProgram` for
/// an empty program (checked before anything else), `NoSize` when no size
/// resolves, and otherwise a plan whose fields are the request's own.
pub fn plan_spawn(
    request: SpawnRequest,
    stdout_probe: Option<(u16, u16)>,
    stdin_probe: Option<(u16, u16)>,
    env_rows: Option<&str>,
    env_cols: Option<&str>,
) -> (r: Result<SpawnPlan, SpawnError>)
    ensures
        r == spawn_outcome(
            request,
            stdout_probe,
            stdin_probe,
            opt_chars(env_rows),
            opt_chars(env_cols),
        ),
{
    if request.program.as_str().is_empty() {
        return Err(SpawnError::InvalidProgram);
    }
    match resolve(request.size, stdout_probe, stdin_probe, env_rows, env_cols) {
        Ok(size) => {
            let command_program = match request.argv0 {
                Some(a) => a,
                None => request.program,
            };
            Ok(
                SpawnPlan {
                    command_program,
                    args: request.args,
                    cwd: request.cwd,
                    env: request.env,
                    size,
                },
            )
        },
        Err(_) => Err(SpawnError::NoSize),
    }
}

/// PTY support is always present on this build's platform.
pub fn conpty_supported() -> (r: bool)
    ensures
        r,
{
    true
}

/// An empty program is rejected as `InvalidProgram` whatever else the
/// request or the surroundings hold; planning is pure, so nothing is
/// allocated on that path.
pub proof fn lemma_empty_program_rejected(
    request: SpawnRequest,
    stdout_probe: Option<(u16, u16)>,
    stdin_probe: Option<(u16, u16)>,
    env_rows: Option<Seq<char>>,
    env_cols: Option<Seq<char>>,
)
    requires
        request.program@.len() == 0,
    ensures
        spawn_outcome(request, stdout_probe, stdin_probe, env_rows, env_cols)
            == Err::<SpawnPlan, SpawnError>(SpawnError::InvalidProgram),
{
}

/// With no explicit size, no usable probe, and no environment variables,
/// planning a spawn of a non-empty program fails with `NoSize`.
pub proof fn lemma_spawn_without_size_fails(request: SpawnRequest)
    requires
        request.program@.len() > 0,
        request.size is None,
    ensures
        spawn_outcome(request, None, None, None, None)
            == Err::<SpawnPlan, SpawnError>(SpawnError::NoSize),
{
}

} // verus!
