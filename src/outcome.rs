use vstd::prelude::*;

verus! {

/// What `String::from_utf8` makes of these bytes: the decoded text, or the
/// text of the decoding error.
pub uninterp spec fn utf8_strict(b: Seq<u8>) -> Result<Seq<char>, Seq<char>>;

/// What `String::from_utf8_lossy` makes of these bytes.
pub uninterp spec fn utf8_lossy(b: Seq<u8>) -> Seq<char>;

/// Relies on `String::from_utf8` (and the `Display` text of its error):
/// the bytes decoded as UTF-8, or the error's description.
#[verifier::external_body]
fn decode_strict(bytes: Vec<u8>) -> (r: Result<String, String>)
    ensures
        match r {
            Ok(s) => utf8_strict(bytes@) == Ok::<Seq<char>, Seq<char>>(s@),
            Err(e) => utf8_strict(bytes@) == Err::<Seq<char>, Seq<char>>(e@),
        },
        bytes@.len() == 0 ==> (r is Ok && r->Ok_0@.len() == 0),
{
    String::from_utf8(bytes).map_err(|e| e.to_string())
}

/// Relies on `String::from_utf8_lossy`: the bytes decoded as UTF-8, each
/// invalid sequence replaced by U+FFFD; valid UTF-8 comes out as the strict
/// decoding gives it.
#[verifier::external_body]
fn decode_lossy(bytes: &Vec<u8>) -> (r: String)
    ensures
        r@ == utf8_lossy(bytes@),
        bytes@.len() == 0 ==> r@.len() == 0,
        utf8_strict(bytes@) is Ok ==> r@ == utf8_strict(bytes@)->Ok_0,
{
    String::from_utf8_lossy(bytes).to_string()
}

/// What a child process left behind once it terminated.
#[derive(Debug, Clone, PartialEq, Eq)]
pub struct ProcessOutput {
    /// Whether the operating system reported a success exit status.
    pub success: bool,
    /// Everything the process wrote to standard output.
    pub stdout: Vec<u8>,
    /// Everything the process wrote to standard error.
    pub stderr: Vec<u8>,
}

/// Why running a command did not yield its output.
#[derive(Debug, Clone, PartialEq, Eq)]
pub enum CommandError {
    /// The process could not be started; holds the operating system's error text.
    SpawnFailure(String),
    /// The process ran and exited with a failure status; holds its standard error.
    NonZeroExit(String),
    /// The process succeeded but its standard output is not UTF-8; holds the
    /// decoding error's text.
    OutputDecodeFailure(String),
}

/// Which of the three failures a `CommandError` is.
#[derive(Debug, Clone, Copy, PartialEq, Eq)]
pub enum ErrorKind {
    SpawnFailure,
    NonZeroExit,
    OutputDecodeFailure,
}

/// What a run comes to: the output text, or the kind of failure and its detail.
pub type Outcome = Result<Seq<char>, (ErrorKind, Seq<char>)>;

pub open spec fn spawn_prefix() -> Seq<char> {
    "Failed to execute command: "@
}

pub open spec fn decode_prefix() -> Seq<char> {
    "Failed to parse command output: "@
}

/// The one line handed to the caller for a failure: spawn and decode
/// failures get a prefix naming the step that failed, a failed exit is its
/// standard error as it stands.
pub open spec fn error_text(kind: ErrorKind, detail: Seq<char>) -> Seq<char> {
    match kind {
        ErrorKind::SpawnFailure => spawn_prefix() + detail,
        ErrorKind::NonZeroExit => detail,
        ErrorKind::OutputDecodeFailure => decode_prefix() + detail,
    }
}

/// A successful run's result, from what decoding its standard output gave.
pub open spec fn stdout_outcome(decoded: Result<Seq<char>, Seq<char>>) -> Outcome {
    match decoded {
        Ok(s) => Ok(s),
        Err(e) => Err((ErrorKind::OutputDecodeFailure, e)),
    }
}

/// The result of a run, from what launching the process gave: the operating
/// system's error text, or the output of the terminated process.
pub open spec fn expected_outcome(launched: Result<ProcessOutput, String>) -> Outcome {
    match launched {
        Err(e) => Err((ErrorKind::SpawnFailure, e@)),
        Ok(o) => if o.success {
            stdout_outcome(utf8_strict(o.stdout@))
        } else {
            Err((ErrorKind::NonZeroExit, utf8_lossy(o.stderr@)))
        },
    }
}

/// The text view of a result handed to the caller.
pub open spec fn text_result(r: Result<String, String>) -> Result<Seq<char>, Seq<char>> {
    match r {
        Ok(s) => Ok(s@),
        Err(e) => Err(e@),
    }
}

/// An outcome as the caller receives it: every failure flattened to its text.
pub open spec fn outcome_text(o: Outcome) -> Result<Seq<char>, Seq<char>> {
    match o {
        Ok(s) => Ok(s),
        Err((k, d)) => Err(error_text(k, d)),
    }
}

impl CommandError {
    pub open spec fn kind(self) -> ErrorKind {
        match self {
            CommandError::SpawnFailure(_) => ErrorKind::SpawnFailure,
            CommandError::NonZeroExit(_) => ErrorKind::NonZeroExit,
            CommandError::OutputDecodeFailure(_) => ErrorKind::OutputDecodeFailure,
        }
    }

    pub open spec fn detail(self) -> Seq<char> {
        match self {
            CommandError::SpawnFailure(e) => e@,
            CommandError::NonZeroExit(e) => e@,
            CommandError::OutputDecodeFailure(e) => e@,
        }
    }

    /// The error as one line of text for the caller.
    pub fn message(&self) -> (r: String)
        ensures
            r@ == error_text(self.kind(), self.detail()),
    {
        match self {
            CommandError::SpawnFailure(e) => {
                let mut r = String::from_str("Failed to execute command: ");
                r.append(e.as_str());
                proof {
                    reveal_strlit("Failed to execute command: ");
                }
                r
            },
            CommandError::NonZeroExit(e) => e.clone(),
            CommandError::OutputDecodeFailure(e) => {
                let mut r = String::from_str("Failed to parse command output: ");
                r.append(e.as_str());
                proof {
                    reveal_strlit("Failed to parse command output: ");
                }
                r
            },
        }
    }
}

/// The model of a result with a typed error.
pub open spec fn outcome_of(r: Result<String, CommandError>) -> Outcome {
    match r {
        Ok(s) => Ok(s@),
        Err(e) => Err((e.kind(), e.detail())),
    }
}

/// Finishes a run whose process exited successfully, given what decoding its
/// standard output as UTF-8 gave: the text, or the decoding error's text.
pub fn stdout_result(decoded: Result<String, String>) -> (r: Result<String, CommandError>)
    ensures
        outcome_of(r) == stdout_outcome(text_result(decoded)),
{
    match decoded {
        Ok(s) => Ok(s),
        Err(e) => Err(CommandError::OutputDecodeFailure(e)),
    }
}

/// Maps what launching a process gave to the result of the run: a launch
/// error is a spawn failure; a success status yields standard output, which
/// must be UTF-8; a failure status yields standard error, decoded lossily,
/// whatever standard output holds.
pub fn classify_outcome(launched: Result<ProcessOutput, String>) -> (r: Result<String, CommandError>)
    ensures
        outcome_of(r) == expected_outcome(launched),
{
    match launched {
        Err(e) => Err(CommandError::SpawnFailure(e)),
        Ok(o) => {
            if o.success {
                stdout_result(decode_strict(o.stdout))
            } else {
                Err(CommandError::NonZeroExit(decode_lossy(&o.stderr)))
            }
        },
    }
}

/// The result of a run as the caller receives it: the output text, or the
/// failure as one line of text.
pub fn command_result(launched: Result<ProcessOutput, String>) -> (r: Result<String, String>)
    ensures
        text_result(r) == outcome_text(expected_outcome(launched)),
{
    match classify_outcome(launched) {
        Ok(s) => Ok(s),
        Err(e) => Err(e.message()),
    }
}

/// A process that exits successfully and whose standard output decodes as
/// UTF-8 yields exactly that decoded text.
pub proof fn lemma_success_yields_stdout(o: ProcessOutput, text: Seq<char>)
    requires
        o.success,
        utf8_strict(o.stdout@) == Ok::<Seq<char>, Seq<char>>(text),
    ensures
        expected_outcome(Ok(o)) == Ok::<Seq<char>, (ErrorKind, Seq<char>)>(text),
        outcome_text(expected_outcome(Ok(o))) == Ok::<Seq<char>, Seq<char>>(text),
{
}

/// A process that exits with a failure status yields its standard error,
/// decoded lossily, as a failed exit; what it wrote to standard output plays
/// no part.
pub proof fn lemma_failed_exit_yields_stderr(a: ProcessOutput, b: ProcessOutput)
    requires
        !a.success,
        !b.success,
        a.stderr@ == b.stderr@,
    ensures
        expected_outcome(Ok(a)) == Err::<Seq<char>, (ErrorKind, Seq<char>)>(
            (ErrorKind::NonZeroExit, utf8_lossy(a.stderr@)),
        ),
        outcome_text(expected_outcome(Ok(a))) == Err::<Seq<char>, Seq<char>>(utf8_lossy(a.stderr@)),
        expected_outcome(Ok(a)) == expected_outcome(Ok(b)),
{
}

/// A process that could not be launched yields a spawn failure carrying the
/// operating system's error text; no output is decoded.
pub proof fn lemma_launch_error_is_spawn_failure(os_error: String)
    ensures
        expected_outcome(Err(os_error)) == Err::<Seq<char>, (ErrorKind, Seq<char>)>(
            (ErrorKind::SpawnFailure, os_error@),
        ),
        outcome_text(expected_outcome(Err(os_error))) == Err::<Seq<char>, Seq<char>>(
            spawn_prefix() + os_error@,
        ),
{
}

} // verus!
