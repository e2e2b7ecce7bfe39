//! The trim session: the form's values, the defaults derived from the input,
//! the engine invocations built from them, and how the engine's exit is read.
use crate::path::{join, joined, parent, parent_of};
use crate::probe::{duration_from_probe, duration_text, fallback, fallback_duration};
use vstd::prelude::*;

verus! {

/// The name under which the engine is found on the search path.
pub const ENGINE: &'static str = "ffmpeg";

/// The file name that the default output path ends in.
pub const DEFAULT_OUTPUT_NAME: &'static str = "trimmed_output.mp4";

/// Which invocation a session builds.
#[derive(Clone, Copy, Debug, PartialEq, Eq, Structural)]
pub enum Mode {
    /// Hand the input to the engine and let the output's extension pick the format.
    Convert,
    /// Cut a time window out of the input by stream copy.
    TrimVideo,
}

/// Why an execution did not succeed.
#[derive(Debug)]
pub enum ConvertError {
    /// The input or the output path is empty; no process was started.
    EmptyPath,
    /// The engine could not be started; the system's description of why.
    LaunchFailed(String),
    /// The engine ran and failed; its diagnostic text.
    EngineFailed(String),
}

/// What came of running the engine.
#[derive(Debug)]
pub enum EngineOutcome {
    /// The process ran to its end: its exit code (`None` where a signal ended
    /// it) and its diagnostic text.
    Exited { code: Option<i32>, stderr: String },
    /// The process could not be started.
    NotLaunched { reason: String },
}

/// The in-memory state of one pending operation.
#[derive(Debug)]
pub struct TrimApp {
    pub input_path: String,
    pub output_path: String,
    pub mode: Mode,
    pub start_time: String,
    pub end_time: String,
    pub video_length: String,
}

/// The default output path for the input `p`: its directory joined with the
/// fixed file name, or `None` where `p` has no parent directory.
pub open spec fn default_output_of(p: Seq<char>) -> Option<Seq<char>> {
    match parent_of(p) {
        Some(d) => Some(joined(d, DEFAULT_OUTPUT_NAME@)),
        None => None,
    }
}

/// The arguments of the probe of input `input`.
pub open spec fn probe_arguments(input: Seq<char>) -> Seq<Seq<char>> {
    seq!["-i"@, input, "-hide_banner"@, "-f"@, "null"@, "-"@]
}

/// The arguments of a stream-copy trim of `input` from `start` to `end`.
pub open spec fn trim_arguments(
    input: Seq<char>,
    start: Seq<char>,
    end: Seq<char>,
    output: Seq<char>,
) -> Seq<Seq<char>> {
    seq!["-i"@, input, "-ss"@, start, "-to"@, end, "-c"@, "copy"@, output]
}

/// The arguments of a plain conversion of `input` into `output`.
pub open spec fn convert_arguments(input: Seq<char>, output: Seq<char>) -> Seq<Seq<char>> {
    seq!["-i"@, input, output]
}

/// What an engine outcome means for the user.
pub open spec fn outcome_result(o: EngineOutcome) -> Result<(), ConvertError> {
    match o {
        EngineOutcome::Exited { code, stderr } => if code == Some(0i32) {
            Ok(())
        } else {
            Err(ConvertError::EngineFailed(stderr))
        },
        EngineOutcome::NotLaunched { reason } => Err(ConvertError::LaunchFailed(reason)),
    }
}

/// A string with the contents of the literal `s`.
fn owned(s: &str) -> (r: String)
    ensures
        r@ == s@,
{
    String::from_str(s)
}

/// The default output path for `input`: its parent directory joined with
/// `trimmed_output.mp4`, whatever the input's own name; `None` where the
/// input has no parent directory.
pub fn default_output_path(input: &str) -> (r: Option<String>)
    ensures
        match r {
            Some(o) => default_output_of(input@) == Some(o@),
            None => default_output_of(input@) is None,
        },
{
    match parent(input) {
        Some(d) => Some(join(d.as_str(), DEFAULT_OUTPUT_NAME)),
        None => None,
    }
}

/// Reads the engine's outcome: success exactly on exit code 0, whatever the
/// diagnostic text holds; any other exit is a failure that carries the
/// diagnostic text, and a process that could not start is a launch failure
/// that carries the system's description.
pub fn classify(outcome: EngineOutcome) -> (r: Result<(), ConvertError>)
    ensures
        r == outcome_result(outcome),
{
    match outcome {
        EngineOutcome::Exited { code, stderr } => {
            let ok = match code {
                Some(c) => c == 0,
                None => false,
            };
            if ok {
                Ok(())
            } else {
                Err(ConvertError::EngineFailed(stderr))
            }
        },
        EngineOutcome::NotLaunched { reason } => Err(ConvertError::LaunchFailed(reason)),
    }
}

/// The default output path depends on the input's directory alone: two inputs
/// in one directory get the same one, whatever their own names and
/// extensions, and it is that directory joined with `trimmed_output.mp4`.
pub proof fn lemma_default_output_ignores_file_name(p: Seq<char>, q: Seq<char>)
    requires
        parent_of(p) == parent_of(q),
    ensures
        default_output_of(p) == default_output_of(q),
        parent_of(p) matches Some(d) ==> default_output_of(p) == Some(
            joined(d, DEFAULT_OUTPUT_NAME@),
        ),
{
}

impl TrimApp {
    /// The start of the trim window: the start time, or `"0"` where it is empty.
    pub open spec fn effective_start(&self) -> Seq<char> {
        if self.start_time@.len() == 0 {
            fallback_duration()
        } else {
            self.start_time@
        }
    }

    /// The end of the trim window: the end time, or the probed length where it
    /// is empty.
    pub open spec fn effective_end(&self) -> Seq<char> {
        if self.end_time@.len() == 0 {
            self.video_length@
        } else {
            self.end_time@
        }
    }

    /// The arguments that this session's mode asks for.
    pub open spec fn arguments(&self) -> Seq<Seq<char>> {
        match self.mode {
            Mode::TrimVideo => trim_arguments(
                self.input_path@,
                self.effective_start(),
                self.effective_end(),
                self.output_path@,
            ),
            Mode::Convert => convert_arguments(self.input_path@, self.output_path@),
        }
    }

    /// Both paths are given, so the engine may be run.
    pub open spec fn ready(&self) -> bool {
        self.input_path@.len() > 0 && self.output_path@.len() > 0
    }

    /// A session with every field empty, in conversion mode.
    pub fn new() -> (r: TrimApp)
        ensures
            r.input_path@.len() == 0,
            r.output_path@.len() == 0,
            r.mode == Mode::Convert,
            r.start_time@.len() == 0,
            r.end_time@.len() == 0,
            r.video_length@.len() == 0,
    {
        TrimApp {
            input_path: String::new(),
            output_path: String::new(),
            mode: Mode::Convert,
            start_time: String::new(),
            end_time: String::new(),
            video_length: String::new(),
        }
    }

    /// The arguments of the probe of the input, or `None` where the input path
    /// is empty and no probe is to run.
    pub fn probe_args(&self) -> (r: Option<Vec<String>>)
        ensures
            self.input_path@.len() == 0 ==> r is None,
            self.input_path@.len() > 0 ==> (r matches Some(a) && a.deep_view() == probe_arguments(
                self.input_path@,
            )),
    {
        if self.input_path.as_str().is_empty() {
            return None;
        }
        let mut a: Vec<String> = Vec::new();
        a.push(owned("-i"));
        a.push(self.input_path.clone());
        a.push(owned("-hide_banner"));
        a.push(owned("-f"));
        a.push(owned("null"));
        a.push(owned("-"));
        assert(a.deep_view() =~= probe_arguments(self.input_path@));
        Some(a)
    }

    /// The duration of the input, from the probe's diagnostic text (`None`
    /// where the probe gave none); `"0"` where the input path is empty.
    pub fn get_video_duration(&self, diagnostics: Option<&str>) -> (r: String)
        ensures
            r@ == if self.input_path@.len() == 0 {
                fallback_duration()
            } else {
                match diagnostics {
                    Some(t) => duration_text(t@),
                    None => fallback_duration(),
                }
            },
    {
        if self.input_path.as_str().is_empty() {
            return fallback();
        }
        duration_from_probe(diagnostics)
    }

    /// Derives the defaults from a newly chosen input: the output path becomes
    /// the default one where the input has a parent directory, and the video
    /// length the duration that the probe reported. An empty input path
    /// changes nothing.
    pub fn set_default_output(&mut self, diagnostics: Option<&str>)
        ensures
            old(self).input_path@.len() == 0 ==> *final(self) == *old(self),
            old(self).input_path@.len() > 0 ==> {
                &&& final(self).output_path@ == match default_output_of(old(self).input_path@) {
                    Some(o) => o,
                    None => old(self).output_path@,
                }
                &&& final(self).video_length@ == match diagnostics {
                    Some(t) => duration_text(t@),
                    None => fallback_duration(),
                }
                &&& final(self).input_path == old(self).input_path
                &&& final(self).mode == old(self).mode
                &&& final(self).start_time == old(self).start_time
                &&& final(self).end_time == old(self).end_time
            },
    {
        if !self.input_path.as_str().is_empty() {
            if let Some(o) = default_output_path(self.input_path.as_str()) {
                self.output_path = o;
            }
            self.video_length = self.get_video_duration(diagnostics);
        }
    }

    /// The arguments of the stream-copy trim: from the start time (`"0"` where
    /// empty) to the end time (the probed length where empty).
    pub fn convert_video(&self) -> (r: Vec<String>)
        ensures
            r.deep_view() == trim_arguments(
                self.input_path@,
                self.effective_start(),
                self.effective_end(),
                self.output_path@,
            ),
    {
        let start = if self.start_time.as_str().is_empty() {
            fallback()
        } else {
            self.start_time.clone()
        };
        let end = if self.end_time.as_str().is_empty() {
            self.video_length.clone()
        } else {
            self.end_time.clone()
        };
        let mut a: Vec<String> = Vec::new();
        a.push(owned("-i"));
        a.push(self.input_path.clone());
        a.push(owned("-ss"));
        a.push(start);
        a.push(owned("-to"));
        a.push(end);
        a.push(owned("-c"));
        a.push(owned("copy"));
        a.push(self.output_path.clone());
        assert(a.deep_view() =~= trim_arguments(
            self.input_path@,
            self.effective_start(),
            self.effective_end(),
            self.output_path@,
        ));
        a
    }

    /// The arguments of the plain conversion, which leaves the format to the
    /// output's extension.
    pub fn convert_image(&self) -> (r: Vec<String>)
        ensures
            r.deep_view() == convert_arguments(self.input_path@, self.output_path@),
    {
        let mut a: Vec<String> = Vec::new();
        a.push(owned("-i"));
        a.push(self.input_path.clone());
        a.push(self.output_path.clone());
        assert(a.deep_view() =~= convert_arguments(self.input_path@, self.output_path@));
        a
    }

    /// The engine's arguments for this session, or `EmptyPath` exactly where
    /// the input or the output path is empty (then nothing is to run).
    pub fn convert(&self) -> (r: Result<Vec<String>, ConvertError>)
        ensures
            !self.ready() ==> r matches Err(ConvertError::EmptyPath),
            self.ready() ==> (r matches Ok(a) && a.deep_view() == self.arguments()),
    {
        if self.input_path.as_str().is_empty() || self.output_path.as_str().is_empty() {
            return Err(ConvertError::EmptyPath);
        }
        match self.mode {
            Mode::TrimVideo => Ok(self.convert_video()),
            Mode::Convert => Ok(self.convert_image()),
        }
    }
}

} // verus!
