//! The single-file pipeline: the decisions that take one directory entry from
//! inspection to a finished subtitle file.
//!
//! The pipeline runs no program and touches no file. It is a state machine:
//! it names the next thing to do as an [`Action`], the caller does it and
//! hands back what happened as an [`Event`], and the pipeline answers with the
//! next action, until the action is [`Action::Finish`].

use crate::decimal::{render_i32, signed_decimal};
use crate::job::{
    advanced_path_of, is_container_path, plain_path_of, track_argument, track_argument_of, FileJob,
};
use crate::locator::{
    law_no_codec_line, line_facts, locate, locate_spec, none_advanced, none_plain, SubtitleFormat,
    TrackSelection,
};
use crate::terminal::{format_success, format_warning, renders, warning_text, Tone};
use crate::text::{concat3, lines_of, split_lines, text_of, texts};
use vstd::prelude::*;
use vstd::string::*;

verus! {

/// The outside programs that the pipeline asks for.
#[derive(Clone, Copy, Debug, PartialEq, Eq, Structural)]
pub enum Tool {
    /// Prints what a container file holds.
    Diagnostic,
    /// Writes one track of a container file to a file of its own.
    Extraction,
    /// Converts advanced subtitles to plain text.
    Conversion,
}

/// Where an unfinished pipeline stands: what it has asked for and waits to
/// hear about.
#[derive(Clone, Copy, Debug, PartialEq, Eq, Structural)]
pub enum Stage {
    /// The diagnostic tool was asked to describe the file.
    Inspecting,
    /// It was asked whether the plain-text subtitle file exists already.
    Probing { index: u64, format: SubtitleFormat },
    /// The stale plain-text subtitle file was to be removed.
    Clearing { index: u64, format: SubtitleFormat },
    /// The extraction tool was asked to write the track.
    Extracting { format: SubtitleFormat },
    /// The conversion tool was asked to convert the extracted track.
    Converting,
    /// The advanced subtitle file, no longer needed, was to be removed.
    Cleaning,
}

/// How the run of an outside program went.
#[derive(Debug, PartialEq, Eq)]
pub enum ToolRun {
    /// The program could not be started.
    NotLaunched,
    /// The program ran and ended. `code` is its exit code where the system
    /// reports one; `output` is what it printed, where that decoded as text.
    Ended { code: Option<i32>, output: Option<String> },
}

/// What the caller reports back after an action.
#[derive(Debug, PartialEq, Eq)]
pub enum Event {
    /// A program was run.
    Ran(ToolRun),
    /// A path was looked up.
    Probed { exists: bool },
    /// A file was to be removed; `done` says whether it is gone.
    Removed { done: bool },
}

/// How the pipeline ended for one directory entry.
#[derive(Debug, PartialEq, Eq)]
pub enum Outcome {
    /// The entry is no container file and was left alone.
    Skipped(String),
    /// The file was given up, for the reason told.
    Warned(String),
    /// The subtitle file was written. `warning` tells of a leftover that could
    /// not be cleared away.
    Extracted { message: String, warning: Option<String> },
}

/// What the caller is to do next.
#[derive(Debug, PartialEq, Eq)]
pub enum Action {
    /// Run `program` with `args`, wait for it, and report how it went.
    Run { program: String, args: Vec<String> },
    /// Report whether `path` exists.
    Probe { path: String },
    /// Remove the file at `path` and report whether that worked.
    Remove { path: String },
    /// Nothing more: report the outcome.
    Finish(Outcome),
}

/// The state of the pipeline for one directory entry.
#[derive(Debug, PartialEq, Eq)]
pub enum Pipeline {
    /// Work on the job is under way.
    Active { job: FileJob, stage: Stage },
    /// The pipeline has ended.
    Finished { outcome: Outcome },
}

/// The model of a [`ToolRun`].
pub enum ToolRunView {
    NotLaunched,
    Ended { code: Option<i32>, output: Option<Seq<char>> },
}

/// The model of an [`Event`].
pub enum EventView {
    Ran(ToolRunView),
    Probed { exists: bool },
    Removed { done: bool },
}

/// The model of an [`Outcome`].
pub enum OutcomeView {
    Skipped(Seq<char>),
    Warned(Seq<char>),
    Extracted { message: Seq<char>, warning: Option<Seq<char>> },
}

/// The model of an [`Action`].
pub enum ActionView {
    Run { program: Seq<char>, args: Seq<Seq<char>> },
    Probe { path: Seq<char> },
    Remove { path: Seq<char> },
    Finish(OutcomeView),
}

/// The model of a [`Pipeline`]; a job stands in it as its container path.
pub enum PipelineView {
    Active { job: Seq<char>, stage: Stage },
    Finished { outcome: OutcomeView },
}

impl View for ToolRun {
    type V = ToolRunView;

    open spec fn view(&self) -> ToolRunView {
        match *self {
            ToolRun::NotLaunched => ToolRunView::NotLaunched,
            ToolRun::Ended { code, output } => ToolRunView::Ended { code, output: text_of(output) },
        }
    }
}

impl View for Event {
    type V = EventView;

    open spec fn view(&self) -> EventView {
        match *self {
            Event::Ran(run) => EventView::Ran(run@),
            Event::Probed { exists } => EventView::Probed { exists },
            Event::Removed { done } => EventView::Removed { done },
        }
    }
}

impl View for Outcome {
    type V = OutcomeView;

    open spec fn view(&self) -> OutcomeView {
        match *self {
            Outcome::Skipped(notice) => OutcomeView::Skipped(notice@),
            Outcome::Warned(reason) => OutcomeView::Warned(reason@),
            Outcome::Extracted { message, warning } => OutcomeView::Extracted {
                message: message@,
                warning: text_of(warning),
            },
        }
    }
}

impl View for Action {
    type V = ActionView;

    open spec fn view(&self) -> ActionView {
        match *self {
            Action::Run { program, args } => ActionView::Run {
                program: program@,
                args: texts(args@),
            },
            Action::Probe { path } => ActionView::Probe { path: path@ },
            Action::Remove { path } => ActionView::Remove { path: path@ },
            Action::Finish(outcome) => ActionView::Finish(outcome@),
        }
    }
}

impl View for Pipeline {
    type V = PipelineView;

    open spec fn view(&self) -> PipelineView {
        match *self {
            Pipeline::Active { job, stage } => PipelineView::Active { job: job@, stage },
            Pipeline::Finished { outcome } => PipelineView::Finished { outcome: outcome@ },
        }
    }
}

/// The name under which a tool is called.
pub open spec fn program_of(tool: Tool) -> Seq<char> {
    match tool {
        Tool::Diagnostic => "mkvinfo"@,
        Tool::Extraction => "mkvextract"@,
        Tool::Conversion => "ffmpeg"@,
    }
}

/// The notice for an entry that is no container file.
pub open spec fn ignored_notice(path: Seq<char>) -> Seq<char> {
    "Ignored non MKV file '"@ + path + "'"@
}

/// The notice for a file whose subtitles were written.
pub open spec fn success_notice(path: Seq<char>) -> Seq<char> {
    "Processed file '"@ + path + "'"@
}

/// The complaint about a tool that could not be started.
pub open spec fn launch_complaint(tool: Tool, subject: Seq<char>) -> Seq<char> {
    match tool {
        Tool::Diagnostic => "Problem treating file '"@ + subject + "'"@,
        Tool::Extraction => "Problem extracting file '"@ + subject + "'"@,
        Tool::Conversion => "Problem converting file '"@ + subject + "'"@,
    }
}

/// The complaint about a tool that ended in failure, with its exit code where
/// there is one.
pub open spec fn exit_complaint(tool: Tool, code: Option<i32>, subject: Seq<char>) -> Seq<char> {
    match code {
        Some(c) => program_of(tool) + " returned exit code '"@ + signed_decimal(c as int)
            + "' for file '"@ + subject + "'"@,
        None => program_of(tool) + " ended without an exit code for file '"@ + subject + "'"@,
    }
}

/// The complaint about diagnostic output that is no text.
pub open spec fn undecodable_complaint(path: Seq<char>) -> Seq<char> {
    "mkvinfo printed what could not be read as text for file '"@ + path + "'"@
}

/// The complaint about a file in which no subtitle track was found.
pub open spec fn no_subtitle_complaint(path: Seq<char>) -> Seq<char> {
    "mkvinfo didn't identify any subtitles for file '"@ + path + "'"@
}

/// The complaint about a stale subtitle file that is in the way.
pub open spec fn stale_complaint(path: Seq<char>) -> Seq<char> {
    "Cannot remove SRT file '"@ + path + "'"@
}

/// The complaint about an intermediate file that stays behind.
pub open spec fn leftover_complaint(path: Seq<char>) -> Seq<char> {
    "could not delete file '"@ + path + "'"@
}

/// The complaint about a report that does not answer what was asked.
pub open spec fn unexpected_complaint(path: Seq<char>) -> Seq<char> {
    "Unexpected report while processing file '"@ + path + "'"@
}

/// A tool run succeeded when the program ended with exit code zero.
pub open spec fn succeeded(run: ToolRunView) -> bool {
    run matches ToolRunView::Ended { code, .. } && code == Some(0i32)
}

/// What is wrong with a tool run, if anything is.
pub open spec fn tool_failure(tool: Tool, run: ToolRunView, subject: Seq<char>) -> Option<
    Seq<char>,
> {
    match run {
        ToolRunView::NotLaunched => Some(launch_complaint(tool, subject)),
        ToolRunView::Ended { code, .. } => if code == Some(0i32) {
            None
        } else {
            Some(exit_complaint(tool, code, subject))
        },
    }
}

/// The file that the extraction writes for a track of the given format.
pub open spec fn destination_of(job: Seq<char>, format: SubtitleFormat) -> Seq<char> {
    match format {
        SubtitleFormat::AdvancedSubStationAlpha => advanced_path_of(job),
        SubtitleFormat::PlainText => plain_path_of(job),
    }
}

/// The end of a pipeline with the given outcome.
pub open spec fn finish_spec(outcome: OutcomeView) -> (PipelineView, ActionView) {
    (PipelineView::Finished { outcome }, ActionView::Finish(outcome))
}

/// The first step for a directory entry: a container file is inspected,
/// anything else is skipped.
pub open spec fn begin_spec(path: Seq<char>) -> (PipelineView, ActionView) {
    if is_container_path(path) {
        (
            PipelineView::Active { job: path, stage: Stage::Inspecting },
            ActionView::Run { program: program_of(Tool::Diagnostic), args: seq![path] },
        )
    } else {
        finish_spec(OutcomeView::Skipped(ignored_notice(path)))
    }
}

/// The step after the locator has decided: without a track the file is given
/// up; with one, the pipeline first asks whether an earlier product is in the
/// way.
pub open spec fn selected_spec(job: Seq<char>, selection: TrackSelection) -> (
    PipelineView,
    ActionView,
) {
    match selection {
        TrackSelection::NoSubtitleFound => finish_spec(
            OutcomeView::Warned(no_subtitle_complaint(job)),
        ),
        TrackSelection::Selected { index, format } => (
            PipelineView::Active { job, stage: Stage::Probing { index, format } },
            ActionView::Probe { path: plain_path_of(job) },
        ),
    }
}

/// The step after the diagnostic tool has run.
pub open spec fn inspected_spec(job: Seq<char>, run: ToolRunView) -> (PipelineView, ActionView) {
    match tool_failure(Tool::Diagnostic, run, job) {
        Some(reason) => finish_spec(OutcomeView::Warned(reason)),
        None => match run {
            ToolRunView::Ended { output: Some(text), .. } => selected_spec(
                job,
                locate_spec(lines_of(text)),
            ),
            _ => finish_spec(OutcomeView::Warned(undecodable_complaint(job))),
        },
    }
}

/// The request to extract the selected track.
pub open spec fn extraction_spec(job: Seq<char>, index: u64, format: SubtitleFormat) -> (
    PipelineView,
    ActionView,
) {
    (
        PipelineView::Active { job, stage: Stage::Extracting { format } },
        ActionView::Run {
            program: program_of(Tool::Extraction),
            args: seq![job, "tracks"@, track_argument_of(index, destination_of(job, format))],
        },
    )
}

/// The step after the extraction tool has run: plain text is the product
/// itself, advanced subtitles go on to conversion.
pub open spec fn extracted_spec(job: Seq<char>, format: SubtitleFormat, run: ToolRunView) -> (
    PipelineView,
    ActionView,
) {
    match tool_failure(Tool::Extraction, run, job) {
        Some(reason) => finish_spec(OutcomeView::Warned(reason)),
        None => match format {
            SubtitleFormat::PlainText => finish_spec(
                OutcomeView::Extracted { message: success_notice(job), warning: None },
            ),
            SubtitleFormat::AdvancedSubStationAlpha => (
                PipelineView::Active { job, stage: Stage::Converting },
                ActionView::Run {
                    program: program_of(Tool::Conversion),
                    args: seq!["-i"@, advanced_path_of(job), plain_path_of(job)],
                },
            ),
        },
    }
}

/// The step after the conversion tool has run.
pub open spec fn converted_spec(job: Seq<char>, run: ToolRunView) -> (PipelineView, ActionView) {
    match tool_failure(Tool::Conversion, run, advanced_path_of(job)) {
        Some(reason) => finish_spec(OutcomeView::Warned(reason)),
        None => (
            PipelineView::Active { job, stage: Stage::Cleaning },
            ActionView::Remove { path: advanced_path_of(job) },
        ),
    }
}

/// The step from one state on one event.
///
/// A finished pipeline stays finished. An event that does not answer what the
/// stage asked for ends the file with a warning.
pub open spec fn advance_spec(state: PipelineView, event: EventView) -> (PipelineView, ActionView) {
    match state {
        PipelineView::Finished { outcome } => finish_spec(outcome),
        PipelineView::Active { job, stage } => match (stage, event) {
            (Stage::Inspecting, EventView::Ran(run)) => inspected_spec(job, run),
            (Stage::Probing { index, format }, EventView::Probed { exists }) => if exists {
                (
                    PipelineView::Active { job, stage: Stage::Clearing { index, format } },
                    ActionView::Remove { path: plain_path_of(job) },
                )
            } else {
                extraction_spec(job, index, format)
            },
            (Stage::Clearing { index, format }, EventView::Removed { done }) => if done {
                extraction_spec(job, index, format)
            } else {
                finish_spec(OutcomeView::Warned(stale_complaint(plain_path_of(job))))
            },
            (Stage::Extracting { format }, EventView::Ran(run)) => extracted_spec(job, format, run),
            (Stage::Converting, EventView::Ran(run)) => converted_spec(job, run),
            (Stage::Cleaning, EventView::Removed { done }) => finish_spec(
                OutcomeView::Extracted {
                    message: success_notice(job),
                    warning: if done {
                        None
                    } else {
                        Some(leftover_complaint(advanced_path_of(job)))
                    },
                },
            ),
            _ => finish_spec(OutcomeView::Warned(unexpected_complaint(job))),
        },
    }
}

/// How far a pipeline has come: every step takes it further.
pub open spec fn progress(state: PipelineView) -> nat {
    match state {
        PipelineView::Active { stage, .. } => match stage {
            Stage::Inspecting => 0,
            Stage::Probing { .. } => 1,
            Stage::Clearing { .. } => 2,
            Stage::Extracting { .. } => 3,
            Stage::Converting => 4,
            Stage::Cleaning => 5,
        },
        PipelineView::Finished { .. } => 6,
    }
}

/// The lines that report an outcome: a skipped entry as it is, a warning in
/// the warning style, a success in the success style with the warning about a
/// leftover, if there is one, before it.
pub open spec fn reports(lines: Seq<Seq<char>>, outcome: OutcomeView) -> bool {
    match outcome {
        OutcomeView::Skipped(notice) => lines == seq![notice],
        OutcomeView::Warned(reason) => {
            &&& lines.len() == 1
            &&& renders(lines[0], Tone::Yellow, warning_text(reason))
        },
        OutcomeView::Extracted { message, warning: None } => {
            &&& lines.len() == 1
            &&& renders(lines[0], Tone::Green, message)
        },
        OutcomeView::Extracted { message, warning: Some(leftover) } => {
            &&& lines.len() == 2
            &&& renders(lines[0], Tone::Yellow, warning_text(leftover))
            &&& renders(lines[1], Tone::Green, message)
        },
    }
}

/// The name under which a tool is called.
pub fn program(tool: Tool) -> (name: &'static str)
    ensures
        name@ == program_of(tool),
{
    match tool {
        Tool::Diagnostic => "mkvinfo",
        Tool::Extraction => "mkvextract",
        Tool::Conversion => "ffmpeg",
    }
}

fn launch_message(tool: Tool, subject: &str) -> (message: String)
    ensures
        message@ == launch_complaint(tool, subject@),
{
    match tool {
        Tool::Diagnostic => concat3("Problem treating file '", subject, "'"),
        Tool::Extraction => concat3("Problem extracting file '", subject, "'"),
        Tool::Conversion => concat3("Problem converting file '", subject, "'"),
    }
}

fn exit_message(tool: Tool, code: Option<i32>, subject: &str) -> (message: String)
    ensures
        message@ == exit_complaint(tool, code, subject@),
{
    let mut message = String::from_str(program(tool));
    match code {
        Some(c) => {
            let digits = render_i32(c);
            message.append(" returned exit code '");
            message.append(digits.as_str());
            message.append("' for file '");
        },
        None => {
            message.append(" ended without an exit code for file '");
        },
    }
    message.append(subject);
    message.append("'");
    message
}

impl ToolRun {
    /// Whether the program ended with exit code zero.
    pub fn is_success(&self) -> (ok: bool)
        ensures
            ok == succeeded(self@),
    {
        match self {
            ToolRun::Ended { code: Some(c), .. } => *c == 0,
            _ => false,
        }
    }

    /// What is wrong with the run, if anything is; `subject` is the file that
    /// the tool was to work on.
    pub fn failure(&self, tool: Tool, subject: &str) -> (reason: Option<String>)
        ensures
            text_of(reason) == tool_failure(tool, self@, subject@),
    {
        match self {
            ToolRun::NotLaunched => Some(launch_message(tool, subject)),
            ToolRun::Ended { code, .. } => {
                if self.is_success() {
                    None
                } else {
                    Some(exit_message(tool, *code, subject))
                }
            },
        }
    }
}

impl Outcome {
    /// A copy of the outcome.
    pub fn duplicate(&self) -> (copy: Outcome)
        ensures
            copy@ == self@,
    {
        match self {
            Outcome::Skipped(notice) => Outcome::Skipped(notice.clone()),
            Outcome::Warned(reason) => Outcome::Warned(reason.clone()),
            Outcome::Extracted { message, warning } => {
                let warning = match warning {
                    Some(w) => Some(w.clone()),
                    None => None,
                };
                Outcome::Extracted { message: message.clone(), warning }
            },
        }
    }

    /// The lines that report the outcome on the terminal.
    pub fn report(&self) -> (lines: Vec<String>)
        ensures
            reports(texts(lines@), self@),
    {
        let mut lines: Vec<String> = Vec::new();
        match self {
            Outcome::Skipped(notice) => {
                lines.push(notice.clone());
                assert(texts(lines@) =~= seq![notice@]);
            },
            Outcome::Warned(reason) => {
                lines.push(format_warning(reason.as_str()));
            },
            Outcome::Extracted { message, warning } => {
                match warning {
                    Some(leftover) => {
                        lines.push(format_warning(leftover.as_str()));
                    },
                    None => {},
                }
                lines.push(format_success(message.as_str()));
            },
        }
        lines
    }
}

/// Ends the pipeline with `outcome`.
fn finish(outcome: Outcome) -> (end: (Pipeline, Action))
    ensures
        (end.0@, end.1@) == finish_spec(outcome@),
{
    let copy = outcome.duplicate();
    (Pipeline::Finished { outcome }, Action::Finish(copy))
}

/// Asks for the extraction of track `index` of `job`.
fn extraction(job: FileJob, index: u64, format: SubtitleFormat) -> (next: (Pipeline, Action))
    ensures
        (next.0@, next.1@) == extraction_spec(job@, index, format),
{
    let argument = match format {
        SubtitleFormat::AdvancedSubStationAlpha => track_argument(
            index,
            job.advanced_path().as_str(),
        ),
        SubtitleFormat::PlainText => track_argument(index, job.plain_path().as_str()),
    };
    let mut args: Vec<String> = Vec::new();
    args.push(job.source().clone());
    args.push(String::from_str("tracks"));
    args.push(argument);
    assert(texts(args@) =~= seq![
        job@,
        "tracks"@,
        track_argument_of(index, destination_of(job@, format)),
    ]);
    let action = Action::Run { program: String::from_str(program(Tool::Extraction)), args };
    (Pipeline::Active { job, stage: Stage::Extracting { format } }, action)
}

impl Pipeline {
    /// Starts the pipeline for one directory entry.
    ///
    /// An entry that is no container file is skipped at once: no program is
    /// asked for and no file is touched on its behalf.
    pub fn begin(path: &str) -> (start: (Pipeline, Action))
        ensures
            (start.0@, start.1@) == begin_spec(path@),
            !is_container_path(path@) ==> start.1@ == ActionView::Finish(
                OutcomeView::Skipped(ignored_notice(path@)),
            ),
    {
        match FileJob::for_path(path) {
            Some(job) => {
                let mut args: Vec<String> = Vec::new();
                args.push(job.source().clone());
                assert(texts(args@) =~= seq![path@]);
                let action = Action::Run {
                    program: String::from_str(program(Tool::Diagnostic)),
                    args,
                };
                (Pipeline::Active { job, stage: Stage::Inspecting }, action)
            },
            None => finish(Outcome::Skipped(concat3("Ignored non MKV file '", path, "'"))),
        }
    }

    /// Goes on from what the locator decided for the file.
    pub fn selected(job: FileJob, selection: TrackSelection) -> (next: (Pipeline, Action))
        ensures
            (next.0@, next.1@) == selected_spec(job@, selection),
    {
        match selection {
            TrackSelection::NoSubtitleFound => finish(
                Outcome::Warned(
                    concat3(
                        "mkvinfo didn't identify any subtitles for file '",
                        job.source().as_str(),
                        "'",
                    ),
                ),
            ),
            TrackSelection::Selected { index, format } => {
                let action = Action::Probe { path: job.plain_path().clone() };
                (Pipeline::Active { job, stage: Stage::Probing { index, format } }, action)
            },
        }
    }

    /// Goes on from the run of the diagnostic tool: its output is split into
    /// lines and given to the locator.
    fn inspected(job: FileJob, run: ToolRun) -> (next: (Pipeline, Action))
        ensures
            (next.0@, next.1@) == inspected_spec(job@, run@),
    {
        match run.failure(Tool::Diagnostic, job.source().as_str()) {
            Some(reason) => finish(Outcome::Warned(reason)),
            None => match run {
                ToolRun::Ended { code: _, output: Some(text) } => {
                    let lines = split_lines(text.as_str());
                    let selection = locate(lines.as_slice());
                    Pipeline::selected(job, selection)
                },
                _ => finish(
                    Outcome::Warned(
                        concat3(
                            "mkvinfo printed what could not be read as text for file '",
                            job.source().as_str(),
                            "'",
                        ),
                    ),
                ),
            },
        }
    }

    /// Goes on from the run of the extraction tool.
    fn extracted(job: FileJob, format: SubtitleFormat, run: ToolRun) -> (next: (Pipeline, Action))
        ensures
            (next.0@, next.1@) == extracted_spec(job@, format, run@),
    {
        match run.failure(Tool::Extraction, job.source().as_str()) {
            Some(reason) => finish(Outcome::Warned(reason)),
            None => match format {
                SubtitleFormat::PlainText => finish(
                    Outcome::Extracted {
                        message: concat3("Processed file '", job.source().as_str(), "'"),
                        warning: None,
                    },
                ),
                SubtitleFormat::AdvancedSubStationAlpha => {
                    let mut args: Vec<String> = Vec::new();
                    args.push(String::from_str("-i"));
                    args.push(job.advanced_path().clone());
                    args.push(job.plain_path().clone());
                    assert(texts(args@) =~= seq![
                        "-i"@,
                        advanced_path_of(job@),
                        plain_path_of(job@),
                    ]);
                    let action = Action::Run {
                        program: String::from_str(program(Tool::Conversion)),
                        args,
                    };
                    (Pipeline::Active { job, stage: Stage::Converting }, action)
                },
            },
        }
    }

    /// Goes on from the run of the conversion tool.
    fn converted(job: FileJob, run: ToolRun) -> (next: (Pipeline, Action))
        ensures
            (next.0@, next.1@) == converted_spec(job@, run@),
    {
        match run.failure(Tool::Conversion, job.advanced_path().as_str()) {
            Some(reason) => finish(Outcome::Warned(reason)),
            None => {
                let action = Action::Remove { path: job.advanced_path().clone() };
                (Pipeline::Active { job, stage: Stage::Cleaning }, action)
            },
        }
    }

    /// Takes the report of what happened and names the next action.
    pub fn advance(self, event: Event) -> (next: (Pipeline, Action))
        ensures
            (next.0@, next.1@) == advance_spec(self@, event@),
            self@ is Active ==> progress(next.0@) > progress(self@),
            next.1@ is Finish <==> next.0@ is Finished,
    {
        match self {
            Pipeline::Finished { outcome } => finish(outcome),
            Pipeline::Active { job, stage } => match stage {
                Stage::Inspecting => match event {
                    Event::Ran(run) => Pipeline::inspected(job, run),
                    _ => Pipeline::unexpected(job),
                },
                Stage::Probing { index, format } => match event {
                    Event::Probed { exists } => {
                        if exists {
                            let action = Action::Remove { path: job.plain_path().clone() };
                            (
                                Pipeline::Active { job, stage: Stage::Clearing { index, format } },
                                action,
                            )
                        } else {
                            extraction(job, index, format)
                        }
                    },
                    _ => Pipeline::unexpected(job),
                },
                Stage::Clearing { index, format } => match event {
                    Event::Removed { done } => {
                        if done {
                            extraction(job, index, format)
                        } else {
                            finish(
                                Outcome::Warned(
                                    concat3(
                                        "Cannot remove SRT file '",
                                        job.plain_path().as_str(),
                                        "'",
                                    ),
                                ),
                            )
                        }
                    },
                    _ => Pipeline::unexpected(job),
                },
                Stage::Extracting { format } => match event {
                    Event::Ran(run) => Pipeline::extracted(job, format, run),
                    _ => Pipeline::unexpected(job),
                },
                Stage::Converting => match event {
                    Event::Ran(run) => Pipeline::converted(job, run),
                    _ => Pipeline::unexpected(job),
                },
                Stage::Cleaning => match event {
                    Event::Removed { done } => {
                        let warning = if done {
                            None
                        } else {
                            Some(
                                concat3(
                                    "could not delete file '",
                                    job.advanced_path().as_str(),
                                    "'",
                                ),
                            )
                        };
                        finish(
                            Outcome::Extracted {
                                message: concat3("Processed file '", job.source().as_str(), "'"),
                                warning,
                            },
                        )
                    },
                    _ => Pipeline::unexpected(job),
                },
            },
        }
    }

    /// Gives the file up because the report does not answer what was asked.
    fn unexpected(job: FileJob) -> (end: (Pipeline, Action))
        ensures
            (end.0@, end.1@) == finish_spec(OutcomeView::Warned(unexpected_complaint(job@))),
    {
        finish(
            Outcome::Warned(
                concat3("Unexpected report while processing file '", job.source().as_str(), "'"),
            ),
        )
    }
}

/// Every step takes an unfinished pipeline further, so a file is done with
/// after six reports at most; the action is to finish exactly when the
/// pipeline has finished; and a finished pipeline keeps its outcome.
pub proof fn law_steps_advance(state: PipelineView, event: EventView)
    ensures
        state is Active ==> progress(advance_spec(state, event).0) > progress(state),
        advance_spec(state, event).1 is Finish <==> advance_spec(state, event).0 is Finished,
        (state matches PipelineView::Finished { outcome } ==> advance_spec(state, event)
            == finish_spec(outcome)),
{
}

/// An entry that is no container file is skipped from the start and stays
/// skipped whatever is reported: no program is ever asked for and no file is
/// probed or removed on its behalf.
pub proof fn law_other_entries_skipped(path: Seq<char>, event: EventView)
    requires
        !is_container_path(path),
    ensures
        begin_spec(path) == finish_spec(OutcomeView::Skipped(ignored_notice(path))),
        advance_spec(begin_spec(path).0, event) == begin_spec(path),
{
}

/// A product of an earlier run that is in the way costs one removal and
/// changes nothing else: the pipeline asks to remove the plain-text subtitle
/// file, and once that is done it asks for the extraction exactly as it does
/// where no such file exists.
pub proof fn law_stale_product_replaced(job: Seq<char>, index: u64, format: SubtitleFormat)
    ensures
        ({
            let probing = PipelineView::Active { job, stage: Stage::Probing { index, format } };
            let found = advance_spec(probing, EventView::Probed { exists: true });
            &&& found.1 == ActionView::Remove { path: plain_path_of(job) }
            &&& advance_spec(found.0, EventView::Removed { done: true }) == advance_spec(
                probing,
                EventView::Probed { exists: false },
            )
        }),
{
}

/// A pipeline stays with its job: a step never changes the job, the only
/// files it asks to probe or remove are the two subtitle files derived from
/// the job's container file, and the only programs it asks for are the
/// extraction and conversion tools.
pub proof fn law_steps_stay_with_job(job: Seq<char>, stage: Stage, event: EventView)
    ensures
        ({
            let next = advance_spec(PipelineView::Active { job, stage }, event);
            &&& next.0 matches PipelineView::Active { job: kept, .. } ==> kept == job
            &&& next.1 matches ActionView::Probe { path } ==> path == plain_path_of(job)
            &&& next.1 matches ActionView::Remove { path } ==> path == plain_path_of(job) || path
                == advanced_path_of(job)
            &&& next.1 matches ActionView::Run { program, .. } ==> program == program_of(
                Tool::Extraction,
            ) || program == program_of(Tool::Conversion)
        }),
{
}

/// A file whose diagnostic text holds no codec line is given up with the
/// warning that no subtitles were identified, before any file is probed,
/// written or removed.
pub proof fn law_no_codec_line_warns(job: Seq<char>, text: Seq<char>)
    requires
        none_advanced(line_facts(lines_of(text))),
        none_plain(line_facts(lines_of(text))),
    ensures
        advance_spec(
            PipelineView::Active { job, stage: Stage::Inspecting },
            EventView::Ran(ToolRunView::Ended { code: Some(0i32), output: Some(text) }),
        ) == finish_spec(OutcomeView::Warned(no_subtitle_complaint(job))),
{
    law_no_codec_line(line_facts(lines_of(text)));
}

/// The way of a plain-text track where every step succeeds: the track is
/// written straight to the plain-text subtitle file and the file is done; no
/// conversion is asked for and nothing is removed.
pub proof fn law_plain_track_run(job: Seq<char>, index: u64, run: ToolRunView)
    requires
        succeeded(run),
    ensures
        ({
            let selection = TrackSelection::Selected { index, format: SubtitleFormat::PlainText };
            let chosen = selected_spec(job, selection);
            let probed = advance_spec(chosen.0, EventView::Probed { exists: false });
            let extracted = advance_spec(probed.0, EventView::Ran(run));
            &&& chosen.1 == ActionView::Probe { path: plain_path_of(job) }
            &&& probed.1 == ActionView::Run {
                program: program_of(Tool::Extraction),
                args: seq![job, "tracks"@, track_argument_of(index, plain_path_of(job))],
            }
            &&& extracted == finish_spec(
                OutcomeView::Extracted { message: success_notice(job), warning: None },
            )
        }),
{
}

/// The way of an advanced track where every step succeeds: the track is
/// written to the advanced subtitle file, that file is converted to the
/// plain-text one and then removed, and the file is done.
pub proof fn law_advanced_track_run(job: Seq<char>, index: u64, run: ToolRunView)
    requires
        succeeded(run),
    ensures
        ({
            let selection = TrackSelection::Selected {
                index,
                format: SubtitleFormat::AdvancedSubStationAlpha,
            };
            let chosen = selected_spec(job, selection);
            let probed = advance_spec(chosen.0, EventView::Probed { exists: false });
            let extracted = advance_spec(probed.0, EventView::Ran(run));
            let converted = advance_spec(extracted.0, EventView::Ran(run));
            let cleaned = advance_spec(converted.0, EventView::Removed { done: true });
            &&& chosen.1 == ActionView::Probe { path: plain_path_of(job) }
            &&& probed.1 == ActionView::Run {
                program: program_of(Tool::Extraction),
                args: seq![job, "tracks"@, track_argument_of(index, advanced_path_of(job))],
            }
            &&& extracted.1 == ActionView::Run {
                program: program_of(Tool::Conversion),
                args: seq!["-i"@, advanced_path_of(job), plain_path_of(job)],
            }
            &&& converted.1 == ActionView::Remove { path: advanced_path_of(job) }
            &&& cleaned == finish_spec(
                OutcomeView::Extracted { message: success_notice(job), warning: None },
            )
        }),
{
}

} // verus!
