use colored::control::set_override;
use subtitle_extractor::job::FileJob;
use subtitle_extractor::locator::{SubtitleFormat, TrackSelection};
use subtitle_extractor::pipeline::{
    program, Action, Event, Outcome, Pipeline, Stage, Tool, ToolRun,
};

fn ok() -> Event {
    Event::Ran(ToolRun::Ended { code: Some(0), output: Some(String::new()) })
}

fn printed(text: &str) -> Event {
    Event::Ran(ToolRun::Ended { code: Some(0), output: Some(text.to_string()) })
}

fn failed(code: i32) -> Event {
    Event::Ran(ToolRun::Ended { code: Some(code), output: Some(String::new()) })
}

fn run(program: &str, args: &[&str]) -> Action {
    Action::Run {
        program: program.to_string(),
        args: args.iter().map(|arg| arg.to_string()).collect(),
    }
}

fn warned(reason: &str) -> Action {
    Action::Finish(Outcome::Warned(reason.to_string()))
}

fn extracted(message: &str) -> Action {
    Action::Finish(Outcome::Extracted { message: message.to_string(), warning: None })
}

fn active(path: &str, stage: Stage) -> Pipeline {
    Pipeline::Active { job: FileJob::for_path(path).unwrap(), stage }
}

const PLAIN_LISTING: &str = "|  + Track number: 4 (track ID for mkvmerge & mkvextract: 3)\n|  + Codec ID: S_TEXT/UTF8\n";
const ADVANCED_LISTING: &str = "|  + Track number: 3 (track ID for mkvmerge & mkvextract: 2)\n|  + Codec ID: S_TEXT/ASS\n";

#[test]
fn other_file_is_skipped() {
    let (state, action) = Pipeline::begin("movie.avi");
    let outcome = Outcome::Skipped("Ignored non MKV file 'movie.avi'".to_string());
    assert_eq!(action, Action::Finish(Outcome::Skipped("Ignored non MKV file 'movie.avi'".to_string())));
    assert_eq!(state, Pipeline::Finished { outcome });
}

#[test]
fn skipped_file_stays_skipped() {
    let (state, first) = Pipeline::begin("notes.txt");
    let (state, second) = state.advance(ok());
    let (_, third) = state.advance(Event::Removed { done: true });
    assert_eq!(first, Action::Finish(Outcome::Skipped("Ignored non MKV file 'notes.txt'".to_string())));
    assert_eq!(second, first);
    assert_eq!(third, first);
}

#[test]
fn container_file_is_inspected_first() {
    let (state, action) = Pipeline::begin("dir/ep01.MKV");
    assert_eq!(action, run("mkvinfo", &["dir/ep01.MKV"]));
    assert_eq!(state, active("dir/ep01.MKV", Stage::Inspecting));
}

#[test]
fn file_without_subtitles_is_warned_about() {
    let (state, _) = Pipeline::begin("ep01.mkv");
    let listing = "+ EBML head\n|  + Track number: 1 (track ID for mkvmerge & mkvextract: 0)\n|  + Codec ID: V_MPEG4/ISO/AVC\n";
    let (state, action) = state.advance(printed(listing));
    let reason = "mkvinfo didn't identify any subtitles for file 'ep01.mkv'";
    assert_eq!(action, warned(reason));
    assert_eq!(state, Pipeline::Finished { outcome: Outcome::Warned(reason.to_string()) });
}

#[test]
fn plain_track_is_extracted_and_done() {
    let (state, action) = Pipeline::begin("ep02.mkv");
    assert_eq!(action, run("mkvinfo", &["ep02.mkv"]));
    let (state, action) = state.advance(printed(PLAIN_LISTING));
    assert_eq!(action, Action::Probe { path: "ep02.srt".to_string() });
    assert_eq!(
        state,
        active("ep02.mkv", Stage::Probing { index: 3, format: SubtitleFormat::PlainText })
    );
    let (state, action) = state.advance(Event::Probed { exists: false });
    assert_eq!(action, run("mkvextract", &["ep02.mkv", "tracks", "3:ep02.srt"]));
    assert_eq!(state, active("ep02.mkv", Stage::Extracting { format: SubtitleFormat::PlainText }));
    let (state, action) = state.advance(ok());
    assert_eq!(action, extracted("Processed file 'ep02.mkv'"));
    assert!(matches!(state, Pipeline::Finished { .. }));
}

#[test]
fn advanced_track_is_extracted_converted_and_cleaned() {
    let (state, _) = Pipeline::begin("/films/ep03.mkv");
    let (state, action) = state.advance(printed(ADVANCED_LISTING));
    assert_eq!(action, Action::Probe { path: "/films/ep03.srt".to_string() });
    let (state, action) = state.advance(Event::Probed { exists: false });
    assert_eq!(action, run("mkvextract", &["/films/ep03.mkv", "tracks", "2:/films/ep03.ass"]));
    let (state, action) = state.advance(ok());
    assert_eq!(action, run("ffmpeg", &["-i", "/films/ep03.ass", "/films/ep03.srt"]));
    assert_eq!(state, active("/films/ep03.mkv", Stage::Converting));
    let (state, action) = state.advance(ok());
    assert_eq!(action, Action::Remove { path: "/films/ep03.ass".to_string() });
    assert_eq!(state, active("/films/ep03.mkv", Stage::Cleaning));
    let (state, action) = state.advance(Event::Removed { done: true });
    assert_eq!(action, extracted("Processed file '/films/ep03.mkv'"));
    assert!(matches!(state, Pipeline::Finished { .. }));
}

#[test]
fn stale_product_is_removed_before_extraction() {
    let (state, _) = Pipeline::begin("ep02.mkv");
    let (state, _) = state.advance(printed(PLAIN_LISTING));
    let (state, action) = state.advance(Event::Probed { exists: true });
    assert_eq!(action, Action::Remove { path: "ep02.srt".to_string() });
    assert_eq!(
        state,
        active("ep02.mkv", Stage::Clearing { index: 3, format: SubtitleFormat::PlainText })
    );
    let (state, action) = state.advance(Event::Removed { done: true });
    assert_eq!(action, run("mkvextract", &["ep02.mkv", "tracks", "3:ep02.srt"]));
    let (_, action) = state.advance(ok());
    assert_eq!(action, extracted("Processed file 'ep02.mkv'"));
}

#[test]
fn stale_product_that_cannot_be_removed_ends_the_file() {
    let state = active("ep02.mkv", Stage::Clearing { index: 3, format: SubtitleFormat::PlainText });
    let (state, action) = state.advance(Event::Removed { done: false });
    assert_eq!(action, warned("Cannot remove SRT file 'ep02.srt'"));
    assert!(matches!(state, Pipeline::Finished { .. }));
}

#[test]
fn inspection_failures_are_warned_about() {
    let (_, action) = active("a.mkv", Stage::Inspecting).advance(Event::Ran(ToolRun::NotLaunched));
    assert_eq!(action, warned("Problem treating file 'a.mkv'"));
    let (_, action) = active("a.mkv", Stage::Inspecting).advance(failed(2));
    assert_eq!(action, warned("mkvinfo returned exit code '2' for file 'a.mkv'"));
    let (_, action) = active("a.mkv", Stage::Inspecting).advance(failed(-1073741819));
    assert_eq!(action, warned("mkvinfo returned exit code '-1073741819' for file 'a.mkv'"));
    let (_, action) = active("a.mkv", Stage::Inspecting)
        .advance(Event::Ran(ToolRun::Ended { code: None, output: Some(String::new()) }));
    assert_eq!(action, warned("mkvinfo ended without an exit code for file 'a.mkv'"));
    let (_, action) = active("a.mkv", Stage::Inspecting)
        .advance(Event::Ran(ToolRun::Ended { code: Some(0), output: None }));
    assert_eq!(action, warned("mkvinfo printed what could not be read as text for file 'a.mkv'"));
}

#[test]
fn failed_inspection_is_not_read() {
    let event = Event::Ran(ToolRun::Ended { code: Some(1), output: Some(PLAIN_LISTING.to_string()) });
    let (_, action) = active("a.mkv", Stage::Inspecting).advance(event);
    assert_eq!(action, warned("mkvinfo returned exit code '1' for file 'a.mkv'"));
}

#[test]
fn extraction_failures_are_warned_about() {
    let stage = Stage::Extracting { format: SubtitleFormat::AdvancedSubStationAlpha };
    let (_, action) = active("a.mkv", stage).advance(Event::Ran(ToolRun::NotLaunched));
    assert_eq!(action, warned("Problem extracting file 'a.mkv'"));
    let (_, action) = active("a.mkv", stage).advance(failed(1));
    assert_eq!(action, warned("mkvextract returned exit code '1' for file 'a.mkv'"));
    let (_, action) =
        active("a.mkv", stage).advance(Event::Ran(ToolRun::Ended { code: None, output: None }));
    assert_eq!(action, warned("mkvextract ended without an exit code for file 'a.mkv'"));
}

#[test]
fn extraction_needs_no_output_text() {
    let stage = Stage::Extracting { format: SubtitleFormat::PlainText };
    let (_, action) =
        active("a.mkv", stage).advance(Event::Ran(ToolRun::Ended { code: Some(0), output: None }));
    assert_eq!(action, extracted("Processed file 'a.mkv'"));
}

#[test]
fn conversion_failures_are_warned_about() {
    let (_, action) = active("a.mkv", Stage::Converting).advance(Event::Ran(ToolRun::NotLaunched));
    assert_eq!(action, warned("Problem converting file 'a.ass'"));
    let (_, action) = active("a.mkv", Stage::Converting).advance(failed(255));
    assert_eq!(action, warned("ffmpeg returned exit code '255' for file 'a.ass'"));
}

#[test]
fn leftover_is_warned_about_but_the_file_counts_as_extracted() {
    let (_, action) = active("a.mkv", Stage::Cleaning).advance(Event::Removed { done: false });
    assert_eq!(
        action,
        Action::Finish(Outcome::Extracted {
            message: "Processed file 'a.mkv'".to_string(),
            warning: Some("could not delete file 'a.ass'".to_string()),
        })
    );
}

#[test]
fn report_that_answers_nothing_asked_ends_the_file() {
    let reason = "Unexpected report while processing file 'a.mkv'";
    let (_, action) = active("a.mkv", Stage::Inspecting).advance(Event::Probed { exists: true });
    assert_eq!(action, warned(reason));
    let (_, action) = active("a.mkv", Stage::Converting).advance(Event::Removed { done: true });
    assert_eq!(action, warned(reason));
    let (_, action) = active("a.mkv", Stage::Cleaning).advance(ok());
    assert_eq!(action, warned(reason));
    let stage = Stage::Probing { index: 1, format: SubtitleFormat::PlainText };
    let (_, action) = active("a.mkv", stage).advance(ok());
    assert_eq!(action, warned(reason));
}

#[test]
fn finished_pipeline_keeps_its_outcome() {
    let (state, first) = active("a.mkv", Stage::Converting).advance(failed(1));
    let (state, second) = state.advance(ok());
    let (_, third) = state.advance(Event::Probed { exists: false });
    assert_eq!(first, warned("ffmpeg returned exit code '1' for file 'a.ass'"));
    assert_eq!(second, first);
    assert_eq!(third, first);
}

#[test]
fn selected_goes_on_from_the_locators_decision() {
    let job = FileJob::for_path("ep02.mkv").unwrap();
    let selection =
        TrackSelection::Selected { index: 7, format: SubtitleFormat::AdvancedSubStationAlpha };
    let (state, action) = Pipeline::selected(job, selection);
    assert_eq!(action, Action::Probe { path: "ep02.srt".to_string() });
    assert_eq!(
        state,
        active(
            "ep02.mkv",
            Stage::Probing { index: 7, format: SubtitleFormat::AdvancedSubStationAlpha }
        )
    );
    let job = FileJob::for_path("ep02.mkv").unwrap();
    let (_, action) = Pipeline::selected(job, TrackSelection::NoSubtitleFound);
    assert_eq!(action, warned("mkvinfo didn't identify any subtitles for file 'ep02.mkv'"));
}

#[test]
fn pipeline_ends_within_six_reports() {
    let (mut state, mut action) = Pipeline::begin("a.mkv");
    let mut reports = 0;
    while !matches!(action, Action::Finish(_)) {
        let event = match action {
            Action::Run { ref program, .. } if program == "mkvinfo" => printed(ADVANCED_LISTING),
            Action::Run { .. } => ok(),
            Action::Probe { .. } => Event::Probed { exists: true },
            Action::Remove { .. } => Event::Removed { done: true },
            Action::Finish(_) => unreachable!(),
        };
        let next = state.advance(event);
        state = next.0;
        action = next.1;
        reports += 1;
    }
    assert_eq!(reports, 6);
    assert_eq!(action, extracted("Processed file 'a.mkv'"));
}

#[test]
fn tools_have_their_program_names() {
    assert_eq!(program(Tool::Diagnostic), "mkvinfo");
    assert_eq!(program(Tool::Extraction), "mkvextract");
    assert_eq!(program(Tool::Conversion), "ffmpeg");
}

#[test]
fn tool_run_failure_names_tool_and_file() {
    let run = ToolRun::Ended { code: Some(0), output: None };
    assert!(run.is_success());
    assert_eq!(run.failure(Tool::Extraction, "x.mkv"), None);
    let run = ToolRun::Ended { code: Some(3), output: None };
    assert!(!run.is_success());
    assert_eq!(
        run.failure(Tool::Conversion, "x.ass"),
        Some("ffmpeg returned exit code '3' for file 'x.ass'".to_string())
    );
    assert!(!ToolRun::NotLaunched.is_success());
    assert_eq!(
        ToolRun::NotLaunched.failure(Tool::Diagnostic, "x.mkv"),
        Some("Problem treating file 'x.mkv'".to_string())
    );
    assert!(!ToolRun::Ended { code: None, output: None }.is_success());
}

#[test]
fn outcome_duplicate_is_equal() {
    let outcome = Outcome::Extracted { message: "m".to_string(), warning: Some("w".to_string()) };
    assert_eq!(outcome.duplicate(), outcome);
    let outcome = Outcome::Warned("r".to_string());
    assert_eq!(outcome.duplicate(), outcome);
    let outcome = Outcome::Skipped("s".to_string());
    assert_eq!(outcome.duplicate(), outcome);
}

#[test]
fn outcomes_are_reported_in_their_styles() {
    set_override(true);
    assert_eq!(Outcome::Skipped("Ignored non MKV file 'a'".to_string()).report(), vec!["Ignored non MKV file 'a'"]);
    assert_eq!(Outcome::Warned("why".to_string()).report(), vec!["\x1B[33mWARNING: why\x1B[0m"]);
    assert_eq!(
        Outcome::Extracted { message: "done".to_string(), warning: None }.report(),
        vec!["\x1B[32mdone\x1B[0m"]
    );
    assert_eq!(
        Outcome::Extracted { message: "done".to_string(), warning: Some("left".to_string()) }
            .report(),
        vec!["\x1B[33mWARNING: left\x1B[0m", "\x1B[32mdone\x1B[0m"]
    );
}

#[test]
fn outcomes_are_reported_bare_without_colours() {
    set_override(false);
    assert_eq!(Outcome::Warned("why".to_string()).report(), vec!["WARNING: why"]);
    assert_eq!(
        Outcome::Extracted { message: "done".to_string(), warning: Some("left".to_string()) }
            .report(),
        vec!["WARNING: left", "done"]
    );
}
