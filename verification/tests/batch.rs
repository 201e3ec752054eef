use subtitle_extractor::batch::dispatch;
use subtitle_extractor::pipeline::{Action, Outcome, Pipeline};

fn strings(text: &[&str]) -> Vec<String> {
    text.iter().map(|item| item.to_string()).collect()
}

#[test]
fn every_entry_gets_its_own_pipeline() {
    let entries = strings(&["dir/a.mkv", "dir/notes.txt", "dir/b.MKV", "dir/sub"]);
    let started = dispatch(&entries);
    assert_eq!(started.len(), 4);
    for (entry, (state, action)) in entries.iter().zip(started) {
        let (alone_state, alone_action) = Pipeline::begin(entry);
        assert_eq!(state, alone_state);
        assert_eq!(action, alone_action);
    }
}

#[test]
fn entries_are_taken_in_order() {
    let started = dispatch(&strings(&["x.avi", "y.mkv"]));
    assert_eq!(
        started[0].1,
        Action::Finish(Outcome::Skipped("Ignored non MKV file 'x.avi'".to_string()))
    );
    assert_eq!(
        started[1].1,
        Action::Run { program: "mkvinfo".to_string(), args: vec!["y.mkv".to_string()] }
    );
}

#[test]
fn empty_directory_starts_nothing() {
    assert!(dispatch(&Vec::new()).is_empty());
}

#[test]
fn same_entry_gets_the_same_start_whatever_stands_beside_it() {
    let alone = dispatch(&strings(&["ep.mkv"]));
    let beside = dispatch(&strings(&["other.mkv", "ep.mkv", "junk"]));
    assert_eq!(alone[0], beside[1]);
}
