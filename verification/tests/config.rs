use stream_watcher::config::ConfigProbe::{Absent, Malformed, Parsed, Unreadable};
use stream_watcher::config::{ConfigChoice, Loaded};
use stream_watcher::watcher::Streams;
use stream_watcher::{read_config, read_streams};

fn schedule() -> Streams {
    Streams {
        names: vec![(String::from("kaicenat"), 641972806)],
        quality_overides: vec![vec![(String::from("normal"), 480)]],
        streams_to_close_on: vec![Vec::new()],
        streams_to_open_on: vec![Vec::new()],
    }
}

#[test]
fn new_snapshot_is_empty() {
    let streams = Streams::new();
    assert!(streams.names.is_empty());
    assert!(streams.quality_overides.is_empty());
    assert!(streams.streams_to_close_on.is_empty());
    assert!(streams.streams_to_open_on.is_empty());
}

#[test]
fn parsed_schedule_is_handed_on() {
    assert_eq!(schedule(), read_streams(Loaded::Parsed(schedule())));
    assert_eq!(Streams::new(), read_streams(Loaded::Parsed(Streams::new())));
}

#[test]
fn unreadable_schedule_gives_the_empty_snapshot() {
    assert_eq!(Streams::new(), read_streams(Loaded::Unreadable));
}

#[test]
fn malformed_schedule_gives_the_empty_snapshot() {
    assert_eq!(Streams::new(), read_streams(Loaded::Malformed));
}

#[test]
fn first_settings_file_decides() {
    assert_eq!(ConfigChoice::Stored(0), read_config(&vec![Parsed]));
    assert_eq!(ConfigChoice::Stored(0), read_config(&vec![Parsed, Parsed]));
    assert_eq!(
        ConfigChoice::Stored(2),
        read_config(&vec![Absent, Absent, Parsed, Malformed])
    );
    assert_eq!(
        ConfigChoice::Stored(1),
        read_config(&vec![Absent, Parsed, Absent])
    );
    assert_eq!(
        ConfigChoice::Default(0),
        read_config(&vec![Malformed, Parsed])
    );
    assert_eq!(
        ConfigChoice::Default(0),
        read_config(&vec![Unreadable, Parsed])
    );
    assert_eq!(
        ConfigChoice::Default(1),
        read_config(&vec![Absent, Unreadable, Parsed])
    );
    assert_eq!(
        ConfigChoice::Default(3),
        read_config(&vec![Absent, Absent, Absent, Malformed])
    );
}

#[test]
fn without_a_settings_file_the_last_directory_gets_one() {
    assert_eq!(ConfigChoice::Created(None), read_config(&Vec::new()));
    assert_eq!(ConfigChoice::Created(Some(0)), read_config(&vec![Absent]));
    assert_eq!(
        ConfigChoice::Created(Some(2)),
        read_config(&vec![Absent, Absent, Absent])
    );
}
