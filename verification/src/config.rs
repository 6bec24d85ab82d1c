//! Startup configuration.
//!
//! Configuration is read once, before the first epoch. Reading never aborts:
//! a document that is missing, unreadable or malformed is replaced by the
//! default, and the caller tells the operator. The functions here decide what
//! is used; the caller reads the files and parses the documents.

use crate::watcher::{Streams, StreamsView};
use vstd::prelude::*;

verus! {

/// What came of loading one document.
#[derive(Debug, PartialEq, Eq)]
pub enum Loaded<T> {
    /// The file could not be opened or read.
    Unreadable,
    /// The file was read, but its content is not a document of the kind.
    Malformed,
    /// The document.
    Parsed(T),
}

/// The snapshot that an epoch starts from: the schedule where it was parsed,
/// the empty snapshot otherwise.
pub open spec fn snapshot(schedule: Loaded<Streams>) -> StreamsView {
    match schedule {
        Loaded::Parsed(streams) => streams@,
        _ => StreamsView::empty(),
    }
}

/// Settles the channel snapshot from what came of loading the schedule.
///
/// A parsed schedule is handed on as it is. An unreadable or malformed one
/// gives the empty snapshot: the epoch then runs without channels.
pub fn read_streams(schedule: Loaded<Streams>) -> (streams: Streams)
    ensures
        streams@ == snapshot(schedule),
        schedule matches Loaded::Parsed(parsed) ==> streams == parsed,
{
    match schedule {
        Loaded::Parsed(streams) => streams,
        _ => Streams::new(),
    }
}

/// What a look into one configuration directory found.
#[derive(Clone, Copy, Debug, PartialEq, Eq)]
pub enum ConfigProbe {
    /// The directory holds no settings file.
    Absent,
    /// It holds one that could not be read.
    Unreadable,
    /// It holds one whose content is not a settings document.
    Malformed,
    /// It holds a settings document.
    Parsed,
}

/// Where the settings come from.
#[derive(Clone, Copy, Debug, PartialEq, Eq)]
pub enum ConfigChoice {
    /// The document found in the directory at this position.
    Stored(usize),
    /// The defaults for the directory at this position, whose file is of no
    /// use. Nothing is written.
    Default(usize),
    /// The defaults for the last directory, or for the empty path where there
    /// is no directory at all; they are written there as a new settings file.
    Created(Option<usize>),
}

/// Position `i` is the first directory that holds a settings file.
pub open spec fn first_present(probes: Seq<ConfigProbe>, i: int) -> bool {
    &&& 0 <= i < probes.len()
    &&& !(probes[i] is Absent)
    &&& forall|j: int| 0 <= j < i ==> probes[j] is Absent
}

/// The choice that the probes lead to.
pub open spec fn config_choice(probes: Seq<ConfigProbe>, choice: ConfigChoice) -> bool {
    match choice {
        ConfigChoice::Stored(i) => first_present(probes, i as int) && probes[i as int] is Parsed,
        ConfigChoice::Default(i) => first_present(probes, i as int) && !(probes[i as int]
            is Parsed),
        ConfigChoice::Created(last) => {
            &&& forall|j: int| 0 <= j < probes.len() ==> probes[j] is Absent
            &&& last == if probes.len() > 0 {
                Some((probes.len() - 1) as usize)
            } else {
                None
            }
        },
    }
}

/// Chooses the source of the settings from the probes of the configuration
/// directories, given in the order in which the directories are searched.
///
/// The first directory with a settings file decides: its document is used if
/// it parsed, the defaults for that directory if not. Directories after it
/// are not considered. Where no directory has a file, the defaults for the
/// last directory are used and stored.
pub fn read_config(probes: &Vec<ConfigProbe>) -> (choice: ConfigChoice)
    ensures
        config_choice(probes@, choice),
{
    let mut i: usize = 0;
    while i < probes.len()
        invariant
            i <= probes.len(),
            forall|j: int| 0 <= j < i ==> probes[j] is Absent,
        decreases probes.len() - i,
    {
        match probes[i] {
            ConfigProbe::Absent => {},
            ConfigProbe::Parsed => {
                return ConfigChoice::Stored(i);
            },
            _ => {
                return ConfigChoice::Default(i);
            },
        }
        i += 1;
    }
    if probes.len() > 0 {
        ConfigChoice::Created(Some(probes.len() - 1))
    } else {
        ConfigChoice::Created(None)
    }
}

/// The probes leave no choice open: two choices that they lead to are the
/// same.
pub proof fn lemma_config_choice_is_unique(
    probes: Seq<ConfigProbe>,
    one: ConfigChoice,
    other: ConfigChoice,
)
    requires
        config_choice(probes, one),
        config_choice(probes, other),
    ensures
        one == other,
{
}

} // verus!
