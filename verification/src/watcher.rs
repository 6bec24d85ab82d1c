//! Data model shared by the configuration feed and the event router.

use vstd::prelude::*;

pub mod event_handler;
pub mod file_watcher;
pub mod laws;

verus! {

/// A channel transition as it arrives: a status tag such as `live` or
/// `offline`, then the channel's name.
pub type Notification = (String, String);

/// What the launcher is told: the address to open, then the video quality.
pub type LaunchInstruction = (String, u16);

/// A named quality preset: its name, then its baseline quality.
pub type Profile<'a> = (&'a str, u16);

/// Mathematical content of a [`StreamConfig`].
pub struct StreamConfigView {
    pub name: Seq<char>,
    pub id: u32,
    pub quality_overides: Seq<(Seq<char>, u16)>,
    pub streams_to_close_on: Seq<Seq<char>>,
    pub streams_to_open_on: Seq<Seq<char>>,
}

/// Configuration of one channel.
///
/// `name` is meant to be unique among the entries of a registry, but nothing
/// enforces it: the router applies an entry's overrides only when the entry is
/// the single one under its name. `quality_overides` pairs profile names with
/// qualities, in the order in which they are tried. The two trigger lists are
/// reserved; nothing reads them yet.
#[derive(Clone, Debug, PartialEq, Eq)]
pub struct StreamConfig {
    pub name: String,
    pub id: u32,
    pub quality_overides: Vec<(String, u16)>,
    pub streams_to_close_on: Vec<String>,
    pub streams_to_open_on: Vec<String>,
}

impl View for StreamConfig {
    type V = StreamConfigView;

    open spec fn view(&self) -> StreamConfigView {
        StreamConfigView {
            name: self.name@,
            id: self.id,
            quality_overides: self.quality_overides.deep_view(),
            streams_to_close_on: self.streams_to_close_on.deep_view(),
            streams_to_open_on: self.streams_to_open_on.deep_view(),
        }
    }
}

impl DeepView for StreamConfig {
    type V = StreamConfigView;

    open spec fn deep_view(&self) -> StreamConfigView {
        self@
    }
}

/// Mathematical content of a [`Streams`] snapshot.
pub struct StreamsView {
    pub names: Seq<(Seq<char>, u32)>,
    pub quality_overides: Seq<Seq<(Seq<char>, u16)>>,
    pub streams_to_close_on: Seq<Seq<Seq<char>>>,
    pub streams_to_open_on: Seq<Seq<Seq<char>>>,
}

impl StreamsView {
    /// The snapshot without any channel.
    pub open spec fn empty() -> StreamsView {
        StreamsView {
            names: Seq::empty(),
            quality_overides: Seq::empty(),
            streams_to_close_on: Seq::empty(),
            streams_to_open_on: Seq::empty(),
        }
    }
}

/// Startup snapshot of the curated channels, column by column.
///
/// `names` lists each channel's name and id; the other three columns hold, at
/// the same position, what belongs to that channel. A column may be shorter
/// than `names`: the channels beyond its end have an empty list there.
#[derive(Clone, Debug, PartialEq, Eq)]
pub struct Streams {
    pub names: Vec<(String, u32)>,
    pub quality_overides: Vec<Vec<(String, u16)>>,
    pub streams_to_close_on: Vec<Vec<String>>,
    pub streams_to_open_on: Vec<Vec<String>>,
}

impl View for Streams {
    type V = StreamsView;

    open spec fn view(&self) -> StreamsView {
        StreamsView {
            names: self.names.deep_view(),
            quality_overides: self.quality_overides.deep_view(),
            streams_to_close_on: self.streams_to_close_on.deep_view(),
            streams_to_open_on: self.streams_to_open_on.deep_view(),
        }
    }
}

impl Streams {
    /// The snapshot without any channel.
    pub fn new() -> (streams: Streams)
        ensures
            streams@ == StreamsView::empty(),
    {
        let streams = Streams {
            names: Vec::new(),
            quality_overides: Vec::new(),
            streams_to_close_on: Vec::new(),
            streams_to_open_on: Vec::new(),
        };
        assert(streams.names.deep_view() =~= Seq::empty());
        assert(streams.quality_overides.deep_view() =~= Seq::empty());
        assert(streams.streams_to_close_on.deep_view() =~= Seq::empty());
        assert(streams.streams_to_open_on.deep_view() =~= Seq::empty());
        streams
    }
}

/// Copies a list of names; the copy has the same content.
pub fn clone_names(names: &Vec<String>) -> (copy: Vec<String>)
    ensures
        copy.deep_view() == names.deep_view(),
{
    let mut copy: Vec<String> = Vec::new();
    let mut i: usize = 0;
    while i < names.len()
        invariant
            i <= names.len(),
            copy.len() == i,
            forall|k: int| 0 <= k < i ==> copy[k]@ == names[k]@,
        decreases names.len() - i,
    {
        copy.push(names[i].clone());
        i += 1;
    }
    assert(copy.deep_view() =~= names.deep_view());
    copy
}

/// Copies a list of overrides; the copy has the same pairs in the same order.
pub fn clone_overrides(overrides: &Vec<(String, u16)>) -> (copy: Vec<(String, u16)>)
    ensures
        copy.deep_view() == overrides.deep_view(),
{
    let mut copy: Vec<(String, u16)> = Vec::new();
    let mut i: usize = 0;
    while i < overrides.len()
        invariant
            i <= overrides.len(),
            copy.len() == i,
            forall|k: int| 0 <= k < i ==> copy[k].deep_view() == overrides[k].deep_view(),
        decreases overrides.len() - i,
    {
        let pair = &overrides[i];
        copy.push((pair.0.clone(), pair.1));
        i += 1;
    }
    assert(copy.deep_view() =~= overrides.deep_view());
    copy
}

} // verus!
