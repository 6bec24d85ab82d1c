//! Configuration feed.
//!
//! At the start of an epoch the feed walks the snapshot of curated channels.
//! For each channel, in the snapshot's order, it emits the channel's id, which
//! goes to the subscription side, and right after it the channel's full
//! configuration, which goes to the router. Nothing else is emitted.

use crate::watcher::{clone_names, clone_overrides, StreamConfig, StreamConfigView, Streams, StreamsView};
use vstd::prelude::*;

verus! {

/// Mathematical content of a [`FeedMessage`].
pub enum FeedMessageView {
    Subscribe(u32),
    Register(StreamConfigView),
}

/// One message of the feed.
#[derive(Clone, Debug, PartialEq, Eq)]
pub enum FeedMessage {
    /// A channel id, for the subscription side.
    Subscribe(u32),
    /// A channel's configuration, for the router's registry.
    Register(StreamConfig),
}

impl View for FeedMessage {
    type V = FeedMessageView;

    open spec fn view(&self) -> FeedMessageView {
        match *self {
            FeedMessage::Subscribe(id) => FeedMessageView::Subscribe(id),
            FeedMessage::Register(config) => FeedMessageView::Register(config@),
        }
    }
}

impl DeepView for FeedMessage {
    type V = FeedMessageView;

    open spec fn deep_view(&self) -> FeedMessageView {
        self@
    }
}

/// What a column holds for the channel at position `i`: its entry, or the
/// empty list where the column ends before `i`.
pub open spec fn column_entry<A>(column: Seq<Seq<A>>, i: int) -> Seq<A> {
    if 0 <= i < column.len() {
        column[i]
    } else {
        Seq::empty()
    }
}

/// The configuration that the feed emits for the channel at position `i`:
/// its name and id, and from each column the channel's entry, carried
/// unchanged into the field of the column's name.
pub open spec fn config_of(streams: StreamsView, i: int) -> StreamConfigView {
    StreamConfigView {
        name: streams.names[i].0,
        id: streams.names[i].1,
        quality_overides: column_entry(streams.quality_overides, i),
        streams_to_close_on: column_entry(streams.streams_to_close_on, i),
        streams_to_open_on: column_entry(streams.streams_to_open_on, i),
    }
}

/// The feed's messages for the first `k` channels: at each even position `2i`
/// the id of channel `i`, at the odd position after it the channel's
/// configuration.
pub open spec fn feed_prefix(streams: StreamsView, k: int) -> Seq<FeedMessageView> {
    Seq::new(
        (2 * k) as nat,
        |j: int|
            if j % 2 == 0 {
                FeedMessageView::Subscribe(streams.names[j / 2].1)
            } else {
                FeedMessageView::Register(config_of(streams, j / 2))
            },
    )
}

/// All messages of the feed for a snapshot.
pub open spec fn feed(streams: StreamsView) -> Seq<FeedMessageView> {
    feed_prefix(streams, streams.names.len() as int)
}

/// The ids among `messages`, in order: what reaches the subscription side.
pub open spec fn subscribed(messages: Seq<FeedMessageView>) -> Seq<u32>
    decreases messages.len(),
{
    if messages.len() == 0 {
        Seq::empty()
    } else {
        let before = subscribed(messages.drop_last());
        match messages.last() {
            FeedMessageView::Subscribe(id) => before.push(id),
            FeedMessageView::Register(_) => before,
        }
    }
}

/// The configurations among `messages`, in order: what reaches the router.
pub open spec fn registered(messages: Seq<FeedMessageView>) -> Seq<StreamConfigView>
    decreases messages.len(),
{
    if messages.len() == 0 {
        Seq::empty()
    } else {
        let before = registered(messages.drop_last());
        match messages.last() {
            FeedMessageView::Subscribe(_) => before,
            FeedMessageView::Register(config) => before.push(config),
        }
    }
}

/// Builds the configuration of the channel at position `i`.
fn config_at(streams: &Streams, i: usize) -> (config: StreamConfig)
    requires
        i < streams.names.len(),
    ensures
        config@ == config_of(streams@, i as int),
{
    let streamer = &streams.names[i];
    let quality_overides = if i < streams.quality_overides.len() {
        clone_overrides(&streams.quality_overides[i])
    } else {
        Vec::new()
    };
    let streams_to_close_on = if i < streams.streams_to_close_on.len() {
        clone_names(&streams.streams_to_close_on[i])
    } else {
        Vec::new()
    };
    let streams_to_open_on = if i < streams.streams_to_open_on.len() {
        clone_names(&streams.streams_to_open_on[i])
    } else {
        Vec::new()
    };
    let config = StreamConfig {
        name: streamer.0.clone(),
        id: streamer.1,
        quality_overides,
        streams_to_close_on,
        streams_to_open_on,
    };
    assert(config@.quality_overides =~= config_of(streams@, i as int).quality_overides);
    assert(config@.streams_to_close_on =~= config_of(streams@, i as int).streams_to_close_on);
    assert(config@.streams_to_open_on =~= config_of(streams@, i as int).streams_to_open_on);
    config
}

/// Emits the feed for a snapshot.
///
/// For `k` channels the result holds `2k` messages: for each channel, in the
/// snapshot's order, its id and then its configuration. The caller sends each
/// message to its side, in this order, and closes both sides after the last.
pub fn file_watcher(streams: &Streams) -> (messages: Vec<FeedMessage>)
    ensures
        messages.deep_view() == feed(streams@),
{
    let mut messages: Vec<FeedMessage> = Vec::new();
    let mut i: usize = 0;
    assert(messages.deep_view() =~= feed_prefix(streams@, 0));
    while i < streams.names.len()
        invariant
            i <= streams.names.len(),
            messages.deep_view() == feed_prefix(streams@, i as int),
        decreases streams.names.len() - i,
    {
        let ghost before = messages.deep_view();
        let id = streams.names[i].1;
        let config = config_at(streams, i);
        messages.push(FeedMessage::Subscribe(id));
        messages.push(FeedMessage::Register(config));
        assert(messages.deep_view() =~= before.push(FeedMessageView::Subscribe(id)).push(
            FeedMessageView::Register(config@),
        ));
        assert(messages.deep_view() =~= feed_prefix(streams@, i + 1));
        i += 1;
    }
    messages
}

/// The two sides of [`feed_prefix`]: the first `k` ids and the first `k`
/// configurations.
proof fn lemma_feed_prefix_sides(streams: StreamsView, k: int)
    requires
        0 <= k,
    ensures
        subscribed(feed_prefix(streams, k)) == Seq::new(k as nat, |i: int| streams.names[i].1),
        registered(feed_prefix(streams, k)) == Seq::new(
            k as nat,
            |i: int| config_of(streams, i),
        ),
    decreases k,
{
    let messages = feed_prefix(streams, k);
    if k == 0 {
        assert(subscribed(messages) =~= Seq::new(k as nat, |i: int| streams.names[i].1));
        assert(registered(messages) =~= Seq::new(k as nat, |i: int| config_of(streams, i)));
    } else {
        lemma_feed_prefix_sides(streams, k - 1);
        let id = streams.names[k - 1].1;
        let config = config_of(streams, k - 1);
        let shorter = feed_prefix(streams, k - 1);
        assert(messages.last() == FeedMessageView::Register(config));
        let middle = messages.drop_last();
        assert(middle =~= shorter.push(FeedMessageView::Subscribe(id)));
        assert(middle.drop_last() =~= shorter);
        assert(subscribed(middle) == subscribed(shorter).push(id));
        assert(registered(middle) == registered(shorter));
        assert(subscribed(messages) == subscribed(middle));
        assert(registered(messages) == registered(middle).push(config));
        assert(subscribed(messages) =~= Seq::new(k as nat, |i: int| streams.names[i].1));
        assert(registered(messages) =~= Seq::new(k as nat, |i: int| config_of(streams, i)));
    }
}

/// For a snapshot of `k` channels the feed emits exactly `k` ids and `k`
/// configurations, each side in the snapshot's order, and each id right
/// before the configuration of the same channel.
pub proof fn lemma_feed_emits_each_channel_in_order(streams: StreamsView)
    ensures
        feed(streams).len() == 2 * streams.names.len(),
        subscribed(feed(streams)).len() == streams.names.len(),
        registered(feed(streams)).len() == streams.names.len(),
        forall|i: int|
            0 <= i < streams.names.len() ==> {
                &&& #[trigger] subscribed(feed(streams))[i] == streams.names[i].1
                &&& feed(streams)[2 * i] == FeedMessageView::Subscribe(streams.names[i].1)
            },
        forall|i: int|
            0 <= i < streams.names.len() ==> {
                &&& #[trigger] registered(feed(streams))[i] == config_of(streams, i)
                &&& feed(streams)[2 * i + 1] == FeedMessageView::Register(config_of(streams, i))
            },
{
    lemma_feed_prefix_sides(streams, streams.names.len() as int);
}

/// The feed passes the snapshot on as it is: the configuration that reaches
/// the router for a channel bears the channel's name and id, and holds in each
/// list what the column of that name holds for the channel, or nothing where
/// the column ends before it.
pub proof fn lemma_feed_carries_each_column(streams: StreamsView, i: int)
    requires
        0 <= i < streams.names.len(),
    ensures
        registered(feed(streams))[i].name == streams.names[i].0,
        registered(feed(streams))[i].id == streams.names[i].1,
        registered(feed(streams))[i].quality_overides == column_entry(
            streams.quality_overides,
            i,
        ),
        registered(feed(streams))[i].streams_to_close_on == column_entry(
            streams.streams_to_close_on,
            i,
        ),
        registered(feed(streams))[i].streams_to_open_on == column_entry(
            streams.streams_to_open_on,
            i,
        ),
{
    lemma_feed_emits_each_channel_in_order(streams);
}

} // verus!
