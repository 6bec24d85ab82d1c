//! Laws of the router.
//!
//! What holds of every registry and every notification, stated over the
//! functions by which the router's contracts are written.

use crate::watcher::event_handler::{
    emitted, launch_instruction, named, override_for, overrides_profile, registry_after,
    registry_built, resolve_quality, RouterEventView, STREAMING_SITE,
};
use crate::watcher::file_watcher::{
    column_entry, config_of, feed, lemma_feed_emits_each_channel_in_order, registered,
};
use crate::watcher::{StreamConfigView, StreamsView};
use vstd::prelude::*;

verus! {

/// A sequence without an element that meets `pred` filters to nothing.
proof fn lemma_filter_none<A>(s: Seq<A>, pred: spec_fn(A) -> bool)
    requires
        forall|i: int| 0 <= i < s.len() ==> !pred(s[i]),
    ensures
        s.filter(pred).len() == 0,
    decreases s.len(),
{
    reveal(Seq::filter);
    if s.len() > 0 {
        lemma_filter_none(s.drop_last(), pred);
    }
}

/// The first element that meets `pred` is the first that the filter keeps.
proof fn lemma_filter_first<A>(s: Seq<A>, pred: spec_fn(A) -> bool, k: int)
    requires
        0 <= k < s.len(),
        pred(s[k]),
        forall|i: int| 0 <= i < k ==> !pred(s[i]),
    ensures
        s.filter(pred).len() > 0,
        s.filter(pred)[0] == s[k],
{
    let head = s.take(k);
    let tail = s.skip(k + 1);
    lemma_filter_none(head, pred);
    head.lemma_filter_push(s[k], pred);
    assert(s =~= head.push(s[k]) + tail);
    Seq::filter_distributes_over_add(head.push(s[k]), tail, pred);
}

/// Where a single element meets `pred`, the filter keeps that element alone.
proof fn lemma_filter_single<A>(s: Seq<A>, pred: spec_fn(A) -> bool, k: int)
    requires
        0 <= k < s.len(),
        pred(s[k]),
        forall|i: int| 0 <= i < s.len() && i != k ==> !pred(s[i]),
    ensures
        s.filter(pred) == seq![s[k]],
{
    let head = s.take(k);
    let tail = s.skip(k + 1);
    lemma_filter_none(head, pred);
    lemma_filter_none(tail, pred);
    head.lemma_filter_push(s[k], pred);
    assert(s =~= head.push(s[k]) + tail);
    Seq::filter_distributes_over_add(head.push(s[k]), tail, pred);
    assert(s.filter(pred) =~= seq![s[k]]);
}

/// Two elements that meet `pred` make the filter keep at least two.
proof fn lemma_filter_two<A>(s: Seq<A>, pred: spec_fn(A) -> bool, i: int, j: int)
    requires
        0 <= i < j < s.len(),
        pred(s[i]),
        pred(s[j]),
    ensures
        s.filter(pred).len() >= 2,
{
    let head = s.take(j);
    let tail = s.skip(j);
    head.lemma_filter_contains(pred, i);
    tail.lemma_filter_contains(pred, 0);
    assert(s =~= head + tail);
    Seq::filter_distributes_over_add(head, tail, pred);
}

/// An override applies where exactly one entry bears the channel's name.
///
/// Let `registry[entry]` be the only entry under `channel`, and let position
/// `place` of its overrides hold `(profile, quality)`, with no pair for
/// `profile` before it. Then a notification for `channel` under `profile`
/// resolves to `quality`, whatever the baseline and whatever else the registry
/// and the entry hold.
pub proof fn lemma_single_entry_override_applies(
    registry: Seq<StreamConfigView>,
    channel: Seq<char>,
    profile: Seq<char>,
    quality: u16,
    baseline: u16,
    entry: int,
    place: int,
)
    requires
        0 <= entry < registry.len(),
        registry[entry].name == channel,
        forall|i: int| 0 <= i < registry.len() && i != entry ==> registry[i].name != channel,
        0 <= place < registry[entry].quality_overides.len(),
        registry[entry].quality_overides[place] == (profile, quality),
        forall|j: int| 0 <= j < place ==> registry[entry].quality_overides[j].0 != profile,
    ensures
        resolve_quality(registry, channel, (profile, baseline)) == quality,
        launch_instruction(registry, channel, (profile, baseline)) == (
            STREAMING_SITE@ + channel,
            quality,
        ),
{
    lemma_filter_single(registry, named(channel), entry);
    lemma_filter_first(registry[entry].quality_overides, overrides_profile(profile), place);
}

/// Where exactly one entry bears the channel's name and gives nothing for the
/// active profile, the baseline stays.
pub proof fn lemma_single_entry_without_override_keeps_baseline(
    registry: Seq<StreamConfigView>,
    channel: Seq<char>,
    profile: (Seq<char>, u16),
    entry: int,
)
    requires
        0 <= entry < registry.len(),
        registry[entry].name == channel,
        forall|i: int| 0 <= i < registry.len() && i != entry ==> registry[i].name != channel,
        forall|j: int|
            0 <= j < registry[entry].quality_overides.len()
                ==> registry[entry].quality_overides[j].0 != profile.0,
    ensures
        resolve_quality(registry, channel, profile) == profile.1,
{
    lemma_filter_single(registry, named(channel), entry);
    lemma_filter_none(registry[entry].quality_overides, overrides_profile(profile.0));
}

/// Without exactly one entry under the channel's name the baseline stays,
/// whatever the entries override.
pub proof fn lemma_ambiguous_name_keeps_baseline(
    registry: Seq<StreamConfigView>,
    channel: Seq<char>,
    profile: (Seq<char>, u16),
)
    requires
        registry.filter(named(channel)).len() != 1,
    ensures
        resolve_quality(registry, channel, profile) == profile.1,
        launch_instruction(registry, channel, profile) == (STREAMING_SITE@ + channel, profile.1),
{
}

/// A channel that the registry does not know resolves to the baseline. This
/// is what a notification gets that arrives ahead of its channel's
/// configuration.
pub proof fn lemma_unknown_channel_keeps_baseline(
    registry: Seq<StreamConfigView>,
    channel: Seq<char>,
    profile: (Seq<char>, u16),
)
    requires
        forall|i: int| 0 <= i < registry.len() ==> registry[i].name != channel,
    ensures
        registry.filter(named(channel)).len() == 0,
        resolve_quality(registry, channel, profile) == profile.1,
{
    lemma_filter_none(registry, named(channel));
}

/// A name that two entries bear resolves to the baseline: their overrides are
/// skipped, also where they agree.
pub proof fn lemma_duplicate_name_keeps_baseline(
    registry: Seq<StreamConfigView>,
    channel: Seq<char>,
    profile: (Seq<char>, u16),
    first: int,
    second: int,
)
    requires
        0 <= first < second < registry.len(),
        registry[first].name == channel,
        registry[second].name == channel,
    ensures
        registry.filter(named(channel)).len() >= 2,
        resolve_quality(registry, channel, profile) == profile.1,
{
    lemma_filter_two(registry, named(channel), first, second);
}

/// Entries registered later under other names do not change what a channel
/// resolves to.
pub proof fn lemma_other_channels_change_nothing(
    registry: Seq<StreamConfigView>,
    later: Seq<StreamConfigView>,
    channel: Seq<char>,
    profile: (Seq<char>, u16),
)
    requires
        forall|i: int| 0 <= i < later.len() ==> later[i].name != channel,
    ensures
        resolve_quality(registry + later, channel, profile) == resolve_quality(
            registry,
            channel,
            profile,
        ),
{
    lemma_filter_none(later, named(channel));
    Seq::filter_distributes_over_add(registry, later, named(channel));
    assert(registry.filter(named(channel)) + later.filter(named(channel)) =~= registry.filter(
        named(channel),
    ));
}

/// The side a notification comes from plays no part, nor does its status tag:
/// two notifications for the same channel resolve alike against the same
/// registry under the same profile.
pub proof fn lemma_origin_plays_no_part(
    registry: Seq<StreamConfigView>,
    from_socket: (Seq<char>, Seq<char>),
    from_exit: (Seq<char>, Seq<char>),
    profile: (Seq<char>, u16),
)
    requires
        from_socket.1 == from_exit.1,
    ensures
        emitted(registry, RouterEventView::Socket(from_socket), profile) == emitted(
            registry,
            RouterEventView::Exit(from_exit),
            profile,
        ),
        registry_after(registry, RouterEventView::Socket(from_socket)) == registry_after(
            registry,
            RouterEventView::Exit(from_exit),
        ),
{
}

/// Every instruction's address is the streaming site followed by the
/// channel's name, exactly.
pub proof fn lemma_address_is_site_then_channel(
    registry: Seq<StreamConfigView>,
    channel: Seq<char>,
    profile: (Seq<char>, u16),
)
    ensures
        launch_instruction(registry, channel, profile).0 == STREAMING_SITE@ + channel,
        launch_instruction(registry, channel, profile).0.len() == STREAMING_SITE@.len()
            + channel.len(),
        launch_instruction(registry, channel, profile).0.subrange(
            STREAMING_SITE@.len() as int,
            (STREAMING_SITE@.len() + channel.len()) as int,
        ) == channel,
{
    let address = launch_instruction(registry, channel, profile).0;
    assert(address.subrange(
        STREAMING_SITE@.len() as int,
        (STREAMING_SITE@.len() + channel.len()) as int,
    ) =~= channel);
}

/// The events by which the feed's configurations reach the router.
pub open spec fn config_events(configs: Seq<StreamConfigView>) -> Seq<RouterEventView> {
    configs.map_values(|config: StreamConfigView| RouterEventView::Config(config))
}

/// The registry of a router that has taken the whole feed for `streams`.
pub open spec fn fed_registry(streams: StreamsView) -> Seq<StreamConfigView> {
    registry_built(config_events(registered(feed(streams))))
}

/// Configurations alone build the registry that lists them, in order.
proof fn lemma_configs_build_themselves(configs: Seq<StreamConfigView>)
    ensures
        registry_built(config_events(configs)) == configs,
    decreases configs.len(),
{
    let events = config_events(configs);
    if configs.len() > 0 {
        lemma_configs_build_themselves(configs.drop_last());
        assert(events.drop_last() =~= config_events(configs.drop_last()));
        assert(registry_built(events) =~= configs);
    } else {
        assert(registry_built(events) =~= configs);
    }
}

/// From the snapshot to the instruction: once the feed is through, the
/// registry lists the snapshot's channels in order, and a channel whose name
/// the snapshot holds once is shown at the first quality that its column
/// entry gives for the active profile, or at the baseline if it gives none.
pub proof fn lemma_fed_registry_applies_the_snapshot(
    streams: StreamsView,
    channel: int,
    profile: (Seq<char>, u16),
)
    requires
        0 <= channel < streams.names.len(),
        forall|other: int|
            0 <= other < streams.names.len() && other != channel ==> streams.names[other].0
                != streams.names[channel].0,
    ensures
        fed_registry(streams) == Seq::new(
            streams.names.len(),
            |i: int| config_of(streams, i),
        ),
        resolve_quality(fed_registry(streams), streams.names[channel].0, profile)
            == match override_for(column_entry(streams.quality_overides, channel), profile.0) {
            Some(quality) => quality,
            None => profile.1,
        },
{
    let configs = registered(feed(streams));
    lemma_feed_emits_each_channel_in_order(streams);
    lemma_configs_build_themselves(configs);
    assert(configs =~= Seq::new(streams.names.len(), |i: int| config_of(streams, i)));
    lemma_filter_single(configs, named(streams.names[channel].0), channel);
}

} // verus!
