//! Event router.
//!
//! The router owns the registry that the configuration feed fills, and turns
//! each notification into a launch instruction. The address of an instruction
//! is always the streaming site followed by the channel's name. Its quality is
//! the active profile's baseline, unless the registry holds exactly one entry
//! under the channel's name and that entry overrides the active profile: then
//! it is the first such override. No entry, or several under one name, leave
//! the baseline in place.

use crate::watcher::{LaunchInstruction, Notification, Profile, StreamConfig, StreamConfigView};
use vstd::prelude::*;

verus! {

/// Address of the streaming site; a channel's name follows it directly.
pub const STREAMING_SITE: &'static str = "https://www.twitch.tv/";

/// Name of the profile that is active when nothing else is configured.
pub const GLOBAL_PROFILE_NAME: &'static str = "normal";

/// Baseline quality of that profile.
pub const GLOBAL_PROFILE_QUALITY: u16 = 1080;

/// Holds of the entries registered under `name`.
pub open spec fn named(name: Seq<char>) -> spec_fn(StreamConfigView) -> bool {
    |config: StreamConfigView| config.name == name
}

/// Holds of the overrides given for `profile`.
pub open spec fn overrides_profile(profile: Seq<char>) -> spec_fn((Seq<char>, u16)) -> bool {
    |pair: (Seq<char>, u16)| pair.0 == profile
}

/// The quality that `overrides` gives for `profile`: that of the first pair,
/// in stored order, whose profile name is `profile`; `None` without such a
/// pair.
pub open spec fn override_for(overrides: Seq<(Seq<char>, u16)>, profile: Seq<char>) -> Option<
    u16,
> {
    let given = overrides.filter(overrides_profile(profile));
    if given.len() > 0 {
        Some(given[0].1)
    } else {
        None
    }
}

/// The quality at which `channel` is shown under `profile`.
pub open spec fn resolve_quality(
    registry: Seq<StreamConfigView>,
    channel: Seq<char>,
    profile: (Seq<char>, u16),
) -> u16 {
    let found = registry.filter(named(channel));
    if found.len() == 1 {
        match override_for(found[0].quality_overides, profile.0) {
            Some(quality) => quality,
            None => profile.1,
        }
    } else {
        profile.1
    }
}

/// The instruction that a notification for `channel` resolves to.
pub open spec fn launch_instruction(
    registry: Seq<StreamConfigView>,
    channel: Seq<char>,
    profile: (Seq<char>, u16),
) -> (Seq<char>, u16) {
    (STREAMING_SITE@ + channel, resolve_quality(registry, channel, profile))
}

/// Counts the entries under `name` and finds the first of them.
///
/// Returns the count and, where it is not zero, the position of the first
/// such entry.
fn find_configurations(configs: &Vec<StreamConfig>, name: &String) -> (found: (usize, usize))
    ensures
        found.0 == configs.deep_view().filter(named(name@)).len(),
        found.0 > 0 ==> found.1 < configs.len() && configs.deep_view().filter(named(name@))[0]
            == configs[found.1 as int]@,
{
    let ghost registry = configs.deep_view();
    let ghost wanted = named(name@);
    let mut count: usize = 0;
    let mut first: usize = 0;
    let mut i: usize = 0;
    proof {
        assert(registry.take(0) =~= Seq::empty());
        registry.take(0).lemma_filter_len(wanted);
    }
    while i < configs.len()
        invariant
            i <= configs.len(),
            registry == configs.deep_view(),
            wanted == named(name@),
            count == registry.take(i as int).filter(wanted).len(),
            count <= i,
            count > 0 ==> first < i && registry.take(i as int).filter(wanted)[0]
                == configs[first as int]@,
        decreases configs.len() - i,
    {
        proof {
            assert(registry.take(i + 1) =~= registry.take(i as int).push(registry[i as int]));
            registry.take(i as int).lemma_filter_push(registry[i as int], wanted);
        }
        if configs[i].name == *name {
            if count == 0 {
                first = i;
            }
            count += 1;
        }
        i += 1;
    }
    assert(registry.take(i as int) =~= registry);
    (count, first)
}

/// Looks up the quality that `overrides` gives for `profile`.
fn find_override(overrides: &Vec<(String, u16)>, profile: &String) -> (quality: Option<u16>)
    ensures
        quality == override_for(overrides.deep_view(), profile@),
{
    let ghost pairs = overrides.deep_view();
    let ghost wanted = overrides_profile(profile@);
    let mut i: usize = 0;
    proof {
        assert(pairs.take(0) =~= Seq::empty());
        pairs.take(0).lemma_filter_len(wanted);
    }
    while i < overrides.len()
        invariant
            i <= overrides.len(),
            pairs == overrides.deep_view(),
            wanted == overrides_profile(profile@),
            pairs.take(i as int).filter(wanted).len() == 0,
        decreases overrides.len() - i,
    {
        proof {
            assert(pairs.take(i + 1) =~= pairs.take(i as int).push(pairs[i as int]));
            pairs.take(i as int).lemma_filter_push(pairs[i as int], wanted);
        }
        if overrides[i].0 == *profile {
            proof {
                assert(pairs =~= pairs.take(i + 1) + pairs.skip(i + 1));
                Seq::filter_distributes_over_add(pairs.take(i + 1), pairs.skip(i + 1), wanted);
            }
            return Some(overrides[i].1);
        }
        i += 1;
    }
    assert(pairs.take(i as int) =~= pairs);
    None
}

/// Resolves one notification against a registry.
///
/// The instruction's address is the streaming site followed by the
/// notification's channel name. Its quality is `global_profile`'s baseline,
/// or the first override for that profile in the single entry under the
/// channel's name, where there is exactly one such entry and it has such an
/// override. The notification's status tag plays no part.
pub fn handle_event(
    configs: &Vec<StreamConfig>,
    stream: &Notification,
    global_profile: &Profile,
) -> (task: LaunchInstruction)
    ensures
        task@ == launch_instruction(configs.deep_view(), stream@.1, global_profile@),
        task@.0 == STREAMING_SITE@ + stream@.1,
{
    let mut stream_quality = global_profile.1;
    let found_configurations = find_configurations(configs, &stream.1);
    if found_configurations.0 == 1 {
        let config = &configs[found_configurations.1];
        let profile = String::from_str(global_profile.0);
        match find_override(&config.quality_overides, &profile) {
            Some(quality) => {
                stream_quality = quality;
            },
            None => {},
        }
    }
    let mut url = String::from_str(STREAMING_SITE);
    url.append(stream.1.as_str());
    (url, stream_quality)
}

/// Mathematical content of a [`RouterEvent`].
pub enum RouterEventView {
    Socket((Seq<char>, Seq<char>)),
    Exit((Seq<char>, Seq<char>)),
    Config(StreamConfigView),
}

/// What reaches the router, by the side it comes from.
#[derive(Debug, PartialEq, Eq)]
pub enum RouterEvent {
    /// A notification from the remote transport.
    Socket(Notification),
    /// A notification from the exit monitor.
    Exit(Notification),
    /// A channel's configuration from the feed.
    Config(StreamConfig),
}

impl View for RouterEvent {
    type V = RouterEventView;

    open spec fn view(&self) -> RouterEventView {
        match *self {
            RouterEvent::Socket(stream) => RouterEventView::Socket(stream@),
            RouterEvent::Exit(stream) => RouterEventView::Exit(stream@),
            RouterEvent::Config(config) => RouterEventView::Config(config@),
        }
    }
}

impl DeepView for RouterEvent {
    type V = RouterEventView;

    open spec fn deep_view(&self) -> RouterEventView {
        self@
    }
}

/// The profile that is active when nothing else is configured.
pub open spec fn global_profile() -> (Seq<char>, u16) {
    (GLOBAL_PROFILE_NAME@, GLOBAL_PROFILE_QUALITY)
}

/// The registry after `event`: a configuration is appended, a notification
/// changes nothing.
pub open spec fn registry_after(
    registry: Seq<StreamConfigView>,
    event: RouterEventView,
) -> Seq<StreamConfigView> {
    match event {
        RouterEventView::Config(config) => registry.push(config),
        _ => registry,
    }
}

/// What a router under `profile` emits for `event`: for a notification from
/// either side the instruction it resolves to, for a configuration nothing.
pub open spec fn emitted(
    registry: Seq<StreamConfigView>,
    event: RouterEventView,
    profile: (Seq<char>, u16),
) -> Option<(Seq<char>, u16)> {
    match event {
        RouterEventView::Socket(stream) => Some(launch_instruction(registry, stream.1, profile)),
        RouterEventView::Exit(stream) => Some(launch_instruction(registry, stream.1, profile)),
        RouterEventView::Config(_) => None,
    }
}

/// The registry that `events` build, starting from an empty one.
pub open spec fn registry_built(events: Seq<RouterEventView>) -> Seq<StreamConfigView>
    decreases events.len(),
{
    if events.len() == 0 {
        Seq::empty()
    } else {
        registry_after(registry_built(events.drop_last()), events.last())
    }
}

/// The instructions that a router under `profile` emits for `events`, in
/// order: each notification is resolved against the registry built by the
/// events before it.
pub open spec fn routed(events: Seq<RouterEventView>, profile: (Seq<char>, u16)) -> Seq<
    (Seq<char>, u16),
>
    decreases events.len(),
{
    if events.len() == 0 {
        Seq::empty()
    } else {
        let before = routed(events.drop_last(), profile);
        match emitted(registry_built(events.drop_last()), events.last(), profile) {
            Some(task) => before.push(task),
            None => before,
        }
    }
}

/// Mathematical content of an [`EventRouter`].
pub struct EventRouterView {
    /// The configurations registered so far, oldest first.
    pub registry: Seq<StreamConfigView>,
    /// The active profile: its name, then its baseline quality.
    pub profile: (Seq<char>, u16),
}

/// The router of one epoch: the active profile, which is fixed when the
/// router is made, the registry, which only grows, and the resolution of
/// notifications against the two.
pub struct EventRouter {
    configs: Vec<StreamConfig>,
    profile_name: String,
    profile_quality: u16,
}

impl View for EventRouter {
    type V = EventRouterView;

    closed spec fn view(&self) -> EventRouterView {
        EventRouterView {
            registry: self.configs.deep_view(),
            profile: (self.profile_name@, self.profile_quality),
        }
    }
}

impl EventRouter {
    /// A router with an empty registry under the global profile.
    pub fn new() -> (router: EventRouter)
        ensures
            router@ == (EventRouterView { registry: Seq::empty(), profile: global_profile() }),
    {
        let profile: Profile = (GLOBAL_PROFILE_NAME, GLOBAL_PROFILE_QUALITY);
        EventRouter::with_profile(&profile)
    }

    /// A router with an empty registry under the configured profile.
    pub fn with_profile(global_profile: &Profile) -> (router: EventRouter)
        ensures
            router@ == (EventRouterView { registry: Seq::empty(), profile: global_profile@ }),
    {
        let router = EventRouter {
            configs: Vec::new(),
            profile_name: String::from_str(global_profile.0),
            profile_quality: global_profile.1,
        };
        assert(router.configs.deep_view() =~= Seq::empty());
        router
    }

    /// Number of registered configurations.
    pub fn len(&self) -> (len: usize)
        ensures
            len == self@.registry.len(),
    {
        self.configs.len()
    }

    /// The registered configurations, oldest first.
    pub fn configs(&self) -> (configs: &Vec<StreamConfig>)
        ensures
            configs.deep_view() == self@.registry,
    {
        &self.configs
    }

    /// The active profile.
    pub fn profile(&self) -> (profile: Profile<'_>)
        ensures
            profile@ == self@.profile,
    {
        (self.profile_name.as_str(), self.profile_quality)
    }

    /// Appends `config` to the registry. Earlier entries stay as they are,
    /// also those under the same name, and so does the profile.
    pub fn register(&mut self, config: StreamConfig)
        ensures
            final(self)@ == (EventRouterView {
                registry: old(self)@.registry.push(config@),
                profile: old(self)@.profile,
            }),
    {
        self.configs.push(config);
        assert(self.configs.deep_view() =~= old(self).configs.deep_view().push(config@));
    }

    /// Resolves `stream` against the registry under the active profile.
    pub fn resolve(&self, stream: &Notification) -> (task: LaunchInstruction)
        ensures
            task@ == launch_instruction(self@.registry, stream@.1, self@.profile),
    {
        let profile = self.profile();
        handle_event(&self.configs, stream, &profile)
    }

    /// Takes one event: registers a configuration, or resolves a notification
    /// and returns its instruction. The profile stays as it is.
    pub fn handle(&mut self, event: RouterEvent) -> (task: Option<LaunchInstruction>)
        ensures
            final(self)@ == (EventRouterView {
                registry: registry_after(old(self)@.registry, event@),
                profile: old(self)@.profile,
            }),
            task.deep_view() == emitted(old(self)@.registry, event@, old(self)@.profile),
    {
        match event {
            RouterEvent::Socket(stream) => Some(self.resolve(&stream)),
            RouterEvent::Exit(stream) => Some(self.resolve(&stream)),
            RouterEvent::Config(config) => {
                self.register(config);
                None
            },
        }
    }
}

/// Routes a recorded run of events through a fresh router under the
/// configured profile.
///
/// The events are taken in order. The result holds one instruction for each
/// notification, in the order of the notifications; each is resolved against
/// the configurations that came before it, so a notification that arrives
/// ahead of its channel's configuration gets the profile's baseline quality.
pub fn event_handler(events: Vec<RouterEvent>, global_profile: &Profile) -> (tasks: Vec<
    LaunchInstruction,
>)
    ensures
        tasks.deep_view() == routed(events.deep_view(), global_profile@),
{
    let ghost all = events.deep_view();
    let mut router = EventRouter::with_profile(global_profile);
    let mut tasks: Vec<LaunchInstruction> = Vec::new();
    assert(tasks.deep_view() =~= Seq::empty());
    assert(all.take(0) =~= Seq::empty());
    for event in iter: events
        invariant
            all == events.deep_view(),
            iter.seq() == events@,
            router@.profile == global_profile@,
            router@.registry == registry_built(all.take(iter.index() as int)),
            tasks.deep_view() == routed(all.take(iter.index() as int), global_profile@),
    {
        let ghost i = iter.index() as int;
        let ghost before = tasks.deep_view();
        assert(all.take(i + 1).drop_last() =~= all.take(i));
        assert(all.take(i + 1).last() == event@);
        match router.handle(event) {
            Some(task) => {
                tasks.push(task);
                assert(tasks.deep_view() =~= before.push(task@));
            },
            None => {},
        }
    }
    assert(all.take(all.len() as int) =~= all);
    tasks
}

} // verus!
