use stream_watcher::watcher::event_handler::{
    event_handler, handle_event, EventRouter, RouterEvent, GLOBAL_PROFILE_NAME,
    GLOBAL_PROFILE_QUALITY, STREAMING_SITE,
};
use stream_watcher::watcher::{LaunchInstruction, Notification, Profile, StreamConfig};

fn config(name: &str, id: u32, overrides: &[(&str, u16)]) -> StreamConfig {
    StreamConfig {
        name: String::from(name),
        id,
        quality_overides: overrides
            .iter()
            .map(|(profile, quality)| (String::from(*profile), *quality))
            .collect(),
        streams_to_close_on: Vec::new(),
        streams_to_open_on: Vec::new(),
    }
}

fn normal() -> Profile<'static> {
    ("normal", 1080)
}

fn notification(status: &str, channel: &str) -> Notification {
    (String::from(status), String::from(channel))
}

#[test]
fn no_config_event_handling() {
    let mut tasks = event_handler(vec![RouterEvent::Socket((
        String::from("live"),
        String::from("kaicenat"),
    ))], &("normal", 1080))
    .into_iter();

    assert_eq!(
        Some((String::from("https://www.twitch.tv/kaicenat"), 1080)),
        tasks.next()
    );
}

#[test]
fn handle_socket_event() {
    let streamer = StreamConfig {
        name: String::from("kaicenat"),
        id: 641972806,
        quality_overides: vec![(String::from("normal"), 480)],
        streams_to_close_on: Vec::new(),
        streams_to_open_on: Vec::new(),
    };

    let mut tasks = event_handler(vec![
        RouterEvent::Config(streamer),
        RouterEvent::Socket((String::from("live"), String::from("kaicenat"))),
    ], &("normal", 1080))
    .into_iter();

    assert_eq!(
        Some((String::from("https://www.twitch.tv/kaicenat"), 480)),
        tasks.next()
    );
}

#[test]
fn handle_exit_event() {
    let streamer = StreamConfig {
        name: String::from("kaicenat"),
        id: 641972806,
        quality_overides: vec![(String::from("normal"), 480)],
        streams_to_close_on: Vec::new(),
        streams_to_open_on: Vec::new(),
    };

    let mut tasks = event_handler(vec![
        RouterEvent::Config(streamer),
        RouterEvent::Exit((String::from("live"), String::from("kaicenat"))),
    ], &("normal", 1080))
    .into_iter();

    assert_eq!(
        Some((String::from("https://www.twitch.tv/kaicenat"), 480)),
        tasks.next()
    );
}

#[test]
fn handle_no_override() {
    let streamer = StreamConfig {
        name: String::from("kaicenat"),
        id: 641972806,
        quality_overides: Vec::new(),
        streams_to_close_on: Vec::new(),
        streams_to_open_on: Vec::new(),
    };

    let mut tasks = event_handler(vec![
        RouterEvent::Config(streamer),
        RouterEvent::Socket((String::from("live"), String::from("kaicenat"))),
    ], &("normal", 1080))
    .into_iter();

    assert_eq!(
        Some((String::from("https://www.twitch.tv/kaicenat"), 1080)),
        tasks.next()
    );
}

#[test]
fn one_instruction_per_notification_and_none_for_a_config() {
    let tasks = event_handler(vec![
        RouterEvent::Config(config("kaicenat", 641972806, &[("normal", 480)])),
        RouterEvent::Config(config("hasanabi", 207813352, &[("normal", 720)])),
        RouterEvent::Socket(notification("live", "hasanabi")),
        RouterEvent::Exit(notification("offline", "kaicenat")),
        RouterEvent::Socket(notification("live", "jynxzi")),
    ], &normal());
    let expected: Vec<LaunchInstruction> = vec![
        (String::from("https://www.twitch.tv/hasanabi"), 720),
        (String::from("https://www.twitch.tv/kaicenat"), 480),
        (String::from("https://www.twitch.tv/jynxzi"), 1080),
    ];
    assert_eq!(expected, tasks);
}

#[test]
fn no_events_no_instructions() {
    assert_eq!(Vec::<LaunchInstruction>::new(), event_handler(Vec::new(), &normal()));
    assert_eq!(
        Vec::<LaunchInstruction>::new(),
        event_handler(
            vec![RouterEvent::Config(config("kaicenat", 1, &[("normal", 480)]))],
            &normal()
        )
    );
}

#[test]
fn notification_ahead_of_its_config_gets_the_baseline() {
    let tasks = event_handler(vec![
        RouterEvent::Socket(notification("live", "kaicenat")),
        RouterEvent::Config(config("kaicenat", 641972806, &[("normal", 480)])),
        RouterEvent::Socket(notification("live", "kaicenat")),
    ], &normal());
    assert_eq!(
        vec![
            (String::from("https://www.twitch.tv/kaicenat"), 1080),
            (String::from("https://www.twitch.tv/kaicenat"), 480),
        ],
        tasks
    );
}

#[test]
fn duplicate_names_disable_the_override() {
    let configs = vec![
        config("kaicenat", 641972806, &[("normal", 480)]),
        config("kaicenat", 641972806, &[("normal", 480)]),
    ];
    let profile: Profile = ("normal", 1080);
    assert_eq!(
        (String::from("https://www.twitch.tv/kaicenat"), 1080),
        handle_event(&configs, &notification("live", "kaicenat"), &profile)
    );

    let three = vec![
        config("kaicenat", 1, &[("normal", 160)]),
        config("hasanabi", 2, &[("normal", 720)]),
        config("kaicenat", 3, &[("normal", 360)]),
        config("kaicenat", 4, &[]),
    ];
    assert_eq!(1080, handle_event(&three, &notification("live", "kaicenat"), &profile).1);
    assert_eq!(720, handle_event(&three, &notification("live", "hasanabi"), &profile).1);
}

#[test]
fn a_second_registration_turns_the_override_off() {
    let tasks = event_handler(vec![
        RouterEvent::Config(config("kaicenat", 641972806, &[("normal", 480)])),
        RouterEvent::Socket(notification("live", "kaicenat")),
        RouterEvent::Config(config("kaicenat", 641972806, &[("normal", 720)])),
        RouterEvent::Socket(notification("live", "kaicenat")),
    ], &normal());
    assert_eq!(480, tasks[0].1);
    assert_eq!(1080, tasks[1].1);
}

#[test]
fn first_override_for_the_profile_wins() {
    let configs = vec![config(
        "kaicenat",
        641972806,
        &[("low-data", 0), ("normal", 480), ("normal", 720)],
    )];
    let normal: Profile = ("normal", 1080);
    let low_data: Profile = ("low-data", 360);
    let stream = notification("live", "kaicenat");
    assert_eq!(480, handle_event(&configs, &stream, &normal).1);
    assert_eq!(0, handle_event(&configs, &stream, &low_data).1);
}

#[test]
fn override_for_another_profile_is_ignored() {
    let configs = vec![config("kaicenat", 641972806, &[("low-data", 0), ("Normal", 480)])];
    let profile: Profile = ("normal", 1080);
    assert_eq!(
        1080,
        handle_event(&configs, &notification("live", "kaicenat"), &profile).1
    );
    let source: Profile = ("source", 2160);
    assert_eq!(
        2160,
        handle_event(&configs, &notification("live", "kaicenat"), &source).1
    );
}

#[test]
fn names_are_compared_exactly() {
    let configs = vec![config("kaicenat", 641972806, &[("normal", 480)])];
    let profile: Profile = ("normal", 1080);
    for channel in ["Kaicenat", "kaicenat ", "kaicena", "", "kaicenatt"] {
        assert_eq!(
            (format!("https://www.twitch.tv/{}", channel), 1080),
            handle_event(&configs, &notification("live", channel), &profile)
        );
    }
}

#[test]
fn address_is_the_site_followed_by_the_channel() {
    let configs = vec![config("kaicenat", 641972806, &[("normal", 480)])];
    let profile: Profile = ("normal", 1080);
    for channel in ["kaicenat", "", "a b", "https://www.twitch.tv/", "日本語", "x/../y?z=1"] {
        let task = handle_event(&configs, &notification("live", channel), &profile);
        assert_eq!(format!("{}{}", STREAMING_SITE, channel), task.0);
        assert!(task.0.starts_with("https://www.twitch.tv/"));
        assert_eq!(channel, &task.0["https://www.twitch.tv/".len()..]);
    }
}

#[test]
fn status_tag_and_origin_play_no_part() {
    let registry = || RouterEvent::Config(config("kaicenat", 641972806, &[("normal", 480)]));
    let from_socket = event_handler(
        vec![
            registry(),
            RouterEvent::Socket(notification("live", "kaicenat")),
        ],
        &normal(),
    );
    let from_exit = event_handler(
        vec![
            registry(),
            RouterEvent::Exit(notification("live", "kaicenat")),
        ],
        &normal(),
    );
    let offline = event_handler(
        vec![
            registry(),
            RouterEvent::Exit(notification("offline", "kaicenat")),
        ],
        &normal(),
    );
    assert_eq!(from_socket, from_exit);
    assert_eq!(from_socket, offline);
    assert_eq!(
        vec![(String::from("https://www.twitch.tv/kaicenat"), 480)],
        from_socket
    );
}

#[test]
fn other_channels_do_not_interfere() {
    let mut router = EventRouter::new();
    router.register(config("kaicenat", 641972806, &[("normal", 480)]));
    let before = router.resolve(&notification("live", "kaicenat"));
    router.register(config("hasanabi", 207813352, &[("normal", 720)]));
    router.register(config("jynxzi", 411377640, &[("normal", 160)]));
    let after = router.resolve(&notification("live", "kaicenat"));
    assert_eq!(before, after);
    assert_eq!((String::from("https://www.twitch.tv/kaicenat"), 480), after);
}

#[test]
fn router_registers_and_resolves() {
    let mut router = EventRouter::new();
    assert_eq!(0, router.len());
    assert_eq!(
        (String::from("https://www.twitch.tv/kaicenat"), 1080),
        router.resolve(&notification("live", "kaicenat"))
    );
    assert_eq!(
        None,
        router.handle(RouterEvent::Config(config(
            "kaicenat",
            641972806,
            &[("normal", 480)]
        )))
    );
    assert_eq!(1, router.len());
    assert_eq!(
        Some((String::from("https://www.twitch.tv/kaicenat"), 480)),
        router.handle(RouterEvent::Socket(notification("live", "kaicenat")))
    );
    assert_eq!(
        Some((String::from("https://www.twitch.tv/kaicenat"), 480)),
        router.handle(RouterEvent::Exit(notification("live", "kaicenat")))
    );
    assert_eq!(1, router.len());
    router.register(config("kaicenat", 641972806, &[("normal", 720)]));
    assert_eq!(2, router.len());
    assert_eq!(
        &vec![
            config("kaicenat", 641972806, &[("normal", 480)]),
            config("kaicenat", 641972806, &[("normal", 720)]),
        ],
        router.configs()
    );
    assert_eq!(
        (String::from("https://www.twitch.tv/kaicenat"), 1080),
        router.resolve(&notification("live", "kaicenat"))
    );
}

#[test]
fn global_profile_is_normal_at_1080() {
    assert_eq!("normal", GLOBAL_PROFILE_NAME);
    assert_eq!(1080, GLOBAL_PROFILE_QUALITY);
    assert_eq!("https://www.twitch.tv/", STREAMING_SITE);
    let profile: Profile = (GLOBAL_PROFILE_NAME, GLOBAL_PROFILE_QUALITY);
    let configs = vec![config("kaicenat", 641972806, &[("normal", 480)])];
    let stream = notification("live", "kaicenat");
    let mut router = EventRouter::new();
    router.register(configs[0].clone());
    assert_eq!(handle_event(&configs, &stream, &profile), router.resolve(&stream));
}

#[test]
fn quality_bounds_pass_through() {
    let configs = vec![
        config("low", 1, &[("normal", 0)]),
        config("high", 2, &[("normal", u16::MAX)]),
    ];
    let profile: Profile = ("normal", 1080);
    assert_eq!(0, handle_event(&configs, &notification("live", "low"), &profile).1);
    assert_eq!(
        u16::MAX,
        handle_event(&configs, &notification("live", "high"), &profile).1
    );
    let floor: Profile = ("none", 0);
    assert_eq!(0, handle_event(&configs, &notification("live", "high"), &floor).1);
}

#[test]
fn configured_profile_governs_the_resolution() {
    let low_data: Profile = ("low-data", 360);
    let tasks = event_handler(
        vec![
            RouterEvent::Config(config(
                "kaicenat",
                641972806,
                &[("normal", 480), ("low-data", 0)],
            )),
            RouterEvent::Socket(notification("live", "kaicenat")),
            RouterEvent::Socket(notification("live", "other")),
        ],
        &low_data,
    );
    assert_eq!(
        vec![
            (String::from("https://www.twitch.tv/kaicenat"), 0),
            (String::from("https://www.twitch.tv/other"), 360),
        ],
        tasks
    );
}

#[test]
fn router_keeps_the_profile_it_was_made_with() {
    let low_data: Profile = ("low-data", 360);
    let mut router = EventRouter::with_profile(&low_data);
    assert_eq!(low_data, router.profile());
    assert_eq!(0, router.len());
    assert_eq!(
        (String::from("https://www.twitch.tv/kaicenat"), 360),
        router.resolve(&notification("live", "kaicenat"))
    );
    router.register(config(
        "kaicenat",
        641972806,
        &[("normal", 480), ("low-data", 0)],
    ));
    assert_eq!(low_data, router.profile());
    assert_eq!(
        Some((String::from("https://www.twitch.tv/kaicenat"), 0)),
        router.handle(RouterEvent::Exit(notification("offline", "kaicenat")))
    );
    assert_eq!(
        Some((String::from("https://www.twitch.tv/other"), 360)),
        router.handle(RouterEvent::Socket(notification("live", "other")))
    );
    assert_eq!(low_data, router.profile());
    assert_eq!(("normal", 1080), EventRouter::new().profile());
}

#[test]
fn same_events_under_two_profiles() {
    let events = || {
        vec![
            RouterEvent::Config(config("kaicenat", 641972806, &[("normal", 480)])),
            RouterEvent::Socket(notification("live", "kaicenat")),
            RouterEvent::Exit(notification("live", "hasanabi")),
        ]
    };
    assert_eq!(
        vec![
            (String::from("https://www.twitch.tv/kaicenat"), 480),
            (String::from("https://www.twitch.tv/hasanabi"), 1080),
        ],
        event_handler(events(), &normal())
    );
    let source: Profile = ("source", 2160);
    assert_eq!(
        vec![
            (String::from("https://www.twitch.tv/kaicenat"), 2160),
            (String::from("https://www.twitch.tv/hasanabi"), 2160),
        ],
        event_handler(events(), &source)
    );
}
