use meril_cat::event::EventManager;
use meril_cat::json::Json;
use meril_cat::plugin::{str_starts_with, Dispatch, Plugin, PluginManager, PluginRunner, Trigger};

#[test]
fn trigger_matching() {
    let help = Trigger::StartWith("/help".to_string());
    assert!(help.matches("/help list"));
    assert!(!help.matches("help"));
    assert!(!help.matches("/hel"));
    let pat = Trigger::Pattern("^/h(e|a)lp$".to_string());
    assert!(pat.matches("/halp"));
    assert!(!pat.matches("/help me"));
    assert!(Trigger::Pattern("\\d+".to_string()).matches("room 42"));
    assert!(!Trigger::Pattern("(".to_string()).matches("("));
    assert!(Trigger::Always.matches(""));
    assert!(Trigger::Always.matches("anything"));
    assert!(str_starts_with("abc", ""));
    assert!(!str_starts_with("", "a"));
}

#[test]
fn plugin_builders_and_info() {
    let p = Plugin::new();
    assert_eq!(p.get_name(), "None");
    assert_eq!(p.get_info_str(), "->[None]\n-->None");
    let p = Plugin::new()
        .with_name("SendLike")
        .with_description("/like")
        .with_version("1.0.0")
        .with_author("me")
        .with_trigger(Trigger::StartWith("/like".to_string()));
    assert_eq!(p.get_info_str(), "->[SendLike]\n-->/like");
    assert_eq!(p.get_trigger(), &Trigger::StartWith("/like".to_string()));
    assert!(p.wants("/like 3"));
    assert!(!p.wants("/help"));
}

#[test]
fn registry_lists_in_registration_order() {
    let mut m = PluginManager::new();
    assert_eq!(m.plugin_help(), "[PluginList]");
    m.add_plugin(Plugin::new().with_name("GetHelpList").with_description("/help"));
    assert_eq!(m.plugin_help(), "[PluginList]\n->[GetHelpList]\n-->/help");
    m.add_plugin(Plugin::new().with_name("Ai Chat In QQ").with_description("Any Triggle"));
    let names: Vec<&String> = m.list().iter().map(|p| p.get_name()).collect();
    assert_eq!(names, vec!["GetHelpList", "Ai Chat In QQ"]);
    assert_eq!(
        m.plugin_help(),
        "[PluginList]\n->[GetHelpList]\n-->/help\n\n->[Ai Chat In QQ]\n-->Any Triggle"
    );
}

#[test]
fn private_help_message_calls_only_the_help_plugin_once() {
    let mut events = EventManager::new();
    let help = Plugin::new().with_trigger(Trigger::StartWith("/help".to_string()));
    let like = Plugin::new().with_trigger(Trigger::StartWith("/like".to_string()));
    let mut help_loop = PluginRunner::new(&mut events);
    let mut like_loop = PluginRunner::new(&mut events);
    let frame = Json::from_text(
        r#"{"post_type":"message","message_type":"private","raw_message":"/help","message_id":1,
            "self_id":2,"time":3,"sender":{"user_id":123,"nickname":"n","card":""},"message":[]}"#,
    )
    .unwrap();
    assert!(events.handle_event(&frame));
    let hubs = events.get_event_nexus();
    match help_loop.poll(&help, hubs) {
        Dispatch::Private(m) => {
            assert_eq!(m.sender.user_id, 123);
            assert_eq!(m.raw_message, "/help");
        }
        other => panic!("unexpected {:?}", other),
    }
    assert_eq!(help_loop.poll(&help, hubs), Dispatch::Idle);
    assert_eq!(like_loop.poll(&like, hubs), Dispatch::Skipped);
    assert_eq!(like_loop.poll(&like, hubs), Dispatch::Idle);
}

#[test]
fn dispatch_alternates_between_ports() {
    let mut events = EventManager::new();
    let always = Plugin::new();
    let mut runner = PluginRunner::new(&mut events);
    let private = r#"{"post_type":"message","message_type":"private","raw_message":"p","message_id":1,
        "self_id":2,"time":3,"sender":{"user_id":1,"nickname":"n","card":""},"message":[]}"#;
    let group = r#"{"post_type":"message","message_type":"group","group_id":8,"group_name":"g","raw_message":"g",
        "message_id":1,"self_id":2,"time":3,"sender":{"user_id":1,"nickname":"n","card":""},"message":[]}"#;
    for text in [private, private, group, group] {
        assert!(events.handle_event(&Json::from_text(text).unwrap()));
    }
    let hubs = events.get_event_nexus();
    let mut seen = Vec::new();
    loop {
        match runner.poll(&always, hubs) {
            Dispatch::Group(m) => seen.push(format!("g:{}", m.raw_message)),
            Dispatch::Private(m) => seen.push(format!("p:{}", m.raw_message)),
            Dispatch::Idle => break,
            other => panic!("unexpected {:?}", other),
        }
    }
    assert_eq!(seen, vec!["g:g", "p:p", "g:g", "p:p"]);
}

#[test]
fn help_listing_is_trimmed() {
    let mut m = PluginManager::new();
    m.add_plugin(Plugin::new().with_name("a").with_description("x "));
    assert_eq!(m.plugin_help(), "[PluginList]\n->[a]\n-->x");
    m.add_plugin(Plugin::new().with_name("b").with_description("y\u{3000}\t"));
    assert_eq!(m.plugin_help(), "[PluginList]\n->[a]\n-->x \n\n->[b]\n-->y");
}
