use mqttbridge::action::Action;
use mqttbridge::command::{invocation_from_words, CommandError};
use mqttbridge::config::{Config, MqttConfig, Qos};
use mqttbridge::dispatch::TopicIndex;
use mqttbridge::registrar::{check_unique_slugs, register, registration_plan, RequestKind, SlugClash};
use mqttbridge::text::{push_decimal, replace_spaces, slug};

fn config_with(instance: &str, actions: Vec<Action>) -> Config {
    Config {
        mqtt: MqttConfig {
            host: "broker.local".to_string(),
            username: "user".to_string(),
            password: "SECRET-REDACTED".to_string(),
            instance_name: instance.to_string(),
        },
        actions,
    }
}

fn action(name: &str, command: &str) -> Action {
    Action::new(name.to_string(), command.to_string(), None)
}

fn bound(name: &str, command: &str, instance: &str) -> Action {
    let mut a = action(name, command);
    a.attach(&config_with(instance, vec![]));
    a
}

#[test]
fn slug_lowercases_and_underscores() {
    assert_eq!(slug("My Action"), "my_action");
    assert_eq!(slug("A B"), "a_b");
}

#[test]
fn slug_keeps_other_characters() {
    assert_eq!(slug("name"), "name");
    assert_eq!(slug("Gate-2.Ä\tx"), "gate-2.ä\tx");
    assert_eq!(slug(""), "");
}

#[test]
fn slug_is_idempotent() {
    let once = slug("Close Front Door");
    assert_eq!(slug(&once), once);
}

#[test]
fn replace_spaces_only_touches_spaces() {
    assert_eq!(replace_spaces("  a b "), "__a_b_");
    assert_eq!(replace_spaces("Ab"), "Ab");
}

#[test]
fn decimal_numerals() {
    let mut s = String::from("x");
    push_decimal(&mut s, 0);
    assert_eq!(s, "x0");
    let mut t = String::new();
    push_decimal(&mut t, 4294967295);
    assert_eq!(t, "4294967295");
}

#[test]
fn topics_of_open_gate() {
    let a = bound("Open Gate", "/usr/bin/true", "host1");
    assert_eq!(a.topic_base(), "mqttbridge/host1");
    assert_eq!(a.unique_id(), "open_gate");
    assert_eq!(a.command_topic(), "mqttbridge/host1/open_gate/call");
    assert_eq!(a.discovery_topic(), "homeassistant/button/host1/open_gate/config");
    assert_eq!(a.availability_topic, "mqttbridge/host1/available");
    assert_eq!(a.label(), "<Action Open Gate>");
}

#[test]
fn topics_are_deterministic() {
    let a = bound("Light On", "x", "h");
    let b = bound("Light On", "y", "h");
    assert_eq!(a.command_topic(), a.command_topic());
    assert_eq!(a.command_topic(), b.command_topic());
    assert_eq!(a.discovery_topic(), b.discovery_topic());
    let c = config_with("h", vec![]);
    assert_eq!(c.availability_topic(), c.availability_topic());
}

#[test]
fn scenario_startup_registration() {
    let config = config_with("host1", vec![action("Open Gate", "/usr/bin/true")]);
    let reg = register(&config).unwrap();
    assert_eq!(reg.plan.len(), 2);
    assert_eq!(reg.plan[0].kind, RequestKind::Subscribe);
    assert_eq!(reg.plan[0].topic, "mqttbridge/host1/open_gate/call");
    assert_eq!(reg.plan[0].qos, Qos::AtLeastOnce);
    assert_eq!(reg.plan[1].kind, RequestKind::Publish);
    assert_eq!(reg.plan[1].topic, "homeassistant/button/host1/open_gate/config");
    assert!(reg.plan[1].retain);
    assert_eq!(reg.plan[1].action, 0);
    let info = reg.index.get(0).discovery_info("host1");
    assert_eq!(info.unique_id, "open_gate");
    assert_eq!(info.command_topic, "mqttbridge/host1/open_gate/call");
    assert_eq!(info.availability_topic, "mqttbridge/host1/available");
    assert_eq!(info.name, "Open Gate");
}

#[test]
fn registration_order_and_index() {
    let config = config_with("h", vec![action("One", "a"), action("Two", "b"), action("Three", "c")]);
    let reg = register(&config).unwrap();
    assert_eq!(reg.plan.len(), 6);
    let kinds: Vec<RequestKind> = reg.plan.iter().map(|r| r.kind).collect();
    assert_eq!(
        kinds,
        vec![
            RequestKind::Subscribe,
            RequestKind::Publish,
            RequestKind::Subscribe,
            RequestKind::Publish,
            RequestKind::Subscribe,
            RequestKind::Publish
        ]
    );
    assert_eq!(reg.plan[4].topic, "mqttbridge/h/three/call");
    assert_eq!(reg.index.len(), 3);
    for i in 0..3 {
        let topic = reg.index.get(i).command_topic();
        assert_eq!(reg.index.route(&topic), Some(i));
    }
    let plan = registration_plan(&reg.index.entries);
    assert_eq!(plan.len(), 6);
}

#[test]
fn scenario_dispatch_true() {
    let config = config_with("host1", vec![action("Open Gate", "/usr/bin/true")]);
    let reg = register(&config).unwrap();
    let k = reg.index.route("mqttbridge/host1/open_gate/call").unwrap();
    let inv = reg.index.get(k).invocation().unwrap();
    assert_eq!(inv.program, "/usr/bin/true");
    assert!(inv.args.is_empty());
}

#[test]
fn unknown_topic_is_not_routed() {
    let config = config_with("host1", vec![action("Open Gate", "/usr/bin/true")]);
    let reg = register(&config).unwrap();
    assert_eq!(reg.index.route("mqttbridge/host1/close_gate/call"), None);
    assert_eq!(reg.index.route(""), None);
}

#[test]
fn scenario_quoted_arguments() {
    let a = action("Echo", "echo \"hello world\" foo");
    let inv = a.invocation().unwrap();
    assert_eq!(inv.program, "echo");
    assert_eq!(inv.args, vec!["hello world".to_string(), "foo".to_string()]);
}

#[test]
fn backslash_escape_is_honoured() {
    let inv = action("E", "ls a\\ b").invocation().unwrap();
    assert_eq!(inv.program, "ls");
    assert_eq!(inv.args, vec!["a b".to_string()]);
}

#[test]
fn empty_command_is_refused() {
    assert_eq!(action("E", "").invocation().unwrap_err(), CommandError::Empty);
    assert_eq!(action("E", "   ").invocation().unwrap_err(), CommandError::Empty);
}

#[test]
fn malformed_command_is_refused() {
    assert_eq!(action("E", "echo \"abc").invocation().unwrap_err(), CommandError::Malformed);
}

#[test]
fn invocation_from_given_words() {
    assert_eq!(invocation_from_words(None).unwrap_err(), CommandError::Malformed);
    assert_eq!(invocation_from_words(Some(vec![])).unwrap_err(), CommandError::Empty);
    let inv = invocation_from_words(Some(vec!["p".to_string(), "a".to_string(), "b".to_string()]))
        .unwrap();
    assert_eq!(inv.program, "p");
    assert_eq!(inv.args, vec!["a".to_string(), "b".to_string()]);
}

#[test]
fn scenario_duplicate_slug() {
    let config = config_with("h", vec![action("Light On", "a"), action("light on", "b")]);
    assert_eq!(register(&config).unwrap_err(), SlugClash { first: 0, second: 1 });
}

#[test]
fn first_clash_is_reported() {
    let actions = vec![
        action("A", "x"),
        action("B", "x"),
        action("C", "x"),
        action("b", "x"),
        action("a", "x"),
    ];
    assert_eq!(check_unique_slugs(&actions), Err(SlugClash { first: 1, second: 3 }));
    assert_eq!(check_unique_slugs(&vec![action("A", "x"), action("B", "x")]), Ok(()));
    assert_eq!(check_unique_slugs(&vec![]), Ok(()));
}

#[test]
fn index_of_prepared_actions() {
    let config = config_with("h", vec![action("One", "a"), action("Two", "b")]);
    let reg = register(&config).unwrap();
    let index = TopicIndex::from_actions(reg.index.entries.clone());
    assert_eq!(index.len(), 2);
    assert_eq!(index.get(1).name, "Two");
    assert_eq!(index.get(1).instance_name, "h");
}

#[test]
fn discovery_document_fields() {
    let mut a = Action::new("Open Gate".to_string(), "true".to_string(), Some("mdi:gate".to_string()));
    a.attach(&config_with("host1", vec![]));
    let info = a.discovery_info("myhost");
    assert_eq!(info.icon, Some("mdi:gate".to_string()));
    assert_eq!(info.device.name, "mqtt-bridge @ myhost");
    assert_eq!(info.device.identifiers, vec!["myhost".to_string()]);
    assert_eq!(info.device.manufacturer, None);
    assert_eq!(info.device.model, None);
    assert_eq!(info.payload_press, None);
    assert_eq!(info.entity_category, None);
    let plain = bound("Open Gate", "true", "host1").discovery_info("myhost");
    assert_eq!(plain.icon, None);
}

#[test]
fn discovery_document_on_this_machine() {
    let a = bound("Open Gate", "true", "host1");
    if let Some(info) = a.discovery_document() {
        assert_eq!(info.unique_id, "open_gate");
        assert_eq!(info.device.identifiers.len(), 1);
        assert_eq!(info.device.name, format!("mqtt-bridge @ {}", info.device.identifiers[0]));
    }
}

#[test]
fn session_options_and_liveness() {
    let config = config_with("host1", vec![]);
    let o = config.session_options(4321);
    assert_eq!(o.client_id, "mqttbridge-4321");
    assert_eq!(o.host, "broker.local");
    assert_eq!(o.port, 1883);
    assert_eq!(o.keep_alive_secs, 5);
    assert_eq!(o.username, "user");
    assert_eq!(o.password, "SECRET-REDACTED");
    assert_eq!(o.queue_capacity, 10);
    assert_eq!(o.last_will.topic, "mqttbridge/host1/available");
    assert_eq!(o.last_will.payload, "offline");
    assert!(o.last_will.retain);
    assert_eq!(o.last_will.qos, Qos::AtLeastOnce);
    let online = config.online_message();
    assert_eq!(online.topic, "mqttbridge/host1/available");
    assert_eq!(online.payload, "online");
    assert!(online.retain);
    assert_eq!(online.qos, Qos::AtLeastOnce);
}

#[test]
fn snapshot_copies_every_field() {
    let a = bound("Open Gate", "true", "host1");
    let b = a.snapshot();
    assert_eq!(b.name, a.name);
    assert_eq!(b.command, a.command);
    assert_eq!(b.instance_name, a.instance_name);
    assert_eq!(b.availability_topic, a.availability_topic);
}
