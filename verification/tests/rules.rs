use hypriio::coordinator::Context;
use hypriio::hyprctl::{
    build_rules, find_monitor, u8_to_string, Device, Devices, Error, Monitor, MonitorTransform,
    Rule, Rules, TabletTransform, TouchDeviceTransform,
};
use hypriio::orientation::Orientation;

fn monitor(name: &str, disabled: bool) -> Monitor {
    Monitor {
        id: 1,
        name: String::from(name),
        description: String::from("a monitor"),
        disabled,
    }
}

#[test]
fn decimal_rendering_is_exact() {
    assert_eq!(u8_to_string(0), "0");
    assert_eq!(u8_to_string(7), "7");
    assert_eq!(u8_to_string(10), "10");
    assert_eq!(u8_to_string(42), "42");
    assert_eq!(u8_to_string(100), "100");
    assert_eq!(u8_to_string(255), "255");
}

#[test]
fn rule_lines_render_like_the_control_tool_expects() {
    let m = monitor("eDP-1", false);
    let mut rules = Rules::new();
    rules.add(MonitorTransform::new(&m, 1));
    rules.add(TouchDeviceTransform::new(1));
    rules.add(TabletTransform::new(1));
    assert_eq!(
        rules.lines().clone(),
        vec![
            String::from("keyword monitor eDP-1,transform,1"),
            String::from("keyword input:touchdevice:transform 1"),
            String::from("keyword input:tablet:transform 1"),
        ]
    );
}

#[test]
fn batch_string_joins_entries_for_one_invocation() {
    let m = monitor("eDP-1", false);
    let rules = build_rules(Some(&m), 1, true, true).unwrap();
    assert_eq!(
        rules.batch_string(),
        "keyword monitor eDP-1,transform,1;keyword input:touchdevice:transform 1;keyword input:tablet:transform 1"
    );
    let empty = Rules::new();
    assert_eq!(empty.batch_string(), "");
    let mut single = Rules::new();
    single.add(TabletTransform::new(2));
    assert_eq!(single.batch_string(), "keyword input:tablet:transform 2");
}

#[test]
fn rule_keywords_and_values() {
    let m = monitor("DP-3", false);
    let mt = MonitorTransform::new(&m, 250);
    assert_eq!(mt.keyword(), "monitor");
    assert_eq!(mt.value(), "DP-3,transform,250");
    let tt = TouchDeviceTransform::new(3);
    assert_eq!(tt.keyword(), "input:touchdevice:transform");
    assert_eq!(tt.value(), "3");
    let ta = TabletTransform::new(0);
    assert_eq!(ta.keyword(), "input:tablet:transform");
    assert_eq!(ta.value(), "0");
}

#[test]
fn batch_contains_rules_for_present_capabilities_only() {
    let m = monitor("eDP-1", false);
    for &(touch, tablet) in &[(false, false), (true, false), (false, true), (true, true)] {
        let rules = build_rules(Some(&m), 2, touch, tablet).unwrap();
        let lines = rules.lines();
        assert_eq!(
            lines.contains(&String::from("keyword input:touchdevice:transform 2")),
            touch
        );
        assert_eq!(
            lines.contains(&String::from("keyword input:tablet:transform 2")),
            tablet
        );
        assert!(lines.contains(&String::from("keyword monitor eDP-1,transform,2")));
        let expected = 1 + touch as usize + tablet as usize;
        assert_eq!(lines.len(), expected);
    }
}

#[test]
fn disabled_monitor_omits_monitor_rule_but_keeps_inputs() {
    let m = monitor("eDP-1", true);
    let rules = build_rules(Some(&m), 1, true, true).unwrap();
    assert_eq!(
        rules.lines().clone(),
        vec![
            String::from("keyword input:touchdevice:transform 1"),
            String::from("keyword input:tablet:transform 1"),
        ]
    );
}

#[test]
fn missing_monitor_fails_with_monitor_not_found() {
    // The live lookup reports the monitor as not present at all: the request
    // fails with MonitorNotFound and `current` is unchanged, so the loop can
    // log and continue.
    let mut ctx = Context::new(
        Orientation::Normal,
        monitor("eDP-1", false),
        [0, 1, 2, 3],
        false,
        true,
        true,
        Vec::new(),
    );
    let plan = ctx.orient(Orientation::LeftUp, false).unwrap();
    let r = build_rules(None, plan.transform, ctx.has_touch, ctx.has_tablet);
    assert_eq!(r.err(), Some(Error::MonitorNotFound));
    ctx.finish(plan, false);
    assert_eq!(ctx.now, Orientation::Normal);
    assert_eq!(ctx.queued, None);
}

#[test]
fn find_monitor_returns_first_match() {
    let monitors = vec![
        monitor("DP-1", false),
        monitor("eDP-1", true),
        monitor("eDP-1", false),
    ];
    let found = find_monitor(&monitors, "eDP-1").unwrap();
    assert!(found.disabled);
    assert_eq!(found.name, "eDP-1");
    assert!(find_monitor(&monitors, "HDMI-A-1").is_none());
    assert!(find_monitor(&Vec::new(), "eDP-1").is_none());
}

#[test]
fn device_presence_flags() {
    let none = Devices::new(Vec::new(), Vec::new());
    assert!(!none.has_touch());
    assert!(!none.has_tablet());
    let touch_only = Devices::new(
        vec![Device { address: String::from("0x1"), name: String::from("touchscreen") }],
        Vec::new(),
    );
    assert!(touch_only.has_touch());
    assert!(!touch_only.has_tablet());
}
