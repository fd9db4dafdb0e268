use capybar::battery::{BatteryDisplay, BatteryInfo, BatterySettings, BatteryState};
use capybar::config::{FontStyle, FontTable};
use capybar::drawer::Drawer;
use capybar::root::{configured_size, surface_size, Environment};
use capybar::services::{cpu_text, default_format, layout_display_name, percent_text, Cooldown, KeyboardIndicator, LayoutTracker, ProcessSettings};
use capybar::signals::{SignalNames, SignalValue, Signals, ValueKind};
use capybar::widgets::{Position, WidgetError, WidgetList};

#[test]
fn batteries_add_up() {
    let a = BatteryInfo { energy: 10, full: 50, state: BatteryState::Full };
    let b = BatteryInfo { energy: 30, full: 50, state: BatteryState::Charging };
    let sum = a.add(b);
    assert_eq!((sum.energy, sum.full, sum.state), (40, 100, BatteryState::Charging));
    let c = BatteryInfo { energy: 0, full: 0, state: BatteryState::Unknown };
    assert_eq!(a.add(c).state, BatteryState::Full);
    let d = BatteryInfo { energy: 0, full: 0, state: BatteryState::Empty };
    assert_eq!(a.add(d).state, BatteryState::Unknown);
    let e = BatteryInfo { energy: 0, full: 0, state: BatteryState::Discharging };
    assert_eq!(a.add(e).state, BatteryState::Discharging);
}

#[test]
fn battery_percentage_rounds_to_nearest() {
    assert_eq!(BatteryInfo { energy: 1, full: 3, state: BatteryState::Unknown }.percentage(), Some(33));
    assert_eq!(BatteryInfo { energy: 2, full: 3, state: BatteryState::Unknown }.percentage(), Some(67));
    assert_eq!(BatteryInfo { energy: 1, full: 200, state: BatteryState::Unknown }.percentage(), Some(1));
    assert_eq!(BatteryInfo::empty().percentage(), None);
}

#[test]
fn battery_display_changes_only_on_new_charge() {
    let settings = BatterySettings::default();
    let mut display = BatteryDisplay::new();
    let info = BatteryInfo { energy: 45, full: 100, state: BatteryState::Discharging };
    let (icon, text) = display.update(&settings, Some(info)).unwrap();
    assert_eq!(icon, settings.battery_not_charging[4]);
    assert_eq!(text, "45%");
    assert!(display.update(&settings, Some(info)).is_none());
    let charging = BatteryInfo { energy: 100, full: 100, state: BatteryState::Charging };
    let (icon, text) = display.update(&settings, Some(charging)).unwrap();
    assert_eq!(icon, settings.battery_charging[10]);
    assert_eq!(text, "100%");
    let (icon, text) = display.update(&settings, None).unwrap();
    assert_eq!((icon, text.as_str()), (' ', "ERR"));
    assert!(display.update(&settings, None).is_none());
}

#[test]
fn percent_and_cpu_texts() {
    assert_eq!(percent_text(0), "0%");
    assert_eq!(percent_text(7), "7%");
    assert_eq!(percent_text(1234), "1234%");
    assert_eq!(cpu_text(Some(42)), "42%");
    assert_eq!(cpu_text(None), "ERR");
}

#[test]
fn cooldown_gates_polls() {
    let mut gate = Cooldown::new(ProcessSettings { update_rate: 1000 });
    assert!(gate.ready_at(5_000));
    assert!(!gate.ready_at(5_999));
    assert!(gate.ready_at(6_000));
    assert!(!gate.ready_at(6_500));
    let mut first = Cooldown::new(ProcessSettings::default());
    assert!(first.ready_at(i64::MIN));
    assert!(first.ready_at(i64::MAX));
}

#[test]
fn layout_names_are_mapped() {
    let mappings = vec![
        (String::from("English (US)"), String::from("us")),
        (String::from("Russian"), String::from("ru")),
    ];
    assert_eq!(layout_display_name(&mappings, &String::from("Russian")), "ru");
    assert_eq!(layout_display_name(&mappings, &String::from("German")), "German");
}

#[test]
fn layout_tracker_emits_on_change_only() {
    let mut signals = Signals::new();
    let k = signals.get_or_create(SignalNames::Keyboard);
    signals.connect_on(k, ValueKind::Text);
    signals.connect_on(k, ValueKind::I32);
    let mut tracker = LayoutTracker::new();
    assert_eq!(tracker.observe(String::from("us"), &mut signals, k), Some(vec![0]));
    assert_eq!(tracker.observe(String::from("us"), &mut signals, k), None);
    assert_eq!(tracker.observe(String::from("ru"), &mut signals, k), Some(vec![0]));
}

#[test]
fn keyboard_widget_needs_its_signal() {
    let mut env = Environment::new(Drawer::new(1, 1));
    assert!(matches!(
        env.keyboard_signal(),
        Err(WidgetError::NoCorespondingSignal(WidgetList::Keyboard, _))
    ));
    let i = env.signals.get_or_create(SignalNames::Keyboard);
    assert_eq!(env.keyboard_signal().unwrap(), i);
    assert_eq!(env.signals.get_or_create(SignalNames::Keyboard), i);
    let j = env.signals.get_or_create(SignalNames::Custom(String::from("volume")));
    assert_ne!(i, j);
    assert_eq!(env.signals.find(&SignalNames::Custom(String::from("volume"))), Some(j));
    assert_eq!(env.signals.len(), 2);
}

#[test]
fn registry_signals_replay_and_dispatch() {
    let mut signals = Signals::new();
    let k = signals.get_or_create(SignalNames::Keyboard);
    assert_eq!(signals.emit_on(k, &String::from("us")), Vec::<usize>::new());
    let (index, replay) = signals.connect_on(k, ValueKind::Text);
    assert_eq!(index, 0);
    assert!(matches!(replay, Some(SignalValue::Text(ref s)) if s == "us"));
    assert_eq!(signals.emit_on(k, &String::from("de")), vec![0]);
}

#[test]
fn fonts_are_indexed_in_load_order() {
    let mut table = FontTable::new();
    assert_eq!(table.add_font_by_name(String::from("Sans")), 0);
    assert_eq!(table.add_font_by_name(String::from("Icons")), 1);
    assert_eq!(table.fonts_map(&String::from("Icons")), Some(1));
    assert_eq!(table.fonts_map(&String::from("Mono")), None);
    assert_eq!(table.add_font_by_name(String::from("Sans")), 2);
    assert_eq!(table.fonts_map(&String::from("Sans")), Some(2));
    assert_eq!(table.len(), 3);
    assert_eq!(FontStyle::default_text_size(), 12);
    assert_eq!(FontStyle::default_text_color().a(), 255);
}

#[test]
fn surface_sizes() {
    assert_eq!(configured_size(0, 30), (256, 30));
    assert_eq!(configured_size(1920, 0), (1920, 256));
    assert_eq!(surface_size(24, &vec![(1920, 1080), (2560, 1440)]), (2560, 24));
    assert_eq!(surface_size(0, &vec![]), (1, 1));
    assert_eq!(surface_size(50, &vec![(800, 20)]), (800, 20));
}

#[test]
fn widget_names() {
    assert_eq!(WidgetList::Text.to_string(), "Text");
    assert_eq!(WidgetList::IconText.to_string(), "Text");
    assert_eq!(WidgetList::CPU.to_string(), "Cpu");
    assert_eq!(WidgetList::Custom(String::from("Mine")).to_string(), "Mine");
}

#[test]
fn positions_add() {
    let mut p = Position(1, 2);
    p.add_assign((3, 4));
    assert_eq!(p, Position(4, 6));
    assert_eq!(Position(1, 1).add(Position(2, 3)), Position(3, 4));
}

#[test]
fn keyboard_indicator_follows_its_signal() {
    let mappings = vec![(String::from("English (US)"), String::from("us"))];
    let mut env = Environment::new(Drawer::new(1, 1));
    let mut missing = KeyboardIndicator::new(mappings.clone());
    assert!(matches!(
        missing.init(&mut env),
        Err(WidgetError::NoCorespondingSignal(WidgetList::Keyboard, _))
    ));
    let k = env.signals.get_or_create(SignalNames::Keyboard);
    env.signals.emit_on(k, &String::from("English (US)"));
    let mut indicator = KeyboardIndicator::new(mappings);
    assert_eq!(indicator.init(&mut env).unwrap(), Some(String::from("us")));
    assert_eq!(indicator.listener_index(), Some(0));
    assert_eq!(env.signals.emit_on(k, &String::from("German")), vec![0]);
    assert_eq!(indicator.receive(&SignalValue::Text(String::from("German"))), Some(String::from("German")));
    assert_eq!(indicator.receive(&SignalValue::I32(3)), None);
    assert_eq!(default_format(), "%H:%M");
}
