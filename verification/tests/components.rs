use hello_tui::component::Alignment;
use hello_tui::component::AttrValue;
use hello_tui::component::Attribute;
use hello_tui::component::Cmd;
use hello_tui::component::CmdResult;
use hello_tui::component::Color;
use hello_tui::component::Component;
use hello_tui::component::HelloWorld;
use hello_tui::component::PhantomListener;
use hello_tui::component::State;
use hello_tui::component::TextModifiers;
use hello_tui::event::Event;
use hello_tui::event::Key;
use hello_tui::event::KeyEvent;
use hello_tui::event::KeyModifiers;
use hello_tui::event::SubGuard;
use hello_tui::event::Subscription;
use hello_tui::layout::single_row_region;
use hello_tui::layout::Rect;
use hello_tui::AppEvent;
use hello_tui::Msg;

fn escape() -> Event {
    Event::Keyboard(KeyEvent { code: Key::Esc, modifiers: KeyModifiers::none() })
}

#[test]
fn listener_escape_yields_close() {
    let p = PhantomListener::default();
    assert_eq!(p.on(&escape()), Some(Msg::AppClose));
}

#[test]
fn listener_error_initialized_yields_close() {
    let p = PhantomListener::default();
    assert_eq!(p.on(&Event::User(AppEvent::ErrorInitialized)), Some(Msg::AppClose));
}

#[test]
fn listener_other_key_yields_noop() {
    let p = PhantomListener::default();
    let letter = Event::Keyboard(KeyEvent { code: Key::Char('a'), modifiers: KeyModifiers::none() });
    assert_eq!(p.on(&letter), Some(Msg::NoOp));
    let enter = Event::Keyboard(KeyEvent { code: Key::Enter, modifiers: KeyModifiers::none() });
    assert_eq!(p.on(&enter), Some(Msg::NoOp));
}

#[test]
fn listener_escape_with_modifier_yields_noop() {
    let p = PhantomListener::default();
    let held = Event::Keyboard(KeyEvent { code: Key::Esc, modifiers: KeyModifiers { bits: 2 } });
    assert_eq!(p.on(&held), Some(Msg::NoOp));
}

#[test]
fn label_never_yields_a_message() {
    let h = HelloWorld::default();
    assert_eq!(h.on(&escape()), None);
    assert_eq!(h.on(&Event::User(AppEvent::ErrorInitialized)), None);
}

#[test]
fn label_defaults() {
    let h = HelloWorld::default();
    assert_eq!(h.query(Attribute::Display), Some(AttrValue::Flag(true)));
    assert_eq!(h.query(Attribute::Text), Some(AttrValue::Text(String::new())));
    assert_eq!(h.query(Attribute::TextAlign), Some(AttrValue::Align(Alignment::Left)));
    assert_eq!(h.query(Attribute::Foreground), Some(AttrValue::Col(Color::Reset)));
    assert_eq!(h.query(Attribute::Background), Some(AttrValue::Col(Color::Reset)));
    assert_eq!(h.query(Attribute::TextProps), Some(AttrValue::Mods(TextModifiers::empty())));
}

#[test]
fn label_builders_write_one_attribute_each() {
    let h = HelloWorld::default()
        .text("Hello World!")
        .alignment(Alignment::Center)
        .foreground(Color::Red)
        .background(Color::Blue)
        .modifiers(TextModifiers { bits: 1 });
    assert_eq!(h.query(Attribute::Text), Some(AttrValue::Text("Hello World!".to_string())));
    assert_eq!(h.query(Attribute::TextAlign), Some(AttrValue::Align(Alignment::Center)));
    assert_eq!(h.query(Attribute::Foreground), Some(AttrValue::Col(Color::Red)));
    assert_eq!(h.query(Attribute::Background), Some(AttrValue::Col(Color::Blue)));
    assert_eq!(h.query(Attribute::TextProps), Some(AttrValue::Mods(TextModifiers { bits: 1 })));
    // untouched attributes keep their defaults
    assert_eq!(h.query(Attribute::Display), Some(AttrValue::Flag(true)));
}

#[test]
fn attr_of_mismatched_kind_is_ignored() {
    let mut h = HelloWorld::default();
    h.attr(Attribute::Display, AttrValue::Col(Color::Red));
    assert_eq!(h.query(Attribute::Display), Some(AttrValue::Flag(true)));
    h.attr(Attribute::Text, AttrValue::Flag(false));
    assert_eq!(h.query(Attribute::Text), Some(AttrValue::Text(String::new())));
}

#[test]
fn label_view_renders_styled_text() {
    let h = HelloWorld::default().text("hi").alignment(Alignment::Right);
    let area = Rect { x: 3, y: 4, width: 10, height: 1 };
    let plan = h.view(area).expect("visible label renders");
    assert_eq!(plan.area, area);
    assert_eq!(plan.text, "hi");
    assert_eq!(plan.alignment, Alignment::Right);
    assert_eq!(plan.foreground, Color::Reset);
    assert_eq!(plan.background, Color::Reset);
    assert_eq!(plan.modifiers, TextModifiers::empty());
}

#[test]
fn hidden_label_renders_nothing() {
    let mut h = HelloWorld::default().text("hi");
    h.attr(Attribute::Display, AttrValue::Flag(false));
    let area = Rect { x: 0, y: 0, width: 10, height: 1 };
    assert_eq!(h.view(area), None);
}

#[test]
fn listener_renders_nothing_and_keeps_no_attributes() {
    let mut p = PhantomListener::default();
    let area = Rect { x: 0, y: 0, width: 10, height: 1 };
    assert_eq!(p.view(area), None);
    assert_eq!(p.query(Attribute::Text), None);
    p.attr(Attribute::Text, AttrValue::Text("x".to_string()));
    assert_eq!(p.query(Attribute::Text), None);
}

#[test]
fn components_report_no_state_and_accept_no_command() {
    let mut label = Component::Label(HelloWorld::default());
    let mut listener = Component::Listener(PhantomListener::default());
    assert_eq!(label.state(), State::Empty);
    assert_eq!(listener.state(), State::Empty);
    assert_eq!(label.perform(Cmd::NoOp), CmdResult::NoResult);
    assert_eq!(listener.perform(Cmd::NoOp), CmdResult::NoResult);
}

#[test]
fn subscription_matches_equal_pattern_only() {
    let sub = Subscription::new(escape(), SubGuard::Always);
    assert!(sub.matches(&escape()));
    assert!(!sub.matches(&Event::User(AppEvent::ErrorInitialized)));
    let held = Event::Keyboard(KeyEvent { code: Key::Esc, modifiers: KeyModifiers { bits: 1 } });
    assert!(!sub.matches(&held));
}

#[test]
fn single_row_region_applies_margin_one() {
    let area = Rect { x: 0, y: 0, width: 80, height: 24 };
    assert_eq!(single_row_region(area), Rect { x: 1, y: 1, width: 78, height: 1 });
    let offset = Rect { x: 5, y: 7, width: 10, height: 4 };
    assert_eq!(single_row_region(offset), Rect { x: 6, y: 8, width: 8, height: 1 });
}

#[test]
fn single_row_region_collapses_when_too_small() {
    let narrow = Rect { x: 2, y: 2, width: 1, height: 5 };
    assert_eq!(single_row_region(narrow), Rect { x: 2, y: 3, width: 0, height: 1 });
    let short = Rect { x: 0, y: 0, width: 20, height: 2 };
    assert_eq!(single_row_region(short), Rect { x: 1, y: 1, width: 18, height: 0 });
}
