use hello_tui::component::Alignment;
use hello_tui::component::AttrValue;
use hello_tui::component::Attribute;
use hello_tui::component::Color;
use hello_tui::component::Component;
use hello_tui::component::HelloWorld;
use hello_tui::component::PhantomListener;
use hello_tui::component::TextModifiers;
use hello_tui::event::Event;
use hello_tui::event::Key;
use hello_tui::event::KeyEvent;
use hello_tui::event::KeyModifiers;
use hello_tui::event::SubGuard;
use hello_tui::event::Subscription;
use hello_tui::layout::Rect;
use hello_tui::model::Model;
use hello_tui::registry::AppError;
use hello_tui::registry::Application;
use hello_tui::AppEvent;
use hello_tui::Id;
use hello_tui::Msg;

fn escape() -> Event {
    Event::Keyboard(KeyEvent { code: Key::Esc, modifiers: KeyModifiers::none() })
}

fn letter(c: char) -> Event {
    Event::Keyboard(KeyEvent { code: Key::Char(c), modifiers: KeyModifiers::none() })
}

#[test]
fn mount_duplicate_identifier_fails_and_changes_nothing() {
    let mut app = Application::new();
    let first = app.mount(
        Id::Label,
        Component::Label(HelloWorld::default().text("kept")),
        Vec::new(),
    );
    assert!(first.is_ok());
    let second = app.mount(
        Id::Label,
        Component::Label(HelloWorld::default().text("intruder")),
        Vec::new(),
    );
    assert_eq!(second, Err(AppError::DuplicateIdentifier));
    // the component mounted first is still the one under the identifier
    assert_eq!(app.mounted.len(), 1);
    match &app.mounted[0].component {
        Component::Label(h) => {
            assert_eq!(h.query(Attribute::Text), Some(AttrValue::Text("kept".to_string())));
        }
        Component::Listener(_) => panic!("wrong component kind mounted"),
    }
}

#[test]
fn mount_distinct_identifiers_succeeds() {
    let mut app = Application::new();
    assert!(app.mount(Id::Label, Component::Label(HelloWorld::default()), Vec::new()).is_ok());
    assert!(app
        .mount(Id::PhantomListener, Component::Listener(PhantomListener::default()), Vec::new())
        .is_ok());
    assert_eq!(app.mounted.len(), 2);
}

#[test]
fn update_noop_many_times_never_quits() {
    let mut m = Model::new();
    for _ in 0..100 {
        let follow_up = m.update(Some(Msg::NoOp));
        assert_eq!(follow_up, None);
        assert!(!m.quit);
        assert!(m.redraw);
    }
    let follow_up = m.update(None);
    assert_eq!(follow_up, None);
    assert!(!m.quit);
}

#[test]
fn quit_stays_set_after_close() {
    let mut m = Model::new();
    let follow_up = m.update(Some(Msg::AppClose));
    assert_eq!(follow_up, None);
    assert!(m.quit);
    m.update(Some(Msg::NoOp));
    assert!(m.quit);
    m.update(None);
    assert!(m.quit);
    m.tick(Some(vec![letter('z')]));
    assert!(m.quit);
}

#[test]
fn tick_with_messages_marks_redraw_until_rendered() {
    // a listener subscribed to the letter "x" turns that key into a no-op
    // message, so the tick yields a message without closing anything
    let mut app = Application::new();
    let subs = vec![Subscription::new(letter('x'), SubGuard::Always)];
    app.mount(Id::PhantomListener, Component::Listener(PhantomListener::default()), subs)
        .unwrap();
    let mut m = Model { quit: false, redraw: false, app };

    let msgs = m.app.tick(&vec![letter('x')]);
    assert_eq!(msgs, vec![Msg::NoOp]);

    m.tick(Some(vec![letter('x')]));
    assert!(m.redraw);
    assert!(!m.quit);

    m.rendered();
    assert!(!m.redraw);
}

#[test]
fn failed_poll_is_absorbed_silently() {
    let mut m = Model::new();
    m.rendered();
    m.tick(None);
    assert!(!m.quit);
    assert!(!m.redraw);
}

#[test]
fn first_redraw_renders_hello_world_left_aligned() {
    let m = Model::new();
    assert!(m.redraw);
    let area = Rect { x: 0, y: 0, width: 80, height: 24 };
    let plan = m.view(area).expect("label renders on the first redraw");
    assert_eq!(plan.text, "Hello World!");
    assert_eq!(plan.alignment, Alignment::Left);
    assert_eq!(plan.area, Rect { x: 1, y: 1, width: 78, height: 1 });
    assert_eq!(plan.foreground, Color::Reset);
    assert_eq!(plan.background, Color::Reset);
    assert_eq!(plan.modifiers, TextModifiers::empty());
}

#[test]
fn escape_quits_within_one_iteration() {
    let mut m = Model::new();
    assert!(!m.quit);
    m.tick(Some(vec![escape()]));
    assert!(m.quit);
    assert!(m.redraw);
}

#[test]
fn error_initialized_quits_like_escape() {
    let mut m = Model::new();
    m.tick(Some(vec![Event::User(AppEvent::ErrorInitialized)]));
    assert!(m.quit);
    assert!(m.redraw);
}

#[test]
fn unsubscribed_key_produces_no_message_and_keeps_polling() {
    let mut m = Model::new();
    m.rendered();
    let msgs = m.app.tick(&vec![letter('a')]);
    assert_eq!(msgs, Vec::<Msg>::new());
    m.tick(Some(vec![letter('a')]));
    assert!(!m.quit);
    assert!(!m.redraw);
}

#[test]
fn escape_with_modifier_is_not_delivered() {
    let mut m = Model::new();
    let held = Event::Keyboard(KeyEvent { code: Key::Esc, modifiers: KeyModifiers { bits: 4 } });
    m.tick(Some(vec![held]));
    assert!(!m.quit);
}

#[test]
fn tick_collects_messages_in_poll_order() {
    let m = Model::new();
    let msgs = m.app.tick(&vec![Event::User(AppEvent::ErrorInitialized), escape(), letter('q')]);
    assert_eq!(msgs, vec![Msg::AppClose, Msg::AppClose]);
}

#[test]
fn view_of_unmounted_identifier_is_a_silent_noop() {
    let app = Application::new();
    let area = Rect { x: 0, y: 0, width: 10, height: 3 };
    assert!(app.view(Id::Label, area).is_none());
}

#[test]
fn view_of_phantom_listener_renders_nothing() {
    let m = Model::new();
    let area = Rect { x: 0, y: 0, width: 10, height: 3 };
    assert!(m.app.view(Id::PhantomListener, area).is_none());
}

#[test]
fn fold_processes_each_message_of_the_batch() {
    let mut m = Model::new();
    m.rendered();
    m.apply_messages(&vec![Msg::NoOp, Msg::NoOp]);
    assert!(!m.quit);
    assert!(m.redraw);
    m.apply_messages(&vec![Msg::NoOp, Msg::AppClose, Msg::NoOp]);
    assert!(m.quit);
}

#[test]
fn empty_batch_changes_nothing() {
    let mut m = Model::new();
    m.rendered();
    m.apply_messages(&Vec::new());
    assert!(!m.quit);
    assert!(!m.redraw);
}
