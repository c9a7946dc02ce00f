use vstd::prelude::*;

use crate::component::Alignment;
use crate::component::Color;
use crate::component::Component;
use crate::component::HelloWorld;
use crate::component::PhantomListener;
use crate::component::RenderPlan;
use crate::component::render_spec;
use crate::event::Event;
use crate::event::Key;
use crate::event::KeyEvent;
use crate::event::KeyModifiers;
use crate::event::SubGuard;
use crate::event::Subscription;
use crate::layout::rect_wf;
use crate::layout::single_row_region;
use crate::layout::single_row_region_spec;
use crate::layout::Rect;
use crate::component::close_event;
use crate::event::sub_matches;
use crate::registry::collected;
use crate::registry::lookup;
use crate::registry::msgs_for_event;
use crate::registry::subscribed;
use crate::registry::Application;
use crate::registry::MountedComponent;
use crate::AppEvent;
use crate::Id;
use crate::Msg;

verus! {

/// The quit flag after one update step processes one message.
pub open spec fn update_quit(q: bool, msg: Msg) -> bool {
    q || msg == Msg::AppClose
}

/// The quit flag after a batch of messages is folded in order, one message
/// fully resolved before the next.
pub open spec fn quit_after(q: bool, msgs: Seq<Msg>) -> bool
    decreases msgs.len(),
{
    if msgs.len() == 0 {
        q
    } else {
        update_quit(quit_after(q, msgs.drop_last()), msgs.last())
    }
}

/// Folding a batch sets the quit flag exactly when it was already set or
/// the batch holds the close message.
pub proof fn lemma_quit_after_contains(q: bool, msgs: Seq<Msg>)
    ensures
        quit_after(q, msgs) == (q || msgs.contains(Msg::AppClose)),
    decreases msgs.len(),
{
    if msgs.len() == 0 {
        assert(!msgs.contains(Msg::AppClose));
    } else {
        lemma_quit_after_contains(q, msgs.drop_last());
        if msgs.drop_last().contains(Msg::AppClose) {
            let i = choose|i: int|
                0 <= i < msgs.drop_last().len() && msgs.drop_last()[i] == Msg::AppClose;
            assert(msgs[i] == Msg::AppClose);
        }
        if msgs.contains(Msg::AppClose) && msgs.last() != Msg::AppClose {
            let i = choose|i: int| 0 <= i < msgs.len() && msgs[i] == Msg::AppClose;
            assert(msgs.drop_last()[i] == Msg::AppClose);
        }
    }
}

/// Idempotence of the no-op: folding any number of no-op messages, in any
/// sequence, never sets the quit flag (and never clears it either).
pub proof fn lemma_noop_fold_preserves_quit(q: bool, msgs: Seq<Msg>)
    requires
        forall|i: int| 0 <= i < msgs.len() ==> msgs[i] == Msg::NoOp,
    ensures
        quit_after(q, msgs) == q,
    decreases msgs.len(),
{
    if msgs.len() > 0 {
        lemma_noop_fold_preserves_quit(q, msgs.drop_last());
    }
}

/// Monotonicity of quit: once the quit flag is set, no batch of updates,
/// whatever messages it holds, unsets it.
pub proof fn lemma_quit_monotone(msgs: Seq<Msg>)
    ensures
        quit_after(true, msgs),
    decreases msgs.len(),
{
    if msgs.len() > 0 {
        lemma_quit_monotone(msgs.drop_last());
    }
}

/// The per-run context of the update loop: the quit and redraw flags and
/// the component registry, owned by the one driving object.
#[derive(Debug)]
pub struct Model {
    /// Set permanently once a close message is processed.
    pub quit: bool,
    /// Set whenever a message is processed; cleared by a render pass.
    pub redraw: bool,
    /// The component registry.
    pub app: Application,
}

impl Model {
    /// The state a freshly built model is in: quit clear, a first redraw
    /// pending, and exactly the label (text "Hello World!", left-aligned,
    /// no subscriptions) and the phantom listener (subscribed to "Escape,
    /// no modifiers" and to the error-initialized signal) mounted.
    pub open spec fn initial(&self) -> bool {
        &&& self.quit == false
        &&& self.redraw == true
        &&& self.app.wf()
        &&& self.app.mounted@.len() == 2
        &&& self.app.mounted@[0].id == Id::Label
        &&& self.app.mounted@[0].subs@.len() == 0
        &&& (self.app.mounted@[0].component matches Component::Label(h) && {
            &&& h.props.visible == true
            &&& h.props.text@ == "Hello World!"@
            &&& h.props.alignment == Alignment::Left
            &&& h.props.foreground == Color::Reset
            &&& h.props.background == Color::Reset
            &&& h.props.modifiers.bits == 0
        })
        &&& self.app.mounted@[1].id == Id::PhantomListener
        &&& self.app.mounted@[1].component is Listener
        &&& self.app.mounted@[1].subs@ =~= seq![
            Subscription {
                pattern: Event::Keyboard(
                    KeyEvent { code: Key::Esc, modifiers: KeyModifiers { bits: 0 } },
                ),
                guard: SubGuard::Always,
            },
            Subscription { pattern: Event::User(AppEvent::ErrorInitialized), guard: SubGuard::Always },
        ]
    }

    /// Builds the run context: mounts the label and the phantom listener.
    /// Both mounts succeed, since the two identifiers differ on an empty
    /// registry.
    pub fn new() -> (r: Self)
        ensures
            r.initial(),
    {
        let mut app = Application::new();
        let label = HelloWorld::default().text("Hello World!").alignment(Alignment::Left);
        let mounted_label = app.mount(Id::Label, Component::Label(label), Vec::new());
        assert(mounted_label is Ok);
        let mut subs: Vec<Subscription> = Vec::new();
        subs.push(
            Subscription::new(
                Event::Keyboard(KeyEvent { code: Key::Esc, modifiers: KeyModifiers::none() }),
                SubGuard::Always,
            ),
        );
        subs.push(Subscription::new(Event::User(AppEvent::ErrorInitialized), SubGuard::Always));
        let mounted_listener = app.mount(
            Id::PhantomListener,
            Component::Listener(PhantomListener::default()),
            subs,
        );
        assert(mounted_listener is Ok);
        Model { quit: false, redraw: true, app }
    }

    /// One update step. Processing any message — `None` stands in for the
    /// no-op — marks the screen dirty; the close message sets the quit
    /// flag, and a set quit flag is never unset. The result is the message
    /// to fold next; in this system no message produces a follow-up.
    pub fn update(&mut self, msg: Option<Msg>) -> (r: Option<Msg>)
        ensures
            final(self).quit == (old(self).quit || msg == Some(Msg::AppClose)),
            old(self).quit ==> final(self).quit,
            final(self).redraw == true,
            final(self).app == old(self).app,
            r is None,
    {
        self.redraw = true;
        match msg {
            Some(Msg::AppClose) => {
                self.quit = true;
                None
            },
            _ => None,
        }
    }

    /// The fold of one tick's batch: each collected message is fully
    /// resolved — `update` applied to it and then to every follow-up it
    /// yields — strictly before the next message of the batch. The quit
    /// flag ends set exactly when it was set before or the batch holds the
    /// close message; any non-empty batch leaves a redraw pending.
    pub fn apply_messages(&mut self, msgs: &Vec<Msg>)
        ensures
            final(self).quit == quit_after(old(self).quit, msgs@),
            final(self).quit == (old(self).quit || msgs@.contains(Msg::AppClose)),
            old(self).quit ==> final(self).quit,
            final(self).redraw == (old(self).redraw || msgs@.len() > 0),
            final(self).app == old(self).app,
    {
        let ghost q0 = self.quit;
        let ghost r0 = self.redraw;
        let ghost app0 = self.app;
        let mut i: usize = 0;
        while i < msgs.len()
            invariant
                i <= msgs@.len(),
                self.quit == quit_after(q0, msgs@.take(i as int)),
                self.redraw == (r0 || i > 0),
                self.app == app0,
            decreases msgs@.len() - i,
        {
            let mut cur: Option<Msg> = Some(msgs[i]);
            while cur.is_some()
                invariant
                    i < msgs@.len(),
                    (cur matches Some(m) ==> m == msgs@[i as int] && self.quit == quit_after(
                        q0,
                        msgs@.take(i as int),
                    )),
                    cur is None ==> self.quit == quit_after(q0, msgs@.take(i as int + 1))
                        && self.redraw == true,
                    self.app == app0,
                decreases (if cur is Some { 1int } else { 0int }),
            {
                cur = self.update(cur);
                proof {
                    assert(msgs@.take(i as int + 1).drop_last() =~= msgs@.take(i as int));
                    assert(msgs@.take(i as int + 1).last() == msgs@[i as int]);
                }
            }
            i += 1;
        }
        proof {
            assert(msgs@.take(msgs@.len() as int) =~= msgs@);
            lemma_quit_after_contains(q0, msgs@);
        }
    }

    /// The message-handling half of one loop iteration. A successful poll
    /// hands over its batch of raw events: the registry delivers them and
    /// the collected messages are folded. A failed poll (`None`) is
    /// absorbed silently: this iteration processes no messages and the
    /// model is left exactly as it was.
    pub fn tick(&mut self, polled: Option<Vec<Event>>)
        ensures
            final(self).app == old(self).app,
            old(self).quit ==> final(self).quit,
            (polled matches Some(events) ==> {
                &&& final(self).quit == (old(self).quit || collected(
                    old(self).app.mounted@,
                    events@,
                ).contains(Msg::AppClose))
                &&& final(self).redraw == (old(self).redraw || collected(
                    old(self).app.mounted@,
                    events@,
                ).len() > 0)
            }),
            polled is None ==> *final(self) == *old(self),
    {
        match polled {
            Some(events) => {
                let msgs = self.app.tick(&events);
                self.apply_messages(&msgs);
            },
            None => {},
        }
    }

    /// The render pass of a redraw: the label, and only the label, drawn
    /// into the single one-row region (margin 1) of the given screen area.
    pub fn view(&self, area: Rect) -> (r: Option<RenderPlan>)
        requires
            rect_wf(area),
        ensures
            r == (match lookup(self.app.mounted@, Id::Label) {
                Some(c) => render_spec(c, single_row_region_spec(area)),
                None => Option::<RenderPlan>::None,
            }),
    {
        let region = single_row_region(area);
        self.app.view(Id::Label, region)
    }

    /// Ends a render pass: the redraw-pending flag is cleared and nothing
    /// else changes.
    pub fn rendered(&mut self)
        ensures
            final(self).redraw == false,
            final(self).quit == old(self).quit,
            final(self).app == old(self).app,
    {
        self.redraw = false;
    }
}

/// In the freshly mounted registry one event contributes exactly one close
/// message when it is a close event, and no message at all otherwise: the
/// label subscribes to nothing, and the phantom listener's two clauses are
/// exactly the two close events.
proof fn lemma_initial_event_messages(m: Model, ev: Event)
    requires
        m.initial(),
    ensures
        close_event(ev) ==> msgs_for_event(m.app.mounted@, ev) =~= seq![Msg::AppClose],
        !close_event(ev) ==> msgs_for_event(m.app.mounted@, ev) =~= Seq::<Msg>::empty(),
{
    reveal_with_fuel(msgs_for_event, 4);
    let reg = m.app.mounted@;
    let label = reg[0];
    let listener = reg[1];
    assert(reg.drop_last() =~= seq![label]);
    assert(seq![label].drop_last() =~= Seq::<MountedComponent>::empty());
    assert(!subscribed(label, ev));
    if close_event(ev) {
        match ev {
            Event::Keyboard(k) => {
                assert(k == (KeyEvent { code: Key::Esc, modifiers: KeyModifiers { bits: 0 } }));
                assert(sub_matches(listener.subs@[0], ev));
            },
            Event::User(_) => {
                assert(sub_matches(listener.subs@[1], ev));
            },
        }
        assert(subscribed(listener, ev));
    } else {
        assert forall|i: int| 0 <= i < listener.subs@.len() implies !sub_matches(
            listener.subs@[i],
            ev,
        ) by {
            if listener.subs@[i].pattern == ev {
                assert(close_event(ev));
            }
        }
        assert(!subscribed(listener, ev));
    }
}

/// For every sequence of raw events one tick delivers to the freshly
/// mounted application, the collected messages hold the close message
/// exactly when some event of the sequence is a close event: "Escape, no
/// modifiers" or the error-initialized signal, and nothing else closes.
pub proof fn lemma_initial_close_iff(m: Model, events: Seq<Event>)
    requires
        m.initial(),
    ensures
        collected(m.app.mounted@, events).contains(Msg::AppClose) <==> (exists|i: int|
            0 <= i < events.len() && close_event(events[i])),
    decreases events.len(),
{
    let reg = m.app.mounted@;
    if events.len() == 0 {
        assert(!collected(reg, events).contains(Msg::AppClose));
    } else {
        lemma_initial_close_iff(m, events.drop_last());
        lemma_initial_event_messages(m, events.last());
        let head = collected(reg, events.drop_last());
        let tail = msgs_for_event(reg, events.last());
        assert(collected(reg, events) == head + tail);
        if exists|i: int| 0 <= i < events.len() && close_event(events[i]) {
            let w = choose|i: int| 0 <= i < events.len() && close_event(events[i]);
            if w < events.len() - 1 {
                assert(events.drop_last()[w] == events[w]);
                assert(close_event(events.drop_last()[w]));
                assert(head.contains(Msg::AppClose));
                let h = choose|i: int| 0 <= i < head.len() && head[i] == Msg::AppClose;
                assert((head + tail)[h] == Msg::AppClose);
            } else {
                assert((head + tail)[head.len() as int] == Msg::AppClose);
            }
            assert(collected(reg, events).contains(Msg::AppClose));
        }
        if collected(reg, events).contains(Msg::AppClose) {
            let w = choose|i: int|
                0 <= i < (head + tail).len() && (head + tail)[i] == Msg::AppClose;
            if w < head.len() {
                assert(head[w] == Msg::AppClose);
                let h = choose|i: int| 0 <= i < events.drop_last().len() && close_event(
                    events.drop_last()[i],
                );
                assert(events.drop_last()[h] == events[h]);
                assert(close_event(events[h]));
            } else {
                assert(tail[w - head.len()] == Msg::AppClose);
                assert(close_event(events.last()));
                assert(close_event(events[events.len() - 1]));
            }
        }
    }
}

} // verus!
