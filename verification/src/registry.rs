use vstd::prelude::*;

use crate::component::on_spec;
use crate::component::render_spec;
use crate::component::Component;
use crate::component::RenderPlan;
use crate::event::sub_matches;
use crate::event::Event;
use crate::event::Subscription;
use crate::layout::Rect;
use crate::Id;
use crate::Msg;

verus! {

/// The error of a failed mount.
#[derive(Clone, Copy, Debug, PartialEq, Eq, Structural)]
pub enum AppError {
    DuplicateIdentifier,
}

/// One entry of the component registry: a component instance stored under
/// its identifier, with the subscription clauses fixed at mount time.
#[derive(Debug)]
pub struct MountedComponent {
    pub id: Id,
    pub component: Component,
    pub subs: Vec<Subscription>,
}

/// Whether a mounted component receives the event: at least one of its
/// subscription clauses matches. The registry filters on this before it
/// invokes the component at all.
pub open spec fn subscribed(m: MountedComponent, ev: Event) -> bool {
    exists|i: int| 0 <= i < m.subs@.len() && sub_matches(m.subs@[i], ev)
}

/// The message one registry entry contributes for one event: the
/// component's answer when the entry is subscribed, nothing otherwise.
pub open spec fn msg_of(m: MountedComponent, ev: Event) -> Option<Msg> {
    if subscribed(m, ev) {
        on_spec(m.component, ev)
    } else {
        None
    }
}

/// The messages one event collects across the registry, in mount order.
pub open spec fn msgs_for_event(reg: Seq<MountedComponent>, ev: Event) -> Seq<Msg>
    decreases reg.len(),
{
    if reg.len() == 0 {
        Seq::empty()
    } else {
        msgs_for_event(reg.drop_last(), ev) + (match msg_of(reg.last(), ev) {
            Some(msg) => seq![msg],
            None => Seq::empty(),
        })
    }
}

/// The ordered message sequence one tick collects: the messages of each
/// polled event in poll order, each event delivered across the registry in
/// mount order.
pub open spec fn collected(reg: Seq<MountedComponent>, events: Seq<Event>) -> Seq<Msg>
    decreases events.len(),
{
    if events.len() == 0 {
        Seq::empty()
    } else {
        collected(reg, events.drop_last()) + msgs_for_event(reg, events.last())
    }
}

/// The component stored under an identifier: the first entry that carries
/// it, or `None` when the identifier is unmounted.
pub open spec fn lookup(reg: Seq<MountedComponent>, id: Id) -> Option<Component>
    decreases reg.len(),
{
    if reg.len() == 0 {
        None
    } else if reg[0].id == id {
        Some(reg[0].component)
    } else {
        lookup(reg.skip(1), id)
    }
}

proof fn lemma_lookup_at(reg: Seq<MountedComponent>, id: Id, i: int)
    requires
        0 <= i < reg.len(),
        reg[i].id == id,
        forall|k: int| 0 <= k < i ==> reg[k].id != id,
    ensures
        lookup(reg, id) == Some(reg[i].component),
    decreases i,
{
    if i > 0 {
        assert(forall|k: int| 0 <= k < i - 1 ==> reg.skip(1)[k] == reg[k + 1]);
        lemma_lookup_at(reg.skip(1), id, i - 1);
    }
}

proof fn lemma_lookup_none(reg: Seq<MountedComponent>, id: Id)
    requires
        forall|k: int| 0 <= k < reg.len() ==> reg[k].id != id,
    ensures
        lookup(reg, id) is None,
    decreases reg.len(),
{
    if reg.len() > 0 {
        assert(forall|k: int| 0 <= k < reg.len() - 1 ==> reg.skip(1)[k] == reg[k + 1]);
        lemma_lookup_none(reg.skip(1), id);
    }
}

/// Decides whether a registry entry is subscribed to the event.
fn receives(m: &MountedComponent, ev: &Event) -> (b: bool)
    ensures
        b == subscribed(*m, *ev),
{
    let mut s: usize = 0;
    while s < m.subs.len()
        invariant
            s <= m.subs@.len(),
            forall|k: int| 0 <= k < s ==> !sub_matches(m.subs@[k], *ev),
        decreases m.subs@.len() - s,
    {
        if m.subs[s].matches(ev) {
            return true;
        }
        s += 1;
    }
    false
}

/// The component registry: a mapping from identifier to component instance
/// and its active subscriptions, polled in mount order.
#[derive(Debug)]
pub struct Application {
    pub mounted: Vec<MountedComponent>,
}

impl Application {
    /// Identifiers are unique across the registry.
    pub open spec fn wf(&self) -> bool {
        forall|i: int, j: int|
            0 <= i < j < self.mounted@.len() ==> self.mounted@[i].id != self.mounted@[j].id
    }

    pub open spec fn is_mounted(&self, id: Id) -> bool {
        exists|i: int| 0 <= i < self.mounted@.len() && self.mounted@[i].id == id
    }

    /// An empty registry.
    pub fn new() -> (r: Self)
        ensures
            r.mounted@.len() == 0,
            r.wf(),
    {
        Application { mounted: Vec::new() }
    }

    /// The position of the entry mounted under `id`, if there is one.
    fn find(&self, id: Id) -> (r: Option<usize>)
        ensures
            (match r {
                Some(i) => 0 <= i < self.mounted@.len() && self.mounted@[i as int].id == id
                    && (forall|k: int| 0 <= k < i ==> self.mounted@[k].id != id),
                None => forall|k: int| 0 <= k < self.mounted@.len() ==> self.mounted@[k].id != id,
            }),
    {
        let mut i: usize = 0;
        while i < self.mounted.len()
            invariant
                i <= self.mounted@.len(),
                forall|k: int| 0 <= k < i ==> self.mounted@[k].id != id,
            decreases self.mounted@.len() - i,
        {
            if self.mounted[i].id == id {
                return Some(i);
            }
            i += 1;
        }
        None
    }

    /// Mounts a component under an identifier with its fixed subscription
    /// list. An already-used identifier is refused, and the refusal leaves
    /// every mounted component unchanged; otherwise the new entry is
    /// appended and no other entry is touched.
    pub fn mount(&mut self, id: Id, component: Component, subs: Vec<Subscription>) -> (r: Result<
        (),
        AppError,
    >)
        ensures
            r is Err <==> old(self).is_mounted(id),
            old(self).is_mounted(id) ==> r == Err::<(), AppError>(AppError::DuplicateIdentifier)
                && final(self).mounted@ == old(self).mounted@,
            !old(self).is_mounted(id) ==> r == Ok::<(), AppError>(()) && final(self).mounted@
                == old(self).mounted@.push(MountedComponent { id, component, subs }),
            old(self).wf() ==> final(self).wf(),
    {
        match self.find(id) {
            Some(_) => Err(AppError::DuplicateIdentifier),
            None => {
                self.mounted.push(MountedComponent { id, component, subs });
                Ok(())
            },
        }
    }

    /// One tick's delivery: every polled event, in order, is delivered to
    /// every mounted component whose subscription clauses match, and every
    /// message returned is collected in that order.
    pub fn tick(&self, events: &Vec<Event>) -> (msgs: Vec<Msg>)
        ensures
            msgs@ == collected(self.mounted@, events@),
    {
        let mut msgs: Vec<Msg> = Vec::new();
        let mut e: usize = 0;
        while e < events.len()
            invariant
                e <= events@.len(),
                msgs@ == collected(self.mounted@, events@.take(e as int)),
            decreases events@.len() - e,
        {
            let ev = events[e];
            let mut c: usize = 0;
            while c < self.mounted.len()
                invariant
                    c <= self.mounted@.len(),
                    e < events@.len(),
                    ev == events@[e as int],
                    msgs@ == collected(self.mounted@, events@.take(e as int)) + msgs_for_event(
                        self.mounted@.take(c as int),
                        ev,
                    ),
                decreases self.mounted@.len() - c,
            {
                let m = &self.mounted[c];
                if receives(m, &ev) {
                    match m.component.on(&ev) {
                        Some(msg) => {
                            msgs.push(msg);
                        },
                        None => {},
                    }
                }
                proof {
                    let reg = self.mounted@;
                    assert(reg.take(c as int + 1).drop_last() =~= reg.take(c as int));
                    assert(reg.take(c as int + 1).last() == reg[c as int]);
                    assert(msgs@ =~= collected(reg, events@.take(e as int)) + msgs_for_event(
                        reg.take(c as int + 1),
                        ev,
                    ));
                }
                c += 1;
            }
            proof {
                assert(self.mounted@.take(self.mounted@.len() as int) =~= self.mounted@);
                assert(events@.take(e as int + 1).drop_last() =~= events@.take(e as int));
                assert(events@.take(e as int + 1).last() == events@[e as int]);
            }
            e += 1;
        }
        proof {
            assert(events@.take(events@.len() as int) =~= events@);
        }
        msgs
    }

    /// Renders the component mounted under `id` into the given region. An
    /// unmounted identifier is a silent no-op: nothing is rendered.
    pub fn view(&self, id: Id, area: Rect) -> (r: Option<RenderPlan>)
        ensures
            r == (match lookup(self.mounted@, id) {
                Some(c) => render_spec(c, area),
                None => Option::<RenderPlan>::None,
            }),
    {
        match self.find(id) {
            Some(i) => {
                proof {
                    lemma_lookup_at(self.mounted@, id, i as int);
                }
                self.mounted[i].component.view(area)
            },
            None => {
                proof {
                    lemma_lookup_none(self.mounted@, id);
                }
                None
            },
        }
    }
}

} // verus!
