use vstd::prelude::*;

use crate::event::Event;
use crate::event::Key;
use crate::layout::Rect;
use crate::AppEvent;
use crate::Msg;
use vstd::string::StringExecFns;

verus! {

/// Horizontal alignment of rendered text.
#[derive(Clone, Copy, Debug, PartialEq, Eq, Structural)]
pub enum Alignment {
    Left,
    Center,
    Right,
}

/// A terminal color. `Reset` stands for the terminal's own default.
#[derive(Clone, Copy, Debug, PartialEq, Eq, Structural)]
pub enum Color {
    Reset,
    Black,
    Red,
    Green,
    Yellow,
    Blue,
    Magenta,
    Cyan,
    White,
}

/// Style modifiers of rendered text, as a bit set; `bits == 0` means none.
#[derive(Clone, Copy, Debug, PartialEq, Eq, Structural)]
pub struct TextModifiers {
    pub bits: u16,
}

impl TextModifiers {
    /// No style modifier.
    pub fn empty() -> (r: Self)
        ensures
            r.bits == 0,
    {
        TextModifiers { bits: 0 }
    }
}

/// The name of one render attribute in a component's property bag.
#[derive(Clone, Copy, Debug, PartialEq, Eq, Structural)]
pub enum Attribute {
    Display,
    Text,
    TextAlign,
    Foreground,
    Background,
    TextProps,
}

/// The value of one render attribute.
#[derive(Debug, PartialEq)]
pub enum AttrValue {
    Flag(bool),
    Text(String),
    Align(Alignment),
    Col(Color),
    Mods(TextModifiers),
}

/// A component's property bag: every render attribute with its default.
#[derive(Debug)]
pub struct Props {
    /// Whether the component is drawn at all; defaults to true.
    pub visible: bool,
    /// The text to display; defaults to empty.
    pub text: String,
    /// Horizontal alignment of the text; defaults to left.
    pub alignment: Alignment,
    /// Foreground color; defaults to the terminal's own.
    pub foreground: Color,
    /// Background color; defaults to the terminal's own.
    pub background: Color,
    /// Style modifiers; default to none.
    pub modifiers: TextModifiers,
}

/// The property bag after writing one attribute. A value whose kind does not
/// fit the named attribute leaves the bag unchanged.
pub open spec fn with_attr(p: Props, attr: Attribute, value: AttrValue) -> Props {
    match (attr, value) {
        (Attribute::Display, AttrValue::Flag(b)) => Props { visible: b, ..p },
        (Attribute::Text, AttrValue::Text(s)) => Props { text: s, ..p },
        (Attribute::TextAlign, AttrValue::Align(a)) => Props { alignment: a, ..p },
        (Attribute::Foreground, AttrValue::Col(c)) => Props { foreground: c, ..p },
        (Attribute::Background, AttrValue::Col(c)) => Props { background: c, ..p },
        (Attribute::TextProps, AttrValue::Mods(m)) => Props { modifiers: m, ..p },
        _ => p,
    }
}

/// The current value of one attribute of a property bag.
pub open spec fn attr_of(p: Props, attr: Attribute) -> AttrValue {
    match attr {
        Attribute::Display => AttrValue::Flag(p.visible),
        Attribute::Text => AttrValue::Text(p.text),
        Attribute::TextAlign => AttrValue::Align(p.alignment),
        Attribute::Foreground => AttrValue::Col(p.foreground),
        Attribute::Background => AttrValue::Col(p.background),
        Attribute::TextProps => AttrValue::Mods(p.modifiers),
    }
}

pub open spec fn default_props(p: Props) -> bool {
    &&& p.visible == true
    &&& p.text@ == Seq::<char>::empty()
    &&& p.alignment == Alignment::Left
    &&& p.foreground == Color::Reset
    &&& p.background == Color::Reset
    &&& p.modifiers.bits == 0
}

impl Default for Props {
    /// Every attribute at its default.
    fn default() -> (r: Self)
        ensures
            default_props(r),
    {
        Props {
            visible: true,
            text: String::new(),
            alignment: Alignment::Left,
            foreground: Color::Reset,
            background: Color::Reset,
            modifiers: TextModifiers { bits: 0 },
        }
    }
}

/// A component's reported state. Neither component of this application
/// carries interactive state, so the only value is `Empty`.
#[derive(Clone, Copy, Debug, PartialEq, Eq, Structural)]
pub enum State {
    Empty,
}

/// An interactive command addressed to a component. Neither component of
/// this application accepts one, so the only value is the no-op command.
#[derive(Clone, Copy, Debug, PartialEq, Eq, Structural)]
pub enum Cmd {
    NoOp,
}

/// The result of performing a command.
#[derive(Clone, Copy, Debug, PartialEq, Eq, Structural)]
pub enum CmdResult {
    NoResult,
}

/// What one render pass would put on the screen: the region drawn into and
/// the styled text drawn there.
#[derive(Debug, PartialEq)]
pub struct RenderPlan {
    pub area: Rect,
    pub text: String,
    pub alignment: Alignment,
    pub foreground: Color,
    pub background: Color,
    pub modifiers: TextModifiers,
}

/// The render plan of a label with the given property bag, or `None` when
/// the label is not visible.
pub open spec fn label_plan(p: Props, area: Rect) -> Option<RenderPlan> {
    if p.visible {
        Some(
            RenderPlan {
                area,
                text: p.text,
                alignment: p.alignment,
                foreground: p.foreground,
                background: p.background,
                modifiers: p.modifiers,
            },
        )
    } else {
        None
    }
}

/// The static text label: a render-only component. It never produces a
/// message and never changes application state.
#[derive(Debug)]
pub struct HelloWorld {
    pub props: Props,
}

impl Default for HelloWorld {
    fn default() -> (r: Self)
        ensures
            default_props(r.props),
    {
        HelloWorld { props: Props::default() }
    }
}

impl HelloWorld {
    /// Sets the display text; every other attribute is kept.
    pub fn text(self, s: &str) -> (r: Self)
        ensures
            r.props == with_attr(self.props, Attribute::Text, AttrValue::Text(r.props.text)),
            r.props.text@ == s@,
    {
        let mut this = self;
        this.attr(Attribute::Text, AttrValue::Text(String::from_str(s)));
        this
    }

    /// Sets the text alignment; every other attribute is kept.
    pub fn alignment(self, a: Alignment) -> (r: Self)
        ensures
            r.props == with_attr(self.props, Attribute::TextAlign, AttrValue::Align(a)),
    {
        let mut this = self;
        this.attr(Attribute::TextAlign, AttrValue::Align(a));
        this
    }

    /// Sets the foreground color; every other attribute is kept.
    pub fn foreground(self, c: Color) -> (r: Self)
        ensures
            r.props == with_attr(self.props, Attribute::Foreground, AttrValue::Col(c)),
    {
        let mut this = self;
        this.attr(Attribute::Foreground, AttrValue::Col(c));
        this
    }

    /// Sets the background color; every other attribute is kept.
    pub fn background(self, c: Color) -> (r: Self)
        ensures
            r.props == with_attr(self.props, Attribute::Background, AttrValue::Col(c)),
    {
        let mut this = self;
        this.attr(Attribute::Background, AttrValue::Col(c));
        this
    }

    /// Sets the style modifiers; every other attribute is kept.
    pub fn modifiers(self, m: TextModifiers) -> (r: Self)
        ensures
            r.props == with_attr(self.props, Attribute::TextProps, AttrValue::Mods(m)),
    {
        let mut this = self;
        this.attr(Attribute::TextProps, AttrValue::Mods(m));
        this
    }

    /// Writes exactly one attribute of the property bag; a value of the
    /// wrong kind for the attribute is ignored.
    pub fn attr(&mut self, attr: Attribute, value: AttrValue)
        ensures
            final(self).props == with_attr(old(self).props, attr, value),
    {
        match (attr, value) {
            (Attribute::Display, AttrValue::Flag(b)) => {
                self.props.visible = b;
            },
            (Attribute::Text, AttrValue::Text(s)) => {
                self.props.text = s;
            },
            (Attribute::TextAlign, AttrValue::Align(a)) => {
                self.props.alignment = a;
            },
            (Attribute::Foreground, AttrValue::Col(c)) => {
                self.props.foreground = c;
            },
            (Attribute::Background, AttrValue::Col(c)) => {
                self.props.background = c;
            },
            (Attribute::TextProps, AttrValue::Mods(m)) => {
                self.props.modifiers = m;
            },
            _ => {},
        }
    }

    /// Reads the current value of one attribute.
    pub fn query(&self, attr: Attribute) -> (r: Option<AttrValue>)
        ensures
            r == Some(attr_of(self.props, attr)),
    {
        match attr {
            Attribute::Display => Some(AttrValue::Flag(self.props.visible)),
            Attribute::Text => Some(AttrValue::Text(self.props.text.clone())),
            Attribute::TextAlign => Some(AttrValue::Align(self.props.alignment)),
            Attribute::Foreground => Some(AttrValue::Col(self.props.foreground)),
            Attribute::Background => Some(AttrValue::Col(self.props.background)),
            Attribute::TextProps => Some(AttrValue::Mods(self.props.modifiers)),
        }
    }

    /// The render pass of the label: its styled text in the given region,
    /// or nothing when the label is not visible.
    pub fn view(&self, area: Rect) -> (r: Option<RenderPlan>)
        ensures
            r == label_plan(self.props, area),
    {
        if self.props.visible {
            Some(
                RenderPlan {
                    area,
                    text: self.props.text.clone(),
                    alignment: self.props.alignment,
                    foreground: self.props.foreground,
                    background: self.props.background,
                    modifiers: self.props.modifiers,
                },
            )
        } else {
            None
        }
    }

    /// The label never translates an event into a message.
    pub fn on(&self, ev: &Event) -> (r: Option<Msg>)
        ensures
            r is None,
    {
        let _ = ev;
        None
    }

    /// The label carries no interactive state.
    pub fn state(&self) -> (r: State)
        ensures
            r == State::Empty,
    {
        State::Empty
    }

    /// The label accepts no interactive command.
    pub fn perform(&mut self, cmd: Cmd) -> (r: CmdResult)
        ensures
            *final(self) == *old(self),
            r == CmdResult::NoResult,
    {
        let _ = cmd;
        CmdResult::NoResult
    }
}

/// Whether an event asks the application to close: the Escape key with no
/// modifier held, or the user-defined error-initialized signal.
pub open spec fn close_event(ev: Event) -> bool {
    match ev {
        Event::Keyboard(k) => k.code == Key::Esc && k.modifiers.bits == 0,
        Event::User(a) => a == AppEvent::ErrorInitialized,
    }
}

/// The message the phantom listener answers an event with.
pub open spec fn listener_response(ev: Event) -> Msg {
    if close_event(ev) {
        Msg::AppClose
    } else {
        Msg::NoOp
    }
}

/// The invisible event bridge: it renders nothing and exists solely to
/// translate subscribed raw events into application messages. This is the
/// only place raw input becomes application intent.
#[derive(Debug)]
pub struct PhantomListener {}

impl Default for PhantomListener {
    fn default() -> (r: Self)
        ensures
            r == (PhantomListener {  }),
    {
        PhantomListener {  }
    }
}

impl PhantomListener {
    /// Translates one delivered event into a message: the close message
    /// exactly for "Escape, no modifiers" and for the error-initialized
    /// signal, and the no-op message for every other event.
    pub fn on(&self, ev: &Event) -> (r: Option<Msg>)
        ensures
            r == Some(listener_response(*ev)),
            r == Some(Msg::AppClose) <==> close_event(*ev),
    {
        match *ev {
            Event::Keyboard(k) => {
                if k.code == Key::Esc && k.modifiers.bits == 0 {
                    Some(Msg::AppClose)
                } else {
                    Some(Msg::NoOp)
                }
            },
            Event::User(AppEvent::ErrorInitialized) => Some(Msg::AppClose),
        }
    }

    /// The listener has no visual footprint.
    pub fn view(&self, area: Rect) -> (r: Option<RenderPlan>)
        ensures
            r is None,
    {
        let _ = area;
        None
    }

    /// The listener keeps no attributes.
    pub fn query(&self, attr: Attribute) -> (r: Option<AttrValue>)
        ensures
            r is None,
    {
        let _ = attr;
        None
    }

    /// The listener keeps no attributes, so writing one changes nothing.
    pub fn attr(&mut self, attr: Attribute, value: AttrValue)
        ensures
            *final(self) == *old(self),
    {
        let _ = attr;
        let _ = value;
    }

    /// The listener carries no interactive state.
    pub fn state(&self) -> (r: State)
        ensures
            r == State::Empty,
    {
        State::Empty
    }

    /// The listener accepts no interactive command.
    pub fn perform(&mut self, cmd: Cmd) -> (r: CmdResult)
        ensures
            *final(self) == *old(self),
            r == CmdResult::NoResult,
    {
        let _ = cmd;
        CmdResult::NoResult
    }
}

/// One mounted component instance: the closed set of component kinds of this
/// application, dispatched as a tagged union.
#[derive(Debug)]
pub enum Component {
    Label(HelloWorld),
    Listener(PhantomListener),
}

/// The message a component answers a delivered event with: the label never
/// answers, the phantom listener answers as `listener_response` says.
pub open spec fn on_spec(c: Component, ev: Event) -> Option<Msg> {
    match c {
        Component::Label(_) => None,
        Component::Listener(_) => Some(listener_response(ev)),
    }
}

/// What a component's render pass puts into the given region.
pub open spec fn render_spec(c: Component, area: Rect) -> Option<RenderPlan> {
    match c {
        Component::Label(h) => label_plan(h.props, area),
        Component::Listener(_) => None,
    }
}

impl Component {
    /// Delivers one event, yielding the component's message, if any.
    pub fn on(&self, ev: &Event) -> (r: Option<Msg>)
        ensures
            r == on_spec(*self, *ev),
    {
        match self {
            Component::Label(h) => h.on(ev),
            Component::Listener(p) => p.on(ev),
        }
    }

    /// Renders the component into the given region.
    pub fn view(&self, area: Rect) -> (r: Option<RenderPlan>)
        ensures
            r == render_spec(*self, area),
    {
        match self {
            Component::Label(h) => h.view(area),
            Component::Listener(p) => p.view(area),
        }
    }

    /// Reads one attribute of the component's property bag, if it keeps one.
    pub fn query(&self, attr: Attribute) -> (r: Option<AttrValue>)
        ensures
            (match self {
                Component::Label(h) => r == Some(attr_of(h.props, attr)),
                Component::Listener(_) => r is None,
            }),
    {
        match self {
            Component::Label(h) => h.query(attr),
            Component::Listener(p) => p.query(attr),
        }
    }

    /// Writes one attribute of the component's property bag, if it keeps one.
    pub fn attr(&mut self, attr: Attribute, value: AttrValue)
        ensures
            (*old(self) matches Component::Label(h) ==> *final(self) == Component::Label(
                HelloWorld { props: with_attr(h.props, attr, value) },
            )),
            *old(self) is Listener ==> *final(self) == *old(self),
    {
        match self {
            Component::Label(h) => h.attr(attr, value),
            Component::Listener(p) => p.attr(attr, value),
        }
    }

    /// Reports the component's interactive state.
    pub fn state(&self) -> (r: State)
        ensures
            r == State::Empty,
    {
        match self {
            Component::Label(h) => h.state(),
            Component::Listener(p) => p.state(),
        }
    }

    /// Performs an interactive command on the component.
    pub fn perform(&mut self, cmd: Cmd) -> (r: CmdResult)
        ensures
            *final(self) == *old(self),
            r == CmdResult::NoResult,
    {
        match self {
            Component::Label(h) => h.perform(cmd),
            Component::Listener(p) => p.perform(cmd),
        }
    }
}

} // verus!
