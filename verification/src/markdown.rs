//! The transformation of a note's markdown into display lines.

use vstd::prelude::*;
use vstd::string::StringExecFns;
use pulldown_cmark::{Event, Options, Parser, Tag, TagEnd};

verus! {

/// How a display line is drawn.
#[derive(Clone, Copy, Debug, PartialEq, Eq, Structural)]
pub enum LineStyle {
    Plain,
    Heading,
    ListItem,
}

/// One line of a rendered note.
#[derive(Clone, Debug)]
pub struct DisplayLine {
    pub text: String,
    pub style: LineStyle,
}

/// A display line as plain mathematical values.
pub ghost struct LineView {
    pub text: Seq<char>,
    pub style: LineStyle,
}

impl View for DisplayLine {
    type V = LineView;

    open spec fn view(&self) -> LineView {
        LineView { text: self.text@, style: self.style }
    }
}

/// The display lines of a list as plain mathematical values.
pub open spec fn display_view(lines: Seq<DisplayLine>) -> Seq<LineView> {
    Seq::new(lines.len(), |i: int| lines[i]@)
}

/// What the renderer reads of one event of the markdown stream.
#[derive(Clone, Debug)]
pub enum MdEvent {
    HeadingStart,
    HeadingEnd,
    ItemStart,
    Text(String),
    SoftBreak,
    HardBreak,
    TaskMarker(bool),
    Other,
}

/// An event as plain mathematical values.
pub ghost enum EventView {
    HeadingStart,
    HeadingEnd,
    ItemStart,
    Text(Seq<char>),
    SoftBreak,
    HardBreak,
    TaskMarker(bool),
    Other,
}

impl View for MdEvent {
    type V = EventView;

    open spec fn view(&self) -> EventView {
        match self {
            MdEvent::HeadingStart => EventView::HeadingStart,
            MdEvent::HeadingEnd => EventView::HeadingEnd,
            MdEvent::ItemStart => EventView::ItemStart,
            MdEvent::Text(t) => EventView::Text(t@),
            MdEvent::SoftBreak => EventView::SoftBreak,
            MdEvent::HardBreak => EventView::HardBreak,
            MdEvent::TaskMarker(checked) => EventView::TaskMarker(*checked),
            MdEvent::Other => EventView::Other,
        }
    }
}

/// The events of a list as plain mathematical values.
pub open spec fn events_view(events: Seq<MdEvent>) -> Seq<EventView> {
    Seq::new(events.len(), |i: int| events[i]@)
}

/// The event stream that the markdown parser produces for `input` with every
/// extension switched on.
pub uninterp spec fn md_events(input: Seq<char>) -> Seq<EventView>;

/// Runs `pulldown_cmark::Parser::new_ext` with `Options::all()` over `input`
/// and walks the parser to its end. Each event is kept in its place: the
/// start and end of a heading, the start of a list item, text, soft and hard
/// breaks and task list markers carry over with their payload, every other
/// event becomes `Other`. Nothing is proved of the parser; its stream is
/// taken to depend on the input alone and is named [`md_events`].
#[verifier::external_body]
fn markdown_events(input: &str) -> (events: Vec<MdEvent>)
    ensures
        events_view(events@) == md_events(input@),
{
    Parser::new_ext(input, Options::all()).map(|event| match event {
        Event::Start(Tag::Heading { .. }) => MdEvent::HeadingStart,
        Event::End(TagEnd::Heading(_)) => MdEvent::HeadingEnd,
        Event::Start(Tag::Item) => MdEvent::ItemStart,
        Event::Text(text) => MdEvent::Text(text.to_string()),
        Event::SoftBreak => MdEvent::SoftBreak,
        Event::HardBreak => MdEvent::HardBreak,
        Event::TaskListMarker(checked) => MdEvent::TaskMarker(checked),
        _ => MdEvent::Other,
    }).collect()
}

/// The text that begins a list item: a bullet and a space.
pub open spec fn bullet() -> Seq<char> {
    seq!['\u{2022}', ' ']
}

/// The text that stands for a task marker: `[x] ` when checked, `[ ] ` when not.
pub open spec fn task_text(checked: bool) -> Seq<char> {
    if checked {
        seq!['[', 'x', ']', ' ']
    } else {
        seq!['[', ' ', ']', ' ']
    }
}

/// The renderer's state between two events: the lines made so far, the text
/// that waits to become a line, and whether a heading is open.
pub ghost struct RenderState {
    pub lines: Seq<LineView>,
    pub buffer: Seq<char>,
    pub in_heading: bool,
}

impl RenderState {
    /// The state before the first event.
    pub open spec fn start() -> RenderState {
        RenderState { lines: Seq::empty(), buffer: Seq::empty(), in_heading: false }
    }

    /// Turns the waiting text, if there is any, into a line of `style`.
    pub open spec fn flush(self, style: LineStyle) -> RenderState {
        if self.buffer.len() > 0 {
            RenderState {
                lines: self.lines.push(LineView { text: self.buffer, style }),
                buffer: Seq::empty(),
                ..self
            }
        } else {
            self
        }
    }

    /// The style that waiting text gets at a break or at the end.
    pub open spec fn pending_style(self) -> LineStyle {
        if self.in_heading {
            LineStyle::Heading
        } else {
            LineStyle::Plain
        }
    }

    /// The state after one event.
    pub open spec fn feed(self, event: EventView) -> RenderState {
        match event {
            EventView::HeadingStart => RenderState {
                in_heading: true,
                ..self.flush(LineStyle::Plain)
            },
            EventView::HeadingEnd => RenderState {
                in_heading: false,
                ..self.flush(LineStyle::Heading)
            },
            EventView::ItemStart => RenderState {
                buffer: bullet(),
                ..self.flush(LineStyle::Plain)
            },
            EventView::Text(text) => RenderState { buffer: self.buffer + text, ..self },
            EventView::TaskMarker(checked) => RenderState {
                buffer: self.buffer + task_text(checked),
                ..self
            },
            EventView::SoftBreak | EventView::HardBreak => if self.buffer.len() > 0 {
                self.flush(self.pending_style())
            } else {
                RenderState {
                    lines: self.lines.push(
                        LineView { text: Seq::empty(), style: LineStyle::Plain },
                    ),
                    ..self
                }
            },
            EventView::Other => self,
        }
    }

    /// The state after a run of events.
    pub open spec fn feed_all(self, events: Seq<EventView>) -> RenderState
        decreases events.len(),
    {
        if events.len() == 0 {
            self
        } else {
            self.feed_all(events.drop_last()).feed(events.last())
        }
    }

    /// The lines once the stream has ended: text that still waits becomes
    /// the last line.
    pub open spec fn finish(self) -> Seq<LineView> {
        self.flush(self.pending_style()).lines
    }
}

/// The display lines that a stream of events renders to.
pub open spec fn render_lines(events: Seq<EventView>) -> Seq<LineView> {
    RenderState::start().feed_all(events).finish()
}

/// The display lines that the markdown text `content` renders to.
pub open spec fn rendered(content: Seq<char>) -> Seq<LineView> {
    render_lines(md_events(content))
}

/// The renderer at work.
struct Renderer {
    lines: Vec<DisplayLine>,
    buffer: String,
    in_heading: bool,
}

impl View for Renderer {
    type V = RenderState;

    closed spec fn view(&self) -> RenderState {
        RenderState {
            lines: display_view(self.lines@),
            buffer: self.buffer@,
            in_heading: self.in_heading,
        }
    }
}

impl Renderer {
    fn flush(&mut self, style: LineStyle)
        ensures
            final(self)@ == old(self)@.flush(style),
    {
        if !self.buffer.as_str().is_empty() {
            let text = self.buffer.clone();
            self.lines.push(DisplayLine { text, style });
            self.buffer = String::new();
            assert(final(self)@.lines =~= old(self)@.flush(style).lines);
        }
    }

    fn pending_style(&self) -> (style: LineStyle)
        ensures
            style == self@.pending_style(),
    {
        if self.in_heading {
            LineStyle::Heading
        } else {
            LineStyle::Plain
        }
    }

    fn feed(&mut self, event: &MdEvent)
        ensures
            final(self)@ == old(self)@.feed(event@),
    {
        match event {
            MdEvent::HeadingStart => {
                self.flush(LineStyle::Plain);
                self.in_heading = true;
            },
            MdEvent::HeadingEnd => {
                self.flush(LineStyle::Heading);
                self.in_heading = false;
            },
            MdEvent::ItemStart => {
                self.flush(LineStyle::Plain);
                let mut seeded = String::new();
                seeded.push('\u{2022}');
                seeded.push(' ');
                assert(seeded@ =~= bullet());
                self.buffer = seeded;
            },
            MdEvent::Text(text) => {
                self.buffer.append(text.as_str());
            },
            MdEvent::TaskMarker(checked) => {
                let ghost before = self.buffer@;
                self.buffer.push('[');
                self.buffer.push(if *checked { 'x' } else { ' ' });
                self.buffer.push(']');
                self.buffer.push(' ');
                assert(self.buffer@ =~= before + task_text(*checked));
            },
            MdEvent::SoftBreak | MdEvent::HardBreak => {
                if !self.buffer.as_str().is_empty() {
                    let style = self.pending_style();
                    self.flush(style);
                } else {
                    self.lines.push(DisplayLine { text: String::new(), style: LineStyle::Plain });
                    assert(final(self)@.lines =~= old(self)@.feed(event@).lines);
                }
            },
            MdEvent::Other => {},
        }
    }
}

/// Renders a stream of markdown events to display lines in one pass: one
/// line per heading, per list item (which begins with a bullet) and per
/// break; a break with nothing before it gives an empty line.
pub fn render_events(events: &Vec<MdEvent>) -> (lines: Vec<DisplayLine>)
    ensures
        display_view(lines@) == render_lines(events_view(events@)),
{
    let mut renderer = Renderer { lines: Vec::new(), buffer: String::new(), in_heading: false };
    assert(renderer@.lines =~= RenderState::start().lines);
    let mut i: usize = 0;
    while i < events.len()
        invariant
            i <= events.len(),
            renderer@ == RenderState::start().feed_all(events_view(events@).take(i as int)),
        decreases events.len() - i,
    {
        assert(events_view(events@).take(i + 1).drop_last() =~= events_view(events@).take(
            i as int,
        ));
        assert(events_view(events@).take(i + 1).last() == events@[i as int]@);
        renderer.feed(&events[i]);
        i += 1;
    }
    assert(events_view(events@).take(i as int) =~= events_view(events@));
    let style = renderer.pending_style();
    renderer.flush(style);
    renderer.lines
}

/// Renders the markdown text `content` to display lines. The result depends
/// on `content` alone.
pub fn render(content: &str) -> (lines: Vec<DisplayLine>)
    ensures
        display_view(lines@) == rendered(content@),
{
    let events = markdown_events(content);
    render_events(&events)
}

/// Rendering is a function of the text: equal inputs render to equal lines.
pub proof fn lemma_render_deterministic(first: Seq<char>, second: Seq<char>)
    requires
        first == second,
    ensures
        rendered(first) == rendered(second),
{
}

} // verus!
