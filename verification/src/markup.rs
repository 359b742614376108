//! Documents as flat runs of markup events, and their text.

use vstd::prelude::*;
use vstd::string::*;

verus! {

/// One step of writing a document: open an element, write character data, or
/// close the innermost open element.
#[derive(Debug, PartialEq, Eq)]
pub enum Markup {
    Open(String),
    Text(String),
    Close,
}

/// Mathematical model of a [`Markup`] event.
pub enum MarkupView {
    Open(Seq<char>),
    Text(Seq<char>),
    Close,
}

impl View for Markup {
    type V = MarkupView;

    open spec fn view(&self) -> MarkupView {
        match self {
            Markup::Open(name) => MarkupView::Open(name@),
            Markup::Text(text) => MarkupView::Text(text@),
            Markup::Close => MarkupView::Close,
        }
    }
}

/// The models of a run of events.
pub open spec fn views(events: Seq<Markup>) -> Seq<MarkupView> {
    events.map_values(|m: Markup| m@)
}

/// An element with the given children.
pub open spec fn element(name: Seq<char>, children: Seq<MarkupView>) -> Seq<MarkupView> {
    seq![MarkupView::Open(name)] + children + seq![MarkupView::Close]
}

/// An element that holds character data only. The data is written even where
/// it is empty, so the element always has an explicit end tag.
pub open spec fn leaf(name: Seq<char>, text: Seq<char>) -> Seq<MarkupView> {
    element(name, seq![MarkupView::Text(text)])
}

/// The nesting depth after `events`, starting at `depth`; `None` where some
/// `Close` arrives with no element open.
pub open spec fn depth_after(depth: nat, events: Seq<MarkupView>) -> Option<nat>
    decreases events.len(),
{
    if events.len() == 0 {
        Some(depth)
    } else {
        match events[0] {
            MarkupView::Open(_) => depth_after(depth + 1, events.drop_first()),
            MarkupView::Text(_) => depth_after(depth, events.drop_first()),
            MarkupView::Close => if depth == 0 {
                None
            } else {
                depth_after((depth - 1) as nat, events.drop_first())
            },
        }
    }
}

/// Every `Close` has an element to close.
pub open spec fn well_nested(events: Seq<MarkupView>) -> bool {
    depth_after(0, events) is Some
}

/// Every `Close` has an element to close, and none is left open at the end.
pub open spec fn balanced(events: Seq<MarkupView>) -> bool {
    depth_after(0, events) == Some(0nat)
}

/// Events that leave the nesting depth as they found it, whatever it was.
pub open spec fn neutral(events: Seq<MarkupView>) -> bool {
    forall|depth: nat| #[trigger] depth_after(depth, events) == Some(depth)
}

/// The depth after two runs is the depth after the second, started where the
/// first ended.
pub proof fn lemma_depth_concat(depth: nat, a: Seq<MarkupView>, b: Seq<MarkupView>)
    ensures
        depth_after(depth, a + b) == match depth_after(depth, a) {
            Some(d) => depth_after(d, b),
            None => None,
        },
    decreases a.len(),
{
    if a.len() == 0 {
        assert(a + b =~= b);
    } else {
        assert((a + b).drop_first() =~= a.drop_first() + b);
        assert((a + b)[0] == a[0]);
        match a[0] {
            MarkupView::Open(_) => lemma_depth_concat(depth + 1, a.drop_first(), b),
            MarkupView::Text(_) => lemma_depth_concat(depth, a.drop_first(), b),
            MarkupView::Close => {
                if depth > 0 {
                    lemma_depth_concat((depth - 1) as nat, a.drop_first(), b);
                }
            },
        }
    }
}

/// The depth after one more event.
pub proof fn lemma_depth_push(events: Seq<MarkupView>, last: MarkupView)
    ensures
        depth_after(0, events.push(last)) == match depth_after(0, events) {
            Some(d) => match last {
                MarkupView::Open(_) => Some(d + 1),
                MarkupView::Text(_) => Some(d),
                MarkupView::Close => if d == 0 {
                    None
                } else {
                    Some((d - 1) as nat)
                },
            },
            None => None,
        },
{
    reveal_with_fuel(depth_after, 2);
    let one = seq![last];
    assert(events.push(last) =~= events + one);
    assert(one.drop_first() =~= Seq::<MarkupView>::empty());
    lemma_depth_concat(0, events, one);
}

/// Two neutral runs make a neutral run.
pub proof fn lemma_neutral_concat(a: Seq<MarkupView>, b: Seq<MarkupView>)
    requires
        neutral(a),
        neutral(b),
    ensures
        neutral(a + b),
{
    assert forall|depth: nat| #[trigger] depth_after(depth, a + b) == Some(depth) by {
        lemma_depth_concat(depth, a, b);
        assert(depth_after(depth, a) == Some(depth));
        assert(depth_after(depth, b) == Some(depth));
    }
}

/// An element around neutral children is neutral.
pub proof fn lemma_neutral_element(name: Seq<char>, children: Seq<MarkupView>)
    requires
        neutral(children),
    ensures
        neutral(element(name, children)),
{
    let open = seq![MarkupView::Open(name)];
    let close = seq![MarkupView::Close];
    assert forall|depth: nat| #[trigger]
        depth_after(depth, element(name, children)) == Some(depth) by {
        reveal_with_fuel(depth_after, 2);
        lemma_depth_concat(depth, open + children, close);
        lemma_depth_concat(depth, open, children);
        assert(open.drop_first() =~= Seq::<MarkupView>::empty());
        assert(depth_after(depth, open) == Some((depth + 1) as nat));
        assert(depth_after((depth + 1) as nat, children) == Some((depth + 1) as nat));
        assert(close.drop_first() =~= Seq::<MarkupView>::empty());
        assert(depth_after((depth + 1) as nat, close) == Some(depth));
    }
}

/// An element that holds character data is neutral.
pub proof fn lemma_neutral_leaf(name: Seq<char>, text: Seq<char>)
    ensures
        neutral(leaf(name, text)),
{
    let data = seq![MarkupView::Text(text)];
    assert forall|depth: nat| #[trigger] depth_after(depth, data) == Some(depth) by {
        reveal_with_fuel(depth_after, 2);
        assert(data.drop_first() =~= Seq::<MarkupView>::empty());
    }
    lemma_neutral_element(name, data);
}

/// `xml::writer::EventWriter`, the writer of the xml crate; nothing inside it
/// is looked at.
#[verifier::external_type_specification]
#[verifier::external_body]
#[verifier::reject_recursive_types(W)]
pub struct ExEventWriter<W>(xml::writer::EventWriter<W>);

/// The events that a writer has taken since it was made, in order.
pub uninterp spec fn written(writer: xml::writer::EventWriter<Vec<u8>>) -> Seq<MarkupView>;

/// The text that a writer made by [`new_writer`] holds once it has taken
/// `events`, which is what `xml::writer::EventWriter::into_inner` hands out.
pub uninterp spec fn emitted_document(events: Seq<MarkupView>) -> Seq<char>;

/// `xml::EmitterConfig::create_writer` over an empty `Vec<u8>`, on the default
/// configuration with `perform_indent(true)`. The writer has taken nothing.
#[verifier::external_body]
fn new_writer() -> (writer: xml::writer::EventWriter<Vec<u8>>)
    ensures
        written(writer) == Seq::<MarkupView>::empty(),
{
    xml::EmitterConfig::new().perform_indent(true).create_writer(Vec::new())
}

/// `xml::writer::EventWriter::write` of `XmlEvent::start_element(name)`. Into
/// a vector the writer takes every such event.
#[verifier::external_body]
fn write_open(writer: &mut xml::writer::EventWriter<Vec<u8>>, name: &str)
    ensures
        written(*final(writer)) == written(*old(writer)).push(MarkupView::Open(name@)),
{
    let _ = writer.write(xml::writer::XmlEvent::start_element(name));
}

/// `xml::writer::EventWriter::write` of `XmlEvent::characters(text)`. Into a
/// vector the writer takes every such event.
#[verifier::external_body]
fn write_text(writer: &mut xml::writer::EventWriter<Vec<u8>>, text: &str)
    ensures
        written(*final(writer)) == written(*old(writer)).push(MarkupView::Text(text@)),
{
    let _ = writer.write(xml::writer::XmlEvent::characters(text));
}

/// `xml::writer::EventWriter::write` of `XmlEvent::end_element()`. The writer
/// takes the event where an element is open, which is all that is asked for
/// here.
#[verifier::external_body]
fn write_close(writer: &mut xml::writer::EventWriter<Vec<u8>>)
    requires
        depth_after(0, written(*old(writer))) matches Some(depth) && depth > 0,
    ensures
        written(*final(writer)) == written(*old(writer)).push(MarkupView::Close),
{
    let _ = writer.write(xml::writer::XmlEvent::end_element());
}

/// `xml::writer::EventWriter::into_inner`, with the bytes read as UTF-8 text.
/// What the writer holds depends on the events it has taken, and on nothing
/// else.
#[verifier::external_body]
fn into_text(writer: xml::writer::EventWriter<Vec<u8>>) -> (text: String)
    ensures
        text@ == emitted_document(written(writer)),
{
    String::from_utf8_lossy(&writer.into_inner()).into_owned()
}

/// Writes a run of events as an indented document.
///
/// A run in which every `Close` has an element to close gives its document.
/// A run that asks to close an element while none is open gives `None`.
pub fn render_markup(events: &Vec<Markup>) -> (text: Option<String>)
    ensures
        match text {
            Some(t) => well_nested(views(events@)) && t@ == emitted_document(views(events@)),
            None => !well_nested(views(events@)),
        },
{
    let ghost all = views(events@);
    let n = events.len();
    let mut writer = new_writer();
    let mut depth: usize = 0;
    let mut i: usize = 0;
    assert(all.take(0) =~= Seq::<MarkupView>::empty());
    while i < n
        invariant
            all == views(events@),
            n == events.len(),
            i <= n,
            depth <= i,
            written(writer) == all.take(i as int),
            depth_after(0, all.take(i as int)) == Some(depth as nat),
        decreases n - i,
    {
        proof {
            assert(all.take(i + 1) =~= all.take(i as int).push(all[i as int]));
            lemma_depth_push(all.take(i as int), all[i as int]);
        }
        match &events[i] {
            Markup::Open(name) => {
                write_open(&mut writer, name.as_str());
                depth = depth + 1;
            },
            Markup::Text(text) => {
                write_text(&mut writer, text.as_str());
            },
            Markup::Close => {
                if depth == 0 {
                    proof {
                        assert(all =~= all.take(i + 1) + all.skip(i + 1));
                        lemma_depth_concat(0, all.take(i + 1), all.skip(i + 1));
                    }
                    return None;
                }
                write_close(&mut writer);
                depth = depth - 1;
            },
        }
        i = i + 1;
    }
    assert(all.take(n as int) =~= all);
    Some(into_text(writer))
}

} // verus!
