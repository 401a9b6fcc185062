//! Restricted-Markdown descriptions: an entry description may hold
//! flat paragraphs and indented code blocks, nothing else.  The
//! CommonMark event stream comes from the `pulldown_cmark` crate;
//! the acceptance rule over that stream is verified here.

use vstd::prelude::*;

verus! {

/// One CommonMark event, reduced to what the description rule
/// distinguishes.
#[derive(Debug, Clone, PartialEq)]
pub enum MdEvent {
    StartParagraph,
    StartIndentedCode,
    /// The start of any other element.
    StartOther,
    EndParagraph,
    EndCodeBlock,
    /// The end of any other element.
    EndOther,
    Text(String),
    Code(String),
    SoftBreak,
    /// Any other event.
    Other,
}

/// Abstract value of [`MdEvent`].
pub enum MdEventData {
    StartParagraph,
    StartIndentedCode,
    StartOther,
    EndParagraph,
    EndCodeBlock,
    EndOther,
    Text(Seq<char>),
    Code(Seq<char>),
    SoftBreak,
    Other,
}

impl DeepView for MdEvent {
    type V = MdEventData;

    open spec fn deep_view(&self) -> MdEventData {
        match self {
            MdEvent::StartParagraph => MdEventData::StartParagraph,
            MdEvent::StartIndentedCode => MdEventData::StartIndentedCode,
            MdEvent::StartOther => MdEventData::StartOther,
            MdEvent::EndParagraph => MdEventData::EndParagraph,
            MdEvent::EndCodeBlock => MdEventData::EndCodeBlock,
            MdEvent::EndOther => MdEventData::EndOther,
            MdEvent::Text(t) => MdEventData::Text(t@),
            MdEvent::Code(t) => MdEventData::Code(t@),
            MdEvent::SoftBreak => MdEventData::SoftBreak,
            MdEvent::Other => MdEventData::Other,
        }
    }
}

/// The CommonMark event stream of `s`, as `pulldown_cmark` parses
/// it, reduced variant by variant to [`MdEventData`].
pub uninterp spec fn md_events_of(s: Seq<char>) -> Seq<MdEventData>;

/// The parser's own event type, opaque here: [`convert_event`]
/// reduces it to [`MdEvent`].
#[verifier::external_type_specification]
#[verifier::external_body]
pub struct ExEvent<'a>(pulldown_cmark::Event<'a>);

/// Relies on pulldown_cmark::Event: each variant of the parser's
/// event enum maps to its reduced counterpart, text payloads moved
/// verbatim.
#[verifier::external_body]
fn convert_event(ev: pulldown_cmark::Event) -> MdEvent {
    match ev {
        pulldown_cmark::Event::Start(pulldown_cmark::Tag::Paragraph) => MdEvent::StartParagraph,
        pulldown_cmark::Event::Start(
            pulldown_cmark::Tag::CodeBlock(pulldown_cmark::CodeBlockKind::Indented),
        ) => MdEvent::StartIndentedCode,
        pulldown_cmark::Event::Start(_) => MdEvent::StartOther,
        pulldown_cmark::Event::End(pulldown_cmark::TagEnd::Paragraph) => MdEvent::EndParagraph,
        pulldown_cmark::Event::End(pulldown_cmark::TagEnd::CodeBlock) => MdEvent::EndCodeBlock,
        pulldown_cmark::Event::End(_) => MdEvent::EndOther,
        pulldown_cmark::Event::Text(t) => MdEvent::Text(t.into_string()),
        pulldown_cmark::Event::Code(t) => MdEvent::Code(t.into_string()),
        pulldown_cmark::Event::SoftBreak => MdEvent::SoftBreak,
        _ => MdEvent::Other,
    }
}

/// Relies on pulldown_cmark::Parser: the CommonMark event stream of
/// a string is a function of the string alone.
#[verifier::external_body]
fn markdown_events(s: &str) -> (r: Vec<MdEvent>)
    ensures
        r.deep_view() == md_events_of(s@),
{
    pulldown_cmark::Parser::new(s).map(convert_event).collect()
}

/// The kind of block currently open.
#[derive(Debug, Clone, Copy, PartialEq, Eq)]
pub enum MdBlock {
    Paragraph,
    IndentedCode,
}

/// The description rule, one event at a time.  Only flat paragraphs
/// and indented code blocks are allowed: a start inside an open
/// block, a start or end of any other element, or any other event
/// rejects the description.  Text and inline code append to the
/// current block, a soft break appends one space, and a matching
/// end completes the block.
pub open spec fn paragraphs_step(
    evs: Seq<MdEventData>,
    open_block: Option<MdBlock>,
    cur: Seq<char>,
    acc: Seq<Seq<char>>,
) -> Option<Seq<Seq<char>>>
    decreases evs.len(),
{
    if evs.len() == 0 {
        Option::Some(acc)
    } else {
        let rest = evs.drop_first();
        match evs[0] {
            MdEventData::StartParagraph => if open_block is Some {
                Option::None
            } else {
                paragraphs_step(rest, Option::Some(MdBlock::Paragraph), Seq::empty(), acc)
            },
            MdEventData::StartIndentedCode => if open_block is Some {
                Option::None
            } else {
                paragraphs_step(rest, Option::Some(MdBlock::IndentedCode), Seq::empty(), acc)
            },
            MdEventData::StartOther => Option::None,
            MdEventData::EndParagraph => if open_block == Option::Some(MdBlock::Paragraph) {
                paragraphs_step(rest, Option::None, cur, acc.push(cur))
            } else {
                Option::None
            },
            MdEventData::EndCodeBlock => if open_block == Option::Some(MdBlock::IndentedCode) {
                paragraphs_step(rest, Option::None, cur, acc.push(cur))
            } else {
                Option::None
            },
            MdEventData::EndOther => Option::None,
            MdEventData::Text(t) => paragraphs_step(rest, open_block, cur + t, acc),
            MdEventData::Code(t) => paragraphs_step(rest, open_block, cur + t, acc),
            MdEventData::SoftBreak => paragraphs_step(rest, open_block, cur + seq![' '], acc),
            MdEventData::Other => Option::None,
        }
    }
}

/// The paragraphs of an event stream, when the stream stays within
/// the restricted shape.
pub open spec fn paragraphs_of(evs: Seq<MdEventData>) -> Option<Seq<Seq<char>>> {
    paragraphs_step(evs, Option::None, Seq::empty(), Seq::empty())
}

/// Runs the description rule over a reduced event stream.
#[verifier::loop_isolation(false)]
pub fn paragraphs_from_events(events: &Vec<MdEvent>) -> (r: Option<Vec<String>>)
    ensures
        match r {
            Some(v) => paragraphs_of(events.deep_view()) == Option::Some(v.deep_view()),
            None => paragraphs_of(events.deep_view()) is None,
        },
{
    let n = events.len();
    let mut open_block: Option<MdBlock> = None;
    let mut cur = String::new();
    let mut acc: Vec<String> = Vec::new();
    let mut i: usize = 0;
    proof {
        assert(events.deep_view().skip(0) =~= events.deep_view());
        assert(acc.deep_view() =~= Seq::<Seq<char>>::empty());
    }
    while i < n
        invariant
            0 <= i <= n,
            paragraphs_of(events.deep_view()) == paragraphs_step(
                events.deep_view().skip(i as int),
                open_block,
                cur@,
                acc.deep_view(),
            ),
        decreases n - i,
    {
        proof {
            assert(events.deep_view()[i as int] == events@[i as int].deep_view());
            assert(events.deep_view().skip(i as int)[0] == events.deep_view()[i as int]);
            assert(events.deep_view().skip(i as int).drop_first() =~= events.deep_view().skip(
                i + 1,
            ));
        }
        match &events[i] {
            MdEvent::StartParagraph => {
                if open_block.is_some() {
                    return None;
                }
                open_block = Some(MdBlock::Paragraph);
                cur = String::new();
            },
            MdEvent::StartIndentedCode => {
                if open_block.is_some() {
                    return None;
                }
                open_block = Some(MdBlock::IndentedCode);
                cur = String::new();
            },
            MdEvent::StartOther => {
                return None;
            },
            MdEvent::EndParagraph => {
                match open_block {
                    Some(MdBlock::Paragraph) => {
                        let ghost pre_acc = acc.deep_view();
                        acc.push(cur.clone());
                        proof {
                            assert(acc.deep_view() =~= pre_acc.push(cur@));
                        }
                        open_block = None;
                    },
                    _ => {
                        return None;
                    },
                }
            },
            MdEvent::EndCodeBlock => {
                match open_block {
                    Some(MdBlock::IndentedCode) => {
                        let ghost pre_acc = acc.deep_view();
                        acc.push(cur.clone());
                        proof {
                            assert(acc.deep_view() =~= pre_acc.push(cur@));
                        }
                        open_block = None;
                    },
                    _ => {
                        return None;
                    },
                }
            },
            MdEvent::EndOther => {
                return None;
            },
            MdEvent::Text(t) => {
                cur.append(t.as_str());
            },
            MdEvent::Code(t) => {
                cur.append(t.as_str());
            },
            MdEvent::SoftBreak => {
                cur.append(" ");
                proof {
                    reveal_strlit(" ");
                    assert(" "@ =~= seq![' ']);
                }
            },
            MdEvent::Other => {
                return None;
            },
        }
        i += 1;
    }
    proof {
        assert(events.deep_view().skip(n as int) =~= Seq::<MdEventData>::empty());
    }
    Some(acc)
}

/// Splits a description into its paragraphs, when it stays within
/// flat paragraphs and indented code blocks; anything else yields
/// nothing and the description is shown verbatim instead.
pub fn desc_to_paragraphs(desc: &str) -> (r: Option<Vec<String>>)
    ensures
        match r {
            Some(v) => paragraphs_of(md_events_of(desc@)) == Option::Some(v.deep_view()),
            None => paragraphs_of(md_events_of(desc@)) is None,
        },
{
    let events = markdown_events(desc);
    paragraphs_from_events(&events)
}

} // verus!
