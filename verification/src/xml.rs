//! XML documents as lists of events.
//!
//! What the reader makes of a document is named, not described; the parsers that
//! follow are functions of the list of events.

use crate::text::{chars_of, slice_string, starts_with};
use quick_xml::events::attributes::Attributes;
use quick_xml::events::Event;
use quick_xml::reader::Reader;
use vstd::prelude::*;

verus! {

/// What reading a document comes upon next.
pub enum XmlItem {
    /// An opening tag: what stands between its brackets.
    Start(String),
    /// A tag that is closed at once: what stands between its brackets.
    Empty(String),
    /// A closing tag, with the name that it closes.
    End(String),
    /// Text between tags, as it is written.
    Text(String),
    /// A comment, a declaration or the like.
    Other,
    /// The document is not well formed here.
    Failed(String),
}

/// What an [`XmlItem`] says.
pub enum XmlEvent {
    Start(Seq<char>),
    Empty(Seq<char>),
    End(Seq<char>),
    Text(Seq<char>),
    Other,
    Failed(Seq<char>),
}

impl View for XmlItem {
    type V = XmlEvent;

    open spec fn view(&self) -> XmlEvent {
        match self {
            XmlItem::Start(s) => XmlEvent::Start(s@),
            XmlItem::Empty(s) => XmlEvent::Empty(s@),
            XmlItem::End(s) => XmlEvent::End(s@),
            XmlItem::Text(s) => XmlEvent::Text(s@),
            XmlItem::Other => XmlEvent::Other,
            XmlItem::Failed(s) => XmlEvent::Failed(s@),
        }
    }
}

pub open spec fn events_of(v: Seq<XmlItem>) -> Seq<XmlEvent> {
    v.map_values(|x: XmlItem| x@)
}

/// The views of a list of pairs.
pub open spec fn pairs_of(v: Seq<(String, String)>) -> Seq<(Seq<char>, Seq<char>)> {
    v.map_values(|p: (String, String)| (p.0@, p.1@))
}

pub broadcast proof fn lemma_pairs_push(v: Seq<(String, String)>, p: (String, String))
    ensures
        #[trigger] pairs_of(v.push(p)) == pairs_of(v).push((p.0@, p.1@)),
{
    assert(pairs_of(v.push(p)) =~= pairs_of(v).push((p.0@, p.1@)));
}

/// The events of a document, up to its end. White space around texts is trimmed.
pub uninterp spec fn xml_event_list(text: Seq<char>) -> Seq<XmlEvent>;

/// The keys and values of the well-formed attributes in a tag, given what stands
/// between its brackets and its name.
pub uninterp spec fn xml_attribute_list(content: Seq<char>, name: Seq<char>) -> Seq<
    (Seq<char>, Seq<char>),
>;

/// A text with its character and entity references resolved, where they can be.
pub uninterp spec fn xml_unescaped(raw: Seq<char>) -> Option<Seq<char>>;

/// `quick_xml::reader::Reader::read_event` with trimmed text, until the end of
/// the document: the result is a function of the text.
#[verifier::external_body]
pub(crate) fn xml_events(text: &str) -> (r: Vec<XmlItem>)
    ensures
        events_of(r@) == xml_event_list(text@),
{
    let s = |bytes: &[u8]| String::from_utf8_lossy(bytes).to_string();
    let (mut reader, mut out) = (Reader::from_str(text), Vec::new());
    reader.config_mut().trim_text(true);
    loop {
        out.push(match reader.read_event() {
            Ok(Event::Start(e)) => XmlItem::Start(s(&e)),
            Ok(Event::Empty(e)) => XmlItem::Empty(s(&e)),
            Ok(Event::End(e)) => XmlItem::End(s(&e)),
            Ok(Event::Text(e)) => XmlItem::Text(s(&e)),
            Ok(Event::Eof) => return out,
            Ok(_) => XmlItem::Other,
            Err(e) => XmlItem::Failed(e.to_string()),
        });
    }
}

/// `quick_xml::events::attributes::Attributes` of a tag, the malformed ones left
/// out: the result is a function of the content of the tag and its name.
#[verifier::external_body]
pub(crate) fn xml_attributes(content: &str, name: &str) -> (r: Vec<(String, String)>)
    requires
        starts_with(content@, name@),
    ensures
        pairs_of(r@) == xml_attribute_list(content@, name@),
{
    let s = |bytes: &[u8]| String::from_utf8_lossy(bytes).to_string();
    Attributes::new(content, name.len()).flatten().map(|a| (s(a.key.0), s(&a.value))).collect()
}

/// `quick_xml::escape::unescape`: the result is a function of the text; `None`
/// stands for its error.
#[verifier::external_body]
pub(crate) fn xml_unescape(raw: &str) -> (r: Option<String>)
    ensures
        crate::text::opt(r) == xml_unescaped(raw@),
{
    quick_xml::escape::unescape(raw).ok().map(|t| t.to_string())
}

/// The white space of XML.
pub open spec fn is_xml_space(c: char) -> bool {
    c == ' ' || c == '\r' || c == '\n' || c == '\t'
}

/// Where the name in a tag ends, from `i` on.
pub open spec fn name_end(content: Seq<char>, i: int) -> int
    decreases content.len() - i,
{
    if i < 0 || i >= content.len() || is_xml_space(content[i]) {
        i
    } else {
        name_end(content, i + 1)
    }
}

/// The name in a tag: its first word.
pub open spec fn tag_name(content: Seq<char>) -> Seq<char> {
    content.take(name_end(content, 0))
}

proof fn lemma_name_end(content: Seq<char>, i: int)
    requires
        0 <= i <= content.len(),
    ensures
        i <= name_end(content, i) <= content.len(),
    decreases content.len() - i,
{
    if i < content.len() && !is_xml_space(content[i]) {
        lemma_name_end(content, i + 1);
    }
}

pub fn name_of(content: &str) -> (r: String)
    ensures
        r@ == tag_name(content@),
        starts_with(content@, r@),
{
    let cs: Vec<char> = chars_of(content);
    let mut i: usize = 0;
    proof {
        lemma_name_end(content@, 0);
    }
    while i < cs.len() && !(cs[i] == ' ' || cs[i] == '\r' || cs[i] == '\n' || cs[i] == '\t')
        invariant
            i <= cs@.len(),
            cs@ == content@,
            name_end(content@, 0) == name_end(content@, i as int),
        decreases cs@.len() - i,
    {
        i = i + 1;
    }
    let name: String = slice_string(&cs, 0, i);
    assert(name@ =~= tag_name(content@));
    assert(content@.subrange(0, name@.len() as int) =~= name@);
    name
}

/// The attributes of a tag.
pub open spec fn attributes_of(content: Seq<char>) -> Seq<(Seq<char>, Seq<char>)> {
    xml_attribute_list(content, tag_name(content))
}

pub fn attributes(content: &str) -> (r: Vec<(String, String)>)
    ensures
        pairs_of(r@) == attributes_of(content@),
{
    let name: String = name_of(content);
    xml_attributes(content, &name)
}

/// The value of the last attribute with a key.
pub open spec fn last_attribute(attrs: Seq<(Seq<char>, Seq<char>)>, key: Seq<char>) -> Option<
    Seq<char>,
>
    decreases attrs.len(),
{
    if attrs.len() == 0 {
        None
    } else if attrs.last().0 == key {
        Some(attrs.last().1)
    } else {
        last_attribute(attrs.drop_last(), key)
    }
}

pub fn last_value_of(attrs: &Vec<(String, String)>, key: &str) -> (r: Option<String>)
    ensures
        crate::text::opt(r) == last_attribute(pairs_of(attrs@), key@),
{
    let mut i: usize = attrs.len();
    let ghost all = pairs_of(attrs@);
    assert(all.take(i as int) =~= all);
    while i > 0
        invariant
            i <= attrs.len(),
            all == pairs_of(attrs@),
            last_attribute(all, key@) == last_attribute(all.take(i as int), key@),
        decreases i,
    {
        i = i - 1;
        proof {
            assert(all.take(i + 1).drop_last() =~= all.take(i as int));
            assert(all.take(i + 1).last() == all[i as int]);
        }
        if crate::text::same(&attrs[i].0, key) {
            return Some(attrs[i].1.clone());
        }
    }
    None
}

/// The value of the first attribute with a key, from `i` on.
pub open spec fn first_attribute(attrs: Seq<(Seq<char>, Seq<char>)>, key: Seq<char>, i: int) -> Option<
    Seq<char>,
>
    decreases attrs.len() - i,
{
    if i < 0 || i >= attrs.len() {
        None
    } else if attrs[i].0 == key {
        Some(attrs[i].1)
    } else {
        first_attribute(attrs, key, i + 1)
    }
}

pub fn first_value_of(attrs: &Vec<(String, String)>, key: &str) -> (r: Option<String>)
    ensures
        crate::text::opt(r) == first_attribute(pairs_of(attrs@), key@, 0),
{
    let mut i: usize = 0;
    while i < attrs.len()
        invariant
            i <= attrs.len(),
            first_attribute(pairs_of(attrs@), key@, 0) == first_attribute(
                pairs_of(attrs@),
                key@,
                i as int,
            ),
        decreases attrs.len() - i,
    {
        assert(pairs_of(attrs@)[i as int] == (attrs@[i as int].0@, attrs@[i as int].1@));
        if crate::text::same(&attrs[i].0, key) {
            return Some(attrs[i].1.clone());
        }
        i = i + 1;
    }
    None
}

// ---------------------------------------------------------------------------
// Nodes

/// An event with its name, attributes and text read out.
pub enum XmlNode {
    Open { name: String, attributes: Vec<(String, String)>, closed: bool },
    Close(String),
    /// A text; `None` where a reference in it cannot be resolved.
    Text(Option<String>),
    Other,
    Failed(String),
}

/// What an [`XmlNode`] says.
pub enum Node {
    Open { name: Seq<char>, attributes: Seq<(Seq<char>, Seq<char>)>, closed: bool },
    Close(Seq<char>),
    Text(Option<Seq<char>>),
    Other,
    Failed(Seq<char>),
}

impl View for XmlNode {
    type V = Node;

    open spec fn view(&self) -> Node {
        match self {
            XmlNode::Open { name, attributes, closed } => Node::Open {
                name: name@,
                attributes: pairs_of(attributes@),
                closed: *closed,
            },
            XmlNode::Close(name) => Node::Close(name@),
            XmlNode::Text(t) => Node::Text(crate::text::opt(*t)),
            XmlNode::Other => Node::Other,
            XmlNode::Failed(e) => Node::Failed(e@),
        }
    }
}

pub open spec fn node_views(v: Seq<XmlNode>) -> Seq<Node> {
    v.map_values(|x: XmlNode| x@)
}

/// The node of an event.
pub open spec fn node_of(e: XmlEvent) -> Node {
    match e {
        XmlEvent::Start(content) => Node::Open {
            name: tag_name(content),
            attributes: attributes_of(content),
            closed: false,
        },
        XmlEvent::Empty(content) => Node::Open {
            name: tag_name(content),
            attributes: attributes_of(content),
            closed: true,
        },
        XmlEvent::End(name) => Node::Close(name),
        XmlEvent::Text(raw) => Node::Text(xml_unescaped(raw)),
        XmlEvent::Other => Node::Other,
        XmlEvent::Failed(e) => Node::Failed(e),
    }
}

/// The nodes of a document.
pub open spec fn nodes_of(text: Seq<char>) -> Seq<Node> {
    xml_event_list(text).map_values(|e: XmlEvent| node_of(e))
}

fn read_node(item: &XmlItem) -> (r: XmlNode)
    ensures
        r@ == node_of(item@),
{
    match item {
        XmlItem::Start(content) => XmlNode::Open {
            name: name_of(content),
            attributes: attributes(content),
            closed: false,
        },
        XmlItem::Empty(content) => XmlNode::Open {
            name: name_of(content),
            attributes: attributes(content),
            closed: true,
        },
        XmlItem::End(name) => XmlNode::Close(name.clone()),
        XmlItem::Text(raw) => XmlNode::Text(xml_unescape(raw)),
        XmlItem::Other => XmlNode::Other,
        XmlItem::Failed(e) => XmlNode::Failed(e.clone()),
    }
}

/// Reads a document into its nodes.
pub fn xml_nodes(text: &str) -> (r: Vec<XmlNode>)
    ensures
        node_views(r@) == nodes_of(text@),
{
    let items: Vec<XmlItem> = xml_events(text);
    let mut out: Vec<XmlNode> = Vec::new();
    let mut i: usize = 0;
    while i < items.len()
        invariant
            i <= items.len(),
            events_of(items@) == xml_event_list(text@),
            node_views(out@) == nodes_of(text@).take(i as int),
        decreases items.len() - i,
    {
        let node: XmlNode = read_node(&items[i]);
        proof {
            assert(events_of(items@)[i as int] == items@[i as int]@);
            assert(node_views(out@.push(node)) =~= node_views(out@).push(node@));
            assert(nodes_of(text@).take(i + 1) =~= nodes_of(text@).take(i as int).push(
                nodes_of(text@)[i as int],
            ));
        }
        out.push(node);
        i = i + 1;
    }
    assert(events_of(items@).len() == items@.len());
    assert(nodes_of(text@).take(i as int) =~= nodes_of(text@));
    out
}

} // verus!
