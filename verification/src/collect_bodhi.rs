//! Security advisories of Fedora, from the feed of its update system.

use crate::collect_spec::{final_segment, last_segment};
use crate::failure::{text_outcome, CollectError, ErrorKind, Failure};
use crate::forge::{emit_dq_issue, with_dq_issue};
use crate::ntriples::{datetime, link, literal, NTriplesWriter, Sheet, DATA, PKG};
use crate::number::{decimal, decimal_of};
use crate::order::{before_text, precedes};
use crate::pattern::{finds, regex_finds};
use crate::spec_file::or_empty;
use crate::split::{join, joined, pieces, split, split_words, words, Sep};
use crate::text::{
    cat2, cat3, cat4, cat5, chars_of, digit, is_digit, lemma_views_empty, opt, same, strip_prefix,
    views, without_prefix,
};
use crate::uris::{advisory_category_uri, cve_entity_uri, cve_iri, sec_concept, RDF_TYPE, RPM, SEC};
use crate::xml::{node_views, nodes_of, xml_nodes, Node, XmlNode};
use vstd::prelude::*;

verus! {

broadcast use crate::text::lemma_views_push;

/// The pattern of a CVE identifier.
pub const CVE: &'static str = r"CVE-\d{4}-\d{4,}";

/// An advisory in the feed.
#[derive(Debug, Clone, PartialEq)]
pub struct BodhiAdvisory {
    /// The identifier of the advisory.
    pub id: String,
    /// The builds that it releases: name, version and release.
    pub nvrs: Vec<String>,
    /// The CVE identifiers in its description.
    pub cves: Vec<String>,
    /// The date of publication, as the feed writes it.
    pub date: String,
}

/// What a [`BodhiAdvisory`] says.
#[verifier::ext_equal]
pub struct Advisory {
    pub id: Seq<char>,
    pub nvrs: Seq<Seq<char>>,
    pub cves: Seq<Seq<char>>,
    pub date: Seq<char>,
}

impl View for BodhiAdvisory {
    type V = Advisory;

    open spec fn view(&self) -> Advisory {
        Advisory {
            id: self.id@,
            nvrs: crate::text::views(self.nvrs@),
            cves: crate::text::views(self.cves@),
            date: self.date@,
        }
    }
}

/// The views of a list of records.
pub open spec fn bodhi_advisory_views(v: Seq<BodhiAdvisory>) -> Seq<Advisory> {
    v.map_values(|x: BodhiAdvisory| x@)
}

/// A collector of advisories for one release.
pub struct BodhiCollector {
    /// The tag of the release in the update system.
    pub release: String,
    /// The release as the graph names it.
    pub graph_release: String,
    /// The date from which on advisories count.
    pub since: Option<String>,
    pub graph_uri: Option<String>,
}

// ---------------------------------------------------------------------------
// The feed

/// What an item of the feed holds.
#[verifier::ext_equal]
pub struct RssItem {
    pub id: Option<Seq<char>>,
    pub title: Option<Seq<char>>,
    pub description: Option<Seq<char>>,
    pub pub_date: Option<Seq<char>>,
}

pub open spec fn blank_item() -> RssItem {
    RssItem { id: None, title: None, description: None, pub_date: None }
}

pub open spec fn is_item_field(name: Seq<char>) -> bool {
    name == "link"@ || name == "title"@ || name == "description"@ || name == "pubDate"@
}

/// `item` with a field set.
pub open spec fn field_set(item: RssItem, name: Seq<char>, value: Seq<char>) -> RssItem {
    if name == "link"@ {
        RssItem { id: Some(last_segment(value)), ..item }
    } else if name == "title"@ {
        RssItem { title: Some(value), ..item }
    } else if name == "description"@ {
        RssItem { description: Some(value), ..item }
    } else if name == "pubDate"@ {
        RssItem { pub_date: Some(value), ..item }
    } else {
        item
    }
}

/// What the nodes from `i` on add to `item`. The node after the tag of a field is
/// the value of the field where it is a text, and is passed over in any case.
/// `None` where the document is not well formed, or where a value cannot be read.
pub open spec fn rss_item(nodes: Seq<Node>, i: int, item: RssItem) -> Option<RssItem>
    decreases nodes.len() - i,
{
    if i < 0 || i >= nodes.len() {
        Some(item)
    } else {
        match nodes[i] {
            Node::Failed(_) => None,
            Node::Open { name, attributes, closed } => if is_item_field(name) {
                if i + 1 < nodes.len() {
                    match nodes[i + 1] {
                        Node::Text(Some(t)) => rss_item(nodes, i + 2, field_set(item, name, t)),
                        Node::Text(None) => None,
                        _ => rss_item(nodes, i + 2, item),
                    }
                } else {
                    Some(item)
                }
            } else {
                rss_item(nodes, i + 1, item)
            },
            _ => rss_item(nodes, i + 1, item),
        }
    }
}

/// The CVE identifiers in a text.
pub fn cves_in(text: &str) -> (r: Vec<String>)
    ensures
        views(r@) == regex_finds(CVE@, text@),
{
    finds(CVE, text)
}

pub open spec fn cves_of(description: Option<Seq<char>>) -> Seq<Seq<char>> {
    match description {
        Some(text) => regex_finds(CVE@, text),
        None => Seq::empty(),
    }
}

/// The advisory that an item is, given the CVE identifiers in its description.
/// An item without a title, a link or a date is none.
pub open spec fn advisory_of(item: RssItem, cves: Seq<Seq<char>>) -> Option<Advisory> {
    match (item.title, item.id, item.pub_date) {
        (Some(title), Some(id), Some(date)) => Some(
            Advisory { id, nvrs: words(title, Sep::Blank), cves, date },
        ),
        _ => None,
    }
}

/// The advisory in the nodes of an item.
pub open spec fn advisory_in(nodes: Seq<Node>) -> Option<Advisory> {
    match rss_item(nodes, 0, blank_item()) {
        Some(item) => advisory_of(item, cves_of(item.description)),
        None => None,
    }
}

pub open spec fn maybe_advisory(a: Option<BodhiAdvisory>) -> Option<Advisory> {
    match a {
        Some(x) => Some(x@),
        None => None,
    }
}

/// The texts of the fields of an item.
pub struct ItemFields {
    pub id: Option<String>,
    pub title: Option<String>,
    pub description: Option<String>,
    pub pub_date: Option<String>,
}

impl View for ItemFields {
    type V = RssItem;

    open spec fn view(&self) -> RssItem {
        RssItem {
            id: opt(self.id),
            title: opt(self.title),
            description: opt(self.description),
            pub_date: opt(self.pub_date),
        }
    }
}

pub open spec fn maybe_item(a: Option<ItemFields>) -> Option<RssItem> {
    match a {
        Some(x) => Some(x@),
        None => None,
    }
}

fn set_field(item: &mut ItemFields, name: &str, value: &str)
    ensures
        final(item)@ == field_set(old(item)@, name@, value@),
{
    if same(name, "link") {
        item.id = Some(final_segment(value));
    } else if same(name, "title") {
        item.title = Some(value.to_owned());
    } else if same(name, "description") {
        item.description = Some(value.to_owned());
    } else if same(name, "pubDate") {
        item.pub_date = Some(value.to_owned());
    }
}

/// Reads the fields of an item out of its nodes.
pub fn read_item(nodes: &Vec<XmlNode>) -> (r: Option<ItemFields>)
    ensures
        maybe_item(r) == rss_item(node_views(nodes@), 0, blank_item()),
{
    let mut item: ItemFields = ItemFields { id: None, title: None, description: None, pub_date: None };
    let mut i: usize = 0;
    let ghost all = node_views(nodes@);
    while i < nodes.len()
        invariant
            i <= nodes.len(),
            all == node_views(nodes@),
            rss_item(all, 0, blank_item()) == rss_item(all, i as int, item@),
        decreases nodes.len() - i,
    {
        assert(all[i as int] == nodes@[i as int]@);
        match &nodes[i] {
            XmlNode::Failed(_) => {
                return None;
            },
            XmlNode::Open { name, attributes, closed } => {
                if same(name, "link") || same(name, "title") || same(name, "description") || same(
                    name,
                    "pubDate",
                ) {
                    if nodes.len() - i < 2 {
                        return Some(item);
                    }
                    assert(all[i + 1] == nodes@[i + 1]@);
                    match &nodes[i + 1] {
                        XmlNode::Text(Some(t)) => {
                            set_field(&mut item, name, t);
                        },
                        XmlNode::Text(None) => {
                            return None;
                        },
                        _ => {},
                    }
                    i = i + 1;
                }
            },
            _ => {},
        }
        i = i + 1;
    }
    Some(item)
}

/// The advisory that the fields of an item give, with the CVE identifiers in its
/// description.
pub fn advisory_from(item: ItemFields, cves: Vec<String>) -> (r: Option<BodhiAdvisory>)
    ensures
        maybe_advisory(r) == advisory_of(item@, views(cves@)),
{
    let title: String = match item.title {
        Some(t) => t,
        None => {
            return None;
        },
    };
    let id: String = match item.id {
        Some(x) => x,
        None => {
            return None;
        },
    };
    match item.pub_date {
        Some(date) => Some(
            BodhiAdvisory { id, nvrs: split_words(&title, &Sep::Blank), cves, date },
        ),
        None => None,
    }
}

impl BodhiAdvisory {
    /// Reads an advisory out of the nodes of an item.
    pub fn from_nodes(nodes: &Vec<XmlNode>) -> (r: Option<Self>)
        ensures
            maybe_advisory(r) == advisory_in(node_views(nodes@)),
    {
        match read_item(nodes) {
            Some(item) => {
                let cves: Vec<String> = match &item.description {
                    Some(text) => cves_in(text),
                    None => {
                        proof {
                            lemma_views_empty();
                        }
                        Vec::new()
                    },
                };
                advisory_from(item, cves)
            },
            None => None,
        }
    }

    /// Reads an advisory out of the text of an item; `None` where a required field
    /// is missing.
    pub fn from_rss_item(xml: &str) -> (r: Option<Self>)
        ensures
            maybe_advisory(r) == advisory_in(nodes_of(xml@)),
    {
        Self::from_nodes(&xml_nodes(xml))
    }
}

/// The state of reading a feed: the advisories so far, and the text of the item
/// that is being read.
#[verifier::ext_equal]
pub struct FeedState {
    pub done: Seq<Advisory>,
    pub in_item: bool,
    pub text: Seq<char>,
    pub depth: nat,
}

pub open spec fn feed_start() -> FeedState {
    FeedState { done: Seq::empty(), in_item: false, text: Seq::empty(), depth: 0 }
}

pub open spec fn with_advisory_of(done: Seq<Advisory>, text: Seq<char>) -> Seq<Advisory> {
    match advisory_in(nodes_of(text)) {
        Some(a) => done.push(a),
        None => done,
    }
}

/// The state after one more node.
pub open spec fn feed_step(s: FeedState, node: Node) -> FeedState {
    match node {
        Node::Open { name, attributes, closed } => if closed {
            s
        } else if name == "item"@ {
            FeedState { in_item: true, depth: 1, text: "<item>"@, ..s }
        } else if s.in_item {
            FeedState { depth: s.depth + 1, text: s.text + ("<"@ + name + ">"@), ..s }
        } else {
            s
        },
        Node::Close(name) => if s.in_item {
            let text = s.text + ("</"@ + name + ">"@);
            if s.depth == 1 {
                FeedState { done: with_advisory_of(s.done, text), in_item: false, text, depth: 0 }
            } else {
                FeedState { depth: (s.depth - 1) as nat, text, ..s }
            }
        } else {
            s
        },
        Node::Text(t) => if s.in_item {
            FeedState { text: s.text + or_empty(t), ..s }
        } else {
            s
        },
        _ => s,
    }
}

/// The advisories in a feed, from node `i` on; or why it cannot be read.
pub open spec fn feed_from(
    nodes: Seq<Node>,
    i: int,
    s: FeedState,
) -> Result<Seq<Advisory>, Seq<char>>
    decreases nodes.len() - i,
{
    if i < 0 || i >= nodes.len() {
        Ok(s.done)
    } else {
        match nodes[i] {
            Node::Failed(e) => Err("RSS XML parse error: "@ + e),
            _ => feed_from(nodes, i + 1, feed_step(s, nodes[i])),
        }
    }
}

pub open spec fn feed_outcome(r: Result<Vec<BodhiAdvisory>, String>) -> Result<
    Seq<Advisory>,
    Seq<char>,
> {
    match r {
        Ok(v) => Ok(bodhi_advisory_views(v@)),
        Err(e) => Err(e@),
    }
}

/// Reads the advisories out of the nodes of a feed.
pub fn read_feed(nodes: &Vec<XmlNode>) -> (r: Result<Vec<BodhiAdvisory>, String>)
    ensures
        feed_outcome(r) == feed_from(node_views(nodes@), 0, feed_start()),
{
    let mut done: Vec<BodhiAdvisory> = Vec::new();
    let mut in_item: bool = false;
    let mut text: String = String::new();
    let mut depth: usize = 0;
    let mut i: usize = 0;
    let ghost all = node_views(nodes@);
    assert(bodhi_advisory_views(done@) =~= Seq::empty());
    assert(text@ =~= Seq::empty());
    while i < nodes.len()
        invariant
            i <= nodes.len(),
            all == node_views(nodes@),
            depth <= i,
            in_item ==> depth >= 1,
            feed_from(all, 0, feed_start()) == feed_from(
                all,
                i as int,
                (FeedState {
                    done: bodhi_advisory_views(done@),
                    in_item,
                    text: text@,
                    depth: depth as nat,
                }),
            ),
        decreases nodes.len() - i,
    {
        assert(all[i as int] == nodes@[i as int]@);
        match &nodes[i] {
            XmlNode::Failed(e) => {
                return Err(cat2("RSS XML parse error: ", e));
            },
            XmlNode::Open { name, attributes, closed } => {
                if !*closed {
                    if same(name, "item") {
                        in_item = true;
                        depth = 1;
                        text = "<item>".to_owned();
                    } else if in_item {
                        depth = depth + 1;
                        text.append(&cat3("<", name, ">"));
                    }
                }
            },
            XmlNode::Close(name) => {
                if in_item {
                    text.append(&cat3("</", name, ">"));
                    depth = depth - 1;
                    if depth == 0 {
                        if let Some(a) = BodhiAdvisory::from_rss_item(&text) {
                            proof {
                                assert(bodhi_advisory_views(done@.push(a))
                                    =~= bodhi_advisory_views(done@).push(a@));
                            }
                            done.push(a);
                        }
                        in_item = false;
                    }
                }
            },
            XmlNode::Text(t) => {
                if in_item {
                    match t {
                        Some(x) => {
                            text.append(x);
                        },
                        None => {
                            assert(text@ + Seq::<char>::empty() =~= text@);
                        },
                    }
                }
            },
            XmlNode::Other => {},
        }
        i = i + 1;
    }
    Ok(done)
}

// ---------------------------------------------------------------------------
// Builds and dates

/// The name and the version with the release of a build, given the parts between
/// its hyphens: the version starts at the first part from `i` on that starts with
/// a digit.
pub open spec fn nvr_from(parts: Seq<Seq<char>>, i: int) -> Option<(Seq<char>, Seq<char>)>
    decreases parts.len() - i,
{
    if i < 0 || i >= parts.len() {
        None
    } else if parts[i].len() > 0 && is_digit(parts[i][0]) {
        Some((joined(parts.take(i), "-"@), joined(parts.skip(i), "-"@)))
    } else {
        nvr_from(parts, i + 1)
    }
}

pub open spec fn nvr_of(nvr: Seq<char>) -> Option<(Seq<char>, Seq<char>)> {
    let parts = pieces(nvr, Sep::Is('-'));
    if parts.len() < 3 {
        None
    } else {
        nvr_from(parts, 1)
    }
}

pub open spec fn maybe_pair(r: Option<(String, String)>) -> Option<(Seq<char>, Seq<char>)> {
    match r {
        Some(p) => Some((p.0@, p.1@)),
        None => None,
    }
}

fn first_char(s: &str) -> (r: Option<char>)
    ensures
        r == if s@.len() > 0 {
            Some(s@[0])
        } else {
            None
        },
{
    let cs: Vec<char> = chars_of(s);
    if cs.len() > 0 {
        Some(cs[0])
    } else {
        None
    }
}

/// The number of a month.
pub open spec fn month_number(name: Seq<char>) -> Option<Seq<char>> {
    if name == "Jan"@ {
        Some("01"@)
    } else if name == "Feb"@ {
        Some("02"@)
    } else if name == "Mar"@ {
        Some("03"@)
    } else if name == "Apr"@ {
        Some("04"@)
    } else if name == "May"@ {
        Some("05"@)
    } else if name == "Jun"@ {
        Some("06"@)
    } else if name == "Jul"@ {
        Some("07"@)
    } else if name == "Aug"@ {
        Some("08"@)
    } else if name == "Sep"@ {
        Some("09"@)
    } else if name == "Oct"@ {
        Some("10"@)
    } else if name == "Nov"@ {
        Some("11"@)
    } else if name == "Dec"@ {
        Some("12"@)
    } else {
        None
    }
}

fn number_of_month(name: &str) -> (r: Option<String>)
    ensures
        opt(r) == month_number(name@),
{
    if same(name, "Jan") {
        Some("01".to_owned())
    } else if same(name, "Feb") {
        Some("02".to_owned())
    } else if same(name, "Mar") {
        Some("03".to_owned())
    } else if same(name, "Apr") {
        Some("04".to_owned())
    } else if same(name, "May") {
        Some("05".to_owned())
    } else if same(name, "Jun") {
        Some("06".to_owned())
    } else if same(name, "Jul") {
        Some("07".to_owned())
    } else if same(name, "Aug") {
        Some("08".to_owned())
    } else if same(name, "Sep") {
        Some("09".to_owned())
    } else if same(name, "Oct") {
        Some("10".to_owned())
    } else if same(name, "Nov") {
        Some("11".to_owned())
    } else if same(name, "Dec") {
        Some("12".to_owned())
    } else {
        None
    }
}

/// The error about a date that cannot be read.
pub open spec fn bad_date(message: Seq<char>) -> Failure {
    Failure { kind: ErrorKind::InvalidInput, message }
}

/// A date of the feed, such as `Tue, 15 Apr 2026 14:23:01 +0000`, in the form of
/// a timestamp; or why it has none. The day is taken as it is written, and the
/// offset is not applied.
pub open spec fn iso_date(date: Seq<char>) -> Result<Seq<char>, Failure> {
    let parts = words(date, Sep::Blank);
    if parts.len() < 6 {
        Err(bad_date("Invalid RFC 2822 date format"@))
    } else {
        match month_number(parts[2]) {
            Some(month) => Ok(
                parts[3] + "-"@ + month + "-"@ + parts[1] + "T"@ + parts[4] + "Z"@,
            ),
            None => Err(bad_date("Unknown month: "@ + parts[2])),
        }
    }
}

/// Turns a date of the feed into a timestamp.
pub fn parse_rfc2822_to_iso8601(rfc2822: &str) -> (r: Result<String, CollectError>)
    ensures
        text_outcome(r) == iso_date(rfc2822@),
{
    let parts: Vec<String> = split_words(rfc2822, &Sep::Blank);
    let ghost all = views(parts@);
    if parts.len() < 6 {
        return Err(
            CollectError::new(
                ErrorKind::InvalidInput,
                "Invalid RFC 2822 date format".to_owned(),
            ),
        );
    }
    assert(all[1] == parts@[1]@ && all[2] == parts@[2]@ && all[3] == parts@[3]@ && all[4]
        == parts@[4]@);
    match number_of_month(&parts[2]) {
        Some(month) => {
            let mut iso: String = cat5(&parts[3], "-", &month, "-", &parts[1]);
            iso.append("T");
            iso.append(&parts[4]);
            iso.append("Z");
            Ok(iso)
        },
        None => Err(
            CollectError::new(ErrorKind::InvalidInput, cat2("Unknown month: ", &parts[2])),
        ),
    }
}

/// The release as the graph names it: the tag without its letter.
pub open spec fn graph_release_of(release: Seq<char>) -> Seq<char> {
    match strip_prefix(release, "F"@) {
        Some(x) => x,
        None => match strip_prefix(release, "f"@) {
            Some(x) => x,
            None => release,
        },
    }
}

/// Whether an advisory is left out because it was published before the date from
/// which on advisories count. A date that cannot be read does not leave it out.
pub open spec fn too_old(since: Option<Seq<char>>, date: Seq<char>) -> bool {
    match since {
        Some(cutoff) => match iso_date(date) {
            Ok(iso) => before_text(iso, cutoff),
            Err(_) => false,
        },
        None => false,
    }
}

/// The address of a page of the feed.
pub open spec fn page_address(release: Seq<char>, page: u64) -> Seq<char> {
    "https://bodhi.fedoraproject.org/rss/updates/?type=security&releases="@ + release
        + "&status=stable&page="@ + decimal(page as nat)
}

/// The key under which a page is kept.
pub open spec fn page_key(release: Seq<char>, page: u64) -> Seq<char> {
    "bodhi-"@ + release + "-page-"@ + decimal(page as nat)
}

/// The query for the binary packages of a build.
pub open spec fn binaries_query(
    graph_release: Seq<char>,
    name: Seq<char>,
    vr: Seq<char>,
) -> Seq<char> {
    "PREFIX pkg: <"@ + PKG@ + ">\nPREFIX rpm: <"@ + RPM@
        + ">\nSELECT ?pkg WHERE {\n  GRAPH <https://packagegraph.github.io/graph/fedora/"@
        + graph_release + "> {\n    ?pkg rpm:sourceRPM ?srpm .\n    FILTER(STRSTARTS(?srpm, \""@
        + name + "-"@ + vr + "\"))\n  }\n}"@
}

impl BodhiCollector {
    /// A collector of the advisories for a release, from a date on where one is
    /// given.
    pub fn new(release: String, since: Option<String>) -> (r: Self)
        ensures
            r.release@ == release@,
            r.graph_release@ == graph_release_of(release@),
            r.since == since,
            r.graph_uri is None,
    {
        let graph_release: String = match without_prefix(&release, "F") {
            Some(x) => x,
            None => match without_prefix(&release, "f") {
                Some(x) => x,
                None => release.clone(),
            },
        };
        BodhiCollector { release, graph_release, since, graph_uri: None }
    }

    /// The collector with the graph that its statements belong to.
    pub fn with_graph(self, graph_uri: Option<String>) -> (r: Self)
        ensures
            r == (BodhiCollector { graph_uri, ..self }),
    {
        BodhiCollector {
            release: self.release,
            graph_release: self.graph_release,
            since: self.since,
            graph_uri,
        }
    }

    pub fn page_url(&self, page: u64) -> (r: String)
        ensures
            r@ == page_address(self.release@, page),
    {
        cat4(
            "https://bodhi.fedoraproject.org/rss/updates/?type=security&releases=",
            &self.release,
            "&status=stable&page=",
            &decimal_of(page),
        )
    }

    pub fn cache_key(&self, page: u64) -> (r: String)
        ensures
            r@ == page_key(self.release@, page),
    {
        cat4("bodhi-", &self.release, "-page-", &decimal_of(page))
    }

    /// The page to ask for after one with so many advisories. An empty page is the
    /// last one.
    pub fn next_page(page: u64, found: usize) -> (r: Option<u64>)
        ensures
            r == if found == 0 || page == u64::MAX {
                None
            } else {
                Some((page + 1) as u64)
            },
    {
        if found == 0 {
            None
        } else {
            page.checked_add(1)
        }
    }

    /// Reads the advisories out of a page of the feed.
    pub fn parse_rss_feed(&self, xml: &str) -> (r: Result<Vec<BodhiAdvisory>, String>)
        ensures
            feed_outcome(r) == feed_from(nodes_of(xml@), 0, feed_start()),
    {
        read_feed(&xml_nodes(xml))
    }

    /// Takes a build apart into its name and its version with the release.
    pub fn parse_nvr(nvr: &str) -> (r: Option<(String, String)>)
        ensures
            maybe_pair(r) == nvr_of(nvr@),
    {
        let parts: Vec<String> = split(nvr, &Sep::Is('-'));
        let ghost all = views(parts@);
        if parts.len() < 3 {
            return None;
        }
        let mut i: usize = 1;
        while i < parts.len()
            invariant
                1 <= i <= parts.len(),
                all == views(parts@),
                nvr_of(nvr@) == nvr_from(all, 1),
                nvr_from(all, 1) == nvr_from(all, i as int),
            decreases parts.len() - i,
        {
            assert(all[i as int] == parts@[i as int]@);
            if let Some(c) = first_char(&parts[i]) {
                if digit(c) {
                    assert(all.subrange(0, i as int) =~= all.take(i as int));
                    assert(all.subrange(i as int, all.len() as int) =~= all.skip(i as int));
                    return Some((join(&parts, 0, i, "-"), join(&parts, i, parts.len(), "-")));
                }
            }
            i = i + 1;
        }
        None
    }

    /// The query for the binary packages of a build.
    pub fn nvr_query(&self, name: &str, version_release: &str) -> (r: String)
        ensures
            r@ == binaries_query(self.graph_release@, name@, version_release@),
    {
        let mut q: String = cat5(
            "PREFIX pkg: <",
            PKG,
            ">\nPREFIX rpm: <",
            RPM,
            ">\nSELECT ?pkg WHERE {\n  GRAPH <https://packagegraph.github.io/graph/fedora/",
        );
        q.append(&self.graph_release);
        q.append("> {\n    ?pkg rpm:sourceRPM ?srpm .\n    FILTER(STRSTARTS(?srpm, \"");
        q.append(name);
        q.append("-");
        q.append(version_release);
        q.append("\"))\n  }\n}");
        q
    }

    /// Whether an advisory is left out because of its date.
    pub fn is_too_old(&self, date: &str) -> (r: bool)
        ensures
            r == too_old(opt(self.since), date@),
    {
        match &self.since {
            Some(cutoff) => match parse_rfc2822_to_iso8601(date) {
                Ok(iso) => precedes(&iso, cutoff),
                Err(_) => false,
            },
            None => false,
        }
    }
}

// ---------------------------------------------------------------------------
// Statements

/// What a query for the binary packages of a build returned.
pub enum NvrReply {
    Binaries(Vec<String>),
    Failed,
}

/// What a [`NvrReply`] says.
pub enum Binaries {
    Found(Seq<Seq<char>>),
    Failed,
}

impl View for NvrReply {
    type V = Binaries;

    open spec fn view(&self) -> Binaries {
        match self {
            NvrReply::Binaries(v) => Binaries::Found(views(v@)),
            NvrReply::Failed => Binaries::Failed,
        }
    }
}

pub open spec fn with_package_link(w: Sheet, advisory: Seq<char>, package: Seq<char>) -> Sheet {
    link(w, advisory, SEC@ + "advisoryForPackage"@, package)
}

/// The first `n` of `items`, in order.
pub open spec fn with_each_package_link(
    w: Sheet,
    advisory: Seq<char>,
    items: Seq<Seq<char>>,
    n: nat,
) -> Sheet
    decreases n,
{
    if n == 0 {
        w
    } else {
        with_package_link(
            with_each_package_link(w, advisory, items, (n - 1) as nat),
            advisory,
            items[n - 1],
        )
    }
}

pub fn emit_package_link(writer: &mut NTriplesWriter, advisory: &str, package: &str) -> (r: usize)
    ensures
        final(writer)@ == with_package_link(old(writer)@, advisory@, package@),
        r == final(writer)@.log.len() - old(writer)@.log.len(),
{
    let start: usize = writer.len();
    writer.write_triple(advisory, &cat2(SEC, "advisoryForPackage"), package);
    writer.len() - start
}

/// What a build gives: links to its binary packages, or a note on why there are
/// none.
pub open spec fn with_build(
    w: Sheet,
    advisory: Seq<char>,
    nvr: Seq<char>,
    reply: Binaries,
) -> Sheet {
    if nvr_of(nvr) is None {
        with_nvr_issue(w, nvr, "nvr-parse-failed"@, "warning"@)
    } else {
        match reply {
            Binaries::Found(packages) => if packages.len() > 0 {
                with_each_package_link(w, advisory, packages, packages.len())
            } else {
                with_nvr_issue(w, nvr, "nvr-unresolved"@, "info"@)
            },
            Binaries::Failed => with_nvr_issue(w, nvr, "nvr-query-failed"@, "warning"@),
        }
    }
}

/// An issue with a build.
pub open spec fn with_nvr_issue(
    w: Sheet,
    nvr: Seq<char>,
    issue: Seq<char>,
    severity: Seq<char>,
) -> Sheet {
    with_dq_issue(w, "bodhi-collector"@, "nvr"@, nvr, issue, severity)
}

/// An issue with a build.
pub fn emit_nvr_issue(
    writer: &mut NTriplesWriter,
    nvr: &str,
    issue: &str,
    severity: &str,
) -> (r: usize)
    ensures
        final(writer)@ == with_nvr_issue(old(writer)@, nvr@, issue@, severity@),
        r == final(writer)@.log.len() - old(writer)@.log.len(),
{
    let start: usize = writer.len();
    emit_dq_issue(writer, "bodhi-collector", "nvr", nvr, issue, severity);
    writer.len() - start
}

pub open spec fn with_package_links(
    w: Sheet,
    advisory: Seq<char>,
    packages: Seq<Seq<char>>,
) -> Sheet {
    with_each_package_link(w, advisory, packages, packages.len())
}

pub fn emit_package_links(
    writer: &mut NTriplesWriter,
    advisory: &str,
    packages: &Vec<String>,
) -> (r: usize)
    ensures
        final(writer)@ == with_package_links(old(writer)@, advisory@, views(packages@)),
        r == final(writer)@.log.len() - old(writer)@.log.len(),
{
    let start: usize = writer.len();
    let ghost before_package_link = writer@;
    let mut i: usize = 0;
    while i < packages.len()
        invariant
            i <= packages.len(),
            before_package_link.log.len() <= writer@.log.len(),
            writer@ == with_each_package_link(
                before_package_link,
                advisory@,
                views(packages@),
                i as nat,
            ),
        decreases packages.len() - i,
    {
        emit_package_link(writer, advisory, &packages[i]);
        i = i + 1;
    }
    writer.len() - start
}

fn emit_build(
    writer: &mut NTriplesWriter,
    advisory: &str,
    nvr: &str,
    reply: &NvrReply,
) -> (r: usize)
    ensures
        final(writer)@ == with_build(old(writer)@, advisory@, nvr@, reply@),
        r == final(writer)@.log.len() - old(writer)@.log.len(),
{
    if BodhiCollector::parse_nvr(nvr).is_none() {
        return emit_nvr_issue(writer, nvr, "nvr-parse-failed", "warning");
    }
    match reply {
        NvrReply::Binaries(packages) => if packages.len() > 0 {
            emit_package_links(writer, advisory, packages)
        } else {
            emit_nvr_issue(writer, nvr, "nvr-unresolved", "info")
        },
        NvrReply::Failed => emit_nvr_issue(writer, nvr, "nvr-query-failed", "warning"),
    }
}

pub open spec fn with_builds(
    w: Sheet,
    advisory: Seq<char>,
    nvrs: Seq<Seq<char>>,
    replies: Seq<NvrReply>,
    n: nat,
) -> Sheet
    decreases n,
{
    if n == 0 {
        w
    } else {
        with_build(
            with_builds(w, advisory, nvrs, replies, (n - 1) as nat),
            advisory,
            nvrs[n - 1],
            replies[n - 1]@,
        )
    }
}

fn emit_builds(
    writer: &mut NTriplesWriter,
    advisory: &str,
    nvrs: &Vec<String>,
    replies: &Vec<NvrReply>,
)
    requires
        nvrs@.len() == replies@.len(),
    ensures
        final(writer)@ == with_builds(
            old(writer)@,
            advisory@,
            views(nvrs@),
            replies@,
            nvrs@.len(),
        ),
        final(writer)@.log.len() >= old(writer)@.log.len(),
{
    let ghost before = writer@;
    let mut i: usize = 0;
    while i < nvrs.len()
        invariant
            i <= nvrs.len(),
            nvrs@.len() == replies@.len(),
            before.log.len() <= writer@.log.len(),
            writer@ == with_builds(before, advisory@, views(nvrs@), replies@, i as nat),
        decreases nvrs.len() - i,
    {
        emit_build(writer, advisory, &nvrs[i], &replies[i]);
        assert(views(nvrs@)[i as int] == nvrs@[i as int]@);
        i = i + 1;
    }
}

pub open spec fn with_advisory_cve(w: Sheet, advisory: Seq<char>, id: Seq<char>) -> Sheet {
    link(w, advisory, SEC@ + "addressesVulnerability"@, cve_iri(id))
}

/// The first `n` of `items`, in order.
pub open spec fn with_each_advisory_cve(
    w: Sheet,
    advisory: Seq<char>,
    items: Seq<Seq<char>>,
    n: nat,
) -> Sheet
    decreases n,
{
    if n == 0 {
        w
    } else {
        with_advisory_cve(
            with_each_advisory_cve(w, advisory, items, (n - 1) as nat),
            advisory,
            items[n - 1],
        )
    }
}

pub fn emit_advisory_cve(writer: &mut NTriplesWriter, advisory: &str, id: &str) -> (r: usize)
    ensures
        final(writer)@ == with_advisory_cve(old(writer)@, advisory@, id@),
        r == final(writer)@.log.len() - old(writer)@.log.len(),
{
    let start: usize = writer.len();
    writer.write_triple(advisory, &cat2(SEC, "addressesVulnerability"), &cve_entity_uri(id));
    writer.len() - start
}

/// The advisory itself: its type, identifier, category and date.
pub open spec fn with_advisory_head(w: Sheet, advisory: Seq<char>, a: Advisory) -> Sheet {
    let w = link(w, advisory, RDF_TYPE@, SEC@ + "SecurityAdvisory"@);
    let w = literal(w, advisory, SEC@ + "advisoryId"@, a.id);
    let category = sec_concept("category-"@, "security"@);
    let w = link(w, advisory, SEC@ + "advisoryType"@, category);
    with_advisory_date(w, advisory, a.date)
}

/// The advisory itself: its type, identifier, category and date.
pub fn emit_advisory_head(
    writer: &mut NTriplesWriter,
    advisory: &str,
    a: &BodhiAdvisory,
) -> (r: usize)
    ensures
        final(writer)@ == with_advisory_head(old(writer)@, advisory@, a@),
        r == final(writer)@.log.len() - old(writer)@.log.len(),
        r >= 3,
{
    let start: usize = writer.len();
    writer.write_triple(advisory, RDF_TYPE, &cat2(SEC, "SecurityAdvisory"));
    writer.write_literal(advisory, &cat2(SEC, "advisoryId"), &a.id);
    let category: String = advisory_category_uri("security");
    writer.write_triple(advisory, &cat2(SEC, "advisoryType"), &category);
    emit_advisory_date(writer, advisory, &a.date);
    writer.len() - start
}

pub open spec fn with_advisory_date(w: Sheet, advisory: Seq<char>, date: Seq<char>) -> Sheet {
    match iso_date(date) {
        Ok(iso) => datetime(w, advisory, SEC@ + "advisoryDate"@, iso),
        Err(_) => w,
    }
}

fn emit_advisory_date(writer: &mut NTriplesWriter, advisory: &str, date: &str) -> (r: usize)
    ensures
        final(writer)@ == with_advisory_date(old(writer)@, advisory@, date@),
        r == final(writer)@.log.len() - old(writer)@.log.len(),
{
    match parse_rfc2822_to_iso8601(date) {
        Ok(iso) => {
            writer.write_datetime(advisory, &cat2(SEC, "advisoryDate"), &iso);
            1
        },
        Err(_) => 0,
    }
}

pub open spec fn with_advisory_cves(w: Sheet, advisory: Seq<char>, cves: Seq<Seq<char>>) -> Sheet {
    with_each_advisory_cve(w, advisory, cves, cves.len())
}

pub fn emit_advisory_cves(
    writer: &mut NTriplesWriter,
    advisory: &str,
    cves: &Vec<String>,
) -> (r: usize)
    ensures
        final(writer)@ == with_advisory_cves(old(writer)@, advisory@, views(cves@)),
        r == final(writer)@.log.len() - old(writer)@.log.len(),
{
    let start: usize = writer.len();
    let ghost before_advisory_cve = writer@;
    let mut i: usize = 0;
    while i < cves.len()
        invariant
            i <= cves.len(),
            before_advisory_cve.log.len() <= writer@.log.len(),
            writer@ == with_each_advisory_cve(
                before_advisory_cve,
                advisory@,
                views(cves@),
                i as nat,
            ),
        decreases cves.len() - i,
    {
        emit_advisory_cve(writer, advisory, &cves[i]);
        i = i + 1;
    }
    writer.len() - start
}

pub open spec fn advisory_iri(graph_release: Seq<char>, id: Seq<char>) -> Seq<char> {
    DATA@ + "advisory/fedora/"@ + graph_release + "/"@ + id
}

/// Everything that an advisory gives, with what the queries for its builds
/// returned.
pub open spec fn with_advisory(
    w: Sheet,
    c: BodhiCollector,
    a: Advisory,
    replies: Seq<NvrReply>,
) -> Sheet {
    let node = advisory_iri(c.graph_release@, a.id);
    let w = with_advisory_head(w, node, a);
    let w = with_builds(w, node, a.nvrs, replies, a.nvrs.len());
    with_advisory_cves(w, node, a.cves)
}

/// The first `n` advisories, those left out because of their date aside.
pub open spec fn with_advisories(
    w: Sheet,
    c: BodhiCollector,
    advisories: Seq<Advisory>,
    replies: Seq<Vec<NvrReply>>,
    n: nat,
) -> Sheet
    decreases n,
{
    if n == 0 {
        w
    } else {
        let before = with_advisories(w, c, advisories, replies, (n - 1) as nat);
        if too_old(opt(c.since), advisories[n - 1].date) {
            before
        } else {
            with_advisory(before, c, advisories[n - 1], replies[n - 1]@)
        }
    }
}

/// How many of the first `n` advisories are not left out.
pub open spec fn recent_count(since: Option<Seq<char>>, advisories: Seq<Advisory>, n: nat) -> nat
    decreases n,
{
    if n == 0 {
        0
    } else {
        recent_count(since, advisories, (n - 1) as nat) + if too_old(
            since,
            advisories[n - 1].date,
        ) {
            0nat
        } else {
            1nat
        }
    }
}

impl BodhiCollector {
    /// Emits an advisory, given what the query for each of its builds returned.
    pub fn emit_advisory(
        &self,
        writer: &mut NTriplesWriter,
        a: &BodhiAdvisory,
        replies: &Vec<NvrReply>,
    ) -> (r: usize)
        requires
            a.nvrs@.len() == replies@.len(),
        ensures
            final(writer)@ == with_advisory(old(writer)@, *self, a@, replies@),
            r == final(writer)@.log.len() - old(writer)@.log.len(),
    {
        let start: usize = writer.len();
        let node: String = cat5(DATA, "advisory/fedora/", &self.graph_release, "/", &a.id);
        emit_advisory_head(writer, &node, a);
        emit_builds(writer, &node, &a.nvrs, replies);
        emit_advisory_cves(writer, &node, &a.cves);
        writer.len() - start
    }

    /// Emits advisories, given what the queries for their builds returned. Returns
    /// how many advisories were not left out because of their date, and how many
    /// statements they gave.
    pub fn collect(
        &self,
        writer: &mut NTriplesWriter,
        advisories: &Vec<BodhiAdvisory>,
        replies: &Vec<Vec<NvrReply>>,
    ) -> (r: (usize, usize))
        requires
            advisories@.len() == replies@.len(),
            forall|i: int|
                0 <= i < advisories@.len() ==> (#[trigger] advisories@[i]).nvrs@.len()
                    == replies@[i]@.len(),
        ensures
            final(writer)@ == with_advisories(
                old(writer)@,
                *self,
                bodhi_advisory_views(advisories@),
                replies@,
                advisories@.len(),
            ),
            r.0 == recent_count(
                opt(self.since),
                bodhi_advisory_views(advisories@),
                advisories@.len(),
            ),
            r.1 == final(writer)@.log.len() - old(writer)@.log.len(),
    {
        let start: usize = writer.len();
        let ghost before = writer@;
        let ghost all = bodhi_advisory_views(advisories@);
        let mut count: usize = 0;
        let mut i: usize = 0;
        while i < advisories.len()
            invariant
                i <= advisories.len(),
                count <= i,
                all == bodhi_advisory_views(advisories@),
                advisories@.len() == replies@.len(),
                forall|k: int|
                    0 <= k < advisories@.len() ==> (#[trigger] advisories@[k]).nvrs@.len()
                        == replies@[k]@.len(),
                before.log.len() <= writer@.log.len(),
                count == recent_count(opt(self.since), all, i as nat),
                writer@ == with_advisories(before, *self, all, replies@, i as nat),
            decreases advisories.len() - i,
        {
            assert(all[i as int] == advisories@[i as int]@);
            if !self.is_too_old(&advisories[i].date) {
                self.emit_advisory(writer, &advisories[i], &replies[i]);
                count = count + 1;
            }
            i = i + 1;
        }
        (count, writer.len() - start)
    }
}

} // verus!
