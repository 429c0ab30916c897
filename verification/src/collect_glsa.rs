//! Security advisories of Gentoo.
//!
//! The links from an advisory to packages are over-inclusive: every package that
//! matches an affected atom is linked, whatever its version. The ranges of
//! affected versions are kept beside them.

use crate::arch::{names_outcome, Packages};
use crate::collect_bodhi::{cves_in, emit_package_links, with_each_package_link, CVE};
use crate::collect_spec::{final_segment, last_segment};
use crate::ntriples::{
    bnode_id, bnode_label, bnode_literal, bnode_object, bnode_subject, bnode_to_bnode, datetime,
    link, literal, NTriplesWriter, Sheet, DATA, PKG,
};
use crate::order::{before_text, precedes};
use crate::pattern::regex_finds;
use crate::reading::{group_reading, group_sec, in_turn, said, to_iri, Term};
use crate::spec_file::or_empty;
use crate::text::{
    cat2, cat3, cat5, chars_of, contains, digit, has_item, has_text, is_digit, lemma_views_empty, opt, same,
    strip_prefix, views, without_prefix,
};
use crate::uris::{
    advisory_category_uri, cve_entity_uri, cve_iri, event_type_uri, range_type_uri, sec_concept,
    severity_concept_uri, severity_iri, RDF_TYPE, SEC,
};
use crate::xml::{
    first_attribute, first_value_of, last_attribute, last_value_of, node_views, nodes_of, pairs_of,
    xml_nodes, Node, XmlNode,
};
use vstd::prelude::*;

verus! {

broadcast use {crate::text::lemma_views_push, crate::xml::lemma_pairs_push};

/// A package that an advisory affects.
#[derive(Debug, Clone, PartialEq)]
pub struct GlsaAffectedPackage {
    /// Category and name.
    pub atom: String,
    /// Operators and versions of what is vulnerable.
    pub vulnerable_ranges: Vec<(String, String)>,
    /// Operators and versions of what is not affected.
    pub unaffected_ranges: Vec<(String, String)>,
}

/// What a [`GlsaAffectedPackage`] says.
#[verifier::ext_equal]
pub struct Affected {
    pub atom: Seq<char>,
    pub vulnerable_ranges: Seq<(Seq<char>, Seq<char>)>,
    pub unaffected_ranges: Seq<(Seq<char>, Seq<char>)>,
}

impl View for GlsaAffectedPackage {
    type V = Affected;

    open spec fn view(&self) -> Affected {
        Affected {
            atom: self.atom@,
            vulnerable_ranges: crate::xml::pairs_of(self.vulnerable_ranges@),
            unaffected_ranges: crate::xml::pairs_of(self.unaffected_ranges@),
        }
    }
}

/// The views of a list of records.
pub open spec fn glsa_affected_package_views(v: Seq<GlsaAffectedPackage>) -> Seq<Affected> {
    v.map_values(|x: GlsaAffectedPackage| x@)
}

/// An advisory.
#[derive(Debug, Clone, PartialEq)]
pub struct GlsaAdvisory {
    pub id: String,
    /// The date of announcement.
    pub date: String,
    pub severity: Option<String>,
    pub affected_packages: Vec<GlsaAffectedPackage>,
    /// The CVE identifiers in its references.
    pub cves: Vec<String>,
}

/// What a [`GlsaAdvisory`] says.
#[verifier::ext_equal]
pub struct Glsa {
    pub id: Seq<char>,
    pub date: Seq<char>,
    pub severity: Option<Seq<char>>,
    pub affected_packages: Seq<Affected>,
    pub cves: Seq<Seq<char>>,
}

impl View for GlsaAdvisory {
    type V = Glsa;

    open spec fn view(&self) -> Glsa {
        Glsa {
            id: self.id@,
            date: self.date@,
            severity: crate::text::opt(self.severity),
            affected_packages: glsa_affected_package_views(self.affected_packages@),
            cves: crate::text::views(self.cves@),
        }
    }
}

/// The views of a list of records.
pub open spec fn glsa_advisory_views(v: Seq<GlsaAdvisory>) -> Seq<Glsa> {
    v.map_values(|x: GlsaAdvisory| x@)
}

/// A collector of advisories.
pub struct GlsaCollector {
    /// The date from which on advisories count.
    pub since: Option<String>,
    pub graph_uri: Option<String>,
}

// ---------------------------------------------------------------------------
// Advisories

/// The state of reading an advisory.
#[verifier::ext_equal]
pub struct GlsaState {
    pub id: Option<Seq<char>>,
    pub date: Option<Seq<char>>,
    pub severity: Option<Seq<char>>,
    pub packages: Seq<Affected>,
    pub cves: Seq<Seq<char>>,
    /// The package that is being read.
    pub atom: Option<Seq<char>>,
    pub vulnerable: Seq<(Seq<char>, Seq<char>)>,
    pub unaffected: Seq<(Seq<char>, Seq<char>)>,
}

pub open spec fn glsa_start() -> GlsaState {
    GlsaState {
        id: None,
        date: None,
        severity: None,
        packages: Seq::empty(),
        cves: Seq::empty(),
        atom: None,
        vulnerable: Seq::empty(),
        unaffected: Seq::empty(),
    }
}

/// The state with the package that is being read added to the packages.
pub open spec fn package_saved(s: GlsaState) -> GlsaState {
    match s.atom {
        Some(atom) => GlsaState {
            packages: s.packages.push(
                Affected {
                    atom,
                    vulnerable_ranges: s.vulnerable,
                    unaffected_ranges: s.unaffected,
                },
            ),
            atom: None,
            vulnerable: Seq::empty(),
            unaffected: Seq::empty(),
            ..s
        },
        None => s,
    }
}

/// Whether the node after a tag of this name belongs to it.
pub open spec fn takes_text(name: Seq<char>) -> bool {
    name == "announced"@ || name == "vulnerable"@ || name == "unaffected"@ || name == "uri"@
}

/// The state after a tag that takes no text.
pub open spec fn tag_read(
    s: GlsaState,
    name: Seq<char>,
    attrs: Seq<(Seq<char>, Seq<char>)>,
) -> GlsaState {
    if name == "glsa"@ {
        match last_attribute(attrs, "id"@) {
            Some(v) => GlsaState { id: Some("GLSA-"@ + v), ..s },
            None => s,
        }
    } else if name == "impact"@ {
        match last_attribute(attrs, "type"@) {
            Some(v) => GlsaState { severity: Some(v), ..s },
            None => s,
        }
    } else if name == "package"@ {
        GlsaState { atom: last_attribute(attrs, "name"@), ..package_saved(s) }
    } else {
        s
    }
}

/// The CVE identifiers in the link of a reference.
pub open spec fn linked_cves(attrs: Seq<(Seq<char>, Seq<char>)>) -> Seq<Seq<char>> {
    match last_attribute(attrs, "link"@) {
        Some(address) => regex_finds(CVE@, address),
        None => Seq::empty(),
    }
}

/// The identifiers of a list, with the first `n` of others that are not yet in it.
pub open spec fn with_unlisted(
    ids: Seq<Seq<char>>,
    others: Seq<Seq<char>>,
    n: nat,
) -> Seq<Seq<char>>
    decreases n,
{
    if n == 0 {
        ids
    } else {
        let done = with_unlisted(ids, others, (n - 1) as nat);
        if done.contains(others[n - 1]) {
            done
        } else {
            done.push(others[n - 1])
        }
    }
}

/// The state after a reference, with the identifiers in its link.
pub open spec fn link_read(
    s: GlsaState,
    name: Seq<char>,
    attrs: Seq<(Seq<char>, Seq<char>)>,
) -> GlsaState {
    if name == "uri"@ {
        let linked = linked_cves(attrs);
        GlsaState { cves: with_unlisted(s.cves, linked, linked.len()), ..s }
    } else {
        s
    }
}

/// The state after a tag that takes a text, with that text. `None` where the text
/// is needed and cannot be read. A range without an operator is passed over. The
/// identifiers of a reference are those in its text and those in its link.
pub open spec fn text_read(
    s: GlsaState,
    name: Seq<char>,
    attrs: Seq<(Seq<char>, Seq<char>)>,
    text: Option<Seq<char>>,
) -> Option<GlsaState> {
    if name == "announced"@ {
        match text {
            Some(t) => Some(GlsaState { date: Some(t), ..s }),
            None => None,
        }
    } else if name == "vulnerable"@ {
        match (first_attribute(attrs, "range"@, 0), text) {
            (None, _) => Some(s),
            (Some(_), None) => None,
            (Some(op), Some(t)) => Some(
                GlsaState { vulnerable: s.vulnerable.push((op, t)), ..s },
            ),
        }
    } else if name == "unaffected"@ {
        match (first_attribute(attrs, "range"@, 0), text) {
            (None, _) => Some(s),
            (Some(_), None) => None,
            (Some(op), Some(t)) => Some(
                GlsaState { unaffected: s.unaffected.push((op, t)), ..s },
            ),
        }
    } else {
        match text {
            Some(t) => Some(
                link_read(
                    GlsaState { cves: s.cves + regex_finds(CVE@, t), ..s },
                    name,
                    attrs,
                ),
            ),
            None => None,
        }
    }
}

/// The state after the nodes from `i` on. `None` where the document is not well
/// formed, or where a text cannot be read.
pub open spec fn glsa_from(nodes: Seq<Node>, i: int, s: GlsaState) -> Option<GlsaState>
    decreases nodes.len() - i,
{
    if i < 0 || i >= nodes.len() {
        Some(s)
    } else {
        match nodes[i] {
            Node::Failed(_) => None,
            Node::Close(name) => if name == "affected"@ {
                glsa_from(nodes, i + 1, package_saved(s))
            } else {
                glsa_from(nodes, i + 1, s)
            },
            Node::Open { name, attributes, closed } => if takes_text(name) {
                if i + 1 < nodes.len() {
                    match nodes[i + 1] {
                        Node::Text(t) => match text_read(s, name, attributes, t) {
                            Some(next) => glsa_from(nodes, i + 2, next),
                            None => None,
                        },
                        _ => glsa_from(nodes, i + 2, link_read(s, name, attributes)),
                    }
                } else {
                    Some(link_read(s, name, attributes))
                }
            } else {
                glsa_from(nodes, i + 1, tag_read(s, name, attributes))
            },
            _ => glsa_from(nodes, i + 1, s),
        }
    }
}

/// The advisory in the nodes of a document. One without an identifier or a date
/// is none.
pub open spec fn glsa_in(nodes: Seq<Node>) -> Option<Glsa> {
    match glsa_from(nodes, 0, glsa_start()) {
        Some(s) => match (s.id, s.date) {
            (Some(id), Some(date)) => Some(
                Glsa {
                    id,
                    date,
                    severity: s.severity,
                    affected_packages: s.packages,
                    cves: s.cves,
                },
            ),
            _ => None,
        },
        None => None,
    }
}

/// An advisory that is being read.
pub struct GlsaReading {
    pub id: Option<String>,
    pub date: Option<String>,
    pub severity: Option<String>,
    pub packages: Vec<GlsaAffectedPackage>,
    pub cves: Vec<String>,
    pub atom: Option<String>,
    pub vulnerable: Vec<(String, String)>,
    pub unaffected: Vec<(String, String)>,
}

impl View for GlsaReading {
    type V = GlsaState;

    open spec fn view(&self) -> GlsaState {
        GlsaState {
            id: opt(self.id),
            date: opt(self.date),
            severity: opt(self.severity),
            packages: glsa_affected_package_views(self.packages@),
            cves: views(self.cves@),
            atom: opt(self.atom),
            vulnerable: pairs_of(self.vulnerable@),
            unaffected: pairs_of(self.unaffected@),
        }
    }
}

fn save_package(s: GlsaReading) -> (r: GlsaReading)
    ensures
        r@ == package_saved(s@),
{
    match s.atom {
        Some(atom) => {
            let mut packages: Vec<GlsaAffectedPackage> = s.packages;
            let ghost was = packages@;
            let package: GlsaAffectedPackage = GlsaAffectedPackage {
                atom,
                vulnerable_ranges: s.vulnerable,
                unaffected_ranges: s.unaffected,
            };
            let ghost saved = package@;
            packages.push(package);
            proof {
                assert(glsa_affected_package_views(packages@) =~= glsa_affected_package_views(
                    was,
                ).push(saved));
                assert(pairs_of(Seq::<(String, String)>::empty()) =~= Seq::empty());
            }
            GlsaReading {
                id: s.id,
                date: s.date,
                severity: s.severity,
                packages,
                cves: s.cves,
                atom: None,
                vulnerable: Vec::new(),
                unaffected: Vec::new(),
            }
        },
        None => s,
    }
}

fn read_tag(s: GlsaReading, name: &str, attrs: &Vec<(String, String)>) -> (r: GlsaReading)
    ensures
        r@ == tag_read(s@, name@, pairs_of(attrs@)),
{
    let mut s: GlsaReading = s;
    if same(name, "glsa") {
        if let Some(v) = last_value_of(attrs, "id") {
            s.id = Some(cat2("GLSA-", &v));
        }
    } else if same(name, "impact") {
        if let Some(v) = last_value_of(attrs, "type") {
            s.severity = Some(v);
        }
    } else if same(name, "package") {
        s = save_package(s);
        s.atom = last_value_of(attrs, "name");
    }
    s
}

pub open spec fn maybe_reading(r: Option<GlsaReading>) -> Option<GlsaState> {
    match r {
        Some(x) => Some(x@),
        None => None,
    }
}

fn read_link(s: GlsaReading, name: &str, attrs: &Vec<(String, String)>) -> (r: GlsaReading)
    ensures
        r@ == link_read(s@, name@, pairs_of(attrs@)),
{
    let mut s: GlsaReading = s;
    if same(name, "uri") {
        if let Some(address) = last_value_of(attrs, "link") {
            let linked: Vec<String> = cves_in(&address);
            let ghost was = s@;
            let mut i: usize = 0;
            while i < linked.len()
                invariant
                    i <= linked.len(),
                    s@ == (GlsaState {
                        cves: with_unlisted(was.cves, views(linked@), i as nat),
                        ..was
                    }),
                decreases linked.len() - i,
            {
                assert(views(linked@)[i as int] == linked@[i as int]@);
                if !has_item(&s.cves, &linked[i]) {
                    s.cves.push(linked[i].clone());
                }
                i = i + 1;
            }
        }
    }
    s
}

fn take_text(
    s: GlsaReading,
    name: &str,
    attrs: &Vec<(String, String)>,
    text: &Option<String>,
) -> (r: Option<GlsaReading>)
    requires
        takes_text(name@),
    ensures
        maybe_reading(r) == text_read(s@, name@, pairs_of(attrs@), opt(*text)),
{
    let mut s: GlsaReading = s;
    if same(name, "announced") {
        match text {
            Some(t) => {
                s.date = Some(t.clone());
            },
            None => {
                return None;
            },
        }
    } else if same(name, "vulnerable") {
        if let Some(op) = first_value_of(attrs, "range") {
            match text {
                Some(t) => {
                    s.vulnerable.push((op, t.clone()));
                },
                None => {
                    return None;
                },
            }
        }
    } else if same(name, "unaffected") {
        if let Some(op) = first_value_of(attrs, "range") {
            match text {
                Some(t) => {
                    s.unaffected.push((op, t.clone()));
                },
                None => {
                    return None;
                },
            }
        }
    } else {
        match text {
            Some(t) => {
                let mut found: Vec<String> = cves_in(t);
                let ghost was = s.cves@;
                let ghost got = found@;
                s.cves.append(&mut found);
                assert(views(was + got) =~= views(was) + views(got));
                s = read_link(s, name, attrs);
            },
            None => {
                return None;
            },
        }
    }
    Some(s)
}

/// Reads the nodes of an advisory.
pub fn read_glsa(nodes: &Vec<XmlNode>) -> (r: Option<GlsaReading>)
    ensures
        maybe_reading(r) == glsa_from(node_views(nodes@), 0, glsa_start()),
{
    let mut s: GlsaReading = GlsaReading {
        id: None,
        date: None,
        severity: None,
        packages: Vec::new(),
        cves: Vec::new(),
        atom: None,
        vulnerable: Vec::new(),
        unaffected: Vec::new(),
    };
    let mut i: usize = 0;
    let ghost all = node_views(nodes@);
    proof {
        lemma_views_empty();
        assert(glsa_affected_package_views(s.packages@) =~= Seq::empty());
        assert(pairs_of(Seq::<(String, String)>::empty()) =~= Seq::empty());
        assert(s@ =~= glsa_start());
    }
    while i < nodes.len()
        invariant
            i <= nodes.len(),
            all == node_views(nodes@),
            glsa_from(all, 0, glsa_start()) == glsa_from(all, i as int, s@),
        decreases nodes.len() - i,
    {
        assert(all[i as int] == nodes@[i as int]@);
        match &nodes[i] {
            XmlNode::Failed(_) => {
                return None;
            },
            XmlNode::Close(name) => {
                if same(name, "affected") {
                    s = save_package(s);
                }
            },
            XmlNode::Open { name, attributes, closed } => {
                if same(name, "announced") || same(name, "vulnerable") || same(name, "unaffected")
                    || same(name, "uri") {
                    if nodes.len() - i < 2 {
                        return Some(read_link(s, name, attributes));
                    }
                    assert(all[i + 1] == nodes@[i + 1]@);
                    if let XmlNode::Text(t) = &nodes[i + 1] {
                        match take_text(s, name, attributes, t) {
                            Some(next) => {
                                s = next;
                            },
                            None => {
                                return None;
                            },
                        }
                    } else {
                        s = read_link(s, name, attributes);
                    }
                    i = i + 1;
                } else {
                    s = read_tag(s, name, attributes);
                }
            },
            _ => {},
        }
        i = i + 1;
    }
    Some(s)
}

pub open spec fn maybe_glsa(a: Option<GlsaAdvisory>) -> Option<Glsa> {
    match a {
        Some(x) => Some(x@),
        None => None,
    }
}

impl GlsaAdvisory {
    /// Reads an advisory out of the nodes of its document.
    pub fn from_nodes(nodes: &Vec<XmlNode>) -> (r: Option<Self>)
        ensures
            maybe_glsa(r) == glsa_in(node_views(nodes@)),
    {
        match read_glsa(nodes) {
            Some(s) => match (s.id, s.date) {
                (Some(id), Some(date)) => Some(
                    GlsaAdvisory {
                        id,
                        date,
                        severity: s.severity,
                        affected_packages: s.packages,
                        cves: s.cves,
                    },
                ),
                _ => None,
            },
            None => None,
        }
    }

    /// Reads an advisory out of its document; `None` where a required field is
    /// missing.
    pub fn from_xml(xml: &str) -> (r: Option<Self>)
        ensures
            maybe_glsa(r) == glsa_in(nodes_of(xml@)),
    {
        Self::from_nodes(&xml_nodes(xml))
    }
}

// ---------------------------------------------------------------------------
// The index

/// Whether the last segment of a link is that of an advisory: it starts with a
/// digit and holds a hyphen.
pub open spec fn is_glsa_number(s: Seq<char>) -> bool {
    contains(s, "-"@) && s.len() > 0 && is_digit(s[0])
}

/// The identifiers with that of a link added, where it is the link of an advisory.
pub open spec fn link_added(ids: Seq<Seq<char>>, link: Seq<char>) -> Seq<Seq<char>> {
    if is_glsa_number(last_segment(link)) {
        ids.push("GLSA-"@ + last_segment(link))
    } else {
        ids
    }
}

/// The identifiers in the index, from node `i` on; or why it cannot be read.
pub open spec fn index_from(nodes: Seq<Node>, i: int, ids: Seq<Seq<char>>) -> Result<
    Seq<Seq<char>>,
    Seq<char>,
>
    decreases nodes.len() - i,
{
    if i < 0 || i >= nodes.len() {
        Ok(ids)
    } else {
        match nodes[i] {
            Node::Failed(e) => Err("RSS parse error: "@ + e),
            Node::Open { name, attributes, closed } => if name == "link"@ && !closed {
                if i + 1 < nodes.len() {
                    match nodes[i + 1] {
                        Node::Text(t) => index_from(nodes, i + 2, link_added(ids, or_empty(t))),
                        _ => index_from(nodes, i + 2, ids),
                    }
                } else {
                    Ok(ids)
                }
            } else {
                index_from(nodes, i + 1, ids)
            },
            _ => index_from(nodes, i + 1, ids),
        }
    }
}

fn starts_with_digit(s: &str) -> (r: bool)
    ensures
        r == (s@.len() > 0 && is_digit(s@[0])),
{
    let cs: Vec<char> = chars_of(s);
    cs.len() > 0 && digit(cs[0])
}

/// Reads the identifiers out of the nodes of the index.
pub fn read_index(nodes: &Vec<XmlNode>) -> (r: Result<Vec<String>, String>)
    ensures
        names_outcome(r) == index_from(node_views(nodes@), 0, Seq::empty()),
{
    let mut ids: Vec<String> = Vec::new();
    let mut i: usize = 0;
    let ghost all = node_views(nodes@);
    proof {
        lemma_views_empty();
    }
    while i < nodes.len()
        invariant
            i <= nodes.len(),
            all == node_views(nodes@),
            index_from(all, 0, Seq::empty()) == index_from(all, i as int, views(ids@)),
        decreases nodes.len() - i,
    {
        assert(all[i as int] == nodes@[i as int]@);
        match &nodes[i] {
            XmlNode::Failed(e) => {
                return Err(cat2("RSS parse error: ", e));
            },
            XmlNode::Open { name, attributes, closed } => {
                if same(name, "link") && !*closed {
                    if nodes.len() - i < 2 {
                        return Ok(ids);
                    }
                    assert(all[i + 1] == nodes@[i + 1]@);
                    if let XmlNode::Text(t) = &nodes[i + 1] {
                        let link: String = match t {
                            Some(x) => x.clone(),
                            None => String::new(),
                        };
                        assert(link@ == or_empty(opt(*t)));
                        let last: String = final_segment(&link);
                        if has_text(&last, "-") && starts_with_digit(&last) {
                            ids.push(cat2("GLSA-", &last));
                        }
                    }
                    i = i + 1;
                }
            },
            _ => {},
        }
        i = i + 1;
    }
    Ok(ids)
}

/// The number of an advisory.
pub open spec fn glsa_number(id: Seq<char>) -> Seq<char> {
    match strip_prefix(id, "GLSA-"@) {
        Some(x) => x,
        None => id,
    }
}

fn number_of(id: &str) -> (r: String)
    ensures
        r@ == glsa_number(id@),
{
    match without_prefix(id, "GLSA-") {
        Some(x) => x,
        None => id.to_owned(),
    }
}

/// The query for the packages that match an atom.
pub open spec fn atom_query(atom: Seq<char>) -> Seq<char> {
    "PREFIX pkg: <"@ + PKG@
        + ">\nSELECT ?pkg WHERE {\n  GRAPH <https://packagegraph.github.io/graph/gentoo> {\n    ?pkg a pkg:SourcePackage ;\n         pkg:packageName \""@
        + atom + "\" .\n  }\n}"@
}

impl GlsaCollector {
    /// A collector of advisories, from a date on where one is given.
    pub fn new(since: Option<String>) -> (r: Self)
        ensures
            r.since == since,
            r.graph_uri is None,
    {
        GlsaCollector { since, graph_uri: None }
    }

    /// The collector with the graph that its statements belong to.
    pub fn with_graph(self, graph_uri: Option<String>) -> (r: Self)
        ensures
            r == (GlsaCollector { graph_uri, ..self }),
    {
        GlsaCollector { since: self.since, graph_uri }
    }

    /// Reads the identifiers of the advisories out of the index.
    pub fn parse_glsa_index(&self, xml: &str) -> (r: Result<Vec<String>, String>)
        ensures
            names_outcome(r) == index_from(nodes_of(xml@), 0, Seq::empty()),
    {
        read_index(&xml_nodes(xml))
    }

    /// Where the document of an advisory is.
    pub fn glsa_url(&self, id: &str) -> (r: String)
        ensures
            r@ == "https://security.gentoo.org/glsa/"@ + glsa_number(id@) + ".xml"@,
    {
        cat3("https://security.gentoo.org/glsa/", &number_of(id), ".xml")
    }

    /// The key under which the document of an advisory is kept.
    pub fn cache_key(&self, id: &str) -> (r: String)
        ensures
            r@ == "glsa-"@ + glsa_number(id@),
    {
        cat2("glsa-", &number_of(id))
    }

    /// The query for the packages that match an atom, whatever their version.
    pub fn packages_query(&self, atom: &str) -> (r: String)
        ensures
            r@ == atom_query(atom@),
    {
        cat5(
            "PREFIX pkg: <",
            PKG,
            ">\nSELECT ?pkg WHERE {\n  GRAPH <https://packagegraph.github.io/graph/gentoo> {\n    ?pkg a pkg:SourcePackage ;\n         pkg:packageName \"",
            atom,
            "\" .\n  }\n}",
        )
    }

    /// Whether an advisory is left out because it was announced before the date
    /// from which on advisories count.
    pub fn is_too_old(&self, date: &str) -> (r: bool)
        ensures
            r == announced_before(opt(self.since), date@),
    {
        match &self.since {
            Some(cutoff) => precedes(date, cutoff),
            None => false,
        }
    }
}

pub open spec fn announced_before(since: Option<Seq<char>>, date: Seq<char>) -> bool {
    match since {
        Some(cutoff) => before_text(date, cutoff),
        None => false,
    }
}

// ---------------------------------------------------------------------------
// Statements

/// The version from which on a package is not affected: the first that is known.
pub open spec fn with_fix(w: Sheet, range: Seq<char>, ranges: Seq<(Seq<char>, Seq<char>)>) -> Sheet {
    if ranges.len() == 0 {
        w
    } else {
        let node = range + "_fix0"@;
        let w = bnode_to_bnode(w, range, SEC@ + "hasRangeEvent"@, node);
        let w = bnode_subject(w, node, RDF_TYPE@, SEC@ + "RangeEvent"@);
        let w = bnode_subject(w, node, SEC@ + "eventType"@, sec_concept("event-"@, "fixed"@));
        bnode_literal(w, node, SEC@ + "eventVersion"@, ranges[0].1)
    }
}

fn emit_fix(writer: &mut NTriplesWriter, range: &str, ranges: &Vec<(String, String)>)
    ensures
        final(writer)@ == with_fix(old(writer)@, range@, pairs_of(ranges@)),
        final(writer)@.log.len() >= old(writer)@.log.len(),
{
    if ranges.len() > 0 {
        assert(pairs_of(ranges@)[0].1 == ranges@[0].1@);
        let node: String = cat2(range, "_fix0");
        writer.write_bnode_to_bnode(range, &cat2(SEC, "hasRangeEvent"), &node);
        writer.write_bnode_subject(&node, RDF_TYPE, &cat2(SEC, "RangeEvent"));
        writer.write_bnode_subject(&node, &cat2(SEC, "eventType"), &event_type_uri("fixed"));
        writer.write_bnode_literal(&node, &cat2(SEC, "eventVersion"), &ranges[0].1);
    }
}

/// The range of versions of a package that a vulnerability affects: from the
/// first version on, up to the first that is not affected. It belongs to the
/// vulnerability, not to the advisory.
pub open spec fn with_affected_range(
    w: Sheet,
    vulnerability: Seq<char>,
    id: Seq<char>,
    package: Affected,
) -> Sheet {
    let range = bnode_label("ar"@, id + "_"@ + package.atom);
    let w = bnode_object(w, vulnerability, SEC@ + "hasAffectedRange"@, range);
    let w = bnode_subject(w, range, RDF_TYPE@, SEC@ + "AffectedRange"@);
    let kind = sec_concept("range-"@, "ECOSYSTEM"@);
    let w = bnode_subject(w, range, SEC@ + "rangeType"@, kind);
    let intro = range + "_intro"@;
    let w = bnode_to_bnode(w, range, SEC@ + "hasRangeEvent"@, intro);
    let w = bnode_subject(w, intro, RDF_TYPE@, SEC@ + "RangeEvent"@);
    let introduced = sec_concept("event-"@, "introduced"@);
    let w = bnode_subject(w, intro, SEC@ + "eventType"@, introduced);
    let w = bnode_literal(w, intro, SEC@ + "eventVersion"@, "0"@);
    with_fix(w, range, package.unaffected_ranges)
}

/// The first `n` of `items`, in order.
pub open spec fn with_each_affected_range(
    w: Sheet,
    vulnerability: Seq<char>,
    id: Seq<char>,
    items: Seq<Affected>,
    n: nat,
) -> Sheet
    decreases n,
{
    if n == 0 {
        w
    } else {
        with_affected_range(
            with_each_affected_range(w, vulnerability, id, items, (n - 1) as nat),
            vulnerability,
            id,
            items[n - 1],
        )
    }
}

/// The range of versions of a package that a vulnerability affects: from the
/// first version on, up to the first that is not affected. It belongs to the
/// vulnerability, not to the advisory.
pub fn emit_affected_range(
    writer: &mut NTriplesWriter,
    vulnerability: &str,
    id: &str,
    package: &GlsaAffectedPackage,
) -> (r: usize)
    ensures
        final(writer)@ == with_affected_range(old(writer)@, vulnerability@, id@, package@),
        r == final(writer)@.log.len() - old(writer)@.log.len(),
{
    let start: usize = writer.len();
    let range: String = bnode_id("ar", &cat3(id, "_", &package.atom));
    writer.write_bnode_object(vulnerability, &cat2(SEC, "hasAffectedRange"), &range);
    writer.write_bnode_subject(&range, RDF_TYPE, &cat2(SEC, "AffectedRange"));
    let kind: String = range_type_uri("ECOSYSTEM");
    writer.write_bnode_subject(&range, &cat2(SEC, "rangeType"), &kind);
    let intro: String = cat2(&range, "_intro");
    writer.write_bnode_to_bnode(&range, &cat2(SEC, "hasRangeEvent"), &intro);
    writer.write_bnode_subject(&intro, RDF_TYPE, &cat2(SEC, "RangeEvent"));
    let introduced: String = event_type_uri("introduced");
    writer.write_bnode_subject(&intro, &cat2(SEC, "eventType"), &introduced);
    writer.write_bnode_literal(&intro, &cat2(SEC, "eventVersion"), "0");
    emit_fix(writer, &range, &package.unaffected_ranges);
    writer.len() - start
}

/// A vulnerability of an advisory, with the ranges of affected versions.
pub open spec fn with_vulnerability(
    w: Sheet,
    advisory: Seq<char>,
    a: Glsa,
    id: Seq<char>,
) -> Sheet {
    let cve = cve_iri(id);
    let w = link(w, advisory, SEC@ + "addressesVulnerability"@, cve);
    with_each_affected_range(w, cve, a.id, a.affected_packages, a.affected_packages.len())
}

/// The first `n` of `items`, in order.
pub open spec fn with_each_vulnerability(
    w: Sheet,
    advisory: Seq<char>,
    a: Glsa,
    items: Seq<Seq<char>>,
    n: nat,
) -> Sheet
    decreases n,
{
    if n == 0 {
        w
    } else {
        with_vulnerability(
            with_each_vulnerability(w, advisory, a, items, (n - 1) as nat),
            advisory,
            a,
            items[n - 1],
        )
    }
}

/// A vulnerability of an advisory, with the ranges of affected versions.
pub fn emit_vulnerability(
    writer: &mut NTriplesWriter,
    advisory: &str,
    a: &GlsaAdvisory,
    id: &str,
) -> (r: usize)
    ensures
        final(writer)@ == with_vulnerability(old(writer)@, advisory@, a@, id@),
        r == final(writer)@.log.len() - old(writer)@.log.len(),
{
    let start: usize = writer.len();
    let cve: String = cve_entity_uri(id);
    writer.write_triple(advisory, &cat2(SEC, "addressesVulnerability"), &cve);
    let ghost before_affected_range = writer@;
    let mut i: usize = 0;
    while i < a.affected_packages.len()
        invariant
            i <= a.affected_packages.len(),
            before_affected_range.log.len() <= writer@.log.len(),
            writer@ == with_each_affected_range(
                before_affected_range,
                cve@,
                a.id@,
                glsa_affected_package_views(a.affected_packages@),
                i as nat,
            ),
        decreases a.affected_packages.len() - i,
    {
        emit_affected_range(writer, &cve, &a.id, &a.affected_packages[i]);
        i = i + 1;
    }
    writer.len() - start
}

/// An advisory itself, with its vulnerabilities.
pub open spec fn with_advisory_head(w: Sheet, advisory: Seq<char>, a: Glsa) -> Sheet {
    let w = link(w, advisory, RDF_TYPE@, SEC@ + "SecurityAdvisory"@);
    let w = literal(w, advisory, SEC@ + "advisoryId"@, a.id);
    let category = sec_concept("category-"@, "security"@);
    let w = link(w, advisory, SEC@ + "advisoryType"@, category);
    let w = datetime(w, advisory, SEC@ + "advisoryDate"@, a.date + "T00:00:00Z"@);
    let w = match a.severity {
        Some(name) => {
            let w = match severity_iri(name) {
                Some(severity) => {
                    link(w, advisory, SEC@ + "advisorySeverity"@, severity)
                },
                None => w,
            };
            w
        },
        None => w,
    };
    with_each_vulnerability(w, advisory, a, a.cves, a.cves.len())
}

/// An advisory itself, with its vulnerabilities.
pub fn emit_advisory_head(
    writer: &mut NTriplesWriter,
    advisory: &str,
    a: &GlsaAdvisory,
) -> (r: usize)
    ensures
        final(writer)@ == with_advisory_head(old(writer)@, advisory@, a@),
        r == final(writer)@.log.len() - old(writer)@.log.len(),
        r >= 1,
{
    let start: usize = writer.len();
    writer.write_triple(advisory, RDF_TYPE, &cat2(SEC, "SecurityAdvisory"));
    writer.write_literal(advisory, &cat2(SEC, "advisoryId"), &a.id);
    let category: String = advisory_category_uri("security");
    writer.write_triple(advisory, &cat2(SEC, "advisoryType"), &category);
    writer.write_datetime(advisory, &cat2(SEC, "advisoryDate"), &cat2(&a.date, "T00:00:00Z"));
    if let Some(name) = &a.severity {
        if let Some(severity) = severity_concept_uri(name) {
            writer.write_triple(advisory, &cat2(SEC, "advisorySeverity"), &severity);
        }
    }
    let ghost before_vulnerability = writer@;
    let mut i: usize = 0;
    while i < a.cves.len()
        invariant
            i <= a.cves.len(),
            before_vulnerability.log.len() <= writer@.log.len(),
            writer@ == with_each_vulnerability(
                before_vulnerability,
                advisory@,
                a@,
                views(a.cves@),
                i as nat,
            ),
        decreases a.cves.len() - i,
    {
        emit_vulnerability(writer, advisory, a, &a.cves[i]);
        i = i + 1;
    }
    writer.len() - start
}

// ---------------------------------------------------------------------------
// What advisories say

/// The node of the range of versions of a package that an advisory affects.
pub open spec fn range_node(id: Seq<char>, atom: Seq<char>) -> Seq<char> {
    bnode_label("ar"@, id + "_"@ + atom)
}

/// What a range says by the kind of its events: it begins with an introduction, and ends
/// with a fix where a version is known that is not affected.
pub open spec fn event_kinds(id: Seq<char>, package: Affected) -> Seq<(Term, Term)> {
    let range = range_node(id, package.atom);
    let introduced = seq![(Term::Node(range + "_intro"@), Term::Iri(SEC@ + "event-introduced"@))];
    if package.unaffected_ranges.len() > 0 {
        introduced.push((Term::Node(range + "_fix0"@), Term::Iri(SEC@ + "event-fixed"@)))
    } else {
        introduced
    }
}

/// What a range says by the versions of its events: it begins with version zero, and ends
/// with the first version that is not affected.
pub open spec fn event_versions(id: Seq<char>, package: Affected) -> Seq<(Term, Term)> {
    let range = range_node(id, package.atom);
    let introduced = seq![(Term::Node(range + "_intro"@), Term::Text("0"@))];
    if package.unaffected_ranges.len() > 0 {
        introduced.push(
            (Term::Node(range + "_fix0"@), Term::Text(package.unaffected_ranges[0].1)),
        )
    } else {
        introduced
    }
}

/// The events of a range.
pub open spec fn events(id: Seq<char>, package: Affected) -> Seq<(Term, Term)> {
    let range = range_node(id, package.atom);
    let introduced = seq![(Term::Node(range), Term::Node(range + "_intro"@))];
    if package.unaffected_ranges.len() > 0 {
        introduced.push((Term::Node(range), Term::Node(range + "_fix0"@)))
    } else {
        introduced
    }
}

proof fn lemma_event_concepts()
    ensures
        sec_concept("event-"@, "introduced"@) == SEC@ + "event-introduced"@,
        sec_concept("event-"@, "fixed"@) == SEC@ + "event-fixed"@,
        sec_concept("range-"@, "ECOSYSTEM"@) == SEC@ + "range-ECOSYSTEM"@,
        sec_concept("category-"@, "security"@) == SEC@ + "category-security"@,
{
    reveal_strlit("event-");
    reveal_strlit("introduced");
    reveal_strlit("fixed");
    reveal_strlit("event-introduced");
    reveal_strlit("event-fixed");
    reveal_strlit("range-");
    reveal_strlit("ECOSYSTEM");
    reveal_strlit("range-ECOSYSTEM");
    reveal_strlit("category-");
    reveal_strlit("security");
    reveal_strlit("category-security");
    assert("event-"@ + "introduced"@ =~= "event-introduced"@);
    assert("event-"@ + "fixed"@ =~= "event-fixed"@);
    assert("range-"@ + "ECOSYSTEM"@ =~= "range-ECOSYSTEM"@);
    assert("category-"@ + "security"@ =~= "category-security"@);
    assert(SEC@ + "event-"@ + "introduced"@ =~= SEC@ + ("event-"@ + "introduced"@));
    assert(SEC@ + "event-"@ + "fixed"@ =~= SEC@ + ("event-"@ + "fixed"@));
    assert(SEC@ + "range-"@ + "ECOSYSTEM"@ =~= SEC@ + ("range-"@ + "ECOSYSTEM"@));
    assert(SEC@ + "category-"@ + "security"@ =~= SEC@ + ("category-"@ + "security"@));
}

/// What is said of the range of a package: that the vulnerability has it, and its events,
/// which are the introduction with version zero and, where a version is known that is not
/// affected, the fix with the first such version; by no other property anything.
pub proof fn lemma_affected_range_told(
    w: Sheet,
    vulnerability: Seq<char>,
    id: Seq<char>,
    package: Affected,
)
    ensures
        ({
            let before = w.log;
            let after = with_affected_range(w, vulnerability, id, package).log;
            let range = range_node(id, package.atom);
            &&& said(after, SEC@ + "hasAffectedRange"@) == said(before, SEC@ + "hasAffectedRange"@)
                + seq![(Term::Iri(vulnerability), Term::Node(range))]
            &&& said(after, SEC@ + "rangeType"@) == said(before, SEC@ + "rangeType"@) + seq![
                (Term::Node(range), Term::Iri(SEC@ + "range-ECOSYSTEM"@)),
            ]
            &&& said(after, SEC@ + "hasRangeEvent"@) == said(before, SEC@ + "hasRangeEvent"@)
                + events(id, package)
            &&& said(after, SEC@ + "eventType"@) == said(before, SEC@ + "eventType"@)
                + event_kinds(id, package)
            &&& said(after, SEC@ + "eventVersion"@) == said(before, SEC@ + "eventVersion"@)
                + event_versions(id, package)
            &&& said(after, SEC@ + "addressesVulnerability"@) == said(
                before,
                SEC@ + "addressesVulnerability"@,
            )
        }),
{
    broadcast use {group_reading, group_sec};

    reveal_strlit("hasAffectedRange");
    reveal_strlit("rangeType");
    reveal_strlit("hasRangeEvent");
    reveal_strlit("eventType");
    reveal_strlit("eventVersion");
    reveal_strlit("addressesVulnerability");
    lemma_event_concepts();
}

proof fn lemma_ranges_said(
    w: Sheet,
    vulnerability: Seq<char>,
    id: Seq<char>,
    items: Seq<Affected>,
    n: nat,
)
    ensures
        ({
            let before = w.log;
            let after = with_each_affected_range(w, vulnerability, id, items, n).log;
            &&& said(after, SEC@ + "hasAffectedRange"@) == said(before, SEC@ + "hasAffectedRange"@)
                + in_turn(
                |k: int|
                    seq![(Term::Iri(vulnerability), Term::Node(range_node(id, items[k].atom)))],
                n,
            )
            &&& said(after, SEC@ + "eventType"@) == said(before, SEC@ + "eventType"@) + in_turn(
                |k: int| event_kinds(id, items[k]),
                n,
            )
            &&& said(after, SEC@ + "eventVersion"@) == said(before, SEC@ + "eventVersion"@)
                + in_turn(|k: int| event_versions(id, items[k]), n)
            &&& said(after, SEC@ + "addressesVulnerability"@) == said(
                before,
                SEC@ + "addressesVulnerability"@,
            )
        }),
    decreases n,
{
    if n > 0 {
        lemma_ranges_said(w, vulnerability, id, items, (n - 1) as nat);
        lemma_affected_range_told(
            with_each_affected_range(w, vulnerability, id, items, (n - 1) as nat),
            vulnerability,
            id,
            items[n - 1],
        );
    }
}

/// What is said of the vulnerabilities of an advisory: that it addresses each of them, in
/// order, and no other; and of each, for every affected package, that it has a range whose
/// events are those of [`lemma_affected_range_told`].
pub proof fn lemma_vulnerabilities_told(
    w: Sheet,
    advisory: Seq<char>,
    a: Glsa,
    items: Seq<Seq<char>>,
    n: nat,
)
    ensures
        ({
            let before = w.log;
            let after = with_each_vulnerability(w, advisory, a, items, n).log;
            let size = a.affected_packages.len();
            &&& said(after, SEC@ + "addressesVulnerability"@) == said(
                before,
                SEC@ + "addressesVulnerability"@,
            ) + in_turn(|i: int| seq![to_iri(advisory, cve_iri(items[i]))], n)
            &&& said(after, SEC@ + "hasAffectedRange"@) == said(before, SEC@ + "hasAffectedRange"@)
                + in_turn(
                |i: int|
                    in_turn(
                        |k: int|
                            seq![
                                (
                                    Term::Iri(cve_iri(items[i])),
                                    Term::Node(range_node(a.id, a.affected_packages[k].atom)),
                                ),
                            ],
                        size,
                    ),
                n,
            )
            &&& said(after, SEC@ + "eventType"@) == said(before, SEC@ + "eventType"@) + in_turn(
                |i: int| in_turn(|k: int| event_kinds(a.id, a.affected_packages[k]), size),
                n,
            )
            &&& said(after, SEC@ + "eventVersion"@) == said(before, SEC@ + "eventVersion"@)
                + in_turn(
                |i: int| in_turn(|k: int| event_versions(a.id, a.affected_packages[k]), size),
                n,
            )
        }),
    decreases n,
{
    broadcast use {group_reading, group_sec};

    if n > 0 {
        lemma_vulnerabilities_told(w, advisory, a, items, (n - 1) as nat);
        let v = with_each_vulnerability(w, advisory, a, items, (n - 1) as nat);
        let cve = cve_iri(items[n - 1]);
        let u = link(v, advisory, SEC@ + "addressesVulnerability"@, cve);
        reveal_strlit("hasAffectedRange");
        reveal_strlit("eventType");
        reveal_strlit("eventVersion");
        reveal_strlit("addressesVulnerability");
        lemma_ranges_said(u, cve, a.id, a.affected_packages, a.affected_packages.len());
    }
}

/// What a query for the packages of an atom returned.
pub enum AtomReply {
    Packages(Vec<String>),
    Failed,
}

/// The packages that an atom resolved to; a failure resolves to none.
pub open spec fn resolved(r: AtomReply) -> Seq<Seq<char>> {
    match r {
        AtomReply::Packages(v) => views(v@),
        AtomReply::Failed => Seq::empty(),
    }
}

/// The links of an advisory to the packages of its first `n` atoms.
pub open spec fn with_links(w: Sheet, advisory: Seq<char>, replies: Seq<AtomReply>, n: nat) -> Sheet
    decreases n,
{
    if n == 0 {
        w
    } else {
        let packages = resolved(replies[n - 1]);
        with_each_package_link(
            with_links(w, advisory, replies, (n - 1) as nat),
            advisory,
            packages,
            packages.len(),
        )
    }
}

fn emit_links(writer: &mut NTriplesWriter, advisory: &str, replies: &Vec<AtomReply>)
    ensures
        final(writer)@ == with_links(old(writer)@, advisory@, replies@, replies@.len()),
        final(writer)@.log.len() >= old(writer)@.log.len(),
{
    let ghost before = writer@;
    let mut i: usize = 0;
    while i < replies.len()
        invariant
            i <= replies.len(),
            before.log.len() <= writer@.log.len(),
            writer@ == with_links(before, advisory@, replies@, i as nat),
        decreases replies.len() - i,
    {
        match &replies[i] {
            AtomReply::Packages(packages) => {
                emit_package_links(writer, advisory, packages);
            },
            AtomReply::Failed => {},
        }
        i = i + 1;
    }
}

/// Everything that an advisory gives, with what the queries for its atoms
/// returned.
pub open spec fn with_glsa(w: Sheet, a: Glsa, replies: Seq<AtomReply>) -> Sheet {
    let node = DATA@ + "advisory/gentoo/"@ + a.id;
    with_links(with_advisory_head(w, node, a), node, replies, replies.len())
}

/// The first `n` advisories, those left out because of their date aside.
pub open spec fn with_glsas(
    w: Sheet,
    c: GlsaCollector,
    advisories: Seq<Glsa>,
    replies: Seq<Vec<AtomReply>>,
    n: nat,
) -> Sheet
    decreases n,
{
    if n == 0 {
        w
    } else {
        let before = with_glsas(w, c, advisories, replies, (n - 1) as nat);
        if announced_before(opt(c.since), advisories[n - 1].date) {
            before
        } else {
            with_glsa(before, advisories[n - 1], replies[n - 1]@)
        }
    }
}

/// How many of the first `n` advisories are not left out.
pub open spec fn counted(since: Option<Seq<char>>, advisories: Seq<Glsa>, n: nat) -> nat
    decreases n,
{
    if n == 0 {
        0
    } else {
        counted(since, advisories, (n - 1) as nat) + if announced_before(
            since,
            advisories[n - 1].date,
        ) {
            0nat
        } else {
            1nat
        }
    }
}

impl GlsaCollector {
    /// Emits an advisory, given what the query for each of its atoms returned.
    pub fn emit_advisory(
        &self,
        writer: &mut NTriplesWriter,
        a: &GlsaAdvisory,
        replies: &Vec<AtomReply>,
    ) -> (r: usize)
        requires
            a.affected_packages@.len() == replies@.len(),
        ensures
            final(writer)@ == with_glsa(old(writer)@, a@, replies@),
            r == final(writer)@.log.len() - old(writer)@.log.len(),
    {
        let start: usize = writer.len();
        let node: String = cat3(DATA, "advisory/gentoo/", &a.id);
        emit_advisory_head(writer, &node, a);
        emit_links(writer, &node, replies);
        writer.len() - start
    }

    /// Emits advisories, given what the queries for their atoms returned. Returns
    /// how many advisories were not left out because of their date, and how many
    /// statements they gave.
    pub fn collect(
        &self,
        writer: &mut NTriplesWriter,
        advisories: &Vec<GlsaAdvisory>,
        replies: &Vec<Vec<AtomReply>>,
    ) -> (r: (usize, usize))
        requires
            advisories@.len() == replies@.len(),
            forall|i: int|
                0 <= i < advisories@.len() ==> (#[trigger] advisories@[i]).affected_packages@.len()
                    == replies@[i]@.len(),
        ensures
            final(writer)@ == with_glsas(
                old(writer)@,
                *self,
                glsa_advisory_views(advisories@),
                replies@,
                advisories@.len(),
            ),
            r.0 == counted(opt(self.since), glsa_advisory_views(advisories@), advisories@.len()),
            r.1 == final(writer)@.log.len() - old(writer)@.log.len(),
    {
        let start: usize = writer.len();
        let ghost before = writer@;
        let ghost all = glsa_advisory_views(advisories@);
        let mut count: usize = 0;
        let mut i: usize = 0;
        while i < advisories.len()
            invariant
                i <= advisories.len(),
                count <= i,
                all == glsa_advisory_views(advisories@),
                advisories@.len() == replies@.len(),
                forall|k: int|
                    0 <= k < advisories@.len() ==> (
                    #[trigger] advisories@[k]).affected_packages@.len() == replies@[k]@.len(),
                before.log.len() <= writer@.log.len(),
                count == counted(opt(self.since), all, i as nat),
                writer@ == with_glsas(before, *self, all, replies@, i as nat),
            decreases advisories.len() - i,
        {
            assert(all[i as int] == advisories@[i as int]@);
            if !self.is_too_old(&advisories[i].date) {
                self.emit_advisory(writer, &advisories[i], &replies[i]);
                count = count + 1;
            }
            i = i + 1;
        }
        (count, writer.len() - start)
    }
}

} // verus!
