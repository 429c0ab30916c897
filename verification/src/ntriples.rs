//! The statements of a graph, and their serialisation as N-Triples or N-Quads.
//!
//! A writer keeps the statements in the order in which they were written. What
//! the collectors promise is stated over that order; the text comes out of it
//! in [`NTriplesWriter::into_string`].

use crate::number::{integer, integer_of};
use crate::text::{cat2, chars_of, lemma_views_push, same, views};
use vstd::prelude::*;

verus! {

/// The core vocabulary.
pub const PKG: &'static str = "https://purl.org/packagegraph/ontology/core#";

pub const XSD: &'static str = "http://www.w3.org/2001/XMLSchema#";

/// The root of the resources of the graph.
pub const DATA: &'static str = "https://packagegraph.github.io/d/";

/// A statement, as the specifications see it.
pub enum Fact {
    /// An IRI, a predicate and an IRI.
    Link { s: Seq<char>, p: Seq<char>, o: Seq<char> },
    /// An IRI, a predicate and a plain literal.
    Text { s: Seq<char>, p: Seq<char>, value: Seq<char> },
    /// An IRI, a predicate and a literal with a datatype.
    Typed { s: Seq<char>, p: Seq<char>, value: Seq<char>, datatype: Seq<char> },
    /// An IRI, a predicate and a blank node.
    BnodeObject { s: Seq<char>, p: Seq<char>, node: Seq<char> },
    /// A blank node, a predicate and an IRI.
    BnodeSubject { node: Seq<char>, p: Seq<char>, o: Seq<char> },
    /// A blank node, a predicate and a plain literal.
    BnodeText { node: Seq<char>, p: Seq<char>, value: Seq<char> },
    /// A blank node, a predicate and a blank node.
    BnodeLink { node: Seq<char>, p: Seq<char>, other: Seq<char> },
    /// A line of N-Triples, as it was rendered before.
    Raw { line: Seq<char> },
}

/// A statement.
pub enum Statement {
    Link { s: String, p: String, o: String },
    Text { s: String, p: String, value: String },
    Typed { s: String, p: String, value: String, datatype: String },
    BnodeObject { s: String, p: String, node: String },
    BnodeSubject { node: String, p: String, o: String },
    BnodeText { node: String, p: String, value: String },
    BnodeLink { node: String, p: String, other: String },
    Raw { line: String },
}

impl View for Statement {
    type V = Fact;

    open spec fn view(&self) -> Fact {
        match self {
            Statement::Link { s, p, o } => Fact::Link { s: s@, p: p@, o: o@ },
            Statement::Text { s, p, value } => Fact::Text { s: s@, p: p@, value: value@ },
            Statement::Typed { s, p, value, datatype } => Fact::Typed {
                s: s@,
                p: p@,
                value: value@,
                datatype: datatype@,
            },
            Statement::BnodeObject { s, p, node } => Fact::BnodeObject {
                s: s@,
                p: p@,
                node: node@,
            },
            Statement::BnodeSubject { node, p, o } => Fact::BnodeSubject {
                node: node@,
                p: p@,
                o: o@,
            },
            Statement::BnodeText { node, p, value } => Fact::BnodeText {
                node: node@,
                p: p@,
                value: value@,
            },
            Statement::BnodeLink { node, p, other } => Fact::BnodeLink {
                node: node@,
                p: p@,
                other: other@,
            },
            Statement::Raw { line } => Fact::Raw { line: line@ },
        }
    }
}

pub open spec fn facts(v: Seq<Statement>) -> Seq<Fact> {
    v.map_values(|x: Statement| x@)
}

pub broadcast proof fn lemma_facts_push(v: Seq<Statement>, x: Statement)
    ensures
        #[trigger] facts(v.push(x)) == facts(v).push(x@),
{
    assert(facts(v.push(x)) =~= facts(v).push(x@));
}

/// What a writer holds.
#[verifier::ext_equal]
pub struct Sheet {
    /// The statements written, in order.
    pub log: Seq<Fact>,
    /// The statements that were written as definitions, each once.
    pub defined: Seq<Fact>,
    /// The graph that the statements belong to.
    pub graph: Option<Seq<char>>,
    /// How many statements replayed fragments left out.
    pub carried_skips: nat,
    /// How many inverses replayed fragments hold.
    pub carried_inverses: nat,
}

// ---------------------------------------------------------------------------
// What each write adds to a sheet

pub open spec fn fact(w: Sheet, f: Fact) -> Sheet {
    Sheet { log: w.log.push(f), ..w }
}

pub open spec fn link(w: Sheet, s: Seq<char>, p: Seq<char>, o: Seq<char>) -> Sheet {
    fact(w, Fact::Link { s, p, o })
}

pub open spec fn literal(w: Sheet, s: Seq<char>, p: Seq<char>, value: Seq<char>) -> Sheet {
    fact(w, Fact::Text { s, p, value })
}

/// A literal if there is a value, nothing otherwise.
pub open spec fn literal_if(
    w: Sheet,
    s: Seq<char>,
    p: Seq<char>,
    value: Option<Seq<char>>,
) -> Sheet {
    match value {
        Some(v) => literal(w, s, p, v),
        None => w,
    }
}

pub open spec fn typed(
    w: Sheet,
    s: Seq<char>,
    p: Seq<char>,
    value: Seq<char>,
    datatype: Seq<char>,
) -> Sheet {
    fact(w, Fact::Typed { s, p, value, datatype })
}

pub open spec fn xsd(local: Seq<char>) -> Seq<char> {
    XSD@ + local
}

pub open spec fn pkg(local: Seq<char>) -> Seq<char> {
    PKG@ + local
}

pub open spec fn number(w: Sheet, s: Seq<char>, p: Seq<char>, n: int) -> Sheet {
    typed(w, s, p, integer(n), xsd("integer"@))
}

pub open spec fn number_if(w: Sheet, s: Seq<char>, p: Seq<char>, n: Option<i64>) -> Sheet {
    match n {
        Some(v) => number(w, s, p, v as int),
        None => w,
    }
}

pub open spec fn truth(b: bool) -> Seq<char> {
    if b {
        "true"@
    } else {
        "false"@
    }
}

pub open spec fn boolean(w: Sheet, s: Seq<char>, p: Seq<char>, b: bool) -> Sheet {
    typed(w, s, p, truth(b), xsd("boolean"@))
}

pub open spec fn datetime(w: Sheet, s: Seq<char>, p: Seq<char>, value: Seq<char>) -> Sheet {
    typed(w, s, p, value, xsd("dateTime"@))
}

pub open spec fn date(w: Sheet, s: Seq<char>, p: Seq<char>, value: Seq<char>) -> Sheet {
    typed(w, s, p, value, xsd("date"@))
}

pub open spec fn bnode_object(w: Sheet, s: Seq<char>, p: Seq<char>, node: Seq<char>) -> Sheet {
    fact(w, Fact::BnodeObject { s, p, node })
}

pub open spec fn bnode_subject(w: Sheet, node: Seq<char>, p: Seq<char>, o: Seq<char>) -> Sheet {
    fact(w, Fact::BnodeSubject { node, p, o })
}

pub open spec fn bnode_literal(
    w: Sheet,
    node: Seq<char>,
    p: Seq<char>,
    value: Seq<char>,
) -> Sheet {
    fact(w, Fact::BnodeText { node, p, value })
}

pub open spec fn bnode_to_bnode(
    w: Sheet,
    node: Seq<char>,
    p: Seq<char>,
    other: Seq<char>,
) -> Sheet {
    fact(w, Fact::BnodeLink { node, p, other })
}

/// A definition is written unless the same definition was written before.
pub open spec fn define(w: Sheet, f: Fact) -> Sheet {
    if w.defined.contains(f) {
        w
    } else {
        Sheet { log: w.log.push(f), defined: w.defined.push(f), ..w }
    }
}

// ---------------------------------------------------------------------------
// Serialisation

/// Characters that no IRI may hold.
pub open spec fn iri_char(c: char) -> bool {
    &&& c > ' '
    &&& c != '<'
    &&& c != '>'
    &&& c != '"'
    &&& c != '{'
    &&& c != '}'
    &&& c != '|'
    &&& c != '^'
    &&& c != '`'
    &&& c != '\\'
}

pub open spec fn valid_iri(s: Seq<char>) -> bool {
    forall|i: int| 0 <= i < s.len() ==> iri_char(#[trigger] s[i])
}

/// Whether every IRI of a statement is valid. Statements that fail this are
/// left out of the serialisation.
pub open spec fn writable(f: Fact) -> bool {
    match f {
        Fact::Link { s, p, o } => valid_iri(s) && valid_iri(p) && valid_iri(o),
        Fact::Text { s, p, value } => valid_iri(s) && valid_iri(p),
        Fact::Typed { s, p, value, datatype } => valid_iri(s) && valid_iri(p) && valid_iri(
            datatype,
        ),
        Fact::BnodeObject { s, p, node } => valid_iri(s) && valid_iri(p),
        Fact::BnodeSubject { node, p, o } => valid_iri(p) && valid_iri(o),
        Fact::BnodeText { node, p, value } => valid_iri(p),
        Fact::BnodeLink { node, p, other } => valid_iri(p),
        Fact::Raw { line } => true,
    }
}

/// The statement that a release belongs to a distribution implies that the
/// distribution has the release.
pub open spec fn inverse(f: Fact) -> Option<Fact> {
    match f {
        Fact::Link { s, p, o } => if p == pkg("partOfDistribution"@)
            && crate::text::starts_with(s, DATA@ + "release/"@) {
            Some(Fact::Link { s: o, p: pkg("hasRelease"@), o: s })
        } else {
            None
        },
        _ => None,
    }
}

/// A character as it stands in a quoted literal.
pub open spec fn escape_char(c: char) -> Seq<char> {
    if c == '\\' {
        seq!['\\', '\\']
    } else if c == '"' {
        seq!['\\', '"']
    } else if c == '\n' {
        seq!['\\', 'n']
    } else if c == '\r' {
        seq!['\\', 'r']
    } else if c == '\t' {
        seq!['\\', 't']
    } else {
        seq![c]
    }
}

pub open spec fn escape(s: Seq<char>) -> Seq<char>
    decreases s.len(),
{
    if s.len() == 0 {
        Seq::empty()
    } else {
        escape(s.drop_last()) + escape_char(s.last())
    }
}

pub open spec fn angle(s: Seq<char>) -> Seq<char> {
    "<"@ + s + ">"@
}

pub open spec fn quoted(s: Seq<char>) -> Seq<char> {
    "\""@ + escape(s) + "\""@
}

pub open spec fn bnode(s: Seq<char>) -> Seq<char> {
    "_:"@ + s
}

pub open spec fn subject_text(f: Fact) -> Seq<char> {
    match f {
        Fact::Link { s, p, o } => angle(s),
        Fact::Text { s, p, value } => angle(s),
        Fact::Typed { s, p, value, datatype } => angle(s),
        Fact::BnodeObject { s, p, node } => angle(s),
        Fact::BnodeSubject { node, p, o } => bnode(node),
        Fact::BnodeText { node, p, value } => bnode(node),
        Fact::BnodeLink { node, p, other } => bnode(node),
        Fact::Raw { line } => Seq::empty(),
    }
}

pub open spec fn predicate_text(f: Fact) -> Seq<char> {
    match f {
        Fact::Link { s, p, o } => angle(p),
        Fact::Text { s, p, value } => angle(p),
        Fact::Typed { s, p, value, datatype } => angle(p),
        Fact::BnodeObject { s, p, node } => angle(p),
        Fact::BnodeSubject { node, p, o } => angle(p),
        Fact::BnodeText { node, p, value } => angle(p),
        Fact::BnodeLink { node, p, other } => angle(p),
        Fact::Raw { line } => Seq::empty(),
    }
}

pub open spec fn object_text(f: Fact) -> Seq<char> {
    match f {
        Fact::Link { s, p, o } => angle(o),
        Fact::Text { s, p, value } => quoted(value),
        Fact::Typed { s, p, value, datatype } => quoted(value) + "^^"@ + angle(datatype),
        Fact::BnodeObject { s, p, node } => bnode(node),
        Fact::BnodeSubject { node, p, o } => angle(o),
        Fact::BnodeText { node, p, value } => quoted(value),
        Fact::BnodeLink { node, p, other } => bnode(other),
        Fact::Raw { line } => Seq::empty(),
    }
}

pub open spec fn graph_text(graph: Option<Seq<char>>) -> Seq<char> {
    match graph {
        Some(g) => " "@ + angle(g),
        None => ""@,
    }
}

/// A line of N-Triples without its final full stop.
pub open spec fn open_line(l: Seq<char>) -> Seq<char> {
    match crate::text::strip_suffix(l, " ."@) {
        Some(x) => x,
        None => l,
    }
}

/// The line of one statement, without its line feed. A line that was rendered
/// before keeps its terms and gets the graph of this writer.
pub open spec fn line(f: Fact, graph: Option<Seq<char>>) -> Seq<char> {
    match f {
        Fact::Raw { line } => open_line(line) + graph_text(graph) + " ."@,
        _ => subject_text(f) + " "@ + predicate_text(f) + " "@ + object_text(f) + graph_text(graph)
            + " ."@,
    }
}

/// The lines that one statement gives.
pub open spec fn lines_of_fact(f: Fact, graph: Option<Seq<char>>) -> Seq<Seq<char>> {
    if !writable(f) {
        Seq::empty()
    } else {
        match inverse(f) {
            Some(g) => seq![line(f, graph), line(g, graph)],
            None => seq![line(f, graph)],
        }
    }
}

/// The lines of the serialisation.
pub open spec fn rendered(log: Seq<Fact>, graph: Option<Seq<char>>) -> Seq<Seq<char>>
    decreases log.len(),
{
    if log.len() == 0 {
        Seq::empty()
    } else {
        rendered(log.drop_last(), graph) + lines_of_fact(log.last(), graph)
    }
}

/// The text of lines, each ended by a line feed.
pub open spec fn text_of(lines: Seq<Seq<char>>) -> Seq<char>
    decreases lines.len(),
{
    if lines.len() == 0 {
        Seq::empty()
    } else {
        text_of(lines.drop_last()) + lines.last() + "\n"@
    }
}

proof fn lemma_text_push(lines: Seq<Seq<char>>, l: Seq<char>)
    ensures
        text_of(lines.push(l)) == text_of(lines) + l + "\n"@,
{
    assert(lines.push(l).drop_last() =~= lines);
}

/// Whether a text has no line break.
pub open spec fn unbroken(s: Seq<char>) -> bool {
    forall|i: int| 0 <= i < s.len() ==> #[trigger] s[i] != '\n' && s[i] != '\r'
}

/// Whether what a statement holds beside IRIs and values has no line break: the
/// names of its nodes, or the line that was rendered before.
pub open spec fn unbroken_names(f: Fact) -> bool {
    match f {
        Fact::BnodeObject { s, p, node } => unbroken(node),
        Fact::BnodeSubject { node, p, o } => unbroken(node),
        Fact::BnodeText { node, p, value } => unbroken(node),
        Fact::BnodeLink { node, p, other } => unbroken(node) && unbroken(other),
        Fact::Raw { line } => unbroken(line),
        _ => true,
    }
}

proof fn lemma_escape_unbroken(s: Seq<char>)
    ensures
        unbroken(escape(s)),
    decreases s.len(),
{
    if s.len() > 0 {
        lemma_escape_unbroken(s.drop_last());
    }
}

/// A statement that is written is one line, whatever its values hold.
pub proof fn lemma_statement_is_one_line(f: Fact, graph: Option<Seq<char>>)
    requires
        writable(f),
        unbroken_names(f),
        graph is Some ==> valid_iri(graph->0),
    ensures
        unbroken(line(f, graph)),
{
    reveal_strlit("<");
    reveal_strlit(">");
    reveal_strlit("\"");
    reveal_strlit("_:");
    reveal_strlit("^^");
    reveal_strlit(" ");
    reveal_strlit(" .");
    reveal_strlit("");
    match f {
        Fact::Text { s, p, value } => lemma_escape_unbroken(value),
        Fact::Typed { s, p, value, datatype } => lemma_escape_unbroken(value),
        Fact::BnodeText { node, p, value } => lemma_escape_unbroken(value),
        _ => {},
    }
    assert(unbroken(graph_text(graph)));
    assert(unbroken(subject_text(f)));
    assert(unbroken(predicate_text(f)));
    assert(unbroken(object_text(f)));
}

proof fn lemma_escape_of_first(s: Seq<char>)
    requires
        s.len() > 0,
    ensures
        escape(s) == escape_char(s[0]) + escape(s.drop_first()),
    decreases s.len(),
{
    if s.len() == 1 {
        assert(s.drop_last() =~= Seq::<char>::empty());
        assert(s.drop_first() =~= Seq::<char>::empty());
        assert(escape(s) =~= escape_char(s[0]) + escape(s.drop_first()));
    } else {
        lemma_escape_of_first(s.drop_last());
        assert(s.drop_last().drop_first() =~= s.drop_first().drop_last());
        assert(escape(s) =~= escape_char(s[0]) + escape(s.drop_first()));
    }
}

/// Values that differ are written differently.
pub proof fn lemma_values_are_told_apart(a: Seq<char>, b: Seq<char>)
    requires
        escape(a) == escape(b),
    ensures
        a == b,
    decreases a.len(),
{
    if a.len() > 0 {
        lemma_escape_of_first(a);
    }
    if b.len() > 0 {
        lemma_escape_of_first(b);
    }
    if a.len() == 0 || b.len() == 0 {
        assert(escape(a).len() == 0);
        assert(a =~= b);
    } else {
        let x = escape(a);
        let p = escape_char(a[0]);
        let q = escape_char(b[0]);
        assert(x[0] == p[0] && x[0] == q[0]);
        if x[0] == '\\' {
            assert(x[1] == p[1] && x[1] == q[1]);
        }
        assert(a[0] == b[0]);
        assert(x.skip(p.len() as int) =~= escape(a.drop_first()));
        assert(x.skip(p.len() as int) =~= escape(b.drop_first()));
        lemma_values_are_told_apart(a.drop_first(), b.drop_first());
        assert(a =~= seq![a[0]] + a.drop_first());
        assert(b =~= seq![b[0]] + b.drop_first());
    }
}

/// How many statements are left out because an IRI in them is not valid.
pub open spec fn skipped(log: Seq<Fact>) -> nat
    decreases log.len(),
{
    if log.len() == 0 {
        0
    } else {
        skipped(log.drop_last()) + if writable(log.last()) {
            0nat
        } else {
            1nat
        }
    }
}

/// How many statements are added as inverses of written ones.
pub open spec fn inverses(log: Seq<Fact>) -> nat
    decreases log.len(),
{
    if log.len() == 0 {
        0
    } else {
        inverses(log.drop_last()) + if writable(log.last()) && inverse(log.last()) is Some {
            1nat
        } else {
            0nat
        }
    }
}

/// The tally of writes matches the serialisation: every statement gives a line,
/// except those left out, and every inverse gives one more.
pub proof fn lemma_tally(log: Seq<Fact>, graph: Option<Seq<char>>)
    ensures
        rendered(log, graph).len() + skipped(log) == log.len() + inverses(log),
    decreases log.len(),
{
    if log.len() > 0 {
        lemma_tally(log.drop_last(), graph);
    }
}

proof fn lemma_counts(log: Seq<Fact>)
    ensures
        skipped(log) <= log.len(),
        inverses(log) <= log.len(),
    decreases log.len(),
{
    if log.len() > 0 {
        lemma_counts(log.drop_last());
    }
}

// ---------------------------------------------------------------------------
// Fragments

/// The statements of one item, rendered without a graph.
pub struct Fragment {
    /// How many statements were written.
    pub logical_triples: usize,
    pub skipped_invalid_iri: usize,
    pub auto_inverses: usize,
    pub lines: Vec<String>,
}

/// What a [`Fragment`] says.
#[verifier::ext_equal]
pub struct FragmentText {
    pub logical_triples: nat,
    pub skipped_invalid_iri: nat,
    pub auto_inverses: nat,
    pub lines: Seq<Seq<char>>,
}

impl View for Fragment {
    type V = FragmentText;

    open spec fn view(&self) -> FragmentText {
        FragmentText {
            logical_triples: self.logical_triples as nat,
            skipped_invalid_iri: self.skipped_invalid_iri as nat,
            auto_inverses: self.auto_inverses as nat,
            lines: views(self.lines@),
        }
    }
}

/// The fragment of a log.
pub open spec fn fragment_of(log: Seq<Fact>) -> FragmentText {
    FragmentText {
        logical_triples: log.len(),
        skipped_invalid_iri: skipped(log),
        auto_inverses: inverses(log),
        lines: rendered(log, None),
    }
}

pub open spec fn raw_facts(lines: Seq<Seq<char>>) -> Seq<Fact> {
    lines.map_values(|l: Seq<char>| Fact::Raw { line: l })
}

/// A sheet with the lines of a fragment written to it.
pub open spec fn replayed(w: Sheet, f: FragmentText) -> Sheet {
    Sheet {
        log: w.log + raw_facts(f.lines),
        carried_skips: w.carried_skips + f.skipped_invalid_iri,
        carried_inverses: w.carried_inverses + f.auto_inverses,
        ..w
    }
}

proof fn lemma_rendered_concat(a: Seq<Fact>, b: Seq<Fact>, graph: Option<Seq<char>>)
    ensures
        rendered(a + b, graph) == rendered(a, graph) + rendered(b, graph),
    decreases b.len(),
{
    if b.len() == 0 {
        assert(a + b =~= a);
        assert(rendered(a, graph) + rendered(b, graph) =~= rendered(a, graph));
    } else {
        assert((a + b).drop_last() =~= a + b.drop_last());
        lemma_rendered_concat(a, b.drop_last(), graph);
        assert(rendered(a + b, graph) =~= rendered(a, graph) + rendered(b, graph));
    }
}

proof fn lemma_raw_line(f: Fact, graph: Option<Seq<char>>)
    ensures
        line(Fact::Raw { line: line(f, None) }, graph) == line(f, graph),
{
    reveal_strlit(" .");
    reveal_strlit("");
    let terms = match f {
        Fact::Raw { line } => open_line(line),
        _ => subject_text(f) + " "@ + predicate_text(f) + " "@ + object_text(f),
    };
    assert(line(f, None) =~= terms + " ."@);
    assert(line(f, graph) =~= terms + graph_text(graph) + " ."@);
    assert((terms + " ."@).take(terms.len() as int) =~= terms);
    assert((terms + " ."@).skip(terms.len() as int) =~= " ."@);
    assert(open_line(terms + " ."@) =~= terms);
}

proof fn lemma_raw_rendered(lines: Seq<Seq<char>>, graph: Option<Seq<char>>)
    ensures
        rendered(raw_facts(lines), graph).len() == lines.len(),
        forall|i: int|
            0 <= i < lines.len() ==> #[trigger] rendered(raw_facts(lines), graph)[i] == line(
                (Fact::Raw { line: lines[i] }),
                graph,
            ),
    decreases lines.len(),
{
    if lines.len() > 0 {
        lemma_raw_rendered(lines.drop_last(), graph);
        assert(raw_facts(lines).drop_last() =~= raw_facts(lines.drop_last()));
        assert(raw_facts(lines).last() == (Fact::Raw { line: lines.last() }));
    }
}

proof fn lemma_lines_correspond(log: Seq<Fact>, graph: Option<Seq<char>>)
    ensures
        rendered(log, None).len() == rendered(log, graph).len(),
        forall|i: int|
            0 <= i < rendered(log, None).len() ==> line(
                (Fact::Raw { line: #[trigger] rendered(log, None)[i] }),
                graph,
            ) == rendered(log, graph)[i],
    decreases log.len(),
{
    if log.len() > 0 {
        lemma_lines_correspond(log.drop_last(), graph);
        let f = log.last();
        lemma_raw_line(f, graph);
        match inverse(f) {
            Some(g) => lemma_raw_line(g, graph),
            None => {},
        }
        let a = rendered(log.drop_last(), None);
        assert forall|i: int| 0 <= i < rendered(log, None).len() implies line(
            (Fact::Raw { line: #[trigger] rendered(log, None)[i] }),
            graph,
        ) == rendered(log, graph)[i] by {
            if i < a.len() {
                assert(rendered(log, None)[i] == a[i]);
            }
        }
    }
}

/// Replaying the fragment of a log gives the same serialisation, whatever the
/// graph, as writing the statements of that log.
pub proof fn lemma_replay_is_identical(w: Sheet, log: Seq<Fact>)
    ensures
        rendered(replayed(w, fragment_of(log)).log, w.graph) == rendered(w.log + log, w.graph),
{
    let lines = rendered(log, None);
    lemma_rendered_concat(w.log, raw_facts(lines), w.graph);
    lemma_rendered_concat(w.log, log, w.graph);
    lemma_raw_rendered(lines, w.graph);
    lemma_lines_correspond(log, w.graph);
    assert(rendered(raw_facts(lines), w.graph) =~= rendered(log, w.graph));
}

/// Replaying the fragment of a log carries the counts of that log over.
pub proof fn lemma_replay_keeps_counts(w: Sheet, log: Seq<Fact>)
    ensures
        ({
            let r = replayed(w, fragment_of(log));
            &&& skipped(r.log) + r.carried_skips == skipped(w.log + log) + w.carried_skips
            &&& inverses(r.log) + r.carried_inverses == inverses(w.log + log) + w.carried_inverses
        }),
{
    let lines = rendered(log, None);
    lemma_counts_concat(w.log, raw_facts(lines));
    lemma_counts_concat(w.log, log);
    lemma_raw_counts(lines);
}

proof fn lemma_counts_concat(a: Seq<Fact>, b: Seq<Fact>)
    ensures
        skipped(a + b) == skipped(a) + skipped(b),
        inverses(a + b) == inverses(a) + inverses(b),
    decreases b.len(),
{
    if b.len() == 0 {
        assert(a + b =~= a);
    } else {
        assert((a + b).drop_last() =~= a + b.drop_last());
        lemma_counts_concat(a, b.drop_last());
    }
}

proof fn lemma_raw_counts(lines: Seq<Seq<char>>)
    ensures
        skipped(raw_facts(lines)) == 0,
        inverses(raw_facts(lines)) == 0,
    decreases lines.len(),
{
    if lines.len() > 0 {
        lemma_raw_counts(lines.drop_last());
        assert(raw_facts(lines).drop_last() =~= raw_facts(lines.drop_last()));
    }
}

fn iri_ok(s: &str) -> (r: bool)
    ensures
        r == valid_iri(s@),
{
    let cs: Vec<char> = chars_of(s);
    let mut i: usize = 0;
    while i < cs.len()
        invariant
            i <= cs@.len(),
            cs@ == s@,
            forall|k: int| 0 <= k < i ==> iri_char(#[trigger] s@[k]),
        decreases cs@.len() - i,
    {
        let c: char = cs[i];
        let ok: bool = c > ' ' && c != '<' && c != '>' && c != '"' && c != '{' && c != '}' && c
            != '|' && c != '^' && c != '`' && c != '\\';
        if !ok {
            assert(!iri_char(s@[i as int]));
            return false;
        }
        i = i + 1;
    }
    true
}

fn is_writable(x: &Statement) -> (r: bool)
    ensures
        r == writable(x@),
{
    match x {
        Statement::Link { s, p, o } => iri_ok(s) && iri_ok(p) && iri_ok(o),
        Statement::Text { s, p, value } => iri_ok(s) && iri_ok(p),
        Statement::Typed { s, p, value, datatype } => iri_ok(s) && iri_ok(p) && iri_ok(datatype),
        Statement::BnodeObject { s, p, node } => iri_ok(s) && iri_ok(p),
        Statement::BnodeSubject { node, p, o } => iri_ok(p) && iri_ok(o),
        Statement::BnodeText { node, p, value } => iri_ok(p),
        Statement::BnodeLink { node, p, other } => iri_ok(p),
        Statement::Raw { line } => true,
    }
}

fn inverse_of(x: &Statement) -> (r: Option<Statement>)
    ensures
        r is Some <==> inverse(x@) is Some,
        r is Some ==> inverse(x@) == Some(r->0@),
{
    match x {
        Statement::Link { s, p, o } => {
            if same(p, &cat2(PKG, "partOfDistribution")) && crate::text::has_prefix(
                s,
                &cat2(DATA, "release/"),
            ) {
                Some(Statement::Link { s: o.clone(), p: cat2(PKG, "hasRelease"), o: s.clone() })
            } else {
                None
            }
        },
        _ => None,
    }
}

fn escaped(s: &str) -> (r: String)
    ensures
        r@ == escape(s@),
{
    let cs: Vec<char> = chars_of(s);
    let mut out: String = String::new();
    let mut i: usize = 0;
    assert(s@.take(0) =~= Seq::<char>::empty());
    while i < cs.len()
        invariant
            i <= cs@.len(),
            cs@ == s@,
            out@ == escape(s@.take(i as int)),
        decreases cs@.len() - i,
    {
        let c: char = cs[i];
        let ghost was = out@;
        if c == '\\' {
            out.push('\\');
            out.push('\\');
        } else if c == '"' {
            out.push('\\');
            out.push('"');
        } else if c == '\n' {
            out.push('\\');
            out.push('n');
        } else if c == '\r' {
            out.push('\\');
            out.push('r');
        } else if c == '\t' {
            out.push('\\');
            out.push('t');
        } else {
            out.push(c);
        }
        assert(out@ =~= was + escape_char(c));
        assert(s@.take(i + 1).drop_last() =~= s@.take(i as int));
        i = i + 1;
    }
    assert(s@.take(i as int) =~= s@);
    out
}

fn angled(s: &str) -> (r: String)
    ensures
        r@ == angle(s@),
{
    crate::text::cat3("<", s, ">")
}

fn in_quotes(s: &str) -> (r: String)
    ensures
        r@ == quoted(s@),
{
    crate::text::cat3("\"", &escaped(s), "\"")
}

fn node_text(s: &str) -> (r: String)
    ensures
        r@ == bnode(s@),
{
    cat2("_:", s)
}

fn render_line(x: &Statement, graph: &Option<String>) -> (r: String)
    ensures
        r@ == line(x@, crate::text::opt(*graph)),
{
    let tail: String = match graph {
        Some(g) => cat2(" ", &angled(g)),
        None => "".to_owned(),
    };
    if let Statement::Raw { line } = x {
        let terms: String = match crate::text::without_suffix(line, " .") {
            Some(y) => y,
            None => line.clone(),
        };
        return crate::text::cat3(&terms, &tail, " .");
    }
    let subject: String = match x {
        Statement::Link { s, p, o } => angled(s),
        Statement::Text { s, p, value } => angled(s),
        Statement::Typed { s, p, value, datatype } => angled(s),
        Statement::BnodeObject { s, p, node } => angled(s),
        Statement::BnodeSubject { node, p, o } => node_text(node),
        Statement::BnodeText { node, p, value } => node_text(node),
        Statement::BnodeLink { node, p, other } => node_text(node),
        Statement::Raw { line } => String::new(),
    };
    let predicate: String = match x {
        Statement::Link { s, p, o } => angled(p),
        Statement::Text { s, p, value } => angled(p),
        Statement::Typed { s, p, value, datatype } => angled(p),
        Statement::BnodeObject { s, p, node } => angled(p),
        Statement::BnodeSubject { node, p, o } => angled(p),
        Statement::BnodeText { node, p, value } => angled(p),
        Statement::BnodeLink { node, p, other } => angled(p),
        Statement::Raw { line } => String::new(),
    };
    let object: String = match x {
        Statement::Link { s, p, o } => angled(o),
        Statement::Text { s, p, value } => in_quotes(value),
        Statement::Typed { s, p, value, datatype } => crate::text::cat3(
            &in_quotes(value),
            "^^",
            &angled(datatype),
        ),
        Statement::BnodeObject { s, p, node } => node_text(node),
        Statement::BnodeSubject { node, p, o } => angled(o),
        Statement::BnodeText { node, p, value } => in_quotes(value),
        Statement::BnodeLink { node, p, other } => node_text(other),
        Statement::Raw { line } => String::new(),
    };
    let mut out: String = subject;
    out.append(" ");
    out.append(&predicate);
    out.append(" ");
    out.append(&object);
    out.append(&tail);
    out.append(" .");
    out
}

/// A writer of statements.
pub struct NTriplesWriter {
    log: Vec<Statement>,
    defined: Vec<Statement>,
    graph: Option<String>,
    carried_skips: usize,
    carried_inverses: usize,
}

impl View for NTriplesWriter {
    type V = Sheet;

    closed spec fn view(&self) -> Sheet {
        Sheet {
            log: facts(self.log@),
            defined: facts(self.defined@),
            graph: crate::text::opt(self.graph),
            carried_skips: self.carried_skips as nat,
            carried_inverses: self.carried_inverses as nat,
        }
    }
}

/// The sheet of a new writer.
pub open spec fn blank_sheet(graph: Option<Seq<char>>) -> Sheet {
    Sheet {
        log: Seq::empty(),
        defined: Seq::empty(),
        graph,
        carried_skips: 0,
        carried_inverses: 0,
    }
}

impl NTriplesWriter {
    /// A writer of N-Triples.
    pub fn new() -> (r: Self)
        ensures
            r@ == blank_sheet(None),
    {
        Self::new_maybe_graph(None)
    }

    /// A writer of N-Quads where a graph is named, of N-Triples otherwise.
    pub fn new_maybe_graph(graph: Option<String>) -> (r: Self)
        ensures
            r@ == blank_sheet(crate::text::opt(graph)),
    {
        let r: NTriplesWriter = NTriplesWriter {
            log: Vec::new(),
            defined: Vec::new(),
            graph,
            carried_skips: 0,
            carried_inverses: 0,
        };
        assert(facts(r.log@) =~= Seq::<Fact>::empty());
        assert(facts(r.defined@) =~= Seq::<Fact>::empty());
        r
    }

    /// How many statements were written.
    pub fn len(&self) -> (r: usize)
        ensures
            r == self@.log.len(),
    {
        self.log.len()
    }

    /// How many statements replayed fragments left out.
    pub fn carried_skips(&self) -> (r: usize)
        ensures
            r == self@.carried_skips,
    {
        self.carried_skips
    }

    /// How many inverses replayed fragments hold.
    pub fn carried_inverses(&self) -> (r: usize)
        ensures
            r == self@.carried_inverses,
    {
        self.carried_inverses
    }

    fn write(&mut self, x: Statement)
        ensures
            final(self)@ == fact(old(self)@, x@),
    {
        broadcast use lemma_facts_push;
        self.log.push(x);
    }

    pub fn write_triple(&mut self, s: &str, p: &str, o: &str)
        ensures
            final(self)@ == link(old(self)@, s@, p@, o@),
    {
        self.write(Statement::Link { s: s.to_owned(), p: p.to_owned(), o: o.to_owned() });
    }

    pub fn write_literal(&mut self, s: &str, p: &str, value: &str)
        ensures
            final(self)@ == literal(old(self)@, s@, p@, value@),
    {
        self.write(Statement::Text { s: s.to_owned(), p: p.to_owned(), value: value.to_owned() });
    }

    /// Writes a literal if there is a value.
    pub fn write_literal_if(&mut self, s: &str, p: &str, value: &Option<String>)
        ensures
            final(self)@ == literal_if(old(self)@, s@, p@, crate::text::opt(*value)),
    {
        match value {
            Some(v) => self.write_literal(s, p, v),
            None => {},
        }
    }

    pub fn write_typed_literal(&mut self, s: &str, p: &str, value: &str, datatype: &str)
        ensures
            final(self)@ == typed(old(self)@, s@, p@, value@, datatype@),
    {
        self.write(
            Statement::Typed {
                s: s.to_owned(),
                p: p.to_owned(),
                value: value.to_owned(),
                datatype: datatype.to_owned(),
            },
        );
    }

    pub fn write_integer(&mut self, s: &str, p: &str, n: i64)
        ensures
            final(self)@ == number(old(self)@, s@, p@, n as int),
    {
        self.write_typed_literal(s, p, &integer_of(n), &cat2(XSD, "integer"));
    }

    /// Writes an integer if there is one.
    pub fn write_integer_if(&mut self, s: &str, p: &str, n: Option<i64>)
        ensures
            final(self)@ == number_if(old(self)@, s@, p@, n),
    {
        match n {
            Some(v) => self.write_integer(s, p, v),
            None => {},
        }
    }

    pub fn write_boolean(&mut self, s: &str, p: &str, b: bool)
        ensures
            final(self)@ == boolean(old(self)@, s@, p@, b),
    {
        let value: &str = if b {
            "true"
        } else {
            "false"
        };
        self.write_typed_literal(s, p, value, &cat2(XSD, "boolean"));
    }

    pub fn write_datetime(&mut self, s: &str, p: &str, value: &str)
        ensures
            final(self)@ == datetime(old(self)@, s@, p@, value@),
    {
        self.write_typed_literal(s, p, value, &cat2(XSD, "dateTime"));
    }

    pub fn write_date(&mut self, s: &str, p: &str, value: &str)
        ensures
            final(self)@ == date(old(self)@, s@, p@, value@),
    {
        self.write_typed_literal(s, p, value, &cat2(XSD, "date"));
    }

    pub fn write_bnode_object(&mut self, s: &str, p: &str, node: &str)
        ensures
            final(self)@ == bnode_object(old(self)@, s@, p@, node@),
    {
        self.write(
            Statement::BnodeObject { s: s.to_owned(), p: p.to_owned(), node: node.to_owned() },
        );
    }

    pub fn write_bnode_subject(&mut self, node: &str, p: &str, o: &str)
        ensures
            final(self)@ == bnode_subject(old(self)@, node@, p@, o@),
    {
        self.write(
            Statement::BnodeSubject { node: node.to_owned(), p: p.to_owned(), o: o.to_owned() },
        );
    }

    pub fn write_bnode_literal(&mut self, node: &str, p: &str, value: &str)
        ensures
            final(self)@ == bnode_literal(old(self)@, node@, p@, value@),
    {
        self.write(
            Statement::BnodeText {
                node: node.to_owned(),
                p: p.to_owned(),
                value: value.to_owned(),
            },
        );
    }

    pub fn write_bnode_to_bnode(&mut self, node: &str, p: &str, other: &str)
        ensures
            final(self)@ == bnode_to_bnode(old(self)@, node@, p@, other@),
    {
        self.write(
            Statement::BnodeLink {
                node: node.to_owned(),
                p: p.to_owned(),
                other: other.to_owned(),
            },
        );
    }

    /// Writes a definition unless it was written before; tells whether it was
    /// written now.
    fn define(&mut self, x: Statement, copy: Statement) -> (r: bool)
        requires
            x@ == copy@,
        ensures
            final(self)@ == define(old(self)@, x@),
            r == !old(self)@.defined.contains(x@),
    {
        broadcast use lemma_facts_push;
        let mut i: usize = 0;
        while i < self.defined.len()
            invariant
                i <= self.defined@.len(),
                self@ == old(self)@,
                self.defined@ == old(self).defined@,
                forall|k: int| 0 <= k < i ==> self.defined@[k]@ != x@,
            decreases self.defined@.len() - i,
        {
            if same_statement(&self.defined[i], &x) {
                assert(facts(self.defined@)[i as int] == x@);
                return false;
            }
            i = i + 1;
        }
        assert(!facts(self.defined@).contains(x@)) by {
            if facts(self.defined@).contains(x@) {
                let k = choose|k: int|
                    0 <= k < facts(self.defined@).len() && facts(self.defined@)[k] == x@;
                assert(self.defined@[k]@ == x@);
            }
        }
        self.log.push(x);
        self.defined.push(copy);
        true
    }

    pub fn write_triple_once(&mut self, s: &str, p: &str, o: &str) -> (r: bool)
        ensures
            final(self)@ == define(old(self)@, Fact::Link { s: s@, p: p@, o: o@ }),
            r == !old(self)@.defined.contains(Fact::Link { s: s@, p: p@, o: o@ }),
    {
        self.define(
            Statement::Link { s: s.to_owned(), p: p.to_owned(), o: o.to_owned() },
            Statement::Link { s: s.to_owned(), p: p.to_owned(), o: o.to_owned() },
        )
    }

    pub fn write_literal_once(&mut self, s: &str, p: &str, value: &str) -> (r: bool)
        ensures
            final(self)@ == define(old(self)@, Fact::Text { s: s@, p: p@, value: value@ }),
            r == !old(self)@.defined.contains(Fact::Text { s: s@, p: p@, value: value@ }),
    {
        self.define(
            Statement::Text { s: s.to_owned(), p: p.to_owned(), value: value.to_owned() },
            Statement::Text { s: s.to_owned(), p: p.to_owned(), value: value.to_owned() },
        )
    }

    pub fn write_datetime_once(&mut self, s: &str, p: &str, value: &str) -> (r: bool)
        ensures
            final(self)@ == define(
                old(self)@,
                (Fact::Typed { s: s@, p: p@, value: value@, datatype: xsd("dateTime"@) }),
            ),
            r == !old(self)@.defined.contains(
                (Fact::Typed { s: s@, p: p@, value: value@, datatype: xsd("dateTime"@) }),
            ),
    {
        self.define(
            Statement::Typed {
                s: s.to_owned(),
                p: p.to_owned(),
                value: value.to_owned(),
                datatype: cat2(XSD, "dateTime"),
            },
            Statement::Typed {
                s: s.to_owned(),
                p: p.to_owned(),
                value: value.to_owned(),
                datatype: cat2(XSD, "dateTime"),
            },
        )
    }

    /// How many statements the serialisation leaves out because an IRI in them
    /// is not valid, those of replayed fragments counted in.
    pub fn skipped_invalid_iri(&self) -> (r: usize)
        requires
            skipped(self@.log) + self@.carried_skips <= usize::MAX,
        ensures
            r == skipped(self@.log) + self@.carried_skips,
    {
        let mut n: usize = 0;
        let mut i: usize = 0;
        assert(facts(self.log@).take(0) =~= Seq::<Fact>::empty());
        while i < self.log.len()
            invariant
                n <= i <= self.log@.len(),
                n == skipped(facts(self.log@).take(i as int)),
            decreases self.log@.len() - i,
        {
            assert(facts(self.log@).take(i + 1).drop_last() =~= facts(self.log@).take(i as int));
            if !is_writable(&self.log[i]) {
                n = n + 1;
            }
            i = i + 1;
        }
        assert(facts(self.log@).take(i as int) =~= facts(self.log@));
        n + self.carried_skips
    }

    /// How many inverse statements the serialisation adds, those of replayed
    /// fragments counted in.
    pub fn auto_inverses(&self) -> (r: usize)
        requires
            inverses(self@.log) + self@.carried_inverses <= usize::MAX,
        ensures
            r == inverses(self@.log) + self@.carried_inverses,
    {
        let mut n: usize = 0;
        let mut i: usize = 0;
        assert(facts(self.log@).take(0) =~= Seq::<Fact>::empty());
        while i < self.log.len()
            invariant
                n <= i <= self.log@.len(),
                n == inverses(facts(self.log@).take(i as int)),
            decreases self.log@.len() - i,
        {
            assert(facts(self.log@).take(i + 1).drop_last() =~= facts(self.log@).take(i as int));
            if is_writable(&self.log[i]) && inverse_of(&self.log[i]).is_some() {
                n = n + 1;
            }
            i = i + 1;
        }
        assert(facts(self.log@).take(i as int) =~= facts(self.log@));
        n + self.carried_inverses
    }

    /// The lines of the serialisation, without their line feeds.
    pub fn lines(&self) -> (r: Vec<String>)
        ensures
            views(r@) == rendered(self@.log, self@.graph),
    {
        broadcast use lemma_views_push;

        let mut out: Vec<String> = Vec::new();
        let mut i: usize = 0;
        let ghost log = facts(self.log@);
        let ghost graph = crate::text::opt(self.graph);
        assert(log.take(0) =~= Seq::<Fact>::empty());
        proof {
            crate::text::lemma_views_empty();
        }
        while i < self.log.len()
            invariant
                i <= self.log@.len(),
                log == facts(self.log@),
                graph == crate::text::opt(self.graph),
                views(out@) == rendered(log.take(i as int), graph),
            decreases self.log@.len() - i,
        {
            let ghost done = rendered(log.take(i as int), graph);
            proof {
                assert(log.take(i + 1).drop_last() =~= log.take(i as int));
                assert(log.take(i + 1).last() == self.log@[i as int]@);
            }
            if is_writable(&self.log[i]) {
                let first: String = render_line(&self.log[i], &self.graph);
                let ghost one = first@;
                out.push(first);
                match inverse_of(&self.log[i]) {
                    Some(back) => {
                        let second: String = render_line(&back, &self.graph);
                        let ghost two = second@;
                        out.push(second);
                        assert(done + seq![one, two] =~= done.push(one).push(two));
                    },
                    None => {
                        assert(done + seq![one] =~= done.push(one));
                    },
                }
            } else {
                assert(done + Seq::<Seq<char>>::empty() =~= done);
            }
            i = i + 1;
        }
        assert(log.take(i as int) =~= log);
        out
    }

    /// What was written, as a fragment that can be replayed into another writer.
    pub fn into_fragment(&self) -> (r: Fragment)
        requires
            self@.graph is None,
            self@.carried_skips == 0,
            self@.carried_inverses == 0,
        ensures
            r@ == fragment_of(self@.log),
    {
        proof {
            lemma_counts(self@.log);
        }
        let n: usize = self.len();
        Fragment {
            logical_triples: n,
            skipped_invalid_iri: self.skipped_invalid_iri(),
            auto_inverses: self.auto_inverses(),
            lines: self.lines(),
        }
    }

    /// Writes the lines of a fragment, and carries its counts over.
    pub fn replay(&mut self, fragment: &Fragment)
        requires
            old(self)@.carried_skips + fragment.skipped_invalid_iri <= usize::MAX,
            old(self)@.carried_inverses + fragment.auto_inverses <= usize::MAX,
        ensures
            final(self)@ == replayed(old(self)@, fragment@),
    {
        let mut i: usize = 0;
        let ghost lines = views(fragment.lines@);
        assert(raw_facts(lines.take(0)) =~= Seq::<Fact>::empty());
        while i < fragment.lines.len()
            invariant
                i <= fragment.lines.len(),
                lines == views(fragment.lines@),
                self@ == (Sheet {
                    log: old(self)@.log + raw_facts(lines.take(i as int)),
                    ..old(self)@
                }),
            decreases fragment.lines.len() - i,
        {
            self.write(Statement::Raw { line: fragment.lines[i].clone() });
            proof {
                assert(lines[i as int] == fragment.lines@[i as int]@);
                assert(raw_facts(lines.take(i + 1)) =~= raw_facts(lines.take(i as int)).push(
                    (Fact::Raw { line: lines[i as int] }),
                ));
            }
            i = i + 1;
        }
        assert(lines.take(i as int) =~= lines);
        self.carried_skips = self.carried_skips + fragment.skipped_invalid_iri;
        self.carried_inverses = self.carried_inverses + fragment.auto_inverses;
    }

    /// The serialisation of everything written.
    pub fn into_string(&self) -> (r: String)
        ensures
            r@ == text_of(rendered(self@.log, self@.graph)),
    {
        let mut out: String = String::new();
        let mut i: usize = 0;
        let ghost log = facts(self.log@);
        let ghost graph = crate::text::opt(self.graph);
        assert(log.take(0) =~= Seq::<Fact>::empty());
        while i < self.log.len()
            invariant
                i <= self.log@.len(),
                log == facts(self.log@),
                graph == crate::text::opt(self.graph),
                out@ == text_of(rendered(log.take(i as int), graph)),
            decreases self.log@.len() - i,
        {
            let ghost done = rendered(log.take(i as int), graph);
            proof {
                assert(log.take(i + 1).drop_last() =~= log.take(i as int));
                assert(log.take(i + 1).last() == self.log@[i as int]@);
            }
            if is_writable(&self.log[i]) {
                let first: String = render_line(&self.log[i], &self.graph);
                out.append(&first);
                out.append("\n");
                proof {
                    lemma_text_push(done, first@);
                }
                match inverse_of(&self.log[i]) {
                    Some(back) => {
                        let second: String = render_line(&back, &self.graph);
                        out.append(&second);
                        out.append("\n");
                        proof {
                            lemma_text_push(done.push(first@), second@);
                        }
                        assert(done + seq![first@, second@] =~= done.push(first@).push(second@));
                    },
                    None => {
                        assert(done + seq![first@] =~= done.push(first@));
                    },
                }
            } else {
                assert(done + Seq::<Seq<char>>::empty() =~= done);
            }
            i = i + 1;
        }
        assert(log.take(i as int) =~= log);
        out
    }
}

fn same_statement(a: &Statement, b: &Statement) -> (r: bool)
    ensures
        r == (a@ == b@),
{
    match (a, b) {
        (Statement::Link { s, p, o }, Statement::Link { s: s2, p: p2, o: o2 }) => *s == *s2 && *p
            == *p2 && *o == *o2,
        (Statement::Text { s, p, value }, Statement::Text { s: s2, p: p2, value: v2 }) => *s == *s2
            && *p == *p2 && *value == *v2,
        (
            Statement::Typed { s, p, value, datatype },
            Statement::Typed { s: s2, p: p2, value: v2, datatype: d2 },
        ) => *s == *s2 && *p == *p2 && *value == *v2 && *datatype == *d2,
        (
            Statement::BnodeObject { s, p, node },
            Statement::BnodeObject { s: s2, p: p2, node: n2 },
        ) => *s == *s2 && *p == *p2 && *node == *n2,
        (
            Statement::BnodeSubject { node, p, o },
            Statement::BnodeSubject { node: n2, p: p2, o: o2 },
        ) => *node == *n2 && *p == *p2 && *o == *o2,
        (
            Statement::BnodeText { node, p, value },
            Statement::BnodeText { node: n2, p: p2, value: v2 },
        ) => *node == *n2 && *p == *p2 && *value == *v2,
        (
            Statement::BnodeLink { node, p, other },
            Statement::BnodeLink { node: n2, p: p2, other: o2 },
        ) => *node == *n2 && *p == *p2 && *other == *o2,
        (Statement::Raw { line }, Statement::Raw { line: l2 }) => *line == *l2,
        _ => false,
    }
}

/// The label of a blank node: a kind, and the digest of what it stands for.
pub open spec fn bnode_label(kind: Seq<char>, input: Seq<char>) -> Seq<char> {
    kind + "_"@ + crate::number::hex(crate::digest::sha256(vstd::utf8::encode_utf8(input)))
}

/// A label that is a function of the kind and the input, so that the same node
/// gets the same label in every run.
pub fn bnode_id(kind: &str, input: &str) -> (r: String)
    ensures
        r@ == bnode_label(kind@, input@),
{
    crate::text::cat3(kind, "_", &crate::digest::sha256_hex(input.as_bytes()))
}

} // verus!
