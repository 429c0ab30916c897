//! What a log says: the statements by their property, in order.

use crate::number::integer;
use crate::ntriples::{
    bnode_literal, bnode_object, bnode_subject, bnode_to_bnode, link, literal, literal_if, number_if,
    pkg, truth, typed, xsd, Fact, Sheet, PKG,
};
use crate::uris::{APK, ARCH, BUILDROOT, CARGO, CHOCO, CONDA, CPAN, CRAN, DEB, FOAF, OPENWRT, PROV, RDFS_LABEL, RDF_TYPE, RPM, SEC, VCS};
use vstd::prelude::*;

verus! {

/// What a statement is about, or what it gives.
pub enum Term {
    Iri(Seq<char>),
    Node(Seq<char>),
    Text(Seq<char>),
    Typed(Seq<char>, Seq<char>),
}

/// The property of a statement; a line that was rendered before has none.
pub open spec fn property(f: Fact) -> Option<Seq<char>> {
    match f {
        Fact::Link { s, p, o } => Some(p),
        Fact::Text { s, p, value } => Some(p),
        Fact::Typed { s, p, value, datatype } => Some(p),
        Fact::BnodeObject { s, p, node } => Some(p),
        Fact::BnodeSubject { node, p, o } => Some(p),
        Fact::BnodeText { node, p, value } => Some(p),
        Fact::BnodeLink { node, p, other } => Some(p),
        Fact::Raw { line } => None,
    }
}

/// What a statement is about, and what it gives.
pub open spec fn ends(f: Fact) -> (Term, Term) {
    match f {
        Fact::Link { s, p, o } => (Term::Iri(s), Term::Iri(o)),
        Fact::Text { s, p, value } => (Term::Iri(s), Term::Text(value)),
        Fact::Typed { s, p, value, datatype } => (Term::Iri(s), Term::Typed(value, datatype)),
        Fact::BnodeObject { s, p, node } => (Term::Iri(s), Term::Node(node)),
        Fact::BnodeSubject { node, p, o } => (Term::Node(node), Term::Iri(o)),
        Fact::BnodeText { node, p, value } => (Term::Node(node), Term::Text(value)),
        Fact::BnodeLink { node, p, other } => (Term::Node(node), Term::Node(other)),
        Fact::Raw { line } => (Term::Text(line), Term::Text(line)),
    }
}

/// Everything that a log says by a property: what of, and what.
pub open spec fn said(log: Seq<Fact>, p: Seq<char>) -> Seq<(Term, Term)>
    decreases log.len(),
{
    if log.len() == 0 {
        Seq::empty()
    } else {
        let before = said(log.drop_last(), p);
        if property(log.last()) == Some(p) {
            before.push(ends(log.last()))
        } else {
            before
        }
    }
}

pub broadcast proof fn lemma_said_push(log: Seq<Fact>, f: Fact, p: Seq<char>)
    ensures
        #[trigger] said(log.push(f), p) == if property(f) == Some(p) {
            said(log, p).push(ends(f))
        } else {
            said(log, p)
        },
{
    assert(log.push(f).drop_last() =~= log);
}

/// A link from an IRI to an IRI.
pub open spec fn to_iri(s: Seq<char>, o: Seq<char>) -> (Term, Term) {
    (Term::Iri(s), Term::Iri(o))
}

/// A text that an IRI has.
pub open spec fn to_text(s: Seq<char>, value: Seq<char>) -> (Term, Term) {
    (Term::Iri(s), Term::Text(value))
}

/// Links from an IRI to each of these.
pub open spec fn to_each(s: Seq<char>, items: Seq<Seq<char>>) -> Seq<(Term, Term)> {
    items.map_values(|o: Seq<char>| to_iri(s, o))
}

/// A link from an IRI to an IRI, where there is one.
pub open spec fn to_any(s: Seq<char>, o: Option<Seq<char>>) -> Seq<(Term, Term)> {
    match o {
        Some(x) => seq![to_iri(s, x)],
        None => Seq::empty(),
    }
}

/// A text that an IRI has, where there is one.
pub open spec fn text_if(s: Seq<char>, value: Option<Seq<char>>) -> Seq<(Term, Term)> {
    match value {
        Some(v) => seq![to_text(s, v)],
        None => Seq::empty(),
    }
}

/// A number that is said of an IRI.
pub open spec fn to_number(s: Seq<char>, n: int) -> (Term, Term) {
    (Term::Iri(s), Term::Typed(integer(n), xsd("integer"@)))
}

/// A number that is said of an IRI, where there is one.
pub open spec fn number_if_any(s: Seq<char>, n: Option<i64>) -> Seq<(Term, Term)> {
    match n {
        Some(v) => seq![to_number(s, v as int)],
        None => Seq::empty(),
    }
}

/// What is said where a condition holds.
pub open spec fn where_so(b: bool, list: Seq<(Term, Term)>) -> Seq<(Term, Term)> {
    if b {
        list
    } else {
        Seq::empty()
    }
}

/// A truth that is said of an IRI.
pub open spec fn to_truth(s: Seq<char>, b: bool) -> (Term, Term) {
    (Term::Iri(s), Term::Typed(truth(b), xsd("boolean"@)))
}

/// What each of the first `n` says, one after the other.
pub open spec fn in_turn(rows: spec_fn(int) -> Seq<(Term, Term)>, n: nat) -> Seq<(Term, Term)>
    decreases n,
{
    if n == 0 {
        Seq::empty()
    } else {
        in_turn(rows, (n - 1) as nat) + rows(n - 1)
    }
}

/// What one of them says is among what they all say.
pub proof fn lemma_in_turn(rows: spec_fn(int) -> Seq<(Term, Term)>, n: nat, i: int, x: (Term, Term))
    requires
        0 <= i < n,
        rows(i).contains(x),
    ensures
        in_turn(rows, n).contains(x),
    decreases n,
{
    let before = in_turn(rows, (n - 1) as nat);
    let all = in_turn(rows, n);
    if i < n - 1 {
        lemma_in_turn(rows, (n - 1) as nat, i, x);
        let j: int = before.index_of(x);
        assert(all[j] == x);
    } else {
        let j: int = rows(i).index_of(x);
        assert(all[before.len() + j] == x);
    }
}

/// What they all say, one of them says.
pub proof fn lemma_of_in_turn(rows: spec_fn(int) -> Seq<(Term, Term)>, n: nat, x: (Term, Term))
    requires
        in_turn(rows, n).contains(x),
    ensures
        exists|i: int| 0 <= i < n && #[trigger] rows(i).contains(x),
    decreases n,
{
    if n > 0 {
        let before = in_turn(rows, (n - 1) as nat);
        let j: int = in_turn(rows, n).index_of(x);
        if j < before.len() {
            assert(before[j] == x);
            lemma_of_in_turn(rows, (n - 1) as nat, x);
        } else {
            assert(rows(n - 1)[j - before.len()] == x);
            assert(rows(n - 1).contains(x));
        }
    }
}

/// How many of these say a certain thing.
pub open spec fn tally(list: Seq<(Term, Term)>, o: Term) -> nat
    decreases list.len(),
{
    if list.len() == 0 {
        0
    } else {
        tally(list.drop_last(), o) + if list.last().1 == o {
            1nat
        } else {
            0nat
        }
    }
}

/// How often a log says a certain thing by a property.
pub open spec fn times_said(log: Seq<Fact>, p: Seq<char>, o: Term) -> nat {
    tally(said(log, p), o)
}

pub broadcast proof fn lemma_tally_one(list: Seq<(Term, Term)>, x: (Term, Term), o: Term)
    ensures
        #[trigger] tally(list + seq![x], o) == tally(list, o) + if x.1 == o {
            1nat
        } else {
            0nat
        },
{
    assert((list + seq![x]).drop_last() =~= list);
    assert((list + seq![x]).last() == x);
}

pub broadcast proof fn lemma_tally_none(list: Seq<(Term, Term)>, o: Term)
    ensures
        #[trigger] tally(list + Seq::<(Term, Term)>::empty(), o) == tally(list, o),
{
    assert(list + Seq::<(Term, Term)>::empty() =~= list);
}

// ---------------------------------------------------------------------------
// Properties differ where their names do

pub broadcast proof fn lemma_core_names(a: Seq<char>, b: Seq<char>)
    ensures
        #![trigger pkg(a), pkg(b)]
        pkg(a) == pkg(b) ==> {
            &&& a == b
            &&& a.len() == b.len()
            &&& a[0] == b[0]
            &&& a[1] == b[1]
            &&& a[3] == b[3]
            &&& a[7] == b[7]
            &&& a[10] == b[10]
            &&& a[a.len() - 1] == b[b.len() - 1]
        },
{
    if pkg(a) == pkg(b) {
        assert(pkg(a).skip(PKG@.len() as int) =~= a);
        assert(pkg(b).skip(PKG@.len() as int) =~= b);
    }
}

/// No property of the core vocabulary is one of those of RDF.
pub broadcast proof fn lemma_core_is_not_rdf(a: Seq<char>)
    ensures
        #[trigger] pkg(a) != RDF_TYPE@,
        pkg(a) != RDFS_LABEL@,
        RDF_TYPE@ != RDFS_LABEL@,
{
    reveal_strlit("http://www.w3.org/1999/02/22-rdf-syntax-ns#type");
    reveal_strlit("http://www.w3.org/2000/01/rdf-schema#label");
    reveal_strlit("https://purl.org/packagegraph/ontology/core#");
    assert(RDF_TYPE@[4] == ':');
    assert(RDFS_LABEL@[4] == ':');
    assert(pkg(a)[4] == 's');
    assert(RDF_TYPE@[18] == '1');
    assert(RDFS_LABEL@[18] == '2');
}

/// Two properties of the Debian vocabulary differ where their names do.
pub broadcast proof fn lemma_deb_names(a: Seq<char>, b: Seq<char>)
    ensures
        #![trigger DEB@ + a, DEB@ + b]
        DEB@ + a == DEB@ + b ==> {
            &&& a == b
            &&& a.len() == b.len()
            &&& a[0] == b[0]
            &&& a[1] == b[1]
            &&& a[3] == b[3]
            &&& a[8] == b[8]
            &&& a[a.len() - 1] == b[b.len() - 1]
        },
{
    if DEB@ + a == DEB@ + b {
        assert((DEB@ + a).skip(DEB@.len() as int) =~= a);
        assert((DEB@ + b).skip(DEB@.len() as int) =~= b);
    }
}

/// No property of the Debian vocabulary is one of the core vocabulary.
pub broadcast proof fn lemma_deb_is_not_core(a: Seq<char>, b: Seq<char>)
    ensures
        #![trigger DEB@ + a, pkg(b)]
        DEB@ + a != pkg(b),
{
    reveal_strlit("https://purl.org/packagegraph/ontology/core#");
    reveal_strlit("https://purl.org/packagegraph/ontology/deb#");
    assert((DEB@ + a)[39] == 'd');
    assert(pkg(b)[39] == 'c');
}

/// No property of the Debian vocabulary is one of those of RDF.
pub broadcast proof fn lemma_deb_is_not_rdf(a: Seq<char>)
    ensures
        #[trigger] (DEB@ + a) != RDF_TYPE@,
        DEB@ + a != RDFS_LABEL@,
{
    reveal_strlit("http://www.w3.org/1999/02/22-rdf-syntax-ns#type");
    reveal_strlit("http://www.w3.org/2000/01/rdf-schema#label");
    reveal_strlit("https://purl.org/packagegraph/ontology/deb#");
    assert(RDF_TYPE@[4] == ':');
    assert(RDFS_LABEL@[4] == ':');
    assert((DEB@ + a)[4] == 's');
}

pub broadcast group group_deb {
    lemma_deb_names,
    lemma_deb_is_not_core,
    lemma_deb_is_not_rdf,
}

/// Two properties of the security vocabulary differ where their names do.
pub broadcast proof fn lemma_sec_names(a: Seq<char>, b: Seq<char>)
    ensures
        #![trigger SEC@ + a, SEC@ + b]
        SEC@ + a == SEC@ + b ==> {
            &&& a == b
            &&& a.len() == b.len()
            &&& a[0] == b[0]
            &&& a[1] == b[1]
            &&& a[3] == b[3]
            &&& a[8] == b[8]
            &&& a[a.len() - 1] == b[b.len() - 1]
        },
{
    if SEC@ + a == SEC@ + b {
        assert((SEC@ + a).skip(SEC@.len() as int) =~= a);
        assert((SEC@ + b).skip(SEC@.len() as int) =~= b);
    }
}

/// No property of the security vocabulary is one of the core vocabulary.
pub broadcast proof fn lemma_sec_is_not_core(a: Seq<char>, b: Seq<char>)
    ensures
        #![trigger SEC@ + a, pkg(b)]
        SEC@ + a != pkg(b),
{
    reveal_strlit("https://purl.org/packagegraph/ontology/core#");
    reveal_strlit("https://purl.org/packagegraph/ontology/security#");
    assert((SEC@ + a)[39] == 's');
    assert(pkg(b)[39] == 'c');
}

/// No property of the security vocabulary is one of those of RDF.
pub broadcast proof fn lemma_sec_is_not_rdf(a: Seq<char>)
    ensures
        #[trigger] (SEC@ + a) != RDF_TYPE@,
        SEC@ + a != RDFS_LABEL@,
{
    reveal_strlit("http://www.w3.org/1999/02/22-rdf-syntax-ns#type");
    reveal_strlit("http://www.w3.org/2000/01/rdf-schema#label");
    reveal_strlit("https://purl.org/packagegraph/ontology/security#");
    assert(RDF_TYPE@[4] == ':');
    assert(RDFS_LABEL@[4] == ':');
    assert((SEC@ + a)[4] == 's');
}

pub broadcast group group_sec {
    lemma_sec_names,
    lemma_sec_is_not_core,
    lemma_sec_is_not_rdf,
}

/// Two properties of the Conda vocabulary differ where their names do.
pub broadcast proof fn lemma_conda_names(a: Seq<char>, b: Seq<char>)
    ensures
        #![trigger CONDA@ + a, CONDA@ + b]
        CONDA@ + a == CONDA@ + b ==> {
            &&& a == b
            &&& a.len() == b.len()
            &&& a[0] == b[0]
            &&& a[1] == b[1]
            &&& a[3] == b[3]
            &&& a[8] == b[8]
            &&& a[a.len() - 1] == b[b.len() - 1]
        },
{
    if CONDA@ + a == CONDA@ + b {
        assert((CONDA@ + a).skip(CONDA@.len() as int) =~= a);
        assert((CONDA@ + b).skip(CONDA@.len() as int) =~= b);
    }
}

/// No property of the Conda vocabulary is one of the core vocabulary.
pub broadcast proof fn lemma_conda_is_not_core(a: Seq<char>, b: Seq<char>)
    ensures
        #![trigger CONDA@ + a, pkg(b)]
        CONDA@ + a != pkg(b),
{
    reveal_strlit("https://purl.org/packagegraph/ontology/core#");
    reveal_strlit("https://purl.org/packagegraph/ontology/conda#");
    assert((CONDA@ + a)[41] == 'n');
    assert(pkg(b)[41] == 'r');
}

/// No property of the Conda vocabulary is one of those of RDF.
pub broadcast proof fn lemma_conda_is_not_rdf(a: Seq<char>)
    ensures
        #[trigger] (CONDA@ + a) != RDF_TYPE@,
        CONDA@ + a != RDFS_LABEL@,
{
    reveal_strlit("http://www.w3.org/1999/02/22-rdf-syntax-ns#type");
    reveal_strlit("http://www.w3.org/2000/01/rdf-schema#label");
    reveal_strlit("https://purl.org/packagegraph/ontology/conda#");
    assert(RDF_TYPE@[4] == ':');
    assert(RDFS_LABEL@[4] == ':');
    assert((CONDA@ + a)[4] == 's');
}

pub broadcast group group_conda {
    lemma_conda_names,
    lemma_conda_is_not_core,
    lemma_conda_is_not_rdf,
}

/// Two properties of the Alpine vocabulary differ where their names do.
pub broadcast proof fn lemma_apk_names(a: Seq<char>, b: Seq<char>)
    ensures
        #![trigger APK@ + a, APK@ + b]
        APK@ + a == APK@ + b ==> {
            &&& a == b
            &&& a.len() == b.len()
            &&& a[0] == b[0]
            &&& a[1] == b[1]
            &&& a[3] == b[3]
            &&& a[8] == b[8]
            &&& a[a.len() - 1] == b[b.len() - 1]
        },
{
    if APK@ + a == APK@ + b {
        assert((APK@ + a).skip(APK@.len() as int) =~= a);
        assert((APK@ + b).skip(APK@.len() as int) =~= b);
    }
}

/// No property of the Alpine vocabulary is one of the core vocabulary.
pub broadcast proof fn lemma_apk_is_not_core(a: Seq<char>, b: Seq<char>)
    ensures
        #![trigger APK@ + a, pkg(b)]
        APK@ + a != pkg(b),
{
    reveal_strlit("https://purl.org/packagegraph/ontology/core#");
    reveal_strlit("https://purl.org/packagegraph/ontology/apk#");
    assert((APK@ + a)[39] == 'a');
    assert(pkg(b)[39] == 'c');
}

/// No property of the Alpine vocabulary is one of those of RDF.
pub broadcast proof fn lemma_apk_is_not_rdf(a: Seq<char>)
    ensures
        #[trigger] (APK@ + a) != RDF_TYPE@,
        APK@ + a != RDFS_LABEL@,
{
    reveal_strlit("http://www.w3.org/1999/02/22-rdf-syntax-ns#type");
    reveal_strlit("http://www.w3.org/2000/01/rdf-schema#label");
    reveal_strlit("https://purl.org/packagegraph/ontology/apk#");
    assert(RDF_TYPE@[4] == ':');
    assert(RDFS_LABEL@[4] == ':');
    assert((APK@ + a)[4] == 's');
}

pub broadcast group group_apk {
    lemma_apk_names,
    lemma_apk_is_not_core,
    lemma_apk_is_not_rdf,
}

/// Two properties of the FOAF vocabulary differ where their names do.
pub broadcast proof fn lemma_foaf_names(a: Seq<char>, b: Seq<char>)
    ensures
        #![trigger FOAF@ + a, FOAF@ + b]
        FOAF@ + a == FOAF@ + b ==> {
            &&& a == b
            &&& a.len() == b.len()
            &&& a[0] == b[0]
            &&& a[1] == b[1]
            &&& a[3] == b[3]
            &&& a[8] == b[8]
            &&& a[a.len() - 1] == b[b.len() - 1]
        },
{
    if FOAF@ + a == FOAF@ + b {
        assert((FOAF@ + a).skip(FOAF@.len() as int) =~= a);
        assert((FOAF@ + b).skip(FOAF@.len() as int) =~= b);
    }
}

/// No property of the FOAF vocabulary is one of the core vocabulary.
pub broadcast proof fn lemma_foaf_is_not_core(a: Seq<char>, b: Seq<char>)
    ensures
        #![trigger FOAF@ + a, pkg(b)]
        FOAF@ + a != pkg(b),
{
    reveal_strlit("https://purl.org/packagegraph/ontology/core#");
    reveal_strlit("http://xmlns.com/foaf/0.1/");
    assert((FOAF@ + a)[4] == ':');
    assert(pkg(b)[4] == 's');
}

/// No property of the FOAF vocabulary is one of those of RDF.
pub broadcast proof fn lemma_foaf_is_not_rdf(a: Seq<char>)
    ensures
        #[trigger] (FOAF@ + a) != RDF_TYPE@,
        FOAF@ + a != RDFS_LABEL@,
{
    reveal_strlit("http://www.w3.org/1999/02/22-rdf-syntax-ns#type");
    reveal_strlit("http://www.w3.org/2000/01/rdf-schema#label");
    reveal_strlit("http://xmlns.com/foaf/0.1/");
    assert(RDF_TYPE@[7] == 'w');
    assert((FOAF@ + a)[7] == 'x');
    assert(RDFS_LABEL@[7] == 'w');
    assert((FOAF@ + a)[7] == 'x');
}

/// No property of the FOAF vocabulary is one of the Alpine vocabulary.
pub broadcast proof fn lemma_foaf_is_not_apk(a: Seq<char>, b: Seq<char>)
    ensures
        #![trigger FOAF@ + a, APK@ + b]
        FOAF@ + a != APK@ + b,
{
    reveal_strlit("http://xmlns.com/foaf/0.1/");
    reveal_strlit("https://purl.org/packagegraph/ontology/apk#");
    assert((FOAF@ + a)[4] == ':');
    assert((APK@ + b)[4] == 's');
}

/// No property of the FOAF vocabulary is one of the Arch vocabulary.
pub broadcast proof fn lemma_foaf_is_not_arch(a: Seq<char>, b: Seq<char>)
    ensures
        #![trigger FOAF@ + a, ARCH@ + b]
        FOAF@ + a != ARCH@ + b,
{
    reveal_strlit("http://xmlns.com/foaf/0.1/");
    reveal_strlit("https://purl.org/packagegraph/ontology/arch#");
    assert((FOAF@ + a)[4] == ':');
    assert((ARCH@ + b)[4] == 's');
}

/// No property of the FOAF vocabulary is one of the Debian vocabulary.
pub broadcast proof fn lemma_foaf_is_not_deb(a: Seq<char>, b: Seq<char>)
    ensures
        #![trigger FOAF@ + a, DEB@ + b]
        FOAF@ + a != DEB@ + b,
{
    reveal_strlit("http://xmlns.com/foaf/0.1/");
    reveal_strlit("https://purl.org/packagegraph/ontology/deb#");
    assert((FOAF@ + a)[4] == ':');
    assert((DEB@ + b)[4] == 's');
}

/// No property of the FOAF vocabulary is one of the version control vocabulary.
pub broadcast proof fn lemma_foaf_is_not_vcs(a: Seq<char>, b: Seq<char>)
    ensures
        #![trigger FOAF@ + a, VCS@ + b]
        FOAF@ + a != VCS@ + b,
{
    reveal_strlit("http://xmlns.com/foaf/0.1/");
    reveal_strlit("https://purl.org/packagegraph/ontology/vcs#");
    assert((FOAF@ + a)[4] == ':');
    assert((VCS@ + b)[4] == 's');
}

/// No property of the FOAF vocabulary is one of the RPM vocabulary.
pub broadcast proof fn lemma_foaf_is_not_rpm(a: Seq<char>, b: Seq<char>)
    ensures
        #![trigger FOAF@ + a, RPM@ + b]
        FOAF@ + a != RPM@ + b,
{
    reveal_strlit("http://xmlns.com/foaf/0.1/");
    reveal_strlit("https://purl.org/packagegraph/ontology/rpm#");
    assert((FOAF@ + a)[4] == ':');
    assert((RPM@ + b)[4] == 's');
}

pub broadcast group group_foaf {
    lemma_foaf_is_not_rpm,
    lemma_foaf_is_not_vcs,
    lemma_foaf_is_not_deb,
    lemma_foaf_is_not_arch,
    lemma_foaf_is_not_apk,
    lemma_foaf_names,
    lemma_foaf_is_not_core,
    lemma_foaf_is_not_rdf,
}

/// Two properties of the Arch vocabulary differ where their names do.
pub broadcast proof fn lemma_arch_names(a: Seq<char>, b: Seq<char>)
    ensures
        #![trigger ARCH@ + a, ARCH@ + b]
        ARCH@ + a == ARCH@ + b ==> {
            &&& a == b
            &&& a.len() == b.len()
            &&& a[0] == b[0]
            &&& a[1] == b[1]
            &&& a[3] == b[3]
            &&& a[8] == b[8]
            &&& a[a.len() - 1] == b[b.len() - 1]
        },
{
    if ARCH@ + a == ARCH@ + b {
        assert((ARCH@ + a).skip(ARCH@.len() as int) =~= a);
        assert((ARCH@ + b).skip(ARCH@.len() as int) =~= b);
    }
}

/// No property of the Arch vocabulary is one of the core vocabulary.
pub broadcast proof fn lemma_arch_is_not_core(a: Seq<char>, b: Seq<char>)
    ensures
        #![trigger ARCH@ + a, pkg(b)]
        ARCH@ + a != pkg(b),
{
    reveal_strlit("https://purl.org/packagegraph/ontology/core#");
    reveal_strlit("https://purl.org/packagegraph/ontology/arch#");
    assert((ARCH@ + a)[39] == 'a');
    assert(pkg(b)[39] == 'c');
}

/// No property of the Arch vocabulary is one of those of RDF.
pub broadcast proof fn lemma_arch_is_not_rdf(a: Seq<char>)
    ensures
        #[trigger] (ARCH@ + a) != RDF_TYPE@,
        ARCH@ + a != RDFS_LABEL@,
{
    reveal_strlit("http://www.w3.org/1999/02/22-rdf-syntax-ns#type");
    reveal_strlit("http://www.w3.org/2000/01/rdf-schema#label");
    reveal_strlit("https://purl.org/packagegraph/ontology/arch#");
    assert(RDF_TYPE@[4] == ':');
    assert((ARCH@ + a)[4] == 's');
    assert(RDFS_LABEL@[4] == ':');
    assert((ARCH@ + a)[4] == 's');
}

pub broadcast group group_arch {
    lemma_arch_names,
    lemma_arch_is_not_core,
    lemma_arch_is_not_rdf,
}

/// Two properties of the Buildroot vocabulary differ where their names do.
pub broadcast proof fn lemma_buildroot_names(a: Seq<char>, b: Seq<char>)
    ensures
        #![trigger BUILDROOT@ + a, BUILDROOT@ + b]
        BUILDROOT@ + a == BUILDROOT@ + b ==> {
            &&& a == b
            &&& a.len() == b.len()
            &&& a[0] == b[0]
            &&& a[1] == b[1]
            &&& a[3] == b[3]
            &&& a[8] == b[8]
            &&& a[a.len() - 1] == b[b.len() - 1]
        },
{
    if BUILDROOT@ + a == BUILDROOT@ + b {
        assert((BUILDROOT@ + a).skip(BUILDROOT@.len() as int) =~= a);
        assert((BUILDROOT@ + b).skip(BUILDROOT@.len() as int) =~= b);
    }
}

/// No property of the Buildroot vocabulary is one of the core vocabulary.
pub broadcast proof fn lemma_buildroot_is_not_core(a: Seq<char>, b: Seq<char>)
    ensures
        #![trigger BUILDROOT@ + a, pkg(b)]
        BUILDROOT@ + a != pkg(b),
{
    reveal_strlit("https://purl.org/packagegraph/ontology/core#");
    reveal_strlit("https://purl.org/packagegraph/ontology/buildroot#");
    assert((BUILDROOT@ + a)[39] == 'b');
    assert(pkg(b)[39] == 'c');
}

/// No property of the Buildroot vocabulary is one of those of RDF.
pub broadcast proof fn lemma_buildroot_is_not_rdf(a: Seq<char>)
    ensures
        #[trigger] (BUILDROOT@ + a) != RDF_TYPE@,
        BUILDROOT@ + a != RDFS_LABEL@,
{
    reveal_strlit("http://www.w3.org/1999/02/22-rdf-syntax-ns#type");
    reveal_strlit("http://www.w3.org/2000/01/rdf-schema#label");
    reveal_strlit("https://purl.org/packagegraph/ontology/buildroot#");
    assert(RDF_TYPE@[4] == ':');
    assert((BUILDROOT@ + a)[4] == 's');
    assert(RDFS_LABEL@[4] == ':');
    assert((BUILDROOT@ + a)[4] == 's');
}

pub broadcast group group_buildroot {
    lemma_buildroot_names,
    lemma_buildroot_is_not_core,
    lemma_buildroot_is_not_rdf,
}

/// Two properties of the Chocolatey vocabulary differ where their names do.
pub broadcast proof fn lemma_choco_names(a: Seq<char>, b: Seq<char>)
    ensures
        #![trigger CHOCO@ + a, CHOCO@ + b]
        CHOCO@ + a == CHOCO@ + b ==> {
            &&& a == b
            &&& a.len() == b.len()
            &&& a[0] == b[0]
            &&& a[1] == b[1]
            &&& a[3] == b[3]
            &&& a[8] == b[8]
            &&& a[a.len() - 1] == b[b.len() - 1]
        },
{
    if CHOCO@ + a == CHOCO@ + b {
        assert((CHOCO@ + a).skip(CHOCO@.len() as int) =~= a);
        assert((CHOCO@ + b).skip(CHOCO@.len() as int) =~= b);
    }
}

/// No property of the Chocolatey vocabulary is one of the core vocabulary.
pub broadcast proof fn lemma_choco_is_not_core(a: Seq<char>, b: Seq<char>)
    ensures
        #![trigger CHOCO@ + a, pkg(b)]
        CHOCO@ + a != pkg(b),
{
    reveal_strlit("https://purl.org/packagegraph/ontology/core#");
    reveal_strlit("https://purl.org/packagegraph/ontology/chocolatey#");
    assert((CHOCO@ + a)[40] == 'h');
    assert(pkg(b)[40] == 'o');
}

/// No property of the Chocolatey vocabulary is one of those of RDF.
pub broadcast proof fn lemma_choco_is_not_rdf(a: Seq<char>)
    ensures
        #[trigger] (CHOCO@ + a) != RDF_TYPE@,
        CHOCO@ + a != RDFS_LABEL@,
{
    reveal_strlit("http://www.w3.org/1999/02/22-rdf-syntax-ns#type");
    reveal_strlit("http://www.w3.org/2000/01/rdf-schema#label");
    reveal_strlit("https://purl.org/packagegraph/ontology/chocolatey#");
    assert(RDF_TYPE@[4] == ':');
    assert((CHOCO@ + a)[4] == 's');
    assert(RDFS_LABEL@[4] == ':');
    assert((CHOCO@ + a)[4] == 's');
}

pub broadcast group group_choco {
    lemma_choco_names,
    lemma_choco_is_not_core,
    lemma_choco_is_not_rdf,
}

/// Two properties of the CRAN vocabulary differ where their names do.
pub broadcast proof fn lemma_cran_names(a: Seq<char>, b: Seq<char>)
    ensures
        #![trigger CRAN@ + a, CRAN@ + b]
        CRAN@ + a == CRAN@ + b ==> {
            &&& a == b
            &&& a.len() == b.len()
            &&& a[0] == b[0]
            &&& a[1] == b[1]
            &&& a[3] == b[3]
            &&& a[8] == b[8]
            &&& a[a.len() - 1] == b[b.len() - 1]
        },
{
    if CRAN@ + a == CRAN@ + b {
        assert((CRAN@ + a).skip(CRAN@.len() as int) =~= a);
        assert((CRAN@ + b).skip(CRAN@.len() as int) =~= b);
    }
}

/// No property of the CRAN vocabulary is one of the core vocabulary.
pub broadcast proof fn lemma_cran_is_not_core(a: Seq<char>, b: Seq<char>)
    ensures
        #![trigger CRAN@ + a, pkg(b)]
        CRAN@ + a != pkg(b),
{
    reveal_strlit("https://purl.org/packagegraph/ontology/core#");
    reveal_strlit("https://purl.org/packagegraph/ontology/cran#");
    assert((CRAN@ + a)[40] == 'r');
    assert(pkg(b)[40] == 'o');
}

/// No property of the CRAN vocabulary is one of those of RDF.
pub broadcast proof fn lemma_cran_is_not_rdf(a: Seq<char>)
    ensures
        #[trigger] (CRAN@ + a) != RDF_TYPE@,
        CRAN@ + a != RDFS_LABEL@,
{
    reveal_strlit("http://www.w3.org/1999/02/22-rdf-syntax-ns#type");
    reveal_strlit("http://www.w3.org/2000/01/rdf-schema#label");
    reveal_strlit("https://purl.org/packagegraph/ontology/cran#");
    assert(RDF_TYPE@[4] == ':');
    assert((CRAN@ + a)[4] == 's');
    assert(RDFS_LABEL@[4] == ':');
    assert((CRAN@ + a)[4] == 's');
}

pub broadcast group group_cran {
    lemma_cran_names,
    lemma_cran_is_not_core,
    lemma_cran_is_not_rdf,
}

/// Two properties of the CPAN vocabulary differ where their names do.
pub broadcast proof fn lemma_cpan_names(a: Seq<char>, b: Seq<char>)
    ensures
        #![trigger CPAN@ + a, CPAN@ + b]
        CPAN@ + a == CPAN@ + b ==> {
            &&& a == b
            &&& a.len() == b.len()
            &&& a[0] == b[0]
            &&& a[1] == b[1]
            &&& a[3] == b[3]
            &&& a[8] == b[8]
            &&& a[a.len() - 1] == b[b.len() - 1]
        },
{
    if CPAN@ + a == CPAN@ + b {
        assert((CPAN@ + a).skip(CPAN@.len() as int) =~= a);
        assert((CPAN@ + b).skip(CPAN@.len() as int) =~= b);
    }
}

/// No property of the CPAN vocabulary is one of the core vocabulary.
pub broadcast proof fn lemma_cpan_is_not_core(a: Seq<char>, b: Seq<char>)
    ensures
        #![trigger CPAN@ + a, pkg(b)]
        CPAN@ + a != pkg(b),
{
    reveal_strlit("https://purl.org/packagegraph/ontology/core#");
    reveal_strlit("https://purl.org/packagegraph/ontology/cpan#");
    assert((CPAN@ + a)[40] == 'p');
    assert(pkg(b)[40] == 'o');
}

/// No property of the CPAN vocabulary is one of those of RDF.
pub broadcast proof fn lemma_cpan_is_not_rdf(a: Seq<char>)
    ensures
        #[trigger] (CPAN@ + a) != RDF_TYPE@,
        CPAN@ + a != RDFS_LABEL@,
{
    reveal_strlit("http://www.w3.org/1999/02/22-rdf-syntax-ns#type");
    reveal_strlit("http://www.w3.org/2000/01/rdf-schema#label");
    reveal_strlit("https://purl.org/packagegraph/ontology/cpan#");
    assert(RDF_TYPE@[4] == ':');
    assert((CPAN@ + a)[4] == 's');
    assert(RDFS_LABEL@[4] == ':');
    assert((CPAN@ + a)[4] == 's');
}

pub broadcast group group_cpan {
    lemma_cpan_names,
    lemma_cpan_is_not_core,
    lemma_cpan_is_not_rdf,
}

/// Two properties of the Cargo vocabulary differ where their names do.
pub broadcast proof fn lemma_cargo_names(a: Seq<char>, b: Seq<char>)
    ensures
        #![trigger CARGO@ + a, CARGO@ + b]
        CARGO@ + a == CARGO@ + b ==> {
            &&& a == b
            &&& a.len() == b.len()
            &&& a[0] == b[0]
            &&& a[1] == b[1]
            &&& a[3] == b[3]
            &&& a[8] == b[8]
            &&& a[a.len() - 1] == b[b.len() - 1]
        },
{
    if CARGO@ + a == CARGO@ + b {
        assert((CARGO@ + a).skip(CARGO@.len() as int) =~= a);
        assert((CARGO@ + b).skip(CARGO@.len() as int) =~= b);
    }
}

/// No property of the Cargo vocabulary is one of the core vocabulary.
pub broadcast proof fn lemma_cargo_is_not_core(a: Seq<char>, b: Seq<char>)
    ensures
        #![trigger CARGO@ + a, pkg(b)]
        CARGO@ + a != pkg(b),
{
    reveal_strlit("https://purl.org/packagegraph/ontology/core#");
    reveal_strlit("https://purl.org/packagegraph/ontology/cargo#");
    assert((CARGO@ + a)[40] == 'a');
    assert(pkg(b)[40] == 'o');
}

/// No property of the Cargo vocabulary is one of those of RDF.
pub broadcast proof fn lemma_cargo_is_not_rdf(a: Seq<char>)
    ensures
        #[trigger] (CARGO@ + a) != RDF_TYPE@,
        CARGO@ + a != RDFS_LABEL@,
{
    reveal_strlit("http://www.w3.org/1999/02/22-rdf-syntax-ns#type");
    reveal_strlit("http://www.w3.org/2000/01/rdf-schema#label");
    reveal_strlit("https://purl.org/packagegraph/ontology/cargo#");
    assert(RDF_TYPE@[4] == ':');
    assert((CARGO@ + a)[4] == 's');
    assert(RDFS_LABEL@[4] == ':');
    assert((CARGO@ + a)[4] == 's');
}

pub broadcast group group_cargo {
    lemma_cargo_names,
    lemma_cargo_is_not_core,
    lemma_cargo_is_not_rdf,
}

/// Two properties of the version control vocabulary differ where their names do.
pub broadcast proof fn lemma_vcs_names(a: Seq<char>, b: Seq<char>)
    ensures
        #![trigger VCS@ + a, VCS@ + b]
        VCS@ + a == VCS@ + b ==> {
            &&& a == b
            &&& a.len() == b.len()
            &&& a[0] == b[0]
            &&& a[1] == b[1]
            &&& a[3] == b[3]
            &&& a[8] == b[8]
            &&& a[a.len() - 1] == b[b.len() - 1]
        },
{
    if VCS@ + a == VCS@ + b {
        assert((VCS@ + a).skip(VCS@.len() as int) =~= a);
        assert((VCS@ + b).skip(VCS@.len() as int) =~= b);
    }
}

/// No property of the version control vocabulary is one of the core vocabulary.
pub broadcast proof fn lemma_vcs_is_not_core(a: Seq<char>, b: Seq<char>)
    ensures
        #![trigger VCS@ + a, pkg(b)]
        VCS@ + a != pkg(b),
{
    reveal_strlit("https://purl.org/packagegraph/ontology/core#");
    reveal_strlit("https://purl.org/packagegraph/ontology/vcs#");
    assert((VCS@ + a)[39] == 'v');
    assert(pkg(b)[39] == 'c');
}

/// No property of the version control vocabulary is one of those of RDF.
pub broadcast proof fn lemma_vcs_is_not_rdf(a: Seq<char>)
    ensures
        #[trigger] (VCS@ + a) != RDF_TYPE@,
        VCS@ + a != RDFS_LABEL@,
{
    reveal_strlit("http://www.w3.org/1999/02/22-rdf-syntax-ns#type");
    reveal_strlit("http://www.w3.org/2000/01/rdf-schema#label");
    reveal_strlit("https://purl.org/packagegraph/ontology/vcs#");
    assert(RDF_TYPE@[4] == ':');
    assert((VCS@ + a)[4] == 's');
    assert(RDFS_LABEL@[4] == ':');
    assert((VCS@ + a)[4] == 's');
}

/// No property of the version control vocabulary is one of the Debian vocabulary.
pub broadcast proof fn lemma_vcs_is_not_deb(a: Seq<char>, b: Seq<char>)
    ensures
        #![trigger VCS@ + a, DEB@ + b]
        VCS@ + a != DEB@ + b,
{
    reveal_strlit("https://purl.org/packagegraph/ontology/vcs#");
    reveal_strlit("https://purl.org/packagegraph/ontology/deb#");
    assert((VCS@ + a)[39] == 'v');
    assert((DEB@ + b)[39] == 'd');
}

pub broadcast group group_vcs {
    lemma_vcs_is_not_deb,
    lemma_vcs_names,
    lemma_vcs_is_not_core,
    lemma_vcs_is_not_rdf,
}

/// Two properties of the RPM vocabulary differ where their names do.
pub broadcast proof fn lemma_rpm_names(a: Seq<char>, b: Seq<char>)
    ensures
        #![trigger RPM@ + a, RPM@ + b]
        RPM@ + a == RPM@ + b ==> {
            &&& a == b
            &&& a.len() == b.len()
            &&& a[0] == b[0]
            &&& a[1] == b[1]
            &&& a[3] == b[3]
            &&& a[8] == b[8]
            &&& a[a.len() - 1] == b[b.len() - 1]
        },
{
    if RPM@ + a == RPM@ + b {
        assert((RPM@ + a).skip(RPM@.len() as int) =~= a);
        assert((RPM@ + b).skip(RPM@.len() as int) =~= b);
    }
}

/// No property of the RPM vocabulary is one of the core vocabulary.
pub broadcast proof fn lemma_rpm_is_not_core(a: Seq<char>, b: Seq<char>)
    ensures
        #![trigger RPM@ + a, pkg(b)]
        RPM@ + a != pkg(b),
{
    reveal_strlit("https://purl.org/packagegraph/ontology/core#");
    reveal_strlit("https://purl.org/packagegraph/ontology/rpm#");
    assert((RPM@ + a)[39] == 'r');
    assert(pkg(b)[39] == 'c');
}

/// No property of the RPM vocabulary is one of those of RDF.
pub broadcast proof fn lemma_rpm_is_not_rdf(a: Seq<char>)
    ensures
        #[trigger] (RPM@ + a) != RDF_TYPE@,
        RPM@ + a != RDFS_LABEL@,
{
    reveal_strlit("http://www.w3.org/1999/02/22-rdf-syntax-ns#type");
    reveal_strlit("http://www.w3.org/2000/01/rdf-schema#label");
    reveal_strlit("https://purl.org/packagegraph/ontology/rpm#");
    assert(RDF_TYPE@[4] == ':');
    assert((RPM@ + a)[4] == 's');
    assert(RDFS_LABEL@[4] == ':');
    assert((RPM@ + a)[4] == 's');
}

/// No property of the RPM vocabulary is one of the version control vocabulary.
pub broadcast proof fn lemma_rpm_is_not_vcs(a: Seq<char>, b: Seq<char>)
    ensures
        #![trigger RPM@ + a, VCS@ + b]
        RPM@ + a != VCS@ + b,
{
    reveal_strlit("https://purl.org/packagegraph/ontology/rpm#");
    reveal_strlit("https://purl.org/packagegraph/ontology/vcs#");
    assert((RPM@ + a)[39] == 'r');
    assert((VCS@ + b)[39] == 'v');
}

pub broadcast group group_rpm {
    lemma_rpm_is_not_vcs,
    lemma_rpm_names,
    lemma_rpm_is_not_core,
    lemma_rpm_is_not_rdf,
}

/// Two properties of the opkg vocabulary differ where their names do.
pub broadcast proof fn lemma_openwrt_names(a: Seq<char>, b: Seq<char>)
    ensures
        #![trigger OPENWRT@ + a, OPENWRT@ + b]
        OPENWRT@ + a == OPENWRT@ + b ==> {
            &&& a == b
            &&& a.len() == b.len()
            &&& a[0] == b[0]
            &&& a[1] == b[1]
            &&& a[3] == b[3]
            &&& a[8] == b[8]
            &&& a[a.len() - 1] == b[b.len() - 1]
        },
{
    if OPENWRT@ + a == OPENWRT@ + b {
        assert((OPENWRT@ + a).skip(OPENWRT@.len() as int) =~= a);
        assert((OPENWRT@ + b).skip(OPENWRT@.len() as int) =~= b);
    }
}

/// No property of the opkg vocabulary is one of the core vocabulary.
pub broadcast proof fn lemma_openwrt_is_not_core(a: Seq<char>, b: Seq<char>)
    ensures
        #![trigger OPENWRT@ + a, pkg(b)]
        OPENWRT@ + a != pkg(b),
{
    reveal_strlit("https://purl.org/packagegraph/ontology/core#");
    reveal_strlit("https://purl.org/packagegraph/ontology/opkg#");
    assert((OPENWRT@ + a)[39] == 'o');
    assert(pkg(b)[39] == 'c');
}

/// No property of the opkg vocabulary is one of those of RDF.
pub broadcast proof fn lemma_openwrt_is_not_rdf(a: Seq<char>)
    ensures
        #[trigger] (OPENWRT@ + a) != RDF_TYPE@,
        OPENWRT@ + a != RDFS_LABEL@,
{
    reveal_strlit("http://www.w3.org/1999/02/22-rdf-syntax-ns#type");
    reveal_strlit("http://www.w3.org/2000/01/rdf-schema#label");
    reveal_strlit("https://purl.org/packagegraph/ontology/opkg#");
    assert(RDF_TYPE@[4] == ':');
    assert((OPENWRT@ + a)[4] == 's');
    assert(RDFS_LABEL@[4] == ':');
    assert((OPENWRT@ + a)[4] == 's');
}

pub broadcast group group_openwrt {
    lemma_openwrt_names,
    lemma_openwrt_is_not_core,
    lemma_openwrt_is_not_rdf,
}

/// Two properties of the provenance vocabulary differ where their names do.
pub broadcast proof fn lemma_prov_names(a: Seq<char>, b: Seq<char>)
    ensures
        #![trigger PROV@ + a, PROV@ + b]
        PROV@ + a == PROV@ + b ==> {
            &&& a == b
            &&& a.len() == b.len()
            &&& a[0] == b[0]
            &&& a[1] == b[1]
            &&& a[3] == b[3]
            &&& a[8] == b[8]
            &&& a[a.len() - 1] == b[b.len() - 1]
        },
{
    if PROV@ + a == PROV@ + b {
        assert((PROV@ + a).skip(PROV@.len() as int) =~= a);
        assert((PROV@ + b).skip(PROV@.len() as int) =~= b);
    }
}

/// No property of the provenance vocabulary is one of the core vocabulary.
pub broadcast proof fn lemma_prov_is_not_core(a: Seq<char>, b: Seq<char>)
    ensures
        #![trigger PROV@ + a, pkg(b)]
        PROV@ + a != pkg(b),
{
    reveal_strlit("https://purl.org/packagegraph/ontology/core#");
    reveal_strlit("http://www.w3.org/ns/prov#");
    assert((PROV@ + a)[4] == ':');
    assert(pkg(b)[4] == 's');
}

/// No property of the provenance vocabulary is one of those of RDF.
pub broadcast proof fn lemma_prov_is_not_rdf(a: Seq<char>)
    ensures
        #[trigger] (PROV@ + a) != RDF_TYPE@,
        PROV@ + a != RDFS_LABEL@,
{
    reveal_strlit("http://www.w3.org/1999/02/22-rdf-syntax-ns#type");
    reveal_strlit("http://www.w3.org/2000/01/rdf-schema#label");
    reveal_strlit("http://www.w3.org/ns/prov#");
    assert(RDF_TYPE@[18] == '1');
    assert((PROV@ + a)[18] == 'n');
    assert(RDFS_LABEL@[18] == '2');
    assert((PROV@ + a)[18] == 'n');
}

/// No property of the provenance vocabulary is one of the FOAF vocabulary.
pub broadcast proof fn lemma_prov_is_not_foaf(a: Seq<char>, b: Seq<char>)
    ensures
        #![trigger PROV@ + a, FOAF@ + b]
        PROV@ + a != FOAF@ + b,
{
    reveal_strlit("http://www.w3.org/ns/prov#");
    reveal_strlit("http://xmlns.com/foaf/0.1/");
    assert((PROV@ + a)[7] == 'w');
    assert((FOAF@ + b)[7] == 'x');
}

/// No property of the provenance vocabulary is one of the version control vocabulary.
pub broadcast proof fn lemma_prov_is_not_vcs(a: Seq<char>, b: Seq<char>)
    ensures
        #![trigger PROV@ + a, VCS@ + b]
        PROV@ + a != VCS@ + b,
{
    reveal_strlit("http://www.w3.org/ns/prov#");
    reveal_strlit("https://purl.org/packagegraph/ontology/vcs#");
    assert((PROV@ + a)[4] == ':');
    assert((VCS@ + b)[4] == 's');
}

/// No property of the provenance vocabulary is one of the RPM vocabulary.
pub broadcast proof fn lemma_prov_is_not_rpm(a: Seq<char>, b: Seq<char>)
    ensures
        #![trigger PROV@ + a, RPM@ + b]
        PROV@ + a != RPM@ + b,
{
    reveal_strlit("http://www.w3.org/ns/prov#");
    reveal_strlit("https://purl.org/packagegraph/ontology/rpm#");
    assert((PROV@ + a)[4] == ':');
    assert((RPM@ + b)[4] == 's');
}

pub broadcast group group_prov {
    lemma_prov_is_not_rpm,
    lemma_prov_is_not_vcs,
    lemma_prov_is_not_foaf,
    lemma_prov_names,
    lemma_prov_is_not_core,
    lemma_prov_is_not_rdf,
}

pub broadcast group group_reading {
    lemma_said_push,
    lemma_core_names,
    lemma_core_is_not_rdf,
}

// ---------------------------------------------------------------------------
// What each write says

/// The sheet of [`literal_if`].
#[verifier::opaque]
pub open spec fn maybe_literal(
    w: Sheet,
    s: Seq<char>,
    p: Seq<char>,
    value: Option<Seq<char>>,
) -> Sheet {
    literal_if(w, s, p, value)
}

/// The sheet of [`number_if`].
#[verifier::opaque]
pub open spec fn maybe_number(w: Sheet, s: Seq<char>, p: Seq<char>, n: Option<i64>) -> Sheet {
    number_if(w, s, p, n)
}

pub broadcast proof fn lemma_link_said(
    w: Sheet,
    s: Seq<char>,
    p: Seq<char>,
    o: Seq<char>,
    q: Seq<char>,
)
    ensures
        q != p ==> #[trigger] said(link(w, s, p, o).log, q) == said(w.log, q),
        q == p ==> said(link(w, s, p, o).log, q) == said(w.log, q) + seq![to_iri(s, o)],
{
    broadcast use lemma_said_push;

}

pub broadcast proof fn lemma_literal_said(
    w: Sheet,
    s: Seq<char>,
    p: Seq<char>,
    v: Seq<char>,
    q: Seq<char>,
)
    ensures
        q != p ==> #[trigger] said(literal(w, s, p, v).log, q) == said(w.log, q),
        q == p ==> said(literal(w, s, p, v).log, q) == said(w.log, q) + seq![to_text(s, v)],
{
    broadcast use lemma_said_push;

}

pub broadcast proof fn lemma_typed_said(
    w: Sheet,
    s: Seq<char>,
    p: Seq<char>,
    v: Seq<char>,
    d: Seq<char>,
    q: Seq<char>,
)
    ensures
        q != p ==> #[trigger] said(typed(w, s, p, v, d).log, q) == said(w.log, q),
        q == p
            ==> said(typed(w, s, p, v, d).log, q) == said(w.log, q)
                + seq![(Term::Iri(s), Term::Typed(v, d))],
{
    broadcast use lemma_said_push;

}

pub broadcast proof fn lemma_bnode_object_said(
    w: Sheet,
    s: Seq<char>,
    p: Seq<char>,
    n: Seq<char>,
    q: Seq<char>,
)
    ensures
        q != p ==> #[trigger] said(bnode_object(w, s, p, n).log, q) == said(w.log, q),
        q == p
            ==> said(bnode_object(w, s, p, n).log, q) == said(w.log, q)
                + seq![(Term::Iri(s), Term::Node(n))],
{
    broadcast use lemma_said_push;

}

pub broadcast proof fn lemma_bnode_subject_said(
    w: Sheet,
    n: Seq<char>,
    p: Seq<char>,
    o: Seq<char>,
    q: Seq<char>,
)
    ensures
        q != p ==> #[trigger] said(bnode_subject(w, n, p, o).log, q) == said(w.log, q),
        q == p
            ==> said(bnode_subject(w, n, p, o).log, q) == said(w.log, q)
                + seq![(Term::Node(n), Term::Iri(o))],
{
    broadcast use lemma_said_push;

}

pub broadcast proof fn lemma_bnode_literal_said(
    w: Sheet,
    n: Seq<char>,
    p: Seq<char>,
    v: Seq<char>,
    q: Seq<char>,
)
    ensures
        q != p ==> #[trigger] said(bnode_literal(w, n, p, v).log, q) == said(w.log, q),
        q == p
            ==> said(bnode_literal(w, n, p, v).log, q) == said(w.log, q)
                + seq![(Term::Node(n), Term::Text(v))],
{
    broadcast use lemma_said_push;

}

pub broadcast proof fn lemma_bnode_to_bnode_said(
    w: Sheet,
    n: Seq<char>,
    p: Seq<char>,
    m: Seq<char>,
    q: Seq<char>,
)
    ensures
        q != p ==> #[trigger] said(bnode_to_bnode(w, n, p, m).log, q) == said(w.log, q),
        q == p
            ==> said(bnode_to_bnode(w, n, p, m).log, q) == said(w.log, q)
                + seq![(Term::Node(n), Term::Node(m))],
{
    broadcast use lemma_said_push;

}

pub broadcast proof fn lemma_maybe_literal_said(
    w: Sheet,
    s: Seq<char>,
    p: Seq<char>,
    v: Option<Seq<char>>,
    q: Seq<char>,
)
    ensures
        q != p ==> #[trigger] said(maybe_literal(w, s, p, v).log, q) == said(w.log, q),
        q == p ==> said(maybe_literal(w, s, p, v).log, q) == said(w.log, q) + text_if(s, v),
{
    broadcast use lemma_said_push;

    reveal(maybe_literal);
}

pub broadcast proof fn lemma_maybe_number_said(
    w: Sheet,
    s: Seq<char>,
    p: Seq<char>,
    n: Option<i64>,
    q: Seq<char>,
)
    ensures
        q != p ==> #[trigger] said(maybe_number(w, s, p, n).log, q) == said(w.log, q),
        q == p ==> said(maybe_number(w, s, p, n).log, q) == said(w.log, q) + number_if_any(s, n),
{
    broadcast use lemma_said_push;

    reveal(maybe_number);
}

pub broadcast group group_writes {
    lemma_link_said,
    lemma_literal_said,
    lemma_typed_said,
    lemma_bnode_object_said,
    lemma_bnode_subject_said,
    lemma_bnode_literal_said,
    lemma_bnode_to_bnode_said,
    lemma_maybe_literal_said,
    lemma_maybe_number_said,
    lemma_core_names,
    lemma_core_is_not_rdf,
}

pub broadcast group group_tally {
    lemma_tally_one,
    lemma_tally_none,
}

} // verus!
