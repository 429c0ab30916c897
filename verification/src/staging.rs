//! What is asked of a derived graph before it takes the place of the one in use.

use crate::ntriples::{pkg, PKG, XSD};
use crate::split::{join, joined};
use crate::text::{cat2, cat3, views};
use vstd::prelude::*;

verus! {

broadcast use crate::text::lemma_views_push;

/// The prefix of the core vocabulary.
pub open spec fn prefix() -> Seq<char> {
    "PREFIX pkg: <"@ + PKG@ + ">\n"@
}

pub fn prefix_text() -> (r: String)
    ensures
        r@ == prefix(),
{
    cat3("PREFIX pkg: <", PKG, ">\n")
}

/// The prefixes of the core vocabulary and of the datatypes.
pub open spec fn prefixes() -> Seq<char> {
    prefix() + "PREFIX xsd: <"@ + XSD@ + ">\n"@
}

pub fn prefixes_text() -> (r: String)
    ensures
        r@ == prefixes(),
{
    let mut q: String = prefix_text();
    q.append("PREFIX xsd: <");
    q.append(XSD);
    q.append(">\n");
    q
}

/// Texts with something before and after each.
pub open spec fn wrapped(items: Seq<Seq<char>>, front: Seq<char>, back: Seq<char>) -> Seq<Seq<char>> {
    Seq::new(items.len(), |i: int| front + items[i] + back)
}

fn join_wrapped(items: &Vec<String>, front: &str, back: &str, sep: &str) -> (r: String)
    ensures
        r@ == joined(wrapped(views(items@), front@, back@), sep@),
{
    let mut out: Vec<String> = Vec::new();
    let mut i: usize = 0;
    let ghost texts = views(items@);
    while i < items.len()
        invariant
            i <= items.len(),
            out@.len() == i,
            texts == views(items@),
            forall|k: int| 0 <= k < i ==> (#[trigger] out@[k])@ == front@ + texts[k] + back@,
        decreases items.len() - i,
    {
        assert(texts[i as int] == items@[i as int]@);
        out.push(cat3(front, &items[i], back));
        i = i + 1;
    }
    assert(views(out@) =~= wrapped(texts, front@, back@));
    let end: usize = out.len();
    assert(views(out@).subrange(0, end as int) =~= views(out@));
    join(&out, 0, end, sep)
}

// ---------------------------------------------------------------------------
// Concepts

/// The concepts of fidelity.
pub open spec fn fidelity_concepts() -> Seq<Seq<char>> {
    seq![
        "fidelity-exact"@,
        "fidelity-vendor-patched"@,
        "fidelity-modular-equivalent"@,
        "fidelity-unknown"@,
    ]
}

/// The concepts of drift.
pub open spec fn drift_concepts() -> Seq<Seq<char>> {
    seq!["drift-even"@, "drift-ahead"@, "drift-behind"@, "drift-version-equivalent"@]
}

/// The concepts of fidelity that go with a baseline.
pub open spec fn matched_concepts() -> Seq<Seq<char>> {
    seq!["fidelity-exact"@, "fidelity-vendor-patched"@, "fidelity-modular-equivalent"@]
}

fn fidelity_list() -> (r: Vec<String>)
    ensures
        views(r@) == fidelity_concepts(),
{
    let mut v: Vec<String> = matched_list();
    v.push("fidelity-unknown".to_owned());
    assert(views(v@) =~= fidelity_concepts());
    v
}

fn drift_list() -> (r: Vec<String>)
    ensures
        views(r@) == drift_concepts(),
{
    let mut v: Vec<String> = Vec::new();
    v.push("drift-even".to_owned());
    v.push("drift-ahead".to_owned());
    v.push("drift-behind".to_owned());
    v.push("drift-version-equivalent".to_owned());
    assert(views(v@) =~= drift_concepts());
    v
}

fn matched_list() -> (r: Vec<String>)
    ensures
        views(r@) == matched_concepts(),
{
    let mut v: Vec<String> = Vec::new();
    v.push("fidelity-exact".to_owned());
    v.push("fidelity-vendor-patched".to_owned());
    v.push("fidelity-modular-equivalent".to_owned());
    assert(views(v@) =~= matched_concepts());
    v
}

/// Concepts as a list in a query.
pub open spec fn concept_text(concepts: Seq<Seq<char>>) -> Seq<char> {
    joined(wrapped(concepts, "pkg:"@, ""@), ", "@)
}

fn concept_list(concepts: &Vec<String>) -> (r: String)
    ensures
        r@ == concept_text(views(concepts@)),
{
    join_wrapped(concepts, "pkg:", "", ", ")
}

/// The condition that something is a source package in one of some graphs.
pub open spec fn membership(graphs: Seq<Seq<char>>) -> Seq<char> {
    joined(wrapped(graphs, "{ GRAPH <"@, "> { ?b a pkg:SourcePackage } }"@), " UNION "@)
}

fn membership_text(graphs: &Vec<String>) -> (r: String)
    ensures
        r@ == membership(views(graphs@)),
{
    join_wrapped(graphs, "{ GRAPH <", "> { ?b a pkg:SourcePackage } }", " UNION ")
}

// ---------------------------------------------------------------------------
// Checks

/// A query that counts what must not be there.
#[derive(Debug)]
pub struct StagingCheck {
    pub description: String,
    pub query: String,
}

pub open spec fn check_view(c: StagingCheck) -> (Seq<char>, Seq<char>) {
    (c.description@, c.query@)
}

pub open spec fn check_views(v: Seq<StagingCheck>) -> Seq<(Seq<char>, Seq<char>)> {
    v.map_values(|c: StagingCheck| check_view(c))
}

/// That every assessment has a property exactly once.
pub open spec fn exactly_one(staging: Seq<char>, predicate: Seq<char>) -> (Seq<char>, Seq<char>) {
    (
        "assessment(s) not carrying exactly one pkg:"@ + predicate,
        prefix() + "SELECT (COUNT(?a) AS ?c) WHERE { SELECT ?a (COUNT(?v) AS ?n) WHERE { GRAPH <"@ + staging + "> { ?a a pkg:RebuildAssessment . OPTIONAL { ?a pkg:"@ + predicate + " ?v } } } GROUP BY ?a HAVING(?n != 1) }"@,
    )
}

pub fn exactly_one_check(staging: &str, predicate: &str) -> (r: (String, String))
    ensures
        (r.0@, r.1@) == exactly_one(staging@, predicate@),
{
    let mut d: String = "assessment(s) not carrying exactly one pkg:".to_owned();
    d.append(predicate);
    let mut q: String = prefix_text();
    q.append("SELECT (COUNT(?a) AS ?c) WHERE { SELECT ?a (COUNT(?v) AS ?n) WHERE { GRAPH <");
    q.append(staging);
    q.append("> { ?a a pkg:RebuildAssessment . OPTIONAL { ?a pkg:");
    q.append(predicate);
    q.append(" ?v } } } GROUP BY ?a HAVING(?n != 1) }");
    (d, q)
}

/// That every assessment has a property at most once.
pub open spec fn at_most_one(staging: Seq<char>, predicate: Seq<char>) -> (Seq<char>, Seq<char>) {
    (
        "assessment(s) carrying more than one pkg:"@ + predicate,
        prefix() + "SELECT (COUNT(?a) AS ?c) WHERE { SELECT ?a (COUNT(?v) AS ?n) WHERE { GRAPH <"@ + staging + "> { ?a a pkg:RebuildAssessment . OPTIONAL { ?a pkg:"@ + predicate + " ?v } } } GROUP BY ?a HAVING(?n > 1) }"@,
    )
}

pub fn at_most_one_check(staging: &str, predicate: &str) -> (r: (String, String))
    ensures
        (r.0@, r.1@) == at_most_one(staging@, predicate@),
{
    let mut d: String = "assessment(s) carrying more than one pkg:".to_owned();
    d.append(predicate);
    let mut q: String = prefix_text();
    q.append("SELECT (COUNT(?a) AS ?c) WHERE { SELECT ?a (COUNT(?v) AS ?n) WHERE { GRAPH <");
    q.append(staging);
    q.append("> { ?a a pkg:RebuildAssessment . OPTIONAL { ?a pkg:");
    q.append(predicate);
    q.append(" ?v } } } GROUP BY ?a HAVING(?n > 1) }");
    (d, q)
}

/// That every value of a property has a datatype.
pub open spec fn of_datatype(staging: Seq<char>, predicate: Seq<char>, datatype: Seq<char>) -> (Seq<char>, Seq<char>) {
    (
        "pkg:"@ + predicate + " value(s) not typed as the required datatype"@,
        prefix() + "SELECT (COUNT(?v) AS ?c) WHERE { GRAPH <"@ + staging + "> { ?a pkg:"@ + predicate + " ?v } FILTER(!isLiteral(?v) || datatype(?v) != <"@ + datatype + ">) }"@,
    )
}

pub fn datatype_check(staging: &str, predicate: &str, datatype: &str) -> (r: (String, String))
    ensures
        (r.0@, r.1@) == of_datatype(staging@, predicate@, datatype@),
{
    let mut d: String = "pkg:".to_owned();
    d.append(predicate);
    d.append(" value(s) not typed as the required datatype");
    let mut q: String = prefix_text();
    q.append("SELECT (COUNT(?v) AS ?c) WHERE { GRAPH <");
    q.append(staging);
    q.append("> { ?a pkg:");
    q.append(predicate);
    q.append(" ?v } FILTER(!isLiteral(?v) || datatype(?v) != <");
    q.append(datatype);
    q.append(">) }");
    (d, q)
}

fn push_check(out: &mut Vec<StagingCheck>, check: (String, String))
    ensures
        final(out)@.len() == old(out)@.len() + 1,
        check_views(final(out)@) == check_views(old(out)@).push((check.0@, check.1@)),
{
    let ghost was = out@;
    out.push(StagingCheck { description: check.0, query: check.1 });
    assert(check_views(out@) =~= check_views(was).push((check.0@, check.1@)));
}

/// What every assessment must have.
pub open spec fn required_checks(staging: Seq<char>) -> Seq<(Seq<char>, Seq<char>)> {
    seq![
        exactly_one(staging, "assessmentOf"@),
        exactly_one(staging, "assessedAt"@),
        exactly_one(staging, "assessmentMethod"@),
        exactly_one(staging, "assessedAgainstSnapshot"@),
        exactly_one(staging, "hasUpstreamCounterpart"@),
        exactly_one(staging, "lineageConfirmed"@),
    ]
}

fn add_required_checks(out: &mut Vec<StagingCheck>, staging: &str)
    ensures
        check_views(final(out)@) == check_views(old(out)@) + required_checks(staging@),
{
    let ghost was = out@;
    push_check(out, exactly_one_check(staging, "assessmentOf"));
    push_check(out, exactly_one_check(staging, "assessedAt"));
    push_check(out, exactly_one_check(staging, "assessmentMethod"));
    push_check(out, exactly_one_check(staging, "assessedAgainstSnapshot"));
    push_check(out, exactly_one_check(staging, "hasUpstreamCounterpart"));
    push_check(out, exactly_one_check(staging, "lineageConfirmed"));
    assert(check_views(out@) =~= check_views(was) + required_checks(staging@));
}

/// What an assessment may have.
pub open spec fn optional_checks(staging: Seq<char>) -> Seq<(Seq<char>, Seq<char>)> {
    seq![
        at_most_one(staging, "rebuildFidelity"@),
        at_most_one(staging, "rebuildDrift"@),
        at_most_one(staging, "fidelityBaseline"@),
        at_most_one(staging, "comparedAgainst"@),
        at_most_one(staging, "assessmentConfidence"@),
        at_most_one(staging, "lineageEvidence"@),
    ]
}

fn add_optional_checks(out: &mut Vec<StagingCheck>, staging: &str)
    ensures
        check_views(final(out)@) == check_views(old(out)@) + optional_checks(staging@),
{
    let ghost was = out@;
    push_check(out, at_most_one_check(staging, "rebuildFidelity"));
    push_check(out, at_most_one_check(staging, "rebuildDrift"));
    push_check(out, at_most_one_check(staging, "fidelityBaseline"));
    push_check(out, at_most_one_check(staging, "comparedAgainst"));
    push_check(out, at_most_one_check(staging, "assessmentConfidence"));
    push_check(out, at_most_one_check(staging, "lineageEvidence"));
    assert(check_views(out@) =~= check_views(was) + optional_checks(staging@));
}

/// The datatypes of the values.
pub open spec fn datatype_checks(staging: Seq<char>) -> Seq<(Seq<char>, Seq<char>)> {
    seq![
        of_datatype(staging, "assessedAt"@, XSD@ + "dateTime"@),
        of_datatype(staging, "assessmentMethod"@, XSD@ + "string"@),
        of_datatype(staging, "lineageEvidence"@, XSD@ + "string"@),
        of_datatype(staging, "hasUpstreamCounterpart"@, XSD@ + "boolean"@),
        of_datatype(staging, "lineageConfirmed"@, XSD@ + "boolean"@),
        of_datatype(staging, "assessmentConfidence"@, XSD@ + "decimal"@),
    ]
}

fn add_datatype_checks(out: &mut Vec<StagingCheck>, staging: &str)
    ensures
        check_views(final(out)@) == check_views(old(out)@) + datatype_checks(staging@),
{
    let ghost was = out@;
    push_check(out, datatype_check(staging, "assessedAt", &cat2(XSD, "dateTime")));
    push_check(out, datatype_check(staging, "assessmentMethod", &cat2(XSD, "string")));
    push_check(out, datatype_check(staging, "lineageEvidence", &cat2(XSD, "string")));
    push_check(out, datatype_check(staging, "hasUpstreamCounterpart", &cat2(XSD, "boolean")));
    push_check(out, datatype_check(staging, "lineageConfirmed", &cat2(XSD, "boolean")));
    push_check(out, datatype_check(staging, "assessmentConfidence", &cat2(XSD, "decimal")));
    assert(check_views(out@) =~= check_views(was) + datatype_checks(staging@));
}

/// Confidences are between zero and one.
pub open spec fn confidence_range(staging: Seq<char>) -> (Seq<char>, Seq<char>) {
    (
        "confidence value(s) outside [0.0, 1.0]"@,
        prefixes() + "SELECT (COUNT(?v) AS ?c) WHERE { GRAPH <"@ + staging + "> { ?a pkg:assessmentConfidence ?v } FILTER(?v < 0.0 || ?v > 1.0) }"@,
    )
}

fn confidence_range_check(staging: &str) -> (r: (String, String))
    ensures
        (r.0@, r.1@) == confidence_range(staging@),
{
    let mut q: String = prefixes_text();
    q.append("SELECT (COUNT(?v) AS ?c) WHERE { GRAPH <");
    q.append(staging);
    q.append("> { ?a pkg:assessmentConfidence ?v } FILTER(?v < 0.0 || ?v > 1.0) }");
    ("confidence value(s) outside [0.0, 1.0]".to_owned(), q)
}

/// Fidelity is one of its concepts.
pub open spec fn fidelity_scheme(staging: Seq<char>) -> (Seq<char>, Seq<char>) {
    (
        "rebuildFidelity concept outside RebuildFidelityScheme"@,
        prefixes() + "SELECT (COUNT(?v) AS ?c) WHERE { GRAPH <"@ + staging + "> { ?a pkg:rebuildFidelity ?v } FILTER(?v NOT IN ("@ + concept_text(fidelity_concepts()) + ")) }"@,
    )
}

fn fidelity_scheme_check(staging: &str) -> (r: (String, String))
    ensures
        (r.0@, r.1@) == fidelity_scheme(staging@),
{
    let mut q: String = prefixes_text();
    q.append("SELECT (COUNT(?v) AS ?c) WHERE { GRAPH <");
    q.append(staging);
    q.append("> { ?a pkg:rebuildFidelity ?v } FILTER(?v NOT IN (");
    q.append(&concept_list(&fidelity_list()));
    q.append(")) }");
    ("rebuildFidelity concept outside RebuildFidelityScheme".to_owned(), q)
}

/// Drift is one of its concepts.
pub open spec fn drift_scheme(staging: Seq<char>) -> (Seq<char>, Seq<char>) {
    (
        "rebuildDrift concept outside RebuildDriftScheme"@,
        prefixes() + "SELECT (COUNT(?v) AS ?c) WHERE { GRAPH <"@ + staging + "> { ?a pkg:rebuildDrift ?v } FILTER(?v NOT IN ("@ + concept_text(drift_concepts()) + ")) }"@,
    )
}

fn drift_scheme_check(staging: &str) -> (r: (String, String))
    ensures
        (r.0@, r.1@) == drift_scheme(staging@),
{
    let mut q: String = prefixes_text();
    q.append("SELECT (COUNT(?v) AS ?c) WHERE { GRAPH <");
    q.append(staging);
    q.append("> { ?a pkg:rebuildDrift ?v } FILTER(?v NOT IN (");
    q.append(&concept_list(&drift_list()));
    q.append(")) }");
    ("rebuildDrift concept outside RebuildDriftScheme".to_owned(), q)
}

/// An assessment without a counterpart says nothing about one.
pub open spec fn absent_counterpart(staging: Seq<char>) -> (Seq<char>, Seq<char>) {
    (
        "hasUpstreamCounterpart=false assessment(s) also carrying fidelity/drift/baselines/ambiguousCandidate"@,
        prefixes() + "SELECT (COUNT(DISTINCT ?a) AS ?c) WHERE { GRAPH <"@ + staging + "> { ?a pkg:hasUpstreamCounterpart false . { ?a pkg:rebuildFidelity ?x } UNION { ?a pkg:rebuildDrift ?x } UNION { ?a pkg:fidelityBaseline ?x } UNION { ?a pkg:comparedAgainst ?x } UNION { ?a pkg:ambiguousCandidate ?x } } }"@,
    )
}

fn absent_counterpart_check(staging: &str) -> (r: (String, String))
    ensures
        (r.0@, r.1@) == absent_counterpart(staging@),
{
    let mut q: String = prefixes_text();
    q.append("SELECT (COUNT(DISTINCT ?a) AS ?c) WHERE { GRAPH <");
    q.append(staging);
    q.append("> { ?a pkg:hasUpstreamCounterpart false . { ?a pkg:rebuildFidelity ?x } UNION { ?a pkg:rebuildDrift ?x } UNION { ?a pkg:fidelityBaseline ?x } UNION { ?a pkg:comparedAgainst ?x } UNION { ?a pkg:ambiguousCandidate ?x } } }");
    ("hasUpstreamCounterpart=false assessment(s) also carrying fidelity/drift/baselines/ambiguousCandidate".to_owned(), q)
}

/// An assessment with a counterpart has fidelity and drift.
pub open spec fn present_counterpart(staging: Seq<char>) -> (Seq<char>, Seq<char>) {
    (
        "hasUpstreamCounterpart=true assessment(s) missing rebuildFidelity or rebuildDrift"@,
        prefixes() + "SELECT (COUNT(DISTINCT ?a) AS ?c) WHERE { GRAPH <"@ + staging + "> { ?a pkg:hasUpstreamCounterpart true . FILTER(NOT EXISTS { ?a pkg:rebuildFidelity ?f } || NOT EXISTS { ?a pkg:rebuildDrift ?d }) } }"@,
    )
}

fn present_counterpart_check(staging: &str) -> (r: (String, String))
    ensures
        (r.0@, r.1@) == present_counterpart(staging@),
{
    let mut q: String = prefixes_text();
    q.append("SELECT (COUNT(DISTINCT ?a) AS ?c) WHERE { GRAPH <");
    q.append(staging);
    q.append("> { ?a pkg:hasUpstreamCounterpart true . FILTER(NOT EXISTS { ?a pkg:rebuildFidelity ?f } || NOT EXISTS { ?a pkg:rebuildDrift ?d }) } }");
    ("hasUpstreamCounterpart=true assessment(s) missing rebuildFidelity or rebuildDrift".to_owned(), q)
}

/// Drift goes with what it was measured against.
pub open spec fn drift_baseline(staging: Seq<char>) -> (Seq<char>, Seq<char>) {
    (
        "rebuildDrift present without a comparedAgainst baseline"@,
        prefixes() + "SELECT (COUNT(DISTINCT ?a) AS ?c) WHERE { GRAPH <"@ + staging + "> { ?a pkg:rebuildDrift ?d . FILTER NOT EXISTS { ?a pkg:comparedAgainst ?c } } }"@,
    )
}

fn drift_baseline_check(staging: &str) -> (r: (String, String))
    ensures
        (r.0@, r.1@) == drift_baseline(staging@),
{
    let mut q: String = prefixes_text();
    q.append("SELECT (COUNT(DISTINCT ?a) AS ?c) WHERE { GRAPH <");
    q.append(staging);
    q.append("> { ?a pkg:rebuildDrift ?d . FILTER NOT EXISTS { ?a pkg:comparedAgainst ?c } } }");
    ("rebuildDrift present without a comparedAgainst baseline".to_owned(), q)
}

/// Fidelity that was matched goes with a baseline.
pub open spec fn matched_baseline(staging: Seq<char>) -> (Seq<char>, Seq<char>) {
    (
        "matched fidelity (exact/vendor-patched/modular-equivalent) without a fidelityBaseline"@,
        prefixes() + "SELECT (COUNT(DISTINCT ?a) AS ?c) WHERE { GRAPH <"@ + staging + "> { ?a pkg:rebuildFidelity ?f FILTER(?f IN ("@ + concept_text(matched_concepts()) + ")) . FILTER NOT EXISTS { ?a pkg:fidelityBaseline ?b } } }"@,
    )
}

fn matched_baseline_check(staging: &str) -> (r: (String, String))
    ensures
        (r.0@, r.1@) == matched_baseline(staging@),
{
    let mut q: String = prefixes_text();
    q.append("SELECT (COUNT(DISTINCT ?a) AS ?c) WHERE { GRAPH <");
    q.append(staging);
    q.append("> { ?a pkg:rebuildFidelity ?f FILTER(?f IN (");
    q.append(&concept_list(&matched_list()));
    q.append(")) . FILTER NOT EXISTS { ?a pkg:fidelityBaseline ?b } } }");
    ("matched fidelity (exact/vendor-patched/modular-equivalent) without a fidelityBaseline".to_owned(), q)
}

/// Unknown fidelity goes without a baseline.
pub open spec fn unknown_baseline(staging: Seq<char>) -> (Seq<char>, Seq<char>) {
    (
        "fidelity-unknown assessment(s) carrying a fidelityBaseline"@,
        prefixes() + "SELECT (COUNT(DISTINCT ?a) AS ?c) WHERE { GRAPH <"@ + staging + "> { ?a pkg:rebuildFidelity pkg:fidelity-unknown ; pkg:fidelityBaseline ?b } }"@,
    )
}

fn unknown_baseline_check(staging: &str) -> (r: (String, String))
    ensures
        (r.0@, r.1@) == unknown_baseline(staging@),
{
    let mut q: String = prefixes_text();
    q.append("SELECT (COUNT(DISTINCT ?a) AS ?c) WHERE { GRAPH <");
    q.append(staging);
    q.append("> { ?a pkg:rebuildFidelity pkg:fidelity-unknown ; pkg:fidelityBaseline ?b } }");
    ("fidelity-unknown assessment(s) carrying a fidelityBaseline".to_owned(), q)
}

/// Candidates go with unknown fidelity.
pub open spec fn ambiguity_unknown(staging: Seq<char>) -> (Seq<char>, Seq<char>) {
    (
        "ambiguousCandidate present without rebuildFidelity = fidelity-unknown"@,
        prefixes() + "SELECT (COUNT(DISTINCT ?a) AS ?c) WHERE { GRAPH <"@ + staging + "> { ?a pkg:ambiguousCandidate ?c . FILTER NOT EXISTS { ?a pkg:rebuildFidelity pkg:fidelity-unknown } } }"@,
    )
}

fn ambiguity_unknown_check(staging: &str) -> (r: (String, String))
    ensures
        (r.0@, r.1@) == ambiguity_unknown(staging@),
{
    let mut q: String = prefixes_text();
    q.append("SELECT (COUNT(DISTINCT ?a) AS ?c) WHERE { GRAPH <");
    q.append(staging);
    q.append("> { ?a pkg:ambiguousCandidate ?c . FILTER NOT EXISTS { ?a pkg:rebuildFidelity pkg:fidelity-unknown } } }");
    ("ambiguousCandidate present without rebuildFidelity = fidelity-unknown".to_owned(), q)
}

/// There are at least two candidates, or none.
pub open spec fn ambiguity_pairs(staging: Seq<char>) -> (Seq<char>, Seq<char>) {
    (
        "ambiguousCandidate present with fewer than two distinct candidates"@,
        prefixes() + "SELECT (COUNT(?a) AS ?c) WHERE { SELECT ?a (COUNT(DISTINCT ?c) AS ?n) WHERE { GRAPH <"@ + staging + "> { ?a pkg:ambiguousCandidate ?c } } GROUP BY ?a HAVING(?n < 2) }"@,
    )
}

fn ambiguity_pairs_check(staging: &str) -> (r: (String, String))
    ensures
        (r.0@, r.1@) == ambiguity_pairs(staging@),
{
    let mut q: String = prefixes_text();
    q.append("SELECT (COUNT(?a) AS ?c) WHERE { SELECT ?a (COUNT(DISTINCT ?c) AS ?n) WHERE { GRAPH <");
    q.append(staging);
    q.append("> { ?a pkg:ambiguousCandidate ?c } } GROUP BY ?a HAVING(?n < 2) }");
    ("ambiguousCandidate present with fewer than two distinct candidates".to_owned(), q)
}

/// A package is not its own baseline.
pub open spec fn self_baseline(staging: Seq<char>) -> (Seq<char>, Seq<char>) {
    (
        "self-baseline: assessmentOf target equals its own fidelityBaseline or comparedAgainst"@,
        prefixes() + "SELECT (COUNT(DISTINCT ?a) AS ?c) WHERE { GRAPH <"@ + staging + "> { ?a pkg:assessmentOf ?p . { ?a pkg:fidelityBaseline ?p } UNION { ?a pkg:comparedAgainst ?p } } }"@,
    )
}

fn self_baseline_check(staging: &str) -> (r: (String, String))
    ensures
        (r.0@, r.1@) == self_baseline(staging@),
{
    let mut q: String = prefixes_text();
    q.append("SELECT (COUNT(DISTINCT ?a) AS ?c) WHERE { GRAPH <");
    q.append(staging);
    q.append("> { ?a pkg:assessmentOf ?p . { ?a pkg:fidelityBaseline ?p } UNION { ?a pkg:comparedAgainst ?p } } }");
    ("self-baseline: assessmentOf target equals its own fidelityBaseline or comparedAgainst".to_owned(), q)
}

/// A baseline is a source package in one of the upstream graphs.
pub open spec fn known_baseline(staging: Seq<char>, graphs: Seq<Seq<char>>) -> (Seq<char>, Seq<char>) {
    (
        "unexpected baseline/candidate object not found as a SourcePackage in a configured upstream graph"@,
        prefixes() + "SELECT (COUNT(DISTINCT ?b) AS ?c) WHERE { GRAPH <"@ + staging + "> { { ?a pkg:fidelityBaseline ?b } UNION { ?a pkg:comparedAgainst ?b } UNION { ?a pkg:ambiguousCandidate ?b } } FILTER NOT EXISTS { "@ + membership(graphs) + " } }"@,
    )
}

fn known_baseline_check(staging: &str, graphs: &Vec<String>) -> (r: (String, String))
    ensures
        (r.0@, r.1@) == known_baseline(staging@, views(graphs@)),
{
    let mut q: String = prefixes_text();
    q.append("SELECT (COUNT(DISTINCT ?b) AS ?c) WHERE { GRAPH <");
    q.append(staging);
    q.append("> { { ?a pkg:fidelityBaseline ?b } UNION { ?a pkg:comparedAgainst ?b } UNION { ?a pkg:ambiguousCandidate ?b } } FILTER NOT EXISTS { ");
    q.append(&membership_text(graphs));
    q.append(" } }");
    ("unexpected baseline/candidate object not found as a SourcePackage in a configured upstream graph".to_owned(), q)
}

/// A snapshot is typed as one in the same graph.
pub open spec fn snapshot_type(staging: Seq<char>) -> (Seq<char>, Seq<char>) {
    (
        "assessedAgainstSnapshot value missing rdf:type pkg:DataSnapshot"@,
        prefixes() + "SELECT (COUNT(DISTINCT ?s) AS ?c) WHERE { GRAPH <"@ + staging + "> { ?a pkg:assessedAgainstSnapshot ?s } FILTER NOT EXISTS { GRAPH <"@ + staging + "> { ?s a pkg:DataSnapshot } } }"@,
    )
}

fn snapshot_type_check(staging: &str) -> (r: (String, String))
    ensures
        (r.0@, r.1@) == snapshot_type(staging@),
{
    let mut q: String = prefixes_text();
    q.append("SELECT (COUNT(DISTINCT ?s) AS ?c) WHERE { GRAPH <");
    q.append(staging);
    q.append("> { ?a pkg:assessedAgainstSnapshot ?s } FILTER NOT EXISTS { GRAPH <");
    q.append(staging);
    q.append("> { ?s a pkg:DataSnapshot } } }");
    ("assessedAgainstSnapshot value missing rdf:type pkg:DataSnapshot".to_owned(), q)
}

/// A snapshot has a label that is not blank.
pub open spec fn snapshot_label(staging: Seq<char>) -> (Seq<char>, Seq<char>) {
    (
        "assessedAgainstSnapshot value missing a non-empty rdfs:label"@,
        "PREFIX rdfs: <http://www.w3.org/2000/01/rdf-schema#>\n"@ + prefixes() + "SELECT (COUNT(DISTINCT ?s) AS ?c) WHERE { GRAPH <"@ + staging + "> { ?a pkg:assessedAgainstSnapshot ?s } FILTER NOT EXISTS { GRAPH <"@ + staging + "> { ?s rdfs:label ?l } FILTER(STRLEN(REPLACE(STR(?l), \"^\\\\s+|\\\\s+$\", \"\")) > 0) } }"@,
    )
}

fn snapshot_label_check(staging: &str) -> (r: (String, String))
    ensures
        (r.0@, r.1@) == snapshot_label(staging@),
{
    let mut q: String = "PREFIX rdfs: <http://www.w3.org/2000/01/rdf-schema#>\n".to_owned();
    q.append(&prefixes_text());
    q.append("SELECT (COUNT(DISTINCT ?s) AS ?c) WHERE { GRAPH <");
    q.append(staging);
    q.append("> { ?a pkg:assessedAgainstSnapshot ?s } FILTER NOT EXISTS { GRAPH <");
    q.append(staging);
    q.append("> { ?s rdfs:label ?l } FILTER(STRLEN(REPLACE(STR(?l), \"^\\\\s+|\\\\s+$\", \"\")) > 0) } }");
    ("assessedAgainstSnapshot value missing a non-empty rdfs:label".to_owned(), q)
}

/// No lineage is claimed.
pub open spec fn no_lineage(staging: Seq<char>) -> (Seq<char>, Seq<char>) {
    (
        "pkg:rebuildOf triple present (this deriver never promotes lineage)"@,
        prefixes() + "SELECT (COUNT(*) AS ?c) WHERE { GRAPH <"@ + staging + "> { ?s pkg:rebuildOf ?o } }"@,
    )
}

fn no_lineage_check(staging: &str) -> (r: (String, String))
    ensures
        (r.0@, r.1@) == no_lineage(staging@),
{
    let mut q: String = prefixes_text();
    q.append("SELECT (COUNT(*) AS ?c) WHERE { GRAPH <");
    q.append(staging);
    q.append("> { ?s pkg:rebuildOf ?o } }");
    ("pkg:rebuildOf triple present (this deriver never promotes lineage)".to_owned(), q)
}

/// No lineage is confirmed.
pub open spec fn no_confirmation(staging: Seq<char>) -> (Seq<char>, Seq<char>) {
    (
        "lineageConfirmed=true assessment(s) (this deriver never promotes lineage)"@,
        prefixes() + "SELECT (COUNT(*) AS ?c) WHERE { GRAPH <"@ + staging + "> { ?a pkg:lineageConfirmed true } }"@,
    )
}

fn no_confirmation_check(staging: &str) -> (r: (String, String))
    ensures
        (r.0@, r.1@) == no_confirmation(staging@),
{
    let mut q: String = prefixes_text();
    q.append("SELECT (COUNT(*) AS ?c) WHERE { GRAPH <");
    q.append(staging);
    q.append("> { ?a pkg:lineageConfirmed true } }");
    ("lineageConfirmed=true assessment(s) (this deriver never promotes lineage)".to_owned(), q)
}

/// No evidence for lineage is given.
pub open spec fn no_evidence(staging: Seq<char>) -> (Seq<char>, Seq<char>) {
    (
        "lineageEvidence triple present (this deriver never promotes lineage)"@,
        prefixes() + "SELECT (COUNT(*) AS ?c) WHERE { GRAPH <"@ + staging + "> { ?a pkg:lineageEvidence ?e } }"@,
    )
}

fn no_evidence_check(staging: &str) -> (r: (String, String))
    ensures
        (r.0@, r.1@) == no_evidence(staging@),
{
    let mut q: String = prefixes_text();
    q.append("SELECT (COUNT(*) AS ?c) WHERE { GRAPH <");
    q.append(staging);
    q.append("> { ?a pkg:lineageEvidence ?e } }");
    ("lineageEvidence triple present (this deriver never promotes lineage)".to_owned(), q)
}

/// What the values of an assessment must agree on.
pub open spec fn axis_checks(staging: Seq<char>, graphs: Seq<Seq<char>>) -> Seq<
    (Seq<char>, Seq<char>),
> {
    seq![
        confidence_range(staging),
        fidelity_scheme(staging),
        drift_scheme(staging),
        absent_counterpart(staging),
        present_counterpart(staging),
        drift_baseline(staging),
        matched_baseline(staging),
        unknown_baseline(staging),
        ambiguity_unknown(staging),
        ambiguity_pairs(staging),
        self_baseline(staging),
        known_baseline(staging, graphs),
        snapshot_type(staging),
        snapshot_label(staging),
        no_lineage(staging),
        no_confirmation(staging),
        no_evidence(staging),
    ]
}

fn add_axis_checks(out: &mut Vec<StagingCheck>, staging: &str, graphs: &Vec<String>)
    ensures
        check_views(final(out)@) == check_views(old(out)@) + axis_checks(
            staging@,
            views(graphs@),
        ),
{
    let ghost was = out@;
    push_check(out, confidence_range_check(staging));
    push_check(out, fidelity_scheme_check(staging));
    push_check(out, drift_scheme_check(staging));
    push_check(out, absent_counterpart_check(staging));
    push_check(out, present_counterpart_check(staging));
    push_check(out, drift_baseline_check(staging));
    push_check(out, matched_baseline_check(staging));
    push_check(out, unknown_baseline_check(staging));
    push_check(out, ambiguity_unknown_check(staging));
    push_check(out, ambiguity_pairs_check(staging));
    push_check(out, self_baseline_check(staging));
    push_check(out, known_baseline_check(staging, graphs));
    push_check(out, snapshot_type_check(staging));
    push_check(out, snapshot_label_check(staging));
    push_check(out, no_lineage_check(staging));
    push_check(out, no_confirmation_check(staging));
    push_check(out, no_evidence_check(staging));
    assert(check_views(out@) =~= check_views(was) + axis_checks(staging@, views(graphs@)));
}

/// Everything that must not be in a derived graph.
pub open spec fn all_checks(staging: Seq<char>, graphs: Seq<Seq<char>>) -> Seq<
    (Seq<char>, Seq<char>),
> {
    required_checks(staging) + optional_checks(staging) + datatype_checks(staging) + axis_checks(
        staging,
        graphs,
    )
}

/// Everything that must not be in a derived graph.
pub fn staging_checks(staging: &str, rhel_graphs: &Vec<String>) -> (r: Vec<StagingCheck>)
    ensures
        check_views(r@) == all_checks(staging@, views(rhel_graphs@)),
{
    let mut out: Vec<StagingCheck> = Vec::new();
    assert(check_views(out@) =~= Seq::empty());
    add_required_checks(&mut out, staging);
    add_optional_checks(&mut out, staging);
    add_datatype_checks(&mut out, staging);
    add_axis_checks(&mut out, staging, rhel_graphs);
    assert(check_views(out@) =~= all_checks(staging@, views(rhel_graphs@)));
    out
}

// ---------------------------------------------------------------------------
// Other queries

/// How many assessments there are.
pub open spec fn count_assessments(staging: Seq<char>) -> Seq<char> {
    prefix() + "SELECT (COUNT(DISTINCT ?a) AS ?c) WHERE { GRAPH <"@ + staging + "> { ?a a pkg:RebuildAssessment } }"@
}

pub fn assessment_count_query(staging: &str) -> (r: String)
    ensures
        r@ == count_assessments(staging@),
{
    let mut q: String = prefix_text();
    q.append("SELECT (COUNT(DISTINCT ?a) AS ?c) WHERE { GRAPH <");
    q.append(staging);
    q.append("> { ?a a pkg:RebuildAssessment } }");
    q
}

/// How many distributions are derived from others.
pub open spec fn count_distributions(staging: Seq<char>) -> Seq<char> {
    prefix() + "SELECT (COUNT(*) AS ?c) WHERE { GRAPH <"@ + staging + "> { ?a pkg:derivedFromDistribution ?b } }"@
}

pub fn distribution_count_query(staging: &str) -> (r: String)
    ensures
        r@ == count_distributions(staging@),
{
    let mut q: String = prefix_text();
    q.append("SELECT (COUNT(*) AS ?c) WHERE { GRAPH <");
    q.append(staging);
    q.append("> { ?a pkg:derivedFromDistribution ?b } }");
    q
}

/// What was assessed.
pub open spec fn select_subjects(staging: Seq<char>) -> Seq<char> {
    prefix() + "SELECT DISTINCT ?s WHERE { GRAPH <"@ + staging + "> { ?a pkg:assessmentOf ?s } }"@
}

pub fn assessment_subjects_query(staging: &str) -> (r: String)
    ensures
        r@ == select_subjects(staging@),
{
    let mut q: String = prefix_text();
    q.append("SELECT DISTINCT ?s WHERE { GRAPH <");
    q.append(staging);
    q.append("> { ?a pkg:assessmentOf ?s } }");
    q
}

/// What it was assessed against.
pub open spec fn select_snapshots(staging: Seq<char>) -> Seq<char> {
    prefix() + "SELECT DISTINCT ?s WHERE { GRAPH <"@ + staging + "> { ?a pkg:assessedAgainstSnapshot ?s } }"@
}

pub fn snapshot_subjects_query(staging: &str) -> (r: String)
    ensures
        r@ == select_snapshots(staging@),
{
    let mut q: String = prefix_text();
    q.append("SELECT DISTINCT ?s WHERE { GRAPH <");
    q.append(staging);
    q.append("> { ?a pkg:assessedAgainstSnapshot ?s } }");
    q
}

/// Whether a term of the vocabulary is declared.
pub open spec fn term_query(term: Seq<char>) -> Seq<char> {
    "SELECT ?p WHERE { <"@ + pkg(term) + "> a ?p } LIMIT 1"@
}

pub fn term_type_query(term: &str) -> (r: String)
    ensures
        r@ == term_query(term@),
{
    cat3("SELECT ?p WHERE { <", &cat2(PKG, term), "> a ?p } LIMIT 1")
}

/// The update that puts one graph in the place of another, in one request.
pub open spec fn swap_update(prod: Seq<char>, staging: Seq<char>) -> Seq<char> {
    "DROP SILENT GRAPH <"@ + prod + "> ;\nCOPY <"@ + staging + "> TO <"@ + prod
        + "> ;\nDROP SILENT GRAPH <"@ + staging + ">"@
}

pub fn atomic_swap_update(prod: &str, staging: &str) -> (r: String)
    ensures
        r@ == swap_update(prod@, staging@),
{
    let mut q: String = "DROP SILENT GRAPH <".to_owned();
    q.append(prod);
    q.append("> ;\nCOPY <");
    q.append(staging);
    q.append("> TO <");
    q.append(prod);
    q.append("> ;\nDROP SILENT GRAPH <");
    q.append(staging);
    q.append(">");
    q
}

} // verus!
