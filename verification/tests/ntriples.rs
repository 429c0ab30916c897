use pg_collect::ntriples::{bnode_id, NTriplesWriter};

#[test]
fn statements_become_lines() {
    let mut w = NTriplesWriter::new();
    w.write_triple("urn:s", "urn:p", "urn:o");
    w.write_literal("urn:s", "urn:p", "a \"quoted\" line\nand \\ more\r\t");
    w.write_integer("urn:s", "urn:p", -7);
    w.write_boolean("urn:s", "urn:p", true);
    w.write_date("urn:s", "urn:p", "2024-01-02");
    w.write_bnode_object("urn:s", "urn:p", "b1");
    w.write_bnode_literal("b1", "urn:p", "v");
    let lines = w.lines();
    assert_eq!(lines[0], "<urn:s> <urn:p> <urn:o> .");
    assert_eq!(
        lines[1],
        "<urn:s> <urn:p> \"a \\\"quoted\\\" line\\nand \\\\ more\\r\\t\" ."
    );
    assert_eq!(
        lines[2],
        "<urn:s> <urn:p> \"-7\"^^<http://www.w3.org/2001/XMLSchema#integer> ."
    );
    assert_eq!(
        lines[3],
        "<urn:s> <urn:p> \"true\"^^<http://www.w3.org/2001/XMLSchema#boolean> ."
    );
    assert_eq!(
        lines[4],
        "<urn:s> <urn:p> \"2024-01-02\"^^<http://www.w3.org/2001/XMLSchema#date> ."
    );
    assert_eq!(lines[5], "<urn:s> <urn:p> _:b1 .");
    assert_eq!(lines[6], "_:b1 <urn:p> \"v\" .");
    assert_eq!(w.into_string(), lines.iter().map(|l| format!("{l}\n")).collect::<String>());
}

#[test]
fn a_graph_stands_behind_every_statement() {
    let mut w = NTriplesWriter::new_maybe_graph(Some("urn:g".to_string()));
    w.write_triple("urn:s", "urn:p", "urn:o");
    assert_eq!(w.into_string(), "<urn:s> <urn:p> <urn:o> <urn:g> .\n");
}

#[test]
fn a_broken_iri_is_skipped_and_counted() {
    let mut w = NTriplesWriter::new();
    w.write_triple("urn:s", "urn:p", "urn:with space");
    w.write_triple("urn:s", "urn:p", "urn:o");
    assert_eq!(w.lines().len(), 1);
    assert_eq!(w.skipped_invalid_iri(), 1);
    assert_eq!(w.len(), 2);
}

#[test]
fn an_inverse_is_written_along() {
    let mut w = NTriplesWriter::new();
    let pkg = "https://purl.org/packagegraph/ontology/core#";
    w.write_triple("urn:r", &format!("{pkg}partOfDistribution"), "urn:d");
    assert_eq!(w.auto_inverses(), w.lines().len() - 1);
    assert_eq!(w.len() + w.auto_inverses(), w.lines().len());
}

#[test]
fn what_is_written_once_is_not_written_again() {
    let mut w = NTriplesWriter::new();
    assert!(w.write_triple_once("urn:s", "urn:p", "urn:o"));
    assert!(!w.write_triple_once("urn:s", "urn:p", "urn:o"));
    assert!(w.write_literal_once("urn:s", "urn:p", "v"));
    assert!(!w.write_literal_once("urn:s", "urn:p", "v"));
    assert!(w.write_literal_once("urn:s", "urn:p", "w"));
    assert_eq!(w.len(), 3);
}

#[test]
fn a_replayed_fragment_gives_the_same_lines() {
    let pkg = "https://purl.org/packagegraph/ontology/core#";
    let mut first = NTriplesWriter::new();
    first.write_triple("urn:r", &format!("{pkg}partOfDistribution"), "urn:d");
    first.write_triple("urn:s", "urn:p", "bad iri");
    first.write_literal("urn:s", "urn:p", "x");
    let fragment = first.into_fragment();
    assert_eq!(fragment.logical_triples, 3);
    assert_eq!(fragment.skipped_invalid_iri, 1);
    let mut second = NTriplesWriter::new();
    second.replay(&fragment);
    assert_eq!(second.into_string(), first.into_string());
    assert_eq!(second.skipped_invalid_iri(), first.skipped_invalid_iri());
    assert_eq!(second.auto_inverses(), first.auto_inverses());
}

#[test]
fn a_blank_node_is_named_by_what_it_stands_for() {
    assert_eq!(bnode_id("dep", "a"), bnode_id("dep", "a"));
    assert_ne!(bnode_id("dep", "a"), bnode_id("dep", "b"));
    assert!(bnode_id("dep", "a").starts_with("dep"));
}
