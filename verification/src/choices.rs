//! What readers and choosers decide, over all that they may be given.

use crate::cache::{next_lookup, CacheLookup};
use crate::cached_fetch::{
    after_failure, after_response, failed, CachedFetcher, Effect, Entry, Fault, Phase, Response,
};
use crate::cargo_collect::{
    backoff, dep_kind, next_delay, version_at, CrateRelease, MAX_DELAY_MS, Reply,
};
use crate::chocolatey::{blank_choco, odata_step, property_set, ODataState};
use crate::collect_bodhi::{
    advisory_of, cves_of, field_set, graph_release_of, nvr_from, nvr_of, CVE, RssItem,
};
use crate::collect_glsa::{linked_cves, tag_read, text_read, with_unlisted, Affected, GlsaState};
use crate::collect_salsa::{line_upstream, watch_upstream};
use crate::collect_spec::{at_origin, last_segment, with_requirements, SpecCollector};
use crate::cran::{blank_cran, flushed, is_continuation, line_read, CranState};
use crate::debian::{
    is_repeat, learned, operator_sign, record_emitted, records_emitted, release_state, size_fits,
    source_in, source_of, DebRun, DebianCollector, KnownSources, ScopeText,
};
use crate::derive_comparison::{graph_fault, pair_in, PairText};
use crate::failure::Failure;
use crate::ntriples::{pkg, Sheet};
use crate::pattern::{group, group_text, regex_finds};
use crate::reading::{group_writes, said, to_iri, Term};
use crate::records_read::lemma_cut_at;
use crate::spec_file::{is_comparison, names_requirement, requirement_words};
use crate::split::{first_word_or_all, joined, pieces, trim, trim_end_char, words, Sep};
use crate::text::{is_digit, lemma_found, occurs_at};
use crate::textmap::{field, values_at};
use crate::uris::{identity_iri, source_iri};
use crate::xml::{first_attribute, last_attribute, Node};
use vstd::arithmetic::power2::pow2;
use vstd::prelude::*;

verus! {

// ---------------------------------------------------------------------------
// Builds

/// What is cut at a character and joined with it again is what it was.
pub proof fn lemma_pieces_join(s: Seq<char>, c: char)
    ensures
        joined(pieces(s, Sep::Is(c)), seq![c]) == s,
        pieces(s, Sep::Is(c)).len() > 0,
    decreases s.len(),
{
    let sep = Sep::Is(c);
    if s.len() > 0 {
        let t = s.drop_last();
        lemma_pieces_join(t, c);
        let done = pieces(t, sep);
        assert(t.push(s.last()) =~= s);
        if s.last() == c {
            let all = done.push(Seq::empty());
            assert(all.drop_last() =~= done);
            assert(joined(all, seq![c]) =~= s);
        } else {
            let all = done.drop_last().push(done.last().push(s.last()));
            assert(all.drop_last() =~= done.drop_last());
            if done.len() == 1 {
                assert(joined(all, seq![c]) =~= s);
            } else {
                assert(joined(all, seq![c]) =~= joined(done, seq![c]).push(s.last()));
            }
        }
    } else {
        assert(joined(pieces(s, sep), seq![c]) =~= s);
    }
}

proof fn lemma_joined_in_two(ps: Seq<Seq<char>>, sep: Seq<char>, i: int)
    requires
        0 < i < ps.len(),
    ensures
        joined(ps.take(i), sep) + sep + joined(ps.skip(i), sep) == joined(ps, sep),
    decreases ps.len(),
{
    let front = ps.take(i);
    let back = ps.skip(i);
    if back.len() == 1 {
        assert(ps.drop_last() =~= front);
        assert(back[0] == ps.last());
    } else {
        let rest = ps.drop_last();
        lemma_joined_in_two(rest, sep, i);
        assert(rest.take(i) =~= front);
        assert(rest.skip(i) =~= back.drop_last());
        assert(back.last() == ps.last());
        assert(joined(front, sep) + sep + joined(back, sep) =~= (joined(front, sep) + sep + joined(
            back.drop_last(),
            sep,
        )) + sep + ps.last());
    }
}

proof fn lemma_nvr_from(parts: Seq<Seq<char>>, i: int)
    requires
        0 <= i,
    ensures
        match nvr_from(parts, i) {
            Some(x) => exists|k: int|
                i <= k < parts.len() && #[trigger] parts[k].len() > 0 && is_digit(parts[k][0])
                    && x.0 == joined(parts.take(k), "-"@) && x.1 == joined(parts.skip(k), "-"@) && (
                forall|j: int|
                    i <= j < k ==> !((#[trigger] parts[j]).len() > 0 && is_digit(parts[j][0]))),
            None => forall|j: int|
                i <= j < parts.len() ==> !((#[trigger] parts[j]).len() > 0 && is_digit(
                    parts[j][0],
                )),
        },
    decreases parts.len() - i,
{
    if i < parts.len() {
        if parts[i].len() > 0 && is_digit(parts[i][0]) {
            assert(parts[i].len() > 0);
        } else {
            lemma_nvr_from(parts, i + 1);
        }
    }
}

/// The name and the version of a build make up the build, with a hyphen between them, and
/// the version starts with a digit.
pub proof fn lemma_build_is_split(nvr: Seq<char>)
    ensures
        match nvr_of(nvr) {
            Some(x) => x.0 + "-"@ + x.1 == nvr && x.1.len() > 0 && is_digit(x.1[0]),
            None => true,
        },
{
    reveal_strlit("-");
    assert("-"@ =~= seq!['-']);
    let parts = pieces(nvr, Sep::Is('-'));
    lemma_pieces_join(nvr, '-');
    if let Some(x) = nvr_of(nvr) {
        lemma_nvr_from(parts, 1);
        let k: int = choose|k: int|
            1 <= k < parts.len() && #[trigger] parts[k].len() > 0 && is_digit(parts[k][0]) && x.0
                == joined(parts.take(k), "-"@) && x.1 == joined(parts.skip(k), "-"@) && (forall|
                j: int,
            |
                1 <= j < k ==> !((#[trigger] parts[j]).len() > 0 && is_digit(parts[j][0])));
        lemma_joined_in_two(parts, "-"@, k);
        lemma_joined_starts(parts.skip(k), "-"@);
        assert(parts.skip(k)[0] == parts[k]);
    }
}

proof fn lemma_joined_starts(ps: Seq<Seq<char>>, sep: Seq<char>)
    requires
        ps.len() > 0,
        ps[0].len() > 0,
    ensures
        joined(ps, sep).len() > 0,
        joined(ps, sep)[0] == ps[0][0],
    decreases ps.len(),
{
    if ps.len() > 1 {
        lemma_joined_starts(ps.drop_last(), sep);
    }
}

// ---------------------------------------------------------------------------
// Requirements of spec files

/// A word of a requirement names a package where it can be a name and no comparison
/// stands before it; no other word does.
pub proof fn lemma_required_words(words: Seq<Seq<char>>, x: Seq<char>)
    ensures
        requirement_words(words).contains(x) <==> exists|i: int|
            0 <= i < words.len() && #[trigger] words[i] == x && names_requirement(x) && !(i > 0
                && is_comparison(words[i - 1])),
    decreases words.len(),
{
    if words.len() > 0 {
        let rest = words.drop_last();
        let last = words.len() - 1;
        lemma_required_words(rest, x);
        let done = requirement_words(rest);
        let all = requirement_words(words);
        if done.contains(x) {
            let j: int = done.index_of(x);
            assert(all[j] == x);
            let i: int = choose|i: int|
                0 <= i < rest.len() && #[trigger] rest[i] == x && names_requirement(x) && !(i > 0
                    && is_comparison(rest[i - 1]));
            assert(words[i] == x);
            assert(i > 0 ==> words[i - 1] == rest[i - 1]);
        }
        if all.contains(x) {
            let j: int = all.index_of(x);
            if j < done.len() {
                assert(done[j] == x);
            } else {
                assert(words[last] == x);
            }
        }
        if exists|i: int|
            0 <= i < words.len() && #[trigger] words[i] == x && names_requirement(x) && !(i > 0
                && is_comparison(words[i - 1])) {
            let i: int = choose|i: int|
                0 <= i < words.len() && #[trigger] words[i] == x && names_requirement(x) && !(i
                    > 0 && is_comparison(words[i - 1]));
            if i < last {
                assert(rest[i] == x);
                assert(i > 0 ==> words[i - 1] == rest[i - 1]);
            } else {
                assert(all[done.len() as int] == x);
            }
        }
    }
}

/// A source depends on every package that it requires to be built, and on no other; one
/// that it names twice is said once.
pub proof fn lemma_requirements_told(
    w: Sheet,
    c: SpecCollector,
    src: Seq<char>,
    names: Seq<Seq<char>>,
    n: nat,
    x: Seq<char>,
)
    requires
        n <= names.len(),
    ensures
        ({
            let first = said(w.log, pkg("buildDependsOn"@));
            let last = said(with_requirements(w, c, src, names, n).log, pkg("buildDependsOn"@));
            let row = to_iri(src, identity_iri(c.distro@, c.release@, "noarch"@, x));
            &&& names.take(n as int).contains(x) ==> last.contains(row)
            &&& forall|r: (Term, Term)| #[trigger]
                last.contains(r) ==> first.contains(r) || exists|i: int|
                    0 <= i < n && r == to_iri(
                        src,
                        identity_iri(c.distro@, c.release@, "noarch"@, #[trigger] names[i]),
                    )
            &&& first.len() <= last.len() <= first.len() + n
        }),
    decreases n,
{
    broadcast use group_writes;

    if n > 0 {
        let m: nat = (n - 1) as nat;
        lemma_requirements_told(w, c, src, names, m, x);
        lemma_requirements_told(w, c, src, names, m, names[m as int]);
        let v = with_requirements(w, c, src, names, m);
        let u = with_requirements(w, c, src, names, n);
        let first = said(w.log, pkg("buildDependsOn"@));
        let mid = said(v.log, pkg("buildDependsOn"@));
        let last = said(u.log, pkg("buildDependsOn"@));
        let row = to_iri(src, identity_iri(c.distro@, c.release@, "noarch"@, x));
        let name = names[m as int];
        let added = to_iri(src, identity_iri(c.distro@, c.release@, "noarch"@, name));
        assert(names.take(n as int) =~= names.take(m as int).push(name));
        assert(names.take(n - 1) == names.take(m as int));
        if names.take(m as int).contains(name) {
            assert(u == v);
            if names.take(n as int).contains(x) {
                let j: int = names.take(n as int).index_of(x);
                if j < m {
                    assert(names.take(m as int)[j] == x);
                }
            }
        } else {
            assert(last == mid + seq![added]);
            assert(last[mid.len() as int] == added);
            if names.take(n as int).contains(x) {
                let j: int = names.take(n as int).index_of(x);
                if j < m {
                    assert(names.take(m as int)[j] == x);
                    let k: int = mid.index_of(row);
                    assert(last[k] == row);
                }
            }
            assert forall|r: (Term, Term)| #[trigger] last.contains(r) implies first.contains(r)
                || exists|i: int|
                0 <= i < n && r == to_iri(
                    src,
                    identity_iri(c.distro@, c.release@, "noarch"@, #[trigger] names[i]),
                ) by {
                let k: int = last.index_of(r);
                if k < mid.len() {
                    assert(mid[k] == r);
                    assert(mid.contains(r));
                } else {
                    assert(r == added);
                    assert(names[m as int] == name);
                }
            }
        }
    }
}

/// Another origin takes the place of scheme and host, and the path stays.
pub proof fn lemma_path_is_kept(
    scheme: Seq<char>,
    host: Seq<char>,
    path: Seq<char>,
    base: Seq<char>,
)
    requires
        !scheme.contains(':'),
        !host.contains('/'),
        trim_end_char(base, '/') == base,
    ensures
        at_origin(scheme + "://"@ + (host + "/"@ + path), base) == base + ("/"@ + path),
{
    reveal_strlit("://");
    reveal_strlit("/");
    let rest = host + "/"@ + path;
    let url = scheme + "://"@ + rest;
    assert(url.subrange(scheme.len() as int, scheme.len() as int + 3) =~= "://"@);
    assert forall|j: int| 0 <= j < scheme.len() implies !occurs_at(url, "://"@, j) by {
        if occurs_at(url, "://"@, j) {
            assert(url.subrange(j, j + 3)[0] == ':');
            assert(url[j] == scheme[j]);
        }
    }
    lemma_found(url, "://"@, scheme.len());
    assert(url.skip(scheme.len() as int + 3) =~= rest);
    assert(rest.subrange(host.len() as int, host.len() as int + 1) =~= "/"@);
    assert forall|j: int| 0 <= j < host.len() implies !occurs_at(rest, "/"@, j) by {
        if occurs_at(rest, "/"@, j) {
            assert(rest.subrange(j, j + 1)[0] == '/');
            assert(rest[j] == host[j]);
        }
    }
    lemma_found(rest, "/"@, host.len());
    assert(rest.skip(host.len() as int) =~= "/"@ + path);
}

// ---------------------------------------------------------------------------
// Watch files

/// The first line of a watch file that says where releases are counts.
pub proof fn lemma_first_watch_line_counts(lines: Seq<Seq<char>>, from: int, i: int)
    requires
        0 <= from <= i < lines.len(),
        line_upstream(lines[i]) is Some,
        forall|j: int| from <= j < i ==> line_upstream(#[trigger] lines[j]) is None,
    ensures
        watch_upstream(lines, from) == line_upstream(lines[i]),
    decreases i - from,
{
    if from < i {
        assert(line_upstream(lines[from]) is None);
        lemma_first_watch_line_counts(lines, from + 1, i);
    }
}

/// A watch file of which no line says so says nothing.
pub proof fn lemma_silent_watch_file(lines: Seq<Seq<char>>, from: int)
    requires
        0 <= from,
        forall|j: int| from <= j < lines.len() ==> line_upstream(#[trigger] lines[j]) is None,
    ensures
        watch_upstream(lines, from) is None,
    decreases lines.len() - from,
{
    if from < lines.len() {
        assert(line_upstream(lines[from]) is None);
        lemma_silent_watch_file(lines, from + 1);
    }
}

// ---------------------------------------------------------------------------
// Caches

/// The file of a key is tried before the object store. What the store has is written to
/// the file, what the file has is not written again; and nothing is found that neither
/// has.
pub proof fn lemma_file_before_store(remote: bool, in_file: bool, in_store: bool)
    ensures
        ({
            let first = next_lookup(remote, CacheLookup::AwaitLocal, in_file);
            let second = next_lookup(remote, first, in_store);
            &&& in_file ==> first == (CacheLookup::Found { store: false }) && second == first
            &&& !in_file && remote && in_store ==> second == (CacheLookup::Found { store: true })
            &&& !in_file && !(remote && in_store) ==> second is Missing
        }),
{
}

// ---------------------------------------------------------------------------
// Responses

/// What a response comes to. A body that is there is checked; one that is not is
/// remembered as missing, for as long as such answers count, and the request fails; any
/// other status fails and leaves what is remembered alone.
pub proof fn lemma_response_statuses(
    c: CachedFetcher,
    url: Seq<char>,
    response: Response,
    stale: Option<Entry>,
    was_conditional: bool,
)
    requires
        response.status != 304,
    ensures
        ({
            let (effect, phase) = after_response(c, url, response, stale, was_conditional);
            &&& response.status == 200 ==> effect is Keep && phase == (Phase::CheckReply {
                body: response.bytes,
                etag: response.etag,
            })
            &&& response.status == 404 ==> {
                &&& effect == (Effect::Put {
                    body: Seq::empty(),
                    etag: response.etag,
                    status: 404,
                    ttl: Some(c.negative_ttl),
                })
                &&& phase == failed(true, Fault::NotFound { url })
            }
            &&& response.status != 200 && response.status != 404 ==> effect is Keep && phase
                == failed(true, Fault::HttpStatus { url, status: response.status })
        }),
{
}

/// An old body stands in for a request only where no response came, and only a body that
/// was there.
pub proof fn lemma_old_bodies_stand_in(error: Fault, stale: Option<Entry>)
    ensures
        ({
            let (effect, phase) = after_failure(error, stale);
            &&& effect is Keep
            &&& phase is CheckFallback <==> error is Transport && stale is Some
                && stale->0.status_code == 200
            &&& phase is CheckFallback ==> phase == (Phase::CheckFallback {
                error,
                body: stale->0.body,
            })
            &&& !(phase is CheckFallback) ==> phase == failed(true, error)
        }),
{
}

// ---------------------------------------------------------------------------
// Gentoo advisories

/// A version that is affected is read as one, and a version that is not as one that is
/// not; neither changes the other list, nor what is known of the advisory.
pub proof fn lemma_versions_are_read(
    s: GlsaState,
    attrs: Seq<(Seq<char>, Seq<char>)>,
    op: Seq<char>,
    version: Seq<char>,
)
    requires
        first_attribute(attrs, "range"@, 0) == Some(op),
    ensures
        ({
            let bad = text_read(s, "vulnerable"@, attrs, Some(version));
            let good = text_read(s, "unaffected"@, attrs, Some(version));
            &&& bad is Some && good is Some
            &&& bad->0.vulnerable == s.vulnerable.push((op, version))
            &&& bad->0.unaffected == s.unaffected
            &&& good->0.unaffected == s.unaffected.push((op, version))
            &&& good->0.vulnerable == s.vulnerable
            &&& bad->0.atom == s.atom && good->0.atom == s.atom
            &&& bad->0.packages == s.packages && good->0.packages == s.packages
            &&& bad->0.cves == s.cves && good->0.cves == s.cves
        }),
{
    reveal_strlit("announced");
    reveal_strlit("vulnerable");
    reveal_strlit("unaffected");
    assert("announced"@.len() == 9 && "vulnerable"@.len() == 10 && "unaffected"@.len() == 10);
    assert("vulnerable"@[0] == 'v' && "unaffected"@[0] == 'u');
}

/// The date, the identifier and the severity of an advisory are read where they stand.
pub proof fn lemma_head_is_read(
    s: GlsaState,
    attrs: Seq<(Seq<char>, Seq<char>)>,
    id: Seq<char>,
    kind: Seq<char>,
    date: Seq<char>,
)
    requires
        last_attribute(attrs, "id"@) == Some(id),
        last_attribute(attrs, "type"@) == Some(kind),
    ensures
        tag_read(s, "glsa"@, attrs).id == Some("GLSA-"@ + id),
        tag_read(s, "glsa"@, attrs).severity == s.severity,
        tag_read(s, "impact"@, attrs).severity == Some(kind),
        tag_read(s, "impact"@, attrs).id == s.id,
        text_read(s, "announced"@, attrs, Some(date)) == Some(
            (GlsaState { date: Some(date), ..s }),
        ),
{
    reveal_strlit("glsa");
    reveal_strlit("impact");
    reveal_strlit("package");
    assert("glsa"@.len() == 4 && "impact"@.len() == 6);
}

/// A package is saved with what was read of it, when the next one begins; and the next
/// one begins without any version.
pub proof fn lemma_packages_are_saved(
    s: GlsaState,
    attrs: Seq<(Seq<char>, Seq<char>)>,
    atom: Seq<char>,
)
    requires
        s.atom == Some(atom),
    ensures
        ({
            let t = tag_read(s, "package"@, attrs);
            &&& t.packages == s.packages.push(
                Affected {
                    atom,
                    vulnerable_ranges: s.vulnerable,
                    unaffected_ranges: s.unaffected,
                },
            )
            &&& t.atom == last_attribute(attrs, "name"@)
            &&& t.vulnerable.len() == 0 && t.unaffected.len() == 0
            &&& t.id == s.id && t.date == s.date && t.severity == s.severity && t.cves == s.cves
        }),
{
    reveal_strlit("glsa");
    reveal_strlit("impact");
    reveal_strlit("package");
    assert("glsa"@.len() == 4 && "impact"@.len() == 6 && "package"@.len() == 7);
}

/// The identifiers of a reference are all known afterwards, those in its text and those in
/// its link, and so are those that were known before.
pub proof fn lemma_references_are_read(
    s: GlsaState,
    attrs: Seq<(Seq<char>, Seq<char>)>,
    text: Seq<char>,
    x: Seq<char>,
)
    ensures
        ({
            let t = text_read(s, "uri"@, attrs, Some(text));
            &&& t is Some
            &&& t->0.cves.contains(x) <==> s.cves.contains(x) || regex_finds(CVE@, text).contains(x)
                || linked_cves(attrs).contains(x)
            &&& t->0.packages == s.packages
        }),
{
    reveal_strlit("announced");
    reveal_strlit("vulnerable");
    reveal_strlit("unaffected");
    reveal_strlit("uri");
    assert("announced"@.len() == 9 && "vulnerable"@.len() == 10 && "unaffected"@.len() == 10);
    assert("uri"@.len() == 3);
    let found = regex_finds(CVE@, text);
    let linked = linked_cves(attrs);
    lemma_unlisted(s.cves + found, linked, linked.len(), x);
    let both = s.cves + found;
    if s.cves.contains(x) {
        let j: int = s.cves.index_of(x);
        assert(both[j] == x);
    }
    if found.contains(x) {
        let j: int = found.index_of(x);
        assert(both[s.cves.len() + j] == x);
    }
    if both.contains(x) {
        let j: int = both.index_of(x);
        if j < s.cves.len() {
            assert(s.cves[j] == x);
        } else {
            assert(found[j - s.cves.len()] == x);
        }
    }
    assert(linked.take(linked.len() as int) =~= linked);
}

proof fn lemma_unlisted(ids: Seq<Seq<char>>, others: Seq<Seq<char>>, n: nat, x: Seq<char>)
    requires
        n <= others.len(),
    ensures
        with_unlisted(ids, others, n).contains(x) <==> ids.contains(x) || others.take(
            n as int,
        ).contains(x),
    decreases n,
{
    if n > 0 {
        let m: nat = (n - 1) as nat;
        lemma_unlisted(ids, others, m, x);
        let done = with_unlisted(ids, others, m);
        let all = with_unlisted(ids, others, n);
        let y = others[n - 1];
        assert(others.take(n as int) =~= others.take(m as int).push(y));
        let front = others.take(m as int);
        let whole = others.take(n as int);
        assert(whole[m as int] == y);
        if front.contains(x) {
            let j: int = front.index_of(x);
            assert(whole[j] == x);
        }
        if whole.contains(x) {
            let j: int = whole.index_of(x);
            if j < m {
                assert(front[j] == x);
            }
        }
        if !done.contains(y) {
            assert(all == done.push(y));
            assert(all[done.len() as int] == y);
            if done.contains(x) {
                let j: int = done.index_of(x);
                assert(all[j] == x);
            }
            if all.contains(x) {
                let j: int = all.index_of(x);
                if j < done.len() {
                    assert(done[j] == x);
                }
            }
        }
    } else {
        assert(others.take(0) =~= Seq::empty());
    }
}

// ---------------------------------------------------------------------------
// Debian records

/// The signs of constraints: what is strictly before or after has one sign, what may be
/// equal has another, and any other operator stays as it is.
pub proof fn lemma_operator_signs(op: Seq<char>)
    ensures
        operator_sign("<<"@) == "<"@,
        operator_sign(">>"@) == ">"@,
        operator_sign("<="@) == "≤"@,
        operator_sign(">="@) == "≥"@,
        op != "<<"@ && op != ">>"@ && op != "<="@ && op != ">="@ ==> operator_sign(op) == op,
{
    reveal_strlit("<<");
    reveal_strlit(">>");
    reveal_strlit("<=");
    reveal_strlit(">=");
    reveal_strlit("=");
    assert("<<"@[0] == '<' && "<<"@[1] == '<');
    assert(">>"@[0] == '>' && ">>"@[1] == '>');
    assert("<="@[0] == '<' && "<="@[1] == '=');
    assert(">="@[0] == '>' && ">="@[1] == '=');
    assert("="@.len() == 1);
}

/// A line of a release file sets what it names and nothing else; the last one counts.
pub proof fn lemma_release_lines(lines: Seq<Seq<char>>, n: nat, value: Seq<char>)
    requires
        n < lines.len(),
    ensures
        ({
            let s = release_state(lines, n);
            let t = release_state(lines, n + 1);
            &&& lines[n as int] == "Codename:"@ + value ==> t == (Some(trim(value)), s.1, s.2)
            &&& lines[n as int] == "Suite:"@ + value ==> t == (s.0, Some(trim(value)), s.2)
            &&& lines[n as int] == "Origin:"@ + value ==> t == (s.0, s.1, Some(trim(value)))
        }),
{
    reveal_strlit("Codename:");
    reveal_strlit("Suite:");
    reveal_strlit("Origin:");
    assert((n + 1 - 1) as nat == n);
    let line = lines[n as int];
    if line == "Codename:"@ + value {
        assert(line.take(9) =~= "Codename:"@);
        assert(line.skip(9) =~= value);
    }
    if line == "Suite:"@ + value {
        assert(line[0] == 'S');
        assert(line.len() >= 9 ==> line.take(9)[0] == 'S');
        assert("Codename:"@[0] == 'C');
        assert(line.take(6) =~= "Suite:"@);
        assert(line.skip(6) =~= value);
    }
    if line == "Origin:"@ + value {
        assert(line[0] == 'O');
        assert(line.len() >= 9 ==> line.take(9)[0] == 'O');
        assert(line.take(6)[0] == 'O');
        assert("Codename:"@[0] == 'C');
        assert("Suite:"@[0] == 'S');
        assert(line.take(7) =~= "Origin:"@);
        assert(line.skip(7) =~= value);
    }
}

/// A run stops at its limit: it never emits more packages, and it stops early only there or
/// at a fault.
pub proof fn lemma_limit_is_kept(
    r: DebRun,
    c: DebianCollector,
    records: Seq<Map<Seq<char>, Seq<char>>>,
    i: int,
    scope: ScopeText,
    secondary: bool,
    limit: usize,
)
    requires
        r.count < limit,
    ensures
        ({
            let (s, ending) = records_emitted(r, c, records, i, scope, secondary, Some(limit));
            &&& r.count <= s.count <= limit
            &&& ending is Limited <==> s.count == limit
        }),
    decreases records.len() - i,
{
    if 0 <= i < records.len() {
        if is_repeat(r, records[i], secondary) {
            lemma_limit_is_kept(r, c, records, i + 1, scope, secondary, limit);
        } else if size_fits(records[i]) {
            let next = record_emitted(r, c, records[i], scope);
            if next.count < limit {
                lemma_limit_is_kept(next, c, records, i + 1, scope, secondary, limit);
            }
        }
    }
}

/// What a record teaches of its source: that there is such a source, one more package that
/// is built from it, where it stands, and its packaging where the record names it; of the
/// other sources it teaches nothing.
pub proof fn lemma_records_teach(
    t: KnownSources,
    c: DebianCollector,
    fields: Map<Seq<char>, Seq<char>>,
    scope: ScopeText,
    other: Seq<char>,
)
    ensures
        ({
            let name = fields["Package"@];
            let source = source_of(fields, name, fields["Version"@]);
            let identity = identity_iri(c.distro_name@, scope.codename, scope.arch, name);
            let now = learned(t, c, fields, scope);
            &&& now.names.contains(source.name)
            &&& values_at(now.identities, source.name) == values_at(
                t.identities,
                source.name,
            ).push(identity)
            &&& field(now.uris, source.name) == Some(
                source_iri(c.distro_name@, scope.codename, source.name, source.version),
            )
            &&& match field(fields, "Vcs-Git"@) {
                Some(vcs) => field(now.vcs_urls, source.name) == Some(first_word_or_all(vcs)),
                None => now.vcs_urls == t.vcs_urls,
            }
            &&& other != source.name ==> {
                &&& values_at(now.identities, other) == values_at(t.identities, other)
                &&& field(now.vcs_urls, other) == field(t.vcs_urls, other)
                &&& field(now.uris, other) == field(t.uris, other)
            }
        }),
{
    let name = fields["Package"@];
    let source = source_of(fields, name, fields["Version"@]);
    if !t.names.contains(source.name) {
        let now = t.names.push(source.name);
        assert(now[t.names.len() as int] == source.name);
    }
}

/// A package without a source of its own name is its own source, and a source without a
/// version has that of the package.
pub proof fn lemma_own_sources(
    fields: Map<Seq<char>, Seq<char>>,
    name: Seq<char>,
    version: Seq<char>,
    text: Seq<char>,
    groups: Seq<Option<Seq<char>>>,
)
    ensures
        !fields.contains_key("Source"@) ==> source_of(fields, name, version).name == name
            && source_of(fields, name, version).version == version,
        group(groups, 2) is None ==> source_in(Some(groups), text, version).version == version,
        group(groups, 2) is Some ==> source_in(Some(groups), text, version).version == group(
            groups,
            2,
        )->0,
        source_in(Some(groups), text, version).name == group_text(groups, 1),
        source_in(None, text, version).name == text,
{
}

// ---------------------------------------------------------------------------
// Crates

/// Each wait is twice as long as the one before.
pub proof fn lemma_waits_double(attempt: u32)
    requires
        attempt < 30,
    ensures
        backoff(0) == 1,
        backoff((attempt + 1) as u32) == 2 * backoff(attempt),
        backoff(attempt) <= 0x4000_0000,
    decreases attempt,
{
    lemma_wait_bound(attempt);
    assert((attempt + 1 - 1) as u32 == attempt);
}

proof fn lemma_wait_bound(attempt: u32)
    requires
        attempt <= 30,
    ensures
        1 <= backoff(attempt) <= pow2(attempt as nat),
        pow2(attempt as nat) <= 0x4000_0000,
    decreases attempt,
{
    vstd::arithmetic::power2::lemma2_to64();
    if attempt > 0 {
        lemma_wait_bound((attempt - 1) as u32);
        vstd::arithmetic::power2::lemma_pow2_unfold(attempt as nat);
        vstd::arithmetic::power2::lemma_pow2_strictly_increases((attempt - 1) as nat, 30);
        if attempt < 30 {
            vstd::arithmetic::power2::lemma_pow2_strictly_increases(attempt as nat, 30);
        }
    }
}

/// A server that limits requests makes the pace slower, up to a bound; nothing else
/// changes it.
pub proof fn lemma_pace(delay_ms: u64, reply: Reply)
    requires
        delay_ms <= MAX_DELAY_MS,
    ensures
        next_delay(delay_ms, reply) <= MAX_DELAY_MS,
        next_delay(delay_ms, reply) >= delay_ms,
        !(reply is Limited) ==> next_delay(delay_ms, reply) == delay_ms,
        reply is Limited && delay_ms * 2 <= MAX_DELAY_MS ==> next_delay(delay_ms, reply) == delay_ms
            * 2,
{
}

/// The first version of a number is the one that is listed.
pub proof fn lemma_first_version_counts(
    versions: Seq<CrateRelease>,
    num: Seq<char>,
    from: int,
    i: int,
)
    requires
        0 <= from <= i < versions.len(),
        versions[i].num == num,
        forall|j: int| from <= j < i ==> (#[trigger] versions[j]).num != num,
    ensures
        version_at(versions, num, from) == Some(versions[i]),
    decreases i - from,
{
    if from < i {
        assert(versions[from].num != num);
        lemma_first_version_counts(versions, num, from + 1, i);
    }
}

/// The kinds of dependencies: for development, to be built, and any other.
pub proof fn lemma_dependency_kinds(kind: Seq<char>)
    ensures
        dep_kind("dev"@) == "dev_depends"@,
        dep_kind("build"@) == "build_depends"@,
        kind != "dev"@ && kind != "build"@ ==> dep_kind(kind) == "depends"@,
{
    reveal_strlit("dev");
    reveal_strlit("build");
    assert("dev"@.len() == 3 && "build"@.len() == 5);
}

// ---------------------------------------------------------------------------
// Releases

/// The letter of a release is left out, whichever case it is in.
pub proof fn lemma_release_letters(x: Seq<char>)
    ensures
        graph_release_of("F"@ + x) == x,
        graph_release_of("f"@ + x) == x,
        x.len() > 0 && x[0] != 'F' && x[0] != 'f' ==> graph_release_of(x) == x,
{
    reveal_strlit("F");
    reveal_strlit("f");
    let a = "F"@ + x;
    let b = "f"@ + x;
    assert(a.take(1) =~= "F"@);
    assert(a.skip(1) =~= x);
    assert(b.take(1) =~= "f"@);
    assert(b.skip(1) =~= x);
    assert(b.take(1)[0] == 'f');
    if x.len() > 0 {
        assert(x.take(1)[0] == x[0]);
    }
}

// ---------------------------------------------------------------------------
// Feeds

/// An element of a package in a feed, as its opening, its text and its closing, sets the
/// property of its name; the others stay as they are.
pub proof fn lemma_elements_are_read(
    s: ODataState,
    name: Seq<char>,
    attributes: Seq<(Seq<char>, Seq<char>)>,
    text: Seq<char>,
)
    requires
        s.in_properties,
        name != "entry"@ && name != "m:properties"@,
        trim(text).len() > 0,
    ensures
        ({
            let opened = odata_step(s, Node::Open { name, attributes, closed: false });
            let read = odata_step(opened, Node::Text(Some(text)));
            let t = odata_step(read, Node::Close(name));
            &&& t.current == property_set(s.current, name, trim(text))
            &&& t.done == s.done
            &&& t.in_properties
        }),
{
}

/// Text that stands outside the properties of a package sets nothing.
pub proof fn lemma_other_text_is_passed_over(s: ODataState, text: Option<Seq<char>>)
    requires
        !s.in_properties,
    ensures
        odata_step(s, Node::Text(text)) == s,
{
}

/// A package counts when its entry closes, where it has a name; the next entry begins
/// with nothing known.
pub proof fn lemma_entries_are_counted(s: ODataState, attributes: Seq<(Seq<char>, Seq<char>)>)
    ensures
        ({
            let t = odata_step(s, Node::Close("entry"@));
            let u = odata_step(s, Node::Open { name: "entry"@, attributes, closed: false });
            &&& t.done == if s.current.id.len() > 0 {
                s.done.push(s.current)
            } else {
                s.done
            }
            &&& t.current == blank_choco()
            &&& u.current == blank_choco() && u.done == s.done
        }),
{
}

/// The fields of an item of a feed go where their names say.
pub proof fn lemma_item_fields(item: RssItem, v: Seq<char>)
    ensures
        field_set(item, "link"@, v) == (RssItem { id: Some(last_segment(v)), ..item }),
        field_set(item, "title"@, v) == (RssItem { title: Some(v), ..item }),
        field_set(item, "description"@, v) == (RssItem { description: Some(v), ..item }),
        field_set(item, "pubDate"@, v) == (RssItem { pub_date: Some(v), ..item }),
{
    reveal_strlit("link");
    reveal_strlit("title");
    reveal_strlit("description");
    reveal_strlit("pubDate");
    assert("link"@.len() == 4 && "title"@.len() == 5);
    assert("description"@.len() == 11 && "pubDate"@.len() == 7);
}

/// An item is an advisory where it has a title, a link and a date; the title names the
/// builds, the description the vulnerabilities.
pub proof fn lemma_items_are_advisories(item: RssItem)
    ensures
        ({
            let a = advisory_of(item, cves_of(item.description));
            &&& a is Some <==> item.title is Some && item.id is Some && item.pub_date is Some
            &&& a is Some ==> {
                &&& a->0.id == item.id->0
                &&& a->0.date == item.pub_date->0
                &&& a->0.nvrs == words(item.title->0, Sep::Blank)
                &&& item.description is Some ==> a->0.cves == regex_finds(
                    CVE@,
                    item.description->0,
                )
                &&& item.description is None ==> a->0.cves.len() == 0
            }
        }),
{
}

// ---------------------------------------------------------------------------
// Pairs of graphs

/// A pair is read as it is written: the rebuild first, then what it rebuilds.
pub proof fn lemma_pairs_are_read(rebuild: Seq<char>, rhel: Seq<char>)
    requires
        !rebuild.contains('='),
        graph_fault(rebuild) is None,
        graph_fault(rhel) is None,
    ensures
        pair_in(rebuild + "="@ + rhel) == Ok::<PairText, Failure>(
            PairText { rebuild_graph: rebuild, rhel_graph: rhel },
        ),
{
    reveal_strlit("=");
    lemma_cut_at(rebuild, "="@, rhel);
}

// ---------------------------------------------------------------------------
// CRAN indexes

/// A field is read with its name and value trimmed and set when the next one begins; a line
/// that goes on adds to its value; an empty line ends a package that has a name.
pub proof fn lemma_package_lines_are_read(
    s: CranState,
    key: Seq<char>,
    value: Seq<char>,
    more: Seq<char>,
    next: Seq<char>,
    other: Seq<char>,
)
    requires
        !key.contains(':') && !next.contains(':'),
        !is_continuation(key + ":"@ + value) && !is_continuation(next + ":"@ + other),
        is_continuation(more),
        trim(key).len() > 0,
    ensures
        ({
            let a = line_read(s, key + ":"@ + value);
            let b = line_read(a, more);
            let c = line_read(b, next + ":"@ + other);
            &&& a.current == flushed(s)
            &&& line_read(a, next + ":"@ + other).current == crate::cran::field_set(
                flushed(s),
                trim(key),
                trim(value),
            )
            &&& c.current
                == crate::cran::field_set(flushed(s), trim(key), trim(value) + " "@ + trim(more))
            &&& c.done == s.done
        }),
{
    reveal_strlit(":");
    reveal_strlit(" ");
    reveal_strlit("\t");
    lemma_cut_at(key, ":"@, value);
    lemma_cut_at(next, ":"@, other);
    assert((key + ":"@ + value).len() > 0);
    assert((next + ":"@ + other).len() > 0);
    assert(more.len() > 0);
}

/// An empty line ends the package that was read, where it has a name.
pub proof fn lemma_packages_are_ended(s: CranState)
    ensures
        ({
            let t = line_read(s, Seq::empty());
            &&& s.current.package.len() > 0 ==> t.done == s.done.push(flushed(s)) && t.current
                == blank_cran() && t.field.len() == 0
            &&& s.current.package.len() == 0 ==> t == s
        }),
{
}

} // verus!
