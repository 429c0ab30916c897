//! What readers of records make of what the records say.

use crate::alpine::apk_state;
use crate::arch::{desc_state, is_header, optional_names, unversioned};
use crate::buildroot::{after_line, assigned, host_words, Described};
use crate::chocolatey::{property_set, Choco};
use crate::collect_bodhi::{iso_date, month_number};
use crate::collect_opkg_index::{is_need, needed_name, stanza_state};
use crate::cran::{dep_names, entry_name, field_set, is_continuation, names_in, Cran};
use crate::debian::{index_line, IndexState};
use crate::forge::{forge_software, forge_url, project_name};
use crate::number::i64_value;
use crate::split::{
    lemma_pieces_joined, lemma_pieces_nonempty, pieces, separates, trim, trim_start,
    trim_start_char, words, Sep,
};
use crate::text::{
    before, ends_with, lemma_found, lemma_not_found, occurs_at, split_once, starts_with,
};
use vstd::prelude::*;

verus! {

// ---------------------------------------------------------------------------
// Fields

/// A text is cut where the first character of a kind stands.
pub proof fn lemma_cut_at(key: Seq<char>, mark: Seq<char>, value: Seq<char>)
    requires
        mark.len() == 1,
        !key.contains(mark[0]),
    ensures
        split_once(key + mark + value, mark) == Some((key, value)),
        before(key + mark + value, mark) == key,
        before(key, mark) == key,
{
    let s = key + mark + value;
    assert(s.subrange(key.len() as int, key.len() as int + 1) =~= mark);
    assert forall|j: int| 0 <= j < key.len() implies !occurs_at(s, mark, j) by {
        if occurs_at(s, mark, j) {
            assert(s.subrange(j, j + 1)[0] == mark[0]);
            assert(s[j] == key[j]);
        }
    }
    lemma_found(s, mark, key.len());
    assert(s.take(key.len() as int) =~= key);
    assert(s.skip(key.len() as int + 1) =~= value);
    assert forall|j: int| !occurs_at(key, mark, j) by {
        if occurs_at(key, mark, j) {
            assert(key.subrange(j, j + 1)[0] == mark[0]);
            assert(key[j] == mark[0]);
        }
    }
    lemma_not_found(key, mark);
}

/// A record with the first `n` of some fields added.
pub open spec fn with_fields(
    m: Map<Seq<char>, Seq<char>>,
    fields: Seq<(Seq<char>, Seq<char>)>,
    n: nat,
) -> Map<Seq<char>, Seq<char>>
    decreases n,
{
    if n == 0 {
        m
    } else {
        with_fields(m, fields, (n - 1) as nat).insert(fields[n - 1].0, fields[n - 1].1)
    }
}

/// Each field has its own value, where no two have the same name.
pub proof fn lemma_fields_have_values(
    m: Map<Seq<char>, Seq<char>>,
    fields: Seq<(Seq<char>, Seq<char>)>,
    n: nat,
    i: int,
)
    requires
        0 <= i < n <= fields.len(),
        forall|j: int, k: int| 0 <= j < k < fields.len() ==> fields[j].0 != fields[k].0,
    ensures
        with_fields(m, fields, n).contains_key(fields[i].0),
        with_fields(m, fields, n)[fields[i].0] == fields[i].1,
    decreases n,
{
    if i < n - 1 {
        lemma_fields_have_values(m, fields, (n - 1) as nat, i);
    }
}

/// Whether the lines from `m` on are fields, as a name, a colon and a value.
pub open spec fn are_fields(
    lines: Seq<Seq<char>>,
    m: nat,
    fields: Seq<(Seq<char>, Seq<char>)>,
) -> bool {
    &&& m + fields.len() <= lines.len()
    &&& forall|i: int|
        0 <= i < fields.len() ==> lines[m + i] == (#[trigger] fields[i]).0 + ":"@ + fields[i].1
            && !fields[i].0.contains(':')
}

// ---------------------------------------------------------------------------
// Alpine indexes

/// The fields of a record are read as they are written.
pub proof fn lemma_apk_fields_are_read(
    lines: Seq<Seq<char>>,
    m: nat,
    fields: Seq<(Seq<char>, Seq<char>)>,
    n: nat,
)
    requires
        are_fields(lines, m, fields),
        n <= fields.len(),
    ensures
        apk_state(lines, m + n).0 == apk_state(lines, m).0,
        apk_state(lines, m + n).1 == with_fields(apk_state(lines, m).1, fields, n),
    decreases n,
{
    if n > 0 {
        let k: nat = (n - 1) as nat;
        lemma_apk_fields_are_read(lines, m, fields, k);
        reveal_strlit(":");
        let f = fields[k as int];
        assert(lines[(m + k) as int] == f.0 + ":"@ + f.1);
        lemma_cut_at(f.0, ":"@, f.1);
        assert((m + n - 1) as nat == m + k);
    }
}

/// An empty line ends a record: it is among the records then, with the fields that were
/// written, and the next one starts without any.
pub proof fn lemma_apk_record_is_read(
    lines: Seq<Seq<char>>,
    m: nat,
    fields: Seq<(Seq<char>, Seq<char>)>,
)
    requires
        are_fields(lines, m, fields),
        fields.len() > 0,
        m + fields.len() < lines.len(),
        lines[(m + fields.len()) as int].len() == 0,
        apk_state(lines, m).1 == Map::<Seq<char>, Seq<char>>::empty(),
    ensures
        ({
            let record = with_fields(Map::empty(), fields, fields.len());
            let s = apk_state(lines, m + fields.len() + 1);
            s.0 == apk_state(lines, m).0.push(record) && s.1 == Map::<Seq<char>, Seq<char>>::empty()
        }),
{
    let n: nat = fields.len();
    lemma_apk_fields_are_read(lines, m, fields, n);
    let record = with_fields(Map::empty(), fields, n);
    assert(record.contains_key(fields[n - 1].0));
    assert((m + n + 1 - 1) as nat == m + n);
}

// ---------------------------------------------------------------------------
// Indexes of opkg

/// The fields with their values trimmed.
pub open spec fn values_trimmed(fields: Seq<(Seq<char>, Seq<char>)>) -> Seq<(
    Seq<char>,
    Seq<char>,
)> {
    fields.map_values(|f: (Seq<char>, Seq<char>)| (f.0, trim(f.1)))
}

/// The fields of a stanza are read as they are written, without the white space round
/// their values.
pub proof fn lemma_stanza_fields_are_read(
    lines: Seq<Seq<char>>,
    m: nat,
    fields: Seq<(Seq<char>, Seq<char>)>,
    n: nat,
)
    requires
        are_fields(lines, m, fields),
        n <= fields.len(),
        forall|i: int|
            0 <= i < fields.len() ==> trim(fields[i].0 + ":"@ + (#[trigger] fields[i]).1).len() > 0,
    ensures
        stanza_state(lines, m + n).0 == stanza_state(lines, m).0,
        stanza_state(lines, m + n).1 == with_fields(
            stanza_state(lines, m).1,
            values_trimmed(fields),
            n,
        ),
    decreases n,
{
    if n > 0 {
        let k: nat = (n - 1) as nat;
        lemma_stanza_fields_are_read(lines, m, fields, k);
        reveal_strlit(":");
        let f = fields[k as int];
        assert(lines[(m + k) as int] == f.0 + ":"@ + f.1);
        lemma_cut_at(f.0, ":"@, f.1);
        assert((m + n - 1) as nat == m + k);
    }
}

/// A line of white space ends a stanza.
pub proof fn lemma_stanza_is_ended(lines: Seq<Seq<char>>, n: nat)
    requires
        n < lines.len(),
        trim(lines[n as int]).len() == 0,
    ensures
        ({
            let s = stanza_state(lines, n);
            let t = stanza_state(lines, n + 1);
            &&& t.1 == Map::<Seq<char>, Seq<char>>::empty()
            &&& s.1 != Map::<Seq<char>, Seq<char>>::empty() ==> t.0 == s.0.push(s.1)
            &&& s.1 == Map::<Seq<char>, Seq<char>>::empty() ==> t.0 == s.0
        }),
{
    assert((n + 1 - 1) as nat == n);
}

/// The marks before a name that say that it is to be there are left out; a name that is
/// not to be there is none that is needed.
pub proof fn lemma_needed_names(name: Seq<char>)
    requires
        name.len() > 0,
        name[0] != '+',
    ensures
        needed_name("+"@ + name) == name,
        needed_name(name) == name,
        is_need(name) == (name[0] != '-'),
        is_need("+"@ + name) == (name[0] != '-'),
        !is_need(Seq::empty()),
{
    reveal_strlit("+");
    reveal_strlit("-");
    reveal_with_fuel(trim_start_char, 3);
    let marked = "+"@ + name;
    assert(marked[0] == '+');
    assert(marked.drop_first() =~= name);
    assert(marked.skip(1) =~= name);
    assert(name.take(1)[0] == name[0]);
    if name[0] == '-' {
        assert(name.take(1) =~= "-"@);
    }
}

// ---------------------------------------------------------------------------
// Debian indexes

/// A field of a record is read with its name and value trimmed; a line that goes on with
/// it adds to its value; an empty line ends the record, which counts where it names a
/// package, and its version where that is asked for.
pub proof fn lemma_index_lines_are_read(
    s: IndexState,
    key: Seq<char>,
    value: Seq<char>,
    more: Seq<char>,
    versioned: bool,
)
    requires
        !key.contains(':'),
        !is_continuation(key + ":"@ + value),
        is_continuation(more),
        trim(key).len() > 0,
    ensures
        ({
            let t = index_line(s, key + ":"@ + value, versioned);
            let u = index_line(t, more, versioned);
            let e = index_line(s, Seq::empty(), versioned);
            &&& t.done == s.done && u.done == s.done
            &&& t.current == s.current.insert(trim(key), trim(value))
            &&& u.current == s.current.insert(trim(key), trim(value) + " "@ + trim(more))
            &&& e.current == Map::<Seq<char>, Seq<char>>::empty()
            &&& e.done == if s.current.contains_key("Package"@) && (versioned
                ==> s.current.contains_key("Version"@)) {
                s.done.push(s.current)
            } else {
                s.done
            }
        }),
{
    reveal_strlit(":");
    reveal_strlit(" ");
    reveal_strlit("\t");
    lemma_cut_at(key, ":"@, value);
    let line = key + ":"@ + value;
    assert(line.len() > 0);
    assert(more.len() > 0);
    let t = index_line(s, line, versioned);
    assert(index_line(t, more, versioned).current =~= s.current.insert(
        trim(key),
        trim(value) + " "@ + trim(more),
    ));
}

// ---------------------------------------------------------------------------
// Arch descriptions

/// What stands under a header is what the section holds: the lines up to the next header,
/// in order, without the empty ones.
pub proof fn lemma_sections_are_read(
    lines: Seq<Seq<char>>,
    m: nat,
    values: Seq<Seq<char>>,
    n: nat,
)
    requires
        m + values.len() < lines.len(),
        is_header(lines[m as int]),
        n <= values.len(),
        forall|i: int|
            0 <= i < values.len() ==> lines[m + 1 + i] == #[trigger] values[i] && values[i].len()
                > 0 && !is_header(values[i]),
    ensures
        ({
            let s = desc_state(lines, m + 1 + n);
            &&& s.key == Some(lines[m as int])
            &&& s.values == if desc_state(lines, m).key is Some {
                values.take(n as int)
            } else {
                desc_state(lines, m).values + values.take(n as int)
            }
        }),
    decreases n,
{
    if n > 0 {
        let k: nat = (n - 1) as nat;
        lemma_sections_are_read(lines, m, values, k);
        assert((m + 1 + n - 1) as nat == m + 1 + k);
        assert(lines[(m + 1 + k) as int] == values[k as int]);
        assert(values.take(n as int) =~= values.take(k as int).push(values[k as int]));
    } else {
        assert((m + 1 - 1) as nat == m);
        assert(values.take(0) =~= Seq::empty());
    }
}

/// The next header closes the section before it.
pub proof fn lemma_sections_are_closed(lines: Seq<Seq<char>>, n: nat)
    requires
        n < lines.len(),
        is_header(lines[n as int]),
        desc_state(lines, n).key is Some,
    ensures
        ({
            let s = desc_state(lines, n);
            let t = desc_state(lines, n + 1);
            &&& t.sections == s.sections.insert(s.key->0, s.values)
            &&& t.values.len() == 0
        }),
{
    assert((n + 1 - 1) as nat == n);
}

/// The version that a conflict names is left out, and so is the reason of an optional
/// dependency.
pub proof fn lemma_names_without_rest(name: Seq<char>, c: char, rest: Seq<char>)
    requires
        c == '>' || c == '<' || c == '=',
        !name.contains('>') && !name.contains('<') && !name.contains('='),
        !name.contains(':'),
    ensures
        unversioned(name.push(c) + rest) == name,
        unversioned(name) == name,
        optional_names(seq![name + ":"@ + rest]) == seq![trim(name)],
        optional_names(seq![name]) == seq![trim(name)],
{
    let sep = Sep::AnyOf('>', '<', '=');
    lemma_one_piece(name, sep);
    lemma_pieces_joined(name, c, rest, sep);
    lemma_pieces_nonempty(rest, sep);
    reveal_strlit(":");
    lemma_cut_at(name, ":"@, rest);
    assert(optional_names(seq![name + ":"@ + rest]) =~= seq![trim(name)]);
    assert(optional_names(seq![name]) =~= seq![trim(name)]);
}

proof fn lemma_one_piece(s: Seq<char>, sep: Sep)
    requires
        forall|i: int| 0 <= i < s.len() ==> !separates(sep, #[trigger] s[i]),
    ensures
        pieces(s, sep) == seq![s],
    decreases s.len(),
{
    if s.len() > 0 {
        let t = s.drop_last();
        assert forall|i: int| 0 <= i < t.len() implies !separates(sep, #[trigger] t[i]) by {
            assert(t[i] == s[i]);
        }
        lemma_one_piece(t, sep);
        assert(!separates(sep, s[s.len() - 1]));
        assert(t.push(s.last()) =~= s);
        assert(pieces(s, sep) =~= seq![s]);
    } else {
        assert(s =~= Seq::empty());
    }
}

// ---------------------------------------------------------------------------
// CRAN packages

/// The packages that a list names: every entry but one without a name and one that is the
/// language itself, and nothing else.
pub proof fn lemma_named_packages(entries: Seq<Seq<char>>, name: Seq<char>)
    ensures
        names_in(entries).contains(name) <==> {
            &&& name.len() > 0
            &&& name != "R"@
            &&& exists|i: int| 0 <= i < entries.len() && #[trigger] entry_name(entries[i]) == name
        },
    decreases entries.len(),
{
    if entries.len() > 0 {
        let rest = entries.drop_last();
        let last = entries.len() - 1;
        lemma_named_packages(rest, name);
        let done = names_in(rest);
        let all = names_in(entries);
        if done.contains(name) {
            let j: int = done.index_of(name);
            assert(all[j] == name);
            let i: int = choose|i: int|
                0 <= i < rest.len() && #[trigger] entry_name(rest[i]) == name;
            assert(entry_name(entries[i]) == name);
        }
        if all.contains(name) {
            let j: int = all.index_of(name);
            if j < done.len() {
                assert(done[j] == name);
            } else {
                assert(entry_name(entries[last]) == name);
            }
        }
        if name.len() > 0 && name != "R"@ && entry_name(entries[last]) == name {
            assert(all[done.len() as int] == name);
        }
        if exists|i: int| 0 <= i < entries.len() && #[trigger] entry_name(entries[i]) == name {
            let i: int = choose|i: int|
                0 <= i < entries.len() && #[trigger] entry_name(entries[i]) == name;
            if i < last {
                assert(entry_name(rest[i]) == name);
            }
        }
    }
}

/// Each field goes where its name says.
pub proof fn lemma_fields_have_places(p: Cran, v: Seq<char>)
    ensures
        field_set(p, "Package"@, v).package == v,
        field_set(p, "Version"@, v).version == v,
        field_set(p, "Depends"@, v).depends == dep_names(v),
        field_set(p, "Imports"@, v).imports == dep_names(v),
        field_set(p, "Suggests"@, v).suggests == dep_names(v),
        field_set(p, "LinkingTo"@, v).linking_to == dep_names(v),
        field_set(p, "Enhances"@, v).enhances == dep_names(v),
        field_set(p, "License"@, v).license == Some(v),
        field_set(p, "NeedsCompilation"@, v).needs_compilation == Some(v),
        field_set(p, "Title"@, v).title == Some(v),
        field_set(p, "Description"@, v).description == Some(v),
        field_set(p, "Author"@, v).author == Some(v),
        field_set(p, "Maintainer"@, v).maintainer == Some(v),
        field_set(p, "URL"@, v).url == Some(v),
        field_set(p, "SystemRequirements"@, v).system_requirements == Some(v),
        field_set(p, "Priority"@, v).priority == Some(v),
{
    reveal_strlit("Package");
    reveal_strlit("Version");
    reveal_strlit("Depends");
    reveal_strlit("Imports");
    reveal_strlit("Suggests");
    reveal_strlit("LinkingTo");
    reveal_strlit("Enhances");
    reveal_strlit("License");
    reveal_strlit("NeedsCompilation");
    reveal_strlit("Title");
    reveal_strlit("Description");
    reveal_strlit("Author");
    reveal_strlit("Maintainer");
    reveal_strlit("URL");
    reveal_strlit("SystemRequirements");
    reveal_strlit("Priority");
    assert("Package"@.len() == 7 && "Package"@[0] == 'P');
    assert("Version"@.len() == 7 && "Version"@[0] == 'V');
    assert("Depends"@.len() == 7 && "Depends"@[0] == 'D');
    assert("Imports"@.len() == 7 && "Imports"@[0] == 'I');
    assert("Suggests"@.len() == 8 && "Suggests"@[0] == 'S');
    assert("LinkingTo"@.len() == 9 && "LinkingTo"@[0] == 'L');
    assert("Enhances"@.len() == 8 && "Enhances"@[0] == 'E');
    assert("License"@.len() == 7 && "License"@[0] == 'L');
    assert("NeedsCompilation"@.len() == 16 && "NeedsCompilation"@[0] == 'N');
    assert("Title"@.len() == 5 && "Title"@[0] == 'T');
    assert("Description"@.len() == 11 && "Description"@[0] == 'D');
    assert("Author"@.len() == 6 && "Author"@[0] == 'A');
    assert("Maintainer"@.len() == 10 && "Maintainer"@[0] == 'M');
    assert("URL"@.len() == 3 && "URL"@[0] == 'U');
    assert("SystemRequirements"@.len() == 18 && "SystemRequirements"@[0] == 'S');
    assert("Priority"@.len() == 8 && "Priority"@[0] == 'P');
}

/// Two fields of different names do not disturb each other: it does not matter which of
/// them is set first.
pub proof fn lemma_fields_are_apart(
    p: Cran,
    a: Seq<char>,
    x: Seq<char>,
    b: Seq<char>,
    y: Seq<char>,
)
    requires
        a != b,
    ensures
        field_set(field_set(p, a, x), b, y) == field_set(field_set(p, b, y), a, x),
        field_set(field_set(p, a, y), a, x) == field_set(p, a, x),
{
}

// ---------------------------------------------------------------------------
// Buildroot packages

/// Each variable goes where its name says; of the dependencies, those for the build host
/// are kept apart.
pub proof fn lemma_variables_have_places(p: Described, v: Seq<char>)
    ensures
        assigned(p, "VERSION"@, v).version == Some(v),
        assigned(p, "SOURCE"@, v).source == Some(v),
        assigned(p, "SITE"@, v).site == Some(v),
        assigned(p, "SITE_METHOD"@, v).site_method == Some(v),
        assigned(p, "LICENSE"@, v).license == Some(v),
        assigned(p, "LICENSE_FILES"@, v).license_files == Some(v),
        assigned(p, "CPE_ID_VENDOR"@, v).cpe_vendor == Some(v),
        assigned(p, "CPE_ID_PRODUCT"@, v).cpe_product == Some(v),
        assigned(p, "CONF_OPTS"@, v).conf_opts == Some(v),
        assigned(p, "DEPENDENCIES"@, v).dependencies == p.dependencies + host_words(
            words(v, Sep::Blank),
            false,
        ),
        assigned(p, "DEPENDENCIES"@, v).host_dependencies == p.host_dependencies + host_words(
            words(v, Sep::Blank),
            true,
        ),
        assigned(p, "HOST_DEPENDENCIES"@, v).host_dependencies == p.host_dependencies + words(
            v,
            Sep::Blank,
        ),
        assigned(p, "HOST_DEPENDENCIES"@, v).dependencies == p.dependencies,
        assigned(p, "INSTALL_STAGING"@, v).install_staging == (trim(v) == "YES"@),
        assigned(p, "INSTALL_TARGET"@, v).install_target == (trim(v) == "YES"@),
{
    reveal_strlit("VERSION");
    reveal_strlit("SOURCE");
    reveal_strlit("SITE");
    reveal_strlit("SITE_METHOD");
    reveal_strlit("LICENSE");
    reveal_strlit("LICENSE_FILES");
    reveal_strlit("CPE_ID_VENDOR");
    reveal_strlit("CPE_ID_PRODUCT");
    reveal_strlit("CONF_OPTS");
    reveal_strlit("DEPENDENCIES");
    reveal_strlit("HOST_DEPENDENCIES");
    reveal_strlit("INSTALL_STAGING");
    reveal_strlit("INSTALL_TARGET");
    assert("VERSION"@.len() == 7 && "VERSION"@[0] == 'V');
    assert("SOURCE"@.len() == 6 && "SOURCE"@[0] == 'S');
    assert("SITE"@.len() == 4 && "SITE"@[0] == 'S');
    assert("SITE_METHOD"@.len() == 11 && "SITE_METHOD"@[0] == 'S');
    assert("LICENSE"@.len() == 7 && "LICENSE"@[0] == 'L');
    assert("LICENSE_FILES"@.len() == 13 && "LICENSE_FILES"@[0] == 'L');
    assert("CPE_ID_VENDOR"@.len() == 13 && "CPE_ID_VENDOR"@[0] == 'C');
    assert("CPE_ID_PRODUCT"@.len() == 14 && "CPE_ID_PRODUCT"@[0] == 'C');
    assert("CONF_OPTS"@.len() == 9 && "CONF_OPTS"@[0] == 'C');
    assert("DEPENDENCIES"@.len() == 12 && "DEPENDENCIES"@[0] == 'D');
    assert("HOST_DEPENDENCIES"@.len() == 17 && "HOST_DEPENDENCIES"@[0] == 'H');
    assert("INSTALL_STAGING"@.len() == 15 && "INSTALL_STAGING"@[0] == 'I');
    assert("INSTALL_TARGET"@.len() == 14 && "INSTALL_TARGET"@[0] == 'I');
}

/// A dependency is one of the build host where its name starts with `host-`, and one of
/// the target else.
pub proof fn lemma_host_words(ws: Seq<Seq<char>>, host: bool, x: Seq<char>)
    ensures
        host_words(ws, host).contains(x) <==> ws.contains(x) && starts_with(x, "host-"@) == host,
    decreases ws.len(),
{
    if ws.len() > 0 {
        let rest = ws.drop_last();
        let last = ws.len() - 1;
        lemma_host_words(rest, host, x);
        let done = host_words(rest, host);
        let all = host_words(ws, host);
        if done.contains(x) {
            let j: int = done.index_of(x);
            assert(all[j] == x);
            let i: int = rest.index_of(x);
            assert(ws[i] == x);
        }
        if all.contains(x) {
            let j: int = all.index_of(x);
            if j < done.len() {
                assert(done[j] == x);
            } else {
                assert(ws[last] == x);
            }
        }
        if ws.contains(x) && starts_with(x, "host-"@) == host {
            let i: int = ws.index_of(x);
            if i < last {
                assert(rest[i] == x);
            } else {
                assert(all[done.len() as int] == x);
            }
        }
    }
}

/// A line that assigns a variable of the package sets it.
pub proof fn lemma_assignments_are_read(
    p: Described,
    prefix: Seq<char>,
    var: Seq<char>,
    value: Seq<char>,
)
    requires
        !var.contains('='),
        trim_start(prefix + var + "="@ + value) == prefix + var + "="@ + value,
    ensures
        after_line(p, prefix, prefix + var + "="@ + value) == assigned(p, trim(var), trim(value)),
{
    reveal_strlit("=");
    let line = prefix + var + "="@ + value;
    assert(line.take(prefix.len() as int) =~= prefix);
    assert(line.skip(prefix.len() as int) =~= var + "="@ + value);
    lemma_cut_at(var, "="@, value);
}

// ---------------------------------------------------------------------------
// Chocolatey packages

/// Each property goes where its name says.
pub proof fn lemma_properties_have_places(p: Choco, v: Seq<char>)
    ensures
        property_set(p, "d:Id"@, v).id == v,
        property_set(p, "d:Version"@, v).version == v,
        property_set(p, "d:Title"@, v).title == Some(v),
        property_set(p, "d:Description"@, v).description == Some(v),
        property_set(p, "d:Authors"@, v).authors == Some(v),
        property_set(p, "d:PackageHash"@, v).package_hash == Some(v),
        property_set(p, "d:PackageHashAlgorithm"@, v).package_hash_algorithm == Some(v),
        property_set(p, "d:DownloadCount"@, v).download_count == i64_value(v),
        property_set(p, "d:VersionDownloadCount"@, v).version_download_count == i64_value(v),
        property_set(p, "d:IsPrerelease"@, v).is_prerelease == (v == "true"@),
{
    reveal_strlit("d:Id");
    reveal_strlit("d:Version");
    reveal_strlit("d:Title");
    reveal_strlit("d:Description");
    reveal_strlit("d:Authors");
    reveal_strlit("d:PackageHash");
    reveal_strlit("d:PackageHashAlgorithm");
    reveal_strlit("d:DownloadCount");
    reveal_strlit("d:VersionDownloadCount");
    reveal_strlit("d:IsPrerelease");
    assert("d:Id"@.len() == 4 && "d:Id"@[2] == 'I');
    assert("d:Version"@.len() == 9 && "d:Version"@[2] == 'V');
    assert("d:Title"@.len() == 7 && "d:Title"@[2] == 'T');
    assert("d:Description"@.len() == 13 && "d:Description"@[2] == 'D');
    assert("d:Authors"@.len() == 9 && "d:Authors"@[2] == 'A');
    assert("d:PackageHash"@.len() == 13 && "d:PackageHash"@[2] == 'P');
    assert("d:PackageHashAlgorithm"@.len() == 22 && "d:PackageHashAlgorithm"@[2] == 'P');
    assert("d:DownloadCount"@.len() == 15 && "d:DownloadCount"@[2] == 'D');
    assert("d:VersionDownloadCount"@.len() == 22 && "d:VersionDownloadCount"@[2] == 'V');
    assert("d:IsPrerelease"@.len() == 14 && "d:IsPrerelease"@[2] == 'I');
}

/// Two properties of different names do not disturb each other.
pub proof fn lemma_properties_are_apart(
    p: Choco,
    a: Seq<char>,
    x: Seq<char>,
    b: Seq<char>,
    y: Seq<char>,
)
    requires
        a != b,
    ensures
        property_set(property_set(p, a, x), b, y) == property_set(property_set(p, b, y), a, x),
{
}

// ---------------------------------------------------------------------------
// Dates of advisories

/// The names of the months, from the first to the last.
pub open spec fn month_names() -> Seq<Seq<char>> {
    seq![
        "Jan"@, "Feb"@, "Mar"@, "Apr"@, "May"@, "Jun"@,
        "Jul"@, "Aug"@, "Sep"@, "Oct"@, "Nov"@, "Dec"@,
    ]
}

/// The number of a month is its place in the year, with two digits.
pub proof fn lemma_months_are_in_order(i: int)
    requires
        0 <= i < 12,
    ensures
        ({
            let n = month_number(month_names()[i]);
            &&& n is Some
            &&& n->0.len() == 2
            &&& (n->0[0] as int - '0' as int) * 10 + (n->0[1] as int - '0' as int) == i + 1
        }),
{
    reveal_strlit("Jan");
    reveal_strlit("Feb");
    reveal_strlit("Mar");
    reveal_strlit("Apr");
    reveal_strlit("May");
    reveal_strlit("Jun");
    reveal_strlit("Jul");
    reveal_strlit("Aug");
    reveal_strlit("Sep");
    reveal_strlit("Oct");
    reveal_strlit("Nov");
    reveal_strlit("Dec");
    reveal_strlit("01");
    reveal_strlit("02");
    reveal_strlit("03");
    reveal_strlit("04");
    reveal_strlit("05");
    reveal_strlit("06");
    reveal_strlit("07");
    reveal_strlit("08");
    reveal_strlit("09");
    reveal_strlit("10");
    reveal_strlit("11");
    reveal_strlit("12");
    assert("Jan"@[0] == 'J' && "Jan"@[1] == 'a' && "Jan"@[2] == 'n');
    assert("Feb"@[0] == 'F' && "Feb"@[1] == 'e' && "Feb"@[2] == 'b');
    assert("Mar"@[0] == 'M' && "Mar"@[1] == 'a' && "Mar"@[2] == 'r');
    assert("Apr"@[0] == 'A' && "Apr"@[1] == 'p' && "Apr"@[2] == 'r');
    assert("May"@[0] == 'M' && "May"@[1] == 'a' && "May"@[2] == 'y');
    assert("Jun"@[0] == 'J' && "Jun"@[1] == 'u' && "Jun"@[2] == 'n');
    assert("Jul"@[0] == 'J' && "Jul"@[1] == 'u' && "Jul"@[2] == 'l');
    assert("Aug"@[0] == 'A' && "Aug"@[1] == 'u' && "Aug"@[2] == 'g');
    assert("Sep"@[0] == 'S' && "Sep"@[1] == 'e' && "Sep"@[2] == 'p');
    assert("Oct"@[0] == 'O' && "Oct"@[1] == 'c' && "Oct"@[2] == 't');
    assert("Nov"@[0] == 'N' && "Nov"@[1] == 'o' && "Nov"@[2] == 'v');
    assert("Dec"@[0] == 'D' && "Dec"@[1] == 'e' && "Dec"@[2] == 'c');
}

/// A date of the feed gives the year, the month, the day and the time, in this order.
pub proof fn lemma_dates_are_read(date: Seq<char>, i: int)
    requires
        words(date, Sep::Blank).len() >= 6,
        0 <= i < 12,
        words(date, Sep::Blank)[2] == month_names()[i],
    ensures
        ({
            let parts = words(date, Sep::Blank);
            let (day, year, time) = (parts[1], parts[3], parts[4]);
            &&& iso_date(date) is Ok
            &&& iso_date(date)->Ok_0 == year + "-"@ + month_number(month_names()[i])->0 + "-"@
                + day + "T"@ + time + "Z"@
        }),
{
    lemma_months_are_in_order(i);
}

// ---------------------------------------------------------------------------
// Forges

/// The address of a repository on a known forge, whatever the scheme, with or without the
/// suffix of clones, gives the canonical address of that repository: the host, the owner
/// and the name, in this order.
pub proof fn lemma_forge_addresses(
    scheme: Seq<char>,
    host: Seq<char>,
    owner: Seq<char>,
    name: Seq<char>,
    rest: Seq<char>,
)
    requires
        forge_software(host) is Some,
        !scheme.contains(':'),
        !host.contains('/') && !owner.contains('/') && !name.contains('/'),
        owner.len() > 0,
        name.len() > 0,
        !ends_with(name, ".git"@),
    ensures
        ({
            let address = scheme + "://"@ + (host.push('/') + (owner.push('/') + name));
            let deeper = scheme + "://"@ + (host.push('/') + (owner.push('/') + (name.push('/')
                + rest)));
            let clone = scheme + "://"@ + (host.push('/') + (owner.push('/') + (name + ".git"@)));
            let canonical = "https://"@ + host + "/"@ + (owner + "/"@ + name);
            &&& forge_url(address) == Some(canonical)
            &&& forge_url(deeper) == Some(canonical)
            &&& forge_url(clone) == Some(canonical)
            &&& project_name(address) == owner + "/"@ + name
        }),
{
    reveal_strlit(".git");
    let sep = Sep::Is('/');
    lemma_one_piece(host, sep);
    lemma_one_piece(owner, sep);
    lemma_one_piece(name, sep);
    let cloned = name + ".git"@;
    assert forall|i: int| 0 <= i < cloned.len() implies !separates(sep, #[trigger] cloned[i]) by {
        if i < name.len() {
            assert(cloned[i] == name[i]);
        } else {
            assert(cloned[i] == ".git"@[i - name.len()]);
        }
    }
    lemma_one_piece(cloned, sep);
    lemma_pieces_joined(name, '/', rest, sep);
    lemma_pieces_joined(owner, '/', name, sep);
    lemma_pieces_joined(owner, '/', cloned, sep);
    lemma_pieces_joined(owner, '/', name.push('/') + rest, sep);
    lemma_pieces_joined(host, '/', owner.push('/') + name, sep);
    lemma_pieces_joined(host, '/', owner.push('/') + cloned, sep);
    lemma_pieces_joined(host, '/', owner.push('/') + (name.push('/') + rest), sep);
    lemma_scheme_cut(scheme, host.push('/') + (owner.push('/') + name));
    lemma_scheme_cut(scheme, host.push('/') + (owner.push('/') + cloned));
    lemma_scheme_cut(scheme, host.push('/') + (owner.push('/') + (name.push('/') + rest)));
    assert(cloned.skip(cloned.len() - 4) =~= ".git"@);
    assert(cloned.take(cloned.len() - 4) =~= name);
    let a = pieces(host.push('/') + (owner.push('/') + name), sep);
    assert(a[0] == host && a[1] == owner && a[2] == name);
    let b = pieces(host.push('/') + (owner.push('/') + cloned), sep);
    assert(b[0] == host && b[1] == owner && b[2] == cloned);
    let c = pieces(host.push('/') + (owner.push('/') + (name.push('/') + rest)), sep);
    assert(c[0] == host && c[1] == owner && c[2] == name);
}

proof fn lemma_scheme_cut(scheme: Seq<char>, path: Seq<char>)
    requires
        !scheme.contains(':'),
    ensures
        split_once(scheme + "://"@ + path, "://"@) == Some((scheme, path)),
{
    reveal_strlit("://");
    let s = scheme + "://"@ + path;
    assert(s.subrange(scheme.len() as int, scheme.len() as int + 3) =~= "://"@);
    assert forall|j: int| 0 <= j < scheme.len() implies !occurs_at(s, "://"@, j) by {
        if occurs_at(s, "://"@, j) {
            assert(s.subrange(j, j + 3)[0] == ':');
            assert(s[j] == scheme[j]);
        }
    }
    lemma_found(s, "://"@, scheme.len());
    assert(s.take(scheme.len() as int) =~= scheme);
    assert(s.skip(scheme.len() as int + 3) =~= path);
}

/// No repository is found on a host that is no known forge.
pub proof fn lemma_other_hosts(scheme: Seq<char>, host: Seq<char>, path: Seq<char>)
    requires
        forge_software(host) is None,
        !scheme.contains(':'),
        !host.contains('/'),
    ensures
        forge_url(scheme + "://"@ + (host.push('/') + path)) is None,
{
    let sep = Sep::Is('/');
    lemma_one_piece(host, sep);
    lemma_pieces_joined(host, '/', path, sep);
    lemma_scheme_cut(scheme, host.push('/') + path);
    let a = pieces(host.push('/') + path, sep);
    assert(a[0] == host);
}

} // verus!
