//! What is said of the dates of releases.

use crate::derive_releases::{
    dates_in, dates_merged, lemma_later_date_counts, row_date, with_dates, Ecosystem,
};
use crate::ntriples::{pkg, xsd, Sheet};
use crate::order::before_text;
use crate::reading::{group_reading, said, Term};
use crate::textmap::{as_map, distinct_keys, field, lemma_put_is_insert};
use vstd::prelude::*;

verus! {

/// The dates as they are said: each package has its date, as a date.
pub open spec fn as_said(dates: Seq<(Seq<char>, Seq<char>)>) -> Seq<(Term, Term)> {
    dates.map_values(
        |d: (Seq<char>, Seq<char>)| (Term::Iri(d.0), Term::Typed(d.1, xsd("date"@))),
    )
}

/// Every date is said of its package, in order, and nothing else is said.
pub proof fn lemma_dates_told(w: Sheet, dates: Seq<(Seq<char>, Seq<char>)>, n: nat)
    requires
        n <= dates.len(),
    ensures
        said(with_dates(w, dates, n).log, pkg("lastReleaseDate"@)) == said(
            w.log,
            pkg("lastReleaseDate"@),
        ) + as_said(dates.take(n as int)),
        with_dates(w, dates, n).log.len() == w.log.len() + n,
    decreases n,
{
    broadcast use group_reading;

    if n > 0 {
        lemma_dates_told(w, dates, (n - 1) as nat);
        assert(as_said(dates.take(n as int)) =~= as_said(dates.take(n - 1)).push(
            (Term::Iri(dates[n - 1].0), Term::Typed(dates[n - 1].1, xsd("date"@))),
        ));
    } else {
        assert(as_said(dates.take(0)) =~= Seq::empty());
    }
}

/// The date of a package is that of the last row about it.
pub proof fn lemma_last_row_counts(
    e: Ecosystem,
    rows: Seq<Map<Seq<char>, Seq<char>>>,
    n: nat,
    i: int,
    identity: Seq<char>,
    d: Seq<char>,
)
    requires
        0 <= i < n <= rows.len(),
        row_date(e, rows[i]) == Some((identity, d)),
        forall|j: int| i < j < n
            ==> !(row_date(e, #[trigger] rows[j]) matches Some(x) && x.0 == identity),
    ensures
        field(as_map::<String>(dates_in(e, rows, n)), identity) == Some(d),
    decreases n,
{
    let rest = dates_in(e, rows, (n - 1) as nat);
    lemma_dates_are_distinct(e, rows, (n - 1) as nat);
    if i < n - 1 {
        lemma_last_row_counts(e, rows, (n - 1) as nat, i, identity, d);
        assert(!(row_date(e, rows[n - 1]) matches Some(x) && x.0 == identity));
        if let Some((other, v)) = row_date(e, rows[n - 1]) {
            lemma_put_is_insert::<String>(rest, other, v);
        }
    } else {
        lemma_put_is_insert::<String>(rest, identity, d);
    }
}

/// A package has one date.
pub proof fn lemma_dates_are_distinct(e: Ecosystem, rows: Seq<Map<Seq<char>, Seq<char>>>, n: nat)
    ensures
        distinct_keys(dates_in(e, rows, n)),
    decreases n,
{
    if n > 0 {
        lemma_dates_are_distinct(e, rows, (n - 1) as nat);
        if let Some((identity, d)) = row_date(e, rows[n - 1]) {
            lemma_put_is_insert::<String>(dates_in(e, rows, (n - 1) as nat), identity, d);
        }
    }
}

/// Merging keeps the latest date: of every package that is in one of two lists, the date
/// afterwards is in one of them, and is before neither.
pub proof fn lemma_latest_date_counts(
    e: Seq<(Seq<char>, Seq<char>)>,
    more: Seq<(Seq<char>, Seq<char>)>,
    n: nat,
    i: int,
)
    requires
        distinct_keys(e),
        0 <= i < n <= more.len(),
        forall|j: int, k: int| 0 <= j < k < more.len() ==> more[j].0 != more[k].0,
    ensures
        ({
            let was = as_map::<String>(e);
            let now = as_map::<String>(dates_merged(e, more, n));
            let (identity, d) = more[i];
            &&& now.contains_key(identity)
            &&& now[identity] == d || (was.contains_key(identity) && now[identity] == was[identity])
            &&& !before_text(now[identity], d)
            &&& was.contains_key(identity) ==> !before_text(now[identity], was[identity])
        }),
    decreases n,
{
    let rest = dates_merged(e, more, (n - 1) as nat);
    lemma_merged_apart(e, more, (n - 1) as nat, more[i].0);
    if i < n - 1 {
        lemma_latest_date_counts(e, more, (n - 1) as nat, i);
        lemma_later_date_counts(rest, more[n - 1].0, more[n - 1].1, more[i].0);
        assert(more[i].0 != more[n - 1].0);
    } else {
        lemma_later_date_counts(rest, more[i].0, more[i].1, more[i].0);
    }
}

/// A package that the second list does not hold keeps its date.
pub proof fn lemma_merged_apart(
    e: Seq<(Seq<char>, Seq<char>)>,
    more: Seq<(Seq<char>, Seq<char>)>,
    n: nat,
    identity: Seq<char>,
)
    requires
        distinct_keys(e),
        n <= more.len(),
    ensures
        distinct_keys(dates_merged(e, more, n)),
        (forall|j: int| 0 <= j < n ==> (#[trigger] more[j]).0 != identity) ==> field(
            as_map::<String>(dates_merged(e, more, n)),
            identity,
        ) == field(as_map::<String>(e), identity),
    decreases n,
{
    if n > 0 {
        lemma_merged_apart(e, more, (n - 1) as nat, identity);
        let rest = dates_merged(e, more, (n - 1) as nat);
        lemma_later_date_counts(rest, more[n - 1].0, more[n - 1].1, identity);
    }
}

} // verus!
