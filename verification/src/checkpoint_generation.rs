//! The generation that checkpoints belong to.
//!
//! A generation scopes checkpoints to one run: a run that was interrupted resumes
//! it, and one that was published retires it.

use crate::calendar::{format_utc, is_stamp, utc_formatted, LAST_SECOND, STAMP};
use crate::failure::{CollectError, ErrorKind, Failure};
use crate::number::{hex, hex_char, hex_string};
use crate::text::{cat3, digit, is_digit, opt, same, views};
use vstd::prelude::*;

verus! {

broadcast use crate::text::lemma_views_push;

// ---------------------------------------------------------------------------
// Identifiers

/// Whether a character is a lower-case hexadecimal digit.
pub open spec fn is_hex(c: char) -> bool {
    is_digit(c) || ('a' <= c && c <= 'f')
}

/// Whether a text is the identifier of a generation: a time stamp, a hyphen, and
/// eight hexadecimal digits.
pub open spec fn is_generation_id(id: Seq<char>) -> bool {
    &&& id.len() == 25
    &&& is_stamp(id.take(16))
    &&& id[16] == '-'
    &&& forall|i: int| 17 <= i < 25 ==> is_hex(#[trigger] id[i])
}

/// An identifier can stand in a path: it has neither separators nor dots.
pub proof fn lemma_id_is_a_path_component(id: Seq<char>)
    requires
        is_generation_id(id),
    ensures
        forall|i: int| 0 <= i < id.len() ==> #[trigger] id[i] != '/' && id[i] != '.' && id[i] != '\\',
{
    assert forall|i: int| 0 <= i < id.len() implies #[trigger] id[i] != '/' && id[i] != '.' && id[i]
        != '\\' by {
        if i < 16 {
            assert(id.take(16)[i] == id[i]);
        }
    }
}

/// The bytes of a number, the most significant first.
pub open spec fn bytes_of(n: u32) -> Seq<u8> {
    seq![
        (n as int / 16777216) as u8,
        (n as int / 65536 % 256) as u8,
        (n as int / 256 % 256) as u8,
        (n as int % 256) as u8,
    ]
}

/// The identifier that a second and a number give.
pub open spec fn minted(secs: i64, random: u32) -> Option<Seq<char>> {
    match utc_formatted(secs, STAMP@) {
        Some(stamp) => Some(stamped(stamp, random)),
        None => None,
    }
}

/// The identifier that a time stamp and a number give.
pub open spec fn stamped(stamp: Seq<char>, random: u32) -> Seq<char> {
    stamp + "-"@ + hex(bytes_of(random))
}

proof fn lemma_hex_digits(b: Seq<u8>)
    ensures
        hex(b).len() == 2 * b.len(),
        forall|i: int| 0 <= i < hex(b).len() ==> is_hex(#[trigger] hex(b)[i]),
    decreases b.len(),
{
    if b.len() > 0 {
        lemma_hex_digits(b.drop_last());
        let h = b.last() as int / 16;
        let l = b.last() as int % 16;
        assert(is_hex(hex_char(h)) && is_hex(hex_char(l)));
    }
}

/// A time stamp and a number give an identifier.
pub proof fn lemma_minted_is_valid(stamp: Seq<char>, random: u32)
    requires
        is_stamp(stamp),
    ensures
        is_generation_id(stamped(stamp, random)),
{
    let id = stamped(stamp, random);
    reveal_strlit("-");
    lemma_hex_digits(bytes_of(random));
    assert(id.take(16) =~= stamp);
    assert forall|i: int| 17 <= i < 25 implies is_hex(#[trigger] id[i]) by {
        assert(id[i] == hex(bytes_of(random))[i - 17]);
    }
}

// ---------------------------------------------------------------------------
// State

/// What is known of the generation: its identifier and its status.
#[derive(Debug, Clone, PartialEq)]
pub struct State {
    pub id: String,
    pub status: String,
}

/// What a [`State`] says.
#[verifier::ext_equal]
pub struct StateText {
    pub id: Seq<char>,
    pub status: Seq<char>,
}

impl View for State {
    type V = StateText;

    open spec fn view(&self) -> StateText {
        StateText { id: self.id@, status: self.status@ }
    }
}

pub open spec fn state_view(s: Option<State>) -> Option<StateText> {
    match s {
        Some(x) => Some(x@),
        None => None,
    }
}

/// Whether a state can be trusted: it has a valid identifier and a known status.
pub open spec fn is_trusted(s: StateText) -> bool {
    is_generation_id(s.id) && (s.status == "active"@ || s.status == "complete"@)
}

/// A state, where it can be trusted.
pub open spec fn trusted(s: Option<StateText>) -> Option<StateText> {
    match s {
        Some(x) => if is_trusted(x) {
            Some(x)
        } else {
            None
        },
        None => None,
    }
}

/// The generation of a run.
#[derive(Debug, Clone, PartialEq)]
pub struct AcquiredGeneration {
    pub id: String,
    /// Whether it is that of an interrupted run.
    pub reused: bool,
}

/// What came of making the directory of a generation.
#[derive(Debug, Clone, PartialEq)]
pub enum Creation {
    Created,
    /// There is one already.
    Exists,
    Failed(String),
}

/// A directory entry.
#[derive(Debug, Clone, PartialEq)]
pub struct DirEntry {
    pub name: String,
    pub is_dir: bool,
}

/// What acquiring a generation waits for.
#[derive(Debug, PartialEq)]
pub enum Acquisition {
    /// The state that was left.
    AwaitState,
    /// Whether the generation has a directory.
    AwaitDir { id: String },
    /// A new identifier, and what came of making its directory; some were tried in
    /// vain.
    AwaitMint { tried: u32 },
    /// The entries beside the directory of the new generation.
    AwaitListing { id: String },
    /// The removal of old directories, and the writing of the state.
    AwaitWrite { id: String, doomed: Vec<String> },
    Done(Result<AcquiredGeneration, String>),
}

/// An answer to what acquiring a generation waits for.
#[derive(Debug, PartialEq)]
pub enum AcquireEvent {
    State(Option<State>),
    Dir(bool),
    Minted { id: String, creation: Creation },
    Listing(Result<Vec<DirEntry>, String>),
    Written(Result<(), String>),
}

/// What an [`Acquisition`] says.
#[verifier::ext_equal]
pub enum Stage {
    AwaitState,
    AwaitDir { id: Seq<char> },
    AwaitMint { tried: u32 },
    AwaitListing { id: Seq<char> },
    AwaitWrite { id: Seq<char>, doomed: Seq<Seq<char>> },
    Acquired { id: Seq<char>, reused: bool },
    Failed { error: Seq<char> },
}

impl View for Acquisition {
    type V = Stage;

    open spec fn view(&self) -> Stage {
        match *self {
            Acquisition::AwaitState => Stage::AwaitState,
            Acquisition::AwaitDir { id } => Stage::AwaitDir { id: id@ },
            Acquisition::AwaitMint { tried } => Stage::AwaitMint { tried },
            Acquisition::AwaitListing { id } => Stage::AwaitListing { id: id@ },
            Acquisition::AwaitWrite { id, doomed } => Stage::AwaitWrite {
                id: id@,
                doomed: views(doomed@),
            },
            Acquisition::Done(Ok(g)) => Stage::Acquired { id: g.id@, reused: g.reused },
            Acquisition::Done(Err(e)) => Stage::Failed { error: e@ },
        }
    }
}

/// The directories among the first `n` entries that are not that of a generation.
pub open spec fn other_dirs(entries: Seq<DirEntry>, n: nat, id: Seq<char>) -> Seq<Seq<char>>
    decreases n,
{
    if n == 0 {
        Seq::empty()
    } else {
        let rest = other_dirs(entries, (n - 1) as nat, id);
        let e = entries[n - 1];
        if e.is_dir && e.name@ != id {
            rest.push(e.name@)
        } else {
            rest
        }
    }
}

/// The next stage. A trusted state of an active generation that has a directory is
/// resumed; otherwise a new generation is minted, in at most 64 tries, and every
/// other directory is removed. An answer to something else changes nothing.
pub open spec fn next_stage(s: Acquisition, event: AcquireEvent) -> Stage {
    match (s, event) {
        (Acquisition::AwaitState, AcquireEvent::State(state)) => match trusted(
            state_view(state),
        ) {
            Some(x) => if x.status == "active"@ {
                Stage::AwaitDir { id: x.id }
            } else {
                Stage::AwaitMint { tried: 0 }
            },
            None => Stage::AwaitMint { tried: 0 },
        },
        (Acquisition::AwaitDir { id }, AcquireEvent::Dir(exists)) => if exists {
            Stage::Acquired { id: id@, reused: true }
        } else {
            Stage::AwaitMint { tried: 0 }
        },
        (Acquisition::AwaitMint { tried }, AcquireEvent::Minted { id, creation }) => match creation {
            Creation::Created => Stage::AwaitListing { id: id@ },
            Creation::Exists => if tried < 63 {
                Stage::AwaitMint { tried: (tried + 1) as u32 }
            } else {
                Stage::Failed { error: "could not mint a unique checkpoint generation id"@ }
            },
            Creation::Failed(e) => Stage::Failed { error: e@ },
        },
        (Acquisition::AwaitListing { id }, AcquireEvent::Listing(Ok(entries))) => Stage::AwaitWrite {
            id: id@,
            doomed: other_dirs(entries@, entries@.len(), id@),
        },
        (Acquisition::AwaitListing { id }, AcquireEvent::Listing(Err(e))) => Stage::Failed {
            error: e@,
        },
        (Acquisition::AwaitWrite { id, doomed }, AcquireEvent::Written(Ok(_))) => Stage::Acquired {
            id: id@,
            reused: false,
        },
        (Acquisition::AwaitWrite { id, doomed }, AcquireEvent::Written(Err(e))) => Stage::Failed {
            error: e@,
        },
        _ => s@,
    }
}

pub struct Generation;

fn hexadecimal(c: char) -> (r: bool)
    ensures
        r == is_hex(c),
{
    digit(c) || ('a' <= c && c <= 'f')
}

impl Generation {
    /// Whether a text is the identifier of a generation.
    pub fn is_valid_id(id: &str) -> (r: bool)
        ensures
            r == is_generation_id(id@),
    {
        let cs: Vec<char> = crate::text::chars_of(id);
        if cs.len() != 25 {
            return false;
        }
        assert(id@.take(16).len() == 16);
        assert(forall|k: int| 0 <= k < 16 ==> id@.take(16)[k] == #[trigger] id@[k]);
        let mut i: usize = 0;
        while i < 25
            invariant
                i <= 25,
                cs@ == id@,
                id@.len() == 25,
                forall|k: int| 0 <= k < 8 && k < i ==> is_digit(#[trigger] id@[k]),
                8 < i ==> id@[8] == 'T',
                forall|k: int| 9 <= k < 15 && k < i ==> is_digit(#[trigger] id@[k]),
                15 < i ==> id@[15] == 'Z',
                16 < i ==> id@[16] == '-',
                forall|k: int| 17 <= k < i ==> is_hex(#[trigger] id@[k]),
            decreases 25 - i,
        {
            let c: char = cs[i];
            let good: bool = if i == 8 {
                c == 'T'
            } else if i == 15 {
                c == 'Z'
            } else if i == 16 {
                c == '-'
            } else if i < 16 {
                digit(c)
            } else {
                hexadecimal(c)
            };
            if !good {
                proof {
                    assert(id@.take(16).len() == 16);
                    if i < 16 {
                        assert(id@.take(16)[i as int] == id@[i as int]);
                    }
                }
                return false;
            }
            i = i + 1;
        }
        true
    }

    /// The state that was left, where it can be trusted.
    pub fn read_state(state: Option<State>) -> (r: Option<State>)
        ensures
            state_view(r) == trusted(state_view(state)),
    {
        match state {
            Some(s) => {
                if Self::is_valid_id(&s.id) && (same(&s.status, "active") || same(
                    &s.status,
                    "complete",
                )) {
                    Some(s)
                } else {
                    None
                }
            },
            None => None,
        }
    }

    /// The identifier that a time stamp and a number give.
    pub fn stamped_id(stamp: &str, random: u32) -> (r: String)
        ensures
            r@ == stamped(stamp@, random),
    {
        let bytes: [u8; 4] = [
            (random / 16777216) as u8,
            (random / 65536 % 256) as u8,
            (random / 256 % 256) as u8,
            (random % 256) as u8,
        ];
        assert(bytes@ =~= bytes_of(random));
        cat3(stamp, "-", &hex_string(&bytes))
    }

    /// The identifier that a second and a number give: seconds count from 1970.
    pub fn mint_id(secs: i64, random: u32) -> (r: Option<String>)
        ensures
            opt(r) == minted(secs, random),
            0 <= secs <= LAST_SECOND ==> r is Some && is_generation_id(r->0@),
    {
        match format_utc(secs, STAMP) {
            Some(stamp) => {
                proof {
                    if 0 <= secs <= LAST_SECOND {
                        lemma_minted_is_valid(stamp@, random);
                    }
                }
                Some(Self::stamped_id(&stamp, random))
            },
            None => None,
        }
    }

    fn doomed_dirs(entries: &Vec<DirEntry>, id: &str) -> (r: Vec<String>)
        ensures
            views(r@) == other_dirs(entries@, entries@.len(), id@),
    {
        let mut out: Vec<String> = Vec::new();
        let mut i: usize = 0;
        proof {
            crate::text::lemma_views_empty();
        }
        while i < entries.len()
            invariant
                i <= entries.len(),
                views(out@) == other_dirs(entries@, i as nat, id@),
            decreases entries.len() - i,
        {
            if entries[i].is_dir && !same(&entries[i].name, id) {
                out.push(entries[i].name.clone());
            }
            i = i + 1;
        }
        out
    }

    /// Takes the answer to what acquiring a generation waits for.
    pub fn acquire(s: Acquisition, event: AcquireEvent) -> (r: Acquisition)
        ensures
            r@ == next_stage(s, event),
    {
        match s {
            Acquisition::AwaitState => match event {
                AcquireEvent::State(state) => match Self::read_state(state) {
                    Some(x) => if same(&x.status, "active") {
                        Acquisition::AwaitDir { id: x.id }
                    } else {
                        Acquisition::AwaitMint { tried: 0 }
                    },
                    None => Acquisition::AwaitMint { tried: 0 },
                },
                _ => Acquisition::AwaitState,
            },
            Acquisition::AwaitDir { id } => match event {
                AcquireEvent::Dir(exists) => if exists {
                    Acquisition::Done(Ok(AcquiredGeneration { id, reused: true }))
                } else {
                    Acquisition::AwaitMint { tried: 0 }
                },
                _ => Acquisition::AwaitDir { id },
            },
            Acquisition::AwaitMint { tried } => match event {
                AcquireEvent::Minted { id, creation } => match creation {
                    Creation::Created => Acquisition::AwaitListing { id },
                    Creation::Exists => if tried < 63 {
                        Acquisition::AwaitMint { tried: tried + 1 }
                    } else {
                        Acquisition::Done(
                            Err("could not mint a unique checkpoint generation id".to_owned()),
                        )
                    },
                    Creation::Failed(e) => Acquisition::Done(Err(e)),
                },
                _ => Acquisition::AwaitMint { tried },
            },
            Acquisition::AwaitListing { id } => match event {
                AcquireEvent::Listing(Ok(entries)) => {
                    let doomed: Vec<String> = Self::doomed_dirs(&entries, &id);
                    Acquisition::AwaitWrite { id, doomed }
                },
                AcquireEvent::Listing(Err(e)) => Acquisition::Done(Err(e)),
                _ => Acquisition::AwaitListing { id },
            },
            Acquisition::AwaitWrite { id, doomed } => match event {
                AcquireEvent::Written(Ok(_)) => Acquisition::Done(
                    Ok(AcquiredGeneration { id, reused: false }),
                ),
                AcquireEvent::Written(Err(e)) => Acquisition::Done(Err(e)),
                _ => Acquisition::AwaitWrite { id, doomed },
            },
            Acquisition::Done(outcome) => Acquisition::Done(outcome),
        }
    }

    /// The state to write once the directory of a new generation stands alone.
    pub fn active_state(id: String) -> (r: State)
        ensures
            r@ == active(id@),
    {
        State { id, status: "active".to_owned() }
    }

    /// The state to write once a run was published: the generation is retired. There
    /// must be one to retire.
    pub fn commit(state: Option<State>) -> (r: Result<State, CollectError>)
        ensures
            match trusted(state_view(state)) {
                Some(s) => r is Ok && r->Ok_0@ == retired(s),
                None => r is Err && r->Err_0@ == nothing_to_commit(),
            },
    {
        match Self::read_state(state) {
            Some(s) => Ok(State { id: s.id, status: "complete".to_owned() }),
            None => Err(
                CollectError::new(
                    ErrorKind::NotFound,
                    "no valid checkpoint generation to commit".to_owned(),
                ),
            ),
        }
    }
}

/// The error about a run without a generation.
pub open spec fn nothing_to_commit() -> Failure {
    Failure {
        kind: ErrorKind::NotFound,
        message: "no valid checkpoint generation to commit"@,
    }
}

pub open spec fn active(id: Seq<char>) -> StateText {
    StateText { id, status: "active"@ }
}

pub open spec fn retired(s: StateText) -> StateText {
    StateText { id: s.id, status: "complete"@ }
}

// ---------------------------------------------------------------------------
// Laws

/// A run that was interrupted resumes its generation: the state that acquiring a
/// generation leaves, and the directory that it made, give the same generation.
pub proof fn lemma_an_interrupted_run_resumes(state: State, id: String)
    requires
        is_generation_id(id@),
        state@ == active(id@),
    ensures
        next_stage(Acquisition::AwaitState, AcquireEvent::State(Some(state))) == (
        Stage::AwaitDir { id: id@ }),
        next_stage(Acquisition::AwaitDir { id }, AcquireEvent::Dir(true)) == (Stage::Acquired {
            id: id@,
            reused: true,
        }),
{
}

/// A generation that was retired is never resumed: a new one is minted.
pub proof fn lemma_a_retired_generation_stays_retired(before: StateText, state: State)
    requires
        state@ == retired(before),
    ensures
        next_stage(Acquisition::AwaitState, AcquireEvent::State(Some(state))) == (
        Stage::AwaitMint { tried: 0 }),
{
    reveal_strlit("active");
    reveal_strlit("complete");
    assert("active"@.len() == 6);
    assert("complete"@.len() == 8);
}

/// A state that cannot be trusted is not resumed, nor can it be retired.
pub proof fn lemma_untrusted_state_is_dropped(state: Option<State>)
    requires
        trusted(state_view(state)) is None,
    ensures
        next_stage(Acquisition::AwaitState, AcquireEvent::State(state)) == (Stage::AwaitMint {
            tried: 0,
        }),
{
}

/// The directory of the new generation is not among those that are removed, and
/// every other directory is.
pub proof fn lemma_only_other_dirs_are_removed(entries: Seq<DirEntry>, n: nat, id: Seq<char>)
    requires
        n <= entries.len(),
    ensures
        !other_dirs(entries, n, id).contains(id),
        forall|i: int|
            0 <= i < n && (#[trigger] entries[i]).is_dir && entries[i].name@ != id ==> other_dirs(
                entries,
                n,
                id,
            ).contains(entries[i].name@),
    decreases n,
{
    if n > 0 {
        lemma_only_other_dirs_are_removed(entries, (n - 1) as nat, id);
        let rest = other_dirs(entries, (n - 1) as nat, id);
        let e = entries[n - 1];
        if e.is_dir && e.name@ != id {
            let all = rest.push(e.name@);
            assert(all[rest.len() as int] == e.name@);
            assert forall|x: Seq<char>| rest.contains(x) implies all.contains(x) by {
                let k = choose|k: int| 0 <= k < rest.len() && rest[k] == x;
                assert(all[k] == x);
            }
            if all.contains(id) {
                let k = choose|k: int| 0 <= k < all.len() && all[k] == id;
                assert(k < rest.len());
                assert(rest[k] == id);
            }
        }
    }
}

} // verus!
