use pg_collect::checkpoint_generation::{
    AcquireEvent, AcquiredGeneration, Acquisition, Creation, DirEntry, Generation, State,
};
use pg_collect::failure::{CollectError, ErrorKind};
use std::collections::BTreeSet;

/// A directory of checkpoints in memory.
struct Output {
    dirs: BTreeSet<String>,
    state: Option<State>,
    random: u32,
    log: Vec<String>,
}

impl Output {
    fn new() -> Self {
        Output { dirs: BTreeSet::new(), state: None, random: 0, log: vec![] }
    }

    fn acquire(&mut self) -> Result<AcquiredGeneration, String> {
        let mut s = Acquisition::AwaitState;
        loop {
            let event = match &s {
                Acquisition::AwaitState => AcquireEvent::State(self.state.clone()),
                Acquisition::AwaitDir { id } => AcquireEvent::Dir(self.dirs.contains(id)),
                Acquisition::AwaitMint { .. } => {
                    let id = Generation::mint_id(1789088523, self.random).unwrap();
                    self.random += 1;
                    let creation = if self.dirs.insert(id.clone()) {
                        Creation::Created
                    } else {
                        Creation::Exists
                    };
                    AcquireEvent::Minted { id, creation }
                }
                Acquisition::AwaitListing { .. } => AcquireEvent::Listing(Ok(self
                    .dirs
                    .iter()
                    .map(|name| DirEntry { name: name.clone(), is_dir: true })
                    .collect())),
                Acquisition::AwaitWrite { id, doomed } => {
                    for name in doomed {
                        self.dirs.remove(name);
                        self.log.push(name.clone());
                    }
                    self.state = Some(Generation::active_state(id.clone()));
                    AcquireEvent::Written(Ok(()))
                }
                Acquisition::Done(_) => {
                    return match s {
                        Acquisition::Done(r) => r,
                        other => panic!("{other:?}"),
                    }
                }
            };
            s = Generation::acquire(s, event);
        }
    }

    fn commit(&mut self) -> Result<(), CollectError> {
        self.state = Some(Generation::commit(self.state.clone())?);
        Ok(())
    }
}

#[test]
fn fresh_dir_mints_a_valid_generation() {
    let mut d = Output::new();
    let g = d.acquire().unwrap();
    assert!(Generation::is_valid_id(&g.id), "minted id must be valid: {}", g.id);
    assert!(d.dirs.contains(&g.id));
}

#[test]
fn an_active_generation_is_reused() {
    let mut d = Output::new();
    let a = d.acquire().unwrap().id;
    let b = d.acquire().unwrap().id;
    assert_eq!(a, b, "an interrupted run must resume its own generation");
}

#[test]
fn commit_then_acquire_mints_a_new_generation_and_prunes_the_old() {
    let mut d = Output::new();
    let a = d.acquire().unwrap().id;
    d.commit().unwrap();
    let b = d.acquire().unwrap().id;
    assert_ne!(a, b);
    assert!(!d.dirs.contains(&a), "old generation must be pruned");
    assert!(d.dirs.contains(&b));
    assert_eq!(d.log, vec![a]);
}

#[test]
fn two_mints_in_the_same_second_do_not_collide() {
    let mut d = Output::new();
    let a = d.acquire().unwrap().id;
    d.commit().unwrap();
    let b = d.acquire().unwrap().id;
    d.commit().unwrap();
    let c = d.acquire().unwrap().id;
    assert_ne!(a, b);
    assert_ne!(b, c);
    assert_ne!(a, c);
}

#[test]
fn malformed_state_mints_fresh_instead_of_reusing() {
    let mut d = Output::new();
    let a = d.acquire().unwrap().id;
    d.state = None;
    let b = d.acquire().unwrap();
    assert_ne!(a, b.id, "unauthenticatable state must not be reused");
    assert!(Generation::is_valid_id(&b.id));
}

#[test]
fn a_traversal_id_in_state_is_rejected() {
    let mut d = Output::new();
    d.acquire().unwrap();
    d.state = Some(State { id: "../../etc".to_string(), status: "active".to_string() });
    d.dirs.insert("../../etc".to_string());
    let g = d.acquire().unwrap();
    assert!(Generation::is_valid_id(&g.id));
    assert!(!g.id.contains(".."), "id is used as a path component");
}

#[test]
fn id_validation_rejects_dangerous_and_malformed_values() {
    assert!(Generation::is_valid_id("20260912T010203Z-abcdef01"));
    for bad in [
        "",
        ".",
        "..",
        "../x",
        "a/b",
        "20260912T010203Z",
        "20260912T010203Z-ABCDEF01",
        "20260912T010203Z-abcdef0",
        "20260912T010203Z-abcdef012",
    ] {
        assert!(!Generation::is_valid_id(bad), "should reject {bad:?}");
    }
    assert!(!Generation::is_valid_id("20260912X010203Z-abcdef01"));
    assert!(!Generation::is_valid_id("20260912T0102033-abcdef01"));
    assert!(!Generation::is_valid_id("20260912T010203Z_abcdef01"));
}

#[test]
fn commit_without_a_generation_is_an_error_not_a_panic() {
    let mut d = Output::new();
    assert!(d.commit().is_err());
    let err = Generation::commit(None).err().unwrap();
    assert_eq!(err.kind, ErrorKind::NotFound);
    assert_eq!(err.message, "no valid checkpoint generation to commit");
}

#[test]
fn unknown_status_invalidates_state() {
    let mut d = Output::new();
    let a = d.acquire().unwrap().id;
    d.state = Some(State { id: a.clone(), status: "halfway".to_string() });
    let b = d.acquire().unwrap();
    assert_ne!(a, b.id);
}

#[test]
fn acquire_reports_whether_it_reused_or_minted() {
    let mut d = Output::new();
    let first = d.acquire().unwrap();
    assert!(!first.reused, "a fresh directory mints");
    let second = d.acquire().unwrap();
    assert!(second.reused, "an active generation is reused");
    d.commit().unwrap();
    let third = d.acquire().unwrap();
    assert!(!third.reused, "a committed generation is retired, not reused");
}

#[test]
fn an_active_generation_without_a_directory_is_not_reused() {
    let mut d = Output::new();
    let a = d.acquire().unwrap().id;
    d.dirs.clear();
    let b = d.acquire().unwrap();
    assert!(!b.reused);
    assert_ne!(a, b.id);
}

#[test]
fn an_identifier_is_made_of_the_time_and_a_number() {
    assert_eq!(
        Generation::mint_id(0, 0xdead_beef).unwrap(),
        "19700101T000000Z-deadbeef"
    );
    assert_eq!(Generation::mint_id(1789088523, 1).unwrap(), "20260911T010203Z-00000001");
    assert!(Generation::mint_id(i64::MAX, 1).is_none());
    assert_eq!(
        Generation::stamped_id("20260912T010203Z", 0xabcd_ef01),
        "20260912T010203Z-abcdef01"
    );
}

#[test]
fn minting_gives_up_after_some_tries() {
    let mut s = Acquisition::AwaitMint { tried: 0 };
    let mut tries = 0;
    while let Acquisition::AwaitMint { .. } = s {
        tries += 1;
        let event = AcquireEvent::Minted { id: "x".to_string(), creation: Creation::Exists };
        s = Generation::acquire(s, event);
    }
    assert_eq!(tries, 64);
    assert_eq!(
        s,
        Acquisition::Done(Err("could not mint a unique checkpoint generation id".to_string()))
    );
    let failed = AcquireEvent::Minted {
        id: "x".to_string(),
        creation: Creation::Failed("disk full".to_string()),
    };
    assert_eq!(
        Generation::acquire(Acquisition::AwaitMint { tried: 3 }, failed),
        Acquisition::Done(Err("disk full".to_string()))
    );
}

#[test]
fn files_beside_the_generation_stay() {
    let s = Acquisition::AwaitListing { id: "b".to_string() };
    let entries = vec![
        DirEntry { name: "a".to_string(), is_dir: true },
        DirEntry { name: "GENERATION".to_string(), is_dir: false },
        DirEntry { name: "b".to_string(), is_dir: true },
    ];
    assert_eq!(
        Generation::acquire(s, AcquireEvent::Listing(Ok(entries))),
        Acquisition::AwaitWrite { id: "b".to_string(), doomed: vec!["a".to_string()] }
    );
}
