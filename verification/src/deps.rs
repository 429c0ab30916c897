//! Dependencies as package indexes write them: a name, and maybe an operator and
//! a version.

use crate::pattern::{group, group_at, group_or_empty, group_text, maybe_groups};
use crate::split::{trim, trimmed};
use vstd::prelude::*;

verus! {

/// A dependency on a package.
pub struct Dependency {
    pub name: String,
    pub operator: Option<String>,
    pub value: Option<String>,
}

/// What a [`Dependency`] says.
#[verifier::ext_equal]
pub struct Dep {
    pub name: Seq<char>,
    pub operator: Option<Seq<char>>,
    pub value: Option<Seq<char>>,
}

impl View for Dependency {
    type V = Dep;

    open spec fn view(&self) -> Dep {
        Dep {
            name: self.name@,
            operator: crate::text::opt(self.operator),
            value: crate::text::opt(self.value),
        }
    }
}

/// The dependency in `entry`, given the groups of a pattern that takes it apart:
/// name, operator and version. Where the pattern does not match, the whole entry
/// is the name. Without an operator there is no version.
pub open spec fn dependency_of(groups: Option<Seq<Option<Seq<char>>>>, entry: Seq<char>) -> Dep {
    match groups {
        Some(g) => Dep {
            name: group_text(g, 1),
            operator: group(g, 2),
            value: if group(g, 2) is Some {
                group(g, 3)
            } else {
                None
            },
        },
        None => Dep { name: entry, operator: None, value: None },
    }
}

/// Takes a dependency apart.
pub fn split_dependency(groups: &Option<Vec<Option<String>>>, entry: &str) -> (r: Dependency)
    ensures
        r@ == dependency_of(maybe_groups(*groups), entry@),
{
    match groups {
        Some(g) => {
            let operator: Option<String> = group_at(g, 2);
            let value: Option<String> = if operator.is_some() {
                group_at(g, 3)
            } else {
                None
            };
            Dependency { name: group_or_empty(g, 1), operator, value }
        },
        None => Dependency { name: entry.to_owned(), operator: None, value: None },
    }
}

/// The pattern of a name with an address in angle brackets.
pub const MAINTAINER: &'static str = r"^(.+?)\s*<(.+?)>$";

/// A name with an address.
pub struct Contact {
    pub name: String,
    pub email: String,
}

/// What a [`Contact`] says.
#[verifier::ext_equal]
pub struct Person {
    pub name: Seq<char>,
    pub email: Seq<char>,
}

impl View for Contact {
    type V = Person;

    open spec fn view(&self) -> Person {
        Person {
            name: self.name@,
            email: self.email@,
        }
    }
}

/// The views of a list of records.
pub open spec fn contact_views(v: Seq<Contact>) -> Seq<Person> {
    v.map_values(|x: Contact| x@)
}

/// The name and the address in the groups of [`MAINTAINER`].
pub open spec fn contact_of(groups: Option<Seq<Option<Seq<char>>>>) -> Option<Person> {
    match groups {
        Some(g) => Some(
            Person { name: trim(group_text(g, 1)), email: trim(group_text(g, 2)) },
        ),
        None => None,
    }
}

pub open spec fn contact_view(c: Option<Contact>) -> Option<Person> {
    match c {
        Some(x) => Some(x@),
        None => None,
    }
}

pub fn split_contact(groups: &Option<Vec<Option<String>>>) -> (r: Option<Contact>)
    ensures
        contact_view(r) == contact_of(maybe_groups(*groups)),
{
    match groups {
        Some(g) => Some(
            Contact { name: trimmed(&group_or_empty(g, 1)), email: trimmed(&group_or_empty(g, 2)) },
        ),
        None => None,
    }
}

} // verus!
