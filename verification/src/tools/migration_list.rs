//! Reading migration numbers and names from `NNN_name.sql` file names.
use vstd::prelude::*;
use crate::text::{
    chars_of, ends_with, ends_with_str, find_first, first_occ, lines, lines_of, parse_unsigned,
    parse_unsigned_max, slice_copy, string_of,
};

verus! {

/// A migration file.
#[derive(Debug)]
pub struct Migration {
    pub number: u32,
    pub name: String,
    pub file_path: String,
    pub line_count: u32,
}

/// The number and name of a migration file name: the stem before `.sql`
/// split at its first `_`, the number read as a `u32`.
pub open spec fn migration_parts(file_name: Seq<char>) -> Option<(nat, Seq<char>)> {
    if !ends_with(file_name, ".sql"@) {
        None
    } else {
        let stem = file_name.take(file_name.len() - 4);
        match first_occ(stem, "_"@, 0) {
            None => None,
            Some(u) => match parse_unsigned(stem.take(u), u32::MAX as nat) {
                Some(n) => Some((n, stem.skip(u + 1))),
                None => None,
            },
        }
    }
}

/// The number and name of a migration file, if its name has the form.
pub fn parse_migration_name(file_name: &str) -> (r: Option<(u32, String)>)
    ensures
        match migration_parts(file_name@) {
            Some(p) => r matches Some(x) && x.0 == p.0 && x.1@ == p.1,
            None => r is None,
        },
{
    let fc = chars_of(file_name);
    proof {
        reveal_strlit(".sql");
        reveal_strlit("_");
    }
    if !ends_with_str(fc.as_slice(), ".sql") {
        return None;
    }
    let stem = slice_copy(fc.as_slice(), 0, fc.len() - 4);
    proof {
        assert(stem@ =~= file_name@.take(file_name@.len() - 4));
    }
    let us = chars_of("_");
    let u = match find_first(stem.as_slice(), us.as_slice()) {
        None => {
            return None;
        },
        Some(u) => u,
    };
    proof {
        crate::text::lemma_first_occ(stem@, "_"@, 0);
    }
    let sl = stem.len();
    assert(u < sl);
    let num = slice_copy(stem.as_slice(), 0, u);
    let name = slice_copy(stem.as_slice(), u + 1, sl);
    proof {
        assert(num@ =~= stem@.take(u as int));
        assert(name@ =~= stem@.skip(u + 1));
    }
    match parse_unsigned_max(num.as_slice(), 4294967295u64) {
        Some(n) => Some((n as u32, string_of(name.as_slice()))),
        None => None,
    }
}

/// The number of lines of a migration's text.
pub fn line_count(contents: &str) -> (n: u32)
    ensures
        n == lines_of(contents@).len() as u32,
{
    lines(chars_of(contents).as_slice()).len() as u32
}

/// The `migration_list` tool.
pub struct MigrationList;

impl MigrationList {
    /// The tool's name.
    pub fn name() -> (r: &'static str)
        ensures
            r@ == "migration_list"@,
    {
        "migration_list"
    }

    /// The tool's description.
    pub fn description() -> (r: &'static str)
        ensures
            r@ == "List SQL migration files (convention: NNN_name.sql)"@,
    {
        "List SQL migration files (convention: NNN_name.sql)"
    }
}

/// The sort key of a migration: its number.
pub open spec fn migration_key(x: Migration) -> Seq<u32> {
    seq![x.number]
}

/// The sort keys of the migrations.
pub open spec fn migration_keys(xs: Seq<Migration>) -> Seq<Seq<u32>> {
    xs.map_values(|x: Migration| migration_key(x))
}

/// `a` and `b` hold the same a migration.
pub open spec fn same_migration(a: Migration, b: Migration) -> bool {
    a.number == b.number && a.name@ == b.name@ && a.file_path@ == b.file_path@ && a.line_count == b.line_count
}

fn copy_migration(x: &Migration) -> (r: Migration)
    ensures
        same_migration(r, *x),
{
    Migration { number: x.number, name: x.name.clone(), file_path: x.file_path.clone(), line_count: x.line_count }
}

/// The migrations in order of their numbers, stably.
pub fn sort_by_number(items: &Vec<Migration>) -> (r: Vec<Migration>)
    ensures
        exists|p: Seq<int>|
            #[trigger] crate::order::stable_order(migration_keys(items@), p) && r@.len() == p.len() && forall|i: int|
                0 <= i < p.len() ==> same_migration(#[trigger] r@[i], items@[p[i]]),
{
    let mut keys: Vec<Vec<u32>> = Vec::new();
    let mut i: usize = 0;
    while i < items.len()
        invariant
            i <= items@.len(),
            keys@.len() == i,
            forall|q: int| 0 <= q < i ==> (#[trigger] keys@[q])@ == migration_key(items@[q]),
        decreases items@.len() - i,
    {
        let mut key: Vec<u32> = Vec::new();
        key.push(items[i].number);
        proof {
            assert(key@ =~= migration_key(items@[i as int]));
        }
        keys.push(key);
        i = i + 1;
    }
    let order = crate::order::stable_sort_order(&keys);
    let ghost ks = keys@.map_values(|k: Vec<u32>| k@);
    proof {
        assert(ks =~= migration_keys(items@));
    }
    let mut r: Vec<Migration> = Vec::new();
    let mut j: usize = 0;
    while j < order.len()
        invariant
            j <= order@.len(),
            crate::order::stable_order(ks, order@.map_values(|i: usize| i as int)),
            ks.len() == items@.len(),
            r@.len() == j,
            forall|q: int| 0 <= q < j ==> same_migration(#[trigger] r@[q], items@[order@[q] as int]),
        decreases order@.len() - j,
    {
        proof {
            assert(order@.map_values(|i: usize| i as int)[j as int] == order@[j as int] as int);
        }
        r.push(copy_migration(&items[order[j]]));
        j = j + 1;
    }
    proof {
        let p = order@.map_values(|i: usize| i as int);
        assert forall|q: int| 0 <= q < p.len() implies same_migration(#[trigger] r@[q], items@[p[q]]) by {
            assert(p[q] == order@[q] as int);
        }
        assert(crate::order::stable_order(migration_keys(items@), p));
    }
    r
}

} // verus!
