//! Directory listings.
use vstd::prelude::*;

verus! {

/// The `list_directory` tool.
pub struct ListDirectory;

impl ListDirectory {
    /// The tool's name.
    pub fn name() -> (r: &'static str)
        ensures
            r@ == "list_directory"@,
    {
        "list_directory"
    }

    /// The tool's description.
    pub fn description() -> (r: &'static str)
        ensures
            r@ == "List directory contents with optional recursion and pattern filtering. Prefer native Bash ls for general listings; use this for MCP workspace-scoped directory browsing."@,
    {
        "List directory contents with optional recursion and pattern filtering. Prefer native Bash ls for general listings; use this for MCP workspace-scoped directory browsing."
    }
}

/// An entry of a directory listing.
#[derive(Debug)]
pub struct Entry {
    pub name: String,
    pub path: String,
    pub is_dir: bool,
    pub size: Option<u64>,
}

/// A directory listing.
#[derive(Debug)]
pub struct Output {
    pub entries: Vec<Entry>,
    pub error: Option<String>,
}

/// The sort key of an entry: directories first, then the lowercase name.
pub open spec fn entry_key(x: Entry) -> Seq<u32> {
    seq![if x.is_dir {
        0u32
    } else {
        1u32
    }] + crate::order::codes(crate::text::lower(x.name@))
}

/// The sort keys of the entries.
pub open spec fn entry_keys(xs: Seq<Entry>) -> Seq<Seq<u32>> {
    xs.map_values(|x: Entry| entry_key(x))
}

/// `a` and `b` hold the same an entry.
pub open spec fn same_entry(a: Entry, b: Entry) -> bool {
    a.name@ == b.name@ && a.path@ == b.path@ && a.is_dir == b.is_dir && a.size == b.size
}

fn copy_entry(x: &Entry) -> (r: Entry)
    ensures
        same_entry(r, *x),
{
    Entry { name: x.name.clone(), path: x.path.clone(), is_dir: x.is_dir, size: x.size }
}

/// The entries with directories first, then by lowercase name, stably.
pub fn sort_entries(items: &Vec<Entry>) -> (r: Vec<Entry>)
    ensures
        exists|p: Seq<int>|
            #[trigger] crate::order::stable_order(entry_keys(items@), p) && r@.len() == p.len() && forall|i: int|
                0 <= i < p.len() ==> same_entry(#[trigger] r@[i], items@[p[i]]),
{
    let mut keys: Vec<Vec<u32>> = Vec::new();
    let mut i: usize = 0;
    while i < items.len()
        invariant
            i <= items@.len(),
            keys@.len() == i,
            forall|q: int| 0 <= q < i ==> (#[trigger] keys@[q])@ == entry_key(items@[q]),
        decreases items@.len() - i,
    {
        let mut key: Vec<u32> = Vec::new();
        key.push(if items[i].is_dir {
            0u32
        } else {
            1u32
        });
        let lowered = crate::text::lowercase_chars(crate::text::chars_of(items[i].name.as_str()).as_slice());
        let codes = crate::order::char_codes(lowered.as_slice());
        let mut c: usize = 0;
        while c < codes.len()
            invariant
                c <= codes@.len(),
                key@ == seq![if items@[i as int].is_dir {
                    0u32
                } else {
                    1u32
                }] + codes@.take(c as int),
            decreases codes@.len() - c,
        {
            proof {
                assert(codes@.take(c + 1) =~= codes@.take(c as int).push(codes@[c as int]));
            }
            key.push(codes[c]);
            c = c + 1;
        }
        proof {
            assert(codes@.take(c as int) =~= codes@);
        }
        keys.push(key);
        i = i + 1;
    }
    let order = crate::order::stable_sort_order(&keys);
    let ghost ks = keys@.map_values(|k: Vec<u32>| k@);
    proof {
        assert(ks =~= entry_keys(items@));
    }
    let mut r: Vec<Entry> = Vec::new();
    let mut j: usize = 0;
    while j < order.len()
        invariant
            j <= order@.len(),
            crate::order::stable_order(ks, order@.map_values(|i: usize| i as int)),
            ks.len() == items@.len(),
            r@.len() == j,
            forall|q: int| 0 <= q < j ==> same_entry(#[trigger] r@[q], items@[order@[q] as int]),
        decreases order@.len() - j,
    {
        proof {
            assert(order@.map_values(|i: usize| i as int)[j as int] == order@[j as int] as int);
        }
        r.push(copy_entry(&items[order[j]]));
        j = j + 1;
    }
    proof {
        let p = order@.map_values(|i: usize| i as int);
        assert forall|q: int| 0 <= q < p.len() implies same_entry(#[trigger] r@[q], items@[p[q]]) by {
            assert(p[q] == order@[q] as int);
        }
        assert(crate::order::stable_order(entry_keys(items@), p));
    }
    r
}

/// Whether an entry named `name` is listed under the filter `pattern`: with
/// no filter every entry is, else those whose lowercase name contains the
/// lowercase filter.
pub fn name_selected(name: &str, pattern: Option<&str>) -> (b: bool)
    ensures
        pattern is None ==> b,
        pattern matches Some(p) ==> b == crate::text::contains(
            crate::text::lower(name@),
            crate::text::lower(p@),
        ),
{
    match pattern {
        None => true,
        Some(p) => {
            let n = crate::text::lowercase_chars(crate::text::chars_of(name).as_slice());
            let q = crate::text::lowercase_chars(crate::text::chars_of(p).as_slice());
            crate::text::contains_seq(n.as_slice(), q.as_slice())
        },
    }
}

} // verus!
