//! Decisions over directory listings: flattening a single wrapping directory
//! left by archive extraction, and choosing stale version directories to
//! purge after a successful install.

use vstd::prelude::*;
use vstd::string::StringExecFns;
use crate::text::{starts_with_sub, str_eq, prefix_of, views_of};

verus! {

/// One entry of a directory listing, reduced to its name and whether it is
/// itself a directory.
#[derive(Debug)]
pub struct DirEntry {
    pub name: String,
    pub is_dir: bool,
}

/// The listing-level model of an entry.
pub struct EntryModel {
    pub name: Seq<char>,
    pub is_dir: bool,
}

impl View for DirEntry {
    type V = EntryModel;

    open spec fn view(&self) -> EntryModel {
        EntryModel { name: self.name@, is_dir: self.is_dir }
    }
}

/// The models of a listing.
pub open spec fn listing_model(entries: Seq<DirEntry>) -> Seq<EntryModel> {
    entries.map_values(|e: DirEntry| e@)
}

/// Extraction produced a single wrapping directory that should be collapsed.
pub open spec fn nested_spec(entries: Seq<DirEntry>) -> bool {
    entries.len() == 1 && entries[0].is_dir
}

/// Decides whether an extracted listing needs flattening: exactly one entry
/// that is itself a directory.  Returns the name of that wrapping directory.
pub fn flatten_plan(entries: &Vec<DirEntry>) -> (r: Option<String>)
    ensures
        match r {
            Some(n) => nested_spec(entries@) && n@ == entries@[0].name@,
            None => !nested_spec(entries@),
        },
{
    if entries.len() == 1 && entries[0].is_dir {
        Some(entries[0].name.clone())
    } else {
        None
    }
}

/// The listing that flattening leaves behind: when extraction wrapped its
/// payload in a single directory, that directory's children stand in its
/// place; otherwise the listing is unchanged.
pub open spec fn flattened_spec(entries: Seq<DirEntry>, inner: Seq<DirEntry>) -> Seq<EntryModel> {
    if nested_spec(entries) {
        listing_model(inner)
    } else {
        listing_model(entries)
    }
}

/// Computes the post-flattening listing from the extracted listing and the
/// children of its sole entry (ignored unless that entry is a lone
/// directory).
pub fn flattened_listing(entries: &Vec<DirEntry>, inner: &Vec<DirEntry>) -> (r: Vec<DirEntry>)
    ensures
        listing_model(r@) == flattened_spec(entries@, inner@),
{
    let source: &Vec<DirEntry> = if entries.len() == 1 && entries[0].is_dir {
        inner
    } else {
        entries
    };
    let mut out: Vec<DirEntry> = Vec::new();
    let mut i: usize = 0;
    while i < source.len()
        invariant
            0 <= i <= source@.len(),
            out@.len() == i,
            listing_model(out@) =~~= listing_model(source@.take(i as int)),
        decreases source@.len() - i,
    {
        let ghost before = out@;
        out.push(DirEntry { name: source[i].name.clone(), is_dir: source[i].is_dir });
        assert forall|j: int| 0 <= j < i as int + 1 implies listing_model(out@)[j]
            == listing_model(source@.take(i as int + 1))[j] by {
            if j < i as int {
                assert(listing_model(before)[j] == listing_model(source@.take(i as int))[j]);
            }
        }
        assert(listing_model(out@) =~~= listing_model(source@.take(i as int + 1)));
        i += 1;
    }
    assert(source@.take(source@.len() as int) =~= source@);
    assert(listing_model(out@) =~~= listing_model(source@));
    out
}

/// A sibling directory is stale exactly when its name carries the version
/// prefix, differs from the just-installed directory, and it is a directory.
pub open spec fn stale_spec(e: EntryModel, current_dir: Seq<char>) -> bool {
    prefix_of(e.name, "flang-"@) && e.name != current_dir && e.is_dir
}

/// The names of the stale entries of a listing, in listing order.
pub open spec fn victims_spec(entries: Seq<DirEntry>, current_dir: Seq<char>) -> Seq<Seq<char>> {
    listing_model(entries).filter(|e: EntryModel| stale_spec(e, current_dir)).map_values(
        |e: EntryModel| e.name,
    )
}

/// Chooses the version directories to purge after a successful install: every
/// sibling named `flang-…` other than the directory just installed.  The
/// just-installed directory is never among the result.
pub fn cleanup_victims(entries: &Vec<DirEntry>, current_dir: &str) -> (r: Vec<String>)
    ensures
        views_of(r@) == victims_spec(entries@, current_dir@),
        forall|i: int| 0 <= i < r@.len() ==> (#[trigger] r@[i])@ != current_dir@,
{
    let mut out: Vec<String> = Vec::new();
    let mut i: usize = 0;
    while i < entries.len()
        invariant
            0 <= i <= entries@.len(),
            views_of(out@) =~~= victims_spec(entries@.take(i as int), current_dir@),
            forall|k: int| 0 <= k < out@.len() ==> (#[trigger] out@[k])@ != current_dir@,
        decreases entries@.len() - i,
    {
        let e = &entries[i];
        let stale = starts_with_sub(e.name.as_str(), "flang-") && !str_eq(
            e.name.as_str(),
            current_dir,
        ) && e.is_dir;
        let ghost before = out@;
        if stale {
            out.push(e.name.clone());
        }
        proof {
            let pred = |m: EntryModel| stale_spec(m, current_dir@);
            let pre = listing_model(entries@.take(i as int));
            let cur = listing_model(entries@.take(i as int + 1));
            assert(cur.drop_last() =~= pre);
            assert(cur.last() == entries@[i as int]@);
            reveal_with_fuel(Seq::<_>::filter, 2);
            assert(cur.filter(pred) == if pred(cur.last()) {
                pre.filter(pred).push(cur.last())
            } else {
                pre.filter(pred)
            });
            assert(stale == pred(entries@[i as int]@));
            assert(before.len() == pre.filter(pred).len()) by {
                assert(views_of(before).len() == victims_spec(
                    entries@.take(i as int),
                    current_dir@,
                ).len());
            }
            assert forall|j: int| 0 <= j < out@.len() implies views_of(out@)[j] == victims_spec(
                entries@.take(i as int + 1),
                current_dir@,
            )[j] by {
                if j < before.len() {
                    assert(views_of(before)[j] == victims_spec(
                        entries@.take(i as int),
                        current_dir@,
                    )[j]);
                }
            }
            assert(views_of(out@) =~~= victims_spec(entries@.take(i as int + 1), current_dir@));
        }
        i += 1;
    }
    assert(entries@.take(entries@.len() as int) =~= entries@);
    assert(views_of(out@) =~~= victims_spec(entries@, current_dir@));
    out
}

} // verus!
