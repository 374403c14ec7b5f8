//! The `ls` built-in: renders directory listings. The filesystem itself is
//! consulted by the caller, which hands in one `Listing` per requested
//! path; this module turns them into output text. A path that cannot be
//! read, a path that is not a directory, and an entry whose name is not
//! representable as text each produce a standard-error line and never abort
//! the listing. Flags are accepted but have no effect.
use vstd::prelude::*;

verus! {

use crate::outputhandler::OutputHandler;
use vstd::string::StringExecFns;

/// One directory entry as the filesystem reports it: a textual name, or a
/// name that cannot be represented as text.
pub enum EntryName {
    Text(String),
    NonText,
}

/// Ghost image of `EntryName`.
pub enum EntryNameV {
    Text(Seq<char>),
    NonText,
}

impl View for EntryName {
    type V = EntryNameV;

    open spec fn view(&self) -> EntryNameV {
        match self {
            EntryName::Text(n) => EntryNameV::Text(n@),
            EntryName::NonText => EntryNameV::NonText,
        }
    }
}

/// The ghost images of a sequence of entry names.
pub open spec fn entry_views(v: Seq<EntryName>) -> Seq<EntryNameV> {
    Seq::new(v.len(), |i: int| v[i]@)
}

/// What the filesystem reported for one requested path.
pub enum Listing {
    Inaccessible { label: String },
    NotDirectory { label: String },
    Directory { label: String, entries: Vec<EntryName> },
}

/// Ghost image of `Listing`.
pub enum ListingV {
    Inaccessible { label: Seq<char> },
    NotDirectory { label: Seq<char> },
    Directory { label: Seq<char>, entries: Seq<EntryNameV> },
}

impl View for Listing {
    type V = ListingV;

    open spec fn view(&self) -> ListingV {
        match self {
            Listing::Inaccessible { label } => ListingV::Inaccessible { label: label@ },
            Listing::NotDirectory { label } => ListingV::NotDirectory { label: label@ },
            Listing::Directory { label, entries } => ListingV::Directory {
                label: label@,
                entries: entry_views(entries@),
            },
        }
    }
}

/// The ghost images of a sequence of listings.
pub open spec fn listing_views(v: Seq<Listing>) -> Seq<ListingV> {
    Seq::new(v.len(), |i: int| v[i]@)
}

/// The effect of rendering one directory entry on the output channels.
pub open spec fn ls_entry_effect(
    acc: (Seq<char>, Seq<char>),
    e: EntryNameV,
) -> (Seq<char>, Seq<char>) {
    match e {
        EntryNameV::Text(n) => (acc.0 + seq!['\n'] + n, acc.1),
        EntryNameV::NonText => (
            acc.0,
            acc.1 + seq!['\n'] + "Directory contains non-unicode filename"@,
        ),
    }
}

/// The effect of rendering a run of directory entries, left to right.
pub open spec fn ls_entries_effect(
    acc: (Seq<char>, Seq<char>),
    es: Seq<EntryNameV>,
) -> (Seq<char>, Seq<char>)
    decreases es.len(),
{
    if es.len() == 0 {
        acc
    } else {
        ls_entry_effect(ls_entries_effect(acc, es.drop_last()), es.last())
    }
}

/// The effect of rendering one listing: an error line for an unreadable or
/// non-directory path, otherwise the directory label, its entries, and a
/// closing blank line.
pub open spec fn ls_listing_effect(
    acc: (Seq<char>, Seq<char>),
    l: ListingV,
) -> (Seq<char>, Seq<char>) {
    match l {
        ListingV::Inaccessible { label } => (
            acc.0,
            acc.1 + seq!['\n'] + "Cannot access "@ + label,
        ),
        ListingV::NotDirectory { label } => (
            acc.0,
            acc.1 + seq!['\n'] + label + " is not a directory"@,
        ),
        ListingV::Directory { label, entries } => {
            let header = (acc.0 + seq!['\n'] + label + ": "@, acc.1);
            let listed = ls_entries_effect(header, entries);
            (listed.0 + seq!['\n'] + seq!['\n'], listed.1)
        },
    }
}

/// The effect of rendering a run of listings, left to right.
pub open spec fn ls_effect(
    acc: (Seq<char>, Seq<char>),
    ls: Seq<ListingV>,
) -> (Seq<char>, Seq<char>)
    decreases ls.len(),
{
    if ls.len() == 0 {
        acc
    } else {
        ls_listing_effect(ls_effect(acc, ls.drop_last()), ls.last())
    }
}

/// Renders the given listings into the handler.
pub fn execute(oh: &mut OutputHandler, listings: &Vec<Listing>)
    ensures
        (final(oh)@.stdout, final(oh)@.stderr) == ls_effect(
            (old(oh)@.stdout, old(oh)@.stderr),
            listing_views(listings@),
        ),
{
    let ghost init = (old(oh)@.stdout, old(oh)@.stderr);
    let ghost lv = listing_views(listings@);
    let mut i: usize = 0;
    while i < listings.len()
        invariant
            i <= listings@.len(),
            lv == listing_views(listings@),
            (oh@.stdout, oh@.stderr) == ls_effect(init, lv.take(i as int)),
        decreases listings@.len() - i,
    {
        proof {
            assert(lv.take(i as int + 1).drop_last() =~= lv.take(i as int));
            assert(lv.take(i as int + 1).last() == lv[i as int]);
            assert(lv[i as int] == listings@[i as int]@);
        }
        let ghost before = (oh@.stdout, oh@.stderr);
        match &listings[i] {
            Listing::Inaccessible { label } => {
                proof {
                    reveal_strlit("Cannot access ");
                }
                let mut m = String::from_str("Cannot access ");
                m.append(label.as_str());
                oh.add_stderr(m);
                proof {
                    assert((oh@.stdout, oh@.stderr) == ls_listing_effect(before, lv[i as int]));
                }
            },
            Listing::NotDirectory { label } => {
                proof {
                    reveal_strlit(" is not a directory");
                }
                let mut m = label.clone();
                m.append(" is not a directory");
                oh.add_stderr(m);
                proof {
                    assert((oh@.stdout, oh@.stderr) == ls_listing_effect(before, lv[i as int]));
                }
            },
            Listing::Directory { label, entries } => {
                proof {
                    reveal_strlit(": ");
                    reveal_strlit("\n");
                }
                let mut m = label.clone();
                m.append(": ");
                oh.add_stdout(m);
                proof {
                    assert(oh@.stdout =~= before.0 + seq!['\n'] + label@ + ": "@);
                }
                let ghost header = (oh@.stdout, oh@.stderr);
                let ghost ev = entry_views(entries@);
                let mut j: usize = 0;
                while j < entries.len()
                    invariant
                        j <= entries@.len(),
                        ev == entry_views(entries@),
                        (oh@.stdout, oh@.stderr) == ls_entries_effect(header, ev.take(j as int)),
                    decreases entries@.len() - j,
                {
                    proof {
                        assert(ev.take(j as int + 1).drop_last() =~= ev.take(j as int));
                        assert(ev.take(j as int + 1).last() == ev[j as int]);
                        assert(ev[j as int] == entries@[j as int]@);
                    }
                    match &entries[j] {
                        EntryName::Text(n) => {
                            oh.add_stdout(n.clone());
                        },
                        EntryName::NonText => {
                            oh.add_stderr_str("Directory contains non-unicode filename");
                        },
                    }
                    j += 1;
                }
                proof {
                    assert(ev.take(entries@.len() as int) =~= ev);
                }
                oh.add_stdout_str("\n");
                proof {
                    assert(oh@.stdout =~= ls_entries_effect(header, ev).0 + seq!['\n']
                        + seq!['\n']);
                    assert((oh@.stdout, oh@.stderr) == ls_listing_effect(before, lv[i as int]));
                }
            },
        }
        i += 1;
    }
    proof {
        assert(lv.take(listings@.len() as int) =~= lv);
    }
}

} // verus!
