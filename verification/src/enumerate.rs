//! Finding the files of a batch among the inputs that were named.
//!
//! The inputs are looked up by the caller: each is a directory with what it
//! holds, a file, or nothing at all. A directory gives the entries in it that
//! name RAW files, and only those: what lies deeper is never asked for. A
//! file is taken as it is. What does not exist is set aside for a warning.

use vstd::prelude::*;
use vstd::seq_lib::*;
use crate::order::{ordered, sort_paths};
use crate::path::{is_arw, names_raw_file, FilePath};

verus! {

/// One input of a batch, as the file system showed it.
#[derive(Debug, PartialEq, Eq)]
pub enum InputEntry {
    /// A directory, with the paths of the entries directly in it.
    Directory(Vec<FilePath>),
    /// A file.
    File(FilePath),
    /// A path at which there is nothing.
    Missing(FilePath),
}

/// The files of a batch, in the order of paths, and the inputs that do not
/// exist, in the order in which they were named.
#[derive(Debug, PartialEq, Eq)]
pub struct Enumeration {
    pub files: Vec<FilePath>,
    pub missing: Vec<FilePath>,
}

/// The entries that name RAW files, in their order.
pub open spec fn raw_files(entries: Seq<FilePath>) -> Seq<FilePath>
    decreases entries.len(),
{
    if entries.len() == 0 {
        Seq::empty()
    } else if names_raw_file(entries.last()@) {
        raw_files(entries.drop_last()).push(entries.last())
    } else {
        raw_files(entries.drop_last())
    }
}

/// The files that one input gives.
pub open spec fn found(entry: InputEntry) -> Seq<FilePath> {
    match entry {
        InputEntry::Directory(entries) => raw_files(entries@),
        InputEntry::File(path) => seq![path],
        InputEntry::Missing(_) => Seq::empty(),
    }
}

/// The files that the inputs give, input by input.
pub open spec fn candidates(inputs: Seq<InputEntry>) -> Seq<FilePath>
    decreases inputs.len(),
{
    if inputs.len() == 0 {
        Seq::empty()
    } else {
        candidates(inputs.drop_last()) + found(inputs.last())
    }
}

/// The inputs that do not exist, in their order.
pub open spec fn missing_paths(inputs: Seq<InputEntry>) -> Seq<FilePath>
    decreases inputs.len(),
{
    if inputs.len() == 0 {
        Seq::empty()
    } else {
        match inputs.last() {
            InputEntry::Missing(path) => missing_paths(inputs.drop_last()).push(path),
            _ => missing_paths(inputs.drop_last()),
        }
    }
}

/// A directory gives exactly those of its entries that name RAW files.
pub proof fn lemma_raw_files_are_entries(entries: Seq<FilePath>, path: FilePath)
    ensures
        raw_files(entries).contains(path) <==> entries.contains(path) && names_raw_file(path@),
    decreases entries.len(),
{
    if entries.len() > 0 {
        let rest: Seq<FilePath> = entries.drop_last();
        let last: FilePath = entries.last();
        lemma_raw_files_are_entries(rest, path);
        assert(entries =~= rest.push(last));
        if entries.contains(path) {
            let i: int = choose|i: int| 0 <= i < entries.len() && entries[i] == path;
            if i < rest.len() {
                assert(rest[i] == path);
            }
        }
        if rest.contains(path) {
            let i: int = choose|i: int| 0 <= i < rest.len() && rest[i] == path;
            assert(entries[i] == path);
        }
        if names_raw_file(last@) {
            let found: Seq<FilePath> = raw_files(rest).push(last);
            assert(found.last() == last);
            if raw_files(rest).contains(path) {
                let i: int = choose|i: int| 0 <= i < raw_files(rest).len() && raw_files(rest)[i]
                    == path;
                assert(found[i] == path);
            }
            if found.contains(path) {
                let i: int = choose|i: int| 0 <= i < found.len() && found[i] == path;
                if i < raw_files(rest).len() {
                    assert(raw_files(rest)[i] == path);
                }
            }
        }
        assert(entries[entries.len() - 1] == last);
    }
}

/// Every file of a batch was handed in: it is an input that is a file, or an
/// entry of the listing of an input that is a directory, with a name of a
/// RAW file. Nothing that lies deeper than a listing is ever found.
pub proof fn lemma_files_come_from_inputs(inputs: Seq<InputEntry>, path: FilePath)
    ensures
        candidates(inputs).contains(path) <==> exists|i: int|
            0 <= i < inputs.len() && #[trigger] found(inputs[i]).contains(path),
        forall|entries: Vec<FilePath>|
            found(InputEntry::Directory(entries)).contains(path) <==> entries@.contains(path)
                && names_raw_file(path@),
        forall|file: FilePath| found(InputEntry::File(file)).contains(path) <==> file == path,
        forall|gone: FilePath| !found(InputEntry::Missing(gone)).contains(path),
    decreases inputs.len(),
{
    assert forall|entries: Vec<FilePath>|
        found(InputEntry::Directory(entries)).contains(path) <==> entries@.contains(path)
            && names_raw_file(path@) by {
        lemma_raw_files_are_entries(entries@, path);
    }
    assert forall|file: FilePath| found(InputEntry::File(file)).contains(path) <==> file
        == path by {
        assert(seq![file][0] == file);
    }
    if inputs.len() > 0 {
        let rest: Seq<InputEntry> = inputs.drop_last();
        let last: InputEntry = inputs.last();
        let all: Seq<FilePath> = candidates(rest) + found(last);
        lemma_files_come_from_inputs(rest, path);
        if all.contains(path) {
            let k: int = choose|k: int| 0 <= k < all.len() && all[k] == path;
            if k < candidates(rest).len() {
                assert(candidates(rest)[k] == path);
                let i: int = choose|i: int|
                    0 <= i < rest.len() && #[trigger] found(rest[i]).contains(path);
                assert(found(inputs[i]).contains(path));
            } else {
                assert(found(last)[k - candidates(rest).len()] == path);
                assert(found(inputs[inputs.len() - 1]).contains(path));
            }
        }
        if exists|i: int| 0 <= i < inputs.len() && #[trigger] found(inputs[i]).contains(path) {
            let i: int = choose|i: int|
                0 <= i < inputs.len() && #[trigger] found(inputs[i]).contains(path);
            if i < rest.len() {
                assert(found(rest[i]).contains(path));
                let k: int = choose|k: int|
                    0 <= k < candidates(rest).len() && candidates(rest)[k] == path;
                assert(all[k] == path);
            } else {
                let k: int = choose|k: int| 0 <= k < found(last).len() && found(last)[k] == path;
                assert(all[candidates(rest).len() + k] == path);
            }
        }
    }
}

/// Moves the entries that name RAW files behind `files`.
fn take_raw_files(entries: Vec<FilePath>, files: &mut Vec<FilePath>)
    ensures
        final(files)@ == old(files)@ + raw_files(entries@),
{
    let mut rest: Vec<FilePath> = entries;
    let ghost mut seen: int = 0;
    assert(entries@.take(0) =~= Seq::<FilePath>::empty());
    assert(files@ + raw_files(entries@.take(0)) =~= files@);
    while rest.len() > 0
        invariant
            0 <= seen <= entries@.len(),
            rest@ == entries@.skip(seen),
            files@ == old(files)@ + raw_files(entries@.take(seen)),
        decreases rest@.len(),
    {
        let entry: FilePath = rest.remove(0);
        proof {
            assert(entries@.take(seen + 1).drop_last() =~= entries@.take(seen));
            assert(entries@.take(seen + 1).last() == entry);
            assert(rest@ =~= entries@.skip(seen + 1));
        }
        if is_arw(&entry) {
            files.push(entry);
            assert(files@ =~= old(files)@ + raw_files(entries@.take(seen + 1)));
        }
        proof {
            seen = seen + 1;
        }
    }
    assert(entries@.take(seen) =~= entries@);
}

/// Collects the files of a batch from its inputs: from a directory the
/// entries that name RAW files, a file as it is, and of what does not exist
/// nothing but its path, for a warning. The files come sorted in the order
/// of paths; none is added and none is lost.
pub fn collect_arw_files(inputs: Vec<InputEntry>) -> (r: Enumeration)
    ensures
        r.files@.to_multiset() == candidates(inputs@).to_multiset(),
        ordered(r.files@),
        r.missing@ == missing_paths(inputs@),
{
    let mut rest: Vec<InputEntry> = inputs;
    let mut files: Vec<FilePath> = Vec::new();
    let mut missing: Vec<FilePath> = Vec::new();
    let ghost mut seen: int = 0;
    assert(inputs@.take(0) =~= Seq::<InputEntry>::empty());
    while rest.len() > 0
        invariant
            0 <= seen <= inputs@.len(),
            rest@ == inputs@.skip(seen),
            files@ == candidates(inputs@.take(seen)),
            missing@ == missing_paths(inputs@.take(seen)),
        decreases rest@.len(),
    {
        let entry: InputEntry = rest.remove(0);
        proof {
            assert(inputs@.take(seen + 1).drop_last() =~= inputs@.take(seen));
            assert(inputs@.take(seen + 1).last() == entry);
            assert(rest@ =~= inputs@.skip(seen + 1));
        }
        match entry {
            InputEntry::Directory(entries) => {
                take_raw_files(entries, &mut files);
            },
            InputEntry::File(path) => {
                files.push(path);
                assert(files@ =~= candidates(inputs@.take(seen + 1)));
            },
            InputEntry::Missing(path) => {
                missing.push(path);
                assert(files@ =~= candidates(inputs@.take(seen + 1)));
            },
        }
        proof {
            seen = seen + 1;
        }
    }
    assert(inputs@.take(seen) =~= inputs@);
    Enumeration { files: sort_paths(files), missing }
}

} // verus!
