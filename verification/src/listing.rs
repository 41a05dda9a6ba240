//! What a directory read produced, as plain values.

use vstd::prelude::*;

verus! {

/// One item that walking a directory produced.
#[derive(Debug)]
pub enum Item {
    /// The walk reported an error in place of an entry.
    Unreadable,
    /// An entry, with its path and whether the path names a regular file.
    Entry { path: String, is_file: bool },
}

/// The outcome of reading a directory's immediate entries.
#[derive(Debug)]
pub enum Listing {
    /// The directory could not be read at all.
    Failed,
    /// The directory was read; its items are in the order the walk gave them.
    Read(Vec<Item>),
}

/// The path of `item` if it is an entry that names a regular file.
pub open spec fn file_path(item: Item) -> Option<Seq<char>> {
    match item {
        Item::Entry { path, is_file } => if is_file {
            Some(path@)
        } else {
            None
        },
        Item::Unreadable => None,
    }
}

/// The paths of the regular files among `items`, in their order.
pub open spec fn file_paths(items: Seq<Item>) -> Seq<Seq<char>> {
    items.filter_map(|item: Item| file_path(item))
}

impl Listing {
    /// The items of the listing; a failed read has none.
    pub open spec fn items(self) -> Seq<Item> {
        match self {
            Listing::Failed => Seq::empty(),
            Listing::Read(items) => items@,
        }
    }

    /// The paths that may be picked: those of the regular files.
    pub open spec fn eligible(self) -> Seq<Seq<char>> {
        file_paths(self.items())
    }
}

/// A path is among the file paths exactly when some item is a regular file
/// with that path.
pub proof fn lemma_file_paths_contains(items: Seq<Item>, path: Seq<char>)
    ensures
        file_paths(items).contains(path) <==> exists|i: int|
            0 <= i < items.len() && file_path(#[trigger] items[i]) == Some(path),
    decreases items.len(),
{
    let f = |item: Item| file_path(item);
    if items.len() == 0 {
    } else {
        let rest = items.drop_last();
        let last = items.last();
        lemma_file_paths_contains(rest, path);
        let tail = match f(last) {
            Some(p) => seq![p],
            None => Seq::empty(),
        };
        assert(file_paths(items) =~= file_paths(rest) + tail);
        if file_paths(items).contains(path) {
            let k = choose|k: int| 0 <= k < file_paths(items).len() && file_paths(items)[k] == path;
            if k < file_paths(rest).len() {
                assert(file_paths(rest)[k] == path);
                assert(file_paths(rest).contains(path));
                let i = choose|i: int|
                    0 <= i < rest.len() && file_path(#[trigger] rest[i]) == Some(path);
                assert(items[i] == rest[i]);
            } else {
                assert(file_path(items[items.len() - 1]) == Some(path));
            }
        }
        if exists|i: int| 0 <= i < items.len() && file_path(#[trigger] items[i]) == Some(path) {
            let i = choose|i: int|
                0 <= i < items.len() && file_path(#[trigger] items[i]) == Some(path);
            if i < rest.len() {
                assert(rest[i] == items[i]);
                assert(file_paths(rest).contains(path));
                let k = choose|k: int| 0 <= k < file_paths(rest).len() && file_paths(rest)[k] == path;
                assert(file_paths(items)[k] == path);
            } else {
                assert(file_paths(items)[file_paths(rest).len() as int] == path);
            }
        }
    }
}

/// No path is eligible exactly when no item is a regular file.
pub proof fn lemma_file_paths_empty(items: Seq<Item>)
    ensures
        file_paths(items).len() == 0 <==> forall|i: int|
            0 <= i < items.len() ==> file_path(#[trigger] items[i]) is None,
{
    if file_paths(items).len() == 0 {
        assert forall|i: int| 0 <= i < items.len() implies file_path(#[trigger] items[i]) is None by {
            if file_path(items[i]) is Some {
                let p = file_path(items[i])->0;
                lemma_file_paths_contains(items, p);
                assert(file_paths(items).contains(p));
            }
        }
    } else {
        let p = file_paths(items)[0];
        assert(file_paths(items).contains(p));
        lemma_file_paths_contains(items, p);
    }
}

} // verus!
