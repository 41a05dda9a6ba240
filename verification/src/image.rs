//! The random picker: one regular file out of a directory listing.

use crate::listing::{file_path, file_paths, Item, Listing};
use rand::seq::SliceRandom;
use vstd::prelude::*;

verus! {

/// The image that was selected for one request.
#[derive(Debug, PartialEq, Eq)]
pub struct Image {
    /// Path of the selected file, as the listing gave it.
    pub path: String,
}

impl View for Image {
    type V = Seq<char>;

    open spec fn view(&self) -> Seq<char> {
        self.path@
    }
}

/// No file could be selected: the directory holds no regular file, or it
/// could not be read.
#[derive(Debug, Clone, Copy, PartialEq, Eq)]
pub struct NotFoundError;

impl NotFoundError {
    /// The text that describes the error.
    pub fn message(&self) -> (text: String)
        ensures
            text@ == "No images found"@,
    {
        "No images found".to_owned()
    }
}

/// The views of a sequence of strings.
pub open spec fn views(strings: Seq<String>) -> Seq<Seq<char>> {
    strings.map_values(|s: String| s@)
}

/// Draws one element of `items` with `rand::seq::SliceRandom::choose`, on the
/// generator that `rand::thread_rng` returns.
///
/// Trusted, not proved: the draw gives nothing exactly when `items` is empty,
/// and what it gives otherwise is a reference to one of the elements. Which
/// element comes out is left open, so nothing is claimed about it. The
/// generator is seeded from the operating system when a thread first uses it
/// and panics if that seeding fails.
#[verifier::external_body]
fn choose_random<T>(items: &Vec<T>) -> (picked: Option<&T>)
    ensures
        picked is None <==> items@.len() == 0,
        picked matches Some(element) ==> exists|i: int|
            0 <= i < items@.len() && items@[i] == *element,
{
    items.choose(&mut rand::thread_rng())
}

/// Collects the paths of the regular files of `listing`, in listing order.
/// Items that are unreadable or that are no regular file are left out; a
/// failed read gives no path.
pub fn regular_files(listing: &Listing) -> (paths: Vec<String>)
    ensures
        views(paths@) == listing.eligible(),
{
    let mut paths: Vec<String> = Vec::new();
    match listing {
        Listing::Failed => {
            assert(views(paths@) =~= file_paths(Seq::<Item>::empty()));
        },
        Listing::Read(items) => {
            let mut i: usize = 0;
            assert(views(paths@) =~= file_paths(items@.take(0)));
            while i < items.len()
                invariant
                    i <= items.len(),
                    views(paths@) == file_paths(items@.take(i as int)),
                decreases items.len() - i,
            {
                let ghost before = paths@;
                match &items[i] {
                    Item::Entry { path, is_file } => {
                        if *is_file {
                            paths.push(path.clone());
                        }
                    },
                    Item::Unreadable => {},
                }
                proof {
                    items@.lemma_filter_map_take_succ(|item: Item| file_path(item), i as int);
                    match file_path(items@[i as int]) {
                        Some(p) => {
                            assert(views(paths@) =~= views(before) + seq![p]);
                        },
                        None => {},
                    }
                }
                i += 1;
            }
            assert(items@.take(items.len() as int) =~= items@);
        },
    }
    paths
}

impl Image {
    /// An image at `path`.
    pub fn new(path: String) -> (image: Image)
        ensures
            image.path == path,
    {
        Image { path }
    }

    /// Turns the outcome of a draw into the picker's result: the drawn path
    /// becomes the image, and a draw that gave nothing is the error.
    pub fn from_choice(choice: Option<&String>) -> (result: Result<Image, NotFoundError>)
        ensures
            match choice {
                Some(path) => result matches Ok(image) && image@ == path@,
                None => result is Err,
            },
    {
        match choice {
            Some(path) => Ok(Image::new(path.clone())),
            None => Err(NotFoundError),
        }
    }

    /// Picks one regular file of `directory` at random.
    ///
    /// Succeeds exactly when the listing holds a regular file, and the image
    /// is then one of the eligible paths. A failed read and a directory
    /// without regular files both give [`NotFoundError`].
    pub fn random_from_directory(directory: &Listing) -> (result: Result<Image, NotFoundError>)
        ensures
            result is Err <==> directory.eligible().len() == 0,
            result matches Ok(image) ==> directory.eligible().contains(image@),
    {
        let files = regular_files(directory);
        let choice = choose_random(&files);
        proof {
            if let Some(path) = choice {
                let i = choose|i: int| 0 <= i < files@.len() && files@[i] == *path;
                assert(views(files@)[i] == path@);
            }
        }
        Image::from_choice(choice)
    }
}

} // verus!
