use random_image::image::{regular_files, Image, NotFoundError};
use random_image::listing::{Item, Listing};

fn file(path: &str) -> Item {
    Item::Entry { path: path.to_string(), is_file: true }
}

fn directory(path: &str) -> Item {
    Item::Entry { path: path.to_string(), is_file: false }
}

#[test]
fn new_keeps_the_path() {
    let image = Image::new("images/cat.png".to_string());
    assert_eq!(image.path, "images/cat.png");
}

#[test]
fn regular_files_keeps_files_in_listing_order() {
    let listing = Listing::Read(vec![
        file("images/b.png"),
        directory("images/thumbs"),
        Item::Unreadable,
        file("images/a.png"),
        directory("images/old"),
        file("images/c.png"),
    ]);
    assert_eq!(
        regular_files(&listing),
        vec!["images/b.png".to_string(), "images/a.png".to_string(), "images/c.png".to_string()]
    );
}

#[test]
fn regular_files_of_failed_read_is_empty() {
    assert_eq!(regular_files(&Listing::Failed), Vec::<String>::new());
    assert_eq!(regular_files(&Listing::Read(vec![])), Vec::<String>::new());
}

#[test]
fn pick_returns_only_listed_files_and_reaches_each() {
    let listing = Listing::Read(vec![file("images/a"), file("images/b"), file("images/c")]);
    let mut seen = [0usize; 3];
    for _ in 0..600 {
        let image = Image::random_from_directory(&listing).expect("a file is listed");
        match image.path.as_str() {
            "images/a" => seen[0] += 1,
            "images/b" => seen[1] += 1,
            "images/c" => seen[2] += 1,
            other => panic!("picked a path that is not listed: {}", other),
        }
    }
    assert_eq!(seen[0] + seen[1] + seen[2], 600);
    assert!(seen[0] > 0);
    assert!(seen[1] > 0);
    assert!(seen[2] > 0);
}

#[test]
fn pick_in_empty_directory_is_not_found_every_time() {
    let listing = Listing::Read(vec![]);
    for _ in 0..100 {
        assert_eq!(Image::random_from_directory(&listing), Err(NotFoundError));
    }
}

#[test]
fn pick_after_failed_read_is_not_found() {
    for _ in 0..100 {
        assert_eq!(Image::random_from_directory(&Listing::Failed), Err(NotFoundError));
    }
}

#[test]
fn pick_never_returns_a_directory() {
    let listing = Listing::Read(vec![
        directory("images/thumbs"),
        file("images/a.png"),
        directory("images/old"),
        file("images/b.png"),
        Item::Unreadable,
    ]);
    for _ in 0..400 {
        let image = Image::random_from_directory(&listing).expect("files are listed");
        assert!(image.path == "images/a.png" || image.path == "images/b.png");
    }
}

#[test]
fn pick_among_directories_only_is_not_found() {
    let listing = Listing::Read(vec![directory("images/thumbs"), Item::Unreadable, directory("images/old")]);
    for _ in 0..100 {
        assert_eq!(Image::random_from_directory(&listing), Err(NotFoundError));
    }
}

#[test]
fn pick_of_single_file_is_that_file() {
    let listing = Listing::Read(vec![directory("images/thumbs"), file("images/only.jpg")]);
    for _ in 0..50 {
        assert_eq!(
            Image::random_from_directory(&listing),
            Ok(Image::new("images/only.jpg".to_string()))
        );
    }
}

#[test]
fn from_choice_maps_both_outcomes() {
    let path = "images/cat.png".to_string();
    assert_eq!(Image::from_choice(Some(&path)), Ok(Image::new("images/cat.png".to_string())));
    assert_eq!(Image::from_choice(None), Err(NotFoundError));
}

#[test]
fn not_found_message() {
    assert_eq!(NotFoundError.message(), "No images found");
}
