use imvi::files::{ImageContainer, ListedFile};
use imvi::paths::{extension, is_image_extension, is_image_file_name, join_path};

fn listed(name: &str, is_file: bool) -> ListedFile {
    ListedFile { name: name.to_string(), is_file }
}

#[test]
fn discovery_keeps_matching_files_in_order() {
    let listing = vec![
        listed("b.png", true),
        listed("notes.txt", true),
        listed("a.jpeg", true),
        listed("c.PNG", true),
        listed("dir.png", false),
        listed(".png", true),
        listed("d.webp", true),
        listed("Makefile", true),
    ];
    let c: ImageContainer<u32> = ImageContainer::load(&"pics".to_string(), &listing);
    let names: Vec<&str> = c.files().iter().map(|f| f.name.as_str()).collect();
    assert_eq!(names, vec!["b.png", "a.jpeg", "d.webp"]);
    assert_eq!(c.len(), 3);
    assert_eq!(c.index(), 0);
    assert_eq!(c.root(), "pics");
}

#[test]
fn discovery_is_repeatable() {
    let listing = vec![listed("x.gif", true), listed("y.bmp", true), listed("z.doc", true)];
    let a: ImageContainer<u32> = ImageContainer::load(&"d".to_string(), &listing);
    let b: ImageContainer<u32> = ImageContainer::load(&"d".to_string(), &listing);
    let na: Vec<String> = a.files().iter().map(|f| f.filename.clone()).collect();
    let nb: Vec<String> = b.files().iter().map(|f| f.filename.clone()).collect();
    assert_eq!(na, nb);
    assert_eq!(na, vec!["d/x.gif".to_string(), "d/y.bmp".to_string()]);
}

#[test]
fn discovery_of_nothing_is_empty() {
    let c: ImageContainer<u32> = ImageContainer::load(&"d".to_string(), &vec![]);
    assert!(c.is_empty());
    assert_eq!(c.index(), 0);
    assert!(c.get_texture().is_none());
}

#[test]
fn entries_know_their_paths() {
    let listing = vec![listed("cat.png", true)];
    let c: ImageContainer<u32> = ImageContainer::load(&"./test_data/".to_string(), &listing);
    let e = c.current();
    assert_eq!(e.filename, "./test_data/cat.png");
    assert_eq!(e.name, "cat.png");
    assert_eq!(e.thumbnail_file, "./test_data/_preview/cat.png");
    assert!(e.thumbnail.image.is_none());
    assert!(e.image.image.is_none());
}

#[test]
fn extensions_are_case_sensitive() {
    for ext in ["cur", "ico", "bmp", "pnm", "xpm", "xcf", "pcx", "gif", "jpg", "jpeg", "tif", "tiff", "png", "tga", "lbm", "xv", "webp"] {
        assert!(is_image_extension(ext), "{}", ext);
    }
    for ext in ["PNG", "Jpg", "", "pn", "pngg", "svg", "txt"] {
        assert!(!is_image_extension(ext), "{}", ext);
    }
}

#[test]
fn extension_follows_last_dot() {
    assert_eq!(extension("a.tar.gz"), Some("gz"));
    assert_eq!(extension("photo.png"), Some("png"));
    assert_eq!(extension("noext"), None);
    assert_eq!(extension(".hidden"), None);
    assert_eq!(extension("trailing."), Some(""));
    assert!(is_image_file_name("x.y.png"));
    assert!(!is_image_file_name(".png"));
    assert!(!is_image_file_name("x.PNG"));
}

#[test]
fn join_adds_separator_when_needed() {
    assert_eq!(join_path("a", "b"), "a/b");
    assert_eq!(join_path("a/", "b"), "a/b");
    assert_eq!(join_path("", "b"), "b");
}
