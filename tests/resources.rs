use imvi::files::{ImageContainer, ListedFile, LoadError};
use imvi::images::Image;

fn collection(n: usize) -> ImageContainer<u32> {
    let listing: Vec<ListedFile> = (0..n).map(|i| ListedFile { name: format!("{}.jpg", i), is_file: true }).collect();
    ImageContainer::load(&"d".to_string(), &listing)
}

fn full_count(c: &ImageContainer<u32>) -> usize {
    c.files().iter().filter(|f| f.image.image.is_some()).count()
}

#[test]
fn corrupt_thumbnail_does_not_stop_others() {
    let mut c = collection(3);
    c.load_thumbnails(vec![Some(Image::from_surface(10, 4, 3)), None, Some(Image::from_surface(12, 3, 4))]);
    let thumbs: Vec<Option<u32>> = c.files().iter().map(|f| f.thumbnail.image).collect();
    assert_eq!(thumbs, vec![Some(10), None, Some(12)]);
}

#[test]
fn thumbnails_already_loaded_are_kept() {
    let mut c = collection(2);
    c.update_thumbnail(1, Image::from_surface(5, 1, 1));
    assert!(!c.needs_thumbnail(1));
    assert!(c.needs_thumbnail(0));
    c.load_thumbnails(vec![Some(Image::from_surface(6, 1, 1)), Some(Image::from_surface(7, 1, 1)), Some(Image::from_surface(8, 1, 1))]);
    let thumbs: Vec<Option<u32>> = c.files().iter().map(|f| f.thumbnail.image).collect();
    assert_eq!(thumbs, vec![Some(6), Some(5)]);
}

#[test]
fn active_resource_prefers_full_then_thumbnail() {
    let mut c = collection(2);
    assert_eq!(c.get_texture(), None);
    c.load_thumbnails(vec![Some(Image::from_surface(1, 2, 1)), Some(Image::from_surface(2, 2, 1))]);
    assert_eq!(c.get_texture(), Some(&1));
    assert!(c.needs_full_resource());
    assert!(c.change_image(Ok(Image::from_surface(100, 20, 10))).is_ok());
    assert_eq!(c.get_texture(), Some(&100));
    assert_eq!(c.get_image().width, 20);
    assert!(!c.needs_full_resource());
}

#[test]
fn failed_full_load_keeps_thumbnail() {
    let mut c = collection(2);
    c.load_thumbnails(vec![Some(Image::from_surface(1, 2, 1)), None]);
    let r = c.change_image(Err(LoadError::Decode("corrupt".to_string())));
    assert!(matches!(r, Err(LoadError::Decode(_))));
    assert_eq!(c.get_texture(), Some(&1));
    assert_eq!(c.get_image().aspect_ratio(), (2, 1));
    c.next();
    let r = c.change_image(Err(LoadError::Upload("no context".to_string())));
    assert!(matches!(r, Err(LoadError::Upload(_))));
    assert_eq!(c.get_texture(), None);
    assert_eq!(c.get_image().aspect_ratio(), (1, 1));
}

#[test]
fn at_most_one_full_resource_while_navigating() {
    let mut c = collection(3);
    c.change_image(Ok(Image::from_surface(100, 1, 1))).unwrap();
    assert_eq!(full_count(&c), 1);
    c.next();
    assert_eq!(full_count(&c), 0);
    assert!(c.needs_full_resource());
    c.change_image(Ok(Image::from_surface(101, 1, 1))).unwrap();
    assert_eq!(full_count(&c), 1);
    c.prev();
    assert_eq!(full_count(&c), 0);
    assert_eq!(c.get_texture(), None);
    assert!(c.needs_full_resource());
    c.change_image(Ok(Image::from_surface(102, 1, 1))).unwrap();
    assert_eq!(full_count(&c), 1);
    assert_eq!(c.get_texture(), Some(&102));
}

#[test]
fn update_image_only_for_current_entry() {
    let mut c = collection(2);
    assert!(!c.update_image(1, Image::from_surface(9, 1, 1)));
    assert_eq!(full_count(&c), 0);
    assert!(c.update_image(0, Image::from_surface(9, 1, 1)));
    assert!(c.update_image(0, Image::from_surface(10, 1, 1)));
    assert_eq!(full_count(&c), 1);
    assert_eq!(c.get_texture(), Some(&10));
    let mut e = collection(0);
    assert!(!e.update_image(0, Image::from_surface(9, 1, 1)));
}

#[test]
fn image_slot_lifecycle() {
    let mut i: Image<u32> = Image::default();
    assert_eq!(i.aspect_ratio(), (1, 1));
    i.load(3, 640, 480);
    assert_eq!(i.image, Some(3));
    assert_eq!(i.aspect_ratio(), (640, 480));
    i.clear();
    assert_eq!(i.image, None);
    i.clear();
    assert_eq!(i.image, None);
    assert_eq!(i.width, 640);
}

#[test]
fn unloaded_slot_has_unit_aspect() {
    let slot: Image<u32> = Image { image: None, width: 5, height: 3 };
    assert_eq!(slot.aspect_ratio(), (1, 1));
    let mut c = collection(2);
    c.load_thumbnails(vec![Some(Image::from_surface(1, 4, 3)), None]);
    c.update_thumbnail(1, Image { image: None, width: 5, height: 3 });
    c.next();
    assert_eq!(c.get_texture(), None);
    assert_eq!(c.get_image().aspect_ratio(), (1, 1));
    let mut i: Image<u32> = Image::from_surface(2, 640, 480);
    i.clear();
    assert_eq!(i.aspect_ratio(), (1, 1));
}

#[test]
fn loading_full_image_again_keeps_the_first() {
    let mut c = collection(2);
    c.change_image(Ok(Image::from_surface(100, 20, 10))).unwrap();
    assert!(c.change_image(Ok(Image::from_surface(200, 10, 20))).is_ok());
    assert_eq!(c.get_texture(), Some(&100));
    assert_eq!(c.get_image().aspect_ratio(), (20, 10));
    assert!(c.change_image(Err(LoadError::Decode("late".to_string()))).is_ok());
    assert_eq!(c.get_texture(), Some(&100));
}

#[test]
fn fresh_entries_have_empty_slots() {
    let c = collection(2);
    for f in c.files() {
        assert_eq!((f.thumbnail.width, f.thumbnail.height), (0, 0));
        assert_eq!((f.image.width, f.image.height), (0, 0));
        assert_eq!(f.thumbnail.aspect_ratio(), (1, 1));
    }
}
