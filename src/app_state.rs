//! The image viewer's handler state: the collection and its view, and what
//! keys and the wheel do to them.
use vstd::prelude::*;

use crate::files::{accepted_names, navigated, ImageContainer, ListedFile};
use crate::image_viewer::ImageViewer;
use crate::viewport::Rect;
use crate::window::{Keycode, Window};

verus! {

/// Which way a key moves the selection: `Some(true)` forward, `Some(false)`
/// backward, `None` not at all.
pub open spec fn key_direction(key: Keycode) -> Option<bool> {
    match key {
        Keycode::Right => Some(true),
        Keycode::Left => Some(false),
        _ => None,
    }
}

pub struct AppState<T> {
    pub images: ImageContainer<T>,
    pub image_viewer: ImageViewer,
}

impl<T> AppState<T> {
    pub open spec fn wf(&self) -> bool {
        self.images.wf()
    }

    /// The state for the directory `root` with the given listing.
    pub fn init(root: &String, listing: &Vec<ListedFile>) -> (r: AppState<T>)
        ensures
            r.wf(),
            r.images.current_index() == 0,
            r.images.root_spec() == root@,
            r.images.entries().len() == accepted_names(listing@).len(),
            forall|k: int|
                0 <= k < r.images.entries().len() ==> (#[trigger] r.images.entries()[k]).is_fresh_for(
                    root@,
                    accepted_names(listing@)[k],
                ),
            r.image_viewer.view_spec() == (Rect { x: 0, y: 0, w: 1, h: 1 }),
    {
        AppState { images: ImageContainer::load(root, listing), image_viewer: ImageViewer::new() }
    }

    /// Selects the next image. Returns whether the selection moved.
    pub fn next(&mut self) -> (r: bool)
        requires
            old(self).wf(),
        ensures
            navigated(old(self).images, final(self).images, true, r),
            final(self).image_viewer == old(self).image_viewer,
    {
        self.images.next()
    }

    /// Selects the previous image. Returns whether the selection moved.
    pub fn prev(&mut self) -> (r: bool)
        requires
            old(self).wf(),
        ensures
            navigated(old(self).images, final(self).images, false, r),
            final(self).image_viewer == old(self).image_viewer,
    {
        self.images.prev()
    }

    /// A key press: Escape ends the loop, Right and Left step forward and
    /// backward, other keys do nothing. Returns whether the selection moved.
    pub fn key_down(&mut self, window: &mut Window, key: Keycode) -> (r: bool)
        requires
            old(self).wf(),
        ensures
            final(window).running() == (old(window).running() && key != Keycode::Escape),
            final(window).width_spec() == old(window).width_spec(),
            final(window).height_spec() == old(window).height_spec(),
            final(self).image_viewer == old(self).image_viewer,
            match key_direction(key) {
                Some(forward) => navigated(old(self).images, final(self).images, forward, r),
                None => !r && final(self).images == old(self).images,
            },
    {
        match key {
            Keycode::Escape => {
                window.request_exit();
                false
            },
            Keycode::Right => self.next(),
            Keycode::Left => self.prev(),
            _ => false,
        }
    }

    /// A wheel turn: down steps forward, up steps backward. Returns whether
    /// the selection moved.
    pub fn scroll(&mut self, down: bool) -> (r: bool)
        requires
            old(self).wf(),
        ensures
            navigated(old(self).images, final(self).images, down, r),
            final(self).image_viewer == old(self).image_viewer,
    {
        if down {
            self.next()
        } else {
            self.prev()
        }
    }

    /// Fits the current image into `window`.
    pub fn update_view(&mut self, window: &Window)
        requires
            old(self).wf(),
        ensures
            final(self).images == old(self).images,
            ({
                let c = old(self).images;
                if c.entries().len() > 0 && window.height_spec() > 0 {
                    let a = c.entries()[c.current_index()].active_image().aspect_spec();
                    final(self).image_viewer.view_spec() == crate::viewport::fit_spec(
                        a.0,
                        a.1,
                        window.width_spec(),
                        window.height_spec(),
                    )
                } else {
                    final(self).image_viewer.view_spec() == old(self).image_viewer.view_spec()
                }
            }),
    {
        self.image_viewer.update_view(window, &self.images);
    }
}

} // verus!
