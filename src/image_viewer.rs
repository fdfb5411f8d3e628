//! The single-image view: where the current image is drawn in the window.
use vstd::prelude::*;

use crate::files::ImageContainer;
use crate::viewport::{fit, fit_spec, Rect};
use crate::window::Window;

verus! {

pub struct ImageViewer {
    view_rect: Rect,
}

impl ImageViewer {
    pub closed spec fn view_spec(&self) -> Rect {
        self.view_rect
    }

    /// The view before anything was fitted: a unit rectangle at the origin.
    pub fn new() -> (r: ImageViewer)
        ensures
            r.view_spec() == (Rect { x: 0, y: 0, w: 1, h: 1 }),
    {
        ImageViewer { view_rect: Rect::new(0, 0, 1, 1) }
    }

    /// Where the current image is drawn.
    pub fn view_rect(&self) -> (r: Rect)
        ensures
            r == self.view_spec(),
    {
        self.view_rect
    }

    /// Fits the current image of `container` into `window`. An empty
    /// collection, or a window without height, leaves the view as it is.
    pub fn update_view<T>(&mut self, window: &Window, container: &ImageContainer<T>)
        requires
            container.wf(),
        ensures
            ({
                let n = container.entries().len();
                if n > 0 && window.height_spec() > 0 {
                    let a = container.entries()[container.current_index()].active_image().aspect_spec();
                    final(self).view_spec() == fit_spec(a.0, a.1, window.width_spec(), window.height_spec())
                } else {
                    final(self).view_spec() == old(self).view_spec()
                }
            }),
    {
        if container.is_empty() || window.height() == 0 {
            return;
        }
        let (aw, ah) = container.get_image().aspect_ratio();
        self.view_rect = fit(aw, ah, window.width(), window.height());
    }
}

} // verus!
