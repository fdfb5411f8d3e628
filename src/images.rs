//! A drawable image resource together with the pixel size it was decoded at.
use vstd::prelude::*;

verus! {

/// A slot for a drawable resource of type `T` (a texture, for instance) and
/// the size of the pixel surface it was made from. The slot is empty while
/// nothing is loaded.
pub struct Image<T> {
    pub image: Option<T>,
    pub width: u32,
    pub height: u32,
}

impl<T> Image<T> {
    pub open spec fn is_loaded(&self) -> bool {
        self.image is Some
    }

    /// The aspect ratio as `width : height` of the loaded resource; `1 : 1`
    /// while nothing is loaded or either side is zero.
    pub open spec fn aspect_spec(&self) -> (u32, u32) {
        if self.is_loaded() && self.width > 0 && self.height > 0 {
            (self.width, self.height)
        } else {
            (1u32, 1u32)
        }
    }

    /// An empty slot.
    pub fn empty() -> (r: Image<T>)
        ensures
            r.image is None,
            r.width == 0,
            r.height == 0,
    {
        Image { image: None, width: 0, height: 0 }
    }

    /// A loaded slot holding `texture`, made from a surface of
    /// `width` by `height` pixels.
    pub fn from_surface(texture: T, width: u32, height: u32) -> (r: Image<T>)
        ensures
            r.image == Some(texture),
            r.width == width,
            r.height == height,
    {
        Image { image: Some(texture), width, height }
    }

    /// Releases the resource, if any. Releasing an empty slot does nothing.
    pub fn clear(&mut self)
        ensures
            final(self).image is None,
            final(self).width == old(self).width,
            final(self).height == old(self).height,
    {
        self.image = None;
    }

    /// Releases the resource held so far, then holds `texture`.
    pub fn load(&mut self, texture: T, width: u32, height: u32)
        ensures
            final(self).image == Some(texture),
            final(self).width == width,
            final(self).height == height,
    {
        self.clear();
        self.width = width;
        self.height = height;
        self.image = Some(texture);
    }

    /// The aspect ratio as a pair `(width, height)` of positive integers.
    pub fn aspect_ratio(&self) -> (r: (u32, u32))
        ensures
            r == self.aspect_spec(),
            r.0 > 0,
            r.1 > 0,
    {
        if self.image.is_some() && self.width > 0 && self.height > 0 {
            (self.width, self.height)
        } else {
            (1, 1)
        }
    }
}

impl<T> Default for Image<T> {
    fn default() -> (r: Image<T>)
        ensures
            r.image is None,
            r.width == 0,
            r.height == 0,
    {
        Image::empty()
    }
}

} // verus!
