//! Image registry: the asynchronous image-load lifecycle.
//!
//! An image is requested first and becomes ready later, when its pixels
//! have been decoded and uploaded as a GPU texture. The registry is built
//! on the generational slot table, so handles to it can never resolve to a
//! value they were not issued for. Texture lookups fail while an image is
//! still requested; callers treat that as "skip", not as an error.

use vstd::prelude::*;
use crate::slots::{Key, SlotList};

verus! {

/// Handle to a loadable picture, valid in both the requested and the ready
/// state.
#[derive(Debug, Copy, Clone, Eq, PartialEq, Hash, Structural)]
pub struct Image {
    key: Key,
}

impl Image {
    /// The slot-table key behind this handle.
    pub closed spec fn spec_key(self) -> Key {
        self.key
    }
}

/// Load state of one image: requested (no texture yet) or ready with its
/// GPU texture token and pixel dimensions.
#[derive(Debug, Copy, Clone, Eq, PartialEq, Structural)]
pub enum ImageData {
    /// The load was issued; no GPU texture exists yet.
    Requested,
    /// The picture is decoded and uploaded.
    Ready { texture: u32, width: u32, height: u32 },
}

/// The registry of all images, keyed by generational handles.
pub struct Images {
    table: SlotList<ImageData>,
}

impl Images {
    /// The load state the registry holds for `image`, absent for a stale
    /// or foreign handle.
    pub closed spec fn spec_state(self, image: Image) -> Option<ImageData> {
        self.table.spec_get(image.spec_key())
    }

    /// The texture token for `image`: present exactly when the image is
    /// ready.
    pub open spec fn spec_texture(self, image: Image) -> Option<u32> {
        match self.spec_state(image) {
            Some(ImageData::Ready { texture, .. }) => Some(texture),
            _ => None,
        }
    }

    /// The pixel size of `image`: present exactly when the image is ready.
    pub open spec fn spec_size(self, image: Image) -> Option<(u32, u32)> {
        match self.spec_state(image) {
            Some(ImageData::Ready { width, height, .. }) => Some((width, height)),
            _ => None,
        }
    }

    /// Structural invariant of the underlying table.
    pub closed spec fn wf(self) -> bool {
        self.table.wf()
    }

    /// Creates an empty registry.
    pub fn new() -> (images: Images)
        ensures
            images.wf(),
            forall|image: Image| #[trigger] images.spec_state(image) is None,
    {
        Images { table: SlotList::new() }
    }

    /// Allocates a handle for a new image in the requested state. The
    /// asynchronous load itself is issued out-of-band by the caller; the
    /// handle is usable before the picture exists.
    pub fn request_image(&mut self) -> (image: Image)
        requires
            old(self).wf(),
        ensures
            final(self).wf(),
            final(self).spec_state(image) == Some(ImageData::Requested),
            old(self).spec_state(image) is None,
            forall|other: Image|
                other != image
                    ==> final(self).spec_state(other) == old(self).spec_state(other),
    {
        let key = self.table.insert(ImageData::Requested);
        Image { key }
    }

    /// Delivers a completed load: records the pixel size and the GPU
    /// texture token, moving the image to the ready state.
    ///
    /// Safe against double delivery: if the handle is unknown or the image
    /// is already ready, the call is a no-op.
    pub fn finish_loading(&mut self, image: Image, width: u32, height: u32, texture: u32)
        requires
            old(self).wf(),
        ensures
            final(self).wf(),
            old(self).spec_state(image) == Some(ImageData::Requested)
                ==> final(self).spec_state(image)
                    == Some(ImageData::Ready { texture, width, height }),
            old(self).spec_state(image) != Some(ImageData::Requested)
                ==> final(self).spec_state(image) == old(self).spec_state(image),
            forall|other: Image|
                other.spec_key() != image.spec_key()
                    ==> final(self).spec_state(other) == old(self).spec_state(other),
    {
        match self.table.get_mut(image.key) {
            Some(entry) => {
                match entry {
                    ImageData::Requested => {
                        *entry = ImageData::Ready { texture, width, height };
                    },
                    _ => {},
                }
            },
            None => {},
        }
    }

    /// The texture token for `image`, absent while the image is requested
    /// or when the handle is stale.
    pub fn find_texture(&self, image: Image) -> (r: Option<u32>)
        requires
            self.wf(),
        ensures
            r == self.spec_texture(image),
    {
        match self.table.get(image.key) {
            Some(entry) => match entry {
                ImageData::Ready { texture, .. } => Some(*texture),
                ImageData::Requested => None,
            },
            None => None,
        }
    }

    /// The pixel size of `image`, absent while the image is requested or
    /// when the handle is stale.
    pub fn find_size(&self, image: Image) -> (r: Option<(u32, u32)>)
        requires
            self.wf(),
        ensures
            r == self.spec_size(image),
    {
        match self.table.get(image.key) {
            Some(entry) => match entry {
                ImageData::Ready { width, height, .. } => Some((*width, *height)),
                ImageData::Requested => None,
            },
            None => None,
        }
    }
}

} // verus!
