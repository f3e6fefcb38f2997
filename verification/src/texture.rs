//! Texture handles and the description of a bindable texture.

use vstd::prelude::*;

verus! {

/// An opaque handle to a registered texture.
#[derive(Clone, Copy, Debug, PartialEq, Eq, Hash, Structural)]
pub struct TextureId {
    id: usize,
}

impl TextureId {
    /// The identifier behind the handle.
    pub closed spec fn value(self) -> usize {
        self.id
    }

    /// Makes the handle with the given identifier.
    pub fn new(id: usize) -> (r: TextureId)
        ensures
            r.value() == id,
    {
        TextureId { id }
    }

    /// The identifier of the handle.
    pub fn id(self) -> (r: usize)
        ensures
            r == self.value(),
    {
        self.id
    }

    /// Two handles with one identifier are one handle.
    pub proof fn lemma_value_decides(a: TextureId, b: TextureId)
        ensures
            a == b <==> a.value() == b.value(),
    {
    }
}

/// The extent of a texture in texels.
#[derive(Clone, Copy, Debug, PartialEq, Eq, Structural)]
pub struct Extent3d {
    pub width: u32,
    pub height: u32,
    pub depth_or_array_layers: u32,
}

/// A bindable texture as the registry keeps it: what the renderer knows of
/// the texture without touching the graphics device.
#[derive(Clone, Copy, Debug, PartialEq, Eq, Structural)]
pub struct Texture {
    size: Extent3d,
}

impl Texture {
    /// The extent the texture was made with.
    pub closed spec fn extent(self) -> Extent3d {
        self.size
    }

    /// Describes a texture of the given extent.
    pub fn new(size: Extent3d) -> (r: Texture)
        ensures
            r.extent() == size,
    {
        Texture { size }
    }

    /// The width of the texture in texels.
    pub fn width(&self) -> (r: u32)
        ensures
            r == self.extent().width,
    {
        self.size.width
    }

    /// The height of the texture in texels.
    pub fn height(&self) -> (r: u32)
        ensures
            r == self.extent().height,
    {
        self.size.height
    }

    /// The depth of the texture, or the number of its array layers.
    pub fn depth(&self) -> (r: u32)
        ensures
            r == self.extent().depth_or_array_layers,
    {
        self.size.depth_or_array_layers
    }

    /// The extent of the texture.
    pub fn size(&self) -> (r: Extent3d)
        ensures
            r == self.extent(),
    {
        self.size
    }
}

} // verus!
