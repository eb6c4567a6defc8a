use vstd::prelude::*;

verus! {

/// Fixed handle under which the left eye's texture view is published.
pub const LEFT_XR_TEXTURE_HANDLE: u32 = 1208214591;

/// Fixed handle under which the right eye's texture view is published.
pub const RIGHT_XR_TEXTURE_HANDLE: u32 = 3383858418;

/// A texture view the host pipeline binds: one eye of a runtime-owned
/// swapchain image, with the resolution and pixel format negotiated at
/// initialisation.
#[derive(Clone, Copy, Debug, PartialEq, Eq, Structural)]
pub struct EyeView {
    pub handle: u32,
    pub image_index: u32,
    pub width: u32,
    pub height: u32,
    pub format: u32,
}

/// The two well-known eye slots. Their handles never change; what they point
/// at is refreshed each frame.
#[derive(Clone, Copy, Debug, PartialEq, Eq, Structural)]
pub struct EyeTextures {
    pub left: Option<EyeView>,
    pub right: Option<EyeView>,
}

pub open spec fn eye_view(handle: u32, image_index: u32, width: u32, height: u32, format: u32) -> EyeView {
    EyeView { handle, image_index, width, height, format }
}

impl EyeTextures {
    /// Slots before the first image is published.
    pub fn new() -> (r: EyeTextures)
        ensures
            r.left is None,
            r.right is None,
    {
        EyeTextures { left: None, right: None }
    }

    /// Points both slots at swapchain image `image_index`, sized to the
    /// negotiated resolution and format.
    pub fn publish(&mut self, image_index: u32, width: u32, height: u32, format: u32)
        ensures
            final(self).left == Some(eye_view(LEFT_XR_TEXTURE_HANDLE, image_index, width, height, format)),
            final(self).right == Some(eye_view(RIGHT_XR_TEXTURE_HANDLE, image_index, width, height, format)),
    {
        self.left = Some(EyeView { handle: LEFT_XR_TEXTURE_HANDLE, image_index, width, height, format });
        self.right = Some(EyeView { handle: RIGHT_XR_TEXTURE_HANDLE, image_index, width, height, format });
    }
}

} // verus!
