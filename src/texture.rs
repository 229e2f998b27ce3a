//! Textures and the recipes for the common ones.
use vstd::prelude::*;
use crate::gpu::{AllocationError, Command, GlCall, PixelFormat};

verus! {

/// The size, format and mipmapping of a 2D texture.
#[derive(Clone, Copy, Debug, PartialEq, Eq)]
pub struct Texture2dDescriptor {
    pub width: usize,
    pub height: usize,
    pub format: PixelFormat,
    pub mipmap: bool,
}

/// A 2D texture on the GPU.
#[derive(Clone, Copy, Debug, PartialEq, Eq)]
pub struct Texture {
    pub handle: u64,
    pub descriptor: Texture2dDescriptor,
}

/// The largest viewport of the screen, in pixels.
#[derive(Clone, Copy, Debug, PartialEq, Eq)]
pub struct Viewport {
    pub width: u32,
    pub height: u32,
}

/// What creating a texture described by `desc` promises.
pub open spec fn texture_created(
    old_cmd: Command,
    new_cmd: Command,
    desc: Texture2dDescriptor,
    r: Result<Texture, AllocationError>,
) -> bool {
    &&& new_cmd.diagnostics@ == old_cmd.diagnostics@
    &&& new_cmd.buffers@ == old_cmd.buffers@
    &&& new_cmd.budget == old_cmd.budget
    &&& old_cmd.next_object == u64::MAX ==> {
        &&& r == Err::<Texture, AllocationError>(AllocationError::OutOfHandles)
        &&& new_cmd.calls@ == old_cmd.calls@
        &&& new_cmd.next_object == old_cmd.next_object
    }
    &&& old_cmd.next_object < u64::MAX ==> {
        &&& r == Ok::<Texture, AllocationError>(Texture { handle: old_cmd.next_object, descriptor: desc })
        &&& new_cmd.next_object == old_cmd.next_object + 1
        &&& new_cmd.calls@ == old_cmd.calls@.push(
            GlCall::CreateTexture {
                texture: old_cmd.next_object,
                width: desc.width,
                height: desc.height,
                format: desc.format,
                mipmap: desc.mipmap,
            },
        )
    }
}

/// Mipmap levels of a full chain for a largest side of `n` pixels: one level
/// per halving down to a single pixel.
pub open spec fn mip_levels(n: nat) -> nat
    decreases n,
{
    if n <= 1 {
        1
    } else {
        1 + mip_levels(n / 2)
    }
}

proof fn lemma_mip_levels_bound(n: nat)
    requires
        n >= 1,
    ensures
        1 <= mip_levels(n) <= n,
    decreases n,
{
    if n > 1 {
        lemma_mip_levels_bound(n / 2);
    }
}

impl Texture2dDescriptor {
    /// How many levels the texture's storage has.
    pub open spec fn levels_spec(self) -> nat {
        if self.mipmap {
            mip_levels(if self.width >= self.height { self.width as nat } else { self.height as nat })
        } else {
            1
        }
    }

    /// How many levels the texture's storage has: a full mipmap chain when
    /// mipmapped, one level otherwise.
    pub fn levels(&self) -> (r: usize)
        ensures
            r == self.levels_spec(),
    {
        if !self.mipmap {
            return 1;
        }
        let largest = if self.width >= self.height { self.width } else { self.height };
        let mut m = largest;
        let mut levels: usize = 1;
        proof {
            if largest >= 1 {
                lemma_mip_levels_bound(largest as nat);
            }
        }
        while m > 1
            invariant
                levels + mip_levels(m as nat) == mip_levels(largest as nat) + 1,
                largest >= 1 ==> mip_levels(largest as nat) <= largest,
                m <= largest,
                levels >= 1,
            decreases m,
        {
            assert(mip_levels(m as nat) == 1 + mip_levels((m / 2) as nat));
            proof {
                lemma_mip_levels_bound((m / 2) as nat);
            }
            m = m / 2;
            levels = levels + 1;
        }
        levels
    }
}

impl Texture {
    /// Creates a texture of the described size and format, with no contents.
    pub fn new_uninitialized(cmd: &mut Command, desc: &Texture2dDescriptor) -> (r: Result<Texture, AllocationError>)
        ensures
            texture_created(*old(cmd), *final(cmd), *desc, r),
    {
        let handle = match cmd.new_object() {
            Ok(h) => h,
            Err(e) => {
                return Err(e);
            },
        };
        cmd.record(
            GlCall::CreateTexture {
                texture: handle,
                width: desc.width,
                height: desc.height,
                format: desc.format,
                mipmap: desc.mipmap,
            },
        );
        Ok(Texture { handle, descriptor: *desc })
    }
}

/// Recipes for commonly used textures.
pub struct TextureRecipe {}

impl TextureRecipe {
    /// A mipmapped texture of `format` as large as the largest viewport.
    pub fn new_fullscreen(cmd: &mut Command, format: PixelFormat, max_viewport: Viewport) -> (r: Result<
        Texture,
        AllocationError,
    >)
        ensures
            texture_created(
                *old(cmd),
                *final(cmd),
                Texture2dDescriptor {
                    width: max_viewport.width as usize,
                    height: max_viewport.height as usize,
                    format,
                    mipmap: true,
                },
                r,
            ),
    {
        Texture::new_uninitialized(
            cmd,
            &Texture2dDescriptor {
                width: max_viewport.width as usize,
                height: max_viewport.height as usize,
                format,
                mipmap: true,
            },
        )
    }

    /// A depth texture, without mipmaps, as large as the largest viewport.
    pub fn new_fullscreen_depth(cmd: &mut Command, max_viewport: Viewport) -> (r: Result<Texture, AllocationError>)
        ensures
            texture_created(
                *old(cmd),
                *final(cmd),
                Texture2dDescriptor {
                    width: max_viewport.width as usize,
                    height: max_viewport.height as usize,
                    format: PixelFormat::Depth24,
                    mipmap: false,
                },
                r,
            ),
    {
        Texture::new_uninitialized(
            cmd,
            &Texture2dDescriptor {
                width: max_viewport.width as usize,
                height: max_viewport.height as usize,
                format: PixelFormat::Depth24,
                mipmap: false,
            },
        )
    }

    /// A one-pixel mipmapped RGBA texture.
    pub fn new_dummy(cmd: &mut Command) -> (r: Result<Texture, AllocationError>)
        ensures
            texture_created(
                *old(cmd),
                *final(cmd),
                Texture2dDescriptor { width: 1, height: 1, format: PixelFormat::R8G8B8A8, mipmap: true },
                r,
            ),
    {
        Texture::new_uninitialized(
            cmd,
            &Texture2dDescriptor { width: 1, height: 1, format: PixelFormat::R8G8B8A8, mipmap: true },
        )
    }
}

} // verus!
