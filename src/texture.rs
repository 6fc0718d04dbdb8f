use vstd::prelude::*;

use crate::color::{Bgra8, Rgba8};
use crate::error::Error;
use crate::rect::Rect;

verus! {

/// The pixel layouts that textures are created with: four bytes per texel.
#[derive(Copy, Clone, PartialEq, Eq, Debug, Structural)]
pub enum TextureFormat {
    /// Red, green, blue, alpha; the format of sampled textures.
    Rgba8Unorm,
    /// Blue, green, red, alpha; the presentable format of framebuffers.
    Bgra8Unorm,
}

impl TextureFormat {
    /// The four bytes that hold `c` in a texel of this format.
    pub open spec fn texel(self, c: Rgba8) -> Seq<u8> {
        match self {
            TextureFormat::Rgba8Unorm => c.bytes(),
            TextureFormat::Bgra8Unorm => (Bgra8 { b: c.b, g: c.g, r: c.r, a: c.a }).bytes(),
        }
    }
}

/// What a texture may be used for.
#[derive(Copy, Clone, PartialEq, Eq, Debug, Structural)]
pub struct TextureUsage {
    pub sampled: bool,
    pub copy_src: bool,
    pub copy_dst: bool,
    pub render_target: bool,
}

/// A copy between a texel buffer and a texture, at the texture's origin.
#[derive(Copy, Clone, PartialEq, Eq, Debug, Structural)]
pub struct CopyRegion {
    /// Bytes from the start of one buffer row to the next.
    pub bytes_per_row: u32,
    /// Rows in the buffer's image.
    pub rows_per_image: u32,
    /// Width of the copied region, in texels.
    pub width: u32,
    /// Height of the copied region, in texels.
    pub height: u32,
}

/// A copy of one region of a texture to another place in the same texture.
#[derive(Copy, Clone, PartialEq, Eq, Debug, Structural)]
pub struct BlitRegion {
    pub src_x: u32,
    pub src_y: u32,
    pub dst_x: u32,
    pub dst_y: u32,
    pub width: u32,
    pub height: u32,
}

/// Four bytes per texel over a `w` by `h` region.
pub open spec fn byte_size(w: int, h: int) -> int {
    4 * (w * h)
}

/// The number of texels of a `w` by `h` region.
pub(crate) fn texel_count(w: u32, h: u32) -> (n: u64)
    ensures
        n == w * h,
{
    assert((w as int) * (h as int) <= 0xffff_ffff * 0xffff_ffff) by (nonlinear_arith)
        requires
            w <= 0xffff_ffffu32,
            h <= 0xffff_ffffu32,
    ;
    (w as u64) * (h as u64)
}

/// `bytes` is `n` copies of the texel `t`.
pub open spec fn repeats(bytes: Seq<u8>, t: Seq<u8>, n: int) -> bool {
    &&& bytes.len() == t.len() * n
    &&& forall|i: int| 0 <= i < bytes.len() ==> #[trigger] bytes[i] == t[i % (t.len() as int)]
}

/// The upload of a whole `t` from `len` bytes.
pub open spec fn fill_result(t: Texture, len: int) -> Result<CopyRegion, Error> {
    if len == byte_size(t.w as int, t.h as int) {
        Ok(t.full_region())
    } else {
        Err(Error::TexelLength)
    }
}

/// The upload into `t` of the `tw` by `th` region at the origin of a `w` by
/// `h` texel image of `len` bytes.
pub open spec fn transfer_result(t: Texture, len: int, w: u32, h: u32, tw: u32, th: u32) -> Result<
    CopyRegion,
    Error,
> {
    if len != byte_size(w as int, h as int) {
        Err(Error::TexelLength)
    } else if 4 * w > u32::MAX {
        Err(Error::RowTooLong)
    } else if tw * th > t.texels() {
        Err(Error::TransferTooLarge)
    } else {
        Ok(CopyRegion { bytes_per_row: (4 * w) as u32, rows_per_image: h, width: tw, height: th })
    }
}

/// The copy of the `src` region to `dst`.
pub open spec fn blit_result(src: Rect<u32>, dst: Rect<u32>) -> Result<BlitRegion, Error> {
    if src.spec_width() != dst.spec_width() || src.spec_height() != dst.spec_height() {
        Err(Error::BlitSizeMismatch)
    } else {
        Ok(
            BlitRegion {
                src_x: src.x1,
                src_y: src.y1,
                dst_x: dst.x1,
                dst_y: dst.y1,
                width: src.spec_width() as u32,
                height: src.spec_height() as u32,
            },
        )
    }
}

/// A two-dimensional image of fixed size and format.
#[derive(Copy, Clone, PartialEq, Eq, Debug, Structural)]
pub struct Texture {
    pub w: u32,
    pub h: u32,
    pub format: TextureFormat,
}

impl Texture {
    /// Both sides are non-zero and the byte size fits in 32 bits.
    pub open spec fn wf(&self) -> bool {
        &&& 0 < self.w
        &&& 0 < self.h
        &&& byte_size(self.w as int, self.h as int) <= u32::MAX
    }

    /// The number of texels.
    pub open spec fn texels(&self) -> int {
        self.w * self.h
    }

    /// What a texture of this format may be used for.
    pub open spec fn spec_usage(&self) -> TextureUsage {
        match self.format {
            TextureFormat::Rgba8Unorm => TextureUsage {
                sampled: true,
                copy_src: false,
                copy_dst: true,
                render_target: false,
            },
            TextureFormat::Bgra8Unorm => TextureUsage {
                sampled: true,
                copy_src: true,
                copy_dst: true,
                render_target: true,
            },
        }
    }

    /// The region of a whole-texture upload.
    pub open spec fn full_region(&self) -> CopyRegion {
        CopyRegion {
            bytes_per_row: (4 * self.w) as u32,
            rows_per_image: self.h,
            width: self.w,
            height: self.h,
        }
    }

    /// Describes a sampled texture of `w` by `h` texels in red-first order.
    pub fn new(w: u32, h: u32) -> (res: Result<Texture, Error>)
        ensures
            (w == 0 || h == 0) ==> res == Err::<Texture, Error>(Error::EmptyTexture),
            (w > 0 && h > 0 && byte_size(w as int, h as int) > u32::MAX) ==> res == Err::<
                Texture,
                Error,
            >(Error::TextureTooLarge),
            (w > 0 && h > 0 && byte_size(w as int, h as int) <= u32::MAX) ==> res == Ok::<
                Texture,
                Error,
            >(Texture { w, h, format: TextureFormat::Rgba8Unorm }),
            res is Ok ==> res.unwrap().wf(),
    {
        Texture::with_format(w, h, TextureFormat::Rgba8Unorm)
    }

    fn with_format(w: u32, h: u32, format: TextureFormat) -> (res: Result<Texture, Error>)
        ensures
            (w == 0 || h == 0) ==> res == Err::<Texture, Error>(Error::EmptyTexture),
            (w > 0 && h > 0 && byte_size(w as int, h as int) > u32::MAX) ==> res == Err::<
                Texture,
                Error,
            >(Error::TextureTooLarge),
            (w > 0 && h > 0 && byte_size(w as int, h as int) <= u32::MAX) ==> res == Ok::<
                Texture,
                Error,
            >(Texture { w, h, format }),
            res is Ok ==> res.unwrap().wf(),
    {
        if w == 0 || h == 0 {
            return Err(Error::EmptyTexture);
        }
        let n = texel_count(w, h);
        if n > (u32::MAX as u64) / 4 {
            return Err(Error::TextureTooLarge);
        }
        Ok(Texture { w, h, format })
    }

    pub fn width(&self) -> (w: u32)
        ensures
            w == self.w,
    {
        self.w
    }

    pub fn height(&self) -> (h: u32)
        ensures
            h == self.h,
    {
        self.h
    }

    /// What this texture may be used for.
    pub fn usage(&self) -> (u: TextureUsage)
        ensures
            u == self.spec_usage(),
    {
        match self.format {
            TextureFormat::Rgba8Unorm => TextureUsage {
                sampled: true,
                copy_src: false,
                copy_dst: true,
                render_target: false,
            },
            TextureFormat::Bgra8Unorm => TextureUsage {
                sampled: true,
                copy_src: true,
                copy_dst: true,
                render_target: true,
            },
        }
    }

    /// The texture's whole area, with one corner at the origin.
    pub fn rect(&self) -> (r: Rect<u32>)
        ensures
            r == (Rect::<u32> { x1: 0, y1: 0, x2: self.w, y2: self.h }),
            r.spec_width() == self.w,
            r.spec_height() == self.h,
    {
        Rect { x1: 0, y1: 0, x2: self.w, y2: self.h }
    }

    /// The byte size of the whole texture.
    pub fn byte_size(&self) -> (n: usize)
        requires
            self.wf(),
        ensures
            n == byte_size(self.w as int, self.h as int),
    {
        let n = 4 * texel_count(self.w, self.h);
        n as usize
    }

    fn whole(&self) -> (region: CopyRegion)
        requires
            self.wf(),
        ensures
            region == self.full_region(),
    {
        assert(self.w <= self.w * self.h) by (nonlinear_arith)
            requires
                0 < self.h,
        ;
        CopyRegion { bytes_per_row: 4 * self.w, rows_per_image: self.h, width: self.w, height: self.h }
    }

    /// Plans an upload of `texels` as the texture's whole content; the length
    /// must be exactly four bytes per texel.
    pub fn fill(&self, texels: &[u8]) -> (res: Result<CopyRegion, Error>)
        requires
            self.wf(),
        ensures
            res == fill_result(*self, texels@.len() as int),
    {
        if texels.len() != self.byte_size() {
            return Err(Error::TexelLength);
        }
        Ok(self.whole())
    }

    /// Plans an upload that sets every texel to `color`, in this texture's
    /// channel order.
    pub fn clear(&self, color: Rgba8) -> (res: (CopyRegion, Vec<u8>))
        requires
            self.wf(),
        ensures
            res.0 == self.full_region(),
            repeats(res.1@, self.format.texel(color), self.texels()),
            res.1@.len() == byte_size(self.w as int, self.h as int),
    {
        let t: [u8; 4] = match self.format {
            TextureFormat::Rgba8Unorm => [color.r, color.g, color.b, color.a],
            TextureFormat::Bgra8Unorm => [color.b, color.g, color.r, color.a],
        };
        assert(t@ == self.format.texel(color));
        let n = self.byte_size() / 4;
        assert(n == self.w * self.h);
        let mut texels: Vec<u8> = Vec::with_capacity(4 * n);
        let mut k: usize = 0;
        while k < n
            invariant
                0 <= k <= n,
                n == self.w * self.h,
                4 * n <= u32::MAX,
                t@ == self.format.texel(color),
                t@.len() == 4,
                repeats(texels@, t@, k as int),
            decreases n - k,
        {
            let ghost before = texels@;
            texels.push(t[0]);
            texels.push(t[1]);
            texels.push(t[2]);
            texels.push(t[3]);
            assert forall|i: int| 0 <= i < texels@.len() implies #[trigger] texels@[i] == t@[i
                % 4] by {
                if i < before.len() {
                    assert(texels@[i] == before[i]);
                }
            }
            k = k + 1;
        }
        (self.whole(), texels)
    }

    /// Plans an upload of a `width` by `height` texel image, of which the
    /// `transfer_w` by `transfer_h` region at the origin is copied to the
    /// texture's origin.
    pub fn transfer(
        &self,
        texels: &[u8],
        width: u32,
        height: u32,
        transfer_w: u32,
        transfer_h: u32,
    ) -> (res: Result<CopyRegion, Error>)
        requires
            self.wf(),
        ensures
            res == transfer_result(
                *self,
                texels@.len() as int,
                width,
                height,
                transfer_w,
                transfer_h,
            ),
    {
        let len = texels.len();
        let n = texel_count(width, height);
        if len % 4 != 0 || (len / 4) as u64 != n {
            return Err(Error::TexelLength);
        }
        if width > u32::MAX / 4 {
            return Err(Error::RowTooLong);
        }
        let t = texel_count(transfer_w, transfer_h);
        let s = texel_count(self.w, self.h);
        if t > s {
            return Err(Error::TransferTooLarge);
        }
        Ok(
            CopyRegion {
                bytes_per_row: 4 * width,
                rows_per_image: height,
                width: transfer_w,
                height: transfer_h,
            },
        )
    }

    /// Plans a copy of the `src` region to `dst` within this texture. The
    /// regions are placed by their first corners and must be of one size.
    pub fn blit(&self, src: Rect<u32>, dst: Rect<u32>) -> (res: Result<BlitRegion, Error>)
        ensures
            res == blit_result(src, dst),
    {
        let w = src.width();
        let h = src.height();
        if w != dst.width() || h != dst.height() {
            return Err(Error::BlitSizeMismatch);
        }
        Ok(BlitRegion { src_x: src.x1, src_y: src.y1, dst_x: dst.x1, dst_y: dst.y1, width: w, height: h })
    }
}

/// A texture that can be rendered to and presented: blue-first texels.
#[derive(Copy, Clone, PartialEq, Eq, Debug, Structural)]
pub struct Framebuffer {
    pub texture: Texture,
}

impl Framebuffer {
    pub open spec fn wf(&self) -> bool {
        self.texture.wf() && self.texture.format == TextureFormat::Bgra8Unorm
    }

    /// Describes a framebuffer of `w` by `h` texels.
    pub fn new(w: u32, h: u32) -> (res: Result<Framebuffer, Error>)
        ensures
            (w == 0 || h == 0) ==> res == Err::<Framebuffer, Error>(Error::EmptyTexture),
            (w > 0 && h > 0 && byte_size(w as int, h as int) > u32::MAX) ==> res == Err::<
                Framebuffer,
                Error,
            >(Error::TextureTooLarge),
            (w > 0 && h > 0 && byte_size(w as int, h as int) <= u32::MAX) ==> res == Ok::<
                Framebuffer,
                Error,
            >(Framebuffer { texture: Texture { w, h, format: TextureFormat::Bgra8Unorm } }),
            res is Ok ==> res.unwrap().wf(),
    {
        match Texture::with_format(w, h, TextureFormat::Bgra8Unorm) {
            Ok(texture) => Ok(Framebuffer { texture }),
            Err(e) => Err(e),
        }
    }

    /// The number of texels.
    pub fn size(&self) -> (n: usize)
        requires
            self.wf(),
        ensures
            n == self.texture.texels(),
    {
        self.texture.byte_size() / 4
    }

    pub fn width(&self) -> (w: u32)
        ensures
            w == self.texture.w,
    {
        self.texture.w
    }

    pub fn height(&self) -> (h: u32)
        ensures
            h == self.texture.h,
    {
        self.texture.h
    }
}

impl From<Framebuffer> for Texture {
    fn from(fb: Framebuffer) -> (t: Texture) {
        fb.texture
    }
}

impl vstd::std_specs::convert::FromSpecImpl<Framebuffer> for Texture {
    open spec fn obeys_from_spec() -> bool {
        true
    }

    open spec fn from_spec(fb: Framebuffer) -> Texture {
        fb.texture
    }
}

} // verus!
