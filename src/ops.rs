use vstd::prelude::*;

use crate::color::Rgba8;
use crate::error::Error;
use crate::rect::Rect;
use crate::texture::{
    blit_result, fill_result, repeats, transfer_result, BlitRegion, CopyRegion, Texture,
};

verus! {

/// A self-contained one-shot operation on a texture.
#[derive(Copy, Clone)]
pub enum Op<'a> {
    /// Sets every texel to the color.
    Clear(&'a Texture, Rgba8),
    /// Replaces the whole content by the bytes.
    Fill(&'a Texture, &'a [u8]),
    /// Copies a region of a texel image: the bytes, the image's width and
    /// height, and the width and height of the region.
    Transfer(&'a Texture, &'a [u8], u32, u32, u32, u32),
    /// Copies one region of the texture to another.
    Blit(&'a Texture, Rect<u32>, Rect<u32>),
}

/// The device work of one operation.
#[derive(Clone, Debug)]
pub enum Encoded {
    /// Upload these texels over the region.
    Texels { region: CopyRegion, texels: Vec<u8> },
    /// Upload the operation's own bytes over the region.
    Upload(CopyRegion),
    /// Copy within the texture.
    Blit(BlitRegion),
}

impl<'a> Op<'a> {
    /// The target texture is well formed.
    pub open spec fn wf(self) -> bool {
        match self {
            Op::Clear(t, _) => t.wf(),
            Op::Fill(t, _) => t.wf(),
            Op::Transfer(t, _, _, _, _, _) => t.wf(),
            Op::Blit(t, _, _) => t.wf(),
        }
    }

    /// Whether the operation's preconditions hold, and which fails first if
    /// not.
    pub open spec fn check(self) -> Result<(), Error> {
        match self {
            Op::Clear(_, _) => Ok(()),
            Op::Fill(t, b) => match fill_result(*t, b@.len() as int) {
                Ok(_) => Ok(()),
                Err(e) => Err(e),
            },
            Op::Transfer(t, b, w, h, tw, th) => match transfer_result(
                *t,
                b@.len() as int,
                w,
                h,
                tw,
                th,
            ) {
                Ok(_) => Ok(()),
                Err(e) => Err(e),
            },
            Op::Blit(_, src, dst) => match blit_result(src, dst) {
                Ok(_) => Ok(()),
                Err(e) => Err(e),
            },
        }
    }

    /// `e` is the device work of this operation.
    pub open spec fn encodes(self, e: Encoded) -> bool {
        match self {
            Op::Clear(t, c) => match e {
                Encoded::Texels { region, texels } => region == t.full_region() && repeats(
                    texels@,
                    t.format.texel(c),
                    t.texels(),
                ),
                _ => false,
            },
            Op::Fill(t, b) => e == Encoded::Upload(fill_result(*t, b@.len() as int)->Ok_0),
            Op::Transfer(t, b, w, h, tw, th) => e == Encoded::Upload(
                transfer_result(*t, b@.len() as int, w, h, tw, th)->Ok_0,
            ),
            Op::Blit(_, src, dst) => e == Encoded::Blit(blit_result(src, dst)->Ok_0),
        }
    }

    /// Plans the device work of this operation.
    pub fn encode(&self) -> (res: Result<Encoded, Error>)
        requires
            self.wf(),
        ensures
            self.check() is Err ==> res == Err::<Encoded, Error>(self.check()->Err_0),
            self.check() is Ok ==> res is Ok && self.encodes(res->Ok_0),
    {
        match *self {
            Op::Clear(t, c) => {
                let (region, texels) = t.clear(c);
                Ok(Encoded::Texels { region, texels })
            },
            Op::Fill(t, b) => match t.fill(b) {
                Ok(r) => Ok(Encoded::Upload(r)),
                Err(e) => Err(e),
            },
            Op::Transfer(t, b, w, h, tw, th) => match t.transfer(b, w, h, tw, th) {
                Ok(r) => Ok(Encoded::Upload(r)),
                Err(e) => Err(e),
            },
            Op::Blit(t, src, dst) => match t.blit(src, dst) {
                Ok(r) => Ok(Encoded::Blit(r)),
                Err(e) => Err(e),
            },
        }
    }
}

/// Plans a list of operations, in order, for one command buffer: either the
/// work of every one of them, or the error of the first that fails.
pub fn prepare(ops: &[Op]) -> (res: Result<Vec<Encoded>, Error>)
    requires
        forall|i: int| 0 <= i < ops@.len() ==> (#[trigger] ops@[i]).wf(),
    ensures
        res is Ok <==> forall|i: int| 0 <= i < ops@.len() ==> (#[trigger] ops@[i]).check() is Ok,
        res is Ok ==> res->Ok_0@.len() == ops@.len() && forall|i: int|
            0 <= i < ops@.len() ==> #[trigger] ops@[i].encodes(res->Ok_0@[i]),
        res is Err ==> exists|i: int|
            0 <= i < ops@.len() && (forall|j: int| 0 <= j < i ==> (#[trigger] ops@[j]).check() is Ok)
                && #[trigger] ops@[i].check() == Err::<(), Error>(res->Err_0),
{
    let mut out: Vec<Encoded> = Vec::new();
    let mut i: usize = 0;
    while i < ops.len()
        invariant
            forall|k: int| 0 <= k < ops@.len() ==> (#[trigger] ops@[k]).wf(),
            0 <= i <= ops@.len(),
            out@.len() == i,
            forall|j: int| 0 <= j < i ==> (#[trigger] ops@[j]).check() is Ok,
            forall|j: int| 0 <= j < i ==> #[trigger] ops@[j].encodes(out@[j]),
        decreases ops@.len() - i,
    {
        match ops[i].encode() {
            Ok(e) => {
                out.push(e);
            },
            Err(e) => {
                assert(ops@[i as int].check() == Err::<(), Error>(e));
                return Err(e);
            },
        }
        i = i + 1;
    }
    Ok(out)
}

} // verus!
