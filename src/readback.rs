use vstd::prelude::*;

use crate::error::Error;
use crate::texture::{texel_count, CopyRegion, Framebuffer};

verus! {

/// Rows of a texture copied into a buffer start at multiples of this many
/// bytes.
pub const ROW_ALIGNMENT: u64 = 256;

/// `n` rounded up to a multiple of the row alignment.
pub open spec fn align_row(n: int) -> int {
    ((n + 255) / 256) * 256
}

/// The tightly packed rows of `data`, whose `rows` rows of `row` bytes each
/// start every `padded` bytes.
pub open spec fn unpad(data: Seq<u8>, row: int, padded: int, rows: int) -> Seq<u8>
    recommends
        0 < row,
{
    Seq::new((row * rows) as nat, |k: int| data[(k / row) * padded + k % row])
}

/// `data`, whose `rows` rows of `row` bytes each are tightly packed, with
/// each row moved to start every `padded` bytes and the gaps zeroed.
pub open spec fn pad(data: Seq<u8>, row: int, padded: int, rows: int) -> Seq<u8>
    recommends
        0 < padded,
{
    Seq::new(
        (padded * rows) as nat,
        |k: int|
            if k % padded < row {
                data[(k / padded) * row + k % padded]
            } else {
                0u8
            },
    )
}

proof fn lemma_pad_index(k: int, row: int, padded: int, rows: int)
    requires
        0 <= row <= padded,
        0 < padded,
        0 <= k < padded * rows,
        k % padded < row,
    ensures
        0 <= (k / padded) * row + k % padded < row * rows,
{
    assert(0 <= k / padded < rows) by (nonlinear_arith)
        requires
            0 < padded,
            0 <= k < padded * rows,
    ;
    assert((k / padded) * row + k % padded < row * rows) by (nonlinear_arith)
        requires
            0 <= k / padded < rows,
            0 <= k % padded < row,
    ;
    assert(0 <= (k / padded) * row) by (nonlinear_arith)
        requires
            0 <= k / padded,
            0 <= row,
    ;
}

/// Stages tightly packed texels for a copy into a texture: the rows of
/// `data` move to the row alignment, and the region's row pitch with them.
pub fn stage(region: CopyRegion, data: &[u8]) -> (res: Result<(CopyRegion, Vec<u8>), Error>)
    ensures
        data@.len() != region.bytes_per_row * region.rows_per_image ==> res == Err::<
            (CopyRegion, Vec<u8>),
            Error,
        >(Error::TexelLength),
        data@.len() == region.bytes_per_row * region.rows_per_image && align_row(
            region.bytes_per_row as int,
        ) > u32::MAX ==> res == Err::<(CopyRegion, Vec<u8>), Error>(Error::RowTooLong),
        data@.len() == region.bytes_per_row * region.rows_per_image && align_row(
            region.bytes_per_row as int,
        ) <= u32::MAX ==> {
            &&& res is Ok
            &&& res->Ok_0.0 == CopyRegion {
                bytes_per_row: align_row(region.bytes_per_row as int) as u32,
                ..region
            }
            &&& res->Ok_0.1@ == pad(
                data@,
                region.bytes_per_row as int,
                align_row(region.bytes_per_row as int),
                region.rows_per_image as int,
            )
        },
{
    let row = region.bytes_per_row as u64;
    let rows = region.rows_per_image as u64;
    assert(row * rows <= 0xffff_ffff * 0xffff_ffff) by (nonlinear_arith)
        requires
            row <= 0xffff_ffffu64,
            rows <= 0xffff_ffffu64,
    ;
    if data.len() as u64 != row * rows {
        return Err(Error::TexelLength);
    }
    let padded = ((row + 255) / ROW_ALIGNMENT) * ROW_ALIGNMENT;
    if padded > u32::MAX as u64 {
        return Err(Error::RowTooLong);
    }
    assert(padded * rows <= 0xffff_ffff * 0xffff_ffff) by (nonlinear_arith)
        requires
            padded <= 0xffff_ffffu64,
            rows <= 0xffff_ffffu64,
    ;
    let n = padded * rows;
    let len = data.len();
    let mut out: Vec<u8> = Vec::new();
    let mut k: u64 = 0;
    while k < n
        invariant
            n == padded * rows,
            0 <= row <= padded,
            padded == align_row(row as int),
            len == data@.len(),
            data@.len() == row * rows,
            0 <= k <= n,
            out@.len() == k,
            forall|j: int|
                0 <= j < k ==> #[trigger] out@[j] == (if j % (padded as int) < row {
                    data@[(j / (padded as int)) * (row as int) + j % (padded as int)]
                } else {
                    0u8
                }),
        decreases n - k,
    {
        let col = k % padded;
        if col < row {
            proof {
                lemma_pad_index(k as int, row as int, padded as int, rows as int);
            }
            let idx = (k / padded) * row + col;
            assert(idx < len);
            out.push(data[idx as usize]);
        } else {
            out.push(0);
        }
        k = k + 1;
    }
    proof {
        assert(out@ =~= pad(data@, row as int, padded as int, rows as int));
    }
    Ok((CopyRegion { bytes_per_row: padded as u32, ..region }, out))
}

/// Reading back staged rows gives the tightly packed texels that were
/// staged: removing the padding undoes adding it.
pub proof fn lemma_unpad_pad(data: Seq<u8>, row: int, padded: int, rows: int)
    requires
        0 < row <= padded,
        0 <= rows,
        data.len() == row * rows,
    ensures
        unpad(pad(data, row, padded, rows), row, padded, rows) == data,
{
    let staged = pad(data, row, padded, rows);
    let back = unpad(staged, row, padded, rows);
    assert forall|k: int| 0 <= k < data.len() implies #[trigger] back[k] == data[k] by {
        let q = k / row;
        let r = k % row;
        lemma_unpad_index(k, row, padded, rows);
        let j = q * padded + r;
        vstd::arithmetic::div_mod::lemma_fundamental_div_mod_converse(j, padded, q, r);
        vstd::arithmetic::div_mod::lemma_fundamental_div_mod(k, row);
        assert(q * row == row * q) by (nonlinear_arith);
    }
    assert(back =~= data);
}

/// How a readback is going.
#[derive(Copy, Clone, PartialEq, Eq, Debug, Structural)]
pub enum ReadStatus {
    /// More bytes are expected.
    Pending,
    /// Every expected byte has arrived.
    Complete,
}

/// The host side of reading a framebuffer back: the layout of the copy into
/// a mappable buffer, and the bytes of that buffer as they arrive.
#[derive(Debug)]
pub struct Readback {
    row_bytes: u32,
    padded_row_bytes: u32,
    rows: u32,
    width: u32,
    bytes: Vec<u8>,
}

proof fn lemma_unpad_index(k: int, row: int, padded: int, rows: int)
    requires
        0 < row <= padded,
        0 <= k < row * rows,
    ensures
        0 <= (k / row) * padded + k % row < padded * rows,
{
    assert(0 <= k / row < rows) by (nonlinear_arith)
        requires
            0 < row,
            0 <= k < row * rows,
    ;
    assert((k / row) * padded + k % row < padded * rows) by (nonlinear_arith)
        requires
            0 < row <= padded,
            0 <= k / row < rows,
            0 <= k % row < row,
    ;
    assert(0 <= (k / row) * padded) by (nonlinear_arith)
        requires
            0 <= k / row,
            0 < padded,
    ;
}

impl Readback {
    /// Bytes per tightly packed row.
    pub closed spec fn spec_row_bytes(&self) -> int {
        self.row_bytes as int
    }

    /// Bytes per row in the mapped buffer.
    pub closed spec fn spec_padded_row_bytes(&self) -> int {
        self.padded_row_bytes as int
    }

    /// Rows of the image.
    pub closed spec fn spec_rows(&self) -> int {
        self.rows as int
    }

    /// The bytes received so far.
    pub closed spec fn received(&self) -> Seq<u8> {
        self.bytes@
    }

    /// The size of the mapped buffer.
    pub open spec fn expected(&self) -> int {
        self.spec_padded_row_bytes() * self.spec_rows()
    }

    pub closed spec fn wf(&self) -> bool {
        &&& 0 < self.row_bytes <= self.padded_row_bytes
        &&& self.padded_row_bytes == align_row(self.row_bytes as int)
        &&& self.row_bytes == 4 * self.width
        &&& 0 < self.rows
        &&& self.row_bytes * self.rows <= u32::MAX
        &&& self.bytes@.len() <= self.padded_row_bytes * self.rows
    }

    /// Prepares to read back `fb`, whose rows are padded to the row alignment
    /// in the mapped buffer.
    pub fn new(fb: &Framebuffer) -> (res: Result<Readback, Error>)
        requires
            fb.wf(),
        ensures
            align_row(4 * fb.texture.w) > u32::MAX ==> res == Err::<Readback, Error>(
                Error::RowTooLong,
            ),
            align_row(4 * fb.texture.w) <= u32::MAX ==> {
                &&& res is Ok
                &&& res->Ok_0.wf()
                &&& res->Ok_0.spec_row_bytes() == 4 * fb.texture.w
                &&& res->Ok_0.spec_padded_row_bytes() == align_row(4 * fb.texture.w)
                &&& res->Ok_0.spec_rows() == fb.texture.h
                &&& res->Ok_0.received() == Seq::<u8>::empty()
            },
    {
        let w = fb.texture.w;
        let h = fb.texture.h;
        let n = texel_count(w, h);
        assert(w <= w * h) by (nonlinear_arith)
            requires
                0 < h,
        ;
        let row = 4 * (w as u64);
        let padded = ((row + 255) / ROW_ALIGNMENT) * ROW_ALIGNMENT;
        if padded > u32::MAX as u64 {
            return Err(Error::RowTooLong);
        }
        assert(row * h == 4 * n) by (nonlinear_arith)
            requires
                row == 4 * w,
                n == w * h,
        ;
        Ok(
            Readback {
                row_bytes: row as u32,
                padded_row_bytes: padded as u32,
                rows: h,
                width: w,
                bytes: Vec::new(),
            },
        )
    }

    /// The copy from the framebuffer into the mapped buffer.
    pub fn region(&self) -> (r: CopyRegion)
        requires
            self.wf(),
        ensures
            r.bytes_per_row == self.spec_padded_row_bytes(),
            r.rows_per_image == self.spec_rows(),
            4 * r.width == self.spec_row_bytes(),
            r.height == self.spec_rows(),
    {
        CopyRegion {
            bytes_per_row: self.padded_row_bytes,
            rows_per_image: self.rows,
            width: self.width,
            height: self.rows,
        }
    }

    /// The size of the mapped buffer, in bytes.
    pub fn buffer_size(&self) -> (n: u64)
        requires
            self.wf(),
        ensures
            n == self.expected(),
    {
        assert(self.padded_row_bytes * self.rows <= 0xffff_ffff * 0xffff_ffff) by (
        nonlinear_arith)
            requires
                self.padded_row_bytes <= 0xffff_ffffu32,
                self.rows <= 0xffff_ffffu32,
        ;
        (self.padded_row_bytes as u64) * (self.rows as u64)
    }

    /// Takes the next bytes of the mapped buffer. Delivering more than the
    /// buffer holds is refused and changes nothing.
    pub fn receive(&mut self, chunk: &[u8]) -> (res: Result<ReadStatus, Error>)
        requires
            old(self).wf(),
        ensures
            final(self).wf(),
            final(self).spec_row_bytes() == old(self).spec_row_bytes(),
            final(self).spec_padded_row_bytes() == old(self).spec_padded_row_bytes(),
            final(self).spec_rows() == old(self).spec_rows(),
            old(self).received().len() + chunk@.len() > old(self).expected() ==> res == Err::<
                ReadStatus,
                Error,
            >(Error::ReadbackOverflow) && final(self).received() == old(self).received(),
            old(self).received().len() + chunk@.len() <= old(self).expected() ==> {
                &&& final(self).received() == old(self).received() + chunk@
                &&& res == Ok::<ReadStatus, Error>(
                    if final(self).received().len() == old(self).expected() {
                        ReadStatus::Complete
                    } else {
                        ReadStatus::Pending
                    },
                )
            },
    {
        let total = self.buffer_size();
        let have = self.bytes.len() as u64;
        if chunk.len() as u64 > total - have {
            return Err(Error::ReadbackOverflow);
        }
        let mut i: usize = 0;
        let ghost before = self.bytes@;
        while i < chunk.len()
            invariant
                0 <= i <= chunk@.len(),
                self.bytes@ == before + chunk@.subrange(0, i as int),
                before.len() + chunk@.len() <= self.padded_row_bytes * self.rows,
                self.row_bytes == old(self).row_bytes,
                self.padded_row_bytes == old(self).padded_row_bytes,
                self.rows == old(self).rows,
                self.width == old(self).width,
            decreases chunk@.len() - i,
        {
            self.bytes.push(chunk[i]);
            assert(chunk@.subrange(0, i + 1) =~= chunk@.subrange(0, i as int).push(chunk@[i as int]));
            i = i + 1;
        }
        assert(chunk@.subrange(0, chunk@.len() as int) =~= chunk@);
        if self.bytes.len() as u64 == total {
            Ok(ReadStatus::Complete)
        } else {
            Ok(ReadStatus::Pending)
        }
    }

    /// Every expected byte has arrived.
    pub fn is_complete(&self) -> (b: bool)
        requires
            self.wf(),
        ensures
            b == (self.received().len() == self.expected()),
    {
        self.bytes.len() as u64 == self.buffer_size()
    }

    /// The image's texels, tightly packed row after row, once every byte has
    /// arrived.
    pub fn texels(&self) -> (t: Vec<u8>)
        requires
            self.wf(),
            self.received().len() == self.expected(),
        ensures
            t@ == unpad(
                self.received(),
                self.spec_row_bytes(),
                self.spec_padded_row_bytes(),
                self.spec_rows(),
            ),
            t@.len() == self.spec_row_bytes() * self.spec_rows(),
    {
        let row = self.row_bytes as u64;
        let padded = self.padded_row_bytes as u64;
        let n = row * (self.rows as u64);
        let ghost rows = self.rows as int;
        assert(padded * rows <= 0xffff_ffff * 0xffff_ffff) by (nonlinear_arith)
            requires
                padded <= 0xffff_ffffu64,
                rows <= 0xffff_ffff,
        ;
        let mut out: Vec<u8> = Vec::new();
        let mut k: u64 = 0;
        while k < n
            invariant
                self.wf(),
                self.received().len() == self.expected(),
                row == self.row_bytes,
                padded == self.padded_row_bytes,
                n == row * rows,
                rows == self.rows,
                padded * rows <= 0xffff_ffff * 0xffff_ffff,
                0 <= k <= n,
                out@.len() == k,
                forall|j: int|
                    0 <= j < k ==> #[trigger] out@[j] == self.bytes@[(j / (row as int)) * (
                    padded as int) + j % (row as int)],
            decreases n - k,
        {
            proof {
                lemma_unpad_index(k as int, row as int, padded as int, rows);
            }
            let idx = (k / row) * padded + k % row;
            let len = self.bytes.len();
            assert(idx < len);
            out.push(self.bytes[idx as usize]);
            k = k + 1;
        }
        proof {
            assert(out@ =~= unpad(self.bytes@, row as int, padded as int, rows));
        }
        out
    }
}

} // verus!
