//! Software-decoded pictures: 8-bit 4:2:0, the three planes packed back to back with no padding.

use vstd::prelude::*;
use crate::frame::{ColorDesc, LocalRecovery};

verus! {

/// The first `h` rows of a strided plane, `w` samples of each, end to end.
pub open spec fn rows(plane: Seq<u8>, stride: int, w: int, h: int) -> Seq<u8>
    decreases h,
{
    if h <= 0 {
        Seq::empty()
    } else {
        rows(plane, stride, w, h - 1) + plane.subrange((h - 1) * stride, (h - 1) * stride + w)
    }
}

/// Bytes a strided plane of `w` by `h` samples needs; the last row may stop at its last sample.
pub open spec fn plane_bytes(stride: int, w: int, h: int) -> int {
    (h - 1) * stride + w
}

/// Half of `n`, rounded up.
pub open spec fn half_up(n: u32) -> u32 {
    ((n + 1) / 2) as u32
}

/// Why a decoder's picture was refused.
#[derive(Debug, Clone, Copy, PartialEq, Eq, Structural)]
pub enum PlanarError {
    /// The picture has no samples.
    Empty,
    /// A row is wider than the distance to the next one.
    NarrowStride { plane: usize },
    /// A plane holds fewer bytes than its geometry says.
    ShortPlane { plane: usize },
}

/// What is wrong with one plane, if anything.
pub open spec fn plane_fault(i: usize, len: int, stride: int, w: int, h: int) -> Option<PlanarError> {
    if stride < w {
        Some(PlanarError::NarrowStride { plane: i })
    } else if len < plane_bytes(stride, w, h) {
        Some(PlanarError::ShortPlane { plane: i })
    } else {
        None
    }
}

/// What is wrong with a picture, the first plane at fault deciding.
pub open spec fn picture_fault(
    width: u32,
    height: u32,
    planes: Seq<&[u8]>,
    strides: Seq<usize>,
) -> Option<PlanarError> {
    let (cw, ch) = (half_up(width) as int, half_up(height) as int);
    let luma = plane_fault(0, planes[0]@.len() as int, strides[0] as int, width as int, height as int);
    let cb = plane_fault(1, planes[1]@.len() as int, strides[1] as int, cw, ch);
    let cr = plane_fault(2, planes[2]@.len() as int, strides[2] as int, cw, ch);
    if width == 0 || height == 0 {
        Some(PlanarError::Empty)
    } else if luma is Some {
        luma
    } else if cb is Some {
        cb
    } else {
        cr
    }
}

/// Bytes a tightly packed picture takes.
pub open spec fn packed_bytes(width: u32, height: u32) -> int {
    width * height + 2 * (half_up(width) * half_up(height))
}

/// A software-decoded picture. Tight packing carries weight: the presenter uploads rows without
/// a stride, so a padded row would shear the picture.
pub struct CpuPlanarFrame {
    pub width: u32,
    pub height: u32,
    /// Y, then Cb, then Cr.
    pub data: Vec<u8>,
    /// First byte of each plane.
    pub offsets: [usize; 3],
    pub color: ColorDesc,
    pub keyframe: bool,
    pub recovery: LocalRecovery,
}

impl CpuPlanarFrame {
    /// Samples of plane `i`.
    pub open spec fn plane_len(width: u32, height: u32, i: int) -> int {
        if i == 0 {
            width * height
        } else {
            half_up(width) * half_up(height)
        }
    }

    /// The planes stand end to end and fill the allocation.
    pub open spec fn wf(self) -> bool {
        &&& self.offsets@[0] == 0
        &&& self.offsets@[1] == self.width * self.height
        &&& self.offsets@[2] == self.width * self.height + half_up(self.width) * half_up(
            self.height,
        )
        &&& self.data@.len() == packed_bytes(self.width, self.height)
        &&& packed_bytes(self.width, self.height) <= usize::MAX
    }

    /// The samples of plane `i`.
    pub open spec fn samples(self, i: int) -> Seq<u8> {
        self.data@.subrange(
            self.offsets@[i] as int,
            self.offsets@[i] + Self::plane_len(self.width, self.height, i),
        )
    }

    /// Chroma plane size for 4:2:0, rounded up: an odd luma dimension still has a chroma sample
    /// for its last row or column.
    pub fn chroma_dims(width: u32, height: u32) -> (r: (u32, u32))
        ensures
            r == (half_up(width), half_up(height)),
            width <= 2 * r.0 <= width + 1,
            height <= 2 * r.1 <= height + 1,
    {
        (width / 2 + width % 2, height / 2 + height % 2)
    }

    /// Plane `i` size in samples.
    pub fn plane_dims(&self, i: usize) -> (r: (u32, u32))
        ensures
            r == (if i == 0 {
                (self.width, self.height)
            } else {
                (half_up(self.width), half_up(self.height))
            }),
    {
        if i == 0 {
            (self.width, self.height)
        } else {
            Self::chroma_dims(self.width, self.height)
        }
    }

    /// Plane `i` (0 is Y, 1 is Cb, 2 is Cr), tightly packed.
    pub fn plane(&self, i: usize) -> (r: &[u8])
        requires
            self.wf(),
            i < 3,
        ensures
            r@ == self.samples(i as int),
            r@.len() == Self::plane_len(self.width, self.height, i as int),
    {
        let (w, h) = self.plane_dims(i);
        let start: usize = self.offsets[i];
        proof {
            let cw = half_up(self.width) as int;
            let ch = half_up(self.height) as int;
            assert(cw * ch >= 0) by (nonlinear_arith)
                requires
                    cw >= 0,
                    ch >= 0,
            ;
            assert(self.width * self.height >= 0) by (nonlinear_arith)
                requires
                    self.width >= 0,
                    self.height >= 0,
            ;
        }
        let len: usize = w as usize * h as usize;
        vstd::slice::slice_subrange(self.data.as_slice(), start, start + len)
    }

    /// Copy a strided picture into one tight allocation. Refuses rather than truncates: a short
    /// plane is a geometry disagreement.
    pub fn from_i420(
        width: u32,
        height: u32,
        planes: [&[u8]; 3],
        strides: [usize; 3],
        color: ColorDesc,
        keyframe: bool,
        recovery: LocalRecovery,
    ) -> (r: Result<CpuPlanarFrame, PlanarError>)
        requires
            packed_bytes(width, height) <= usize::MAX,
        ensures
            width == 0 || height == 0 ==> r == Err::<CpuPlanarFrame, PlanarError>(
                PlanarError::Empty,
            ),
            width > 0 && height > 0 && strides@[0] < width ==> r == Err::<
                CpuPlanarFrame,
                PlanarError,
            >(PlanarError::NarrowStride { plane: 0 }),
            width > 0 && height > 0 && strides@[0] >= width && planes@[0]@.len() < (height - 1)
                * strides@[0] + width ==> r == Err::<CpuPlanarFrame, PlanarError>(
                PlanarError::ShortPlane { plane: 0 },
            ),
            r is Ok ==> width > 0 && height > 0 && strides@[0] >= width && 2 * strides@[1] >= width
                && 2 * strides@[2] >= width,
            r is Ok ==> planes@[0]@.len() >= (height - 1) * strides@[0] + width,
            r is Ok ==> planes@[1]@.len() >= ((height + 1) / 2 - 1) * strides@[1] + (width + 1) / 2,
            r is Ok ==> planes@[2]@.len() >= ((height + 1) / 2 - 1) * strides@[2] + (width + 1) / 2,
            ({
                let luma = width > 0 && height > 0 && strides@[0] >= width && planes@[0]@.len() >= (
                height - 1) * strides@[0] + width;
                let short = |i: int|
                    planes@[i]@.len() < ((height + 1) / 2 - 1) * strides@[i] + (width + 1) / 2;
                let narrow = |i: int| 2 * strides@[i] < width;
                &&& luma && narrow(1) ==> r == Err::<CpuPlanarFrame, PlanarError>(
                    PlanarError::NarrowStride { plane: 1 },
                )
                &&& luma && !narrow(1) && short(1) ==> r == Err::<CpuPlanarFrame, PlanarError>(
                    PlanarError::ShortPlane { plane: 1 },
                )
                &&& luma && !narrow(1) && !short(1) && narrow(2) ==> r == Err::<
                    CpuPlanarFrame,
                    PlanarError,
                >(PlanarError::NarrowStride { plane: 2 })
                &&& luma && !narrow(1) && !short(1) && !narrow(2) && short(2) ==> r == Err::<
                    CpuPlanarFrame,
                    PlanarError,
                >(PlanarError::ShortPlane { plane: 2 })
                &&& luma && !narrow(1) && !short(1) && !narrow(2) && !short(2) ==> r is Ok
            }),
            match picture_fault(width, height, planes@, strides@) {
                Some(e) => r == Err::<CpuPlanarFrame, PlanarError>(e),
                None => {
                    &&& r is Ok
                    &&& r->Ok_0.wf()
                    &&& r->Ok_0.width == width
                    &&& r->Ok_0.height == height
                    &&& r->Ok_0.color == color
                    &&& r->Ok_0.keyframe == keyframe
                    &&& r->Ok_0.recovery == recovery
                    &&& r->Ok_0.samples(0) == rows(
                        planes@[0]@,
                        strides@[0] as int,
                        width as int,
                        height as int,
                    )
                    &&& r->Ok_0.samples(1) == rows(
                        planes@[1]@,
                        strides@[1] as int,
                        half_up(width) as int,
                        half_up(height) as int,
                    )
                    &&& r->Ok_0.samples(2) == rows(
                        planes@[2]@,
                        strides@[2] as int,
                        half_up(width) as int,
                        half_up(height) as int,
                    )
                },
            },
    {
        if width == 0 || height == 0 {
            return Err(PlanarError::Empty);
        }
        let (cw, ch) = Self::chroma_dims(width, height);
        match check_plane(0, planes[0].len(), strides[0], width, height) {
            Some(e) => {
                return Err(e);
            },
            None => {},
        }
        match check_plane(1, planes[1].len(), strides[1], cw, ch) {
            Some(e) => {
                return Err(e);
            },
            None => {},
        }
        match check_plane(2, planes[2].len(), strides[2], cw, ch) {
            Some(e) => {
                return Err(e);
            },
            None => {},
        }
        let mut data: Vec<u8> = Vec::new();
        let ghost y = rows(planes@[0]@, strides@[0] as int, width as int, height as int);
        let ghost cb = rows(planes@[1]@, strides@[1] as int, cw as int, ch as int);
        let ghost cr = rows(planes@[2]@, strides@[2] as int, cw as int, ch as int);
        copy_plane(&mut data, planes[0], strides[0], width as usize, height as usize);
        assert(data@ =~= y);
        let at1: usize = data.len();
        copy_plane(&mut data, planes[1], strides[1], cw as usize, ch as usize);
        assert(data@ =~= y + cb);
        let at2: usize = data.len();
        copy_plane(&mut data, planes[2], strides[2], cw as usize, ch as usize);
        assert(data@ =~= y + cb + cr);
        let f = CpuPlanarFrame {
            width,
            height,
            data,
            offsets: [0, at1, at2],
            color,
            keyframe,
            recovery,
        };
        assert(f.samples(0) =~= y);
        assert(f.samples(1) =~= cb);
        assert(f.samples(2) =~= cr);
        Ok(f)
    }
}

fn check_plane(i: usize, len: usize, stride: usize, w: u32, h: u32) -> (r: Option<PlanarError>)
    requires
        h > 0,
    ensures
        r == plane_fault(i, len as int, stride as int, w as int, h as int),
{
    if stride < w as usize {
        return Some(PlanarError::NarrowStride { plane: i });
    }
    proof {
        assert((h - 1) * stride <= 0xffff_ffff * 0xffff_ffff_ffff_ffff) by (nonlinear_arith)
            requires
                0 <= h - 1 <= 0xffff_ffff,
                0 <= stride <= 0xffff_ffff_ffff_ffff,
        ;
        assert((h - 1) * stride >= 0) by (nonlinear_arith)
            requires
                0 <= h - 1,
                0 <= stride,
        ;
    }
    let need: u128 = (h as u128 - 1) * (stride as u128) + w as u128;
    if (len as u128) < need {
        Some(PlanarError::ShortPlane { plane: i })
    } else {
        None
    }
}

fn copy_plane(data: &mut Vec<u8>, plane: &[u8], stride: usize, w: usize, h: usize)
    requires
        h > 0,
        stride >= w,
        plane@.len() >= plane_bytes(stride as int, w as int, h as int),
    ensures
        final(data)@ == old(data)@ + rows(plane@, stride as int, w as int, h as int),
        rows(plane@, stride as int, w as int, h as int).len() == w * h,
{
    let n: usize = plane.len();
    let mut row: usize = 0;
    let mut src: usize = 0;
    let ghost start = data@;
    assert(data@ =~= start + rows(plane@, stride as int, w as int, 0));
    while row < h
        invariant
            n == plane@.len(),
            row <= h,
            h > 0,
            stride >= w,
            row < h ==> src == row * stride,
            plane@.len() >= plane_bytes(stride as int, w as int, h as int),
            data@ == start + rows(plane@, stride as int, w as int, row as int),
            rows(plane@, stride as int, w as int, row as int).len() == w * row,
        decreases h - row,
    {
        proof {
            assert(row * stride + w <= plane_bytes(stride as int, w as int, h as int)) by (nonlinear_arith)
                requires
                    row <= h - 1,
                    stride >= 0,
                    plane_bytes(stride as int, w as int, h as int) == (h - 1) * stride + w,
            ;
        }
        let ghost before = data@;
        let mut x: usize = 0;
        while x < w
            invariant
                x <= w,
                n == plane@.len(),
                src + w <= n,
                data@ == before + plane@.subrange(src as int, src + x),
            decreases w - x,
        {
            data.push(plane[src + x]);
            assert(data@ =~= before + plane@.subrange(src as int, src + x + 1));
            x = x + 1;
        }
        proof {
            let r = row + 1;
            assert(rows(plane@, stride as int, w as int, r) == rows(
                plane@,
                stride as int,
                w as int,
                row as int,
            ) + plane@.subrange(row * stride, row * stride + w));
            assert(data@ =~= start + rows(plane@, stride as int, w as int, r));
            assert(w * row + w == w * (row + 1)) by (nonlinear_arith);
            if row + 1 < h {
                assert((row + 1) * stride <= (h - 1) * stride) by (nonlinear_arith)
                    requires
                        row + 1 <= h - 1,
                        stride >= 0,
                ;
                assert((row + 1) * stride == row * stride + stride) by (nonlinear_arith);
            }
        }
        row = row + 1;
        if row < h {
            src = src + stride;
        }
    }
}

/// A packed picture's first sample of each row follows the last of the row before: row `r` of a
/// plane stands at `r` times its width.
pub proof fn rows_are_packed_without_padding(plane: Seq<u8>, stride: int, w: int, h: int, r: int)
    requires
        0 <= w <= stride,
        0 <= r < h,
        plane.len() >= plane_bytes(stride, w, h),
    ensures
        rows(plane, stride, w, h).len() == w * h,
        r * w + w <= w * h,
        rows(plane, stride, w, h).subrange(r * w, r * w + w) == plane.subrange(
            r * stride,
            r * stride + w,
        ),
    decreases h,
{
    rows_len(plane, stride, w, h);
    assert((h - 2) * stride + w <= (h - 1) * stride + w) by (nonlinear_arith)
        requires
            0 <= stride,
    ;
    rows_len(plane, stride, w, h - 1);
    assert(r * w + w <= w * h && 0 <= r * w) by (nonlinear_arith)
        requires
            0 <= r < h,
            0 <= w,
    ;
    if r == h - 1 {
        assert(w * (h - 1) == r * w) by (nonlinear_arith)
            requires
                r == h - 1,
        ;
        assert(rows(plane, stride, w, h).subrange(r * w, r * w + w) =~= plane.subrange(
            r * stride,
            r * stride + w,
        ));
    } else {
        rows_are_packed_without_padding(plane, stride, w, h - 1, r);
        assert(rows(plane, stride, w, h).subrange(r * w, r * w + w) =~= rows(
            plane,
            stride,
            w,
            h - 1,
        ).subrange(r * w, r * w + w));
    }
}

proof fn rows_len(plane: Seq<u8>, stride: int, w: int, h: int)
    requires
        0 <= w <= stride,
        0 <= h,
        h > 0 ==> plane.len() >= plane_bytes(stride, w, h),
    ensures
        rows(plane, stride, w, h).len() == w * h,
    decreases h,
{
    if h > 0 {
        assert((h - 2) * stride + w <= (h - 1) * stride + w) by (nonlinear_arith)
            requires
                0 <= stride,
        ;
        assert(0 <= (h - 1) * stride) by (nonlinear_arith)
            requires
                0 <= stride,
                0 < h,
        ;
        rows_len(plane, stride, w, h - 1);
        assert(w * (h - 1) + w == w * h) by (nonlinear_arith);
    } else {
        assert(w * h == 0) by (nonlinear_arith)
            requires
                h == 0,
        ;
    }
}

} // verus!
