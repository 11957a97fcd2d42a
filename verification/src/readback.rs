//! The buffer sizes of the YUV 4:2:0 frame readback.
//!
//! A frame of `width × height` pixels is read back as a Y plane of `width × height` bytes
//! followed by U and V planes of a quarter of that each, packed four bytes to an RGBA texel in
//! a render target `width` texels wide and `ceil(3 × height / 8)` texels high.
use vstd::prelude::*;

verus! {

#[derive(Debug, Clone, Copy, PartialEq, Eq, Structural)]
pub struct YuvReadbackLayout {
    pub width: u32,
    pub yuv_height: u32,
    pub output_byte_size: usize,
    pub packed_byte_size: usize,
}

/// The sizes fit in 32-bit arithmetic.
pub open spec fn readback_fits(width: u32, height: u32) -> bool {
    &&& height * 3 <= u32::MAX
    &&& width * height * 3 <= u32::MAX
    &&& width * ((height * 3 + 7) / 8) * 4 <= u32::MAX
}

/// The layout of a frame readback; odd dimensions cannot be subsampled and are refused. The
/// sizes of an even frame must fit in 32-bit arithmetic.
pub fn yuv_readback_layout(width: u32, height: u32) -> (r: Result<YuvReadbackLayout, &'static str>)
    requires
        width % 2 == 0 && height % 2 == 0 ==> readback_fits(width, height),
    ensures
        (width % 2 != 0 || height % 2 != 0) ==> r == Err::<YuvReadbackLayout, &'static str>(
            "YUV420 readback requires even dimensions",
        ),
        (width % 2 == 0 && height % 2 == 0) ==> (r matches Ok(l) && l.width == width
            && l.yuv_height == (height * 3 + 7) / 8 && l.output_byte_size == width * height * 3
            / 2 && l.packed_byte_size == width * l.yuv_height * 4),
{
    if width % 2 != 0 || height % 2 != 0 {
        return Err("YUV420 readback requires even dimensions");
    }
    let tripled: u32 = height * 3;
    let yuv_height: u32 = tripled / 8 + if tripled % 8 == 0 {
        0
    } else {
        1
    };
    assert(yuv_height == (height * 3 + 7) / 8);
    let area: u32 = width * height;
    assert(area * 3 == width * height * 3) by (nonlinear_arith)
        requires
            area == width * height,
    ;
    let output_byte_size = (area * 3 / 2) as usize;
    let packed: u32 = width * yuv_height;
    assert(packed * 4 == width * yuv_height * 4) by (nonlinear_arith)
        requires
            packed == width * yuv_height,
    ;
    let packed_byte_size = (packed * 4) as usize;
    Ok(YuvReadbackLayout { width, yuv_height, output_byte_size, packed_byte_size })
}

/// The packed render target holds the whole frame, so reading `output_byte_size` bytes from
/// it stays inside it.
pub proof fn lemma_packed_holds_frame(width: u32, height: u32)
    ensures
        width * ((height * 3 + 7) / 8) * 4 >= width * height * 3 / 2,
{
    let h = height as int;
    let w = width as int;
    let y = (h * 3 + 7) / 8;
    assert(y * 8 >= h * 3);
    assert(y * 4 * 2 >= h * 3);
    assert(w * (y * 4) * 2 >= w * (h * 3)) by (nonlinear_arith)
        requires
            y * 4 * 2 >= h * 3,
            w >= 0,
    ;
    assert(w * y * 4 == w * (y * 4)) by (nonlinear_arith);
    assert(w * h * 3 == w * (h * 3)) by (nonlinear_arith);
}

} // verus!
