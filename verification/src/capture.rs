use vstd::prelude::*;

use vstd::std_specs::bits::axiom_u64_trailing_zeros;
use vstd::std_specs::bits::u64_trailing_zeros;

use crate::errors::EngineError;
use crate::model::WindowModel;
use crate::model::has_window;
use crate::model::node_at;
use crate::session::PixelGrab;
use crate::session::WindowSession;

verus! {

/// How far the channel of this mask sits above bit zero: the mask's trailing
/// zero count (zero for an empty mask). The shift is derived from the mask,
/// never hard-coded, since pixel packing varies by server and hardware.
pub open spec fn shift_of(mask: u64) -> u32 {
    if mask == 0 {
        0
    } else {
        u64_trailing_zeros(mask)
    }
}

/// One channel of a packed native pixel word: mask, shift down by the mask's
/// position, truncate to the low eight bits. No rounding, no scaling.
pub open spec fn channel_value(pixel: u64, mask: u64) -> u8 {
    (((pixel & mask) >> (shift_of(mask) as u64)) & 0xFF) as u8
}

/// A portable RGB raster, as a mathematical value: one byte per channel,
/// row-major, origin top-left.
pub ghost struct RasterModel {
    pub width: u32,
    pub height: u32,
    pub rgb: Seq<(u8, u8, u8)>,
}

/// What decoding a raw capture yields: every native pixel word decoded
/// channel by channel with the capture's masks.
pub open spec fn decode_model(
    width: u32,
    height: u32,
    pixels: Seq<u64>,
    red_mask: u64,
    green_mask: u64,
    blue_mask: u64,
) -> RasterModel {
    RasterModel {
        width,
        height,
        rgb: Seq::new(
            pixels.len(),
            |i: int|
                (
                    channel_value(pixels[i], red_mask),
                    channel_value(pixels[i], green_mask),
                    channel_value(pixels[i], blue_mask),
                ),
        ),
    }
}

/// What capturing a window yields: its geometry must be readable and its
/// pixels must be readable, each failure naming the window; on success, the
/// raster decoded from its native pixels.
pub open spec fn capture_outcome(n: WindowModel) -> Result<RasterModel, EngineError> {
    if !n.geom_ok {
        Err(EngineError::Geometry { window: n.handle })
    } else if !n.image_ok {
        Err(EngineError::PixelRead { window: n.handle })
    } else {
        Ok(decode_model(n.width, n.height, n.pixels, n.red_mask, n.green_mask, n.blue_mask))
    }
}

/// Derive the shift amount of a channel mask.
pub fn mask_shift(mask: u64) -> (s: u32)
    ensures
        s == shift_of(mask),
        s < 64,
{
    proof {
        axiom_u64_trailing_zeros(mask);
    }
    if mask == 0 {
        0
    } else {
        mask.trailing_zeros()
    }
}

/// Extract one channel of a packed native pixel word by mask and derived
/// shift, truncated to eight bits.
pub fn decode_channel(pixel: u64, mask: u64) -> (c: u8)
    ensures
        c == channel_value(pixel, mask),
{
    let s = mask_shift(mask);
    (((pixel & mask) >> (s as u64)) & 0xFF) as u8
}

/// A dense width x height grid of RGB triples, one byte per channel,
/// row-major, origin top-left.
#[derive(Debug)]
pub struct RasterImage {
    width: u32,
    height: u32,
    data: Vec<u8>,
}

impl View for RasterImage {
    type V = RasterModel;

    closed spec fn view(&self) -> RasterModel {
        RasterModel {
            width: self.width,
            height: self.height,
            rgb: Seq::new(
                self.data@.len() / 3,
                |i: int| (self.data@[3 * i], self.data@[3 * i + 1], self.data@[3 * i + 2]),
            ),
        }
    }
}

impl RasterImage {
    /// The byte grid holds exactly three bytes for each of width * height
    /// pixels.
    pub closed spec fn well_formed(&self) -> bool {
        self.data@.len() == 3 * (self.width as int) * (self.height as int)
    }

    pub fn width(&self) -> (w: u32)
        ensures
            w == self@.width,
    {
        self.width
    }

    pub fn height(&self) -> (h: u32)
        ensures
            h == self@.height,
    {
        self.height
    }

    /// A raster of the given size with every pixel black.
    pub fn blank(width: u32, height: u32) -> (img: RasterImage)
        requires
            3 * (width as int) * (height as int) <= usize::MAX as int,
        ensures
            img.well_formed(),
            img@.width == width,
            img@.height == height,
            forall|i: int| 0 <= i < img@.rgb.len() ==> img@.rgb[i] == (0u8, 0u8, 0u8),
    {
        proof {
            assert(3 * ((width as int) * (height as int)) == 3 * (width as int) * (height as int))
                by (nonlinear_arith);
        }
        let n64 = 3u64 * (width as u64) * (height as u64);
        let n = n64 as usize;
        let mut data: Vec<u8> = Vec::new();
        let mut i: usize = 0;
        while i < n
            invariant
                i <= n,
                data@.len() == i,
                forall|j: int| 0 <= j < i ==> data@[j] == 0u8,
            decreases n - i,
        {
            data.push(0u8);
            i = i + 1;
        }
        RasterImage { width, height, data }
    }

    /// A fresh raster with the same size and pixels.
    pub fn duplicate(&self) -> (r: RasterImage)
        ensures
            r@ == self@,
            r.well_formed() == self.well_formed(),
    {
        let mut data: Vec<u8> = Vec::new();
        let mut i: usize = 0;
        while i < self.data.len()
            invariant
                i <= self.data@.len(),
                data@ == self.data@.take(i as int),
            decreases self.data@.len() - i,
        {
            data.push(self.data[i]);
            i = i + 1;
            proof {
                assert(data@ =~= self.data@.take(i as int));
            }
        }
        proof {
            assert(data@ =~= self.data@);
        }
        let r = RasterImage { width: self.width, height: self.height, data };
        proof {
            assert(r@.rgb =~= self@.rgb);
        }
        r
    }

    /// The RGB triple at (x, y); the origin is the top-left corner.
    pub fn pixel_at(&self, x: u32, y: u32) -> (c: (u8, u8, u8))
        requires
            self.well_formed(),
            x < self@.width,
            y < self@.height,
        ensures
            c == self@.rgb[(y as int) * (self@.width as int) + (x as int)],
    {
        proof {
            assert((y as int) * (self.width as int) + (x as int) < (self.height as int) * (
            self.width as int)) by (nonlinear_arith)
                requires
                    x < self.width,
                    y < self.height,
            ;
            assert((self.height as int) * (self.width as int) <= 0xffffffff * 0xffffffff)
                by (nonlinear_arith)
                requires
                    self.height <= 0xffffffffu32,
                    self.width <= 0xffffffffu32,
            ;
            assert(3 * ((self.height as int) * (self.width as int)) == 3 * (self.width as int) * (
            self.height as int)) by (nonlinear_arith);
        }
        let idx64 = (y as u64) * (self.width as u64) + (x as u64);
        proof {
            assert(3 * (idx64 as int) + 2 < self.data@.len());
            assert(idx64 < self.data@.len());
        }
        let idx = idx64 as usize;
        let n = self.data.len();
        proof {
            assert(3 * (idx as int) + 2 < n);
        }
        let r = self.data[3 * idx];
        let g = self.data[3 * idx + 1];
        let b = self.data[3 * idx + 2];
        (r, g, b)
    }
}

/// Decode a raw capture into a portable RGB raster: for every pixel in
/// row-major order, extract each channel by mask and derived shift and
/// truncate it to eight bits.
pub fn decode_grab(grab: &PixelGrab, width: u32, height: u32) -> (img: RasterImage)
    requires
        grab.pixels@.len() == (width as int) * (height as int),
    ensures
        img.well_formed(),
        img@ == decode_model(
            width,
            height,
            grab.pixels@,
            grab.red_mask,
            grab.green_mask,
            grab.blue_mask,
        ),
{
    let mut data: Vec<u8> = Vec::new();
    let mut i: usize = 0;
    while i < grab.pixels.len()
        invariant
            i <= grab.pixels@.len(),
            grab.pixels@.len() == (width as int) * (height as int),
            data@.len() == 3 * i,
            forall|j: int|
                0 <= j < i ==> {
                    &&& data@[3 * j] == channel_value(grab.pixels@[j], grab.red_mask)
                    &&& data@[3 * j + 1] == channel_value(grab.pixels@[j], grab.green_mask)
                    &&& data@[3 * j + 2] == channel_value(grab.pixels@[j], grab.blue_mask)
                },
        decreases grab.pixels@.len() - i,
    {
        let p = grab.pixels[i];
        data.push(decode_channel(p, grab.red_mask));
        data.push(decode_channel(p, grab.green_mask));
        data.push(decode_channel(p, grab.blue_mask));
        i = i + 1;
    }
    let img = RasterImage { width, height, data };
    proof {
        assert(3 * ((width as int) * (height as int)) == 3 * (width as int) * (height as int))
            by (nonlinear_arith);
        assert(img@.rgb =~= decode_model(
            width,
            height,
            grab.pixels@,
            grab.red_mask,
            grab.green_mask,
            grab.blue_mask,
        ).rgb);
    }
    img
}

/// Capture the window as a portable RGB raster: read its geometry, read its
/// raw pixels for the full window rectangle, and decode them by
/// mask-and-shift. Each failure is terminal for this capture call and names
/// the window; nothing is retried.
pub fn capture_window<S: WindowSession>(sess: &mut S, w: u64, node: Ghost<WindowModel>) -> (r:
    Result<RasterImage, EngineError>)
    requires
        has_window(old(sess).model(), w),
        node_at(old(sess).model(), w) == node@,
        node@.handle == w,
        node@.pixels.len() == (node@.width as int) * (node@.height as int),
    ensures
        final(sess).model() == old(sess).model(),
        final(sess).acquires() == old(sess).acquires(),
        final(sess).releases() == old(sess).releases(),
        match r {
            Ok(img) => capture_outcome(node@) == Ok::<RasterModel, EngineError>(img@)
                && img.well_formed(),
            Err(e) => capture_outcome(node@) == Err::<RasterModel, EngineError>(e),
        },
{
    let g = match sess.get_geometry(w) {
        Ok(g) => g,
        Err(_) => {
            return Err(EngineError::Geometry { window: w });
        },
    };
    let grab = match sess.get_image(w, g.width, g.height) {
        Ok(p) => p,
        Err(_) => {
            return Err(EngineError::PixelRead { window: w });
        },
    };
    let img = decode_grab(&grab, g.width, g.height);
    Ok(img)
}

} // verus!
