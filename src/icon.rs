use vstd::prelude::*;

verus! {

/// What `image` decodes from the encoded bytes `bytes`, converted to 8-bit
/// RGBA: the pixel buffer, the width and the height; `None` where the bytes
/// cannot be decoded.
pub uninterp spec fn decoded_rgba(bytes: Seq<u8>) -> Option<(Seq<u8>, u32, u32)>;

/// Relies on image::load_from_memory to guess the format and decode the
/// bytes, and on DynamicImage::into_rgba8 and ImageBuffer::into_raw for the
/// RGBA buffer, which an ImageBuffer keeps at least four bytes per pixel long.
#[verifier::external_body]
fn decode_rgba(bytes: &[u8]) -> (r: Option<(Vec<u8>, u32, u32)>)
    ensures
        match r {
            Some((px, w, h)) => decoded_rgba(bytes@) == Some((px@, w, h)) && px@.len() >= 4 * w * h,
            None => decoded_rgba(bytes@) is None,
        },
{
    let image = image::load_from_memory(bytes).ok()?.into_rgba8();
    let (width, height) = image.dimensions();
    Some((image.into_raw(), width, height))
}

/// A window icon: unmultiplied RGBA pixels, four bytes each, row by row.
pub struct Icon {
    pub rgba: Vec<u8>,
    pub width: u32,
    pub height: u32,
}

impl Icon {
    /// The pixel buffer holds exactly four bytes for each pixel.
    pub open spec fn wf(&self) -> bool {
        self.rgba@.len() == 4 * self.width * self.height
    }

    pub open spec fn view(&self) -> (Seq<u8>, u32, u32) {
        (self.rgba@, self.width, self.height)
    }
}

/// The icon made of an RGBA buffer of `width` by `height` pixels: its first
/// four bytes per pixel, or `None` where it holds fewer.
pub open spec fn icon_of(px: Seq<u8>, width: u32, height: u32) -> Option<(Seq<u8>, u32, u32)> {
    if px.len() >= 4 * width * height {
        Some((px.subrange(0, 4 * width * height), width, height))
    } else {
        None
    }
}

/// The icon made of what was decoded, if anything was.
pub open spec fn icon_of_decoded(decoded: Option<(Seq<u8>, u32, u32)>) -> Option<(Seq<u8>, u32, u32)> {
    match decoded {
        Some((px, w, h)) => icon_of(px, w, h),
        None => None,
    }
}

/// Makes an icon of `width` by `height` pixels from an RGBA buffer, dropping
/// any bytes past the last pixel; `None` where the buffer is too short.
pub fn icon_from_rgba(px: Vec<u8>, width: u32, height: u32) -> (r: Option<Icon>)
    ensures
        match r {
            Some(icon) => icon.wf() && icon_of(px@, width, height) == Some(icon.view()),
            None => icon_of(px@, width, height) is None,
        },
{
    proof {
        assert(width * height <= u32::MAX * u32::MAX) by (nonlinear_arith)
            requires
                width <= u32::MAX,
                height <= u32::MAX,
        ;
    }
    let pixels: u64 = width as u64 * height as u64;
    let available: u64 = (px.len() / 4) as u64;
    if pixels > available {
        proof {
            assert(px@.len() < 4 * width * height) by (nonlinear_arith)
                requires
                    pixels == width * height,
                    pixels > available,
                    available == px@.len() / 4,
            ;
        }
        None
    } else {
        let len: usize = (pixels * 4) as usize;
        proof {
            assert(len == 4 * width * height && len <= px@.len()) by (nonlinear_arith)
                requires
                    pixels == width * height,
                    pixels <= available,
                    available == px@.len() / 4,
                    len == pixels * 4,
            ;
        }
        let mut rgba = px;
        rgba.truncate(len);
        Some(Icon { rgba, width, height })
    }
}

/// Decodes an encoded image (a PNG, for one) into a window icon; `None`
/// where the bytes cannot be decoded.
pub fn load_icon(bytes: &[u8]) -> (r: Option<Icon>)
    ensures
        match r {
            Some(icon) => icon.wf() && icon_of_decoded(decoded_rgba(bytes@)) == Some(icon.view()),
            None => icon_of_decoded(decoded_rgba(bytes@)) is None,
        },
{
    match decode_rgba(bytes) {
        Some((px, width, height)) => icon_from_rgba(px, width, height),
        None => None,
    }
}

} // verus!
