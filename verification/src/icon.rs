use vstd::prelude::*;

verus! {

/// Calls `image::load_from_memory`, which guesses the format from the bytes,
/// converts the image with `to_rgba8` and splits it with `dimensions` and
/// `into_raw`; a decoder error is turned into its `Display` text.
///
/// Format guessing and decoder choice consult hook registries that any code in
/// the process may fill, so the result is not stated as a function of the
/// bytes. Claimed of every outcome: a decoded sample buffer holds at least four
/// bytes per pixel (the invariant that every constructor of
/// `image::ImageBuffer` checks).
#[verifier::external_body]
fn decode_rgba8(bytes: &[u8]) -> (res: Result<(Vec<u8>, u32, u32), String>)
    ensures
        res matches Ok((rgba, width, height)) ==> rgba@.len() >= 4 * width * height,
{
    match image::load_from_memory(bytes) {
        Ok(decoded) => {
            let rgba = decoded.to_rgba8();
            let (width, height) = rgba.dimensions();
            Ok((rgba.into_raw(), width, height))
        },
        Err(error) => Err(error.to_string()),
    }
}

/// A decoded icon: RGBA8 samples, row by row, and the pixel size.
#[derive(Debug, PartialEq, Eq)]
pub struct IconImage {
    pub rgba: Vec<u8>,
    pub width: u32,
    pub height: u32,
}

impl IconImage {
    /// The sample buffer covers every pixel with four bytes.
    pub open spec fn wf(&self) -> bool {
        self.rgba@.len() >= 4 * self.width * self.height
    }
}

/// Why an icon could not be loaded.
#[derive(Debug, PartialEq, Eq)]
pub enum IconError {
    /// The bytes are not an image the decoder accepts; the decoder's message.
    Undecodable(String),
}

/// Turns what the decoder returned into an icon: the samples and size are
/// kept as they are, and a failure keeps the decoder's message.
pub fn icon_from_decoded(decoded: Result<(Vec<u8>, u32, u32), String>) -> (res: Result<
    IconImage,
    IconError,
>)
    ensures
        match decoded {
            Ok((rgba, width, height)) => res matches Ok(icon) && icon.rgba@ == rgba@
                && icon.width == width && icon.height == height,
            Err(message) => res matches Err(IconError::Undecodable(m)) && m@ == message@,
        },
{
    match decoded {
        Ok((rgba, width, height)) => Ok(IconImage { rgba, width, height }),
        Err(message) => Err(IconError::Undecodable(message)),
    }
}

/// Decodes an icon image (PNG for the app's own glyphs) into RGBA8 samples; a
/// decoder failure is handed back with the decoder's message. Whichever
/// outcome the decoder gives, a decoded icon covers all its pixels.
pub fn load_icon_from_png(bytes: &[u8]) -> (res: Result<IconImage, IconError>)
    ensures
        res matches Ok(icon) ==> icon.wf(),
{
    let decoded = decode_rgba8(bytes);
    icon_from_decoded(decoded)
}

} // verus!
