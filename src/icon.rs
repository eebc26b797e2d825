//! Which tray icon to show, and decoding of the bundled icon images.
use vstd::prelude::*;
use crate::actions::warp_program;
use crate::invocation::{Invocation, InvocationView};
use crate::text::{contains_bytes, has_substring};
use crate::theme::{ThemeReading, any_reports_dark, is_dark_mode_enabled};
use vstd::string::StringSliceAdditionalSpecFns;

verus! {

#[verifier::external_type_specification]
#[verifier::external_body]
pub struct ExImageError(image::ImageError);

/// The three icons the tray switches between.
#[derive(Clone, Copy, Debug, PartialEq, Eq, Structural)]
pub enum TrayIconKind {
    /// The client is disconnected.
    Inactive,
    /// Connected; drawn dark, for light panels.
    DarkActive,
    /// Connected; drawn light, for dark panels.
    LightActive,
}

/// The line the client prints in its status output while disconnected.
pub open spec fn disconnected_marker() -> Seq<u8> {
    "Status update: Disconnected".spec_bytes()
}

/// The client's status output says it is disconnected.
pub open spec fn is_disconnected(status_output: Seq<u8>) -> bool {
    has_substring(status_output, disconnected_marker())
}

/// The icon for a connected client: the light one on a dark desktop.
pub open spec fn active_icon(dark_mode: bool) -> TrayIconKind {
    if dark_mode {
        TrayIconKind::LightActive
    } else {
        TrayIconKind::DarkActive
    }
}

/// The icon to show after a poll that read `status_output` and `readings`.
pub open spec fn icon_for(status_output: Seq<u8>, readings: Seq<ThemeReading>) -> TrayIconKind {
    if is_disconnected(status_output) {
        TrayIconKind::Inactive
    } else {
        active_icon(any_reports_dark(readings))
    }
}

/// The client command whose output each poll reads.
pub fn status_query() -> (r: Invocation)
    ensures
        r@ == (InvocationView { program: warp_program(), args: seq!["status"@] }),
{
    let r = Invocation::new("warp-cli", &["status"]);
    assert(r@.args =~= seq!["status"@]);
    r
}

/// Whether the client's status output reports a disconnected state.
pub fn is_warp_disconnected(status_output: &[u8]) -> (r: bool)
    ensures
        r == is_disconnected(status_output@),
{
    contains_bytes(status_output, "Status update: Disconnected".as_bytes())
}

/// The icon for a connected client under the given theme.
pub fn get_active_tray_icon(dark_mode: bool) -> (r: TrayIconKind)
    ensures
        r == active_icon(dark_mode),
{
    if dark_mode {
        TrayIconKind::LightActive
    } else {
        TrayIconKind::DarkActive
    }
}

/// The icon to show after one poll: inactive whenever the status output
/// holds the disconnected marker, whatever the theme; otherwise the active
/// icon that suits the theme the readings report. The theme readings are
/// not consulted while disconnected.
pub fn icon_after_poll(status_output: &[u8], readings: &[ThemeReading]) -> (r: TrayIconKind)
    ensures
        r == icon_for(status_output@, readings@),
        is_disconnected(status_output@) ==> r == TrayIconKind::Inactive,
        !is_disconnected(status_output@) ==> r != TrayIconKind::Inactive,
{
    if is_warp_disconnected(status_output) {
        TrayIconKind::Inactive
    } else {
        get_active_tray_icon(is_dark_mode_enabled(readings))
    }
}

impl TrayIconKind {
    /// The name of the bundled image file for this icon.
    pub fn file_name(&self) -> (r: &'static str)
        ensures
            r@ == icon_file_name(*self),
    {
        match self {
            TrayIconKind::Inactive => "cloudflare-inactive.ico",
            TrayIconKind::DarkActive => "cloudflare-dark-active.ico",
            TrayIconKind::LightActive => "cloudflare-light-active.ico",
        }
    }
}

/// The image file of each icon.
pub open spec fn icon_file_name(kind: TrayIconKind) -> Seq<char> {
    match kind {
        TrayIconKind::Inactive => "cloudflare-inactive.ico"@,
        TrayIconKind::DarkActive => "cloudflare-dark-active.ico"@,
        TrayIconKind::LightActive => "cloudflare-light-active.ico"@,
    }
}

/// What an encoded image decodes to: its RGBA pixels (8 bits a channel,
/// row by row), width and height; `None` where it cannot be decoded.
pub uninterp spec fn decoded_rgba8(data: Seq<u8>) -> Option<(Seq<u8>, u32, u32)>;

/// Relies on `image::load_from_memory`, which guesses the format from the
/// bytes and decodes them, and on `DynamicImage::to_rgba8`, which copies the
/// result into a fresh RGBA buffer of exactly width * height * 4 bytes.
#[verifier::external_body]
fn decode_rgba8(data: &[u8]) -> (r: Result<(Vec<u8>, u32, u32), image::ImageError>)
    ensures
        match r {
            Ok((px, w, h)) => decoded_rgba8(data@) == Some((px@, w, h)) && px@.len() == 4 * w * h,
            Err(_) => decoded_rgba8(data@) is None,
        },
{
    let img = image::load_from_memory(data)?;
    let rgba = img.to_rgba8();
    let (w, h) = rgba.dimensions();
    Ok((rgba.into_raw(), w, h))
}

/// Decoded icon pixels, ready to be handed to the tray.
pub struct IconPixels {
    pub rgba: Vec<u8>,
    pub width: u32,
    pub height: u32,
}

impl IconPixels {
    /// Four bytes for each of the width * height pixels: exactly what a
    /// tray icon built from RGBA data accepts.
    pub open spec fn wf(&self) -> bool {
        self.rgba@.len() == 4 * self.width * self.height
    }
}

/// Why an icon image could not be loaded.
#[derive(Clone, Copy, Debug, PartialEq, Eq, Structural)]
pub enum IconError {
    /// The bytes are not an image in a supported format.
    Undecodable,
}

/// Decodes an icon image into RGBA pixels.
pub fn load_tray_icon(image_data: &[u8]) -> (r: Result<IconPixels, IconError>)
    ensures
        match r {
            Ok(p) => p.wf() && decoded_rgba8(image_data@) == Some((p.rgba@, p.width, p.height)),
            Err(e) => e == IconError::Undecodable && decoded_rgba8(image_data@) is None,
        },
{
    match decode_rgba8(image_data) {
        Ok((rgba, width, height)) => Ok(IconPixels { rgba, width, height }),
        Err(_) => Err(IconError::Undecodable),
    }
}

} // verus!
