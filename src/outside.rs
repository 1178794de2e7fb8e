//! Calls into std and outside crates whose results the library takes on trust.
use vstd::prelude::*;

verus! {

/// What `str::to_lowercase` returns for a string: it depends on the characters alone.
pub uninterp spec fn lower_of(s: Seq<char>) -> Seq<char>;

/// What the standard base64 engine writes for a byte string.
pub uninterp spec fn base64_of(b: Seq<u8>) -> Seq<char>;

/// The PNG file that the `image` crate writes for an RGBA frame, or `None` where the
/// pixel buffer does not fit the dimensions or the encoder fails.
pub uninterp spec fn png_of(width: u32, height: u32, rgba: Seq<u8>) -> Option<Seq<u8>>;

/// The port number `str::parse::<u16>` reads from a string, if any.
pub uninterp spec fn port_of(s: Seq<char>) -> Option<u16>;

/// Relies on `str::parse::<u16>`: a decimal number in range, or nothing.
#[verifier::external_body]
pub(crate) fn parse_port(s: &str) -> (r: Option<u16>)
    ensures
        r == port_of(s@),
{
    s.parse::<u16>().ok()
}

/// Relies on chrono's `Utc::now().timestamp_millis()`: the wall clock in milliseconds
/// since the Unix epoch. Nothing is promised of its value.
#[verifier::external_body]
pub(crate) fn now_millis() -> (r: i64) {
    chrono::Utc::now().timestamp_millis()
}

/// Relies on uuid's `Uuid::new_v4` and its `Display`: a fresh random identifier in text form.
/// Nothing is promised of its value.
#[verifier::external_body]
pub(crate) fn fresh_id() -> (r: String) {
    uuid::Uuid::new_v4().to_string()
}

/// Relies on `str::to_lowercase`; an empty string stays empty.
#[verifier::external_body]
pub(crate) fn lowercase(s: &str) -> (r: String)
    ensures
        r@ == lower_of(s@),
        s@.len() == 0 ==> r@.len() == 0,
{
    s.to_lowercase()
}

/// Relies on base64's `STANDARD.encode`: padded output, four characters for each started
/// group of three bytes. Its length computation overflows (and panics) only at or past
/// the bound in `requires`.
#[verifier::external_body]
pub(crate) fn base64_encode(b: &Vec<u8>) -> (r: String)
    requires
        b@.len() < 3 * (usize::MAX / 4),
    ensures
        r@ == base64_of(b@),
        r@.len() == 4 * ((b@.len() + 2) / 3),
{
    base64::Engine::encode(&base64::engine::general_purpose::STANDARD, b)
}

/// Relies on image's `RgbaImage::from_raw` (which refuses a buffer too short for the
/// dimensions) and `write_to` with `ImageFormat::Png`.
#[verifier::external_body]
pub(crate) fn png_encode(width: u32, height: u32, rgba: Vec<u8>) -> (r: Option<Vec<u8>>)
    ensures
        r matches Some(v) ==> png_of(width, height, rgba@) == Some(v@),
        r is None ==> png_of(width, height, rgba@) is None,
{
    let frame = image::RgbaImage::from_raw(width, height, rgba)?;
    let mut out = std::io::Cursor::new(Vec::new());
    frame.write_to(&mut out, image::ImageFormat::Png).ok()?;
    Some(out.into_inner())
}

} // verus!
