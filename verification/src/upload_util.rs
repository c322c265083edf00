//! Upload payload helpers: field naming and the base64 body form.

use vstd::prelude::*;

verus! {

/// The default multipart field name for the file part.
pub fn default_field_name() -> (r: String)
    ensures
        r@ == "file"@,
{
    String::from_str("file")
}

/// What standard base64 encoding produces for a byte sequence: a pure
/// function of the bytes.
pub uninterp spec fn base64_of(b: Seq<u8>) -> Seq<char>;

/// Relies on base64's STANDARD engine: the encoding is a pure function
/// of the bytes, four output characters for every three input bytes,
/// padded.
#[verifier::external_body]
fn base64_encode_standard(data: &Vec<u8>) -> (r: String)
    ensures
        r@ == base64_of(data@),
        r@.len() == 4 * ((data@.len() + 2) / 3),
{
    base64::Engine::encode(&base64::engine::general_purpose::STANDARD, data.as_slice())
}

/// The JSON field of a base64 upload: the configured key, or `image`
/// when none is set, paired with the encoded file bytes.
pub fn base64_body_field(data: &Vec<u8>, json_key: Option<String>) -> (r: (String, String))
    ensures
        r.0@ == match json_key {
            Some(k) => k@,
            None => "image"@,
        },
        r.1@ == base64_of(data@),
{
    let key = match json_key {
        Some(k) => k,
        None => String::from_str("image"),
    };
    let encoded = base64_encode_standard(data);
    (key, encoded)
}

/// The file name an upload reports: the configured override when one
/// is set, else the name taken from the path.
pub fn effective_file_name(file_name: Option<String>, default_name: &str) -> (r: String)
    ensures
        r@ == match file_name {
            Some(n) => n@,
            None => default_name@,
        },
{
    match file_name {
        Some(n) => n,
        None => String::from_str(default_name),
    }
}

} // verus!
