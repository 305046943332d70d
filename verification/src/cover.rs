//! The picture of a book's cover, shown inline as a data URL.
use vstd::prelude::*;
use vstd::string::StringExecFns;
use base64::Engine;

verus! {

/// The standard Base64 encoding (with padding) of `bytes`, as the `base64`
/// crate computes it.
pub uninterp spec fn base64_standard(bytes: Seq<u8>) -> Seq<char>;

/// Calls `Engine::encode` of `base64::engine::general_purpose::STANDARD`:
/// the result is the named standard encoding of `bytes`.
#[verifier::external_body]
fn base64_encode(bytes: &[u8]) -> (encoded: String)
    ensures
        encoded@ == base64_standard(bytes@),
{
    base64::engine::general_purpose::STANDARD.encode(bytes)
}

/// The prefix of the data URL of a cover picture.
pub open spec fn data_url_prefix() -> Seq<char> {
    "data:png;base64,"@
}

/// The data URL of a picture is `data:png;base64,` followed by the standard
/// Base64 encoding of its bytes.
pub proof fn law_data_url(image: Seq<u8>)
    ensures
        data_url_prefix() + base64_standard(image) == "data:png;base64,"@ + base64_standard(image),
{
}

/// The data URL that shows the picture `image`.
pub fn image_data_url(image: &Vec<u8>) -> (url: String)
    ensures
        url@ == data_url_prefix() + base64_standard(image@),
{
    let encoded = base64_encode(image.as_slice());
    "data:png;base64,".to_owned().concat(encoded.as_str())
}

/// The source of the cover picture of a book: shown only when the book has
/// a picture.
pub fn cover_source(image: &Option<Vec<u8>>) -> (src: Option<String>)
    ensures
        src is Some <==> image is Some,
        src matches Some(u) ==> u@ == data_url_prefix() + base64_standard(image->0@),
{
    match image {
        Some(bytes) => Some(image_data_url(bytes)),
        None => None,
    }
}

} // verus!
