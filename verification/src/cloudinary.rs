//! The cover image: handing a place's photo to the image host.

use crate::http::{Exchange, ExchangeView, Method, Payload, PayloadView, Request, RequestView};
use crate::text::{signed_decimal, signed_decimal_text};
use sha1::Digest;
use vstd::prelude::*;
use vstd::string::*;

verus! {

/// The account at the image host.
#[derive(Clone, Debug, PartialEq, Eq)]
pub struct CloudinaryConfig {
    pub cloud_name: String,
    pub api_key: String,
    pub api_secret: String,
}

/// The mathematical value of a [`CloudinaryConfig`].
pub ghost struct CloudinaryConfigView {
    pub cloud_name: Seq<char>,
    pub api_key: Seq<char>,
    pub api_secret: Seq<char>,
}

impl View for CloudinaryConfig {
    type V = CloudinaryConfigView;

    open spec fn view(&self) -> CloudinaryConfigView {
        CloudinaryConfigView {
            cloud_name: self.cloud_name@,
            api_key: self.api_key@,
            api_secret: self.api_secret@,
        }
    }
}

/// The SHA-1 digest of the UTF-8 bytes of `message`, written as forty
/// lower-case hexadecimal digits.
pub uninterp spec fn sha1_hex(message: Seq<char>) -> Seq<char>;

/// Calls `sha1::Sha1::digest` on the bytes of `message` and formats the
/// twenty bytes it returns with `{:x}`. Nothing is proved of the digest: the
/// contract only gives the result its name.
#[verifier::external_body]
fn sha1_hex_of(message: &str) -> (hex: String)
    ensures
        hex@ == sha1_hex(message@),
{
    format!("{:x}", sha1::Sha1::digest(message.as_bytes()))
}

/// Calls `chrono::Utc::now().timestamp()`: the seconds since the Unix epoch
/// by the system clock. Nothing is claimed of the value. The call panics on
/// a machine whose clock is set before 1970.
#[verifier::external_body]
pub(crate) fn current_timestamp() -> (seconds: i64) {
    chrono::Utc::now().timestamp()
}

/// Where the places provider serves the photo with the given reference.
pub open spec fn photo_url(reference: Seq<char>, google_api_key: Seq<char>) -> Seq<char> {
    "https://maps.googleapis.com/maps/api/place/photo?maxwidth=800&photoreference="@ + reference
        + "&key="@ + google_api_key
}

/// The text whose digest signs an upload made at `timestamp`.
pub open spec fn signature_base(timestamp: int, api_secret: Seq<char>) -> Seq<char> {
    "timestamp="@ + signed_decimal(timestamp) + api_secret
}

/// The request that has the image host fetch the image at `source` and keep
/// it, signed with `signature` for the time `timestamp`.
pub open spec fn signed_upload(
    config: CloudinaryConfigView,
    source: Seq<char>,
    timestamp: int,
    signature: Seq<char>,
) -> RequestView {
    RequestView {
        method: Method::Post,
        url: "https://api.cloudinary.com/v1_1/"@ + config.cloud_name + "/image/upload"@,
        query: Seq::empty(),
        headers: Seq::empty(),
        payload: PayloadView::Form(
            seq![
                ("file"@, source),
                ("api_key"@, config.api_key),
                ("timestamp"@, signed_decimal(timestamp)),
                ("signature"@, signature),
            ],
        ),
    }
}

/// The upload request for the photo with the given reference, made at
/// `timestamp`.
pub open spec fn upload_request(
    config: CloudinaryConfigView,
    google_api_key: Seq<char>,
    reference: Seq<char>,
    timestamp: int,
) -> RequestView {
    signed_upload(
        config,
        photo_url(reference, google_api_key),
        timestamp,
        sha1_hex(signature_base(timestamp, config.api_secret)),
    )
}

/// The upload request for a place: none where the place has no photo.
pub open spec fn cover_request(
    config: CloudinaryConfigView,
    google_api_key: Seq<char>,
    photo_reference: Option<Seq<char>>,
    timestamp: int,
) -> Option<RequestView> {
    match photo_reference {
        Some(reference) => Some(upload_request(config, google_api_key, reference, timestamp)),
        None => None,
    }
}

/// The address under which the image host keeps the uploaded image: what its
/// answer gives as `secure_url`. Any exchange without such a text, failed or
/// not, yields none.
pub open spec fn uploaded_url(exchange: ExchangeView) -> Option<Seq<char>> {
    match exchange.document() {
        Ok(answer) => answer.member("secure_url"@).as_text(),
        Err(_) => None,
    }
}

/// The warning that goes with a place that has no photo to upload.
pub open spec fn missing_photo_warning() -> Seq<char> {
    "Failed to upload image: No photo reference provided"@
}

/// The warning that an exchange with the image host calls for: none where it
/// gave the address of the uploaded image, and otherwise what kept it from
/// doing so.
pub open spec fn upload_warning(exchange: ExchangeView) -> Option<Seq<char>> {
    match exchange.document() {
        Err(reason) => Some("Failed to upload image: "@ + reason),
        Ok(answer) => if answer.member("secure_url"@).as_text() is Some {
            None
        } else {
            Some("Failed to upload image: Failed to upload image to Cloudinary"@)
        },
    }
}

/// The request that has the image host fetch the image at `source` and keep
/// it, signed with `signature` for the time `timestamp`.
pub fn signed_upload_request(
    config: &CloudinaryConfig,
    source: String,
    timestamp: i64,
    signature: String,
) -> (request: Request)
    ensures
        request@ == signed_upload(config@, source@, timestamp as int, signature@),
{
    let mut url = "https://api.cloudinary.com/v1_1/".to_owned();
    url.append(config.cloud_name.as_str());
    url.append("/image/upload");
    let mut fields: Vec<(String, String)> = Vec::new();
    fields.push(("file".to_owned(), source));
    fields.push(("api_key".to_owned(), config.api_key.clone()));
    fields.push(("timestamp".to_owned(), signed_decimal_text(timestamp)));
    fields.push(("signature".to_owned(), signature));
    assert(fields.deep_view() =~= seq![
        ("file"@, source@),
        ("api_key"@, config@.api_key),
        ("timestamp"@, signed_decimal(timestamp as int)),
        ("signature"@, signature@),
    ]);
    Request {
        method: Method::Post,
        url,
        query: Vec::new(),
        headers: Vec::new(),
        payload: Payload::Form(fields),
    }
}

/// The upload request for a place's photo, made at `timestamp`: none where the
/// place has no photo.
pub fn upload_image_at(
    config: &CloudinaryConfig,
    google_api_key: &str,
    photo_reference: &Option<String>,
    timestamp: i64,
) -> (request: Option<Request>)
    ensures
        request.deep_view() == cover_request(
            config@,
            google_api_key@,
            photo_reference.deep_view(),
            timestamp as int,
        ),
{
    match photo_reference {
        Some(reference) => {
            let mut source =
                "https://maps.googleapis.com/maps/api/place/photo?maxwidth=800&photoreference=".to_owned();
            source.append(reference.as_str());
            source.append("&key=");
            source.append(google_api_key);
            let mut base = "timestamp=".to_owned();
            let seconds = signed_decimal_text(timestamp);
            base.append(seconds.as_str());
            base.append(config.api_secret.as_str());
            let signature = sha1_hex_of(base.as_str());
            Some(signed_upload_request(config, source, timestamp, signature))
        },
        None => None,
    }
}

/// The upload request for a place's photo, made now: none where the place has
/// no photo, and otherwise the request for some reading of the clock.
pub fn upload_image(
    config: &CloudinaryConfig,
    google_api_key: &str,
    photo_reference: &Option<String>,
) -> (request: Option<Request>)
    ensures
        exists|timestamp: i64|
            request.deep_view() == cover_request(
                config@,
                google_api_key@,
                photo_reference.deep_view(),
                timestamp as int,
            ),
{
    let timestamp = current_timestamp();
    upload_image_at(config, google_api_key, photo_reference, timestamp)
}

/// The address under which the image host keeps the uploaded image, where the
/// exchange gives one.
pub fn cover_url(exchange: Exchange) -> (url: Option<String>)
    ensures
        url.deep_view() == uploaded_url(exchange@),
{
    match exchange.into_document() {
        Ok(answer) => match answer.member_text("secure_url") {
            Some(url) => Some(url.to_owned()),
            None => None,
        },
        Err(_) => None,
    }
}

/// The warning that an exchange with the image host calls for, if it calls
/// for one.
pub fn upload_warning_of(exchange: &Exchange) -> (warning: Option<String>)
    ensures
        warning.deep_view() == upload_warning(exchange@),
{
    match exchange.as_document() {
        Err(reason) => {
            let mut warning = "Failed to upload image: ".to_owned();
            warning.append(reason);
            Some(warning)
        },
        Ok(answer) => match answer.member_text("secure_url") {
            Some(_) => None,
            None => Some("Failed to upload image: Failed to upload image to Cloudinary".to_owned()),
        },
    }
}

} // verus!
