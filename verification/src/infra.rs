//! Requests to outside services: the text-message gateways and pre-signed
//! upload URLs.
use vstd::prelude::*;
use vstd::string::*;

use rusoto_s3::util::PreSignedRequest;

verus! {

/// A text message to send.
#[derive(Debug)]
pub struct SMSPayload {
    pub phone: String,
    pub message: String,
}

/// A pre-signed upload URL and the object key it uploads to.
#[derive(Debug)]
pub struct SignedUrlResponse {
    pub url: String,
    pub key: String,
}

/// The fixed hash parameter sent to the text-message proxy.
pub const PROXY_HASH: &'static str = "somehash";

/// The sender name given to the text-message service.
pub const SMS_SENDER: &'static str = "InfoSMS";

/// The proxy request that texts `code` to `number`:
/// `{url}/?to={number}&text={code}&hash=somehash`.
pub fn sms_proxy_request(url: &str, number: &str, code: &str) -> (r: String)
    ensures
        r@ == url@ + "/?to="@ + number@ + "&text="@ + code@ + "&hash="@ + PROXY_HASH@,
{
    let mut request = String::from_str(url);
    request.append("/?to=");
    request.append(number);
    request.append("&text=");
    request.append(code);
    request.append("&hash=");
    request.append(PROXY_HASH);
    request
}

/// The service request that texts `code` to `number` with the API token
/// `token`: `{url}/?token={token}&from=InfoSMS&to={number}&text={code}`.
pub fn sms_service_request(url: &str, token: &str, number: &str, code: &str) -> (r: String)
    ensures
        r@ == url@ + "/?token="@ + token@ + "&from="@ + SMS_SENDER@ + "&to="@ + number@ + "&text="@
            + code@,
{
    let mut request = String::from_str(url);
    request.append("/?token=");
    request.append(token);
    request.append("&from=");
    request.append(SMS_SENDER);
    request.append("&to=");
    request.append(number);
    request.append("&text=");
    request.append(code);
    request
}

/// How long a pre-signed upload URL stays valid, in seconds.
pub const UPLOAD_URL_SECONDS: u64 = 300;

/// The storage region uploads go to.
#[derive(Debug, Clone, Copy, PartialEq, Eq, Structural)]
pub enum S3Region {
    /// `eu-central-1` (Frankfurt).
    EuCentral1,
}

/// The region pre-signed upload URLs are made for.
pub const UPLOAD_REGION: S3Region = S3Region::EuCentral1;

/// The URL that `rusoto_s3`'s `PutObjectRequest::get_presigned_url` signs
/// for a `PUT` of object `key` into `bucket`, with the access key and secret
/// given, in `region`, valid for `expires_secs` seconds from the signing time
/// `signed_at` (in seconds since the Unix epoch); a function of these values.
pub uninterp spec fn spec_presigned_put_url(
    bucket: Seq<char>,
    key: Seq<char>,
    access_key: Seq<char>,
    access_secret: Seq<char>,
    region: S3Region,
    expires_secs: u64,
    signed_at: int,
) -> Seq<char>;

/// `rusoto_s3`'s `PutObjectRequest::get_presigned_url` for object `key` in
/// `bucket`, signed with the given access key and secret (no session token),
/// in `region`, valid for `expires_secs` seconds. The signature carries the
/// time the call reads from the clock, so the URL is stated to be the named
/// one for some signing time, which is left open.
#[verifier::external_body]
fn presigned_put_url(
    bucket: String,
    key: String,
    access_key: String,
    access_secret: String,
    region: S3Region,
    expires_secs: u64,
) -> (r: String)
    ensures
        exists|t: int|
            r@ == #[trigger] spec_presigned_put_url(
                bucket@,
                key@,
                access_key@,
                access_secret@,
                region,
                expires_secs,
                t,
            ),
{
    let credentials = rusoto_credential::AwsCredentials::new(access_key, access_secret, None, None);
    let region = match region {
        S3Region::EuCentral1 => rusoto_core::Region::EuCentral1,
    };
    let options = rusoto_s3::util::PreSignedRequestOption { expires_in: std::time::Duration::from_secs(expires_secs) };
    let req = rusoto_s3::PutObjectRequest { bucket, key, ..Default::default() };
    req.get_presigned_url(&region, &credentials, &options)
}

/// A pre-signed URL for uploading the object `key` to `bucket` with the
/// given credentials, in the upload region and valid for
/// `UPLOAD_URL_SECONDS`, with the key it was made for.
pub fn get_presigned_url(bucket: String, key: String, access_key: String, access_secret: String) -> (r: SignedUrlResponse)
    ensures
        r.key == key,
        exists|t: int|
            r.url@ == #[trigger] spec_presigned_put_url(
                bucket@,
                key@,
                access_key@,
                access_secret@,
                UPLOAD_REGION,
                UPLOAD_URL_SECONDS,
                t,
            ),
{
    let url = presigned_put_url(bucket, key.clone(), access_key, access_secret, UPLOAD_REGION, UPLOAD_URL_SECONDS);
    SignedUrlResponse { url, key }
}

} // verus!
