//! The signing of each operation, done by rusty_s3: a presigned url for an action, given the
//! bucket, the credentials and how long the signature holds.
use vstd::prelude::*;

use crate::listing::{ListPage, ObjectEntry};
use rusty_s3::actions::{CompleteMultipartUpload, CreateMultipartUpload, ListObjectsV2, UploadPart};
use rusty_s3::S3Action;
use vstd::utf8::{decode_utf8, valid_utf8};
use std::time::Duration;

verus! {

/// Whether `c` may stand in a bucket name.
pub open spec fn bucket_name_char(c: char) -> bool {
    ('a' <= c && c <= 'z') || ('0' <= c && c <= '9') || c == '-' || c == '.'
}

/// Whether `c` is a small ASCII letter or a digit.
pub open spec fn alphanumeric(c: char) -> bool {
    ('a' <= c && c <= 'z') || ('0' <= c && c <= '9')
}

/// Whether a label of a host name starts at `i` with the `xn--` of an encoded label.
pub open spec fn encoded_label_at(s: Seq<char>, i: int) -> bool {
    &&& i == 0 || s[i - 1] == '.'
    &&& i + 4 <= s.len()
    &&& s[i] == 'x' && s[i + 1] == 'n' && s[i + 2] == '-' && s[i + 3] == '-'
}

/// A bucket name that can stand both in a path and as the first labels of a host name:
/// small letters, digits, hyphens and dots, opening and closing on a letter or digit, with no
/// empty label and no label in the `xn--` form.
pub open spec fn valid_bucket_name(s: Seq<char>) -> bool {
    &&& s.len() > 0
    &&& forall|i: int| 0 <= i < s.len() ==> bucket_name_char(#[trigger] s[i])
    &&& alphanumeric(s[0])
    &&& alphanumeric(s.last())
    &&& forall|i: int| #![trigger s[i]] 0 <= i < s.len() - 1 ==> !(s[i] == '.' && s[i + 1] == '.')
    &&& forall|i: int| 0 <= i < s.len() ==> !#[trigger] encoded_label_at(s, i)
}

fn is_alphanumeric(c: char) -> (r: bool)
    ensures
        r == alphanumeric(c),
{
    ('a' <= c && c <= 'z') || ('0' <= c && c <= '9')
}

fn is_bucket_name_char(c: char) -> (r: bool)
    ensures
        r == bucket_name_char(c),
{
    ('a' <= c && c <= 'z') || ('0' <= c && c <= '9') || c == '-' || c == '.'
}

/// Whether `s` is a bucket name that can stand both in a path and in a host name.
pub fn is_valid_bucket_name(s: &str) -> (r: bool)
    ensures
        r == valid_bucket_name(s@),
{
    let n = s.unicode_len();
    if n == 0 {
        return false;
    }
    if !is_alphanumeric(s.get_char(0)) || !is_alphanumeric(s.get_char(n - 1)) {
        return false;
    }
    let mut i: usize = 0;
    while i < n
        invariant
            n == s@.len(),
            i <= n,
            forall|k: int| 0 <= k < i ==> bucket_name_char(#[trigger] s@[k]),
            forall|k: int| #![trigger s@[k]] 0 <= k < i && k < n - 1 ==> !(s@[k] == '.' && s@[k + 1] == '.'),
            forall|k: int| 0 <= k < i ==> !#[trigger] encoded_label_at(s@, k),
        decreases n - i,
    {
        let c = s.get_char(i);
        if !is_bucket_name_char(c) {
            return false;
        }
        if i + 1 < n && c == '.' && s.get_char(i + 1) == '.' {
            return false;
        }
        if (i == 0 || s.get_char(i - 1) == '.') && n - i >= 4 && c == 'x' && s.get_char(i + 1) == 'n'
            && s.get_char(i + 2) == '-' && s.get_char(i + 3) == '-' {
            assert(encoded_label_at(s@, i as int));
            return false;
        }
        i = i + 1;
    }
    true
}

/// An object path that url's `join` can take without failing or changing host: one that does
/// not open with two slashes, which would make it the start of a url of another host.
pub open spec fn valid_object_path(p: Seq<char>) -> bool {
    !(p.len() >= 2 && p[0] == '/' && p[1] == '/')
}

/// Whether a url can be read from `s`.
pub uninterp spec fn url_parses(s: Seq<char>) -> bool;

/// The url read from `s`.
pub uninterp spec fn parsed_url(s: Seq<char>) -> url::Url;

/// Relies on url's `FromStr` for `Url`: it fails exactly on the texts that are no url, and the
/// url it reads depends on the text alone.
#[verifier::external_body]
pub(crate) fn parse_url(s: &str) -> (r: Result<url::Url, url::ParseError>)
    ensures
        r is Ok <==> url_parses(s@),
        r is Ok ==> r->Ok_0 == parsed_url(s@),
{
    s.parse()
}

/// The duration of `secs` seconds.
pub uninterp spec fn duration_of_secs(secs: u64) -> Duration;

/// Relies on `Duration::from_secs`, a function of the number of seconds alone.
#[verifier::external_body]
pub(crate) fn seconds(n: u64) -> (r: Duration)
    ensures
        r == duration_of_secs(n),
{
    Duration::from_secs(n)
}

/// The credentials of a key, a secret and an optional session token.
pub uninterp spec fn credentials_of(key: Seq<char>, secret: Seq<char>, token: Option<Seq<char>>) -> rusty_s3::Credentials;

/// Relies on rusty_s3::Credentials::new: the key and the secret, without a token.
#[verifier::external_body]
pub(crate) fn credentials(key: String, secret: String) -> (r: rusty_s3::Credentials)
    ensures
        r == credentials_of(key@, secret@, None),
{
    rusty_s3::Credentials::new(key, secret)
}

/// Relies on rusty_s3::Credentials::new_with_token: the key, the secret and the token.
#[verifier::external_body]
pub(crate) fn credentials_with_token(key: String, secret: String, token: String) -> (r: rusty_s3::Credentials)
    ensures
        r == credentials_of(key@, secret@, Some(token@)),
{
    rusty_s3::Credentials::new_with_token(key, secret, token)
}

/// The host of a url where it is a domain name; `None` where it has no host or an IP address.
pub uninterp spec fn url_domain(u: url::Url) -> Option<Seq<char>>;

/// Relies on url::Url::domain: the host of the url where it is a domain name, `None` where the
/// url has no host or an IP address.
#[verifier::external_body]
pub(crate) fn endpoint_domain(u: &url::Url) -> (r: Option<String>)
    ensures
        crate::error::option_view(r) == url_domain(*u),
{
    u.domain().map(|d| d.to_string())
}

/// Whether rusty_s3 can address a bucket on an endpoint: it has a host, and its scheme is
/// http or https.
pub uninterp spec fn s3_addressable(endpoint: url::Url) -> bool;

/// The bucket that rusty_s3 builds from an endpoint, a url style, a name and a region.
pub uninterp spec fn s3_bucket_of(endpoint: url::Url, path_style: bool, name: Seq<char>, region: Seq<char>) -> rusty_s3::Bucket;

/// Relies on rusty_s3::Bucket::new, which refuses an endpoint without a host or of a scheme
/// other than http and https, and otherwise builds the bucket from its arguments alone.
/// Building the base url, it unwraps url's `join` of `<name>/` in the path style and url's
/// `set_host` of `<name>.<host>` in the virtual-host style: a name of `valid_bucket_name`
/// keeps the join from failing, and with a domain name as host it keeps `set_host` from
/// failing too (an IP address followed by a label is no host).
#[verifier::external_body]
pub(crate) fn s3_bucket(endpoint: &url::Url, path_style: bool, name: &str, region: &str) -> (r: Result<
    rusty_s3::Bucket,
    rusty_s3::BucketError,
>)
    requires
        valid_bucket_name(name@),
        !path_style ==> url_domain(*endpoint) is Some,
    ensures
        r is Ok <==> s3_addressable(*endpoint),
        r is Ok ==> r->Ok_0 == s3_bucket_of(*endpoint, path_style, name@, region@),
{
    let style = if path_style { rusty_s3::UrlStyle::Path } else { rusty_s3::UrlStyle::VirtualHost };
    rusty_s3::Bucket::new(endpoint.clone(), style, name.to_string(), region.to_string())
}

/// The url that rusty_s3 signs for CreateBucket of bucket `b` with credentials `c`, valid for
/// `expires`, at the second `time` since the Unix epoch.
pub uninterp spec fn signed_create_bucket_url(b: rusty_s3::Bucket, c: rusty_s3::Credentials, expires: Duration, time: int) -> Seq<char>;

/// Relies on rusty_s3's CreateBucket action and its signing.
/// `sign` reads the clock: the url is a function of the arguments and of the second it
/// is signed at.
#[verifier::external_body]
pub(crate) fn sign_create_bucket(b: &rusty_s3::Bucket, c: &rusty_s3::Credentials, expires: Duration) -> (r: String)
    ensures
        exists|t: int| #[trigger] signed_create_bucket_url(*b, *c, expires, t) == r@,
{
    b.create_bucket(c).sign(expires).to_string()
}

/// The url that rusty_s3 signs for DeleteBucket of bucket `b` with credentials `c`, valid for
/// `expires`, at the second `time` since the Unix epoch.
pub uninterp spec fn signed_delete_bucket_url(b: rusty_s3::Bucket, c: rusty_s3::Credentials, expires: Duration, time: int) -> Seq<char>;

/// Relies on rusty_s3's DeleteBucket action and its signing.
/// `sign` reads the clock: the url is a function of the arguments and of the second it
/// is signed at.
#[verifier::external_body]
pub(crate) fn sign_delete_bucket(b: &rusty_s3::Bucket, c: &rusty_s3::Credentials, expires: Duration) -> (r: String)
    ensures
        exists|t: int| #[trigger] signed_delete_bucket_url(*b, *c, expires, t) == r@,
{
    b.delete_bucket(c).sign(expires).to_string()
}

/// The url that rusty_s3 signs for GetObject for `path` of bucket `b` with credentials `c`, valid for
/// `expires`, at the second `time` since the Unix epoch.
pub uninterp spec fn signed_get_object_url(b: rusty_s3::Bucket, c: rusty_s3::Credentials, path: Seq<char>, expires: Duration, time: int) -> Seq<char>;

/// Relies on rusty_s3's GetObject action and its signing, which unwraps url's `join` of the
/// percent-encoded path: a path of `valid_object_path` keeps the join from failing.
/// `sign` reads the clock: the url is a function of the arguments and of the second it
/// is signed at.
#[verifier::external_body]
pub(crate) fn sign_get_object(b: &rusty_s3::Bucket, c: &rusty_s3::Credentials, path: &str, expires: Duration) -> (r: String)
    requires
        valid_object_path(path@),
    ensures
        exists|t: int| #[trigger] signed_get_object_url(*b, *c, path@, expires, t) == r@,
{
    b.get_object(Some(c), path).sign(expires).to_string()
}

/// The url that rusty_s3 signs for PutObject for `path` of bucket `b` with credentials `c`, valid for
/// `expires`, at the second `time` since the Unix epoch.
pub uninterp spec fn signed_put_object_url(b: rusty_s3::Bucket, c: rusty_s3::Credentials, path: Seq<char>, expires: Duration, time: int) -> Seq<char>;

/// Relies on rusty_s3's PutObject action and its signing, which unwraps url's `join` of the
/// percent-encoded path: a path of `valid_object_path` keeps the join from failing.
/// `sign` reads the clock: the url is a function of the arguments and of the second it
/// is signed at.
#[verifier::external_body]
pub(crate) fn sign_put_object(b: &rusty_s3::Bucket, c: &rusty_s3::Credentials, path: &str, expires: Duration) -> (r: String)
    requires
        valid_object_path(path@),
    ensures
        exists|t: int| #[trigger] signed_put_object_url(*b, *c, path@, expires, t) == r@,
{
    b.put_object(Some(c), path).sign(expires).to_string()
}

/// The url that rusty_s3 signs for DeleteObject for `path` of bucket `b` with credentials `c`, valid for
/// `expires`, at the second `time` since the Unix epoch.
pub uninterp spec fn signed_delete_object_url(b: rusty_s3::Bucket, c: rusty_s3::Credentials, path: Seq<char>, expires: Duration, time: int) -> Seq<char>;

/// Relies on rusty_s3's DeleteObject action and its signing, which unwraps url's `join` of the
/// percent-encoded path: a path of `valid_object_path` keeps the join from failing.
/// `sign` reads the clock: the url is a function of the arguments and of the second it
/// is signed at.
#[verifier::external_body]
pub(crate) fn sign_delete_object(b: &rusty_s3::Bucket, c: &rusty_s3::Credentials, path: &str, expires: Duration) -> (r: String)
    requires
        valid_object_path(path@),
    ensures
        exists|t: int| #[trigger] signed_delete_object_url(*b, *c, path@, expires, t) == r@,
{
    b.delete_object(Some(c), path).sign(expires).to_string()
}

/// The url that rusty_s3 signs for ListObjectsV2 for `prefix` and, where there is one, the continuation token of bucket `b` with credentials `c`, valid for
/// `expires`, at the second `time` since the Unix epoch.
pub uninterp spec fn signed_list_objects_url(b: rusty_s3::Bucket, c: rusty_s3::Credentials, prefix: Seq<char>, token: Option<Seq<char>>, expires: Duration, time: int) -> Seq<char>;

/// Relies on rusty_s3's ListObjectsV2 action, with `prefix` in its query, and its signing.
/// `sign` reads the clock: the url is a function of the arguments and of the second it
/// is signed at.
#[verifier::external_body]
pub(crate) fn sign_list_objects(b: &rusty_s3::Bucket, c: &rusty_s3::Credentials, prefix: &str, expires: Duration) -> (r: String)
    ensures
        exists|t: int| #[trigger] signed_list_objects_url(*b, *c, prefix@, None, expires, t) == r@,
{
    let mut action = b.list_objects_v2(Some(c));
    action.query_mut().insert("prefix", prefix);
    action.sign(expires).to_string()
}

/// Relies on rusty_s3's ListObjectsV2 action, with `prefix` and the continuation token in its
/// query, and its signing.
/// `sign` reads the clock: the url is a function of the arguments and of the second it
/// is signed at.
#[verifier::external_body]
pub(crate) fn sign_list_objects_after(
    b: &rusty_s3::Bucket,
    c: &rusty_s3::Credentials,
    prefix: &str,
    token: &str,
    expires: Duration,
) -> (r: String)
    ensures
        exists|t: int| #[trigger] signed_list_objects_url(*b, *c, prefix@, Some(token@), expires, t) == r@,
{
    let mut action = b.list_objects_v2(Some(c));
    action.query_mut().insert("prefix", prefix);
    action.query_mut().insert("continuation-token", token);
    action.sign(expires).to_string()
}

/// The url that rusty_s3 signs for CreateMultipartUpload for `path` of bucket `b` with credentials `c`, valid for
/// `expires`, at the second `time` since the Unix epoch.
pub uninterp spec fn signed_create_multipart_url(b: rusty_s3::Bucket, c: rusty_s3::Credentials, path: Seq<char>, expires: Duration, time: int) -> Seq<char>;

/// Relies on rusty_s3's CreateMultipartUpload action and its signing, which unwraps url's
/// `join` of the percent-encoded path: a path of `valid_object_path` keeps it from failing.
/// `sign` reads the clock: the url is a function of the arguments and of the second it
/// is signed at.
#[verifier::external_body]
pub(crate) fn sign_create_multipart(b: &rusty_s3::Bucket, c: &rusty_s3::Credentials, path: &str, expires: Duration) -> (r: String)
    requires
        valid_object_path(path@),
    ensures
        exists|t: int| #[trigger] signed_create_multipart_url(*b, *c, path@, expires, t) == r@,
{
    CreateMultipartUpload::new(b, Some(c), path).sign(expires).to_string()
}

/// The url that rusty_s3 signs for UploadPart for `path`, part `part` of upload `upload_id` of bucket `b` with credentials `c`, valid for
/// `expires`, at the second `time` since the Unix epoch.
pub uninterp spec fn signed_upload_part_url(b: rusty_s3::Bucket, c: rusty_s3::Credentials, path: Seq<char>, part: u16, upload_id: Seq<char>, expires: Duration, time: int) -> Seq<char>;

/// Relies on rusty_s3's UploadPart action, for part `part` of the upload `upload_id`, and its
/// signing, which unwraps url's `join` of the percent-encoded path: a path of
/// `valid_object_path` keeps it from failing.
/// `sign` reads the clock: the url is a function of the arguments and of the second it
/// is signed at.
#[verifier::external_body]
pub(crate) fn sign_upload_part(
    b: &rusty_s3::Bucket,
    c: &rusty_s3::Credentials,
    path: &str,
    part: u16,
    upload_id: &str,
    expires: Duration,
) -> (r: String)
    requires
        valid_object_path(path@),
    ensures
        exists|t: int| #[trigger] signed_upload_part_url(*b, *c, path@, part, upload_id@, expires, t) == r@,
{
    UploadPart::new(b, Some(c), path, part, upload_id).sign(expires).to_string()
}

/// The url that rusty_s3 signs for CompleteMultipartUpload for `path` and upload `upload_id` of bucket `b` with credentials `c`, valid for
/// `expires`, at the second `time` since the Unix epoch.
pub uninterp spec fn signed_complete_multipart_url(b: rusty_s3::Bucket, c: rusty_s3::Credentials, path: Seq<char>, upload_id: Seq<char>, expires: Duration, time: int) -> Seq<char>;

/// Relies on rusty_s3's CompleteMultipartUpload action and its signing, which unwraps url's
/// `join` of the percent-encoded path: a path of `valid_object_path` keeps it from failing.
/// `sign` reads the clock: the url is a function of the arguments and of the second it
/// is signed at.
#[verifier::external_body]
pub(crate) fn sign_complete_multipart(
    b: &rusty_s3::Bucket,
    c: &rusty_s3::Credentials,
    path: &str,
    upload_id: &str,
    expires: Duration,
) -> (r: String)
    requires
        valid_object_path(path@),
    ensures
        exists|t: int| #[trigger] signed_complete_multipart_url(*b, *c, path@, upload_id@, expires, t) == r@,
{
    CompleteMultipartUpload::new(b, Some(c), path, upload_id, std::iter::empty()).sign(expires).to_string()
}

/// `c` as XML text: the five markup characters as entities.
pub open spec fn xml_escaped_char(c: char) -> Seq<char> {
    if c == '<' {
        "&lt;"@
    } else if c == '>' {
        "&gt;"@
    } else if c == '&' {
        "&amp;"@
    } else if c == '\'' {
        "&apos;"@
    } else if c == '"' {
        "&quot;"@
    } else {
        seq![c]
    }
}

/// `s` as XML text.
pub open spec fn xml_escaped(s: Seq<char>) -> Seq<char>
    decreases s.len(),
{
    if s.len() == 0 {
        Seq::empty()
    } else {
        xml_escaped(s.drop_last()) + xml_escaped_char(s.last())
    }
}

/// The decimal digit of `d`, below ten.
pub open spec fn digit(d: nat) -> char {
    if d == 0 {
        '0'
    } else if d == 1 {
        '1'
    } else if d == 2 {
        '2'
    } else if d == 3 {
        '3'
    } else if d == 4 {
        '4'
    } else if d == 5 {
        '5'
    } else if d == 6 {
        '6'
    } else if d == 7 {
        '7'
    } else if d == 8 {
        '8'
    } else {
        '9'
    }
}

/// `n` in decimal, without leading zeros.
pub open spec fn decimal(n: nat) -> Seq<char>
    decreases n,
{
    if n < 10 {
        seq![digit(n)]
    } else {
        decimal(n / 10).push(digit(n % 10))
    }
}

/// The `ETag` element of `etag`, self-closed where the ETag is empty.
pub open spec fn etag_element(etag: Seq<char>) -> Seq<char> {
    if etag.len() == 0 {
        "<ETag/>"@
    } else {
        "<ETag>"@ + xml_escaped(etag) + "</ETag>"@
    }
}

/// The `Part` elements for `etags`: the ETag at index `i` with part number `i + 1`, in order.
pub open spec fn completion_parts(etags: Seq<Seq<char>>) -> Seq<char>
    decreases etags.len(),
{
    if etags.len() == 0 {
        Seq::empty()
    } else {
        completion_parts(etags.drop_last()) + "<Part>"@ + etag_element(etags.last()) + "<PartNumber>"@
            + decimal(etags.len()) + "</PartNumber></Part>"@
    }
}

/// The XML body that completes a multipart upload with `etags`, the ETag at index `i`
/// standing for part `i + 1`.
pub open spec fn completion_body(etags: Seq<Seq<char>>) -> Seq<char> {
    if etags.len() == 0 {
        "<CompleteMultipartUpload/>"@
    } else {
        "<CompleteMultipartUpload>"@ + completion_parts(etags) + "</CompleteMultipartUpload>"@
    }
}

/// Relies on rusty_s3's CompleteMultipartUpload::body: quick_xml serializes the ETags in the
/// order given, each escaped as XML text and an empty one as a self-closed element, numbered
/// from 1 (as `u16`, so at most 65535 of them), without whitespace, and an empty list as a
/// self-closed element.
#[verifier::external_body]
pub(crate) fn complete_multipart_body(
    b: &rusty_s3::Bucket,
    c: &rusty_s3::Credentials,
    path: &str,
    upload_id: &str,
    etags: &Vec<String>,
) -> (r: String)
    requires
        etags.len() <= 10000,
    ensures
        r@ == completion_body(etags.deep_view()),
{
    CompleteMultipartUpload::new(b, Some(c), path, upload_id, etags.iter().map(|e| e.as_str())).body()
}

/// The UploadId of an answer to CreateMultipartUpload; `None` where the text is no such answer.
pub uninterp spec fn upload_id_in(body: Seq<char>) -> Option<Seq<char>>;

/// Relies on rusty_s3's CreateMultipartUpload::parse_response and `upload_id`: the UploadId of
/// the answer, or quick_xml's error; the outcome depends on the text alone.
#[verifier::external_body]
pub(crate) fn parse_upload_id(body: &str) -> (r: Result<String, quick_xml::DeError>)
    ensures
        match upload_id_in(body@) {
            Some(id) => r is Ok && r->Ok_0@ == id,
            None => r is Err,
        },
{
    CreateMultipartUpload::parse_response(body).map(|resp| resp.upload_id().to_string())
}

/// The entries (key, size, ETag, last modification) of a page of ListObjectsV2 in the order of
/// the text, and its continuation token; `None` where the text is no such page.
pub uninterp spec fn listing_in(body: Seq<char>) -> Option<(Seq<(Seq<char>, u64, Seq<char>, Seq<char>)>, Option<Seq<char>>)>;

/// Relies on rusty_s3's ListObjectsV2::parse_response: the `Contents` of the page in the order of
/// the text and its `NextContinuationToken`, or quick_xml's error; the outcome depends on the
/// text alone.
#[verifier::external_body]
pub(crate) fn parse_listing(body: &str) -> (r: Result<ListPage, quick_xml::DeError>)
    ensures
        match listing_in(body@) {
            Some(p) => r is Ok && r->Ok_0@ == p,
            None => r is Err,
        },
{
    ListObjectsV2::parse_response(body).map(|resp| ListPage {
        entries: resp.contents.into_iter().map(|c| ObjectEntry {
            key: c.key,
            size: c.size,
            etag: c.etag,
            last_modified: c.last_modified,
        }).collect(),
        next_token: resp.next_continuation_token,
    })
}

/// Relies on `String::from_utf8`: the text that the bytes encode, or an error exactly where
/// they are not UTF-8.
#[verifier::external_body]
pub(crate) fn utf8_text(bytes: Vec<u8>) -> (r: Result<String, std::string::FromUtf8Error>)
    ensures
        match r {
            Ok(s) => valid_utf8(bytes@) && s@ == decode_utf8(bytes@),
            Err(_) => !valid_utf8(bytes@),
        },
{
    String::from_utf8(bytes)
}

/// Relies on http::header::ETAG, whose name is `etag`.
#[verifier::external_body]
pub(crate) fn etag_header_name() -> (r: &'static str)
    ensures
        r@ == "etag"@,
{
    http::header::ETAG.as_str()
}

} // verus!
