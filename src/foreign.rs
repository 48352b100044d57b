//! Types of other crates that this library carries without looking inside.
use vstd::prelude::*;

use rusty_s3::Bucket as S3Bucket;

verus! {

/// An I/O failure while reading a source or writing a sink.
#[verifier::external_type_specification]
#[verifier::external_body]
pub struct ExIoError(std::io::Error);

/// Bytes that were not UTF-8, handed back by `String::from_utf8`.
#[verifier::external_type_specification]
#[verifier::external_body]
pub struct ExFromUtf8Error(std::string::FromUtf8Error);

/// A failure of quick_xml's deserializer.
#[verifier::external_type_specification]
#[verifier::external_body]
pub struct ExDeError(quick_xml::DeError);

/// A failure of url's parser.
#[verifier::external_type_specification]
#[verifier::external_body]
pub struct ExParseError(url::ParseError);

/// An endpoint that rusty_s3 cannot address a bucket on.
#[verifier::external_type_specification]
#[verifier::external_body]
pub struct ExBucketError(rusty_s3::BucketError);

/// A parsed endpoint address.
#[verifier::external_type_specification]
#[verifier::external_body]
pub struct ExUrl(url::Url);

/// An access key, its secret and an optional session token.
#[verifier::external_type_specification]
#[verifier::external_body]
pub struct ExCredentials(rusty_s3::Credentials);

/// A bucket as rusty_s3 addresses it: base url, name and region.
#[verifier::external_type_specification]
#[verifier::external_body]
pub struct ExBucket(S3Bucket);

/// Relies on the derived `Clone` of url::Url.
pub assume_specification[ <url::Url as std::clone::Clone>::clone ](u: &url::Url) -> (r: url::Url)
    ensures
        r == *u,
;

/// Relies on the derived `Clone` of rusty_s3::Credentials.
pub assume_specification[ <rusty_s3::Credentials as std::clone::Clone>::clone ](
    c: &rusty_s3::Credentials,
) -> (r: rusty_s3::Credentials)
    ensures
        r == *c,
;

/// Relies on the derived `Clone` of rusty_s3::Bucket.
pub assume_specification[ <S3Bucket as std::clone::Clone>::clone ](b: &S3Bucket) -> (r: S3Bucket)
    ensures
        r == *b,
;

/// Relies on the derived `Clone` of `Duration`.
pub assume_specification[ <std::time::Duration as std::clone::Clone>::clone ](
    d: &std::time::Duration,
) -> (r: std::time::Duration)
    ensures
        r == *d,
;

} // verus!
