//! The failures of this library, and how a response that the store refused is read.
use vstd::prelude::*;

use crate::text::same_text;

verus! {

/// Every failure that an operation of this library hands back.
#[derive(Debug)]
pub enum Error {
    /// The caller asked for something that cannot be done.
    UserError(UserError),
    /// Reading a source or writing a sink failed.
    IoError(std::io::Error),
    /// The store refused the request with a structured error body.
    S3Error(Box<S3Error>),
    /// The store answered against its documented contract.
    InternalError(InternalError),
    /// The exchange with the store could not be completed.
    HttpError(String),
    /// The endpoint cannot address a bucket.
    RustyS3(rusty_s3::BucketError),
    /// The endpoint is not a URL.
    Url(url::ParseError),
}

/// Misuses of the library by its caller.
#[derive(Debug)]
pub enum UserError {
    /// An object asked for as text holds bytes that are not UTF-8; its bytes can still be fetched.
    PayloadCouldNotBeConvertedToString(std::string::FromUtf8Error),
    /// A multipart upload may not have more than ten thousand parts.
    TriedToSendMoreThan10000PartsInMultiPart,
    /// A bucket name that no url can carry.
    InvalidBucketName(String),
    /// An object path opening with two slashes, which url would read as another host.
    InvalidObjectPath(String),
    /// The virtual-host style needs an endpoint whose host is a domain name, not an IP address.
    VirtualHostStyleNeedsDomain,
}

/// Answers of the store that its contract rules out.
#[derive(Debug)]
pub enum InternalError {
    /// A body that should be UTF-8 text is not.
    S3ReturnedNonUtf8Payload(std::string::FromUtf8Error),
    /// A body that should be XML of a known shape is not.
    BadS3Payload(quick_xml::DeError),
    /// A part upload was answered without an `ETag` header; the names of the headers it had.
    MultipartMissingEtagHeader(String),
}

/// A structured refusal of the store.
#[derive(Debug, Clone)]
pub struct S3Error {
    pub status_code: u16,
    pub code: S3ErrorCode,
    pub message: String,
    pub bucket_name: Option<String>,
    pub resource: String,
    pub request_id: String,
    pub host_id: String,
}

/// A refusal of the store as plain values; the code as its text.
pub struct S3ErrorView {
    pub status_code: u16,
    pub code: Seq<char>,
    pub message: Seq<char>,
    pub bucket_name: Option<Seq<char>>,
    pub resource: Seq<char>,
    pub request_id: Seq<char>,
    pub host_id: Seq<char>,
}

pub open spec fn option_view(o: Option<String>) -> Option<Seq<char>> {
    match o {
        Some(s) => Some(s@),
        None => None,
    }
}

impl View for S3Error {
    type V = S3ErrorView;

    open spec fn view(&self) -> S3ErrorView {
        S3ErrorView {
            status_code: self.status_code,
            code: self.code.text(),
            message: self.message@,
            bucket_name: option_view(self.bucket_name),
            resource: self.resource@,
            request_id: self.request_id@,
            host_id: self.host_id@,
        }
    }
}

/// The text of the first child named `name` among the children of an error body.
pub open spec fn field_value(fields: Seq<(Seq<char>, Seq<char>)>, name: Seq<char>) -> Option<Seq<char>>
    decreases fields.len(),
{
    if fields.len() == 0 {
        None
    } else if fields[0].0 == name {
        Some(fields[0].1)
    } else {
        field_value(fields.drop_first(), name)
    }
}

/// The text of the child named `name`, empty where there is none.
pub open spec fn field_or_empty(fields: Seq<(Seq<char>, Seq<char>)>, name: Seq<char>) -> Seq<char> {
    match field_value(fields, name) {
        Some(v) => v,
        None => Seq::empty(),
    }
}

/// The refusal that an error body with these children describes.
pub open spec fn s3_error_of(status: u16, fields: Seq<(Seq<char>, Seq<char>)>) -> S3ErrorView {
    S3ErrorView {
        status_code: status,
        code: field_or_empty(fields, "Code"@),
        message: field_or_empty(fields, "Message"@),
        bucket_name: field_value(fields, "BucketName"@),
        resource: field_or_empty(fields, "Resource"@),
        request_id: field_or_empty(fields, "RequestId"@),
        host_id: field_or_empty(fields, "HostId"@),
    }
}

/// The children of the root element of an XML document whose children hold text only, as
/// (name, text) pairs ordered by name; `None` where the bytes are no such document.
pub uninterp spec fn xml_fields(body: Seq<u8>) -> Option<Seq<(Seq<char>, Seq<char>)>>;

/// Relies on quick_xml::de::from_reader into a `BTreeMap<String, String>`: it reads the children
/// of the root element as names and texts, and fails on bytes that are no such document; the
/// outcome depends on the bytes alone.
#[verifier::external_body]
fn read_xml_fields(body: &[u8]) -> (r: Result<Vec<(String, String)>, quick_xml::DeError>)
    ensures
        match xml_fields(body@) {
            Some(f) => r is Ok && r->Ok_0.deep_view() == f,
            None => r is Err,
        },
{
    quick_xml::de::from_reader::<_, std::collections::BTreeMap<String, String>>(body)
        .map(|m| m.into_iter().collect())
}

/// The first text among `fields` under `name`.
fn find_field<'a>(fields: &'a Vec<(String, String)>, name: &str) -> (r: Option<&'a String>)
    ensures
        match r {
            Some(v) => field_value(fields.deep_view(), name@) == Some(v@),
            None => field_value(fields.deep_view(), name@) is None,
        },
{
    let mut i: usize = 0;
    assert(fields.deep_view().skip(0) == fields.deep_view());
    while i < fields.len()
        invariant
            i <= fields.len(),
            field_value(fields.deep_view(), name@) == field_value(fields.deep_view().skip(i as int), name@),
        decreases fields.len() - i,
    {
        assert(fields.deep_view().skip(i as int)[0] == fields.deep_view()[i as int]);
        if same_text(fields[i].0.as_str(), name) {
            return Some(&fields[i].1);
        }
        assert(fields.deep_view().skip(i as int).drop_first() == fields.deep_view().skip(i + 1));
        i = i + 1;
    }
    None
}

/// The text of `fields` under `name`, empty where there is none.
fn field_text(fields: &Vec<(String, String)>, name: &str) -> (r: String)
    ensures
        r@ == field_or_empty(fields.deep_view(), name@),
{
    match find_field(fields, name) {
        Some(v) => v.clone(),
        None => String::new(),
    }
}

impl S3Error {
    /// The refusal that the children of an error body describe. Missing texts are empty; a
    /// missing or undocumented `Code` is kept as an unrecognized code with its text.
    pub fn from_fields(status: u16, fields: &Vec<(String, String)>) -> (r: S3Error)
        ensures
            r@ == s3_error_of(status, fields.deep_view()),
            r.code.wf(),
    {
        let code_text = field_text(fields, "Code");
        let bucket_name = match find_field(fields, "BucketName") {
            Some(v) => Some(v.clone()),
            None => None,
        };
        S3Error {
            status_code: status,
            code: S3ErrorCode::from_code(code_text.as_str()),
            message: field_text(fields, "Message"),
            bucket_name,
            resource: field_text(fields, "Resource"),
            request_id: field_text(fields, "RequestId"),
            host_id: field_text(fields, "HostId"),
        }
    }
}

/// Whether `e` is the error that a refusal with `status` and `body` is read as: the store's
/// structured error where the body is an error document, an internal error where it is not.
pub open spec fn refused_with(status: u16, body: Seq<u8>, e: Error) -> bool {
    match xml_fields(body) {
        Some(f) => {
            &&& e is S3Error
            &&& e->S3Error_0@ == s3_error_of(status, f)
            &&& e->S3Error_0.code.wf()
        },
        None => e is InternalError && e->InternalError_0 is BadS3Payload,
    }
}

impl Error {
    /// Reads a response that the store refused: its status and its body.
    pub fn from_status(status: u16, body: &[u8]) -> (r: Error)
        ensures
            refused_with(status, body@, r),
    {
        match read_xml_fields(body) {
            Ok(fields) => Error::S3Error(Box::new(S3Error::from_fields(status, &fields))),
            Err(e) => Error::InternalError(InternalError::BadS3Payload(e)),
        }
    }
}

/// The codes that the store documents for its error bodies; any other code is kept as its text.
#[derive(Debug, Clone)]
pub enum S3ErrorCode {
    AccessDenied,
    AccountProblem,
    AllAccessDisabled,
    AmbiguousGrantByEmailAddress,
    AuthorizationHeaderMalformed,
    BadDigest,
    BucketAlreadyExists,
    BucketAlreadyOwnedByYou,
    BucketNotEmpty,
    CredentialsNotSupported,
    CrossLocationLoggingProhibited,
    EntityTooSmall,
    EntityTooLarge,
    ExpiredToken,
    IllegalVersioningConfigurationException,
    IncompleteBody,
    IncorrectNumberOfFilesInPostRequest,
    InlineDataTooLarge,
    InvalidAccessKeyId,
    InvalidAddressingHeader,
    InvalidArgument,
    InvalidBucketName,
    InvalidBucketState,
    InvalidDigest,
    InvalidLocationConstraint,
    InvalidObjectState,
    InvalidPart,
    InvalidPartOrder,
    InvalidPayer,
    InvalidPolicyDocument,
    InvalidRange,
    InvalidRequest,
    InvalidSecurity,
    InvalidSOAPRequest,
    InvalidStorageClass,
    InvalidTargetBucketForLogging,
    InvalidToken,
    InvalidURI,
    MalformedPOSTRequest,
    MalformedXML,
    MaxMessageLengthExceeded,
    MetadataTooLarge,
    MethodNotAllowed,
    MissingAttachment,
    MissingContentLength,
    MissingSecurityElement,
    MissingSecurityHeader,
    NoLoggingStatusForKey,
    NoSuchBucket,
    NoSuchBucketPolicy,
    NoSuchKey,
    NoSuchLifecycleConfiguration,
    NoSuchUpload,
    NoSuchVersion,
    NotImplemented,
    NotSignedUp,
    OperationAborted,
    PermanentRedirect,
    PreconditionFailed,
    Redirect,
    RestoreAlreadyInProgress,
    RequestIsNotMultiPartContent,
    RequestTimeout,
    RequestTimeTooSkewed,
    SignatureDoesNotMatch,
    ServiceUnavailable,
    SlowDown,
    TemporaryRedirect,
    TokenRefreshRequired,
    TooManyBuckets,
    UnexpectedContent,
    UnresolvableGrantByEmailAddress,
    UserKeyMustBeSpecified,
    /// A code outside the documented set, as the store wrote it.
    Unrecognized(String),
}

/// Whether `t` is the text of a documented code.
pub open spec fn is_known_code(t: Seq<char>) -> bool {
    ||| t == "AccessDenied"@
    ||| t == "AccountProblem"@
    ||| t == "AllAccessDisabled"@
    ||| t == "AmbiguousGrantByEmailAddress"@
    ||| t == "AuthorizationHeaderMalformed"@
    ||| t == "BadDigest"@
    ||| t == "BucketAlreadyExists"@
    ||| t == "BucketAlreadyOwnedByYou"@
    ||| t == "BucketNotEmpty"@
    ||| t == "CredentialsNotSupported"@
    ||| t == "CrossLocationLoggingProhibited"@
    ||| t == "EntityTooSmall"@
    ||| t == "EntityTooLarge"@
    ||| t == "ExpiredToken"@
    ||| t == "IllegalVersioningConfigurationException"@
    ||| t == "IncompleteBody"@
    ||| t == "IncorrectNumberOfFilesInPostRequest"@
    ||| t == "InlineDataTooLarge"@
    ||| t == "InvalidAccessKeyId"@
    ||| t == "InvalidAddressingHeader"@
    ||| t == "InvalidArgument"@
    ||| t == "InvalidBucketName"@
    ||| t == "InvalidBucketState"@
    ||| t == "InvalidDigest"@
    ||| t == "InvalidLocationConstraint"@
    ||| t == "InvalidObjectState"@
    ||| t == "InvalidPart"@
    ||| t == "InvalidPartOrder"@
    ||| t == "InvalidPayer"@
    ||| t == "InvalidPolicyDocument"@
    ||| t == "InvalidRange"@
    ||| t == "InvalidRequest"@
    ||| t == "InvalidSecurity"@
    ||| t == "InvalidSOAPRequest"@
    ||| t == "InvalidStorageClass"@
    ||| t == "InvalidTargetBucketForLogging"@
    ||| t == "InvalidToken"@
    ||| t == "InvalidURI"@
    ||| t == "MalformedPOSTRequest"@
    ||| t == "MalformedXML"@
    ||| t == "MaxMessageLengthExceeded"@
    ||| t == "MetadataTooLarge"@
    ||| t == "MethodNotAllowed"@
    ||| t == "MissingAttachment"@
    ||| t == "MissingContentLength"@
    ||| t == "MissingSecurityElement"@
    ||| t == "MissingSecurityHeader"@
    ||| t == "NoLoggingStatusForKey"@
    ||| t == "NoSuchBucket"@
    ||| t == "NoSuchBucketPolicy"@
    ||| t == "NoSuchKey"@
    ||| t == "NoSuchLifecycleConfiguration"@
    ||| t == "NoSuchUpload"@
    ||| t == "NoSuchVersion"@
    ||| t == "NotImplemented"@
    ||| t == "NotSignedUp"@
    ||| t == "OperationAborted"@
    ||| t == "PermanentRedirect"@
    ||| t == "PreconditionFailed"@
    ||| t == "Redirect"@
    ||| t == "RestoreAlreadyInProgress"@
    ||| t == "RequestIsNotMultiPartContent"@
    ||| t == "RequestTimeout"@
    ||| t == "RequestTimeTooSkewed"@
    ||| t == "SignatureDoesNotMatch"@
    ||| t == "ServiceUnavailable"@
    ||| t == "SlowDown"@
    ||| t == "TemporaryRedirect"@
    ||| t == "TokenRefreshRequired"@
    ||| t == "TooManyBuckets"@
    ||| t == "UnexpectedContent"@
    ||| t == "UnresolvableGrantByEmailAddress"@
    ||| t == "UserKeyMustBeSpecified"@
}

impl S3ErrorCode {
    /// The code's text as it stands in an error body.
    pub open spec fn text(&self) -> Seq<char> {
        match self {
            S3ErrorCode::AccessDenied => "AccessDenied"@,
            S3ErrorCode::AccountProblem => "AccountProblem"@,
            S3ErrorCode::AllAccessDisabled => "AllAccessDisabled"@,
            S3ErrorCode::AmbiguousGrantByEmailAddress => "AmbiguousGrantByEmailAddress"@,
            S3ErrorCode::AuthorizationHeaderMalformed => "AuthorizationHeaderMalformed"@,
            S3ErrorCode::BadDigest => "BadDigest"@,
            S3ErrorCode::BucketAlreadyExists => "BucketAlreadyExists"@,
            S3ErrorCode::BucketAlreadyOwnedByYou => "BucketAlreadyOwnedByYou"@,
            S3ErrorCode::BucketNotEmpty => "BucketNotEmpty"@,
            S3ErrorCode::CredentialsNotSupported => "CredentialsNotSupported"@,
            S3ErrorCode::CrossLocationLoggingProhibited => "CrossLocationLoggingProhibited"@,
            S3ErrorCode::EntityTooSmall => "EntityTooSmall"@,
            S3ErrorCode::EntityTooLarge => "EntityTooLarge"@,
            S3ErrorCode::ExpiredToken => "ExpiredToken"@,
            S3ErrorCode::IllegalVersioningConfigurationException => "IllegalVersioningConfigurationException"@,
            S3ErrorCode::IncompleteBody => "IncompleteBody"@,
            S3ErrorCode::IncorrectNumberOfFilesInPostRequest => "IncorrectNumberOfFilesInPostRequest"@,
            S3ErrorCode::InlineDataTooLarge => "InlineDataTooLarge"@,
            S3ErrorCode::InvalidAccessKeyId => "InvalidAccessKeyId"@,
            S3ErrorCode::InvalidAddressingHeader => "InvalidAddressingHeader"@,
            S3ErrorCode::InvalidArgument => "InvalidArgument"@,
            S3ErrorCode::InvalidBucketName => "InvalidBucketName"@,
            S3ErrorCode::InvalidBucketState => "InvalidBucketState"@,
            S3ErrorCode::InvalidDigest => "InvalidDigest"@,
            S3ErrorCode::InvalidLocationConstraint => "InvalidLocationConstraint"@,
            S3ErrorCode::InvalidObjectState => "InvalidObjectState"@,
            S3ErrorCode::InvalidPart => "InvalidPart"@,
            S3ErrorCode::InvalidPartOrder => "InvalidPartOrder"@,
            S3ErrorCode::InvalidPayer => "InvalidPayer"@,
            S3ErrorCode::InvalidPolicyDocument => "InvalidPolicyDocument"@,
            S3ErrorCode::InvalidRange => "InvalidRange"@,
            S3ErrorCode::InvalidRequest => "InvalidRequest"@,
            S3ErrorCode::InvalidSecurity => "InvalidSecurity"@,
            S3ErrorCode::InvalidSOAPRequest => "InvalidSOAPRequest"@,
            S3ErrorCode::InvalidStorageClass => "InvalidStorageClass"@,
            S3ErrorCode::InvalidTargetBucketForLogging => "InvalidTargetBucketForLogging"@,
            S3ErrorCode::InvalidToken => "InvalidToken"@,
            S3ErrorCode::InvalidURI => "InvalidURI"@,
            S3ErrorCode::MalformedPOSTRequest => "MalformedPOSTRequest"@,
            S3ErrorCode::MalformedXML => "MalformedXML"@,
            S3ErrorCode::MaxMessageLengthExceeded => "MaxMessageLengthExceeded"@,
            S3ErrorCode::MetadataTooLarge => "MetadataTooLarge"@,
            S3ErrorCode::MethodNotAllowed => "MethodNotAllowed"@,
            S3ErrorCode::MissingAttachment => "MissingAttachment"@,
            S3ErrorCode::MissingContentLength => "MissingContentLength"@,
            S3ErrorCode::MissingSecurityElement => "MissingSecurityElement"@,
            S3ErrorCode::MissingSecurityHeader => "MissingSecurityHeader"@,
            S3ErrorCode::NoLoggingStatusForKey => "NoLoggingStatusForKey"@,
            S3ErrorCode::NoSuchBucket => "NoSuchBucket"@,
            S3ErrorCode::NoSuchBucketPolicy => "NoSuchBucketPolicy"@,
            S3ErrorCode::NoSuchKey => "NoSuchKey"@,
            S3ErrorCode::NoSuchLifecycleConfiguration => "NoSuchLifecycleConfiguration"@,
            S3ErrorCode::NoSuchUpload => "NoSuchUpload"@,
            S3ErrorCode::NoSuchVersion => "NoSuchVersion"@,
            S3ErrorCode::NotImplemented => "NotImplemented"@,
            S3ErrorCode::NotSignedUp => "NotSignedUp"@,
            S3ErrorCode::OperationAborted => "OperationAborted"@,
            S3ErrorCode::PermanentRedirect => "PermanentRedirect"@,
            S3ErrorCode::PreconditionFailed => "PreconditionFailed"@,
            S3ErrorCode::Redirect => "Redirect"@,
            S3ErrorCode::RestoreAlreadyInProgress => "RestoreAlreadyInProgress"@,
            S3ErrorCode::RequestIsNotMultiPartContent => "RequestIsNotMultiPartContent"@,
            S3ErrorCode::RequestTimeout => "RequestTimeout"@,
            S3ErrorCode::RequestTimeTooSkewed => "RequestTimeTooSkewed"@,
            S3ErrorCode::SignatureDoesNotMatch => "SignatureDoesNotMatch"@,
            S3ErrorCode::ServiceUnavailable => "ServiceUnavailable"@,
            S3ErrorCode::SlowDown => "SlowDown"@,
            S3ErrorCode::TemporaryRedirect => "TemporaryRedirect"@,
            S3ErrorCode::TokenRefreshRequired => "TokenRefreshRequired"@,
            S3ErrorCode::TooManyBuckets => "TooManyBuckets"@,
            S3ErrorCode::UnexpectedContent => "UnexpectedContent"@,
            S3ErrorCode::UnresolvableGrantByEmailAddress => "UnresolvableGrantByEmailAddress"@,
            S3ErrorCode::UserKeyMustBeSpecified => "UserKeyMustBeSpecified"@,
            S3ErrorCode::Unrecognized(t) => t@,
        }
    }

    /// A code is held as its documented variant whenever it has one.
    pub open spec fn wf(&self) -> bool {
        self is Unrecognized ==> !is_known_code(self.text())
    }

    /// The code's text as it stands in an error body.
    pub fn as_str(&self) -> (r: &str)
        ensures
            r@ == self.text(),
    {
        match self {
            S3ErrorCode::AccessDenied => "AccessDenied",
            S3ErrorCode::AccountProblem => "AccountProblem",
            S3ErrorCode::AllAccessDisabled => "AllAccessDisabled",
            S3ErrorCode::AmbiguousGrantByEmailAddress => "AmbiguousGrantByEmailAddress",
            S3ErrorCode::AuthorizationHeaderMalformed => "AuthorizationHeaderMalformed",
            S3ErrorCode::BadDigest => "BadDigest",
            S3ErrorCode::BucketAlreadyExists => "BucketAlreadyExists",
            S3ErrorCode::BucketAlreadyOwnedByYou => "BucketAlreadyOwnedByYou",
            S3ErrorCode::BucketNotEmpty => "BucketNotEmpty",
            S3ErrorCode::CredentialsNotSupported => "CredentialsNotSupported",
            S3ErrorCode::CrossLocationLoggingProhibited => "CrossLocationLoggingProhibited",
            S3ErrorCode::EntityTooSmall => "EntityTooSmall",
            S3ErrorCode::EntityTooLarge => "EntityTooLarge",
            S3ErrorCode::ExpiredToken => "ExpiredToken",
            S3ErrorCode::IllegalVersioningConfigurationException => "IllegalVersioningConfigurationException",
            S3ErrorCode::IncompleteBody => "IncompleteBody",
            S3ErrorCode::IncorrectNumberOfFilesInPostRequest => "IncorrectNumberOfFilesInPostRequest",
            S3ErrorCode::InlineDataTooLarge => "InlineDataTooLarge",
            S3ErrorCode::InvalidAccessKeyId => "InvalidAccessKeyId",
            S3ErrorCode::InvalidAddressingHeader => "InvalidAddressingHeader",
            S3ErrorCode::InvalidArgument => "InvalidArgument",
            S3ErrorCode::InvalidBucketName => "InvalidBucketName",
            S3ErrorCode::InvalidBucketState => "InvalidBucketState",
            S3ErrorCode::InvalidDigest => "InvalidDigest",
            S3ErrorCode::InvalidLocationConstraint => "InvalidLocationConstraint",
            S3ErrorCode::InvalidObjectState => "InvalidObjectState",
            S3ErrorCode::InvalidPart => "InvalidPart",
            S3ErrorCode::InvalidPartOrder => "InvalidPartOrder",
            S3ErrorCode::InvalidPayer => "InvalidPayer",
            S3ErrorCode::InvalidPolicyDocument => "InvalidPolicyDocument",
            S3ErrorCode::InvalidRange => "InvalidRange",
            S3ErrorCode::InvalidRequest => "InvalidRequest",
            S3ErrorCode::InvalidSecurity => "InvalidSecurity",
            S3ErrorCode::InvalidSOAPRequest => "InvalidSOAPRequest",
            S3ErrorCode::InvalidStorageClass => "InvalidStorageClass",
            S3ErrorCode::InvalidTargetBucketForLogging => "InvalidTargetBucketForLogging",
            S3ErrorCode::InvalidToken => "InvalidToken",
            S3ErrorCode::InvalidURI => "InvalidURI",
            S3ErrorCode::MalformedPOSTRequest => "MalformedPOSTRequest",
            S3ErrorCode::MalformedXML => "MalformedXML",
            S3ErrorCode::MaxMessageLengthExceeded => "MaxMessageLengthExceeded",
            S3ErrorCode::MetadataTooLarge => "MetadataTooLarge",
            S3ErrorCode::MethodNotAllowed => "MethodNotAllowed",
            S3ErrorCode::MissingAttachment => "MissingAttachment",
            S3ErrorCode::MissingContentLength => "MissingContentLength",
            S3ErrorCode::MissingSecurityElement => "MissingSecurityElement",
            S3ErrorCode::MissingSecurityHeader => "MissingSecurityHeader",
            S3ErrorCode::NoLoggingStatusForKey => "NoLoggingStatusForKey",
            S3ErrorCode::NoSuchBucket => "NoSuchBucket",
            S3ErrorCode::NoSuchBucketPolicy => "NoSuchBucketPolicy",
            S3ErrorCode::NoSuchKey => "NoSuchKey",
            S3ErrorCode::NoSuchLifecycleConfiguration => "NoSuchLifecycleConfiguration",
            S3ErrorCode::NoSuchUpload => "NoSuchUpload",
            S3ErrorCode::NoSuchVersion => "NoSuchVersion",
            S3ErrorCode::NotImplemented => "NotImplemented",
            S3ErrorCode::NotSignedUp => "NotSignedUp",
            S3ErrorCode::OperationAborted => "OperationAborted",
            S3ErrorCode::PermanentRedirect => "PermanentRedirect",
            S3ErrorCode::PreconditionFailed => "PreconditionFailed",
            S3ErrorCode::Redirect => "Redirect",
            S3ErrorCode::RestoreAlreadyInProgress => "RestoreAlreadyInProgress",
            S3ErrorCode::RequestIsNotMultiPartContent => "RequestIsNotMultiPartContent",
            S3ErrorCode::RequestTimeout => "RequestTimeout",
            S3ErrorCode::RequestTimeTooSkewed => "RequestTimeTooSkewed",
            S3ErrorCode::SignatureDoesNotMatch => "SignatureDoesNotMatch",
            S3ErrorCode::ServiceUnavailable => "ServiceUnavailable",
            S3ErrorCode::SlowDown => "SlowDown",
            S3ErrorCode::TemporaryRedirect => "TemporaryRedirect",
            S3ErrorCode::TokenRefreshRequired => "TokenRefreshRequired",
            S3ErrorCode::TooManyBuckets => "TooManyBuckets",
            S3ErrorCode::UnexpectedContent => "UnexpectedContent",
            S3ErrorCode::UnresolvableGrantByEmailAddress => "UnresolvableGrantByEmailAddress",
            S3ErrorCode::UserKeyMustBeSpecified => "UserKeyMustBeSpecified",
            S3ErrorCode::Unrecognized(t) => t.as_str(),
        }
    }

    /// Reads a code from its text; a text outside the documented set is kept as it is.
    pub fn from_code(t: &str) -> (r: S3ErrorCode)
        ensures
            r.text() == t@,
            r.wf(),
    {
        if same_text(t, "AccessDenied") {
            S3ErrorCode::AccessDenied
        } else if same_text(t, "AccountProblem") {
            S3ErrorCode::AccountProblem
        } else if same_text(t, "AllAccessDisabled") {
            S3ErrorCode::AllAccessDisabled
        } else if same_text(t, "AmbiguousGrantByEmailAddress") {
            S3ErrorCode::AmbiguousGrantByEmailAddress
        } else if same_text(t, "AuthorizationHeaderMalformed") {
            S3ErrorCode::AuthorizationHeaderMalformed
        } else if same_text(t, "BadDigest") {
            S3ErrorCode::BadDigest
        } else if same_text(t, "BucketAlreadyExists") {
            S3ErrorCode::BucketAlreadyExists
        } else if same_text(t, "BucketAlreadyOwnedByYou") {
            S3ErrorCode::BucketAlreadyOwnedByYou
        } else if same_text(t, "BucketNotEmpty") {
            S3ErrorCode::BucketNotEmpty
        } else if same_text(t, "CredentialsNotSupported") {
            S3ErrorCode::CredentialsNotSupported
        } else if same_text(t, "CrossLocationLoggingProhibited") {
            S3ErrorCode::CrossLocationLoggingProhibited
        } else if same_text(t, "EntityTooSmall") {
            S3ErrorCode::EntityTooSmall
        } else if same_text(t, "EntityTooLarge") {
            S3ErrorCode::EntityTooLarge
        } else if same_text(t, "ExpiredToken") {
            S3ErrorCode::ExpiredToken
        } else if same_text(t, "IllegalVersioningConfigurationException") {
            S3ErrorCode::IllegalVersioningConfigurationException
        } else if same_text(t, "IncompleteBody") {
            S3ErrorCode::IncompleteBody
        } else if same_text(t, "IncorrectNumberOfFilesInPostRequest") {
            S3ErrorCode::IncorrectNumberOfFilesInPostRequest
        } else if same_text(t, "InlineDataTooLarge") {
            S3ErrorCode::InlineDataTooLarge
        } else if same_text(t, "InvalidAccessKeyId") {
            S3ErrorCode::InvalidAccessKeyId
        } else if same_text(t, "InvalidAddressingHeader") {
            S3ErrorCode::InvalidAddressingHeader
        } else if same_text(t, "InvalidArgument") {
            S3ErrorCode::InvalidArgument
        } else if same_text(t, "InvalidBucketName") {
            S3ErrorCode::InvalidBucketName
        } else if same_text(t, "InvalidBucketState") {
            S3ErrorCode::InvalidBucketState
        } else if same_text(t, "InvalidDigest") {
            S3ErrorCode::InvalidDigest
        } else if same_text(t, "InvalidLocationConstraint") {
            S3ErrorCode::InvalidLocationConstraint
        } else if same_text(t, "InvalidObjectState") {
            S3ErrorCode::InvalidObjectState
        } else if same_text(t, "InvalidPart") {
            S3ErrorCode::InvalidPart
        } else if same_text(t, "InvalidPartOrder") {
            S3ErrorCode::InvalidPartOrder
        } else if same_text(t, "InvalidPayer") {
            S3ErrorCode::InvalidPayer
        } else if same_text(t, "InvalidPolicyDocument") {
            S3ErrorCode::InvalidPolicyDocument
        } else if same_text(t, "InvalidRange") {
            S3ErrorCode::InvalidRange
        } else if same_text(t, "InvalidRequest") {
            S3ErrorCode::InvalidRequest
        } else if same_text(t, "InvalidSecurity") {
            S3ErrorCode::InvalidSecurity
        } else if same_text(t, "InvalidSOAPRequest") {
            S3ErrorCode::InvalidSOAPRequest
        } else if same_text(t, "InvalidStorageClass") {
            S3ErrorCode::InvalidStorageClass
        } else if same_text(t, "InvalidTargetBucketForLogging") {
            S3ErrorCode::InvalidTargetBucketForLogging
        } else if same_text(t, "InvalidToken") {
            S3ErrorCode::InvalidToken
        } else if same_text(t, "InvalidURI") {
            S3ErrorCode::InvalidURI
        } else if same_text(t, "MalformedPOSTRequest") {
            S3ErrorCode::MalformedPOSTRequest
        } else if same_text(t, "MalformedXML") {
            S3ErrorCode::MalformedXML
        } else if same_text(t, "MaxMessageLengthExceeded") {
            S3ErrorCode::MaxMessageLengthExceeded
        } else if same_text(t, "MetadataTooLarge") {
            S3ErrorCode::MetadataTooLarge
        } else if same_text(t, "MethodNotAllowed") {
            S3ErrorCode::MethodNotAllowed
        } else if same_text(t, "MissingAttachment") {
            S3ErrorCode::MissingAttachment
        } else if same_text(t, "MissingContentLength") {
            S3ErrorCode::MissingContentLength
        } else if same_text(t, "MissingSecurityElement") {
            S3ErrorCode::MissingSecurityElement
        } else if same_text(t, "MissingSecurityHeader") {
            S3ErrorCode::MissingSecurityHeader
        } else if same_text(t, "NoLoggingStatusForKey") {
            S3ErrorCode::NoLoggingStatusForKey
        } else if same_text(t, "NoSuchBucket") {
            S3ErrorCode::NoSuchBucket
        } else if same_text(t, "NoSuchBucketPolicy") {
            S3ErrorCode::NoSuchBucketPolicy
        } else if same_text(t, "NoSuchKey") {
            S3ErrorCode::NoSuchKey
        } else if same_text(t, "NoSuchLifecycleConfiguration") {
            S3ErrorCode::NoSuchLifecycleConfiguration
        } else if same_text(t, "NoSuchUpload") {
            S3ErrorCode::NoSuchUpload
        } else if same_text(t, "NoSuchVersion") {
            S3ErrorCode::NoSuchVersion
        } else if same_text(t, "NotImplemented") {
            S3ErrorCode::NotImplemented
        } else if same_text(t, "NotSignedUp") {
            S3ErrorCode::NotSignedUp
        } else if same_text(t, "OperationAborted") {
            S3ErrorCode::OperationAborted
        } else if same_text(t, "PermanentRedirect") {
            S3ErrorCode::PermanentRedirect
        } else if same_text(t, "PreconditionFailed") {
            S3ErrorCode::PreconditionFailed
        } else if same_text(t, "Redirect") {
            S3ErrorCode::Redirect
        } else if same_text(t, "RestoreAlreadyInProgress") {
            S3ErrorCode::RestoreAlreadyInProgress
        } else if same_text(t, "RequestIsNotMultiPartContent") {
            S3ErrorCode::RequestIsNotMultiPartContent
        } else if same_text(t, "RequestTimeout") {
            S3ErrorCode::RequestTimeout
        } else if same_text(t, "RequestTimeTooSkewed") {
            S3ErrorCode::RequestTimeTooSkewed
        } else if same_text(t, "SignatureDoesNotMatch") {
            S3ErrorCode::SignatureDoesNotMatch
        } else if same_text(t, "ServiceUnavailable") {
            S3ErrorCode::ServiceUnavailable
        } else if same_text(t, "SlowDown") {
            S3ErrorCode::SlowDown
        } else if same_text(t, "TemporaryRedirect") {
            S3ErrorCode::TemporaryRedirect
        } else if same_text(t, "TokenRefreshRequired") {
            S3ErrorCode::TokenRefreshRequired
        } else if same_text(t, "TooManyBuckets") {
            S3ErrorCode::TooManyBuckets
        } else if same_text(t, "UnexpectedContent") {
            S3ErrorCode::UnexpectedContent
        } else if same_text(t, "UnresolvableGrantByEmailAddress") {
            S3ErrorCode::UnresolvableGrantByEmailAddress
        } else if same_text(t, "UserKeyMustBeSpecified") {
            S3ErrorCode::UserKeyMustBeSpecified
        } else {
            S3ErrorCode::Unrecognized(String::from_str(t))
        }
    }
}

/// Two codes are equal when their texts are.
impl PartialEq for S3ErrorCode {
    fn eq(&self, other: &S3ErrorCode) -> (r: bool)
        ensures
            r == (self.text() == other.text()),
    {
        same_text(self.as_str(), other.as_str())
    }
}

impl vstd::std_specs::cmp::PartialEqSpecImpl for S3ErrorCode {
    open spec fn obeys_eq_spec() -> bool {
        true
    }

    open spec fn eq_spec(&self, other: &S3ErrorCode) -> bool {
        self.text() == other.text()
    }
}

impl Eq for S3ErrorCode {}

/// A code whose text is not documented can only be an unrecognized one.
pub proof fn lemma_undocumented_code(c: S3ErrorCode)
    ensures
        !is_known_code(c.text()) ==> c is Unrecognized,
{
}

/// An error body whose code is missing or undocumented is still read as the store's refusal,
/// with an unrecognized code that keeps the code's text.
pub proof fn lemma_unrecognized_code_kept(status: u16, body: Seq<u8>, e: Error)
    requires
        refused_with(status, body, e),
        xml_fields(body) is Some,
        !is_known_code(field_or_empty(xml_fields(body)->0, "Code"@)),
    ensures
        e is S3Error,
        e->S3Error_0.code is Unrecognized,
        e->S3Error_0.code.text() == field_or_empty(xml_fields(body)->0, "Code"@),
{
    lemma_undocumented_code(e->S3Error_0.code);
}

/// How a refusal reads to a person: code, message and bucket.
pub open spec fn s3_error_text(e: S3ErrorView) -> Seq<char> {
    e.code + ": "@ + e.message + " on "@ + match e.bucket_name {
        Some(b) => "Some(\""@ + b + "\")"@,
        None => "None"@,
    }
}

impl S3Error {
    /// How the refusal reads to a person: `<code>: <message> on <bucket>`.
    pub fn to_string(&self) -> (r: String)
        ensures
            r@ == s3_error_text(self@),
    {
        let mut r = String::from_str(self.code.as_str());
        r.append(": ");
        r.append(self.message.as_str());
        r.append(" on ");
        match &self.bucket_name {
            Some(b) => {
                r.append("Some(\"");
                r.append(b.as_str());
                r.append("\")");
            },
            None => {
                r.append("None");
            },
        }
        r
    }
}

} // verus!
