//! A bucket of a store: the requests of its operations, and how their answers are read.
use vstd::prelude::*;

use crate::builder::{Builder, MissingCred};
use crate::client::{Client, ClientView, UrlStyle};
use crate::error::{refused_with, Error, S3ErrorCode, UserError};
use crate::request::{classify, is_success, Action, ActionView, Method, Request, Response};
use crate::sign::{
    endpoint_domain, is_valid_bucket_name, s3_addressable, s3_bucket_of, signed_create_bucket_url,
    signed_delete_bucket_url, signed_delete_object_url, signed_get_object_url, signed_put_object_url, url_domain, s3_bucket, sign_create_bucket, sign_delete_bucket, sign_delete_object,
    sign_get_object, sign_put_object, url_parses, utf8_text, valid_bucket_name, valid_object_path,
};
use vstd::slice::slice_to_vec;
use vstd::utf8::{decode_utf8, encode_utf8, valid_utf8};

verus! {

/// A bucket of a store: the client's configuration and the bucket's addressing. Every
/// operation signs a fresh request.
#[derive(Debug, Clone)]
pub struct Bucket {
    client: Client,
    bucket: rusty_s3::Bucket,
}

/// A bucket as values: its client's settings and rusty_s3's addressing of it.
pub struct BucketView {
    pub client: ClientView,
    pub bucket: rusty_s3::Bucket,
}

impl View for Bucket {
    type V = BucketView;

    closed spec fn view(&self) -> BucketView {
        BucketView { client: self.client@, bucket: self.bucket }
    }
}

/// Whether `r` is what asking for the bucket `name` of a client `c` in `style` gives: a
/// refusal of a name that no url can carry, of the virtual-host style on an endpoint whose
/// host is no domain name, of an endpoint that rusty_s3 cannot address; else the bucket.
pub open spec fn bucket_made(c: ClientView, name: Seq<char>, style: UrlStyle, r: Result<Bucket, Error>) -> bool {
    if !valid_bucket_name(name) {
        r is Err && r->Err_0 is UserError && r->Err_0->UserError_0 is InvalidBucketName
    } else if style == UrlStyle::VirtualHost && url_domain(c.addr) is None {
        r is Err && r->Err_0 is UserError && r->Err_0->UserError_0 is VirtualHostStyleNeedsDomain
    } else if !s3_addressable(c.addr) {
        r is Err && r->Err_0 is RustyS3
    } else {
        r is Ok && r->Ok_0@ == (BucketView {
            client: c,
            bucket: s3_bucket_of(c.addr, style == UrlStyle::Path, name, c.region),
        })
    }
}

/// Objects of this size or larger, in bytes, are put in parts: 5 MiB.
pub const MINIMAL_PUT_OBJECT_SIZE: u64 = 5 * 1024 * 1024;

/// Whether an answer to a creation says that the bucket exists already.
pub open spec fn already_exists(e: Error) -> bool {
    &&& e is S3Error
    &&& (e->S3Error_0.code.text() == "BucketAlreadyExists"@ || e->S3Error_0.code.text()
        == "BucketAlreadyOwnedByYou"@)
}

/// The request of an operation: its method, its url, its body and the operation.
pub(crate) fn request(method: Method, url: String, body: Vec<u8>, action: Action) -> (r: Request)
    ensures
        r.method == method,
        r.url == url,
        r.body == body,
        r.action == action,
{
    Request { method, url, body, action }
}

/// The error of an object path that would leave the bucket's url.
pub(crate) fn invalid_path(path: &str) -> (r: Error)
    ensures
        r is UserError && r->UserError_0 is InvalidObjectPath,
{
    Error::UserError(UserError::InvalidObjectPath(String::from_str(path)))
}

/// Whether url's `join` can take an object path without failing or changing host.
pub fn is_valid_object_path(p: &str) -> (r: bool)
    ensures
        r == valid_object_path(p@),
{
    let n = p.unicode_len();
    !(n >= 2 && p.get_char(0) == '/' && p.get_char(1) == '/')
}

/// The text that a successful fetch of an object gives: the text its bytes encode, or
/// nothing where they are not UTF-8.
pub open spec fn object_text(body: Seq<u8>) -> Option<Seq<char>> {
    if valid_utf8(body) {
        Some(decode_utf8(body))
    } else {
        None
    }
}

/// A text put as its UTF-8 bytes is fetched back unchanged as text; bytes that are not UTF-8
/// are fetched back only as bytes, the text accessor refusing them.
pub proof fn lemma_text_round_trip(text: Seq<char>, bytes: Seq<u8>)
    ensures
        object_text(encode_utf8(text)) == Some(text),
        !valid_utf8(bytes) ==> object_text(bytes) is None,
{
    vstd::utf8::encode_utf8_valid_utf8(text);
    vstd::utf8::encode_utf8_decode_utf8(text);
}

impl Bucket {
    /// A builder for a client of the store at `url`, still without its key and secret.
    pub fn builder(url: &str) -> (r: Result<Builder<MissingCred>, Error>)
        ensures
            r is Ok <==> url_parses(url@),
            r is Err ==> r->Err_0 is Url,
            r is Ok ==> r->Ok_0@ == crate::builder::new_settings(url@),
    {
        Builder::new(url)
    }

    /// A handle on the bucket `bucket` of the client's store, addressed in `url_style`; the
    /// bucket is not created on the store.
    pub fn new(client: Client, bucket: &str, url_style: UrlStyle) -> (r: Result<Bucket, Error>)
        ensures
            bucket_made(client@, bucket@, url_style, r),
    {
        if !is_valid_bucket_name(bucket) {
            return Err(Error::UserError(UserError::InvalidBucketName(String::from_str(bucket))));
        }
        if url_style == UrlStyle::VirtualHost && endpoint_domain(client.addr()).is_none() {
            return Err(Error::UserError(UserError::VirtualHostStyleNeedsDomain));
        }
        let path_style = url_style == UrlStyle::Path;
        match s3_bucket(client.addr(), path_style, bucket, client.region()) {
            Ok(b) => Ok(Bucket { client, bucket: b }),
            Err(e) => Err(Error::RustyS3(e)),
        }
    }

    /// A copy of the bucket.
    pub fn duplicate(&self) -> (r: Bucket)
        ensures
            r@ == self@,
    {
        Bucket { client: self.client.duplicate(), bucket: self.bucket.clone() }
    }

    /// The size of the parts of this bucket's multipart uploads.
    pub closed spec fn part_size(&self) -> usize {
        self.client@.multipart_size
    }

    /// The size of the parts of this bucket's multipart uploads.
    pub fn multipart_size(&self) -> (r: usize)
        ensures
            r == self.part_size(),
    {
        self.client.multipart_size()
    }

    /// The client of this bucket.
    pub fn client(&self) -> (r: &Client)
        ensures
            r@ == self@.client,
            r@.multipart_size == self.part_size(),
    {
        &self.client
    }

    pub(crate) fn s3(&self) -> (r: &rusty_s3::Bucket)
        ensures
            *r == self@.bucket,
    {
        &self.bucket
    }

    pub(crate) fn credentials(&self) -> (r: &rusty_s3::Credentials)
        ensures
            *r == self@.client.cred,
    {
        self.client.cred()
    }

    pub(crate) fn expiry(&self) -> (r: std::time::Duration)
        ensures
            r == self@.client.actions_expires_in,
    {
        self.client.expiry()
    }

    /// The request that creates the bucket on the store.
    pub fn create(&self) -> (r: Request)
        ensures
            r.method == Method::Put,
            r.body@.len() == 0,
            r.action@ == ActionView::CreateBucket,
            exists|t: int| #[trigger] signed_create_bucket_url(self@.bucket, self@.client.cred, self@.client.actions_expires_in, t) == r.url@,
    {
        let url = sign_create_bucket(&self.bucket, self.client.cred(), self.client.expiry());
        proof {
            let t = choose|t: int| #[trigger] signed_create_bucket_url(self@.bucket, self@.client.cred, self@.client.actions_expires_in, t) == url@;
            assert(signed_create_bucket_url(self@.bucket, self@.client.cred, self@.client.actions_expires_in, t) == url@);
        }
        request(Method::Put, url, Vec::new(), Action::CreateBucket)
    }

    /// Reads the answer to `create`: the bucket where the store created it or holds it already,
    /// the error otherwise.
    pub fn get_or_create(&self, created: Result<Response, Error>) -> (r: Result<Bucket, Error>)
        ensures
            match created {
                Err(e) => r == Err::<Bucket, Error>(e),
                Ok(resp) => if is_success(resp.status) {
                    r is Ok && r->Ok_0@ == self@
                } else if r is Ok {
                    &&& r->Ok_0@ == self@
                    &&& exists|e: Error| refused_with(resp.status, resp.body@, e) && already_exists(e)
                } else {
                    refused_with(resp.status, resp.body@, r->Err_0) && !already_exists(r->Err_0)
                },
            },
    {
        let resp = match created {
            Ok(resp) => resp,
            Err(e) => return Err(e),
        };
        let status = resp.status;
        let ghost body = resp.body@;
        let outcome = classify(Ok(resp));
        match outcome {
            Ok(_) => Ok(self.duplicate()),
            Err(Error::S3Error(e)) => {
                if e.code == S3ErrorCode::BucketAlreadyExists || e.code == S3ErrorCode::BucketAlreadyOwnedByYou {
                    assert(refused_with(status, body, Error::S3Error(e)) && already_exists(Error::S3Error(e)));
                    Ok(self.duplicate())
                } else {
                    Err(Error::S3Error(e))
                }
            },
            Err(e) => Err(e),
        }
    }

    /// The request that deletes the bucket from the store.
    pub fn delete(&self) -> (r: Request)
        ensures
            r.method == Method::Delete,
            r.body@.len() == 0,
            r.action@ == ActionView::DeleteBucket,
            exists|t: int| #[trigger] signed_delete_bucket_url(self@.bucket, self@.client.cred, self@.client.actions_expires_in, t) == r.url@,
    {
        let url = sign_delete_bucket(&self.bucket, self.client.cred(), self.client.expiry());
        proof {
            let t = choose|t: int| #[trigger] signed_delete_bucket_url(self@.bucket, self@.client.cred, self@.client.actions_expires_in, t) == url@;
            assert(signed_delete_bucket_url(self@.bucket, self@.client.cred, self@.client.actions_expires_in, t) == url@);
        }
        request(Method::Delete, url, Vec::new(), Action::DeleteBucket)
    }

    /// The request that fetches the object at `path`.
    pub fn get_object(&self, path: &str) -> (r: Result<Request, Error>)
        ensures
            r is Ok <==> valid_object_path(path@),
            r is Ok ==> r->Ok_0.method == Method::Get && r->Ok_0.body@.len() == 0,
            r is Ok ==> r->Ok_0.action@ == (ActionView::GetObject { path: path@ }),
            r is Ok ==> exists|t: int| #[trigger] signed_get_object_url(self@.bucket, self@.client.cred, path@, self@.client.actions_expires_in, t) == r->Ok_0.url@,
            r is Err ==> r->Err_0 is UserError && r->Err_0->UserError_0 is InvalidObjectPath,
    {
        if !is_valid_object_path(path) {
            return Err(invalid_path(path));
        }
        let path = String::from_str(path);
        let url = sign_get_object(&self.bucket, self.client.cred(), path.as_str(), self.client.expiry());
        proof {
            let t = choose|t: int| #[trigger] signed_get_object_url(self@.bucket, self@.client.cred, path@, self@.client.actions_expires_in, t) == url@;
            assert(signed_get_object_url(self@.bucket, self@.client.cred, path@, self@.client.actions_expires_in, t) == url@);
        }
        Ok(request(Method::Get, url, Vec::new(), Action::GetObject { path }))
    }

    /// Reads the answer to `get_object`: the object's bytes, as they came. Never fails on
    /// what the bytes hold.
    pub fn get_object_bytes(fetched: Result<Response, Error>) -> (r: Result<Vec<u8>, Error>)
        ensures
            match fetched {
                Ok(resp) => if is_success(resp.status) {
                    r is Ok && r->Ok_0@ == resp.body@
                } else {
                    r is Err && refused_with(resp.status, resp.body@, r->Err_0)
                },
                Err(e) => r == Err::<Vec<u8>, Error>(e),
            },
    {
        match classify(fetched) {
            Ok(resp) => Ok(resp.body),
            Err(e) => Err(e),
        }
    }

    /// Reads the answer to `get_object` as text: a user error where the bytes are not UTF-8,
    /// after which they can still be read with `get_object_bytes`.
    pub fn get_object_string(fetched: Result<Response, Error>) -> (r: Result<String, Error>)
        ensures
            match fetched {
                Ok(resp) => if !is_success(resp.status) {
                    r is Err && refused_with(resp.status, resp.body@, r->Err_0)
                } else if object_text(resp.body@) is Some {
                    r is Ok && r->Ok_0@ == object_text(resp.body@)->0
                } else {
                    r is Err && r->Err_0 is UserError
                        && r->Err_0->UserError_0 is PayloadCouldNotBeConvertedToString
                },
                Err(e) => r == Err::<String, Error>(e),
            },
    {
        match Bucket::get_object_bytes(fetched) {
            Ok(bytes) => match utf8_text(bytes) {
                Ok(s) => Ok(s),
                Err(e) => Err(Error::UserError(UserError::PayloadCouldNotBeConvertedToString(e))),
            },
            Err(e) => Err(e),
        }
    }

    /// The request that deletes the object at `path`.
    pub fn delete_object(&self, path: &str) -> (r: Result<Request, Error>)
        ensures
            r is Ok <==> valid_object_path(path@),
            r is Ok ==> r->Ok_0.method == Method::Delete && r->Ok_0.body@.len() == 0,
            r is Ok ==> r->Ok_0.action@ == (ActionView::DeleteObject { path: path@ }),
            r is Ok ==> exists|t: int| #[trigger] signed_delete_object_url(self@.bucket, self@.client.cred, path@, self@.client.actions_expires_in, t) == r->Ok_0.url@,
            r is Err ==> r->Err_0 is UserError && r->Err_0->UserError_0 is InvalidObjectPath,
    {
        if !is_valid_object_path(path) {
            return Err(invalid_path(path));
        }
        let path = String::from_str(path);
        let url = sign_delete_object(&self.bucket, self.client.cred(), path.as_str(), self.client.expiry());
        proof {
            let t = choose|t: int| #[trigger] signed_delete_object_url(self@.bucket, self@.client.cred, path@, self@.client.actions_expires_in, t) == url@;
            assert(signed_delete_object_url(self@.bucket, self@.client.cred, path@, self@.client.actions_expires_in, t) == url@);
        }
        Ok(request(Method::Delete, url, Vec::new(), Action::DeleteObject { path }))
    }

    /// The request that puts `content` at `path` in one piece.
    pub fn put_object(&self, path: &str, content: &[u8]) -> (r: Result<Request, Error>)
        ensures
            r is Ok <==> valid_object_path(path@),
            r is Ok ==> r->Ok_0.method == Method::Put && r->Ok_0.body@ == content@,
            r is Ok ==> r->Ok_0.action@ == (ActionView::PutObject { path: path@ }),
            r is Ok ==> exists|t: int| #[trigger] signed_put_object_url(self@.bucket, self@.client.cred, path@, self@.client.actions_expires_in, t) == r->Ok_0.url@,
            r is Err ==> r->Err_0 is UserError && r->Err_0->UserError_0 is InvalidObjectPath,
    {
        if !is_valid_object_path(path) {
            return Err(invalid_path(path));
        }
        let path = String::from_str(path);
        let url = sign_put_object(&self.bucket, self.client.cred(), path.as_str(), self.client.expiry());
        proof {
            let t = choose|t: int| #[trigger] signed_put_object_url(self@.bucket, self@.client.cred, path@, self@.client.actions_expires_in, t) == url@;
            assert(signed_put_object_url(self@.bucket, self@.client.cred, path@, self@.client.actions_expires_in, t) == url@);
        }
        Ok(request(Method::Put, url, slice_to_vec(content), Action::PutObject { path }))
    }

    /// Whether an object of `size` bytes is put in parts rather than in one piece.
    pub fn put_object_file_in_parts(size: u64) -> (r: bool)
        ensures
            r == (size >= MINIMAL_PUT_OBJECT_SIZE),
    {
        size >= MINIMAL_PUT_OBJECT_SIZE
    }
}

} // verus!
