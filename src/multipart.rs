//! Multipart uploads: the session that the store opens for one object, and the engine that
//! cuts a source into parts of a fixed size and drives the session to its completion.
use vstd::prelude::*;

use crate::bucket::{invalid_path, is_valid_object_path, request, Bucket, BucketView};
use crate::error::{refused_with, Error, InternalError, UserError};
use crate::request::{classify, header_value, is_success, Action, ActionView, Method, Request, Response};
use crate::sign::{
    complete_multipart_body, completion_body, etag_header_name, parse_upload_id, sign_complete_multipart,
    sign_create_multipart, sign_upload_part, signed_complete_multipart_url, signed_create_multipart_url,
    signed_upload_part_url, upload_id_in, utf8_text, valid_object_path,
};
use crate::text::{strip_both, trim_char};
use vstd::arithmetic::div_mod::{lemma_fundamental_div_mod, lemma_fundamental_div_mod_converse, lemma_mod_pos_bound};
use vstd::slice::slice_to_vec;
use vstd::utf8::{decode_utf8, encode_utf8, valid_utf8};

verus! {

broadcast use vstd::seq_lib::group_seq_properties;

/// The most parts that one upload may have.
pub const MAX_PARTS: u16 = 10000;

/// The upload id in an answer to the opening of an upload; `None` where the answer is a
/// failure or holds none.
pub open spec fn opened_upload(sent: Result<Response, Error>) -> Option<Seq<char>> {
    match sent {
        Ok(resp) => if is_success(resp.status) && valid_utf8(resp.body@) {
            upload_id_in(decode_utf8(resp.body@))
        } else {
            None
        },
        Err(_) => None,
    }
}

/// The ETag header of an answer to the upload of a part; `None` where the answer is a failure
/// or has no such header.
pub open spec fn uploaded_etag(sent: Result<Response, Error>) -> Option<Seq<char>> {
    match sent {
        Ok(resp) => if is_success(resp.status) {
            header_value(resp.headers.deep_view(), "etag"@)
        } else {
            None
        },
        Err(_) => None,
    }
}

/// The names of the headers, joined by `, `.
pub open spec fn joined_names(headers: Seq<(Seq<char>, Seq<char>)>) -> Seq<char>
    decreases headers.len(),
{
    if headers.len() == 0 {
        Seq::empty()
    } else if headers.len() == 1 {
        headers[0].0
    } else {
        joined_names(headers.drop_last()) + ", "@ + headers.last().0
    }
}

/// The names of the headers of `resp`, joined by `, `.
fn header_names(resp: &Response) -> (r: String)
    ensures
        r@ == joined_names(resp.headers.deep_view()),
{
    let mut r = String::new();
    let mut i: usize = 0;
    while i < resp.headers.len()
        invariant
            i <= resp.headers.len(),
            r@ == joined_names(resp.headers.deep_view().take(i as int)),
        decreases resp.headers.len() - i,
    {
        assert(resp.headers.deep_view().take(i + 1).drop_last() == resp.headers.deep_view().take(i as int));
        if i > 0 {
            r.append(", ");
        }
        r.append(resp.headers[i].0.as_str());
        i = i + 1;
    }
    assert(resp.headers.deep_view().take(i as int) == resp.headers.deep_view());
    r
}

/// An upload session that the store opened: the object's path, the upload id, and the ETag of
/// each part uploaded so far, in part order.
pub struct Multipart<'a> {
    bucket: &'a Bucket,
    path: &'a str,
    upload_id: String,
    etags: Vec<String>,
    part: u16,
}

/// A session as plain values; `part` is the number of the next part.
pub struct MultipartView {
    pub bucket: BucketView,
    pub path: Seq<char>,
    pub upload_id: Seq<char>,
    pub etags: Seq<Seq<char>>,
    pub part: u16,
}

impl<'a> View for Multipart<'a> {
    type V = MultipartView;

    closed spec fn view(&self) -> MultipartView {
        MultipartView {
            bucket: self.bucket@,
            path: self.path@,
            upload_id: self.upload_id@,
            etags: self.etags.deep_view(),
            part: self.part,
        }
    }
}

impl<'a> Multipart<'a> {
    /// Parts are numbered from 1 without gaps: the next number is one more than the ETags
    /// recorded, never past ten thousand and one; the path is one that url can join.
    pub closed spec fn wf(&self) -> bool {
        &&& self.part as int == self.etags.len() + 1
        &&& self.part <= MAX_PARTS + 1
        &&& valid_object_path(self.path@)
    }

    /// The numbering of parts in a well-formed session.
    pub proof fn lemma_part_numbers(&self)
        requires
            self.wf(),
        ensures
            self@.part as int == self@.etags.len() + 1,
            1 <= self@.part <= MAX_PARTS + 1,
            valid_object_path(self@.path),
    {
    }

    /// The request that uploads `buffer` as the next part. Once ten thousand parts are
    /// uploaded it is refused, before anything is signed.
    pub fn upload_part(&self, buffer: &[u8]) -> (r: Result<Request, Error>)
        requires
            self.wf(),
        ensures
            r is Err <==> self@.part > MAX_PARTS,
            r is Err ==> r->Err_0 is UserError
                && r->Err_0->UserError_0 is TriedToSendMoreThan10000PartsInMultiPart,
            r is Ok ==> r->Ok_0.method == Method::Put && r->Ok_0.body@ == buffer@,
            r is Ok ==> r->Ok_0.action@ == (ActionView::UploadPart {
                path: self@.path,
                part: self@.part,
                upload_id: self@.upload_id,
            }),
            r is Ok ==> exists|t: int| #[trigger] signed_upload_part_url(self@.bucket.bucket, self@.bucket.client.cred, self@.path, self@.part, self@.upload_id, self@.bucket.client.actions_expires_in, t)
                == r->Ok_0.url@,
    {
        if self.part > MAX_PARTS {
            return Err(Error::UserError(UserError::TriedToSendMoreThan10000PartsInMultiPart));
        }
        let path = String::from_str(self.path);
        let upload_id = self.upload_id.clone();
        let url = sign_upload_part(
            self.bucket.s3(),
            self.bucket.credentials(),
            path.as_str(),
            self.part,
            upload_id.as_str(),
            self.bucket.expiry(),
        );
        proof {
            let t = choose|t: int| #[trigger] signed_upload_part_url(self@.bucket.bucket, self@.bucket.client.cred, self@.path, self@.part, self@.upload_id, self@.bucket.client.actions_expires_in, t) == url@;
            assert(signed_upload_part_url(self@.bucket.bucket, self@.bucket.client.cred, self@.path, self@.part, self@.upload_id, self@.bucket.client.actions_expires_in, t) == url@);
        }
        Ok(request(Method::Put, url, slice_to_vec(buffer), Action::UploadPart { path, part: self.part, upload_id }))
    }

    /// Records the store's answer to the upload of the next part: its ETag, without the quotes
    /// around it, and the next part number. Nothing changes on a failure.
    pub fn part_uploaded(&mut self, sent: Result<Response, Error>) -> (r: Result<(), Error>)
        requires
            old(self).wf(),
        ensures
            final(self).wf(),
            r is Ok <==> old(self)@.part <= MAX_PARTS && uploaded_etag(sent) is Some,
            r is Ok ==> final(self)@ == (MultipartView {
                etags: old(self)@.etags.push(strip_both(uploaded_etag(sent)->0, '"')),
                part: (old(self)@.part + 1) as u16,
                ..old(self)@
            }),
            r is Err ==> final(self)@ == old(self)@,
            old(self)@.part > MAX_PARTS ==> r is Err && r->Err_0 is UserError,
            old(self)@.part <= MAX_PARTS ==> match sent {
                Err(e) => r == Err::<(), Error>(e),
                Ok(resp) => if !is_success(resp.status) {
                    r is Err && refused_with(resp.status, resp.body@, r->Err_0)
                } else if uploaded_etag(sent) is None {
                    &&& r is Err && r->Err_0 is InternalError
                    &&& r->Err_0->InternalError_0 is MultipartMissingEtagHeader
                    &&& r->Err_0->InternalError_0->MultipartMissingEtagHeader_0@ == joined_names(
                        resp.headers.deep_view(),
                    )
                } else {
                    true
                },
            },
    {
        if self.part > MAX_PARTS {
            return Err(Error::UserError(UserError::TriedToSendMoreThan10000PartsInMultiPart));
        }
        let resp = match sent {
            Ok(resp) => resp,
            Err(e) => return Err(e),
        };
        let resp = match classify(Ok(resp)) {
            Ok(resp) => resp,
            Err(e) => return Err(e),
        };
        let name = etag_header_name();
        let etag = match resp.header(name) {
            Some(v) => trim_char(v.as_str(), '"'),
            None => {
                let names = header_names(&resp);
                return Err(Error::InternalError(InternalError::MultipartMissingEtagHeader(names)));
            },
        };
        self.etags.push(etag);
        self.part = self.part + 1;
        assert(self.etags.deep_view() == old(self).etags.deep_view().push(etag@));
        Ok(())
    }

    /// The request that completes the upload with the parts recorded: the ETag at index `i`
    /// for part `i + 1`.
    pub fn complete(&self) -> (r: Request)
        requires
            self.wf(),
        ensures
            r.method == Method::Post,
            r.body@ == encode_utf8(completion_body(self@.etags)),
            r.action@ == (ActionView::CompleteMultipartUpload { path: self@.path, upload_id: self@.upload_id }),
            exists|t: int| #[trigger] signed_complete_multipart_url(self@.bucket.bucket, self@.bucket.client.cred, self@.path, self@.upload_id, self@.bucket.client.actions_expires_in, t)
                == r.url@,
    {
        let path = String::from_str(self.path);
        let upload_id = self.upload_id.clone();
        let url = sign_complete_multipart(
            self.bucket.s3(),
            self.bucket.credentials(),
            path.as_str(),
            upload_id.as_str(),
            self.bucket.expiry(),
        );
        proof {
            let t = choose|t: int| #[trigger] signed_complete_multipart_url(self@.bucket.bucket, self@.bucket.client.cred, self@.path, self@.upload_id, self@.bucket.client.actions_expires_in, t) == url@;
            assert(signed_complete_multipart_url(self@.bucket.bucket, self@.bucket.client.cred, self@.path, self@.upload_id, self@.bucket.client.actions_expires_in, t) == url@);
        }
        let body = complete_multipart_body(
            self.bucket.s3(),
            self.bucket.credentials(),
            self.path,
            self.upload_id.as_str(),
            &self.etags,
        );
        request(
            Method::Post,
            url,
            body.as_str().as_bytes_vec(),
            Action::CompleteMultipartUpload { path, upload_id },
        )
    }
}

impl Bucket {
    /// Begins putting `path` in parts of the client's multipart size: the upload, and the
    /// request that opens its session. The upload is then driven by its steps.
    pub fn put_object_multipart<'a>(&'a self, path: &'a str) -> (r: Result<(MultipartUpload<'a>, Request), Error>)
        requires
            self.part_size() > 0,
        ensures
            r is Ok <==> valid_object_path(path@),
            r is Err ==> r->Err_0 is UserError && r->Err_0->UserError_0 is InvalidObjectPath,
            r is Ok ==> {
                &&& r->Ok_0.0.wf()
                &&& r->Ok_0.0@.phase == UploadPhase::Creating
                &&& r->Ok_0.0@.chunk_size == self.part_size()
                &&& r->Ok_0.0@.source.len() == 0
                &&& r->Ok_0.0@.parts.len() == 0
                &&& r->Ok_0.1.method == Method::Post
                &&& r->Ok_0.1.body@.len() == 0
                &&& r->Ok_0.1.action@ == (ActionView::CreateMultipartUpload { path: path@ })
                &&& exists|t: int| #[trigger] signed_create_multipart_url(self@.bucket, self@.client.cred, path@, self@.client.actions_expires_in, t)
                    == r->Ok_0.1.url@
            },
    {
        let req = match self.create_multipart(path) {
            Ok(req) => req,
            Err(e) => return Err(e),
        };
        let upload = MultipartUpload {
            bucket: self,
            path,
            session: None,
            chunk: Vec::new(),
            chunk_size: self.multipart_size(),
            phase: UploadPhase::Creating,
            source: Ghost(Seq::empty()),
            parts: Ghost(Seq::empty()),
        };
        Ok((upload, req))
    }

    /// The request that opens a multipart upload of the object at `path`.
    pub fn create_multipart(&self, path: &str) -> (r: Result<Request, Error>)
        ensures
            r is Ok <==> valid_object_path(path@),
            r is Ok ==> r->Ok_0.method == Method::Post && r->Ok_0.body@.len() == 0,
            r is Ok ==> r->Ok_0.action@ == (ActionView::CreateMultipartUpload { path: path@ }),
            r is Ok ==> exists|t: int| #[trigger] signed_create_multipart_url(self@.bucket, self@.client.cred, path@, self@.client.actions_expires_in, t)
                == r->Ok_0.url@,
            r is Err ==> r->Err_0 is UserError && r->Err_0->UserError_0 is InvalidObjectPath,
    {
        if !is_valid_object_path(path) {
            return Err(invalid_path(path));
        }
        let path = String::from_str(path);
        let url = sign_create_multipart(self.s3(), self.credentials(), path.as_str(), self.expiry());
        proof {
            let t = choose|t: int| #[trigger] signed_create_multipart_url(self@.bucket, self@.client.cred, path@, self@.client.actions_expires_in, t) == url@;
            assert(signed_create_multipart_url(self@.bucket, self@.client.cred, path@, self@.client.actions_expires_in, t) == url@);
        }
        Ok(request(Method::Post, url, Vec::new(), Action::CreateMultipartUpload { path }))
    }

    /// The session that the store opened, read from its answer to `create_multipart(path)`.
    pub fn starts_multipart<'a>(&'a self, path: &'a str, created: Result<Response, Error>) -> (r: Result<
        Multipart<'a>,
        Error,
    >)
        ensures
            r is Ok <==> valid_object_path(path@) && opened_upload(created) is Some,
            r is Ok ==> r->Ok_0.wf() && r->Ok_0@ == (MultipartView {
                bucket: self@,
                path: path@,
                upload_id: opened_upload(created)->0,
                etags: Seq::empty(),
                part: 1,
            }),
            !valid_object_path(path@) ==> r is Err && r->Err_0 is UserError,
            valid_object_path(path@) ==> match created {
                Err(e) => r == Err::<Multipart<'a>, Error>(e),
                Ok(resp) => if !is_success(resp.status) {
                    r is Err && refused_with(resp.status, resp.body@, r->Err_0)
                } else if !valid_utf8(resp.body@) {
                    r is Err && r->Err_0 is InternalError
                        && r->Err_0->InternalError_0 is S3ReturnedNonUtf8Payload
                } else if opened_upload(created) is None {
                    r is Err && r->Err_0 is InternalError && r->Err_0->InternalError_0 is BadS3Payload
                } else {
                    true
                },
            },
    {
        if !is_valid_object_path(path) {
            return Err(invalid_path(path));
        }
        let resp = match created {
            Ok(resp) => resp,
            Err(e) => return Err(e),
        };
        let resp = match classify(Ok(resp)) {
            Ok(resp) => resp,
            Err(e) => return Err(e),
        };
        let text = match utf8_text(resp.body) {
            Ok(text) => text,
            Err(e) => return Err(Error::InternalError(InternalError::S3ReturnedNonUtf8Payload(e))),
        };
        let upload_id = match parse_upload_id(text.as_str()) {
            Ok(id) => id,
            Err(e) => return Err(Error::InternalError(InternalError::BadS3Payload(e))),
        };
        let m = Multipart { bucket: self, path, upload_id, etags: Vec::new(), part: 1 };
        assert(m.etags.deep_view() == Seq::<Seq<char>>::empty());
        Ok(m)
    }
}

/// `s` cut into parts of `c` bytes, the last one shorter where `c` does not divide the length.
pub open spec fn chunks_of(s: Seq<u8>, c: nat) -> Seq<Seq<u8>>
    decreases s.len(),
{
    if c == 0 || s.len() == 0 {
        Seq::empty()
    } else if s.len() <= c {
        seq![s]
    } else {
        seq![s.take(c as int)] + chunks_of(s.skip(c as int), c)
    }
}

/// Whether every part holds exactly `c` bytes.
pub open spec fn all_full(parts: Seq<Seq<u8>>, c: nat) -> bool {
    forall|i: int| 0 <= i < parts.len() ==> (#[trigger] parts[i]).len() == c
}

/// Cutting a source into parts of `c` bytes and joining the parts gives the source back; every
/// part holds between 1 and `c` bytes, and all but the last exactly `c`.
pub proof fn lemma_parts_rebuild_source(source: Seq<u8>, c: nat)
    requires
        c > 0,
    ensures
        chunks_of(source, c).flatten() == source,
        forall|i: int| 0 <= i < chunks_of(source, c).len() ==> 0 < (#[trigger] chunks_of(source, c)[i]).len() <= c,
        forall|i: int| 0 <= i < chunks_of(source, c).len() - 1 ==> (#[trigger] chunks_of(source, c)[i]).len() == c,
    decreases source.len(),
{
    let p = chunks_of(source, c);
    if source.len() == 0 {
    } else if source.len() <= c {
        assert(p.drop_first() == Seq::<Seq<u8>>::empty());
        assert(p.drop_first().flatten() == Seq::<u8>::empty());
        assert(p.flatten() == p.first() + p.drop_first().flatten());
        assert(source + Seq::<u8>::empty() == source);
    } else {
        let rest = source.skip(c as int);
        lemma_parts_rebuild_source(rest, c);
        assert(p.drop_first() == chunks_of(rest, c));
        assert(source.take(c as int) + rest == source);
        assert forall|i: int| 0 <= i < p.len() implies 0 < (#[trigger] p[i]).len() <= c by {
            if i > 0 {
                assert(p[i] == chunks_of(rest, c)[i - 1]);
            }
        }
        assert forall|i: int| 0 <= i < p.len() - 1 implies (#[trigger] p[i]).len() == c by {
            if i > 0 {
                assert(p[i] == chunks_of(rest, c)[i - 1]);
            }
        }
    }
}

/// Cutting `n` bytes into parts of `c` bytes gives ceil(n / c) parts.
pub proof fn lemma_part_count(source: Seq<u8>, c: nat)
    requires
        c > 0,
    ensures
        chunks_of(source, c).len() == (source.len() + c - 1) / (c as int),
    decreases source.len(),
{
    let n = source.len() as int;
    let ci = c as int;
    if n == 0 {
        lemma_fundamental_div_mod_converse(ci - 1, ci, 0, ci - 1);
    } else if n <= ci {
        lemma_fundamental_div_mod_converse(n + ci - 1, ci, 1, n - 1);
    } else {
        let rest = source.skip(ci);
        lemma_part_count(rest, c);
        assert(chunks_of(source, c).len() == 1 + chunks_of(rest, c).len());
        let x = n - 1;
        lemma_fundamental_div_mod(x, ci);
        lemma_mod_pos_bound(x, ci);
        let q = x / ci;
        let r = x % ci;
        assert(n + ci - 1 == (q + 1) * ci + r) by (nonlinear_arith)
            requires
                x == ci * q + r,
                x == n - 1,
        ;
        assert(rest.len() + ci - 1 == n - 1);
        lemma_fundamental_div_mod_converse(n + ci - 1, ci, q + 1, r);
    }
}

/// A source of more than ten thousand parts' worth of bytes cuts into more than ten thousand
/// parts, so its upload cannot finish.
pub proof fn lemma_too_large_source(source: Seq<u8>, c: nat)
    requires
        c > 0,
        source.len() > MAX_PARTS as int * c,
    ensures
        chunks_of(source, c).len() > MAX_PARTS,
{
    lemma_part_count(source, c);
    let n = source.len() as int;
    let ci = c as int;
    let k = (n + ci - 1) / ci;
    lemma_fundamental_div_mod(n + ci - 1, ci);
    lemma_mod_pos_bound(n + ci - 1, ci);
    let r = (n + ci - 1) % ci;
    assert(k > MAX_PARTS) by (nonlinear_arith)
        requires
            n + ci - 1 == ci * k + r,
            0 <= r < ci,
            n > 10000 * ci,
            ci > 0,
    ;
}

/// Parts of `c` bytes each but the last, which holds between 1 and `c`, are what cutting
/// their join gives.
proof fn lemma_chunks_of_parts(parts: Seq<Seq<u8>>, c: nat)
    requires
        c > 0,
        forall|i: int| 0 <= i < parts.len() - 1 ==> (#[trigger] parts[i]).len() == c,
        parts.len() > 0 ==> 0 < parts.last().len() <= c,
    ensures
        chunks_of(parts.flatten(), c) == parts,
    decreases parts.len(),
{
    if parts.len() == 0 {
        assert(parts == Seq::<Seq<u8>>::empty());
    } else if parts.len() == 1 {
        assert(parts.drop_first() == Seq::<Seq<u8>>::empty());
        assert(parts.drop_first().flatten() == Seq::<u8>::empty());
        assert(parts.flatten() == parts.first() + parts.drop_first().flatten());
        assert(parts[0] + Seq::<u8>::empty() == parts[0]);
        assert(parts.flatten() == parts[0]);
        assert(seq![parts[0]] == parts);
    } else {
        let rest = parts.drop_first();
        assert forall|i: int| 0 <= i < rest.len() - 1 implies (#[trigger] rest[i]).len() == c by {
            assert(rest[i] == parts[i + 1]);
        }
        assert(rest.last() == parts.last());
        lemma_chunks_of_parts(rest, c);
        let f = parts.flatten();
        assert(f == parts[0] + rest.flatten());
        assert(rest.flatten() == rest[0] + rest.drop_first().flatten());
        assert(rest[0] == parts[1]);
        assert(rest[0].len() > 0);
        assert(f.take(c as int) == parts[0]);
        assert(f.skip(c as int) == rest.flatten());
        assert(chunks_of(f, c) == seq![parts[0]] + rest);
        assert(seq![parts[0]] + rest == parts);
    }
}

/// What the driver of an upload does next.
#[derive(Debug)]
pub enum UploadStep {
    /// Send this request and hand what comes back to `on_response`.
    Send(Request),
    /// Read at most this many bytes from the source and hand them to `on_read`; handing no
    /// bytes says that the source is exhausted.
    Read(usize),
    /// The object is stored.
    Finished,
}

/// Where an upload stands.
#[derive(Debug, Clone, Copy, PartialEq, Eq, Structural)]
pub enum UploadPhase {
    /// Waiting for the answer to the opening of the session.
    Creating,
    /// Filling the next part from the source.
    Reading,
    /// Waiting for the answer to the upload of a full part.
    Uploading,
    /// Waiting for the answer to the upload of the last part, shorter than the others.
    UploadingLast,
    /// Waiting for the answer to the completion.
    Completing,
    /// The object is stored.
    Finished,
    /// A step failed; the session is left to the store.
    Failed,
}

/// An object put in parts: the session, the part being filled, and, as ghost state, every byte
/// read from the source and every part handed out so far.
///
/// Parts are read and uploaded one after the other; nothing is retried, and on a failure the
/// session is left open on the store, whose lifecycle rules must clean it up. An empty source
/// is completed with no part at all, which the store judges.
pub struct MultipartUpload<'a> {
    bucket: &'a Bucket,
    path: &'a str,
    session: Option<Multipart<'a>>,
    chunk: Vec<u8>,
    chunk_size: usize,
    phase: UploadPhase,
    source: Ghost<Seq<u8>>,
    parts: Ghost<Seq<Seq<u8>>>,
}

/// An upload as plain values.
pub struct UploadView {
    pub phase: UploadPhase,
    pub chunk_size: nat,
    /// The bytes read from the source so far.
    pub source: Seq<u8>,
    /// The bodies of the part uploads handed out so far, in part order.
    pub parts: Seq<Seq<u8>>,
    /// The bytes of the part being filled.
    pub chunk: Seq<u8>,
    /// The ETags of the parts that the store took.
    pub etags: Seq<Seq<char>>,
    /// The object's path.
    pub path: Seq<char>,
    /// The id of the session, once the store opened it.
    pub upload_id: Seq<char>,
}

impl<'a> View for MultipartUpload<'a> {
    type V = UploadView;

    closed spec fn view(&self) -> UploadView {
        UploadView {
            phase: self.phase,
            chunk_size: self.chunk_size as nat,
            source: self.source@,
            parts: self.parts@,
            chunk: self.chunk@,
            etags: match self.session {
                Some(s) => s@.etags,
                None => Seq::empty(),
            },
            path: self.path@,
            upload_id: match self.session {
                Some(s) => s@.upload_id,
                None => Seq::empty(),
            },
        }
    }
}

/// Appends `data` to `chunk`.
fn append(chunk: &mut Vec<u8>, data: &[u8])
    ensures
        final(chunk)@ == old(chunk)@ + data@,
{
    let mut i: usize = 0;
    while i < data.len()
        invariant
            i <= data@.len(),
            chunk@ == old(chunk)@ + data@.take(i as int),
        decreases data.len() - i,
    {
        chunk.push(data[i]);
        assert(data@.take(i + 1) == data@.take(i as int).push(data@[i as int]));
        i = i + 1;
    }
    assert(data@.take(i as int) == data@);
}

impl<'a> MultipartUpload<'a> {
    /// The bytes read are the parts handed out and the part being filled; every part is full
    /// but for a last one after the source ran out; once completing, the parts are the source
    /// cut into parts of the chunk size.
    pub closed spec fn wf(&self) -> bool {
        let v = self@;
        &&& self.chunk_size > 0
        &&& valid_object_path(self.path@)
        &&& self.phase != UploadPhase::Creating && self.phase != UploadPhase::Failed ==> {
            &&& self.session is Some
            &&& self.session->0.wf()
            &&& self.session->0@.path == self.path@
        }
        &&& match self.phase {
            UploadPhase::Creating => v.chunk.len() == 0 && v.source.len() == 0 && v.parts.len() == 0,
            UploadPhase::Reading => {
                &&& v.etags.len() == v.parts.len()
                &&& v.chunk.len() < v.chunk_size
                &&& v.source == v.parts.flatten() + v.chunk
                &&& all_full(v.parts, v.chunk_size)
            },
            UploadPhase::Uploading => {
                &&& v.etags.len() + 1 == v.parts.len()
                &&& v.parts.len() <= MAX_PARTS
                &&& v.chunk.len() == 0
                &&& v.source == v.parts.flatten()
                &&& all_full(v.parts, v.chunk_size)
            },
            UploadPhase::UploadingLast => {
                &&& v.etags.len() + 1 == v.parts.len()
                &&& v.parts.len() <= MAX_PARTS
                &&& v.chunk.len() == 0
                &&& v.source == v.parts.flatten()
                &&& all_full(v.parts.drop_last(), v.chunk_size)
                &&& 0 < v.parts.last().len() < v.chunk_size
            },
            UploadPhase::Completing | UploadPhase::Finished => {
                &&& v.etags.len() == v.parts.len()
                &&& v.parts == chunks_of(v.source, v.chunk_size)
            },
            UploadPhase::Failed => true,
        }
    }

    /// Where the upload stands.
    pub fn phase(&self) -> (r: UploadPhase)
        ensures
            r == self@.phase,
    {
        self.phase
    }

    /// Hands the part being filled to the session, as the last part where `last` holds.
    fn upload_chunk(&mut self, last: bool) -> (r: Result<UploadStep, Error>)
        requires
            old(self).chunk_size > 0,
            valid_object_path(old(self).path@),
            old(self).session is Some,
            old(self).session->0.wf(),
            old(self).session->0@.path == old(self).path@,
            old(self).phase == UploadPhase::Reading,
            old(self)@.etags.len() == old(self)@.parts.len(),
            old(self)@.source == old(self)@.parts.flatten() + old(self)@.chunk,
            all_full(old(self)@.parts, old(self)@.chunk_size),
            last ==> 0 < old(self)@.chunk.len() < old(self)@.chunk_size,
            !last ==> old(self)@.chunk.len() == old(self)@.chunk_size,
        ensures
            final(self).wf(),
            final(self)@.chunk_size == old(self)@.chunk_size,
            final(self)@.path == old(self)@.path,
            final(self)@.upload_id == old(self)@.upload_id,
            final(self)@.source == old(self)@.source,
            r is Ok <==> old(self)@.parts.len() < MAX_PARTS,
            r is Err ==> final(self)@.phase == UploadPhase::Failed && r->Err_0 is UserError
                && r->Err_0->UserError_0 is TriedToSendMoreThan10000PartsInMultiPart,
            r is Ok ==> {
                &&& r->Ok_0 is Send
                &&& r->Ok_0->Send_0.method == Method::Put
                &&& r->Ok_0->Send_0.body@ == old(self)@.chunk
                &&& r->Ok_0->Send_0.action@ == (ActionView::UploadPart {
                    path: old(self)@.path,
                    part: final(self)@.parts.len() as u16,
                    upload_id: old(self)@.upload_id,
                })
                &&& final(self)@.parts == old(self)@.parts.push(old(self)@.chunk)
                &&& final(self)@.upload_id == old(self)@.upload_id
                &&& final(self)@.etags == old(self)@.etags
                &&& final(self)@.phase == if last {
                    UploadPhase::UploadingLast
                } else {
                    UploadPhase::Uploading
                }
            },
    {
        let ghost parts = self.parts@;
        let ghost chunk = self.chunk@;
        proof {
            self.session->0.lemma_part_numbers();
        }
        let outcome = self.session.as_ref().unwrap().upload_part(self.chunk.as_slice());
        match outcome {
            Ok(req) => {
                self.parts = Ghost(self.parts@.push(self.chunk@));
                self.chunk = Vec::new();
                self.phase = if last {
                    UploadPhase::UploadingLast
                } else {
                    UploadPhase::Uploading
                };
                proof {
                    parts.lemma_flatten_push(chunk);
                    assert(parts.push(chunk).drop_last() == parts);
                    if !last {
                        assert forall|i: int| 0 <= i < parts.len() + 1 implies (#[trigger] parts.push(
                            chunk,
                        )[i]).len() == self.chunk_size by {
                            if i < parts.len() {
                                assert(parts.push(chunk)[i] == parts[i]);
                            }
                        }
                    }
                }
                Ok(UploadStep::Send(req))
            },
            Err(e) => {
                self.phase = UploadPhase::Failed;
                Err(e)
            },
        }
    }

    /// Takes what a read of the source gave: at most the room left in the part being filled,
    /// and nothing at all once the source is exhausted. A full part is handed out as soon as it
    /// is full; at the end of the source a part that is not empty goes out as the last one, and
    /// then the completion.
    pub fn on_read(&mut self, data: &[u8]) -> (r: Result<UploadStep, Error>)
        requires
            old(self).wf(),
            old(self)@.phase == UploadPhase::Reading,
            old(self)@.chunk.len() + data@.len() <= old(self)@.chunk_size,
        ensures
            final(self).wf(),
            final(self)@.chunk_size == old(self)@.chunk_size,
            final(self)@.path == old(self)@.path,
            final(self)@.upload_id == old(self)@.upload_id,
            final(self)@.source == old(self)@.source + data@,
            r is Err <==> final(self)@.phase == UploadPhase::Failed,
            r is Err ==> r->Err_0 is UserError && r->Err_0->UserError_0 is TriedToSendMoreThan10000PartsInMultiPart
                && old(self)@.parts.len() == MAX_PARTS,
            data@.len() == 0 && old(self)@.chunk.len() == 0 ==> {
                &&& r is Ok && r->Ok_0 is Send
                &&& r->Ok_0->Send_0.method == Method::Post
                &&& r->Ok_0->Send_0.body@ == encode_utf8(completion_body(final(self)@.etags))
                &&& r->Ok_0->Send_0.action@ == (ActionView::CompleteMultipartUpload {
                    path: old(self)@.path,
                    upload_id: old(self)@.upload_id,
                })
                &&& final(self)@.phase == UploadPhase::Completing
                &&& final(self)@.parts == old(self)@.parts
                &&& final(self)@.parts == chunks_of(final(self)@.source, final(self)@.chunk_size)
            },
            (data@.len() == 0 && old(self)@.chunk.len() > 0) || (data@.len() > 0 && old(self)@.chunk.len()
                + data@.len() == old(self)@.chunk_size) ==> {
                &&& r is Ok <==> old(self)@.parts.len() < MAX_PARTS
                &&& r is Ok ==> {
                    &&& r->Ok_0 is Send
                    &&& r->Ok_0->Send_0.method == Method::Put
                    &&& r->Ok_0->Send_0.body@ == old(self)@.chunk + data@
                    &&& r->Ok_0->Send_0.action@ == (ActionView::UploadPart {
                        path: old(self)@.path,
                        part: final(self)@.parts.len() as u16,
                        upload_id: old(self)@.upload_id,
                    })
                    &&& final(self)@.parts == old(self)@.parts.push(old(self)@.chunk + data@)
                    &&& final(self)@.phase == if data@.len() == 0 {
                        UploadPhase::UploadingLast
                    } else {
                        UploadPhase::Uploading
                    }
                }
            },
            data@.len() > 0 && old(self)@.chunk.len() + data@.len() < old(self)@.chunk_size ==> {
                &&& r == Ok::<UploadStep, Error>(
                    UploadStep::Read((old(self)@.chunk_size - old(self)@.chunk.len() - data@.len()) as usize),
                )
                &&& final(self)@.phase == UploadPhase::Reading
                &&& final(self)@.chunk == old(self)@.chunk + data@
                &&& final(self)@.parts == old(self)@.parts
            },
    {
        if data.len() == 0 {
            assert(data@ == Seq::<u8>::empty());
            assert(self.source@ + data@ == self.source@);
            if self.chunk.len() == 0 {
                proof {
                    assert(self@.source == self@.parts.flatten());
                    if self@.parts.len() > 0 {
                        assert(self@.parts.last() == self@.parts[self@.parts.len() - 1]);
                    }
                    lemma_chunks_of_parts(self@.parts, self.chunk_size as nat);
                }
                let req = self.session.as_ref().unwrap().complete();
                self.phase = UploadPhase::Completing;
                return Ok(UploadStep::Send(req));
            }
            return self.upload_chunk(true);
        }
        let ghost old_chunk = self.chunk@;
        let ghost old_source = self.source@;
        append(&mut self.chunk, data);
        self.source = Ghost(self.source@ + data@);
        proof {
            assert((self.parts@.flatten() + old_chunk) + data@ == self.parts@.flatten() + (old_chunk + data@));
        }
        if self.chunk.len() == self.chunk_size {
            return self.upload_chunk(false);
        }
        Ok(UploadStep::Read(self.chunk_size - self.chunk.len()))
    }

    /// Takes what came back from the request of the last step: the opening of the session, the
    /// upload of a part, or the completion. A failure ends the upload.
    pub fn on_response(&mut self, sent: Result<Response, Error>) -> (r: Result<UploadStep, Error>)
        requires
            old(self).wf(),
            old(self)@.phase == UploadPhase::Creating || old(self)@.phase == UploadPhase::Uploading
                || old(self)@.phase == UploadPhase::UploadingLast || old(self)@.phase == UploadPhase::Completing,
        ensures
            final(self).wf(),
            final(self)@.chunk_size == old(self)@.chunk_size,
            final(self)@.source == old(self)@.source,
            final(self)@.parts == old(self)@.parts,
            final(self)@.path == old(self)@.path,
            r is Err <==> final(self)@.phase == UploadPhase::Failed,
            old(self)@.phase == UploadPhase::Creating ==> {
                &&& r is Ok <==> opened_upload(sent) is Some
                &&& r is Ok ==> r == Ok::<UploadStep, Error>(UploadStep::Read(old(self)@.chunk_size as usize))
                    && final(self)@.phase == UploadPhase::Reading && final(self)@.etags.len() == 0
                    && final(self)@.upload_id == opened_upload(sent)->0
                &&& match sent {
                    Err(e) => r == Err::<UploadStep, Error>(e),
                    Ok(resp) => if !is_success(resp.status) {
                        r is Err && refused_with(resp.status, resp.body@, r->Err_0)
                    } else if !valid_utf8(resp.body@) {
                        r is Err && r->Err_0 is InternalError
                            && r->Err_0->InternalError_0 is S3ReturnedNonUtf8Payload
                    } else if opened_upload(sent) is None {
                        r is Err && r->Err_0 is InternalError && r->Err_0->InternalError_0 is BadS3Payload
                    } else {
                        true
                    },
                }
            },
            old(self)@.phase != UploadPhase::Creating ==> final(self)@.upload_id == old(self)@.upload_id,
            old(self)@.phase == UploadPhase::Uploading || old(self)@.phase == UploadPhase::UploadingLast
                || old(self)@.phase == UploadPhase::Completing ==> match sent {
                Err(e) => r == Err::<UploadStep, Error>(e),
                Ok(resp) => !is_success(resp.status) ==> r is Err && refused_with(resp.status, resp.body@, r->Err_0),
            },
            (old(self)@.phase == UploadPhase::Uploading || old(self)@.phase == UploadPhase::UploadingLast)
                && sent is Ok && is_success(sent->Ok_0.status) && uploaded_etag(sent) is None ==> {
                &&& r is Err && r->Err_0 is InternalError
                &&& r->Err_0->InternalError_0 is MultipartMissingEtagHeader
                &&& r->Err_0->InternalError_0->MultipartMissingEtagHeader_0@ == joined_names(
                    sent->Ok_0.headers.deep_view(),
                )
            },
            old(self)@.phase == UploadPhase::Uploading || old(self)@.phase == UploadPhase::UploadingLast ==> {
                &&& r is Ok <==> uploaded_etag(sent) is Some
                &&& r is Ok ==> final(self)@.etags == old(self)@.etags.push(strip_both(uploaded_etag(sent)->0, '"'))
            },
            old(self)@.phase == UploadPhase::Uploading ==> (r is Ok ==> r == Ok::<UploadStep, Error>(
                UploadStep::Read(old(self)@.chunk_size as usize),
            ) && final(self)@.phase == UploadPhase::Reading),
            old(self)@.phase == UploadPhase::UploadingLast ==> (r is Ok ==> {
                &&& r->Ok_0 is Send
                &&& r->Ok_0->Send_0.method == Method::Post
                &&& r->Ok_0->Send_0.body@ == encode_utf8(completion_body(final(self)@.etags))
                &&& r->Ok_0->Send_0.action@ == (ActionView::CompleteMultipartUpload {
                    path: old(self)@.path,
                    upload_id: old(self)@.upload_id,
                })
                &&& final(self)@.phase == UploadPhase::Completing
            }),
            old(self)@.phase == UploadPhase::Completing ==> {
                &&& r is Ok <==> sent is Ok && is_success(sent->Ok_0.status)
                &&& r is Ok ==> r == Ok::<UploadStep, Error>(UploadStep::Finished)
                    && final(self)@.phase == UploadPhase::Finished
            },
            r is Ok && r->Ok_0 is Finished ==> {
                &&& final(self)@.parts == chunks_of(final(self)@.source, final(self)@.chunk_size)
                &&& final(self)@.etags.len() == final(self)@.parts.len()
                &&& final(self)@.parts.len() <= MAX_PARTS
            },
    {
        match self.phase {
            UploadPhase::Creating => {
                let bucket = self.bucket;
                match bucket.starts_multipart(self.path, sent) {
                    Ok(session) => {
                        self.session = Some(session);
                        self.phase = UploadPhase::Reading;
                        proof {
                            assert(self@.parts.flatten() == Seq::<u8>::empty());
                            assert(self@.source == self@.parts.flatten() + self@.chunk);
                        }
                        Ok(UploadStep::Read(self.chunk_size))
                    },
                    Err(e) => {
                        self.phase = UploadPhase::Failed;
                        Err(e)
                    },
                }
            },
            UploadPhase::Uploading | UploadPhase::UploadingLast => {
                let mut session = self.session.take().unwrap();
                let outcome = session.part_uploaded(sent);
                self.session = Some(session);
                match outcome {
                    Ok(()) => {
                        if self.phase == UploadPhase::Uploading {
                            self.phase = UploadPhase::Reading;
                            proof {
                                assert(self@.source == self@.parts.flatten() + self@.chunk);
                            }
                            Ok(UploadStep::Read(self.chunk_size))
                        } else {
                            proof {
                                let parts = self@.parts;
                                assert forall|i: int| 0 <= i < parts.len() - 1 implies (#[trigger] parts[i]).len()
                                    == self.chunk_size by {
                                    assert(parts[i] == parts.drop_last()[i]);
                                }
                                lemma_chunks_of_parts(parts, self.chunk_size as nat);
                            }
                            let req = self.session.as_ref().unwrap().complete();
                            self.phase = UploadPhase::Completing;
                            Ok(UploadStep::Send(req))
                        }
                    },
                    Err(e) => {
                        self.phase = UploadPhase::Failed;
                        Err(e)
                    },
                }
            },
            _ => {
                let sent = match sent {
                    Ok(resp) => classify(Ok(resp)),
                    Err(e) => Err(e),
                };
                match sent {
                    Ok(_) => {
                        self.phase = UploadPhase::Finished;
                        Ok(UploadStep::Finished)
                    },
                    Err(e) => {
                        self.phase = UploadPhase::Failed;
                        Err(e)
                    },
                }
            },
        }
    }
}

} // verus!
