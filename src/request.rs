//! What is handed to the transport and what comes back from it.
use vstd::prelude::*;

use crate::error::{option_view, refused_with, Error};
use crate::text::{same_text_ignoring_ascii_case, same_text_ignoring_case};

verus! {

/// The HTTP methods that the store's operations use.
#[derive(Debug, Clone, Copy, PartialEq, Eq, Structural)]
pub enum Method {
    Get,
    Put,
    Post,
    Delete,
}

/// The operation that a request is signed for, with what was handed to the signer.
#[derive(Debug, Clone)]
pub enum Action {
    CreateBucket,
    DeleteBucket,
    GetObject { path: String },
    PutObject { path: String },
    DeleteObject { path: String },
    ListObjects { prefix: String, token: Option<String> },
    CreateMultipartUpload { path: String },
    UploadPart { path: String, part: u16, upload_id: String },
    CompleteMultipartUpload { path: String, upload_id: String },
}

/// An operation as plain values.
pub enum ActionView {
    CreateBucket,
    DeleteBucket,
    GetObject { path: Seq<char> },
    PutObject { path: Seq<char> },
    DeleteObject { path: Seq<char> },
    ListObjects { prefix: Seq<char>, token: Option<Seq<char>> },
    CreateMultipartUpload { path: Seq<char> },
    UploadPart { path: Seq<char>, part: u16, upload_id: Seq<char> },
    CompleteMultipartUpload { path: Seq<char>, upload_id: Seq<char> },
}

impl View for Action {
    type V = ActionView;

    open spec fn view(&self) -> ActionView {
        match self {
            Action::CreateBucket => ActionView::CreateBucket,
            Action::DeleteBucket => ActionView::DeleteBucket,
            Action::GetObject { path } => ActionView::GetObject { path: path@ },
            Action::PutObject { path } => ActionView::PutObject { path: path@ },
            Action::DeleteObject { path } => ActionView::DeleteObject { path: path@ },
            Action::ListObjects { prefix, token } => ActionView::ListObjects {
                prefix: prefix@,
                token: option_view(*token),
            },
            Action::CreateMultipartUpload { path } => ActionView::CreateMultipartUpload { path: path@ },
            Action::UploadPart { path, part, upload_id } => ActionView::UploadPart {
                path: path@,
                part: *part,
                upload_id: upload_id@,
            },
            Action::CompleteMultipartUpload { path, upload_id } => ActionView::CompleteMultipartUpload {
                path: path@,
                upload_id: upload_id@,
            },
        }
    }
}

/// A signed request, ready for the transport: method, presigned url and body, and the
/// operation that the url is signed for.
#[derive(Debug, Clone)]
pub struct Request {
    pub method: Method,
    pub url: String,
    pub body: Vec<u8>,
    pub action: Action,
}

/// What the transport received: status, headers and the whole body.
#[derive(Debug, Clone)]
pub struct Response {
    pub status: u16,
    pub headers: Vec<(String, String)>,
    pub body: Vec<u8>,
}

/// Whether a status is one of success.
pub open spec fn is_success(status: u16) -> bool {
    200 <= status <= 299
}

/// The value of the first header named `name`, names compared without ASCII case.
pub open spec fn header_value(headers: Seq<(Seq<char>, Seq<char>)>, name: Seq<char>) -> Option<Seq<char>>
    decreases headers.len(),
{
    if headers.len() == 0 {
        None
    } else if same_text_ignoring_ascii_case(headers[0].0, name) {
        Some(headers[0].1)
    } else {
        header_value(headers.drop_first(), name)
    }
}

/// Whether `r` is what `classify` makes of `sent`.
pub open spec fn classified(sent: Result<Response, Error>, r: Result<Response, Error>) -> bool {
    match sent {
        Err(e) => r == Err::<Response, Error>(e),
        Ok(resp) => if is_success(resp.status) {
            r == Ok::<Response, Error>(resp)
        } else {
            r is Err && refused_with(resp.status, resp.body@, r->Err_0)
        },
    }
}

/// The outcome of sending a request, a refusal of the store turned into its error: a success
/// passes through unchanged, a failure of the transport too.
pub fn classify(sent: Result<Response, Error>) -> (r: Result<Response, Error>)
    ensures
        classified(sent, r),
{
    match sent {
        Ok(resp) => {
            if 200 <= resp.status && resp.status <= 299 {
                Ok(resp)
            } else {
                Err(Error::from_status(resp.status, resp.body.as_slice()))
            }
        },
        Err(e) => Err(e),
    }
}

impl Response {
    /// The value of the first header named `name`, names compared without ASCII case.
    pub fn header(&self, name: &str) -> (r: Option<&String>)
        ensures
            match r {
                Some(v) => header_value(self.headers.deep_view(), name@) == Some(v@),
                None => header_value(self.headers.deep_view(), name@) is None,
            },
    {
        let mut i: usize = 0;
        assert(self.headers.deep_view().skip(0) == self.headers.deep_view());
        while i < self.headers.len()
            invariant
                i <= self.headers.len(),
                header_value(self.headers.deep_view(), name@) == header_value(
                    self.headers.deep_view().skip(i as int),
                    name@,
                ),
            decreases self.headers.len() - i,
        {
            assert(self.headers.deep_view().skip(i as int)[0] == self.headers.deep_view()[i as int]);
            if same_text_ignoring_case(self.headers[i].0.as_str(), name) {
                return Some(&self.headers[i].1);
            }
            assert(self.headers.deep_view().skip(i as int).drop_first() == self.headers.deep_view().skip(
                i + 1,
            ));
            i = i + 1;
        }
        None
    }
}

} // verus!
