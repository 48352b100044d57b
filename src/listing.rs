//! The listing of a bucket's objects, page by page.
use vstd::prelude::*;

use crate::bucket::{request, Bucket, BucketView};
use crate::error::{option_view, refused_with, Error, InternalError};
use crate::request::{classify, is_success, Action, ActionView, Method, Request, Response};
use crate::sign::{listing_in, parse_listing, sign_list_objects, sign_list_objects_after, signed_list_objects_url, utf8_text};
use vstd::utf8::{decode_utf8, valid_utf8};

verus! {

/// An object of a listing: key, size in bytes, ETag and time of last modification.
#[derive(Debug, Clone)]
pub struct ObjectEntry {
    pub key: String,
    pub size: u64,
    pub etag: String,
    pub last_modified: String,
}

impl View for ObjectEntry {
    type V = (Seq<char>, u64, Seq<char>, Seq<char>);

    open spec fn view(&self) -> (Seq<char>, u64, Seq<char>, Seq<char>) {
        (self.key@, self.size, self.etag@, self.last_modified@)
    }
}

/// One page of a listing: its entries in order, and the token of the next page, if any.
#[derive(Debug, Clone)]
pub struct ListPage {
    pub entries: Vec<ObjectEntry>,
    pub next_token: Option<String>,
}

/// The views of the entries, in order.
pub open spec fn entry_views(s: Seq<ObjectEntry>) -> Seq<(Seq<char>, u64, Seq<char>, Seq<char>)> {
    s.map_values(|e: ObjectEntry| e@)
}

impl View for ListPage {
    type V = (Seq<(Seq<char>, u64, Seq<char>, Seq<char>)>, Option<Seq<char>>);

    open spec fn view(&self) -> (Seq<(Seq<char>, u64, Seq<char>, Seq<char>)>, Option<Seq<char>>) {
        (entry_views(self.entries@), crate::error::option_view(self.next_token))
    }
}

/// An entry of a listing as plain values: key, size, ETag, time of last modification.
pub type EntryView = (Seq<char>, u64, Seq<char>, Seq<char>);

/// A page of a listing as plain values: its entries, and the token of the next page.
pub type PageView = (Seq<EntryView>, Option<Seq<char>>);

impl ObjectEntry {
    /// A copy of the entry.
    pub fn copy(&self) -> (r: ObjectEntry)
        ensures
            r@ == self@,
    {
        ObjectEntry {
            key: self.key.clone(),
            size: self.size,
            etag: self.etag.clone(),
            last_modified: self.last_modified.clone(),
        }
    }
}

/// What the walker of a listing does next.
#[derive(Debug)]
pub enum ListStep {
    /// The next object of the listing.
    Entry(ObjectEntry),
    /// Send this request, which asks for the next page, and hand what comes back to
    /// `receive_page`.
    Fetch(Request),
    /// The listing is over, for good.
    Done,
}

/// A step as plain values; a fetch with the operation its request is signed for.
pub enum StepView {
    Entry(EntryView),
    Fetch(ActionView),
    Done,
}

/// Whether `r` is the step that `s` describes.
pub open spec fn step_is(r: ListStep, s: StepView) -> bool {
    match s {
        StepView::Entry(e) => r is Entry && r->Entry_0@ == e,
        StepView::Fetch(a) => r is Fetch && r->Fetch_0.method == Method::Get && r->Fetch_0.body@.len() == 0
            && r->Fetch_0.action@ == a,
        StepView::Done => r is Done,
    }
}

/// A listing as plain values: its prefix, the entries received and not yet handed out, the
/// token of the next page, whether a page was received, and whether the listing is over.
pub struct ListView {
    pub prefix: Seq<char>,
    pub pending: Seq<EntryView>,
    pub token: Option<Seq<char>>,
    pub started: bool,
    pub finished: bool,
}

/// A listing under `prefix` before its first page.
pub open spec fn list_start(prefix: Seq<char>) -> ListView {
    ListView { prefix, pending: Seq::empty(), token: None, started: false, finished: false }
}

/// The next step of a listing, and the listing after it: the next entry received while there
/// is one; else a request for a page of the prefix while the store may have one (the first
/// page, without a token, or the page after the token); else the end, for good.
pub open spec fn next_spec(v: ListView) -> (ListView, StepView) {
    if v.pending.len() > 0 {
        (ListView { pending: v.pending.drop_first(), ..v }, StepView::Entry(v.pending[0]))
    } else if v.finished {
        (v, StepView::Done)
    } else if !v.started || v.token is Some {
        (v, StepView::Fetch(ActionView::ListObjects { prefix: v.prefix, token: v.token }))
    } else {
        (ListView { finished: true, ..v }, StepView::Done)
    }
}

/// A listing after a page arrived (`Some`) or its fetch failed (`None`, after which no page is
/// asked for again).
pub open spec fn receive_spec(v: ListView, page: Option<PageView>) -> ListView {
    match page {
        Some(p) => ListView { pending: v.pending + p.0, token: p.1, started: true, ..v },
        None => ListView { finished: true, ..v },
    }
}

/// The page that an answer to a listing request holds; `None` where it is a failure or no page.
pub open spec fn listed_page(fetched: Result<Response, Error>) -> Option<PageView> {
    match fetched {
        Ok(resp) => if is_success(resp.status) && valid_utf8(resp.body@) {
            listing_in(decode_utf8(resp.body@))
        } else {
            None
        },
        Err(_) => None,
    }
}

/// The entries of the pages, page after page.
pub open spec fn page_entries(pages: Seq<PageView>) -> Seq<EntryView>
    decreases pages.len(),
{
    if pages.len() == 0 {
        Seq::empty()
    } else {
        pages[0].0 + page_entries(pages.drop_first())
    }
}

/// Walks a listing whose fetches are answered by `pages` in turn: the entries handed out and
/// the listing where the walk stops, at the end or when a fetch finds no page left.
pub open spec fn walk(v: ListView, pages: Seq<PageView>) -> (Seq<EntryView>, ListView)
    decreases pages.len(), v.pending.len(),
{
    let (v2, step) = next_spec(v);
    match step {
        StepView::Entry(e) => {
            let (out, end) = walk(v2, pages);
            (seq![e] + out, end)
        },
        StepView::Fetch(_) => if pages.len() == 0 {
            (Seq::empty(), v)
        } else {
            walk(receive_spec(v, Some(pages[0])), pages.drop_first())
        },
        StepView::Done => (Seq::empty(), v2),
    }
}

/// Whether every page but the last carries a token, and the last none.
pub open spec fn chained(pages: Seq<PageView>) -> bool {
    &&& pages.len() > 0
    &&& forall|i: int| 0 <= i < pages.len() - 1 ==> (#[trigger] pages[i]).1 is Some
    &&& pages.last().1 is None
}

proof fn lemma_walk(v: ListView, pages: Seq<PageView>)
    requires
        !v.finished,
        v.started && v.token is None ==> pages.len() == 0,
        !v.started || v.token is Some ==> chained(pages),
    ensures
        walk(v, pages).0 == v.pending + page_entries(pages),
        walk(v, pages).1.finished,
        walk(v, pages).1.pending.len() == 0,
    decreases pages.len(), v.pending.len(),
{
    let (v2, step) = next_spec(v);
    if v.pending.len() > 0 {
        lemma_walk(v2, pages);
        assert(seq![v.pending[0]] + (v2.pending + page_entries(pages)) == v.pending + page_entries(pages));
    } else if v.started && v.token is None {
        assert(page_entries(pages) == Seq::<EntryView>::empty());
        assert(v.pending + page_entries(pages) == Seq::<EntryView>::empty());
    } else {
        let v3 = receive_spec(v, Some(pages[0]));
        let rest = pages.drop_first();
        if pages[0].1 is Some {
            assert(pages.len() > 1);
            assert forall|i: int| 0 <= i < rest.len() - 1 implies (#[trigger] rest[i]).1 is Some by {
                assert(rest[i] == pages[i + 1]);
            }
            assert(rest.last() == pages.last());
        } else {
            if pages.len() > 1 {
                assert(pages[0].1 is Some);
            }
        }
        lemma_walk(v3, rest);
        assert(v3.pending == pages[0].0);
        assert(v.pending + page_entries(pages) == pages[0].0 + page_entries(rest));
    }
}

/// Walking a listing whose pages come in order, each but the last with a token, hands out
/// every entry of every page in page order and then ends; once ended, it asks for no page
/// again and hands out nothing more.
pub proof fn lemma_listing_yields_every_page(prefix: Seq<char>, pages: Seq<PageView>)
    requires
        chained(pages),
    ensures
        walk(list_start(prefix), pages).0 == page_entries(pages),
        next_spec(walk(list_start(prefix), pages).1) == (walk(list_start(prefix), pages).1, StepView::Done),
{
    lemma_walk(list_start(prefix), pages);
    assert(list_start(prefix).pending + page_entries(pages) == page_entries(pages));
}

/// The objects of a bucket under a prefix, fetched a page at a time: a page is asked for only
/// once the entries received are all handed out and the store has a page left. A failed
/// fetch ends the listing.
pub struct ListObjectIterator {
    bucket: Bucket,
    prefix: String,
    current_bucket: Vec<ObjectEntry>,
    next: usize,
    continuation_token: Option<String>,
    started: bool,
    finished: bool,
}

impl View for ListObjectIterator {
    type V = ListView;

    closed spec fn view(&self) -> ListView {
        ListView {
            prefix: self.prefix@,
            pending: entry_views(self.current_bucket@.skip(self.next as int)),
            token: option_view(self.continuation_token),
            started: self.started,
            finished: self.finished,
        }
    }
}

impl Bucket {
    /// The listing of this bucket's objects under `prefix`, before its first page.
    pub fn list_objects(&self, prefix: &str) -> (r: ListObjectIterator)
        ensures
            r.wf(),
            r@ == list_start(prefix@),
            r.bucket_view() == self@,
    {
        let it = ListObjectIterator {
            bucket: self.duplicate(),
            prefix: String::from_str(prefix),
            current_bucket: Vec::new(),
            next: 0,
            continuation_token: None,
            started: false,
            finished: false,
        };
        assert(it@.pending == Seq::<EntryView>::empty());
        it
    }
}

impl ListObjectIterator {
    /// The index of the next entry lies in the page.
    pub closed spec fn wf(&self) -> bool {
        self.next <= self.current_bucket.len()
    }

    /// The bucket listed.
    pub closed spec fn bucket_view(&self) -> BucketView {
        self.bucket@
    }

    /// The next step of the listing: an entry, a page to fetch, or the end.
    pub fn next(&mut self) -> (r: ListStep)
        requires
            old(self).wf(),
        ensures
            final(self).wf(),
            final(self)@ == next_spec(old(self)@).0,
            step_is(r, next_spec(old(self)@).1),
            final(self).bucket_view() == old(self).bucket_view(),
            r is Fetch ==> exists|t: int| #[trigger] signed_list_objects_url(
                old(self).bucket_view().bucket,
                old(self).bucket_view().client.cred,
                old(self)@.prefix,
                old(self)@.token,
                old(self).bucket_view().client.actions_expires_in,
                t,
            ) == r->Fetch_0.url@,
    {
        if self.next < self.current_bucket.len() {
            let e = self.current_bucket[self.next].copy();
            self.next = self.next + 1;
            assert(self@.pending == old(self)@.pending.drop_first());
            return ListStep::Entry(e);
        }
        assert(self@.pending.len() == 0);
        if self.finished {
            return ListStep::Done;
        }
        let prefix = self.prefix.clone();
        let url = match &self.continuation_token {
            Some(token) => sign_list_objects_after(
                self.bucket.s3(),
                self.bucket.credentials(),
                prefix.as_str(),
                token.as_str(),
                self.bucket.expiry(),
            ),
            None => {
                if self.started {
                    self.finished = true;
                    return ListStep::Done;
                }
                sign_list_objects(self.bucket.s3(), self.bucket.credentials(), prefix.as_str(), self.bucket.expiry())
            },
        };
        proof {
            let args = (self.bucket@.bucket, self.bucket@.client.cred, self@.prefix, self@.token, self.bucket@.client.actions_expires_in);
            let t = choose|t: int| #[trigger] signed_list_objects_url(args.0, args.1, args.2, args.3, args.4, t) == url@;
            assert(signed_list_objects_url(args.0, args.1, args.2, args.3, args.4, t) == url@);
        }
        let token = self.continuation_token.clone();
        ListStep::Fetch(request(Method::Get, url, Vec::new(), Action::ListObjects { prefix, token }))
    }

    /// Takes what came back from the last fetch: its entries follow those not yet handed out,
    /// and its token is kept for the next page. A failure ends the listing.
    pub fn receive_page(&mut self, fetched: Result<Response, Error>) -> (r: Result<(), Error>)
        requires
            old(self).wf(),
        ensures
            final(self).wf(),
            final(self)@ == receive_spec(old(self)@, listed_page(fetched)),
            final(self).bucket_view() == old(self).bucket_view(),
            r is Ok <==> listed_page(fetched) is Some,
            match fetched {
                Err(e) => r == Err::<(), Error>(e),
                Ok(resp) => if !is_success(resp.status) {
                    r is Err && refused_with(resp.status, resp.body@, r->Err_0)
                } else if !valid_utf8(resp.body@) {
                    r is Err && r->Err_0 is InternalError
                        && r->Err_0->InternalError_0 is S3ReturnedNonUtf8Payload
                } else if listed_page(fetched) is None {
                    r is Err && r->Err_0 is InternalError && r->Err_0->InternalError_0 is BadS3Payload
                } else {
                    true
                },
            },
    {
        let page = match self.read_page(fetched) {
            Ok(page) => page,
            Err(e) => {
                self.finished = true;
                return Err(e);
            },
        };
        let ghost pending = self@.pending;
        if self.next == self.current_bucket.len() {
            self.current_bucket = page.entries;
            self.next = 0;
            assert(self.current_bucket@.skip(0) == self.current_bucket@);
            assert(pending == Seq::<EntryView>::empty());
            assert(pending + page@.0 =~= page@.0);
            assert(self@.pending == pending + page@.0);
        } else {
            let mut i: usize = 0;
            while i < page.entries.len()
                invariant
                    self.next < self.current_bucket.len(),
                    self.finished == old(self).finished,
                    self.prefix == old(self).prefix,
                    self.bucket == old(self).bucket,
                    i <= page.entries.len(),
                    entry_views(self.current_bucket@.skip(self.next as int)) == pending + entry_views(
                        page.entries@.take(i as int),
                    ),
                decreases page.entries.len() - i,
            {
                let e = page.entries[i].copy();
                let ghost before = self.current_bucket@;
                self.current_bucket.push(e);
                assert(self.current_bucket@.skip(self.next as int) == before.skip(self.next as int).push(e));
                assert(entry_views(before.skip(self.next as int).push(e)) =~= entry_views(
                    before.skip(self.next as int),
                ).push(e@));
                assert(page.entries@.take(i + 1) == page.entries@.take(i as int).push(page.entries@[i as int]));
                assert(entry_views(page.entries@.take(i as int).push(page.entries@[i as int])) =~= entry_views(
                    page.entries@.take(i as int),
                ).push(page.entries@[i as int]@));
                i = i + 1;
            }
            assert(page.entries@.take(i as int) == page.entries@);
            assert(self@.pending == pending + page@.0);
        }
        self.continuation_token = page.next_token;
        self.started = true;
        Ok(())
    }

    /// The page in an answer to a listing request.
    fn read_page(&self, fetched: Result<Response, Error>) -> (r: Result<ListPage, Error>)
        ensures
            match listed_page(fetched) {
                Some(p) => r is Ok && r->Ok_0@ == p,
                None => r is Err,
            },
            match fetched {
                Err(e) => r == Err::<ListPage, Error>(e),
                Ok(resp) => if !is_success(resp.status) {
                    r is Err && refused_with(resp.status, resp.body@, r->Err_0)
                } else if !valid_utf8(resp.body@) {
                    r is Err && r->Err_0 is InternalError
                        && r->Err_0->InternalError_0 is S3ReturnedNonUtf8Payload
                } else if listed_page(fetched) is None {
                    r is Err && r->Err_0 is InternalError && r->Err_0->InternalError_0 is BadS3Payload
                } else {
                    true
                },
            },
    {
        let resp = match fetched {
            Ok(resp) => resp,
            Err(e) => return Err(e),
        };
        let resp = match classify(Ok(resp)) {
            Ok(resp) => resp,
            Err(e) => return Err(e),
        };
        let text = match utf8_text(resp.body) {
            Ok(text) => text,
            Err(e) => return Err(Error::InternalError(InternalError::S3ReturnedNonUtf8Payload(e))),
        };
        match parse_listing(text.as_str()) {
            Ok(page) => Ok(page),
            Err(e) => Err(Error::InternalError(InternalError::BadS3Payload(e))),
        }
    }
}

} // verus!
