//! A configured connection to a store: endpoint, region, credentials and policies.
use vstd::prelude::*;

use crate::bucket::{bucket_made, Bucket};
use crate::builder::{Builder, MissingCred};
use crate::error::Error;
use crate::sign::url_parses;
use std::time::Duration;

verus! {

/// How a bucket's name enters its urls.
#[derive(Debug, Clone, Copy, PartialEq, Eq, Structural)]
pub enum UrlStyle {
    /// `https://<host>/<bucket>/<key>`.
    Path,
    /// `https://<bucket>.<host>/<key>`.
    VirtualHost,
}

/// The configuration shared by every bucket of one store. Built by [`Builder`].
#[derive(Debug, Clone)]
pub struct Client {
    pub(crate) addr: url::Url,
    pub(crate) region: String,
    pub(crate) cred: rusty_s3::Credentials,
    pub(crate) url_style: UrlStyle,
    pub(crate) actions_expires_in: Duration,
    pub(crate) timeout: Duration,
    pub(crate) multipart_size: usize,
}

/// The settings of a client.
pub struct ClientView {
    pub addr: url::Url,
    pub region: Seq<char>,
    pub cred: rusty_s3::Credentials,
    pub url_style: UrlStyle,
    pub actions_expires_in: Duration,
    pub timeout: Duration,
    pub multipart_size: usize,
}

impl View for Client {
    type V = ClientView;

    closed spec fn view(&self) -> ClientView {
        ClientView {
            addr: self.addr,
            region: self.region@,
            cred: self.cred,
            url_style: self.url_style,
            actions_expires_in: self.actions_expires_in,
            timeout: self.timeout,
            multipart_size: self.multipart_size,
        }
    }
}

impl Client {
    /// The client of these settings.
    pub(crate) fn from_parts(
        addr: url::Url,
        region: String,
        cred: rusty_s3::Credentials,
        url_style: UrlStyle,
        actions_expires_in: Duration,
        timeout: Duration,
        multipart_size: usize,
    ) -> (r: Client)
        ensures
            r@ == (ClientView {
                addr,
                region: region@,
                cred,
                url_style,
                actions_expires_in,
                timeout,
                multipart_size,
            }),
    {
        Client { addr, region, cred, url_style, actions_expires_in, timeout, multipart_size }
    }

    /// A copy of the client.
    pub fn duplicate(&self) -> (r: Client)
        ensures
            r@ == self@,
    {
        Client {
            addr: self.addr.clone(),
            region: self.region.clone(),
            cred: self.cred.clone(),
            url_style: self.url_style,
            actions_expires_in: self.actions_expires_in,
            timeout: self.timeout,
            multipart_size: self.multipart_size,
        }
    }

    /// A builder for a client of the store at `url`, still without its key and secret.
    pub fn builder(url: &str) -> (r: Result<Builder<MissingCred>, Error>)
        ensures
            r is Ok <==> url_parses(url@),
            r is Err ==> r->Err_0 is Url,
            r is Ok ==> r->Ok_0@ == crate::builder::new_settings(url@),
    {
        Builder::new(url)
    }

    /// A handle on the bucket `name` of this store, in the client's url style; the bucket is
    /// not created on the store.
    pub fn bucket(&self, name: &str) -> (r: Result<Bucket, Error>)
        ensures
            bucket_made(self@, name@, self@.url_style, r),
    {
        Bucket::new(self.duplicate(), name, self.url_style)
    }

    /// The endpoint of the store.
    pub fn addr(&self) -> (r: &url::Url)
        ensures
            *r == self@.addr,
    {
        &self.addr
    }

    pub(crate) fn cred(&self) -> (r: &rusty_s3::Credentials)
        ensures
            *r == self@.cred,
    {
        &self.cred
    }

    pub(crate) fn expiry(&self) -> (r: Duration)
        ensures
            r == self@.actions_expires_in,
    {
        self.actions_expires_in
    }

    /// The region that requests are signed for.
    pub fn region(&self) -> (r: &str)
        ensures
            r@ == self@.region,
    {
        self.region.as_str()
    }

    /// The url style of the client's buckets.
    pub fn url_style(&self) -> (r: UrlStyle)
        ensures
            r == self@.url_style,
    {
        self.url_style
    }

    /// The size of the parts of a multipart upload.
    pub fn multipart_size(&self) -> (r: usize)
        ensures
            r == self@.multipart_size,
    {
        self.multipart_size
    }

    /// How long the transport may wait for one exchange with the store.
    pub fn timeout(&self) -> (r: Duration)
        ensures
            r == self@.timeout,
    {
        self.timeout
    }
}

} // verus!
