//! The staged construction of a client: the key and the secret must both be given before a
//! client can be built, in either order; every other setting has a default.
use vstd::prelude::*;

use crate::bucket::{bucket_made, Bucket};
use crate::client::{Client, ClientView, UrlStyle};
use crate::error::{option_view, Error};
use crate::sign::{
    credentials, credentials_of, credentials_with_token, duration_of_secs, parse_url, parsed_url, seconds, url_parses,
};
use std::time::Duration;

verus! {

/// Neither the key nor the secret is known yet.
pub struct MissingCred;

/// The key is known, the secret is not.
pub struct MissingSecret(String);

/// The secret is known, the key is not.
pub struct MissingKey(String);

/// Both the key and the secret are known.
pub struct Complete {
    key: String,
    secret: String,
}

/// The settings of a future client; `State` says which credentials are known.
pub struct Builder<State> {
    addr: url::Url,
    region: Option<String>,
    cred: State,
    url_style: Option<UrlStyle>,
    token: Option<String>,
    actions_expires_in: Option<Duration>,
    timeout: Option<Duration>,
    multipart_size: Option<usize>,
}

/// The settings of a builder besides its credentials.
pub struct Settings {
    pub addr: url::Url,
    pub region: Option<Seq<char>>,
    pub url_style: Option<UrlStyle>,
    pub token: Option<Seq<char>>,
    pub actions_expires_in: Option<Duration>,
    pub timeout: Option<Duration>,
    pub multipart_size: Option<usize>,
}

impl<State> View for Builder<State> {
    type V = Settings;

    closed spec fn view(&self) -> Settings {
        Settings {
            addr: self.addr,
            region: option_view(self.region),
            url_style: self.url_style,
            token: option_view(self.token),
            actions_expires_in: self.actions_expires_in,
            timeout: self.timeout,
            multipart_size: self.multipart_size,
        }
    }
}

impl MissingSecret {
    /// The access key given.
    pub closed spec fn key(&self) -> Seq<char> {
        self.0@
    }
}

impl MissingKey {
    /// The secret key given.
    pub closed spec fn secret(&self) -> Seq<char> {
        self.0@
    }
}

impl Complete {
    /// The access key given.
    pub closed spec fn key(&self) -> Seq<char> {
        self.key@
    }

    /// The secret key given.
    pub closed spec fn secret(&self) -> Seq<char> {
        self.secret@
    }
}

impl<State> Builder<State> {
    /// The credentials known so far.
    pub closed spec fn cred_spec(&self) -> State {
        self.cred
    }
}

impl Builder<MissingSecret> {
    /// The access key given.
    pub open spec fn key_spec(&self) -> Seq<char> {
        self.cred_spec().key()
    }
}

impl Builder<MissingKey> {
    /// The secret key given.
    pub open spec fn secret_spec(&self) -> Seq<char> {
        self.cred_spec().secret()
    }
}

impl Builder<Complete> {
    /// The client of these settings, with the defaults where nothing is set.
    pub open spec fn client_spec(&self) -> ClientView {
        ClientView {
            addr: self@.addr,
            region: match self@.region {
                Some(s) => s,
                None => Seq::empty(),
            },
            cred: credentials_of(self.key_spec(), self.secret_spec(), self@.token),
            url_style: match self@.url_style {
                Some(s) => s,
                None => UrlStyle::VirtualHost,
            },
            actions_expires_in: match self@.actions_expires_in {
                Some(d) => d,
                None => duration_of_secs(DEFAULT_EXPIRY_SECS),
            },
            timeout: match self@.timeout {
                Some(d) => d,
                None => duration_of_secs(DEFAULT_TIMEOUT_SECS),
            },
            multipart_size: match self@.multipart_size {
                Some(n) => n,
                None => DEFAULT_MULTIPART_SIZE,
            },
        }
    }

    /// The access key given.
    pub open spec fn key_spec(&self) -> Seq<char> {
        self.cred_spec().key()
    }

    /// The secret key given.
    pub open spec fn secret_spec(&self) -> Seq<char> {
        self.cred_spec().secret()
    }
}

/// The settings of a new builder for the store at `addr`: nothing set.
pub open spec fn new_settings(addr: Seq<char>) -> Settings {
    Settings {
        addr: parsed_url(addr),
        region: None,
        url_style: None,
        token: None,
        actions_expires_in: None,
        timeout: None,
        multipart_size: None,
    }
}

/// The size of a multipart upload's parts where none is set: 50 MiB.
pub const DEFAULT_MULTIPART_SIZE: usize = 50 * 1024 * 1024;

/// How long a signature holds where nothing is set, in seconds: one hour.
pub const DEFAULT_EXPIRY_SECS: u64 = 60 * 60;

/// How long one exchange may take where nothing is set, in seconds: one minute.
pub const DEFAULT_TIMEOUT_SECS: u64 = 60;

impl Builder<MissingCred> {
    /// A builder for a client of the store at `addr`; fails where `addr` is no url.
    pub fn new(addr: &str) -> (r: Result<Self, Error>)
        ensures
            r is Ok <==> url_parses(addr@),
            r is Err ==> r->Err_0 is Url,
            r is Ok ==> r->Ok_0@ == new_settings(addr@),
    {
        match parse_url(addr) {
            Ok(addr) => Ok(Builder {
                addr,
                region: None,
                cred: MissingCred,
                url_style: None,
                token: None,
                actions_expires_in: None,
                timeout: None,
                multipart_size: None,
            }),
            Err(e) => Err(Error::Url(e)),
        }
    }

    /// Sets the access key.
    pub fn key(self, key: &str) -> (r: Builder<MissingSecret>)
        ensures
            r.key_spec() == key@,
            r@ == self@,
    {
        Builder {
            addr: self.addr,
            region: self.region,
            cred: MissingSecret(String::from_str(key)),
            url_style: self.url_style,
            token: self.token,
            actions_expires_in: self.actions_expires_in,
            timeout: self.timeout,
            multipart_size: self.multipart_size,
        }
    }

    /// Sets the secret key.
    pub fn secret(self, secret: &str) -> (r: Builder<MissingKey>)
        ensures
            r.secret_spec() == secret@,
            r@ == self@,
    {
        Builder {
            addr: self.addr,
            region: self.region,
            cred: MissingKey(String::from_str(secret)),
            url_style: self.url_style,
            token: self.token,
            actions_expires_in: self.actions_expires_in,
            timeout: self.timeout,
            multipart_size: self.multipart_size,
        }
    }
}

impl Builder<MissingSecret> {
    /// Sets the secret key, after the access key.
    pub fn secret(self, secret: &str) -> (r: Builder<Complete>)
        ensures
            r.key_spec() == self.key_spec(),
            r.secret_spec() == secret@,
            r@ == self@,
    {
        Builder {
            addr: self.addr,
            region: self.region,
            cred: Complete { key: self.cred.0, secret: String::from_str(secret) },
            url_style: self.url_style,
            token: self.token,
            actions_expires_in: self.actions_expires_in,
            timeout: self.timeout,
            multipart_size: self.multipart_size,
        }
    }
}

impl Builder<MissingKey> {
    /// Sets the access key, after the secret key.
    pub fn key(self, key: &str) -> (r: Builder<Complete>)
        ensures
            r.key_spec() == key@,
            r.secret_spec() == self.secret_spec(),
            r@ == self@,
    {
        Builder {
            addr: self.addr,
            region: self.region,
            cred: Complete { key: String::from_str(key), secret: self.cred.0 },
            url_style: self.url_style,
            token: self.token,
            actions_expires_in: self.actions_expires_in,
            timeout: self.timeout,
            multipart_size: self.multipart_size,
        }
    }
}

impl Builder<Complete> {
    /// The client of these settings, with the defaults where nothing is set: no region, the
    /// virtual-host style, signatures of one hour, exchanges of one minute, parts of 50 MiB.
    pub fn client(self) -> (r: Client)
        ensures
            r@ == self.client_spec(),
    {
        let cred = match self.token {
            Some(token) => credentials_with_token(self.cred.key, self.cred.secret, token),
            None => credentials(self.cred.key, self.cred.secret),
        };
        Client::from_parts(
            self.addr,
            match self.region {
                Some(region) => region,
                None => String::new(),
            },
            cred,
            match self.url_style {
                Some(style) => style,
                None => UrlStyle::VirtualHost,
            },
            match self.actions_expires_in {
                Some(d) => d,
                None => seconds(DEFAULT_EXPIRY_SECS),
            },
            match self.timeout {
                Some(d) => d,
                None => seconds(DEFAULT_TIMEOUT_SECS),
            },
            match self.multipart_size {
                Some(n) => n,
                None => DEFAULT_MULTIPART_SIZE,
            },
        )
    }

    /// A handle on the bucket `name` of the client of these settings.
    pub fn bucket(self, name: &str) -> (r: Result<Bucket, Error>)
        ensures
            bucket_made(self.client_spec(), name@, self.client_spec().url_style, r),
    {
        self.client().bucket(name)
    }
}

impl<T> Builder<T> {
    /// Chooses the path style where `path_style` holds, the virtual-host style where not.
    pub fn with_url_path_style(self, path_style: bool) -> (r: Self)
        ensures
            r.cred_spec() == self.cred_spec(),
            r@ == (Settings {
                url_style: Some(if path_style { UrlStyle::Path } else { UrlStyle::VirtualHost }),
                ..self@
            }),
    {
        let mut b = self;
        b.url_style = Some(if path_style { UrlStyle::Path } else { UrlStyle::VirtualHost });
        b
    }

    /// Sets the session token.
    pub fn token(self, token: &str) -> (r: Self)
        ensures
            r.cred_spec() == self.cred_spec(),
            r@ == (Settings { token: Some(token@), ..self@ }),
    {
        let mut b = self;
        b.token = Some(String::from_str(token));
        b
    }

    /// Sets the region that requests are signed for.
    pub fn region(self, region: &str) -> (r: Self)
        ensures
            r.cred_spec() == self.cred_spec(),
            r@ == (Settings { region: Some(region@), ..self@ }),
    {
        let mut b = self;
        b.region = Some(String::from_str(region));
        b
    }

    /// Sets the size of the parts of a multipart upload.
    pub fn multipart_size(self, multipart_size: usize) -> (r: Self)
        ensures
            r.cred_spec() == self.cred_spec(),
            r@ == (Settings { multipart_size: Some(multipart_size), ..self@ }),
    {
        let mut b = self;
        b.multipart_size = Some(multipart_size);
        b
    }

    /// Sets the session token, or removes it.
    pub fn maybe_token(self, token: Option<String>) -> (r: Self)
        ensures
            r.cred_spec() == self.cred_spec(),
            r@ == (Settings { token: option_view(token), ..self@ }),
    {
        let mut b = self;
        b.token = token;
        b
    }

    /// Sets how long a signature holds.
    pub fn actions_expires_in(self, actions_expires_in: Duration) -> (r: Self)
        ensures
            r.cred_spec() == self.cred_spec(),
            r@ == (Settings { actions_expires_in: Some(actions_expires_in), ..self@ }),
    {
        let mut b = self;
        b.actions_expires_in = Some(actions_expires_in);
        b
    }

    /// Sets how long one exchange with the store may take.
    pub fn timeout(self, timeout: Duration) -> (r: Self)
        ensures
            r.cred_spec() == self.cred_spec(),
            r@ == (Settings { timeout: Some(timeout), ..self@ }),
    {
        let mut b = self;
        b.timeout = Some(timeout);
        b
    }
}

} // verus!
