//! Configuration for the registry client: connection options, per-call
//! registration options, and watch scoping.

use vstd::prelude::*;

verus! {

/// Connection options for the registry client: store addresses, call
/// timeout in seconds, and whether the connection is secured.
pub struct Options {
    pub addr: Vec<String>,
    pub timeout: i64,
    pub secure: bool,
}

impl Options {
    /// Default options: a single localhost store address, a 15 second
    /// timeout, and no transport security.
    pub fn new() -> (r: Options)
        ensures
            r.addr@.len() == 1,
            r.addr@[0]@ == "127.0.0.1:2379"@,
            r.timeout == 15,
            !r.secure,
    {
        let mut addr: Vec<String> = Vec::new();
        addr.push(String::from_str("127.0.0.1:2379"));
        Options { addr, timeout: 15, secure: false }
    }

    /// A connection timeout of zero means "unset": it is replaced by the
    /// 5 second default before the client connects.
    pub fn normalized(self) -> (r: Options)
        ensures
            r.addr == self.addr,
            r.secure == self.secure,
            r.timeout == if self.timeout == 0 { 5 as i64 } else { self.timeout },
    {
        if self.timeout == 0 {
            Options { timeout: 5, ..self }
        } else {
            self
        }
    }

    pub fn with_timeout(&mut self, t: i64) -> (r: &Self)
        ensures
            final(self).timeout == t,
            final(self).addr == old(self).addr,
            final(self).secure == old(self).secure,
            r == *final(self),
    {
        self.timeout = t;
        self
    }

    pub fn with_secure(&mut self, b: bool) -> (r: &Self)
        ensures
            final(self).secure == b,
            final(self).addr == old(self).addr,
            final(self).timeout == old(self).timeout,
            r == *final(self),
    {
        self.secure = b;
        self
    }
}

/// Per-call options for `register`: the lease time-to-live in seconds.
pub struct RegisterOptions {
    pub ttl: i64,
}

impl RegisterOptions {
    pub fn new() -> (r: RegisterOptions)
        ensures
            r.ttl == 15,
    {
        RegisterOptions { ttl: 15 }
    }

    pub fn with_ttl(&mut self, ttl: i64) -> (r: &Self)
        ensures
            final(self).ttl == ttl,
            r == *final(self),
    {
        self.ttl = ttl;
        self
    }
}

/// Options for `watch`: the service to watch.  An empty string watches the
/// entire registry namespace.
pub struct WatchOptions {
    pub service: String,
}

impl WatchOptions {
    pub fn new() -> (r: WatchOptions)
        ensures
            r.service@ == Seq::<char>::empty(),
    {
        WatchOptions { service: String::new() }
    }

    pub fn with_service(&mut self, s: String) -> (r: &Self)
        ensures
            final(self).service == s,
            r == *final(self),
    {
        self.service = s;
        self
    }
}

/// Per-call options for `deregister`.  No options are recognized yet.
pub struct DeregisterOptions {}

/// Per-call options for `get_service`.  No options are recognized yet.
pub struct GetOptions {}

/// Per-call options for `list_service`.  No options are recognized yet.
pub struct ListOptions {}

/// Options for serving OpenAPI metadata.  No options are recognized yet.
pub struct OpenapiAPIOptions {}

} // verus!
