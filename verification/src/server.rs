//! The settings of a service's HTTP server, gathered by a builder.

use vstd::prelude::*;
use vstd::string::StringExecFns;
use crate::middleware::security_headers::SecurityHeadersMiddleware;
use crate::middleware::security_headers::HeaderSettings;

verus! {

/// The settings of a server as plain values.
pub struct ServerSettings {
    pub name: Seq<char>,
    pub host: Seq<char>,
    pub port: u16,
    pub workers: usize,
    pub max_request_size: usize,
    pub rate_limit_requests: u32,
    pub rate_limit_window_seconds: u64,
    pub enable_cors: bool,
}

impl ServerSettings {
    /// The settings of a server that only has a name: every interface, port
    /// 8080, four workers, requests of up to two mebibytes, a thousand requests
    /// a minute, cross-origin rules on.
    pub open spec fn standard(name: Seq<char>) -> Self {
        ServerSettings {
            name,
            host: "0.0.0.0"@,
            port: 8080,
            workers: 4,
            max_request_size: 2097152,
            rate_limit_requests: 1000,
            rate_limit_window_seconds: 60,
            enable_cors: true,
        }
    }
}

/// Seconds for which the server keeps an idle connection alive.
pub const KEEP_ALIVE_SECONDS: u64 = 75;

/// Seconds that a client has to send its request head.
pub const CLIENT_REQUEST_TIMEOUT_SECONDS: u64 = 60;

/// Builder for the settings of a service's HTTP server.
pub struct ServerBuilder {
    name: String,
    host: String,
    port: u16,
    workers: usize,
    max_request_size: usize,
    rate_limit_requests: u32,
    rate_limit_window_seconds: u64,
    enable_cors: bool,
}

impl View for ServerBuilder {
    type V = ServerSettings;

    closed spec fn view(&self) -> ServerSettings {
        ServerSettings {
            name: self.name@,
            host: self.host@,
            port: self.port,
            workers: self.workers,
            max_request_size: self.max_request_size,
            rate_limit_requests: self.rate_limit_requests,
            rate_limit_window_seconds: self.rate_limit_window_seconds,
            enable_cors: self.enable_cors,
        }
    }
}

impl ServerBuilder {
    /// A builder with the standard settings for the service `name`.
    pub fn new(name: &str) -> (builder: Self)
        ensures
            builder@ == ServerSettings::standard(name@),
    {
        ServerBuilder {
            name: String::from_str(name),
            host: String::from_str("0.0.0.0"),
            port: 8080,
            workers: 4,
            max_request_size: 2 * 1024 * 1024,
            rate_limit_requests: 1000,
            rate_limit_window_seconds: 60,
            enable_cors: true,
        }
    }

    /// The same settings with another interface to bind.
    pub fn host(self, host: &str) -> (builder: Self)
        ensures
            builder@ == (ServerSettings { host: host@, ..self@ }),
    {
        let mut builder = self;
        builder.host = String::from_str(host);
        builder
    }

    /// The same settings with another port to bind.
    pub fn port(self, port: u16) -> (builder: Self)
        ensures
            builder@ == (ServerSettings { port, ..self@ }),
    {
        let mut builder = self;
        builder.port = port;
        builder
    }

    /// The same settings with another number of workers.
    pub fn workers(self, workers: usize) -> (builder: Self)
        ensures
            builder@ == (ServerSettings { workers, ..self@ }),
    {
        let mut builder = self;
        builder.workers = workers;
        builder
    }

    /// The same settings with another largest request size, in bytes.
    pub fn max_request_size(self, size: usize) -> (builder: Self)
        ensures
            builder@ == (ServerSettings { max_request_size: size, ..self@ }),
    {
        let mut builder = self;
        builder.max_request_size = size;
        builder
    }

    /// The same settings with another admission limit: `requests` in every
    /// `window` seconds.
    pub fn rate_limit(self, requests: u32, window: u64) -> (builder: Self)
        ensures
            builder@ == (ServerSettings {
                rate_limit_requests: requests,
                rate_limit_window_seconds: window,
                ..self@
            }),
    {
        let mut builder = self;
        builder.rate_limit_requests = requests;
        builder.rate_limit_window_seconds = window;
        builder
    }

    /// The same settings with the cross-origin rules off.
    pub fn disable_cors(self) -> (builder: Self)
        ensures
            builder@ == (ServerSettings { enable_cors: false, ..self@ }),
    {
        let mut builder = self;
        builder.enable_cors = false;
        builder
    }

    /// The name of the service.
    pub fn name(&self) -> (name: &str)
        ensures
            name@ == self@.name,
    {
        self.name.as_str()
    }

    /// The interface to bind.
    pub fn bind_host(&self) -> (host: &str)
        ensures
            host@ == self@.host,
    {
        self.host.as_str()
    }

    /// The port to bind.
    pub fn bind_port(&self) -> (port: u16)
        ensures
            port == self@.port,
    {
        self.port
    }

    /// The number of workers.
    pub fn worker_count(&self) -> (workers: usize)
        ensures
            workers == self@.workers,
    {
        self.workers
    }

    /// The largest request size, in bytes.
    pub fn request_size_limit(&self) -> (size: usize)
        ensures
            size == self@.max_request_size,
    {
        self.max_request_size
    }

    /// The number of requests allowed in every window.
    pub fn rate_limit_requests(&self) -> (requests: u32)
        ensures
            requests == self@.rate_limit_requests,
    {
        self.rate_limit_requests
    }

    /// The length of the admission window, in seconds.
    pub fn rate_limit_window_seconds(&self) -> (window: u64)
        ensures
            window == self@.rate_limit_window_seconds,
    {
        self.rate_limit_window_seconds
    }

    /// Whether the cross-origin rules are on.
    pub fn cors_enabled(&self) -> (enabled: bool)
        ensures
            enabled == self@.enable_cors,
    {
        self.enable_cors
    }

    /// The security headers that every server of the fleet sends.
    pub fn security_headers() -> (headers: SecurityHeadersMiddleware)
        ensures
            headers@ == HeaderSettings::standard(),
    {
        SecurityHeadersMiddleware {
            content_security_policy: Some(String::from_str("default-src 'self'")),
            hsts_preload: true,
            hsts_max_age_seconds: 31536000,
            hsts_include_subdomains: true,
            referrer_policy: String::from_str("strict-origin-when-cross-origin"),
            permissions_policy: None,
        }
    }
}

} // verus!
