//! Predefined request workloads.

use vstd::prelude::*;

use crate::bench::config::{RequestConfig, RequestMix};

verus! {

fn text(s: &str) -> (r: String)
    ensures
        r@ == s@,
{
    s.to_owned()
}

fn header(name: &str, value: &str) -> (r: (String, String))
    ensures
        r.0@ == name@,
        r.1@ == value@,
{
    (text(name), text(value))
}

/// Plain `GET /` with keep-alive and nothing else.
pub fn simple_get() -> (r: RequestConfig)
    ensures
        r.method@ == "GET"@,
        r.path@ == "/"@,
        r.body_size == 0,
        r.headers@.len() == 0,
        r.keep_alive,
        !r.compression,
        r.mix is None,
{
    RequestConfig {
        method: text("GET"),
        path: text("/"),
        body_size: 0,
        headers: Vec::new(),
        keep_alive: true,
        compression: false,
        mix: None,
    }
}

/// The API-like workload: GET of `/api/data` with JSON headers, 1 KiB
/// bodies, and a mix of 60% GET, 25% POST, 10% PUT and 5% DELETE over four
/// API paths.
pub open spec fn is_api_workload(r: RequestConfig) -> bool {
    &&& r.method@ == "GET"@
    &&& r.path@ == "/api/data"@
    &&& r.body_size == 1024
    &&& r.headers@.len() == 2
    &&& r.headers@[0].0@ == "Accept"@ && r.headers@[0].1@ == "application/json"@
    &&& r.headers@[1].0@ == "X-Request-ID"@ && r.headers@[1].1@ == "benchmark"@
    &&& r.keep_alive
    &&& r.compression
    &&& r.mix matches Some(m) && m.get_percent == 60 && m.post_percent == 25 && m.put_percent == 10
        && m.delete_percent == 5 && m.paths@.len() == 4 && m.paths@[0]@ == "/api/users"@
        && m.paths@[1]@ == "/api/products"@ && m.paths@[2]@ == "/api/orders"@
        && m.paths@[3]@ == "/api/search"@
}

/// An API-like workload: JSON requests of 1 KiB bodies, mostly GET, over
/// four API paths.
pub fn api_workload() -> (r: RequestConfig)
    ensures
        is_api_workload(r),
{
    let mut headers: Vec<(String, String)> = Vec::new();
    headers.push(header("Accept", "application/json"));
    headers.push(header("X-Request-ID", "benchmark"));
    let mut paths: Vec<String> = Vec::new();
    paths.push(text("/api/users"));
    paths.push(text("/api/products"));
    paths.push(text("/api/orders"));
    paths.push(text("/api/search"));
    RequestConfig {
        method: text("GET"),
        path: text("/api/data"),
        body_size: 1024,
        headers,
        keep_alive: true,
        compression: true,
        mix: Some(RequestMix { get_percent: 60, post_percent: 25, put_percent: 10, delete_percent: 5, paths }),
    }
}

/// Large uploads: POST of 64 KiB JSON bodies.
pub fn heavy_post() -> (r: RequestConfig)
    ensures
        r.method@ == "POST"@,
        r.path@ == "/api/upload"@,
        r.body_size == 65536,
        r.headers@.len() == 1,
        r.headers@[0].0@ == "Content-Type"@ && r.headers@[0].1@ == "application/json"@,
        r.keep_alive,
        r.compression,
        r.mix is None,
{
    let mut headers: Vec<(String, String)> = Vec::new();
    headers.push(header("Content-Type", "application/json"));
    RequestConfig {
        method: text("POST"),
        path: text("/api/upload"),
        body_size: 65536,
        headers,
        keep_alive: true,
        compression: true,
        mix: None,
    }
}

/// Static files: GET only, over five asset paths.
pub fn static_assets() -> (r: RequestConfig)
    ensures
        r.method@ == "GET"@,
        r.path@ == "/static/bundle.js"@,
        r.body_size == 0,
        r.headers@.len() == 2,
        r.headers@[0].0@ == "Accept-Encoding"@ && r.headers@[0].1@ == "gzip, br"@,
        r.headers@[1].0@ == "Cache-Control"@ && r.headers@[1].1@ == "no-cache"@,
        r.keep_alive,
        r.compression,
        r.mix matches Some(m) && m.get_percent == 100 && m.post_percent == 0 && m.put_percent == 0
            && m.delete_percent == 0 && m.paths@.len() == 5 && m.paths@[0]@ == "/static/app.js"@
            && m.paths@[1]@ == "/static/vendor.js"@ && m.paths@[2]@ == "/static/styles.css"@
            && m.paths@[3]@ == "/static/image.png"@ && m.paths@[4]@
            == "/_next/static/chunks/main.js"@,
{
    let mut headers: Vec<(String, String)> = Vec::new();
    headers.push(header("Accept-Encoding", "gzip, br"));
    headers.push(header("Cache-Control", "no-cache"));
    let mut paths: Vec<String> = Vec::new();
    paths.push(text("/static/app.js"));
    paths.push(text("/static/vendor.js"));
    paths.push(text("/static/styles.css"));
    paths.push(text("/static/image.png"));
    paths.push(text("/_next/static/chunks/main.js"));
    RequestConfig {
        method: text("GET"),
        path: text("/static/bundle.js"),
        body_size: 0,
        headers,
        keep_alive: true,
        compression: true,
        mix: Some(RequestMix { get_percent: 100, post_percent: 0, put_percent: 0, delete_percent: 0, paths }),
    }
}

/// Requests shaped like WebSocket upgrades on the hot-reload path.
pub fn websocket_simulation() -> (r: RequestConfig)
    ensures
        r.method@ == "GET"@,
        r.path@ == "/_next/webpack-hmr"@,
        r.body_size == 0,
        r.headers@.len() == 2,
        r.headers@[0].0@ == "Connection"@ && r.headers@[0].1@ == "Upgrade"@,
        r.headers@[1].0@ == "Upgrade"@ && r.headers@[1].1@ == "websocket"@,
        r.keep_alive,
        !r.compression,
        r.mix is None,
{
    let mut headers: Vec<(String, String)> = Vec::new();
    headers.push(header("Connection", "Upgrade"));
    headers.push(header("Upgrade", "websocket"));
    RequestConfig {
        method: text("GET"),
        path: text("/_next/webpack-hmr"),
        body_size: 0,
        headers,
        keep_alive: true,
        compression: false,
        mix: None,
    }
}

} // verus!
