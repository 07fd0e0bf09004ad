//! Configuration values consumed by the relay, with their defaults.

use vstd::prelude::*;

verus! {

/// Top-level configuration.
#[derive(Clone, Debug)]
pub struct Config {
    pub host: String,
    pub port: u16,
    pub scylla: ScyllaConfig,
    pub backend: BackendConfig,
    pub retry_worker: RetryWorkerConfig,
    pub performance: PerformanceConfig,
}

/// Where the message store lives.
#[derive(Clone, Debug)]
pub struct ScyllaConfig {
    /// Comma-separated list of nodes.
    pub nodes: String,
    pub keyspace: String,
    pub username: Option<String>,
    pub password: Option<String>,
}

/// Whitespace as `char::is_whitespace` defines it: the Unicode `White_Space`
/// property.
pub open spec fn is_ws(c: char) -> bool {
    ('\u{9}' <= c <= '\u{d}') || c == ' ' || c == '\u{85}' || c == '\u{a0}' || c == '\u{1680}' || (
    '\u{2000}' <= c <= '\u{200a}') || c == '\u{2028}' || c == '\u{2029}' || c == '\u{202f}' || c
        == '\u{205f}' || c == '\u{3000}'
}

pub open spec fn trim_start(s: Seq<char>) -> Seq<char>
    decreases s.len(),
{
    if s.len() > 0 && is_ws(s[0]) {
        trim_start(s.drop_first())
    } else {
        s
    }
}

pub open spec fn trim_end(s: Seq<char>) -> Seq<char>
    decreases s.len(),
{
    if s.len() > 0 && is_ws(s.last()) {
        trim_end(s.drop_last())
    } else {
        s
    }
}

/// `s` without its leading and trailing whitespace.
pub open spec fn trimmed(s: Seq<char>) -> Seq<char> {
    trim_end(trim_start(s))
}

/// The pieces of `s` between commas, empty ones included.
pub open spec fn comma_pieces(s: Seq<char>) -> Seq<Seq<char>>
    decreases s.len(),
{
    if s.len() == 0 {
        seq![Seq::empty()]
    } else {
        let p = comma_pieces(s.drop_last());
        if s.last() == ',' {
            p.push(Seq::empty())
        } else {
            p.update(p.len() - 1, p.last().push(s.last()))
        }
    }
}

/// Relies on `str::split` with a `char` pattern: the pieces between the
/// separators, in order, empty ones included.
#[verifier::external_body]
fn split_on_commas(s: &str) -> (r: Vec<String>)
    ensures
        r@.len() == comma_pieces(s@).len(),
        forall|i: int| 0 <= i < r@.len() ==> #[trigger] r@[i]@ == comma_pieces(s@)[i],
{
    s.split(',').map(|p| p.to_string()).collect()
}

/// Relies on `str::trim`: the text without leading and trailing whitespace.
#[verifier::external_body]
fn trim_text(s: &str) -> (r: String)
    ensures
        r@ == trimmed(s@),
{
    s.trim().to_string()
}

impl ScyllaConfig {
    /// The nodes, one per comma-separated piece, each trimmed.
    pub fn node_list(&self) -> (r: Vec<String>)
        ensures
            r@.len() == comma_pieces(self.nodes@).len(),
            forall|i: int| 0 <= i < r@.len() ==> #[trigger] r@[i]@ == trimmed(comma_pieces(self.nodes@)[i]),
    {
        let pieces = split_on_commas(self.nodes.as_str());
        let mut out: Vec<String> = Vec::new();
        let mut i: usize = 0;
        while i < pieces.len()
            invariant
                i <= pieces.len(),
                pieces@.len() == comma_pieces(self.nodes@).len(),
                forall|k: int| 0 <= k < pieces@.len() ==> #[trigger] pieces@[k]@ == comma_pieces(self.nodes@)[k],
                out@.len() == i,
                forall|k: int| 0 <= k < i ==> #[trigger] out@[k]@ == trimmed(comma_pieces(self.nodes@)[k]),
            decreases pieces.len() - i,
        {
            out.push(trim_text(pieces[i].as_str()));
            i = i + 1;
        }
        out
    }
}

/// The downstream consumer and the per-cycle delivery budget.
#[derive(Clone, Debug)]
pub struct BackendConfig {
    pub url: String,
    pub timeout_secs: u64,
    pub max_retries: u32,
    pub initial_backoff_ms: u64,
    pub max_backoff_ms: u64,
}

impl BackendConfig {
    /// The per-attempt network timeout, in milliseconds.
    pub fn timeout(&self) -> (r: u128)
        ensures
            r == self.timeout_secs * 1000,
    {
        self.timeout_secs as u128 * 1000
    }

    /// The first backoff delay, in milliseconds.
    pub fn initial_backoff(&self) -> (r: u64)
        ensures
            r == self.initial_backoff_ms,
    {
        self.initial_backoff_ms
    }

    /// The largest backoff delay, in milliseconds.
    pub fn max_backoff(&self) -> (r: u64)
        ensures
            r == self.max_backoff_ms,
    {
        self.max_backoff_ms
    }
}

/// The background retry sweep.
#[derive(Clone, Debug)]
pub struct RetryWorkerConfig {
    pub interval_secs: u64,
    pub batch_size: i32,
}

impl RetryWorkerConfig {
    /// The time between two sweeps, in milliseconds.
    pub fn interval(&self) -> (r: u128)
        ensures
            r == self.interval_secs * 1000,
    {
        self.interval_secs as u128 * 1000
    }
}

/// Settings of the inbound HTTP server.
#[derive(Clone, Debug)]
pub struct PerformanceConfig {
    pub workers: usize,
    pub max_connections: usize,
    pub keep_alive_secs: u64,
}

impl PerformanceConfig {
    /// How long an idle connection is kept, in milliseconds.
    pub fn keep_alive(&self) -> (r: u128)
        ensures
            r == self.keep_alive_secs * 1000,
    {
        self.keep_alive_secs as u128 * 1000
    }
}

pub fn default_host() -> (r: String)
    ensures
        r@ == "0.0.0.0"@,
{
    "0.0.0.0".to_owned()
}

pub fn default_port() -> (r: u16)
    ensures
        r == 8080,
{
    8080
}

pub fn default_backend_timeout_secs() -> (r: u64)
    ensures
        r == 30,
{
    30
}

pub fn default_max_retries() -> (r: u32)
    ensures
        r == 5,
{
    5
}

pub fn default_initial_backoff_ms() -> (r: u64)
    ensures
        r == 100,
{
    100
}

pub fn default_max_backoff_ms() -> (r: u64)
    ensures
        r == 60000,
{
    60000
}

pub fn default_retry_interval_secs() -> (r: u64)
    ensures
        r == 60,
{
    60
}

pub fn default_batch_size() -> (r: i32)
    ensures
        r == 100,
{
    100
}

pub fn default_http_workers() -> (r: usize)
    ensures
        r == 8,
{
    8
}

pub fn default_max_connections() -> (r: usize)
    ensures
        r == 256,
{
    256
}

pub fn default_keep_alive_secs() -> (r: u64)
    ensures
        r == 75,
{
    75
}

} // verus!
