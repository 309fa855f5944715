//! Benchmark scenario configuration and the preset scenarios.
//!
//! Fractional settings are kept as integers: the CPU limit in thousandths of
//! a core, and the stress error threshold in thousandths of a percent.

use vstd::prelude::*;

verus! {

/// A benchmark scenario.
#[derive(Debug, Clone)]
pub struct ScenarioConfig {
    pub name: String,
    pub description: String,
    pub load: LoadConfig,
    pub request: RequestConfig,
    pub docker: DockerConfig,
    pub stress: Option<StressConfig>,
    pub burst: Option<BurstConfig>,
}

/// Load configuration.
#[derive(Debug, Clone, Copy, PartialEq, Eq, Structural)]
pub struct LoadConfig {
    /// Target requests per second.
    pub target_rps: u32,
    /// Number of concurrent connections.
    pub concurrency: u32,
    /// Test duration in seconds.
    pub duration_secs: u64,
    /// Warmup duration in seconds.
    pub warmup_secs: u64,
    /// Connection timeout in milliseconds.
    pub timeout_ms: u64,
}

/// Request configuration.
#[derive(Debug, Clone)]
pub struct RequestConfig {
    /// HTTP method.
    pub method: String,
    /// Request path.
    pub path: String,
    /// Request body size in bytes (0 for none).
    pub body_size: usize,
    /// Extra headers.
    pub headers: Vec<(String, String)>,
    /// Keep connections alive.
    pub keep_alive: bool,
    /// Ask for compressed responses.
    pub compression: bool,
    /// Mix of request kinds.
    pub mix: Option<RequestMix>,
}

/// Request mix for realistic workloads.
#[derive(Debug, Clone)]
pub struct RequestMix {
    pub get_percent: u8,
    pub post_percent: u8,
    pub put_percent: u8,
    pub delete_percent: u8,
    /// Paths to pick from (the request path when empty).
    pub paths: Vec<String>,
}

/// Docker resource limits.
#[derive(Debug, Clone)]
pub struct DockerConfig {
    /// CPU limit in thousandths of a core.
    pub cpu_limit_milli: u64,
    /// Memory limit in MB.
    pub memory_mb: u64,
    /// Network name.
    pub network: String,
}

/// Stress test: raise the rate step by step until errors exceed a threshold.
#[derive(Debug, Clone, Copy, PartialEq, Eq, Structural)]
pub struct StressConfig {
    pub start_rps: u32,
    pub max_rps: u32,
    pub step: u32,
    pub step_duration_secs: u64,
    /// Error rate at which to stop, in thousandths of a percent.
    pub error_threshold_milli: u64,
}

/// Burst test configuration.
#[derive(Debug, Clone, Copy, PartialEq, Eq, Structural)]
pub struct BurstConfig {
    /// Requests per burst.
    pub burst_size: u32,
    /// Number of bursts.
    pub burst_count: u32,
    /// Pause between bursts in seconds.
    pub pause_secs: u64,
    /// Concurrency during a burst.
    pub concurrency: u32,
}

pub fn default_rps() -> (r: u32)
    ensures
        r == 100,
{
    100
}

pub fn default_concurrency() -> (r: u32)
    ensures
        r == 10,
{
    10
}

pub fn default_duration() -> (r: u64)
    ensures
        r == 60,
{
    60
}

pub fn default_warmup() -> (r: u64)
    ensures
        r == 5,
{
    5
}

pub fn default_timeout() -> (r: u64)
    ensures
        r == 30000,
{
    30000
}

pub fn default_method() -> (r: String)
    ensures
        r@ == "GET"@,
{
    "GET".to_owned()
}

pub fn default_path() -> (r: String)
    ensures
        r@ == "/"@,
{
    "/".to_owned()
}

pub fn default_true() -> (r: bool)
    ensures
        r,
{
    true
}

/// One core, in thousandths.
pub fn default_cpu() -> (r: u64)
    ensures
        r == 1000,
{
    1000
}

pub fn default_memory() -> (r: u64)
    ensures
        r == 256,
{
    256
}

pub fn default_network() -> (r: String)
    ensures
        r@ == "bench-network"@,
{
    "bench-network".to_owned()
}

pub fn default_start_rps() -> (r: u32)
    ensures
        r == 100,
{
    100
}

pub fn default_max_rps() -> (r: u32)
    ensures
        r == 10000,
{
    10000
}

pub fn default_step() -> (r: u32)
    ensures
        r == 100,
{
    100
}

pub fn default_step_duration() -> (r: u64)
    ensures
        r == 30,
{
    30
}

/// Five percent, in thousandths of a percent.
pub fn default_error_threshold() -> (r: u64)
    ensures
        r == 5000,
{
    5000
}

pub fn default_burst_size() -> (r: u32)
    ensures
        r == 10000,
{
    10000
}

pub fn default_burst_count() -> (r: u32)
    ensures
        r == 5,
{
    5
}

pub fn default_pause() -> (r: u64)
    ensures
        r == 10,
{
    10
}

pub fn default_burst_concurrency() -> (r: u32)
    ensures
        r == 100,
{
    100
}

pub fn default_70() -> (r: u8)
    ensures
        r == 70,
{
    70
}

pub fn default_20() -> (r: u8)
    ensures
        r == 20,
{
    20
}

pub fn default_5() -> (r: u8)
    ensures
        r == 5,
{
    5
}

impl LoadConfig {
    pub open spec fn is_default(self) -> bool {
        self.target_rps == 100 && self.concurrency == 10 && self.duration_secs == 60
            && self.warmup_secs == 5 && self.timeout_ms == 30000
    }
}

impl Default for LoadConfig {
    fn default() -> (r: Self)
        ensures
            r.is_default(),
    {
        Self {
            target_rps: default_rps(),
            concurrency: default_concurrency(),
            duration_secs: default_duration(),
            warmup_secs: default_warmup(),
            timeout_ms: default_timeout(),
        }
    }
}

impl RequestConfig {
    /// `GET /` with no body, keep-alive, no compression, no mix.
    pub open spec fn is_default(self) -> bool {
        &&& self.method@ == "GET"@
        &&& self.path@ == "/"@
        &&& self.body_size == 0
        &&& self.headers@.len() == 0
        &&& self.keep_alive
        &&& !self.compression
        &&& self.mix is None
    }
}

impl Default for RequestConfig {
    fn default() -> (r: Self)
        ensures
            r.is_default(),
    {
        Self {
            method: default_method(),
            path: default_path(),
            body_size: 0,
            headers: Vec::new(),
            keep_alive: true,
            compression: false,
            mix: None,
        }
    }
}

impl DockerConfig {
    pub open spec fn is_default(self) -> bool {
        self.cpu_limit_milli == 1000 && self.memory_mb == 256 && self.network@ == "bench-network"@
    }
}

impl Default for DockerConfig {
    fn default() -> (r: Self)
        ensures
            r.is_default(),
    {
        Self { cpu_limit_milli: default_cpu(), memory_mb: default_memory(), network: default_network() }
    }
}

/// The names of the preset scenarios.
pub open spec fn is_preset_name(name: Seq<char>) -> bool {
    ||| name == "baseline"@
    ||| name == "sustained"@
    ||| name == "burst"@
    ||| name == "stress"@
    ||| name == "memory"@
    ||| name == "concurrent"@
    ||| name == "api-workload"@
}

/// The load of a preset: (target rps, concurrency, duration, warmup, timeout).
pub open spec fn preset_load(name: Seq<char>) -> (u32, u32, u64, u64, u64) {
    if name == "baseline"@ {
        (1, 1, 60, 5, 30000)
    } else if name == "sustained"@ {
        (1000, 50, 300, 10, 30000)
    } else if name == "burst"@ {
        (0, 100, 120, 5, 30000)
    } else if name == "stress"@ {
        (0, 100, 600, 10, 10000)
    } else if name == "memory"@ {
        (500, 25, 1800, 10, 30000)
    } else if name == "concurrent"@ {
        (5000, 1000, 120, 10, 30000)
    } else {
        (1000, 10, 180, 5, 30000)
    }
}

/// A scenario is the preset of that name: its name, load, request (the
/// default one, or the API workload for `api-workload`), default Docker
/// settings, and the stress or burst settings of that preset.
pub open spec fn is_preset(c: ScenarioConfig, name: Seq<char>) -> bool {
    let (rps, conc, dur, warm, timeout) = preset_load(name);
    &&& c.name@ == name
    &&& c.load.target_rps == rps
    &&& c.load.concurrency == conc
    &&& c.load.duration_secs == dur
    &&& c.load.warmup_secs == warm
    &&& c.load.timeout_ms == timeout
    &&& (if name == "api-workload"@ {
        crate::bench::workload::patterns::is_api_workload(c.request)
    } else {
        c.request.is_default()
    })
    &&& c.docker.is_default()
    &&& (if name == "stress"@ {
        c.stress matches Some(s) && s.start_rps == 100 && s.max_rps == 50000 && s.step == 500
            && s.step_duration_secs == 30 && s.error_threshold_milli == 5000
    } else {
        c.stress is None
    })
    &&& (if name == "burst"@ {
        c.burst matches Some(b) && b.burst_size == 10000 && b.burst_count == 5 && b.pause_secs == 10
            && b.concurrency == 100
    } else {
        c.burst is None
    })
}

/// The error message for an unknown scenario name.
pub open spec fn unknown_scenario_message(name: Seq<char>) -> Seq<char> {
    "Unknown scenario: "@ + name + ". Use 'list' to see available scenarios."@
}

/// The preset names, told apart by their length and first letter.
proof fn lemma_preset_names()
    ensures
        "baseline"@.len() == 8 && "baseline"@[0] == 'b',
        "sustained"@.len() == 9 && "sustained"@[0] == 's',
        "burst"@.len() == 5 && "burst"@[0] == 'b',
        "stress"@.len() == 6 && "stress"@[0] == 's',
        "memory"@.len() == 6 && "memory"@[0] == 'm',
        "concurrent"@.len() == 10 && "concurrent"@[0] == 'c',
        "api-workload"@.len() == 12 && "api-workload"@[0] == 'a',
{
    reveal_strlit("baseline");
    reveal_strlit("sustained");
    reveal_strlit("burst");
    reveal_strlit("stress");
    reveal_strlit("memory");
    reveal_strlit("concurrent");
    reveal_strlit("api-workload");
}

impl ScenarioConfig {
    fn make(name: &str, description: &str, load: LoadConfig) -> (r: Self)
        ensures
            r.name@ == name@,
            r.description@ == description@,
            r.load == load,
            r.request.is_default(),
            r.docker.is_default(),
            r.stress is None,
            r.burst is None,
    {
        Self {
            name: name.to_owned(),
            description: description.to_owned(),
            load,
            request: RequestConfig::default(),
            docker: DockerConfig::default(),
            stress: None,
            burst: None,
        }
    }

    /// The preset scenario of this name, or an error naming the unknown scenario.
    pub fn preset(name: &str) -> (r: Result<Self, String>)
        ensures
            r is Ok <==> is_preset_name(name@),
            r matches Ok(c) ==> is_preset(c, name@),
            r matches Err(m) ==> m@ == unknown_scenario_message(name@),
    {
        proof {
            reveal_strlit("baseline");
            reveal_strlit("sustained");
            reveal_strlit("burst");
            reveal_strlit("stress");
            reveal_strlit("memory");
            reveal_strlit("concurrent");
            reveal_strlit("api-workload");
        }
        let n = crate::text::chars_of(name);
        if crate::text::chars_eq(&n, &crate::text::chars_of("baseline")) {
            Ok(Self::baseline())
        } else if crate::text::chars_eq(&n, &crate::text::chars_of("sustained")) {
            Ok(Self::sustained())
        } else if crate::text::chars_eq(&n, &crate::text::chars_of("burst")) {
            Ok(Self::burst())
        } else if crate::text::chars_eq(&n, &crate::text::chars_of("stress")) {
            Ok(Self::stress())
        } else if crate::text::chars_eq(&n, &crate::text::chars_of("memory")) {
            Ok(Self::memory())
        } else if crate::text::chars_eq(&n, &crate::text::chars_of("concurrent")) {
            Ok(Self::concurrent())
        } else if crate::text::chars_eq(&n, &crate::text::chars_of("api-workload")) {
            Ok(Self::api_workload())
        } else {
            let m = crate::text::concat_str(
                crate::text::concat_str("Unknown scenario: ", name).as_str(),
                ". Use 'list' to see available scenarios.",
            );
            Err(m)
        }
    }

    /// Minimal load (1 req/s), to measure base latency.
    fn baseline() -> (r: Self)
        ensures
            is_preset(r, "baseline"@),
    {
        proof {
            lemma_preset_names();
        }
        let r = Self::make(
            "baseline",
            "Minimal load (1 req/s) - measures base latency with zero contention",
            LoadConfig { target_rps: 1, concurrency: 1, duration_secs: 60, warmup_secs: 5, timeout_ms: 30000 },
        );
        r
    }

    /// 1k requests per second for 5 minutes.
    fn sustained() -> (r: Self)
        ensures
            is_preset(r, "sustained"@),
    {
        proof {
            lemma_preset_names();
        }
        Self::make(
            "sustained",
            "Sustained load (1k req/s for 5 min) - memory stability test",
            LoadConfig {
                target_rps: 1000,
                concurrency: 50,
                duration_secs: 300,
                warmup_secs: 10,
                timeout_ms: 30000,
            },
        )
    }

    /// Traffic spikes: bursts of 10k requests with pauses.
    fn burst() -> (r: Self)
        ensures
            is_preset(r, "burst"@),
    {
        proof {
            lemma_preset_names();
        }
        let mut c = Self::make(
            "burst",
            "Traffic spikes (10k requests, pause, repeat) - spike handling",
            LoadConfig { target_rps: 0, concurrency: 100, duration_secs: 120, warmup_secs: 5, timeout_ms: 30000 },
        );
        c.burst = Some(BurstConfig { burst_size: 10000, burst_count: 5, pause_secs: 10, concurrency: 100 });
        c
    }

    /// Ramp up until the error rate passes 5%.
    fn stress() -> (r: Self)
        ensures
            is_preset(r, "stress"@),
    {
        proof {
            lemma_preset_names();
        }
        let mut c = Self::make(
            "stress",
            "Ramp-up until 5% error rate - find breaking point",
            LoadConfig { target_rps: 0, concurrency: 100, duration_secs: 600, warmup_secs: 10, timeout_ms: 10000 },
        );
        c.stress = Some(
            StressConfig {
                start_rps: 100,
                max_rps: 50000,
                step: 500,
                step_duration_secs: 30,
                error_threshold_milli: 5000,
            },
        );
        c
    }

    /// 30 minutes at moderate load, to detect memory leaks.
    fn memory() -> (r: Self)
        ensures
            is_preset(r, "memory"@),
    {
        proof {
            lemma_preset_names();
        }
        Self::make(
            "memory",
            "Long-running (30 min) at moderate load - memory leak detection",
            LoadConfig { target_rps: 500, concurrency: 25, duration_secs: 1800, warmup_secs: 10, timeout_ms: 30000 },
        )
    }

    /// 1k concurrent connections.
    fn concurrent() -> (r: Self)
        ensures
            is_preset(r, "concurrent"@),
    {
        proof {
            lemma_preset_names();
        }
        Self::make(
            "concurrent",
            "High concurrency (1k connections) - connection handling",
            LoadConfig {
                target_rps: 5000,
                concurrency: 1000,
                duration_secs: 120,
                warmup_secs: 10,
                timeout_ms: 30000,
            },
        )
    }

    /// Mixed API traffic: the API workload at 1k requests per second for 3
    /// minutes; the other load settings are the defaults.
    fn api_workload() -> (r: Self)
        ensures
            is_preset(r, "api-workload"@),
    {
        proof {
            lemma_preset_names();
        }
        let mut c = Self::make(
            "api-workload",
            "Mixed API traffic (1k req/s mixed methods for 3 min) - API workload",
            LoadConfig { target_rps: 1000, concurrency: 10, duration_secs: 180, warmup_secs: 5, timeout_ms: 30000 },
        );
        c.request = crate::bench::workload::patterns::api_workload();
        c
    }
}

/// Whether a scenario argument names a TOML file rather than a preset: it
/// ends with `.toml`.
pub fn names_scenario_file(scenario: &str) -> (r: bool)
    ensures
        r == crate::text::ends_with(scenario@, ".toml"@),
{
    crate::text::ends_with_chars(&crate::text::chars_of(scenario), &crate::text::chars_of(".toml"))
}

/// A proxy under test.
#[derive(Debug, Clone)]
pub struct ProxyConfig {
    pub name: String,
    pub container_name: String,
    pub port: u16,
    pub url: String,
}

/// The proxies that can be benchmarked.
pub open spec fn is_proxy_name(name: Seq<char>) -> bool {
    ||| name == "rproxy"@
    ||| name == "nginx"@
    ||| name == "traefik"@
    ||| name == "caddy"@
    ||| name == "envoy"@
}

/// Whether a proxy of this name can be benchmarked.
pub fn is_known_proxy(name: &str) -> (r: bool)
    ensures
        r == is_proxy_name(name@),
{
    let n = crate::text::chars_of(name);
    crate::text::chars_eq(&n, &crate::text::chars_of("rproxy")) || crate::text::chars_eq(
        &n,
        &crate::text::chars_of("nginx"),
    ) || crate::text::chars_eq(&n, &crate::text::chars_of("traefik")) || crate::text::chars_eq(
        &n,
        &crate::text::chars_of("caddy"),
    ) || crate::text::chars_eq(&n, &crate::text::chars_of("envoy"))
}

/// The port a proxy listens on.
pub open spec fn proxy_port(name: Seq<char>) -> u16 {
    if name == "rproxy"@ {
        8080
    } else if name == "nginx"@ {
        8081
    } else if name == "traefik"@ {
        8082
    } else if name == "caddy"@ {
        8083
    } else {
        8084
    }
}

impl ProxyConfig {
    /// The settings of a known proxy: container `bench-<name>`, and the URL
    /// of its port on localhost.
    pub fn for_proxy(name: &str) -> (r: Self)
        requires
            is_proxy_name(name@),
        ensures
            r.name@ == name@,
            r.container_name@ == "bench-"@ + name@,
            r.port == proxy_port(name@),
            r.url@ == "http://localhost:"@ + (if name@ == "rproxy"@ {
                "8080"@
            } else if name@ == "nginx"@ {
                "8081"@
            } else if name@ == "traefik"@ {
                "8082"@
            } else if name@ == "caddy"@ {
                "8083"@
            } else {
                "8084"@
            }),
    {
        proof {
            reveal_strlit("rproxy");
            reveal_strlit("nginx");
            reveal_strlit("traefik");
            reveal_strlit("caddy");
            reveal_strlit("envoy");
        }
        let n = crate::text::chars_of(name);
        let (port, port_text): (u16, &str) = if crate::text::chars_eq(&n, &crate::text::chars_of("rproxy")) {
            (8080, "8080")
        } else if crate::text::chars_eq(&n, &crate::text::chars_of("nginx")) {
            (8081, "8081")
        } else if crate::text::chars_eq(&n, &crate::text::chars_of("traefik")) {
            (8082, "8082")
        } else if crate::text::chars_eq(&n, &crate::text::chars_of("caddy")) {
            (8083, "8083")
        } else {
            (8084, "8084")
        };
        Self {
            name: name.to_owned(),
            container_name: crate::text::concat_str("bench-", name),
            port,
            url: crate::text::concat_str("http://localhost:", port_text),
        }
    }
}

} // verus!
