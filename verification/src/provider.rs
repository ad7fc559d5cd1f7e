//! The chain data client's resilience policy: how often a failed request
//! is retried, how long one may take, and how often the node is polled.

use vstd::prelude::*;
use vstd::string::*;

verus! {

/// Compute units per second that the free tier of a hosted node allows.
pub const ALCHEMY_FREE_TIER_CUPS: u64 = 330;

/// Seconds after which a request is given up.
pub const REQUEST_TIMEOUT_SECS: u64 = 45;

/// The identifier of the main network.
pub const MAINNET_CHAIN_ID: u64 = 1;

/// A span of time: whole seconds and the nanoseconds beyond them.
#[derive(Clone, Copy, Debug, PartialEq, Eq, Structural)]
pub struct Interval {
    pub secs: u64,
    pub nanos: u32,
}

impl Interval {
    /// The span in nanoseconds.
    pub open spec fn as_nanos(&self) -> nat {
        self.secs as nat * 1_000_000_000 + self.nanos as nat
    }

    /// A span of whole seconds.
    pub fn from_secs(secs: u64) -> (r: Interval)
        ensures
            r == (Interval { secs, nanos: 0 }),
    {
        Interval { secs, nanos: 0 }
    }

    /// Half of a span that is given in milliseconds.
    pub fn half_of_millis(ms: u64) -> (r: Interval)
        ensures
            r == half_interval(ms),
            2 * r.as_nanos() == ms as nat * 1_000_000,
            r.nanos < 1_000_000_000,
    {
        let secs = ms / 2000;
        let rest = ms % 2000;
        let nanos: u32 = (rest as u32) * 500_000;
        Interval { secs, nanos }
    }
}

/// Half of a span of `ms` milliseconds.
pub open spec fn half_interval(ms: u64) -> Interval {
    Interval { secs: ms / 2000, nanos: ((ms % 2000) * 500_000) as u32 }
}

/// How often the node is polled.
#[derive(Clone, Copy, Debug, PartialEq, Eq, Structural)]
pub enum PollInterval {
    /// The short interval for a node on this machine.
    Local,
    /// The given interval.
    Every(Interval),
    /// The client's own default.
    Default,
}

/// Why no client can be made.
#[derive(Clone, Debug, PartialEq, Eq)]
pub enum ProviderError {
    /// The text is no URL with a host.
    InvalidUrl(String),
}

/// The settings of a retrying client, ready to be connected.
#[derive(Clone, Debug, PartialEq, Eq)]
pub struct ProviderPlan {
    pub url: String,
    pub timeout: Interval,
    /// Milliseconds to wait after the first failed request.
    pub initial_backoff: u64,
    /// How often a request that was refused for its rate is retried.
    pub rate_limit_retries: u32,
    /// How often a request that timed out is retried.
    pub timeout_retries: u32,
    pub compute_units_per_second: u64,
    pub poll: PollInterval,
}

/// Collects the settings of a retrying client.
#[derive(Clone, Debug, PartialEq, Eq)]
pub struct ProviderBuilder {
    pub url: String,
    /// The identifier of the chain that the node serves.
    pub chain: u64,
    pub max_retry: u32,
    pub timeout_retry: u32,
    pub initial_backoff: u64,
    pub timeout: Interval,
    pub compute_units_per_second: u64,
}

/// Whether `reqwest` takes the text as a URL: it parses and has a host.
pub uninterp spec fn url_has_host(url: Seq<char>) -> bool;

/// Whether `ethers_providers::is_local_endpoint` holds of the text.
pub uninterp spec fn local_endpoint(url: Seq<char>) -> bool;

/// The average block time in milliseconds that `ethers_core` knows for the
/// chain with the given identifier, if it knows the chain and a time.
pub uninterp spec fn blocktime_hint_ms(chain_id: u64) -> Option<u64>;

/// Parses the text with `reqwest::Url::parse` and asks the URL `has_host`,
/// which is what `reqwest` demands of a URL given as text.
#[verifier::external_body]
fn check_url(url: &str) -> (ok: bool)
    ensures
        ok == url_has_host(url@),
{
    reqwest::Url::parse(url).map_or(false, |parsed| parsed.has_host())
}

/// Calls `ethers_providers::is_local_endpoint`.
#[verifier::external_body]
fn is_local_endpoint(url: &str) -> (local: bool)
    ensures
        local == local_endpoint(url@),
{
    ethers_providers::is_local_endpoint(url)
}

/// Looks the chain up with `ethers_core::types::Chain::try_from` and asks
/// it `average_blocktime_hint`; the time is handed back in milliseconds.
#[verifier::external_body]
fn average_blocktime_hint(chain_id: u64) -> (hint: Option<u64>)
    ensures
        hint == blocktime_hint_ms(chain_id),
{
    let chain = ethers_core::types::Chain::try_from(chain_id).ok();
    chain.and_then(|known| known.average_blocktime_hint()).map(|time| time.as_millis() as u64)
}

/// Calls `str::starts_with` with a text as the pattern.
#[verifier::external_body]
fn starts_with(text: &str, prefix: &str) -> (r: bool)
    ensures
        r == has_prefix(text@, prefix@),
{
    text.starts_with(prefix)
}

/// Whether `text` begins with `prefix`.
pub open spec fn has_prefix(text: Seq<char>, prefix: Seq<char>) -> bool {
    prefix.len() <= text.len() && text.subrange(0, prefix.len() as int) == prefix
}

/// The URL that a text stands for: a bare `localhost:` address gets the
/// `http://` scheme in front.
pub open spec fn normalized_url(url: Seq<char>) -> Seq<char> {
    if has_prefix(url, "localhost:"@) {
        "http://"@ + url
    } else {
        url
    }
}

/// The polling interval for a node: the short one if it is local, else
/// half the chain's average block time where one is known.
pub open spec fn poll_choice(is_local: bool, hint_ms: Option<u64>) -> PollInterval {
    if is_local {
        PollInterval::Local
    } else {
        match hint_ms {
            Some(ms) => PollInterval::Every(half_interval(ms)),
            None => PollInterval::Default,
        }
    }
}

/// The polling interval for a node that may be local and whose chain may
/// have a known block time.
pub fn choose_interval(is_local: bool, hint_ms: Option<u64>) -> (r: PollInterval)
    ensures
        r == poll_choice(is_local, hint_ms),
{
    if is_local {
        PollInterval::Local
    } else {
        match hint_ms {
            Some(ms) => PollInterval::Every(Interval::half_of_millis(ms)),
            None => PollInterval::Default,
        }
    }
}

/// The polling interval after the node has told its chain. A local node
/// keeps the short interval; any other is polled at half the chain's block
/// time where one is known, and as before where none is.
pub open spec fn follow_chain(poll: PollInterval, hint_ms: Option<u64>) -> PollInterval {
    match poll {
        PollInterval::Local => PollInterval::Local,
        _ => match hint_ms {
            Some(ms) => PollInterval::Every(half_interval(ms)),
            None => poll,
        },
    }
}

impl ProviderPlan {
    /// The plan after the node has told its chain: a local node keeps the
    /// short interval, and any other is polled at half the chain's block
    /// time where one is known.
    pub fn with_blocktime(self, hint_ms: Option<u64>) -> (r: ProviderPlan)
        ensures
            r == (ProviderPlan { poll: follow_chain(self.poll, hint_ms), ..self }),
    {
        match self.poll {
            PollInterval::Local => self,
            _ => match hint_ms {
                Some(ms) => ProviderPlan {
                    poll: PollInterval::Every(Interval::half_of_millis(ms)),
                    ..self
                },
                None => self,
            },
        }
    }
}

impl ProviderBuilder {
    /// The plan that the settings make, given what was found out about the
    /// URL and the chain.
    pub open spec fn plan_for(self, url_ok: bool, is_local: bool, hint_ms: Option<u64>) -> Result<
        ProviderPlan,
        ProviderError,
    > {
        if url_ok {
            Ok(
                ProviderPlan {
                    url: self.url,
                    timeout: self.timeout,
                    initial_backoff: self.initial_backoff,
                    rate_limit_retries: self.max_retry,
                    timeout_retries: self.timeout_retry,
                    compute_units_per_second: self.compute_units_per_second,
                    poll: poll_choice(is_local, hint_ms),
                },
            )
        } else {
            Err(ProviderError::InvalidUrl(self.url))
        }
    }

    /// A builder for the node at `url`, with the default policy: the main
    /// network, a hundred retries, five retries after a timeout, a backoff
    /// of a hundred milliseconds and a timeout of 45 seconds.
    pub fn new(url: &str) -> (r: ProviderBuilder)
        ensures
            r.url@ == normalized_url(url@),
            r.chain == MAINNET_CHAIN_ID,
            r.max_retry == 100,
            r.timeout_retry == 5,
            r.initial_backoff == 100,
            r.timeout == (Interval { secs: REQUEST_TIMEOUT_SECS, nanos: 0 }),
            r.compute_units_per_second == ALCHEMY_FREE_TIER_CUPS,
    {
        let url = if starts_with(url, "localhost:") {
            String::from_str("http://").concat(url)
        } else {
            String::from_str(url)
        };
        ProviderBuilder {
            url,
            chain: MAINNET_CHAIN_ID,
            max_retry: 100,
            timeout_retry: 5,
            initial_backoff: 100,
            timeout: Interval::from_secs(REQUEST_TIMEOUT_SECS),
            compute_units_per_second: ALCHEMY_FREE_TIER_CUPS,
        }
    }

    /// Sets the time after which a request is given up.
    pub fn timeout(self, timeout: Interval) -> (r: ProviderBuilder)
        ensures
            r == (ProviderBuilder { timeout, ..self }),
    {
        ProviderBuilder { timeout, ..self }
    }

    /// Sets the chain that the node serves, by its identifier.
    pub fn chain(self, chain: u64) -> (r: ProviderBuilder)
        ensures
            r == (ProviderBuilder { chain, ..self }),
    {
        ProviderBuilder { chain, ..self }
    }

    /// Sets how often a failed request is retried.
    pub fn max_retry(self, max_retry: u32) -> (r: ProviderBuilder)
        ensures
            r == (ProviderBuilder { max_retry, ..self }),
    {
        ProviderBuilder { max_retry, ..self }
    }

    /// Sets how often a request that timed out is retried.
    pub fn timeout_retry(self, timeout_retry: u32) -> (r: ProviderBuilder)
        ensures
            r == (ProviderBuilder { timeout_retry, ..self }),
    {
        ProviderBuilder { timeout_retry, ..self }
    }

    /// Sets the milliseconds to wait after the first failed request.
    pub fn initial_backoff(self, initial_backoff: u64) -> (r: ProviderBuilder)
        ensures
            r == (ProviderBuilder { initial_backoff, ..self }),
    {
        ProviderBuilder { initial_backoff, ..self }
    }

    /// Sets the compute units per second that are assumed to be available.
    pub fn compute_units_per_second(self, compute_units_per_second: u64) -> (r: ProviderBuilder)
        ensures
            r == (ProviderBuilder { compute_units_per_second, ..self }),
    {
        ProviderBuilder { compute_units_per_second, ..self }
    }

    /// Sets a hundred retries and a backoff of a hundred milliseconds, as
    /// suits a node on this machine.
    pub fn aggressive(self) -> (r: ProviderBuilder)
        ensures
            r == (ProviderBuilder { max_retry: 100, initial_backoff: 100, ..self }),
    {
        self.max_retry(100).initial_backoff(100)
    }

    /// Makes the plan from the settings and from what was found out about
    /// the URL and the chain.
    pub fn plan(self, url_ok: bool, is_local: bool, hint_ms: Option<u64>) -> (r: Result<
        ProviderPlan,
        ProviderError,
    >)
        ensures
            r == self.plan_for(url_ok, is_local, hint_ms),
    {
        if url_ok {
            Ok(
                ProviderPlan {
                    url: self.url,
                    timeout: self.timeout,
                    initial_backoff: self.initial_backoff,
                    rate_limit_retries: self.max_retry,
                    timeout_retries: self.timeout_retry,
                    compute_units_per_second: self.compute_units_per_second,
                    poll: choose_interval(is_local, hint_ms),
                },
            )
        } else {
            Err(ProviderError::InvalidUrl(self.url))
        }
    }

    /// Makes the plan of the client. Fails exactly where the URL is not
    /// one with a host. A local node is polled at the short interval, any
    /// other at half the average block time of the chain that was set,
    /// where one is known.
    pub fn build(self) -> (r: Result<ProviderPlan, ProviderError>)
        ensures
            r == self.plan_for(
                url_has_host(self.url@),
                local_endpoint(self.url@),
                blocktime_hint_ms(self.chain),
            ),
    {
        let url_ok = check_url(self.url.as_str());
        let is_local = is_local_endpoint(self.url.as_str());
        let hint_ms = average_blocktime_hint(self.chain);
        self.plan(url_ok, is_local, hint_ms)
    }

    /// As `build`, for a node that was asked for its chain. A local node
    /// keeps the short interval. Any other, where it answered with
    /// `chain_id` and that chain's block time is known, is polled at half
    /// of it.
    pub fn connect(self, chain_id: Option<u64>) -> (r: Result<ProviderPlan, ProviderError>)
        ensures
            r == connected(
                self.plan_for(
                    url_has_host(self.url@),
                    local_endpoint(self.url@),
                    blocktime_hint_ms(self.chain),
                ),
                match chain_id {
                    Some(id) => blocktime_hint_ms(id),
                    None => None,
                },
            ),
    {
        let hint_ms = match chain_id {
            Some(id) => average_blocktime_hint(id),
            None => None,
        };
        match self.build() {
            Ok(plan) => Ok(plan.with_blocktime(hint_ms)),
            Err(e) => Err(e),
        }
    }
}

/// A built plan after the node has told its chain.
pub open spec fn connected(built: Result<ProviderPlan, ProviderError>, hint_ms: Option<u64>) -> Result<
    ProviderPlan,
    ProviderError,
> {
    match built {
        Ok(plan) => Ok(ProviderPlan { poll: follow_chain(plan.poll, hint_ms), ..plan }),
        Err(e) => Err(e),
    }
}

/// Makes the plan of the client that a builder describes.
pub fn try_get_http_provider(builder: ProviderBuilder) -> (r: Result<ProviderPlan, ProviderError>)
    ensures
        r == builder.plan_for(
            url_has_host(builder.url@),
            local_endpoint(builder.url@),
            blocktime_hint_ms(builder.chain),
        ),
{
    builder.build()
}

} // verus!
