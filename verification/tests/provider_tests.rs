use zkpoex::provider::{
    choose_interval, try_get_http_provider, Interval, PollInterval, ProviderBuilder,
    ProviderError, ALCHEMY_FREE_TIER_CUPS, REQUEST_TIMEOUT_SECS,
};

#[test]
fn new_builder_has_the_default_policy() {
    let b = ProviderBuilder::new("https://eth.example.com");
    assert_eq!(b.url, "https://eth.example.com");
    assert_eq!(b.chain, 1);
    assert_eq!(b.max_retry, 100);
    assert_eq!(b.timeout_retry, 5);
    assert_eq!(b.initial_backoff, 100);
    assert_eq!(b.timeout, Interval { secs: 45, nanos: 0 });
    assert_eq!(REQUEST_TIMEOUT_SECS, 45);
    assert_eq!(b.compute_units_per_second, 330);
    assert_eq!(ALCHEMY_FREE_TIER_CUPS, 330);
}

#[test]
fn bare_localhost_gets_the_http_scheme() {
    assert_eq!(ProviderBuilder::new("localhost:8545").url, "http://localhost:8545");
    assert_eq!(ProviderBuilder::new("localhost").url, "localhost");
    assert_eq!(ProviderBuilder::new("http://localhost:8545").url, "http://localhost:8545");
}

#[test]
fn setters_change_one_setting_each() {
    let b = ProviderBuilder::new("https://eth.example.com")
        .timeout(Interval { secs: 3, nanos: 5 })
        .chain(137)
        .max_retry(7)
        .timeout_retry(8)
        .initial_backoff(9)
        .compute_units_per_second(10);
    assert_eq!(b.url, "https://eth.example.com");
    assert_eq!(b.timeout, Interval { secs: 3, nanos: 5 });
    assert_eq!(b.chain, 137);
    assert_eq!(b.max_retry, 7);
    assert_eq!(b.timeout_retry, 8);
    assert_eq!(b.initial_backoff, 9);
    assert_eq!(b.compute_units_per_second, 10);
    let a = b.aggressive();
    assert_eq!(a.max_retry, 100);
    assert_eq!(a.initial_backoff, 100);
    assert_eq!(a.timeout_retry, 8);
}

#[test]
fn half_of_millis_is_exact() {
    assert_eq!(Interval::half_of_millis(12_000), Interval { secs: 6, nanos: 0 });
    assert_eq!(Interval::half_of_millis(1_300), Interval { secs: 0, nanos: 650_000_000 });
    assert_eq!(Interval::half_of_millis(2_001), Interval { secs: 1, nanos: 500_000 });
    assert_eq!(Interval::half_of_millis(0), Interval { secs: 0, nanos: 0 });
    assert_eq!(
        Interval::half_of_millis(u64::MAX),
        Interval { secs: u64::MAX / 2000, nanos: ((u64::MAX % 2000) * 500_000) as u32 }
    );
}

#[test]
fn interval_choice_prefers_local() {
    assert_eq!(choose_interval(true, Some(12_000)), PollInterval::Local);
    assert_eq!(choose_interval(true, None), PollInterval::Local);
    assert_eq!(
        choose_interval(false, Some(12_000)),
        PollInterval::Every(Interval { secs: 6, nanos: 0 })
    );
    assert_eq!(choose_interval(false, None), PollInterval::Default);
}

#[test]
fn plan_takes_over_the_settings() {
    let plan = ProviderBuilder::new("https://eth.example.com")
        .max_retry(3)
        .timeout_retry(4)
        .initial_backoff(250)
        .plan(true, false, Some(2_100))
        .expect("a plan");
    assert_eq!(plan.url, "https://eth.example.com");
    assert_eq!(plan.rate_limit_retries, 3);
    assert_eq!(plan.timeout_retries, 4);
    assert_eq!(plan.initial_backoff, 250);
    assert_eq!(plan.timeout, Interval { secs: 45, nanos: 0 });
    assert_eq!(plan.compute_units_per_second, 330);
    assert_eq!(plan.poll, PollInterval::Every(Interval { secs: 1, nanos: 50_000_000 }));
    assert_eq!(
        ProviderBuilder::new("x").plan(false, true, None),
        Err(ProviderError::InvalidUrl(String::from("x")))
    );
}

#[test]
fn mainnet_node_is_polled_at_half_the_block_time() {
    let plan = ProviderBuilder::new("https://eth.example.com").build().expect("a plan");
    assert_eq!(plan.poll, PollInterval::Every(Interval { secs: 6, nanos: 0 }));
}

#[test]
fn arbitrum_node_is_polled_at_half_the_block_time() {
    let plan = ProviderBuilder::new("https://arb.example.com").chain(42161).build().expect("a plan");
    assert_eq!(plan.poll, PollInterval::Every(Interval { secs: 0, nanos: 650_000_000 }));
}

#[test]
fn chain_without_a_known_block_time_gets_the_default_interval() {
    let goerli = ProviderBuilder::new("https://g.example.com").chain(5).build().expect("a plan");
    assert_eq!(goerli.poll, PollInterval::Default);
    let unknown =
        ProviderBuilder::new("https://u.example.com").chain(999_999_999_999).build().expect("a plan");
    assert_eq!(unknown.poll, PollInterval::Default);
}

#[test]
fn local_node_is_polled_at_the_short_interval() {
    let a = ProviderBuilder::new("localhost:8545").build().expect("a plan");
    assert_eq!(a.poll, PollInterval::Local);
    assert_eq!(a.url, "http://localhost:8545");
    let b = try_get_http_provider(ProviderBuilder::new("http://127.0.0.1:8545")).expect("a plan");
    assert_eq!(b.poll, PollInterval::Local);
}

#[test]
fn text_that_is_no_url_with_a_host_is_refused() {
    assert_eq!(
        ProviderBuilder::new("not a url").build(),
        Err(ProviderError::InvalidUrl(String::from("not a url")))
    );
    assert_eq!(
        try_get_http_provider(ProviderBuilder::new("mailto:someone@example.com")),
        Err(ProviderError::InvalidUrl(String::from("mailto:someone@example.com")))
    );
}

#[test]
fn connect_follows_the_chain_that_the_node_reports() {
    let polygon = ProviderBuilder::new("https://eth.example.com").connect(Some(137)).expect("a plan");
    assert_eq!(polygon.poll, PollInterval::Every(Interval { secs: 1, nanos: 50_000_000 }));
    let silent = ProviderBuilder::new("https://eth.example.com").connect(None).expect("a plan");
    assert_eq!(silent.poll, PollInterval::Every(Interval { secs: 6, nanos: 0 }));
    let unknown = ProviderBuilder::new("localhost:8545").connect(Some(5)).expect("a plan");
    assert_eq!(unknown.poll, PollInterval::Local);
    let goerli = ProviderBuilder::new("https://g.example.com").chain(5).connect(Some(137));
    assert_eq!(
        goerli.expect("a plan").poll,
        PollInterval::Every(Interval { secs: 1, nanos: 50_000_000 })
    );
}

#[test]
fn local_node_keeps_the_short_interval_whatever_chain_it_reports() {
    let local = ProviderBuilder::new("http://localhost:8545").connect(Some(1)).expect("a plan");
    assert_eq!(local.poll, PollInterval::Local);
    let ip = ProviderBuilder::new("http://127.0.0.1:8545").connect(Some(137)).expect("a plan");
    assert_eq!(ip.poll, PollInterval::Local);
    let plan = ProviderBuilder::new("x").plan(true, true, None).expect("a plan");
    assert_eq!(plan.clone().with_blocktime(Some(12_000)).poll, PollInterval::Local);
    let remote = ProviderBuilder::new("x").plan(true, false, None).expect("a plan");
    assert_eq!(
        remote.with_blocktime(Some(12_000)).poll,
        PollInterval::Every(Interval { secs: 6, nanos: 0 })
    );
    assert_eq!(
        ProviderBuilder::new("nonsense").connect(Some(1)),
        Err(ProviderError::InvalidUrl(String::from("nonsense")))
    );
}
