use rpc_transport::{Backend, Channel, ConnState, Endpoint, Error, TimeSpan};

#[test]
fn endpoint_new_accepts_valid_uri() {
    let e = Endpoint::from_shared("https://example.com".to_string()).unwrap();
    assert_eq!(e.uri.text, "https://example.com");
    assert_eq!(e.uri.host.as_deref(), Some("example.com"));
}

#[test]
fn endpoint_new_rejects_invalid_uri() {
    let r = Endpoint::from_shared("hello world".to_string());
    assert_eq!(r.unwrap_err(), Error::InvalidUri("hello world".to_string()));
    let r = Endpoint::from_shared(String::new());
    assert!(matches!(r.unwrap_err(), Error::InvalidUri(_)));
}

#[test]
fn endpoint_from_static_and_from_string_parse_alike() {
    let a = Endpoint::from_static("https://example.com").unwrap();
    let b = Endpoint::from_string("https://example.com".to_string()).unwrap();
    assert_eq!(a.uri.text, b.uri.text);
    assert_eq!(a.uri.host, b.uri.host);
}

#[test]
fn endpoint_defaults() {
    let e = Endpoint::from_shared("https://example.com".to_string()).unwrap();
    assert!(e.tcp_nodelay);
    assert!(e.tls_verify_domain.is_none());
    assert!(e.origin.is_none());
    assert!(e.user_agent.is_none());
    assert!(e.timeout.is_none());
    assert!(e.concurrency_limit.is_none());
    assert!(e.rate_limit.is_none());
    assert!(e.buffer_size.is_none());
    assert!(e.init_stream_window_size.is_none());
    assert!(e.init_connection_window_size.is_none());
    assert!(e.tcp_keepalive.is_none());
    assert!(e.http2_keep_alive_interval.is_none());
    assert!(e.http2_keep_alive_timeout.is_none());
    assert!(e.http2_keep_alive_while_idle.is_none());
    assert!(e.connect_timeout.is_none());
    assert!(e.http2_adaptive_window.is_none());
}

#[test]
fn builders_set_their_field() {
    let e = Endpoint::from_shared("https://example.com".to_string()).unwrap();
    let e = e
        .timeout(TimeSpan::from_secs(5))
        .connect_timeout(TimeSpan::from_secs(2))
        .concurrency_limit(256)
        .rate_limit(32, TimeSpan::from_secs(1))
        .tcp_nodelay(false)
        .tcp_keepalive(Some(TimeSpan::from_secs(60)))
        .initial_stream_window_size(Some(65535))
        .initial_connection_window_size(Some(131070))
        .http2_keep_alive_interval(TimeSpan::from_secs(30))
        .keep_alive_timeout(TimeSpan::from_secs(10))
        .keep_alive_while_idle(true)
        .http2_adaptive_window(true)
        .tls_verify_domain("other.example.com".to_string());
    assert_eq!(e.timeout, Some(TimeSpan::from_secs(5)));
    assert_eq!(e.connect_timeout, Some(TimeSpan::from_secs(2)));
    assert_eq!(e.concurrency_limit, Some(256));
    assert_eq!(e.rate_limit, Some((32, TimeSpan::from_secs(1))));
    assert!(!e.tcp_nodelay);
    assert_eq!(e.tcp_keepalive, Some(TimeSpan::from_secs(60)));
    assert_eq!(e.init_stream_window_size, Some(65535));
    assert_eq!(e.init_connection_window_size, Some(131070));
    assert_eq!(e.http2_keep_alive_interval, Some(TimeSpan::from_secs(30)));
    assert_eq!(e.http2_keep_alive_timeout, Some(TimeSpan::from_secs(10)));
    assert_eq!(e.http2_keep_alive_while_idle, Some(true));
    assert_eq!(e.http2_adaptive_window, Some(true));
    assert_eq!(e.tls_verify_domain.as_deref(), Some("other.example.com"));
    // the untouched fields stay as they were
    assert_eq!(e.uri.text, "https://example.com");
    assert!(e.user_agent.is_none());
}

#[test]
fn origin_override() {
    let e = Endpoint::from_shared("https://proxy.example.com".to_string()).unwrap();
    let origin = rpc_transport::Uri::parse("https://example.com".to_string()).unwrap();
    let e = e.origin(origin);
    assert_eq!(e.origin.as_ref().unwrap().text, "https://example.com");
}

#[test]
fn user_agent_accepts_header_values() {
    let e = Endpoint::from_shared("https://example.com".to_string()).unwrap();
    let e = e.user_agent(b"Greeter".to_vec()).unwrap();
    assert_eq!(e.user_agent.as_deref(), Some(&b"Greeter"[..]));
}

#[test]
fn user_agent_rejects_invalid_bytes() {
    let e = Endpoint::from_shared("https://example.com".to_string()).unwrap();
    let r = e.user_agent(b"bad\nagent".to_vec());
    assert_eq!(r.unwrap_err(), Error::InvalidUserAgent);
    let e = Endpoint::from_shared("https://example.com".to_string()).unwrap();
    let r = e.user_agent(vec![0x7f]);
    assert_eq!(r.unwrap_err(), Error::InvalidUserAgent);
}

#[test]
fn tls_domain_prefers_explicit_override() {
    let e = Endpoint::from_shared("https://example.com".to_string()).unwrap();
    let e = e.tls_verify_domain("override.example.com".to_string());
    let t = e.tls_connector().unwrap();
    assert_eq!(t.domain, "override.example.com");
}

#[test]
fn tls_domain_derived_from_uri_host() {
    let e = Endpoint::from_shared("https://example.com:50051/svc".to_string()).unwrap();
    let t = e.tls_connector().unwrap();
    assert_eq!(t.domain, "example.com");
}

#[test]
fn tls_domain_missing_host_is_invalid_uri() {
    // a path-only URI parses but carries no host to verify against
    let e = Endpoint::from_shared("/local/path".to_string()).unwrap();
    let r = e.tls_connector();
    assert_eq!(r.unwrap_err(), Error::InvalidUri("/local/path".to_string()));
}

#[test]
fn connect_lazy_yields_handle_synchronously() {
    let e = Endpoint::from_shared("https://example.com".to_string()).unwrap();
    let c = e.connect_lazy().unwrap();
    assert!(matches!(c.backend, Backend::Single(ConnState::Lazy)));
    assert_eq!(c.mailbox.capacity, 1024);
    assert_eq!(c.mailbox.queue.len(), 0);
}

#[test]
fn connect_lazy_respects_configured_buffer() {
    let mut e = Endpoint::from_shared("https://example.com".to_string()).unwrap();
    e.buffer_size = Some(8);
    let c = e.connect_lazy().unwrap();
    assert_eq!(c.mailbox.capacity, 8);
}

#[test]
fn connect_eager_fails_fast_or_connects() {
    let e = Endpoint::from_shared("https://example.com".to_string()).unwrap();
    let c = e.connect(Ok(())).unwrap();
    assert!(matches!(c.backend, Backend::Single(ConnState::Connected)));
    let r = e.connect(Err("connection refused".to_string()));
    assert_eq!(r.unwrap_err(), Error::Other("connection refused".to_string()));
}

#[test]
fn connect_without_domain_is_invalid_uri() {
    let e = Endpoint::from_shared("/local/path".to_string()).unwrap();
    assert_eq!(
        e.connect(Ok(())).unwrap_err(),
        Error::InvalidUri("/local/path".to_string())
    );
    assert_eq!(
        e.connect_lazy().unwrap_err(),
        Error::InvalidUri("/local/path".to_string())
    );
}

#[test]
fn channel_builder_parses_targets() {
    let e = Channel::builder("https://example.com").unwrap();
    assert_eq!(e.uri.text, "https://example.com");
    let e = Channel::builder("https://example.org".to_string()).unwrap();
    assert_eq!(e.uri.text, "https://example.org");
    let r = Channel::builder("not a uri");
    assert!(matches!(r.unwrap_err(), Error::InvalidUri(_)));
}

#[test]
fn timespan_from_millis_splits_correctly() {
    let t = TimeSpan::from_millis(2500);
    assert_eq!(t.secs, 2);
    assert_eq!(t.nanos, 500_000_000);
    let t = TimeSpan::from_millis(999);
    assert_eq!(t.secs, 0);
    assert_eq!(t.nanos, 999_000_000);
}

#[test]
fn error_constructors() {
    assert_eq!(
        Error::new_invalid_uri("x".to_string()),
        Error::InvalidUri("x".to_string())
    );
    assert_eq!(
        Error::from_source("boom".to_string()),
        Error::Other("boom".to_string())
    );
}

#[test]
fn builder_accepts_an_already_parsed_uri() {
    let uri = rpc_transport::Uri::parse("https://example.com".to_string()).unwrap();
    let e = Channel::builder(uri).unwrap();
    assert_eq!(e.uri.text, "https://example.com");
    assert_eq!(e.uri.host.as_deref(), Some("example.com"));
}

#[test]
fn uri_parse_keeps_text_and_extracts_host() {
    let u = rpc_transport::Uri::parse("https://user@example.com:443/a/b?q=1".to_string()).unwrap();
    assert_eq!(u.text, "https://user@example.com:443/a/b?q=1");
    assert_eq!(u.host.as_deref(), Some("example.com"));
    let r = rpc_transport::Uri::parse("\u{7f}".to_string());
    assert!(matches!(r.unwrap_err(), Error::InvalidUri(_)));
}

#[test]
fn lazy_channel_dials_on_first_call_and_survives_failure() {
    let e = Endpoint::from_shared("https://example.com".to_string()).unwrap();
    let mut c = e.connect_lazy().unwrap();
    // the first call's deferred dial fails: that call fails, the channel is unharmed
    let r = c.dial_on_first_call(Err("refused".to_string()));
    assert_eq!(r.unwrap_err(), Error::Other("refused".to_string()));
    assert!(matches!(c.backend, Backend::Single(ConnState::Lazy)));
    // a later call dials again and connects
    assert!(c.dial_on_first_call(Ok(())).is_ok());
    assert!(matches!(c.backend, Backend::Single(ConnState::Connected)));
}
