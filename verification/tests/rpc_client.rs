use nucleus_dashboard_api::config;
use nucleus_dashboard_api::rpc_client::{
    abi_endpoint, HealthAction, HealthCheck, HealthProbe, RpcClientBuilder, RpcClientConfig,
    Transport,
};

#[test]
fn test_rpc_client_builder() {
    let config = RpcClientConfig {
        url: config::DEFAULT_RPC_URL.to_string(),
        timeout: 30,
        max_request_size: 1024 * 1024,
        max_response_size: 1024 * 1024,
        use_websocket: false,
    };

    let builder = RpcClientBuilder::new()
        .url(config::DEFAULT_RPC_URL)
        .timeout(30)
        .max_request_size(1024 * 1024)
        .max_response_size(1024 * 1024)
        .use_websocket(false);

    assert_eq!(builder.config.url, config.url);
    assert_eq!(builder.config.timeout, config.timeout);
}

#[test]
fn test_config_default() {
    let config = RpcClientConfig::default();
    assert_eq!(config.url, config::DEFAULT_RPC_URL);
    assert_eq!(config.timeout, 30);
    assert!(!config.use_websocket);
}

#[test]
fn default_config_limits_bodies_to_ten_mebibytes() {
    let config = RpcClientConfig::default();
    assert_eq!(config.max_request_size, 10 * 1024 * 1024);
    assert_eq!(config.max_response_size, 10 * 1024 * 1024);
    assert_eq!(config.transport(), Transport::Http);
}

#[test]
fn builder_new_equals_default_builder() {
    let a = RpcClientBuilder::new();
    let b = RpcClientBuilder::default();
    assert_eq!(a.config.url, b.config.url);
    assert_eq!(a.config.timeout, b.config.timeout);
    assert_eq!(a.config.max_request_size, b.config.max_request_size);
    assert_eq!(a.config.max_response_size, b.config.max_response_size);
    assert_eq!(a.config.use_websocket, b.config.use_websocket);
}

#[test]
fn each_setter_changes_only_its_own_setting() {
    let b = RpcClientBuilder::new().url("ws://127.0.0.1:9944");
    assert_eq!(b.config.url, "ws://127.0.0.1:9944");
    assert_eq!(b.config.timeout, 30);
    let b = b.timeout(5);
    assert_eq!(b.config.timeout, 5);
    assert_eq!(b.config.url, "ws://127.0.0.1:9944");
    let b = b.max_request_size(7);
    assert_eq!(b.config.max_request_size, 7);
    assert_eq!(b.config.max_response_size, 10 * 1024 * 1024);
    let b = b.max_response_size(9);
    assert_eq!(b.config.max_response_size, 9);
    assert_eq!(b.config.max_request_size, 7);
    let b = b.use_websocket(true);
    assert!(b.config.use_websocket);
    assert_eq!(b.config.transport(), Transport::WebSocket);
    assert_eq!(b.config.timeout, 5);
    assert_eq!(b.config.url, "ws://127.0.0.1:9944");
}

#[test]
fn last_setting_of_a_field_wins() {
    let b = RpcClientBuilder::new().timeout(1).timeout(2).url("a://b").url("c://d");
    assert_eq!(b.config.timeout, 2);
    assert_eq!(b.config.url, "c://d");
}

#[test]
fn health_check_healthy_on_first_probe() {
    let (mut check, first) = HealthCheck::start();
    assert_eq!(first, HealthAction::Call(HealthProbe::RpcMethods));
    assert_eq!(HealthProbe::RpcMethods.method(), "rpc_methods");
    assert_eq!(check.on_outcome(true), HealthAction::Report(true));
}

#[test]
fn health_check_falls_back_to_net_version() {
    let (mut check, _) = HealthCheck::start();
    let next = check.on_outcome(false);
    assert_eq!(next, HealthAction::Call(HealthProbe::NetVersion));
    assert_eq!(HealthProbe::NetVersion.method(), "net_version");
    assert_eq!(check.on_outcome(true), HealthAction::Report(true));
}

#[test]
fn health_check_unhealthy_when_both_probes_fail() {
    let (mut check, _) = HealthCheck::start();
    assert_eq!(check.on_outcome(false), HealthAction::Call(HealthProbe::NetVersion));
    assert_eq!(check.on_outcome(false), HealthAction::Report(false));
}

#[test]
fn abi_endpoint_uses_host_of_default_url() {
    assert_eq!(
        abi_endpoint(config::DEFAULT_RPC_URL, "abc"),
        "http://rpc.beta.verisense.network:9955/abc"
    );
}

#[test]
fn abi_endpoint_drops_port_of_chain_url() {
    assert_eq!(
        abi_endpoint("ws://127.0.0.1:9944", "5Nucleus"),
        "http://127.0.0.1:9955/5Nucleus"
    );
}

#[test]
fn abi_endpoint_stops_host_at_second_scheme_marker() {
    assert_eq!(abi_endpoint("a://host://rest", "x"), "http://host:9955/x");
    assert_eq!(abi_endpoint("x://", ""), "http://:9955/");
}
