use windows_service::rpc::MullvadRpcFactory;

#[test]
fn api_uri_uses_host_name_without_cache() {
    let factory = MullvadRpcFactory::new();
    assert!(factory.address_cache.is_none());
    assert_eq!(factory.api_uri(), "https://api.mullvad.net/rpc/");
}

#[test]
fn api_uri_uses_cached_address() {
    let factory = MullvadRpcFactory::with_cached_address(String::from("193.138.219.46"));
    assert_eq!(factory.api_uri(), "https://193.138.219.46/rpc/");
}
