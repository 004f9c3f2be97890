use deadmock::error::Error;
use deadmock::proxy::Proxy;

#[test]
fn default_is_disabled() {
    let proxy_config = Proxy::default();
    assert!(!proxy_config.use_proxy());
}

#[test]
fn new_sets_url_and_no_credentials() {
    let proxy_config = Proxy::new(true, Some("http://a.proxyurl.com".to_string()));
    assert!(proxy_config.use_proxy());
    assert_eq!(proxy_config.proxy_url(), &Some("http://a.proxyurl.com".to_string()));
    assert!(proxy_config.proxy_username().is_none());
    assert!(proxy_config.proxy_password().is_none());
}

#[test]
fn args_with_url_and_credentials_are_accepted() {
    let proxy_config = Proxy::try_from_args(
        true,
        Some("http://a.proxy.com".to_string()),
        Some("test".to_string()),
        Some("test".to_string()),
    )
    .expect("Not expected to error!");
    assert!(proxy_config.use_proxy());
    assert_eq!(proxy_config.proxy_url(), &Some("http://a.proxy.com".to_string()));
    assert_eq!(proxy_config.proxy_username(), &Some("test".to_string()));
    assert_eq!(proxy_config.proxy_password(), &Some("test".to_string()));
}

#[test]
fn disabled_proxy_needs_no_url() {
    let proxy_config = Proxy::try_from_args(false, None, None, None).expect("Not expected to error!");
    assert!(!proxy_config.use_proxy());
    assert!(proxy_config.proxy_url().is_none());
}

#[test]
fn enabled_proxy_requires_url() {
    let result = Proxy::try_from_args(true, None, None, None);
    assert_eq!(result, Err(Error::InvalidProxyConfig));
    assert_eq!(Error::InvalidProxyConfig.message(), "invalid proxy configuration!");
}
