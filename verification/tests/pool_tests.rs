use smithy_core::http_connector::{
    ConnectorKey, DynConnector, FixedConnector, HttpConnector, HttpConnectorError, HttpVersion,
    LoadError, MakeConnector, MakeConnectorSettings, MaybeOwnedSettings, SleepImpl,
};
use smithy_core::pool::{
    Client, PoolError, RetryConfig, SmithyClientPool, SmithyClientPoolConf, TimeoutConfig,
};

fn key() -> ConnectorKey<'static> {
    ConnectorKey {
        make_connector_settings: MaybeOwnedSettings::Owned(MakeConnectorSettings::default()),
        http_version: HttpVersion::Http11,
    }
}

fn conf_with(connector: Option<HttpConnector<FixedConnector>>) -> SmithyClientPoolConf<FixedConnector> {
    SmithyClientPoolConf {
        sleep_impl: None,
        http_connector: connector,
        retry_config: None,
        timeout_config: None,
    }
}

#[test]
fn test_client_pool_creation() {
    let mut client_pool = SmithyClientPool::new(conf_with(None));
    let client = client_pool.get_or_create_client(&key());
    assert_eq!(client, Err(PoolError::NoAvailableDefault));
}

#[test]
fn no_connector_and_no_default_yields_no_available_default() {
    let mut pool = SmithyClientPool::new(conf_with(None));
    assert_eq!(
        pool.get_or_create_client(&key()),
        Err(PoolError::NoAvailableDefault)
    );
    // the failure left the cache empty: a later call fails the same way
    assert_eq!(
        pool.get_or_create_client(&key()),
        Err(PoolError::NoAvailableDefault)
    );
}

#[test]
fn sequential_calls_with_same_key_share_the_client() {
    let prebuilt = DynConnector { id: 7 };
    let mut pool = SmithyClientPool::new(conf_with(Some(HttpConnector::Prebuilt(Some(prebuilt)))));
    let first = pool.get_or_create_client(&key()).expect("builds");
    let second = pool.get_or_create_client(&key()).expect("cached");
    assert_eq!(first, second);
    assert_eq!(first.connector, prebuilt);
}

#[test]
fn built_client_carries_effective_policies() {
    let prebuilt = DynConnector { id: 1 };
    let sleep = SleepImpl { id: 4 };
    let conf = SmithyClientPoolConf::<FixedConnector> {
        sleep_impl: Some(sleep),
        http_connector: Some(HttpConnector::Prebuilt(Some(prebuilt))),
        retry_config: None,
        timeout_config: Some(TimeoutConfig {
            operation_timeout_ms: Some(30_000),
            operation_attempt_timeout_ms: None,
        }),
    };
    let mut pool = SmithyClientPool::new(conf);
    let client = pool.get_or_create_client(&key()).expect("builds");
    assert_eq!(
        client,
        Client {
            connector: prebuilt,
            retry_config: RetryConfig { max_attempts: 3 },
            timeout_config: TimeoutConfig {
                operation_timeout_ms: Some(30_000),
                operation_attempt_timeout_ms: None,
            },
            sleep_impl: Some(sleep),
        }
    );
}

#[test]
fn factory_connector_is_invoked_on_miss() {
    let factory = FixedConnector { connector: DynConnector { id: 42 } };
    let mut pool = SmithyClientPool::new(conf_with(Some(HttpConnector::ConnectorFn(factory))));
    let client = pool.get_or_create_client(&key()).expect("factory builds");
    assert_eq!(client.connector, DynConnector { id: 42 });
}

#[test]
fn empty_prebuilt_fails_loudly() {
    let mut pool = SmithyClientPool::new(conf_with(Some(HttpConnector::Prebuilt(None))));
    let got = pool.get_or_create_client(&key());
    assert_eq!(
        got,
        Err(PoolError::ConstructionFailure(
            LoadError::NoConnectorDefined
        ))
    );
}

#[test]
fn fetch_existing_client_misses_on_empty_pool() {
    let pool = SmithyClientPool::new(conf_with(None));
    assert!(pool.fetch_existing_client(&key()).is_none());
}

#[test]
fn distinct_keys_get_distinct_entries() {
    struct CountingFactory;
    impl MakeConnector for CountingFactory {
        fn make_connector(
            &self,
            settings: &MakeConnectorSettings,
            _sleep: Option<SleepImpl>,
        ) -> Result<DynConnector, String> {
            let id = match settings.http_timeout_config.connect_timeout_ms {
                Some(ms) => ms,
                None => 0,
            };
            Ok(DynConnector { id })
        }
    }
    let conf = SmithyClientPoolConf {
        sleep_impl: None,
        http_connector: Some(HttpConnector::ConnectorFn(CountingFactory)),
        retry_config: None,
        timeout_config: None,
    };
    let mut pool = SmithyClientPool::new(conf);
    let key_a = key();
    let mut settings_b = MakeConnectorSettings::default();
    settings_b.http_timeout_config.connect_timeout_ms = Some(5);
    let key_b = ConnectorKey {
        make_connector_settings: MaybeOwnedSettings::Owned(settings_b),
        http_version: HttpVersion::Http11,
    };
    let a = pool.get_or_create_client(&key_a).expect("builds");
    let b = pool.get_or_create_client(&key_b).expect("builds");
    assert_eq!(a.connector.id, 0);
    assert_eq!(b.connector.id, 5);
    assert_eq!(pool.get_or_create_client(&key_a).expect("cached"), a);
    assert_eq!(pool.get_or_create_client(&key_b).expect("cached"), b);
}

#[test]
fn connector_key_into_owned_preserves_configuration() {
    let settings = MakeConnectorSettings::default();
    let borrowed = ConnectorKey {
        make_connector_settings: MaybeOwnedSettings::Borrowed(&settings),
        http_version: HttpVersion::H2,
    };
    let owned = borrowed.into_owned();
    assert_eq!(owned.http_version, HttpVersion::H2);
    assert_eq!(*owned.make_connector_settings.get(), settings);
}

#[test]
fn try_default_reports_no_available_default() {
    let got = HttpConnector::<FixedConnector>::try_default();
    assert!(matches!(got, Err(HttpConnectorError::NoAvailableDefault)));
}
