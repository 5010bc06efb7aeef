//! The connector capability and the connection-relevant configuration that
//! keys the client cache: either a prebuilt transport connector or a factory
//! invoked whenever a new one is needed, dispatched through a single `load`
//! contract.

use vstd::prelude::*;

verus! {

/// A desired HTTP protocol version.
#[derive(Debug, Clone, Copy, PartialEq, Eq, Structural)]
pub enum HttpVersion {
    Http09,
    Http10,
    Http11,
    H2,
    H3,
}

pub fn http_version_eq(a: HttpVersion, b: HttpVersion) -> (r: bool)
    ensures
        r == (a == b),
{
    match (a, b) {
        (HttpVersion::Http09, HttpVersion::Http09) => true,
        (HttpVersion::Http10, HttpVersion::Http10) => true,
        (HttpVersion::Http11, HttpVersion::Http11) => true,
        (HttpVersion::H2, HttpVersion::H2) => true,
        (HttpVersion::H3, HttpVersion::H3) => true,
        _ => false,
    }
}

pub fn opt_u64_eq(a: Option<u64>, b: Option<u64>) -> (r: bool)
    ensures
        r == (a == b),
{
    match (a, b) {
        (None, None) => true,
        (Some(x), Some(y)) => x == y,
        _ => false,
    }
}

/// Timeouts used when making HTTP requests, in milliseconds; an unset bound
/// means no limit.
#[derive(Debug, Clone, Copy, PartialEq, Eq)]
pub struct HttpTimeoutConfig {
    pub connect_timeout_ms: Option<u64>,
    pub read_timeout_ms: Option<u64>,
}

impl Default for HttpTimeoutConfig {
    /// No bound on either timeout.
    fn default() -> (r: Self)
        ensures
            r == (HttpTimeoutConfig { connect_timeout_ms: None, read_timeout_ms: None }),
    {
        HttpTimeoutConfig { connect_timeout_ms: None, read_timeout_ms: None }
    }
}

/// Timeouts used when creating TCP connections, in milliseconds.
#[derive(Debug, Clone, Copy, PartialEq, Eq)]
pub struct TcpTimeoutConfig {
    pub connect_timeout_ms: Option<u64>,
    pub read_timeout_ms: Option<u64>,
}

impl Default for TcpTimeoutConfig {
    /// No bound on either timeout.
    fn default() -> (r: Self)
        ensures
            r == (TcpTimeoutConfig { connect_timeout_ms: None, read_timeout_ms: None }),
    {
        TcpTimeoutConfig { connect_timeout_ms: None, read_timeout_ms: None }
    }
}

/// Settings used to create new HTTP connectors.
#[derive(Debug, Clone, Copy, PartialEq, Eq)]
pub struct MakeConnectorSettings {
    /// Timeout configuration used when making HTTP connections.
    pub http_timeout_config: HttpTimeoutConfig,
    /// Timeout configuration used when creating TCP connections.
    pub tcp_timeout_config: TcpTimeoutConfig,
}

impl Default for MakeConnectorSettings {
    /// Both timeout configurations unset.
    fn default() -> (r: Self)
        ensures
            r == (MakeConnectorSettings {
                http_timeout_config: HttpTimeoutConfig {
                    connect_timeout_ms: None,
                    read_timeout_ms: None,
                },
                tcp_timeout_config: TcpTimeoutConfig {
                    connect_timeout_ms: None,
                    read_timeout_ms: None,
                },
            }),
    {
        MakeConnectorSettings {
            http_timeout_config: HttpTimeoutConfig {
                connect_timeout_ms: None,
                read_timeout_ms: None,
            },
            tcp_timeout_config: TcpTimeoutConfig {
                connect_timeout_ms: None,
                read_timeout_ms: None,
            },
        }
    }
}

impl MakeConnectorSettings {
    /// Set the HTTP timeouts to be used when making HTTP connections.
    pub fn with_http_timeout_config(self, http_timeout_config: HttpTimeoutConfig) -> (r: Self)
        ensures
            r.http_timeout_config == http_timeout_config,
            r.tcp_timeout_config == self.tcp_timeout_config,
    {
        MakeConnectorSettings { http_timeout_config, tcp_timeout_config: self.tcp_timeout_config }
    }

    /// Set the TCP timeouts to be used when creating TCP connections.
    pub fn with_tcp_timeout_config(self, tcp_timeout_config: TcpTimeoutConfig) -> (r: Self)
        ensures
            r.tcp_timeout_config == tcp_timeout_config,
            r.http_timeout_config == self.http_timeout_config,
    {
        MakeConnectorSettings { http_timeout_config: self.http_timeout_config, tcp_timeout_config }
    }
}

pub fn http_timeout_config_eq(a: &HttpTimeoutConfig, b: &HttpTimeoutConfig) -> (r: bool)
    ensures
        r == (a == b),
{
    opt_u64_eq(a.connect_timeout_ms, b.connect_timeout_ms) && opt_u64_eq(
        a.read_timeout_ms,
        b.read_timeout_ms,
    )
}

pub fn tcp_timeout_config_eq(a: &TcpTimeoutConfig, b: &TcpTimeoutConfig) -> (r: bool)
    ensures
        r == (a == b),
{
    opt_u64_eq(a.connect_timeout_ms, b.connect_timeout_ms) && opt_u64_eq(
        a.read_timeout_ms,
        b.read_timeout_ms,
    )
}

pub fn settings_eq(a: &MakeConnectorSettings, b: &MakeConnectorSettings) -> (r: bool)
    ensures
        r == (a == b),
{
    http_timeout_config_eq(&a.http_timeout_config, &b.http_timeout_config)
        && tcp_timeout_config_eq(&a.tcp_timeout_config, &b.tcp_timeout_config)
}

/// Stands for a ready transport connector. The identifier distinguishes
/// connector instances; the embedding maps it to a real transport.
#[derive(Debug, Clone, Copy, PartialEq, Eq, Structural)]
pub struct DynConnector {
    pub id: u64,
}

/// Stands for a shared timer/sleep capability. It is only passed through,
/// never invoked here; the embedding maps the identifier to a real timer.
#[derive(Debug, Clone, Copy, PartialEq, Eq, Structural)]
pub struct SleepImpl {
    pub id: u64,
}

/// A user-supplied factory for transport connectors, given the connection
/// settings and an optional timer capability. Nothing is assumed of what an
/// implementation returns; callers state what holds of every outcome.
pub trait MakeConnector {
    fn make_connector(
        &self,
        settings: &MakeConnectorSettings,
        sleep: Option<SleepImpl>,
    ) -> Result<DynConnector, String>;
}

/// A factory that always hands out the same connector.
pub struct FixedConnector {
    pub connector: DynConnector,
}

impl MakeConnector for FixedConnector {
    fn make_connector(
        &self,
        _settings: &MakeConnectorSettings,
        _sleep: Option<SleepImpl>,
    ) -> Result<DynConnector, String> {
        Ok(self.connector)
    }
}

/// Errors related to the creation and use of connectors.
#[derive(Debug, PartialEq, Eq, Structural)]
pub enum HttpConnectorError {
    /// Tried to create a connector from defaults, but no default transport
    /// implementation is available.
    NoAvailableDefault,
    /// Expected a connector to be set but none was set.
    NoConnectorDefined,
    /// Expected at least one acceptable HTTP version but none was given.
    NoHttpVersionsSpecified,
}

impl HttpConnectorError {
    /// A human-readable description of the error.
    pub fn message(&self) -> (r: &'static str)
        ensures
            *self == HttpConnectorError::NoAvailableDefault ==> r@
                == "When default features are disabled, an HttpConnector must be set manually."@,
            *self == HttpConnectorError::NoConnectorDefined ==> r@ == "No connector was defined"@,
            *self == HttpConnectorError::NoHttpVersionsSpecified ==> r@
                == "Couldn't get or create a client because no HTTP versions were specified as valid."@,
    {
        match self {
            HttpConnectorError::NoAvailableDefault => {
                "When default features are disabled, an HttpConnector must be set manually."
            },
            HttpConnectorError::NoConnectorDefined => "No connector was defined",
            HttpConnectorError::NoHttpVersionsSpecified => {
                "Couldn't get or create a client because no HTTP versions were specified as valid."
            },
        }
    }
}

/// Failure of [`HttpConnector::load`].
#[derive(Debug, PartialEq, Eq)]
pub enum LoadError {
    /// The capability was explicitly empty: a connector was expected but none
    /// is resolvable.
    NoConnectorDefined,
    /// The factory failed, with its message.
    Factory(String),
}

/// The two kinds of connector capability: a prebuilt connector used for all
/// requests, or a factory that builds a new connector whenever one is needed.
pub enum HttpConnector<F> {
    /// A connector to be used for all requests, or explicitly none, which is
    /// an unsupported configuration and fails loudly on `load`.
    Prebuilt(Option<DynConnector>),
    /// A factory invoked to create a new connector whenever one is needed.
    ConnectorFn(F),
}

impl<F: MakeConnector> HttpConnector<F> {
    /// Prebuilt connectors are returned as they are; an explicitly empty
    /// capability fails; a factory is invoked and its result passed on.
    pub fn load(
        &self,
        settings: &MakeConnectorSettings,
        sleep: Option<SleepImpl>,
    ) -> (r: Result<DynConnector, LoadError>)
        ensures
            *self matches HttpConnector::Prebuilt(Some(c)) ==> r == Ok::<DynConnector, LoadError>(
                c,
            ),
            *self matches HttpConnector::Prebuilt(None) <==> r == Err::<DynConnector, LoadError>(
                LoadError::NoConnectorDefined,
            ),
    {
        match self {
            HttpConnector::Prebuilt(Some(conn)) => Ok(*conn),
            HttpConnector::Prebuilt(None) => Err(LoadError::NoConnectorDefined),
            HttpConnector::ConnectorFn(func) => {
                match func.make_connector(settings, sleep) {
                    Ok(conn) => Ok(conn),
                    Err(e) => Err(LoadError::Factory(e)),
                }
            },
        }
    }

    /// Attempts to produce a platform default. No default transport
    /// implementation is compiled into this library, so this always fails
    /// with [`HttpConnectorError::NoAvailableDefault`].
    pub fn try_default() -> (r: Result<Self, HttpConnectorError>)
        ensures
            r matches Err(e) && e == HttpConnectorError::NoAvailableDefault,
    {
        Err(HttpConnectorError::NoAvailableDefault)
    }
}

/// Connection settings either borrowed from the caller or owned.
#[derive(Debug)]
pub enum MaybeOwnedSettings<'a> {
    Borrowed(&'a MakeConnectorSettings),
    Owned(MakeConnectorSettings),
}

impl<'a> MaybeOwnedSettings<'a> {
    pub open spec fn value(&self) -> MakeConnectorSettings {
        match self {
            MaybeOwnedSettings::Borrowed(s) => **s,
            MaybeOwnedSettings::Owned(s) => *s,
        }
    }

    pub fn get(&self) -> (r: &MakeConnectorSettings)
        ensures
            *r == self.value(),
    {
        match self {
            MaybeOwnedSettings::Borrowed(s) => s,
            MaybeOwnedSettings::Owned(s) => s,
        }
    }
}

/// The connection-relevant configuration under which a client is cached.
#[derive(Debug)]
pub struct ConnectorKey<'a> {
    /// The settings that were used to create the client this key points to.
    pub make_connector_settings: MaybeOwnedSettings<'a>,
    /// The desired HTTP version that was used to create that client.
    pub http_version: HttpVersion,
}

/// The mathematical content of a [`ConnectorKey`], free of borrowing.
pub ghost struct ConnectorKeyData {
    pub make_connector_settings: MakeConnectorSettings,
    pub http_version: HttpVersion,
}

impl<'a> View for ConnectorKey<'a> {
    type V = ConnectorKeyData;

    open spec fn view(&self) -> ConnectorKeyData {
        ConnectorKeyData {
            make_connector_settings: self.make_connector_settings.value(),
            http_version: self.http_version,
        }
    }
}

impl<'a> ConnectorKey<'a> {
    /// The owned projection of this key: the same configuration, independent
    /// of any borrowed lifetime, fit to be held beyond the current call.
    pub fn into_owned(self) -> (r: ConnectorKey<'static>)
        ensures
            r@ == self@,
    {
        ConnectorKey {
            make_connector_settings: MaybeOwnedSettings::Owned(
                *self.make_connector_settings.get(),
            ),
            http_version: self.http_version,
        }
    }
}

pub fn connector_key_eq(a: &ConnectorKey<'_>, b: &ConnectorKey<'_>) -> (r: bool)
    ensures
        r == (a@ == b@),
{
    settings_eq(a.make_connector_settings.get(), b.make_connector_settings.get())
        && http_version_eq(a.http_version, b.http_version)
}

} // verus!
