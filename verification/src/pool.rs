//! A cache from connection configuration to a configured transport client.
//!
//! The pool resolves a connector (the configured one, else a platform
//! default), builds a client from what the connector produces together with
//! the pool's retry and timeout policies, and caches it under the owned form
//! of the key. A key already present is answered from the cache; no entry is
//! ever evicted, and a failed construction leaves the cache exactly as it
//! was.
//!
//! The pool itself is a sequential value. An embedding that shares it among
//! concurrent callers behind a reader/writer lock — reads for
//! [`SmithyClientPool::fetch_existing_client`], a write for
//! [`SmithyClientPool::get_or_create_client`] — gets single-flight
//! construction per key: two callers of the same key never both pay for
//! construction, and later calls return the client the first call cached.

use vstd::prelude::*;

verus! {

use vstd::pervasive::unreached;
use crate::assoc::{as_map, unique_keys, lemma_as_map_index, lemma_as_map_not_contains};
use crate::http_connector::{
    connector_key_eq,
    ConnectorKey,
    ConnectorKeyData,
    DynConnector,
    HttpConnector,
    LoadError,
    MakeConnector,
    SleepImpl,
};

/// Retry policy carried into a constructed client; consumed as opaque
/// configuration here.
#[derive(Debug, Clone, Copy, PartialEq, Eq, Structural)]
pub struct RetryConfig {
    pub max_attempts: u64,
}

impl Default for RetryConfig {
    /// Three attempts in total.
    fn default() -> (r: Self)
        ensures
            r == (RetryConfig { max_attempts: 3 }),
    {
        RetryConfig { max_attempts: 3 }
    }
}

/// Timeout policy carried into a constructed client, in milliseconds; unset
/// means no bound.
#[derive(Debug, Clone, Copy, PartialEq, Eq)]
pub struct TimeoutConfig {
    pub operation_timeout_ms: Option<u64>,
    pub operation_attempt_timeout_ms: Option<u64>,
}

impl Default for TimeoutConfig {
    /// No bound on either timeout.
    fn default() -> (r: Self)
        ensures
            r == (TimeoutConfig {
                operation_timeout_ms: None,
                operation_attempt_timeout_ms: None,
            }),
    {
        TimeoutConfig { operation_timeout_ms: None, operation_attempt_timeout_ms: None }
    }
}

/// A fully configured transport client. A value of this type stands for a
/// handle to one shared client; configuration is fixed at construction time,
/// and an embedding that hands copies out wraps the value in a
/// reference-counted box.
#[derive(Debug, Clone, Copy, PartialEq, Eq)]
pub struct Client {
    pub connector: DynConnector,
    pub retry_config: RetryConfig,
    pub timeout_config: TimeoutConfig,
    pub sleep_impl: Option<SleepImpl>,
}

/// Static configuration of a client pool.
pub struct SmithyClientPoolConf<F> {
    /// An optional timer/sleep capability attached to every built client.
    pub sleep_impl: Option<SleepImpl>,
    /// The preconfigured connector capability, if any.
    pub http_connector: Option<HttpConnector<F>>,
    /// The retry policy applied to built clients; its default when unset.
    pub retry_config: Option<RetryConfig>,
    /// The timeout policy applied to built clients; its default when unset.
    pub timeout_config: Option<TimeoutConfig>,
}

impl<F> SmithyClientPoolConf<F> {
    /// The retry policy a built client gets: the configured one, else the
    /// default of three attempts.
    pub open spec fn effective_retry(&self) -> RetryConfig {
        match self.retry_config {
            Some(r) => r,
            None => RetryConfig { max_attempts: 3 },
        }
    }

    /// The timeout policy a built client gets: the configured one, else no
    /// bounds.
    pub open spec fn effective_timeout(&self) -> TimeoutConfig {
        match self.timeout_config {
            Some(t) => t,
            None => TimeoutConfig { operation_timeout_ms: None, operation_attempt_timeout_ms: None },
        }
    }

    /// The client this pool builds around connector `c`.
    pub open spec fn client_for(&self, c: DynConnector) -> Client {
        Client {
            connector: c,
            retry_config: self.effective_retry(),
            timeout_config: self.effective_timeout(),
            sleep_impl: self.sleep_impl,
        }
    }
}

/// Failure of [`SmithyClientPool::get_or_create_client`]. Every failure is
/// surfaced to the caller; none leaves the cache partially populated.
#[derive(Debug, PartialEq, Eq)]
pub enum PoolError {
    /// No connector was configured and no platform default is available.
    NoAvailableDefault,
    /// Resolving or invoking the connector failed, with the cause.
    ConstructionFailure(LoadError),
}

/// The cache: a mapping from owned connector keys to built clients, plus the
/// static configuration.
pub struct SmithyClientPool<F> {
    pub clients: Vec<(ConnectorKey<'static>, Client)>,
    pub conf: SmithyClientPoolConf<F>,
}

impl<F: MakeConnector> SmithyClientPool<F> {
    /// The cache as key/client pairs.
    pub open spec fn cache_entries(&self) -> Seq<(ConnectorKeyData, Client)> {
        Seq::new(self.clients@.len(), |i: int| (self.clients@[i].0@, self.clients@[i].1))
    }

    /// The cache as a mapping.
    pub open spec fn cache_map(&self) -> Map<ConnectorKeyData, Client> {
        as_map(self.cache_entries())
    }

    /// Each key is cached at most once.
    pub open spec fn wf(&self) -> bool {
        unique_keys(self.cache_entries())
    }

    /// A pool with an empty cache.
    pub fn new(conf: SmithyClientPoolConf<F>) -> (r: Self)
        ensures
            r.wf(),
            r.cache_map() == Map::<ConnectorKeyData, Client>::empty(),
            r.conf == conf,
    {
        let r = SmithyClientPool { clients: Vec::new(), conf };
        proof {
            assert(r.cache_entries() =~= Seq::<(ConnectorKeyData, Client)>::empty());
        }
        r
    }

    /// Looks the key up in the cache and returns its client, if any. Never
    /// changes the cache.
    pub fn fetch_existing_client(&self, connector_key: &ConnectorKey<'_>) -> (r: Option<Client>)
        requires
            self.wf(),
        ensures
            self.cache_map().contains_key(connector_key@) ==> r == Some(
                self.cache_map()[connector_key@],
            ),
            !self.cache_map().contains_key(connector_key@) ==> r is None,
    {
        let mut i: usize = 0;
        while i < self.clients.len()
            invariant
                self.wf(),
                i <= self.clients@.len(),
                forall|j: int| 0 <= j < i ==> self.cache_entries()[j].0 != connector_key@,
            decreases self.clients.len() - i,
        {
            if connector_key_eq(&self.clients[i].0, connector_key) {
                proof {
                    lemma_as_map_index(self.cache_entries(), i as int);
                }
                return Some(self.clients[i].1);
            }
            i += 1;
        }
        proof {
            lemma_as_map_not_contains(self.cache_entries(), connector_key@);
        }
        None
    }

    /// Returns the cached client for the key, never touching the cache on a
    /// hit; on a miss, resolves a connector (the configured one, else the
    /// platform default, failing with [`PoolError::NoAvailableDefault`] when
    /// neither exists), builds a client from its result and the pool's
    /// policies, caches it under the key, and returns it. Every failure is
    /// surfaced and leaves the cache unchanged.
    pub fn get_or_create_client(&mut self, connector_key: &ConnectorKey<'_>) -> (r: Result<
        Client,
        PoolError,
    >)
        requires
            old(self).wf(),
        ensures
            final(self).wf(),
            final(self).conf == old(self).conf,
            old(self).cache_map().contains_key(connector_key@) ==> r == Ok::<Client, PoolError>(
                old(self).cache_map()[connector_key@],
            ) && *final(self) == *old(self),
            r is Err ==> *final(self) == *old(self),
            !old(self).cache_map().contains_key(connector_key@) && old(self).conf.http_connector is None ==> r == Err::<Client, PoolError>(
                PoolError::NoAvailableDefault,
            ),
            !old(self).cache_map().contains_key(connector_key@) ==> (r matches Ok(c) ==> c
                == old(self).conf.client_for(c.connector) && final(self).cache_map() == old(
                self,
            ).cache_map().insert(connector_key@, c)),
            !old(self).cache_map().contains_key(connector_key@) && (old(self).conf.http_connector matches Some(HttpConnector::Prebuilt(None))) ==> r == Err::<
                Client,
                PoolError,
            >(PoolError::ConstructionFailure(LoadError::NoConnectorDefined)),
            !old(self).cache_map().contains_key(connector_key@) ==> (old(
                self,
            ).conf.http_connector matches Some(HttpConnector::Prebuilt(Some(d))) ==> r == Ok::<
                Client,
                PoolError,
            >(old(self).conf.client_for(d))),
    {
        if let Some(client) = self.fetch_existing_client(connector_key) {
            return Ok(client);
        }
        let owned = ConnectorKey {
            make_connector_settings: crate::http_connector::MaybeOwnedSettings::Owned(
                *connector_key.make_connector_settings.get(),
            ),
            http_version: connector_key.http_version,
        };
        self.initialize_and_store_new_client(owned)
    }

    /// Builds, caches and returns the client for a key that is not cached
    /// yet. Construction happens before the cache is touched; a failure
    /// leaves it untouched.
    fn initialize_and_store_new_client(&mut self, connector_key: ConnectorKey<'static>) -> (r:
        Result<Client, PoolError>)
        requires
            old(self).wf(),
            !old(self).cache_map().contains_key(connector_key@),
        ensures
            final(self).wf(),
            final(self).conf == old(self).conf,
            r is Err ==> *final(self) == *old(self),
            old(self).conf.http_connector is None ==> r == Err::<Client, PoolError>(
                PoolError::NoAvailableDefault,
            ),
            r matches Ok(c) ==> c == old(self).conf.client_for(c.connector) && final(self).cache_map() == old(self).cache_map().insert(connector_key@, c),
            old(self).conf.http_connector matches Some(HttpConnector::Prebuilt(None)) ==> r
                == Err::<Client, PoolError>(
                PoolError::ConstructionFailure(LoadError::NoConnectorDefined),
            ),
            old(self).conf.http_connector matches Some(HttpConnector::Prebuilt(Some(d))) ==> r
                == Ok::<Client, PoolError>(old(self).conf.client_for(d)),
    {
        let sleep_impl = self.conf.sleep_impl;
        let connector: DynConnector = match &self.conf.http_connector {
            Some(connector) => {
                match connector.load(connector_key.make_connector_settings.get(), sleep_impl) {
                    Ok(c) => c,
                    Err(e) => {
                        return Err(PoolError::ConstructionFailure(e));
                    },
                }
            },
            None => {
                match HttpConnector::<F>::try_default() {
                    Ok(_) => unreached(),
                    Err(_) => {
                        return Err(PoolError::NoAvailableDefault);
                    },
                }
            },
        };
        let retry_config = match self.conf.retry_config {
            Some(rc) => rc,
            None => RetryConfig::default(),
        };
        let timeout_config = match self.conf.timeout_config {
            Some(tc) => tc,
            None => TimeoutConfig::default(),
        };
        let client = Client { connector, retry_config, timeout_config, sleep_impl };
        let ghost e0 = self.cache_entries();
        let ghost key_data = connector_key@;
        self.clients.push((connector_key, client));
        proof {
            let ne = self.cache_entries();
            assert(ne.drop_last() =~= e0);
            assert(ne.last() == (key_data, client));
            assert forall|j: int| 0 <= j < e0.len() implies e0[j].0 != key_data by {
                if e0[j].0 == key_data {
                    lemma_as_map_index(e0, j);
                }
            }
            assert forall|a: int, b: int| 0 <= a < b < ne.len() implies ne[a].0 != ne[b].0 by {
                if b < ne.len() - 1 {
                    assert(ne[a] == e0[a] && ne[b] == e0[b]);
                } else {
                    assert(ne[a] == e0[a] && ne[b].0 == key_data);
                }
            }
        }
        Ok(client)
    }
}

} // verus!
