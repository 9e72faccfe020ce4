use vstd::prelude::*;
use crate::config::{
    AppConfig, AppDataStoreCfg, AppDbServerCfg, AppInMemoryDbCfg, AppLoggingCfg, AppRpcCfg,
};

verus! {

/// Logging context shared by every task: the validated logging setup it
/// was built from.
#[derive(Clone, Debug, PartialEq, Eq)]
pub struct AppLogContext {
    pub cfg: AppLoggingCfg,
}

/// RPC context shared by every task: which broker flavour it talks to.
#[derive(Clone, Copy, Debug, PartialEq, Eq, Structural)]
pub struct AppRpcContext {
    pub cfg: AppRpcCfg,
}

/// Where the authentication keys are read from.
#[derive(Clone, Debug, PartialEq, Eq)]
pub struct AppAuthKeystore {
    pub source: String,
}

/// The data stores the repositories may draw on: at most one in-memory
/// store and any number of SQL servers, each present only where
/// configured.
#[derive(Clone, Debug, PartialEq, Eq)]
pub struct AppDataStoreContext {
    pub in_mem: Option<AppInMemoryDbCfg>,
    pub sql_dbs: Option<Vec<AppDbServerCfg>>,
}

/// Global state shared by all worker tasks, immutable after construction.
#[derive(Clone, Debug)]
pub struct AppSharedState {
    _cfg: AppConfig,
    _log: AppLogContext,
    _rpc: AppRpcContext,
    dstore: AppDataStoreContext,
    _auth_keys: AppAuthKeystore,
}

/// The in-memory store entry of a configured data-store list: the first
/// `InMemory` element, if any.
pub open spec fn spec_first_in_mem(s: Seq<AppDataStoreCfg>) -> Option<AppInMemoryDbCfg>
    decreases s.len(),
{
    if s.len() == 0 {
        None
    } else {
        match s[0] {
            AppDataStoreCfg::InMemory(c) => Some(c),
            AppDataStoreCfg::DbServer(_) => spec_first_in_mem(s.skip(1)),
        }
    }
}

impl AppSharedState {
    pub closed spec fn spec_config(self) -> AppConfig {
        self._cfg
    }

    pub closed spec fn spec_datastore(self) -> AppDataStoreContext {
        self.dstore
    }

    pub closed spec fn spec_log(self) -> AppLogContext {
        self._log
    }

    pub closed spec fn spec_rpc(self) -> AppRpcContext {
        self._rpc
    }

    pub closed spec fn spec_auth_keys(self) -> AppAuthKeystore {
        self._auth_keys
    }

    /// Builds the shared state from a validated configuration: the log
    /// and RPC contexts take their sections, the data-store context takes
    /// the first in-memory entry and all SQL servers, and the keystore
    /// reads from the system base path.
    #[verifier::loop_isolation(false)]
    pub fn new(cfg: AppConfig, log: AppLogContext) -> (r: AppSharedState)
        ensures
            r.spec_config() == cfg,
            r.spec_log() == log,
            r.spec_rpc() == (AppRpcContext { cfg: cfg.api_server.rpc }),
            r.spec_datastore().in_mem == spec_first_in_mem(cfg.api_server.data_store@),
            r.spec_auth_keys().source@ == cfg.basepath.system@,
    {
        let rpc = AppRpcContext { cfg: cfg.api_server.rpc };
        let mut in_mem: Option<AppInMemoryDbCfg> = None;
        let mut sql: Vec<AppDbServerCfg> = Vec::new();
        let n = cfg.api_server.data_store.len();
        let mut i: usize = 0;
        proof {
            assert(cfg.api_server.data_store@.skip(0int) =~= cfg.api_server.data_store@);
        }
        while i < n
            invariant
                0 <= i <= n,
                spec_first_in_mem(cfg.api_server.data_store@) == (match in_mem {
                    Some(c) => Some(c),
                    None => spec_first_in_mem(cfg.api_server.data_store@.skip(i as int)),
                }),
            decreases n - i,
        {
            proof {
                let rest = cfg.api_server.data_store@.skip(i as int);
                assert(rest[0] == cfg.api_server.data_store@[i as int]);
                assert(rest.skip(1) =~= cfg.api_server.data_store@.skip(i + 1int));
            }
            match &cfg.api_server.data_store[i] {
                AppDataStoreCfg::InMemory(c) => {
                    if in_mem.is_none() {
                        let copied = AppInMemoryDbCfg { alias: c.alias.clone(), max_items: c.max_items };
                        proof {
                            assert(copied == *c);
                        }
                        in_mem = Some(copied);
                    }
                },
                AppDataStoreCfg::DbServer(c) => {
                    sql.push(
                        AppDbServerCfg {
                            alias: c.alias.clone(),
                            srv_type: c.srv_type,
                            max_conns: c.max_conns,
                            idle_timeout_secs: c.idle_timeout_secs,
                        },
                    );
                },
            }
            i = i + 1;
        }
        proof {
            assert(cfg.api_server.data_store@.skip(n as int) =~= Seq::<AppDataStoreCfg>::empty());
        }
        let sql_dbs = if sql.len() > 0 {
            Some(sql)
        } else {
            None
        };
        let auth_keys = AppAuthKeystore { source: cfg.basepath.system.clone() };
        AppSharedState {
            _cfg: cfg,
            _log: log,
            _rpc: rpc,
            dstore: AppDataStoreContext { in_mem, sql_dbs },
            _auth_keys: auth_keys,
        }
    }

    pub fn config(&self) -> (r: &AppConfig)
        ensures
            *r == self.spec_config(),
    {
        &self._cfg
    }

    pub fn log_context(&self) -> (r: &AppLogContext)
        ensures
            *r == self.spec_log(),
    {
        &self._log
    }

    pub fn rpc(&self) -> (r: AppRpcContext)
        ensures
            r == self.spec_rpc(),
    {
        self._rpc
    }

    pub fn datastore(&self) -> (r: &AppDataStoreContext)
        ensures
            *r == self.spec_datastore(),
    {
        &self.dstore
    }

    pub fn auth_keystore(&self) -> (r: &AppAuthKeystore)
        ensures
            *r == self.spec_auth_keys(),
    {
        &self._auth_keys
    }
}

} // verus!
