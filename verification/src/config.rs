use vstd::prelude::*;
use crate::error::{AppError, AppErrorCode};

verus! {

/// Severity a log handler or logger accepts.
#[derive(Clone, Copy, Debug, PartialEq, Eq, Structural)]
pub enum AppLogLevelCfg {
    ERROR,
    WARNING,
    INFO,
    DEBUG,
}

/// Where a log handler writes.
#[derive(Clone, Copy, Debug, PartialEq, Eq, Structural)]
pub enum AppLogDestinationCfg {
    CONSOLE,
    LOCALFS,
}

#[derive(Clone, Debug, PartialEq, Eq)]
pub struct AppLogHandlerCfg {
    pub min_level: AppLogLevelCfg,
    pub destination: AppLogDestinationCfg,
    pub alias: String,
    pub path: Option<String>,
}

#[derive(Clone, Debug, PartialEq, Eq)]
pub struct AppLoggerCfg {
    pub alias: String,
    pub handlers: Vec<String>,
    pub level: Option<AppLogLevelCfg>,
}

#[derive(Clone, Debug, PartialEq, Eq)]
pub struct AppLoggingCfg {
    pub handlers: Vec<AppLogHandlerCfg>,
    pub loggers: Vec<AppLoggerCfg>,
}

#[derive(Clone, Debug, PartialEq, Eq)]
pub struct ApiServerRouteCfg {
    pub path: String,
    pub handler: String,
}

#[derive(Clone, Debug, PartialEq, Eq)]
pub struct ApiServerListenCfg {
    pub api_version: String,
    pub host: String,
    pub port: u16,
    pub max_failures: u8,
    pub routes: Vec<ApiServerRouteCfg>,
}

#[derive(Clone, Copy, Debug, PartialEq, Eq, Structural)]
pub enum AppRpcTypeCfg {
    dummy,
    AMQP,
}

#[derive(Clone, Copy, Debug, PartialEq, Eq, Structural)]
pub struct AppRpcCfg {
    pub handler_type: AppRpcTypeCfg,
}

#[derive(Clone, Copy, Debug, PartialEq, Eq, Structural)]
pub enum AppDbServerType {
    MariaDB,
    PostgreSQL,
}

#[derive(Clone, Debug, PartialEq, Eq)]
pub struct AppInMemoryDbCfg {
    pub alias: String,
    pub max_items: u32,
}

#[derive(Clone, Debug, PartialEq, Eq)]
pub struct AppDbServerCfg {
    pub alias: String,
    pub srv_type: AppDbServerType,
    pub max_conns: u32,
    pub idle_timeout_secs: u16,
}

#[derive(Clone, Debug, PartialEq, Eq)]
pub enum AppDataStoreCfg {
    InMemory(AppInMemoryDbCfg),
    DbServer(AppDbServerCfg),
}

#[derive(Clone, Debug, PartialEq, Eq)]
pub struct ApiServerCfg {
    pub logging: AppLoggingCfg,
    pub listen: ApiServerListenCfg,
    pub max_connections: u32,
    pub limit_req_body_in_bytes: u32,
    pub num_workers: u8,
    pub stack_sz_kb: u16,
    pub data_store: Vec<AppDataStoreCfg>,
    pub rpc: AppRpcCfg,
}

#[derive(Clone, Debug, PartialEq, Eq)]
pub struct AppBasepathCfg {
    pub system: String,
    pub service: String,
}

/// Command-line and environment inputs the service starts from; each is
/// present only where the launcher supplied it.
#[derive(Clone, Debug, PartialEq, Eq)]
pub struct AppCmdArgs {
    pub sys_base_path: Option<String>,
    pub service_base_path: Option<String>,
    pub secret_file_path: Option<String>,
    pub config_file_path: Option<String>,
}

/// The service's whole validated configuration.
#[derive(Clone, Debug, PartialEq, Eq)]
pub struct AppConfig {
    pub basepath: AppBasepathCfg,
    pub api_server: ApiServerCfg,
}

/// Highest number of items an in-memory table may be configured with.
pub const MAX_ITEMS_STORED_PER_MODEL: u32 = 2048;

/// Highest number of pooled connections a database server may be
/// configured with.
pub const MAX_DB_CONNECTIONS: u32 = 1024;

/// Longest idle time, in seconds, a pooled connection may be configured
/// to keep.
pub const MAX_SECONDS_DB_IDLE: u16 = 600;

/// Whether a version text is dotted decimal: non-empty digit runs
/// separated by single dots, each within a 16-bit value.
pub open spec fn spec_version_numeric(s: Seq<char>, i: int, seg_len: int, seg_val: int) -> bool
    decreases s.len() - i,
{
    if i < 0 || i >= s.len() {
        seg_len > 0
    } else {
        let c = s[i];
        if crate::amount::is_digit_char(c) {
            let v2 = seg_val * 10 + crate::amount::digit_val(c);
            &&& v2 <= 65535
            &&& spec_version_numeric(s, i + 1, seg_len + 1, v2)
        } else if c == '.' {
            &&& seg_len > 0
            &&& spec_version_numeric(s, i + 1, 0, 0)
        } else {
            false
        }
    }
}

/// Checks that a version text is dotted decimal.
#[verifier::loop_isolation(false)]
fn version_is_numeric(s: &str) -> (r: bool)
    ensures
        r == spec_version_numeric(s@, 0, 0, 0),
{
    let n = s.unicode_len();
    let mut i: usize = 0;
    let mut seg_len: usize = 0;
    let mut seg_val: u32 = 0;
    while i < n
        invariant
            0 <= i <= n == s@.len(),
            0 <= seg_val <= 65535,
            seg_len <= i,
            spec_version_numeric(s@, 0, 0, 0) == spec_version_numeric(
                s@,
                i as int,
                seg_len as int,
                seg_val as int,
            ),
        decreases n - i,
    {
        let c = s.get_char(i);
        let cu = c as u32;
        if 48 <= cu && cu <= 57 {
            let v2 = seg_val * 10 + (cu - 48);
            if v2 > 65535 {
                return false;
            }
            seg_val = v2;
            seg_len = seg_len + 1;
        } else if c == '.' {
            if seg_len == 0 {
                return false;
            }
            seg_len = 0;
            seg_val = 0;
        } else {
            return false;
        }
        i = i + 1;
    }
    seg_len > 0
}

/// Whether some handler carries the given alias.
pub open spec fn spec_alias_known(hs: Seq<AppLogHandlerCfg>, name: Seq<char>) -> bool {
    exists|k: int| 0 <= k < hs.len() && (#[trigger] hs[k].alias)@ == name
}


/// The error code logging validation reports: that of the first violated
/// rule, in the order the rules are checked.
pub open spec fn spec_logging_err_code(obj: AppLoggingCfg) -> AppErrorCode {
    if obj.handlers@.len() == 0 {
        AppErrorCode::NoLogHandlerCfg
    } else if obj.loggers@.len() == 0 {
        AppErrorCode::NoLoggerCfg
    } else if exists|i: int|
        0 <= i < obj.loggers@.len() && (#[trigger] obj.loggers@[i]).handlers@.len() == 0 {
        AppErrorCode::NoHandlerInLoggerCfg
    } else if exists|i: int|
        0 <= i < obj.handlers@.len() && (#[trigger] obj.handlers@[i]).alias@.len() == 0 {
        AppErrorCode::MissingAliasLogHdlerCfg
    } else if exists|i: int|
        0 <= i < obj.loggers@.len() && (#[trigger] obj.loggers@[i]).alias@.len() == 0 {
        AppErrorCode::MissingAliasLoggerCfg
    } else {
        AppErrorCode::InvalidHandlerLoggerCfg
    }
}

impl AppConfig {
    /// Checks the listener: at least one route, a dotted-decimal API
    /// version, and no route with an empty path or handler.
    #[verifier::loop_isolation(false)]
    pub fn _check_srv_listener(obj: &ApiServerListenCfg) -> (r: Result<(), AppError>)
        ensures
            r is Ok <==> obj.routes@.len() > 0 && spec_version_numeric(obj.api_version@, 0, 0, 0)
                && (forall|i: int|
                0 <= i < obj.routes@.len() ==> (#[trigger] obj.routes@[i]).path@.len() > 0
                    && obj.routes@[i].handler@.len() > 0),
            r is Err ==> r->Err_0.code == (if obj.routes@.len() == 0 {
                AppErrorCode::NoRouteApiServerCfg
            } else if !spec_version_numeric(obj.api_version@, 0, 0, 0) {
                AppErrorCode::InvalidVersion
            } else {
                AppErrorCode::InvalidRouteConfig
            }),
    {
        if obj.routes.len() == 0 {
            return Err(AppError { detail: None, code: AppErrorCode::NoRouteApiServerCfg });
        }
        if !version_is_numeric(obj.api_version.as_str()) {
            return Err(
                AppError {
                    detail: Some(String::from_str("version must be numeric")),
                    code: AppErrorCode::InvalidVersion,
                },
            );
        }
        let n = obj.routes.len();
        let mut i: usize = 0;
        while i < n
            invariant
                0 <= i <= n == obj.routes@.len(),
                forall|k: int|
                    0 <= k < i ==> (#[trigger] obj.routes@[k]).path@.len() > 0
                        && obj.routes@[k].handler@.len() > 0,
            decreases n - i,
        {
            let route = &obj.routes[i];
            if route.path.as_str().is_empty() || route.handler.as_str().is_empty() {
                return Err(
                    AppError {
                        detail: Some(String::from_str("invalid-route")),
                        code: AppErrorCode::InvalidRouteConfig,
                    },
                );
            }
            i = i + 1;
        }
        Ok(())
    }

    /// Checks the logging setup: handlers and loggers exist, every one is
    /// named, every logger has handlers, file handlers carry a path, and
    /// every handler alias a logger names exists.
    #[verifier::loop_isolation(false)]
    pub fn _check_logging(obj: &AppLoggingCfg) -> (r: Result<(), AppError>)
        ensures
            r is Err ==> r->Err_0.code == spec_logging_err_code(*obj),
            r is Ok <==> ({
                &&& obj.handlers@.len() > 0
                &&& obj.loggers@.len() > 0
                &&& (forall|i: int|
                    0 <= i < obj.loggers@.len() ==> (#[trigger] obj.loggers@[i]).handlers@.len()
                        > 0)
                &&& (forall|i: int|
                    0 <= i < obj.handlers@.len() ==> (#[trigger] obj.handlers@[i]).alias@.len() > 0)
                &&& (forall|i: int|
                    0 <= i < obj.loggers@.len() ==> (#[trigger] obj.loggers@[i]).alias@.len() > 0)
                &&& (forall|i: int|
                    0 <= i < obj.handlers@.len() && (#[trigger] obj.handlers@[i]).destination
                        == AppLogDestinationCfg::LOCALFS ==> obj.handlers@[i].path is Some)
                &&& (forall|i: int, j: int|
                    0 <= i < obj.loggers@.len() && 0 <= j < obj.loggers@[i].handlers@.len()
                        ==> spec_alias_known(
                        obj.handlers@,
                        (#[trigger] obj.loggers@[i].handlers@[j])@,
                    ))
            }),
    {
        if obj.handlers.len() == 0 {
            return Err(AppError { detail: None, code: AppErrorCode::NoLogHandlerCfg });
        }
        if obj.loggers.len() == 0 {
            return Err(AppError { detail: None, code: AppErrorCode::NoLoggerCfg });
        }
        let nl = obj.loggers.len();
        let nh = obj.handlers.len();
        let mut i: usize = 0;
        while i < nl
            invariant
                0 <= i <= nl == obj.loggers@.len(),
                forall|k: int| 0 <= k < i ==> (#[trigger] obj.loggers@[k]).handlers@.len() > 0,
            decreases nl - i,
        {
            if obj.loggers[i].handlers.len() == 0 {
                return Err(
                    AppError {
                        detail: Some(String::from_str("the logger does not have handler")),
                        code: AppErrorCode::NoHandlerInLoggerCfg,
                    },
                );
            }
            i = i + 1;
        }
        let mut i: usize = 0;
        while i < nh
            invariant
                0 <= i <= nh == obj.handlers@.len(),
                forall|k: int| 0 <= k < i ==> (#[trigger] obj.handlers@[k]).alias@.len() > 0,
            decreases nh - i,
        {
            if obj.handlers[i].alias.as_str().is_empty() {
                return Err(
                    AppError { detail: None, code: AppErrorCode::MissingAliasLogHdlerCfg },
                );
            }
            i = i + 1;
        }
        let mut i: usize = 0;
        while i < nl
            invariant
                0 <= i <= nl == obj.loggers@.len(),
                forall|k: int| 0 <= k < i ==> (#[trigger] obj.loggers@[k]).alias@.len() > 0,
            decreases nl - i,
        {
            if obj.loggers[i].alias.as_str().is_empty() {
                return Err(AppError { detail: None, code: AppErrorCode::MissingAliasLoggerCfg });
            }
            i = i + 1;
        }
        let mut i: usize = 0;
        while i < nh
            invariant
                0 <= i <= nh == obj.handlers@.len(),
                forall|k: int|
                    0 <= k < i && (#[trigger] obj.handlers@[k]).destination
                        == AppLogDestinationCfg::LOCALFS ==> obj.handlers@[k].path is Some,
            decreases nh - i,
        {
            let h = &obj.handlers[i];
            let is_fs: bool = match h.destination {
                AppLogDestinationCfg::LOCALFS => true,
                _ => false,
            };
            if is_fs && h.path.is_none() {
                return Err(
                    AppError {
                        detail: Some(
                            String::from_str("file-type handler does not contain path"),
                        ),
                        code: AppErrorCode::InvalidHandlerLoggerCfg,
                    },
                );
            }
            i = i + 1;
        }
        let mut i: usize = 0;
        while i < nl
            invariant
                0 <= i <= nl,
                forall|a: int, b: int|
                    0 <= a < i && 0 <= b < obj.loggers@[a].handlers@.len() ==> spec_alias_known(
                        obj.handlers@,
                        (#[trigger] obj.loggers@[a].handlers@[b])@,
                    ),
            decreases nl - i,
        {
            let lg = &obj.loggers[i];
            let nj = lg.handlers.len();
            let mut j: usize = 0;
            while j < nj
                invariant
                    0 <= j <= nj,
                    forall|b: int|
                        0 <= b < j ==> spec_alias_known(
                            obj.handlers@,
                            (#[trigger] obj.loggers@[i as int].handlers@[b])@,
                        ),
                decreases nj - j,
            {
                let target = &lg.handlers[j];
                let mut fi: Option<usize> = None;
                let mut k: usize = 0;
                while k < nh
                    invariant
                        0 <= k <= nh,
                        match fi {
                            Some(t) => 0 <= t < nh && obj.handlers@[t as int].alias@ == target@,
                            None => forall|t: int|
                                0 <= t < k ==> (#[trigger] obj.handlers@[t].alias)@ != target@,
                        },
                    decreases nh - k,
                {
                    if obj.handlers[k].alias == *target && fi.is_none() {
                        fi = Some(k);
                    }
                    k = k + 1;
                }
                match fi {
                    Some(t) => {
                        proof {
                            assert((obj.handlers@[t as int].alias)@ == (obj.loggers@[
                                i as int].handlers@[j as int])@);
                            assert(spec_alias_known(
                                obj.handlers@,
                                (obj.loggers@[i as int].handlers@[j as int])@,
                            ));
                        }
                    },
                    None => {
                        proof {
                            assert(!spec_alias_known(
                                obj.handlers@,
                                (obj.loggers@[i as int].handlers@[j as int])@,
                            ));
                        }
                        return Err(
                            AppError {
                                detail: Some(
                                    String::from_str(
                                        "the logger contains invalid handler alias",
                                    ),
                                ),
                                code: AppErrorCode::InvalidHandlerLoggerCfg,
                            },
                        );
                    },
                }
                j = j + 1;
            }
            i = i + 1;
        }
        Ok(())
    }

    /// Checks the data stores: at least one is configured and each stays
    /// within the platform limits.
    #[verifier::loop_isolation(false)]
    pub fn _check_datastore(obj: &Vec<AppDataStoreCfg>) -> (r: Result<(), AppError>)
        ensures
            r is Ok <==> obj@.len() > 0 && (forall|i: int|
                0 <= i < obj@.len() ==> match #[trigger] obj@[i] {
                    AppDataStoreCfg::InMemory(c) => c.max_items <= MAX_ITEMS_STORED_PER_MODEL,
                    AppDataStoreCfg::DbServer(c) => c.max_conns <= MAX_DB_CONNECTIONS
                        && c.idle_timeout_secs <= MAX_SECONDS_DB_IDLE,
                }),
            r is Err ==> r->Err_0.code == (if obj@.len() == 0 {
                AppErrorCode::NoDatabaseCfg
            } else {
                AppErrorCode::ExceedingMaxLimit
            }),
    {
        if obj.len() == 0 {
            return Err(AppError { detail: None, code: AppErrorCode::NoDatabaseCfg });
        }
        let n = obj.len();
        let mut i: usize = 0;
        while i < n
            invariant
                0 <= i <= n == obj@.len(),
                forall|k: int|
                    0 <= k < i ==> match #[trigger] obj@[k] {
                        AppDataStoreCfg::InMemory(c) => c.max_items <= MAX_ITEMS_STORED_PER_MODEL,
                        AppDataStoreCfg::DbServer(c) => c.max_conns <= MAX_DB_CONNECTIONS
                            && c.idle_timeout_secs <= MAX_SECONDS_DB_IDLE,
                    },
            decreases n - i,
        {
            match &obj[i] {
                AppDataStoreCfg::InMemory(c) => {
                    if c.max_items > MAX_ITEMS_STORED_PER_MODEL {
                        return Err(
                            AppError {
                                detail: Some(String::from_str("limit")),
                                code: AppErrorCode::ExceedingMaxLimit,
                            },
                        );
                    }
                },
                AppDataStoreCfg::DbServer(c) => {
                    if c.max_conns > MAX_DB_CONNECTIONS {
                        return Err(
                            AppError {
                                detail: Some(String::from_str("limit-conn")),
                                code: AppErrorCode::ExceedingMaxLimit,
                            },
                        );
                    }
                    if c.idle_timeout_secs > MAX_SECONDS_DB_IDLE {
                        return Err(
                            AppError {
                                detail: Some(String::from_str("limit-idle-time")),
                                code: AppErrorCode::ExceedingMaxLimit,
                            },
                        );
                    }
                },
            }
            i = i + 1;
        }
        Ok(())
    }

    /// Assembles the configuration from the launcher's inputs and the
    /// already-parsed server section: each base path and the secret path
    /// must be supplied, and the server section must pass the listener,
    /// logging and data-store checks. The caller loads and parses the
    /// configuration file between reading the paths and this call.
    pub fn new(args: AppCmdArgs, api_srv_cfg: ApiServerCfg) -> (r: Result<AppConfig, AppError>)
        ensures
            r is Ok ==> args.sys_base_path is Some && args.service_base_path is Some
                && args.secret_file_path is Some && args.config_file_path is Some,
            r is Err ==> r->Err_0.code == (if args.sys_base_path is None {
                AppErrorCode::MissingSysBasePath
            } else if args.service_base_path is None {
                AppErrorCode::MissingAppBasePath
            } else if args.secret_file_path is None {
                AppErrorCode::MissingSecretPath
            } else if args.config_file_path is None {
                AppErrorCode::MissingConfigPath
            } else {
                r->Err_0.code
            }),
            r is Ok ==> r->Ok_0.api_server == api_srv_cfg && r->Ok_0.basepath.system@
                == args.sys_base_path->0@ + "/"@ && r->Ok_0.basepath.service@
                == args.service_base_path->0@ + "/"@,
    {
        let sys_basepath = match args.sys_base_path {
            Some(s) => s.concat("/"),
            None => {
                return Err(AppError { detail: None, code: AppErrorCode::MissingSysBasePath });
            },
        };
        let app_basepath = match args.service_base_path {
            Some(a) => a.concat("/"),
            None => {
                return Err(AppError { detail: None, code: AppErrorCode::MissingAppBasePath });
            },
        };
        if args.secret_file_path.is_none() {
            return Err(AppError { detail: None, code: AppErrorCode::MissingSecretPath });
        }
        if args.config_file_path.is_none() {
            return Err(AppError { detail: None, code: AppErrorCode::MissingConfigPath });
        }
        AppConfig::_check_srv_listener(&api_srv_cfg.listen)?;
        AppConfig::_check_logging(&api_srv_cfg.logging)?;
        AppConfig::_check_datastore(&api_srv_cfg.data_store)?;
        Ok(
            AppConfig {
                api_server: api_srv_cfg,
                basepath: AppBasepathCfg { system: sys_basepath, service: app_basepath },
            },
        )
    }
}

} // verus!
