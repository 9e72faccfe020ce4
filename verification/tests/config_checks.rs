use ecommerce_core::config::{
    ApiServerCfg, ApiServerListenCfg, ApiServerRouteCfg, AppCmdArgs, AppConfig, AppDataStoreCfg,
    AppDbServerCfg, AppDbServerType, AppInMemoryDbCfg, AppLogDestinationCfg, AppLogHandlerCfg,
    AppLogLevelCfg, AppLoggerCfg, AppLoggingCfg, AppRpcCfg, AppRpcTypeCfg,
};
use ecommerce_core::error::AppErrorCode;
use ecommerce_core::shared::{AppLogContext, AppSharedState};

fn logging_ok() -> AppLoggingCfg {
    AppLoggingCfg {
        handlers: vec![AppLogHandlerCfg {
            min_level: AppLogLevelCfg::INFO,
            destination: AppLogDestinationCfg::CONSOLE,
            alias: "console".to_string(),
            path: None,
        }],
        loggers: vec![AppLoggerCfg {
            alias: "web".to_string(),
            handlers: vec!["console".to_string()],
            level: Some(AppLogLevelCfg::INFO),
        }],
    }
}

fn listen_ok() -> ApiServerListenCfg {
    ApiServerListenCfg {
        api_version: "1.0.2".to_string(),
        host: "localhost".to_string(),
        port: 8012,
        max_failures: 3,
        routes: vec![ApiServerRouteCfg {
            path: "/order".to_string(),
            handler: "create_order".to_string(),
        }],
    }
}

fn server_cfg_ok() -> ApiServerCfg {
    ApiServerCfg {
        logging: logging_ok(),
        listen: listen_ok(),
        max_connections: 128,
        limit_req_body_in_bytes: 65536,
        num_workers: 2,
        stack_sz_kb: 256,
        data_store: vec![AppDataStoreCfg::InMemory(AppInMemoryDbCfg {
            alias: "store".to_string(),
            max_items: 100,
        })],
        rpc: AppRpcCfg { handler_type: AppRpcTypeCfg::dummy },
    }
}

fn args_ok() -> AppCmdArgs {
    AppCmdArgs {
        sys_base_path: Some("/sys".to_string()),
        service_base_path: Some("/srv".to_string()),
        secret_file_path: Some("secret.json".to_string()),
        config_file_path: Some("cfg.json".to_string()),
    }
}

#[test]
fn config_new_checks_paths() {
    let ok = AppConfig::new(args_ok(), server_cfg_ok());
    let cfg = ok.unwrap();
    assert_eq!(cfg.basepath.system.as_str(), "/sys/");
    assert_eq!(cfg.basepath.service.as_str(), "/srv/");

    let mut args = args_ok();
    args.sys_base_path = None;
    let e = AppConfig::new(args, server_cfg_ok()).unwrap_err();
    assert_eq!(e.code, AppErrorCode::MissingSysBasePath);

    let mut args = args_ok();
    args.service_base_path = None;
    let e = AppConfig::new(args, server_cfg_ok()).unwrap_err();
    assert_eq!(e.code, AppErrorCode::MissingAppBasePath);

    let mut args = args_ok();
    args.secret_file_path = None;
    let e = AppConfig::new(args, server_cfg_ok()).unwrap_err();
    assert_eq!(e.code, AppErrorCode::MissingSecretPath);

    let mut args = args_ok();
    args.config_file_path = None;
    let e = AppConfig::new(args, server_cfg_ok()).unwrap_err();
    assert_eq!(e.code, AppErrorCode::MissingConfigPath);
}

#[test]
fn config_listener_checks() {
    let mut cfg = server_cfg_ok();
    cfg.listen.routes.clear();
    let e = AppConfig::new(args_ok(), cfg).unwrap_err();
    assert_eq!(e.code, AppErrorCode::NoRouteApiServerCfg);

    let mut cfg = server_cfg_ok();
    cfg.listen.api_version = "1.x".to_string();
    let e = AppConfig::new(args_ok(), cfg).unwrap_err();
    assert_eq!(e.code, AppErrorCode::InvalidVersion);

    let mut cfg = server_cfg_ok();
    cfg.listen.api_version = "1..2".to_string();
    let e = AppConfig::new(args_ok(), cfg).unwrap_err();
    assert_eq!(e.code, AppErrorCode::InvalidVersion);

    let mut cfg = server_cfg_ok();
    cfg.listen.routes[0].handler = String::new();
    let e = AppConfig::new(args_ok(), cfg).unwrap_err();
    assert_eq!(e.code, AppErrorCode::InvalidRouteConfig);
}

#[test]
fn config_logging_checks() {
    let mut cfg = server_cfg_ok();
    cfg.logging.handlers.clear();
    let e = AppConfig::new(args_ok(), cfg).unwrap_err();
    assert_eq!(e.code, AppErrorCode::NoLogHandlerCfg);

    let mut cfg = server_cfg_ok();
    cfg.logging.loggers.clear();
    let e = AppConfig::new(args_ok(), cfg).unwrap_err();
    assert_eq!(e.code, AppErrorCode::NoLoggerCfg);

    let mut cfg = server_cfg_ok();
    cfg.logging.loggers[0].handlers.clear();
    let e = AppConfig::new(args_ok(), cfg).unwrap_err();
    assert_eq!(e.code, AppErrorCode::NoHandlerInLoggerCfg);

    // a file handler must name its path
    let mut cfg = server_cfg_ok();
    cfg.logging.handlers[0].destination = AppLogDestinationCfg::LOCALFS;
    let e = AppConfig::new(args_ok(), cfg).unwrap_err();
    assert_eq!(e.code, AppErrorCode::InvalidHandlerLoggerCfg);

    // every alias a logger names must exist
    let mut cfg = server_cfg_ok();
    cfg.logging.loggers[0].handlers = vec!["nonexistent".to_string()];
    let e = AppConfig::new(args_ok(), cfg).unwrap_err();
    assert_eq!(e.code, AppErrorCode::InvalidHandlerLoggerCfg);
}

#[test]
fn config_datastore_checks() {
    let mut cfg = server_cfg_ok();
    cfg.data_store.clear();
    let e = AppConfig::new(args_ok(), cfg).unwrap_err();
    assert_eq!(e.code, AppErrorCode::NoDatabaseCfg);

    let mut cfg = server_cfg_ok();
    cfg.data_store = vec![AppDataStoreCfg::InMemory(AppInMemoryDbCfg {
        alias: "store".to_string(),
        max_items: 1 << 30,
    })];
    let e = AppConfig::new(args_ok(), cfg).unwrap_err();
    assert_eq!(e.code, AppErrorCode::ExceedingMaxLimit);

    let mut cfg = server_cfg_ok();
    cfg.data_store = vec![AppDataStoreCfg::DbServer(AppDbServerCfg {
        alias: "db".to_string(),
        srv_type: AppDbServerType::MariaDB,
        max_conns: 1 << 20,
        idle_timeout_secs: 10,
    })];
    let e = AppConfig::new(args_ok(), cfg).unwrap_err();
    assert_eq!(e.code, AppErrorCode::ExceedingMaxLimit);
}

#[test]
fn shared_state_builds_datastore_context() {
    let cfg = AppConfig::new(args_ok(), server_cfg_ok()).unwrap();
    let log = AppLogContext { cfg: cfg.api_server.logging.clone() };
    let shared = AppSharedState::new(cfg, log);
    let ds = shared.datastore();
    assert!(ds.in_mem.is_some());
    assert_eq!(ds.in_mem.as_ref().unwrap().max_items, 100);
    assert!(ds.sql_dbs.is_none());
    assert_eq!(shared.rpc().cfg.handler_type, AppRpcTypeCfg::dummy);
    assert_eq!(shared.config().basepath.system.as_str(), "/sys/");
    assert_eq!(shared.auth_keystore().source.as_str(), "/sys/");
    assert_eq!(shared.log_context().cfg.handlers.len(), 1);
}
