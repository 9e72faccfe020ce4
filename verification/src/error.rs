use vstd::prelude::*;

verus! {

/// Kind of an I/O failure reported through `AppErrorCode::IOerror`. The
/// caller at the I/O edge maps the platform's own kinds onto these.
#[derive(Clone, Copy, Debug, PartialEq, Eq, Structural)]
pub enum AppIoErrKind {
    NotFound,
    PermissionDenied,
    Other,
}

/// Error taxonomy shared by the order-side components. Every failure a
/// repository, model or use case reports carries exactly one of these.
#[derive(Clone, Copy, Debug, PartialEq, Eq, Structural)]
pub enum AppErrorCode {
    InvalidJsonFormat,
    InvalidInput,
    InvalidVersion,
    InvalidRouteConfig,
    InvalidHandlerLoggerCfg,
    ExceedingMaxLimit,
    EmptyInputData,
    MissingSysBasePath,
    MissingAppBasePath,
    MissingSecretPath,
    MissingConfigPath,
    MissingDataStore,
    MissingAliasLogHdlerCfg,
    MissingAliasLoggerCfg,
    NoRouteApiServerCfg,
    NoLogHandlerCfg,
    NoLoggerCfg,
    NoHandlerInLoggerCfg,
    NoDatabaseCfg,
    DataCorruption,
    PayMethodUnsupport,
    DataTableNotExist,
    AcquireLockFailure,
    NotImplemented,
    IOerror(AppIoErrKind),
}

/// One failure: its kind plus an optional human-readable detail that
/// localises the failing item without reading code.
#[derive(Clone, Debug, PartialEq, Eq)]
pub struct AppError {
    pub code: AppErrorCode,
    pub detail: Option<String>,
}

} // verus!
