//! How much of what happens is logged.

use vstd::prelude::*;

verus! {

/// How much is logged, from the least to the most.
#[derive(Clone, Copy, Debug, PartialEq, Eq, Structural)]
pub enum LogLevel {
    Warn,
    Info,
    Debug,
    Trace,
}

/// The level at which one module logs.
#[derive(Clone, Debug, PartialEq, Eq)]
pub struct ModuleLevel {
    pub module: String,
    pub level: LogLevel,
}

/// The settings of the logger: the level of everything, and the levels of
/// the modules that are kept quieter.
#[derive(Clone, Debug, PartialEq, Eq)]
pub struct LogSettings {
    pub level: LogLevel,
    pub modules: Vec<ModuleLevel>,
}

/// The level that a verbosity stands for: `Info` for none, `Debug` for one,
/// `Trace` for any more.
pub open spec fn level_for(verbosity: u64) -> LogLevel {
    if verbosity == 0 {
        LogLevel::Info
    } else if verbosity == 1 {
        LogLevel::Debug
    } else {
        LogLevel::Trace
    }
}

/// The settings of the logger for a verbosity. The modules that speak of
/// the connection log warnings only, whatever the verbosity.
pub fn configure(verbosity: u64) -> (settings: LogSettings)
    ensures
        settings.level == level_for(verbosity),
        settings.modules@.len() == 3,
        settings.modules@[0].module@ == "hyper"@,
        settings.modules@[1].module@ == "tokio_reactor"@,
        settings.modules@[2].module@ == "reqwest"@,
        forall|i: int| 0 <= i < 3 ==> (#[trigger] settings.modules@[i]).level == LogLevel::Warn,
{
    let mut modules: Vec<ModuleLevel> = Vec::new();
    modules.push(ModuleLevel { module: "hyper".to_owned(), level: LogLevel::Warn });
    modules.push(ModuleLevel { module: "tokio_reactor".to_owned(), level: LogLevel::Warn });
    modules.push(ModuleLevel { module: "reqwest".to_owned(), level: LogLevel::Warn });
    let level = match verbosity {
        0 => LogLevel::Info,
        1 => LogLevel::Debug,
        _ => LogLevel::Trace,
    };
    LogSettings { level, modules }
}

} // verus!
