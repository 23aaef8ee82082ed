//! Test-fixture orchestration logic for an `lspsd` payment-node daemon:
//! working-directory selection, launch configuration, the launch/readiness
//! retry discipline, the channel-open handshake machine, and the typed
//! shapes of the daemon's HTTP control API.
//!
//! Everything here is pure decision logic over plain values; the process,
//! filesystem and network side effects are performed by a thin unverified
//! driver that consults these functions.
use vstd::prelude::*;
use vstd::string::StringExecFns;

pub mod bootstrap;
pub mod client;
pub mod conf;
pub mod handshake;
pub mod hexid;
pub mod launch;
pub mod messages;
pub mod numfmt;

verus! {

/// Everything that can go wrong while setting up or supervising a daemon
/// instance.
#[derive(Debug, Clone, PartialEq, Eq)]
pub enum Error {
    /// An operating-system error, carrying its rendered description.
    Io(String),
    /// A method needing a compile-time feature was called without it.
    NoFeature,
    /// A method needing an environment variable was called without it.
    NoEnvVar,
    /// No `lspsd` executable could be located.
    NoLspsdExecutableFound,
    /// The daemon process exited before becoming ready and the retry budget
    /// was exhausted; carries the exit code observed, or `None` when the
    /// process was terminated by a signal.
    EarlyExit(Option<i32>),
    /// Both a temporary-directory root and a persistent directory were
    /// requested at the same time.
    BothDirsSpecified,
}

/// The description each error renders to.
pub open spec fn spec_error_message(e: Error) -> Seq<char> {
    match e {
        Error::Io(m) => "io error: "@ + m@,
        Error::NoFeature => "Called a method requiring a feature to be set, but it's not"@,
        Error::NoEnvVar => "Called a method requiring env var `LSPSD_EXE` to be set, but it's not"@,
        Error::NoLspsdExecutableFound => "`lspsd` executable is required, provide it with the env var `LSPSD_EXE` or have `lspsd` in the `PATH`"@,
        Error::EarlyExit(code) => "The lspsd process terminated early with exit code "@ + (match code {
            Some(c) => crate::numfmt::int_dec_rep(c as int),
            None => "unknown (terminated by signal)"@,
        }),
        Error::BothDirsSpecified => "tempdir and staticdir cannot be enabled at same time in configuration options"@,
    }
}

impl Error {
    /// Renders this error as a human-readable description.
    pub fn message(&self) -> (r: String)
        ensures
            r@ == spec_error_message(*self),
    {
        match self {
            Error::Io(m) => {
                let mut s = "io error: ".to_owned();
                s.append(m.as_str());
                s
            },
            Error::NoFeature => "Called a method requiring a feature to be set, but it's not".to_owned(),
            Error::NoEnvVar => "Called a method requiring env var `LSPSD_EXE` to be set, but it's not".to_owned(),
            Error::NoLspsdExecutableFound => "`lspsd` executable is required, provide it with the env var `LSPSD_EXE` or have `lspsd` in the `PATH`".to_owned(),
            Error::EarlyExit(code) => {
                let mut s = "The lspsd process terminated early with exit code ".to_owned();
                match code {
                    Some(c) => s.append(crate::numfmt::i32_to_dec(*c).as_str()),
                    None => s.append("unknown (terminated by signal)"),
                }
                s
            },
            Error::BothDirsSpecified => "tempdir and staticdir cannot be enabled at same time in configuration options".to_owned(),
        }
    }
}

/// Checks a prospective argument list for unavailable or deprecated
/// arguments. Every argument is currently available, so the list is
/// returned unchanged.
pub fn validate_args(args: Vec<&str>) -> (r: Result<Vec<&str>, Error>)
    ensures
        r is Ok,
        r->Ok_0 == args,
{
    Ok(args)
}

} // verus!
