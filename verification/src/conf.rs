//! Launch configuration and working-directory selection.
//!
//! A daemon instance stores its state in a working directory that is either
//! ephemeral (created fresh, removed on teardown) or persistent
//! (caller-owned, never removed here). Selection is a pure function of the
//! requested ephemeral root, the requested persistent path and the default
//! rule; asking for both at once is a configuration error that must be
//! detected before any process is spawned.
use vstd::prelude::*;

use crate::Error;

verus! {

/// The node configuration parameters, with a convenient `Default` for the
/// most common use: a regtest node in a fresh temporary directory, three
/// relaunch attempts, no upstream chain indexer and no gossip relay.
#[non_exhaustive]
#[derive(Debug, PartialEq, Eq, Clone)]
pub struct Conf {
    /// If `true` the daemon's standard output is not suppressed.
    pub view_stdout: bool,
    /// Network name handed to the daemon; must match what any extra
    /// arguments assume.
    pub network: String,
    /// Root under which a uniquely named temporary working directory is
    /// created. Must not be combined with `staticdir`.
    pub tmpdir: Option<String>,
    /// Persistent working directory, created if absent and never removed
    /// by this crate. Must not be combined with `tmpdir`.
    pub staticdir: Option<String>,
    /// Upstream chain-indexer URL handed to the daemon, when one is used.
    pub esplora_url: Option<String>,
    /// Gossip-relay URL handed to the daemon, when one is used.
    pub rgs_url: Option<String>,
    /// How many times a launch whose child exits early is restarted with
    /// fresh ports before giving up. The OS hands out free ports without
    /// reserving them, so a freshly chosen port can rarely be taken by the
    /// time the child binds it; relaunching with new ports makes the
    /// conflict probability negligible.
    pub attempts: u8,
}

impl Default for Conf {
    /// The default configuration: regtest, suppressed output, default
    /// temporary directory, three retry attempts, no upstream URLs.
    fn default() -> (r: Self)
        ensures
            !r.view_stdout,
            r.network@ == "regtest"@,
            r.tmpdir is None,
            r.staticdir is None,
            r.esplora_url is None,
            r.rgs_url is None,
            r.attempts == 3,
    {
        Conf {
            view_stdout: false,
            network: "regtest".to_owned(),
            tmpdir: None,
            staticdir: None,
            esplora_url: None,
            rgs_url: None,
            attempts: 3,
        }
    }
}

/// The kind of working directory a daemon instance owns, with its path on
/// disk once it exists.
#[derive(Debug, Clone, PartialEq, Eq)]
pub enum DataDir {
    /// Caller-owned directory: survives instance teardown.
    Persistent(String),
    /// Directory owned exclusively by the instance: removed on teardown.
    Temporary(String),
}

impl DataDir {
    /// The directory's path.
    pub open spec fn spec_path(&self) -> Seq<char> {
        match self {
            DataDir::Persistent(p) => p@,
            DataDir::Temporary(p) => p@,
        }
    }

    /// Returns the data directory path.
    pub fn path(&self) -> (r: String)
        ensures
            r@ == self.spec_path(),
    {
        match self {
            DataDir::Persistent(p) => p.clone(),
            DataDir::Temporary(p) => p.clone(),
        }
    }
}

/// What kind of working directory to create for a launch attempt, decided
/// before anything touches the disk.
#[derive(Debug, Clone, PartialEq, Eq)]
pub enum WorkDirPlan {
    /// Create a uniquely named subdirectory under the given root; the
    /// instance owns it and removes it on teardown.
    TempUnder(String),
    /// Create a uniquely named subdirectory under the OS default temporary
    /// root; the instance owns it and removes it on teardown.
    TempDefault,
    /// Create the given directory (and its parents) if absent; the caller
    /// owns it and it is never removed here.
    Persistent(String),
}

/// The ephemeral root actually in force for one launch attempt: an explicit
/// configuration value wins over the process-wide environment override.
pub open spec fn spec_effective_tmpdir(tmpdir: Option<String>, env_root: Option<String>) -> Option<
    String,
> {
    if tmpdir is Some {
        tmpdir
    } else {
        env_root
    }
}

/// Combines the configured temporary-directory root with the process-wide
/// override read from the environment at the start of the attempt.
pub fn effective_tmpdir(tmpdir: Option<String>, env_root: Option<String>) -> (r: Option<String>)
    ensures
        r == spec_effective_tmpdir(tmpdir, env_root),
{
    match tmpdir {
        Some(t) => Some(t),
        None => env_root,
    }
}

/// The working-directory selection rules, in order: both set is a
/// configuration error; an ephemeral root alone selects a unique
/// subdirectory under it; a persistent path alone selects that directory;
/// neither selects a unique subdirectory under the OS default temporary
/// root.
pub open spec fn spec_select_work_dir(tmpdir: Option<String>, staticdir: Option<String>) -> Result<
    WorkDirPlan,
    Error,
> {
    match (tmpdir, staticdir) {
        (Some(_), Some(_)) => Err(Error::BothDirsSpecified),
        (Some(t), None) => Ok(WorkDirPlan::TempUnder(t)),
        (None, Some(p)) => Ok(WorkDirPlan::Persistent(p)),
        (None, None) => Ok(WorkDirPlan::TempDefault),
    }
}

/// Decides which working directory a launch attempt will use, from the
/// effective ephemeral root and the requested persistent path.
pub fn select_work_dir(tmpdir: Option<String>, staticdir: Option<String>) -> (r: Result<
    WorkDirPlan,
    Error,
>)
    ensures
        r == spec_select_work_dir(tmpdir, staticdir),
{
    match (tmpdir, staticdir) {
        (Some(_), Some(_)) => Err(Error::BothDirsSpecified),
        (Some(t), None) => Ok(WorkDirPlan::TempUnder(t)),
        (None, Some(p)) => Ok(WorkDirPlan::Persistent(p)),
        (None, None) => Ok(WorkDirPlan::TempDefault),
    }
}

/// Working-directory selection is total and unambiguous: for every input
/// exactly one of the four rules applies, the selected plan is ephemeral
/// exactly when an ephemeral root (or the default rule) chose it, and
/// requesting both an ephemeral root and a persistent path always yields
/// the configuration error — so no process can ever be spawned from such a
/// configuration.
pub proof fn lemma_work_dir_selection_exclusive(tmpdir: Option<String>, staticdir: Option<String>)
    ensures
        (tmpdir is Some && staticdir is Some) ==> spec_select_work_dir(tmpdir, staticdir) == Err::<
            WorkDirPlan,
            Error,
        >(Error::BothDirsSpecified),
        (tmpdir is Some && staticdir is None) ==> spec_select_work_dir(tmpdir, staticdir) == Ok::<
            WorkDirPlan,
            Error,
        >(WorkDirPlan::TempUnder(tmpdir->Some_0)),
        (tmpdir is None && staticdir is Some) ==> spec_select_work_dir(tmpdir, staticdir) == Ok::<
            WorkDirPlan,
            Error,
        >(WorkDirPlan::Persistent(staticdir->Some_0)),
        (tmpdir is None && staticdir is None) ==> spec_select_work_dir(tmpdir, staticdir) == Ok::<
            WorkDirPlan,
            Error,
        >(WorkDirPlan::TempDefault),
        spec_select_work_dir(tmpdir, staticdir) is Err <==> (tmpdir is Some && staticdir is Some),
{
}

/// How to tear one instance down.
#[derive(Debug, Clone, Copy, PartialEq, Eq)]
pub struct TeardownPlan {
    /// Request graceful process exit first and wait for the exit status.
    pub orderly_stop: bool,
    /// Force process termination afterwards (idempotent when the process
    /// has already exited); teardown must work even for an unresponsive
    /// daemon, so this is unconditional.
    pub force_kill: bool,
    /// Remove the working-directory tree from disk.
    pub remove_dir: bool,
}

/// Decides the teardown steps for an instance owning `work_dir`: a
/// persistent instance is stopped in an orderly way before forced
/// termination and its directory is kept; an ephemeral instance relies on
/// forced termination alone and its directory is removed.
pub fn teardown_plan(work_dir: &DataDir) -> (r: TeardownPlan)
    ensures
        r.orderly_stop == work_dir is Persistent,
        r.force_kill,
        r.remove_dir == work_dir is Temporary,
{
    TeardownPlan {
        orderly_stop: matches!(work_dir, DataDir::Persistent(_)),
        force_kill: true,
        remove_dir: matches!(work_dir, DataDir::Temporary(_)),
    }
}

} // verus!
