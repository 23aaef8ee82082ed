//! One daemon launch attempt: the argument list handed to the executable,
//! the sockets a successful instance is reached on, and the decision rules
//! of the readiness loop that turns a spawned child into a ready instance —
//! or relaunches it with fresh ports when it exits early.
//!
//! The loop itself performs side effects (spawning, sleeping, an HTTP
//! probe), so an unverified driver runs it; every decision it takes is a
//! call into [`launch_step`], and the launch-wide guarantees are proved of
//! that rule.
use vstd::prelude::*;
use vstd::string::StringExecFns;

use crate::conf::Conf;
use crate::messages::LspConfig;
use crate::numfmt::dec_rep;
use crate::numfmt::u64_to_dec;
use crate::Error;

verus! {

/// Everything one launch attempt needs: fresh ports, the resolved data
/// directory, the network, the optional upstream URLs, the output
/// visibility flag and the remaining retry budget. Produced anew — with
/// new ports — for every attempt.
#[derive(Debug, Clone, PartialEq, Eq)]
pub struct LaunchConfig {
    pub network: String,
    pub api_port: u16,
    pub lightning_port: u16,
    pub data_dir: String,
    pub esplora_url: Option<String>,
    pub rgs_url: Option<String>,
    pub view_stdout: bool,
    pub attempts: u8,
}

fn clone_opt_string(o: &Option<String>) -> (r: Option<String>)
    ensures
        r == *o,
{
    match o {
        Some(s) => Some(s.clone()),
        None => None,
    }
}

impl LaunchConfig {
    /// Assembles the configuration of one attempt from the caller's `Conf`,
    /// two freshly allocated ports and the resolved data directory.
    pub fn assemble(conf: &Conf, api_port: u16, lightning_port: u16, data_dir: String) -> (r:
        LaunchConfig)
        ensures
            r.network == conf.network,
            r.api_port == api_port,
            r.lightning_port == lightning_port,
            r.data_dir == data_dir,
            r.esplora_url == conf.esplora_url,
            r.rgs_url == conf.rgs_url,
            r.view_stdout == conf.view_stdout,
            r.attempts == conf.attempts,
    {
        LaunchConfig {
            network: conf.network.clone(),
            api_port,
            lightning_port,
            data_dir,
            esplora_url: clone_opt_string(&conf.esplora_url),
            rgs_url: clone_opt_string(&conf.rgs_url),
            view_stdout: conf.view_stdout,
            attempts: conf.attempts,
        }
    }
}

/// The exact argument list one launch attempt hands to the executable:
/// the two ports, the network and the data directory, followed by the
/// upstream chain-indexer URL and the gossip-relay URL when configured.
pub open spec fn spec_launch_args(c: LaunchConfig) -> Seq<Seq<char>> {
    let base = seq![
        "--api-port"@,
        dec_rep(c.api_port as nat),
        "--lightning-port"@,
        dec_rep(c.lightning_port as nat),
        "--network"@,
        c.network@,
        "--data-dir"@,
        c.data_dir@,
    ];
    let with_esplora = if c.esplora_url is Some {
        base + seq!["--esplora-url"@, c.esplora_url->Some_0@]
    } else {
        base
    };
    if c.rgs_url is Some {
        with_esplora + seq!["--rgs-url"@, c.rgs_url->Some_0@]
    } else {
        with_esplora
    }
}

/// Builds the argument list for one launch attempt.
pub fn launch_args(c: &LaunchConfig) -> (r: Vec<String>)
    ensures
        r.deep_view() == spec_launch_args(*c),
{
    let mut args: Vec<String> = Vec::new();
    args.push("--api-port".to_owned());
    args.push(u64_to_dec(c.api_port as u64));
    args.push("--lightning-port".to_owned());
    args.push(u64_to_dec(c.lightning_port as u64));
    args.push("--network".to_owned());
    args.push(c.network.clone());
    args.push("--data-dir".to_owned());
    args.push(c.data_dir.clone());
    if let Some(esplora_url) = &c.esplora_url {
        args.push("--esplora-url".to_owned());
        args.push(esplora_url.clone());
    }
    if let Some(rgs_url) = &c.rgs_url {
        args.push("--rgs-url".to_owned());
        args.push(rgs_url.clone());
    }
    proof {
        assert(args.deep_view() =~~= spec_launch_args(*c));
    }
    args
}

/// The two loopback sockets a dependent component needs to reach a running
/// instance; immutable once the instance is up.
#[derive(Debug, Clone, Copy, PartialEq, Eq)]
pub struct ConnectParams {
    /// Port of the HTTP control API on 127.0.0.1.
    pub api_port: u16,
    /// Peer-to-peer listening port on 127.0.0.1.
    pub lightning_port: u16,
}

/// The control-API base URL for a control port on loopback.
pub open spec fn spec_api_url(port: u16) -> Seq<char> {
    "http://127.0.0.1:"@ + dec_rep(port as nat)
}

/// Renders the control-API base URL, schema included, for a control port
/// on loopback.
pub fn api_url_of(port: u16) -> (r: String)
    ensures
        r@ == spec_api_url(port),
{
    let mut s = "http://127.0.0.1:".to_owned();
    s.append(u64_to_dec(port as u64).as_str());
    s
}

impl ConnectParams {
    /// The control-API base URL of this instance.
    pub fn api_url(&self) -> (r: String)
        ensures
            r@ == spec_api_url(self.api_port),
    {
        api_url_of(self.api_port)
    }
}

/// What one iteration of the readiness loop observed of the freshly
/// spawned child, in the order the loop looks: first whether the child has
/// already exited, then — only for a live child — the outcome of a
/// configuration probe against the tentative control socket.
#[derive(Debug, Clone, PartialEq, Eq)]
pub enum ProbeOutcome {
    /// The child exited before becoming ready; carries the exit code, or
    /// `None` when a signal terminated it.
    Exited(Option<i32>),
    /// The probe succeeded and returned the daemon's configuration: the
    /// instance is ready.
    ConfigOk(LspConfig),
    /// The probe failed (connection refused or malformed answer): the
    /// daemon is not listening yet.
    NotReady,
}

/// What the readiness loop must do next.
#[derive(Debug, Clone, PartialEq, Eq)]
pub enum LaunchAction {
    /// Abandon this attempt and restart the whole launch — new working
    /// directory, new ports — with the remaining budget given. The exited
    /// child's ports are contested and are never reused.
    Retry { attempts_left: u8 },
    /// Give up: the budget is exhausted; surface this error.
    Fail(Error),
    /// The daemon answered the probe: package the instance around the
    /// returned configuration.
    Ready(LspConfig),
    /// Sleep a short fixed interval and probe again.
    Poll,
}

/// The readiness-loop decision rule. An early exit is treated as a
/// transient port race: it consumes one attempt while any budget remains
/// and becomes a fatal early-exit error carrying the observed status once
/// the budget is exhausted. A failed probe of a live child only means "not
/// ready yet". A successful probe ends the loop.
pub open spec fn spec_launch_step(attempts_left: u8, outcome: ProbeOutcome) -> LaunchAction {
    match outcome {
        ProbeOutcome::Exited(status) => {
            if attempts_left > 0 {
                LaunchAction::Retry { attempts_left: (attempts_left - 1) as u8 }
            } else {
                LaunchAction::Fail(Error::EarlyExit(status))
            }
        },
        ProbeOutcome::ConfigOk(config) => LaunchAction::Ready(config),
        ProbeOutcome::NotReady => LaunchAction::Poll,
    }
}

/// Decides the next step of the readiness loop from the remaining retry
/// budget and what this iteration observed.
pub fn launch_step(attempts_left: u8, outcome: ProbeOutcome) -> (r: LaunchAction)
    ensures
        r == spec_launch_step(attempts_left, outcome),
{
    match outcome {
        ProbeOutcome::Exited(status) => {
            if attempts_left > 0 {
                LaunchAction::Retry { attempts_left: attempts_left - 1 }
            } else {
                LaunchAction::Fail(Error::EarlyExit(status))
            }
        },
        ProbeOutcome::ConfigOk(config) => LaunchAction::Ready(config),
        ProbeOutcome::NotReady => LaunchAction::Poll,
    }
}

/// A launch is abandoned — by retrying or by failing — only after the
/// child has been observed to exit, so an abandoned attempt never leaves
/// its child running; and the only error the rule ever surfaces is the
/// early-exit error carrying that observed status.
pub proof fn lemma_abandon_only_after_exit(attempts_left: u8, outcome: ProbeOutcome)
    ensures
        (spec_launch_step(attempts_left, outcome) is Retry || spec_launch_step(
            attempts_left,
            outcome,
        ) is Fail) ==> outcome is Exited,
        spec_launch_step(attempts_left, outcome) is Fail ==> spec_launch_step(
            attempts_left,
            outcome,
        )->Fail_0 == Error::EarlyExit(outcome->Exited_0),
{
}

/// An instance is declared ready exactly when the configuration probe
/// succeeded, and the configuration packaged into it is the one the probe
/// returned: no instance is ever handed back "not yet ready".
pub proof fn lemma_ready_means_probed(attempts_left: u8, outcome: ProbeOutcome)
    ensures
        spec_launch_step(attempts_left, outcome) is Ready <==> outcome is ConfigOk,
        outcome is ConfigOk ==> spec_launch_step(attempts_left, outcome) == LaunchAction::Ready(
            outcome->ConfigOk_0,
        ),
{
}

/// How many of the observations are early exits.
pub open spec fn count_early_exits(outcomes: Seq<ProbeOutcome>) -> nat
    decreases outcomes.len(),
{
    if outcomes.len() == 0 {
        0
    } else {
        (if outcomes[0] is Exited {
            1nat
        } else {
            0nat
        }) + count_early_exits(outcomes.drop_first())
    }
}

/// Running the readiness rule over a stream of observations, starting
/// with the given budget: how many observations were consumed, and the
/// launch's result — `None` while the stream ran out with the launch
/// still in progress.
pub open spec fn spec_run_launch(attempts_left: u8, outcomes: Seq<ProbeOutcome>) -> (
    nat,
    Option<Result<LspConfig, Error>>,
)
    decreases outcomes.len(),
{
    if outcomes.len() == 0 {
        (0, None)
    } else {
        match spec_launch_step(attempts_left, outcomes[0]) {
            LaunchAction::Poll => {
                let rest = spec_run_launch(attempts_left, outcomes.drop_first());
                (rest.0 + 1, rest.1)
            },
            LaunchAction::Retry { attempts_left: remaining } => {
                let rest = spec_run_launch(remaining, outcomes.drop_first());
                (rest.0 + 1, rest.1)
            },
            LaunchAction::Fail(e) => (1, Some(Err(e))),
            LaunchAction::Ready(c) => (1, Some(Ok(c))),
        }
    }
}

/// Over every stream of observations: a launch that ends in failure has
/// observed exactly `budget + 1` early exits — one per spawn, so no
/// abandoned child was ever left running — ends on an early exit, and
/// surfaces the early-exit error carrying that last observed status; a
/// launch that ends successfully ends on the observation whose probe
/// returned the configuration it packages.
pub proof fn lemma_run_launch(attempts_left: u8, outcomes: Seq<ProbeOutcome>)
    ensures
        ({
            let r = spec_run_launch(attempts_left, outcomes);
            (r.1 is Some && r.1->Some_0 is Err) ==> {
                &&& 1 <= r.0 <= outcomes.len()
                &&& count_early_exits(outcomes.take(r.0 as int)) == attempts_left + 1
                &&& outcomes[r.0 - 1] is Exited
                &&& r.1->Some_0->Err_0 == Error::EarlyExit(outcomes[r.0 - 1]->Exited_0)
            }
        }),
        ({
            let r = spec_run_launch(attempts_left, outcomes);
            (r.1 is Some && r.1->Some_0 is Ok) ==> {
                &&& 1 <= r.0 <= outcomes.len()
                &&& outcomes[r.0 - 1] is ConfigOk
                &&& r.1->Some_0->Ok_0 == outcomes[r.0 - 1]->ConfigOk_0
            }
        }),
    decreases outcomes.len(),
{
    if outcomes.len() == 0 {
    } else {
        let r = spec_run_launch(attempts_left, outcomes);
        match spec_launch_step(attempts_left, outcomes[0]) {
            LaunchAction::Poll => {
                lemma_run_launch(attempts_left, outcomes.drop_first());
                let rest = spec_run_launch(attempts_left, outcomes.drop_first());
                if rest.1 is Some {
                    assert(outcomes.take(r.0 as int).drop_first() =~= outcomes.drop_first().take(
                        rest.0 as int,
                    ));
                    assert(outcomes[r.0 - 1] == outcomes.drop_first()[rest.0 - 1]);
                }
            },
            LaunchAction::Retry { attempts_left: remaining } => {
                assert(outcomes[0] is Exited && attempts_left > 0 && remaining == attempts_left
                    - 1);
                lemma_run_launch(remaining, outcomes.drop_first());
                let rest = spec_run_launch(remaining, outcomes.drop_first());
                if rest.1 is Some {
                    assert(outcomes.take(r.0 as int).drop_first() =~= outcomes.drop_first().take(
                        rest.0 as int,
                    ));
                    assert(outcomes[r.0 - 1] == outcomes.drop_first()[rest.0 - 1]);
                }
            },
            LaunchAction::Fail(e) => {
                assert(outcomes[0] is Exited && attempts_left == 0);
                assert(outcomes.take(1).drop_first() =~= Seq::<ProbeOutcome>::empty());
                assert(outcomes.take(1)[0] == outcomes[0]);
                assert(count_early_exits(Seq::<ProbeOutcome>::empty()) == 0);
                assert(count_early_exits(outcomes.take(1)) == 1);
            },
            LaunchAction::Ready(c) => {},
        }
    }
}

/// How many times the executable is spawned, in total, by a launch that
/// starts with the given budget and whose child exits early on every
/// attempt.
pub open spec fn spawns_when_always_exiting(attempts_left: u8) -> nat
    decreases attempts_left,
{
    if attempts_left == 0 {
        1
    } else {
        1 + spawns_when_always_exiting((attempts_left - 1) as u8)
    }
}

/// A launch whose child is killed before binding on every attempt spawns
/// the executable exactly `budget + 1` times — the attempt count matches
/// the configured budget — and then surfaces the early-exit error with the
/// last observed status.
pub proof fn lemma_exhausted_budget(budget: u8, status: Option<i32>)
    ensures
        spawns_when_always_exiting(budget) == budget + 1,
        spec_launch_step(0, ProbeOutcome::Exited(status)) == LaunchAction::Fail(
            Error::EarlyExit(status),
        ),
        budget > 0 ==> spec_launch_step(budget, ProbeOutcome::Exited(status))
            == (LaunchAction::Retry { attempts_left: (budget - 1) as u8 }),
    decreases budget,
{
    if budget > 0 {
        lemma_exhausted_budget((budget - 1) as u8, status);
    }
}

} // verus!
