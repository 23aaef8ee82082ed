//! The multi-process bootstrap: how a self-funded root instance derives
//! the launch parameters of a dependent instance pointed back at it as a
//! faucet, and the fixed channel amounts of the faucet handshake.
use vstd::prelude::*;
use vstd::string::StringExecFns;

use crate::messages::OpenChannelRequest;
use crate::numfmt::dec_rep;
use crate::numfmt::u64_to_dec;

verus! {

/// Funding amount, in satoshis, of the channel a faucet opens towards a
/// dependent node.
pub const FAUCET_FUNDING_SATS: u64 = 16_000_000;

/// Amount, in satoshis, the faucet pushes to the dependent side when the
/// channel opens.
pub const FAUCET_PUSH_SATS: u64 = 8_000_000;

/// The launch parameters of a dependent instance, derived from its root:
/// a sibling data directory, both ports offset by one, and the root's
/// control API as the faucet endpoint.
#[derive(Debug, Clone, PartialEq, Eq)]
pub struct ChildParams {
    /// The dependent's data directory: the root's with `.child` appended.
    pub data_dir: String,
    /// The dependent's peer-to-peer port: the root's plus one.
    pub lightning_port: u16,
    /// The dependent's control-API port: the root's plus one.
    pub api_port: u16,
    /// The root's control API, used by the dependent as a faucet.
    pub faucet_url: String,
}

/// The faucet URL a dependent is pointed at: the root's control API on the
/// local host.
pub open spec fn spec_faucet_url(api_port: u16) -> Seq<char> {
    "http://localhost:"@ + dec_rep(api_port as nat)
}

/// Derives a dependent instance's launch parameters from the root's data
/// directory and ports. The port offsets stay within the port range, so
/// the root may not sit on the very last port.
pub fn child_params(data_dir: &str, lightning_port: u16, api_port: u16) -> (r: ChildParams)
    requires
        lightning_port < 0xffff,
        api_port < 0xffff,
    ensures
        r.data_dir@ == data_dir@ + ".child"@,
        r.lightning_port == lightning_port + 1,
        r.api_port == api_port + 1,
        r.faucet_url@ == spec_faucet_url(api_port),
{
    let mut faucet_url = "http://localhost:".to_owned();
    faucet_url.append(u64_to_dec(api_port as u64).as_str());
    ChildParams {
        data_dir: data_dir.to_owned().concat(".child"),
        lightning_port: lightning_port + 1,
        api_port: api_port + 1,
        faucet_url,
    }
}

/// The exact argument list a root hands to the dependent process it
/// spawns: the derived directory and ports, the root's own chain-indexer
/// URL, and the root's control API as the faucet.
pub open spec fn spec_child_args(c: ChildParams, esplora_url: Seq<char>) -> Seq<Seq<char>> {
    seq![
        "--data-dir"@,
        c.data_dir@,
        "--lightning-port"@,
        dec_rep(c.lightning_port as nat),
        "--api-port"@,
        dec_rep(c.api_port as nat),
        "--esplora-url"@,
        esplora_url,
        "--lspsd-faucet-url"@,
        c.faucet_url@,
    ]
}

/// Builds the argument list for spawning a dependent instance.
pub fn child_args(c: &ChildParams, esplora_url: &str) -> (r: Vec<String>)
    ensures
        r.deep_view() == spec_child_args(*c, esplora_url@),
{
    let mut args: Vec<String> = Vec::new();
    args.push("--data-dir".to_owned());
    args.push(c.data_dir.clone());
    args.push("--lightning-port".to_owned());
    args.push(u64_to_dec(c.lightning_port as u64));
    args.push("--api-port".to_owned());
    args.push(u64_to_dec(c.api_port as u64));
    args.push("--esplora-url".to_owned());
    args.push(esplora_url.to_owned());
    args.push("--lspsd-faucet-url".to_owned());
    args.push(c.faucet_url.clone());
    proof {
        assert(args.deep_view() =~~= spec_child_args(*c, esplora_url@));
    }
    args
}

/// The dependent's side of the faucet handshake: the channel-open request
/// it sends to the faucet, naming itself — its node key and its local peer
/// socket — as counterparty, with the fixed funding and push amounts.
pub fn faucet_channel_request(pubkey: &str, lightning_port: u16) -> (r: OpenChannelRequest)
    ensures
        r.pubkey@ == pubkey@,
        r.ip_port@ == "127.0.0.1:"@ + dec_rep(lightning_port as nat),
        r.funding_sats == FAUCET_FUNDING_SATS,
        r.push_sats == FAUCET_PUSH_SATS,
{
    let mut ip_port = "127.0.0.1:".to_owned();
    ip_port.append(u64_to_dec(lightning_port as u64).as_str());
    OpenChannelRequest {
        pubkey: pubkey.to_owned(),
        ip_port,
        funding_sats: FAUCET_FUNDING_SATS,
        push_sats: FAUCET_PUSH_SATS,
    }
}

} // verus!
