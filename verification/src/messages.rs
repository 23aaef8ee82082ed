//! The typed request and response shapes of the daemon's HTTP control API,
//! over plain values: public keys, addresses and invoices travel as the
//! strings the wire carries.
use vstd::prelude::*;
use vstd::string::StrSliceExecFns;
use vstd::string::StringExecFns;

use crate::numfmt::dec_rep;
use crate::numfmt::u64_to_dec;

verus! {

/// Daemon-reported identity, fetched once via `GET /config` when an
/// instance becomes ready: node public key (hex), advertised listening
/// address and optional access token.
#[derive(Debug, Clone, PartialEq, Eq)]
pub struct LspConfig {
    pub pubkey: String,
    pub ip_port: String,
    pub token: Option<String>,
}

/// Response of `GET /funding-address`.
#[derive(Debug, Clone, PartialEq, Eq)]
pub struct FundingAddress {
    pub address: String,
}

/// Request body of `POST /faucet`.
#[derive(Debug, Clone, PartialEq, Eq)]
pub struct FaucetRequest {
    pub address: String,
}

/// Request body of `POST /channels`.
#[derive(Debug, Clone, PartialEq, Eq)]
pub struct OpenChannelRequest {
    pub pubkey: String,
    pub ip_port: String,
    pub funding_sats: u64,
    pub push_sats: u64,
}

/// Response of `POST /channels`.
#[derive(Debug, Clone, PartialEq, Eq)]
pub struct OpenChannelResponse {
    pub user_channel_id: u128,
}

/// One channel as reported by `GET /channels`.
#[derive(Debug, Clone, PartialEq, Eq)]
pub struct CompactChannel {
    pub channel_id: String,
    pub counterparty_node_id: String,
    pub channel_value_sats: u64,
    pub user_channel_id: u128,
    pub outbound_capacity_msat: u64,
    pub inbound_capacity_msat: u64,
    pub is_channel_ready: bool,
    pub is_usable: bool,
}

/// Response of `GET /channels`.
#[derive(Debug, Clone, PartialEq, Eq)]
pub struct ListChannelsResponse {
    pub channels: Vec<CompactChannel>,
}

/// Request body of `POST /pay-invoice`.
#[derive(Debug, Clone, PartialEq, Eq)]
pub struct PayInvoiceRequest {
    pub invoice: String,
}

/// Response of `POST /pay-invoice`.
#[derive(Debug, Clone, PartialEq, Eq)]
pub struct PayInvoiceResponse {
    pub payment_id: String,
}

/// Request body of `POST /get-invoice`.
#[derive(Debug, Clone, PartialEq, Eq)]
pub struct GetInvoiceRequest {
    pub amount_sats: u64,
    pub description: String,
    pub expiry_secs: u32,
}

/// Response of `POST /get-invoice`.
#[derive(Debug, Clone, PartialEq, Eq)]
pub struct GetInvoiceResponse {
    pub invoice: String,
}

/// Response of `GET /balance`.
#[derive(Debug, Clone, PartialEq, Eq)]
pub struct GetBalanceResponse {
    pub total_onchain_balance_sats: u64,
    pub spendable_onchain_balance_sats: u64,
}

/// Response of `GET /get-payment/{id}`.
#[derive(Debug, Clone, PartialEq, Eq)]
pub struct GetPaymentResponse {
    pub status: String,
}

/// Whether a reported channel is both ready and usable.
pub open spec fn spec_channel_usable(c: CompactChannel) -> bool {
    c.is_channel_ready && c.is_usable
}

/// How many of the reported channels are both ready and usable.
pub open spec fn spec_usable_channels(s: Seq<CompactChannel>) -> nat
    decreases s.len(),
{
    if s.len() == 0 {
        0
    } else {
        spec_usable_channels(s.drop_last()) + (if spec_channel_usable(s.last()) {
            1nat
        } else {
            0nat
        })
    }
}

/// Counts the channels of a listing that are both ready and usable — the
/// figure a dependent's channel listing is held against once a bootstrap
/// completes.
pub fn count_usable_channels(channels: &Vec<CompactChannel>) -> (n: usize)
    ensures
        n == spec_usable_channels(channels@),
{
    let mut n: usize = 0;
    let mut i: usize = 0;
    while i < channels.len()
        invariant
            i <= channels@.len(),
            n == spec_usable_channels(channels@.take(i as int)),
            n <= i,
        decreases channels@.len() - i,
    {
        proof {
            assert(channels@.take(i as int + 1).drop_last() =~= channels@.take(i as int));
            assert(channels@.take(i as int + 1).last() == channels@[i as int]);
        }
        if channels[i].is_channel_ready && channels[i].is_usable {
            n = n + 1;
        }
        i = i + 1;
    }
    proof {
        assert(channels@.take(channels@.len() as int) =~= channels@);
    }
    n
}

/// The lifecycle states a payment can be reported in.
#[derive(Debug, Clone, Copy, PartialEq, Eq)]
pub enum PaymentStatus {
    Pending,
    Succeeded,
    Failed,
}

/// The wire word for each payment status.
pub open spec fn spec_status_str(s: PaymentStatus) -> Seq<char> {
    match s {
        PaymentStatus::Pending => "pending"@,
        PaymentStatus::Succeeded => "succeeded"@,
        PaymentStatus::Failed => "failed"@,
    }
}

/// Renders a payment status as the word the control API reports.
pub fn payment_status_string(s: PaymentStatus) -> (r: String)
    ensures
        r@ == spec_status_str(s),
{
    match s {
        PaymentStatus::Pending => "pending".to_owned(),
        PaymentStatus::Succeeded => "succeeded".to_owned(),
        PaymentStatus::Failed => "failed".to_owned(),
    }
}

/// The `:port` suffix under which a listening address advertises a port.
pub open spec fn spec_port_suffix(port: u16) -> Seq<char> {
    ":"@ + dec_rep(port as nat)
}

/// Whether an advertised listening address names the given port: the
/// address ends in `:port` and has at least one host character before it.
/// Used to hold a daemon-reported `ip_port` against the peer port its
/// launch configured.
pub fn ip_port_names_port(ip_port: &str, port: u16) -> (r: bool)
    ensures
        r <==> (ip_port@.len() > spec_port_suffix(port).len() && ip_port@.subrange(
            ip_port@.len() - spec_port_suffix(port).len(),
            ip_port@.len() as int,
        ) == spec_port_suffix(port)),
{
    let mut suffix = ":".to_owned();
    suffix.append(u64_to_dec(port as u64).as_str());
    let address_len = ip_port.unicode_len();
    let suffix_len = suffix.as_str().unicode_len();
    if address_len <= suffix_len {
        proof {
            assert(!(ip_port@.len() > spec_port_suffix(port).len()));
        }
        return false;
    }
    let start = address_len - suffix_len;
    let mut i: usize = 0;
    while i < suffix_len
        invariant
            i <= suffix_len,
            suffix@ == spec_port_suffix(port),
            suffix_len == suffix@.len(),
            address_len == ip_port@.len(),
            start == address_len - suffix_len,
            address_len > suffix_len,
            forall|j: int| 0 <= j < i ==> ip_port@[start + j] == suffix@[j],
        decreases suffix_len - i,
    {
        let address_char = ip_port.get_char(start + i);
        let suffix_char = suffix.as_str().get_char(i);
        if address_char != suffix_char {
            proof {
                assert(ip_port@.subrange(
                    ip_port@.len() - spec_port_suffix(port).len(),
                    ip_port@.len() as int,
                )[i as int] == ip_port@[start + i]);
            }
            return false;
        }
        i = i + 1;
    }
    proof {
        assert(ip_port@.subrange(
            ip_port@.len() - spec_port_suffix(port).len(),
            ip_port@.len() as int,
        ) =~= spec_port_suffix(port));
    }
    true
}

/// Converts a pushed amount from satoshis to millisatoshis, as the channel
/// opener does before handing the request to the node; `None` exactly when
/// the product would not fit.
pub fn push_sats_to_msat(push_sats: u64) -> (r: Option<u64>)
    ensures
        r is Some <==> push_sats * 1000 <= u64::MAX,
        r is Some ==> r->Some_0 == push_sats * 1000,
{
    if push_sats <= u64::MAX / 1000 {
        proof {
            assert(push_sats * 1000 <= (u64::MAX / 1000) * 1000 <= u64::MAX)
                by (nonlinear_arith)
                requires
                    push_sats <= u64::MAX / 1000,
            ;
        }
        Some(push_sats * 1000)
    } else {
        proof {
            assert(push_sats * 1000 > u64::MAX) by (nonlinear_arith)
                requires
                    push_sats > u64::MAX / 1000,
            ;
        }
        None
    }
}

} // verus!
