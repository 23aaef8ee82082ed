//! The typed control-API client: which URL each operation addresses and
//! what request body it carries. Each operation is a single synchronous
//! HTTP exchange with no retry and no caching; the transport itself is
//! performed by an unverified driver, which takes the URL and body built
//! here and hands the decoded response back.
use vstd::prelude::*;
use vstd::string::StringExecFns;

use crate::messages::GetInvoiceRequest;
use crate::messages::OpenChannelRequest;
use crate::messages::PayInvoiceRequest;

verus! {

/// A client bound to one daemon's control API.
#[derive(Debug, Clone, PartialEq, Eq)]
pub struct LspsClient {
    base_url: String,
}

impl LspsClient {
    /// The base URL this client addresses, schema included.
    pub closed spec fn spec_base_url(&self) -> Seq<char> {
        self.base_url@
    }

    /// Binds a client to a control-API base URL such as
    /// `http://127.0.0.1:44842`.
    pub fn new(base_url: &str) -> (r: Self)
        ensures
            r.spec_base_url() == base_url@,
    {
        LspsClient { base_url: base_url.to_owned() }
    }

    fn url_join(&self, suffix: &str) -> (r: String)
        ensures
            r@ == self.spec_base_url() + suffix@,
    {
        self.base_url.clone().concat(suffix)
    }

    /// The URL of the configuration probe, `GET /config`.
    pub fn config_url(&self) -> (r: String)
        ensures
            r@ == self.spec_base_url() + "/config"@,
    {
        self.url_join("/config")
    }

    /// The URL of `GET /funding-address`.
    pub fn funding_address_url(&self) -> (r: String)
        ensures
            r@ == self.spec_base_url() + "/funding-address"@,
    {
        self.url_join("/funding-address")
    }

    /// The URL of `POST /faucet`.
    pub fn faucet_url(&self) -> (r: String)
        ensures
            r@ == self.spec_base_url() + "/faucet"@,
    {
        self.url_join("/faucet")
    }

    /// The URL of `POST /channels` and `GET /channels`.
    pub fn channels_url(&self) -> (r: String)
        ensures
            r@ == self.spec_base_url() + "/channels"@,
    {
        self.url_join("/channels")
    }

    /// The URL of `POST /pay-invoice`.
    pub fn pay_invoice_url(&self) -> (r: String)
        ensures
            r@ == self.spec_base_url() + "/pay-invoice"@,
    {
        self.url_join("/pay-invoice")
    }

    /// The URL of `POST /get-invoice`.
    pub fn get_invoice_url(&self) -> (r: String)
        ensures
            r@ == self.spec_base_url() + "/get-invoice"@,
    {
        self.url_join("/get-invoice")
    }

    /// The URL of `POST /sync`.
    pub fn sync_url(&self) -> (r: String)
        ensures
            r@ == self.spec_base_url() + "/sync"@,
    {
        self.url_join("/sync")
    }

    /// The URL of `GET /balance`.
    pub fn balance_url(&self) -> (r: String)
        ensures
            r@ == self.spec_base_url() + "/balance"@,
    {
        self.url_join("/balance")
    }

    /// The URL of `GET /get-payment/{id}` for the given hex payment id.
    pub fn get_payment_url(&self, payment_id: &str) -> (r: String)
        ensures
            r@ == self.spec_base_url() + "/get-payment/"@ + payment_id@,
    {
        let mut url = self.url_join("/get-payment/");
        url.append(payment_id);
        url
    }
}

/// Builds the body of `POST /channels`: open a channel to the named
/// counterparty, reachable at `ip_port`, with the given funding and push
/// amounts in satoshis.
pub fn open_channel_request(pubkey: &str, ip_port: &str, funding_sats: u64, push_sats: u64) -> (r:
    OpenChannelRequest)
    ensures
        r.pubkey@ == pubkey@,
        r.ip_port@ == ip_port@,
        r.funding_sats == funding_sats,
        r.push_sats == push_sats,
{
    OpenChannelRequest {
        pubkey: pubkey.to_owned(),
        ip_port: ip_port.to_owned(),
        funding_sats,
        push_sats,
    }
}

/// Builds the body of `POST /pay-invoice` for one encoded invoice.
pub fn pay_invoice_request(invoice: &str) -> (r: PayInvoiceRequest)
    ensures
        r.invoice@ == invoice@,
{
    PayInvoiceRequest { invoice: invoice.to_owned() }
}

/// Builds the body of `POST /get-invoice`: request an invoice over the
/// given amount, description and expiry.
pub fn get_invoice_request(amount_sats: u64, description: &str, expiry_secs: u32) -> (r:
    GetInvoiceRequest)
    ensures
        r.amount_sats == amount_sats,
        r.description@ == description@,
        r.expiry_secs == expiry_secs,
{
    GetInvoiceRequest { amount_sats, description: description.to_owned(), expiry_secs }
}

} // verus!
