//! The control-API client shapes: URLs, request bodies, payment ids,
//! amounts, rendered numbers and error messages.
use lspsd::bootstrap::child_args;
use lspsd::bootstrap::child_params;
use lspsd::bootstrap::faucet_channel_request;
use lspsd::client::get_invoice_request;
use lspsd::client::open_channel_request;
use lspsd::client::pay_invoice_request;
use lspsd::client::LspsClient;
use lspsd::hexid::parse_payment_id;
use lspsd::messages::count_usable_channels;
use lspsd::messages::ip_port_names_port;
use lspsd::messages::payment_status_string;
use lspsd::messages::push_sats_to_msat;
use lspsd::messages::CompactChannel;
use lspsd::messages::GetBalanceResponse;
use lspsd::messages::ListChannelsResponse;
use lspsd::messages::PaymentStatus;
use lspsd::numfmt::i32_to_dec;
use lspsd::numfmt::u64_to_dec;
use lspsd::Error;

#[test]
fn client_addresses_every_endpoint_under_its_base_url() {
    let client = LspsClient::new("http://127.0.0.1:44842");
    assert_eq!(client.config_url(), "http://127.0.0.1:44842/config");
    assert_eq!(client.funding_address_url(), "http://127.0.0.1:44842/funding-address");
    assert_eq!(client.faucet_url(), "http://127.0.0.1:44842/faucet");
    assert_eq!(client.channels_url(), "http://127.0.0.1:44842/channels");
    assert_eq!(client.pay_invoice_url(), "http://127.0.0.1:44842/pay-invoice");
    assert_eq!(client.get_invoice_url(), "http://127.0.0.1:44842/get-invoice");
    assert_eq!(client.sync_url(), "http://127.0.0.1:44842/sync");
    assert_eq!(client.balance_url(), "http://127.0.0.1:44842/balance");
    assert_eq!(
        client.get_payment_url("00ff"),
        "http://127.0.0.1:44842/get-payment/00ff"
    );
}

#[test]
fn open_channel_request_carries_the_given_fields() {
    let r = open_channel_request("02abc", "127.0.0.1:9735", 16_000_000, 8_000_000);
    assert_eq!(r.pubkey, "02abc");
    assert_eq!(r.ip_port, "127.0.0.1:9735");
    assert_eq!(r.funding_sats, 16_000_000);
    assert_eq!(r.push_sats, 8_000_000);
}

#[test]
fn invoice_request_builders_carry_the_given_fields() {
    let p = pay_invoice_request("lnbcrt1invoice");
    assert_eq!(p.invoice, "lnbcrt1invoice");
    let g = get_invoice_request(2500, "coffee", 3600);
    assert_eq!(g.amount_sats, 2500);
    assert_eq!(g.description, "coffee");
    assert_eq!(g.expiry_secs, 3600);
}

#[test]
fn faucet_channel_request_uses_the_fixed_amounts() {
    let r = faucet_channel_request("02abc", 9736);
    assert_eq!(r.pubkey, "02abc");
    assert_eq!(r.ip_port, "127.0.0.1:9736");
    assert_eq!(r.funding_sats, 16_000_000);
    assert_eq!(r.push_sats, 8_000_000);
}

#[test]
fn child_params_offset_ports_and_point_back_at_the_root() {
    let c = child_params("/tmp/root", 9735, 8080);
    assert_eq!(c.data_dir, "/tmp/root.child");
    assert_eq!(c.lightning_port, 9736);
    assert_eq!(c.api_port, 8081);
    assert_eq!(c.faucet_url, "http://localhost:8080");
}

#[test]
fn child_args_name_directory_ports_indexer_and_faucet() {
    let c = child_params("/tmp/root", 9735, 8080);
    let args = child_args(&c, "http://127.0.0.1:3002");
    assert_eq!(
        args,
        vec![
            "--data-dir".to_string(),
            "/tmp/root.child".to_string(),
            "--lightning-port".to_string(),
            "9736".to_string(),
            "--api-port".to_string(),
            "8081".to_string(),
            "--esplora-url".to_string(),
            "http://127.0.0.1:3002".to_string(),
            "--lspsd-faucet-url".to_string(),
            "http://localhost:8080".to_string(),
        ]
    );
}

#[test]
fn advertised_address_names_the_configured_port() {
    assert!(ip_port_names_port("0.0.0.0:9735", 9735));
    assert!(ip_port_names_port("127.0.0.1:9735", 9735));
    assert!(!ip_port_names_port("127.0.0.1:9736", 9735));
    assert!(!ip_port_names_port("127.0.0.1:19735", 9735));
    assert!(!ip_port_names_port(":9735", 9735));
    assert!(!ip_port_names_port("9735", 9735));
    assert!(!ip_port_names_port("", 9735));
}

#[test]
fn payment_statuses_render_as_the_wire_words() {
    assert_eq!(payment_status_string(PaymentStatus::Pending), "pending");
    assert_eq!(payment_status_string(PaymentStatus::Succeeded), "succeeded");
    assert_eq!(payment_status_string(PaymentStatus::Failed), "failed");
}

#[test]
fn push_amount_conversion_is_checked() {
    assert_eq!(push_sats_to_msat(8_000_000), Some(8_000_000_000));
    assert_eq!(push_sats_to_msat(0), Some(0));
    assert_eq!(push_sats_to_msat(u64::MAX / 1000), Some((u64::MAX / 1000) * 1000));
    assert_eq!(push_sats_to_msat(u64::MAX / 1000 + 1), None);
    assert_eq!(push_sats_to_msat(u64::MAX), None);
}

#[test]
fn payment_id_parses_64_hex_characters_to_32_bytes() {
    let mut id = String::new();
    for i in 0..32 {
        id.push_str(&format!("{:02x}", i));
    }
    let bytes = parse_payment_id(&id).expect("valid id");
    let expected: Vec<u8> = (0..32).collect();
    assert_eq!(bytes, expected);
}

#[test]
fn payment_id_accepts_either_hex_case() {
    let id = "AB".repeat(32);
    let bytes = parse_payment_id(&id).expect("valid id");
    assert_eq!(bytes, vec![0xab; 32]);
}

#[test]
fn payment_id_of_wrong_length_or_alphabet_is_rejected() {
    assert_eq!(parse_payment_id(""), None);
    assert_eq!(parse_payment_id(&"00".repeat(31)), None);
    assert_eq!(parse_payment_id(&"00".repeat(33)), None);
    let mut bad = "00".repeat(31);
    bad.push_str("0g");
    assert_eq!(parse_payment_id(&bad), None);
}

#[test]
fn decimal_rendering_is_exact() {
    assert_eq!(u64_to_dec(0), "0");
    assert_eq!(u64_to_dec(7), "7");
    assert_eq!(u64_to_dec(65535), "65535");
    assert_eq!(u64_to_dec(u64::MAX), "18446744073709551615");
    assert_eq!(i32_to_dec(7), "7");
    assert_eq!(i32_to_dec(-5), "-5");
    assert_eq!(i32_to_dec(i32::MIN), "-2147483648");
}

#[test]
fn error_messages_describe_each_failure() {
    assert_eq!(Error::Io("boom".to_string()).message(), "io error: boom");
    assert_eq!(
        Error::EarlyExit(Some(1)).message(),
        "The lspsd process terminated early with exit code 1"
    );
    assert_eq!(
        Error::EarlyExit(None).message(),
        "The lspsd process terminated early with exit code unknown (terminated by signal)"
    );
    assert_eq!(
        Error::BothDirsSpecified.message(),
        "tempdir and staticdir cannot be enabled at same time in configuration options"
    );
    assert_eq!(
        Error::NoEnvVar.message(),
        "Called a method requiring env var `LSPSD_EXE` to be set, but it's not"
    );
    assert_eq!(
        Error::NoFeature.message(),
        "Called a method requiring a feature to be set, but it's not"
    );
    assert!(Error::NoLspsdExecutableFound.message().contains("`lspsd` executable is required"));
}

#[test]
fn a_usable_channel_listing_has_the_expected_shape() {
    let listing = ListChannelsResponse {
        channels: vec![CompactChannel {
            channel_id: "abcd".to_string(),
            counterparty_node_id: "02abc".to_string(),
            channel_value_sats: 16_000_000,
            user_channel_id: 42,
            outbound_capacity_msat: 7_000_000_000,
            inbound_capacity_msat: 8_000_000_000,
            is_channel_ready: true,
            is_usable: true,
        }],
    };
    assert_eq!(listing.channels.len(), 1);
    assert!(listing.channels[0].is_channel_ready);
    assert!(listing.channels[0].is_usable);
    assert_eq!(count_usable_channels(&listing.channels), 1);

    let mut pending = listing.channels[0].clone();
    pending.is_channel_ready = false;
    pending.is_usable = false;
    let mixed = vec![pending, listing.channels[0].clone()];
    assert_eq!(count_usable_channels(&mixed), 1);
    assert_eq!(count_usable_channels(&Vec::new()), 0);

    let balance = GetBalanceResponse {
        total_onchain_balance_sats: 100_000_000,
        spendable_onchain_balance_sats: 99_000_000,
    };
    assert!(balance.spendable_onchain_balance_sats > 0);
}
