use milestone_escrow::auth::Sep10Authenticator;
use milestone_escrow::identity::Identity;
use milestone_escrow::monitor::{TransactionMonitor, TxStatus};
use milestone_escrow::path_payment::{PathPayment, PaymentPath};

#[test]
fn challenge_is_fixed() {
    let user = Identity::new(vec![5; 32]);
    assert_eq!(
        Sep10Authenticator::request_challenge(&user),
        "AAAA......MOCK_SEP10_CHALLENGE_XDR......"
    );
}

#[test]
fn session_token_needs_proof() {
    let user = Identity::new(vec![5; 32]);
    let signed = String::from("signed");
    assert_eq!(
        Sep10Authenticator::verify_challenge(&user, &signed, true),
        Some(String::from("eyJhbGciOiJIUzI1Ni...VALID_SESSION_TOKEN"))
    );
    assert_eq!(Sep10Authenticator::verify_challenge(&user, &signed, false), None);
}

#[test]
fn tx_event_is_processed_and_announced() {
    let (status, event) =
        TransactionMonitor::process_tx_event(&String::from("abc123"), &String::from("INV-7"));
    assert_eq!(status, TxStatus::Processed);
    assert_eq!(event.topic, "invoice_paid");
    assert_eq!(event.invoice_memo, "INV-7");
    assert_eq!(event.tx_hash, "abc123");
}

#[test]
fn invoice_reads_paid() {
    assert_eq!(TransactionMonitor::get_invoice_status(&String::from("INV-7")), "PAID");
}

#[test]
fn strict_receive_paths_quote_fixed_rates() {
    let paths = PathPayment::find_strict_receive_paths(
        &vec![String::from("XLM"), String::from("NGN")],
        &String::from("USDC"),
        10,
    );
    assert_eq!(paths.len(), 2);
    assert_eq!(paths[0].source_asset, "XLM");
    assert_eq!(paths[0].source_amount, 50);
    assert!(paths[0].path.is_empty());
    assert_eq!(paths[0].destination_amount, 10);
    assert_eq!(paths[1].source_asset, "NGN");
    assert_eq!(paths[1].source_amount, 16000);
    assert!(paths[1].path.is_empty());
    assert_eq!(paths[1].destination_amount, 10);
}

#[test]
fn path_payment_spends_send_max_less_margin() {
    let item = PaymentPath {
        source_asset: String::from("XLM"),
        source_amount: 50,
        path: Vec::new(),
        destination_amount: 10,
    };
    assert_eq!(PathPayment::execute_path_payment(&item, 1000), Some(900));
    assert_eq!(PathPayment::execute_path_payment(&item, 0), Some(-100));
}
