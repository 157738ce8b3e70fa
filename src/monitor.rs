use vstd::prelude::*;

verus! {

/// The status under which the monitor reports a transaction.
#[derive(Clone, Copy, Debug, PartialEq, Eq, Structural)]
pub enum TxStatus {
    Pending,
    Processed,
    Treated,
}

/// The topic under which a paid invoice is announced.
pub const INVOICE_PAID_TOPIC: &'static str = "invoice_paid";

/// What an invoice lookup reports.
pub const INVOICE_PAID: &'static str = "PAID";

/// The announcement that an invoice was paid by a transaction.
#[derive(Clone, Debug, PartialEq, Eq)]
pub struct InvoicePaid {
    pub topic: String,
    pub invoice_memo: String,
    pub tx_hash: String,
}

/// Relays payment transactions, matched to invoices by their memo.
pub struct TransactionMonitor;

impl TransactionMonitor {
    /// Handles a payment transaction: the event to publish, and the status
    /// the transaction is then in.
    pub fn process_tx_event(tx_hash: &String, invoice_memo: &String) -> (r: (TxStatus, InvoicePaid))
        ensures
            r.0 == TxStatus::Processed,
            r.1.topic@ == INVOICE_PAID_TOPIC@,
            r.1.invoice_memo@ == invoice_memo@,
            r.1.tx_hash@ == tx_hash@,
    {
        let event = InvoicePaid {
            topic: INVOICE_PAID_TOPIC.to_owned(),
            invoice_memo: invoice_memo.clone(),
            tx_hash: tx_hash.clone(),
        };
        (TxStatus::Processed, event)
    }

    /// The status of an invoice; every invoice reads as paid.
    pub fn get_invoice_status(_invoice_id: &String) -> (r: String)
        ensures
            r@ == INVOICE_PAID@,
    {
        INVOICE_PAID.to_owned()
    }
}

} // verus!
