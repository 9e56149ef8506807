//! The delivery receipt text: the conventional labelled rendering of a
//! receipt, carried inside a deliver-sm short message.

use vstd::prelude::*;

use crate::wire::{ascii_seq, dec3_bytes, put_ascii, put_dec3};
use vstd::string::StringSliceAdditionalSpecFns;

verus! {

// ---------------------------------------------------------------------------
// Delivery receipt
// ---------------------------------------------------------------------------

/// A delivery receipt, rendered as the conventional receipt text rather
/// than as a PDU of its own.
#[derive(Debug, Clone, PartialEq)]
pub struct DeliveryReceipt {
    /// The message identifier.
    pub message_id: String,
    /// The number of messages submitted.
    pub submitted_count: u32,
    /// The number of messages delivered.
    pub delivered_count: u32,
    /// The time the message was submitted.
    pub submit_date: String,
    /// The time the message reached its final state.
    pub done_date: String,
    /// The final status.
    pub status: String,
    /// The error code, if any.
    pub error_code: u32,
    /// The free text of the receipt.
    pub text: String,
}

/// Model of a [`DeliveryReceipt`].
pub struct DeliveryReceiptV {
    /// The message identifier.
    pub message_id: Seq<char>,
    /// The number of messages submitted.
    pub submitted_count: u32,
    /// The number of messages delivered.
    pub delivered_count: u32,
    /// The submit date.
    pub submit_date: Seq<char>,
    /// The done date.
    pub done_date: Seq<char>,
    /// The final status.
    pub status: Seq<char>,
    /// The error code.
    pub error_code: u32,
    /// The free text.
    pub text: Seq<char>,
}

impl View for DeliveryReceipt {
    type V = DeliveryReceiptV;

    open spec fn view(&self) -> DeliveryReceiptV {
        DeliveryReceiptV {
            message_id: self.message_id@,
            submitted_count: self.submitted_count,
            delivered_count: self.delivered_count,
            submit_date: self.submit_date@,
            done_date: self.done_date@,
            status: self.status@,
            error_code: self.error_code,
            text: self.text@,
        }
    }
}

/// Printable non-null ASCII content for a receipt field.
pub open spec fn receipt_field_ok(s: Seq<char>) -> bool {
    forall|i: int| 0 <= i < s.len() ==> 0x01 <= (#[trigger] s[i]) as int <= 0x7f
}

/// Field bounds of a delivery receipt.
pub open spec fn wf_delivery_receipt(m: DeliveryReceiptV) -> bool {
    &&& receipt_field_ok(m.message_id)
    &&& receipt_field_ok(m.submit_date)
    &&& receipt_field_ok(m.done_date)
    &&& receipt_field_ok(m.status)
    &&& receipt_field_ok(m.text)
}

/// The receipt text: labelled fields in the conventional order, with the
/// counters and the error code zero-padded to at least three digits.
pub open spec fn delivery_receipt_enc(m: DeliveryReceiptV) -> Seq<u8> {
    "id:".spec_bytes() + ascii_seq(m.message_id) + " sub:".spec_bytes() + dec3_bytes(
        m.submitted_count as nat,
    ) + " dlvrd:".spec_bytes() + dec3_bytes(m.delivered_count as nat)
        + " submit date:".spec_bytes() + ascii_seq(m.submit_date) + " done date:".spec_bytes()
        + ascii_seq(m.done_date) + " stat:".spec_bytes() + ascii_seq(m.status)
        + " err:".spec_bytes() + dec3_bytes(m.error_code as nat) + " text:".spec_bytes()
        + ascii_seq(m.text)
}

/// Appends the UTF-8 bytes of a string slice.
fn put_lit(out: &mut Vec<u8>, s: &str)
    ensures
        final(out)@ == old(out)@ + s.spec_bytes(),
{
    out.extend_from_slice(s.as_bytes());
}

/// Encodes a `DeliveryReceipt` into the bytes of its receipt text.
pub fn encode_delivery_receipt(receipt: &DeliveryReceipt) -> (r: Vec<u8>)
    requires
        wf_delivery_receipt(receipt@),
    ensures
        r@ == delivery_receipt_enc(receipt@),
{
    let mut out: Vec<u8> = Vec::new();
    put_lit(&mut out, "id:");
    put_ascii(&mut out, receipt.message_id.as_str());
    put_lit(&mut out, " sub:");
    put_dec3(&mut out, receipt.submitted_count);
    put_lit(&mut out, " dlvrd:");
    put_dec3(&mut out, receipt.delivered_count);
    put_lit(&mut out, " submit date:");
    put_ascii(&mut out, receipt.submit_date.as_str());
    put_lit(&mut out, " done date:");
    put_ascii(&mut out, receipt.done_date.as_str());
    put_lit(&mut out, " stat:");
    put_ascii(&mut out, receipt.status.as_str());
    put_lit(&mut out, " err:");
    put_dec3(&mut out, receipt.error_code);
    put_lit(&mut out, " text:");
    put_ascii(&mut out, receipt.text.as_str());
    assert(out@ =~= delivery_receipt_enc(receipt@));
    out
}

} // verus!
