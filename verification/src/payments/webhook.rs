//! Paystack webhooks: authenticating a delivery by its HMAC-SHA512 signature,
//! telling events apart, and settling a successful charge.
use vstd::prelude::*;
use vstd::utf8::{encode_utf8, is_ascii_chars, is_ascii_chars_encode_utf8};
use crate::auth::extractor::is_visible_ascii;
use crate::crypto::{ct_eq, hex_encode, hex_lower, hmac_sha512, hmac_sha512_tag};
use crate::error::{AppError, ErrorKind, Refusal, decided, refuse};
use crate::ids::hex_char;
use crate::text::{signed_decimal, str_eq};

verus! {

/// The signature a delivery of `body` must carry: the lowercase hex HMAC-SHA512
/// of the body under the webhook secret.
pub open spec fn expected_signature(secret: Seq<char>, body: Seq<u8>) -> Seq<char> {
    hex_lower(hmac_sha512_tag(encode_utf8(secret), body))
}

/// How an unauthenticated delivery is answered: an HTTP status and a body text.
pub open spec fn signature_outcome(secret: Seq<char>, body: Seq<u8>, header: Option<Seq<u8>>) -> Result<
    (),
    (u16, Seq<char>),
> {
    match header {
        None => Err((400, "missing signature"@)),
        Some(h) => if !(forall|i: int| 0 <= i < h.len() ==> is_visible_ascii(#[trigger] h[i])) {
            Err((400, "invalid signature"@))
        } else if h != encode_utf8(expected_signature(secret, body)) {
            Err((401, "invalid signature"@))
        } else {
            Ok(())
        },
    }
}

pub open spec fn opt_bytes(h: Option<&[u8]>) -> Option<Seq<u8>> {
    match h {
        Some(b) => Some(b@),
        None => None,
    }
}

/// Authenticates a webhook delivery: the `x-paystack-signature` header must be
/// present, readable as text, and equal (compared in constant time) to the hex
/// HMAC-SHA512 of the raw body under the webhook secret.
pub fn verify_signature(secret: &str, body: &[u8], header: Option<&[u8]>) -> (r: Result<
    (),
    (u16, &'static str),
>)
    ensures
        match signature_outcome(secret@, body@, opt_bytes(header)) {
            Ok(()) => r is Ok,
            Err((status, text)) => r matches Err((s, t)) && s == status && t@ == text,
        },
{
    let h = match header {
        None => {
            return Err((400, "missing signature"));
        },
        Some(h) => h,
    };
    let mut i: usize = 0;
    while i < h.len()
        invariant
            i <= h@.len(),
            header matches Some(x) && x@ == h@,
            forall|j: int| 0 <= j < i ==> is_visible_ascii(#[trigger] h@[j]),
        decreases h.len() - i,
    {
        let b = h[i];
        if !((32 <= b && b < 127) || b == 9) {
            assert(!is_visible_ascii(h@[i as int]));
            return Err((400, "invalid signature"));
        }
        i = i + 1;
    }
    let tag = match hmac_sha512(secret.as_bytes(), body) {
        Some(t) => t,
        None => {
            return Err((500, ""));
        },
    };
    let expected = hex_encode(tag.as_slice());
    if !ct_eq(h, expected.as_str().as_bytes()) {
        return Err((401, "invalid signature"));
    }
    Ok(())
}

proof fn lemma_hex_is_ascii(b: Seq<u8>)
    ensures
        is_ascii_chars(hex_lower(b)),
{
    assert forall|i| 0 <= i < hex_lower(b).len() implies '\0' <= #[trigger] hex_lower(b)[i]
        <= '\u{7f}' by {
        let d = if i % 2 == 0 {
            (b[i / 2] / 16) as int
        } else {
            (b[i / 2] % 16) as int
        };
        assert(0 <= d < 16);
    }
}

/// A delivery carrying the right signature for its body is accepted.
pub proof fn law_signed_delivery_accepted(secret: Seq<char>, body: Seq<u8>)
    ensures
        signature_outcome(secret, body, Some(encode_utf8(expected_signature(secret, body))))
            is Ok,
{
    let s = expected_signature(secret, body);
    lemma_hex_is_ascii(hmac_sha512_tag(encode_utf8(secret), body));
    is_ascii_chars_encode_utf8(s);
    let h = encode_utf8(s);
    assert forall|i: int| 0 <= i < h.len() implies is_visible_ascii(#[trigger] h[i]) by {
        assert(s[i] as u8 == h[i]);
        let hb = hmac_sha512_tag(encode_utf8(secret), body);
        let d = if i % 2 == 0 {
            (hb[i / 2] / 16) as int
        } else {
            (hb[i / 2] % 16) as int
        };
        assert(0 <= d < 16);
        assert(s[i] == hex_char(d));
    }
}

/// A readable signature other than the right one is refused as unauthorized.
pub proof fn law_wrong_signature_refused(secret: Seq<char>, body: Seq<u8>, sig: Seq<u8>)
    requires
        forall|i: int| 0 <= i < sig.len() ==> is_visible_ascii(#[trigger] sig[i]),
        sig != encode_utf8(expected_signature(secret, body)),
    ensures
        signature_outcome(secret, body, Some(sig)) == Err::<(), (u16, Seq<char>)>(
            (401u16, "invalid signature"@),
        ),
{
}

/// The events a webhook can carry, as far as the service acts on them.
#[derive(PartialEq, Eq, Structural, Clone, Copy)]
pub enum WebhookEvent {
    ChargeSuccess,
    ChargeFailed,
    Other,
}

/// Tells a webhook event apart by its name.
pub fn classify_event(event: &str) -> (r: WebhookEvent)
    ensures
        r == if event@ == "charge.success"@ {
            WebhookEvent::ChargeSuccess
        } else if event@ == "charge.failed"@ {
            WebhookEvent::ChargeFailed
        } else {
            WebhookEvent::Other
        },
{
    if str_eq(event, "charge.success") {
        WebhookEvent::ChargeSuccess
    } else if str_eq(event, "charge.failed") {
        WebhookEvent::ChargeFailed
    } else {
        WebhookEvent::Other
    }
}

/// The idempotency key of a delivery: its data id as decimal text.
pub fn event_key(id: i64) -> (r: String)
    ensures
        r@ == signed_decimal(id as int),
{
    crate::text::signed_decimal_string(id)
}

/// A payment as recorded before settlement.
pub struct PaymentRecord {
    pub amount_kobo: i64,
    pub platform_fee_kobo: i64,
    pub status: String,
}

/// What settling a successful charge does.
pub enum Settlement {
    /// The payment was already marked successful: nothing to do.
    AlreadySettled,
    /// Mark the payment successful with these fees and the amount the center
    /// receives.
    Settle { paystack_fee_kobo: i64, center_amount_kobo: i64 },
}

pub open spec fn settlement_refusal(verified_status: Seq<char>, payment: Option<PaymentRecord>, reference: Seq<char>) -> Option<
    Refusal,
> {
    if verified_status != "success"@ {
        Some((ErrorKind::Internal, "webhook claimed success but verify says "@ + verified_status))
    } else if payment is None {
        Some((ErrorKind::NotFound, "payment not found for reference "@ + reference))
    } else {
        None
    }
}

/// Decides how a charge the webhook reports as successful is settled: the charge
/// must be confirmed as `success` by Paystack and match a recorded payment; a
/// payment already marked successful is left alone; otherwise the center gets the
/// amount less the platform's fee and Paystack's fee (zero when not reported).
pub fn settle_charge(
    verified_status: &str,
    paystack_fees: Option<i64>,
    payment: Option<PaymentRecord>,
    reference: &str,
) -> (r: Result<Settlement, AppError>)
    requires
        payment matches Some(p) ==> (i64::MIN <= p.amount_kobo - p.platform_fee_kobo - match paystack_fees {
            Some(f) => f,
            None => 0,
        } <= i64::MAX && i64::MIN <= p.amount_kobo - p.platform_fee_kobo <= i64::MAX),
    ensures
        decided(r, settlement_refusal(verified_status@, payment, reference@)),
        r matches Ok(s) ==> payment matches Some(p) && s == settlement_for(p, paystack_fees),
        r matches Ok(s) ==> payment matches Some(p) && if p.status@ == "successful"@ {
            s is AlreadySettled
        } else {
            s matches Settlement::Settle { paystack_fee_kobo, center_amount_kobo }
                && paystack_fee_kobo == match paystack_fees {
                Some(f) => f,
                None => 0,
            } && center_amount_kobo == p.amount_kobo - p.platform_fee_kobo - paystack_fee_kobo
        },
{
    if !str_eq(verified_status, "success") {
        let mut m = String::from_str("webhook claimed success but verify says ");
        m.append(verified_status);
        return Err(AppError::Internal(m));
    }
    let p = match payment {
        None => {
            let mut m = String::from_str("payment not found for reference ");
            m.append(reference);
            return Err(AppError::NotFound(m));
        },
        Some(p) => p,
    };
    if str_eq(p.status.as_str(), "successful") {
        return Ok(Settlement::AlreadySettled);
    }
    let fee = match paystack_fees {
        Some(f) => f,
        None => 0,
    };
    Ok(Settlement::Settle { paystack_fee_kobo: fee, center_amount_kobo: p.amount_kobo - p.platform_fee_kobo - fee })
}

/// Why a failed charge failed, as recorded on the payment.
pub fn failure_reason(status: &str) -> (r: String)
    ensures
        r@ == "charge failed: "@ + status@,
{
    let mut s = String::from_str("charge failed: ");
    s.append(status);
    s
}

/// The settlement of a recorded payment whose charge Paystack confirmed.
pub open spec fn settlement_for(p: PaymentRecord, paystack_fees: Option<i64>) -> Settlement {
    if p.status@ == "successful"@ {
        Settlement::AlreadySettled
    } else {
        let fee = match paystack_fees {
            Some(f) => f,
            None => 0,
        };
        Settlement::Settle {
            paystack_fee_kobo: fee,
            center_amount_kobo: (p.amount_kobo - p.platform_fee_kobo - fee) as i64,
        }
    }
}

/// A payment already marked successful is never settled again, whatever a
/// repeated delivery reports: settlement is idempotent.
pub proof fn law_settlement_idempotent(p: PaymentRecord, fees: Option<i64>)
    requires
        p.status@ == "successful"@,
    ensures
        settlement_for(p, fees) is AlreadySettled,
{
}

/// What recording a delivery's event in the table of seen events gave.
#[derive(PartialEq, Eq, Structural, Clone, Copy)]
pub enum EventRecord {
    New,
    AlreadySeen,
    StoreFailed,
}

/// How the service goes on with an authenticated delivery.
#[derive(PartialEq, Eq, Structural, Clone, Copy)]
pub enum DeliveryStep {
    /// Process the event.
    Process,
    /// Answer at once with this status.
    Answer(u16),
}

pub open spec fn step_after(r: EventRecord) -> DeliveryStep {
    match r {
        EventRecord::New => DeliveryStep::Process,
        EventRecord::AlreadySeen => DeliveryStep::Answer(200),
        EventRecord::StoreFailed => DeliveryStep::Answer(500),
    }
}

/// Decides what follows recording an event: a new event is processed; one seen
/// before is acknowledged without processing; a failure to record is answered
/// as a server error, so that Paystack delivers again.
pub fn after_recording(r: EventRecord) -> (s: DeliveryStep)
    ensures
        s == step_after(r),
{
    match r {
        EventRecord::New => DeliveryStep::Process,
        EventRecord::AlreadySeen => DeliveryStep::Answer(200),
        EventRecord::StoreFailed => DeliveryStep::Answer(500),
    }
}

/// Only an event never seen before is processed; a repeated delivery is
/// acknowledged as received.
pub proof fn law_only_new_events_processed(r: EventRecord)
    ensures
        step_after(r) is Process <==> r is New,
        r is AlreadySeen ==> step_after(r) == DeliveryStep::Answer(200),
{
}

} // verus!
