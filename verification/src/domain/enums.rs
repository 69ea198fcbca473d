//! Statuses, capture methods and currencies.
use vstd::prelude::*;

verus! {

/// Where a payment attempt stands. The connector sets some of these and carries the others along.
#[derive(Clone, Copy, PartialEq, Eq, Structural, Debug)]
pub enum AttemptStatus {
    Started,
    AuthenticationFailed,
    RouterDeclined,
    AuthenticationPending,
    AuthenticationSuccessful,
    Authorized,
    AuthorizationFailed,
    Charged,
    Authorizing,
    CodInitiated,
    Voided,
    VoidInitiated,
    CaptureInitiated,
    CaptureFailed,
    VoidFailed,
    AutoRefunded,
    PartialCharged,
    PartialChargedAndChargeable,
    Unresolved,
    Pending,
    Failure,
    PaymentMethodAwaited,
    ConfirmationAwaited,
    DeviceDataCollectionPending,
}

/// Where a refund stands.
#[derive(Clone, Copy, PartialEq, Eq, Structural, Debug)]
pub enum RefundStatus {
    Success,
    Failure,
    Pending,
}

/// When an authorized amount is to be captured.
#[derive(Clone, Copy, PartialEq, Eq, Structural, Debug)]
pub enum CaptureMethod {
    Automatic,
    Manual,
    ManualMultiple,
    Scheduled,
    SequentialAutomatic,
}

/// The unit in which a connector takes amounts.
#[derive(Clone, Copy, PartialEq, Eq, Structural, Debug)]
pub enum CurrencyUnit {
    Base,
    Minor,
}

/// A currency, by its alphabetic ISO 4217 code.
#[derive(PartialEq, Eq, Debug)]
pub struct Currency {
    pub code: String,
}

impl View for Currency {
    type V = Seq<char>;

    open spec fn view(&self) -> Seq<char> {
        self.code@
    }
}

impl Currency {
    pub fn new(code: &str) -> (r: Self)
        ensures
            r@ == code@,
    {
        Currency { code: code.to_string() }
    }
}

impl Clone for Currency {
    fn clone(&self) -> (r: Self)
        ensures
            r == *self,
    {
        Currency { code: self.code.clone() }
    }
}

} // verus!
