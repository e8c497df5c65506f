use vstd::prelude::*;
use vstd::string::StringExecFns;

use crate::text::contains_seq;
use crate::text::contains_substring;

verus! {

/// Error categories shown to the status-bar consumer, patterned after HTTP
/// status codes.
#[derive(Clone, Copy, Debug, PartialEq, Eq, Structural)]
pub enum ErrorCode {
    /// The bus interface or service is not reachable right now.
    ServiceUnavailable,
    /// The bus connection itself failed.
    BadGateway,
    /// The interface or member does not exist.
    NotFound,
    /// A message payload could not be decoded.
    UnprocessableEntity,
}

impl ErrorCode {
    /// The numeric code attached to this category.
    pub open spec fn spec_code(self) -> u16 {
        match self {
            ErrorCode::ServiceUnavailable => 503,
            ErrorCode::BadGateway => 502,
            ErrorCode::NotFound => 404,
            ErrorCode::UnprocessableEntity => 422,
        }
    }

    /// Whether an error of this category is permanent: retrying can never
    /// succeed, so a retry loop must give up at once.
    pub open spec fn spec_is_permanent(self) -> bool {
        match self {
            ErrorCode::ServiceUnavailable => false,
            ErrorCode::BadGateway => false,
            ErrorCode::NotFound => true,
            ErrorCode::UnprocessableEntity => true,
        }
    }

    /// The one line printed for a fatal error: `E` followed by the code.
    pub open spec fn spec_waybar(self) -> Seq<char> {
        match self {
            ErrorCode::ServiceUnavailable => "E503"@,
            ErrorCode::BadGateway => "E502"@,
            ErrorCode::NotFound => "E404"@,
            ErrorCode::UnprocessableEntity => "E422"@,
        }
    }

    /// A human-readable description of the category.
    pub open spec fn spec_description(self) -> Seq<char> {
        match self {
            ErrorCode::ServiceUnavailable => "D-Bus interface not available"@,
            ErrorCode::BadGateway => "D-Bus connection failed"@,
            ErrorCode::NotFound => "Interface or member not found"@,
            ErrorCode::UnprocessableEntity => "Invalid message format"@,
        }
    }

    /// Get the numeric error code.
    pub fn code(&self) -> (c: u16)
        ensures
            c == self.spec_code(),
    {
        match self {
            ErrorCode::ServiceUnavailable => 503,
            ErrorCode::BadGateway => 502,
            ErrorCode::NotFound => 404,
            ErrorCode::UnprocessableEntity => 422,
        }
    }

    /// Format the error code for the status-bar display.
    pub fn format_for_waybar(&self) -> (s: String)
        ensures
            s@ == self.spec_waybar(),
    {
        match self {
            ErrorCode::ServiceUnavailable => String::from_str("E503"),
            ErrorCode::BadGateway => String::from_str("E502"),
            ErrorCode::NotFound => String::from_str("E404"),
            ErrorCode::UnprocessableEntity => String::from_str("E422"),
        }
    }

    /// Get a human-readable description of the error.
    pub fn description(&self) -> (d: &'static str)
        ensures
            d@ == self.spec_description(),
    {
        match self {
            ErrorCode::ServiceUnavailable => "D-Bus interface not available",
            ErrorCode::BadGateway => "D-Bus connection failed",
            ErrorCode::NotFound => "Interface or member not found",
            ErrorCode::UnprocessableEntity => "Invalid message format",
        }
    }
}

/// The mathematical shape of an [`AppError`]: the same variants over
/// character sequences.
pub enum AppErrorView {
    Connection(Seq<char>),
    NotFound(Seq<char>),
    MessageProcessing(Seq<char>),
    General(ErrorCode, Seq<char>),
}

impl AppErrorView {
    /// The category an error of this shape reports.
    pub open spec fn code(self) -> ErrorCode {
        match self {
            AppErrorView::Connection(_) => ErrorCode::BadGateway,
            AppErrorView::NotFound(_) => ErrorCode::NotFound,
            AppErrorView::MessageProcessing(_) => ErrorCode::UnprocessableEntity,
            AppErrorView::General(code, _) => code,
        }
    }
}

/// Application-level error, each variant carrying a human-readable message.
#[derive(Debug)]
pub enum AppError {
    /// The bus connection failed; carries the underlying cause's rendering.
    Connection(String),
    /// An interface or member was not found.
    NotFound(String),
    /// A message payload could not be processed.
    MessageProcessing(String),
    /// Any other classified failure, with its category.
    General(ErrorCode, String),
}

impl View for AppError {
    type V = AppErrorView;

    open spec fn view(&self) -> AppErrorView {
        match self {
            AppError::Connection(m) => AppErrorView::Connection(m@),
            AppError::NotFound(m) => AppErrorView::NotFound(m@),
            AppError::MessageProcessing(m) => AppErrorView::MessageProcessing(m@),
            AppError::General(code, m) => AppErrorView::General(*code, m@),
        }
    }
}

impl AppError {
    /// Whether this error is permanent; depends on the category alone.
    pub open spec fn spec_is_permanent(self) -> bool {
        self@.code().spec_is_permanent()
    }

    /// Get the error code for this error.
    pub fn error_code(&self) -> (c: ErrorCode)
        ensures
            c == self@.code(),
    {
        match self {
            AppError::Connection(_) => ErrorCode::BadGateway,
            AppError::NotFound(_) => ErrorCode::NotFound,
            AppError::MessageProcessing(_) => ErrorCode::UnprocessableEntity,
            AppError::General(code, _) => *code,
        }
    }

    /// Check if this error represents a permanent failure that shouldn't be
    /// retried.
    pub fn is_permanent(&self) -> (p: bool)
        ensures
            p == self.spec_is_permanent(),
    {
        match self.error_code() {
            ErrorCode::NotFound => true,
            ErrorCode::UnprocessableEntity => true,
            ErrorCode::ServiceUnavailable => false,
            ErrorCode::BadGateway => false,
        }
    }

    /// Create a connection error from the underlying cause's rendering.
    pub fn connection_failed(cause: String) -> (e: AppError)
        ensures
            e@ == AppErrorView::Connection(cause@),
    {
        AppError::Connection(cause)
    }

    /// Create a service unavailable error.
    pub fn service_unavailable(msg: String) -> (e: AppError)
        ensures
            e@ == AppErrorView::General(ErrorCode::ServiceUnavailable, msg@),
    {
        AppError::General(ErrorCode::ServiceUnavailable, msg)
    }

    /// Create a not found error.
    pub fn not_found(msg: String) -> (e: AppError)
        ensures
            e@ == AppErrorView::NotFound(msg@),
    {
        AppError::NotFound(msg)
    }

    /// Create a message processing error.
    pub fn message_processing(msg: String) -> (e: AppError)
        ensures
            e@ == AppErrorView::MessageProcessing(msg@),
    {
        AppError::MessageProcessing(msg)
    }
}

/// What the classifier reads of a raw bus failure.
pub struct BusFault {
    pub kind: BusFaultKind,
    /// The failure's textual rendering.
    pub text: String,
}

/// The structural part of a raw bus failure that classification looks at.
pub enum BusFaultKind {
    /// A method-invocation failure, with the error name of the reply.
    MethodError(String),
    /// The explicit interface-not-found condition.
    InterfaceNotFound,
    /// Any other failure.
    Other,
}

/// The mathematical shape of a [`BusFaultKind`].
pub enum BusFaultKindView {
    MethodError(Seq<char>),
    InterfaceNotFound,
    Other,
}

/// The mathematical shape of a [`BusFault`].
pub struct BusFaultView {
    pub kind: BusFaultKindView,
    pub text: Seq<char>,
}

impl View for BusFaultKind {
    type V = BusFaultKindView;

    open spec fn view(&self) -> BusFaultKindView {
        match self {
            BusFaultKind::MethodError(name) => BusFaultKindView::MethodError(name@),
            BusFaultKind::InterfaceNotFound => BusFaultKindView::InterfaceNotFound,
            BusFaultKind::Other => BusFaultKindView::Other,
        }
    }
}

impl View for BusFault {
    type V = BusFaultView;

    open spec fn view(&self) -> BusFaultView {
        BusFaultView { kind: self.kind@, text: self.text@ }
    }
}

/// An error name that marks the remote service as unavailable.
pub open spec fn name_marks_unavailable(name: Seq<char>) -> bool {
    ||| contains_seq(name, "ServiceUnknown"@)
    ||| contains_seq(name, "UnknownObject"@)
    ||| contains_seq(name, "UnknownInterface"@)
}

/// A textual rendering that marks the remote service as unavailable.
pub open spec fn text_marks_unavailable(text: Seq<char>) -> bool {
    ||| contains_seq(text, "not found"@)
    ||| contains_seq(text, "NotFound"@)
    ||| contains_seq(text, "ServiceUnknown"@)
    ||| contains_seq(text, "UnknownObject"@)
    ||| contains_seq(text, "UnknownInterface"@)
    ||| contains_seq(text, "service does not exist"@)
    ||| contains_seq(text, "No such service"@)
}

/// How a raw bus failure is classified, in order: a method-invocation failure
/// whose error name contains "NotFound" is a missing interface or member; the
/// explicit interface-not-found condition, a method-error name marking the
/// service unknown, or a rendering with an unavailability marker all mean the
/// service is unavailable; everything else is a connection-layer fault.
pub open spec fn spec_classify(f: BusFaultView) -> AppErrorView {
    match f.kind {
        BusFaultKindView::MethodError(name) => {
            if contains_seq(name, "NotFound"@) {
                AppErrorView::NotFound("D-Bus method not found: "@ + f.text)
            } else if name_marks_unavailable(name) || text_marks_unavailable(f.text) {
                AppErrorView::General(
                    ErrorCode::ServiceUnavailable,
                    "D-Bus service not available: "@ + f.text,
                )
            } else {
                AppErrorView::Connection(f.text)
            }
        },
        BusFaultKindView::InterfaceNotFound => AppErrorView::General(
            ErrorCode::ServiceUnavailable,
            "D-Bus interface not found"@,
        ),
        BusFaultKindView::Other => {
            if text_marks_unavailable(f.text) {
                AppErrorView::General(
                    ErrorCode::ServiceUnavailable,
                    "D-Bus service not available: "@ + f.text,
                )
            } else {
                AppErrorView::Connection(f.text)
            }
        },
    }
}

fn text_marked(text: &String) -> (r: bool)
    ensures
        r == text_marks_unavailable(text@),
{
    contains_substring(text.as_str(), "not found") || contains_substring(
        text.as_str(),
        "NotFound",
    ) || contains_substring(text.as_str(), "ServiceUnknown") || contains_substring(
        text.as_str(),
        "UnknownObject",
    ) || contains_substring(text.as_str(), "UnknownInterface") || contains_substring(
        text.as_str(),
        "service does not exist",
    ) || contains_substring(text.as_str(), "No such service")
}

/// Map a raw bus failure into the error taxonomy.
pub fn classify(f: &BusFault) -> (r: AppError)
    ensures
        r@ == spec_classify(f@),
{
    match &f.kind {
        BusFaultKind::MethodError(name) => {
            if contains_substring(name.as_str(), "NotFound") {
                AppError::NotFound(
                    String::from_str("D-Bus method not found: ").concat(f.text.as_str()),
                )
            } else if contains_substring(name.as_str(), "ServiceUnknown") || contains_substring(
                name.as_str(),
                "UnknownObject",
            ) || contains_substring(name.as_str(), "UnknownInterface") || text_marked(&f.text) {
                AppError::General(
                    ErrorCode::ServiceUnavailable,
                    String::from_str("D-Bus service not available: ").concat(f.text.as_str()),
                )
            } else {
                AppError::Connection(f.text.clone())
            }
        },
        BusFaultKind::InterfaceNotFound => AppError::General(
            ErrorCode::ServiceUnavailable,
            String::from_str("D-Bus interface not found"),
        ),
        BusFaultKind::Other => {
            if text_marked(&f.text) {
                AppError::General(
                    ErrorCode::ServiceUnavailable,
                    String::from_str("D-Bus service not available: ").concat(f.text.as_str()),
                )
            } else {
                AppError::Connection(f.text.clone())
            }
        },
    }
}

#[verifier::external_type_specification]
#[verifier::external_body]
pub struct ExZbusError(zbus::Error);

/// Relies on `zbus::Error`'s variants and its `Display` rendering: reads off
/// the plain values that classification looks at.
#[verifier::external_body]
fn fault_of_error(e: &zbus::Error) -> BusFault {
    let text = e.to_string();
    let kind = match e {
        zbus::Error::MethodError(name, _, _) => BusFaultKind::MethodError(name.to_string()),
        zbus::Error::InterfaceNotFound => BusFaultKind::InterfaceNotFound,
        _ => BusFaultKind::Other,
    };
    BusFault { kind, text }
}

/// Classify a raw `zbus` failure. Whatever the failure looked like, the
/// result is the classification of some raw fault; in particular it is never
/// a payload-decoding error (see [`lemma_classify_never_unprocessable`]).
pub fn classify_zbus_error(e: &zbus::Error) -> (r: AppError)
    ensures
        exists|f: BusFaultView| r@ == spec_classify(f),
        r@.code() != ErrorCode::UnprocessableEntity,
{
    let fault = fault_of_error(e);
    let r = classify(&fault);
    proof {
        assert(r@ == spec_classify(fault@));
        lemma_classify_never_unprocessable(fault@);
    }
    r
}

/// The classifier never produces a payload-decoding error: those are
/// constructed directly by the decoding path and bypass classification.
pub proof fn lemma_classify_never_unprocessable(f: BusFaultView)
    ensures
        spec_classify(f).code() != ErrorCode::UnprocessableEntity,
{
}

/// Permanence is a function of the error category alone: a missing interface
/// or member and an undecodable payload are permanent; an unavailable service
/// and a failed connection are transient.
pub proof fn lemma_permanence_table()
    ensures
        ErrorCode::NotFound.spec_is_permanent(),
        ErrorCode::UnprocessableEntity.spec_is_permanent(),
        !ErrorCode::ServiceUnavailable.spec_is_permanent(),
        !ErrorCode::BadGateway.spec_is_permanent(),
{
}

/// Two errors of the same category agree on permanence, whatever their
/// message content.
pub proof fn lemma_permanence_ignores_message(a: AppError, b: AppError)
    requires
        a@.code() == b@.code(),
    ensures
        a.spec_is_permanent() == b.spec_is_permanent(),
{
}

} // verus!
