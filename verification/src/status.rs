//! What the login tells its user interface.

use vstd::prelude::*;
use vstd::string::*;

verus! {

/// The text of an optional string.
pub open spec fn opt_text(s: Option<String>) -> Option<Seq<char>> {
    match s {
        Some(s) => Some(s@),
        None => None,
    }
}

/// The name of one QR code login.
#[derive(Debug, Eq, Hash, PartialEq)]
pub struct QrSessionId(pub String);

impl View for QrSessionId {
    type V = Seq<char>;

    open spec fn view(&self) -> Seq<char> {
        self.0@
    }
}

impl From<&str> for QrSessionId {
    fn from(value: &str) -> (id: Self)
        ensures
            id@ == value@,
    {
        QrSessionId(value.to_owned())
    }
}

impl vstd::std_specs::convert::FromSpecImpl<&str> for QrSessionId {
    open spec fn obeys_from_spec() -> bool {
        false
    }

    open spec fn from_spec(value: &str) -> Self {
        QrSessionId(choose|s: String| s@ == value@)
    }
}

impl Clone for QrSessionId {
    fn clone(&self) -> (id: Self)
        ensures
            id@ == self@,
    {
        QrSessionId(self.0.clone())
    }
}

/// A QR code login that has begun: its name and the image to scan.
pub struct QrLoginStart {
    pub session_id: QrSessionId,
    pub qr_image: String,
}

impl Clone for QrLoginStart {
    fn clone(&self) -> (start: Self)
        ensures
            start.session_id@ == self.session_id@,
            start.qr_image@ == self.qr_image@,
    {
        QrLoginStart { session_id: self.session_id.clone(), qr_image: self.qr_image.clone() }
    }
}

/// The account that is logged in.
pub struct QzoneLoginUser {
    pub uin: String,
    pub nickname: String,
    pub avatar_image: Option<String>,
}

/// Where a login stands.
pub struct LoginStatus {
    pub session_id: Option<QrSessionId>,
    pub status: &'static str,
    pub message: String,
    pub qr_image: Option<String>,
}

/// What a `LoginStatus` says.
#[verifier::ext_equal]
pub struct StatusView {
    pub session_id: Option<Seq<char>>,
    pub status: Seq<char>,
    pub message: Seq<char>,
    pub qr_image: Option<Seq<char>>,
}

impl View for LoginStatus {
    type V = StatusView;

    open spec fn view(&self) -> StatusView {
        StatusView {
            session_id: match self.session_id {
                Some(id) => Some(id@),
                None => None,
            },
            status: self.status@,
            message: self.message@,
            qr_image: opt_text(self.qr_image),
        }
    }
}

/// A status of the QR code login `id` without an image.
pub open spec fn qr_report(id: Seq<char>, status: &str, message: &str) -> StatusView {
    StatusView { session_id: Some(id), status: status@, message: message@, qr_image: None }
}

/// A status that belongs to no QR code login.
pub open spec fn plain_report(status: &str, message: &str) -> StatusView {
    StatusView { session_id: None, status: status@, message: message@, qr_image: None }
}

/// The status `status` of the QR code login `id`, with a message and perhaps an image.
pub fn login_status(
    id: &QrSessionId,
    status: &'static str,
    message: &str,
    image: Option<String>,
) -> (report: LoginStatus)
    ensures
        report@ == (StatusView {
            session_id: Some(id@),
            status: status@,
            message: message@,
            qr_image: opt_text(image),
        }),
{
    LoginStatus {
        session_id: Some(id.clone()),
        status,
        message: message.to_owned(),
        qr_image: image,
    }
}

/// The status `status` of a login without a QR code.
pub fn plain_status(status: &'static str, message: &str) -> (report: LoginStatus)
    ensures
        report@ == (StatusView {
            session_id: None,
            status: status@,
            message: message@,
            qr_image: None,
        }),
{
    LoginStatus { session_id: None, status, message: message.to_owned(), qr_image: None }
}

} // verus!
