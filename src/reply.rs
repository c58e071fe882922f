//! What the gateway answers: a status code and a body, and the failures
//! that end a request.

use vstd::prelude::*;

verus! {

/// The body of a reply.
#[derive(Debug, Clone, PartialEq, Eq)]
pub enum Body {
    Empty,
    Text(String),
    Bytes(Vec<u8>),
}

/// A reply to a request: an HTTP status code and a body.
#[derive(Debug, Clone, PartialEq, Eq)]
pub struct Reply {
    pub status: u16,
    pub body: Body,
}

/// The mathematical value of a [`Body`].
pub enum BodyModel {
    Empty,
    Text(Seq<char>),
    Bytes(Seq<u8>),
}

/// The mathematical value of a [`Reply`].
pub struct ReplyModel {
    pub status: u16,
    pub body: BodyModel,
}

impl View for Body {
    type V = BodyModel;

    open spec fn view(&self) -> BodyModel {
        match self {
            Body::Empty => BodyModel::Empty,
            Body::Text(s) => BodyModel::Text(s@),
            Body::Bytes(b) => BodyModel::Bytes(b@),
        }
    }
}

impl View for Reply {
    type V = ReplyModel;

    open spec fn view(&self) -> ReplyModel {
        ReplyModel { status: self.status, body: self.body@ }
    }
}

/// A failure that ends a request.
#[derive(Debug, Clone, PartialEq, Eq)]
pub enum GatewayError {
    /// A publish named no identifier and its body is not a CSAF document.
    MalformedInput,
    /// A lookup by vulnerability identifier, which is not resolvable yet.
    UnsupportedQuery,
    /// A lookup named neither an advisory nor a vulnerability.
    MissingParameter,
    /// No object is stored under the identifier looked up.
    NotFound,
    /// The stored object is flagged compressed but does not decompress.
    DecodeFailure,
    /// The object store refused a write; the detail is its own account.
    StoreFailure(String),
    /// The object store failed a read; the detail is its own account.
    ReadFailure(String),
}

/// The status code of a successful lookup.
pub const STATUS_OK: u16 = 200;

/// The status code of a successful publish.
pub const STATUS_CREATED: u16 = 201;

/// A reply with the stored document as its body.
pub open spec fn found_reply(doc: Seq<u8>) -> ReplyModel {
    ReplyModel { status: STATUS_OK, body: BodyModel::Bytes(doc) }
}

/// The reply that reports `e`.
pub open spec fn error_reply(e: GatewayError) -> ReplyModel {
    match e {
        GatewayError::MalformedInput => ReplyModel { status: 400, body: BodyModel::Empty },
        GatewayError::UnsupportedQuery => ReplyModel {
            status: 400,
            body: BodyModel::Text("CVE lookup is not yet supported"@),
        },
        GatewayError::MissingParameter => ReplyModel {
            status: 400,
            body: BodyModel::Text("Missing valid advisory or CVE"@),
        },
        GatewayError::NotFound => ReplyModel { status: 404, body: BodyModel::Empty },
        GatewayError::DecodeFailure => ReplyModel {
            status: 500,
            body: BodyModel::Text("Unable to decode object"@),
        },
        GatewayError::StoreFailure(detail) => ReplyModel {
            status: 500,
            body: BodyModel::Text("Error storing VEX: "@ + detail@),
        },
        GatewayError::ReadFailure(detail) => ReplyModel {
            status: 500,
            body: BodyModel::Text("Error reading VEX: "@ + detail@),
        },
    }
}

impl GatewayError {
    /// The status code and message that report this failure to the caller.
    pub fn reply(&self) -> (r: Reply)
        ensures
            r@ == error_reply(*self),
    {
        match self {
            GatewayError::MalformedInput => Reply { status: 400, body: Body::Empty },
            GatewayError::UnsupportedQuery => Reply {
                status: 400,
                body: Body::Text(String::from_str("CVE lookup is not yet supported")),
            },
            GatewayError::MissingParameter => Reply {
                status: 400,
                body: Body::Text(String::from_str("Missing valid advisory or CVE")),
            },
            GatewayError::NotFound => Reply { status: 404, body: Body::Empty },
            GatewayError::DecodeFailure => Reply {
                status: 500,
                body: Body::Text(String::from_str("Unable to decode object")),
            },
            GatewayError::StoreFailure(detail) => {
                let mut text = String::from_str("Error storing VEX: ");
                text.append(detail.as_str());
                Reply { status: 500, body: Body::Text(text) }
            },
            GatewayError::ReadFailure(detail) => {
                let mut text = String::from_str("Error reading VEX: ");
                text.append(detail.as_str());
                Reply { status: 500, body: Body::Text(text) }
            },
        }
    }
}

/// The digit character for `d`, which is below ten.
pub open spec fn digit_char(d: nat) -> char {
    ((d + 48) as u8) as char
}

/// The decimal numeral of `n`: no sign, no leading zeros.
pub open spec fn decimal(n: nat) -> Seq<char>
    decreases n,
{
    if n < 10 {
        seq![digit_char(n)]
    } else {
        decimal(n / 10).push(digit_char(n % 10))
    }
}

/// Relies on `ToString` for `usize`, that is its `Display`: the decimal
/// numeral of the value.
#[verifier::external_body]
pub(crate) fn decimal_text(n: usize) -> (r: String)
    ensures
        r@ == decimal(n as nat),
{
    n.to_string()
}

/// The confirmation of a publish that persisted `size` bytes.
pub open spec fn created_reply(size: nat) -> ReplyModel {
    ReplyModel {
        status: STATUS_CREATED,
        body: BodyModel::Text("VEX of size "@ + decimal(size) + " stored successfully"@),
    }
}

} // verus!
