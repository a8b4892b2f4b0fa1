//! Failures that cross the boundary, and their projection into one
//! human-readable message.
use vstd::prelude::*;
use vstd::string::*;

verus! {

/// The argument that a usage error is about.
#[derive(Clone, Copy, PartialEq, Eq, Structural, Debug)]
pub enum ArgName {
    Handle,
    DocHandle,
    Ticket,
    StoragePath,
    CustomRelayUrl,
    SecretHex,
    ContentHash,
    TagName,
    HashStr,
}

pub open spec fn arg_text(a: ArgName) -> Seq<char> {
    match a {
        ArgName::Handle => "handle"@,
        ArgName::DocHandle => "doc_handle"@,
        ArgName::Ticket => "ticket"@,
        ArgName::StoragePath => "storage_path"@,
        ArgName::CustomRelayUrl => "custom_relay_url"@,
        ArgName::SecretHex => "secret_hex"@,
        ArgName::ContentHash => "content_hash"@,
        ArgName::TagName => "tag_name"@,
        ArgName::HashStr => "hash_str"@,
    }
}

impl ArgName {
    /// The argument's name as the caller wrote it.
    pub fn text(&self) -> (r: &'static str)
        ensures
            r@ == arg_text(*self),
    {
        match self {
            ArgName::Handle => "handle",
            ArgName::DocHandle => "doc_handle",
            ArgName::Ticket => "ticket",
            ArgName::StoragePath => "storage_path",
            ArgName::CustomRelayUrl => "custom_relay_url",
            ArgName::SecretHex => "secret_hex",
            ArgName::ContentHash => "content_hash",
            ArgName::TagName => "tag_name",
            ArgName::HashStr => "hash_str",
        }
    }
}

/// Every way an operation can fail. Usage errors are found before any
/// native work starts; `Native` carries a message from the native services.
#[derive(Clone, PartialEq, Eq, Debug)]
pub enum BridgeError {
    /// A required argument was null.
    NullArgument(ArgName),
    /// A text argument was not valid UTF-8; the payload describes where.
    InvalidUtf8(ArgName, String),
    /// A handle that was never issued, or whose object is already gone.
    StaleHandle(ArgName),
    /// A document operation on a node created without document sync.
    DocsNotEnabled,
    /// Key material that is not hexadecimal text.
    InvalidHex(String),
    /// Key material of the wrong length, in bytes.
    InvalidSecretLength(usize),
    /// A timed operation did not finish in time.
    Timeout,
    /// A failure reported by a native service.
    Native(String),
}

/// The digit character for `d`, which is below ten.
pub open spec fn digit_char(d: nat) -> char {
    if d == 0 { '0' }
    else if d == 1 { '1' }
    else if d == 2 { '2' }
    else if d == 3 { '3' }
    else if d == 4 { '4' }
    else if d == 5 { '5' }
    else if d == 6 { '6' }
    else if d == 7 { '7' }
    else if d == 8 { '8' }
    else { '9' }
}

/// `n` written in decimal, without leading zeros.
pub open spec fn decimal(n: nat) -> Seq<char>
    decreases n,
{
    if n < 10 {
        seq![digit_char(n)]
    } else {
        decimal(n / 10) + seq![digit_char(n % 10)]
    }
}

/// The message that a caller receives for `e`.
pub open spec fn message_of(e: BridgeError) -> Seq<char> {
    match e {
        BridgeError::NullArgument(a) => arg_text(a) + " cannot be null"@,
        BridgeError::InvalidUtf8(a, detail) => "Invalid UTF-8 in "@ + arg_text(a) + ": "@ + detail@,
        BridgeError::StaleHandle(a) => arg_text(a) + " does not refer to a live object"@,
        BridgeError::DocsNotEnabled => "docs not enabled on this node"@,
        BridgeError::InvalidHex(detail) => "Invalid hex string: "@ + detail@,
        BridgeError::InvalidSecretLength(n) =>
            "Invalid secret length: expected 32 bytes, got "@ + decimal(n as nat),
        BridgeError::Timeout => "Operation timed out"@,
        BridgeError::Native(detail) => detail@,
    }
}

fn digit_text(d: usize) -> (r: &'static str)
    requires
        d < 10,
    ensures
        r@ == seq![digit_char(d as nat)],
{
    proof {
        reveal_strlit("0");
        reveal_strlit("1");
        reveal_strlit("2");
        reveal_strlit("3");
        reveal_strlit("4");
        reveal_strlit("5");
        reveal_strlit("6");
        reveal_strlit("7");
        reveal_strlit("8");
        reveal_strlit("9");
    }
    if d == 0 {
        "0"
    } else if d == 1 {
        "1"
    } else if d == 2 {
        "2"
    } else if d == 3 {
        "3"
    } else if d == 4 {
        "4"
    } else if d == 5 {
        "5"
    } else if d == 6 {
        "6"
    } else if d == 7 {
        "7"
    } else if d == 8 {
        "8"
    } else {
        "9"
    }
}

/// Writes `n` in decimal.
pub fn decimal_text(n: usize) -> (r: String)
    ensures
        r@ == decimal(n as nat),
    decreases n,
{
    if n < 10 {
        String::from_str(digit_text(n))
    } else {
        let head = decimal_text(n / 10);
        head.concat(digit_text(n % 10))
    }
}

impl BridgeError {
    /// Projects the failure into the single owned message that crosses the
    /// boundary.
    pub fn message(&self) -> (r: String)
        ensures
            r@ == message_of(*self),
    {
        match self {
            BridgeError::NullArgument(a) => String::from_str(a.text()).concat(" cannot be null"),
            BridgeError::InvalidUtf8(a, detail) => String::from_str("Invalid UTF-8 in ").concat(
                a.text(),
            ).concat(": ").concat(detail.as_str()),
            BridgeError::StaleHandle(a) => String::from_str(a.text()).concat(
                " does not refer to a live object",
            ),
            BridgeError::DocsNotEnabled => String::from_str("docs not enabled on this node"),
            BridgeError::InvalidHex(detail) => String::from_str("Invalid hex string: ").concat(
                detail.as_str(),
            ),
            BridgeError::InvalidSecretLength(n) => String::from_str(
                "Invalid secret length: expected 32 bytes, got ",
            ).concat(decimal_text(*n).as_str()),
            BridgeError::Timeout => String::from_str("Operation timed out"),
            BridgeError::Native(detail) => detail.clone(),
        }
    }
}

} // verus!
