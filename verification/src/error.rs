//! The error type shared by the balance commands, its messages and its
//! tagged wire form (`{ "type": .., "status": .., "message": .. }`).
use vstd::prelude::*;
use crate::text::{decimal, owned, push_decimal, push_str, str_equal};

verus! {

/// What can go wrong while querying a provider or managing the configuration.
#[derive(Debug)]
pub enum AppError {
    Network(String),
    Api { status: u16, message: String },
    Unauthorized,
    RateLimited,
    ProviderNotFound(String),
    DuplicateProvider(String),
    Keychain(String),
    Config(String),
    Unknown(String),
}

/// The mathematical value of an [`AppError`]: its variant and field contents.
pub enum AppErrorView {
    Network(Seq<char>),
    Api { status: u16, message: Seq<char> },
    Unauthorized,
    RateLimited,
    ProviderNotFound(Seq<char>),
    DuplicateProvider(Seq<char>),
    Keychain(Seq<char>),
    Config(Seq<char>),
    Unknown(Seq<char>),
}

impl View for AppError {
    type V = AppErrorView;

    open spec fn view(&self) -> AppErrorView {
        match self {
            AppError::Network(m) => AppErrorView::Network(m@),
            AppError::Api { status, message } => AppErrorView::Api { status: *status, message: message@ },
            AppError::Unauthorized => AppErrorView::Unauthorized,
            AppError::RateLimited => AppErrorView::RateLimited,
            AppError::ProviderNotFound(m) => AppErrorView::ProviderNotFound(m@),
            AppError::DuplicateProvider(m) => AppErrorView::DuplicateProvider(m@),
            AppError::Keychain(m) => AppErrorView::Keychain(m@),
            AppError::Config(m) => AppErrorView::Config(m@),
            AppError::Unknown(m) => AppErrorView::Unknown(m@),
        }
    }
}

impl Clone for AppError {
    fn clone(&self) -> (r: Self)
        ensures
            r == *self,
    {
        match self {
            AppError::Network(m) => AppError::Network(m.clone()),
            AppError::Api { status, message } => AppError::Api { status: *status, message: message.clone() },
            AppError::Unauthorized => AppError::Unauthorized,
            AppError::RateLimited => AppError::RateLimited,
            AppError::ProviderNotFound(m) => AppError::ProviderNotFound(m.clone()),
            AppError::DuplicateProvider(m) => AppError::DuplicateProvider(m.clone()),
            AppError::Keychain(m) => AppError::Keychain(m.clone()),
            AppError::Config(m) => AppError::Config(m.clone()),
            AppError::Unknown(m) => AppError::Unknown(m.clone()),
        }
    }
}

/// The human-readable message of an error.
pub open spec fn error_message(e: AppErrorView) -> Seq<char> {
    match e {
        AppErrorView::Network(m) => "Network error: "@ + m,
        AppErrorView::Api { status, message } => "API error: "@ + decimal(status as nat) + " - "@
            + message,
        AppErrorView::Unauthorized => "Authentication failed — check your API key"@,
        AppErrorView::RateLimited => "Rate limited — please wait before retrying"@,
        AppErrorView::ProviderNotFound(m) => "Provider not found: "@ + m,
        AppErrorView::DuplicateProvider(m) => "Duplicate provider: "@ + m,
        AppErrorView::Keychain(m) => "Keychain error: "@ + m,
        AppErrorView::Config(m) => "Config error: "@ + m,
        AppErrorView::Unknown(m) => "Unknown error: "@ + m,
    }
}

/// The tag that names each variant in the wire form.
pub open spec fn variant_tag(e: AppErrorView) -> Seq<char> {
    match e {
        AppErrorView::Network(_) => "Network"@,
        AppErrorView::Api { .. } => "Api"@,
        AppErrorView::Unauthorized => "Unauthorized"@,
        AppErrorView::RateLimited => "RateLimited"@,
        AppErrorView::ProviderNotFound(_) => "ProviderNotFound"@,
        AppErrorView::DuplicateProvider(_) => "DuplicateProvider"@,
        AppErrorView::Keychain(_) => "Keychain"@,
        AppErrorView::Config(_) => "Config"@,
        AppErrorView::Unknown(_) => "Unknown"@,
    }
}

/// The message field that the wire form carries, if the variant has one.
pub open spec fn wire_message(e: AppErrorView) -> Option<Seq<char>> {
    match e {
        AppErrorView::Network(m) => Some(m),
        AppErrorView::Api { message, .. } => Some(message),
        AppErrorView::Unauthorized => None,
        AppErrorView::RateLimited => None,
        AppErrorView::ProviderNotFound(m) => Some(m),
        AppErrorView::DuplicateProvider(m) => Some(m),
        AppErrorView::Keychain(m) => Some(m),
        AppErrorView::Config(m) => Some(m),
        AppErrorView::Unknown(m) => Some(m),
    }
}

/// The status field that the wire form carries, if the variant has one.
pub open spec fn wire_status(e: AppErrorView) -> Option<u16> {
    match e {
        AppErrorView::Api { status, .. } => Some(status),
        _ => None,
    }
}

/// The wire form of an error: an object with a `type` tag and, depending on
/// the variant, a `status` and a `message`.
pub struct WireError {
    pub kind: String,
    pub status: Option<u16>,
    pub message: Option<String>,
}

/// Why a wire object does not decode to an error.
#[derive(Debug)]
pub enum WireDecodeError {
    /// The object has no string `type` field.
    MissingType,
    /// The `type` names no variant.
    UnknownVariant(String),
}

/// The variant named by a wire tag, built from the decoded message and status
/// (`None` when the tag names no variant).
pub open spec fn decoded_error(kind: Seq<char>, status: u16, message: Seq<char>) -> Option<AppErrorView> {
    if kind == "Network"@ {
        Some(AppErrorView::Network(message))
    } else if kind == "Api"@ {
        Some(AppErrorView::Api { status, message })
    } else if kind == "Unauthorized"@ {
        Some(AppErrorView::Unauthorized)
    } else if kind == "RateLimited"@ {
        Some(AppErrorView::RateLimited)
    } else if kind == "ProviderNotFound"@ {
        Some(AppErrorView::ProviderNotFound(message))
    } else if kind == "DuplicateProvider"@ {
        Some(AppErrorView::DuplicateProvider(message))
    } else if kind == "Keychain"@ {
        Some(AppErrorView::Keychain(message))
    } else if kind == "Config"@ {
        Some(AppErrorView::Config(message))
    } else if kind == "Unknown"@ {
        Some(AppErrorView::Unknown(message))
    } else {
        None
    }
}

fn tagged(kind: &str, status: Option<u16>, message: Option<&String>) -> (w: WireError)
    ensures
        w.kind@ == kind@,
        w.status == status,
        w.message.is_some() == message.is_some(),
        message.is_some() ==> w.message.unwrap()@ == message.unwrap()@,
{
    WireError {
        kind: owned(kind),
        status,
        message: match message {
            Some(m) => Some(m.clone()),
            None => None,
        },
    }
}

impl AppError {
    /// The message that the error displays, e.g. `Network error: timeout`.
    pub fn to_string(&self) -> (s: String)
        ensures
            s@ == error_message(self@),
    {
        let mut s = String::new();
        match self {
            AppError::Network(m) => {
                push_str(&mut s, "Network error: ");
                push_str(&mut s, m.as_str());
            },
            AppError::Api { status, message } => {
                push_str(&mut s, "API error: ");
                push_decimal(&mut s, *status as u64);
                push_str(&mut s, " - ");
                push_str(&mut s, message.as_str());
            },
            AppError::Unauthorized => {
                push_str(&mut s, "Authentication failed — check your API key");
            },
            AppError::RateLimited => {
                push_str(&mut s, "Rate limited — please wait before retrying");
            },
            AppError::ProviderNotFound(m) => {
                push_str(&mut s, "Provider not found: ");
                push_str(&mut s, m.as_str());
            },
            AppError::DuplicateProvider(m) => {
                push_str(&mut s, "Duplicate provider: ");
                push_str(&mut s, m.as_str());
            },
            AppError::Keychain(m) => {
                push_str(&mut s, "Keychain error: ");
                push_str(&mut s, m.as_str());
            },
            AppError::Config(m) => {
                push_str(&mut s, "Config error: ");
                push_str(&mut s, m.as_str());
            },
            AppError::Unknown(m) => {
                push_str(&mut s, "Unknown error: ");
                push_str(&mut s, m.as_str());
            },
        }
        s
    }

    /// The wire form of the error: its tag, and the status and message that
    /// the variant carries.
    pub fn serialize(&self) -> (w: WireError)
        ensures
            w.kind@ == variant_tag(self@),
            w.status == wire_status(self@),
            w.message.is_some() == wire_message(self@).is_some(),
            w.message.is_some() ==> w.message.unwrap()@ == wire_message(self@).unwrap(),
    {
        match self {
            AppError::Network(m) => tagged("Network", None, Some(m)),
            AppError::Api { status, message } => tagged("Api", Some(*status), Some(message)),
            AppError::Unauthorized => tagged("Unauthorized", None, None),
            AppError::RateLimited => tagged("RateLimited", None, None),
            AppError::ProviderNotFound(m) => tagged("ProviderNotFound", None, Some(m)),
            AppError::DuplicateProvider(m) => tagged("DuplicateProvider", None, Some(m)),
            AppError::Keychain(m) => tagged("Keychain", None, Some(m)),
            AppError::Config(m) => tagged("Config", None, Some(m)),
            AppError::Unknown(m) => tagged("Unknown", None, Some(m)),
        }
    }

    /// Decodes a wire object from its fields: `kind` is the `type` field when it
    /// is a string, `status` the `status` field when it is an unsigned integer,
    /// `message` the `message` field when it is a string. A missing message
    /// reads as empty; a missing status as 0, and a status is cut to 16 bits.
    pub fn deserialize(kind: Option<&str>, status: Option<u64>, message: Option<&str>) -> (r: Result<
        AppError,
        WireDecodeError,
    >)
        ensures
            kind.is_none() ==> r matches Err(WireDecodeError::MissingType),
            kind.is_some() ==> {
                let k = kind.unwrap()@;
                let st: u16 = match status {
                    Some(s) => s as u16,
                    None => 0u16,
                };
                let m: Seq<char> = match message {
                    Some(t) => t@,
                    None => Seq::empty(),
                };
                match decoded_error(k, st, m) {
                    Some(e) => r matches Ok(v) && v@ == e,
                    None => r matches Err(WireDecodeError::UnknownVariant(t)) && t@ == k,
                }
            },
    {
        let kind = match kind {
            Some(k) => k,
            None => {
                return Err(WireDecodeError::MissingType);
            },
        };
        let msg: String = match message {
            Some(t) => owned(t),
            None => String::new(),
        };
        let st: u16 = match status {
            Some(s) => s as u16,
            None => 0,
        };
        if str_equal(kind, "Network") {
            Ok(AppError::Network(msg))
        } else if str_equal(kind, "Api") {
            Ok(AppError::Api { status: st, message: msg })
        } else if str_equal(kind, "Unauthorized") {
            Ok(AppError::Unauthorized)
        } else if str_equal(kind, "RateLimited") {
            Ok(AppError::RateLimited)
        } else if str_equal(kind, "ProviderNotFound") {
            Ok(AppError::ProviderNotFound(msg))
        } else if str_equal(kind, "DuplicateProvider") {
            Ok(AppError::DuplicateProvider(msg))
        } else if str_equal(kind, "Keychain") {
            Ok(AppError::Keychain(msg))
        } else if str_equal(kind, "Config") {
            Ok(AppError::Config(msg))
        } else if str_equal(kind, "Unknown") {
            Ok(AppError::Unknown(msg))
        } else {
            Err(WireDecodeError::UnknownVariant(owned(kind)))
        }
    }
}

/// Decoding the wire form of an error gives the same error back: the tag,
/// status and message that `serialize` writes are what `deserialize` reads.
pub proof fn lemma_wire_roundtrip(e: AppErrorView)
    ensures
        decoded_error(
            variant_tag(e),
            match wire_status(e) {
                Some(s) => s,
                None => 0u16,
            },
            match wire_message(e) {
                Some(m) => m,
                None => Seq::empty(),
            },
        ) == Some(e),
{
    reveal_strlit("Network");
    reveal_strlit("Api");
    reveal_strlit("Unauthorized");
    reveal_strlit("RateLimited");
    reveal_strlit("ProviderNotFound");
    reveal_strlit("DuplicateProvider");
    reveal_strlit("Keychain");
    reveal_strlit("Config");
    reveal_strlit("Unknown");
    assert("Network"@.len() == 7);
    assert("Api"@.len() == 3);
    assert("Unauthorized"@.len() == 12);
    assert("RateLimited"@.len() == 11);
    assert("ProviderNotFound"@.len() == 16);
    assert("DuplicateProvider"@.len() == 17);
    assert("Keychain"@.len() == 8);
    assert("Config"@.len() == 6);
    assert("Unknown"@.len() == 7);
    assert("Unknown"@[0] != "Network"@[0]);
}

} // verus!
