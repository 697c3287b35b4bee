//! The auto traits that can be negated, and how an impl of each is written.

use crate::error::{Diagnostic, ErrorKind, SpanAt};
use vstd::prelude::*;

verus! {

/// The auto traits that a negative impl can be written for.
#[derive(Clone, Copy, Debug, PartialEq, Eq, Structural)]
pub enum AutoTrait {
    Send,
    Sync,
    Unpin,
    UnwindSafe,
    RefUnwindSafe,
}

/// The auto trait whose name is `name`, matched exactly and case-sensitively.
pub open spec fn auto_trait_named(name: Seq<char>) -> Option<AutoTrait> {
    if name == "Send"@ {
        Some(AutoTrait::Send)
    } else if name == "Sync"@ {
        Some(AutoTrait::Sync)
    } else if name == "Unpin"@ {
        Some(AutoTrait::Unpin)
    } else if name == "UnwindSafe"@ {
        Some(AutoTrait::UnwindSafe)
    } else if name == "RefUnwindSafe"@ {
        Some(AutoTrait::RefUnwindSafe)
    } else {
        None
    }
}

/// Whether a positive impl of the trait must be written `unsafe impl`.
pub open spec fn impl_is_unsafe(t: AutoTrait) -> bool {
    t == AutoTrait::Send || t == AutoTrait::Sync
}

/// The fully qualified path of the trait, rooted at `::core`.
pub open spec fn full_path_of(t: AutoTrait) -> Seq<char> {
    match t {
        AutoTrait::Send => "::core::marker::Send"@,
        AutoTrait::Sync => "::core::marker::Sync"@,
        AutoTrait::Unpin => "::core::marker::Unpin"@,
        AutoTrait::UnwindSafe => "::core::panic::UnwindSafe"@,
        AutoTrait::RefUnwindSafe => "::core::panic::RefUnwindSafe"@,
    }
}

pub open spec fn unsupported_message() -> Seq<char> {
    "non auto traits are not supported"@
}

/// How an impl of one auto trait is written out.
pub struct TraitInfo {
    pub auto_trait: AutoTrait,
    /// Whether the emitted impl is an `unsafe impl`.
    pub unsafety: bool,
    /// The trait's path as written in the emitted impl.
    pub full_path: String,
}

impl TraitInfo {
    /// Looks up the auto trait whose name is the last segment of the
    /// impl's trait path.
    pub fn new(name: &str) -> (r: Result<TraitInfo, Diagnostic>)
        ensures
            match auto_trait_named(name@) {
                Some(t) => r matches Ok(info) && info.auto_trait == t && info.unsafety
                    == impl_is_unsafe(t) && info.full_path@ == full_path_of(t),
                None => r matches Err(e) && e.kind == ErrorKind::UnsupportedTrait && e.at
                    == SpanAt::TraitPath && e.message@ == unsupported_message(),
            },
    {
        let name = name.to_owned();
        let t = if name == "Send".to_owned() {
            AutoTrait::Send
        } else if name == "Sync".to_owned() {
            AutoTrait::Sync
        } else if name == "Unpin".to_owned() {
            AutoTrait::Unpin
        } else if name == "UnwindSafe".to_owned() {
            AutoTrait::UnwindSafe
        } else if name == "RefUnwindSafe".to_owned() {
            AutoTrait::RefUnwindSafe
        } else {
            return Err(
                Diagnostic {
                    kind: ErrorKind::UnsupportedTrait,
                    at: SpanAt::TraitPath,
                    message: "non auto traits are not supported".to_owned(),
                },
            );
        };
        let full_path = match t {
            AutoTrait::Send => "::core::marker::Send".to_owned(),
            AutoTrait::Sync => "::core::marker::Sync".to_owned(),
            AutoTrait::Unpin => "::core::marker::Unpin".to_owned(),
            AutoTrait::UnwindSafe => "::core::panic::UnwindSafe".to_owned(),
            AutoTrait::RefUnwindSafe => "::core::panic::RefUnwindSafe".to_owned(),
        };
        let unsafety = match t {
            AutoTrait::Send | AutoTrait::Sync => true,
            _ => false,
        };
        Ok(TraitInfo { auto_trait: t, unsafety, full_path })
    }
}

} // verus!
