use vstd::prelude::*;

use crate::directive::{empty_directive, CacheDirective};

verus! {

/// `max-age`, in seconds, of the default used when none is configured.
pub const FALLBACK_MAX_AGE_SECS: u64 = 5;

/// `max-age`, in seconds, given to a `301 Moved Permanently` response: a day.
pub const MOVED_PERMANENTLY_MAX_AGE_SECS: u64 = 86_400;

/// `max-age`, in seconds, given to a server error or an unknown status: half an hour.
pub const SERVER_ERROR_MAX_AGE_SECS: u64 = 1_800;

/// The classes of status codes that the policy tells apart.
#[derive(Clone, Copy, Debug, PartialEq, Eq, Structural)]
pub enum StatusClass {
    /// Exactly `301 Moved Permanently`.
    MovedPermanently,
    /// `1xx` and `2xx`.
    Success,
    /// `3xx` other than `301`.
    Redirection,
    /// `4xx`.
    ClientError,
    /// `5xx` and any other code.
    Other,
}

pub open spec fn status_class(status: u16) -> StatusClass {
    if status == 301 {
        StatusClass::MovedPermanently
    } else if 100 <= status && status < 300 {
        StatusClass::Success
    } else if 300 <= status && status < 400 {
        StatusClass::Redirection
    } else if 400 <= status && status < 500 {
        StatusClass::ClientError
    } else {
        StatusClass::Other
    }
}

/// The class of `status`.
pub fn classify(status: u16) -> (r: StatusClass)
    ensures
        r == status_class(status),
{
    if status == 301 {
        StatusClass::MovedPermanently
    } else if 100 <= status && status < 300 {
        StatusClass::Success
    } else if 300 <= status && status < 400 {
        StatusClass::Redirection
    } else if 400 <= status && status < 500 {
        StatusClass::ClientError
    } else {
        StatusClass::Other
    }
}

/// The default used when none is configured: `max-age=5`.
pub open spec fn fallback_directive() -> CacheDirective {
    CacheDirective { max_age: Some(FALLBACK_MAX_AGE_SECS), ..empty_directive() }
}

/// The default that a call works with: the configured one, else the fallback.
pub open spec fn effective_default(configured: Option<CacheDirective>) -> CacheDirective {
    match configured {
        Some(d) => d,
        None => fallback_directive(),
    }
}

/// A request's hint counts only when it sets something.
pub open spec fn hint_in_effect(hint: Option<CacheDirective>) -> Option<CacheDirective> {
    match hint {
        Some(h) => if h == empty_directive() {
            None
        } else {
            Some(h)
        },
        None => None,
    }
}

/// The directive that the policy gives a response of `status` that carries
/// none of its own.
pub open spec fn directive_for(
    status: u16,
    hint: Option<CacheDirective>,
    default: CacheDirective,
) -> CacheDirective {
    let preferred = match hint_in_effect(hint) {
        Some(h) => h,
        None => default,
    };
    match status_class(status) {
        StatusClass::MovedPermanently => CacheDirective {
            max_age: Some(MOVED_PERMANENTLY_MAX_AGE_SECS),
            public: true,
            ..default
        },
        StatusClass::Success => preferred,
        StatusClass::Redirection => CacheDirective { private: true, ..preferred },
        StatusClass::ClientError => CacheDirective {
            no_cache: true,
            private: true,
            ..empty_directive()
        },
        StatusClass::Other => CacheDirective {
            max_age: Some(SERVER_ERROR_MAX_AGE_SECS),
            public: true,
            ..default
        },
    }
}

/// What the policy does with a response: nothing where it already carries a
/// directive, else attach `directive_for`.
pub open spec fn decision(
    status: u16,
    existing: Option<CacheDirective>,
    hint: Option<CacheDirective>,
    default: CacheDirective,
) -> Option<CacheDirective> {
    match existing {
        Some(_) => None,
        None => Some(directive_for(status, hint, default)),
    }
}

/// The fallback default, `max-age=5`.
pub fn fallback() -> (r: CacheDirective)
    ensures
        r == fallback_directive(),
{
    CacheDirective::new().with_max_age(FALLBACK_MAX_AGE_SECS)
}

/// The configured default, or the fallback where none is configured.
pub fn resolve_default(configured: Option<CacheDirective>) -> (r: CacheDirective)
    ensures
        r == effective_default(configured),
{
    match configured {
        Some(d) => d,
        None => fallback(),
    }
}

/// The request's hint where it sets something, else `None`.
pub fn effective_hint(hint: Option<CacheDirective>) -> (r: Option<CacheDirective>)
    ensures
        r == hint_in_effect(hint),
{
    match hint {
        Some(h) => if h.is_empty() {
            None
        } else {
            Some(h)
        },
        None => None,
    }
}

/// The directive for a response of `status` that carries none of its own,
/// given the request's hint and the default in effect.
pub fn directive_for_status(
    status: u16,
    hint: Option<CacheDirective>,
    default: CacheDirective,
) -> (r: CacheDirective)
    ensures
        r == directive_for(status, hint, default),
{
    let preferred = match effective_hint(hint) {
        Some(h) => h,
        None => default,
    };
    match classify(status) {
        StatusClass::MovedPermanently => default.with_max_age(
            MOVED_PERMANENTLY_MAX_AGE_SECS,
        ).with_public(),
        StatusClass::Success => preferred,
        StatusClass::Redirection => preferred.with_private(),
        StatusClass::ClientError => CacheDirective::new().with_no_cache().with_private(),
        StatusClass::Other => default.with_max_age(SERVER_ERROR_MAX_AGE_SECS).with_public(),
    }
}

/// The directive to attach to a response of `status`, or `None` where the
/// response already carries one (`existing`), which is then left as it is.
pub fn decide(
    status: u16,
    existing: Option<CacheDirective>,
    hint: Option<CacheDirective>,
    default: CacheDirective,
) -> (r: Option<CacheDirective>)
    ensures
        r == decision(status, existing, hint, default),
        existing.is_some() <==> r.is_none(),
{
    match existing {
        Some(_) => None,
        None => Some(directive_for_status(status, hint, default)),
    }
}

} // verus!
