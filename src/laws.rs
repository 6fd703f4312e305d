//! What holds of the policy over all its inputs.
use vstd::prelude::*;

use crate::directive::{empty_directive, CacheDirective};
use crate::policy::{
    decision, directive_for, fallback_directive, MOVED_PERMANENTLY_MAX_AGE_SECS,
    SERVER_ERROR_MAX_AGE_SECS,
};

verus! {

/// Whether `d` sets `max-age` at most, and nothing else.
pub open spec fn sets_at_most_max_age(d: CacheDirective) -> bool {
    d == (CacheDirective { max_age: d.max_age, ..empty_directive() })
}

/// A response that already carries a directive is left as it is, whatever
/// its status, the request's hint and the default.
pub proof fn lemma_existing_directive_is_kept(
    status: u16,
    existing: CacheDirective,
    hint: Option<CacheDirective>,
    default: CacheDirective,
)
    ensures
        decision(status, Some(existing), hint, default) is None,
{
}

/// For a `1xx` or `2xx` status a request's hint that sets something is taken
/// as it is, and the default is not used.
pub proof fn lemma_success_takes_hint(status: u16, hint: CacheDirective, default: CacheDirective)
    requires
        100 <= status < 300,
        hint != empty_directive(),
    ensures
        directive_for(status, Some(hint), default) == hint,
{
}

/// A `301` always gets the default with `max-age` forced to a day and
/// `public` set, whatever the request's hint; from a default that sets
/// at most `max-age` (the fallback among them) that is `max-age=86400, public`.
pub proof fn lemma_moved_permanently(hint: Option<CacheDirective>, default: CacheDirective)
    ensures
        directive_for(301, hint, default) == directive_for(301, None, default),
        directive_for(301, hint, default).max_age == Some(MOVED_PERMANENTLY_MAX_AGE_SECS),
        directive_for(301, hint, default).public,
        sets_at_most_max_age(default) ==> directive_for(301, hint, default) == (CacheDirective {
            max_age: Some(MOVED_PERMANENTLY_MAX_AGE_SECS),
            public: true,
            ..empty_directive()
        }),
{
}

/// A `3xx` other than `301` without a hint gets the default with `private` set.
pub proof fn lemma_redirection_without_hint(status: u16, default: CacheDirective)
    requires
        300 <= status < 400,
        status != 301,
    ensures
        directive_for(status, None, default) == (CacheDirective { private: true, ..default }),
{
}

/// A `4xx` always gets exactly `no-cache, private`, whatever the request's
/// hint and the default.
pub proof fn lemma_client_error(status: u16, hint: Option<CacheDirective>, default: CacheDirective)
    requires
        400 <= status < 500,
    ensures
        directive_for(status, hint, default) == (CacheDirective {
            no_cache: true,
            private: true,
            ..empty_directive()
        }),
{
}

/// A `5xx` always gets the default with `max-age` forced to half an hour and
/// `public` set, whatever the request's hint; from a default that sets at
/// most `max-age` (the fallback among them) that is `max-age=1800, public`.
pub proof fn lemma_server_error(status: u16, hint: Option<CacheDirective>, default: CacheDirective)
    requires
        500 <= status < 600,
    ensures
        directive_for(status, hint, default) == directive_for(status, None, default),
        directive_for(status, hint, default).max_age == Some(SERVER_ERROR_MAX_AGE_SECS),
        directive_for(status, hint, default).public,
        sets_at_most_max_age(default) ==> directive_for(status, hint, default) == (CacheDirective {
            max_age: Some(SERVER_ERROR_MAX_AGE_SECS),
            public: true,
            ..empty_directive()
        }),
{
}

/// A hint that sets nothing counts as no hint, for every status; for a
/// `1xx` or `2xx` status the default is then used as it is.
pub proof fn lemma_empty_hint_is_absent(status: u16, default: CacheDirective)
    ensures
        directive_for(status, Some(empty_directive()), default) == directive_for(
            status,
            None,
            default,
        ),
        100 <= status < 300 ==> directive_for(status, Some(empty_directive()), default) == default,
{
}

/// The fallback default sets at most `max-age`.
pub proof fn lemma_fallback_sets_only_max_age()
    ensures
        sets_at_most_max_age(fallback_directive()),
{
}

/// The decision is a function of status, existing directive, hint and default
/// alone: two decisions on the same inputs agree.
pub proof fn lemma_decision_is_deterministic(
    status: u16,
    existing: Option<CacheDirective>,
    hint: Option<CacheDirective>,
    default: CacheDirective,
    first: Option<CacheDirective>,
    second: Option<CacheDirective>,
)
    requires
        first == decision(status, existing, hint, default),
        second == decision(status, existing, hint, default),
    ensures
        first == second,
{
}

} // verus!
