use vstd::prelude::*;

verus! {

/// The meaning of a `Cache-Control` header: the flags that are set and the
/// durations, in whole seconds, that are given.
#[derive(Clone, Copy, Debug, PartialEq, Eq, Structural)]
pub struct CacheDirective {
    pub no_cache: bool,
    pub no_store: bool,
    pub no_transform: bool,
    pub only_if_cached: bool,
    pub must_revalidate: bool,
    pub proxy_revalidate: bool,
    pub public: bool,
    pub private: bool,
    pub immutable: bool,
    pub must_understand: bool,
    pub max_age: Option<u64>,
    pub max_stale: Option<u64>,
    pub min_fresh: Option<u64>,
    pub s_max_age: Option<u64>,
}

/// The directive that sets nothing.
pub open spec fn empty_directive() -> CacheDirective {
    CacheDirective {
        no_cache: false,
        no_store: false,
        no_transform: false,
        only_if_cached: false,
        must_revalidate: false,
        proxy_revalidate: false,
        public: false,
        private: false,
        immutable: false,
        must_understand: false,
        max_age: None,
        max_stale: None,
        min_fresh: None,
        s_max_age: None,
    }
}

impl CacheDirective {
    /// An empty directive.
    pub fn new() -> (r: CacheDirective)
        ensures
            r == empty_directive(),
    {
        CacheDirective {
            no_cache: false,
            no_store: false,
            no_transform: false,
            only_if_cached: false,
            must_revalidate: false,
            proxy_revalidate: false,
            public: false,
            private: false,
            immutable: false,
            must_understand: false,
            max_age: None,
            max_stale: None,
            min_fresh: None,
            s_max_age: None,
        }
    }

    /// Whether nothing is set, that is, whether this equals [`CacheDirective::new`].
    pub fn is_empty(&self) -> (r: bool)
        ensures
            r == (*self == empty_directive()),
    {
        *self == CacheDirective::new()
    }

    /// The same directive with `max-age` set to `secs` seconds.
    pub fn with_max_age(self, secs: u64) -> (r: CacheDirective)
        ensures
            r == (CacheDirective { max_age: Some(secs), ..self }),
    {
        CacheDirective { max_age: Some(secs), ..self }
    }

    /// The same directive with `public` set.
    pub fn with_public(self) -> (r: CacheDirective)
        ensures
            r == (CacheDirective { public: true, ..self }),
    {
        CacheDirective { public: true, ..self }
    }

    /// The same directive with `private` set.
    pub fn with_private(self) -> (r: CacheDirective)
        ensures
            r == (CacheDirective { private: true, ..self }),
    {
        CacheDirective { private: true, ..self }
    }

    /// The same directive with `no-cache` set.
    pub fn with_no_cache(self) -> (r: CacheDirective)
        ensures
            r == (CacheDirective { no_cache: true, ..self }),
    {
        CacheDirective { no_cache: true, ..self }
    }
}

} // verus!
