//! One lookup, step by step.
//!
//! The caller owns the cache and the connection to the upstream service. It
//! reads the cache under [`Lookup::cache_key`] and hands the answer to
//! [`Lookup::on_cache`]. On a miss it sends [`PendingFetch::body`], hands the
//! decoded response or the failure to [`PendingFetch::on_reply`], and on
//! success stores and answers what [`CacheWrite`] holds. Each step decides
//! what comes next; none of them waits for anything.

use vstd::prelude::*;
use crate::error::{lookup_error_of, DispatchError, LookupError};
use crate::identifier::{classify, kind_of, IdKind};
use crate::model::{ApiResponse, Player};
use crate::request::{body_text, build_request, variable_text, QueryDocuments};
use crate::validate::{extract, extracted, requested_player};

verus! {

/// A lookup that waits for the cache's answer.
#[derive(Debug, PartialEq)]
pub struct Lookup {
    id: String,
}

/// What follows the cache's answer.
#[derive(Debug, PartialEq)]
pub enum CacheStep {
    /// The cache held the profile: it is the answer, and nothing is sent.
    Hit(Player),
    /// The cache held nothing: the upstream service has to be asked.
    Miss(PendingFetch),
}

/// A lookup that waits for the upstream service's answer.
#[derive(Debug, PartialEq)]
pub struct PendingFetch {
    id: String,
    kind: IdKind,
    body: String,
}

/// The end of a lookup that fetched a profile: `profile` goes into the cache
/// under `key`, and is the answer.
#[derive(Clone, Debug, PartialEq)]
pub struct CacheWrite {
    pub key: String,
    pub profile: Player,
}

/// What the upstream service's answer to a query of kind `kind` gives: the
/// profile, or the error that ends the lookup.
pub open spec fn fetched(kind: IdKind, reply: Result<ApiResponse, DispatchError>) -> Result<
    Player,
    LookupError,
> {
    match reply {
        Err(e) => Err(LookupError::Upstream(e)),
        Ok(envelope) => match extracted(envelope, kind) {
            Err(e) => Err(lookup_error_of(e)),
            Ok(profile) => Ok(profile),
        },
    }
}

/// The error of a lookup tells its cause. It is not found exactly when the
/// upstream service answered with a payload that lacks the player of the
/// requested kind, a bad upstream exactly when it answered without payload,
/// and an upstream error exactly when it could not be asked, with the
/// failure that the caller reported. So a player that does not exist is
/// never taken for a broken upstream service, nor the reverse.
pub proof fn lookup_error_tells_the_cause(
    kind: IdKind,
    reply: Result<ApiResponse, DispatchError>,
)
    ensures
        fetched(kind, reply) == Err::<Player, LookupError>(LookupError::NotFound) <==> {
            &&& reply matches Ok(envelope)
            &&& envelope.data matches Some(data)
            &&& requested_player(data, kind) is None
        },
        fetched(kind, reply) == Err::<Player, LookupError>(LookupError::BadUpstream) <==> {
            &&& reply matches Ok(envelope)
            &&& envelope.data is None
        },
        fetched(kind, reply) matches Err(LookupError::Upstream(e)) <==> reply is Err,
        fetched(kind, reply) matches Err(LookupError::Upstream(e)) ==> reply == Err::<
            ApiResponse,
            DispatchError,
        >(e),
{
}

impl Lookup {
    /// The key that is looked up, as the caller gave it.
    pub closed spec fn id(&self) -> Seq<char> {
        self.id@
    }

    /// Starts the lookup of `id`.
    pub fn new(id: String) -> (lookup: Lookup)
        ensures
            lookup.id() == id@,
    {
        Lookup { id }
    }

    /// The key to read the cache under: the key as given, unchanged.
    pub fn cache_key(&self) -> (key: &str)
        ensures
            key@ == self.id(),
    {
        self.id.as_str()
    }

    /// Takes the cache's answer. A profile from the cache ends the lookup
    /// and is handed back as it came. Without one the key is classified and
    /// the request for the upstream service is made ready.
    pub fn on_cache(self, cached: Option<Player>, documents: &QueryDocuments) -> (step: CacheStep)
        ensures
            match cached {
                Some(profile) => step == CacheStep::Hit(profile),
                None => {
                    &&& step matches CacheStep::Miss(fetch)
                    &&& fetch.id() == self.id()
                    &&& fetch.body_view() == body_text(
                        documents.document_text(kind_of(self.id())),
                        variable_text(kind_of(self.id())),
                        self.id(),
                    )
                },
            },
    {
        match cached {
            Some(profile) => CacheStep::Hit(profile),
            None => {
                let kind = classify(self.id.as_str());
                let body = build_request(documents, self.id.as_str(), kind);
                CacheStep::Miss(PendingFetch { id: self.id, kind, body })
            },
        }
    }
}

impl PendingFetch {
    /// The kind was found by classifying the key.
    #[verifier::type_invariant]
    closed spec fn kind_fits_key(self) -> bool {
        self.kind == kind_of(self.id@)
    }

    /// The key that is looked up, as the caller gave it.
    pub closed spec fn id(&self) -> Seq<char> {
        self.id@
    }

    /// The body of the request.
    pub closed spec fn body_view(&self) -> Seq<char> {
        self.body@
    }

    /// The key that the profile will be cached under: the key as given.
    pub fn cache_key(&self) -> (key: &str)
        ensures
            key@ == self.id(),
    {
        self.id.as_str()
    }

    /// The kind of the key, which decided the query that is sent.
    pub fn id_kind(&self) -> (kind: IdKind)
        ensures
            kind == kind_of(self.id()),
    {
        proof {
            use_type_invariant(self);
        }
        self.kind
    }

    /// The body to send to the upstream service, once.
    pub fn body(&self) -> (body: &str)
        ensures
            body@ == self.body_view(),
    {
        self.body.as_str()
    }

    /// Takes the upstream service's answer: the decoded response, or why
    /// there is none. A failure to ask ends the lookup as an upstream error.
    /// A response is checked against the kind of the key; what the check
    /// rejects ends the lookup, and the profile it accepts is to be cached
    /// under the key as given.
    pub fn on_reply(self, reply: Result<ApiResponse, DispatchError>) -> (end: Result<
        CacheWrite,
        LookupError,
    >)
        ensures
            match fetched(kind_of(self.id()), reply) {
                Err(e) => end == Err::<CacheWrite, LookupError>(e),
                Ok(profile) => {
                    &&& end matches Ok(write)
                    &&& write.key@ == self.id()
                    &&& write.profile == profile
                },
            },
    {
        proof {
            use_type_invariant(&self);
        }
        match reply {
            Err(e) => Err(LookupError::from(e)),
            Ok(envelope) => match extract(envelope, self.kind) {
                Err(e) => Err(LookupError::from(e)),
                Ok(profile) => Ok(CacheWrite { key: self.id, profile }),
            },
        }
    }
}

} // verus!
