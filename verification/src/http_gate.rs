//! Api-key gate in front of an HTTP service: a guard that holds the two optional secrets
//! and makes, for a given next stage, the middleware of the policy they select.

use crate::policy::{
    admits, answers, forbidden_http, full_admits, http_forbidden, master_admits,
    optional_secret, read_only_admits, secret_bytes, select_policy, Action, Policy, Request,
};
use vstd::prelude::*;

verus! {

/// What the four middlewares of the HTTP gate have in common. `S` is the next stage,
/// which a middleware holds and never calls itself.
pub trait ApiKeyMiddleware<S> {
    /// The policy this middleware enforces.
    spec fn policy(&self) -> Policy;

    /// The next stage this middleware stands in front of.
    spec fn next(&self) -> S;

    /// Decides on one request: forward it, or answer `403 Invalid api-key`.
    fn call(&self, request: &Request) -> (action: Action)
        ensures
            answers(action, admits(self.policy(), request@), http_forbidden()),
    ;

    /// The next stage, for the caller to poll and to forward to.
    fn service(&self) -> (service: &S)
        ensures
            *service == self.next(),
    ;
}

/// Middleware of the full policy: a master secret and a read-only secret.
pub struct FullApiKeyMiddleware<S> {
    pub master_key: String,
    pub read_only_key: String,
    pub service: S,
}

impl<S> ApiKeyMiddleware<S> for FullApiKeyMiddleware<S> {
    open spec fn policy(&self) -> Policy {
        Policy::Full {
            master: secret_bytes(self.master_key@),
            read_only: secret_bytes(self.read_only_key@),
        }
    }

    open spec fn next(&self) -> S {
        self.service
    }

    fn call(&self, request: &Request) -> (action: Action) {
        if full_admits(self.master_key.as_str(), self.read_only_key.as_str(), request) {
            Action::Forward
        } else {
            Action::Reject(forbidden_http())
        }
    }

    fn service(&self) -> (service: &S) {
        &self.service
    }
}

/// Middleware of the master policy: a master secret only.
pub struct MasterKeyMiddleware<S> {
    pub master_key: String,
    pub service: S,
}

impl<S> ApiKeyMiddleware<S> for MasterKeyMiddleware<S> {
    open spec fn policy(&self) -> Policy {
        Policy::Master { master: secret_bytes(self.master_key@) }
    }

    open spec fn next(&self) -> S {
        self.service
    }

    fn call(&self, request: &Request) -> (action: Action) {
        if master_admits(self.master_key.as_str(), request) {
            Action::Forward
        } else {
            Action::Reject(forbidden_http())
        }
    }

    fn service(&self) -> (service: &S) {
        &self.service
    }
}

/// Middleware of the read-only policy: a read-only secret only.
pub struct ReadOnlyKeyMiddleware<S> {
    pub read_only_key: String,
    pub service: S,
}

impl<S> ApiKeyMiddleware<S> for ReadOnlyKeyMiddleware<S> {
    open spec fn policy(&self) -> Policy {
        Policy::ReadOnly { read_only: secret_bytes(self.read_only_key@) }
    }

    open spec fn next(&self) -> S {
        self.service
    }

    fn call(&self, request: &Request) -> (action: Action) {
        if read_only_admits(self.read_only_key.as_str(), request) {
            Action::Forward
        } else {
            Action::Reject(forbidden_http())
        }
    }

    fn service(&self) -> (service: &S) {
        &self.service
    }
}

/// Middleware of the open policy: no secret is configured and nothing is inspected.
pub struct PhantomMiddleware<S> {
    pub service: S,
}

impl<S> ApiKeyMiddleware<S> for PhantomMiddleware<S> {
    open spec fn policy(&self) -> Policy {
        Policy::Phantom
    }

    open spec fn next(&self) -> S {
        self.service
    }

    fn call(&self, request: &Request) -> (action: Action) {
        Action::Forward
    }

    fn service(&self) -> (service: &S) {
        &self.service
    }
}

/// A configured gate: the middleware that a guard made for one next stage.
#[verifier::reject_recursive_types(S)]
pub struct Gate<S> {
    pub middleware: Box<dyn ApiKeyMiddleware<S>>,
}

/// Factory of the HTTP gate. The secrets are fixed when the guard is made.
pub struct ApiKeyGuard {
    pub master_key: Option<String>,
    pub read_only_key: Option<String>,
}

impl ApiKeyGuard {
    /// The policy that the guard's secrets select.
    pub open spec fn policy(&self) -> Policy {
        select_policy(optional_secret(self.master_key), optional_secret(self.read_only_key))
    }

    /// Makes a gate in front of `service`: the middleware of the policy that the two
    /// optional secrets select, holding copies of them.
    pub fn new_transform<S: 'static>(&self, service: S) -> (gate: Gate<S>)
        ensures
            gate.middleware.policy() == self.policy(),
            gate.middleware.next() == service,
    {
        match (&self.master_key, &self.read_only_key) {
            (Some(master_key), Some(read_only_key)) => Gate {
                middleware: Box::new(
                    FullApiKeyMiddleware {
                        master_key: master_key.clone(),
                        read_only_key: read_only_key.clone(),
                        service,
                    },
                ),
            },
            (Some(master_key), None) => Gate {
                middleware: Box::new(MasterKeyMiddleware { master_key: master_key.clone(), service }),
            },
            (None, Some(read_only_key)) => Gate {
                middleware: Box::new(
                    ReadOnlyKeyMiddleware { read_only_key: read_only_key.clone(), service },
                ),
            },
            (None, None) => Gate { middleware: Box::new(PhantomMiddleware { service }) },
        }
    }
}

} // verus!
