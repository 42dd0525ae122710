//! Api-key gate in front of a gRPC service: a layer that holds the two optional secrets
//! and wraps a next stage in the middleware of the policy they select.

use crate::policy::{
    admits, answers, forbidden_grpc, full_admits, grpc_forbidden, master_admits,
    optional_secret, read_only_admits, secret_bytes, select_policy, Action, Policy, Request,
};
use vstd::prelude::*;

verus! {

/// Factory of the gRPC gate. The secrets are fixed when the layer is made.
#[derive(Clone)]
pub struct ApiKeyMiddlewareLayer {
    pub master_key: Option<String>,
    pub read_only_key: Option<String>,
}

/// The gRPC gate around a next stage `S`, one variant for each policy.
#[derive(Clone)]
pub enum ApiKeyMiddleware<S> {
    FullApiKeyMiddleware { master_key: String, read_only_key: String, service: S },
    ReadOnlyApiKeyMiddleware { read_only_key: String, service: S },
    MasterApiKeyMiddleware { master_key: String, service: S },
    PhantomMiddleware { service: S },
}

impl ApiKeyMiddlewareLayer {
    /// The policy that the layer's secrets select.
    pub open spec fn policy(&self) -> Policy {
        select_policy(optional_secret(self.master_key), optional_secret(self.read_only_key))
    }

    /// Wraps `inner` in the middleware of the policy that the two optional secrets
    /// select, holding copies of them.
    pub fn layer<S>(&self, inner: S) -> (gate: ApiKeyMiddleware<S>)
        ensures
            gate.policy() == self.policy(),
            gate.next() == inner,
    {
        match (&self.master_key, &self.read_only_key) {
            (Some(master_key), Some(read_only_key)) => ApiKeyMiddleware::FullApiKeyMiddleware {
                master_key: master_key.clone(),
                read_only_key: read_only_key.clone(),
                service: inner,
            },
            (Some(master_key), None) => ApiKeyMiddleware::MasterApiKeyMiddleware {
                master_key: master_key.clone(),
                service: inner,
            },
            (None, Some(read_only_key)) => ApiKeyMiddleware::ReadOnlyApiKeyMiddleware {
                read_only_key: read_only_key.clone(),
                service: inner,
            },
            (None, None) => ApiKeyMiddleware::PhantomMiddleware { service: inner },
        }
    }
}

impl<S> ApiKeyMiddleware<S> {
    /// The policy this gate enforces.
    pub open spec fn policy(&self) -> Policy {
        match self {
            ApiKeyMiddleware::FullApiKeyMiddleware { master_key, read_only_key, .. } => Policy::Full {
                master: secret_bytes(master_key@),
                read_only: secret_bytes(read_only_key@),
            },
            ApiKeyMiddleware::ReadOnlyApiKeyMiddleware { read_only_key, .. } => Policy::ReadOnly {
                read_only: secret_bytes(read_only_key@),
            },
            ApiKeyMiddleware::MasterApiKeyMiddleware { master_key, .. } => Policy::Master {
                master: secret_bytes(master_key@),
            },
            ApiKeyMiddleware::PhantomMiddleware { .. } => Policy::Phantom,
        }
    }

    /// The next stage this gate stands in front of.
    pub open spec fn next(&self) -> S {
        match self {
            ApiKeyMiddleware::FullApiKeyMiddleware { service, .. } => *service,
            ApiKeyMiddleware::ReadOnlyApiKeyMiddleware { service, .. } => *service,
            ApiKeyMiddleware::MasterApiKeyMiddleware { service, .. } => *service,
            ApiKeyMiddleware::PhantomMiddleware { service } => *service,
        }
    }

    /// The next stage, whatever the policy: a gate is ready when its next stage is,
    /// so the caller polls what this returns.
    pub fn service(&self) -> (service: &S)
        ensures
            *service == self.next(),
    {
        match self {
            ApiKeyMiddleware::FullApiKeyMiddleware { service, .. } => service,
            ApiKeyMiddleware::ReadOnlyApiKeyMiddleware { service, .. } => service,
            ApiKeyMiddleware::MasterApiKeyMiddleware { service, .. } => service,
            ApiKeyMiddleware::PhantomMiddleware { service } => service,
        }
    }

    /// The next stage, for a caller that polls and calls it through `&mut`. Whatever
    /// the caller does to it, the policy stays.
    pub fn service_mut(&mut self) -> (service: &mut S)
        ensures
            *service == old(self).next(),
            final(self).next() == *final(service),
            final(self).policy() == old(self).policy(),
    {
        match self {
            ApiKeyMiddleware::FullApiKeyMiddleware { service, .. } => service,
            ApiKeyMiddleware::ReadOnlyApiKeyMiddleware { service, .. } => service,
            ApiKeyMiddleware::MasterApiKeyMiddleware { service, .. } => service,
            ApiKeyMiddleware::PhantomMiddleware { service } => service,
        }
    }

    /// Decides on one request: forward it, or answer with status 403 and the headers
    /// `grpc-status: 7` and `grpc-message: Invalid api-key`.
    pub fn call(&self, request: &Request) -> (action: Action)
        ensures
            answers(action, admits(self.policy(), request@), grpc_forbidden()),
    {
        let admitted: bool = match self {
            ApiKeyMiddleware::FullApiKeyMiddleware { master_key, read_only_key, .. } => full_admits(
                master_key.as_str(),
                read_only_key.as_str(),
                request,
            ),
            ApiKeyMiddleware::ReadOnlyApiKeyMiddleware { read_only_key, .. } => read_only_admits(
                read_only_key.as_str(),
                request,
            ),
            ApiKeyMiddleware::MasterApiKeyMiddleware { master_key, .. } => master_admits(
                master_key.as_str(),
                request,
            ),
            ApiKeyMiddleware::PhantomMiddleware { .. } => true,
        };
        if admitted {
            Action::Forward
        } else {
            Action::Reject(forbidden_grpc())
        }
    }
}

/// The open gate on its own: nothing is configured and nothing is inspected.
#[derive(Clone)]
pub struct PhantomMiddleware<S> {
    pub service: S,
}

impl<S> PhantomMiddleware<S> {
    /// Forwards every request.
    pub fn call(&self, request: &Request) -> (action: Action)
        ensures
            answers(action, admits(Policy::Phantom, request@), grpc_forbidden()),
    {
        Action::Forward
    }

    /// The next stage, for the caller to poll and to forward to.
    pub fn service(&self) -> (service: &S)
        ensures
            *service == self.service,
    {
        &self.service
    }
}

/// The read-only gate on its own: a read-only secret only.
#[derive(Clone)]
pub struct ReadOnlyKeyMiddleware<S> {
    pub read_only_key: String,
    pub service: S,
}

impl<S> ReadOnlyKeyMiddleware<S> {
    /// The policy this gate enforces.
    pub open spec fn policy(&self) -> Policy {
        Policy::ReadOnly { read_only: secret_bytes(self.read_only_key@) }
    }

    /// Decides on one request: forward it, or answer with the gRPC rejection.
    pub fn call(&self, request: &Request) -> (action: Action)
        ensures
            answers(action, admits(self.policy(), request@), grpc_forbidden()),
    {
        if read_only_admits(self.read_only_key.as_str(), request) {
            Action::Forward
        } else {
            Action::Reject(forbidden_grpc())
        }
    }

    /// The next stage, for the caller to poll and to forward to.
    pub fn service(&self) -> (service: &S)
        ensures
            *service == self.service,
    {
        &self.service
    }
}

} // verus!
