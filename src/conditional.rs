//! Conditional composition: a layer chosen once, at construction, to either
//! run an inner chain or pass requests straight to the next stage.
use vstd::prelude::*;

use crate::message::{Request, Response};
use crate::stage::{Layer, Readiness, Stage};

verus! {

/// A stage that is either the enabled inner chain `S` or, when disabled, the
/// next stage `N` itself.
#[derive(Debug, Clone)]
pub enum Conditional<S, N> {
    Enabled(S),
    Disabled(N),
}

impl<S, N> Stage for Conditional<S, N> where
    S: Stage,
    N: Stage<Output = S::Output, Fault = S::Fault>,
 {
    type Output = S::Output;

    type Fault = S::Fault;

    /// Enabled, it reports what the inner chain reports; disabled, what the
    /// next stage reports, adding no wait or failure of its own.
    open spec fn may_report(&self, readiness: Readiness<S::Fault>) -> bool {
        match self {
            Conditional::Enabled(s) => s.may_report(readiness),
            Conditional::Disabled(n) => n.may_report(readiness),
        }
    }

    open spec fn is_ready(&self) -> bool {
        match self {
            Conditional::Enabled(s) => s.is_ready(),
            Conditional::Disabled(n) => n.is_ready(),
        }
    }

    open spec fn may_answer(
        &self,
        request: Request,
        result: Result<Response<S::Output>, S::Fault>,
    ) -> bool {
        match self {
            Conditional::Enabled(s) => s.may_answer(request, result),
            Conditional::Disabled(n) => n.may_answer(request, result),
        }
    }

    fn poll_ready(&mut self) -> (r: Readiness<S::Fault>)
        ensures
            (*final(self) is Enabled) == (*old(self) is Enabled),
    {
        match self {
            Conditional::Enabled(s) => s.poll_ready(),
            Conditional::Disabled(n) => n.poll_ready(),
        }
    }

    fn call(&mut self, request: Request) -> (r: Result<Response<S::Output>, S::Fault>)
        ensures
            (*final(self) is Enabled) == (*old(self) is Enabled),
    {
        match self {
            Conditional::Enabled(s) => s.call(request),
            Conditional::Disabled(n) => n.call(request),
        }
    }
}

/// A layer that applies `L` when it was built enabled, and nothing otherwise.
#[derive(Debug, Clone)]
pub struct ConditionalLayer<L> {
    /// The layer applied, present exactly when enabled.
    pub layer: Option<L>,
}

/// Whether an optional configuration flag enables a feature: a missing flag
/// leaves it disabled.
pub open spec fn flag_enables(flag: Option<bool>) -> bool {
    flag == Some(true)
}

impl<L> ConditionalLayer<L> {
    /// Holds when the layer was built enabled.
    pub open spec fn enabled(self) -> bool {
        self.layer is Some
    }

    /// Applies `layer` when `enabled` holds.
    pub fn with_enabled(enabled: bool, layer: L) -> (r: Self)
        ensures
            r.enabled() == enabled,
            enabled ==> r.layer == Some(layer),
    {
        if enabled {
            ConditionalLayer { layer: Some(layer) }
        } else {
            ConditionalLayer { layer: None }
        }
    }

    /// Applies `layer` when the configuration flag is present and set.
    pub fn from_flag(flag: Option<bool>, layer: L) -> (r: Self)
        ensures
            r.enabled() == flag_enables(flag),
            flag_enables(flag) ==> r.layer == Some(layer),
    {
        let enabled = match flag {
            Some(b) => b,
            None => false,
        };
        Self::with_enabled(enabled, layer)
    }
}

impl<L, S> Layer<S> for ConditionalLayer<L> where L: Layer<S> {
    type Service = Conditional<L::Service, S>;

    open spec fn wraps(&self, inner: S, service: Conditional<L::Service, S>) -> bool {
        match self.layer {
            Some(l) => service is Enabled && l.wraps(inner, service->Enabled_0),
            None => service == Conditional::<L::Service, S>::Disabled(inner),
        }
    }

    fn layer(&self, inner: S) -> (r: Conditional<L::Service, S>) {
        match &self.layer {
            Some(l) => Conditional::Enabled(l.layer(inner)),
            None => Conditional::Disabled(inner),
        }
    }
}

/// Built disabled, the stage reports exactly the readiness the next stage
/// reports, and gives for every request exactly the results the next stage
/// gives on its own.
pub proof fn lemma_disabled_passes_through<L, S>(
    layer: ConditionalLayer<L>,
    next: S,
    built: Conditional<L::Service, S>,
    readiness: Readiness<S::Fault>,
    request: Request,
    result: Result<Response<S::Output>, S::Fault>,
) where L: Layer<S>, S: Stage, L::Service: Stage<Output = S::Output, Fault = S::Fault>
    requires
        !layer.enabled(),
        layer.wraps(next, built),
    ensures
        built.may_report(readiness) == next.may_report(readiness),
        built.is_ready() == next.is_ready(),
        built.may_answer(request, result) == next.may_answer(request, result),
{
}

/// Built enabled over an inner chain that always answers `x`, the stage
/// answers `x` for every request.
pub proof fn lemma_enabled_runs_inner<L, S>(
    layer: ConditionalLayer<L>,
    next: S,
    built: Conditional<L::Service, S>,
    x: Result<Response<S::Output>, S::Fault>,
    request: Request,
    result: Result<Response<S::Output>, S::Fault>,
) where L: Layer<S>, S: Stage, L::Service: Stage<Output = S::Output, Fault = S::Fault>
    requires
        layer.enabled(),
        layer.wraps(next, built),
        forall|q: Request, y: Result<Response<S::Output>, S::Fault>|
            #[trigger] built->Enabled_0.may_answer(q, y) ==> y == x,
        built.may_answer(request, result),
    ensures
        result == x,
{
}

} // verus!
