//! The Either combinator: a generic two-variant wrapper over one of two
//! concrete implementations of the same capability, enabling static
//! composition of two alternatives without dynamic dispatch.
//!
//! Every operation on the wrapper unconditionally delegates to whichever
//! variant it holds; the held variant never changes after construction.
//! Composition is recursive: applying a two-variant layer or plugin to an
//! inner capability yields an `Either` of the two resulting wrapped
//! capabilities, never a collapsed type.

use vstd::prelude::*;

verus! {

/// Combines two different service, layer or plugin types into a single
/// type holding one of them.
#[derive(Clone, Copy, Debug, PartialEq, Eq)]
pub enum Either<L, R> {
    /// One type of backing capability.
    Left { value: L },
    /// The other type of backing capability.
    Right { value: R },
}

/// A request-handling capability. The two variants combined by an
/// [`Either`] must expose identical request, response and error types; here
/// every service maps a request to a response or an error code, and to its
/// own next state. Implementations are supplied by the surrounding
/// application — a transport, a middleware stack — and each must prove its
/// `call` and `poll_ready` against its own declared behavior.
pub trait Service: Sized {
    /// What the service answers to `request` in its current state.
    spec fn response_of(self, request: u64) -> Result<u64, u64>;

    /// The service's state after answering `request`.
    spec fn after_call(self, request: u64) -> Self;

    /// Whether the service is ready to accept a request.
    spec fn ready_of(self) -> Result<(), u64>;

    /// Answers `request`.
    fn call(&mut self, request: u64) -> (r: Result<u64, u64>)
        ensures
            r == old(self).response_of(request),
            *final(self) == old(self).after_call(request),
    ;

    /// Reports readiness without consuming anything.
    fn poll_ready(&mut self) -> (r: Result<(), u64>)
        ensures
            r == old(self).ready_of(),
            *final(self) == *old(self),
    ;
}

impl<L: Service, R: Service> Service for Either<L, R> {
    open spec fn response_of(self, request: u64) -> Result<u64, u64> {
        match self {
            Either::Left { value } => value.response_of(request),
            Either::Right { value } => value.response_of(request),
        }
    }

    open spec fn after_call(self, request: u64) -> Self {
        match self {
            Either::Left { value } => Either::Left { value: value.after_call(request) },
            Either::Right { value } => Either::Right { value: value.after_call(request) },
        }
    }

    open spec fn ready_of(self) -> Result<(), u64> {
        match self {
            Either::Left { value } => value.ready_of(),
            Either::Right { value } => value.ready_of(),
        }
    }

    fn call(&mut self, request: u64) -> (r: Result<u64, u64>) {
        match self {
            Either::Left { value } => value.call(request),
            Either::Right { value } => value.call(request),
        }
    }

    fn poll_ready(&mut self) -> (r: Result<(), u64>) {
        match self {
            Either::Left { value } => value.poll_ready(),
            Either::Right { value } => value.poll_ready(),
        }
    }
}

/// A suspending computation that resolves to one value. The two variants
/// combined by an [`Either`] must resolve to the identical output type;
/// polling the wrapper polls whichever computation it holds.
pub trait Compute: Sized {
    /// The value this computation resolves to.
    spec fn value_of(self) -> u64;

    /// Resolves the computation.
    fn resolve(&self) -> (r: u64)
        ensures
            r == self.value_of(),
    ;
}

impl<L: Compute, R: Compute> Compute for Either<L, R> {
    open spec fn value_of(self) -> u64 {
        match self {
            Either::Left { value } => value.value_of(),
            Either::Right { value } => value.value_of(),
        }
    }

    fn resolve(&self) -> (r: u64) {
        match self {
            Either::Left { value } => value.resolve(),
            Either::Right { value } => value.resolve(),
        }
    }
}

/// A computation already holding its value.
#[derive(Clone, Copy, Debug, PartialEq, Eq, Structural)]
pub struct Ready {
    pub value: u64,
}

impl Compute for Ready {
    open spec fn value_of(self) -> u64 {
        self.value
    }

    fn resolve(&self) -> (r: u64) {
        self.value
    }
}

/// A layer: wraps an inner capability into a new service. An `Either` of
/// two layers applied to an inner capability yields an `Either` of the two
/// wrapped services.
pub trait Layer<S>: Sized {
    /// The wrapped service this layer produces.
    type Wrapped;

    /// What wrapping `inner` yields.
    spec fn layered(self, inner: S) -> Self::Wrapped;

    /// Wraps `inner`.
    fn layer(&self, inner: S) -> (r: Self::Wrapped)
        ensures
            r == self.layered(inner),
    ;
}

impl<S, L: Layer<S>, R: Layer<S>> Layer<S> for Either<L, R> {
    type Wrapped = Either<L::Wrapped, R::Wrapped>;

    open spec fn layered(self, inner: S) -> Self::Wrapped {
        match self {
            Either::Left { value } => Either::Left { value: value.layered(inner) },
            Either::Right { value } => Either::Right { value: value.layered(inner) },
        }
    }

    fn layer(&self, inner: S) -> (r: Self::Wrapped) {
        match self {
            Either::Left { value } => Either::Left { value: value.layer(inner) },
            Either::Right { value } => Either::Right { value: value.layer(inner) },
        }
    }
}

/// A layer that wraps nothing and hands the inner capability back as is.
#[derive(Clone, Copy, Debug, PartialEq, Eq, Structural)]
pub struct IdentityLayer;

impl<S> Layer<S> for IdentityLayer {
    type Wrapped = S;

    open spec fn layered(self, inner: S) -> S {
        inner
    }

    fn layer(&self, inner: S) -> (r: S) {
        inner
    }
}

/// An operation: a handler together with the layer applied around it at
/// configuration time.
#[derive(Clone, Copy, Debug, PartialEq, Eq)]
pub struct Operation<S, L> {
    pub inner: S,
    pub layer: L,
}

/// A configuration-time plugin: rewrites an operation's handler and layer.
/// An `Either` of two plugins maps an operation to an operation whose parts
/// are `Either`s of the two alternatives' results.
pub trait Plugin<S, L>: Sized {
    /// The handler type the plugin produces.
    type MappedService;

    /// The layer type the plugin produces.
    type MappedLayer;

    /// What mapping `input` yields.
    spec fn mapped(self, input: Operation<S, L>) -> Operation<Self::MappedService, Self::MappedLayer>;

    /// Maps `input`.
    fn map(&self, input: Operation<S, L>) -> (r: Operation<Self::MappedService, Self::MappedLayer>)
        ensures
            r == self.mapped(input),
    ;
}

impl<S, L, Le: Plugin<S, L>, Ri: Plugin<S, L>> Plugin<S, L> for Either<Le, Ri> {
    type MappedService = Either<Le::MappedService, Ri::MappedService>;

    type MappedLayer = Either<Le::MappedLayer, Ri::MappedLayer>;

    open spec fn mapped(self, input: Operation<S, L>) -> Operation<
        Self::MappedService,
        Self::MappedLayer,
    > {
        match self {
            Either::Left { value } => {
                let m = value.mapped(input);
                Operation {
                    inner: Either::Left { value: m.inner },
                    layer: Either::Left { value: m.layer },
                }
            },
            Either::Right { value } => {
                let m = value.mapped(input);
                Operation {
                    inner: Either::Right { value: m.inner },
                    layer: Either::Right { value: m.layer },
                }
            },
        }
    }

    fn map(&self, input: Operation<S, L>) -> (r: Operation<Self::MappedService, Self::MappedLayer>) {
        match self {
            Either::Left { value } => {
                let m = value.map(input);
                Operation {
                    inner: Either::Left { value: m.inner },
                    layer: Either::Left { value: m.layer },
                }
            },
            Either::Right { value } => {
                let m = value.map(input);
                Operation {
                    inner: Either::Right { value: m.inner },
                    layer: Either::Right { value: m.layer },
                }
            },
        }
    }
}

/// A plugin that rewrites nothing.
#[derive(Clone, Copy, Debug, PartialEq, Eq, Structural)]
pub struct IdentityPlugin;

impl<S, L> Plugin<S, L> for IdentityPlugin {
    type MappedService = S;

    type MappedLayer = L;

    open spec fn mapped(self, input: Operation<S, L>) -> Operation<S, L> {
        input
    }

    fn map(&self, input: Operation<S, L>) -> (r: Operation<S, L>) {
        input
    }
}

/// A stateless service answering every request with the request itself.
#[derive(Clone, Copy, Debug, PartialEq, Eq, Structural)]
pub struct EchoService;

impl Service for EchoService {
    open spec fn response_of(self, request: u64) -> Result<u64, u64> {
        Ok(request)
    }

    open spec fn after_call(self, request: u64) -> Self {
        self
    }

    open spec fn ready_of(self) -> Result<(), u64> {
        Ok(())
    }

    fn call(&mut self, request: u64) -> (r: Result<u64, u64>) {
        Ok(request)
    }

    fn poll_ready(&mut self) -> (r: Result<(), u64>) {
        Ok(())
    }
}

/// A stateless service refusing every request with a fixed error code.
#[derive(Clone, Copy, Debug, PartialEq, Eq, Structural)]
pub struct RefuseService {
    pub code: u64,
}

impl Service for RefuseService {
    open spec fn response_of(self, request: u64) -> Result<u64, u64> {
        Err(self.code)
    }

    open spec fn after_call(self, request: u64) -> Self {
        self
    }

    open spec fn ready_of(self) -> Result<(), u64> {
        Ok(())
    }

    fn call(&mut self, request: u64) -> (r: Result<u64, u64>) {
        Err(self.code)
    }

    fn poll_ready(&mut self) -> (r: Result<(), u64>) {
        Ok(())
    }
}

/// Invoking an `Either` of two services produces exactly what invoking the
/// held service directly would: the same response and the same next state,
/// whichever side it holds.
pub proof fn lemma_either_delegates<L: Service, R: Service>(e: Either<L, R>, request: u64)
    ensures
        e matches Either::Left { value } ==> e.response_of(request) == value.response_of(request)
            && e.after_call(request) == (Either::Left::<L, R> {
            value: value.after_call(request),
        }),
        e matches Either::Right { value } ==> e.response_of(request) == value.response_of(request)
            && e.after_call(request) == (Either::Right::<L, R> {
            value: value.after_call(request),
        }),
{
}

} // verus!
