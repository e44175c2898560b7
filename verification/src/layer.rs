use vstd::prelude::*;

verus! {

/// The decorator capability: a transformation from one handler value into
/// another. Decoration is pure composition — it cannot fail — so `layer`
/// has no precondition; `wraps` says which decorated services may come out
/// of wrapping a given inner service.
pub trait Layer<S>: Sized {
    /// The decorated service this layer produces.
    type Service;

    /// Which outputs wrapping `inner` may produce.
    spec fn wraps(self, inner: S, out: Self::Service) -> bool;

    /// Wrap `inner` in this decorator.
    fn layer(self, inner: S) -> (out: Self::Service)
        ensures
            self.wraps(inner, out),
    ;
}

/// The empty decorator chain: wrapping a service returns it unchanged.
pub struct Identity;

impl<S> Layer<S> for Identity {
    type Service = S;

    open spec fn wraps(self, inner: S, out: S) -> bool {
        out == inner
    }

    fn layer(self, inner: S) -> (out: S) {
        inner
    }
}

/// Two decorator chains glued together. `inner` is the chain added later,
/// so it sits closer to the terminal handler; `outer` is everything added
/// before it and wraps `inner`'s result. This is what keeps caller order:
/// the first decorator added ends up outermost.
pub struct Stack<Inner, Outer> {
    /// Applied to the terminal side first.
    pub inner: Inner,
    /// Wraps whatever `inner` produced.
    pub outer: Outer,
}

impl<S, Inner, Outer> Layer<S> for Stack<Inner, Outer> where
    Inner: Layer<S>,
    Outer: Layer<Inner::Service>,
 {
    type Service = Outer::Service;

    open spec fn wraps(self, inner_svc: S, out: Outer::Service) -> bool {
        exists|mid: Inner::Service| self.inner.wraps(inner_svc, mid) && self.outer.wraps(mid, out)
    }

    fn layer(self, inner_svc: S) -> (out: Outer::Service) {
        let mid = self.inner.layer(inner_svc);
        self.outer.layer(mid)
    }
}

/// An ordered accumulation of decorators, ready to be applied, exactly
/// once, around a terminal service.
pub struct ServiceBuilder<L> {
    /// The decorator chain accumulated so far.
    pub layer: L,
}

impl ServiceBuilder<Identity> {
    /// The empty chain: applying it to a service is a no-op.
    pub fn new() -> (s: ServiceBuilder<Identity>)
        ensures
            s == (ServiceBuilder { layer: Identity }),
    {
        ServiceBuilder { layer: Identity }
    }
}

impl<L> ServiceBuilder<L> {
    /// Append one decorator. The chain built so far becomes the outer part,
    /// so decorators keep the order in which the caller supplied them.
    pub fn layer<T>(self, layer: T) -> (s: ServiceBuilder<Stack<T, L>>)
        ensures
            s.layer == (Stack { inner: layer, outer: self.layer }),
    {
        ServiceBuilder { layer: Stack { inner: layer, outer: self.layer } }
    }

    /// Apply the whole chain, first-added outermost, around `service`.
    pub fn service<S>(self, service: S) -> (out: L::Service) where L: Layer<S>
        ensures
            self.layer.wraps(service, out),
    {
        self.layer.layer(service)
    }
}

} // verus!
