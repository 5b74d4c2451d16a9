//! The handlers of a server, by the method they serve.
use vstd::prelude::*;

verus! {

/// How many messages the two sides of a method send.
#[derive(Clone, Copy, Debug, PartialEq, Eq, Structural)]
pub enum MethodType {
    /// One request, one response.
    Unary,
    /// A stream of requests, one response.
    ClientStreaming,
    /// One request, a stream of responses.
    ServerStreaming,
    /// A stream of requests, a stream of responses.
    Duplex,
}

impl MethodType {
    /// Whether the client sends exactly one message, so that it can be fetched before the handler
    /// is called.
    pub open spec fn one_request(self) -> bool {
        self is Unary || self is ServerStreaming
    }
}

/// A handler: the type of its method and the function that serves it.
pub struct Handler<C> {
    method_type: MethodType,
    cb: C,
}

impl<C> Handler<C> {
    /// The type of the method.
    pub closed spec fn spec_method_type(self) -> MethodType {
        self.method_type
    }

    /// The function that serves the method.
    pub closed spec fn callback(self) -> C {
        self.cb
    }

    pub fn new(method_type: MethodType, cb: C) -> (handler: Handler<C>)
        ensures
            handler.spec_method_type() == method_type,
            handler.callback() == cb,
    {
        Handler { method_type, cb }
    }

    /// The type of the method.
    pub fn method_type(&self) -> (r: MethodType)
        ensures
            r == self.spec_method_type(),
    {
        self.method_type
    }

    /// The function that serves the method.
    pub fn cb(&self) -> (r: &C)
        ensures
            *r == self.callback(),
    {
        &self.cb
    }
}

/// The handlers of a server. Registered twice, a method has the handler registered last.
pub struct Inner<C> {
    handlers: Vec<(Vec<u8>, Handler<C>)>,
}

/// The handlers by method, for a list of registrations.
spec fn table<C>(handlers: Seq<(Vec<u8>, Handler<C>)>) -> Map<Seq<u8>, Handler<C>>
    decreases handlers.len(),
{
    if handlers.len() == 0 {
        Map::empty()
    } else {
        table(handlers.drop_last()).insert(handlers.last().0@, handlers.last().1)
    }
}

impl<C> View for Inner<C> {
    type V = Map<Seq<u8>, Handler<C>>;

    closed spec fn view(&self) -> Map<Seq<u8>, Handler<C>> {
        table(self.handlers@)
    }
}

/// Whether two slices hold the same bytes.
fn same_bytes(a: &[u8], b: &[u8]) -> (r: bool)
    ensures
        r == (a@ == b@),
{
    if a.len() != b.len() {
        return false;
    }
    let n: usize = a.len();
    let mut i: usize = 0;
    while i < n
        invariant
            n == a@.len() == b@.len(),
            i <= n,
            forall|j: int| 0 <= j < i ==> a@[j] == b@[j],
        decreases n - i,
    {
        if a[i] != b[i] {
            return false;
        }
        i += 1;
    }
    assert(a@ =~= b@);
    true
}

impl<C> Inner<C> {
    /// A server without handlers.
    pub fn new() -> (inner: Inner<C>)
        ensures
            inner@ == Map::<Seq<u8>, Handler<C>>::empty(),
    {
        Inner { handlers: Vec::new() }
    }

    /// Registers the handler of a method.
    pub fn register(&mut self, method: Vec<u8>, handler: Handler<C>)
        ensures
            final(self)@ == old(self)@.insert(method@, handler),
    {
        self.handlers.push((method, handler));
        assert(self.handlers@.drop_last() =~= old(self).handlers@);
    }

    /// The handler of a method.
    pub fn get_handler(&self, method: &[u8]) -> (handler: Option<&Handler<C>>)
        ensures
            match handler {
                Some(handler) => self@.contains_key(method@) && *handler == self@[method@],
                None => !self@.contains_key(method@),
            },
    {
        let mut i: usize = self.handlers.len();
        assert(self.handlers@.take(i as int) =~= self.handlers@);
        while i > 0
            invariant
                i <= self.handlers@.len(),
                table(self.handlers@.take(i as int)).contains_key(method@)
                    <==> self@.contains_key(method@),
                self@.contains_key(method@) ==> table(self.handlers@.take(i as int))[method@]
                    == self@[method@],
            decreases i,
        {
            let ghost rest = self.handlers@.take(i as int);
            i -= 1;
            assert(rest.drop_last() =~= self.handlers@.take(i as int));
            if same_bytes(self.handlers[i].0.as_slice(), method) {
                return Some(&self.handlers[i].1);
            }
        }
        None
    }
}

} // verus!
