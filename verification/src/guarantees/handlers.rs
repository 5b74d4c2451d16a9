//! Which handler a method has.
use vstd::prelude::*;

use crate::server::Handler;
use crate::server::Inner;
use crate::server::MethodType;

verus! {

/// A handler has the type and the function it was made with.
pub proof fn handler_is_what_it_was_made_of<C>(
    method_type: MethodType,
    cb: C,
    handler: Handler<C>,
    shown_type: MethodType,
    shown_cb: &C,
)
    requires
        call_ensures(Handler::<C>::new, (method_type, cb), handler),
        call_ensures(Handler::<C>::method_type, (&handler,), shown_type),
        call_ensures(Handler::<C>::cb, (&handler,), shown_cb),
    ensures
        handler.spec_method_type() == method_type,
        handler.callback() == cb,
        shown_type == method_type,
        *shown_cb == cb,
{
}

/// The type and the function that a handler shows are its own.
pub proof fn handler_shows_what_it_has<C>(
    handler: &Handler<C>,
    shown_type: MethodType,
    shown_cb: &C,
)
    requires
        call_ensures(Handler::<C>::method_type, (handler,), shown_type),
        call_ensures(Handler::<C>::cb, (handler,), shown_cb),
    ensures
        shown_type == handler.spec_method_type(),
        *shown_cb == handler.callback(),
{
}

/// A new server has no handler for any method.
pub proof fn new_server_has_no_handlers<C>(
    inner: Inner<C>,
    method: &[u8],
    found: Option<&Handler<C>>,
)
    requires
        call_ensures(Inner::<C>::new, (), inner),
        call_ensures(Inner::<C>::get_handler, (&inner, method), found),
    ensures
        found is None,
        !inner@.contains_key(method@),
{
}

/// To register a handler makes it the one of its method, whether or not that had one, and changes
/// nothing for any other method.
pub proof fn registered_handler_is_found<C>()
    ensures
        forall|
            inner: &mut Inner<C>,
            method: Vec<u8>,
            handler: Handler<C>,
            before: &Inner<C>,
            after: &Inner<C>,
            path: &[u8],
            found_before: Option<&Handler<C>>,
            found_after: Option<&Handler<C>>,
        |
            {
                &&& #[trigger] call_ensures(
                    Inner::<C>::register,
                    (inner, method, handler),
                    (),
                )
                &&& before@ == inner@
                &&& after@ == final(inner)@
                &&& #[trigger] call_ensures(
                    Inner::<C>::get_handler,
                    (before, path),
                    found_before,
                )
                &&& #[trigger] call_ensures(
                    Inner::<C>::get_handler,
                    (after, path),
                    found_after,
                )
            } ==> {
                &&& path@ == method@ ==> found_after is Some && *found_after->0 == handler
                &&& path@ != method@ ==> (found_after is Some <==> found_before is Some)
                &&& path@ != method@ && found_before is Some ==> *found_after->0 == *found_before->0
            },
{
}

/// The handler that is found for a method is the one it has.
pub proof fn found_handler_is_that_of_the_method<C>(
    inner: &Inner<C>,
    method: &[u8],
    found: Option<&Handler<C>>,
)
    requires
        call_ensures(Inner::<C>::get_handler, (inner, method), found),
    ensures
        found is Some <==> inner@.contains_key(method@),
        found matches Some(handler) ==> *handler == inner@[method@],
{
}

} // verus!
