//! The server side of the RPC surface: how a failure is put on the wire, how
//! the method tables of the namespaces become one table, and what a server
//! instance remembers between its creation and its start.
//!
//! Binding a socket and serving requests is the caller's work. What is
//! decided here is what the caller does with each result.

use std::sync::Arc;

use alloy::primitives::U64;
use jsonrpsee::types::ErrorObject;
use jsonrpsee::Methods;
use vstd::prelude::*;

use crate::error::{already_started_text, ClientError, ErrorKind, Failure};

verus! {

/// `jsonrpsee::types::ErrorObject`, the error member of a failed response.
#[verifier::external_type_specification]
#[verifier::external_body]
pub struct ExErrorObject<'a>(ErrorObject<'a>);

/// `jsonrpsee::core::server::Methods`, a table of method callbacks by name.
#[verifier::external_type_specification]
#[verifier::external_body]
pub struct ExMethods(Methods);

/// `jsonrpsee::core::RegisterMethodError`, why a table refused a method.
#[verifier::external_type_specification]
#[verifier::external_body]
pub struct ExRegisterMethodError(jsonrpsee::core::RegisterMethodError);

/// `alloy::primitives::Uint`, an unsigned integer of a fixed number of
/// bits; with 64 bits it is the quantity that counts travel in.
#[verifier::external_type_specification]
#[verifier::external_body]
pub struct ExUint<const BITS: usize, const LIMBS: usize>(alloy::primitives::Uint<BITS, LIMBS>);

/// The code that every failure carries on the wire.
pub const WIRE_ERROR_CODE: i32 = 1;

/// The error object that `ErrorObject::owned` builds from a code and a
/// message, with no data attached.
pub uninterp spec fn owned_error_object(code: i32, message: Seq<char>) -> ErrorObject<'static>;

/// The 64-bit quantity that `U64::from` makes of a count.
pub uninterp spec fn quantity_of(count: u64) -> U64;

/// The names of the methods that a table holds.
pub uninterp spec fn method_names(methods: Methods) -> Set<Seq<char>>;

/// `ErrorObject::owned` with no data. The result is a function of the code
/// and the message alone: the source stores both as given and leaves the
/// data member empty. Not proved here.
#[verifier::external_body]
fn error_object(code: i32, message: String) -> (e: ErrorObject<'static>)
    ensures
        e == owned_error_object(code, message@),
{
    ErrorObject::owned(code, message, None::<()>)
}

/// `U64::from` on a `u64`. A count of 64 bits always fits, so the call does
/// not panic; the result is a function of the count alone. Not proved here.
#[verifier::external_body]
fn to_quantity(count: u64) -> (quantity: U64)
    ensures
        quantity == quantity_of(count),
{
    U64::from(count)
}

/// `Methods::new`: a table without methods. Not proved here.
#[verifier::external_body]
fn empty_methods() -> (methods: Methods)
    ensures
        method_names(methods) == Set::<Seq<char>>::empty(),
{
    Methods::new()
}

/// `Methods::merge`. The source first looks up every name of `other` in the
/// table and returns an error at the first one it finds, before anything is
/// changed; otherwise it moves every method of `other` into the table. Not
/// proved here.
#[verifier::external_body]
fn merge_methods(methods: &mut Methods, other: Methods) -> (r: Result<
    (),
    jsonrpsee::core::RegisterMethodError,
>)
    ensures
        method_names(*old(methods)).disjoint(method_names(other)) ==> {
            &&& r is Ok
            &&& method_names(*final(methods)) == method_names(*old(methods)).union(
                method_names(other),
            )
        },
        !method_names(*old(methods)).disjoint(method_names(other)) ==> {
            &&& r is Err
            &&& method_names(*final(methods)) == method_names(*old(methods))
        },
{
    methods.merge(other)
}

/// The text of a `RegisterMethodError`, as its `Display` writes it. Nothing
/// is claimed of the text.
#[verifier::external_body]
fn register_error_text(error: &jsonrpsee::core::RegisterMethodError) -> (text: String) {
    error.to_string()
}

/// What a result looks like on the wire. A value passes through untouched.
/// A failure, of whatever kind, becomes an error object with the one fixed
/// code, the failure's text as its message, and no data.
pub fn convert_err<T>(res: Result<T, ClientError>) -> (out: Result<T, ErrorObject<'static>>)
    ensures
        match res {
            Ok(value) => out == Ok::<T, ErrorObject<'static>>(value),
            Err(failure) => out == Err::<T, ErrorObject<'static>>(
                owned_error_object(WIRE_ERROR_CODE, failure.description()),
            ),
        },
{
    match res {
        Ok(value) => Ok(value),
        Err(failure) => Err(error_object(WIRE_ERROR_CODE, failure.message)),
    }
}

/// What a count looks like on the wire: the count as a 64-bit quantity, or
/// the failure as an error object.
pub fn quantity_reply(res: Result<u64, ClientError>) -> (out: Result<U64, ErrorObject<'static>>)
    ensures
        match res {
            Ok(count) => out == Ok::<U64, ErrorObject<'static>>(quantity_of(count)),
            Err(failure) => out == Err::<U64, ErrorObject<'static>>(
                owned_error_object(WIRE_ERROR_CODE, failure.description()),
            ),
        },
{
    match convert_err(res) {
        Ok(count) => Ok(to_quantity(count)),
        Err(object) => Err(object),
    }
}

/// Puts the methods of the two namespaces into one table.
///
/// Succeeds exactly when no name is in both tables; the result then holds
/// the names of both and no other. A name in both fails the startup, and no
/// table is handed back.
pub fn merge_method_tables(eth: Methods, net: Methods) -> (r: Result<Methods, ClientError>)
    ensures
        method_names(eth).disjoint(method_names(net)) ==> r is Ok && method_names(r->Ok_0)
            == method_names(eth).union(method_names(net)),
        !method_names(eth).disjoint(method_names(net)) ==> r is Err && r->Err_0.kind
            == ErrorKind::ServerStartupError,
{
    let mut methods = empty_methods();
    assert(method_names(methods).disjoint(method_names(eth)));
    match merge_methods(&mut methods, eth) {
        Err(error) => {
            return Err(ClientError::server_startup(register_error_text(&error)));
        },
        Ok(()) => {},
    }
    assert(method_names(methods) =~= method_names(eth));
    match merge_methods(&mut methods, net) {
        Err(error) => {
            return Err(ClientError::server_startup(register_error_text(&error)));
        },
        Ok(()) => {},
    }
    Ok(methods)
}

/// A server instance for one node: the node it serves, the address it is to
/// listen on, and, once started, the handle of the running server.
///
/// `N` is the node, `H` the handle by which a running server is stopped, `A`
/// a socket address.
pub struct Rpc<N, H, A> {
    node: Arc<N>,
    handle: Option<H>,
    address: A,
}

impl<N, H, A> Rpc<N, H, A> {
    /// The node that requests are forwarded to.
    pub closed spec fn node_view(&self) -> Arc<N> {
        self.node
    }

    /// The handle of the running server, once there is one.
    pub closed spec fn handle_view(&self) -> Option<H> {
        self.handle
    }

    /// The address the server is to listen on.
    pub closed spec fn address_view(&self) -> A {
        self.address
    }

    /// Whether the server was started.
    pub open spec fn running(&self) -> bool {
        self.handle_view() is Some
    }

    /// A server for `node` that will listen on `address`; not started yet.
    pub fn new(node: Arc<N>, address: A) -> (rpc: Self)
        ensures
            rpc.node_view() == node,
            rpc.address_view() == address,
            rpc.handle_view() is None,
    {
        Rpc { node, handle: None, address }
    }

    /// The node that requests are forwarded to.
    pub fn node(&self) -> (node: &Arc<N>)
        ensures
            *node == self.node_view(),
    {
        &self.node
    }

    /// The address the server is to listen on.
    pub fn address(&self) -> (address: &A)
        ensures
            *address == self.address_view(),
    {
        &self.address
    }

    /// The handle of the running server, once there is one.
    pub fn handle(&self) -> (handle: Option<&H>)
        ensures
            match handle {
                Some(h) => self.handle_view() == Some(*h),
                None => self.handle_view() is None,
            },
    {
        self.handle.as_ref()
    }

    /// Whether the server was started.
    pub fn is_running(&self) -> (b: bool)
        ensures
            b == self.running(),
    {
        self.handle.is_some()
    }

    /// Whether a start may go ahead. An instance is started once: a second
    /// start is refused.
    pub fn begin_start(&self) -> (r: Result<(), ClientError>)
        ensures
            !self.running() ==> r is Ok,
            self.running() ==> r is Err && r->Err_0@ == (Failure {
                kind: ErrorKind::ServerStartupError,
                text: already_started_text(),
            }),
    {
        if self.handle.is_some() {
            Err(ClientError::already_started())
        } else {
            Ok(())
        }
    }

    /// Takes in what an attempt to bind and serve gave. On success the
    /// handle is kept and the address that was actually bound is handed
    /// back. On failure nothing changes and the startup fails with the text
    /// that the attempt reported.
    pub fn finish_start(&mut self, started: Result<(H, A), String>) -> (r: Result<A, ClientError>)
        ensures
            final(self).node_view() == old(self).node_view(),
            final(self).address_view() == old(self).address_view(),
            match started {
                Ok((handle, bound)) => {
                    &&& r == Ok::<A, ClientError>(bound)
                    &&& final(self).handle_view() == Some(handle)
                },
                Err(detail) => {
                    &&& r is Err
                    &&& r->Err_0.kind == ErrorKind::ServerStartupError
                    &&& r->Err_0.message == detail
                    &&& final(self).handle_view() == old(self).handle_view()
                },
            },
    {
        match started {
            Ok((handle, bound)) => {
                self.handle = Some(handle);
                Ok(bound)
            },
            Err(detail) => Err(ClientError::server_startup(detail)),
        }
    }
}

} // verus!
