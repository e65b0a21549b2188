//! A single hop of a routing slip.

use vstd::prelude::*;

verus! {

/// One hop: the service and operation to invoke, and the endpoints involved.
///
/// An endpoint address of `0` stands for "not given", and so does an empty
/// service or operation name. `_routed` stays `false` until the hop has been
/// completed by a router.
#[derive(Debug, Clone, PartialEq, Eq)]
pub struct Route {
    pub _service: String,
    pub _op: String,
    pub _orig: u64,
    pub _dest: u64,
    pub _from: u64,
    pub _to: u64,
    pub _routed: bool,
}

impl Route {
    /// The hop goes from `orig` to `dest` by way of the relay from `from` to
    /// `to`, and has not been completed.
    pub open spec fn leads(&self, orig: u64, dest: u64, from: u64, to: u64) -> bool {
        &&& self._orig == orig
        &&& self._dest == dest
        &&& self._from == from
        &&& self._to == to
        &&& !self._routed
    }

    /// An endpoint address as an option: `0` stands for an endpoint that is
    /// not given.
    pub open spec fn endpoint(addr: u64) -> Option<u64> {
        if addr == 0 {
            None
        } else {
            Some(addr)
        }
    }

    /// A message hop from `orig` to `dest` that names no service and no relay.
    pub fn new_msg_route_no_relay(orig: u64, dest: u64) -> (r: Route)
        ensures
            r._service@ == Seq::<char>::empty(),
            r._op@ == Seq::<char>::empty(),
            r.leads(orig, dest, 0, 0),
    {
        Route {
            _service: String::new(),
            _op: String::new(),
            _orig: orig,
            _dest: dest,
            _from: 0,
            _to: 0,
            _routed: false,
        }
    }

    /// A message hop from `orig` to `dest` that is relayed from `from` to `to`.
    pub fn new_msg_route_with_relay(orig: u64, dest: u64, from: u64, to: u64) -> (r: Route)
        ensures
            r._service@ == Seq::<char>::empty(),
            r._op@ == Seq::<char>::empty(),
            r.leads(orig, dest, from, to),
    {
        Route {
            _service: String::new(),
            _op: String::new(),
            _orig: orig,
            _dest: dest,
            _from: from,
            _to: to,
            _routed: false,
        }
    }

    /// A hop that invokes `operation` of `service`, without a relay.
    pub fn new_srv_route_no_relay(service: String, operation: String, orig: u64, dest: u64) -> (r:
        Route)
        ensures
            r._service == service,
            r._op == operation,
            r.leads(orig, dest, 0, 0),
    {
        Route {
            _service: service,
            _op: operation,
            _orig: orig,
            _dest: dest,
            _from: 0,
            _to: 0,
            _routed: false,
        }
    }

    /// A hop that invokes `operation` of `service` and is relayed from `from`
    /// to `to`.
    pub fn new_srv_route_with_relay(
        service: String,
        operation: String,
        orig: u64,
        dest: u64,
        from: u64,
        to: u64,
    ) -> (r: Route)
        ensures
            r._service == service,
            r._op == operation,
            r.leads(orig, dest, from, to),
    {
        Route {
            _service: service,
            _op: operation,
            _orig: orig,
            _dest: dest,
            _from: from,
            _to: to,
            _routed: false,
        }
    }

    /// The endpoint the envelope comes from, if it is given.
    pub fn origin(&self) -> (e: Option<u64>)
        ensures
            e == Route::endpoint(self._orig),
    {
        if self._orig == 0 {
            None
        } else {
            Some(self._orig)
        }
    }

    /// The endpoint the envelope is meant for, if it is given.
    pub fn destination(&self) -> (e: Option<u64>)
        ensures
            e == Route::endpoint(self._dest),
    {
        if self._dest == 0 {
            None
        } else {
            Some(self._dest)
        }
    }

    /// The endpoint that relays the envelope, if one does.
    pub fn relay_from(&self) -> (e: Option<u64>)
        ensures
            e == Route::endpoint(self._from),
    {
        if self._from == 0 {
            None
        } else {
            Some(self._from)
        }
    }

    /// The endpoint the envelope is relayed to, if it is relayed.
    pub fn relay_to(&self) -> (e: Option<u64>)
        ensures
            e == Route::endpoint(self._to),
    {
        if self._to == 0 {
            None
        } else {
            Some(self._to)
        }
    }
}

} // verus!
