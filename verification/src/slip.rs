//! The routing slip: the hops an envelope still has to traverse.

use vstd::prelude::*;

verus! {

/// A stack of hops. The hop added last is the next one to execute, and hops
/// may be added at any time, also after routing has started.
///
/// The view of a slip is the sequence of its hops from the bottom of the stack
/// to the top.
#[derive(Debug, Clone)]
pub struct Slip<R> {
    routes: Vec<R>,
    in_progress: bool,
}

impl<R> View for Slip<R> {
    type V = Seq<R>;

    closed spec fn view(&self) -> Seq<R> {
        self.routes@
    }
}

/// The hop on top of the stack `routes`, if there is one.
pub open spec fn top<R>(routes: Seq<R>) -> Option<R> {
    if routes.len() > 0 {
        Some(routes.last())
    } else {
        None
    }
}

/// The stack that results from adding each hop of `routes`, in order, to `base`.
pub open spec fn pushed<R>(base: Seq<R>, routes: Seq<R>) -> Seq<R>
    decreases routes.len(),
{
    if routes.len() == 0 {
        base
    } else {
        pushed(base.push(routes.first()), routes.drop_first())
    }
}

/// The hops handed out, in order, by ending the top hop of `routes` again and
/// again until none is left.
pub open spec fn popped<R>(routes: Seq<R>) -> Seq<R>
    decreases routes.len(),
{
    if routes.len() == 0 {
        Seq::empty()
    } else {
        seq![routes.last()] + popped(routes.drop_last())
    }
}

impl<R> Slip<R> {
    /// Whether the first hop of this slip has begun execution.
    pub closed spec fn started(&self) -> bool {
        self.in_progress
    }

    /// An empty slip on which routing has not started.
    pub fn new() -> (slip: Self)
        ensures
            slip@ == Seq::<R>::empty(),
            !slip.started(),
    {
        Slip { routes: Vec::with_capacity(2), in_progress: false }
    }

    /// An empty slip with room for `capacity` hops.
    pub fn with_capacity(capacity: usize) -> (slip: Self)
        ensures
            slip@ == Seq::<R>::empty(),
            !slip.started(),
    {
        Slip { routes: Vec::with_capacity(capacity), in_progress: false }
    }

    /// Puts `r` on top of the stack. The hop is the current one from the next
    /// call of [`Slip::current_route`] on, whether or not routing has started.
    pub fn add_route(&mut self, r: R)
        ensures
            final(self)@ == old(self)@.push(r),
            top(final(self)@) == Some(r),
            final(self).started() == old(self).started(),
    {
        self.routes.push(r);
    }

    /// The hop on top of the stack, which stays there.
    pub fn current_route(&self) -> (r: Option<&R>)
        ensures
            match r {
                Some(hop) => top(self@) == Some(*hop),
                None => top(self@) == None::<R>,
            },
    {
        self.routes.last()
    }

    /// Takes the hop on top of the stack off and returns it. On an empty slip
    /// there is none: routing is complete.
    pub fn end_route(&mut self) -> (r: Option<R>)
        ensures
            r == top(old(self)@),
            final(self)@ == if old(self)@.len() > 0 {
                old(self)@.drop_last()
            } else {
                old(self)@
            },
            final(self).started() == old(self).started(),
    {
        self.routes.pop()
    }

    /// How many hops are left.
    pub fn number_remaining_routes(&self) -> (n: usize)
        ensures
            n == self@.len(),
    {
        self.routes.len()
    }

    /// Records that the first hop has begun execution.
    pub fn start(&mut self)
        ensures
            final(self).started(),
            final(self)@ == old(self)@,
    {
        self.in_progress = true;
    }

    /// Whether the first hop has begun execution.
    pub fn in_progress(&self) -> (b: bool)
        ensures
            b == self.started(),
    {
        self.in_progress
    }
}

proof fn lemma_pushed_appends<R>(base: Seq<R>, routes: Seq<R>)
    ensures
        pushed(base, routes) == base + routes,
    decreases routes.len(),
{
    if routes.len() > 0 {
        lemma_pushed_appends(base.push(routes.first()), routes.drop_first());
        assert(base.push(routes.first()) + routes.drop_first() =~= base + routes);
    } else {
        assert(base + routes =~= base);
    }
}

proof fn lemma_popped_reverses<R>(routes: Seq<R>)
    ensures
        popped(routes) == routes.reverse(),
    decreases routes.len(),
{
    if routes.len() > 0 {
        lemma_popped_reverses(routes.drop_last());
        assert(seq![routes.last()] + routes.drop_last().reverse() =~= routes.reverse());
    } else {
        assert(routes.reverse() =~= Seq::<R>::empty());
    }
}

/// Ending routes until the slip is empty hands out exactly the hops that were
/// added to an empty slip, in the reverse of the order in which they were
/// added.
pub proof fn lemma_pops_reverse_pushes<R>(routes: Seq<R>)
    ensures
        popped(pushed(Seq::<R>::empty(), routes)) == routes.reverse(),
{
    lemma_pushed_appends(Seq::<R>::empty(), routes);
    assert(Seq::<R>::empty() + routes =~= routes);
    lemma_popped_reverses(routes);
}

/// A hop added to a slip is its current hop and the next to be handed out,
/// whatever the slip held before.
pub proof fn lemma_added_route_is_current<R>(routes: Seq<R>, r: R)
    ensures
        top(routes.push(r)) == Some(r),
        popped(routes.push(r)) == seq![r] + popped(routes),
{
    assert(routes.push(r).drop_last() =~= routes);
}

} // verus!
