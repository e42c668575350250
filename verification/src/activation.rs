//! Activating windows with the tokens that were obtained for them.
use crate::geometry::Window;
use crate::request::{ask, nothing, Request};
use crate::state::{InnerServerState, PendingActivation, ServerModel};
use crate::world::ClientSurface;
use vstd::prelude::*;

verus! {

impl ServerModel {
    /// Whether the window can be activated: it has a surface.
    pub open spec fn can_activate(self, window: Window) -> bool {
        self.knows(window) && self.row(window).client_surface is Some
    }

    /// Whether an activation can be carried out.
    pub open spec fn ready(self) -> spec_fn(PendingActivation<Seq<char>>) -> bool {
        |pending: PendingActivation<Seq<char>>| self.can_activate(pending.window)
    }

    /// Whether an activation has to wait.
    pub open spec fn waiting(self) -> spec_fn(PendingActivation<Seq<char>>) -> bool {
        |pending: PendingActivation<Seq<char>>| !self.can_activate(pending.window)
    }

    /// The request that carries an activation out.
    pub open spec fn activate_request(self) -> spec_fn(PendingActivation<Seq<char>>) -> Request<
        Seq<char>,
    > {
        |pending: PendingActivation<Seq<char>>|
            Request::Activate {
                entity: self.entity(pending.window),
                activation_token: pending.token,
            }
    }

    /// The requests that carry the activations out that can be, in their order.
    pub open spec fn activations(self) -> Seq<Request<Seq<char>>> {
        if self.environment.activation {
            self.pending_activations.filter(self.ready()).map_values(self.activate_request())
        } else {
            seq![]
        }
    }

    /// The server once these activations have been carried out: the others wait, in their order.
    pub open spec fn activated(self) -> ServerModel {
        if self.environment.activation {
            ServerModel {
                pending_activations: self.pending_activations.filter(self.waiting()),
                ..self
            }
        } else {
            self
        }
    }
}

impl InnerServerState {
    /// The entity of a window that can be activated.
    fn activatable(&self, window: Window) -> (entity: Option<u64>)
        requires
            self@.wf(),
        ensures
            entity is Some == self@.can_activate(window),
            entity is Some ==> entity->0 == self@.entity(window),
    {
        match self.find(window) {
            Some((entity, _)) => {
                assert(crate::state::carries_window(self@.rows, window.id, entity));
                match crate::world::get::<ClientSurface>(&self.world, entity) {
                    Some(_) => Some(entity),
                    None => None,
                }
            },
            None => None,
        }
    }

    /// Activates the windows that tokens have been obtained for and that have a surface. The
    /// others wait until they have one.
    pub fn handle_activations(&mut self) -> (requests: Vec<Request>)
        requires
            old(self)@.wf(),
        ensures
            final(self)@.wf(),
            final(self)@ == old(self)@.activated(),
            requests.deep_view() == old(self)@.activations(),
    {
        let ghost pre = self@;
        if !self.environment.activation {
            return nothing();
        }
        let mut requests: Vec<Request> = nothing();
        let mut waiting: Vec<PendingActivation> = Vec::new();
        let mut i: usize = 0;
        proof {
            reveal(Seq::filter);
        }
        assert(waiting.deep_view() =~= pre.pending_activations.take(0).filter(pre.waiting()));
        assert(requests.deep_view() =~= pre.pending_activations.take(0).filter(
            pre.ready(),
        ).map_values(pre.activate_request()));
        while i < self.pending_activations.len()
            invariant
                i <= self.pending_activations.len(),
                *self == *old(self),
                self@ == pre,
                pre.wf(),
                waiting.deep_view() == pre.pending_activations.take(i as int).filter(
                    pre.waiting(),
                ),
                requests.deep_view() == pre.pending_activations.take(i as int).filter(
                    pre.ready(),
                ).map_values(pre.activate_request()),
            decreases self.pending_activations.len() - i,
        {
            let window: Window = self.pending_activations[i].window;
            let token: String = self.pending_activations[i].token.clone();
            let ghost item = pre.pending_activations[i as int];
            let ghost seen = pre.pending_activations.take(i as int);
            let ghost now = pre.pending_activations.take(i + 1);
            let ghost waited = waiting.deep_view();
            proof {
                reveal(Seq::filter);
                assert(now.drop_last() =~= seen);
                assert(now.last() == item);
                assert(item == self.pending_activations[i as int].deep_view());
            }
            match self.activatable(window) {
                Some(entity) => {
                    ask(&mut requests, Request::Activate { entity, activation_token: token });
                    assert(requests.deep_view() =~= now.filter(pre.ready()).map_values(
                        pre.activate_request(),
                    ));
                },
                None => {
                    let kept = PendingActivation { window, token };
                    waiting.push(kept);
                    assert(waiting.deep_view() =~= waited.push(kept.deep_view()));
                },
            }
            i += 1;
        }
        assert(pre.pending_activations.take(i as int) =~= pre.pending_activations);
        self.pending_activations = waiting;
        requests
    }
}

} // verus!
