//! What follows when scale factors of outputs change.
use crate::geometry::{Scale, Size};
use crate::metrics::Metrics;
use crate::request::{ask, nothing, Request};
use crate::state::{InnerServerState, ServerModel};
use crate::window::WindowData;
use crate::world::{OnOutput, OutputScaleFactor, Row, ServerSurface, SurfaceScaleFactor};
use vstd::prelude::*;

verus! {

impl ServerModel {
    /// The scale factor that surfaces on the output take over: the one that the output itself has
    /// told. A fractional one is told to each surface by itself.
    pub open spec fn told_scale(self, output: u64) -> Option<Scale> {
        match self.component::<OutputScaleFactor>(output) {
            Some(OutputScaleFactor::Output(scale)) => Some(scale),
            _ => None,
        }
    }

    /// Whether the entity is a window's surface on the output.
    pub open spec fn is_surface_on(self, entity: u64, output: u64) -> bool {
        &&& self.rows.dom().contains(entity)
        &&& self.rows[entity].on_output == Some(OnOutput { output })
        &&& self.rows[entity].scale is Some
        &&& self.rows[entity].data is Some
        &&& self.rows[entity].server_surface is Some
    }

    /// Whether the entity takes over the scale factor of the output.
    pub open spec fn follows(self, entity: u64, output: u64) -> bool {
        self.told_scale(output) is Some && self.is_surface_on(entity, output)
    }

    /// The row of an entity once it has taken over the scale factor of its output, if that is one
    /// of the given ones.
    pub open spec fn rescaled_row(self, entity: u64, outputs: Seq<u64>) -> Row {
        let row = self.rows[entity];
        let output = row.on_output->0.output;
        if row.on_output is Some && outputs.contains(output) && self.follows(entity, output) {
            Row { scale: Some(SurfaceScaleFactor { scale: self.told_scale(output)->0 }), ..row }
        } else {
            row
        }
    }

    /// The entities once surfaces on the given outputs have taken over their scale factors.
    pub open spec fn rescaled_rows(self, outputs: Seq<u64>) -> Map<u64, Row> {
        Map::new(
            |entity: u64| self.rows.dom().contains(entity),
            |entity: u64| self.rescaled_row(entity, outputs),
        )
    }

    /// Whether the list names exactly the entities that take over the scale factor of the output,
    /// each once, in any order.
    pub open spec fn lists_followers(self, list: Seq<u64>, output: u64) -> bool {
        &&& list.no_duplicates()
        &&& forall|entity: u64| #[trigger] list.contains(entity) <==> self.follows(entity, output)
    }

    /// Whether the groups are the entities that take over the scale factors of the outputs, a
    /// group for each output.
    pub open spec fn groups_followers(self, groups: Seq<Seq<u64>>, outputs: Seq<u64>) -> bool {
        &&& groups.len() == outputs.len()
        &&& forall|i: int|
            0 <= i < groups.len() ==> self.lists_followers(#[trigger] groups[i], outputs[i])
    }

    /// The server once surfaces have taken over the scale factors of outputs, and their popups
    /// are due to be re-anchored.
    pub open spec fn rescaled(self, surfaces: Seq<u64>) -> ServerModel {
        ServerModel {
            rows: self.rescaled_rows(self.updated_outputs),
            updated_outputs: Seq::empty(),
            pending_popup_refresh: self.pending_popup_refresh + surfaces,
            ..self
        }
    }

    /// Whether `scale` is the smallest scale factor of an output.
    pub open spec fn is_smallest_scale(self, scale: Scale) -> bool {
        &&& exists|output: u64| #[trigger] self.has_scale(output, scale)
        &&& forall|output: u64, other: Scale| #[trigger]
            self.has_scale(output, other) ==> scale.key <= other.key
    }

    /// Whether the output has the scale factor.
    pub open spec fn has_scale(self, output: u64, scale: Scale) -> bool {
        let factor = self.component::<OutputScaleFactor>(output);
        factor is Some && factor->0.scale() == scale
    }

    /// Whether `after` is the server once the scale factor for applications has been chosen: the
    /// smallest one of an output, if there is any.
    pub open spec fn scale_chosen(self, after: ServerModel) -> bool {
        if exists|scale: Scale| #[trigger] self.is_smallest_scale(scale) {
            exists|scale: Scale|
                {
                    &&& #[trigger] self.is_smallest_scale(scale)
                    &&& after == ServerModel {
                        new_scale: Some(scale),
                        current_scale: scale,
                        ..self
                    }
                }
        } else {
            after == self
        }
    }

    /// Whether `after` is the server once the popups have been re-anchored and then the scale
    /// factor for applications has been chosen.
    pub open spec fn refreshed_and_chosen<D, L, W>(
        self,
        mid: ServerModel,
        after: ServerModel,
        repositions: Seq<Request<Seq<char>>>,
        metrics: Metrics<D, L, W>,
    ) -> bool where
        D: Fn(i32, Scale) -> i32,
        L: Fn(u16, u16, Scale) -> Size,
        W: Fn(u64, i32) -> bool,
     {
        &&& self.pending_refreshed(mid, repositions, metrics)
        &&& mid.scale_chosen(after)
    }

    /// Whether `after` is the server once all has been done that is due when outputs have changed,
    /// for which the requests are made. Nothing is due if none has. Else surfaces take over the
    /// scale factors of the outputs that they are on, popups are re-anchored, and the scale
    /// factor for applications is chosen.
    pub open spec fn outputs_updated<D, L, W>(
        self,
        after: ServerModel,
        requests: Seq<Request<Seq<char>>>,
        metrics: Metrics<D, L, W>,
    ) -> bool where
        D: Fn(i32, Scale) -> i32,
        L: Fn(u16, u16, Scale) -> Size,
        W: Fn(u64, i32) -> bool,
     {
        if self.updated_outputs.len() == 0 {
            after == self && requests == Seq::<Request<Seq<char>>>::empty()
        } else {
            exists|
                groups: Seq<Seq<u64>>,
                mid: ServerModel,
                repositions: Seq<Request<Seq<char>>>,
            |
                {
                    &&& #[trigger] self.groups_followers(groups, self.updated_outputs)
                    &&& #[trigger] self.rescaled(groups.flatten()).refreshed_and_chosen(
                        mid,
                        after,
                        repositions,
                        metrics,
                    )
                    &&& requests == viewport_requests(groups.flatten()) + repositions
                }
        }
    }
}

/// The requests that fit the viewports of surfaces to their windows.
pub open spec fn viewport_requests(surfaces: Seq<u64>) -> Seq<Request<Seq<char>>> {
    Seq::new(surfaces.len(), |i: int| Request::UpdateViewport { entity: surfaces[i] })
}

impl InnerServerState {
    /// Whether an entity is a window's surface on an output.
    fn is_surface(&self, entity: u64, output: u64) -> (is: bool)
        ensures
            is == self@.is_surface_on(entity, output),
    {
        let on: Option<OnOutput> = crate::world::get::<OnOutput>(&self.world, entity);
        let factor: Option<SurfaceScaleFactor> = crate::world::get::<SurfaceScaleFactor>(
            &self.world,
            entity,
        );
        let data: Option<WindowData> = crate::world::get::<WindowData>(&self.world, entity);
        let surface: Option<ServerSurface> = crate::world::get::<ServerSurface>(
            &self.world,
            entity,
        );
        on == Some(OnOutput { output }) && factor.is_some() && data.is_some() && surface.is_some()
    }

    /// Gives surfaces on an output its scale factor, and lists them.
    fn rescale_surfaces(&mut self, output: u64) -> (surfaces: Vec<u64>)
        requires
            old(self)@.wf(),
        ensures
            final(self)@.wf(),
            old(self)@.lists_followers(surfaces@, output),
            final(self)@ == (ServerModel {
                rows: old(self)@.rescaled_rows(seq![output]),
                ..old(self)@
            }),
    {
        let ghost pre = self@;
        let mut surfaces: Vec<u64> = Vec::new();
        let factor: Option<OutputScaleFactor> = crate::world::get::<OutputScaleFactor>(
            &self.world,
            output,
        );
        assert(seq![output].contains(output)) by {
            assert(seq![output][0] == output);
        }
        let scale: Scale = match factor {
            Some(OutputScaleFactor::Output(scale)) => scale,
            _ => {
                assert(self@.rows =~= pre.rescaled_rows(seq![output]));
                return surfaces;
            },
        };
        let entities: Vec<u64> = crate::world::entities_with::<OnOutput>(&self.world);
        let mut i: usize = 0;
        while i < entities.len()
            invariant
                i <= entities.len(),
                self@.wf(),
                pre.told_scale(output) == Some(scale),
                crate::world::lists_all::<OnOutput>(entities@, pre.rows),
                self@ == (ServerModel { rows: self@.rows, ..pre }),
                self@.rows.dom() == pre.rows.dom(),
                surfaces@.no_duplicates(),
                forall|entity: u64| #[trigger]
                    surfaces@.contains(entity) <==> pre.is_surface_on(entity, output)
                        && entities@.take(i as int).contains(entity),
                forall|entity: u64| #[trigger]
                    pre.rows.dom().contains(entity) ==> self@.rows[entity] == (if surfaces@.contains(
                        entity,
                    ) {
                        Row { scale: Some(SurfaceScaleFactor { scale }), ..pre.rows[entity] }
                    } else {
                        pre.rows[entity]
                    }),
            decreases entities.len() - i,
        {
            let entity: u64 = entities[i];
            assert(entities@.contains(entity));
            proof {
                crate::lists::passing(entities@, i as int);
                crate::lists::pushing(surfaces@, entity);
            }
            assert(!surfaces@.contains(entity));
            assert(self@.rows[entity] == pre.rows[entity]);
            if self.is_surface(entity, output) {
                let _attached: bool = self.attach(entity, SurfaceScaleFactor { scale });
                surfaces.push(entity);
                assert(self@.rows.dom() =~= pre.rows.dom());
            }
            i += 1;
        }
        proof {
            assert(entities@.take(i as int) =~= entities@);
            assert forall|entity: u64| #[trigger]
                surfaces@.contains(entity) <==> pre.follows(entity, output) by {
                if pre.is_surface_on(entity, output) {
                    assert(crate::world::component::<OnOutput>(pre.rows, entity) is Some);
                    assert(entities@.contains(entity));
                }
            }
            assert forall|entity: u64| #[trigger] pre.rows.dom().contains(entity) implies self@.rows[entity]
                == pre.rescaled_row(entity, seq![output]) by {
                assert(surfaces@.contains(entity) <==> pre.follows(entity, output));
                if pre.rows[entity].on_output is Some && seq![output].contains(
                    pre.rows[entity].on_output->0.output,
                ) {
                    assert(pre.rows[entity].on_output->0.output == output);
                }
            }
            assert(self@.rows =~= pre.rescaled_rows(seq![output]));
        }
        surfaces
    }
}

impl ServerModel {
    /// What an entity follows stays the same while surfaces take over scale factors, and taking
    /// them over output by output comes to the same as from all outputs.
    proof fn rescaling_step(self, mid: ServerModel, seen: Seq<u64>, output: u64)
        requires
            mid.rows == self.rescaled_rows(seen),
        ensures
            forall|entity: u64| #[trigger]
                mid.follows(entity, output) == self.follows(entity, output),
            mid.rescaled_rows(seq![output]) == self.rescaled_rows(seen.push(output)),
    {
        assert forall|entity: u64| #[trigger] self.rows.dom().contains(entity) implies mid.rows[entity]
            == self.rescaled_row(entity, seen) by {
            assert(mid.rows.dom().contains(entity));
        }
        assert(mid.rows.dom() =~= self.rows.dom());
        assert forall|other: u64| #[trigger] mid.told_scale(other) == self.told_scale(other) by {
            if self.rows.dom().contains(other) {
                assert(mid.rows[other] == self.rescaled_row(other, seen));
            }
        }
        assert forall|entity: u64, other: u64| #[trigger]
            mid.is_surface_on(entity, other) == self.is_surface_on(entity, other) by {
            if self.rows.dom().contains(entity) {
                assert(mid.rows[entity] == self.rescaled_row(entity, seen));
            }
        }
        crate::lists::pushing(seen, output);
        crate::lists::pushing(Seq::empty(), output);
        assert(Seq::<u64>::empty().push(output) =~= seq![output]);
        assert forall|entity: u64| #[trigger] self.rows.dom().contains(entity) implies mid.rescaled_row(
            entity,
            seq![output],
        ) == self.rescaled_row(entity, seen.push(output)) by {
            assert(mid.rows[entity] == self.rescaled_row(entity, seen));
            let on = self.rows[entity].on_output->0.output;
            assert(mid.is_surface_on(entity, on) == self.is_surface_on(entity, on));
            assert(seen.push(output).contains(on) <==> seen.contains(on) || on == output);
            assert(seq![output].contains(on) <==> on == output);
        }
        assert(mid.rescaled_rows(seq![output]) =~= self.rescaled_rows(seen.push(output)));
    }
}

impl InnerServerState {
    /// Gives surfaces on all updated outputs the scale factors of these, and notes that their
    /// popups are due to be re-anchored.
    fn rescale_all(&mut self) -> (surfaces: Vec<u64>)
        requires
            old(self)@.wf(),
        ensures
            final(self)@.wf(),
            final(self)@ == old(self)@.rescaled(surfaces@),
            exists|groups: Seq<Seq<u64>>| #[trigger]
                old(self)@.groups_followers(groups, old(self)@.updated_outputs) && surfaces@
                    == groups.flatten(),
    {
        let ghost pre = self@;
        let mut outputs: Vec<u64> = Vec::new();
        std::mem::swap(&mut outputs, &mut self.updated_outputs);
        let ghost start = self@;
        assert(start.updated_outputs =~= Seq::<u64>::empty());
        let mut surfaces: Vec<u64> = Vec::new();
        let ghost mut groups: Seq<Seq<u64>> = Seq::empty();
        assert(surfaces@ =~= groups.flatten());
        assert(start.rows =~= pre.rescaled_rows(outputs@.take(0)));
        let mut i: usize = 0;
        while i < outputs.len()
            invariant
                i <= outputs.len(),
                self@.wf(),
                outputs@ == pre.updated_outputs,
                start == (ServerModel { updated_outputs: Seq::empty(), ..pre }),
                self@ == (ServerModel {
                    rows: pre.rescaled_rows(outputs@.take(i as int)),
                    ..start
                }),
                pre.groups_followers(groups, outputs@.take(i as int)),
                surfaces@ == groups.flatten(),
            decreases outputs.len() - i,
        {
            let output: u64 = outputs[i];
            let ghost mid = self@;
            let ghost seen = outputs@.take(i as int);
            let ghost listed = surfaces@;
            let mut followers: Vec<u64> = self.rescale_surfaces(output);
            let ghost last = followers@;
            proof {
                assert(outputs@.take(i + 1) =~= seen.push(output));
                pre.rescaling_step(mid, seen, output);
                assert(pre.lists_followers(last, output)) by {
                    assert forall|entity: u64| #[trigger]
                        last.contains(entity) <==> pre.follows(entity, output) by {
                        assert(mid.follows(entity, output) == pre.follows(entity, output));
                    }
                }
                groups.lemma_flatten_push(last);
                groups = groups.push(last);
            }
            surfaces.append(&mut followers);
            assert(surfaces@ =~= listed + last);
            i += 1;
        }
        assert(outputs@.take(i as int) =~= outputs@);
        let mut due: Vec<u64> = surfaces.clone();
        assert(due@ =~= surfaces@);
        self.pending_popup_refresh.append(&mut due);
        assert(self@.pending_popup_refresh =~= pre.pending_popup_refresh + surfaces@);
        surfaces
    }

    /// Chooses the scale factor for applications: the smallest one of an output.
    fn choose_scale(&mut self)
        requires
            old(self)@.wf(),
        ensures
            final(self)@.wf(),
            old(self)@.scale_chosen(final(self)@),
    {
        let ghost pre = self@;
        let outputs: Vec<u64> = crate::world::entities_with::<OutputScaleFactor>(&self.world);
        let mut smallest: Option<Scale> = None;
        let ghost mut holder: u64 = 0;
        let mut i: usize = 0;
        while i < outputs.len()
            invariant
                i <= outputs.len(),
                self@ == pre,
                crate::world::lists_all::<OutputScaleFactor>(outputs@, pre.rows),
                smallest is None <==> i == 0,
                smallest is Some ==> pre.has_scale(holder, smallest->0),
                forall|j: int, other: Scale|
                    0 <= j < i && #[trigger] pre.has_scale(outputs@[j], other)
                        ==> smallest->0.key <= other.key,
            decreases outputs.len() - i,
        {
            let output: u64 = outputs[i];
            assert(outputs@.contains(output));
            let factor: OutputScaleFactor = crate::world::get::<OutputScaleFactor>(
                &self.world,
                output,
            ).unwrap();
            let scale: Scale = factor.get();
            assert(pre.has_scale(output, scale));
            let least: Scale = match smallest {
                Some(known) => known.min(scale),
                None => scale,
            };
            proof {
                if least == scale {
                    holder = output;
                }
            }
            smallest = Some(least);
            i += 1;
        }
        assert forall|output: u64, other: Scale| #[trigger] pre.has_scale(output, other) implies smallest is Some
            && smallest->0.key <= other.key by {
            assert(crate::world::component::<OutputScaleFactor>(pre.rows, output) is Some);
            assert(outputs@.contains(output));
            let j = choose|j: int| 0 <= j < outputs@.len() && outputs@[j] == output;
            assert(pre.has_scale(outputs@[j], other));
        }
        if let Some(scale) = smallest {
            self.new_scale = Some(scale);
            self.current_scale = scale;
            assert(pre.has_scale(holder, scale));
            assert(pre.is_smallest_scale(scale));
        }
    }

    /// Does all that is due when outputs have changed: surfaces take over the scale factors of
    /// the outputs that they are on, popups are re-anchored, and the scale factor for
    /// applications is chosen.
    pub fn handle_updated_outputs<D, L, W>(
        &mut self,
        metrics: &Metrics<D, L, W>,
    ) -> (requests: Vec<Request>) where
        D: Fn(i32, Scale) -> i32,
        L: Fn(u16, u16, Scale) -> Size,
        W: Fn(u64, i32) -> bool,

        requires
            old(self)@.wf(),
            metrics.total(),
        ensures
            final(self)@.wf(),
            old(self)@.outputs_updated(final(self)@, requests.deep_view(), *metrics),
    {
        let ghost pre = self@;
        if self.updated_outputs.len() == 0 {
            return nothing();
        }
        let surfaces: Vec<u64> = self.rescale_all();
        let ghost groups = choose|groups: Seq<Seq<u64>>| #[trigger]
            pre.groups_followers(groups, pre.updated_outputs) && surfaces@ == groups.flatten();
        let ghost rescaled = self@;
        let mut requests: Vec<Request> = nothing();
        let mut i: usize = 0;
        while i < surfaces.len()
            invariant
                i <= surfaces.len(),
                requests.deep_view() == viewport_requests(surfaces@.take(i as int)),
            decreases surfaces.len() - i,
        {
            ask(&mut requests, Request::UpdateViewport { entity: surfaces[i] });
            assert(requests.deep_view() =~= viewport_requests(surfaces@.take(i + 1)));
            i += 1;
        }
        assert(surfaces@.take(i as int) =~= surfaces@);
        let ghost fitted = requests.deep_view();
        let mut moved: Vec<Request> = self.refresh_pending_popups(metrics);
        let ghost mid = self@;
        let ghost repositions = moved.deep_view();
        requests.append(&mut moved);
        assert(requests.deep_view() =~= fitted + repositions);
        self.choose_scale();
        assert(rescaled == pre.rescaled(groups.flatten()));
        assert(pre.rescaled(groups.flatten()).refreshed_and_chosen(
            mid,
            self@,
            repositions,
            *metrics,
        ));
        requests
    }
}

} // verus!
