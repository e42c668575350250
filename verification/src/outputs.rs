//! The outputs: their common origin, and what follows when one goes.
use crate::state::{
    GlobalOutputOffset, GlobalOutputOffsetDimension, InnerServerState, ServerModel,
};
use crate::world::{
    GlobalName, OnOutput, OutputDimensions, OutputScaleFactor, Row, ServerOutput,
};
use vstd::prelude::*;

verus! {

/// One of the two directions in which outputs lie side by side.
#[derive(Clone, Copy, Debug, PartialEq, Eq, Structural)]
pub enum Axis {
    X,
    Y,
}

impl OutputDimensions {
    /// Where the output begins in the given direction.
    pub open spec fn start(self, axis: Axis) -> i32 {
        match axis {
            Axis::X => self.x,
            Axis::Y => self.y,
        }
    }
}

impl GlobalOutputOffsetDimension {
    /// The coordinate once the output has gone. It has no owner then, if the output owned it.
    pub open spec fn disowned(self, output: u64) -> GlobalOutputOffsetDimension {
        if self.owner == Some(output) {
            GlobalOutputOffsetDimension { owner: None, ..self }
        } else {
            self
        }
    }
}

impl ServerModel {
    /// Whether the entity is an output with the number.
    pub open spec fn is_output(self, entity: u64, global: GlobalName) -> bool {
        &&& self.rows.dom().contains(entity)
        &&& self.rows[entity].server_output is Some
        &&& self.rows[entity].global == Some(global)
    }

    /// The server once the output has gone: it has no scale factor and no dimensions any longer,
    /// no surface is on it, and it owns no coordinate of the common origin.
    pub open spec fn without_output(self, output: u64) -> ServerModel {
        ServerModel {
            rows: Map::new(
                |entity: u64| self.rows.dom().contains(entity),
                |entity: u64| self.row_without_output(entity, output),
            ),
            updated_outputs: self.updated_outputs.push(output),
            global_output_offset: GlobalOutputOffset {
                x: self.global_output_offset.x.disowned(output),
                y: self.global_output_offset.y.disowned(output),
            },
            global_offset_updated: self.global_offset_updated || self.global_output_offset.x.owner
                == Some(output) || self.global_output_offset.y.owner == Some(output),
            ..self
        }
    }

    /// The row of an entity once the output has gone.
    pub open spec fn row_without_output(self, entity: u64, output: u64) -> Row {
        let row = self.rows[entity];
        Row {
            output_scale: if entity == output {
                None
            } else {
                row.output_scale
            },
            output_dimensions: if entity == output {
                None
            } else {
                row.output_dimensions
            },
            on_output: if row.on_output == Some(OnOutput { output }) {
                None
            } else {
                row.on_output
            },
            ..row
        }
    }

    /// Whether `after` is the server once an output with the number has gone, if there is one.
    pub open spec fn output_removed(self, after: ServerModel, global: GlobalName) -> bool {
        if exists|output: u64| #[trigger] self.is_output(output, global) {
            exists|output: u64| #[trigger]
                self.is_output(output, global) && after == self.without_output(output)
        } else {
            after == self
        }
    }

    /// Whether an output with the number has told its scale factor and its dimensions, if there
    /// is one.
    pub open spec fn can_remove_output(self, global: GlobalName) -> bool {
        forall|entity: u64| #[trigger]
            self.is_output(entity, global) ==> self.rows[entity].output_scale is Some
                && self.rows[entity].output_dimensions is Some
    }

    /// Whether the entity is an output of known dimensions that begins at the coordinate.
    pub open spec fn starts_at(self, entity: u64, axis: Axis, value: i32) -> bool {
        &&& self.rows.dom().contains(entity)
        &&& self.rows[entity].output_dimensions is Some
        &&& self.rows[entity].output_dimensions->0.start(axis) == value
    }

    /// Whether no output of known dimensions begins before the coordinate.
    pub open spec fn none_before(self, axis: Axis, value: i32) -> bool {
        forall|entity: u64| #[trigger]
            self.rows.dom().contains(entity) && self.rows[entity].output_dimensions is Some
                ==> self.rows[entity].output_dimensions->0.start(axis) >= value
    }

    /// Whether `after` is the coordinate at which the first output begins, owned by an output that
    /// begins there, where the coordinate was `before`. Where no output begins before the largest
    /// coordinate there is, that is the coordinate, and its owner stays.
    pub open spec fn is_first_start(
        self,
        axis: Axis,
        before: GlobalOutputOffsetDimension,
        after: GlobalOutputOffsetDimension,
    ) -> bool {
        &&& self.none_before(axis, after.value)
        &&& if after.value < i32::MAX {
            after.owner is Some && self.starts_at(after.owner->0, axis, after.value)
        } else {
            after.owner == before.owner
        }
    }

    /// Whether `after` is the server once the outputs' common origin has been found again.
    pub open spec fn origin_found(self, after: ServerModel) -> bool {
        let before = self.global_output_offset;
        &&& after == ServerModel { global_output_offset: after.global_output_offset, ..self }
        &&& self.is_first_start(Axis::X, before.x, after.global_output_offset.x)
        &&& self.is_first_start(Axis::Y, before.y, after.global_output_offset.y)
    }
}

/// The coordinate with the output's start in its place, if the output begins before it.
fn earlier_start(
    known: GlobalOutputOffsetDimension,
    output: u64,
    start: i32,
) -> (found: GlobalOutputOffsetDimension)
    ensures
        found == (if start < known.value {
            GlobalOutputOffsetDimension { owner: Some(output), value: start }
        } else {
            known
        }),
{
    if start < known.value {
        GlobalOutputOffsetDimension { owner: Some(output), value: start }
    } else {
        known
    }
}

/// Whether `found` is the coordinate at which the first of the listed outputs begins.
spec fn first_of(
    model: ServerModel,
    list: Seq<u64>,
    axis: Axis,
    before: GlobalOutputOffsetDimension,
    found: GlobalOutputOffsetDimension,
) -> bool {
    &&& forall|i: int|
        0 <= i < list.len() ==> model.rows[#[trigger] list[i]].output_dimensions->0.start(axis)
            >= found.value
    &&& if found.value < i32::MAX {
        found.owner is Some && model.starts_at(found.owner->0, axis, found.value)
    } else {
        found.owner == before.owner
    }
}

impl InnerServerState {
    /// Finds the outputs' common origin: the least coordinates at which outputs begin.
    pub fn calc_global_output_offset(&mut self)
        requires
            old(self)@.wf(),
        ensures
            final(self)@.wf(),
            old(self)@.origin_found(final(self)@),
    {
        let ghost pre = self@;
        let before: GlobalOutputOffset = self.global_output_offset;
        let mut x = GlobalOutputOffsetDimension { owner: before.x.owner, value: i32::MAX };
        let mut y = GlobalOutputOffsetDimension { owner: before.y.owner, value: i32::MAX };
        let outputs: Vec<u64> = crate::world::entities_with::<OutputDimensions>(&self.world);
        let mut i: usize = 0;
        while i < outputs.len()
            invariant
                i <= outputs.len(),
                self@ == pre,
                before == pre.global_output_offset,
                crate::world::lists_all::<OutputDimensions>(outputs@, pre.rows),
                first_of(pre, outputs@.take(i as int), Axis::X, before.x, x),
                first_of(pre, outputs@.take(i as int), Axis::Y, before.y, y),
            decreases outputs.len() - i,
        {
            let output: u64 = outputs[i];
            let ghost seen = outputs@.take(i as int);
            let ghost now = outputs@.take(i + 1);
            assert(outputs@.contains(output));
            let found: Option<OutputDimensions> = crate::world::get::<OutputDimensions>(
                &self.world,
                output,
            );
            let dimensions: OutputDimensions = found.unwrap();
            x = earlier_start(x, output, dimensions.x);
            y = earlier_start(y, output, dimensions.y);
            assert(now =~= seen.push(output));
            assert(forall|j: int| 0 <= j < i ==> #[trigger] now[j] == seen[j]);
            assert(pre.starts_at(output, Axis::X, dimensions.x));
            assert(pre.starts_at(output, Axis::Y, dimensions.y));
            i += 1;
        }
        self.global_output_offset = GlobalOutputOffset { x, y };
        proof {
            assert(outputs@.take(i as int) =~= outputs@);
            assert forall|entity: u64| #[trigger]
                pre.rows.dom().contains(entity)
                    && pre.rows[entity].output_dimensions is Some implies pre.rows[entity].output_dimensions->0.start(
                Axis::X,
            ) >= x.value && pre.rows[entity].output_dimensions->0.start(Axis::Y) >= y.value by {
                assert(crate::world::component::<OutputDimensions>(pre.rows, entity) is Some);
                assert(outputs@.contains(entity));
                let j = choose|j: int| 0 <= j < outputs@.len() && outputs@[j] == entity;
                assert(outputs@[j] == entity);
            }
            assert(pre.none_before(Axis::X, x.value));
            assert(pre.none_before(Axis::Y, y.value));
        }
    }

    /// An output with the number, if there is one.
    fn find_output(&self, global: GlobalName) -> (found: Option<u64>)
        ensures
            found is Some ==> self@.is_output(found->0, global),
            found is None ==> forall|entity: u64| !#[trigger] self@.is_output(entity, global),
    {
        let numbered: Vec<u64> = crate::world::entities_with::<GlobalName>(&self.world);
        let mut i: usize = 0;
        while i < numbered.len()
            invariant
                i <= numbered.len(),
                crate::world::lists_all::<GlobalName>(numbered@, self@.rows),
                forall|j: int| 0 <= j < i ==> !self@.is_output(#[trigger] numbered@[j], global),
            decreases numbered.len() - i,
        {
            let entity: u64 = numbered[i];
            assert(numbered@.contains(entity));
            let name: GlobalName = crate::world::get::<GlobalName>(&self.world, entity).unwrap();
            let output: Option<ServerOutput> = crate::world::get::<ServerOutput>(
                &self.world,
                entity,
            );
            if output.is_some() && name == global {
                return Some(entity);
            }
            i += 1;
        }
        assert forall|entity: u64| !#[trigger] self@.is_output(entity, global) by {
            if self@.is_output(entity, global) {
                assert(crate::world::component::<GlobalName>(self@.rows, entity) is Some);
                assert(numbered@.contains(entity));
                let j = choose|j: int| 0 <= j < numbered@.len() && numbered@[j] == entity;
                assert(!self@.is_output(numbered@[j], global));
            }
        }
        None
    }

    /// Whether all outputs with the number have told their scale factors and dimensions.
    pub fn output_is_complete(&self, global: GlobalName) -> (complete: bool)
        ensures
            complete == self@.can_remove_output(global),
    {
        let numbered: Vec<u64> = crate::world::entities_with::<GlobalName>(&self.world);
        let mut i: usize = 0;
        while i < numbered.len()
            invariant
                i <= numbered.len(),
                crate::world::lists_all::<GlobalName>(numbered@, self@.rows),
                forall|j: int|
                    0 <= j < i && self@.is_output(#[trigger] numbered@[j], global)
                        ==> self@.rows[numbered@[j]].output_scale is Some
                        && self@.rows[numbered@[j]].output_dimensions is Some,
            decreases numbered.len() - i,
        {
            let entity: u64 = numbered[i];
            assert(numbered@.contains(entity));
            let name: GlobalName = crate::world::get::<GlobalName>(&self.world, entity).unwrap();
            let output: Option<ServerOutput> = crate::world::get::<ServerOutput>(
                &self.world,
                entity,
            );
            if output.is_some() && name == global {
                let scale: Option<OutputScaleFactor> = crate::world::get::<OutputScaleFactor>(
                    &self.world,
                    entity,
                );
                let dimensions: Option<OutputDimensions> = crate::world::get::<OutputDimensions>(
                    &self.world,
                    entity,
                );
                if scale.is_none() || dimensions.is_none() {
                    assert(self@.is_output(entity, global));
                    return false;
                }
            }
            i += 1;
        }
        assert forall|entity: u64| #[trigger] self@.is_output(entity, global) implies self@.rows[entity].output_scale is Some
            && self@.rows[entity].output_dimensions is Some by {
            assert(crate::world::component::<GlobalName>(self@.rows, entity) is Some);
            assert(numbered@.contains(entity));
            let j = choose|j: int| 0 <= j < numbered@.len() && numbered@[j] == entity;
            assert(self@.is_output(numbered@[j], global));
        }
        true
    }

    /// Takes all surfaces off an output.
    fn leave_output(&mut self, output: u64)
        requires
            old(self)@.wf(),
        ensures
            final(self)@.wf(),
            final(self)@ == (ServerModel {
                rows: Map::new(
                    |entity: u64| old(self)@.rows.dom().contains(entity),
                    |entity: u64|
                        Row {
                            on_output: if old(self)@.rows[entity].on_output == Some(
                                OnOutput { output },
                            ) {
                                None
                            } else {
                                old(self)@.rows[entity].on_output
                            },
                            ..old(self)@.rows[entity]
                        },
                ),
                ..old(self)@
            }),
    {
        let ghost pre = self@;
        let surfaces: Vec<u64> = crate::world::entities_with::<OnOutput>(&self.world);
        let mut i: usize = 0;
        while i < surfaces.len()
            invariant
                i <= surfaces.len(),
                self@.wf(),
                crate::world::lists_all::<OnOutput>(surfaces@, pre.rows),
                self@ == (ServerModel { rows: self@.rows, ..pre }),
                self@.rows.dom() == pre.rows.dom(),
                forall|entity: u64| #[trigger]
                    pre.rows.dom().contains(entity) ==> self@.rows[entity] == (Row {
                        on_output: if pre.rows[entity].on_output == Some(OnOutput { output })
                            && surfaces@.take(i as int).contains(entity) {
                            None
                        } else {
                            pre.rows[entity].on_output
                        },
                        ..pre.rows[entity]
                    }),
            decreases surfaces.len() - i,
        {
            let surface: u64 = surfaces[i];
            let ghost mid = self@;
            assert(surfaces@.contains(surface));
            proof {
                crate::lists::passing(surfaces@, i as int);
            }
            let on: OnOutput = crate::world::get::<OnOutput>(&self.world, surface).unwrap();
            if on == (OnOutput { output }) {
                let _left: Option<OnOutput> = self.detach::<OnOutput>(surface);
                assert(self@.rows.dom() =~= pre.rows.dom());
            }
            i += 1;
        }
        proof {
            assert(surfaces@.take(i as int) =~= surfaces@);
            assert forall|entity: u64| #[trigger] pre.rows.dom().contains(entity) implies self@.rows[entity]
                == (Row {
                on_output: if pre.rows[entity].on_output == Some(OnOutput { output }) {
                    None
                } else {
                    pre.rows[entity].on_output
                },
                ..pre.rows[entity]
            }) by {
                if pre.rows[entity].on_output is Some {
                    assert(crate::world::component::<OnOutput>(pre.rows, entity) is Some);
                    assert(surfaces@.contains(entity));
                }
            }
            assert(self@.rows =~= Map::new(
                |entity: u64| pre.rows.dom().contains(entity),
                |entity: u64|
                    Row {
                        on_output: if pre.rows[entity].on_output == Some(OnOutput { output }) {
                            None
                        } else {
                            pre.rows[entity].on_output
                        },
                        ..pre.rows[entity]
                    },
            ));
        }
    }

    /// Removes an output with the number. It must have told its scale factor and its dimensions.
    pub fn remove_output(&mut self, global: GlobalName)
        requires
            old(self)@.wf(),
            old(self)@.can_remove_output(global),
        ensures
            final(self)@.wf(),
            old(self)@.output_removed(final(self)@, global),
    {
        let ghost pre = self@;
        let output: u64 = match self.find_output(global) {
            Some(output) => output,
            None => return,
        };
        self.updated_outputs.push(output);
        let _scale: Option<OutputScaleFactor> = self.detach::<OutputScaleFactor>(output);
        let _dimensions: Option<OutputDimensions> = self.detach::<OutputDimensions>(output);
        self.leave_output(output);
        if self.global_output_offset.x.owner == Some(output) {
            self.global_offset_updated = true;
            self.global_output_offset.x.owner = None;
        }
        if self.global_output_offset.y.owner == Some(output) {
            self.global_offset_updated = true;
            self.global_output_offset.y.owner = None;
        }
        assert(self@.rows =~= pre.without_output(output).rows);
        assert(self@ == pre.without_output(output));
    }
}

} // verus!
