//! What holds of outputs, scale factors and globals.
use crate::geometry::{Scale, Size};
use crate::globals::{Advertisement, ServerGlobal};
use crate::laws_popups::joined;
use crate::metrics::Metrics;
use crate::outputs::Axis;
use crate::request::Request;
use crate::role::{PendingAnchor, PopupData, SurfaceRole};
use crate::state::{Global, ServerModel};
use crate::world::{GlobalName, OnOutput, OutputScaleFactor, Row, SurfaceScaleFactor};
use vstd::prelude::*;

verus! {

/// A list of lists holds what one of them holds.
proof fn flattened(groups: Seq<Seq<u64>>, item: u64)
    ensures
        groups.flatten().contains(item) <==> exists|i: int|
            0 <= i < groups.len() && (#[trigger] groups[i]).contains(item),
    decreases groups.len(),
{
    if groups.len() > 0 {
        let first = groups.first();
        let rest = groups.drop_first();
        flattened(rest, item);
        joined(first, rest.flatten(), item);
        assert(groups.flatten() == first + rest.flatten());
        if first.contains(item) {
            assert(groups[0].contains(item));
        }
        if exists|i: int| 0 <= i < rest.len() && (#[trigger] rest[i]).contains(item) {
            let i = choose|i: int| 0 <= i < rest.len() && (#[trigger] rest[i]).contains(item);
            assert(groups[i + 1] == rest[i]);
        }
        if exists|i: int| 0 <= i < groups.len() && (#[trigger] groups[i]).contains(item) {
            let i = choose|i: int| 0 <= i < groups.len() && (#[trigger] groups[i]).contains(item);
            if i > 0 {
                assert(rest[i - 1] == groups[i]);
            }
        }
    } else {
        assert(groups.flatten() =~= Seq::<u64>::empty());
    }
}

impl ServerModel {
    /// After outputs have changed, the scale factor for applications is the smallest one of an
    /// output, whatever it was before, and applications are to be told. Where no output has a
    /// scale factor, it stays.
    pub proof fn smallest_scale_is_chosen<D, L, W>(
        self,
        after: ServerModel,
        requests: Seq<Request<Seq<char>>>,
        metrics: Metrics<D, L, W>,
    ) where
        D: Fn(i32, Scale) -> i32,
        L: Fn(u16, u16, Scale) -> Size,
        W: Fn(u64, i32) -> bool,

        requires
            self.outputs_updated(after, requests, metrics),
            self.updated_outputs.len() > 0,
        ensures
            (exists|output: u64| #[trigger]
                self.rows.dom().contains(output) && self.rows[output].output_scale is Some) ==> {
                &&& after.new_scale == Some(after.current_scale)
                &&& exists|output: u64| #[trigger]
                    self.rows.dom().contains(output) && (match self.rows[output].output_scale {
                        Some(OutputScaleFactor::Output(scale)) => scale == after.current_scale,
                        Some(OutputScaleFactor::Fractional(scale)) => scale
                            == after.current_scale,
                        None => false,
                    })
                &&& forall|output: u64| #[trigger]
                    self.rows.dom().contains(output) ==> match self.rows[output].output_scale {
                        Some(OutputScaleFactor::Output(scale)) => after.current_scale.key
                            <= scale.key,
                        Some(OutputScaleFactor::Fractional(scale)) => after.current_scale.key
                            <= scale.key,
                        None => true,
                    }
            },
            !(exists|output: u64| #[trigger]
                self.rows.dom().contains(output) && self.rows[output].output_scale is Some)
                ==> after.new_scale == self.new_scale && after.current_scale == self.current_scale,
    {
        let (groups, mid, repositions) = choose|
            groups: Seq<Seq<u64>>,
            mid: ServerModel,
            repositions: Seq<Request<Seq<char>>>,
        |
            {
                &&& #[trigger] self.groups_followers(groups, self.updated_outputs)
                &&& #[trigger] self.rescaled(groups.flatten()).refreshed_and_chosen(
                    mid,
                    after,
                    repositions,
                    metrics,
                )
                &&& requests == crate::scaling::viewport_requests(groups.flatten()) + repositions
            };
        let rescaled = self.rescaled(groups.flatten());
        rescaled.refresh_keeps_all_but_popups(mid, repositions, metrics);
        assert(rescaled.rows.dom() =~= self.rows.dom());
        assert forall|output: u64| #[trigger] self.rows.dom().contains(output) implies mid.rows[output].output_scale
            == self.rows[output].output_scale by {
            assert(rescaled.rows.dom().contains(output));
        }
        if exists|output: u64| #[trigger]
            self.rows.dom().contains(output) && self.rows[output].output_scale is Some {
            let output = choose|output: u64| #[trigger]
                self.rows.dom().contains(output) && self.rows[output].output_scale is Some;
            mid.smallest_exists(output);
            let scale = choose|scale: Scale|
                {
                    &&& #[trigger] mid.is_smallest_scale(scale)
                    &&& after == ServerModel {
                        new_scale: Some(scale),
                        current_scale: scale,
                        ..mid
                    }
                };
            let holder = choose|holder: u64| #[trigger] mid.has_scale(holder, scale);
            assert(self.rows.dom().contains(holder));
            assert forall|output: u64| #[trigger] self.rows.dom().contains(output) implies match self.rows[output].output_scale {
                Some(OutputScaleFactor::Output(other)) => scale.key <= other.key,
                Some(OutputScaleFactor::Fractional(other)) => scale.key <= other.key,
                None => true,
            } by {
                match self.rows[output].output_scale {
                    Some(factor) => {
                        assert(mid.has_scale(output, factor.scale()));
                    },
                    None => {},
                }
            }
        } else {
            if exists|scale: Scale| #[trigger] mid.is_smallest_scale(scale) {
                let scale = choose|scale: Scale| #[trigger] mid.is_smallest_scale(scale);
                let holder = choose|holder: u64| #[trigger] mid.has_scale(holder, scale);
                assert(self.rows.dom().contains(holder));
            }
        }
    }

    /// Where an output has a scale factor, one is the smallest.
    proof fn smallest_exists(self, output: u64)
        requires
            self.rows.dom().contains(output),
            self.rows[output].output_scale is Some,
        ensures
            exists|scale: Scale| #[trigger] self.is_smallest_scale(scale),
    {
        self.smallest_below(self.rows[output].output_scale->0.scale(), output);
    }

    /// Where an output has a scale factor, one that is not larger is the smallest.
    proof fn smallest_below(self, scale: Scale, output: u64)
        requires
            self.has_scale(output, scale),
        ensures
            exists|smallest: Scale| #[trigger] self.is_smallest_scale(smallest),
        decreases scale.key - i64::MIN,
    {
        if exists|other: u64, less: Scale| #[trigger]
            self.has_scale(other, less) && less.key < scale.key {
            let (other, less) = choose|other: u64, less: Scale| #[trigger]
                self.has_scale(other, less) && less.key < scale.key;
            self.smallest_below(less, other);
        } else {
            assert(self.is_smallest_scale(scale));
        }
    }

    /// After outputs have changed, each window's surface on one of them that has told its scale
    /// factor has that scale factor, its viewport is fitted, and its popups and, if it is a popup
    /// itself, it and its siblings are re-anchored. All other scale factors stay, and no other
    /// viewport is fitted.
    pub proof fn surfaces_take_over_scales<D, L, W>(
        self,
        after: ServerModel,
        requests: Seq<Request<Seq<char>>>,
        entity: u64,
        metrics: Metrics<D, L, W>,
    ) where
        D: Fn(i32, Scale) -> i32,
        L: Fn(u16, u16, Scale) -> Size,
        W: Fn(u64, i32) -> bool,

        requires
            self.outputs_updated(after, requests, metrics),
            self.rows.dom().contains(entity),
        ensures
            after.rows.dom() == self.rows.dom(),
            ({
                let row = self.rows[entity];
                let output = row.on_output->0.output;
                let told = self.rows[output].output_scale;
                let follows = row.on_output is Some && row.scale is Some && row.data is Some
                    && row.server_surface is Some && self.updated_outputs.contains(output)
                    && self.rows.dom().contains(output) && (told matches Some(
                    OutputScaleFactor::Output(_),
                ));
                &&& after.rows[entity].scale == (if follows {
                    Some(SurfaceScaleFactor { scale: told->0->Output_0 })
                } else {
                    row.scale
                })
                &&& after.rows[entity] == (Row {
                    scale: after.rows[entity].scale,
                    role: after.rows[entity].role,
                    ..row
                })
                &&& requests.contains(Request::UpdateViewport { entity }) <==> follows
            }),
            after.updated_outputs.len() == 0,
            self.updated_outputs.len() == 0 ==> after == self && requests.len() == 0,
            after == (ServerModel {
                rows: after.rows,
                updated_outputs: after.updated_outputs,
                pending_popup_refresh: after.pending_popup_refresh,
                new_scale: after.new_scale,
                current_scale: after.current_scale,
                ..self
            }),
    {
        if self.updated_outputs.len() == 0 {
            assert(!self.updated_outputs.contains(self.rows[entity].on_output->0.output));
        } else {
            let (groups, mid, repositions) = choose|
                groups: Seq<Seq<u64>>,
                mid: ServerModel,
                repositions: Seq<Request<Seq<char>>>,
            |
                {
                    &&& #[trigger] self.groups_followers(groups, self.updated_outputs)
                    &&& #[trigger] self.rescaled(groups.flatten()).refreshed_and_chosen(
                        mid,
                        after,
                        repositions,
                        metrics,
                    )
                    &&& requests == crate::scaling::viewport_requests(groups.flatten())
                        + repositions
                };
            let surfaces = groups.flatten();
            let rescaled = self.rescaled(surfaces);
            rescaled.refresh_keeps_all_but_popups(mid, repositions, metrics);
            assert(rescaled.rows.dom() =~= self.rows.dom());
            assert(rescaled.rows[entity] == self.rescaled_row(entity, self.updated_outputs));
            let fitted = crate::scaling::viewport_requests(surfaces);
            let wanted = Request::<Seq<char>>::UpdateViewport { entity };
            joined(fitted, repositions, wanted);
            assert(!repositions.contains(wanted));
            assert(fitted.contains(wanted) <==> surfaces.contains(entity)) by {
                if surfaces.contains(entity) {
                    let i = choose|i: int| 0 <= i < surfaces.len() && surfaces[i] == entity;
                    assert(fitted[i] == wanted);
                }
                if fitted.contains(wanted) {
                    let i = choose|i: int| 0 <= i < fitted.len() && fitted[i] == wanted;
                    assert(surfaces[i] == entity);
                }
            }
            flattened(groups, entity);
            let output = self.rows[entity].on_output->0.output;
            if surfaces.contains(entity) {
                let i = choose|i: int|
                    0 <= i < groups.len() && (#[trigger] groups[i]).contains(entity);
                assert(self.lists_followers(groups[i], self.updated_outputs[i]));
                assert(self.follows(entity, self.updated_outputs[i]));
                assert(self.updated_outputs.contains(self.updated_outputs[i]));
            }
            if self.rows[entity].on_output is Some && self.updated_outputs.contains(output)
                && self.follows(entity, output) {
                let i = choose|i: int|
                    0 <= i < self.updated_outputs.len() && self.updated_outputs[i] == output;
                assert(self.lists_followers(groups[i], self.updated_outputs[i]));
                assert(groups[i].contains(entity));
            }
        }
    }

    /// A popup on an output whose scale factor has changed is re-anchored under its new scale
    /// factor: it has the logical size that its own dimensions and that scale factor give.
    pub proof fn rescaled_popups_are_resized<D, L, W>(
        self,
        after: ServerModel,
        requests: Seq<Request<Seq<char>>>,
        entity: u64,
        popup: PopupData<Seq<PendingAnchor>>,
        scale: Scale,
        metrics: Metrics<D, L, W>,
    ) where
        D: Fn(i32, Scale) -> i32,
        L: Fn(u16, u16, Scale) -> Size,
        W: Fn(u64, i32) -> bool,

        requires
            self.outputs_updated(after, requests, metrics),
            self.rows.dom().contains(entity),
            self.rows[entity].role == Some(SurfaceRole::Popup(Some(popup))),
            self.rows[entity].data is Some,
            self.rows[entity].scale is Some,
            self.rows[entity].server_surface is Some,
            self.rows[entity].on_output is Some,
            self.updated_outputs.contains(self.rows[entity].on_output->0.output),
            self.rows.dom().contains(self.rows[entity].on_output->0.output),
            self.rows[self.rows[entity].on_output->0.output].output_scale == Some(
                OutputScaleFactor::Output(scale),
            ),
            self.environment.xdg_wm_base_version >= 3,
            self.rows.dom().contains(popup.parent),
            self.rows[popup.parent].data is Some,
            self.rows[popup.parent].scale is Some,
            self.rows[popup.parent].role is Some,
        ensures
            ({
                let dims = self.rows[entity].data->0.attrs.dims;
                let now = after.rows[entity].role->0->Popup_0->0;
                &&& after.rows[entity].role == Some(SurfaceRole::Popup(Some(now)))
                &&& exists|width: i32, height: i32| #[trigger]
                    call_ensures(metrics.divide, (dims.width as i32, scale), width)
                        && #[trigger] call_ensures(
                        metrics.divide,
                        (dims.height as i32, scale),
                        height,
                    ) && now.size == (Size {
                        width: if width < 1 {
                            1
                        } else {
                            width
                        },
                        height: if height < 1 {
                            1
                        } else {
                            height
                        },
                    })
                &&& now.size != popup.size ==> exists|i: int|
                    0 <= i < requests.len() && (#[trigger] requests[i] matches
                        Request::Reposition { entity: moved, positioner, .. } && moved == entity
                        && positioner.size == now.size)
            }),
    {
        let output = self.rows[entity].on_output->0.output;
        let (groups, mid, repositions) = choose|
            groups: Seq<Seq<u64>>,
            mid: ServerModel,
            repositions: Seq<Request<Seq<char>>>,
        |
            {
                &&& #[trigger] self.groups_followers(groups, self.updated_outputs)
                &&& #[trigger] self.rescaled(groups.flatten()).refreshed_and_chosen(
                    mid,
                    after,
                    repositions,
                    metrics,
                )
                &&& requests == crate::scaling::viewport_requests(groups.flatten()) + repositions
            };
        let surfaces = groups.flatten();
        let rescaled = self.rescaled(surfaces);
        assert(rescaled.rows.dom() =~= self.rows.dom());
        assert(rescaled.rows[entity] == self.rescaled_row(entity, self.updated_outputs));
        assert(rescaled.rows[popup.parent] == self.rescaled_row(
            popup.parent,
            self.updated_outputs,
        ));
        flattened(groups, entity);
        let i = choose|i: int|
            0 <= i < self.updated_outputs.len() && self.updated_outputs[i] == output;
        assert(self.follows(entity, output));
        assert(self.lists_followers(groups[i], self.updated_outputs[i]));
        assert(groups[i].contains(entity));
        assert(surfaces.contains(entity));
        let due = rescaled.pending_popup_refresh;
        joined(self.pending_popup_refresh, surfaces, entity);
        assert(due.contains(entity));
        rescaled.named_popups_are_refreshed(mid, repositions, entity, entity, popup, metrics);
        let now = after.rows[entity].role->0->Popup_0->0;
        if now.size != popup.size {
            let fitted = crate::scaling::viewport_requests(surfaces);
            let j = choose|j: int|
                0 <= j < repositions.len() && (#[trigger] repositions[j] matches
                    Request::Reposition { entity: moved, positioner, .. } && moved == entity
                    && positioner.size == now.size);
            assert(requests[fitted.len() + j] == repositions[j]);
        }
    }
}

/// What is kept of a list is what it holds and meets the condition.
pub(crate) proof fn kept_by<T>(list: Seq<T>, keep: spec_fn(T) -> bool, item: T)
    ensures
        list.filter(keep).contains(item) <==> list.contains(item) && keep(item),
    decreases list.len(),
{
    reveal(Seq::filter);
    if list.len() > 0 {
        let rest = list.drop_last();
        let last = list.last();
        kept_by(rest, keep, item);
        assert(list =~= rest.push(last));
        assert(list.contains(item) <==> rest.contains(item) || item == last) by {
            vstd::seq_lib::lemma_seq_contains_after_push(rest, last, item);
        }
        if keep(last) {
            vstd::seq_lib::lemma_seq_contains_after_push(rest.filter(keep), last, item);
        }
    }
}

impl ServerModel {
    /// When a global goes that is an output, one output with its number loses its scale factor
    /// and its dimensions, surfaces on it are on no output any longer, the coordinates of the
    /// common origin that it owned have no owner, and it counts as changed. All else stays, and
    /// so does everything where no output has the number.
    pub proof fn removed_output_is_forgotten(self, after: ServerModel, global: GlobalName)
        requires
            self.output_removed(after, global),
        ensures
            (forall|entity: u64| #[trigger]
                self.rows.dom().contains(entity) ==> self.rows[entity].server_output is None
                    || self.rows[entity].global != Some(global)) ==> after == self,
            (exists|entity: u64| #[trigger]
                self.rows.dom().contains(entity) && self.rows[entity].server_output is Some
                    && self.rows[entity].global == Some(global)) ==> exists|output: u64|
                {
                    &&& #[trigger] self.rows.dom().contains(output)
                    &&& self.rows[output].server_output is Some
                    &&& self.rows[output].global == Some(global)
                    &&& after.rows.dom() == self.rows.dom()
                    &&& after.rows[output].output_scale is None
                    &&& after.rows[output].output_dimensions is None
                    &&& forall|entity: u64| #[trigger]
                        self.rows.dom().contains(entity) ==> {
                            let left = self.rows[entity].on_output == Some(OnOutput { output });
                            &&& after.rows[entity].on_output == (if left {
                                None
                            } else {
                                self.rows[entity].on_output
                            })
                            &&& entity != output ==> after.rows[entity] == (Row {
                                on_output: after.rows[entity].on_output,
                                ..self.rows[entity]
                            })
                            &&& entity == output ==> after.rows[entity] == (Row {
                                on_output: after.rows[entity].on_output,
                                output_scale: None,
                                output_dimensions: None,
                                ..self.rows[entity]
                            })
                        }
                    &&& after.updated_outputs == self.updated_outputs.push(output)
                    &&& after.global_output_offset.x.value == self.global_output_offset.x.value
                    &&& after.global_output_offset.y.value == self.global_output_offset.y.value
                    &&& after.global_output_offset.x.owner == (
                    if self.global_output_offset.x.owner == Some(output) {
                        None
                    } else {
                        self.global_output_offset.x.owner
                    })
                    &&& after.global_output_offset.y.owner == (
                    if self.global_output_offset.y.owner == Some(output) {
                        None
                    } else {
                        self.global_output_offset.y.owner
                    })
                    &&& self.global_output_offset.x.owner == Some(output)
                        || self.global_output_offset.y.owner == Some(output)
                        ==> after.global_offset_updated
                    &&& self.global_output_offset.x.owner != Some(output)
                        && self.global_output_offset.y.owner != Some(output)
                        ==> after.global_offset_updated == self.global_offset_updated
                    &&& after == (ServerModel {
                        rows: after.rows,
                        updated_outputs: after.updated_outputs,
                        global_output_offset: after.global_output_offset,
                        global_offset_updated: after.global_offset_updated,
                        ..self
                    })
                },
    {
        if exists|entity: u64| #[trigger]
            self.rows.dom().contains(entity) && self.rows[entity].server_output is Some
                && self.rows[entity].global == Some(global) {
            let entity = choose|entity: u64| #[trigger]
                self.rows.dom().contains(entity) && self.rows[entity].server_output is Some
                    && self.rows[entity].global == Some(global);
            assert(self.is_output(entity, global));
            let output = choose|output: u64| #[trigger]
                self.is_output(output, global) && after == self.without_output(output);
            assert(self.rows.dom().contains(output));
            assert(after.rows.dom() =~= self.rows.dom());
        } else {
            assert(!(exists|output: u64| #[trigger] self.is_output(output, global))) by {
                if exists|output: u64| #[trigger] self.is_output(output, global) {
                    let output = choose|output: u64| #[trigger] self.is_output(output, global);
                    assert(self.rows.dom().contains(output));
                }
            }
        }
    }

    /// The common origin is the least coordinate at which an output begins, in each direction by
    /// itself, and belongs to an output that begins there.
    pub proof fn origin_is_where_outputs_begin(self, after: ServerModel)
        requires
            self.origin_found(after),
        ensures
            after == (ServerModel { global_output_offset: after.global_output_offset, ..self }),
            forall|output: u64| #[trigger]
                self.rows.dom().contains(output) ==> match self.rows[output].output_dimensions {
                    Some(area) => {
                        &&& after.global_output_offset.x.value <= area.x
                        &&& after.global_output_offset.y.value <= area.y
                    },
                    None => true,
                },
            after.global_output_offset.x.value < i32::MAX ==> {
                let owner = after.global_output_offset.x.owner->0;
                &&& after.global_output_offset.x.owner is Some
                &&& self.rows.dom().contains(owner)
                &&& self.rows[owner].output_dimensions matches Some(area) && area.x
                    == after.global_output_offset.x.value
            },
            after.global_output_offset.y.value < i32::MAX ==> {
                let owner = after.global_output_offset.y.owner->0;
                &&& after.global_output_offset.y.owner is Some
                &&& self.rows.dom().contains(owner)
                &&& self.rows[owner].output_dimensions matches Some(area) && area.y
                    == after.global_output_offset.y.value
            },
            after.global_output_offset.x.value == i32::MAX ==> after.global_output_offset.x.owner
                == self.global_output_offset.x.owner,
            after.global_output_offset.y.value == i32::MAX ==> after.global_output_offset.y.owner
                == self.global_output_offset.y.owner,
    {
        let origin = after.global_output_offset;
        assert(self.none_before(Axis::X, origin.x.value));
        assert(self.none_before(Axis::Y, origin.y.value));
        assert forall|output: u64| #[trigger] self.rows.dom().contains(output) implies match self.rows[output].output_dimensions {
            Some(area) => origin.x.value <= area.x && origin.y.value <= area.y,
            None => true,
        } by {
            match self.rows[output].output_dimensions {
                Some(area) => {
                    assert(area.start(Axis::X) == area.x);
                    assert(area.start(Axis::Y) == area.y);
                },
                None => {},
            }
        }
    }

    /// The common origin is found again exactly if one of its coordinates has no owner, and then
    /// the outputs are to be told.
    pub proof fn lost_origin_is_found_again(self, after: ServerModel)
        requires
            self.origin_settled(after),
        ensures
            self.global_output_offset.x.owner is Some && self.global_output_offset.y.owner is Some
                ==> after == self,
            self.global_output_offset.x.owner is None || self.global_output_offset.y.owner is None
                ==> {
                &&& after.global_offset_updated
                &&& forall|output: u64| #[trigger]
                    self.rows.dom().contains(output) ==> match self.rows[output].output_dimensions {
                        Some(area) => {
                            &&& after.global_output_offset.x.value <= area.x
                            &&& after.global_output_offset.y.value <= area.y
                        },
                        None => true,
                    }
                &&& after == (ServerModel {
                    global_output_offset: after.global_output_offset,
                    global_offset_updated: true,
                    ..self
                })
            },
    {
        if self.global_output_offset.x.owner is None || self.global_output_offset.y.owner is None {
            self.origin_is_where_outputs_begin(
                ServerModel { global_offset_updated: self.global_offset_updated, ..after },
            );
        }
    }

    /// The outputs are told where they are, each once, exactly if the common origin has changed.
    pub proof fn outputs_are_told_of_changes(self, list: Seq<u64>)
        requires
            self.lists_to_tell(list),
        ensures
            list.no_duplicates(),
            forall|output: u64| #[trigger]
                list.contains(output) <==> self.global_offset_updated && self.rows.dom().contains(
                    output,
                ) && self.rows[output].server_output is Some,
    {
    }

    /// A global that the compositor newly offers is offered exactly if its interface is one of
    /// those that the server offers, in the lower one of the two versions.
    pub proof fn globals_are_offered_by_name(
        self,
        added: Seq<Global<Seq<char>>>,
        offer: Advertisement,
    )
        ensures
            added.filter(crate::globals::offered()).map_values(
                crate::globals::advertisement(),
            ).contains(offer) <==> exists|i: int|
                0 <= i < added.len() && (#[trigger] added[i]).name == offer.name
                    && added[i].interface == offer.kind.name() && offer.version == (
                if added[i].version < offer.kind.version() {
                    added[i].version
                } else {
                    offer.kind.version()
                }),
    {
        let kept = added.filter(crate::globals::offered());
        let offers = kept.map_values(crate::globals::advertisement());
        if offers.contains(offer) {
            let j = choose|j: int| 0 <= j < offers.len() && offers[j] == offer;
            let global = kept[j];
            assert(kept.contains(global));
            kept_by(added, crate::globals::offered(), global);
            let i = choose|i: int| 0 <= i < added.len() && added[i] == global;
            crate::globals::offered_version_fits(global);
            assert(added[i].name == offer.name);
        }
        if exists|i: int|
            0 <= i < added.len() && (#[trigger] added[i]).name == offer.name && added[i].interface
                == offer.kind.name() && offer.version == (if added[i].version
                < offer.kind.version() {
                added[i].version
            } else {
                offer.kind.version()
            }) {
            let i = choose|i: int|
                0 <= i < added.len() && (#[trigger] added[i]).name == offer.name
                    && added[i].interface == offer.kind.name() && offer.version == (
                if added[i].version < offer.kind.version() {
                    added[i].version
                } else {
                    offer.kind.version()
                });
            let global = added[i];
            let named = choose|kind: ServerGlobal| #[trigger] kind.name() == global.interface;
            assert(offer.kind.name() == global.interface);
            named.names_differ(offer.kind);
            assert(ServerGlobal::named(global.interface) == Some(offer.kind));
            assert(crate::globals::offered()(global));
            assert(added.contains(global));
            kept_by(added, crate::globals::offered(), global);
            let j = choose|j: int| 0 <= j < kept.len() && kept[j] == global;
            assert(offers[j] == offer);
        }
    }

    /// The server offers what it offered before and what it newly offers. Under each number it
    /// offers the latest global with that number.
    pub proof fn offered_globals_are_remembered(
        self,
        added: Seq<Global<Seq<char>>>,
        number: u32,
    )
        ensures
            self.with_globals(added) == (ServerModel {
                globals: self.with_globals(added).globals,
                ..self
            }),
            match self.with_globals(added).globals.dom().contains(number) {
                true => {
                    let known = self.with_globals(added).globals[number];
                    ||| self.globals.dom().contains(number) && self.globals[number] == known
                        && forall|i: int|
                            0 <= i < added.len() && (#[trigger] added[i]).name.name == number
                                ==> forall|kind: ServerGlobal| #[trigger]
                                kind.name() != added[i].interface
                    ||| exists|i: int|
                        0 <= i < added.len() && #[trigger] added[i] == known
                            && known.name.name == number && (exists|kind: ServerGlobal| #[trigger]
                            kind.name() == known.interface) && forall|j: int|
                            i < j < added.len() && (#[trigger] added[j]).name.name == number
                                ==> forall|kind: ServerGlobal| #[trigger]
                                kind.name() != added[j].interface
                },
                false => {
                    &&& !self.globals.dom().contains(number)
                    &&& forall|i: int|
                        0 <= i < added.len() && (#[trigger] added[i]).name.name == number
                            ==> forall|kind: ServerGlobal| #[trigger]
                            kind.name() != added[i].interface
                },
            },
        decreases added.len(),
    {
        if added.len() > 0 {
            let rest = added.drop_last();
            let last = added.last();
            self.offered_globals_are_remembered(rest, number);
            let before = self.with_globals(rest).globals;
            let after = self.with_globals(added).globals;
            assert(crate::globals::offered()(last) <==> exists|kind: ServerGlobal| #[trigger]
                kind.name() == last.interface);
            assert(forall|i: int| 0 <= i < rest.len() ==> #[trigger] added[i] == rest[i]);
            if crate::globals::offered()(last) && last.name.name == number {
                assert(added[added.len() - 1] == last);
            } else if before.dom().contains(number) {
                if exists|i: int|
                    0 <= i < rest.len() && #[trigger] rest[i] == before[number]
                        && before[number].name.name == number && (exists|kind: ServerGlobal|
                        #[trigger]
                        kind.name() == before[number].interface) && forall|j: int|
                        i < j < rest.len() && (#[trigger] rest[j]).name.name == number
                            ==> forall|kind: ServerGlobal| #[trigger]
                            kind.name() != rest[j].interface {
                    let i = choose|i: int|
                        0 <= i < rest.len() && #[trigger] rest[i] == before[number]
                            && before[number].name.name == number && (exists|kind: ServerGlobal|
                            #[trigger]
                            kind.name() == before[number].interface) && forall|j: int|
                            i < j < rest.len() && (#[trigger] rest[j]).name.name == number
                                ==> forall|kind: ServerGlobal| #[trigger]
                                kind.name() != rest[j].interface;
                    assert(added[i] == before[number]);
                    assert forall|j: int|
                        i < j < added.len() && (#[trigger] added[j]).name.name == number implies forall|
                        kind: ServerGlobal,
                    | #[trigger] kind.name() != added[j].interface by {
                        if j < rest.len() {
                            assert(added[j] == rest[j]);
                        }
                    }
                } else {
                    assert forall|i: int|
                        0 <= i < added.len() && (#[trigger] added[i]).name.name == number implies forall|
                        kind: ServerGlobal,
                    | #[trigger] kind.name() != added[i].interface by {
                        if i < rest.len() {
                            assert(added[i] == rest[i]);
                        }
                    }
                }
            } else {
                assert forall|i: int|
                    0 <= i < added.len() && (#[trigger] added[i]).name.name == number implies forall|
                    kind: ServerGlobal,
                | #[trigger] kind.name() != added[i].interface by {
                    if i < rest.len() {
                        assert(added[i] == rest[i]);
                    }
                }
            }
        }
    }

    /// Removing a global takes it off those that are offered, and no other. Only where it is an
    /// output anything else changes.
    pub proof fn removed_global_is_not_offered(self, after: ServerModel, global: GlobalName)
        requires
            self.global_removed(after, global),
        ensures
            !after.globals.dom().contains(global.name),
            forall|number: u32| #[trigger]
                self.globals.dom().contains(number) && number != global.name
                    ==> after.globals.dom().contains(number) && after.globals[number]
                    == self.globals[number],
            forall|number: u32| #[trigger]
                after.globals.dom().contains(number) ==> self.globals.dom().contains(number),
            self.globals[global.name].interface != "wl_output"@ ==> after == (ServerModel {
                globals: after.globals,
                ..self
            }),
            self.globals[global.name].interface == "wl_output"@ && (exists|entity: u64| #[trigger]
                self.rows.dom().contains(entity) && self.rows[entity].server_output is Some
                    && self.rows[entity].global == Some(global))
                ==> after.updated_outputs.len() == self.updated_outputs.len() + 1,
    {
        let bare = self.without_global(global);
        if self.globals[global.name].interface == ServerGlobal::WlOutput.name() {
            bare.removed_output_is_forgotten(after, global);
            if exists|entity: u64| #[trigger]
                self.rows.dom().contains(entity) && self.rows[entity].server_output is Some
                    && self.rows[entity].global == Some(global) {
                let entity = choose|entity: u64| #[trigger]
                    self.rows.dom().contains(entity) && self.rows[entity].server_output is Some
                        && self.rows[entity].global == Some(global);
                assert(bare.rows.dom().contains(entity));
            }
        }
    }
}

impl ServerModel {
    /// A popup whose parent takes over the scale factor of an output is anchored to the logical
    /// area that the parent has under it, and is repositioned if that makes a difference.
    pub proof fn popups_of_rescaled_parents_follow<D, L, W>(
        self,
        after: ServerModel,
        requests: Seq<Request<Seq<char>>>,
        entity: u64,
        popup: PopupData<Seq<PendingAnchor>>,
        scale: Scale,
        metrics: Metrics<D, L, W>,
    ) where
        D: Fn(i32, Scale) -> i32,
        L: Fn(u16, u16, Scale) -> Size,
        W: Fn(u64, i32) -> bool,

        requires
            self.outputs_updated(after, requests, metrics),
            self.rows.dom().contains(entity),
            self.rows[entity].role == Some(SurfaceRole::Popup(Some(popup))),
            self.rows[entity].data is Some,
            self.rows[entity].scale is Some,
            self.environment.xdg_wm_base_version >= 3,
            self.rows.dom().contains(popup.parent),
            self.rows[popup.parent].data is Some,
            self.rows[popup.parent].scale is Some,
            self.rows[popup.parent].role is Some,
            self.rows[popup.parent].server_surface is Some,
            self.rows[popup.parent].on_output is Some,
            self.updated_outputs.contains(self.rows[popup.parent].on_output->0.output),
            self.rows.dom().contains(self.rows[popup.parent].on_output->0.output),
            self.rows[self.rows[popup.parent].on_output->0.output].output_scale == Some(
                OutputScaleFactor::Output(scale),
            ),
        ensures
            ({
                let outer = self.rows[popup.parent].data->0.attrs.dims;
                let now = after.rows[entity].role->0->Popup_0->0;
                &&& after.rows[entity].role == Some(SurfaceRole::Popup(Some(now)))
                &&& call_ensures(
                    metrics.logical_size,
                    (outer.width, outer.height, scale),
                    now.anchor_size,
                )
                &&& now.anchor_size != popup.anchor_size ==> exists|i: int|
                    0 <= i < requests.len() && (#[trigger] requests[i] matches
                        Request::Reposition { entity: moved, positioner, .. } && moved == entity
                        && positioner.anchor_size == now.anchor_size)
            }),
    {
        let parent = popup.parent;
        let output = self.rows[parent].on_output->0.output;
        let (groups, mid, repositions) = choose|
            groups: Seq<Seq<u64>>,
            mid: ServerModel,
            repositions: Seq<Request<Seq<char>>>,
        |
            {
                &&& #[trigger] self.groups_followers(groups, self.updated_outputs)
                &&& #[trigger] self.rescaled(groups.flatten()).refreshed_and_chosen(
                    mid,
                    after,
                    repositions,
                    metrics,
                )
                &&& requests == crate::scaling::viewport_requests(groups.flatten()) + repositions
            };
        let surfaces = groups.flatten();
        let rescaled = self.rescaled(surfaces);
        assert(rescaled.rows.dom() =~= self.rows.dom());
        assert(rescaled.rows[entity] == self.rescaled_row(entity, self.updated_outputs));
        assert(rescaled.rows[parent] == self.rescaled_row(parent, self.updated_outputs));
        flattened(groups, parent);
        let i = choose|i: int|
            0 <= i < self.updated_outputs.len() && self.updated_outputs[i] == output;
        assert(self.follows(parent, output));
        assert(self.lists_followers(groups[i], self.updated_outputs[i]));
        assert(groups[i].contains(parent));
        assert(surfaces.contains(parent));
        joined(self.pending_popup_refresh, surfaces, parent);
        assert(rescaled.pending_popup_refresh.contains(parent));
        rescaled.named_popups_are_refreshed(mid, repositions, parent, entity, popup, metrics);
        let now = after.rows[entity].role->0->Popup_0->0;
        if now.anchor_size != popup.anchor_size {
            let fitted = crate::scaling::viewport_requests(surfaces);
            let j = choose|j: int|
                0 <= j < repositions.len() && (#[trigger] repositions[j] matches
                    Request::Reposition { entity: moved, positioner, .. } && moved == entity
                    && positioner.anchor_size == now.anchor_size);
            assert(requests[fitted.len() + j] == repositions[j]);
        }
    }

    /// Changed outputs lead to viewports being fitted and then to popups being repositioned, and
    /// to no other requests. A surface's viewport is fitted once for each time that its output
    /// has changed.
    pub proof fn viewports_are_fitted_first<D, L, W>(
        self,
        after: ServerModel,
        requests: Seq<Request<Seq<char>>>,
        metrics: Metrics<D, L, W>,
    ) where
        D: Fn(i32, Scale) -> i32,
        L: Fn(u16, u16, Scale) -> Size,
        W: Fn(u64, i32) -> bool,

        requires
            self.outputs_updated(after, requests, metrics),
        ensures
            forall|i: int|
                0 <= i < requests.len() ==> (#[trigger] requests[i]) is UpdateViewport
                    || requests[i] is Reposition,
            forall|i: int, j: int|
                0 <= i < requests.len() && 0 <= j < requests.len() && (
                #[trigger] requests[i]) is UpdateViewport && (#[trigger] requests[j]) is Reposition
                    ==> i < j,
            self.updated_outputs.len() == 1 ==> forall|i: int, j: int|
                0 <= i < j < requests.len() && (#[trigger] requests[i]) is UpdateViewport
                    ==> requests[i] != #[trigger] requests[j],
    {
        if self.updated_outputs.len() > 0 {
            let (groups, mid, repositions) = choose|
                groups: Seq<Seq<u64>>,
                mid: ServerModel,
                repositions: Seq<Request<Seq<char>>>,
            |
                {
                    &&& #[trigger] self.groups_followers(groups, self.updated_outputs)
                    &&& #[trigger] self.rescaled(groups.flatten()).refreshed_and_chosen(
                        mid,
                        after,
                        repositions,
                        metrics,
                    )
                    &&& requests == crate::scaling::viewport_requests(groups.flatten())
                        + repositions
                };
            let surfaces = groups.flatten();
            self.rescaled(surfaces).refresh_keeps_all_but_popups(mid, repositions, metrics);
            let fitted = crate::scaling::viewport_requests(surfaces);
            assert forall|i: int| 0 <= i < requests.len() implies if i < fitted.len() {
                (#[trigger] requests[i]) == (Request::<Seq<char>>::UpdateViewport {
                    entity: surfaces[i],
                })
            } else {
                requests[i] is Reposition
            } by {
                if i >= fitted.len() {
                    assert(requests[i] == repositions[i - fitted.len()]);
                } else {
                    assert(requests[i] == fitted[i]);
                }
            }
            if self.updated_outputs.len() == 1 {
                groups.lemma_flatten_one_element();
                assert(surfaces == groups[0]);
                assert(self.lists_followers(groups[0], self.updated_outputs[0]));
            }
        }
    }

    /// An output can be removed exactly if all outputs with its number have told their scale
    /// factors and their dimensions.
    pub proof fn complete_outputs_can_be_removed(self, global: GlobalName)
        ensures
            self.can_remove_output(global) <==> forall|entity: u64| #[trigger]
                self.rows.dom().contains(entity) && self.rows[entity].server_output is Some
                    && self.rows[entity].global == Some(global)
                    ==> self.rows[entity].output_scale is Some
                    && self.rows[entity].output_dimensions is Some,
    {
        if self.can_remove_output(global) {
            assert forall|entity: u64| #[trigger]
                self.rows.dom().contains(entity) && self.rows[entity].server_output is Some
                    && self.rows[entity].global == Some(global) implies self.rows[entity].output_scale is Some
                && self.rows[entity].output_dimensions is Some by {
                assert(self.is_output(entity, global));
            }
        }
    }
}

} // verus!
