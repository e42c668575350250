//! What holds of what is done once events have come.
use crate::connection::XRequest;
use crate::geometry::{Scale, Size, Window};
use crate::laws_outputs::kept_by;
use crate::metrics::Metrics;
use crate::request::Request;
use crate::state::{PendingActivation, ServerModel};
use crate::world::Row;
use vstd::prelude::*;
use vstd::utf8::*;

verus! {

impl ServerModel {
    /// The window that is to be focused is focused, on its output, whether it is a popup or not.
    /// Where none is, focus is taken from all windows if that is due. Only windows that are no
    /// popups are remembered as the toplevel last focused.
    pub proof fn focus_goes_where_it_is_due(self)
        ensures
            match self.to_focus {
                Some(focus) => {
                    &&& self.focus_requests().len() == 1
                    &&& self.focus_requests()[0] == (XRequest::Focus {
                        window: focus.window,
                        output_name: focus.output_name,
                    })
                    &&& focus.is_popup ==> self.focused().last_focused_toplevel
                        == self.last_focused_toplevel
                    &&& !focus.is_popup ==> self.focused().last_focused_toplevel == Some(
                        focus.window,
                    )
                },
                None => {
                    &&& self.unfocus ==> self.focus_requests().len() == 1
                        && self.focus_requests()[0] == (XRequest::Focus {
                        window: Window { id: 0 },
                        output_name: None,
                    })
                    &&& !self.unfocus ==> self.focus_requests().len() == 0
                    &&& self.focused().last_focused_toplevel == self.last_focused_toplevel
                },
            },
            self.focused() == (ServerModel {
                to_focus: None,
                unfocus: false,
                last_focused_toplevel: self.focused().last_focused_toplevel,
                ..self
            }),
    {
    }

    /// What changed outputs lead to leaves everything as it is but the entities, the scale factor
    /// for applications, and what is due for outputs and popups.
    pub proof fn changed_outputs_keep_the_rest<D, L, W>(
        self,
        after: ServerModel,
        requests: Seq<Request<Seq<char>>>,
        metrics: Metrics<D, L, W>,
    ) where
        D: Fn(i32, Scale) -> i32,
        L: Fn(u16, u16, Scale) -> Size,
        W: Fn(u64, i32) -> bool,

        requires
            self.outputs_updated(after, requests, metrics),
        ensures
            after == (ServerModel {
                rows: after.rows,
                updated_outputs: Seq::empty(),
                pending_popup_refresh: after.pending_popup_refresh,
                new_scale: after.new_scale,
                current_scale: after.current_scale,
                ..self
            }),
            after.rows.dom() == self.rows.dom(),
            self.updated_outputs.len() == 0 ==> after == self && requests.len() == 0,
            self.updated_outputs.len() > 0 ==> after.pending_popup_refresh.len() == 0,
    {
        if self.updated_outputs.len() == 0 {
            assert(self.updated_outputs =~= Seq::<u64>::empty());
        } else {
            let (groups, mid, repositions) = choose|
                groups: Seq<Seq<u64>>,
                mid: ServerModel,
                repositions: Seq<Request<Seq<char>>>,
            |
                {
                    &&& #[trigger] self.groups_followers(groups, self.updated_outputs)
                    &&& #[trigger] self.rescaled(groups.flatten()).refreshed_and_chosen(
                        mid,
                        after,
                        repositions,
                        metrics,
                    )
                    &&& requests == crate::scaling::viewport_requests(groups.flatten())
                        + repositions
                };
            let rescaled = self.rescaled(groups.flatten());
            rescaled.refresh_keeps_all_but_popups(mid, repositions, metrics);
            assert(rescaled.rows.dom() =~= self.rows.dom());
        }
    }

    /// Each window that is to be given other dimensions is given them once, and is then to be
    /// given none. Nothing else changes, and no other window is given any.
    pub proof fn windows_get_their_dimensions(self, list: Seq<u64>, entity: u64)
        requires
            self.lists_due(list),
        ensures
            list.no_duplicates(),
            self.dims_requests(list).len() == list.len(),
            forall|i: int|
                0 <= i < list.len() ==> {
                    &&& self.rows.dom().contains(#[trigger] list[i])
                    &&& self.rows[list[i]].window matches Some(window) && (
                    self.rows[list[i]].pending matches Some(dims) && self.dims_requests(list)[i]
                        == (XRequest::Dims { window, dims }))
                },
            self.rows.dom().contains(entity) ==> ({
                let row = self.rows[entity];
                let due = row.window is Some && row.pending is Some;
                &&& list.contains(entity) <==> due
                &&& self.none_due().rows[entity] == (Row {
                    pending: if due {
                        None
                    } else {
                        row.pending
                    },
                    ..row
                })
            }),
            self.none_due().rows.dom() == self.rows.dom(),
            self.none_due() == (ServerModel { rows: self.none_due().rows, ..self }),
    {
        assert forall|i: int| 0 <= i < list.len() implies {
            &&& self.rows.dom().contains(#[trigger] list[i])
            &&& self.rows[list[i]].window matches Some(window) && (
            self.rows[list[i]].pending matches Some(dims) && self.dims_requests(list)[i] == (
            XRequest::Dims { window, dims }))
        } by {
            assert(list.contains(list[i]));
            assert(self.is_due(list[i]));
        }
        assert(self.none_due().rows.dom() =~= self.rows.dom());
        if self.rows.dom().contains(entity) {
            assert(list.contains(entity) <==> self.is_due(entity));
        }
    }

    /// Where windows can be activated, the windows with a surface that a token has been obtained
    /// for are activated with it, and the others are kept waiting. Else nothing is done.
    pub proof fn windows_with_surfaces_are_activated(
        self,
        request: Request<Seq<char>>,
        pending: PendingActivation<Seq<char>>,
    )
        ensures
            !self.environment.activation ==> self.activations().len() == 0 && self.activated()
                == self,
            self.environment.activation ==> {
                &&& self.activations().contains(request) <==> exists|i: int|
                    0 <= i < self.pending_activations.len() && self.windows.dom().contains(
                        (#[trigger] self.pending_activations[i]).window.id,
                    ) && self.rows[self.windows[self.pending_activations[i].window.id]].client_surface is Some
                        && request == (Request::Activate {
                        entity: self.windows[self.pending_activations[i].window.id],
                        activation_token: self.pending_activations[i].token,
                    })
                &&& self.activated().pending_activations.contains(pending)
                    <==> self.pending_activations.contains(pending) && !(
                self.windows.dom().contains(pending.window.id)
                    && self.rows[self.windows[pending.window.id]].client_surface is Some)
                &&& self.activated() == (ServerModel {
                    pending_activations: self.activated().pending_activations,
                    ..self
                })
            },
    {
        if self.environment.activation {
            let list = self.pending_activations;
            let ready = list.filter(self.ready());
            kept_by(list, self.waiting(), pending);
            let made = ready.map_values(self.activate_request());
            if made.contains(request) {
                let j = choose|j: int| 0 <= j < made.len() && made[j] == request;
                assert(ready.contains(ready[j]));
                kept_by(list, self.ready(), ready[j]);
                let i = choose|i: int| 0 <= i < list.len() && list[i] == ready[j];
                assert(list[i] == ready[j]);
            }
            if exists|i: int|
                0 <= i < list.len() && self.windows.dom().contains(
                    (#[trigger] list[i]).window.id,
                ) && self.rows[self.windows[list[i].window.id]].client_surface is Some && request
                    == (Request::Activate {
                    entity: self.windows[list[i].window.id],
                    activation_token: list[i].token,
                }) {
                let i = choose|i: int|
                    0 <= i < list.len() && self.windows.dom().contains(
                        (#[trigger] list[i]).window.id,
                    ) && self.rows[self.windows[list[i].window.id]].client_surface is Some
                        && request == (Request::Activate {
                        entity: self.windows[list[i].window.id],
                        activation_token: list[i].token,
                    });
                assert(list.contains(list[i]));
                kept_by(list, self.ready(), list[i]);
                let j = choose|j: int| 0 <= j < ready.len() && ready[j] == list[i];
                assert(made[j] == request);
            }
        }
    }
}

/// What sets the token holds no zero byte.
proof fn key_is_part_of_a_line()
    ensures
        forall|i: int|
            0 <= i < encode_utf8("XDG_ACTIVATION_TOKEN="@).len() ==> #[trigger] encode_utf8(
                "XDG_ACTIVATION_TOKEN="@,
            )[i] != 0,
{
    reveal_strlit("XDG_ACTIVATION_TOKEN=");
    let key = "XDG_ACTIVATION_TOKEN="@;
    assert(is_ascii_chars(key));
    is_ascii_chars_encode_utf8(key);
}

/// The environment is a list of lines, each ended by a zero byte. The first of them that begins
/// with `XDG_ACTIVATION_TOKEN=` tells the token: what comes after it, up to the end of the line,
/// if that is text.
pub proof fn first_line_tells_the_token(
    environ: Seq<u8>,
    before: Seq<u8>,
    value: Seq<u8>,
    rest: Seq<u8>,
)
    requires
        environ == before + encode_utf8("XDG_ACTIVATION_TOKEN="@) + value + rest,
        before.len() > 0 ==> before.last() == 0,
        rest.len() > 0 ==> rest[0] == 0,
        forall|i: int| 0 <= i < value.len() ==> #[trigger] value[i] != 0,
        forall|start: int|
            0 <= start && start + encode_utf8("XDG_ACTIVATION_TOKEN="@).len() < before.len() && (
            start == 0 || before[start - 1] == 0) ==> #[trigger] before.subrange(
                start,
                start + encode_utf8("XDG_ACTIVATION_TOKEN="@).len(),
            ) != encode_utf8("XDG_ACTIVATION_TOKEN="@),
    ensures
        crate::environ::token_in(environ) == (if valid_utf8(value) {
            Some(decode_utf8(value))
        } else {
            None
        }),
{
    let key = encode_utf8("XDG_ACTIVATION_TOKEN="@);
    let length = key.len() as int;
    let start = before.len() as int;
    let end = start + length + value.len();
    key_is_part_of_a_line();
    assert forall|i: int| start <= i < end implies #[trigger] environ[i] != 0 by {
        if i < start + length {
            assert(environ[i] == key[i - start]);
        } else {
            assert(environ[i] == value[i - start - length]);
        }
    }
    assert(start > 0 ==> environ[start - 1] == before.last());
    assert(end < environ.len() ==> environ[end] == rest[0]);
    assert(crate::environ::is_line(environ, start, end));
    assert(environ.subrange(start, end) =~= key + value);
    assert(key.is_prefix_of(environ.subrange(start, end))) by {
        assert((key + value).subrange(0, length) =~= key);
    }
    assert forall|earlier: int, until: int| earlier < start implies !#[trigger] crate::environ::sets_token(
        environ,
        earlier,
        until,
    ) by {
        if crate::environ::sets_token(environ, earlier, until) {
            if until >= start {
                assert(environ[start - 1] == 0);
            }
            let line = environ.subrange(earlier, until);
            assert(line.subrange(0, length) =~= key);
            assert(before.subrange(earlier, earlier + length) =~= key) by {
                assert forall|i: int| 0 <= i < length implies before[earlier + i] == key[i] by {
                    assert(line[i] == environ[earlier + i]);
                    assert(line.subrange(0, length)[i] == key[i]);
                }
            }
            assert(earlier > 0 ==> environ[earlier - 1] == before[earlier - 1]);
        }
    }
    assert(crate::environ::first_sets_token(environ, start, end));
    crate::environ::first_line_is_unique(environ, start, end);
    assert(environ.subrange(start + length, end) =~= value);
}

impl ServerModel {
    /// Activations are carried out in the order in which they came, and those that wait keep
    /// theirs: one more at the end is either carried out last or waits last.
    pub proof fn activations_keep_their_order(self, last: PendingActivation<Seq<char>>)
        requires
            self.environment.activation,
        ensures
            ({
                let longer = ServerModel {
                    pending_activations: self.pending_activations.push(last),
                    ..self
                };
                if self.windows.dom().contains(last.window.id)
                    && self.rows[self.windows[last.window.id]].client_surface is Some {
                    &&& longer.activations() == self.activations().push(
                        Request::Activate {
                            entity: self.windows[last.window.id],
                            activation_token: last.token,
                        },
                    )
                    &&& longer.activated().pending_activations
                        == self.activated().pending_activations
                } else {
                    &&& longer.activations() == self.activations()
                    &&& longer.activated().pending_activations
                        == self.activated().pending_activations.push(last)
                }
            }),
            self.pending_activations.len() == 0 ==> self.activations().len() == 0,
    {
        reveal(Seq::filter);
        let longer = ServerModel {
            pending_activations: self.pending_activations.push(last),
            ..self
        };
        assert(longer.pending_activations.drop_last() =~= self.pending_activations);
        assert(longer.ready() =~= self.ready());
        assert(longer.waiting() =~= self.waiting());
        assert(longer.activate_request() =~= self.activate_request());
        let ready = self.pending_activations.filter(self.ready());
        assert(ready.push(last).map_values(self.activate_request()) =~= ready.map_values(
            self.activate_request(),
        ).push(self.activate_request()(last)));
    }

    /// Before the outputs are told where they are, popups have been re-anchored, no window is to
    /// be given other dimensions, and the common origin is known wherever there is an output to
    /// find it from; nothing else has changed.
    pub proof fn geometry_is_settled_before_outputs_are_told<D, L, W>(
        self,
        mid: ServerModel,
        settled: ServerModel,
        due: Seq<u64>,
        requests: Seq<Request<Seq<char>>>,
        entity: u64,
        metrics: Metrics<D, L, W>,
    ) where
        D: Fn(i32, Scale) -> i32,
        L: Fn(u16, u16, Scale) -> Size,
        W: Fn(u64, i32) -> bool,

        requires
            self.geometry_settled(mid, settled, due, requests, metrics),
            self.rows.dom().contains(entity),
        ensures
            self.pending_refreshed(mid, requests, metrics),
            settled.pending_popup_refresh.len() == 0,
            settled.rows.dom() == self.rows.dom(),
            settled.rows[entity].window is Some ==> settled.rows[entity].pending is None,
            settled.rows[entity].window is None ==> settled.rows[entity].pending
                == self.rows[entity].pending,
            settled.rows[entity].role == mid.rows[entity].role,
            settled.rows[entity] == (Row {
                role: settled.rows[entity].role,
                pending: settled.rows[entity].pending,
                ..self.rows[entity]
            }),
            due.contains(entity) <==> self.rows[entity].window is Some
                && self.rows[entity].pending is Some,
            settled.rows[entity].output_dimensions matches Some(area) ==> (
            self.global_output_offset.x.owner is None || self.global_output_offset.y.owner is None
                ==> settled.global_output_offset.x.value <= area.x
                && settled.global_output_offset.y.value <= area.y),
            self.global_output_offset.x.owner is None || self.global_output_offset.y.owner is None
                ==> settled.global_offset_updated,
            self.global_output_offset.x.owner is Some && self.global_output_offset.y.owner is Some
                ==> settled.global_offset_updated == self.global_offset_updated
                && settled.global_output_offset == self.global_output_offset,
            settled == (ServerModel {
                rows: settled.rows,
                pending_popup_refresh: settled.pending_popup_refresh,
                global_output_offset: settled.global_output_offset,
                global_offset_updated: settled.global_offset_updated,
                ..self
            }),
    {
        self.refresh_keeps_all_but_popups(mid, requests, metrics);
        mid.windows_get_their_dimensions(due, entity);
        mid.none_due().lost_origin_is_found_again(settled);
    }
}

/// An environment in which no line begins with `XDG_ACTIVATION_TOKEN=` tells no token.
pub proof fn other_lines_tell_no_token(environ: Seq<u8>)
    requires
        forall|start: int|
            0 <= start && start + encode_utf8("XDG_ACTIVATION_TOKEN="@).len() <= environ.len() && (
            start == 0 || environ[start - 1] == 0) ==> #[trigger] environ.subrange(
                start,
                start + encode_utf8("XDG_ACTIVATION_TOKEN="@).len(),
            ) != encode_utf8("XDG_ACTIVATION_TOKEN="@),
    ensures
        crate::environ::token_in(environ) is None,
{
    let key = encode_utf8("XDG_ACTIVATION_TOKEN="@);
    let length = key.len() as int;
    assert forall|start: int, end: int| !#[trigger] crate::environ::sets_token(
        environ,
        start,
        end,
    ) by {
        if crate::environ::sets_token(environ, start, end) {
            let line = environ.subrange(start, end);
            assert(line.subrange(0, length) =~= key);
            assert(environ.subrange(start, start + length) =~= key) by {
                assert forall|i: int| 0 <= i < length implies environ[start + i] == key[i] by {
                    assert(line[i] == environ[start + i]);
                    assert(line.subrange(0, length)[i] == key[i]);
                }
            }
        }
    }
}

} // verus!
