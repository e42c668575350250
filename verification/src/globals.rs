//! The globals that the server offers on behalf of the compositor.
use crate::state::{Global, InnerServerState, ServerModel};
use crate::world::GlobalName;
use vstd::prelude::*;
use wayland_protocols::wp::linux_dmabuf::zv1::server::zwp_linux_dmabuf_v1::ZwpLinuxDmabufV1;
use wayland_protocols::wp::linux_drm_syncobj::v1::server::wp_linux_drm_syncobj_manager_v1::WpLinuxDrmSyncobjManagerV1;
use wayland_protocols::wp::pointer_constraints::zv1::server::zwp_pointer_constraints_v1::ZwpPointerConstraintsV1;
use wayland_protocols::wp::relative_pointer::zv1::server::zwp_relative_pointer_manager_v1::ZwpRelativePointerManagerV1;
use wayland_protocols::wp::tablet::zv2::server::zwp_tablet_manager_v2::ZwpTabletManagerV2;
use wayland_protocols::xdg::xdg_output::zv1::server::zxdg_output_manager_v1::ZxdgOutputManagerV1;
use wayland_server::protocol::wl_compositor::WlCompositor;
use wayland_server::protocol::wl_output::WlOutput;
use wayland_server::protocol::wl_seat::WlSeat;
use wayland_server::protocol::wl_shm::WlShm;
use wayland_server::Resource;

verus! {

broadcast use vstd::std_specs::hash::group_hash_axioms;

/// A kind of global that the server offers if the compositor does.
#[derive(Clone, Copy, Debug, PartialEq, Eq, Structural)]
pub enum ServerGlobal {
    WlCompositor,
    WlShm,
    WlSeat,
    WlOutput,
    ZwpRelativePointerManagerV1,
    WlDrm,
    ZwpLinuxDmabufV1,
    ZxdgOutputManagerV1,
    ZwpPointerConstraintsV1,
    ZwpTabletManagerV2,
    WpLinuxDrmSyncobjManagerV1,
}

/// The name and the latest version of an interface.
#[derive(Clone, Debug, PartialEq, Eq)]
pub struct Interface {
    pub name: String,
    pub version: u32,
}

/// Calls `wayland_server::Resource::interface` of `WlCompositor`, which gives the
/// interface's name, `wl_compositor`, and its latest version, 7.
#[verifier::external_body]
fn compositor_interface() -> (interface: Interface)
    ensures
        interface.name@ == "wl_compositor"@,
        interface.version == 7,
{
    let described = WlCompositor::interface();
    Interface { name: described.name.to_string(), version: described.version }
}

/// Calls `wayland_server::Resource::interface` of `WlShm`, which gives the
/// interface's name, `wl_shm`, and its latest version, 3.
#[verifier::external_body]
fn shm_interface() -> (interface: Interface)
    ensures
        interface.name@ == "wl_shm"@,
        interface.version == 3,
{
    let described = WlShm::interface();
    Interface { name: described.name.to_string(), version: described.version }
}

/// Calls `wayland_server::Resource::interface` of `WlSeat`, which gives the
/// interface's name, `wl_seat`, and its latest version, 11.
#[verifier::external_body]
fn seat_interface() -> (interface: Interface)
    ensures
        interface.name@ == "wl_seat"@,
        interface.version == 11,
{
    let described = WlSeat::interface();
    Interface { name: described.name.to_string(), version: described.version }
}

/// Calls `wayland_server::Resource::interface` of `WlOutput`, which gives the
/// interface's name, `wl_output`, and its latest version, 4.
#[verifier::external_body]
fn output_interface() -> (interface: Interface)
    ensures
        interface.name@ == "wl_output"@,
        interface.version == 4,
{
    let described = WlOutput::interface();
    Interface { name: described.name.to_string(), version: described.version }
}

/// Calls `wayland_server::Resource::interface` of `ZwpRelativePointerManagerV1`, which gives the
/// interface's name, `zwp_relative_pointer_manager_v1`, and its latest version, 1.
#[verifier::external_body]
fn relative_pointer_interface() -> (interface: Interface)
    ensures
        interface.name@ == "zwp_relative_pointer_manager_v1"@,
        interface.version == 1,
{
    let described = ZwpRelativePointerManagerV1::interface();
    Interface { name: described.name.to_string(), version: described.version }
}

/// Calls `wayland_server::Resource::interface` of `ZwpLinuxDmabufV1`, which gives the
/// interface's name, `zwp_linux_dmabuf_v1`, and its latest version, 6.
#[verifier::external_body]
fn dmabuf_interface() -> (interface: Interface)
    ensures
        interface.name@ == "zwp_linux_dmabuf_v1"@,
        interface.version == 6,
{
    let described = ZwpLinuxDmabufV1::interface();
    Interface { name: described.name.to_string(), version: described.version }
}

/// Calls `wayland_server::Resource::interface` of `ZxdgOutputManagerV1`, which gives the
/// interface's name, `zxdg_output_manager_v1`, and its latest version, 3.
#[verifier::external_body]
fn xdg_output_interface() -> (interface: Interface)
    ensures
        interface.name@ == "zxdg_output_manager_v1"@,
        interface.version == 3,
{
    let described = ZxdgOutputManagerV1::interface();
    Interface { name: described.name.to_string(), version: described.version }
}

/// Calls `wayland_server::Resource::interface` of `ZwpPointerConstraintsV1`, which gives the
/// interface's name, `zwp_pointer_constraints_v1`, and its latest version, 1.
#[verifier::external_body]
fn pointer_constraints_interface() -> (interface: Interface)
    ensures
        interface.name@ == "zwp_pointer_constraints_v1"@,
        interface.version == 1,
{
    let described = ZwpPointerConstraintsV1::interface();
    Interface { name: described.name.to_string(), version: described.version }
}

/// Calls `wayland_server::Resource::interface` of `ZwpTabletManagerV2`, which gives the
/// interface's name, `zwp_tablet_manager_v2`, and its latest version, 2.
#[verifier::external_body]
fn tablet_interface() -> (interface: Interface)
    ensures
        interface.name@ == "zwp_tablet_manager_v2"@,
        interface.version == 2,
{
    let described = ZwpTabletManagerV2::interface();
    Interface { name: described.name.to_string(), version: described.version }
}

/// Calls `wayland_server::Resource::interface` of `WpLinuxDrmSyncobjManagerV1`, which gives the
/// interface's name, `wp_linux_drm_syncobj_manager_v1`, and its latest version, 1.
#[verifier::external_body]
fn syncobj_interface() -> (interface: Interface)
    ensures
        interface.name@ == "wp_linux_drm_syncobj_manager_v1"@,
        interface.version == 1,
{
    let described = WpLinuxDrmSyncobjManagerV1::interface();
    Interface { name: described.name.to_string(), version: described.version }
}

impl ServerGlobal {
    /// The name of the interface.
    pub open spec fn name(self) -> Seq<char> {
        match self {
            ServerGlobal::WlCompositor => "wl_compositor"@,
            ServerGlobal::WlShm => "wl_shm"@,
            ServerGlobal::WlSeat => "wl_seat"@,
            ServerGlobal::WlOutput => "wl_output"@,
            ServerGlobal::ZwpRelativePointerManagerV1 => "zwp_relative_pointer_manager_v1"@,
            ServerGlobal::WlDrm => "wl_drm"@,
            ServerGlobal::ZwpLinuxDmabufV1 => "zwp_linux_dmabuf_v1"@,
            ServerGlobal::ZxdgOutputManagerV1 => "zxdg_output_manager_v1"@,
            ServerGlobal::ZwpPointerConstraintsV1 => "zwp_pointer_constraints_v1"@,
            ServerGlobal::ZwpTabletManagerV2 => "zwp_tablet_manager_v2"@,
            ServerGlobal::WpLinuxDrmSyncobjManagerV1 => "wp_linux_drm_syncobj_manager_v1"@,
        }
    }

    /// The latest version of the interface that the server can offer.
    pub open spec fn version(self) -> u32 {
        match self {
            ServerGlobal::WlCompositor => 7,
            ServerGlobal::WlShm => 3,
            ServerGlobal::WlSeat => 11,
            ServerGlobal::WlOutput => 4,
            ServerGlobal::ZwpRelativePointerManagerV1 => 1,
            ServerGlobal::WlDrm => 2,
            ServerGlobal::ZwpLinuxDmabufV1 => 6,
            ServerGlobal::ZxdgOutputManagerV1 => 3,
            ServerGlobal::ZwpPointerConstraintsV1 => 1,
            ServerGlobal::ZwpTabletManagerV2 => 2,
            ServerGlobal::WpLinuxDrmSyncobjManagerV1 => 1,
        }
    }

    /// The interface of the global.
    pub fn interface(self) -> (interface: Interface)
        ensures
            interface.name@ == self.name(),
            interface.version == self.version(),
    {
        match self {
            ServerGlobal::WlCompositor => compositor_interface(),
            ServerGlobal::WlShm => shm_interface(),
            ServerGlobal::WlSeat => seat_interface(),
            ServerGlobal::WlOutput => output_interface(),
            ServerGlobal::ZwpRelativePointerManagerV1 => relative_pointer_interface(),
            ServerGlobal::WlDrm => Interface { name: "wl_drm".to_string(), version: 2 },
            ServerGlobal::ZwpLinuxDmabufV1 => dmabuf_interface(),
            ServerGlobal::ZxdgOutputManagerV1 => xdg_output_interface(),
            ServerGlobal::ZwpPointerConstraintsV1 => pointer_constraints_interface(),
            ServerGlobal::ZwpTabletManagerV2 => tablet_interface(),
            ServerGlobal::WpLinuxDrmSyncobjManagerV1 => syncobj_interface(),
        }
    }

    /// No two kinds of globals have the same name.
    pub proof fn names_differ(self, other: ServerGlobal)
        ensures
            self.name() == other.name() ==> self == other,
    {
        reveal_strlit("wl_compositor");
        reveal_strlit("wl_shm");
        reveal_strlit("wl_seat");
        reveal_strlit("wl_output");
        reveal_strlit("zwp_relative_pointer_manager_v1");
        reveal_strlit("wl_drm");
        reveal_strlit("zwp_linux_dmabuf_v1");
        reveal_strlit("zxdg_output_manager_v1");
        reveal_strlit("zwp_pointer_constraints_v1");
        reveal_strlit("zwp_tablet_manager_v2");
        reveal_strlit("wp_linux_drm_syncobj_manager_v1");
        if self.name() == other.name() {
            let one = self.name();
            let two = other.name();
            assert(one.len() == two.len());
            assert(one[0] == two[0] && one[1] == two[1] && one[3] == two[3] && one[4] == two[4]);
        }
    }

    /// All kinds of globals.
    fn all() -> (kinds: Vec<ServerGlobal>)
        ensures
            forall|kind: ServerGlobal| #[trigger] kinds@.contains(kind),
    {
        let kinds: Vec<ServerGlobal> = vec![
            ServerGlobal::WlCompositor,
            ServerGlobal::WlShm,
            ServerGlobal::WlSeat,
            ServerGlobal::WlOutput,
            ServerGlobal::ZwpRelativePointerManagerV1,
            ServerGlobal::WlDrm,
            ServerGlobal::ZwpLinuxDmabufV1,
            ServerGlobal::ZxdgOutputManagerV1,
            ServerGlobal::ZwpPointerConstraintsV1,
            ServerGlobal::ZwpTabletManagerV2,
            ServerGlobal::WpLinuxDrmSyncobjManagerV1,
        ];
        assert forall|kind: ServerGlobal| #[trigger] kinds@.contains(kind) by {
            assert(kinds@[0] == ServerGlobal::WlCompositor);
            assert(kinds@[1] == ServerGlobal::WlShm);
            assert(kinds@[2] == ServerGlobal::WlSeat);
            assert(kinds@[3] == ServerGlobal::WlOutput);
            assert(kinds@[4] == ServerGlobal::ZwpRelativePointerManagerV1);
            assert(kinds@[5] == ServerGlobal::WlDrm);
            assert(kinds@[6] == ServerGlobal::ZwpLinuxDmabufV1);
            assert(kinds@[7] == ServerGlobal::ZxdgOutputManagerV1);
            assert(kinds@[8] == ServerGlobal::ZwpPointerConstraintsV1);
            assert(kinds@[9] == ServerGlobal::ZwpTabletManagerV2);
            assert(kinds@[10] == ServerGlobal::WpLinuxDrmSyncobjManagerV1);
        }
        kinds
    }

    /// The kind of global that has the name, if there is one.
    pub open spec fn named(name: Seq<char>) -> Option<ServerGlobal> {
        if exists|kind: ServerGlobal| #[trigger] kind.name() == name {
            Some(choose|kind: ServerGlobal| #[trigger] kind.name() == name)
        } else {
            None
        }
    }

    /// The kind of global that an interface's name stands for, if there is one.
    pub fn of(name: &String) -> (kind: Option<ServerGlobal>)
        ensures
            kind == ServerGlobal::named(name@),
    {
        let kinds: Vec<ServerGlobal> = ServerGlobal::all();
        let mut i: usize = 0;
        while i < kinds.len()
            invariant
                i <= kinds.len(),
                forall|j: int| 0 <= j < i ==> (#[trigger] kinds@[j]).name() != name@,
            decreases kinds.len() - i,
        {
            let kind: ServerGlobal = kinds[i];
            if *name == kind.interface().name {
                proof {
                    assert(kind.name() == name@);
                    kind.names_differ(
                        choose|other: ServerGlobal| #[trigger] other.name() == name@,
                    );
                }
                return Some(kind);
            }
            i += 1;
        }
        assert forall|kind: ServerGlobal| #[trigger] kind.name() != name@ by {
            assert(kinds@.contains(kind));
        }
        None
    }
}

/// A global that the server offers: what it is, and up to which version.
#[derive(Clone, Copy, Debug, PartialEq, Eq, Structural)]
pub struct Advertisement {
    pub name: GlobalName,
    pub kind: ServerGlobal,
    pub version: u32,
}

/// Whether the server offers the global if the compositor does.
pub open spec fn offered() -> spec_fn(Global<Seq<char>>) -> bool {
    |global: Global<Seq<char>>| ServerGlobal::named(global.interface) is Some
}

/// How the server offers a global: in the latest version that both it and the compositor can
/// offer.
pub open spec fn advertisement() -> spec_fn(Global<Seq<char>>) -> Advertisement {
    |global: Global<Seq<char>>|
        {
            let kind = ServerGlobal::named(global.interface)->0;
            Advertisement {
                name: global.name,
                kind,
                version: if global.version < kind.version() {
                    global.version
                } else {
                    kind.version()
                },
            }
        }
}

/// No global is offered in a later version than both the compositor and the server can offer.
pub proof fn offered_version_fits(global: Global<Seq<char>>)
    requires
        offered()(global),
    ensures
        advertisement()(global).kind.name() == global.interface,
        advertisement()(global).version <= global.version,
        advertisement()(global).version <= advertisement()(global).kind.version(),
        advertisement()(global).version == global.version || advertisement()(global).version
            == advertisement()(global).kind.version(),
{
}

/// The globals that the server offers, by their numbers, once it offers more. Of two globals with
/// the same number the later one counts.
pub open spec fn with_globals(
    globals: Map<u32, Global<Seq<char>>>,
    added: Seq<Global<Seq<char>>>,
) -> Map<u32, Global<Seq<char>>>
    decreases added.len(),
{
    if added.len() == 0 {
        globals
    } else {
        let before = with_globals(globals, added.drop_last());
        if offered()(added.last()) {
            before.insert(added.last().name.name, added.last())
        } else {
            before
        }
    }
}

impl ServerModel {
    /// The server once it offers more globals.
    pub open spec fn with_globals(self, added: Seq<Global<Seq<char>>>) -> ServerModel {
        ServerModel { globals: with_globals(self.globals, added), ..self }
    }

    /// Whether the global can be removed: the server offers it, and where it is an output that the
    /// X server has, the output has told its scale factor and its dimensions.
    pub open spec fn can_remove_global(self, global: GlobalName) -> bool {
        &&& self.globals.dom().contains(global.name)
        &&& self.globals[global.name].interface == ServerGlobal::WlOutput.name()
            ==> self.can_remove_output(global)
    }

    /// The server once it no longer offers the global.
    pub open spec fn without_global(self, global: GlobalName) -> ServerModel {
        ServerModel { globals: self.globals.remove(global.name), ..self }
    }

    /// Whether `after` is the server once the global has been removed, and with it the output that
    /// it was, if it was one.
    pub open spec fn global_removed(self, after: ServerModel, global: GlobalName) -> bool {
        if self.globals[global.name].interface == ServerGlobal::WlOutput.name() {
            self.without_global(global).output_removed(after, global)
        } else {
            after == self.without_global(global)
        }
    }

    /// Whether `after` is the server once the globals have been removed, one after the other.
    pub open spec fn globals_removed(
        self,
        after: ServerModel,
        removed: Seq<GlobalName>,
    ) -> bool
        decreases removed.len(),
    {
        if removed.len() == 0 {
            after == self
        } else {
            exists|mid: ServerModel|
                self.globals_removed(mid, removed.drop_last()) && #[trigger] mid.global_removed(
                    after,
                    removed.last(),
                )
        }
    }

    /// Whether the globals can all be removed, one after the other.
    pub open spec fn can_remove_globals(self, removed: Seq<GlobalName>) -> bool {
        &&& removed.no_duplicates()
        &&& forall|i: int|
            0 <= i < removed.len() ==> self.can_remove_global(#[trigger] removed[i])
    }

    /// A global that can be removed still can be after another one has been removed.
    proof fn removal_keeps_others(self, after: ServerModel, global: GlobalName, other: GlobalName)
        requires
            self.global_removed(after, global),
            self.can_remove_global(other),
            global != other,
        ensures
            after.can_remove_global(other),
    {
        assert forall|entity: u64| #[trigger] after.is_output(entity, other) implies self.is_output(
            entity,
            other,
        ) && after.rows[entity].output_scale == self.rows[entity].output_scale
            && after.rows[entity].output_dimensions == self.rows[entity].output_dimensions by {
            let bare = self.without_global(global);
            if self.globals[global.name].interface == ServerGlobal::WlOutput.name() && exists|
                output: u64,
            | #[trigger] bare.is_output(output, global) {
                let output = choose|output: u64| #[trigger]
                    bare.is_output(output, global) && after == bare.without_output(output);
                assert(after.rows[entity] == bare.row_without_output(entity, output));
                assert(bare.is_output(output, global));
            }
        }
        assert(after.globals == self.globals.remove(global.name)) by {
            let bare = self.without_global(global);
            if self.globals[global.name].interface == ServerGlobal::WlOutput.name() && exists|
                output: u64,
            | #[trigger] bare.is_output(output, global) {
                let output = choose|output: u64| #[trigger]
                    bare.is_output(output, global) && after == bare.without_output(output);
            }
        }
    }
}

impl InnerServerState {
    /// Offers the globals that the compositor newly offers, as far as the server offers such at
    /// all.
    pub fn handle_new_globals(&mut self, globals: &Vec<Global>) -> (advertised: Vec<Advertisement>)
        requires
            old(self)@.wf(),
        ensures
            final(self)@.wf(),
            final(self)@ == old(self)@.with_globals(globals.deep_view()),
            advertised@ == globals.deep_view().filter(offered()).map_values(advertisement()),
    {
        let ghost pre = self@;
        let ghost list = globals.deep_view();
        let mut advertised: Vec<Advertisement> = Vec::new();
        let mut i: usize = 0;
        proof {
            reveal(Seq::filter);
        }
        assert(advertised@ =~= list.take(0).filter(offered()).map_values(advertisement()));
        while i < globals.len()
            invariant
                i <= globals.len(),
                list == globals.deep_view(),
                self@ == pre.with_globals(list.take(i as int)),
                advertised@ == list.take(i as int).filter(offered()).map_values(advertisement()),
            decreases globals.len() - i,
        {
            let global: &Global = &globals[i];
            let ghost seen = list.take(i as int);
            let ghost now = list.take(i + 1);
            let ghost mid = self@;
            let ghost table = self.globals_map@;
            proof {
                reveal(Seq::filter);
                assert(now.drop_last() =~= seen);
                assert(now.last() == global.deep_view());
            }
            if let Some(kind) = ServerGlobal::of(&global.interface) {
                let latest: u32 = kind.interface().version;
                let version: u32 = if global.version < latest {
                    global.version
                } else {
                    latest
                };
                advertised.push(Advertisement { name: global.name, kind, version });
                let known = Global {
                    name: global.name,
                    interface: global.interface.clone(),
                    version: global.version,
                };
                let _old: Option<Global> = self.globals_map.insert(global.name.name, known);
                assert(self@.globals =~= mid.globals.insert(
                    global.name.name,
                    global.deep_view(),
                ));
                assert(advertised@ =~= now.filter(offered()).map_values(advertisement()));
            }
            i += 1;
        }
        assert(list.take(i as int) =~= list);
        advertised
    }

    /// Whether the server offers the global.
    pub fn has_global(&self, global: GlobalName) -> (has: bool)
        ensures
            has == self@.globals.dom().contains(global.name),
    {
        self.globals_map.contains_key(&global.name)
    }

    /// Removes a global, and with it the output that it is, if it is one.
    fn remove_global(&mut self, global: GlobalName)
        requires
            old(self)@.wf(),
            old(self)@.can_remove_global(global),
        ensures
            final(self)@.wf(),
            old(self)@.global_removed(final(self)@, global),
    {
        let ghost pre = self@;
        let removed: Option<Global> = self.globals_map.remove(&global.name);
        assert(self@.globals =~= pre.globals.remove(global.name));
        if let Some(removed) = removed {
            assert(removed.interface@ == pre.globals[global.name].interface);
            if removed.interface == ServerGlobal::WlOutput.interface().name {
                assert forall|entity: u64| #[trigger] self@.is_output(entity, global) implies pre.is_output(
                    entity,
                    global,
                ) by {}
                self.remove_output(global);
            }
        }
    }

    /// Offers what the compositor newly offers, and removes what it no longer does. The server
    /// must offer what is removed, and outputs that are removed must have told their scale
    /// factors and dimensions.
    pub fn handle_globals(
        &mut self,
        added: &Vec<Global>,
        removed: &Vec<GlobalName>,
    ) -> (advertised: Vec<Advertisement>)
        requires
            old(self)@.wf(),
            old(self)@.with_globals(added.deep_view()).can_remove_globals(removed@),
        ensures
            final(self)@.wf(),
            old(self)@.with_globals(added.deep_view()).globals_removed(final(self)@, removed@),
            advertised@ == added.deep_view().filter(offered()).map_values(advertisement()),
    {
        let advertised: Vec<Advertisement> = self.handle_new_globals(added);
        let ghost start = self@;
        assert(removed@.take(0) =~= Seq::<GlobalName>::empty());
        let mut i: usize = 0;
        while i < removed.len()
            invariant
                i <= removed.len(),
                self@.wf(),
                removed@.no_duplicates(),
                start.globals_removed(self@, removed@.take(i as int)),
                forall|j: int|
                    i <= j < removed@.len() ==> self@.can_remove_global(#[trigger] removed@[j]),
            decreases removed.len() - i,
        {
            let global: GlobalName = removed[i];
            let ghost mid = self@;
            assert(mid.can_remove_global(removed@[i as int]));
            self.remove_global(global);
            proof {
                let now = removed@.take(i + 1);
                assert(now.drop_last() =~= removed@.take(i as int));
                assert(now.last() == global);
                assert(mid.global_removed(self@, now.last()));
                assert forall|j: int| i + 1 <= j < removed@.len() implies self@.can_remove_global(
                    #[trigger] removed@[j],
                ) by {
                    mid.removal_keeps_others(self@, global, removed@[j]);
                }
            }
            i += 1;
        }
        assert(removed@.take(i as int) =~= removed@);
        advertised
    }
}

} // verus!
