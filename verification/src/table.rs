//! The native cameras behind HarmonyOS's nodes.
use std::collections::HashMap;
use vstd::prelude::*;
use crate::native::ArkCall;
use crate::patch::CameraPatch;

verus! {

broadcast use vstd::std_specs::hash::group_hash_axioms;

/// Which native camera stands behind each ArkTS node, both by the address of what they are. A node
/// without a camera is not in the table, so no camera in it has the null address.
pub struct CameraTable {
    cameras: HashMap<usize, usize>,
}

impl View for CameraTable {
    type V = Map<usize, usize>;

    closed spec fn view(&self) -> Map<usize, usize> {
        self.cameras@
    }
}

/// No camera has the null address.
pub open spec fn no_null(cameras: Map<usize, usize>) -> bool {
    forall|handle: usize| #[trigger] cameras.contains_key(handle) ==> cameras[handle] != 0
}

/// The table after the shim made `camera` for `handle`. The null address is no camera.
pub open spec fn registered(
    cameras: Map<usize, usize>,
    handle: usize,
    camera: usize,
) -> Map<usize, usize> {
    if camera == 0 {
        cameras
    } else {
        cameras.insert(handle, camera)
    }
}

/// The camera behind `handle`, if there is one.
pub open spec fn camera_behind(cameras: Map<usize, usize>, handle: usize) -> Option<usize> {
    if cameras.contains_key(handle) {
        Some(cameras[handle])
    } else {
        None
    }
}

impl CameraTable {
    /// A table without cameras.
    pub fn new() -> (table: Self)
        ensures
            table@ == Map::<usize, usize>::empty(),
            no_null(table@),
    {
        CameraTable { cameras: HashMap::new() }
    }

    /// Notes that the shim made `camera` for `handle`; the null address says that it made none.
    pub fn register(&mut self, handle: usize, camera: usize)
        ensures
            final(self)@ == registered(old(self)@, handle, camera),
            no_null(old(self)@) ==> no_null(final(self)@),
    {
        if camera != 0 {
            self.cameras.insert(handle, camera);
        }
    }

    /// The camera behind `handle`.
    pub fn camera_of(&self, handle: usize) -> (camera: Option<usize>)
        ensures
            camera == camera_behind(self@, handle),
    {
        match self.cameras.get(&handle) {
            Some(camera) => Some(*camera),
            None => None,
        }
    }

    /// What to call, and on which camera, to bring `patch` to the node `handle`. A node without a
    /// camera takes no patches.
    pub fn update(&self, handle: usize, patch: &CameraPatch) -> (call: Option<(usize, ArkCall)>)
        ensures
            match call {
                Some((camera, call)) => {
                    &&& camera_behind(self@, handle) == Some(camera)
                    &&& patch@.spec_ark_call() == Some(call@)
                },
                None => camera_behind(self@, handle) is None || patch@.spec_ark_call() is None,
            },
    {
        match self.camera_of(handle) {
            Some(camera) => match patch.ark_call() {
                Some(call) => Some((camera, call)),
                None => None,
            },
            None => None,
        }
    }

    /// Forgets the camera behind `handle` and hands it back, to be freed.
    pub fn release(&mut self, handle: usize) -> (camera: Option<usize>)
        ensures
            final(self)@ == old(self)@.remove(handle),
            camera == camera_behind(old(self)@, handle),
            no_null(old(self)@) ==> no_null(final(self)@),
    {
        self.cameras.remove(&handle)
    }
}

/// A camera that was registered is found under its handle, and no other node notices.
pub proof fn law_registered_camera_is_found(
    cameras: Map<usize, usize>,
    handle: usize,
    camera: usize,
    other: usize,
)
    requires
        camera != 0,
    ensures
        camera_behind(registered(cameras, handle, camera), handle) == Some(camera),
        other != handle ==> camera_behind(registered(cameras, handle, camera), other)
            == camera_behind(cameras, other),
{
}

/// A camera is handed back for freeing once: after a release nothing stands behind the handle, and
/// no other node notices.
pub proof fn law_released_camera_is_gone(cameras: Map<usize, usize>, handle: usize, other: usize)
    ensures
        camera_behind(cameras.remove(handle), handle) is None,
        other != handle ==> camera_behind(cameras.remove(handle), other) == camera_behind(
            cameras,
            other,
        ),
{
}

/// The null address is no camera: noting it leaves the table as it was.
pub proof fn law_null_is_not_registered(cameras: Map<usize, usize>, handle: usize)
    ensures
        registered(cameras, handle, 0) == cameras,
{
}

/// A new table has a camera behind no node.
pub proof fn law_new_table_is_empty(table: CameraTable, handle: usize, camera: Option<usize>)
    requires
        call_ensures(CameraTable::new, (), table),
        call_ensures(CameraTable::camera_of, (&table, handle), camera),
    ensures
        camera is None,
{
}

/// Registering makes the camera the one that its node's commands go to, and changes that of no other
/// node; a null camera changes none at all.
pub proof fn law_registering_reaches_one_node(handle: usize, camera: usize, other: usize)
    ensures
        forall|table: &mut CameraTable|
            #[trigger] call_ensures(CameraTable::register, (table, handle, camera), ()) ==> {
                forall|before: Option<usize>, after: Option<usize>|
                    #[trigger] call_ensures(CameraTable::camera_of, (&*table, other), before)
                        && #[trigger] call_ensures(
                        CameraTable::camera_of,
                        (&*final(table), other),
                        after,
                    ) ==> after == (if other == handle && camera != 0 {
                        Some(camera)
                    } else {
                        before
                    })
            },
{
}

/// Releasing hands back the camera that was behind the node, leaves none there, and changes that of
/// no other node.
pub proof fn law_releasing_reaches_one_node(handle: usize, other: usize)
    ensures
        forall|table: &mut CameraTable, freed: Option<usize>|
            #[trigger] call_ensures(CameraTable::release, (table, handle), freed) ==> {
                forall|before: Option<usize>, after: Option<usize>|
                    #[trigger] call_ensures(CameraTable::camera_of, (&*table, other), before)
                        && #[trigger] call_ensures(
                        CameraTable::camera_of,
                        (&*final(table), other),
                        after,
                    ) ==> if other == handle {
                        freed == before && after is None
                    } else {
                        after == before
                    }
            },
{
}

/// A patch reaches the camera behind its node, as the call that carries it, exactly if there is a
/// camera and the patch can cross; no other camera is ever named.
pub proof fn law_patch_reaches_the_camera_of_its_node(
    table: CameraTable,
    handle: usize,
    patch: CameraPatch,
    camera: Option<usize>,
    call: Option<ArkCall>,
    update: Option<(usize, ArkCall)>,
)
    requires
        call_ensures(CameraTable::camera_of, (&table, handle), camera),
        call_ensures(CameraPatch::ark_call, (&patch,), call),
        call_ensures(CameraTable::update, (&table, handle, &patch), update),
    ensures
        update is Some <==> camera is Some && call is Some,
        update matches Some((reached, carried)) ==> {
            &&& camera == Some(reached)
            &&& carried@ == call->0@
        },
{
}

} // verus!
