//! The registry of native views: which native view (an iOS `UIView` or an
//! Android `ANativeWindow`) renders the Bevy window of which entity.
//!
//! Entities are held by their bits (`Entity::to_bits`); each view gets a
//! window id that no other view of the same registry has had.

use vstd::prelude::*;
use bevy_platform::collections::HashMap;
use crate::view_maps::{
    get_window, get_window_id, insert_window, insert_window_id, new_window_id_map, new_window_map,
    remove_window, remove_window_id, window_ids_of, windows_of,
};

verus! {

/// The plain values of a platform view object: the address of the native
/// view (`UIView*` on iOS, `ANativeWindow*` on Android) and the bits of its
/// scale factor (`f32::to_bits`).
#[derive(Clone, Copy, Debug, PartialEq, Eq, Structural)]
pub struct ViewObj {
    pub native_handle: u64,
    pub scale_factor_bits: u32,
}

/// A native view, as the renderer draws into it.
#[derive(Clone, Copy, Debug, PartialEq, Eq, Structural)]
pub struct AppView {
    pub view_obj: ViewObj,
}

impl AppView {
    /// Wraps a platform view object.
    pub fn new(view_obj: ViewObj) -> (view: AppView)
        ensures
            view.view_obj == view_obj,
    {
        AppView { view_obj }
    }
}

/// The window that the registry keeps for an entity: the native view that
/// renders it.
#[derive(Clone, Copy, Debug, PartialEq, Eq, Structural)]
pub struct AppViewWindow {
    pub view: AppView,
}

/// The window that `create_window` makes of a view object.
pub open spec fn window_for(view_obj: ViewObj) -> AppViewWindow {
    AppViewWindow { view: AppView { view_obj } }
}

/// Maps entities to the native views that render their windows.
pub struct AppViews {
    views: HashMap<u64, AppViewWindow>,
    entity_to_window_id: HashMap<u64, u64>,
    next_window_id: u64,
}

impl AppViews {
    /// Window ids by entity.
    pub closed spec fn window_ids(&self) -> Map<u64, u64> {
        window_ids_of(self.entity_to_window_id)
    }

    /// Windows by window id.
    pub closed spec fn windows(&self) -> Map<u64, AppViewWindow> {
        windows_of(self.views)
    }

    /// The window id that the next created window gets.
    pub closed spec fn next_id(&self) -> u64 {
        self.next_window_id
    }

    /// Every window id in use is below the next one, no two entities share a
    /// window id, and every entity's window id names a window.
    pub closed spec fn wf(&self) -> bool {
        &&& forall|e: u64| #[trigger] self.window_ids().contains_key(e)
            ==> self.window_ids()[e] < self.next_id() && self.windows().contains_key(self.window_ids()[e])
        &&& forall|id: u64| #[trigger] self.windows().contains_key(id) ==> id < self.next_id()
        &&& forall|e1: u64, e2: u64|
            #![trigger self.window_ids()[e1], self.window_ids()[e2]]
            self.window_ids().contains_key(e1) && self.window_ids().contains_key(e2) && e1 != e2
                ==> self.window_ids()[e1] != self.window_ids()[e2]
    }

    /// The window that `get_view` finds for an entity.
    pub open spec fn lookup(&self, entity: u64) -> Option<AppViewWindow> {
        if self@.contains_key(entity) {
            Some(self@[entity])
        } else {
            None
        }
    }

    /// Whether a window id is left for `create_window`.
    pub open spec fn can_create(&self) -> bool {
        self.next_id() < u64::MAX
    }

    /// An empty registry.
    pub fn new() -> (views: AppViews)
        ensures
            views.wf(),
            views@ =~= Map::<u64, AppViewWindow>::empty(),
            views.next_id() == 0,
    {
        let views = AppViews {
            views: new_window_map(),
            entity_to_window_id: new_window_id_map(),
            next_window_id: 0,
        };
        assert(views@ =~= Map::<u64, AppViewWindow>::empty());
        views
    }

    /// Takes a window id that no window of this registry has had.
    fn new_window_id(&mut self) -> (id: u64)
        requires
            old(self).can_create(),
        ensures
            id == old(self).next_id(),
            final(self).next_id() == id + 1,
            final(self).window_ids() == old(self).window_ids(),
            final(self).windows() == old(self).windows(),
    {
        let id = self.next_window_id;
        self.next_window_id = id + 1;
        id
    }

    /// Creates the window of `entity` from a native view object, replacing
    /// the window that the entity had, and returns it.
    pub fn create_window(&mut self, view_obj: ViewObj, entity: u64) -> (window: AppViewWindow)
        requires
            old(self).wf(),
            old(self).can_create(),
        ensures
            final(self).wf(),
            window == window_for(view_obj),
            window.view.view_obj == view_obj,
            final(self).lookup(entity) == Some(window),
            final(self)@ == old(self)@.insert(entity, window),
            final(self).next_id() == old(self).next_id() + 1,
    {
        let app_view = AppViewWindow { view: AppView::new(view_obj) };
        let ghost before = *self;
        let window_id = self.new_window_id();
        insert_window_id(&mut self.entity_to_window_id, entity, window_id);
        insert_window(&mut self.views, window_id, app_view);
        proof {
            assert forall|e: u64| #[trigger] self.window_ids().contains_key(e) implies
                self.window_ids()[e] < self.next_id() && self.windows().contains_key(self.window_ids()[e]) by {
                if e != entity {
                    assert(before.window_ids().contains_key(e));
                }
            }
            assert forall|e1: u64, e2: u64|
                self.window_ids().contains_key(e1) && self.window_ids().contains_key(e2) && e1 != e2
                implies #[trigger] self.window_ids()[e1] != #[trigger] self.window_ids()[e2] by {
                if e1 != entity && e2 != entity {
                    assert(before.window_ids()[e1] != before.window_ids()[e2]);
                } else if e1 == entity {
                    assert(before.window_ids().contains_key(e2));
                } else {
                    assert(before.window_ids().contains_key(e1));
                }
            }
            assert(self@ =~= before@.insert(entity, app_view)) by {
                assert forall|e: u64| e != entity && #[trigger] before.window_ids().contains_key(e)
                    implies before.window_ids()[e] != window_id by {}
            }
        }
        app_view
    }

    /// The window of `entity`, if it has one.
    pub fn get_view(&self, entity: u64) -> (found: Option<AppViewWindow>)
        requires
            self.wf(),
        ensures
            found == self.lookup(entity),
    {
        match get_window_id(&self.entity_to_window_id, entity) {
            Some(window_id) => get_window(&self.views, window_id),
            None => None,
        }
    }

    /// Removes the window of `entity` and returns it, if it had one; every
    /// other entity keeps its window.
    pub fn remove_view(&mut self, entity: u64) -> (removed: Option<AppViewWindow>)
        requires
            old(self).wf(),
        ensures
            final(self).wf(),
            removed == old(self).lookup(entity),
            final(self)@ == old(self)@.remove(entity),
            final(self).next_id() == old(self).next_id(),
    {
        let ghost before = *self;
        let window_id = match remove_window_id(&mut self.entity_to_window_id, entity) {
            Some(id) => id,
            None => {
                assert(self@ =~= before@.remove(entity));
                return None;
            },
        };
        let removed = remove_window(&mut self.views, window_id);
        proof {
            assert forall|e: u64| #[trigger] self.window_ids().contains_key(e) implies
                self.window_ids()[e] < self.next_id() && self.windows().contains_key(self.window_ids()[e]) by {
                assert(before.window_ids().contains_key(e));
                assert(before.window_ids()[e] != before.window_ids()[entity]);
            }
            assert forall|e1: u64, e2: u64|
                self.window_ids().contains_key(e1) && self.window_ids().contains_key(e2) && e1 != e2
                implies #[trigger] self.window_ids()[e1] != #[trigger] self.window_ids()[e2] by {
                assert(before.window_ids()[e1] != before.window_ids()[e2]);
            }
            assert(self@ =~= before@.remove(entity)) by {
                assert forall|e: u64| e != entity && #[trigger] before.window_ids().contains_key(e)
                    implies before.window_ids()[e] != window_id by {
                    assert(before.window_ids()[e] != before.window_ids()[entity]);
                }
            }
        }
        removed
    }
    /// Whether `count` more windows can be created.
    pub open spec fn can_create_many(&self, count: int) -> bool {
        self.next_id() + count <= u64::MAX
    }

    /// Whether `count` more windows can be created (window ids are not used up).
    pub fn has_window_ids_left(&self, count: usize) -> (left: bool)
        ensures
            left == self.can_create_many(count as int),
    {
        count as u64 <= u64::MAX - self.next_window_id
    }

    /// Handles the window-creation requests of a frame: each requesting entity
    /// (in order) gets a window on the one native view of the host app.
    /// Returns the created windows, one per request.
    pub fn handle_create_window_events(&mut self, view_obj: ViewObj, entities: &[u64]) -> (created: Vec<
        AppViewWindow,
    >)
        requires
            old(self).wf(),
            old(self).can_create_many(entities@.len() as int),
        ensures
            final(self).wf(),
            created@.len() == entities@.len(),
            forall|i: int| 0 <= i < created@.len() ==> #[trigger] created@[i] == window_for(view_obj),
            forall|i: int| 0 <= i < created@.len() ==> (#[trigger] created@[i]).view.view_obj == view_obj,
            forall|e: u64| #[trigger] entities@.contains(e) ==> final(self).lookup(e) == Some(window_for(view_obj)),
            forall|e: u64| #[trigger] entities@.contains(e) ==> final(self).lookup(e) == Some(
                AppViewWindow { view: AppView { view_obj } },
            ),
            forall|e: u64| !(#[trigger] entities@.contains(e)) ==> final(self).lookup(e) == old(self).lookup(e),
    {
        let mut created: Vec<AppViewWindow> = Vec::new();
        let mut i: usize = 0;
        while i < entities.len()
            invariant
                i <= entities@.len(),
                self.wf(),
                self.next_id() == old(self).next_id() + i,
                old(self).can_create_many(entities@.len() as int),
                created@.len() == i,
                forall|k: int| 0 <= k < created@.len() ==> #[trigger] created@[k] == window_for(view_obj),
                forall|k: int| 0 <= k < i ==> self.lookup(#[trigger] entities@[k]) == Some(window_for(view_obj)),
                forall|e: u64| !(#[trigger] entities@.subrange(0, i as int).contains(e))
                    ==> self.lookup(e) == old(self).lookup(e),
            decreases entities@.len() - i,
        {
            let entity = entities[i];
            let ghost before = *self;
            let window = self.create_window(view_obj, entity);
            created.push(window);
            proof {
                assert forall|e: u64| !(#[trigger] entities@.subrange(0, i + 1).contains(e))
                    implies self.lookup(e) == old(self).lookup(e) by {
                    if entities@.subrange(0, i as int).contains(e) {
                        let k = choose|k: int| 0 <= k < i && entities@.subrange(0, i as int)[k] == e;
                        assert(entities@.subrange(0, i + 1)[k] == e);
                    }
                    assert(e != entity) by {
                        if e == entity {
                            assert(entities@.subrange(0, i + 1)[i as int] == e);
                        }
                    }
                }
            }
            i = i + 1;
        }
        proof {
            assert(entities@.subrange(0, i as int) =~= entities@);
            assert forall|e: u64| #[trigger] entities@.contains(e) implies self.lookup(e) == Some(
                window_for(view_obj),
            ) by {
                let k = choose|k: int| 0 <= k < entities@.len() && entities@[k] == e;
                assert(self.lookup(entities@[k]) == Some(window_for(view_obj)));
            }
        }
        created
    }
}


impl Default for AppViews {
    /// An empty registry.
    fn default() -> (views: AppViews)
        ensures
            views.wf(),
            views@ =~= Map::<u64, AppViewWindow>::empty(),
            views.next_id() == 0,
    {
        AppViews::new()
    }
}

impl View for AppViews {
    type V = Map<u64, AppViewWindow>;

    /// The window of each entity that has one.
    closed spec fn view(&self) -> Map<u64, AppViewWindow> {
        Map::new(
            |e: u64| self.window_ids().contains_key(e),
            |e: u64| self.windows()[self.window_ids()[e]],
        )
    }
}

/// The window made of a native view object holds that object unchanged, in
/// every field: the native view's address (all 64 bits) and its scale factor.
/// So the window that `create_window` returns, and that `get_view` then
/// finds, is the view object given to it, wrapped.
pub proof fn lemma_window_keeps_view_obj(native_handle: u64, scale_factor_bits: u32)
    ensures
        window_for(ViewObj { native_handle, scale_factor_bits }).view.view_obj.native_handle
            == native_handle,
        window_for(ViewObj { native_handle, scale_factor_bits }).view.view_obj.scale_factor_bits
            == scale_factor_bits,
        forall|v: ViewObj| #[trigger] window_for(v) == (AppViewWindow { view: AppView { view_obj: v } }),
{
}

/// Two view objects that differ give different windows: creating a window
/// loses nothing of the view object.
pub proof fn lemma_window_for_injective(v1: ViewObj, v2: ViewObj)
    requires
        v1 != v2,
    ensures
        window_for(v1) != window_for(v2),
{
}

/// A window created for an entity is what `get_view` then finds for it, and
/// every other entity keeps the window it had.
pub proof fn lemma_get_after_create(
    before: AppViews,
    after: AppViews,
    entity: u64,
    window: AppViewWindow,
    other: u64,
)
    requires
        after@ == before@.insert(entity, window),
        other != entity,
    ensures
        after.lookup(entity) == Some(window),
        after.lookup(other) == before.lookup(other),
{
}

/// After the window of an entity is removed, `get_view` finds none for it,
/// and every other entity keeps the window it had.
pub proof fn lemma_get_after_remove(before: AppViews, after: AppViews, entity: u64, other: u64)
    requires
        after@ == before@.remove(entity),
        other != entity,
    ensures
        after.lookup(entity) is None,
        after.lookup(other) == before.lookup(other),
{
}

/// Removing the window just created for an entity gives that window back and
/// leaves the registry as it was, less any older window of that entity.
pub proof fn lemma_remove_after_create(
    before: AppViews,
    created: AppViews,
    after: AppViews,
    entity: u64,
    window: AppViewWindow,
)
    requires
        created@ == before@.insert(entity, window),
        after@ == created@.remove(entity),
    ensures
        created.lookup(entity) == Some(window),
        after@ == before@.remove(entity),
        before.lookup(entity) is None ==> after@ == before@,
{
    assert(after@ =~= before@.remove(entity));
    if before.lookup(entity) is None {
        assert(after@ =~= before@);
    }
}

/// Removing the window of an entity twice: the second removal finds nothing
/// and changes nothing.
pub proof fn lemma_remove_twice(first: AppViews, second: AppViews, third: AppViews, entity: u64)
    requires
        second@ == first@.remove(entity),
        third@ == second@.remove(entity),
    ensures
        second.lookup(entity) is None,
        third@ == second@,
{
    assert(third@ =~= second@);
}

} // verus!
