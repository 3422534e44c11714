//! Applying the commands that the web page queues for the map views: each command
//! goes to the view that its canvas selector names, in the order queued.
use crate::keyed_map::KeyedMap;
use crate::text::str_eq;
use crate::tile::{parse_tile_key, spec_parse_tile_key, CanonicalTileId};
use vstd::prelude::*;

verus! {

/// The state of one map view: the canvas it draws on, its camera, the tiles and
/// features the page reports as active, and the terrain data of its tiles.
pub struct MapViewState<C, T, F, D> {
    pub selector: String,
    pub camera: C,
    pub active_tiles: T,
    pub active_features: F,
    pub terrain: KeyedMap<CanonicalTileId, D>,
}

/// The mathematical value of a [`MapViewState`].
pub struct MapViewModel<C, T, F, D> {
    pub selector: Seq<char>,
    pub camera: C,
    pub active_tiles: T,
    pub active_features: F,
    pub terrain: Map<CanonicalTileId, D>,
}

impl<C, T, F, D> MapViewState<C, T, F, D> {
    pub open spec fn model(&self) -> MapViewModel<C, T, F, D> {
        MapViewModel {
            selector: self.selector@,
            camera: self.camera,
            active_tiles: self.active_tiles,
            active_features: self.active_features,
            terrain: self.terrain@,
        }
    }
}

/// All map views of the page.
pub struct MapViewsState<C, T, F, D> {
    pub views: Vec<MapViewState<C, T, F, D>>,
}

impl<C, T, F, D> View for MapViewsState<C, T, F, D> {
    type V = Seq<MapViewModel<C, T, F, D>>;

    open spec fn view(&self) -> Seq<MapViewModel<C, T, F, D>> {
        self.views@.map_values(|v: MapViewState<C, T, F, D>| v.model())
    }
}

/// A command queued by the page for the view on canvas `selector`.
pub enum SyncCommand<C, T, F, D> {
    /// The view's new camera.
    View { selector: String, camera: C },
    /// The tiles now active in the view.
    Tiles { selector: String, tiles: T },
    /// The features now active in the view.
    Features { selector: String, features: F },
    /// Terrain data for the tile whose key (`z/x/y`) is `tile_key`.
    TerrainData { selector: String, tile_key: String, data: D },
}

impl<C, T, F, D> SyncCommand<C, T, F, D> {
    /// The canvas selector the command names.
    pub open spec fn spec_selector(&self) -> Seq<char> {
        match self {
            SyncCommand::View { selector, .. } => selector@,
            SyncCommand::Tiles { selector, .. } => selector@,
            SyncCommand::Features { selector, .. } => selector@,
            SyncCommand::TerrainData { selector, .. } => selector@,
        }
    }
}

/// Whether view `i` is the first of `views` on canvas `selector`.
pub open spec fn is_first_view_with<C, T, F, D>(views: Seq<MapViewModel<C, T, F, D>>, selector: Seq<char>, i: int) -> bool {
    &&& 0 <= i < views.len()
    &&& views[i].selector == selector
    &&& forall|j: int| 0 <= j < i ==> #[trigger] views[j].selector != selector
}

/// Whether some view is on canvas `selector`.
pub open spec fn has_view_with<C, T, F, D>(views: Seq<MapViewModel<C, T, F, D>>, selector: Seq<char>) -> bool {
    exists|i: int| 0 <= i < views.len() && #[trigger] views[i].selector == selector
}

/// View `v` after command `cmd` was applied to it.
pub open spec fn spec_apply_to_view<C, T, F, D>(v: MapViewModel<C, T, F, D>, cmd: SyncCommand<C, T, F, D>) -> MapViewModel<C, T, F, D> {
    match cmd {
        SyncCommand::View { camera, .. } => MapViewModel {
            selector: v.selector,
            camera: camera,
            active_tiles: v.active_tiles,
            active_features: v.active_features,
            terrain: v.terrain,
        },
        SyncCommand::Tiles { tiles, .. } => MapViewModel {
            selector: v.selector,
            camera: v.camera,
            active_tiles: tiles,
            active_features: v.active_features,
            terrain: v.terrain,
        },
        SyncCommand::Features { features, .. } => MapViewModel {
            selector: v.selector,
            camera: v.camera,
            active_tiles: v.active_tiles,
            active_features: features,
            terrain: v.terrain,
        },
        SyncCommand::TerrainData { tile_key, data, .. } => match spec_parse_tile_key(tile_key@) {
            Ok(t) => MapViewModel {
                selector: v.selector,
                camera: v.camera,
                active_tiles: v.active_tiles,
                active_features: v.active_features,
                terrain: v.terrain.insert(t, data),
            },
            Err(_) => v,
        },
    }
}

/// The views after command `cmd`: the first view on the command's canvas takes it;
/// a command naming no view is dropped.
pub open spec fn spec_apply_command<C, T, F, D>(views: Seq<MapViewModel<C, T, F, D>>, cmd: SyncCommand<C, T, F, D>) -> Seq<MapViewModel<C, T, F, D>> {
    let selector = cmd.spec_selector();
    if has_view_with(views, selector) {
        let i = choose|i: int| is_first_view_with(views, selector, i);
        views.update(i, spec_apply_to_view(views[i], cmd))
    } else {
        views
    }
}

/// The views after the commands `cmds`, applied in order.
pub open spec fn spec_apply_all<C, T, F, D>(views: Seq<MapViewModel<C, T, F, D>>, cmds: Seq<SyncCommand<C, T, F, D>>) -> Seq<MapViewModel<C, T, F, D>>
    decreases cmds.len(),
{
    if cmds.len() == 0 {
        views
    } else {
        spec_apply_command(spec_apply_all(views, cmds.drop_last()), cmds.last())
    }
}

/// The index of the first view on canvas `selector`, if any.
fn find_view<C, T, F, D>(state: &MapViewsState<C, T, F, D>, selector: &str) -> (r: Option<usize>)
    ensures
        match r {
            Some(i) => is_first_view_with(state@, selector@, i as int),
            None => !has_view_with(state@, selector@),
        },
{
    let mut i: usize = 0;
    while i < state.views.len()
        invariant
            i <= state.views@.len(),
            state@.len() == state.views@.len(),
            forall|j: int| 0 <= j < i ==> #[trigger] state@[j].selector != selector@,
        decreases state.views@.len() - i,
    {
        if str_eq(state.views[i].selector.as_str(), selector) {
            return Some(i);
        }
        i += 1;
    }
    None
}

/// Applies command `cmd` to the view it names.
fn apply_sync_command<C, T, F, D>(state: &mut MapViewsState<C, T, F, D>, cmd: SyncCommand<C, T, F, D>)
    ensures
        final(state)@ == spec_apply_command(old(state)@, cmd),
{
    let selector = match &cmd {
        SyncCommand::View { selector, .. } => selector.clone(),
        SyncCommand::Tiles { selector, .. } => selector.clone(),
        SyncCommand::Features { selector, .. } => selector.clone(),
        SyncCommand::TerrainData { selector, .. } => selector.clone(),
    };
    let ghost old_views = state@;
    let i = match find_view(state, selector.as_str()) {
        Some(i) => i,
        None => return,
    };
    proof {
        let j = choose|j: int| is_first_view_with(old_views, cmd.spec_selector(), j);
        if j < i {
            assert(old_views[j].selector != cmd.spec_selector());
        } else if i < j {
            assert(old_views[i as int].selector != cmd.spec_selector());
        }
        assert(j == i);
    }
    let mut v = state.views.remove(i);
    match cmd {
        SyncCommand::View { camera, .. } => {
            v.camera = camera;
        },
        SyncCommand::Tiles { tiles, .. } => {
            v.active_tiles = tiles;
        },
        SyncCommand::Features { features, .. } => {
            v.active_features = features;
        },
        SyncCommand::TerrainData { tile_key, data, .. } => {
            if let Ok(t) = parse_tile_key(tile_key.as_str()) {
                v.terrain.insert(t, data);
            }
        },
    }
    state.views.insert(i, v);
    proof {
        assert(state@ =~= spec_apply_command(old_views, cmd));
    }
}

/// Applies the queued commands in order, each to the first view on the canvas it
/// names; commands naming no view, and terrain data for a tile key that does not
/// parse, are dropped.
pub fn apply_sync_commands<C, T, F, D>(state: &mut MapViewsState<C, T, F, D>, commands: Vec<SyncCommand<C, T, F, D>>)
    ensures
        final(state)@ == spec_apply_all(old(state)@, commands@),
{
    let ghost all = commands@;
    let total: usize = commands.len();
    let mut rest = commands;
    let mut done: usize = 0;
    while rest.len() > 0
        invariant
            done + rest@.len() == all.len(),
            all.len() == total,
            rest@ == all.skip(done as int),
            state@ == spec_apply_all(old(state)@, all.take(done as int)),
        decreases rest@.len(),
    {
        let cmd = rest.remove(0);
        proof {
            assert(all.take(done + 1).drop_last() =~= all.take(done as int));
            assert(all.take(done + 1).last() == cmd);
        }
        apply_sync_command(state, cmd);
        done += 1;
        proof {
            assert(rest@ =~= all.skip(done as int));
        }
    }
    proof {
        assert(all.take(done as int) =~= all);
    }
}

/// Among views some of which are on canvas `selector`, there is a first.
proof fn lemma_first_view_exists<C, T, F, D>(views: Seq<MapViewModel<C, T, F, D>>, selector: Seq<char>, n: int)
    requires
        0 <= n <= views.len(),
        exists|i: int| 0 <= i < n && #[trigger] views[i].selector == selector,
    ensures
        exists|i: int| #[trigger] is_first_view_with(views, selector, i),
    decreases n,
{
    if exists|i: int| 0 <= i < n - 1 && #[trigger] views[i].selector == selector {
        lemma_first_view_exists(views, selector, n - 1);
    } else {
        assert(views[n - 1].selector == selector);
        assert(is_first_view_with(views, selector, n - 1));
    }
}

/// What one command does to the views: nothing when no view is on its canvas; else
/// it changes only the first view on that canvas, and of it only what the command
/// carries: a camera command sets the camera, a tiles command the active tiles, a
/// features command the active features, and terrain data for a key that parses as
/// a tile id is stored under that id (terrain data for any other key is dropped).
pub proof fn lemma_one_command<C, T, F, D>(views: Seq<MapViewModel<C, T, F, D>>, cmd: SyncCommand<C, T, F, D>)
    ensures
        spec_apply_all(views, seq![cmd]).len() == views.len(),
        !has_view_with(views, cmd.spec_selector()) ==> spec_apply_all(views, seq![cmd]) == views,
        forall|i: int|
            #[trigger] is_first_view_with(views, cmd.spec_selector(), i) ==> {
                let before = views[i];
                let after = spec_apply_all(views, seq![cmd])[i];
                &&& forall|j: int| 0 <= j < views.len() && j != i ==> spec_apply_all(views, seq![cmd])[j] == views[j]
                &&& after.selector == before.selector
                &&& after.camera == (match cmd {
                    SyncCommand::View { camera, .. } => camera,
                    _ => before.camera,
                })
                &&& after.active_tiles == (match cmd {
                    SyncCommand::Tiles { tiles, .. } => tiles,
                    _ => before.active_tiles,
                })
                &&& after.active_features == (match cmd {
                    SyncCommand::Features { features, .. } => features,
                    _ => before.active_features,
                })
                &&& after.terrain == (match cmd {
                    SyncCommand::TerrainData { tile_key, data, .. } => match spec_parse_tile_key(tile_key@) {
                        Ok(t) => before.terrain.insert(t, data),
                        Err(_) => before.terrain,
                    },
                    _ => before.terrain,
                })
            },
{
    let cmds = seq![cmd];
    assert(cmds.drop_last() =~= Seq::<SyncCommand<C, T, F, D>>::empty());
    assert(spec_apply_all(views, cmds.drop_last()) == views);
    assert(cmds.last() == cmd);
    let sel = cmd.spec_selector();
    if has_view_with(views, sel) {
        lemma_first_view_exists(views, sel, views.len() as int);
    }
    assert forall|i: int| #[trigger] is_first_view_with(views, sel, i) implies {
        let before = views[i];
        let after = spec_apply_all(views, seq![cmd])[i];
        &&& forall|j: int| 0 <= j < views.len() && j != i ==> spec_apply_all(views, seq![cmd])[j] == views[j]
        &&& after.selector == before.selector
        &&& after.camera == (match cmd {
            SyncCommand::View { camera, .. } => camera,
            _ => before.camera,
        })
        &&& after.active_tiles == (match cmd {
            SyncCommand::Tiles { tiles, .. } => tiles,
            _ => before.active_tiles,
        })
        &&& after.active_features == (match cmd {
            SyncCommand::Features { features, .. } => features,
            _ => before.active_features,
        })
        &&& after.terrain == (match cmd {
            SyncCommand::TerrainData { tile_key, data, .. } => match spec_parse_tile_key(tile_key@) {
                Ok(t) => before.terrain.insert(t, data),
                Err(_) => before.terrain,
            },
            _ => before.terrain,
        })
    } by {
        assert(views[i].selector == sel);
        assert(has_view_with(views, sel));
        let c = choose|c: int| is_first_view_with(views, sel, c);
        if c < i {
            assert(views[c].selector != sel);
        } else if i < c {
            assert(views[i].selector != sel);
        }
        assert(c == i);
    }
}

} // verus!
