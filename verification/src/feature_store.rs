//! The vector-tile features a map view holds: by source, source layer, tile and
//! feature id. Containers that lose their last feature are dropped.
use crate::keyed_map::KeyedMap;
use crate::tile::CanonicalTileId;
use vstd::prelude::*;

verus! {

/// The features of one tile, by id.
pub type TileFeatures<F> = Map<Seq<char>, F>;

/// The features of one source layer, by tile.
pub type LayerFeatures<F> = Map<CanonicalTileId, TileFeatures<F>>;

/// The features of one source, by source layer.
pub type SourceFeatures<F> = Map<Seq<char>, LayerFeatures<F>>;

/// All features, by source.
pub type FeatureMap<F> = Map<Seq<char>, SourceFeatures<F>>;

/// A feature of a source layer on a tile, with its geometry and properties.
#[derive(Debug, Clone)]
pub struct SourceLayerFeature<G, P> {
    pub tile_id: CanonicalTileId,
    pub id: String,
    pub geometry: G,
    pub properties: P,
}

/// The features of one source layer, by tile and id.
pub struct MaplibreFeatureSourceLayerData<F> {
    pub tiles: KeyedMap<CanonicalTileId, KeyedMap<String, F>>,
}

/// The features of one source, by source layer.
pub struct MaplibreFeatureSourceData<F> {
    pub source_layers: KeyedMap<String, MaplibreFeatureSourceLayerData<F>>,
}

/// All features of a map view, by source.
pub struct MaplibreFeatureData<F> {
    pub sources: KeyedMap<String, MaplibreFeatureSourceData<F>>,
}

/// The features of a source layer as nested maps.
pub open spec fn layer_view<F>(l: MaplibreFeatureSourceLayerData<F>) -> LayerFeatures<F> {
    l.tiles@.map_values(|t: KeyedMap<String, F>| t@)
}

/// The features of a source as nested maps.
pub open spec fn source_view<F>(s: MaplibreFeatureSourceData<F>) -> SourceFeatures<F> {
    s.source_layers@.map_values(|l: MaplibreFeatureSourceLayerData<F>| layer_view(l))
}

/// All features as nested maps.
pub open spec fn data_view<F>(d: MaplibreFeatureData<F>) -> FeatureMap<F> {
    d.sources@.map_values(|s: MaplibreFeatureSourceData<F>| source_view(s))
}

/// The value of `k` in `m`, or the empty map.
pub open spec fn get_or_empty<K, L, V>(m: Map<K, Map<L, V>>, k: K) -> Map<L, V> {
    if m.contains_key(k) {
        m[k]
    } else {
        Map::empty()
    }
}

/// The features after adding feature `f` with id `id` of tile `t` of layer `l` of
/// source `s`, containers created as needed and an earlier feature of that id
/// replaced.
pub open spec fn spec_insert_feature<F>(
    d: FeatureMap<F>,
    s: Seq<char>,
    l: Seq<char>,
    t: CanonicalTileId,
    id: Seq<char>,
    f: F,
) -> FeatureMap<F> {
    let src = get_or_empty(d, s);
    let lay = get_or_empty(src, l);
    let tile = get_or_empty(lay, t);
    d.insert(s, src.insert(l, lay.insert(t, tile.insert(id, f))))
}

/// A source layer after removing feature `id` of tile `t`, a tile left without
/// features dropped; and whether the layer is then empty.
pub open spec fn spec_layer_remove<F>(lay: LayerFeatures<F>, t: CanonicalTileId, id: Seq<char>) -> (
    LayerFeatures<F>,
    bool,
) {
    if !lay.contains_key(t) {
        (lay, lay.dom().len() == 0)
    } else {
        let features = lay[t].remove(id);
        let lay2 = if features.dom().len() == 0 {
            lay.remove(t)
        } else {
            lay.insert(t, features)
        };
        (lay2, lay2.dom().len() == 0)
    }
}

/// A source after removing a feature, a layer left empty dropped; and whether the
/// source is then empty.
pub open spec fn spec_source_remove<F>(
    src: SourceFeatures<F>,
    l: Seq<char>,
    t: CanonicalTileId,
    id: Seq<char>,
) -> (SourceFeatures<F>, bool) {
    if !src.contains_key(l) {
        (src, src.dom().len() == 0)
    } else {
        let (lay2, empty) = spec_layer_remove(src[l], t, id);
        let src2 = if empty {
            src.remove(l)
        } else {
            src.insert(l, lay2)
        };
        (src2, src2.dom().len() == 0)
    }
}

/// The features after removing feature `id` of tile `t` of layer `l` of source `s`,
/// containers left empty dropped.
pub open spec fn spec_remove_feature<F>(
    d: FeatureMap<F>,
    s: Seq<char>,
    l: Seq<char>,
    t: CanonicalTileId,
    id: Seq<char>,
) -> FeatureMap<F> {
    if !d.contains_key(s) {
        d
    } else {
        let (src2, empty) = spec_source_remove(d[s], l, t, id);
        if empty {
            d.remove(s)
        } else {
            d.insert(s, src2)
        }
    }
}

proof fn lemma_map_values_dom<K, V, W>(m: Map<K, V>, f: spec_fn(V) -> W)
    requires
        m.dom().finite(),
    ensures
        m.map_values(f).dom() == m.dom(),
        m.map_values(f).dom().finite(),
        m.map_values(f).dom().len() == m.dom().len(),
{
    assert(m.map_values(f).dom() =~= m.dom());
}

impl<F> MaplibreFeatureSourceLayerData<F> {
    /// A layer without features.
    pub fn new() -> (l: Self)
        ensures
            layer_view(l) == Map::<CanonicalTileId, TileFeatures<F>>::empty(),
    {
        let l = MaplibreFeatureSourceLayerData { tiles: KeyedMap::new() };
        assert(layer_view(l) =~= Map::<CanonicalTileId, TileFeatures<F>>::empty());
        l
    }

    fn insert(&mut self, tile_id: CanonicalTileId, feature_id: String, feature: F)
        ensures
            layer_view(*final(self)) == layer_view(*old(self)).insert(
                tile_id,
                get_or_empty(layer_view(*old(self)), tile_id).insert(feature_id@, feature),
            ),
    {
        let mut features = match self.tiles.remove(&tile_id) {
            Some(f) => f,
            None => KeyedMap::new(),
        };
        features.insert(feature_id, feature);
        self.tiles.insert(tile_id, features);
        assert(layer_view(*self) =~= layer_view(*old(self)).insert(
            tile_id,
            get_or_empty(layer_view(*old(self)), tile_id).insert(feature_id@, feature),
        ));
    }

    /// Removes a feature, dropping its tile when it was the tile's last; returns
    /// whether the layer is left without tiles.
    pub fn remove(&mut self, tile_id: &CanonicalTileId, feature_id: &str) -> (empty: bool)
        ensures
            (layer_view(*final(self)), empty) == spec_layer_remove(
                layer_view(*old(self)),
                *tile_id,
                feature_id@,
            ),
    {
        let ghost before = layer_view(*self);
        match self.tiles.remove(tile_id) {
            None => {
                let empty = self.tiles.is_empty();
                proof {
                    assert(layer_view(*self) =~= before);
                    lemma_map_values_dom(self.tiles@, |t: KeyedMap<String, F>| t@);
                }
                empty
            },
            Some(mut features) => {
                let key = feature_id.to_string();
                let _ = features.remove(&key);
                if !features.is_empty() {
                    self.tiles.insert(*tile_id, features);
                }
                let empty = self.tiles.is_empty();
                proof {
                    lemma_map_values_dom(self.tiles@, |t: KeyedMap<String, F>| t@);
                    let (lay2, e) = spec_layer_remove(before, *tile_id, feature_id@);
                    assert(layer_view(*self) =~= lay2);
                }
                empty
            },
        }
    }
}

impl<F> MaplibreFeatureSourceData<F> {
    /// A source without layers.
    pub fn new() -> (s: Self)
        ensures
            source_view(s) == Map::<Seq<char>, LayerFeatures<F>>::empty(),
    {
        let s = MaplibreFeatureSourceData { source_layers: KeyedMap::new() };
        assert(source_view(s) =~= Map::<Seq<char>, LayerFeatures<F>>::empty());
        s
    }

    fn insert(&mut self, source_layer_id: String, tile_id: CanonicalTileId, feature_id: String, feature: F)
        ensures
            source_view(*final(self)) == source_view(*old(self)).insert(
                source_layer_id@,
                get_or_empty(source_view(*old(self)), source_layer_id@).insert(
                    tile_id,
                    get_or_empty(get_or_empty(source_view(*old(self)), source_layer_id@), tile_id).insert(
                        feature_id@,
                        feature,
                    ),
                ),
            ),
    {
        let ghost before = source_view(*self);
        let mut layer = match self.source_layers.remove(&source_layer_id) {
            Some(l) => l,
            None => MaplibreFeatureSourceLayerData::new(),
        };
        assert(layer_view(layer) == get_or_empty(before, source_layer_id@));
        layer.insert(tile_id, feature_id, feature);
        self.source_layers.insert(source_layer_id, layer);
        assert(source_view(*self) =~= before.insert(
            source_layer_id@,
            get_or_empty(before, source_layer_id@).insert(
                tile_id,
                get_or_empty(get_or_empty(before, source_layer_id@), tile_id).insert(feature_id@, feature),
            ),
        ));
    }

    /// Removes a feature, dropping its layer when the layer is left without tiles;
    /// returns whether the source is left without layers.
    pub fn remove(&mut self, source_layer_id: &str, tile_id: &CanonicalTileId, feature_id: &str) -> (empty: bool)
        ensures
            (source_view(*final(self)), empty) == spec_source_remove(
                source_view(*old(self)),
                source_layer_id@,
                *tile_id,
                feature_id@,
            ),
    {
        let ghost before = source_view(*self);
        let key = source_layer_id.to_string();
        match self.source_layers.remove(&key) {
            None => {
                let empty = self.source_layers.is_empty();
                proof {
                    assert(source_view(*self) =~= before);
                    lemma_map_values_dom(self.source_layers@, |l: MaplibreFeatureSourceLayerData<F>| layer_view(l));
                }
                empty
            },
            Some(mut layer) => {
                assert(layer_view(layer) == before[source_layer_id@]);
                let layer_empty = layer.remove(tile_id, feature_id);
                if !layer_empty {
                    self.source_layers.insert(key, layer);
                }
                let empty = self.source_layers.is_empty();
                proof {
                    lemma_map_values_dom(self.source_layers@, |l: MaplibreFeatureSourceLayerData<F>| layer_view(l));
                    let (src2, e) = spec_source_remove(before, source_layer_id@, *tile_id, feature_id@);
                    assert(source_view(*self) =~= src2);
                }
                empty
            },
        }
    }
}

impl<F> MaplibreFeatureData<F> {
    /// A store without features.
    pub fn new() -> (d: Self)
        ensures
            data_view(d) == Map::<Seq<char>, SourceFeatures<F>>::empty(),
    {
        let d = MaplibreFeatureData { sources: KeyedMap::new() };
        assert(data_view(d) =~= Map::<Seq<char>, SourceFeatures<F>>::empty());
        d
    }

    /// Removes feature `feature_id` of tile `tile_id` of layer `source_layer_id` of
    /// source `source_id`, dropping every container it leaves empty.
    pub fn remove(&mut self, source_id: &str, source_layer_id: &str, tile_id: &CanonicalTileId, feature_id: &str)
        ensures
            data_view(*final(self)) == spec_remove_feature(
                data_view(*old(self)),
                source_id@,
                source_layer_id@,
                *tile_id,
                feature_id@,
            ),
    {
        let ghost before = data_view(*self);
        let key = source_id.to_string();
        match self.sources.remove(&key) {
            None => {
                assert(data_view(*self) =~= before);
            },
            Some(mut source) => {
                assert(source_view(source) == before[source_id@]);
                let source_empty = source.remove(source_layer_id, tile_id, feature_id);
                if !source_empty {
                    self.sources.insert(key, source);
                }
                assert(data_view(*self) =~= spec_remove_feature(
                    before,
                    source_id@,
                    source_layer_id@,
                    *tile_id,
                    feature_id@,
                ));
            },
        }
    }
}

impl<G, P> MaplibreFeatureData<SourceLayerFeature<G, P>> {
    /// Adds a feature under its id to tile `tile_id` of layer `source_layer_id` of
    /// source `source_id`, replacing a feature of the same id there.
    pub fn insert(
        &mut self,
        source_id: String,
        source_layer_id: String,
        tile_id: CanonicalTileId,
        feature: SourceLayerFeature<G, P>,
    )
        ensures
            data_view(*final(self)) == spec_insert_feature(
                data_view(*old(self)),
                source_id@,
                source_layer_id@,
                tile_id,
                feature.id@,
                feature,
            ),
    {
        let ghost before = data_view(*self);
        let ghost f = feature;
        let feature_id = feature.id.clone();
        let mut source = match self.sources.remove(&source_id) {
            Some(s) => s,
            None => MaplibreFeatureSourceData::new(),
        };
        assert(source_view(source) == get_or_empty(before, source_id@));
        source.insert(source_layer_id, tile_id, feature_id, feature);
        self.sources.insert(source_id, source);
        assert(data_view(*self) =~= spec_insert_feature(
            before,
            source_id@,
            source_layer_id@,
            tile_id,
            f.id@,
            f,
        ));
    }
}

/// The features after adding each of `features` in turn, under its own id, to tile
/// `t` of layer `l` of source `s`.
pub open spec fn spec_insert_features<G, P>(
    d: FeatureMap<SourceLayerFeature<G, P>>,
    s: Seq<char>,
    l: Seq<char>,
    t: CanonicalTileId,
    features: Seq<SourceLayerFeature<G, P>>,
) -> FeatureMap<SourceLayerFeature<G, P>>
    decreases features.len(),
{
    if features.len() == 0 {
        d
    } else {
        let last = features.last();
        spec_insert_feature(spec_insert_features(d, s, l, t, features.drop_last()), s, l, t, last.id@, last)
    }
}

/// The features after removing each of `ids` in turn from tile `t` of layer `l` of
/// source `s`.
pub open spec fn spec_remove_features<F>(
    d: FeatureMap<F>,
    s: Seq<char>,
    l: Seq<char>,
    t: CanonicalTileId,
    ids: Seq<Seq<char>>,
) -> FeatureMap<F>
    decreases ids.len(),
{
    if ids.len() == 0 {
        d
    } else {
        spec_remove_feature(spec_remove_features(d, s, l, t, ids.drop_last()), s, l, t, ids.last())
    }
}

impl<G, P> MaplibreFeatureData<SourceLayerFeature<G, P>> {
    /// Adds the features of one tile of a source layer.
    pub fn insert_tile_features(
        &mut self,
        source_id: String,
        source_layer_id: String,
        tile_id: CanonicalTileId,
        features: Vec<SourceLayerFeature<G, P>>,
    )
        ensures
            data_view(*final(self)) == spec_insert_features(
                data_view(*old(self)),
                source_id@,
                source_layer_id@,
                tile_id,
                features@,
            ),
    {
        let ghost start = data_view(*self);
        let ghost all = features@;
        let mut rest = features;
        let ghost mut done: Seq<SourceLayerFeature<G, P>> = Seq::empty();
        while rest.len() > 0
            invariant
                done + rest@ == all,
                data_view(*self) == spec_insert_features(start, source_id@, source_layer_id@, tile_id, done),
            decreases rest@.len(),
        {
            let ghost before_rest = rest@;
            let feature = rest.remove(0);
            let ghost f = feature;
            self.insert(source_id.clone(), source_layer_id.clone(), tile_id, feature);
            proof {
                let before_done = done;
                done = done.push(f);
                assert(done.drop_last() =~= before_done);
                assert(done + rest@ =~= before_done + before_rest);
            }
        }
        assert(done =~= all);
    }

    /// Removes the features with the given ids from one tile of a source layer.
    pub fn remove_tile_features(
        &mut self,
        source_id: &str,
        source_layer_id: &str,
        tile_id: &CanonicalTileId,
        feature_ids: &[String],
    )
        ensures
            data_view(*final(self)) == spec_remove_features(
                data_view(*old(self)),
                source_id@,
                source_layer_id@,
                *tile_id,
                feature_ids@.map_values(|id: String| id@),
            ),
    {
        let ghost start = data_view(*self);
        let ghost ids = feature_ids@.map_values(|id: String| id@);
        let mut i: usize = 0;
        while i < feature_ids.len()
            invariant
                i <= feature_ids@.len(),
                ids == feature_ids@.map_values(|id: String| id@),
                data_view(*self) == spec_remove_features(start, source_id@, source_layer_id@, *tile_id, ids.take(i as int)),
            decreases feature_ids@.len() - i,
        {
            self.remove(source_id, source_layer_id, tile_id, feature_ids[i].as_str());
            proof {
                assert(ids.take(i + 1).drop_last() =~= ids.take(i as int));
                assert(ids.take(i + 1).last() == feature_ids@[i as int]@);
            }
            i += 1;
        }
        assert(ids.take(feature_ids@.len() as int) =~= ids);
    }
}

/// Whether every container holds something: each source has a layer, each layer a
/// tile, each tile a feature; all of them finite.
pub open spec fn features_well_formed<F>(d: FeatureMap<F>) -> bool {
    &&& d.dom().finite()
    &&& forall|s: Seq<char>|
        #[trigger] d.contains_key(s) ==> {
            &&& d[s].dom().finite()
            &&& d[s].dom().len() > 0
            &&& forall|l: Seq<char>|
                #[trigger] d[s].contains_key(l) ==> {
                    &&& d[s][l].dom().finite()
                    &&& d[s][l].dom().len() > 0
                    &&& forall|t: CanonicalTileId|
                        #[trigger] d[s][l].contains_key(t) ==> d[s][l][t].dom().finite()
                            && d[s][l][t].dom().len() > 0
                }
        }
}

/// Whether the store holds feature `id` of tile `t` of layer `l` of source `s`.
pub open spec fn holds_feature<F>(d: FeatureMap<F>, s: Seq<char>, l: Seq<char>, t: CanonicalTileId, id: Seq<char>) -> bool {
    d.contains_key(s) && d[s].contains_key(l) && d[s][l].contains_key(t) && d[s][l][t].contains_key(id)
}

/// A feature that was just added is found under its path.
pub proof fn lemma_insert_then_lookup<F>(
    d: FeatureMap<F>,
    s: Seq<char>,
    l: Seq<char>,
    t: CanonicalTileId,
    id: Seq<char>,
    f: F,
)
    ensures
        holds_feature(spec_insert_feature(d, s, l, t, id, f), s, l, t, id),
        spec_insert_feature(d, s, l, t, id, f)[s][l][t][id] == f,
{
}

/// Adding a feature keeps every container non-empty.
pub proof fn lemma_insert_keeps_well_formed<F>(
    d: FeatureMap<F>,
    s: Seq<char>,
    l: Seq<char>,
    t: CanonicalTileId,
    id: Seq<char>,
    f: F,
)
    requires
        features_well_formed(d),
    ensures
        features_well_formed(spec_insert_feature(d, s, l, t, id, f)),
{
    let src = get_or_empty(d, s);
    let lay = get_or_empty(src, l);
    let tile = get_or_empty(lay, t);
    let tile2 = tile.insert(id, f);
    let lay2 = lay.insert(t, tile2);
    let src2 = src.insert(l, lay2);
    assert(tile2.dom().contains(id));
    assert(lay2.dom().contains(t));
    assert(src2.dom().contains(l));
    assert(tile2.dom().len() > 0) by {
        vstd::set_lib::lemma_set_empty_equivalency_len(tile2.dom());
    }
    assert(lay2.dom().len() > 0) by {
        vstd::set_lib::lemma_set_empty_equivalency_len(lay2.dom());
    }
    assert(src2.dom().len() > 0) by {
        vstd::set_lib::lemma_set_empty_equivalency_len(src2.dom());
    }
}

/// Removing a feature keeps every container non-empty.
pub proof fn lemma_remove_keeps_well_formed<F>(
    d: FeatureMap<F>,
    s: Seq<char>,
    l: Seq<char>,
    t: CanonicalTileId,
    id: Seq<char>,
)
    requires
        features_well_formed(d),
    ensures
        features_well_formed(spec_remove_feature(d, s, l, t, id)),
{
    if d.contains_key(s) {
        let src = d[s];
        if src.contains_key(l) {
            let lay = src[l];
            if lay.contains_key(t) {
                let features = lay[t].remove(id);
                let lay2 = if features.dom().len() == 0 {
                    lay.remove(t)
                } else {
                    lay.insert(t, features)
                };
                let src2 = if lay2.dom().len() == 0 {
                    src.remove(l)
                } else {
                    src.insert(l, lay2)
                };
                assert(spec_layer_remove(lay, t, id) == (lay2, lay2.dom().len() == 0));
                assert(spec_source_remove(src, l, t, id) == (src2, src2.dom().len() == 0));
            }
        }
    }
}

/// In a store whose containers are all non-empty, removing a feature that was just
/// added under a new path gives the store back as it was.
pub proof fn lemma_remove_undoes_insert<F>(
    d: FeatureMap<F>,
    s: Seq<char>,
    l: Seq<char>,
    t: CanonicalTileId,
    id: Seq<char>,
    f: F,
)
    requires
        features_well_formed(d),
        !holds_feature(d, s, l, t, id),
    ensures
        spec_remove_feature(spec_insert_feature(d, s, l, t, id, f), s, l, t, id) == d,
{
    let src = get_or_empty(d, s);
    let lay = get_or_empty(src, l);
    let tile = get_or_empty(lay, t);
    let tile2 = tile.insert(id, f);
    let lay2 = lay.insert(t, tile2);
    let src2 = src.insert(l, lay2);
    let d2 = d.insert(s, src2);
    assert(d2[s] == src2);
    assert(src2[l] == lay2);
    assert(lay2[t] == tile2);
    assert(tile2.remove(id) =~= tile);
    if lay.contains_key(t) {
        assert(tile.dom().len() > 0);
        assert(lay2.insert(t, tile) =~= lay);
    } else {
        assert(tile.dom() =~= Set::<Seq<char>>::empty());
        assert(lay2.remove(t) =~= lay);
    }
    let (lay3, lay_empty) = spec_layer_remove(lay2, t, id);
    assert(lay3 =~= lay);
    if src.contains_key(l) {
        assert(lay.dom().len() > 0);
        assert(src2.insert(l, lay) =~= src);
    } else {
        assert(lay.dom() =~= Set::<CanonicalTileId>::empty());
        assert(src2.remove(l) =~= src);
    }
    let (src3, src_empty) = spec_source_remove(src2, l, t, id);
    assert(src3 =~= src);
    if d.contains_key(s) {
        assert(src.dom().len() > 0);
        assert(d2.insert(s, src) =~= d);
    } else {
        assert(src.dom() =~= Set::<Seq<char>>::empty());
        assert(d2.remove(s) =~= d);
    }
}

/// Removing a feature drops exactly that feature: afterwards the store does not hold
/// it, and holds every other feature it held before, unchanged, and no other.
pub proof fn lemma_remove_drops_only_that_feature<F>(
    d: FeatureMap<F>,
    s: Seq<char>,
    l: Seq<char>,
    t: CanonicalTileId,
    id: Seq<char>,
)
    requires
        features_well_formed(d),
    ensures
        !holds_feature(spec_remove_feature(d, s, l, t, id), s, l, t, id),
        forall|s2: Seq<char>, l2: Seq<char>, t2: CanonicalTileId, id2: Seq<char>|
            #![trigger holds_feature(d, s2, l2, t2, id2)]
            #![trigger holds_feature(spec_remove_feature(d, s, l, t, id), s2, l2, t2, id2)]
            !(s2 == s && l2 == l && t2 == t && id2 == id) ==> {
                &&& holds_feature(spec_remove_feature(d, s, l, t, id), s2, l2, t2, id2)
                    <==> holds_feature(d, s2, l2, t2, id2)
                &&& holds_feature(d, s2, l2, t2, id2) ==> spec_remove_feature(d, s, l, t, id)[s2][l2][t2][id2]
                    == d[s2][l2][t2][id2]
            },
{
    let d2 = spec_remove_feature(d, s, l, t, id);
    if d.contains_key(s) && d[s].contains_key(l) && d[s][l].contains_key(t) {
        let src = d[s];
        let lay = src[l];
        let features = lay[t].remove(id);
        let lay2 = if features.dom().len() == 0 {
            lay.remove(t)
        } else {
            lay.insert(t, features)
        };
        let src2 = if lay2.dom().len() == 0 {
            src.remove(l)
        } else {
            src.insert(l, lay2)
        };
        assert(spec_layer_remove(lay, t, id) == (lay2, lay2.dom().len() == 0));
        assert(spec_source_remove(src, l, t, id) == (src2, src2.dom().len() == 0));
        assert(features.dom().finite());
        assert(lay2.dom().finite());
        assert(src2.dom().finite());
        if features.dom().len() == 0 {
            vstd::set_lib::lemma_set_empty_equivalency_len(features.dom());
        }
        if lay2.dom().len() == 0 {
            vstd::set_lib::lemma_set_empty_equivalency_len(lay2.dom());
        }
        if src2.dom().len() == 0 {
            vstd::set_lib::lemma_set_empty_equivalency_len(src2.dom());
        }
        assert forall|s2: Seq<char>, l2: Seq<char>, t2: CanonicalTileId, id2: Seq<char>|
            !(s2 == s && l2 == l && t2 == t && id2 == id) implies {
                &&& #[trigger] holds_feature(d2, s2, l2, t2, id2) <==> holds_feature(d, s2, l2, t2, id2)
                &&& holds_feature(d, s2, l2, t2, id2) ==> d2[s2][l2][t2][id2] == d[s2][l2][t2][id2]
            } by {
            if s2 == s && l2 == l && t2 == t && holds_feature(d, s2, l2, t2, id2) {
                assert(features.contains_key(id2));
            }
            if s2 == s && l2 == l && t2 != t && holds_feature(d, s2, l2, t2, id2) {
                assert(lay2.contains_key(t2));
            }
            if s2 == s && l2 != l && holds_feature(d, s2, l2, t2, id2) {
                assert(src2.contains_key(l2));
            }
        }
    }
}

} // verus!
