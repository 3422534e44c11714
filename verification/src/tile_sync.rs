//! Keeping the tiles a view has spawned in line with the tiles the map reports as
//! active: tiles that are no longer active are despawned, active tiles that have no
//! entity yet are spawned.
use crate::keyed_map::KeyedMap;
use crate::tile::CanonicalTileId;
use vstd::prelude::*;

verus! {

proof fn lemma_take_push_contains(s: Seq<CanonicalTileId>, i: int)
    requires
        0 <= i < s.len(),
    ensures
        forall|t: CanonicalTileId|
            #[trigger] s.take(i + 1).contains(t) <==> s.take(i).contains(t) || t == s[i],
{
    assert forall|t: CanonicalTileId| #[trigger] s.take(i + 1).contains(t) <==> s.take(i).contains(t) || t == s[i] by {
        if s.take(i).contains(t) {
            let x = choose|x: int| 0 <= x < i && #[trigger] s.take(i)[x] == t;
            assert(s.take(i + 1)[x] == t);
        }
        if t == s[i] {
            assert(s.take(i + 1)[i] == t);
        }
        if s.take(i + 1).contains(t) {
            let x = choose|x: int| 0 <= x < i + 1 && #[trigger] s.take(i + 1)[x] == t;
            if x < i {
                assert(s.take(i)[x] == t);
            }
        }
    }
}

proof fn lemma_push_contains(s: Seq<CanonicalTileId>, t: CanonicalTileId)
    ensures
        forall|t2: CanonicalTileId| #[trigger] s.push(t).contains(t2) <==> s.contains(t2) || t2 == t,
{
    assert forall|t2: CanonicalTileId| #[trigger] s.push(t).contains(t2) <==> s.contains(t2) || t2 == t by {
        if s.contains(t2) {
            let x = choose|x: int| 0 <= x < s.len() && #[trigger] s[x] == t2;
            assert(s.push(t)[x] == t2);
        }
        if t2 == t {
            assert(s.push(t)[s.len() as int] == t);
        }
        if s.push(t).contains(t2) {
            let x = choose|x: int| 0 <= x < s.len() + 1 && #[trigger] s.push(t)[x] == t2;
            if x < s.len() {
                assert(s[x] == t2);
            }
        }
    }
}

/// What to do to bring the spawned tiles in line with the active ones.
pub struct TileSyncPlan<E> {
    /// The tiles that are no longer active, with the entities to despawn.
    pub stale: Vec<(CanonicalTileId, E)>,
    /// The active tiles that have no entity yet, each once.
    pub missing: Vec<CanonicalTileId>,
}

/// Whether no tile occurs twice.
pub open spec fn tiles_distinct(tiles: Seq<CanonicalTileId>) -> bool {
    forall|i: int, j: int| 0 <= i < j < tiles.len() ==> tiles[i] != tiles[j]
}

/// Removes the tiles that are not in `active` from `spawned`, and lists them and the
/// active tiles that `spawned` lacks.
pub fn reconcile_spawned_tiles<E>(spawned: &mut KeyedMap<CanonicalTileId, E>, active: &[CanonicalTileId]) -> (plan: TileSyncPlan<E>)
    ensures
        final(spawned)@ == old(spawned)@.restrict(active@.to_set()),
        tiles_distinct(plan.stale@.map_values(|p: (CanonicalTileId, E)| p.0)),
        forall|i: int|
            0 <= i < plan.stale@.len() ==> {
                let (t, e) = #[trigger] plan.stale@[i];
                &&& old(spawned)@.contains_key(t)
                &&& old(spawned)@[t] == e
                &&& !active@.contains(t)
            },
        forall|t: CanonicalTileId|
            old(spawned)@.contains_key(t) && !active@.contains(t) ==> exists|i: int|
                0 <= i < plan.stale@.len() && (#[trigger] plan.stale@[i]).0 == t,
        tiles_distinct(plan.missing@),
        forall|t: CanonicalTileId|
            #[trigger] plan.missing@.contains(t) <==> (active@.contains(t) && !old(spawned)@.contains_key(t)),
{
    let ghost start = spawned@;
    let mut keys: Vec<CanonicalTileId> = Vec::new();
    {
        let entries = spawned.entries();
        proof {
            crate::keyed_map::lemma_entries_map_facts(entries@);
        }
        let mut i: usize = 0;
        while i < entries.len()
            invariant
                crate::keyed_map::entries_map(entries@) == start,
                crate::keyed_map::keys_distinct(entries@),
                i <= entries@.len(),
                keys@.len() == i,
                forall|j: int| 0 <= j < i ==> #[trigger] keys@[j] == entries@[j].0,
            decreases entries@.len() - i,
        {
            keys.push(entries[i].0);
            i += 1;
        }
        proof {
            assert forall|t: CanonicalTileId| start.contains_key(t) implies keys@.contains(t) by {
                let j = choose|j: int| 0 <= j < entries@.len() && (#[trigger] entries@[j]).0@ == t;
                assert(keys@[j] == t);
            }
            assert forall|j: int| 0 <= j < keys@.len() implies start.contains_key(#[trigger] keys@[j]) by {
                assert(keys@[j] == entries@[j].0);
            }
            assert(tiles_distinct(keys@)) by {
                assert forall|x: int, y: int| 0 <= x < y < keys@.len() implies keys@[x] != keys@[y] by {
                    assert(keys@[x] == entries@[x].0 && keys@[y] == entries@[y].0);
                }
            }
        }
    }
    let mut stale: Vec<(CanonicalTileId, E)> = Vec::new();
    let mut i: usize = 0;
    while i < keys.len()
        invariant
            i <= keys@.len(),
            tiles_distinct(keys@),
            forall|t: CanonicalTileId| start.contains_key(t) ==> #[trigger] keys@.contains(t),
            forall|j: int| 0 <= j < keys@.len() ==> start.contains_key(#[trigger] keys@[j]),
            forall|t: CanonicalTileId|
                #[trigger] spawned@.contains_key(t) <==> start.contains_key(t) && (active@.contains(t)
                    || !keys@.take(i as int).contains(t)),
            forall|t: CanonicalTileId| #[trigger] spawned@.contains_key(t) ==> spawned@[t] == start[t],
            tiles_distinct(stale@.map_values(|p: (CanonicalTileId, E)| p.0)),
            forall|j: int|
                0 <= j < stale@.len() ==> {
                    let (t, e) = #[trigger] stale@[j];
                    &&& start.contains_key(t)
                    &&& start[t] == e
                    &&& !active@.contains(t)
                    &&& keys@.take(i as int).contains(t)
                },
            forall|t: CanonicalTileId|
                #[trigger] keys@.take(i as int).contains(t) && !active@.contains(t) ==> exists|j: int|
                    0 <= j < stale@.len() && (#[trigger] stale@[j]).0 == t,
        decreases keys@.len() - i,
    {
        let t = keys[i];
        proof {
            lemma_take_push_contains(keys@, i as int);
            assert(!keys@.take(i as int).contains(t)) by {
                if keys@.take(i as int).contains(t) {
                    let x = choose|x: int| 0 <= x < i && keys@.take(i as int)[x] == t;
                    assert(keys@[x] == keys@[i as int]);
                }
            }
            assert(start.contains_key(t));
        }
        let ghost stale_before = stale@;
        if !contains_tile(active, &t) {
            let ghost before = stale@;
            match spawned.remove(&t) {
                Some(e) => {
                    stale.push((t, e));
                    proof {
                        let ks = stale@.map_values(|p: (CanonicalTileId, E)| p.0);
                        assert(ks =~= before.map_values(|p: (CanonicalTileId, E)| p.0).push(t));
                        assert forall|x: int, y: int| 0 <= x < y < ks.len() implies ks[x] != ks[y] by {
                            if y == ks.len() - 1 {
                                assert(keys@.take(i as int).contains(before[x].0));
                            }
                        }
                    }
                },
                None => {
                    assert(false);
                },
            }
        }
        proof {
            assert forall|t2: CanonicalTileId|
                #[trigger] keys@.take(i + 1).contains(t2) && !active@.contains(t2) implies exists|j: int|
                0 <= j < stale@.len() && (#[trigger] stale@[j]).0 == t2 by {
                if t2 == t {
                    assert(stale@[stale@.len() - 1].0 == t);
                } else {
                    assert(keys@.take(i as int).contains(t2));
                    let j = choose|j: int| 0 <= j < stale_before.len() && (#[trigger] stale_before[j]).0 == t2;
                    assert(stale@[j] == stale_before[j]);
                }
            }
        }
        i += 1;
    }
    proof {
        assert(keys@.take(keys@.len() as int) =~= keys@);
        assert(spawned@ =~= start.restrict(active@.to_set()));
        assert forall|t: CanonicalTileId| start.contains_key(t) && !active@.contains(t) implies exists|j: int|
            0 <= j < stale@.len() && (#[trigger] stale@[j]).0 == t by {
            assert(keys@.contains(t));
            assert(keys@.take(keys@.len() as int).contains(t));
        }
    }
    let mut missing: Vec<CanonicalTileId> = Vec::new();
    let mut a: usize = 0;
    while a < active.len()
        invariant
            a <= active@.len(),
            spawned@ == start.restrict(active@.to_set()),
            tiles_distinct(missing@),
            forall|t: CanonicalTileId|
                #[trigger] missing@.contains(t) <==> (active@.take(a as int).contains(t) && !start.contains_key(t)),
        decreases active@.len() - a,
    {
        let t = active[a];
        proof {
            lemma_take_push_contains(active@, a as int);
            assert(active@.contains(t));
            assert(active@.to_set().contains(t));
        }
        let present = spawned.get(&t).is_some();
        proof {
            lemma_push_contains(missing@, t);
        }
        if !present && !contains_tile(missing.as_slice(), &t) {
            proof {
                assert forall|x: int, y: int| 0 <= x < y < missing@.push(t).len() implies missing@.push(t)[x]
                    != missing@.push(t)[y] by {
                    if y == missing@.len() {
                        assert(missing@.contains(missing@[x]));
                    }
                }
            }
            missing.push(t);
        }
        a += 1;
    }
    assert(active@.take(active@.len() as int) =~= active@);
    TileSyncPlan { stale, missing }
}

/// After a plan is carried out (its stale tiles despawned, its missing tiles spawned),
/// the spawned tiles are exactly the active ones.
pub proof fn lemma_plan_makes_spawned_active<E>(
    start: Map<CanonicalTileId, E>,
    active: Seq<CanonicalTileId>,
    missing: Seq<CanonicalTileId>,
)
    requires
        forall|t: CanonicalTileId|
            #[trigger] missing.contains(t) <==> (active.contains(t) && !start.contains_key(t)),
    ensures
        start.restrict(active.to_set()).dom() + missing.to_set() == active.to_set(),
{
    assert(start.restrict(active.to_set()).dom() + missing.to_set() =~= active.to_set());
}

/// Whether `tiles` holds `t`.
pub fn contains_tile(tiles: &[CanonicalTileId], t: &CanonicalTileId) -> (r: bool)
    ensures
        r == tiles@.contains(*t),
{
    let mut i: usize = 0;
    while i < tiles.len()
        invariant
            i <= tiles@.len(),
            forall|j: int| 0 <= j < i ==> tiles@[j] != *t,
        decreases tiles@.len() - i,
    {
        if tiles[i].z == t.z && tiles[i].x == t.x && tiles[i].y == t.y {
            assert(tiles@[i as int] == *t);
            return true;
        }
        i += 1;
    }
    false
}

} // verus!
