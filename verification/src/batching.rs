//! Batching of draw calls: sprites are grouped by texture so that each
//! texture is bound once, and every group of quads is drawn from one index
//! list of two triangles per quad.

use vstd::prelude::*;
use rustc_hash::FxHashMap;

verus! {

#[verifier::external_type_specification]
#[verifier::external_body]
pub struct ExFxBuildHasher(rustc_hash::FxBuildHasher);

/// Sprite positions grouped by texture.
pub type BatchMap = FxHashMap<u32, Vec<usize>>;

/// Index `k` of the index list of consecutive quads: quad `k / 6` uses
/// vertices `4q .. 4q + 3` as the triangles (0, 1, 2) and (2, 3, 0).
pub open spec fn quad_index(k: int) -> int {
    let q = k / 6;
    let r = k % 6;
    4 * q + if r == 0 || r == 5 {
        0int
    } else if r == 1 {
        1
    } else if r == 2 || r == 3 {
        2
    } else {
        3
    }
}

/// The element indices for `quads` quads whose vertices are stored four per
/// quad (bottom-left, bottom-right, top-right, top-left).
pub fn quad_indices(quads: usize) -> (v: Vec<i32>)
    requires
        4 * quads <= i32::MAX,
    ensures
        v.len() == 6 * quads,
        forall|k: int| 0 <= k < v.len() ==> #[trigger] v@[k] == quad_index(k),
{
    let mut indices: Vec<i32> = Vec::new();
    let mut index_offset: i32 = 0;
    let mut q: usize = 0;
    while q < quads
        invariant
            4 * quads <= i32::MAX,
            q <= quads,
            index_offset == 4 * q,
            indices.len() == 6 * q,
            forall|k: int| 0 <= k < indices.len() ==> #[trigger] indices@[k] == quad_index(k),
        decreases quads - q,
    {
        let ghost before = indices@;
        indices.push(index_offset);
        indices.push(index_offset + 1);
        indices.push(index_offset + 2);
        indices.push(index_offset + 2);
        indices.push(index_offset + 3);
        indices.push(index_offset);
        assert forall|k: int| 0 <= k < indices.len() implies #[trigger] indices@[k] == quad_index(
            k,
        ) by {
            if k >= 6 * q {
                assert(k / 6 == q);
            } else {
                assert(indices@[k] == before[k]);
            }
        }
        index_offset = index_offset + 4;
        q = q + 1;
    }
    indices
}

/// The positions in `textures` that hold `key`, in increasing order.
pub open spec fn indices_of(textures: Seq<u32>, key: u32) -> Seq<usize>
    decreases textures.len(),
{
    if textures.len() == 0 {
        Seq::empty()
    } else {
        let before = indices_of(textures.drop_last(), key);
        if textures.last() == key {
            before.push((textures.len() - 1) as usize)
        } else {
            before
        }
    }
}

/// The batches as a map from texture to the positions of its sprites.
pub open spec fn spec_batches(textures: Seq<u32>) -> Map<u32, Seq<usize>>
    decreases textures.len(),
{
    if textures.len() == 0 {
        Map::empty()
    } else {
        spec_batches(textures.drop_last()).insert(
            textures.last(),
            indices_of(textures, textures.last()),
        )
    }
}

/// What a batch map holds: each texture's list of sprite positions.
pub uninterp spec fn batch_contents(m: BatchMap) -> Map<u32, Seq<usize>>;

/// `FxHashMap::default` (a `std` `HashMap` with `rustc_hash`'s hasher).
/// Claimed: the new map is empty.
#[verifier::external_body]
fn new_batch_map() -> (fresh: BatchMap)
    ensures
        batch_contents(fresh) =~= Map::empty(),
{
    BatchMap::default()
}

/// `HashMap::remove` on the batch map. Claimed, as its documentation says:
/// the entry for `key` is gone afterwards and its list is returned, or
/// `None` when there was none.
#[verifier::external_body]
fn take_batch(m: &mut BatchMap, key: u32) -> (res: Option<Vec<usize>>)
    ensures
        batch_contents(*final(m)) == batch_contents(*old(m)).remove(key),
        batch_contents(*old(m)).contains_key(key) <==> res is Some,
        res matches Some(v) ==> v@ == batch_contents(*old(m))[key],
{
    m.remove(&key)
}

/// `HashMap::insert` on the batch map. Claimed, as its documentation says:
/// afterwards `key` maps to `batch` and every other entry is unchanged.
#[verifier::external_body]
fn put_batch(m: &mut BatchMap, key: u32, batch: Vec<usize>)
    ensures
        batch_contents(*final(m)) == batch_contents(*old(m)).insert(key, batch@),
{
    m.insert(key, batch);
}

/// `HashMap::into_iter`, collected into a vector. Claimed: every entry comes
/// out exactly once, in an order the hasher decides.
#[verifier::external_body]
fn batch_list(m: BatchMap) -> (v: Vec<(u32, Vec<usize>)>)
    ensures
        forall|i: int, j: int|
            0 <= i < v.len() && 0 <= j < v.len() && i != j ==> (#[trigger] v@[i]).0 != (
            #[trigger] v@[j]).0,
        forall|i: int|
            0 <= i < v.len() ==> batch_contents(m).contains_key((#[trigger] v@[i]).0)
                && batch_contents(m)[v@[i].0] == v@[i].1@,
        forall|k: u32|
            batch_contents(m).contains_key(k) ==> exists|i: int|
                0 <= i < v.len() && (#[trigger] v@[i]).0 == k,
{
    m.into_iter().collect()
}

proof fn lemma_batches_step(textures: Seq<u32>, n: int)
    requires
        0 <= n < textures.len(),
    ensures
        spec_batches(textures.take(n + 1)) == spec_batches(textures.take(n)).insert(
            textures[n],
            (if spec_batches(textures.take(n)).contains_key(textures[n]) {
                spec_batches(textures.take(n))[textures[n]]
            } else {
                Seq::<usize>::empty()
            }).push(n as usize),
        ),
{
    let s = textures.take(n + 1);
    assert(s.drop_last() =~= textures.take(n));
    lemma_batches_are_indices(textures.take(n));
    lemma_batches_are_indices(s);
    if !spec_batches(textures.take(n)).contains_key(textures[n]) {
        lemma_indices_of_absent(textures.take(n), textures[n]);
    }
}

/// `key` occurs nowhere in `textures` exactly when it has no positions.
proof fn lemma_indices_of_absent(textures: Seq<u32>, key: u32)
    requires
        !textures.contains(key),
    ensures
        indices_of(textures, key) == Seq::<usize>::empty(),
    decreases textures.len(),
{
    if textures.len() > 0 {
        assert(!textures.drop_last().contains(key)) by {
            if textures.drop_last().contains(key) {
                let j = choose|j: int| 0 <= j < textures.drop_last().len() && textures.drop_last()[j] == key;
                assert(textures[j] == key);
            }
        }
        lemma_indices_of_absent(textures.drop_last(), key);
        assert(textures.last() != key) by {
            if textures.last() == key {
                assert(textures[textures.len() - 1] == key);
            }
        }
    }
}

/// The batch map has an entry exactly for each texture that occurs, holding
/// that texture's positions.
pub proof fn lemma_batches_are_indices(textures: Seq<u32>)
    ensures
        forall|k: u32| #[trigger]
            spec_batches(textures).contains_key(k) <==> textures.contains(k),
        forall|k: u32|
            spec_batches(textures).contains_key(k) ==> #[trigger] spec_batches(textures)[k]
                == indices_of(textures, k),
    decreases textures.len(),
{
    if textures.len() > 0 {
        let init = textures.drop_last();
        let last = textures.last();
        lemma_batches_are_indices(init);
        assert(spec_batches(textures) == spec_batches(init).insert(
            last,
            indices_of(textures, last),
        ));
        assert forall|k: u32| #[trigger]
            spec_batches(textures).contains_key(k) <==> textures.contains(k) by {
            assert(spec_batches(init).contains_key(k) <==> init.contains(k));
            if textures.contains(k) && k != last {
                let j = choose|j: int| 0 <= j < textures.len() && textures[j] == k;
                assert(j != textures.len() - 1);
                assert(init[j] == k);
            }
            if init.contains(k) {
                let j = choose|j: int| 0 <= j < init.len() && init[j] == k;
                assert(textures[j] == k);
            }
            if k == last {
                assert(textures[textures.len() - 1] == k);
            }
        }
        assert forall|k: u32|
            spec_batches(textures).contains_key(k) implies #[trigger] spec_batches(textures)[k]
            == indices_of(textures, k) by {
            if k != last {
                assert(spec_batches(init).contains_key(k));
                assert(spec_batches(init)[k] == indices_of(init, k));
                assert(indices_of(textures, k) == indices_of(init, k));
            }
        }
    }
}

/// Every position listed under `key` holds `key`, the positions increase,
/// and every position that holds `key` is listed.
pub proof fn lemma_indices_of_exact(textures: Seq<u32>, key: u32)
    requires
        textures.len() <= usize::MAX,
    ensures
        forall|i: int|
            0 <= i < indices_of(textures, key).len() ==> {
                let p = #[trigger] indices_of(textures, key)[i] as int;
                0 <= p < textures.len() && textures[p] == key
            },
        forall|i: int, j: int|
            0 <= i < j < indices_of(textures, key).len() ==> #[trigger] indices_of(
                textures,
                key,
            )[i] < #[trigger] indices_of(textures, key)[j],
        forall|p: int|
            0 <= p < textures.len() && textures[p] == key ==> #[trigger] indices_of(
                textures,
                key,
            ).contains(p as usize),
    decreases textures.len(),
{
    if textures.len() > 0 {
        let init = textures.drop_last();
        lemma_indices_of_exact(init, key);
        let before = indices_of(init, key);
        let all = indices_of(textures, key);
        let n = textures.len() - 1;
        assert(all == if textures.last() == key {
            before.push(n as usize)
        } else {
            before
        });
        assert forall|i: int| 0 <= i < all.len() implies {
            let p = #[trigger] all[i] as int;
            0 <= p < textures.len() && textures[p] == key
        } by {
            if i < before.len() {
                assert(all[i] == before[i]);
                let p = before[i] as int;
                assert(0 <= p < init.len() && init[p] == key);
            }
        }
        assert forall|i: int, j: int| 0 <= i < j < all.len() implies #[trigger] all[i]
            < #[trigger] all[j] by {
            if j < before.len() {
                assert(before[i] < before[j]);
            } else {
                assert(all[i] == before[i]);
                let p = before[i] as int;
                assert(0 <= p < init.len());
            }
        }
        assert forall|p: int| 0 <= p < textures.len() && textures[p] == key implies #[trigger] all.contains(
            p as usize,
        ) by {
            if p < n {
                assert(init[p] == key);
                assert(before.contains(p as usize));
                let i = choose|i: int| 0 <= i < before.len() && before[i] == p as usize;
                assert(all[i] == p as usize);
            } else {
                assert(all[before.len() as int] == p as usize);
            }
        }
    }
}

/// Groups the sprites (given by their textures, in drawing order) by
/// texture: each texture that occurs gets exactly one batch, listing the
/// positions of its sprites in increasing order. The order of the batches
/// is the batch map's.
pub fn batch_by_texture(textures: &Vec<u32>) -> (batches: Vec<(u32, Vec<usize>)>)
    ensures
        forall|i: int, j: int|
            0 <= i < batches.len() && 0 <= j < batches.len() && i != j ==> (
            #[trigger] batches@[i]).0 != (#[trigger] batches@[j]).0,
        forall|i: int|
            0 <= i < batches.len() ==> (#[trigger] batches@[i]).1@ == indices_of(
                textures@,
                batches@[i].0,
            ) && textures@.contains(batches@[i].0),
        forall|p: int|
            0 <= p < textures.len() ==> exists|i: int|
                0 <= i < batches.len() && (#[trigger] batches@[i]).0 == #[trigger] textures@[p],
{
    let mut map = new_batch_map();
    let n = textures.len();
    for i in 0..n
        invariant
            n == textures.len(),
            batch_contents(map) == spec_batches(textures@.take(i as int)),
    {
        let key = textures[i];
        let mut group = match take_batch(&mut map, key) {
            Some(g) => g,
            None => Vec::new(),
        };
        group.push(i);
        put_batch(&mut map, key, group);
        proof {
            lemma_batches_step(textures@, i as int);
            assert(batch_contents(map) =~= spec_batches(textures@.take(i + 1)));
        }
    }
    proof {
        assert(textures@.take(n as int) =~= textures@);
        lemma_batches_are_indices(textures@);
    }
    let batches = batch_list(map);
    proof {
        assert forall|p: int| 0 <= p < textures.len() implies exists|i: int|
            0 <= i < batches.len() && (#[trigger] batches@[i]).0 == #[trigger] textures@[p] by {
            assert(textures@.contains(textures@[p]));
            assert(batch_contents(map).contains_key(textures@[p]));
        }
    }
    batches
}

} // verus!
