//! The frame driver's texture table: atlas textures owned by the
//! backend, keyed by the toolkit's texture identifier, brought up to
//! date once per frame from a set of frees and a set of create-or-update
//! deltas.
//!
//! The table itself never talks to the driver: freeing or rebuilding a
//! texture yields the GPU handles the caller must delete.

use vstd::prelude::*;

use crate::texture::ImageDeltaData;
use crate::texture::TextureRGBA8;
use crate::texture::flipped_rows;
use crate::texture::patched;
use std::collections::HashMap;

verus! {

broadcast use vstd::std_specs::hash::group_hash_axioms;

/// One frame's texture changes: identifiers to free, and identifier /
/// delta pairs to create or update, applied in that order.
pub struct TexturesDeltaData {
    pub free: Vec<u64>,
    pub set: Vec<(u64, ImageDeltaData)>,
}

/// Why one create-or-update entry was rejected.
#[derive(Clone, Copy, Debug, PartialEq, Eq, Structural)]
pub enum DeltaError {
    /// A partial delta names an identifier the table does not hold: a
    /// sub-rectangle cannot establish an initial image.
    CreateFromPartial,
    /// A partial delta's target rectangle reaches outside the stored
    /// image: the atlas tracking is desynchronized.
    PatchOutOfBounds,
}

/// The table map after the first `n` frees.
pub open spec fn map_after_frees(
    m0: Map<u64, TextureRGBA8>,
    free: Seq<u64>,
    n: int,
) -> Map<u64, TextureRGBA8>
    decreases n,
{
    if n <= 0 {
        m0
    } else {
        map_after_frees(m0, free, n - 1).remove(free[n - 1])
    }
}

/// The GPU handles the first `n` frees give up, in free-list order.
pub open spec fn freed_from_frees(m0: Map<u64, TextureRGBA8>, free: Seq<u64>, n: int) -> Seq<u32>
    decreases n,
{
    if n <= 0 {
        Seq::empty()
    } else {
        let s = freed_from_frees(m0, free, n - 1);
        let id = free[n - 1];
        if m0.contains_key(id) && m0[id].spec_handle() is Some {
            s.push(m0[id].spec_handle().unwrap())
        } else {
            s
        }
    }
}

/// A partial delta applies to the image it targets.
pub open spec fn entry_fits(m1: Map<u64, TextureRGBA8>, id: u64, d: ImageDeltaData) -> bool {
    m1.contains_key(id) && d.fits_in(m1[id].spec_width() as int, m1[id].spec_height() as int)
}

/// The GPU handles the first `n` create-or-update entries give up (a
/// rebuilt or patched texture abandons its stale resource), in entry
/// order. `m1` is the table after the frees.
pub open spec fn freed_from_sets(
    m1: Map<u64, TextureRGBA8>,
    set: Seq<(u64, ImageDeltaData)>,
    n: int,
) -> Seq<u32>
    decreases n,
{
    if n <= 0 {
        Seq::empty()
    } else {
        let s = freed_from_sets(m1, set, n - 1);
        let id = set[n - 1].0;
        let d = set[n - 1].1;
        if m1.contains_key(id) && (d.spec_is_whole() || entry_fits(m1, id, d)) && m1[
            id
        ].spec_handle() is Some {
            s.push(m1[id].spec_handle().unwrap())
        } else {
            s
        }
    }
}

/// The rejections among the first `n` create-or-update entries, each
/// with its position in the set list.
pub open spec fn set_errors_upto(
    m1: Map<u64, TextureRGBA8>,
    set: Seq<(u64, ImageDeltaData)>,
    n: int,
) -> Seq<(usize, DeltaError)>
    decreases n,
{
    if n <= 0 {
        Seq::empty()
    } else {
        let s = set_errors_upto(m1, set, n - 1);
        let id = set[n - 1].0;
        let d = set[n - 1].1;
        if d.spec_is_whole() {
            s
        } else if !m1.contains_key(id) {
            s.push((((n - 1) as usize), DeltaError::CreateFromPartial))
        } else if !entry_fits(m1, id, d) {
            s.push((((n - 1) as usize), DeltaError::PatchOutOfBounds))
        } else {
            s
        }
    }
}

/// `t` is the texture a whole delta builds: the delta's image with its
/// top-down rows reversed into bottom-up storage, no GPU resource.
pub open spec fn fresh_from(t: TextureRGBA8, d: ImageDeltaData) -> bool {
    &&& t.wf()
    &&& t.spec_width() == d.width
    &&& t.spec_height() == d.height
    &&& t.spec_pixels() == flipped_rows(d.pixels@, d.width as int, d.height as int)
    &&& t.spec_options() == d.options
    &&& t.spec_handle() is None
}

/// `t` is `t0` with the partial delta's rectangle overwritten and the
/// stale GPU resource given up.
pub open spec fn patched_from(t: TextureRGBA8, t0: TextureRGBA8, d: ImageDeltaData) -> bool {
    &&& t.wf()
    &&& t.spec_width() == t0.spec_width()
    &&& t.spec_height() == t0.spec_height()
    &&& t.spec_options() == t0.spec_options()
    &&& t.spec_handle() is None
    &&& d.pos matches Some(anchor) && t.spec_pixels() == patched(
        t0.spec_pixels(),
        t0.spec_width() as int,
        t0.spec_height() as int,
        anchor.0 as int,
        anchor.1 as int,
        d.width as int,
        d.height as int,
        d.pixels@,
    )
}

/// What one create-or-update entry left at its identifier: a whole
/// delta always (re)builds the texture; a fitting partial delta patches
/// it; a partial delta that does not fit leaves the texture untouched;
/// a partial delta for an absent identifier leaves it absent.
pub open spec fn entry_applied(
    m1: Map<u64, TextureRGBA8>,
    m: Map<u64, TextureRGBA8>,
    id: u64,
    d: ImageDeltaData,
) -> bool {
    if d.spec_is_whole() {
        &&& m.contains_key(id)
        &&& fresh_from(m[id], d)
    } else if entry_fits(m1, id, d) {
        &&& m.contains_key(id)
        &&& patched_from(m[id], m1[id], d)
    } else if m1.contains_key(id) {
        &&& m.contains_key(id)
        &&& m[id] == m1[id]
    } else {
        !m.contains_key(id)
    }
}

/// No entry among the first `n` targets `id`.
pub open spec fn untouched_by_sets(set: Seq<(u64, ImageDeltaData)>, n: int, id: u64) -> bool {
    forall|j: int| 0 <= j < n ==> (#[trigger] set[j].0) != id
}

/// The table `m` is `m1` with the first `n` create-or-update entries
/// applied: each targeted identifier holds its entry's outcome, every
/// other identifier is exactly as in `m1`.
pub open spec fn sets_applied(
    m1: Map<u64, TextureRGBA8>,
    set: Seq<(u64, ImageDeltaData)>,
    n: int,
    m: Map<u64, TextureRGBA8>,
) -> bool {
    &&& forall|k: int| 0 <= k < n ==> entry_applied(m1, m, (#[trigger] set[k]).0, set[k].1)
    &&& forall|id: u64|
        #[trigger] untouched_by_sets(set, n, id) ==> (m.contains_key(id) <==> m1.contains_key(id))
            && (m1.contains_key(id) ==> m[id] == m1[id])
}

/// The whole effect of one frame's deltas on the table: frees first,
/// then the create-or-update entries in order; `freed` lists every GPU
/// handle given up, frees first, then entries, each in order; `errors`
/// lists the rejected entries.
pub open spec fn deltas_applied(
    m0: Map<u64, TextureRGBA8>,
    free: Seq<u64>,
    set: Seq<(u64, ImageDeltaData)>,
    m: Map<u64, TextureRGBA8>,
    freed: Seq<u32>,
    errors: Seq<(usize, DeltaError)>,
) -> bool {
    let m1 = map_after_frees(m0, free, free.len() as int);
    &&& sets_applied(m1, set, set.len() as int, m)
    &&& freed == freed_from_frees(m0, free, free.len() as int) + freed_from_sets(
        m1,
        set,
        set.len() as int,
    )
    &&& errors == set_errors_upto(m1, set, set.len() as int)
}

/// A lookup in the table after some frees: an identifier no processed
/// free names is present exactly as it was at the start.
proof fn lemma_map_after_frees_lookup(
    m0: Map<u64, TextureRGBA8>,
    free: Seq<u64>,
    n: int,
    id: u64,
)
    requires
        0 <= n <= free.len(),
        forall|j: int| 0 <= j < n ==> free[j] != id,
    ensures
        map_after_frees(m0, free, n).contains_key(id) == m0.contains_key(id),
        m0.contains_key(id) ==> map_after_frees(m0, free, n)[id] == m0[id],
    decreases n,
{
    if n > 0 {
        lemma_map_after_frees_lookup(m0, free, n - 1, id);
    }
}

/// Apply one frame's texture deltas: free the named textures, then
/// create or update from each delta in order. Returns the GPU handles
/// the caller must delete and the entries that were rejected.
/// Identifiers must be named at most once per list — the toolkit sends
/// one delta per texture per frame.
pub fn apply_texture_deltas(
    table: &mut HashMap<u64, TextureRGBA8>,
    deltas: &TexturesDeltaData,
) -> (r: (Vec<u32>, Vec<(usize, DeltaError)>))
    requires
        forall|id: u64|
            #[trigger] old(table)@.contains_key(id) ==> old(table)@[id].wf(),
        forall|k: int| 0 <= k < deltas.set@.len() ==> (#[trigger] deltas.set@[k]).1.valid(),
        forall|a: int, b: int|
            0 <= a < b < deltas.set@.len() ==> (#[trigger] deltas.set@[a].0) != (
            #[trigger] deltas.set@[b].0),
        forall|a: int, b: int|
            0 <= a < b < deltas.free@.len() ==> (#[trigger] deltas.free@[a]) != (
            #[trigger] deltas.free@[b]),
    ensures
        deltas_applied(old(table)@, deltas.free@, deltas.set@, final(table)@, r.0@, r.1@),
        forall|id: u64| #[trigger] final(table)@.contains_key(id) ==> final(table)@[id].wf(),
{
    let ghost m0 = table@;
    let mut freed: Vec<u32> = Vec::new();
    let mut i: usize = 0;
    while i < deltas.free.len()
        invariant
            i <= deltas.free@.len(),
            forall|a: int, b: int|
                0 <= a < b < deltas.free@.len() ==> (#[trigger] deltas.free@[a]) != (
                #[trigger] deltas.free@[b]),
            table@ == map_after_frees(m0, deltas.free@, i as int),
            freed@ == freed_from_frees(m0, deltas.free@, i as int),
            forall|id: u64| #[trigger] m0.contains_key(id) ==> m0[id].wf(),
            forall|id: u64| #[trigger] table@.contains_key(id) ==> table@[id].wf(),
        decreases deltas.free@.len() - i,
    {
        let id = deltas.free[i];
        proof {
            lemma_map_after_frees_lookup(m0, deltas.free@, i as int, id);
        }
        match table.remove(&id) {
            Some(t) => {
                match t.handle() {
                    Some(h) => freed.push(h),
                    None => {},
                }
            },
            None => {},
        }
        i = i + 1;
    }
    let ghost m1 = table@;
    let ghost setseq = deltas.set@;
    let mut errors: Vec<(usize, DeltaError)> = Vec::new();
    let ghost freed_prefix = freed@;
    let mut k: usize = 0;
    while k < deltas.set.len()
        invariant
            k <= setseq.len(),
            setseq == deltas.set@,
            forall|j: int| 0 <= j < setseq.len() ==> (#[trigger] setseq[j]).1.valid(),
            forall|a: int, b: int|
                0 <= a < b < setseq.len() ==> (#[trigger] setseq[a].0) != (#[trigger] setseq[b].0),
            forall|id: u64| #[trigger] m1.contains_key(id) ==> m1[id].wf(),
            forall|id: u64| #[trigger] table@.contains_key(id) ==> table@[id].wf(),
            forall|j: int| 0 <= j < k ==> entry_applied(m1, table@, (#[trigger] setseq[j]).0, setseq[j].1),
            forall|id: u64|
                #[trigger] untouched_by_sets(setseq, k as int, id) ==> (table@.contains_key(id)
                    <==> m1.contains_key(id)) && (m1.contains_key(id) ==> table@[id] == m1[id]),
            freed@ == freed_prefix + freed_from_sets(m1, setseq, k as int),
            errors@ == set_errors_upto(m1, setseq, k as int),
        decreases setseq.len() - k,
    {
        let entry = &deltas.set[k];
        let id = entry.0;
        let d = &entry.1;
        proof {
            assert(untouched_by_sets(setseq, k as int, id));
            assert(table@.contains_key(id) <==> m1.contains_key(id));
        }
        if d.is_whole() {
            match table.remove(&id) {
                Some(t) => {
                    match t.handle() {
                        Some(h) => freed.push(h),
                        None => {},
                    }
                },
                None => {},
            }
            let fresh = TextureRGBA8::from_delta(d);
            match fresh {
                Some(t) => {
                    table.insert(id, t);
                },
                None => {
                    // Unreachable: a whole delta always builds a texture.
                    proof {
                        assert(false);
                    }
                },
            }
        } else {
            match table.remove(&id) {
                None => {
                    errors.push((k, DeltaError::CreateFromPartial));
                },
                Some(mut t) => {
                    let anchor = match d.pos {
                        Some(p) => p,
                        None => (0, 0),
                    };
                    let w = t.get_width();
                    let h = t.get_height();
                    let fits = anchor.0 <= w && d.width <= w - anchor.0 && anchor.1 <= h
                        && d.height <= h - anchor.1;
                    if fits {
                        match t.update(d) {
                            Some(hdl) => freed.push(hdl),
                            None => {},
                        }
                        table.insert(id, t);
                    } else {
                        table.insert(id, t);
                        errors.push((k, DeltaError::PatchOutOfBounds));
                    }
                },
            }
        }
        proof {
            lemma_sets_step(m1, setseq, k as int, table@);
        }
        k = k + 1;
    }
    (freed, errors)
}

/// Unfolding helper: after processing entry `n`, the per-entry and
/// untouched clauses advance from `n` to `n + 1` provided entry `n`
/// itself landed correctly and nothing else moved.
proof fn lemma_sets_step(
    m1: Map<u64, TextureRGBA8>,
    set: Seq<(u64, ImageDeltaData)>,
    n: int,
    m: Map<u64, TextureRGBA8>,
)
    requires
        0 <= n < set.len(),
    ensures
        forall|id: u64|
            #[trigger] untouched_by_sets(set, n + 1, id) ==> untouched_by_sets(set, n, id) && set[
                n
            ].0 != id,
{
    assert forall|id: u64| #[trigger] untouched_by_sets(set, n + 1, id) implies untouched_by_sets(
        set,
        n,
        id,
    ) && set[n].0 != id by {
        assert(forall|j: int| 0 <= j < n + 1 ==> (#[trigger] set[j].0) != id);
    }
}

} // verus!
