use vstd::prelude::*;

verus! {

/// Entity debug labels painted at most per frame.
pub const MAX_ENTITY_DEBUG_LABELS: usize = 128;

/// What the label pass knows of one entity on the map: whether its avatar
/// image is loaded, and the label cell its screen position falls in (none
/// when it is off screen).
#[derive(Clone, Copy, Debug)]
pub struct EntityLabelCandidate {
    pub has_avatar: bool,
    pub cell: Option<(i32, i32)>,
}

/// Whether one of the selected entities already occupies `cell`.
pub open spec fn cell_taken(cands: Seq<EntityLabelCandidate>, picked: Seq<int>, cell: (i32, i32)) -> bool {
    exists|k: int| 0 <= k < picked.len() && #[trigger] cands[picked[k]].cell == Some(cell)
}

/// The entities that get a debug label, in order: each one without an
/// avatar, on screen, whose cell no earlier labelled entity holds, until the
/// limit is reached.
pub open spec fn picked_labels(cands: Seq<EntityLabelCandidate>) -> Seq<int>
    decreases cands.len(),
{
    if cands.len() == 0 {
        Seq::empty()
    } else {
        let prev = picked_labels(cands.drop_last());
        let last = cands.last();
        if prev.len() >= MAX_ENTITY_DEBUG_LABELS {
            prev
        } else if !last.has_avatar && last.cell is Some && !cell_taken(cands, prev, last.cell->0) {
            prev.push(cands.len() - 1)
        } else {
            prev
        }
    }
}

proof fn lemma_picked_in_range(cands: Seq<EntityLabelCandidate>)
    ensures
        forall|k: int| 0 <= k < picked_labels(cands).len() ==> 0 <= #[trigger] picked_labels(cands)[k] < cands.len(),
        picked_labels(cands).len() <= MAX_ENTITY_DEBUG_LABELS,
    decreases cands.len(),
{
    if cands.len() > 0 {
        lemma_picked_in_range(cands.drop_last());
    }
}

/// `cell_taken` reads only the entries it indexes.
proof fn lemma_cell_taken_prefix(cands: Seq<EntityLabelCandidate>, n: int, picked: Seq<int>, cell: (i32, i32))
    requires
        0 <= n <= cands.len(),
        forall|k: int| 0 <= k < picked.len() ==> 0 <= #[trigger] picked[k] < n,
    ensures
        cell_taken(cands, picked, cell) == cell_taken(cands.subrange(0, n), picked, cell),
{
    if cell_taken(cands, picked, cell) {
        let k = choose|k: int| 0 <= k < picked.len() && #[trigger] cands[picked[k]].cell == Some(cell);
        assert(cands.subrange(0, n)[picked[k]] == cands[picked[k]]);
    }
    if cell_taken(cands.subrange(0, n), picked, cell) {
        let k = choose|k: int| 0 <= k < picked.len() && #[trigger] cands.subrange(0, n)[picked[k]].cell == Some(cell);
        assert(cands.subrange(0, n)[picked[k]] == cands[picked[k]]);
    }
}

/// Chooses which entities without an avatar get a debug label: at most one
/// per label cell, the first one met, and at most
/// `MAX_ENTITY_DEBUG_LABELS` in all. Returns their indices.
pub fn select_entity_debug_labels(cands: &Vec<EntityLabelCandidate>) -> (r: Vec<usize>)
    ensures
        r@.len() == picked_labels(cands@).len(),
        forall|k: int| 0 <= k < r@.len() ==> #[trigger] r@[k] as int == picked_labels(cands@)[k],
{
    let mut picked: Vec<usize> = Vec::new();
    let mut cells: Vec<(i32, i32)> = Vec::new();
    let mut i: usize = 0;
    while i < cands.len()
        invariant
            i <= cands@.len(),
            picked@.len() == picked_labels(cands@.subrange(0, i as int)).len(),
            cells@.len() == picked@.len(),
            forall|k: int| 0 <= k < picked@.len() ==> #[trigger] picked@[k] as int == picked_labels(
                cands@.subrange(0, i as int),
            )[k],
            forall|k: int| 0 <= k < picked@.len() ==> 0 <= #[trigger] picked@[k] < i,
            forall|k: int| 0 <= k < cells@.len() ==> cands@[#[trigger] picked@[k] as int].cell == Some(cells@[k]),
        ensures
            i < cands@.len() ==> picked@.len() >= MAX_ENTITY_DEBUG_LABELS,
        decreases cands@.len() - i,
    {
        if picked.len() >= MAX_ENTITY_DEBUG_LABELS {
            break;
        }
        let ghost pre = cands@.subrange(0, i as int);
        let ghost next = cands@.subrange(0, i + 1);
        let ghost prev = picked_labels(pre);
        proof {
            assert(next.drop_last() =~= pre);
            assert(next.last() == cands@[i as int]);
            lemma_picked_in_range(pre);
            assert forall|k: int| 0 <= k < prev.len() implies 0 <= #[trigger] prev[k] < i by {
                assert(picked@[k] as int == prev[k]);
            }
            lemma_cell_taken_prefix(next, i as int, prev, (0, 0));
        }
        let cand = cands[i];
        if !cand.has_avatar {
            if let Some(cell) = cand.cell {
                let mut taken = false;
                let mut j: usize = 0;
                while j < cells.len()
                    invariant
                        j <= cells@.len(),
                        cells@.len() == picked@.len(),
                        taken == exists|k: int| 0 <= k < j && #[trigger] cells@[k] == cell,
                    decreases cells@.len() - j,
                {
                    if cells[j].0 == cell.0 && cells[j].1 == cell.1 {
                        taken = true;
                    }
                    j += 1;
                }
                proof {
                    lemma_cell_taken_prefix(next, i as int, prev, cell);
                    assert(pre =~= next.subrange(0, i as int));
                    if taken {
                        let k = choose|k: int| 0 <= k < j && #[trigger] cells@[k] == cell;
                        assert(picked@[k] as int == prev[k]);
                        assert(next[prev[k]] == cands@[prev[k]]);
                        assert(cell_taken(next, prev, cell));
                    } else {
                        if cell_taken(next, prev, cell) {
                            let k = choose|k: int| 0 <= k < prev.len() && #[trigger] next[prev[k]].cell == Some(cell);
                            assert(picked@[k] as int == prev[k]);
                            assert(next[prev[k]] == cands@[prev[k]]);
                            assert(cells@[k] == cell);
                        }
                    }
                }
                if !taken {
                    picked.push(i);
                    cells.push(cell);
                }
            }
        }
        proof {
            assert forall|k: int| 0 <= k < picked@.len() implies #[trigger] picked@[k] as int == picked_labels(next)[k] by {
            }
        }
        i += 1;
    }
    proof {
        if i < cands@.len() {
            lemma_picked_saturated(cands@, i as int);
        } else {
            assert(cands@.subrange(0, i as int) =~= cands@);
        }
    }
    picked
}

/// Once the limit is reached, later entities are not labelled.
proof fn lemma_picked_saturated(cands: Seq<EntityLabelCandidate>, n: int)
    requires
        0 <= n <= cands.len(),
        picked_labels(cands.subrange(0, n)).len() >= MAX_ENTITY_DEBUG_LABELS,
    ensures
        picked_labels(cands) == picked_labels(cands.subrange(0, n)),
    decreases cands.len() - n,
{
    if n == cands.len() {
        assert(cands.subrange(0, n) =~= cands);
    } else {
        let next = cands.subrange(0, n + 1);
        assert(next.drop_last() =~= cands.subrange(0, n));
        lemma_picked_saturated(cands, n + 1);
    }
}

/// The text of an entity's debug label: its identifier (or a placeholder),
/// whether its avatar is missing or still loading, and its cache status.
pub fn entity_debug_label(identifier: Option<&str>, avatar_pool_loaded: bool, cache_status_label: &str) -> (r: String)
    ensures
        r@ == (match identifier {
            Some(id) => id@,
            None => "<missing-id>"@,
        }) + " · "@ + (if avatar_pool_loaded {
            "avatar:missing"@
        } else {
            "avatar:loading"@
        }) + " · "@ + cache_status_label@,
{
    let mut text = match identifier {
        Some(id) => String::from_str(id),
        None => String::from_str("<missing-id>"),
    };
    text.append(" · ");
    if avatar_pool_loaded {
        text.append("avatar:missing");
    } else {
        text.append("avatar:loading");
    }
    text.append(" · ");
    text.append(cache_status_label);
    text
}


/// The labelled entities come in order, have no avatar, are on screen, sit
/// in distinct cells, and are at most `MAX_ENTITY_DEBUG_LABELS`.
pub proof fn law_entity_labels_one_per_cell(cands: Seq<EntityLabelCandidate>)
    ensures
        picked_labels(cands).len() <= MAX_ENTITY_DEBUG_LABELS,
        forall|k: int| 0 <= k < picked_labels(cands).len() ==> {
            let e = cands[#[trigger] picked_labels(cands)[k]];
            &&& 0 <= picked_labels(cands)[k] < cands.len()
            &&& !e.has_avatar
            &&& e.cell is Some
        },
        forall|a: int, b: int| 0 <= a < b < picked_labels(cands).len() ==> {
            &&& #[trigger] picked_labels(cands)[a] < #[trigger] picked_labels(cands)[b]
            &&& cands[picked_labels(cands)[a]].cell != cands[picked_labels(cands)[b]].cell
        },
    decreases cands.len(),
{
    lemma_picked_in_range(cands);
    if cands.len() > 0 {
        let pre = cands.drop_last();
        law_entity_labels_one_per_cell(pre);
        lemma_picked_in_range(pre);
        let prev = picked_labels(pre);
        assert forall|k: int| 0 <= k < prev.len() implies #[trigger] cands[prev[k]] == pre[prev[k]] by {}
        assert(pre =~= cands.subrange(0, cands.len() - 1));
        lemma_cell_taken_prefix(cands, cands.len() - 1, prev, (0, 0));
        let last = cands.last();
        if prev.len() < MAX_ENTITY_DEBUG_LABELS && !last.has_avatar && last.cell is Some {
            lemma_cell_taken_prefix(cands, cands.len() - 1, prev, last.cell->0);
        }
    }
}

} // verus!
