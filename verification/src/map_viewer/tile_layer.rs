use crate::map_viewer::tiles::{coord_lt, coords_sorted, insert_coord, TileCoord};
use vstd::prelude::*;

verus! {

/// Paint order of tiles: row by row (z), then left to right (x).
pub open spec fn paint_key_lt(a: TileCoord, b: TileCoord) -> bool {
    a.1 < b.1 || (a.1 == b.1 && a.0 < b.0)
}

pub fn paint_key_less(a: TileCoord, b: TileCoord) -> (r: bool)
    ensures
        r == paint_key_lt(a, b),
{
    a.1 < b.1 || (a.1 == b.1 && a.0 < b.0)
}

/// Something painted at one tile: a tile image or a diagnostics overlay.
pub trait PaintItem: Sized + Copy {
    spec fn key(&self) -> TileCoord;

    fn coord(&self) -> (r: TileCoord)
        ensures
            r == self.key(),
    ;

    fn same(&self, other: &Self) -> (r: bool)
        ensures
            r == (*self == *other),
    ;
}

/// Items strictly ascending in paint order, so at most one per tile.
pub open spec fn paint_sorted<T: PaintItem>(s: Seq<T>) -> bool {
    forall|i: int, j: int| 0 <= i < j < s.len() ==> paint_key_lt(#[trigger] s[i].key(), #[trigger] s[j].key())
}

/// The item painted at tile `c`, if any.
pub open spec fn item_at<T: PaintItem>(s: Seq<T>, c: TileCoord) -> Option<T>
    decreases s.len(),
{
    if s.len() == 0 {
        None
    } else if s.last().key() == c {
        Some(s.last())
    } else {
        item_at(s.drop_last(), c)
    }
}

pub proof fn lemma_item_at_index<T: PaintItem>(s: Seq<T>, i: int)
    requires
        paint_sorted(s),
        0 <= i < s.len(),
    ensures
        item_at(s, s[i].key()) == Some(s[i]),
    decreases s.len(),
{
    if i < s.len() - 1 {
        assert(paint_key_lt(s[i].key(), s[s.len() - 1].key()));
        assert(s.drop_last()[i] == s[i]);
        lemma_item_at_index(s.drop_last(), i);
    }
}

pub proof fn lemma_item_at_absent<T: PaintItem>(s: Seq<T>, c: TileCoord)
    requires
        forall|i: int| 0 <= i < s.len() ==> #[trigger] s[i].key() != c,
    ensures
        item_at(s, c) is None,
    decreases s.len(),
{
    if s.len() > 0 {
        assert(s[s.len() - 1].key() != c);
        assert forall|i: int| 0 <= i < s.drop_last().len() implies #[trigger] s.drop_last()[i].key() != c by {
            assert(s.drop_last()[i] == s[i]);
        }
        lemma_item_at_absent(s.drop_last(), c);
    }
}

pub proof fn lemma_item_at_some<T: PaintItem>(s: Seq<T>, c: TileCoord)
    requires
        item_at(s, c) is Some,
    ensures
        exists|i: int| 0 <= i < s.len() && #[trigger] s[i].key() == c && item_at(s, c) == Some(s[i]),
    decreases s.len(),
{
    if s.last().key() != c {
        lemma_item_at_some(s.drop_last(), c);
        let i = choose|i: int| 0 <= i < s.drop_last().len() && #[trigger] s.drop_last()[i].key() == c
            && item_at(s.drop_last(), c) == Some(s.drop_last()[i]);
        assert(s[i] == s.drop_last()[i]);
    } else {
        assert(s[s.len() - 1].key() == c);
    }
}

/// Binary search by paint order: `Ok` with the index of the item at `c`, or
/// `Err` with the index where an item at `c` belongs.
pub fn search_paint_key<T: PaintItem>(items: &Vec<T>, c: TileCoord) -> (r: Result<usize, usize>)
    requires
        paint_sorted(items@),
    ensures
        match r {
            Ok(i) => i < items@.len() && items@[i as int].key() == c,
            Err(i) => i <= items@.len() && (forall|k: int| 0 <= k < i ==> paint_key_lt(#[trigger] items@[k].key(), c))
                && (forall|k: int| i <= k < items@.len() ==> paint_key_lt(c, #[trigger] items@[k].key())),
        },
{
    let mut lo: usize = 0;
    let mut hi: usize = items.len();
    while lo < hi
        invariant
            paint_sorted(items@),
            lo <= hi <= items@.len(),
            forall|k: int| 0 <= k < lo ==> paint_key_lt(#[trigger] items@[k].key(), c),
            forall|k: int| hi <= k < items@.len() ==> paint_key_lt(c, #[trigger] items@[k].key()),
        decreases hi - lo,
    {
        let mid = lo + (hi - lo) / 2;
        let key = items[mid].coord();
        if key.0 == c.0 && key.1 == c.1 {
            return Ok(mid);
        }
        if paint_key_less(key, c) {
            proof {
                assert forall|k: int| 0 <= k < mid + 1 implies paint_key_lt(#[trigger] items@[k].key(), c) by {
                    if k < mid {
                        assert(paint_key_lt(items@[k].key(), items@[mid as int].key()));
                    }
                }
            }
            lo = mid + 1;
        } else {
            proof {
                assert forall|k: int| mid <= k < items@.len() implies paint_key_lt(c, #[trigger] items@[k].key()) by {
                    if k > mid {
                        assert(paint_key_lt(items@[mid as int].key(), items@[k].key()));
                    }
                }
            }
            hi = mid;
        }
    }
    Err(lo)
}

/// Puts `replacement` at tile `c` (or removes what is painted there when it
/// is `None`), keeping paint order. Returns whether anything changed.
pub fn patch_item<T: PaintItem>(items: &mut Vec<T>, c: TileCoord, replacement: Option<T>) -> (changed: bool)
    requires
        paint_sorted(old(items)@),
        replacement matches Some(x) ==> x.key() == c,
    ensures
        paint_sorted(final(items)@),
        item_at(final(items)@, c) == replacement,
        forall|x: TileCoord| x != c ==> #[trigger] item_at(final(items)@, x) == item_at(old(items)@, x),
        changed == (item_at(old(items)@, c) != replacement),
{
    let found = search_paint_key(items, c);
    let ghost before = items@;
    match found {
        Ok(index) => {
            proof {
                lemma_item_at_index(before, index as int);
            }
            match replacement {
                Some(item) => {
                    if items[index].same(&item) {
                        return false;
                    }
                    items.set(index, item);
                    proof {
                        assert forall|a: int, b: int| 0 <= a < b < items@.len() implies paint_key_lt(
                            #[trigger] items@[a].key(),
                            #[trigger] items@[b].key(),
                        ) by {
                            assert(paint_key_lt(before[a].key(), before[b].key()));
                        }
                        lemma_item_at_index(items@, index as int);
                        assert forall|x: TileCoord| x != c implies #[trigger] item_at(items@, x) == item_at(before, x) by {
                            lemma_same_elsewhere(before, items@, index as int, x);
                        }
                    }
                    true
                },
                None => {
                    items.remove(index);
                    proof {
                        assert forall|a: int, b: int| 0 <= a < b < items@.len() implies paint_key_lt(
                            #[trigger] items@[a].key(),
                            #[trigger] items@[b].key(),
                        ) by {
                            if b < index {
                                assert(paint_key_lt(before[a].key(), before[b].key()));
                            } else if a < index {
                                assert(paint_key_lt(before[a].key(), before[b + 1].key()));
                            } else {
                                assert(paint_key_lt(before[a + 1].key(), before[b + 1].key()));
                            }
                        }
                        assert forall|k: int| 0 <= k < items@.len() implies #[trigger] items@[k].key() != c by {
                            if k < index {
                                assert(paint_key_lt(before[k].key(), before[index as int].key()));
                            } else {
                                assert(paint_key_lt(before[index as int].key(), before[k + 1].key()));
                            }
                        }
                        lemma_item_at_absent(items@, c);
                        assert forall|x: TileCoord| x != c implies #[trigger] item_at(items@, x) == item_at(before, x) by {
                            lemma_removed_elsewhere(before, items@, index as int, x);
                        }
                    }
                    true
                },
            }
        },
        Err(index) => {
            proof {
                assert forall|k: int| 0 <= k < before.len() implies #[trigger] before[k].key() != c by {
                    if k < index {
                        assert(paint_key_lt(before[k].key(), c));
                    } else {
                        assert(paint_key_lt(c, before[k].key()));
                    }
                }
                lemma_item_at_absent(before, c);
            }
            match replacement {
                Some(item) => {
                    items.insert(index, item);
                    proof {
                        assert forall|a: int, b: int| 0 <= a < b < items@.len() implies paint_key_lt(
                            #[trigger] items@[a].key(),
                            #[trigger] items@[b].key(),
                        ) by {
                            if b < index {
                                assert(paint_key_lt(before[a].key(), before[b].key()));
                            } else if b == index {
                                assert(paint_key_lt(before[a].key(), c));
                            } else if a == index {
                                assert(paint_key_lt(c, before[b - 1].key()));
                            } else if a < index {
                                assert(paint_key_lt(before[a].key(), before[b - 1].key()));
                            } else {
                                assert(paint_key_lt(before[a - 1].key(), before[b - 1].key()));
                            }
                        }
                        lemma_item_at_index(items@, index as int);
                        assert forall|x: TileCoord| x != c implies #[trigger] item_at(items@, x) == item_at(before, x) by {
                            lemma_inserted_elsewhere(before, items@, index as int, x);
                        }
                    }
                    true
                },
                None => false,
            }
        },
    }
}

/// Replacing the item at `i` by one with the same key leaves the other tiles.
proof fn lemma_same_elsewhere<T: PaintItem>(s: Seq<T>, t: Seq<T>, i: int, x: TileCoord)
    requires
        paint_sorted(s),
        paint_sorted(t),
        0 <= i < s.len(),
        t.len() == s.len(),
        t[i].key() == s[i].key(),
        forall|k: int| 0 <= k < s.len() && k != i ==> #[trigger] t[k] == s[k],
        x != s[i].key(),
    ensures
        item_at(t, x) == item_at(s, x),
{
    if exists|k: int| 0 <= k < s.len() && #[trigger] s[k].key() == x {
        let k = choose|k: int| 0 <= k < s.len() && #[trigger] s[k].key() == x;
        lemma_item_at_index(s, k);
        lemma_item_at_index(t, k);
    } else {
        lemma_item_at_absent(s, x);
        assert forall|k: int| 0 <= k < t.len() implies #[trigger] t[k].key() != x by {
            if k != i {
                assert(t[k] == s[k]);
            }
        }
        lemma_item_at_absent(t, x);
    }
}

proof fn lemma_removed_elsewhere<T: PaintItem>(s: Seq<T>, t: Seq<T>, i: int, x: TileCoord)
    requires
        paint_sorted(s),
        paint_sorted(t),
        0 <= i < s.len(),
        t == s.remove(i),
        x != s[i].key(),
    ensures
        item_at(t, x) == item_at(s, x),
{
    if exists|k: int| 0 <= k < s.len() && #[trigger] s[k].key() == x {
        let k = choose|k: int| 0 <= k < s.len() && #[trigger] s[k].key() == x;
        lemma_item_at_index(s, k);
        if k < i {
            assert(t[k] == s[k]);
            lemma_item_at_index(t, k);
        } else {
            assert(k != i);
            assert(t[k - 1] == s[k]);
            lemma_item_at_index(t, k - 1);
        }
    } else {
        lemma_item_at_absent(s, x);
        assert forall|k: int| 0 <= k < t.len() implies #[trigger] t[k].key() != x by {
            if k < i {
                assert(t[k] == s[k]);
            } else {
                assert(t[k] == s[k + 1]);
            }
        }
        lemma_item_at_absent(t, x);
    }
}

proof fn lemma_inserted_elsewhere<T: PaintItem>(s: Seq<T>, t: Seq<T>, i: int, x: TileCoord)
    requires
        paint_sorted(s),
        paint_sorted(t),
        0 <= i <= s.len(),
        t.len() == s.len() + 1,
        forall|k: int| 0 <= k < i ==> #[trigger] t[k] == s[k],
        forall|k: int| i < k < t.len() ==> #[trigger] t[k] == s[k - 1],
        x != t[i].key(),
    ensures
        item_at(t, x) == item_at(s, x),
{
    if exists|k: int| 0 <= k < s.len() && #[trigger] s[k].key() == x {
        let k = choose|k: int| 0 <= k < s.len() && #[trigger] s[k].key() == x;
        lemma_item_at_index(s, k);
        if k < i {
            assert(t[k] == s[k]);
            lemma_item_at_index(t, k);
        } else {
            assert(t[k + 1] == s[k]);
            lemma_item_at_index(t, k + 1);
        }
    } else {
        lemma_item_at_absent(s, x);
        assert forall|k: int| 0 <= k < t.len() implies #[trigger] t[k].key() != x by {
            if k < i {
                assert(t[k] == s[k]);
            } else if k > i {
                assert(t[k] == s[k - 1]);
            }
        }
        lemma_item_at_absent(t, x);
    }
}


/// Load state of a map tile.
#[derive(Clone, Copy, Debug, PartialEq, Eq, Structural)]
pub enum TileLoadState {
    Pending,
    Loading,
    Ready,
    Empty,
    Invalid,
    Failed,
}

/// A decoded tile image, held by its identity and its shape.
#[derive(Clone, Copy, Debug)]
pub struct TileImage {
    pub image_id: u64,
    pub pixel_format: u32,
    pub width: u32,
    pub height: u32,
    pub estimated_bytes: usize,
}

/// What the region manager knows of one tile.
#[derive(Clone, Copy, Debug)]
pub struct TileEntry {
    pub coord: TileCoord,
    pub state: TileLoadState,
    pub image: Option<TileImage>,
}

/// The tiles known to the map, one entry per tile.
pub struct RegionManager {
    pub entries: Vec<TileEntry>,
}

/// A tile image placed on the canvas.
#[derive(Clone, Copy, Debug)]
pub struct PaintTile {
    pub coord: TileCoord,
    pub image_id: u64,
    pub pixel_format: u32,
    pub width: u32,
    pub height: u32,
    pub estimated_bytes: usize,
}

/// The word shown over a tile that has no image.
#[derive(Clone, Copy, Debug, PartialEq, Eq, Structural)]
pub enum TileOverlayLabel {
    Empty,
    Invalid,
    Failed,
}

/// A diagnostics label over a tile.
#[derive(Clone, Copy, Debug)]
pub struct TileDebugOverlay {
    pub coord: TileCoord,
    pub label: TileOverlayLabel,
}

/// Which tile states get a diagnostics label: the current canvas labels
/// empty, invalid and failed tiles; the stable canvas labels invalid tiles
/// as empty and failed tiles as failed.
#[derive(Clone, Copy, Debug, PartialEq, Eq, Structural)]
pub enum OverlayLabelRule {
    Current,
    Stable,
}

/// Inclusive tile ranges on both axes.
#[derive(Clone, Copy, Debug, PartialEq, Eq, Structural)]
pub struct TileBounds {
    pub min_x: i32,
    pub min_z: i32,
    pub max_x: i32,
    pub max_z: i32,
}

impl PaintItem for PaintTile {
    open spec fn key(&self) -> TileCoord {
        self.coord
    }

    fn coord(&self) -> (r: TileCoord) {
        self.coord
    }

    fn same(&self, other: &Self) -> (r: bool) {
        self.coord.0 == other.coord.0 && self.coord.1 == other.coord.1 && self.image_id == other.image_id
            && self.pixel_format == other.pixel_format && self.width == other.width && self.height
            == other.height && self.estimated_bytes == other.estimated_bytes
    }
}

impl PaintItem for TileDebugOverlay {
    open spec fn key(&self) -> TileCoord {
        self.coord
    }

    fn coord(&self) -> (r: TileCoord) {
        self.coord
    }

    fn same(&self, other: &Self) -> (r: bool) {
        self.coord.0 == other.coord.0 && self.coord.1 == other.coord.1 && self.label == other.label
    }
}

pub open spec fn bounds_contain(bounds: Option<TileBounds>, c: TileCoord) -> bool {
    match bounds {
        Some(b) => b.min_x <= c.0 <= b.max_x && b.min_z <= c.1 <= b.max_z,
        None => false,
    }
}

pub fn bounds_contains(bounds: Option<TileBounds>, c: TileCoord) -> (r: bool)
    ensures
        r == bounds_contain(bounds, c),
{
    match bounds {
        Some(b) => b.min_x <= c.0 && c.0 <= b.max_x && b.min_z <= c.1 && c.1 <= b.max_z,
        None => false,
    }
}

/// The entry recorded for tile `c`: the last one for it.
pub open spec fn find_entry(s: Seq<TileEntry>, c: TileCoord) -> Option<TileEntry>
    decreases s.len(),
{
    if s.len() == 0 {
        None
    } else if s.last().coord == c {
        Some(s.last())
    } else {
        find_entry(s.drop_last(), c)
    }
}

pub open spec fn paint_tile_of(c: TileCoord, image: TileImage) -> PaintTile {
    PaintTile {
        coord: c,
        image_id: image.image_id,
        pixel_format: image.pixel_format,
        width: image.width,
        height: image.height,
        estimated_bytes: image.estimated_bytes,
    }
}

/// The label a tile in state `state` gets under `rule`, if any.
pub open spec fn overlay_label_for(state: TileLoadState, rule: OverlayLabelRule) -> Option<TileOverlayLabel> {
    match rule {
        OverlayLabelRule::Current => match state {
            TileLoadState::Empty => Some(TileOverlayLabel::Empty),
            TileLoadState::Invalid => Some(TileOverlayLabel::Invalid),
            TileLoadState::Failed => Some(TileOverlayLabel::Failed),
            _ => None,
        },
        OverlayLabelRule::Stable => match state {
            TileLoadState::Invalid => Some(TileOverlayLabel::Empty),
            TileLoadState::Failed => Some(TileOverlayLabel::Failed),
            _ => None,
        },
    }
}

/// The image painted for an entry: its image, when the tile is in bounds.
pub open spec fn tile_for_entry(e: TileEntry, bounds: Option<TileBounds>) -> Option<PaintTile> {
    if bounds_contain(bounds, e.coord) {
        match e.image {
            Some(image) => Some(paint_tile_of(e.coord, image)),
            None => None,
        }
    } else {
        None
    }
}

/// The label painted for an entry when the layer is built: in bounds, with
/// diagnostics open, no image, and a labelled state.
pub open spec fn built_overlay_for_entry(
    e: TileEntry,
    bounds: Option<TileBounds>,
    diagnostics_open: bool,
    rule: OverlayLabelRule,
) -> Option<TileDebugOverlay> {
    if bounds_contain(bounds, e.coord) && e.image is None && diagnostics_open {
        match overlay_label_for(e.state, rule) {
            Some(label) => Some(TileDebugOverlay { coord: e.coord, label }),
            None => None,
        }
    } else {
        None
    }
}

/// The label painted for an entry when one tile is patched: in bounds, with
/// diagnostics open and a labelled state, whether or not it has an image.
pub open spec fn patched_overlay_for_entry(
    e: TileEntry,
    bounds: Option<TileBounds>,
    diagnostics_open: bool,
    rule: OverlayLabelRule,
) -> Option<TileDebugOverlay> {
    if bounds_contain(bounds, e.coord) && diagnostics_open {
        match overlay_label_for(e.state, rule) {
            Some(label) => Some(TileDebugOverlay { coord: e.coord, label }),
            None => None,
        }
    } else {
        None
    }
}

pub open spec fn expected_tile(entries: Seq<TileEntry>, bounds: Option<TileBounds>, c: TileCoord) -> Option<PaintTile> {
    match find_entry(entries, c) {
        Some(e) => tile_for_entry(e, bounds),
        None => None,
    }
}

pub open spec fn built_overlay(
    entries: Seq<TileEntry>,
    bounds: Option<TileBounds>,
    diagnostics_open: bool,
    rule: OverlayLabelRule,
    c: TileCoord,
) -> Option<TileDebugOverlay> {
    match find_entry(entries, c) {
        Some(e) => built_overlay_for_entry(e, bounds, diagnostics_open, rule),
        None => None,
    }
}

pub open spec fn patched_overlay(
    entries: Seq<TileEntry>,
    bounds: Option<TileBounds>,
    diagnostics_open: bool,
    rule: OverlayLabelRule,
    c: TileCoord,
) -> Option<TileDebugOverlay> {
    match find_entry(entries, c) {
        Some(e) => patched_overlay_for_entry(e, bounds, diagnostics_open, rule),
        None => None,
    }
}

/// The tile images painted for the given entries and bounds: in paint order,
/// one per in-bounds tile that has an image.
pub open spec fn tiles_match(tiles: Seq<PaintTile>, entries: Seq<TileEntry>, bounds: Option<TileBounds>) -> bool {
    &&& paint_sorted(tiles)
    &&& forall|c: TileCoord| #[trigger] item_at(tiles, c) == expected_tile(entries, bounds, c)
}

pub open spec fn overlays_match(
    overlays: Seq<TileDebugOverlay>,
    entries: Seq<TileEntry>,
    bounds: Option<TileBounds>,
    diagnostics_open: bool,
    rule: OverlayLabelRule,
) -> bool {
    &&& paint_sorted(overlays)
    &&& forall|c: TileCoord| #[trigger] item_at(overlays, c) == built_overlay(entries, bounds, diagnostics_open, rule, c)
}

/// Sum of the estimated sizes of painted tiles.
pub open spec fn sum_bytes(s: Seq<PaintTile>) -> nat
    decreases s.len(),
{
    if s.len() == 0 {
        0
    } else {
        sum_bytes(s.drop_last()) + s.last().estimated_bytes as nat
    }
}

/// The size total as a `usize` adds it, wrapping past the top.
pub open spec fn wrapped_bytes(s: Seq<PaintTile>) -> int {
    sum_bytes(s) as int % (usize::MAX as int + 1)
}

/// Total estimated size of the tile images.
pub fn total_estimated_bytes(tiles: &Vec<PaintTile>) -> (r: usize)
    ensures
        r == wrapped_bytes(tiles@),
{
    let ghost m: int = usize::MAX as int + 1;
    let mut total: usize = 0;
    let mut i: usize = 0;
    while i < tiles.len()
        invariant
            m == usize::MAX as int + 1,
            i <= tiles@.len(),
            total == sum_bytes(tiles@.subrange(0, i as int)) as int % m,
        decreases tiles@.len() - i,
    {
        let ghost prev = tiles@.subrange(0, i as int);
        let b = tiles[i].estimated_bytes;
        let next_total = total.wrapping_add(b);
        proof {
            let next = tiles@.subrange(0, i + 1);
            assert(next.drop_last() =~= prev);
            assert(sum_bytes(next) == sum_bytes(prev) + b);
            vstd::arithmetic::div_mod::lemma_add_mod_noop(sum_bytes(prev) as int, b as int, m);
            vstd::arithmetic::div_mod::lemma_small_mod(b as nat, m as nat);
            let x: int = total + b;
            if x < m {
                vstd::arithmetic::div_mod::lemma_small_mod(x as nat, m as nat);
            } else {
                vstd::arithmetic::div_mod::lemma_small_mod((x - m) as nat, m as nat);
                vstd::arithmetic::div_mod::lemma_mod_add_multiples_vanish(x - m, m);
            }
        }
        total = next_total;
        i += 1;
    }
    proof {
        assert(tiles@.subrange(0, tiles@.len() as int) =~= tiles@);
    }
    total
}


/// The word painted for a label.
pub fn overlay_label_text(label: TileOverlayLabel) -> (r: &'static str)
    ensures
        r@ == (match label {
            TileOverlayLabel::Empty => "空"@,
            TileOverlayLabel::Invalid => "无效"@,
            TileOverlayLabel::Failed => "失败"@,
        }),
{
    match label {
        TileOverlayLabel::Empty => "空",
        TileOverlayLabel::Invalid => "无效",
        TileOverlayLabel::Failed => "失败",
    }
}

pub fn overlay_label(state: TileLoadState, rule: OverlayLabelRule) -> (r: Option<TileOverlayLabel>)
    ensures
        r == overlay_label_for(state, rule),
{
    match rule {
        OverlayLabelRule::Current => match state {
            TileLoadState::Empty => Some(TileOverlayLabel::Empty),
            TileLoadState::Invalid => Some(TileOverlayLabel::Invalid),
            TileLoadState::Failed => Some(TileOverlayLabel::Failed),
            _ => None,
        },
        OverlayLabelRule::Stable => match state {
            TileLoadState::Invalid => Some(TileOverlayLabel::Empty),
            TileLoadState::Failed => Some(TileOverlayLabel::Failed),
            _ => None,
        },
    }
}

impl RegionManager {
    /// The entry of tile `c`, if the manager knows it.
    pub fn entry(&self, c: TileCoord) -> (r: Option<TileEntry>)
        ensures
            r == find_entry(self.entries@, c),
    {
        let mut i: usize = self.entries.len();
        proof {
            assert(self.entries@.subrange(0, i as int) =~= self.entries@);
        }
        while i > 0
            invariant
                i <= self.entries@.len(),
                find_entry(self.entries@, c) == find_entry(self.entries@.subrange(0, i as int), c),
            decreases i,
        {
            let ghost pre = self.entries@.subrange(0, i as int);
            i -= 1;
            proof {
                assert(pre.drop_last() =~= self.entries@.subrange(0, i as int));
            }
            if self.entries[i].coord.0 == c.0 && self.entries[i].coord.1 == c.1 {
                return Some(self.entries[i]);
            }
        }
        None
    }
}

fn tile_of_entry(e: TileEntry, bounds: Option<TileBounds>) -> (r: Option<PaintTile>)
    ensures
        r == tile_for_entry(e, bounds),
{
    if !bounds_contains(bounds, e.coord) {
        return None;
    }
    match e.image {
        Some(image) => Some(PaintTile {
            coord: e.coord,
            image_id: image.image_id,
            pixel_format: image.pixel_format,
            width: image.width,
            height: image.height,
            estimated_bytes: image.estimated_bytes,
        }),
        None => None,
    }
}

fn overlay_of_entry(
    e: TileEntry,
    bounds: Option<TileBounds>,
    diagnostics_open: bool,
    rule: OverlayLabelRule,
    require_no_image: bool,
) -> (r: Option<TileDebugOverlay>)
    ensures
        r == (if require_no_image {
            built_overlay_for_entry(e, bounds, diagnostics_open, rule)
        } else {
            patched_overlay_for_entry(e, bounds, diagnostics_open, rule)
        }),
{
    if !bounds_contains(bounds, e.coord) || !diagnostics_open || (require_no_image && e.image.is_some()) {
        return None;
    }
    match overlay_label(e.state, rule) {
        Some(label) => Some(TileDebugOverlay { coord: e.coord, label }),
        None => None,
    }
}

/// The painted tile layer: tile images and diagnostics labels in paint
/// order, the bounds they were chosen for, and the images' total size.
pub struct TilePaintSnapshot {
    pub tiles: Vec<PaintTile>,
    /// Whole-screen images left by an older layer format; a layer that still
    /// holds any is rebuilt rather than patched.
    pub legacy_screen_images: usize,
    pub debug_overlays: Vec<TileDebugOverlay>,
    pub generation: u64,
    pub estimated_bytes: usize,
    pub paint_bounds: Option<TileBounds>,
}

impl Default for TilePaintSnapshot {
    fn default() -> (r: Self)
        ensures
            r.tiles@.len() == 0,
            r.legacy_screen_images == 0,
            r.debug_overlays@.len() == 0,
            r.generation == 0,
            r.estimated_bytes == 0,
            r.paint_bounds is None,
    {
        TilePaintSnapshot {
            tiles: Vec::new(),
            legacy_screen_images: 0,
            debug_overlays: Vec::new(),
            generation: 0,
            estimated_bytes: 0,
            paint_bounds: None,
        }
    }
}

/// How a painted layer follows a change of tiles.
pub enum TilePaintSnapshotPatch {
    Unchanged,
    Patched(TilePaintSnapshot),
    Rebuild,
}

/// Builds the tile layer for the given paint bounds from the region
/// manager: every in-bounds tile with an image, and, with diagnostics open,
/// a label over every in-bounds tile without an image whose state has one.
pub fn build_tile_paint_snapshot(
    manager: &RegionManager,
    paint_bounds: Option<TileBounds>,
    diagnostics_open: bool,
    rule: OverlayLabelRule,
    generation: u64,
) -> (r: TilePaintSnapshot)
    ensures
        tiles_match(r.tiles@, manager.entries@, paint_bounds),
        overlays_match(r.debug_overlays@, manager.entries@, paint_bounds, diagnostics_open, rule),
        r.estimated_bytes == wrapped_bytes(r.tiles@),
        r.legacy_screen_images == 0,
        r.generation == generation,
        r.paint_bounds == paint_bounds,
{
    let mut tiles: Vec<PaintTile> = Vec::new();
    let mut overlays: Vec<TileDebugOverlay> = Vec::new();
    let mut k: usize = 0;
    while k < manager.entries.len()
        invariant
            k <= manager.entries@.len(),
            paint_sorted(tiles@),
            paint_sorted(overlays@),
            forall|c: TileCoord| #[trigger] item_at(tiles@, c) == expected_tile(
                manager.entries@.subrange(0, k as int),
                paint_bounds,
                c,
            ),
            forall|c: TileCoord| #[trigger] item_at(overlays@, c) == built_overlay(
                manager.entries@.subrange(0, k as int),
                paint_bounds,
                diagnostics_open,
                rule,
                c,
            ),
        decreases manager.entries@.len() - k,
    {
        let e = manager.entries[k];
        let ghost pre = manager.entries@.subrange(0, k as int);
        let ghost next = manager.entries@.subrange(0, k + 1);
        proof {
            assert(next.drop_last() =~= pre);
            assert(next.last() == e);
        }
        let tile = tile_of_entry(e, paint_bounds);
        patch_item(&mut tiles, e.coord, tile);
        let overlay = overlay_of_entry(e, paint_bounds, diagnostics_open, rule, true);
        patch_item(&mut overlays, e.coord, overlay);
        k += 1;
    }
    proof {
        assert(manager.entries@.subrange(0, manager.entries@.len() as int) =~= manager.entries@);
    }
    let estimated_bytes = total_estimated_bytes(&tiles);
    TilePaintSnapshot {
        tiles,
        legacy_screen_images: 0,
        debug_overlays: overlays,
        generation,
        estimated_bytes,
        paint_bounds,
    }
}


pub proof fn lemma_find_entry_coord(s: Seq<TileEntry>, c: TileCoord)
    ensures
        find_entry(s, c) matches Some(e) ==> e.coord == c,
    decreases s.len(),
{
    if s.len() > 0 && s.last().coord != c {
        lemma_find_entry_coord(s.drop_last(), c);
    }
}

/// Brings the tile image at `coord` in line with the region manager.
/// Returns whether the layer changed.
pub fn patch_tile(
    tiles: &mut Vec<PaintTile>,
    manager: &RegionManager,
    paint_bounds: Option<TileBounds>,
    coord: TileCoord,
) -> (changed: bool)
    requires
        paint_sorted(old(tiles)@),
    ensures
        paint_sorted(final(tiles)@),
        item_at(final(tiles)@, coord) == expected_tile(manager.entries@, paint_bounds, coord),
        forall|x: TileCoord| x != coord ==> #[trigger] item_at(final(tiles)@, x) == item_at(old(tiles)@, x),
        changed == (item_at(old(tiles)@, coord) != expected_tile(manager.entries@, paint_bounds, coord)),
{
    proof {
        lemma_find_entry_coord(manager.entries@, coord);
    }
    let replacement = match manager.entry(coord) {
        Some(e) => tile_of_entry(e, paint_bounds),
        None => None,
    };
    patch_item(tiles, coord, replacement)
}

/// Brings the diagnostics label at `coord` in line with the region manager.
/// Returns whether the layer changed.
pub fn patch_overlay(
    overlays: &mut Vec<TileDebugOverlay>,
    manager: &RegionManager,
    paint_bounds: Option<TileBounds>,
    coord: TileCoord,
    diagnostics_open: bool,
    rule: OverlayLabelRule,
) -> (changed: bool)
    requires
        paint_sorted(old(overlays)@),
    ensures
        paint_sorted(final(overlays)@),
        item_at(final(overlays)@, coord) == patched_overlay(manager.entries@, paint_bounds, diagnostics_open, rule, coord),
        forall|x: TileCoord| x != coord ==> #[trigger] item_at(final(overlays)@, x) == item_at(old(overlays)@, x),
        changed == (item_at(old(overlays)@, coord) != patched_overlay(
            manager.entries@,
            paint_bounds,
            diagnostics_open,
            rule,
            coord,
        )),
{
    proof {
        lemma_find_entry_coord(manager.entries@, coord);
    }
    let replacement = match manager.entry(coord) {
        Some(e) => overlay_of_entry(e, paint_bounds, diagnostics_open, rule, false),
        None => None,
    };
    patch_item(overlays, coord, replacement)
}

fn copy_items<T: PaintItem>(items: &Vec<T>) -> (r: Vec<T>)
    ensures
        r@ == items@,
{
    let mut out: Vec<T> = Vec::new();
    let mut i: usize = 0;
    while i < items.len()
        invariant
            i <= items@.len(),
            out@ == items@.subrange(0, i as int),
        decreases items@.len() - i,
    {
        out.push(items[i]);
        i += 1;
        proof {
            assert(out@ =~= items@.subrange(0, i as int));
        }
    }
    proof {
        assert(items@.subrange(0, items@.len() as int) =~= items@);
    }
    out
}

pub fn same_bounds(a: Option<TileBounds>, b: Option<TileBounds>) -> (r: bool)
    ensures
        r == (a == b),
{
    match (a, b) {
        (Some(x), Some(y)) => x.min_x == y.min_x && x.min_z == y.min_z && x.max_x == y.max_x && x.max_z == y.max_z,
        (None, None) => true,
        _ => false,
    }
}

/// Whether tile `c` of the layer already shows what the manager holds.
pub open spec fn tile_current(
    tiles: Seq<PaintTile>,
    overlays: Seq<TileDebugOverlay>,
    entries: Seq<TileEntry>,
    bounds: Option<TileBounds>,
    diagnostics_open: bool,
    rule: OverlayLabelRule,
    c: TileCoord,
) -> bool {
    &&& item_at(tiles, c) == expected_tile(entries, bounds, c)
    &&& item_at(overlays, c) == patched_overlay(entries, bounds, diagnostics_open, rule, c)
}

/// Follows a change of the given tiles in a painted layer. A layer painted
/// for other bounds, or holding whole-screen images of the older format, is
/// rebuilt. Otherwise each changed tile is brought in line with the region
/// manager; when none of them differed the layer is unchanged.
pub fn patch_tile_paint_snapshot(
    current: &TilePaintSnapshot,
    manager: &RegionManager,
    paint_bounds: Option<TileBounds>,
    diagnostics_open: bool,
    rule: OverlayLabelRule,
    changed_tiles: &Vec<TileCoord>,
    generation: u64,
) -> (r: TilePaintSnapshotPatch)
    requires
        paint_sorted(current.tiles@),
        paint_sorted(current.debug_overlays@),
    ensures
        (r is Rebuild) == (current.paint_bounds != paint_bounds || current.legacy_screen_images > 0),
        !(r is Rebuild) ==> ((r is Unchanged) == forall|c: TileCoord| #[trigger] changed_tiles@.contains(c)
            ==> tile_current(
            current.tiles@,
            current.debug_overlays@,
            manager.entries@,
            paint_bounds,
            diagnostics_open,
            rule,
            c,
        )),
        r matches TilePaintSnapshotPatch::Patched(s) ==> {
            &&& paint_sorted(s.tiles@)
            &&& paint_sorted(s.debug_overlays@)
            &&& forall|c: TileCoord| #[trigger] item_at(s.tiles@, c) == (if changed_tiles@.contains(c) {
                expected_tile(manager.entries@, paint_bounds, c)
            } else {
                item_at(current.tiles@, c)
            })
            &&& forall|c: TileCoord| #[trigger] item_at(s.debug_overlays@, c) == (if changed_tiles@.contains(c) {
                patched_overlay(manager.entries@, paint_bounds, diagnostics_open, rule, c)
            } else {
                item_at(current.debug_overlays@, c)
            })
            &&& s.estimated_bytes == wrapped_bytes(s.tiles@)
            &&& s.legacy_screen_images == 0
            &&& s.generation == generation
            &&& s.paint_bounds == paint_bounds
        },
{
    if !same_bounds(current.paint_bounds, paint_bounds) {
        return TilePaintSnapshotPatch::Rebuild;
    }
    if current.legacy_screen_images > 0 {
        return TilePaintSnapshotPatch::Rebuild;
    }
    if changed_tiles.len() == 0 {
        return TilePaintSnapshotPatch::Unchanged;
    }
    let mut tiles = copy_items(&current.tiles);
    let mut overlays = copy_items(&current.debug_overlays);
    let mut coords: Vec<TileCoord> = Vec::new();
    let mut j: usize = 0;
    while j < changed_tiles.len()
        invariant
            j <= changed_tiles@.len(),
            coords_sorted(coords@),
            forall|c: TileCoord| #[trigger] coords@.contains(c) <==> changed_tiles@.subrange(0, j as int).contains(c),
        decreases changed_tiles@.len() - j,
    {
        insert_coord(&mut coords, changed_tiles[j]);
        proof {
            let pre = changed_tiles@.subrange(0, j as int);
            let next = changed_tiles@.subrange(0, j + 1);
            assert(next =~= pre.push(changed_tiles@[j as int]));
            assert forall|c: TileCoord| #[trigger] next.contains(c) <==> (pre.contains(c) || c == changed_tiles@[j as int]) by {
                if next.contains(c) {
                    let k = choose|k: int| 0 <= k < next.len() && next[k] == c;
                    if k < j {
                        assert(pre[k] == c);
                    }
                }
                if pre.contains(c) {
                    let k = choose|k: int| 0 <= k < pre.len() && pre[k] == c;
                    assert(next[k] == c);
                }
                if c == changed_tiles@[j as int] {
                    assert(next[j as int] == c);
                }
            }
        }
        j += 1;
    }
    proof {
        assert(changed_tiles@.subrange(0, changed_tiles@.len() as int) =~= changed_tiles@);
    }
    let mut updated_tile_images: usize = 0;
    let mut updated_debug_overlays: usize = 0;
    let mut k: usize = 0;
    while k < coords.len()
        invariant
            k <= coords@.len(),
            coords_sorted(coords@),
            forall|c: TileCoord| #[trigger] coords@.contains(c) <==> changed_tiles@.contains(c),
            paint_sorted(tiles@),
            paint_sorted(overlays@),
            forall|c: TileCoord| #[trigger] item_at(tiles@, c) == (if coords@.subrange(0, k as int).contains(c) {
                expected_tile(manager.entries@, paint_bounds, c)
            } else {
                item_at(current.tiles@, c)
            }),
            forall|c: TileCoord| #[trigger] item_at(overlays@, c) == (if coords@.subrange(0, k as int).contains(c) {
                patched_overlay(manager.entries@, paint_bounds, diagnostics_open, rule, c)
            } else {
                item_at(current.debug_overlays@, c)
            }),
            (updated_tile_images == 0 && updated_debug_overlays == 0) == forall|c: TileCoord|
                #[trigger] coords@.subrange(0, k as int).contains(c) ==> tile_current(
                current.tiles@,
                current.debug_overlays@,
                manager.entries@,
                paint_bounds,
                diagnostics_open,
                rule,
                c,
            ),
        decreases coords@.len() - k,
    {
        let coord = coords[k];
        let ghost pre = coords@.subrange(0, k as int);
        let ghost next = coords@.subrange(0, k + 1);
        proof {
            assert(next =~= pre.push(coord));
            assert(!pre.contains(coord)) by {
                if pre.contains(coord) {
                    let i = choose|i: int| 0 <= i < pre.len() && pre[i] == coord;
                    assert(coord_lt(coords@[i], coords@[k as int]));
                }
            }
            assert forall|c: TileCoord| #[trigger] next.contains(c) <==> (pre.contains(c) || c == coord) by {
                if next.contains(c) {
                    let i = choose|i: int| 0 <= i < next.len() && next[i] == c;
                    if i < k {
                        assert(pre[i] == c);
                    }
                }
                if pre.contains(c) {
                    let i = choose|i: int| 0 <= i < pre.len() && pre[i] == c;
                    assert(next[i] == c);
                }
                if c == coord {
                    assert(next[k as int] == c);
                }
            }
            assert(item_at(tiles@, coord) == item_at(current.tiles@, coord));
            assert(item_at(overlays@, coord) == item_at(current.debug_overlays@, coord));
        }
        let tile_changed = patch_tile(&mut tiles, manager, paint_bounds, coord);
        if tile_changed {
            updated_tile_images = updated_tile_images.saturating_add(1);
        }
        let overlay_changed = patch_overlay(&mut overlays, manager, paint_bounds, coord, diagnostics_open, rule);
        if overlay_changed {
            updated_debug_overlays = updated_debug_overlays.saturating_add(1);
        }
        proof {
            let ghost tc = |c: TileCoord| tile_current(
                current.tiles@,
                current.debug_overlays@,
                manager.entries@,
                paint_bounds,
                diagnostics_open,
                rule,
                c,
            );
            assert((!tile_changed && !overlay_changed) == tc(coord));
            if forall|c: TileCoord| #[trigger] next.contains(c) ==> tc(c) {
                assert(next.contains(coord));
                assert forall|c: TileCoord| #[trigger] pre.contains(c) implies tc(c) by {
                    assert(next.contains(c));
                }
            } else {
                let c = choose|c: TileCoord| #[trigger] next.contains(c) && !tc(c);
                if c != coord {
                    assert(pre.contains(c));
                }
            }
        }
        k += 1;
    }
    proof {
        assert(coords@.subrange(0, coords@.len() as int) =~= coords@);
        assert forall|c: TileCoord| #[trigger] changed_tiles@.contains(c) implies coords@.subrange(0, k as int).contains(c) by {
            assert(coords@.contains(c));
        }
    }
    if updated_tile_images == 0 && updated_debug_overlays == 0 {
        return TilePaintSnapshotPatch::Unchanged;
    }
    let estimated_bytes = total_estimated_bytes(&tiles);
    TilePaintSnapshotPatch::Patched(
        TilePaintSnapshot {
            tiles,
            legacy_screen_images: 0,
            debug_overlays: overlays,
            generation,
            estimated_bytes,
            paint_bounds,
        },
    )
}


proof fn lemma_drop_last_sorted<T: PaintItem>(s: Seq<T>)
    requires
        paint_sorted(s),
        s.len() > 0,
    ensures
        paint_sorted(s.drop_last()),
        item_at(s.drop_last(), s.last().key()) is None,
{
    assert forall|i: int, j: int| 0 <= i < j < s.drop_last().len() implies paint_key_lt(
        #[trigger] s.drop_last()[i].key(),
        #[trigger] s.drop_last()[j].key(),
    ) by {
        assert(paint_key_lt(s[i].key(), s[j].key()));
    }
    assert forall|i: int| 0 <= i < s.drop_last().len() implies #[trigger] s.drop_last()[i].key() != s.last().key() by {
        assert(paint_key_lt(s[i].key(), s[s.len() - 1].key()));
    }
    lemma_item_at_absent(s.drop_last(), s.last().key());
}

/// Two layers in paint order that show the same item at every tile are the
/// same sequence.
pub proof fn lemma_paint_layers_equal<T: PaintItem>(s: Seq<T>, t: Seq<T>)
    requires
        paint_sorted(s),
        paint_sorted(t),
        forall|c: TileCoord| #[trigger] item_at(s, c) == item_at(t, c),
    ensures
        s == t,
    decreases s.len() + t.len(),
{
    if s.len() == 0 {
        if t.len() > 0 {
            lemma_item_at_index(t, t.len() - 1);
            assert(item_at(s, t.last().key()) is None);
        }
        assert(s =~= t);
    } else if t.len() == 0 {
        lemma_item_at_index(s, s.len() - 1);
        assert(item_at(t, s.last().key()) is None);
    } else {
        let a = s.last();
        let b = t.last();
        lemma_item_at_index(s, s.len() - 1);
        lemma_item_at_index(t, t.len() - 1);
        lemma_item_at_some(t, a.key());
        lemma_item_at_some(s, b.key());
        let i = choose|i: int| 0 <= i < t.len() && #[trigger] t[i].key() == a.key() && item_at(t, a.key()) == Some(t[i]);
        let j = choose|j: int| 0 <= j < s.len() && #[trigger] s[j].key() == b.key() && item_at(s, b.key()) == Some(s[j]);
        if i < t.len() - 1 {
            assert(paint_key_lt(t[i].key(), t[t.len() - 1].key()));
            if j < s.len() - 1 {
                assert(paint_key_lt(s[j].key(), s[s.len() - 1].key()));
            }
        }
        assert(a == b);
        lemma_drop_last_sorted(s);
        lemma_drop_last_sorted(t);
        assert forall|c: TileCoord| #[trigger] item_at(s.drop_last(), c) == item_at(t.drop_last(), c) by {
            if c != a.key() {
                assert(item_at(s, c) == item_at(s.drop_last(), c));
                assert(item_at(t, c) == item_at(t.drop_last(), c));
            }
        }
        lemma_paint_layers_equal(s.drop_last(), t.drop_last());
        assert(s =~= s.drop_last().push(a));
        assert(t =~= t.drop_last().push(b));
    }
}

/// A layer built from the manager's earlier entries and then patched at
/// every tile whose expected image changed shows the same tile images, in
/// the same order, as a layer built afresh from the later entries.
pub proof fn law_patched_tiles_match_rebuild(
    built_before: Seq<PaintTile>,
    patched: Seq<PaintTile>,
    rebuilt: Seq<PaintTile>,
    before: Seq<TileEntry>,
    after: Seq<TileEntry>,
    bounds: Option<TileBounds>,
    changed: Seq<TileCoord>,
)
    requires
        tiles_match(built_before, before, bounds),
        tiles_match(rebuilt, after, bounds),
        forall|c: TileCoord| !changed.contains(c) ==> #[trigger] expected_tile(before, bounds, c)
            == expected_tile(after, bounds, c),
        paint_sorted(patched),
        forall|c: TileCoord| #[trigger] item_at(patched, c) == (if changed.contains(c) {
            expected_tile(after, bounds, c)
        } else {
            item_at(built_before, c)
        }),
    ensures
        patched == rebuilt,
{
    assert forall|c: TileCoord| #[trigger] item_at(patched, c) == item_at(rebuilt, c) by {
        assert(item_at(built_before, c) == expected_tile(before, bounds, c));
        assert(item_at(rebuilt, c) == expected_tile(after, bounds, c));
    }
    lemma_paint_layers_equal(patched, rebuilt);
}

/// The same for diagnostics labels, except where a changed tile has an
/// image and a labelled state: patching labels such a tile, a fresh build
/// does not.
pub proof fn law_patched_overlays_match_rebuild(
    built_before: Seq<TileDebugOverlay>,
    patched: Seq<TileDebugOverlay>,
    rebuilt: Seq<TileDebugOverlay>,
    before: Seq<TileEntry>,
    after: Seq<TileEntry>,
    bounds: Option<TileBounds>,
    diagnostics_open: bool,
    rule: OverlayLabelRule,
    changed: Seq<TileCoord>,
)
    requires
        overlays_match(built_before, before, bounds, diagnostics_open, rule),
        overlays_match(rebuilt, after, bounds, diagnostics_open, rule),
        forall|c: TileCoord| !changed.contains(c) ==> #[trigger] built_overlay(before, bounds, diagnostics_open, rule, c)
            == built_overlay(after, bounds, diagnostics_open, rule, c),
        forall|c: TileCoord| changed.contains(c) ==> #[trigger] patched_overlay(after, bounds, diagnostics_open, rule, c)
            == built_overlay(after, bounds, diagnostics_open, rule, c),
        paint_sorted(patched),
        forall|c: TileCoord| #[trigger] item_at(patched, c) == (if changed.contains(c) {
            patched_overlay(after, bounds, diagnostics_open, rule, c)
        } else {
            item_at(built_before, c)
        }),
    ensures
        patched == rebuilt,
{
    assert forall|c: TileCoord| #[trigger] item_at(patched, c) == item_at(rebuilt, c) by {
        assert(item_at(built_before, c) == built_overlay(before, bounds, diagnostics_open, rule, c));
        assert(item_at(rebuilt, c) == built_overlay(after, bounds, diagnostics_open, rule, c));
    }
    lemma_paint_layers_equal(patched, rebuilt);
}

} // verus!
