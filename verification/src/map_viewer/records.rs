use crate::arith::{div_euclid_i32, rem_euclid_i32};
use crate::map_viewer::model::{ChunkPos, Dimension};
use crate::text::{i64_to_text, spec_signed_decimal, str_eq};
use vstd::prelude::*;

verus! {

/// Record kinds stored per chunk.
#[derive(Clone, Copy, Debug, PartialEq, Eq, Structural)]
pub enum ChunkRecordTag {
    Data3D,
    Version,
    Data2D,
    Data2DLegacy,
    SubChunkPrefix,
    LegacyTerrain,
    BlockEntity,
    Entity,
    PendingTicks,
    LegacyBlockExtraData,
    BiomeState,
    FinalizedState,
    ConversionData,
    BorderBlocks,
    HardcodedSpawners,
    RandomTicks,
    Checksums,
    GenerationSeed,
    GeneratedPreCavesAndCliffsBlending,
    BlendingBiomeHeight,
    MetaDataHash,
    BlendingData,
    ActorDigestVersion,
    VersionOld,
    LegacyVersion,
    BlockExtraData,
    Unknown(u8),
}

/// Records that a chunk copy carries over: terrain, biomes, generation state
/// and version records, but no entities, block entities, ticks or spawners.
pub open spec fn spec_copy_safe(tag: ChunkRecordTag) -> bool {
    match tag {
        ChunkRecordTag::Data3D | ChunkRecordTag::Data2D | ChunkRecordTag::Data2DLegacy
        | ChunkRecordTag::SubChunkPrefix | ChunkRecordTag::LegacyTerrain
        | ChunkRecordTag::BlockExtraData | ChunkRecordTag::BiomeState
        | ChunkRecordTag::FinalizedState | ChunkRecordTag::ConversionData
        | ChunkRecordTag::BorderBlocks | ChunkRecordTag::RandomTicks | ChunkRecordTag::Checksums
        | ChunkRecordTag::GenerationSeed | ChunkRecordTag::GeneratedPreCavesAndCliffsBlending
        | ChunkRecordTag::BlendingBiomeHeight | ChunkRecordTag::MetaDataHash
        | ChunkRecordTag::BlendingData | ChunkRecordTag::Version | ChunkRecordTag::VersionOld
        | ChunkRecordTag::LegacyVersion => true,
        _ => false,
    }
}

pub fn chunk_record_tag_is_copy_safe(tag: ChunkRecordTag) -> (r: bool)
    ensures
        r == spec_copy_safe(tag),
        is_terrain_record(tag) ==> r,
        is_content_record(tag) ==> !r,
{
    match tag {
        ChunkRecordTag::Data3D | ChunkRecordTag::Data2D | ChunkRecordTag::Data2DLegacy
        | ChunkRecordTag::SubChunkPrefix | ChunkRecordTag::LegacyTerrain
        | ChunkRecordTag::BlockExtraData | ChunkRecordTag::BiomeState
        | ChunkRecordTag::FinalizedState | ChunkRecordTag::ConversionData
        | ChunkRecordTag::BorderBlocks | ChunkRecordTag::RandomTicks | ChunkRecordTag::Checksums
        | ChunkRecordTag::GenerationSeed | ChunkRecordTag::GeneratedPreCavesAndCliffsBlending
        | ChunkRecordTag::BlendingBiomeHeight | ChunkRecordTag::MetaDataHash
        | ChunkRecordTag::BlendingData | ChunkRecordTag::Version | ChunkRecordTag::VersionOld
        | ChunkRecordTag::LegacyVersion => true,
        _ => false,
    }
}

/// Records that clearing a chunk to air deletes before it writes the empty
/// terrain.
pub open spec fn spec_clear_target(tag: ChunkRecordTag) -> bool {
    match tag {
        ChunkRecordTag::Data3D | ChunkRecordTag::Data2D | ChunkRecordTag::Data2DLegacy
        | ChunkRecordTag::SubChunkPrefix | ChunkRecordTag::LegacyTerrain
        | ChunkRecordTag::BlockEntity | ChunkRecordTag::Entity | ChunkRecordTag::PendingTicks
        | ChunkRecordTag::BlockExtraData | ChunkRecordTag::BiomeState
        | ChunkRecordTag::ConversionData | ChunkRecordTag::HardcodedSpawners
        | ChunkRecordTag::BorderBlocks | ChunkRecordTag::RandomTicks | ChunkRecordTag::Checksums
        | ChunkRecordTag::GenerationSeed | ChunkRecordTag::GeneratedPreCavesAndCliffsBlending
        | ChunkRecordTag::BlendingBiomeHeight | ChunkRecordTag::BlendingData
        | ChunkRecordTag::ActorDigestVersion | ChunkRecordTag::MetaDataHash => true,
        _ => false,
    }
}

pub fn chunk_record_tag_is_clear_target(tag: ChunkRecordTag) -> (r: bool)
    ensures
        r == spec_clear_target(tag),
        is_terrain_record(tag) || is_content_record(tag) ==> r,
{
    match tag {
        ChunkRecordTag::Data3D | ChunkRecordTag::Data2D | ChunkRecordTag::Data2DLegacy
        | ChunkRecordTag::SubChunkPrefix | ChunkRecordTag::LegacyTerrain
        | ChunkRecordTag::BlockEntity | ChunkRecordTag::Entity | ChunkRecordTag::PendingTicks
        | ChunkRecordTag::BlockExtraData | ChunkRecordTag::BiomeState
        | ChunkRecordTag::ConversionData | ChunkRecordTag::HardcodedSpawners
        | ChunkRecordTag::BorderBlocks | ChunkRecordTag::RandomTicks | ChunkRecordTag::Checksums
        | ChunkRecordTag::GenerationSeed | ChunkRecordTag::GeneratedPreCavesAndCliffsBlending
        | ChunkRecordTag::BlendingBiomeHeight | ChunkRecordTag::BlendingData
        | ChunkRecordTag::ActorDigestVersion | ChunkRecordTag::MetaDataHash => true,
        _ => false,
    }
}

/// A raw chunk record: its kind and stored bytes.
pub struct ChunkRecord {
    pub tag: ChunkRecordTag,
    pub value: Vec<u8>,
}

/// The records that hold a chunk's terrain and biomes.
pub open spec fn is_terrain_record(tag: ChunkRecordTag) -> bool {
    tag is Data3D || tag is Data2D || tag is Data2DLegacy || tag is SubChunkPrefix || tag is LegacyTerrain
}

/// The records that hold what lives in a chunk: block entities (chests,
/// signs), entities, and scheduled ticks.
pub open spec fn is_content_record(tag: ChunkRecordTag) -> bool {
    tag is BlockEntity || tag is Entity || tag is PendingTicks
}

/// A chunk copy carries every terrain and biome record of the chunk and
/// none of its block entities, entities or pending ticks: whatever records a
/// chunk has, each terrain record is among those `copy_safe_chunk_records`
/// keeps, and no content record is.
pub proof fn law_copy_keeps_terrain_and_drops_contents(records: Seq<ChunkRecord>, i: int)
    requires
        0 <= i < records.len(),
    ensures
        is_terrain_record(records[i].tag) ==> records.filter(|rec: ChunkRecord| spec_copy_safe(rec.tag)).contains(
            records[i],
        ),
        is_content_record(records[i].tag) ==> !records.filter(|rec: ChunkRecord| spec_copy_safe(rec.tag)).contains(
            records[i],
        ),
{
    let pred = |rec: ChunkRecord| spec_copy_safe(rec.tag);
    #[allow(deprecated)]
    records.filter_lemma(pred);
    if is_terrain_record(records[i].tag) {
        records.lemma_filter_contains(pred, i);
    }
    if is_content_record(records[i].tag) && records.filter(pred).contains(records[i]) {
        let k = choose|k: int| 0 <= k < records.filter(pred).len() && records.filter(pred)[k] == records[i];
        assert(pred(records.filter(pred)[k]));
    }
}

/// Clearing a chunk to air deletes every terrain and biome record and every
/// block entity, entity and pending-tick record, whatever the chunk holds:
/// none of them is among the records a clear leaves.
pub proof fn law_clear_leaves_no_terrain_or_contents(records: Seq<ChunkRecord>, i: int)
    requires
        0 <= i < records.len(),
        is_terrain_record(records[i].tag) || is_content_record(records[i].tag),
    ensures
        !records.filter(|rec: ChunkRecord| !spec_clear_target(rec.tag)).contains(records[i]),
{
    let pred = |rec: ChunkRecord| !spec_clear_target(rec.tag);
    #[allow(deprecated)]
    records.filter_lemma(pred);
    if records.filter(pred).contains(records[i]) {
        let k = choose|k: int| 0 <= k < records.filter(pred).len() && records.filter(pred)[k] == records[i];
        assert(pred(records.filter(pred)[k]));
    }
}

/// Keeps the copy-safe records, in their order.
pub fn copy_safe_chunk_records(records: Vec<ChunkRecord>) -> (r: Vec<ChunkRecord>)
    ensures
        r@ == records@.filter(|rec: ChunkRecord| spec_copy_safe(rec.tag)),
{
    let mut out: Vec<ChunkRecord> = Vec::new();
    let mut rest = records;
    let ghost all = rest@;
    let ghost mut consumed: Seq<ChunkRecord> = Seq::empty();
    proof {
        assert(consumed + rest@ =~= all);
    }
    while rest.len() > 0
        invariant
            consumed + rest@ == all,
            out@ == consumed.filter(|rec: ChunkRecord| spec_copy_safe(rec.tag)),
        decreases rest@.len(),
    {
        let ghost before = rest@;
        let record = rest.remove(0);
        proof {
            assert(before =~= seq![record] + rest@);
            assert(consumed.push(record) + rest@ =~= consumed + before);
            assert(consumed.push(record).drop_last() =~= consumed);
        }
        let keep = chunk_record_tag_is_copy_safe(record.tag);
        proof {
            let grown = consumed.push(record);
            reveal(Seq::filter);
            assert(grown.drop_last() =~= consumed);
            assert(grown.last() == record);
        }
        if keep {
            out.push(record);
        }
        proof {
            consumed = consumed.push(record);
        }
    }
    proof {
        assert(consumed =~= all);
    }
    out
}

/// Layout of an empty chunk's terrain records.
#[derive(Clone, Copy, Debug, PartialEq, Eq, Structural)]
pub enum ChunkVersion {
    Old,
    New,
}

/// The Nether and the End keep the older layout; the overworld and custom
/// dimensions use the newer one.
pub fn chunk_version_for_empty_heightmap(chunk: ChunkPos) -> (r: ChunkVersion)
    ensures
        r == (match chunk.dimension {
            Dimension::Nether | Dimension::End => ChunkVersion::Old,
            _ => ChunkVersion::New,
        }),
{
    match chunk.dimension {
        Dimension::Nether | Dimension::End => ChunkVersion::Old,
        Dimension::Overworld | Dimension::Unknown(_) => ChunkVersion::New,
    }
}

/// Block names that count as air when a copied chunk is stored as a
/// structure.
pub open spec fn spec_is_air_name(name: Seq<char>) -> bool {
    name == "air"@ || name == "cave_air"@ || name == "void_air"@ || name == "minecraft:air"@
        || name == "minecraft:cave_air"@ || name == "minecraft:void_air"@
        || name == "minecraft:structure_void"@ || name == "minecraft:light_block"@
        || name == "minecraft:light"@
}

pub fn copied_chunk_is_air_block_state_name(name: &str) -> (r: bool)
    ensures
        r == spec_is_air_name(name@),
{
    str_eq(name, "air") || str_eq(name, "cave_air") || str_eq(name, "void_air") || str_eq(
        name,
        "minecraft:air",
    ) || str_eq(name, "minecraft:cave_air") || str_eq(name, "minecraft:void_air") || str_eq(
        name,
        "minecraft:structure_void",
    ) || str_eq(name, "minecraft:light_block") || str_eq(name, "minecraft:light")
}

/// The sub-chunk of a world height and the height inside it; refused when
/// the sub-chunk index does not fit an `i8`.
pub fn copied_chunk_structure_subchunk_coords(world_y: i32) -> (r: Result<(i8, u8), String>)
    ensures
        (i8::MIN <= world_y as int / 16 <= i8::MAX) ==> r == Ok::<(i8, u8), String>(
            ((world_y as int / 16) as i8, (world_y as int % 16) as u8),
        ),
        !(i8::MIN <= world_y as int / 16 <= i8::MAX) ==> r is Err,
{
    let sub = div_euclid_i32(world_y, 16);
    if sub < i8::MIN as i32 || sub > i8::MAX as i32 {
        let mut message = String::from_str("chunk copy source y=");
        let digits = i64_to_text(world_y as i64);
        message.append(digits.as_str());
        message.append(" cannot be represented as a subchunk index");
        return Err(message);
    }
    let local = rem_euclid_i32(world_y, 16);
    Ok((sub as i8, local as u8))
}

/// Legacy terrain stores heights 0 through 127 only.
pub fn legacy_terrain_height(world_y: i32) -> (r: Option<u8>)
    ensures
        r == (if 0 <= world_y <= 127 { Some(world_y as u8) } else { None::<u8> }),
{
    if 0 <= world_y && world_y <= 127 {
        Some(world_y as u8)
    } else {
        None
    }
}

/// A heightmap of a chunk that has none: 256 columns at height 0.
pub fn default_heightmap() -> (r: Vec<i16>)
    ensures
        r@.len() == 256,
        forall|i: int| 0 <= i < 256 ==> r@[i] == 0,
{
    let mut values: Vec<i16> = Vec::new();
    let mut i: usize = 0;
    while i < 256
        invariant
            i <= 256,
            values@.len() == i,
            forall|k: int| 0 <= k < i ==> values@[k] == 0,
        decreases 256 - i,
    {
        values.push(0);
        i += 1;
    }
    values
}

/// One row of the record editor: a label, a value and whether the value can
/// be edited.
pub struct EditRow {
    pub label: String,
    pub value: String,
    pub editable: bool,
}

pub fn readonly_row(label: String, value: String) -> (r: EditRow)
    ensures
        r.label == label,
        r.value == value,
        !r.editable,
{
    EditRow { label, value, editable: false }
}

pub fn editable_row(label: String, value: String) -> (r: EditRow)
    ensures
        r.label == label,
        r.value == value,
        r.editable,
{
    EditRow { label, value, editable: true }
}

pub open spec fn seq_min(s: Seq<i16>) -> int
    decreases s.len(),
{
    if s.len() == 0 {
        0
    } else if s.len() == 1 {
        s[0] as int
    } else {
        let m = seq_min(s.drop_last());
        if (s.last() as int) < m { s.last() as int } else { m }
    }
}

pub open spec fn seq_max(s: Seq<i16>) -> int
    decreases s.len(),
{
    if s.len() == 0 {
        0
    } else if s.len() == 1 {
        s[0] as int
    } else {
        let m = seq_max(s.drop_last());
        if (s.last() as int) > m { s.last() as int } else { m }
    }
}

/// Smallest and largest height of a heightmap (0 for an empty one).
pub fn heightmap_min_max(values: &Vec<i16>) -> (r: (i16, i16))
    ensures
        r.0 as int == seq_min(values@),
        r.1 as int == seq_max(values@),
{
    if values.len() == 0 {
        return (0, 0);
    }
    let mut lo = values[0];
    let mut hi = values[0];
    let mut i: usize = 1;
    proof {
        assert(values@.subrange(0, 1).drop_last() =~= Seq::<i16>::empty());
    }
    while i < values.len()
        invariant
            1 <= i <= values@.len(),
            lo as int == seq_min(values@.subrange(0, i as int)),
            hi as int == seq_max(values@.subrange(0, i as int)),
        decreases values@.len() - i,
    {
        proof {
            assert(values@.subrange(0, i + 1).drop_last() =~= values@.subrange(0, i as int));
        }
        if values[i] < lo {
            lo = values[i];
        }
        if values[i] > hi {
            hi = values[i];
        }
        i += 1;
    }
    proof {
        assert(values@.subrange(0, values@.len() as int) =~= values@);
    }
    (lo, hi)
}

/// The heightmap rows of the record editor: column count (read-only), then
/// the smallest and the largest height.
pub fn heightmap_rows(values: &Vec<i16>) -> (r: Vec<EditRow>)
    ensures
        r@.len() == 3,
        r@[0].label@ == "columns"@ && r@[0].value@ == crate::text::spec_decimal(values@.len())
            && !r@[0].editable,
        r@[1].label@ == "min"@ && r@[1].value@ == spec_signed_decimal(seq_min(values@))
            && r@[1].editable,
        r@[2].label@ == "max"@ && r@[2].value@ == spec_signed_decimal(seq_max(values@))
            && r@[2].editable,
{
    let (lo, hi) = heightmap_min_max(values);
    let len = values.len();
    let mut rows: Vec<EditRow> = Vec::new();
    rows.push(readonly_row(String::from_str("columns"), crate::text::u64_to_text(len as u64)));
    rows.push(editable_row(String::from_str("min"), i64_to_text(lo as i64)));
    rows.push(editable_row(String::from_str("max"), i64_to_text(hi as i64)));
    rows
}

} // verus!
