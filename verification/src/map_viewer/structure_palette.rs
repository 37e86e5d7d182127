use crate::text::str_eq;
use vstd::prelude::*;

verus! {

/// The palette of a structure file being written, by the keys of its
/// entries: an entry's index is its position.
pub struct StructurePalette {
    pub keys: Vec<String>,
}

/// The position of `key` among `keys`, if it is there.
pub open spec fn palette_index_of(keys: Seq<String>, key: Seq<char>) -> Option<int> {
    if exists|i: int| 0 <= i < keys.len() && #[trigger] keys[i]@ == key {
        Some(choose|i: int| 0 <= i < keys.len() && #[trigger] keys[i]@ == key)
    } else {
        None
    }
}

impl StructurePalette {
    /// No key occurs twice, and every index fits an `i32`.
    pub open spec fn wf(&self) -> bool {
        &&& forall|i: int, j: int| 0 <= i < j < self.keys@.len() ==> #[trigger] self.keys@[i]@ != #[trigger] self.keys@[j]@
        &&& self.keys@.len() <= i32::MAX as int + 1
    }

    /// A palette holding the entry of air, with this key, at index 0.
    pub fn with_air(air_key: String) -> (r: Self)
        ensures
            r.wf(),
            r.keys@.len() == 1,
            r.keys@[0] == air_key,
    {
        let mut keys: Vec<String> = Vec::new();
        keys.push(air_key);
        StructurePalette { keys }
    }

    /// The index of the entry with `key`, added at the end when the palette
    /// does not hold it yet; refused when the new index would not fit an
    /// `i32`.
    pub fn mcstructure_palette_index(&mut self, key: String) -> (r: Result<i32, String>)
        requires
            old(self).wf(),
        ensures
            final(self).wf(),
            match palette_index_of(old(self).keys@, key@) {
                Some(i) => r == Ok::<i32, String>(i as i32) && final(self).keys@ == old(self).keys@,
                None => if old(self).keys@.len() <= i32::MAX {
                    r == Ok::<i32, String>(old(self).keys@.len() as i32) && final(self).keys@ == old(
                        self,
                    ).keys@.push(key)
                } else {
                    (r matches Err(m) && m@ == "结构 palette 超过 i32 上限"@) && final(self).keys@ == old(
                        self,
                    ).keys@
                },
            },
    {
        let mut i: usize = 0;
        while i < self.keys.len()
            invariant
                self.wf(),
                i <= self.keys@.len(),
                forall|k: int| 0 <= k < i ==> #[trigger] self.keys@[k]@ != key@,
            decreases self.keys@.len() - i,
        {
            if str_eq(self.keys[i].as_str(), key.as_str()) {
                proof {
                    assert(self.keys@[i as int]@ == key@);
                    let j = choose|j: int| 0 <= j < self.keys@.len() && #[trigger] self.keys@[j]@ == key@;
                    if j != i {
                        if j < i {
                            assert(self.keys@[j]@ != self.keys@[i as int]@);
                        } else {
                            assert(self.keys@[i as int]@ != self.keys@[j]@);
                        }
                    }
                }
                return Ok(i as i32);
            }
            i += 1;
        }
        if self.keys.len() > i32::MAX as usize {
            return Err(String::from_str("结构 palette 超过 i32 上限"));
        }
        let index = self.keys.len() as i32;
        let ghost before = self.keys@;
        self.keys.push(key);
        proof {
            assert forall|a: int, b: int| 0 <= a < b < self.keys@.len() implies #[trigger] self.keys@[a]@
                != #[trigger] self.keys@[b]@ by {
                if b < before.len() {
                    assert(self.keys@[a] == before[a] && self.keys@[b] == before[b]);
                } else {
                    assert(self.keys@[a] == before[a]);
                }
            }
        }
        Ok(index)
    }
}

/// Interning a key the palette holds changes nothing and gives its index
/// back; two different keys never share an index.
pub proof fn law_palette_indices_identify_keys(p: StructurePalette, a: Seq<char>, b: Seq<char>)
    requires
        p.wf(),
    ensures
        palette_index_of(p.keys@, a) matches Some(i) ==> p.keys@[i]@ == a,
        (palette_index_of(p.keys@, a) matches Some(i) && palette_index_of(p.keys@, b) matches Some(j) && i == j)
            ==> a == b,
{
}

} // verus!
