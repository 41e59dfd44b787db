//! VRAM accounting for loaded models: how much is in use, which models hold
//! it, and which to evict, least recently used first, to make room.
//!
//! The loaded models are kept in a list in which no identifier occurs twice;
//! times are milliseconds.

use vstd::prelude::*;
use crate::embeddings::ModelId;

verus! {

/// A loaded model.
#[derive(Debug)]
pub struct ModelInfo {
    /// Its identifier.
    pub id: ModelId,
    /// Its display name.
    pub name: String,
    /// The VRAM it holds, in bytes.
    pub vram_bytes: u64,
    /// When it was last used.
    pub last_used: u64,
    /// How often it was used.
    pub use_count: u64,
}

impl Clone for ModelInfo {
    fn clone(&self) -> (r: Self)
        ensures
            r.id == self.id,
            r.name@ == self.name@,
            r.vram_bytes == self.vram_bytes,
            r.last_used == self.last_used,
            r.use_count == self.use_count,
    {
        ModelInfo {
            id: self.id,
            name: self.name.clone(),
            vram_bytes: self.vram_bytes,
            last_used: self.last_used,
            use_count: self.use_count,
        }
    }
}

/// The VRAM in use and the limit.
#[derive(Debug, Clone, Copy)]
pub struct VRAMStatus {
    /// Bytes in use.
    pub used_bytes: u64,
    /// The limit, in bytes.
    pub max_bytes: u64,
    /// How many models are loaded.
    pub loaded_models: usize,
}

/// Bytes in one MB.
pub const MB: u64 = 1048576;

/// The position of the model `id` in `s`, or -1.
pub open spec fn model_index(s: Seq<ModelInfo>, id: ModelId) -> int
    decreases s.len(),
{
    if s.len() == 0 {
        -1
    } else if s.last().id == id {
        s.len() - 1
    } else {
        model_index(s.drop_last(), id)
    }
}

/// No identifier occurs twice.
pub open spec fn unique_ids(s: Seq<ModelInfo>) -> bool {
    forall|i: int, j: int| 0 <= i < j < s.len() ==> (#[trigger] s[i]).id != (#[trigger] s[j]).id
}

/// The VRAM of all the models, in bytes.
pub open spec fn total_bytes(s: Seq<ModelInfo>) -> int
    decreases s.len(),
{
    if s.len() == 0 {
        0
    } else {
        total_bytes(s.drop_last()) + s.last().vram_bytes
    }
}

/// What eviction looks at of a model: when it was last used, its
/// identifier and its bytes.
pub open spec fn lru_entry(m: ModelInfo) -> (u64, ModelId, u64) {
    (m.last_used, m.id, m.vram_bytes)
}

/// `x` placed before the first entry used later than it.
pub open spec fn insert_by_time(s: Seq<(u64, ModelId, u64)>, x: (u64, ModelId, u64)) -> Seq<(u64, ModelId, u64)>
    decreases s.len(),
{
    if s.len() == 0 {
        seq![x]
    } else if x.0 < s[0].0 {
        seq![x] + s
    } else {
        seq![s[0]] + insert_by_time(s.drop_first(), x)
    }
}

/// The models, least recently used first; models used at the same time keep
/// their order (a stable sort).
pub open spec fn lru_order(s: Seq<ModelInfo>) -> Seq<(u64, ModelId, u64)>
    decreases s.len(),
{
    if s.len() == 0 {
        Seq::empty()
    } else {
        insert_by_time(lru_order(s.drop_last()), lru_entry(s.last()))
    }
}

/// How many of the entries, from the front, are taken to free `needed`
/// bytes: entries are taken while fewer than `needed` bytes are freed.
pub open spec fn evict_count(s: Seq<(u64, ModelId, u64)>, needed: int) -> int
    decreases s.len(),
{
    if needed <= 0 || s.len() == 0 {
        0
    } else {
        1 + evict_count(s.drop_first(), needed - s[0].2)
    }
}

/// The bytes of the entries.
pub open spec fn entry_bytes(s: Seq<(u64, ModelId, u64)>) -> int
    decreases s.len(),
{
    if s.len() == 0 {
        0
    } else {
        entry_bytes(s.drop_last()) + s.last().2
    }
}

/// The models left when the model `id` is taken out.
pub open spec fn without(s: Seq<ModelInfo>, id: ModelId) -> Seq<ModelInfo> {
    if model_index(s, id) >= 0 {
        s.remove(model_index(s, id))
    } else {
        s
    }
}

/// The models left when each of `ids` is taken out in turn.
pub open spec fn without_all(s: Seq<ModelInfo>, ids: Seq<ModelId>) -> Seq<ModelInfo>
    decreases ids.len(),
{
    if ids.len() == 0 {
        s
    } else {
        without(without_all(s, ids.drop_last()), ids.last())
    }
}

/// The counter after the model `id` is taken out: its bytes are subtracted,
/// wrapping around as an atomic counter does.
pub open spec fn usage_without(s: Seq<ModelInfo>, usage: u64, id: ModelId) -> u64 {
    if model_index(s, id) >= 0 {
        vstd::wrapping::u64_specs::wrapping_sub(usage, s[model_index(s, id)].vram_bytes)
    } else {
        usage
    }
}

/// The counter after each of `ids` is taken out in turn.
pub open spec fn usage_without_all(s: Seq<ModelInfo>, usage: u64, ids: Seq<ModelId>) -> u64
    decreases ids.len(),
{
    if ids.len() == 0 {
        usage
    } else {
        usage_without(without_all(s, ids.drop_last()), usage_without_all(s, usage, ids.drop_last()), ids.last())
    }
}

/// The position of a model, with the facts a search needs.
proof fn lemma_model_index(s: Seq<ModelInfo>, id: ModelId)
    ensures
        -1 <= model_index(s, id) < s.len(),
        model_index(s, id) >= 0 ==> s[model_index(s, id)].id == id,
        model_index(s, id) < 0 ==> forall|i: int| 0 <= i < s.len() ==> (#[trigger] s[i]).id != id,
        forall|i: int| model_index(s, id) < i < s.len() ==> (#[trigger] s[i]).id != id,
    decreases s.len(),
{
    if s.len() > 0 {
        let p = s.drop_last();
        lemma_model_index(p, id);
        assert(forall|i: int| 0 <= i < p.len() ==> p[i] == s[i]);
    }
}

/// In a list without repeated identifiers, a model's position is the one
/// holding its identifier.
proof fn lemma_model_index_unique(s: Seq<ModelInfo>, id: ModelId, i: int)
    requires
        unique_ids(s),
        0 <= i < s.len(),
        s[i].id == id,
    ensures
        model_index(s, id) == i,
{
    lemma_model_index(s, id);
}

/// The VRAM manager.
pub struct VRAMManager {
    max_vram_bytes: u64,
    current_usage: u64,
    loaded_models: Vec<ModelInfo>,
}

impl VRAMManager {
    /// The limit, in bytes.
    pub closed spec fn spec_max(&self) -> u64 {
        self.max_vram_bytes
    }

    /// The usage counter, in bytes.
    pub closed spec fn spec_usage(&self) -> u64 {
        self.current_usage
    }

    /// The loaded models.
    pub closed spec fn models(&self) -> Seq<ModelInfo> {
        self.loaded_models@
    }

    /// The manager's invariant: no model is listed twice.
    pub open spec fn well_formed(&self) -> bool {
        unique_ids(self.models())
    }

    /// A manager with a limit of `max_vram_mb` MB and nothing loaded.
    pub fn new(max_vram_mb: u64) -> (m: Self)
        requires
            max_vram_mb * MB <= u64::MAX,
        ensures
            m.well_formed(),
            m.spec_max() == max_vram_mb * MB,
            m.spec_usage() == 0,
            m.models().len() == 0,
    {
        VRAMManager { max_vram_bytes: max_vram_mb * MB, current_usage: 0, loaded_models: Vec::new() }
    }

    /// The VRAM in use, the limit and the number of loaded models.
    pub fn get_status(&self) -> (s: VRAMStatus)
        ensures
            s.used_bytes == self.spec_usage(),
            s.max_bytes == self.spec_max(),
            s.loaded_models == self.models().len(),
    {
        VRAMStatus {
            used_bytes: self.current_usage,
            max_bytes: self.max_vram_bytes,
            loaded_models: self.loaded_models.len(),
        }
    }

    /// Whether `needed_bytes` more fit under the limit.
    pub fn has_available_vram(&self, needed_bytes: u64) -> (r: bool)
        requires
            self.spec_usage() + needed_bytes <= u64::MAX,
        ensures
            r == (self.spec_usage() + needed_bytes <= self.spec_max()),
    {
        self.current_usage + needed_bytes <= self.max_vram_bytes
    }

    /// The bytes left under the limit (0 when over it).
    pub fn available_vram(&self) -> (r: u64)
        ensures
            r == if self.spec_usage() <= self.spec_max() {
                (self.spec_max() - self.spec_usage()) as u64
            } else {
                0
            },
    {
        self.max_vram_bytes.saturating_sub(self.current_usage)
    }

    /// The position of the model `id` in the list.
    fn find(&self, id: ModelId) -> (r: Option<usize>)
        ensures
            match r {
                Some(i) => i as int == model_index(self.models(), id),
                None => model_index(self.models(), id) < 0,
            },
    {
        proof {
            lemma_model_index(self.models(), id);
        }
        let mut i: usize = self.loaded_models.len();
        while i > 0
            invariant
                i <= self.loaded_models@.len(),
                forall|j: int| i <= j < self.loaded_models@.len() ==> (#[trigger] self.loaded_models@[j]).id != id,
                -1 <= model_index(self.models(), id) < self.models().len(),
                model_index(self.models(), id) >= 0 ==> self.models()[model_index(self.models(), id)].id == id,
                forall|j: int| model_index(self.models(), id) < j < self.models().len() ==> (#[trigger] self.models()[j]).id != id,
            decreases i,
        {
            if self.loaded_models[i - 1].id == id {
                return Some(i - 1);
            }
            i = i - 1;
        }
        None
    }

    /// Records the model as loaded and adds its bytes to the counter (which
    /// wraps around, as an atomic counter does). A model already listed under
    /// the same identifier is replaced.
    pub fn register_model(&mut self, model_info: ModelInfo)
        requires
            old(self).well_formed(),
        ensures
            final(self).well_formed(),
            final(self).spec_max() == old(self).spec_max(),
            final(self).spec_usage() == vstd::wrapping::u64_specs::wrapping_add(old(self).spec_usage(), model_info.vram_bytes),
            model_index(old(self).models(), model_info.id) < 0 ==> final(self).models() == old(self).models().push(model_info),
            model_index(old(self).models(), model_info.id) >= 0 ==> final(self).models() == old(self).models().update(
                model_index(old(self).models(), model_info.id),
                model_info,
            ),
    {
        let bytes = model_info.vram_bytes;
        match self.find(model_info.id) {
            Some(i) => {
                proof {
                    lemma_model_index(self.models(), model_info.id);
                }
                self.loaded_models.set(i, model_info);
            },
            None => {
                proof {
                    lemma_model_index(self.models(), model_info.id);
                }
                self.loaded_models.push(model_info);
            },
        }
        self.current_usage = self.current_usage.wrapping_add(bytes);
    }

    /// Takes the model out and subtracts its bytes from the counter; nothing
    /// changes when it is not loaded.
    pub fn unregister_model(&mut self, model_id: ModelId)
        requires
            old(self).well_formed(),
        ensures
            final(self).well_formed(),
            final(self).spec_max() == old(self).spec_max(),
            final(self).models() == without(old(self).models(), model_id),
            final(self).spec_usage() == usage_without(old(self).models(), old(self).spec_usage(), model_id),
    {
        proof {
            lemma_model_index(self.models(), model_id);
        }
        match self.find(model_id) {
            Some(i) => {
                let bytes = self.loaded_models[i].vram_bytes;
                let _m = self.loaded_models.remove(i);
                self.current_usage = self.current_usage.wrapping_sub(bytes);
                proof {
                    let s = old(self).models();
                    assert forall|a: int, b: int| 0 <= a < b < self.models().len() implies (#[trigger] self.models()[a]).id != (#[trigger] self.models()[b]).id by {
                        let a2 = if a < i { a } else { a + 1 };
                        let b2 = if b < i { b } else { b + 1 };
                        assert(self.models()[a] == s[a2]);
                        assert(self.models()[b] == s[b2]);
                    }
                }
            },
            None => {},
        }
    }

    /// Marks the model as used at `now` and counts the use.
    pub fn record_model_use(&mut self, model_id: ModelId, now: u64)
        requires
            old(self).well_formed(),
            model_index(old(self).models(), model_id) >= 0 ==> old(self).models()[model_index(old(self).models(), model_id)].use_count < u64::MAX,
        ensures
            final(self).well_formed(),
            final(self).spec_max() == old(self).spec_max(),
            final(self).spec_usage() == old(self).spec_usage(),
            final(self).models().len() == old(self).models().len(),
            forall|j: int| 0 <= j < old(self).models().len() && j != model_index(old(self).models(), model_id) ==> #[trigger] final(self).models()[j] == old(self).models()[j],
            model_index(old(self).models(), model_id) >= 0 ==> ({
                let i = model_index(old(self).models(), model_id);
                let m = old(self).models()[i];
                let m2 = final(self).models()[i];
                &&& m2.id == m.id
                &&& m2.name == m.name
                &&& m2.vram_bytes == m.vram_bytes
                &&& m2.last_used == now
                &&& m2.use_count == m.use_count + 1
            }),
    {
        match self.find(model_id) {
            Some(i) => {
                proof {
                    lemma_model_index(self.models(), model_id);
                }
                let mut v: Vec<ModelInfo> = Vec::new();
                std::mem::swap(&mut v, &mut self.loaded_models);
                let mut m = v.remove(i);
                m.last_used = now;
                m.use_count = m.use_count + 1;
                v.insert(i, m);
                std::mem::swap(&mut v, &mut self.loaded_models);
                proof {
                    let s = old(self).models();
                    assert forall|a: int, b: int| 0 <= a < b < self.models().len() implies (#[trigger] self.models()[a]).id != (#[trigger] self.models()[b]).id by {
                        assert(self.models()[a].id == s[a].id);
                        assert(self.models()[b].id == s[b].id);
                    }
                }
            },
            None => {},
        }
    }

    /// The limit, in bytes.
    pub fn max_vram_bytes(&self) -> (r: u64)
        ensures
            r == self.spec_max(),
    {
        self.max_vram_bytes
    }

    /// Sets the limit to `max_mb` MB; loaded models stay.
    pub fn set_max_vram_mb(&mut self, max_mb: u64)
        requires
            max_mb * MB <= u64::MAX,
        ensures
            final(self).spec_max() == max_mb * MB,
            final(self).spec_usage() == old(self).spec_usage(),
            final(self).models() == old(self).models(),
    {
        self.max_vram_bytes = max_mb * MB;
    }

    /// Copies of the loaded models' records.
    pub fn get_loaded_models(&self) -> (r: Vec<ModelInfo>)
        ensures
            r@.len() == self.models().len(),
            forall|j: int| 0 <= j < r@.len() ==> {
                let a = #[trigger] r@[j];
                let b = self.models()[j];
                a.id == b.id && a.name@ == b.name@ && a.vram_bytes == b.vram_bytes && a.last_used == b.last_used && a.use_count == b.use_count
            },
    {
        let mut r: Vec<ModelInfo> = Vec::new();
        let mut i: usize = 0;
        while i < self.loaded_models.len()
            invariant
                i <= self.loaded_models@.len(),
                r@.len() == i,
                forall|j: int| 0 <= j < i ==> {
                    let a = #[trigger] r@[j];
                    let b = self.models()[j];
                    a.id == b.id && a.name@ == b.name@ && a.vram_bytes == b.vram_bytes && a.last_used == b.last_used && a.use_count == b.use_count
                },
            decreases self.loaded_models@.len() - i,
        {
            r.push(self.loaded_models[i].clone());
            i = i + 1;
        }
        r
    }

    /// Takes every model out and sets the counter to 0.
    pub fn evict_all_models(&mut self)
        requires
            old(self).well_formed(),
        ensures
            final(self).well_formed(),
            final(self).spec_max() == old(self).spec_max(),
            final(self).models().len() == 0,
            final(self).spec_usage() == 0,
    {
        let mut ids: Vec<ModelId> = Vec::new();
        let mut i: usize = 0;
        while i < self.loaded_models.len()
            invariant
                i <= self.loaded_models@.len(),
                ids@.len() == i,
                forall|j: int| 0 <= j < i ==> ids@[j] == #[trigger] self.loaded_models@[j].id,
            decreases self.loaded_models@.len() - i,
        {
            ids.push(self.loaded_models[i].id);
            i = i + 1;
        }
        let ghost start = self.models();
        let mut k: usize = 0;
        while k < ids.len()
            invariant
                self.well_formed(),
                self.spec_max() == old(self).spec_max(),
                k <= ids@.len(),
                ids@.len() == start.len(),
                unique_ids(start),
                forall|j: int| 0 <= j < start.len() ==> ids@[j] == #[trigger] start[j].id,
                self.models() == start.subrange(k as int, start.len() as int),
            decreases ids@.len() - k,
        {
            proof {
                lemma_model_index_unique(self.models(), ids@[k as int], 0);
            }
            self.unregister_model(ids[k]);
            proof {
                assert(self.models() =~= start.subrange(k + 1, start.len() as int));
            }
            k = k + 1;
        }
        self.current_usage = 0;
    }

    /// Does nothing yet: models are loaded when first used.
    pub fn prewarm_models(&self) -> (r: Result<(), String>)
        ensures
            r is Ok,
    {
        Ok(())
    }
}


/// Inserting before the first entry used later is `insert_by_time`.
proof fn lemma_insert_by_time_at(s: Seq<(u64, ModelId, u64)>, x: (u64, ModelId, u64), p: int)
    requires
        0 <= p <= s.len(),
        forall|k: int| 0 <= k < p ==> !(x.0 < (#[trigger] s[k]).0),
        p < s.len() ==> x.0 < s[p].0,
    ensures
        insert_by_time(s, x) == s.insert(p, x),
    decreases s.len(),
{
    if s.len() == 0 {
        assert(s.insert(p, x) =~= seq![x]);
    } else if p == 0 {
        assert(s.insert(0, x) =~= seq![x] + s);
    } else {
        let t = s.drop_first();
        assert forall|k: int| 0 <= k < p - 1 implies !(x.0 < (#[trigger] t[k]).0) by {
            assert(t[k] == s[k + 1]);
        }
        lemma_insert_by_time_at(t, x, p - 1);
        assert(seq![s[0]] + t.insert(p - 1, x) =~= s.insert(p, x));
    }
}

/// The models' entries, least recently used first.
fn lru_sorted(models: &Vec<ModelInfo>) -> (r: Vec<(u64, ModelId, u64)>)
    ensures
        r@ == lru_order(models@),
{
    let mut sorted: Vec<(u64, ModelId, u64)> = Vec::new();
    let mut i: usize = 0;
    while i < models.len()
        invariant
            i <= models@.len(),
            sorted@ == lru_order(models@.take(i as int)),
        decreases models@.len() - i,
    {
        let m = &models[i];
        let x = (m.last_used, m.id, m.vram_bytes);
        proof {
            assert(models@.take(i + 1).drop_last() =~= models@.take(i as int));
            assert(lru_entry(models@.take(i + 1).last()) == x);
        }
        let mut p: usize = 0;
        while p < sorted.len()
            invariant
                p <= sorted@.len(),
                forall|k: int| 0 <= k < p ==> !(x.0 < (#[trigger] sorted@[k]).0),
            ensures
                p <= sorted@.len(),
                forall|k: int| 0 <= k < p ==> !(x.0 < (#[trigger] sorted@[k]).0),
                p < sorted@.len() ==> x.0 < sorted@[p as int].0,
            decreases sorted@.len() - p,
        {
            if x.0 < sorted[p].0 {
                break;
            }
            p = p + 1;
        }
        proof {
            lemma_insert_by_time_at(sorted@, x, p as int);
        }
        sorted.insert(p, x);
        i = i + 1;
    }
    proof {
        assert(models@.take(models@.len() as int) =~= models@);
    }
    sorted
}

/// The identifiers of the entries.
pub open spec fn entry_ids(s: Seq<(u64, ModelId, u64)>) -> Seq<ModelId> {
    s.map_values(|e: (u64, ModelId, u64)| e.1)
}

/// The message of a failed eviction.
pub open spec fn evict_failure_text(needed: u64, freed: int) -> Seq<char> {
    "Cannot free enough VRAM: need "@ + crate::utils::dec_str((needed / MB) as nat) + " MB, can free "@
        + crate::utils::dec_str((freed / (MB as int)) as nat) + " MB"@
}

impl VRAMManager {
    /// Frees at least `needed_bytes` by evicting models, least recently used
    /// first (models used at the same time in the order they are listed),
    /// stopping as soon as enough is freed. Fails, evicting nothing, when all
    /// models together hold less than `needed_bytes`.
    pub fn evict_models(&mut self, needed_bytes: u64) -> (r: Result<Vec<ModelId>, String>)
        requires
            old(self).well_formed(),
        ensures
            final(self).well_formed(),
            final(self).spec_max() == old(self).spec_max(),
            ({
                let sorted = lru_order(old(self).models());
                let k = evict_count(sorted, needed_bytes as int);
                let freed = entry_bytes(sorted.take(k));
                &&& freed < needed_bytes ==> r is Err && final(self).models() == old(self).models()
                    && final(self).spec_usage() == old(self).spec_usage()
                &&& r matches Err(e) ==> freed < needed_bytes && e@ == evict_failure_text(needed_bytes, freed)
                &&& r matches Ok(ids) ==> ids@ == entry_ids(sorted.take(k))
                    && final(self).models() == without_all(old(self).models(), ids@)
                    && final(self).spec_usage() == usage_without_all(old(self).models(), old(self).spec_usage(), ids@)
            }),
    {
        let sorted = lru_sorted(&self.loaded_models);
        let ghost s = sorted@;
        let ghost needed = needed_bytes as int;
        let mut freed: u128 = 0;
        let mut to_evict: Vec<ModelId> = Vec::new();
        let mut i: usize = 0;
        proof {
            assert(s.subrange(0, s.len() as int) =~= s);
            assert(s.take(0) =~= Seq::<(u64, ModelId, u64)>::empty());
        }
        while i < sorted.len()
            invariant
                s == sorted@,
                needed == needed_bytes,
                i <= s.len(),
                freed == entry_bytes(s.take(i as int)),
                freed <= i * 0x1_0000_0000_0000_0000,
                i <= usize::MAX,
                evict_count(s, needed) == i + evict_count(s.subrange(i as int, s.len() as int), needed - freed),
                to_evict@ == entry_ids(s.take(i as int)),
            ensures
                freed == entry_bytes(s.take(i as int)),
                evict_count(s, needed) == i,
                to_evict@ == entry_ids(s.take(i as int)),
            decreases s.len() - i,
        {
            if freed >= needed_bytes as u128 {
                proof {
                    assert(evict_count(s.subrange(i as int, s.len() as int), needed - freed) == 0);
                }
                break;
            }
            let e = sorted[i];
            to_evict.push(e.1);
            proof {
                let rest = s.subrange(i as int, s.len() as int);
                assert(rest.drop_first() =~= s.subrange(i + 1, s.len() as int));
                assert(rest[0] == e);
                assert(evict_count(rest, needed - freed) == 1 + evict_count(rest.drop_first(), needed - freed - e.2));
                assert(s.take(i + 1).drop_last() =~= s.take(i as int));
                assert(entry_ids(s.take(i + 1)) =~= entry_ids(s.take(i as int)).push(e.1));
                assert(freed + e.2 <= (i + 1) * 0x1_0000_0000_0000_0000) by (nonlinear_arith)
                    requires freed <= i * 0x1_0000_0000_0000_0000, e.2 < 0x1_0000_0000_0000_0000;
                assert((i + 1) * 0x1_0000_0000_0000_0000 <= 0x1_0000_0000_0000_0000 * 0x1_0000_0000_0000_0000) by (nonlinear_arith)
                    requires i + 1 <= 0x1_0000_0000_0000_0000;
            }
            freed = freed + e.2 as u128;
            i = i + 1;
        }
        if freed < needed_bytes as u128 {
            let mut msg: Vec<char> = Vec::new();
            let t1 = "Cannot free enough VRAM: need ";
            let t2 = " MB, can free ";
            let t3 = " MB";
            crate::diluted::append_text(&mut msg, t1);
            crate::utils::push_decimal(&mut msg, (needed_bytes / MB) as u128);
            crate::diluted::append_text(&mut msg, t2);
            crate::utils::push_decimal(&mut msg, freed / (MB as u128));
            crate::diluted::append_text(&mut msg, t3);
            proof {
                assert(msg@ =~= evict_failure_text(needed_bytes, freed as int));
            }
            return Err(crate::text::string_from_chars(msg.as_slice()));
        }
        let ghost start = self.models();
        let ghost start_usage = self.spec_usage();
        let mut j: usize = 0;
        proof {
            assert(to_evict@.take(0) =~= Seq::<ModelId>::empty());
        }
        while j < to_evict.len()
            invariant
                self.well_formed(),
                self.spec_max() == old(self).spec_max(),
                j <= to_evict@.len(),
                self.models() == without_all(start, to_evict@.take(j as int)),
                self.spec_usage() == usage_without_all(start, start_usage, to_evict@.take(j as int)),
            decreases to_evict@.len() - j,
        {
            proof {
                assert(to_evict@.take(j + 1).drop_last() =~= to_evict@.take(j as int));
            }
            self.unregister_model(to_evict[j]);
            j = j + 1;
        }
        proof {
            assert(to_evict@.take(to_evict@.len() as int) =~= to_evict@);
        }
        Ok(to_evict)
    }
}

/// Registering a model whose identifier is not loaded and then unregistering
/// it gives back the models and the usage counter as they were.
pub proof fn lemma_register_unregister(models: Seq<ModelInfo>, usage: u64, info: ModelInfo)
    requires
        model_index(models, info.id) < 0,
    ensures
        without(models.push(info), info.id) == models,
        usage_without(models.push(info), vstd::wrapping::u64_specs::wrapping_add(usage, info.vram_bytes), info.id) == usage,
{
    let s = models.push(info);
    assert(s.drop_last() =~= models);
    assert(model_index(s, info.id) == models.len());
    assert(s.remove(models.len() as int) =~= models);
}

/// The counter equals the bytes of the loaded models, and it stays so: when a
/// model not yet loaded is registered without overflowing the counter, and
/// when a model is unregistered.
pub proof fn lemma_usage_matches_models(models: Seq<ModelInfo>, usage: u64, info: ModelInfo, id: ModelId)
    requires
        usage == total_bytes(models),
        unique_ids(models),
    ensures
        model_index(models, info.id) < 0 && usage + info.vram_bytes <= u64::MAX ==> vstd::wrapping::u64_specs::wrapping_add(usage, info.vram_bytes) == total_bytes(models.push(info)),
        usage_without(models, usage, id) == total_bytes(without(models, id)),
{
    assert(models.push(info).drop_last() =~= models);
    lemma_model_index(models, id);
    if model_index(models, id) >= 0 {
        lemma_total_bytes_remove(models, model_index(models, id));
    }
}

/// Taking out a model takes its bytes out of the total.
proof fn lemma_total_bytes_remove(s: Seq<ModelInfo>, i: int)
    requires
        0 <= i < s.len(),
    ensures
        total_bytes(s.remove(i)) == total_bytes(s) - s[i].vram_bytes,
        total_bytes(s) >= s[i].vram_bytes,
    decreases s.len(),
{
    if i == s.len() - 1 {
        assert(s.remove(i) =~= s.drop_last());
        lemma_total_bytes_nonneg(s.drop_last());
    } else {
        lemma_total_bytes_remove(s.drop_last(), i);
        assert(s.remove(i).drop_last() =~= s.drop_last().remove(i));
        assert(s.remove(i).last() == s.last());
    }
}

/// A total of bytes is never negative.
proof fn lemma_total_bytes_nonneg(s: Seq<ModelInfo>)
    ensures
        total_bytes(s) >= 0,
    decreases s.len(),
{
    if s.len() > 0 {
        lemma_total_bytes_nonneg(s.drop_last());
    }
}


impl VRAMManager {
    /// The free VRAM in whole MB (0 when over the limit).
    pub open spec fn available_mb(&self) -> u64 {
        ((if self.spec_usage() <= self.spec_max() { self.spec_max() - self.spec_usage() } else { 0 }) / (MB as int)) as u64
    }

    /// The bytes that evicting for `needed` bytes frees: those of the least
    /// recently used models taken until `needed` is reached or none is left.
    pub open spec fn freeable(&self, needed: u64) -> int {
        let sorted = lru_order(self.models());
        entry_bytes(sorted.take(evict_count(sorted, needed as int)))
    }

    /// Whether evicting for `needed` bytes fails: all models together hold less.
    pub open spec fn eviction_fails(&self, needed: u64) -> bool {
        self.freeable(needed) < needed
    }

    /// Whether `self` is what evicting for `needed` bytes leaves of `before`:
    /// unchanged when that fails, otherwise without the models taken.
    pub open spec fn evicted_for(&self, before: VRAMManager, needed: u64) -> bool {
        let sorted = lru_order(before.models());
        let ids = entry_ids(sorted.take(evict_count(sorted, needed as int)));
        &&& self.spec_max() == before.spec_max()
        &&& before.eviction_fails(needed) ==> self.models() == before.models() && self.spec_usage() == before.spec_usage()
        &&& !before.eviction_fails(needed) ==> self.models() == without_all(before.models(), ids)
            && self.spec_usage() == usage_without_all(before.models(), before.spec_usage(), ids)
    }

    /// Whether `self` is `before` with `info` registered: listed (in place of
    /// a model with its identifier, else at the end) and its bytes counted.
    pub open spec fn registered(&self, before: VRAMManager, info: ModelInfo) -> bool {
        &&& self.spec_max() == before.spec_max()
        &&& self.spec_usage() == vstd::wrapping::u64_specs::wrapping_add(before.spec_usage(), info.vram_bytes)
        &&& model_index(before.models(), info.id) < 0 ==> self.models() == before.models().push(info)
        &&& model_index(before.models(), info.id) >= 0 ==> self.models() == before.models().update(model_index(before.models(), info.id), info)
    }
}


/// The VRAM in use stays within the limit when a model is registered only
/// after `has_available_vram` said its bytes fit: usage and bytes together do
/// not exceed the limit.
pub proof fn lemma_register_within_limit(before: VRAMManager, after: VRAMManager, info: ModelInfo)
    requires
        before.spec_usage() + info.vram_bytes <= before.spec_max(),
        after.registered(before, info),
    ensures
        after.spec_usage() <= after.spec_max(),
        after.spec_usage() == before.spec_usage() + info.vram_bytes,
{
}

} // verus!
