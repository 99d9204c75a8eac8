//! The catalogue of speech models and the download progress of each.
use vstd::prelude::*;

use crate::text::str_eq;
use crate::stt::parakeet::{PARAKEET_V3_FILENAME, PARAKEET_V3_SIZE_BYTES, PARAKEET_V3_URL};

verus! {

/// A model that can be downloaded.
#[derive(Debug, Clone)]
pub struct ModelDescriptor {
    pub id: String,
    pub name: String,
    pub description: String,
    pub size_bytes: u64,
    pub url: String,
    pub filename: String,
}

/// What preparing the recogniser for the configured model comes to.
#[derive(Debug, Clone)]
pub enum ModelLoad {
    /// The recogniser already holds a model: nothing is loaded.
    AlreadyLoaded,
    /// The recogniser is to load the file of this catalogue entry.
    Load(ModelDescriptor),
    /// The configured model is not in the catalogue.
    Unknown,
}

/// A model as the settings screen shows it.
#[derive(Debug, Clone)]
pub struct ModelInfo {
    pub id: String,
    pub name: String,
    pub description: String,
    pub size_bytes: u64,
    pub downloaded: bool,
    pub downloading: bool,
    pub progress: u8,
}

/// A descriptor by its values.
pub open spec fn descriptor_view(d: ModelDescriptor) -> (Seq<char>, Seq<char>, Seq<char>, u64, Seq<char>, Seq<char>) {
    (d.id@, d.name@, d.description@, d.size_bytes, d.url@, d.filename@)
}

/// The catalogue: the multilingual Parakeet V3 model.
pub open spec fn catalogue() -> Seq<(Seq<char>, Seq<char>, Seq<char>, u64, Seq<char>, Seq<char>)> {
    seq![(
        "parakeet-tdt-0.6b-v3"@,
        "Parakeet TDT 0.6B V3 (wielojęzyczny)"@,
        "Polski + 25 języków. Wysoka jakość, ~675MB (Q4_K)."@,
        PARAKEET_V3_SIZE_BYTES,
        PARAKEET_V3_URL@,
        PARAKEET_V3_FILENAME@,
    )]
}

/// The smallest file size, in bytes, that counts as a downloaded model: anything
/// up to 1 MiB is taken for a failed or partial download.
pub const MIN_MODEL_FILE_BYTES: u64 = 1024 * 1024;

/// Whether a model file of `len` bytes counts as downloaded: larger than 1 MiB.
pub fn is_valid_model_size(len: u64) -> (b: bool)
    ensures
        b == (len > MIN_MODEL_FILE_BYTES),
{
    len > MIN_MODEL_FILE_BYTES
}

// ---------------------------------------------------------------------------
// Download progress per model
// ---------------------------------------------------------------------------

/// The map that a list of `(id, percent)` entries stands for: the first entry of
/// each id counts.
pub open spec fn entries_map(s: Seq<(String, u8)>) -> Map<Seq<char>, u8>
    decreases s.len(),
{
    if s.len() == 0 {
        Map::empty()
    } else {
        let m = entries_map(s.drop_last());
        if m.contains_key(s.last().0@) {
            m
        } else {
            m.insert(s.last().0@, s.last().1)
        }
    }
}

/// The entries of `s` whose id is not `k`, in order.
pub open spec fn entries_without(s: Seq<(String, u8)>, k: Seq<char>) -> Seq<(String, u8)>
    decreases s.len(),
{
    if s.len() == 0 {
        s
    } else if s.last().0@ == k {
        entries_without(s.drop_last(), k)
    } else {
        entries_without(s.drop_last(), k).push(s.last())
    }
}

proof fn lemma_without_map(s: Seq<(String, u8)>, k: Seq<char>)
    ensures
        entries_map(entries_without(s, k)) == entries_map(s).remove(k),
    decreases s.len(),
{
    if s.len() > 0 {
        lemma_without_map(s.drop_last(), k);
        let m = entries_map(s.drop_last());
        if s.last().0@ == k {
            assert(entries_map(s).remove(k) =~= m.remove(k));
        } else {
            let w = entries_without(s.drop_last(), k);
            assert(w.push(s.last()).drop_last() =~= w);
            assert(entries_map(w.push(s.last())) =~= entries_map(s).remove(k));
        }
    }
}

proof fn lemma_prefix_map(s: Seq<(String, u8)>, j: int, k: Seq<char>)
    requires
        0 <= j <= s.len(),
        entries_map(s.subrange(0, j)).contains_key(k),
    ensures
        entries_map(s).contains_key(k),
        entries_map(s)[k] == entries_map(s.subrange(0, j))[k],
    decreases s.len() - j,
{
    if j == s.len() {
        assert(s.subrange(0, j) =~= s);
    } else {
        assert(s.subrange(0, j + 1).drop_last() =~= s.subrange(0, j));
        lemma_prefix_map(s, j + 1, k);
    }
}

/// The download progress of each model, in percent.
pub struct ProgressTable {
    entries: Vec<(String, u8)>,
}

impl ProgressTable {
    pub closed spec fn view(&self) -> Map<Seq<char>, u8> {
        entries_map(self.entries@)
    }

    /// A table with no progress recorded.
    pub fn new() -> (t: ProgressTable)
        ensures
            t.view() == Map::<Seq<char>, u8>::empty(),
    {
        ProgressTable { entries: Vec::new() }
    }

    /// The progress recorded for `id`, if any.
    pub fn get(&self, id: &str) -> (r: Option<u8>)
        ensures
            r == (if self.view().contains_key(id@) { Some(self.view()[id@]) } else { None }),
    {
        let n = self.entries.len();
        let mut i: usize = 0;
        while i < n
            invariant
                n == self.entries@.len(),
                i <= n,
                !entries_map(self.entries@.subrange(0, i as int)).contains_key(id@),
            decreases n - i,
        {
            let ghost s = self.entries@;
            assert(s.subrange(0, i + 1).drop_last() =~= s.subrange(0, i as int));
            if str_eq(self.entries[i].0.as_str(), id) {
                proof {
                    lemma_prefix_map(s, i + 1, id@);
                }
                return Some(self.entries[i].1);
            }
            i = i + 1;
        }
        assert(self.entries@.subrange(0, n as int) =~= self.entries@);
        None
    }

    fn without(&self, id: &str) -> (v: Vec<(String, u8)>)
        ensures
            v@ == entries_without(self.entries@, id@),
    {
        let n = self.entries.len();
        let mut v: Vec<(String, u8)> = Vec::new();
        let mut i: usize = 0;
        while i < n
            invariant
                n == self.entries@.len(),
                i <= n,
                v@ == entries_without(self.entries@.subrange(0, i as int), id@),
            decreases n - i,
        {
            let ghost s = self.entries@;
            assert(s.subrange(0, i + 1).drop_last() =~= s.subrange(0, i as int));
            if !str_eq(self.entries[i].0.as_str(), id) {
                let k = self.entries[i].0.clone();
                v.push((k, self.entries[i].1));
            }
            i = i + 1;
        }
        assert(self.entries@.subrange(0, n as int) =~= self.entries@);
        v
    }

    /// Records `pct` as the progress of `id`.
    pub fn insert(&mut self, id: &str, pct: u8)
        ensures
            final(self).view() == old(self).view().insert(id@, pct),
    {
        let mut v = self.without(id);
        proof {
            lemma_without_map(self.entries@, id@);
        }
        let ghost w = v@;
        v.push((id.to_string(), pct));
        assert(v@.drop_last() =~= w);
        self.entries = v;
        assert(self.view() =~= old(self).view().insert(id@, pct));
    }

    /// Forgets the progress of `id`.
    pub fn remove(&mut self, id: &str)
        ensures
            final(self).view() == old(self).view().remove(id@),
    {
        let v = self.without(id);
        proof {
            lemma_without_map(self.entries@, id@);
        }
        self.entries = v;
    }
}

/// The progress shown for model `id`: the recorded value, or zero when none is.
pub open spec fn recorded_progress(m: Map<Seq<char>, u8>, id: Seq<char>) -> u8 {
    if m.contains_key(id) { m[id] } else { 0 }
}

/// Reading progress back after recording it: the value just recorded for the same
/// model, the earlier value for any other model; and zero after it is cleared.
pub proof fn lemma_progress_read_after_write(m: Map<Seq<char>, u8>, id: Seq<char>, other: Seq<char>, pct: u8)
    requires
        other != id,
    ensures
        recorded_progress(m.insert(id, pct), id) == pct,
        recorded_progress(m.insert(id, pct), other) == recorded_progress(m, other),
        recorded_progress(m.remove(id), id) == 0,
        recorded_progress(m.remove(id), other) == recorded_progress(m, other),
{
}

/// Whether a model with this progress is being downloaded: started and not finished.
pub open spec fn is_downloading(progress: u8) -> bool {
    0 < progress && progress < 100
}

// ---------------------------------------------------------------------------
// The catalogue with progress
// ---------------------------------------------------------------------------

/// The models on offer and how far each download has got.
pub struct ModelManager {
    progress: ProgressTable,
}

impl ModelManager {
    /// The recorded progress, by model id.
    pub closed spec fn progress_map(&self) -> Map<Seq<char>, u8> {
        self.progress.view()
    }

    /// A manager with no download in progress.
    pub fn new() -> (m: ModelManager)
        ensures
            m.progress_map() == Map::<Seq<char>, u8>::empty(),
    {
        ModelManager { progress: ProgressTable::new() }
    }

    /// The models that can be downloaded.
    pub fn descriptors(&self) -> (v: Vec<ModelDescriptor>)
        ensures
            v@.len() == catalogue().len(),
            forall|i: int| 0 <= i < v@.len() ==> descriptor_view(#[trigger] v@[i]) == catalogue()[i],
    {
        let mut v: Vec<ModelDescriptor> = Vec::new();
        v.push(ModelDescriptor {
            id: String::from_str("parakeet-tdt-0.6b-v3"),
            name: String::from_str("Parakeet TDT 0.6B V3 (wielojęzyczny)"),
            description: String::from_str("Polski + 25 języków. Wysoka jakość, ~675MB (Q4_K)."),
            size_bytes: PARAKEET_V3_SIZE_BYTES,
            url: String::from_str(PARAKEET_V3_URL),
            filename: String::from_str(PARAKEET_V3_FILENAME),
        });
        v
    }

    /// The model with identifier `id`, if the catalogue has one.
    pub fn descriptor(&self, id: &str) -> (r: Option<ModelDescriptor>)
        ensures
            r is Some <==> exists|i: int| 0 <= i < catalogue().len() && (#[trigger] catalogue()[i]).0 == id@,
            r matches Some(d) ==> exists|i: int| 0 <= i < catalogue().len() && #[trigger] catalogue()[i] == descriptor_view(d) && catalogue()[i].0 == id@
                && forall|j: int| 0 <= j < i ==> (#[trigger] catalogue()[j]).0 != id@,
    {
        let all = self.descriptors();
        let n = all.len();
        let mut i: usize = 0;
        while i < n
            invariant
                n == all@.len(),
                n == catalogue().len(),
                i <= n,
                forall|j: int| 0 <= j < all@.len() ==> descriptor_view(#[trigger] all@[j]) == catalogue()[j],
                forall|j: int| 0 <= j < i ==> (#[trigger] catalogue()[j]).0 != id@,
            decreases n - i,
        {
            if str_eq(all[i].id.as_str(), id) {
                assert(descriptor_view(all@[i as int]) == catalogue()[i as int]);
                return Some(ModelDescriptor {
                    id: all[i].id.clone(),
                    name: all[i].name.clone(),
                    description: all[i].description.clone(),
                    size_bytes: all[i].size_bytes,
                    url: all[i].url.clone(),
                    filename: all[i].filename.clone(),
                });
            }
            assert(descriptor_view(all@[i as int]) == catalogue()[i as int]);
            i = i + 1;
        }
        None
    }

    /// Which model the recogniser is to load before transcribing: none when it
    /// already holds one (`engine_loaded`), otherwise the catalogue entry of
    /// `model_id`, or `Unknown` when the catalogue has none.
    pub fn model_to_load(&self, engine_loaded: bool, model_id: &str) -> (r: ModelLoad)
        ensures
            r is AlreadyLoaded <==> engine_loaded,
            r is Unknown <==> (!engine_loaded
                && !exists|i: int| 0 <= i < catalogue().len() && (#[trigger] catalogue()[i]).0 == model_id@),
            r matches ModelLoad::Load(d) ==> exists|i: int| 0 <= i < catalogue().len()
                && #[trigger] catalogue()[i] == descriptor_view(d) && catalogue()[i].0 == model_id@
                && forall|j: int| 0 <= j < i ==> (#[trigger] catalogue()[j]).0 != model_id@,
    {
        if engine_loaded {
            ModelLoad::AlreadyLoaded
        } else {
            match self.descriptor(model_id) {
                Some(d) => ModelLoad::Load(d),
                None => ModelLoad::Unknown,
            }
        }
    }

    /// The progress of `id`, zero when none was recorded.
    pub fn progress_of(&self, id: &str) -> (p: u8)
        ensures
            p == recorded_progress(self.progress_map(), id@),
    {
        match self.progress.get(id) {
            Some(p) => p,
            None => 0,
        }
    }

    /// Records that the download of `id` has reached `pct` percent.
    pub fn set_progress(&mut self, id: &str, pct: u8)
        ensures
            final(self).progress_map() == old(self).progress_map().insert(id@, pct),
    {
        self.progress.insert(id, pct);
    }

    /// Forgets the download progress of `id`.
    pub fn clear_progress(&mut self, id: &str)
        ensures
            final(self).progress_map() == old(self).progress_map().remove(id@),
    {
        self.progress.remove(id);
    }

    /// The catalogue as the settings screen lists it: for each model, whether its
    /// file is present (`downloaded`, one flag per model, in catalogue order), its
    /// recorded progress (zero when none), and whether it is being downloaded.
    pub fn list(&self, downloaded: &Vec<bool>) -> (v: Vec<ModelInfo>)
        requires
            downloaded@.len() == catalogue().len(),
        ensures
            v@.len() == catalogue().len(),
            forall|i: int| 0 <= i < v@.len() ==> {
                let m = #[trigger] v@[i];
                let c = catalogue()[i];
                let p = recorded_progress(self.progress_map(), c.0);
                &&& m.id@ == c.0
                &&& m.name@ == c.1
                &&& m.description@ == c.2
                &&& m.size_bytes == c.3
                &&& m.downloaded == downloaded@[i]
                &&& m.progress == p
                &&& m.downloading == is_downloading(p)
            },
    {
        let all = self.descriptors();
        let n = all.len();
        let mut out: Vec<ModelInfo> = Vec::new();
        let mut i: usize = 0;
        while i < n
            invariant
                n == all@.len(),
                n == catalogue().len(),
                n == downloaded@.len(),
                i <= n,
                out@.len() == i,
                forall|j: int| 0 <= j < all@.len() ==> descriptor_view(#[trigger] all@[j]) == catalogue()[j],
                forall|j: int| 0 <= j < i ==> {
                    let m = #[trigger] out@[j];
                    let c = catalogue()[j];
                    let p = recorded_progress(self.progress_map(), c.0);
                    &&& m.id@ == c.0
                    &&& m.name@ == c.1
                    &&& m.description@ == c.2
                    &&& m.size_bytes == c.3
                    &&& m.downloaded == downloaded@[j]
                    &&& m.progress == p
                    &&& m.downloading == is_downloading(p)
                },
            decreases n - i,
        {
            let d = &all[i];
            assert(descriptor_view(all@[i as int]) == catalogue()[i as int]);
            let p = self.progress_of(d.id.as_str());
            out.push(ModelInfo {
                id: d.id.clone(),
                name: d.name.clone(),
                description: d.description.clone(),
                size_bytes: d.size_bytes,
                downloaded: downloaded[i],
                downloading: p > 0 && p < 100,
                progress: p,
            });
            i = i + 1;
        }
        out
    }
}

} // verus!
