//! The speech-recognition model file and the stand-in engine used when the native
//! recogniser is not built.
use vstd::prelude::*;

verus! {

/// Where the multilingual Parakeet TDT 0.6B V3 model (Q4_K GGUF) is downloaded from.
pub const PARAKEET_V3_URL: &'static str =
    "https://huggingface.co/mudler/parakeet-cpp-gguf/resolve/main/parakeet-tdt-0.6b-v3-q4_k.gguf";

/// The expected size of the model file, about 180 MiB.
pub const PARAKEET_V3_SIZE_BYTES: u64 = 180 * 1024 * 1024;

/// The name the model file is stored under.
pub const PARAKEET_V3_FILENAME: &'static str = "parakeet-tdt-0.6b-v3-q4_k.gguf";

/// A stand-in recogniser: it remembers which model it was told to load and
/// produces a placeholder transcript.
pub struct MockEngine {
    loaded: bool,
    path: Option<String>,
}

impl MockEngine {
    pub closed spec fn spec_loaded(&self) -> bool {
        self.loaded
    }

    pub closed spec fn spec_path(&self) -> Option<Seq<char>> {
        match self.path {
            Some(p) => Some(p@),
            None => None,
        }
    }

    /// "Loads" the model at `model_path`: remembers the path and reports success.
    pub fn load(&mut self, model_path: String) -> (r: Result<(), String>)
        ensures
            r is Ok,
            final(self).spec_loaded(),
            final(self).spec_path() == Some(model_path@),
    {
        self.loaded = true;
        self.path = Some(model_path);
        Ok(())
    }

    /// Whether a model has been loaded since the last unload.
    pub fn is_loaded(&self) -> (b: bool)
        ensures
            b == self.spec_loaded(),
    {
        self.loaded
    }

    /// Forgets the loaded model.
    pub fn unload(&mut self)
        ensures
            !final(self).spec_loaded(),
            final(self).spec_path() is None,
    {
        self.loaded = false;
        self.path = None;
    }

    /// The path of the loaded model, if any.
    pub fn model_path(&self) -> (p: &Option<String>)
        ensures
            self.spec_path() == (match *p { Some(s) => Some(s@), None => None }),
    {
        &self.path
    }

    /// The engine's name.
    pub fn backend_name(&self) -> (s: &'static str)
        ensures
            s@ == "mock"@,
    {
        "mock"
    }
}

impl Default for MockEngine {
    fn default() -> (e: MockEngine)
        ensures
            !e.spec_loaded(),
            e.spec_path() is None,
    {
        MockEngine { loaded: false, path: None }
    }
}

} // verus!
