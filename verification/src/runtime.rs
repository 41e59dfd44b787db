//! Runtime dependencies: which accelerators and which ONNX Runtime build the
//! application can use.
//!
//! Looking for the ONNX Runtime library on disk and reading the environment
//! happen outside the library; the functions here decide from what was found:
//! which places to search, which of them to take, and what the status says.

use vstd::prelude::*;
use crate::launcher::Platform;
use crate::text::str_eq;

verus! {

/// The name of an execution provider, as a spec value.
pub open spec fn cpu_provider() -> Seq<char> {
    seq!['C', 'P', 'U']
}

/// `"CUDA"` as a spec value.
pub open spec fn cuda_provider() -> Seq<char> {
    seq!['C', 'U', 'D', 'A']
}

/// `"DirectML"` as a spec value.
pub open spec fn directml_provider() -> Seq<char> {
    seq!['D', 'i', 'r', 'e', 'c', 't', 'M', 'L']
}

/// `"CoreML"` as a spec value.
pub open spec fn coreml_provider() -> Seq<char> {
    seq!['C', 'o', 'r', 'e', 'M', 'L']
}

/// The ONNX Runtime version reported when the library was found.
pub open spec fn onnx_version() -> Seq<char> {
    seq!['1', '.', '1', '6', '.', '0']
}

/// `/usr/local/lib`, the system's library directory on Linux and macOS.
pub open spec fn unix_lib_dir() -> Seq<char> {
    seq!['/', 'u', 's', 'r', '/', 'l', 'o', 'c', 'a', 'l', '/', 'l', 'i', 'b']
}

/// `C:\Program Files\onnxruntime\lib`, where the ONNX Runtime installer puts the
/// library on Windows.
pub open spec fn windows_lib_dir() -> Seq<char> {
    seq![
        'C', ':', '\\', 'P', 'r', 'o', 'g', 'r', 'a', 'm', ' ', 'F', 'i', 'l', 'e', 's', '\\',
        'o', 'n', 'n', 'x', 'r', 'u', 'n', 't', 'i', 'm', 'e', '\\', 'l', 'i', 'b',
    ]
}

/// The system directory searched last on `platform`.
pub open spec fn system_lib_dir(platform: Platform) -> Seq<char> {
    match platform {
        Platform::Windows => windows_lib_dir(),
        _ => unix_lib_dir(),
    }
}

/// The places searched for the library, in order: `deps/onnxruntime`, the
/// `ORT_LIB_LOCATION` setting when it is present and not empty, and the
/// system's library directory.
pub open spec fn search_paths(platform: Platform, ort: Option<Seq<char>>) -> Seq<Seq<char>> {
    let first = seq!['d', 'e', 'p', 's', '/', 'o', 'n', 'n', 'x', 'r', 'u', 'n', 't', 'i', 'm', 'e'];
    match ort {
        Some(e) => if e.len() > 0 {
            seq![first, e, system_lib_dir(platform)]
        } else {
            seq![first, system_lib_dir(platform)]
        },
        None => seq![first, system_lib_dir(platform)],
    }
}

/// Whether the `i`-th search path can be taken: it is not empty and its
/// flag says it exists.
pub open spec fn usable(paths: Seq<Seq<char>>, exists: Seq<bool>, i: int) -> bool {
    &&& 0 <= i < paths.len()
    &&& paths[i].len() > 0
    &&& i < exists.len()
    &&& exists[i]
}

/// The first search path that can be taken, if any.
pub open spec fn first_usable(paths: Seq<Seq<char>>, exists: Seq<bool>) -> Option<Seq<char>> {
    if exists|i: int| usable(paths, exists, i) {
        let i = choose|i: int| usable(paths, exists, i) && forall|k: int| 0 <= k < i ==> !usable(paths, exists, k);
        Some(paths[i])
    } else {
        None
    }
}

/// The execution providers on `platform`: the CPU, CUDA when it is
/// available, DirectML on Windows and CoreML on macOS.
pub open spec fn providers(platform: Platform, cuda: bool) -> Seq<Seq<char>> {
    let base = if cuda { seq![cpu_provider(), cuda_provider()] } else { seq![cpu_provider()] };
    match platform {
        Platform::Windows => base.push(directml_provider()),
        Platform::MacOs => base.push(coreml_provider()),
        Platform::Linux => base,
    }
}

/// Checker of the runtime dependencies.
pub struct RuntimeDependencies;

/// Whether CUDA can be used, and what it offers.
#[derive(Debug, Clone)]
pub struct CudaStatus {
    /// Whether CUDA is available.
    pub available: bool,
    /// The CUDA version, when available.
    pub version: Option<String>,
    /// The VRAM in MB, when available.
    pub vram_mb: Option<u64>,
    /// The GPU's name, when available.
    pub device_name: Option<String>,
}

/// Whether ONNX Runtime can be used, and with which execution providers.
#[derive(Debug, Clone)]
pub struct OnnxStatus {
    /// Whether the library was found.
    pub available: bool,
    /// The library's version, when found.
    pub version: Option<String>,
    /// Where the library was found.
    pub library_path: Option<String>,
    /// The execution providers, `CPU` first.
    pub execution_providers: Vec<String>,
}

/// Both statuses together.
#[derive(Debug, Clone)]
pub struct RuntimeStatus {
    pub cuda: CudaStatus,
    pub onnx: OnnxStatus,
}

/// The view of an optional string.
pub open spec fn opt_view(o: Option<String>) -> Option<Seq<char>> {
    match o {
        Some(s) => Some(s@),
        None => None,
    }
}

/// The names held by a list of strings.
pub open spec fn names(v: Seq<String>) -> Seq<Seq<char>> {
    v.map_values(|s: String| s@)
}

/// A string holding `"CPU"`.
fn cpu_string() -> (s: String)
    ensures
        s@ == cpu_provider(),
{
    let s = "CPU";
    proof {
        reveal_strlit("CPU");
    }
    s.to_owned()
}

/// A string holding `"CUDA"`.
fn cuda_string() -> (s: String)
    ensures
        s@ == cuda_provider(),
{
    let s = "CUDA";
    proof {
        reveal_strlit("CUDA");
    }
    s.to_owned()
}

/// The system's library directory on `platform`, as a string.
fn system_lib_dir_string(platform: Platform) -> (s: String)
    ensures
        s@ == system_lib_dir(platform),
{
    match platform {
        Platform::Windows => {
            let d = "C:\\Program Files\\onnxruntime\\lib";
            proof {
                reveal_strlit("C:\\Program Files\\onnxruntime\\lib");
                assert(d@ =~= windows_lib_dir());
            }
            d.to_owned()
        },
        _ => {
            let d = "/usr/local/lib";
            proof {
                reveal_strlit("/usr/local/lib");
                assert(d@ =~= unix_lib_dir());
            }
            d.to_owned()
        },
    }
}

/// When the `i`-th path is the first that can be taken, it is the one taken.
pub proof fn lemma_first_usable_at(paths: Seq<Seq<char>>, exists: Seq<bool>, i: int)
    requires
        usable(paths, exists, i),
        forall|k: int| 0 <= k < i ==> !usable(paths, exists, k),
    ensures
        first_usable(paths, exists) == Some(paths[i]),
{
    let j = choose|j: int| usable(paths, exists, j) && forall|k: int| 0 <= k < j ==> !usable(paths, exists, k);
    assert(usable(paths, exists, j) && forall|k: int| 0 <= k < j ==> !usable(paths, exists, k));
    if j < i {
        assert(!usable(paths, exists, j));
    } else if i < j {
        assert(!usable(paths, exists, i));
    }
}

/// When no path can be taken, none is.
pub proof fn lemma_first_usable_none(paths: Seq<Seq<char>>, exists: Seq<bool>)
    requires
        forall|k: int| 0 <= k < paths.len() ==> !usable(paths, exists, k),
    ensures
        first_usable(paths, exists) is None,
{
    assert(!(exists|i: int| usable(paths, exists, i)));
}

impl RuntimeDependencies {
    /// The CUDA status. This build has no CUDA support compiled in, so CUDA is
    /// reported unavailable and the application runs on the CPU.
    pub fn check_cuda() -> (s: CudaStatus)
        ensures
            !s.available,
            s.version is None,
            s.vram_mb is None,
            s.device_name is None,
    {
        CudaStatus { available: false, version: None, vram_mb: None, device_name: None }
    }

    /// The places searched for the ONNX Runtime library, in order: the
    /// project's `deps/onnxruntime`, then `ORT_LIB_LOCATION` when it is set and
    /// not empty, then the system's library directory (`system_lib_dir`).
    pub fn onnx_search_paths(platform: Platform, ort_lib_location: Option<String>) -> (v: Vec<String>)
        ensures
            names(v@) == search_paths(platform, opt_view(ort_lib_location)),
    {
        let mut v: Vec<String> = Vec::new();
        let first = "deps/onnxruntime";
        proof {
            reveal_strlit("deps/onnxruntime");
            assert(first@ =~= search_paths(platform, None)[0]);
        }
        v.push(first.to_owned());
        match ort_lib_location {
            Some(e) => {
                if !e.as_str().is_empty() {
                    v.push(e);
                }
            },
            None => {},
        }
        v.push(system_lib_dir_string(platform));
        proof {
            assert(names(v@) =~= search_paths(platform, opt_view(ort_lib_location)));
        }
        v
    }

    /// The first of the search paths that is not empty and exists, where
    /// `exists[i]` tells whether `paths[i]` exists (a path without a flag
    /// counts as missing); `None` when there is no such path.
    pub fn find_onnx_library(paths: &Vec<String>, exists: &Vec<bool>) -> (r: Option<String>)
        ensures
            opt_view(r) == first_usable(names(paths@), exists@),
    {
        let mut i: usize = 0;
        while i < paths.len()
            invariant
                i <= paths@.len(),
                forall|k: int| 0 <= k < i ==> !usable(names(paths@), exists@, k),
            decreases paths@.len() - i,
        {
            if !paths[i].as_str().is_empty() && i < exists.len() && exists[i] {
                proof {
                    assert(usable(names(paths@), exists@, i as int));
                    lemma_first_usable_at(names(paths@), exists@, i as int);
                }
                return Some(paths[i].clone());
            }
            proof {
                assert(names(paths@)[i as int] == paths@[i as int]@);
            }
            i = i + 1;
        }
        proof {
            lemma_first_usable_none(names(paths@), exists@);
        }
        None
    }

    /// The ONNX Runtime status on `platform`, given where the library was
    /// found (`None` when none of the search paths holds it). `CPU` is always
    /// a provider; `CUDA` follows when CUDA is available, then `DirectML` on
    /// Windows and `CoreML` on macOS.
    pub fn check_onnx(platform: Platform, library_path: Option<String>) -> (s: OnnxStatus)
        ensures
            s.available == library_path is Some,
            opt_view(s.library_path) == opt_view(library_path),
            s.available ==> opt_view(s.version) == Some(onnx_version()),
            !s.available ==> s.version is None,
            names(s.execution_providers@) == providers(platform, false),
    {
        let available = library_path.is_some();
        let mut execution_providers: Vec<String> = Vec::new();
        execution_providers.push(cpu_string());
        let cuda = Self::check_cuda();
        if cuda.available {
            execution_providers.push(cuda_string());
        }
        match platform {
            Platform::Windows => {
                let d = "DirectML";
                proof {
                    reveal_strlit("DirectML");
                    assert(d@ =~= directml_provider());
                }
                execution_providers.push(d.to_owned());
            },
            Platform::MacOs => {
                let c = "CoreML";
                proof {
                    reveal_strlit("CoreML");
                    assert(c@ =~= coreml_provider());
                }
                execution_providers.push(c.to_owned());
            },
            Platform::Linux => {},
        }
        let version = if available {
            let v = "1.16.0";
            proof {
                reveal_strlit("1.16.0");
            }
            Some(v.to_owned())
        } else {
            None
        };
        proof {
            assert(names(execution_providers@) =~= providers(platform, false));
        }
        OnnxStatus { available, version, library_path, execution_providers }
    }

    /// Both statuses, given where the ONNX Runtime library was found: the
    /// CUDA status as `check_cuda` gives it and the ONNX status as
    /// `check_onnx` gives it.
    pub fn check_all(platform: Platform, library_path: Option<String>) -> (s: RuntimeStatus)
        ensures
            !s.cuda.available,
            s.cuda.version is None,
            s.cuda.vram_mb is None,
            s.cuda.device_name is None,
            s.onnx.available == library_path is Some,
            opt_view(s.onnx.library_path) == opt_view(library_path),
            s.onnx.available ==> opt_view(s.onnx.version) == Some(onnx_version()),
            !s.onnx.available ==> s.onnx.version is None,
            names(s.onnx.execution_providers@) == providers(platform, false),
    {
        RuntimeStatus { cuda: Self::check_cuda(), onnx: Self::check_onnx(platform, library_path) }
    }
}

/// Whether some provider other than `CPU` is listed.
pub open spec fn has_non_cpu(p: Seq<Seq<char>>) -> bool {
    exists|i: int| 0 <= i < p.len() && p[i] != cpu_provider()
}

/// The provider to use: CUDA when available, else DirectML, else CoreML when
/// listed, else the CPU.
pub open spec fn recommended(cuda: bool, p: Seq<Seq<char>>) -> Seq<char> {
    if cuda {
        cuda_provider()
    } else if p.contains(directml_provider()) {
        directml_provider()
    } else if p.contains(coreml_provider()) {
        coreml_provider()
    } else {
        cpu_provider()
    }
}

/// Whether `v` holds a string equal to `name`.
fn contains_name(v: &Vec<String>, name: &str) -> (r: bool)
    ensures
        r == names(v@).contains(name@),
{
    let mut i: usize = 0;
    while i < v.len()
        invariant
            i <= v@.len(),
            forall|k: int| 0 <= k < i ==> v@[k]@ != name@,
        decreases v@.len() - i,
    {
        if str_eq(v[i].as_str(), name) {
            proof {
                assert(names(v@)[i as int] == name@);
            }
            return true;
        }
        i = i + 1;
    }
    proof {
        if names(v@).contains(name@) {
            let k = choose|k: int| 0 <= k < names(v@).len() && names(v@)[k] == name@;
            assert(v@[k]@ == name@);
        }
    }
    false
}

impl RuntimeStatus {
    /// Whether GPU acceleration is available: CUDA, or any provider other
    /// than the CPU.
    pub fn has_gpu_acceleration(&self) -> (r: bool)
        ensures
            r == (self.cuda.available || has_non_cpu(names(self.onnx.execution_providers@))),
    {
        if self.cuda.available {
            return true;
        }
        let cpu = cpu_string();
        let p = &self.onnx.execution_providers;
        let mut i: usize = 0;
        while i < p.len()
            invariant
                i <= p@.len(),
                p@ == self.onnx.execution_providers@,
                cpu@ == cpu_provider(),
                forall|k: int| 0 <= k < i ==> p@[k]@ == cpu_provider(),
            decreases p@.len() - i,
        {
            if !str_eq(p[i].as_str(), cpu.as_str()) {
                proof {
                    assert(names(p@)[i as int] == p@[i as int]@);
                    assert(names(p@)[i as int] != cpu_provider());
                    assert(has_non_cpu(names(p@)));
                }
                return true;
            }
            i = i + 1;
        }
        proof {
            assert forall|k: int| 0 <= k < names(p@).len() implies names(p@)[k] == cpu_provider() by {
                assert(p@[k]@ == cpu_provider());
            }
        }
        false
    }

    /// The execution provider to use.
    pub fn recommended_provider(&self) -> (r: &str)
        ensures
            r@ == recommended(self.cuda.available, names(self.onnx.execution_providers@)),
    {
        proof {
            reveal_strlit("CUDA");
            reveal_strlit("DirectML");
            reveal_strlit("CoreML");
            reveal_strlit("CPU");
            assert("CUDA"@ =~= cuda_provider());
            assert("DirectML"@ =~= directml_provider());
            assert("CoreML"@ =~= coreml_provider());
            assert("CPU"@ =~= cpu_provider());
        }
        if self.cuda.available {
            "CUDA"
        } else if contains_name(&self.onnx.execution_providers, "DirectML") {
            "DirectML"
        } else if contains_name(&self.onnx.execution_providers, "CoreML") {
            "CoreML"
        } else {
            "CPU"
        }
    }

    /// The VRAM in MB, 0 when there is no GPU.
    pub fn available_vram_mb(&self) -> (r: u64)
        ensures
            r == match self.cuda.vram_mb {
                Some(v) => v,
                None => 0,
            },
    {
        match self.cuda.vram_mb {
            Some(v) => v,
            None => 0,
        }
    }
}

} // verus!
