use vstd::prelude::*;
use vstd::string::{StrSliceExecFns, StringExecFns};

use crate::backend::Backend;

verus! {

/// The operating system, which decides the library's file name, the variable that holds
/// the dynamic-library search path, and the path separators.
#[derive(Debug, Clone, Copy, PartialEq, Eq, Structural)]
pub enum Platform {
    Linux,
    MacOS,
    Windows,
}

impl Platform {
    pub open spec fn spec_dylib_path_env(self) -> Seq<char> {
        match self {
            Platform::MacOS => "DYLD_LIBRARY_PATH"@,
            Platform::Windows => "PATH"@,
            Platform::Linux => "LD_LIBRARY_PATH"@,
        }
    }

    /// Characters that end a directory component of a path.
    pub open spec fn is_separator(self, c: char) -> bool {
        c == '/' || (self is Windows && c == '\\')
    }

    /// The separator put between a directory and a name appended to it.
    pub open spec fn spec_separator(self) -> Seq<char> {
        if self is Windows {
            "\\"@
        } else {
            "/"@
        }
    }

    /// `name` appended to directory `dir`, with a separator between them unless `dir` is
    /// empty or already ends in one.
    pub open spec fn spec_join(self, dir: Seq<char>, name: Seq<char>) -> Seq<char> {
        if dir.len() == 0 || self.is_separator(dir.last()) {
            dir + name
        } else {
            dir + self.spec_separator() + name
        }
    }

    /// The environment variable that holds the platform's dynamic-library search path.
    pub fn dylib_path_env(&self) -> (r: &'static str)
        ensures
            r@ == self.spec_dylib_path_env(),
    {
        match self {
            Platform::MacOS => "DYLD_LIBRARY_PATH",
            Platform::Windows => "PATH",
            Platform::Linux => "LD_LIBRARY_PATH",
        }
    }

    /// Appends the relative name `name` to the directory `dir`.
    pub fn join(&self, dir: &String, name: &str) -> (r: String)
        ensures
            r@ == self.spec_join(dir@, name@),
    {
        let len = dir.as_str().unicode_len();
        if len == 0 {
            return dir.clone().concat(name);
        }
        let last = dir.as_str().get_char(len - 1);
        if last == '/' || (*self == Platform::Windows && last == '\\') {
            dir.clone().concat(name)
        } else {
            let sep = match self {
                Platform::Windows => "\\",
                _ => "/",
            };
            dir.clone().concat(sep).concat(name)
        }
    }
}

impl Backend {
    pub open spec fn spec_library_file_name(self, platform: Platform) -> Seq<char> {
        match (self, platform) {
            (Backend::Mkl, Platform::Windows) => "libmkl_rt.dll"@,
            (Backend::Mkl, Platform::MacOS) => "libmkl_rt.dylib"@,
            (Backend::Mkl, Platform::Linux) => "libmkl_rt.so"@,
            (Backend::Panua, Platform::Windows) => "libpardiso.dll"@,
            (Backend::Panua, Platform::MacOS) => "libpardiso.dylib"@,
            (Backend::Panua, Platform::Linux) => "libpardiso.so"@,
        }
    }

    /// The file name of the backend's shared library on `platform`.
    pub fn library_file_name(&self, platform: Platform) -> (r: &'static str)
        ensures
            r@ == self.spec_library_file_name(platform),
    {
        match (self, platform) {
            (Backend::Mkl, Platform::Windows) => "libmkl_rt.dll",
            (Backend::Mkl, Platform::MacOS) => "libmkl_rt.dylib",
            (Backend::Mkl, Platform::Linux) => "libmkl_rt.so",
            (Backend::Panua, Platform::Windows) => "libpardiso.dll",
            (Backend::Panua, Platform::MacOS) => "libpardiso.dylib",
            (Backend::Panua, Platform::Linux) => "libpardiso.so",
        }
    }
}

/// The values of the environment variables that the search reads. A variable that is
/// unset, or not valid Unicode, is given as the empty string.
pub struct SearchEnv {
    /// The platform's dynamic-library search path.
    pub dylib_path: String,
    /// `MKLROOT`, the root of an MKL installation.
    pub mkl_root: String,
    /// `MKL_PARDISO_PATH`, a directory that holds the MKL library.
    pub mkl_pardiso_path: String,
    /// `PARDISO_PATH`, a directory that holds the Panua library.
    pub pardiso_path: String,
}

/// Where to look for a backend's shared library: first every directory of the dynamic
/// library search path, then, if the file is in none of them, the fallback directories
/// in order. The first directory that holds `file_name` wins; a relative directory is
/// taken from the current directory.
pub struct SearchPlan {
    pub file_name: &'static str,
    pub search_path: String,
    pub fallback_dirs: Vec<String>,
}

/// The fallback directories of `backend`: the backend's own variables first, then the
/// conventional install locations, then the current directory. Empty entries stand for
/// unset variables.
pub open spec fn spec_fallback_dirs(backend: Backend, platform: Platform, env: SearchEnv) -> Seq<
    Seq<char>,
> {
    match backend {
        Backend::Mkl => seq![
            if env.mkl_root@.len() == 0 {
                Seq::empty()
            } else {
                platform.spec_join(env.mkl_root@, "lib"@)
            },
            env.mkl_root@,
            env.mkl_pardiso_path@,
            "/opt/intel/oneapi/mkl/latest/lib"@,
            "./"@,
        ],
        Backend::Panua => seq![env.pardiso_path@, "/usr/lib/"@, "/usr/local/lib/"@, "."@],
    }
}

/// The search for `backend`'s library on `platform`, given the environment.
pub fn search_plan(backend: Backend, platform: Platform, env: &SearchEnv) -> (r: SearchPlan)
    ensures
        r.file_name@ == backend.spec_library_file_name(platform),
        r.search_path@ == env.dylib_path@,
        r.fallback_dirs@.len() == spec_fallback_dirs(backend, platform, *env).len(),
        forall|i: int|
            0 <= i < r.fallback_dirs@.len() ==> #[trigger] r.fallback_dirs@[i]@
                == spec_fallback_dirs(backend, platform, *env)[i],
{
    let mut dirs: Vec<String> = Vec::new();
    match backend {
        Backend::Mkl => {
            let lib_dir = if env.mkl_root.as_str().unicode_len() == 0 {
                String::new()
            } else {
                platform.join(&env.mkl_root, "lib")
            };
            dirs.push(lib_dir);
            dirs.push(env.mkl_root.clone());
            dirs.push(env.mkl_pardiso_path.clone());
            dirs.push(String::from_str("/opt/intel/oneapi/mkl/latest/lib"));
            dirs.push(String::from_str("./"));
        },
        Backend::Panua => {
            dirs.push(env.pardiso_path.clone());
            dirs.push(String::from_str("/usr/lib/"));
            dirs.push(String::from_str("/usr/local/lib/"));
            dirs.push(String::from_str("."));
        },
    }
    SearchPlan {
        file_name: backend.library_file_name(platform),
        search_path: env.dylib_path.clone(),
        fallback_dirs: dirs,
    }
}

} // verus!
