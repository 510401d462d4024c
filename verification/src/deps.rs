//! The build-dependency state machine: a dependency is either still to be
//! built from scratch or already packaged, and the artifact layout is a pure
//! function of the artifact path.  All file-system and process work lives
//! behind the `Dependency` trait, implemented by the host around this
//! library; paths are carried as plain strings.

use vstd::prelude::*;
use vstd::string::StringExecFns;

use core::marker::PhantomData;

verus! {

/// A git repository checkout: its working-tree path and the commit it
/// stands at.  The host populates it; the library only carries it.
#[derive(Debug, Clone, PartialEq, Eq)]
pub struct GitRepo {
    pub path: String,
    pub commit: String,
}

/// Mathematical model of a repository checkout.
#[verifier::ext_equal]
pub struct GitRepoSpec {
    pub path: Seq<char>,
    pub commit: Seq<char>,
}

impl View for GitRepo {
    type V = GitRepoSpec;

    open spec fn view(&self) -> GitRepoSpec {
        GitRepoSpec { path: self.path@, commit: self.commit@ }
    }
}

impl GitRepo {
    /// Record a checkout.
    pub fn new(path: String, commit: String) -> (r: Self)
        ensures
            r@ == (GitRepoSpec { path: path@, commit: commit@ }),
    {
        GitRepo { path, commit }
    }

    /// The working-tree path.
    pub fn path(&self) -> (r: &str)
        ensures
            r@ == self@.path,
    {
        self.path.as_str()
    }

    /// The commit the checkout stands at.
    pub fn commit(&self) -> (r: &str)
        ensures
            r@ == self@.commit,
    {
        self.commit.as_str()
    }
}

/// A dependency of the project.  The host implements the actual
/// configuration and build work, which runs outside this library.
pub trait Dependency {
    /// Location of the git repo from the project root, in path segments.
    fn repo_path_from_root() -> Vec<String>;

    /// List configurable options for building.
    fn list_build_options(path_src: &String, path_build: &String) -> Result<(), String>;

    /// Build the dependency from scratch, installing to the artifact
    /// directory when one is given.
    fn build(path_src: &String, path_build: &String, path_install: Option<&String>) -> Result<
        (),
        String,
    >;
}

/// The build-from-scratch state of a dependency.
pub struct Scratch<T: Dependency> {
    pub repo: GitRepo,
    pub artifact: String,
    pub _phantom: PhantomData<T>,
}

/// The package-ready state of a dependency.
pub struct Package<T: Dependency> {
    pub repo: GitRepo,
    pub artifact: String,
    pub _phantom: PhantomData<T>,
}

impl<T: Dependency> Scratch<T> {
    /// Build the dependency from scratch.  On success the same checkout and
    /// artifact location carry over into the package-ready state; the build
    /// itself is the trait implementor's work and may fail.
    pub fn make(self, workdir: Option<&String>) -> (r: Result<Package<T>, String>)
        ensures
            r matches Ok(p) ==> p.repo@ == self.repo@ && p.artifact@ == self.artifact@,
    {
        let Scratch { repo, artifact, _phantom } = self;
        let outcome = match workdir {
            Option::None => T::build(&repo.path, &artifact, Option::None),
            Option::Some(path) => T::build(&repo.path, path, Option::Some(&artifact)),
        };
        match outcome {
            Result::Err(e) => Result::Err(e),
            Result::Ok(u) => Result::Ok(Package { repo, artifact, _phantom }),
        }
    }
}

impl<T: Dependency> Package<T> {
    /// The git repo of the package.
    pub fn git_repo(&self) -> (r: &GitRepo)
        ensures
            r@ == self.repo@,
    {
        &self.repo
    }

    /// The artifact path of the package.
    pub fn artifact_path(&self) -> (r: &str)
        ensures
            r@ == self.artifact@,
    {
        self.artifact.as_str()
    }
}

/// Which of the two states a dependency is in.
pub enum DepState<T: Dependency> {
    Scratch(Scratch<T>),
    Package(Package<T>),
}

impl<T: Dependency> DepState<T> {
    /// Decide the state of a dependency: a pre-built artifact that already
    /// exists means package-ready, anything else means from-scratch.  The
    /// host reports whether the artifact directory exists.
    pub fn new(repo: GitRepo, artifact: String, artifact_exists: bool) -> (r: Self)
        ensures
            artifact_exists ==> (r matches DepState::Package(p) && p.repo@ == repo@ && p.artifact@
                == artifact@),
            !artifact_exists ==> (r matches DepState::Scratch(s) && s.repo@ == repo@ && s.artifact@
                == artifact@),
    {
        if artifact_exists {
            DepState::Package(Package { repo, artifact, _phantom: PhantomData })
        } else {
            DepState::Scratch(Scratch { repo, artifact, _phantom: PhantomData })
        }
    }
}

/// The artifact layout of the LLVM dependency: a build tree and an install
/// tree under one artifact directory.
#[derive(Debug, Clone, PartialEq, Eq)]
pub struct ResolverLLVM {
    /// base path of the artifact directory
    pub artifact_dir: String,
    /// the build tree under the artifact directory
    pub build_dir: String,
    /// the install tree under the artifact directory
    pub install_dir: String,
}

impl ResolverLLVM {
    /// Derive the layout from the artifact directory.
    pub fn construct(path: String) -> (r: Self)
        ensures
            r.artifact_dir@ == path@,
            r.build_dir@ == path@ + "/build"@,
            r.install_dir@ == path@ + "/install"@,
    {
        let build_dir = path.clone().concat("/build");
        let install_dir = path.clone().concat("/install");
        ResolverLLVM { artifact_dir: path, build_dir, install_dir }
    }

    /// Give the artifact directory back.
    pub fn destruct(self) -> (r: String)
        ensures
            r@ == self.artifact_dir@,
    {
        self.artifact_dir
    }

    /// The build tree.
    pub fn path_build(&self) -> (r: &str)
        ensures
            r@ == self.build_dir@,
    {
        self.build_dir.as_str()
    }

    /// The install tree.
    pub fn path_install(&self) -> (r: &str)
        ensures
            r@ == self.install_dir@,
    {
        self.install_dir.as_str()
    }
}

/// The baseline cmake configuration shared by every LLVM build.
pub fn baseline_cmake_options() -> (r: Vec<String>)
    ensures
        r@.len() == 8,
        r@[0]@ == "-DCMAKE_BUILD_TYPE=Debug"@,
        r@[1]@ == "-DBUILD_SHARED_LIBS=ON"@,
        r@[2]@ == "-DLLVM_ENABLE_PROJECTS=clang;clang-tools-extra;libc;lld;lldb;polly"@,
        r@[3]@ == "-DLLVM_ENABLE_RUNTIMES=compiler-rt;libcxx;libcxxabi;libunwind"@,
        r@[4]@ == "-DLLVM_ENABLE_RTTI=ON"@,
        r@[5]@ == "-DLLVM_ENABLE_LIBCXX=ON"@,
        r@[6]@ == "-DLIBC_ENABLE_USE_BY_CLANG=ON"@,
        r@[7]@ == "-DCLANG_DEFAULT_CXX_STDLIB=libc++"@,
{
    let mut out: Vec<String> = Vec::new();
    out.push("-DCMAKE_BUILD_TYPE=Debug".to_owned());
    out.push("-DBUILD_SHARED_LIBS=ON".to_owned());
    out.push("-DLLVM_ENABLE_PROJECTS=clang;clang-tools-extra;libc;lld;lldb;polly".to_owned());
    out.push("-DLLVM_ENABLE_RUNTIMES=compiler-rt;libcxx;libcxxabi;libunwind".to_owned());
    out.push("-DLLVM_ENABLE_RTTI=ON".to_owned());
    out.push("-DLLVM_ENABLE_LIBCXX=ON".to_owned());
    out.push("-DLIBC_ENABLE_USE_BY_CLANG=ON".to_owned());
    out.push("-DCLANG_DEFAULT_CXX_STDLIB=libc++".to_owned());
    out
}

} // verus!
