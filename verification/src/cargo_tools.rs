use vstd::prelude::*;

verus! {

/// The version of a Cargo package: major, minor and patch number, and the
/// pre-release tag (empty where there is none).
#[derive(Debug, Copy, Clone, Eq, PartialEq)]
pub struct CargoPackageVersion {
    major: u64,
    minor: u64,
    patch: u64,
    pre_release: &'static str,
}

impl CargoPackageVersion {
    /// The major version number.
    pub closed spec fn spec_major(&self) -> u64 {
        self.major
    }

    /// The minor version number.
    pub closed spec fn spec_minor(&self) -> u64 {
        self.minor
    }

    /// The patch number.
    pub closed spec fn spec_patch(&self) -> u64 {
        self.patch
    }

    /// The pre-release tag.
    pub closed spec fn spec_pre_release(&self) -> &'static str {
        self.pre_release
    }

    /// The major version number.
    pub fn major(&self) -> (r: u64)
        ensures
            r == self.spec_major(),
    {
        self.major
    }

    /// The minor version number.
    pub fn minor(&self) -> (r: u64)
        ensures
            r == self.spec_minor(),
    {
        self.minor
    }

    /// The patch number.
    pub fn patch(&self) -> (r: u64)
        ensures
            r == self.spec_patch(),
    {
        self.patch
    }

    /// The pre-release tag.
    pub fn pre_release(&self) -> (r: &'static str)
        ensures
            r == self.spec_pre_release(),
    {
        self.pre_release
    }

    /// The version with these parts.
    pub fn new(major: u64, minor: u64, patch: u64, pre_release: &'static str) -> (r: Self)
        ensures
            r.spec_major() == major,
            r.spec_minor() == minor,
            r.spec_patch() == patch,
            r.spec_pre_release() == pre_release,
    {
        Self { major, minor, patch, pre_release }
    }
}

/// What Cargo knows about a package: its version and the texts of its
/// manifest.
#[derive(Debug, Copy, Clone, Eq, PartialEq)]
pub struct CargoPackageInfo {
    version: CargoPackageVersion,
    name: &'static str,
    authors: &'static str,
    description: &'static str,
    homepage: &'static str,
    repository: &'static str,
}

impl CargoPackageInfo {
    /// The version of the package.
    pub closed spec fn spec_version(&self) -> CargoPackageVersion {
        self.version
    }

    /// The name of the package.
    pub closed spec fn spec_name(&self) -> &'static str {
        self.name
    }

    /// The authors, as the manifest lists them.
    pub closed spec fn spec_authors(&self) -> &'static str {
        self.authors
    }

    /// The description of the package.
    pub closed spec fn spec_description(&self) -> &'static str {
        self.description
    }

    /// The address of the package's home page.
    pub closed spec fn spec_homepage(&self) -> &'static str {
        self.homepage
    }

    /// The address of the package's repository.
    pub closed spec fn spec_repository(&self) -> &'static str {
        self.repository
    }

    /// The version of the package.
    pub fn version(&self) -> (r: CargoPackageVersion)
        ensures
            r == self.spec_version(),
    {
        self.version
    }

    /// The name of the package.
    pub fn name(&self) -> (r: &'static str)
        ensures
            r == self.spec_name(),
    {
        self.name
    }

    /// The authors, as the manifest lists them.
    pub fn authors(&self) -> (r: &'static str)
        ensures
            r == self.spec_authors(),
    {
        self.authors
    }

    /// The description of the package.
    pub fn description(&self) -> (r: &'static str)
        ensures
            r == self.spec_description(),
    {
        self.description
    }

    /// The address of the package's home page.
    pub fn homepage(&self) -> (r: &'static str)
        ensures
            r == self.spec_homepage(),
    {
        self.homepage
    }

    /// The address of the package's repository.
    pub fn repository(&self) -> (r: &'static str)
        ensures
            r == self.spec_repository(),
    {
        self.repository
    }

    /// The info with these parts.
    pub fn new(
        version: CargoPackageVersion,
        name: &'static str,
        authors: &'static str,
        description: &'static str,
        homepage: &'static str,
        repository: &'static str,
    ) -> (r: Self)
        ensures
            r.spec_version() == version,
            r.spec_name() == name,
            r.spec_authors() == authors,
            r.spec_description() == description,
            r.spec_homepage() == homepage,
            r.spec_repository() == repository,
    {
        Self { version, name, authors, description, homepage, repository }
    }
}

/// The profile that a package is compiled with.
#[derive(Hash, Debug, Copy, Clone, Eq, PartialEq)]
pub enum CargoProfile {
    Debug,
    Release,
}

} // verus!
