//! Packages: what can be installed, how packages are told apart and how
//! they are ordered.

use vstd::prelude::*;
use crate::action::Manifest;
use crate::platform::{Arch, PlatformError, PlatformFault, OS};
use crate::requirement::{Comparator, Requirement, RequirementView};
use crate::text::{compare_text, lemma_lex_order_props, lex_order, same_text, Order};
use crate::version::{version_of, Version, VersionError, VersionFault, VersionView};

verus! {

/// A concrete installable unit.
#[derive(Clone, Debug)]
pub struct Package {
    pub name: String,
    pub version: Version,
    pub publisher: String,
    pub os: OS,
    pub arch: Arch,
    pub summary: String,
    pub description: String,
    pub requirements: Vec<Requirement>,
    pub channels: Vec<String>,
    pub location: i32,
    /// Precedence among packages of one name: the lower, the higher.
    pub priority: i32,
}

/// The mathematical value of a [`Package`].
pub struct PackageView {
    pub name: Seq<char>,
    pub version: VersionView,
    pub publisher: Seq<char>,
    pub os: OS,
    pub arch: Arch,
    pub summary: Seq<char>,
    pub description: Seq<char>,
    pub requirements: Seq<RequirementView>,
    pub channels: Seq<Seq<char>>,
    pub location: i32,
    pub priority: i32,
}

impl View for Package {
    type V = PackageView;

    open spec fn view(&self) -> PackageView {
        PackageView {
            name: self.name@,
            version: self.version@,
            publisher: self.publisher@,
            os: self.os,
            arch: self.arch,
            summary: self.summary@,
            description: self.description@,
            requirements: self.requirements@.map_values(|r: Requirement| r@),
            channels: self.channels@.map_values(|c: String| c@),
            location: self.location,
            priority: self.priority,
        }
    }
}

/// Why a manifest describes no package.
#[derive(Clone, Debug, PartialEq, Eq)]
pub enum PackageError {
    Version(VersionError),
    Platform(PlatformError),
}

/// The mathematical value of a [`PackageError`].
pub enum PackageFault {
    Version(VersionFault),
    Platform(PlatformFault),
}

impl View for PackageError {
    type V = PackageFault;

    open spec fn view(&self) -> PackageFault {
        match self {
            PackageError::Version(e) => PackageFault::Version(e@),
            PackageError::Platform(e) => PackageFault::Platform(e@),
        }
    }
}

/// The priority that a package has unless it is given another.
pub const DEFAULT_PRIORITY: i32 = 10;

impl PackageView {
    /// Package equality: the same name, the same written version and the
    /// same priority.
    pub open spec fn same(self, other: PackageView) -> bool {
        self.name == other.name && self.version.text() == other.version.text() && self.priority
            == other.priority
    }

    /// Package order: by name ascending; among equal names the package with
    /// the numerically lower priority ranks higher and so comes later;
    /// among equal priorities by version ascending.
    pub open spec fn order(self, other: PackageView) -> int {
        if lex_order(self.name, other.name) != 0 {
            lex_order(self.name, other.name)
        } else if self.priority > other.priority {
            -1
        } else if self.priority < other.priority {
            1
        } else {
            self.version.order(other.version)
        }
    }

    /// Whether the package meets a requirement: the names agree, and the
    /// version stands to the required one as the comparator says. A
    /// comparator other than `ANY` is never met without a required version.
    pub open spec fn satisfies(self, req: RequirementView) -> bool {
        self.name == req.name && match req.comparator {
            Comparator::ANY => true,
            Comparator::EXQ => match req.version {
                Some(v) => self.version.exact(v),
                None => false,
            },
            Comparator::GTE => match req.version {
                Some(v) => self.version.order(v) >= 0,
                None => false,
            },
            Comparator::EQ => match req.version {
                Some(v) => self.version.same_semver(v),
                None => false,
            },
            Comparator::LTE => match req.version {
                Some(v) => self.version.order(v) <= 0,
                None => false,
            },
        }
    }

    /// The identifier `name@version`.
    pub open spec fn id(self) -> Seq<char> {
        self.name + "@"@ + self.version.text()
    }

    /// The name of the package file: `name@version-os-arch.zpkg`.
    pub open spec fn file_name(self) -> Seq<char> {
        self.name + "@"@ + self.version.text() + "-"@ + self.os.name() + "-"@ + self.arch.name()
            + ".zpkg"@
    }
}

/// The package that a manifest describes, from its identity record.
pub open spec fn package_of(m: Manifest) -> Result<PackageView, PackageFault> {
    match version_of(m.zpkg.version@) {
        Err(e) => Err(PackageFault::Version(e)),
        Ok(v) => if forall|os: OS| os.name() != m.zpkg.os@ {
            Err(PackageFault::Platform(PlatformFault::UnknownOS(m.zpkg.os@)))
        } else if forall|arch: Arch| arch.name() != m.zpkg.arch@ {
            Err(PackageFault::Platform(PlatformFault::UnknownArch(m.zpkg.arch@)))
        } else {
            Ok(
                PackageView {
                    name: m.zpkg.name@,
                    version: v,
                    publisher: m.zpkg.publisher@,
                    os: choose|os: OS| os.name() == m.zpkg.os@,
                    arch: choose|arch: Arch| arch.name() == m.zpkg.arch@,
                    summary: m.zpkg.summary@,
                    description: m.zpkg.description@,
                    requirements: Seq::empty(),
                    channels: Seq::empty(),
                    location: 0,
                    priority: DEFAULT_PRIORITY,
                },
            )
        },
    }
}

impl Package {
    /// A package without requirements or channels, at the default priority.
    pub fn new(
        name: String,
        version: Version,
        publisher: String,
        os: OS,
        arch: Arch,
        summary: String,
        description: String,
    ) -> (r: Package)
        ensures
            r.name == name,
            r.version == version,
            r.publisher == publisher,
            r.os == os,
            r.arch == arch,
            r.summary == summary,
            r.description == description,
            r.requirements@.len() == 0,
            r.channels@.len() == 0,
            r.location == 0,
            r.priority == DEFAULT_PRIORITY,
    {
        Package {
            name,
            version,
            publisher,
            os,
            arch,
            summary,
            description,
            requirements: Vec::new(),
            channels: Vec::new(),
            location: 0,
            priority: DEFAULT_PRIORITY,
        }
    }

    /// The package that a manifest describes. The version is read first,
    /// then the operating system, then the architecture; the first that
    /// cannot be read is the error.
    pub fn from(manifest: Manifest) -> (r: Result<Package, PackageError>)
        ensures
            match r {
                Ok(p) => package_of(manifest) == Ok::<PackageView, PackageFault>(p@),
                Err(e) => package_of(manifest) == Err::<PackageView, PackageFault>(e@),
            },
    {
        let version = match Version::from(manifest.zpkg.version.as_str()) {
            Ok(v) => v,
            Err(e) => {
                return Err(PackageError::Version(e));
            },
        };
        let os = match OS::from_str(manifest.zpkg.os.as_str()) {
            Ok(os) => os,
            Err(e) => {
                return Err(PackageError::Platform(e));
            },
        };
        let arch = match Arch::from_str(manifest.zpkg.arch.as_str()) {
            Ok(arch) => arch,
            Err(e) => {
                return Err(PackageError::Platform(e));
            },
        };
        proof {
            let os2 = choose|o: OS| o.name() == manifest.zpkg.os@;
            let arch2 = choose|a: Arch| a.name() == manifest.zpkg.arch@;
            crate::platform::lemma_names_distinct(os, os2, arch, arch2);
        }
        let p = Package {
            name: manifest.zpkg.name,
            version,
            publisher: manifest.zpkg.publisher,
            os,
            arch,
            summary: manifest.zpkg.summary,
            description: manifest.zpkg.description,
            requirements: Vec::new(),
            channels: Vec::new(),
            location: 0,
            priority: DEFAULT_PRIORITY,
        };
        assert(p@.requirements =~= Seq::empty());
        assert(p@.channels =~= Seq::empty());
        Ok(p)
    }

    pub fn id(&self) -> (r: String)
        ensures
            r@ == self@.id(),
    {
        let mut out = self.name.clone();
        out.append("@");
        out.append(self.version.to_string().as_str());
        out
    }

    pub fn file_name(&self) -> (r: String)
        ensures
            r@ == self@.file_name(),
    {
        let mut out = self.id();
        out.append("-");
        out.append(self.os.to_string().as_str());
        out.append("-");
        out.append(self.arch.to_string().as_str());
        out.append(".zpkg");
        out
    }

    /// Whether the package meets the requirement. With the comparator
    /// `ANY` that is the case exactly when the names agree.
    pub fn satisfies(&self, req: Requirement) -> (r: bool)
        ensures
            r == self@.satisfies(req@),
            req.comparator == Comparator::ANY ==> r == (self.name@ == req.name@),
    {
        if !same_text(self.name.as_str(), req.name.as_str()) {
            return false;
        }
        match req.comparator {
            Comparator::ANY => true,
            Comparator::EXQ => match &req.version {
                Some(v) => self.version.exq(v),
                None => false,
            },
            Comparator::GTE => match &req.version {
                Some(v) => self.version.compare(v) != Order::Less,
                None => false,
            },
            Comparator::EQ => match &req.version {
                Some(v) => self.version.same_semver(v),
                None => false,
            },
            Comparator::LTE => match &req.version {
                Some(v) => self.version.compare(v) != Order::Greater,
                None => false,
            },
        }
    }

    /// Orders two packages.
    pub fn compare(&self, other: &Package) -> (r: Order)
        ensures
            r.sign() == self@.order(other@),
            r.sign() == -other@.order(self@),
    {
        proof {
            lemma_lex_order_props(self.name@, other.name@);
        }
        let by_name = compare_text(self.name.as_str(), other.name.as_str());
        if by_name != Order::Equal {
            return by_name;
        }
        if self.priority > other.priority {
            return Order::Less;
        }
        if self.priority < other.priority {
            return Order::Greater;
        }
        self.version.compare(&other.version)
    }

    /// Package equality.
    pub fn same(&self, other: &Package) -> (r: bool)
        ensures
            r == self@.same(other@),
    {
        same_text(self.name.as_str(), other.name.as_str()) && same_text(
            self.version.to_string().as_str(),
            other.version.to_string().as_str(),
        ) && self.priority == other.priority
    }

    /// A copy with the same value.
    pub fn duplicate(&self) -> (r: Package)
        ensures
            r@ == self@,
    {
        let mut requirements: Vec<Requirement> = Vec::new();
        let mut i: usize = 0;
        while i < self.requirements.len()
            invariant
                i <= self.requirements.len(),
                requirements@.len() == i,
                forall|k: int| 0 <= k < i ==> requirements@[k]@ == self.requirements@[k]@,
            decreases self.requirements.len() - i,
        {
            requirements.push(self.requirements[i].duplicate());
            i = i + 1;
        }
        let mut channels: Vec<String> = Vec::new();
        let mut j: usize = 0;
        while j < self.channels.len()
            invariant
                j <= self.channels.len(),
                channels@.len() == j,
                forall|k: int| 0 <= k < j ==> channels@[k]@ == self.channels@[k]@,
            decreases self.channels.len() - j,
        {
            channels.push(self.channels[j].clone());
            j = j + 1;
        }
        let r = Package {
            name: self.name.clone(),
            version: self.version.duplicate(),
            publisher: self.publisher.clone(),
            os: self.os,
            arch: self.arch,
            summary: self.summary.clone(),
            description: self.description.clone(),
            requirements,
            channels,
            location: self.location,
            priority: self.priority,
        };
        assert(r@.requirements =~= self@.requirements);
        assert(r@.channels =~= self@.channels);
        r
    }
}

impl PartialEq for Package {
    fn eq(&self, other: &Package) -> (r: bool) {
        self.same(other)
    }
}

impl vstd::std_specs::cmp::PartialEqSpecImpl for Package {
    open spec fn obeys_eq_spec() -> bool {
        true
    }

    open spec fn eq_spec(&self, other: &Package) -> bool {
        self@.same(other@)
    }
}

/// What is to be done with a package.
#[derive(Copy, Clone, Debug, PartialEq, Eq, Structural)]
pub enum OperationMethod {
    Install,
    Remove,
    NoOp,
}

impl OperationMethod {
    pub open spec fn name(self) -> Seq<char> {
        match self {
            OperationMethod::Install => "install"@,
            OperationMethod::Remove => "remove"@,
            OperationMethod::NoOp => "noop"@,
        }
    }

    pub fn to_string(&self) -> (r: String)
        ensures
            r@ == self.name(),
    {
        match self {
            OperationMethod::Install => String::from_str("install"),
            OperationMethod::Remove => String::from_str("remove"),
            OperationMethod::NoOp => String::from_str("noop"),
        }
    }
}

/// One step of a plan: a package, and what is to be done with it.
#[derive(Clone, Debug)]
pub struct Operation {
    pub method: OperationMethod,
    pub package: Package,
}

impl Operation {
    pub fn new(method: OperationMethod, package: Package) -> (r: Operation)
        ensures
            r.method == method,
            r.package == package,
    {
        Operation { method, package }
    }
}

/// A requirement with the comparator `ANY` is met by exactly the packages
/// of its name.
pub proof fn lemma_any_matches_by_name(p: PackageView, r: RequirementView)
    requires
        r.comparator == Comparator::ANY,
    ensures
        p.satisfies(r) == (p.name == r.name),
{
}

} // verus!
