//! Operating systems and processor architectures that a package can target.

use vstd::prelude::*;
use crate::text::same_text;

verus! {

/// An operating system, or any of them.
#[derive(Copy, Clone, Debug, PartialEq, Eq, Structural)]
pub enum OS {
    Any,
    Darwin,
    Linux,
}

/// A processor architecture, or any of them.
#[derive(Copy, Clone, Debug, PartialEq, Eq, Structural)]
pub enum Arch {
    Any,
    Arm64,
    X8664,
}

/// A token that names no known operating system or architecture; each
/// error holds the token.
#[derive(Clone, Debug, PartialEq, Eq)]
pub enum PlatformError {
    UnknownOS(String),
    UnknownArch(String),
}

/// The mathematical value of a [`PlatformError`].
pub enum PlatformFault {
    UnknownOS(Seq<char>),
    UnknownArch(Seq<char>),
}

impl View for PlatformError {
    type V = PlatformFault;

    open spec fn view(&self) -> PlatformFault {
        match self {
            PlatformError::UnknownOS(token) => PlatformFault::UnknownOS(token@),
            PlatformError::UnknownArch(token) => PlatformFault::UnknownArch(token@),
        }
    }
}

impl OS {
    /// The token that stands for this operating system.
    pub open spec fn name(self) -> Seq<char> {
        match self {
            OS::Any => "any"@,
            OS::Darwin => "darwin"@,
            OS::Linux => "linux"@,
        }
    }

    pub fn to_string(&self) -> (r: String)
        ensures
            r@ == self.name(),
    {
        match self {
            OS::Any => String::from_str("any"),
            OS::Darwin => String::from_str("darwin"),
            OS::Linux => String::from_str("linux"),
        }
    }

    /// Reads a token; the match is exact and case-sensitive.
    pub fn from_str(s: &str) -> (r: Result<OS, PlatformError>)
        ensures
            match r {
                Ok(os) => os.name() == s@,
                Err(e) => e@ == PlatformFault::UnknownOS(s@) && forall|os: OS| os.name() != s@,
            },
    {
        if same_text(s, "any") {
            Ok(OS::Any)
        } else if same_text(s, "darwin") {
            Ok(OS::Darwin)
        } else if same_text(s, "linux") {
            Ok(OS::Linux)
        } else {
            Err(PlatformError::UnknownOS(String::from_str(s)))
        }
    }
}

impl Arch {
    /// The token that stands for this architecture.
    pub open spec fn name(self) -> Seq<char> {
        match self {
            Arch::Any => "any"@,
            Arch::Arm64 => "arm64"@,
            Arch::X8664 => "x86_64"@,
        }
    }

    pub fn to_string(&self) -> (r: String)
        ensures
            r@ == self.name(),
    {
        match self {
            Arch::Any => String::from_str("any"),
            Arch::Arm64 => String::from_str("arm64"),
            Arch::X8664 => String::from_str("x86_64"),
        }
    }

    /// Reads a token; the match is exact and case-sensitive.
    pub fn from_str(s: &str) -> (r: Result<Arch, PlatformError>)
        ensures
            match r {
                Ok(arch) => arch.name() == s@,
                Err(e) => e@ == PlatformFault::UnknownArch(s@) && forall|arch: Arch|
                    arch.name() != s@,
            },
    {
        if same_text(s, "any") {
            Ok(Arch::Any)
        } else if same_text(s, "arm64") {
            Ok(Arch::Arm64)
        } else if same_text(s, "x86_64") {
            Ok(Arch::X8664)
        } else {
            Err(PlatformError::UnknownArch(String::from_str(s)))
        }
    }
}

/// Distinct operating systems have distinct tokens, and so have distinct
/// architectures: reading a token back gives the value it was written from.
pub proof fn lemma_names_distinct(a: OS, b: OS, x: Arch, y: Arch)
    ensures
        a.name() == b.name() ==> a == b,
        x.name() == y.name() ==> x == y,
{
    reveal_strlit("any");
    reveal_strlit("darwin");
    reveal_strlit("linux");
    reveal_strlit("arm64");
    reveal_strlit("x86_64");
    if a != b {
        assert(a.name().len() != b.name().len() || a.name()[0] != b.name()[0]);
    }
    if x != y {
        assert(x.name().len() != y.name().len() || x.name()[0] != y.name()[0]);
    }
}

/// An operating system paired with an architecture.
#[derive(Copy, Clone, Debug, PartialEq, Eq, Structural)]
pub struct OSArch {
    pub os: OS,
    pub arch: Arch,
}

impl OSArch {
    pub open spec fn spec_os(self) -> OS {
        self.os
    }

    pub open spec fn spec_arch(self) -> Arch {
        self.arch
    }

    /// The pair written as `os-arch`.
    pub open spec fn name(self) -> Seq<char> {
        self.spec_os().name() + "-"@ + self.spec_arch().name()
    }

    pub fn new(os: OS, arch: Arch) -> (r: OSArch)
        ensures
            r.spec_os() == os,
            r.spec_arch() == arch,
    {
        OSArch { os, arch }
    }

    /// The platform of the running host, from the names that the standard
    /// library gives it; `None` where the host is not supported.
    pub fn from_current(os_name: &str, arch_name: &str) -> (r: Option<OSArch>)
        ensures
            r == (if os_name@ != "linux"@ && os_name@ != "macos"@ {
                None
            } else if arch_name@ != "aarch64"@ && arch_name@ != "x86_64"@ {
                None
            } else {
                Some(
                    OSArch::pair(
                        if os_name@ == "linux"@ {
                            OS::Linux
                        } else {
                            OS::Darwin
                        },
                        if arch_name@ == "aarch64"@ {
                            Arch::Arm64
                        } else {
                            Arch::X8664
                        },
                    ),
                )
            }),
    {
        let os = if same_text(os_name, "linux") {
            OS::Linux
        } else if same_text(os_name, "macos") {
            OS::Darwin
        } else {
            return None;
        };
        let arch = if same_text(arch_name, "aarch64") {
            Arch::Arm64
        } else if same_text(arch_name, "x86_64") {
            Arch::X8664
        } else {
            return None;
        };
        Some(OSArch { os, arch })
    }

    /// Every pair of operating system and architecture, the operating
    /// system varying slowest.
    pub open spec fn all() -> Seq<OSArch> {
        seq![
            OSArch::pair(OS::Any, Arch::Any),
            OSArch::pair(OS::Any, Arch::Arm64),
            OSArch::pair(OS::Any, Arch::X8664),
            OSArch::pair(OS::Darwin, Arch::Any),
            OSArch::pair(OS::Darwin, Arch::Arm64),
            OSArch::pair(OS::Darwin, Arch::X8664),
            OSArch::pair(OS::Linux, Arch::Any),
            OSArch::pair(OS::Linux, Arch::Arm64),
            OSArch::pair(OS::Linux, Arch::X8664),
        ]
    }

    /// The pair of the given operating system and architecture.
    pub open spec fn pair(os: OS, arch: Arch) -> OSArch {
        OSArch { os, arch }
    }

    pub fn platforms() -> (r: Vec<OSArch>)
        ensures
            r@ == OSArch::all(),
    {
        let oses: [OS; 3] = [OS::Any, OS::Darwin, OS::Linux];
        let arches: [Arch; 3] = [Arch::Any, Arch::Arm64, Arch::X8664];
        let mut platforms: Vec<OSArch> = Vec::new();
        let mut i: usize = 0;
        while i < 3
            invariant
                i <= 3,
                oses@ == seq![OS::Any, OS::Darwin, OS::Linux],
                arches@ == seq![Arch::Any, Arch::Arm64, Arch::X8664],
                platforms@ == OSArch::all().subrange(0, 3 * i),
            decreases 3 - i,
        {
            let mut j: usize = 0;
            while j < 3
                invariant
                    i < 3,
                    j <= 3,
                    oses@ == seq![OS::Any, OS::Darwin, OS::Linux],
                    arches@ == seq![Arch::Any, Arch::Arm64, Arch::X8664],
                    platforms@ == OSArch::all().subrange(0, 3 * i + j),
                decreases 3 - j,
            {
                platforms.push(OSArch { os: oses[i], arch: arches[j] });
                assert(platforms@ =~= OSArch::all().subrange(0, 3 * i + j + 1));
                j = j + 1;
            }
            i = i + 1;
        }
        assert(OSArch::all().subrange(0, 9) =~= OSArch::all());
        platforms
    }

    /// The platforms whose packages can be installed on this one: itself,
    /// then the same system on any architecture, then any system on any
    /// architecture, then any system on the same architecture.
    pub fn expand(&self) -> (r: Vec<OSArch>)
        ensures
            r@ == seq![
                *self,
                OSArch::pair(self.spec_os(), Arch::Any),
                OSArch::pair(OS::Any, Arch::Any),
                OSArch::pair(OS::Any, self.spec_arch()),
            ],
    {
        let mut platforms: Vec<OSArch> = Vec::new();
        platforms.push(*self);
        platforms.push(OSArch { os: self.os, arch: Arch::Any });
        platforms.push(OSArch { os: OS::Any, arch: Arch::Any });
        platforms.push(OSArch { os: OS::Any, arch: self.arch });
        assert(platforms@ =~= seq![
            *self,
            OSArch::pair(self.spec_os(), Arch::Any),
            OSArch::pair(OS::Any, Arch::Any),
            OSArch::pair(OS::Any, self.spec_arch()),
        ]);
        platforms
    }

    pub fn arch(&self) -> (r: Arch)
        ensures
            r == self.spec_arch(),
    {
        self.arch
    }

    pub fn os(&self) -> (r: OS)
        ensures
            r == self.spec_os(),
    {
        self.os
    }

    pub fn to_string(&self) -> (r: String)
        ensures
            r@ == self.name(),
    {
        let mut out = self.os.to_string();
        out.append("-");
        out.append(self.arch.to_string().as_str());
        out
    }
}

} // verus!
