//! Requirements: named constraints on the version of a package, and the
//! requests that are made of them.

use vstd::prelude::*;
use crate::text::{chars_of, find_char, find_from};
use crate::version::{version_of, Version, VersionError, VersionFault, VersionView};

verus! {

/// How a requirement compares a package's version with its own.
#[derive(Copy, Clone, Debug, PartialEq, Eq, Structural)]
pub enum Comparator {
    ANY,
    GTE,
    LTE,
    EQ,
    EXQ,
}

impl Comparator {
    pub open spec fn name(self) -> Seq<char> {
        match self {
            Comparator::ANY => "ANY"@,
            Comparator::GTE => "GTE"@,
            Comparator::LTE => "LTE"@,
            Comparator::EQ => "EQ"@,
            Comparator::EXQ => "EXQ"@,
        }
    }

    pub fn to_string(&self) -> (r: String)
        ensures
            r@ == self.name(),
    {
        match self {
            Comparator::ANY => String::from_str("ANY"),
            Comparator::GTE => String::from_str("GTE"),
            Comparator::LTE => String::from_str("LTE"),
            Comparator::EQ => String::from_str("EQ"),
            Comparator::EXQ => String::from_str("EXQ"),
        }
    }
}

/// What a requirement says of the package it names.
#[derive(Copy, Clone, Debug, PartialEq, Eq, Structural)]
pub enum RequirementMethod {
    Depends,
    Provides,
    Conflicts,
}

/// A named constraint: a package name, and a comparator with the version it
/// compares against.
#[derive(Clone, Debug)]
pub struct Requirement {
    pub name: String,
    pub method: RequirementMethod,
    pub comparator: Comparator,
    pub version: Option<Version>,
}

/// The mathematical value of a [`Requirement`].
pub struct RequirementView {
    pub name: Seq<char>,
    pub method: RequirementMethod,
    pub comparator: Comparator,
    pub version: Option<VersionView>,
}

impl View for Requirement {
    type V = RequirementView;

    open spec fn view(&self) -> RequirementView {
        RequirementView {
            name: self.name@,
            method: self.method,
            comparator: self.comparator,
            version: match self.version {
                Some(v) => Some(v@),
                None => None,
            },
        }
    }
}

/// The requirement that a text denotes. Without `@` the text is the name of
/// a package of any version. Otherwise the name stands before the first
/// `@` and the version between it and the next `@` or the end; a version
/// with a timestamp must match exactly, one without by semantic version.
pub open spec fn requirement_of(s: Seq<char>) -> Result<RequirementView, VersionFault> {
    let i = find_from(s, '@', 0);
    if i == s.len() {
        Ok(
            RequirementView {
                name: s,
                method: RequirementMethod::Depends,
                comparator: Comparator::ANY,
                version: None,
            },
        )
    } else {
        match version_of(s.subrange(i + 1, find_from(s, '@', i + 1))) {
            Err(e) => Err(e),
            Ok(v) => Ok(
                RequirementView {
                    name: s.subrange(0, i),
                    method: RequirementMethod::Depends,
                    comparator: if v.time is Some {
                        Comparator::EXQ
                    } else {
                        Comparator::EQ
                    },
                    version: Some(v),
                },
            ),
        }
    }
}

impl Requirement {
    pub fn new(
        name: String,
        method: RequirementMethod,
        comparator: Comparator,
        version: Option<Version>,
    ) -> (r: Requirement)
        ensures
            r.name == name,
            r.method == method,
            r.comparator == comparator,
            r.version == version,
    {
        Requirement { name, method, comparator, version }
    }

    /// Reads a requirement from `name`, `name@version` or
    /// `name@version:timestamp`.
    pub fn from_simple(requirement: &str) -> (r: Result<Requirement, VersionError>)
        ensures
            match r {
                Ok(req) => requirement_of(requirement@) == Ok::<RequirementView, VersionFault>(
                    req@,
                ),
                Err(e) => requirement_of(requirement@) == Err::<RequirementView, VersionFault>(e@),
            },
    {
        let chars = chars_of(requirement);
        let n: usize = chars.len();
        let i: usize = find_char(&chars, '@', 0);
        if i == n {
            return Ok(
                Requirement {
                    name: String::from_str(requirement),
                    method: RequirementMethod::Depends,
                    comparator: Comparator::ANY,
                    version: None,
                },
            );
        }
        let j: usize = find_char(&chars, '@', i + 1);
        let version = match Version::from(requirement.substring_char(i + 1, j)) {
            Ok(v) => v,
            Err(e) => {
                return Err(e);
            },
        };
        let comparator = match version.time {
            None => Comparator::EQ,
            Some(_) => Comparator::EXQ,
        };
        Ok(
            Requirement {
                name: String::from_str(requirement.substring_char(0, i)),
                method: RequirementMethod::Depends,
                comparator,
                version: Some(version),
            },
        )
    }

    /// A copy with the same value.
    pub fn duplicate(&self) -> (r: Requirement)
        ensures
            r@ == self@,
    {
        Requirement {
            name: self.name.clone(),
            method: self.method,
            comparator: self.comparator,
            version: match &self.version {
                Some(v) => Some(v.duplicate()),
                None => None,
            },
        }
    }
}

/// Whether a job installs or removes.
#[derive(Copy, Clone, Debug, PartialEq, Eq, Structural)]
pub enum RequestMethod {
    Install,
    Remove,
}

impl RequestMethod {
    pub open spec fn name(self) -> Seq<char> {
        match self {
            RequestMethod::Install => "install"@,
            RequestMethod::Remove => "remove"@,
        }
    }

    pub fn to_string(&self) -> (r: String)
        ensures
            r@ == self.name(),
    {
        match self {
            RequestMethod::Install => String::from_str("install"),
            RequestMethod::Remove => String::from_str("remove"),
        }
    }
}

/// One thing asked for: to install or to remove what meets a requirement.
#[derive(Clone, Debug)]
pub struct Job {
    pub method: RequestMethod,
    pub req: Requirement,
}

impl Job {
    pub fn new(method: RequestMethod, req: Requirement) -> (r: Job)
        ensures
            r.method == method,
            r.req == req,
    {
        Job { method, req }
    }
}

/// The jobs asked for, in the order in which they were asked.
#[derive(Clone, Debug)]
pub struct Request {
    pub jobs: Vec<Job>,
}

impl Request {
    pub fn new() -> (r: Request)
        ensures
            r.jobs@.len() == 0,
    {
        Request { jobs: Vec::new() }
    }

    /// Asks for what meets `req` to be installed.
    pub fn install(&mut self, req: Requirement)
        ensures
            final(self).jobs@ == old(self).jobs@.push(
                (Job { method: RequestMethod::Install, req }),
            ),
    {
        self.jobs.push(Job { method: RequestMethod::Install, req });
    }

    /// Asks for what meets `req` to be removed.
    pub fn remove(&mut self, req: Requirement)
        ensures
            final(self).jobs@ == old(self).jobs@.push(
                (Job { method: RequestMethod::Remove, req }),
            ),
    {
        self.jobs.push(Job { method: RequestMethod::Remove, req });
    }
}

} // verus!
