use zps::platform::{Arch, OS};
use zps::package::{Package, PackageError, DEFAULT_PRIORITY};
use zps::action::{Manifest, Zpkg};
use zps::platform::PlatformError;
use zps::repo::sort_packages;
use zps::requirement::{Comparator, Request, RequestMethod, Requirement, RequirementMethod};
use zps::text::Order;
use zps::version::{Version, VersionError};

fn package(name: &str, version: &str) -> Package {
    Package::new(
        String::from(name),
        Version::from(version).unwrap(),
        String::from("zps.io"),
        OS::Linux,
        Arch::X8664,
        String::from("snarfing pretty hard"),
        String::from("snarfing pretty hard"),
    )
}

fn requirement(name: &str, comparator: Comparator, version: Option<&str>) -> Requirement {
    Requirement {
        name: name.to_string(),
        method: RequirementMethod::Depends,
        comparator,
        version: version.map(|v| Version::from(v).unwrap()),
    }
}

#[test]
fn test_requirement_from_simple() {
    let long = "zps@3.2.1:20200415T194203Z";
    let short = "zps@3.2.1";
    let name = "zps";

    let req_long = Requirement::from_simple(long).unwrap();
    assert_eq!("zps", req_long.name);
    assert_eq!(Comparator::EXQ.to_string(), req_long.comparator.to_string());
    assert_eq!(
        req_long.version.unwrap().to_string(),
        "3.2.1:20200415T194203Z"
    );

    let req_short = Requirement::from_simple(short).unwrap();
    assert_eq!("zps", req_short.name);
    assert_eq!(Comparator::EQ.to_string(), req_short.comparator.to_string());
    assert_eq!(req_short.version.unwrap().to_string(), "3.2.1");

    let req_name = Requirement::from_simple(name).unwrap();
    assert_eq!("zps", req_name.name);
    assert_eq!(Comparator::ANY.to_string(), req_name.comparator.to_string());
    assert_eq!(req_name.version, None);
}

#[test]
fn requirement_kinds_and_methods() {
    let long = Requirement::from_simple("zps@3.2.1:20200415T194203Z").unwrap();
    assert_eq!(long.comparator, Comparator::EXQ);
    assert_eq!(long.method, RequirementMethod::Depends);
    let short = Requirement::from_simple("zps@3.2.1").unwrap();
    assert_eq!(short.comparator, Comparator::EQ);
    let bare = Requirement::from_simple("zps").unwrap();
    assert_eq!(bare.comparator, Comparator::ANY);
    assert_eq!(Comparator::GTE.to_string(), "GTE");
    assert_eq!(Comparator::LTE.to_string(), "LTE");
    assert_eq!(Comparator::EQ.to_string(), "EQ");
    assert_eq!(Comparator::EXQ.to_string(), "EXQ");
    assert_eq!(Comparator::ANY.to_string(), "ANY");
    assert_eq!(RequestMethod::Install.to_string(), "install");
    assert_eq!(RequestMethod::Remove.to_string(), "remove");
}

#[test]
fn malformed_requirements_are_refused() {
    assert_eq!(
        Requirement::from_simple("zps@three").unwrap_err(),
        VersionError::InvalidSemver("three".to_string())
    );
    assert_eq!(
        Requirement::from_simple("zps@").unwrap_err(),
        VersionError::InvalidSemver(String::new())
    );
    assert_eq!(
        Requirement::from_simple("zps@1.0.0:noon").unwrap_err(),
        VersionError::InvalidTimestamp("noon".to_string())
    );
    let empty_name = Requirement::from_simple("@1.0.0").unwrap();
    assert_eq!(empty_name.name, "");
    let twice = Requirement::from_simple("zps@1.0.0@2.0.0").unwrap();
    assert_eq!(twice.name, "zps");
    assert_eq!(twice.version.unwrap().to_string(), "1.0.0");
}

#[test]
fn test_request() {
    let mut req = Request::new();

    req.install(Requirement::new(
        String::from("zps"),
        RequirementMethod::Depends,
        Comparator::ANY,
        None,
    ));

    req.remove(Requirement::new(
        String::from("apt"),
        RequirementMethod::Depends,
        Comparator::ANY,
        None,
    ));

    assert_eq!(req.jobs.len(), 2);
    for (index, job) in req.jobs.iter().enumerate() {
        match index {
            0 => {
                assert_eq!(job.method, RequestMethod::Install);
                assert_eq!(job.req.name, String::from("zps"));
            }
            1 => {
                assert_eq!(job.method, RequestMethod::Remove);
                assert_eq!(job.req.name, String::from("apt"));
            }
            _ => (),
        }
    }
}

#[test]
fn test_package_sort() {
    let mut packages: Vec<Package> = Vec::new();

    let snarf13 = package("snarf", "1.3.4:20200415T194203Z");
    packages.push(snarf13);

    let snarf12 = package("snarf", "1.2.4:20200515T194203Z");
    packages.push(snarf12);

    let mut snarf_prio = package("snarf", "1.2.4:20200515T194203Z");
    snarf_prio.priority = 2;
    packages.push(snarf_prio);

    let beef10 = package("beef", "1.0.0:20200615T194203Z");
    packages.push(beef10);

    let beef11 = package("beef", "1.0.0:20200515T194203Z");
    packages.push(beef11);

    let packages = sort_packages(&packages);

    let names: Vec<String> = packages.iter().map(|pkg| pkg.id()).collect();
    assert_eq!(
        names,
        [
            "beef@1.0.0:20200515T194203Z",
            "beef@1.0.0:20200615T194203Z",
            "snarf@1.2.4:20200515T194203Z",
            "snarf@1.3.4:20200415T194203Z",
            "snarf@1.2.4:20200515T194203Z",
        ]
    );
    assert_eq!(packages[4].priority, 2);
}

#[test]
fn lower_priority_value_ranks_higher() {
    let ten = package("snarf", "1.0.0:20200415T194203Z");
    let mut two = package("snarf", "1.0.0:20200415T194203Z");
    two.priority = 2;
    assert_eq!(ten.priority, DEFAULT_PRIORITY);
    assert_eq!(ten.priority, 10);
    assert_eq!(two.compare(&ten), Order::Greater);
    assert_eq!(ten.compare(&two), Order::Less);
    assert_eq!(ten.compare(&ten.duplicate()), Order::Equal);
    let sorted = sort_packages(&vec![two.duplicate(), ten.duplicate()]);
    assert_eq!(sorted[0].priority, 10);
    assert_eq!(sorted[1].priority, 2);
    assert!(two != ten);
    assert!(ten == ten.duplicate());
}

#[test]
fn names_order_by_character() {
    let upper = package("Zebra", "1.0.0");
    let lower = package("apple", "1.0.0");
    let longer = package("apples", "1.0.0");
    assert_eq!(upper.compare(&lower), Order::Less);
    assert_eq!(lower.compare(&longer), Order::Less);
    assert_eq!(longer.compare(&lower), Order::Greater);
}

#[test]
fn test_package_satisfies() {
    let snarf = package("snarf", "1.3.4:20200415T194203Z");

    assert_eq!(
        true,
        snarf.satisfies(Requirement {
            name: "snarf".to_string(),
            method: RequirementMethod::Depends,
            comparator: Comparator::ANY,
            version: None
        })
    );

    assert_eq!(
        false,
        snarf.satisfies(Requirement {
            name: "snarf".to_string(),
            method: RequirementMethod::Depends,
            comparator: Comparator::EXQ,
            version: Some(Version::from("1.3.4:20200515T194203Z").unwrap())
        })
    );

    assert_eq!(
        true,
        snarf.satisfies(Requirement {
            name: "snarf".to_string(),
            method: RequirementMethod::Depends,
            comparator: Comparator::GTE,
            version: Some(Version::from("1.3.2:20200515T194203Z").unwrap())
        })
    );

    assert_eq!(
        true,
        snarf.satisfies(Requirement {
            name: "snarf".to_string(),
            method: RequirementMethod::Depends,
            comparator: Comparator::LTE,
            version: Some(Version::from("1.3.5:20200515T194203Z").unwrap())
        })
    );
}

#[test]
fn any_is_met_exactly_by_the_name() {
    let snarf = package("snarf", "1.3.4:20200415T194203Z");
    assert!(snarf.satisfies(requirement("snarf", Comparator::ANY, Some("9.9.9"))));
    assert!(!snarf.satisfies(requirement("Snarf", Comparator::ANY, None)));
    assert!(!snarf.satisfies(requirement("snar", Comparator::ANY, None)));
}

#[test]
fn comparators_without_version_are_never_met() {
    let snarf = package("snarf", "1.3.4:20200415T194203Z");
    for comparator in [Comparator::EQ, Comparator::EXQ, Comparator::GTE, Comparator::LTE] {
        assert!(!snarf.satisfies(requirement("snarf", comparator, None)));
    }
}

#[test]
fn comparators_compare_versions() {
    let snarf = package("snarf", "1.3.4:20200415T194203Z");
    assert!(snarf.satisfies(requirement("snarf", Comparator::EXQ, Some("1.3.4:20200415T194203Z"))));
    assert!(snarf.satisfies(requirement("snarf", Comparator::EQ, Some("1.3.4:20200515T194203Z"))));
    assert!(snarf.satisfies(requirement("snarf", Comparator::EQ, Some("1.3.4"))));
    assert!(!snarf.satisfies(requirement("snarf", Comparator::EQ, Some("1.3.5"))));
    assert!(!snarf.satisfies(requirement("snarf", Comparator::GTE, Some("1.3.5:20200101T000000Z"))));
    assert!(!snarf.satisfies(requirement("snarf", Comparator::GTE, Some("1.3.4:20200515T194203Z"))));
    assert!(snarf.satisfies(requirement("snarf", Comparator::GTE, Some("1.3.4:20200415T194203Z"))));
    assert!(snarf.satisfies(requirement("snarf", Comparator::LTE, Some("1.3.4:20200415T194203Z"))));
    assert!(!snarf.satisfies(requirement("snarf", Comparator::LTE, Some("1.3.3:20210101T000000Z"))));
    assert!(!snarf.satisfies(requirement("other", Comparator::LTE, Some("1.3.5"))));
}

#[test]
fn package_names_and_file_names() {
    let snarf = package("snarf", "1.3.4:20200415T194203Z");
    assert_eq!(snarf.id(), "snarf@1.3.4:20200415T194203Z");
    assert_eq!(snarf.file_name(), "snarf@1.3.4:20200415T194203Z-linux-x86_64.zpkg");
}

fn record(version: &str, os: &str, arch: &str) -> Manifest {
    Manifest::new(Zpkg {
        name: "test".to_string(),
        version: version.to_string(),
        publisher: "fezz.io".to_string(),
        arch: arch.to_string(),
        os: os.to_string(),
        summary: "Test zpkg".to_string(),
        description: "Test zpkg, for well testing".to_string(),
    })
}

#[test]
fn package_from_manifest() {
    let pkg = Package::from(record("1.0.0:20200320T221640Z", "darwin", "x86_64")).unwrap();
    assert_eq!(pkg.name, "test");
    assert_eq!(pkg.version.to_string(), "1.0.0:20200320T221640Z");
    assert_eq!(pkg.publisher, "fezz.io");
    assert_eq!(pkg.os, OS::Darwin);
    assert_eq!(pkg.arch, Arch::X8664);
    assert_eq!(pkg.summary, "Test zpkg");
    assert_eq!(pkg.description, "Test zpkg, for well testing");
    assert_eq!(pkg.priority, 10);
    assert_eq!(pkg.location, 0);
    assert!(pkg.requirements.is_empty());
    assert!(pkg.channels.is_empty());
    assert_eq!(pkg.file_name(), "test@1.0.0:20200320T221640Z-darwin-x86_64.zpkg");

    assert_eq!(
        Package::from(record("one", "darwin", "x86_64")).unwrap_err(),
        PackageError::Version(VersionError::InvalidSemver("one".to_string()))
    );
    assert_eq!(
        Package::from(record("1.0.0:soon", "darwin", "x86_64")).unwrap_err(),
        PackageError::Version(VersionError::InvalidTimestamp("soon".to_string()))
    );
    assert_eq!(
        Package::from(record("1.0.0", "plan9", "x86_64")).unwrap_err(),
        PackageError::Platform(PlatformError::UnknownOS("plan9".to_string()))
    );
    assert_eq!(
        Package::from(record("1.0.0", "linux", "vax")).unwrap_err(),
        PackageError::Platform(PlatformError::UnknownArch("vax".to_string()))
    );
    assert_eq!(
        Package::from(record("one", "plan9", "vax")).unwrap_err(),
        PackageError::Version(VersionError::InvalidSemver("one".to_string()))
    );
}
