use zps::text::Order;
use zps::version::{Timestamp, Version, VersionError};

#[test]
fn test_version_from_long() {
    let version_string = "3.2.1:20200415T194203Z";
    let version = Version::from(version_string);

    assert_eq!(version.unwrap().to_string(), version_string);
}

#[test]
fn test_version_from_short() {
    let version_string = "3.2.1";
    let version = Version::from(version_string).unwrap();

    assert_eq!((version.major, version.minor, version.patch), (3, 2, 1));
    assert_eq!(version.pre, "");
    assert_eq!(version.build, "");
    assert_eq!(version.time, None);
    assert_eq!(version.to_string(), version_string);
}

#[test]
fn test_version_partialeq() {
    let version_string = "3.2.1:20200415T194203Z";

    let version = Version::from(version_string).unwrap();
    let same_version = Version::from(version_string).unwrap();

    let other_version = Version::from("3.3.1:20200415T194203Z").unwrap();

    assert_eq!(version, same_version);
    assert_ne!(version, other_version);
}

#[test]
fn test_version_exq() {
    let version_string = "3.2.1:20200415T194203Z";

    let version = Version::from(version_string).unwrap();
    let same_version = Version::from(version_string).unwrap();

    let other_version = Version::from("3.2.1:20200515T194203Z").unwrap();

    assert_eq!(true, version.exq(&same_version));
    assert_eq!(false, version.exq(&other_version));
}

#[test]
fn test_version_ordering() {
    let v1 = Version::from("3.2.1:20200515T194203Z").unwrap();
    let v2 = Version::from("3.2.1:20200415T194203Z").unwrap();

    let v3 = Version::from("3.0.1:20200415T194203Z").unwrap();
    let v4 = Version::from("3.2.1:20200415T194203Z").unwrap();

    assert_eq!(v1, v1.clone().max(v2));
    assert_eq!(v3, v3.clone().min(v4));
}

#[test]
fn max_and_min_pick_by_timestamp_when_semver_ties() {
    let late = Version::from("3.2.1:20200515T194203Z").unwrap();
    let early = Version::from("3.2.1:20200415T194203Z").unwrap();
    assert!(late.clone().max(early.clone()).exq(&late));
    assert!(early.clone().max(late.clone()).exq(&late));
    assert!(late.clone().min(early.clone()).exq(&early));
    assert!(early.clone().min(late.clone()).exq(&early));
}

#[test]
fn timestamp_is_read_as_utc_seconds() {
    let version = Version::from("3.2.1:20200415T194203Z").unwrap();
    assert_eq!(version.time, Some(Timestamp { secs: 1586979723, nanos: 0 }));
    let epoch = Version::from("0.0.1:19700101T000000Z").unwrap();
    assert_eq!(epoch.time, Some(Timestamp { secs: 0, nanos: 0 }));
}

#[test]
fn equal_semver_with_different_timestamps_is_equal_but_not_exact() {
    let a = Version::from("3.2.1:20200415T194203Z").unwrap();
    let b = Version::from("3.2.1:20200515T194203Z").unwrap();
    let bare = Version::from("3.2.1").unwrap();
    assert!(a == b);
    assert!(!a.exq(&b));
    assert!(a == bare);
    assert!(!a.exq(&bare));
    assert!(a.same_semver(&bare));
    assert!(bare.exq(&Version::from("3.2.1").unwrap()));
}

#[test]
fn version_without_timestamp_orders_before_one_with() {
    let bare = Version::from("3.2.1").unwrap();
    let stamped = Version::from("3.2.1:19700101T000000Z").unwrap();
    assert_eq!(bare.compare(&stamped), Order::Less);
    assert_eq!(stamped.compare(&bare), Order::Greater);
    assert_eq!(bare.compare(&bare.clone()), Order::Equal);
}

#[test]
fn semver_decides_before_timestamp() {
    let old_but_higher = Version::from("3.2.2:20100101T000000Z").unwrap();
    let new_but_lower = Version::from("3.2.1:20200101T000000Z").unwrap();
    assert_eq!(old_but_higher.compare(&new_but_lower), Order::Greater);
    assert_eq!(new_but_lower.compare(&old_but_higher), Order::Less);
    let ten = Version::from("10.0.0").unwrap();
    let nine = Version::from("9.9.9").unwrap();
    assert_eq!(ten.compare(&nine), Order::Greater);
    assert_eq!(ten.compare_semver(&nine), Order::Greater);
    let minor = Version::from("1.10.0").unwrap();
    let minor_low = Version::from("1.9.0").unwrap();
    assert_eq!(minor_low.compare(&minor), Order::Less);
}

#[test]
fn prerelease_and_build_tags_order_as_semver_says() {
    let alpha = Version::from("1.0.0-alpha").unwrap();
    let alpha1 = Version::from("1.0.0-alpha.1").unwrap();
    let beta11 = Version::from("1.0.0-beta.11").unwrap();
    let beta2 = Version::from("1.0.0-beta.2").unwrap();
    let release = Version::from("1.0.0").unwrap();
    assert_eq!(alpha.compare(&alpha1), Order::Less);
    assert_eq!(beta2.compare(&beta11), Order::Less);
    assert_eq!(beta11.compare(&beta2), Order::Greater);
    assert_eq!(beta11.compare(&release), Order::Less);
    assert_eq!(release.compare(&alpha), Order::Greater);
    let build1 = Version::from("1.0.0+build.1").unwrap();
    let build2 = Version::from("1.0.0+build.2").unwrap();
    assert_eq!(build1.compare(&build2), Order::Less);
    assert_eq!(build2.compare(&build1), Order::Greater);
    assert_eq!(build1.compare(&build1.clone()), Order::Equal);
    assert!(!build1.same_semver(&build2));
    assert!(build1 != build2);
}

#[test]
fn tags_are_kept_and_written_back() {
    let version = Version::from("1.2.3-rc.1+exp.sha.5114f85:20200415T194203Z").unwrap();
    assert_eq!(version.pre, "rc.1");
    assert_eq!(version.build, "exp.sha.5114f85");
    assert_eq!(version.to_string(), "1.2.3-rc.1+exp.sha.5114f85:20200415T194203Z");
}

#[test]
fn written_versions_read_back() {
    for text in [
        "3.2.1",
        "3.2.1:20200415T194203Z",
        "0.0.0",
        "1.0.0-alpha.1",
        "1.0.0+build:19991231T235959Z",
        "18446744073709551615.0.0",
    ] {
        let first = Version::from(text).unwrap();
        let again = Version::from(&first.to_string()).unwrap();
        assert!(first.exq(&again));
        assert!(first == again);
        assert_eq!(first.to_string(), again.to_string());
    }
}

#[test]
fn malformed_versions_are_refused() {
    assert_eq!(Version::from("").unwrap_err(), VersionError::InvalidSemver("".to_string()));
    assert_eq!(Version::from("abc").unwrap_err(), VersionError::InvalidSemver("abc".to_string()));
    assert_eq!(Version::from("1.2").unwrap_err(), VersionError::InvalidSemver("1.2".to_string()));
    assert_eq!(Version::from("01.2.3").unwrap_err(), VersionError::InvalidSemver("01.2.3".to_string()));
    assert_eq!(Version::from(":20200415T194203Z").unwrap_err(), VersionError::InvalidSemver("".to_string()));
    assert_eq!(Version::from("1.2.3:").unwrap_err(), VersionError::InvalidTimestamp("".to_string()));
    assert_eq!(Version::from("1.2.3:yesterday").unwrap_err(), VersionError::InvalidTimestamp("yesterday".to_string()));
    assert_eq!(Version::from("1.2.3:20201315T194203Z").unwrap_err(), VersionError::InvalidTimestamp("20201315T194203Z".to_string()));
    assert_eq!(Version::from("1.2.3:20200415T194203").unwrap_err(), VersionError::InvalidTimestamp("20200415T194203".to_string()));
    assert_eq!(Version::from("x:y").unwrap_err(), VersionError::InvalidSemver("x".to_string()));
}

#[test]
fn timestamps_must_be_written_as_they_are_written_back() {
    assert_eq!(
        Version::from("1.2.3: 20200415T194203Z").unwrap_err(),
        VersionError::InvalidTimestamp(" 20200415T194203Z".to_string())
    );
    assert_eq!(
        Version::from("1.2.3:20200415T194203Z ").unwrap_err(),
        VersionError::InvalidTimestamp("20200415T194203Z ".to_string())
    );
    assert_eq!(
        Version::from("1.2.3:+12345 0415T194203Z").unwrap_err(),
        VersionError::InvalidTimestamp("+12345 0415T194203Z".to_string())
    );
    assert_eq!(
        Version::from("1.2.3:2020041T194203Z").unwrap_err(),
        VersionError::InvalidTimestamp("2020041T194203Z".to_string())
    );
    assert_eq!(Version::from(" 1.2.3").unwrap_err(), VersionError::InvalidSemver(" 1.2.3".to_string()));
    assert_eq!(Version::from("1.2.3 ").unwrap_err(), VersionError::InvalidSemver("1.2.3 ".to_string()));
    assert!(Version::from("1.2.3:00010101T000000Z").is_ok());
    assert!(Version::from("1.2.3:99991231T235959Z").is_ok());
}

#[test]
fn more_than_one_colon_leaves_the_timestamp_unset() {
    let version = Version::from("1.2.3:20200415T194203Z:more").unwrap();
    assert_eq!(version.time, None);
    assert_eq!(version.to_string(), "1.2.3");
}

#[test]
fn stamped_version_is_written_with_its_time() {
    let version = Version::stamped(1, 2, 3, Timestamp { secs: 1586979723, nanos: 5 });
    assert_eq!(version.to_string(), "1.2.3:20200415T194203Z");
    assert_eq!(version.time, Some(Timestamp { secs: 1586979723, nanos: 5 }));
    let earlier = Version::stamped(1, 2, 3, Timestamp { secs: 1586979723, nanos: 4 });
    assert_eq!(earlier.compare(&version), Order::Less);
    assert!(!earlier.exq(&version));
    assert!(earlier == version);
    let before_epoch = Version::stamped(1, 2, 3, Timestamp { secs: -1, nanos: 0 });
    assert_eq!(before_epoch.to_string(), "1.2.3:19691231T235959Z");
    assert_eq!(before_epoch.compare(&version), Order::Less);
}

#[test]
fn new_version_is_stamped() {
    let version = Version::new(1, 2, 3);
    assert_eq!((version.major, version.minor, version.patch), (1, 2, 3));
    assert!(version.time.is_some());
    assert!(version.time.unwrap().secs > 1586979723);
    assert!(version.to_string().starts_with("1.2.3:"));
    assert_eq!(version.to_string().len(), "1.2.3:20200415T194203Z".len());
    let copy = version.duplicate();
    assert!(copy.exq(&version));
}
