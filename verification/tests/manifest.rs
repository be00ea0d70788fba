use zps::action::{Action, ActionType, Dir, File, Manifest, ManifestError, Zpkg};

fn zpkg(name: &str) -> Zpkg {
    Zpkg {
        name: name.to_string(),
        version: "1.0.0:20200320T221640Z".to_string(),
        publisher: "fezz.io".to_string(),
        arch: "x86_64".to_string(),
        os: "darwin".to_string(),
        summary: "Test zpkg".to_string(),
        description: "Test zpkg, for well testing".to_string(),
    }
}

fn dir(path: &str, mode: u32) -> Dir {
    Dir {
        path: path.to_string(),
        owner: "root".to_string(),
        group: "wheel".to_string(),
        mode,
    }
}

fn file(path: &str, mode: u32) -> File {
    File {
        path: path.to_string(),
        owner: "root".to_string(),
        group: "wheel".to_string(),
        mode,
        offset: 0,
        csize: 0,
        size: 0,
        digest: String::new(),
    }
}

fn paths(manifest: &Manifest) -> (Vec<String>, Vec<String>) {
    (
        manifest.dirs.iter().map(|d| d.path.clone()).collect(),
        manifest.files.iter().map(|f| f.path.clone()).collect(),
    )
}

#[test]
fn actions_have_identifiers_keys_and_text() {
    let d = Action::Dir(dir("nacho/taco", 0o750));
    assert_eq!(d.id(), "Dir:nacho/taco");
    assert_eq!(d.key(), "nacho/taco");
    assert_eq!(d.kind(), ActionType::Dir);
    assert_eq!(d.to_string(), "Dir root:wheel 750 nacho/taco");
    let f = Action::File(file("nacho/oof.txt", 0o640));
    assert_eq!(f.id(), "File:nacho/oof.txt");
    assert_eq!(f.key(), "nacho/oof.txt");
    assert_eq!(f.kind(), ActionType::File);
    assert_eq!(f.to_string(), "File root:wheel 640 nacho/oof.txt");
    let z = Action::Zpkg(zpkg("test"));
    assert_eq!(z.id(), "Zpkg:test");
    assert_eq!(z.key(), "test");
    assert_eq!(z.kind(), ActionType::Zpkg);
    assert_eq!(z.to_string(), "Zpkg test@1.0.0:20200320T221640Z");
    assert_eq!(ActionType::Zpkg.to_string(), "Zpkg");
    let f = Action::File(file("nacho/oof.txt", 0o640));
    assert!(d.same(&Action::Dir(dir("nacho/taco", 0o700))));
    assert!(d == Action::Dir(dir("nacho/taco", 0o700)));
    assert!(d != f);
    assert!(dir("a", 1) == dir("a", 2));
    assert!(dir("a", 1) != dir("b", 1));
    assert!(file("a", 1) == file("a", 2));
    assert!(file("a", 1) != file("b", 1));
    assert!(!d.same(&Action::File(file("nacho/taco", 0o750))));
    assert!(!d.same(&Action::Dir(dir("nacho", 0o750))));
}

#[test]
fn modes_are_written_in_base_eight() {
    assert_eq!(dir("a", 0).to_string(), "Dir root:wheel 0 a");
    assert_eq!(dir("a", 7).to_string(), "Dir root:wheel 7 a");
    assert_eq!(dir("a", 8).to_string(), "Dir root:wheel 10 a");
    assert_eq!(dir("a", 0o7777).to_string(), "Dir root:wheel 7777 a");
    assert_eq!(file("a", 0o100644).to_string(), "File root:wheel 100644 a");
    assert_eq!(file("a", u32::MAX).to_string(), "File root:wheel 37777777777 a");
}

#[test]
fn validity_of_actions() {
    assert!(dir("a", 0o750).is_valid());
    assert!(!dir("", 0o750).is_valid());
    assert!(file("a", 0o640).is_valid());
    assert!(!file("", 0o640).is_valid());
    let mut packed = file("a", 0o640);
    packed.offset = 12;
    packed.digest = "00".to_string();
    assert!(packed.is_valid());
    assert!(zpkg("test").is_valid());
    let mut blank = zpkg("test");
    blank.summary = String::new();
    assert!(!blank.is_valid());
    assert!(!zpkg("").is_valid());
    assert!(Action::Zpkg(zpkg("test")).is_valid());
    assert!(!Action::Dir(dir("", 1)).is_valid());
}

#[test]
fn add_skips_paths_that_are_there() {
    let mut manifest = Manifest::new(zpkg("test"));
    assert!(manifest.dirs.is_empty());
    assert!(manifest.files.is_empty());
    manifest.add(Action::Dir(dir("etc", 0o755)));
    manifest.add(Action::File(file("etc/motd", 0o644)));
    manifest.add(Action::Dir(dir("etc", 0o700)));
    manifest.add(Action::File(file("etc/motd", 0o600)));
    manifest.add(Action::File(file("etc", 0o600)));
    manifest.add(Action::Dir(dir("usr", 0o755)));
    let (dirs, files) = paths(&manifest);
    assert_eq!(dirs, ["etc", "usr"]);
    assert_eq!(files, ["etc/motd", "etc"]);
    assert_eq!(manifest.dirs[0].mode, 0o755);
    assert_eq!(manifest.files[0].mode, 0o644);
    assert_eq!(manifest.zpkg.name, "test");
    manifest.add(Action::Zpkg(zpkg("other")));
    assert_eq!(manifest.zpkg.name, "other");
    let (dirs, files) = paths(&manifest);
    assert_eq!(dirs, ["etc", "usr"]);
    assert_eq!(files, ["etc/motd", "etc"]);
}

#[test]
fn actions_come_record_first_then_dirs_then_files() {
    let mut manifest = Manifest::new(zpkg("test"));
    manifest.add(Action::File(file("b", 0o644)));
    manifest.add(Action::Dir(dir("a", 0o755)));
    manifest.add(Action::File(file("c", 0o644)));
    let ids: Vec<String> = manifest.actions().iter().map(|a| a.id()).collect();
    assert_eq!(ids, ["Zpkg:test", "Dir:a", "File:b", "File:c"]);
}

#[test]
fn set_replaces_both_lists() {
    let mut manifest = Manifest::new(zpkg("test"));
    manifest.add(Action::Dir(dir("old", 0o755)));
    manifest.add(Action::File(file("old/file", 0o644)));
    manifest.set(vec![
        Action::File(file("x", 0o644)),
        Action::Dir(dir("d", 0o755)),
        Action::Zpkg(zpkg("first")),
        Action::File(file("x", 0o600)),
        Action::Zpkg(zpkg("second")),
        Action::Dir(dir("e", 0o755)),
    ]);
    let (dirs, files) = paths(&manifest);
    assert_eq!(dirs, ["d", "e"]);
    assert_eq!(files, ["x", "x"]);
    assert_eq!(manifest.files[1].mode, 0o600);
    assert_eq!(manifest.zpkg.name, "second");
    manifest.set(vec![]);
    assert!(manifest.dirs.is_empty());
    assert!(manifest.files.is_empty());
    assert_eq!(manifest.zpkg.name, "second");
}

#[test]
fn validate_finds_the_first_repeated_path() {
    let mut manifest = Manifest::new(zpkg("test"));
    assert!(manifest.validate().is_ok());
    manifest.set(vec![
        Action::Dir(dir("a", 0o755)),
        Action::Dir(dir("b", 0o755)),
        Action::File(file("c", 0o644)),
        Action::File(file("d", 0o644)),
    ]);
    assert!(manifest.validate().is_ok());

    manifest.set(vec![
        Action::Dir(dir("a", 0o755)),
        Action::File(file("c", 0o644)),
        Action::File(file("a", 0o644)),
        Action::File(file("c", 0o644)),
    ]);
    match manifest.validate() {
        Err(ManifestError::DuplicateKey(key)) => assert_eq!(key, "a"),
        Ok(_) => panic!("a path shared by a directory and a file must be refused"),
    }

    manifest.set(vec![
        Action::Dir(dir("a", 0o755)),
        Action::Dir(dir("b", 0o755)),
        Action::Dir(dir("b", 0o700)),
        Action::Dir(dir("a", 0o700)),
    ]);
    match manifest.validate() {
        Err(ManifestError::DuplicateKey(key)) => assert_eq!(key, "b"),
        Ok(_) => panic!("a path that stands twice among the directories must be refused"),
    }

    manifest.set(vec![
        Action::File(file("x", 0o644)),
        Action::File(file("y", 0o644)),
        Action::File(file("x", 0o644)),
    ]);
    match manifest.validate() {
        Err(ManifestError::DuplicateKey(key)) => assert_eq!(key, "x"),
        Ok(_) => panic!("a path that stands twice among the files must be refused"),
    }
}
