use sha3::Digest;
use zps::action::{Action, Dir, File, Manifest, Zpkg};
use zps::provider::{provider_for, DirUnix, FileUnix, Options, Provider, ZpkgDefault};
use zps::zpkg::builder::{BuildError, Builder};
use zps::zpkg::header::{CompType, HashMethod, Header, HeaderV1, Version};
use zps::zpkg::payload::{PayloadError, Writer as PayloadWriter};
use zps::zpkg::reader::{ContainerError, Layout, Reader};
use zps::zpkg::writer::Writer;
use zps::Phase;

fn file(path: &str) -> File {
    File {
        path: path.to_string(),
        owner: "root".to_string(),
        group: "root".to_string(),
        mode: 0o640,
        offset: 0,
        csize: 0,
        size: 0,
        digest: String::new(),
    }
}

fn describe(manifest: &Manifest) -> Vec<u8> {
    let mut text = format!("{}@{}", manifest.zpkg.name, manifest.zpkg.version);
    for d in &manifest.dirs {
        text.push_str(&format!("|dir {} {:o}", d.path, d.mode));
    }
    for f in &manifest.files {
        text.push_str(&format!(
            "|file {} {} {} {} [{}]",
            f.path, f.offset, f.csize, f.size, f.digest
        ));
    }
    text.into_bytes()
}

#[test]
fn header_is_seven_bytes_little_endian() {
    let header = HeaderV1::new(CompType::ZSTD, HashMethod::SHA3_256, 0x0102_0304);
    assert_eq!(header.to_vec(), [1, 0, 0, 4, 3, 2, 1]);
    assert_eq!(header.version(), 1);
    assert_eq!(header.comp_type(), 0);
    assert_eq!(header.hash_method(), 0);
    assert_eq!(header.manifest_len(), 0x0102_0304);
    assert_eq!(HeaderV1::default().to_vec(), [1, 0, 0, 0, 0, 0, 0]);
    assert_eq!(HeaderV1::default(), HeaderV1::new(CompType::ZSTD, HashMethod::SHA3_256, 0));
    assert_eq!(
        HeaderV1::new(CompType::ZSTD, HashMethod::SHA3_256, u32::MAX).to_vec(),
        [1, 0, 0, 255, 255, 255, 255]
    );
    assert_eq!(
        HeaderV1::new(CompType::ZSTD, HashMethod::SHA3_256, 256).to_vec(),
        [1, 0, 0, 0, 1, 0, 0]
    );
}

#[test]
fn unknown_method_bytes_fall_back_to_the_default() {
    assert_eq!(CompType::from(0), CompType::ZSTD);
    assert_eq!(CompType::from(9), CompType::ZSTD);
    assert_eq!(HashMethod::from(0), HashMethod::SHA3_256);
    assert_eq!(HashMethod::from(200), HashMethod::SHA3_256);
    assert_eq!(CompType::ZSTD.code(), 0);
    assert_eq!(HashMethod::SHA3_256.code(), 0);
    assert_eq!(Version::V1.code(), 1);
}

#[test]
fn container_is_magic_header_manifest_payload() {
    let header = HeaderV1::new(CompType::ZSTD, HashMethod::SHA3_256, 3).to_vec();
    let bytes = Writer::new().write(&header, &[10, 11, 12], &[20, 21]);
    assert_eq!(
        bytes,
        [b'z', b'p', b'k', b'g', b'!', 1, 0, 0, 3, 0, 0, 0, 10, 11, 12, 20, 21]
    );

    let mut reader = Reader::new("some.zpkg", "/tmp");
    assert_eq!(reader.path, "some.zpkg");
    assert_eq!(reader.work_path, "/tmp");
    assert!(reader.header.is_none());
    assert!(reader.manifest.is_none());
    let layout = reader.read(&bytes).unwrap();
    assert_eq!(layout, Layout { manifest_start: 12, payload_start: 15 });
    assert_eq!(
        reader.header,
        Some(HeaderV1::new(CompType::ZSTD, HashMethod::SHA3_256, 3))
    );
    assert_eq!(&bytes[layout.manifest_start..layout.payload_start], [10, 11, 12]);
    assert_eq!(&bytes[layout.payload_start..], [20, 21]);
}

#[test]
fn reader_refuses_what_is_no_container() {
    let mut reader = Reader::new("some.zpkg", "/tmp");
    assert_eq!(reader.read(&[]), Err(ContainerError::BadMagic));
    assert_eq!(reader.read(b"zpkg"), Err(ContainerError::BadMagic));
    assert_eq!(
        reader.read(b"zpkg?\x01\x00\x00\x00\x00\x00\x00"),
        Err(ContainerError::BadMagic)
    );
    assert_eq!(reader.read(b"zpkg!"), Err(ContainerError::Truncated));
    assert_eq!(
        reader.read(b"zpkg!\x01\x00\x00\x00\x00\x00"),
        Err(ContainerError::Truncated)
    );
    assert_eq!(
        reader.read(b"zpkg!\x01\x00\x00\x02\x00\x00\x00\x07"),
        Err(ContainerError::Truncated)
    );
    assert!(reader.header.is_none());
    assert_eq!(
        reader.read(b"zpkg!\x07\x09\x05\x02\x01\x00\x00"),
        Err(ContainerError::Truncated)
    );
    let mut long = b"zpkg!\x07\x09\x05\x02\x01\x00\x00".to_vec();
    long.extend(std::iter::repeat(7u8).take(260));
    assert_eq!(
        reader.read(&long),
        Ok(Layout { manifest_start: 12, payload_start: 12 + 258 })
    );
    assert_eq!(
        reader.header,
        Some(HeaderV1::new(CompType::ZSTD, HashMethod::SHA3_256, 258))
    );
    assert_eq!(
        reader.read(b"zpkg!\x01\x00\x00\x00\x00\x00\x00"),
        Ok(Layout { manifest_start: 12, payload_start: 12 })
    );
}

#[test]
fn payload_records_absent_and_empty_files_with_zeros() {
    let mut payload =
        PayloadWriter::with_id(CompType::ZSTD, HashMethod::SHA3_256, "/tmp/work", "abc");
    assert_eq!(payload.file_path(), "/tmp/work/abc.zpkgtmp");
    assert_eq!(payload.put(None), Ok((0, 0, 0, String::new())));
    assert_eq!(payload.put(Some(&[])), Ok((0, 0, 0, String::new())));
    assert!(payload.blob.is_empty());
}

#[test]
fn payload_appends_compressed_bytes_and_hashes_them() {
    let mut payload =
        PayloadWriter::with_id(CompType::ZSTD, HashMethod::SHA3_256, "/tmp/work", "abc");
    let first: Vec<u8> = b"hello hello hello hello hello hello".to_vec();
    let second: Vec<u8> = vec![42u8; 1000];

    let (offset, csize, size, digest) = payload.put(Some(&first)).unwrap();
    assert_eq!(offset, 0);
    assert_eq!(size, first.len() as u64);
    assert_eq!(csize as usize, payload.blob.len());
    let stored = payload.blob.clone();
    assert_ne!(stored, first);
    assert_eq!(zstd::stream::decode_all(&stored[..]).unwrap(), first);
    assert_eq!(digest, format!("{:x}", sha3::Sha3_256::digest(&stored)));
    assert_eq!(digest.len(), 64);

    assert_eq!(payload.put(None), Ok((0, 0, 0, String::new())));
    assert_eq!(payload.blob, stored);

    let (offset2, csize2, size2, digest2) = payload.put(Some(&second)).unwrap();
    assert_eq!(offset2, csize);
    assert_eq!(size2, 1000);
    assert_eq!((offset2 + csize2) as usize, payload.blob.len());
    assert_eq!(&payload.blob[..csize as usize], &stored[..]);
    let tail = payload.blob[offset2 as usize..].to_vec();
    assert_eq!(zstd::stream::decode_all(&tail[..]).unwrap(), second);
    assert_eq!(digest2, format!("{:x}", sha3::Sha3_256::digest(&tail)));
    assert_ne!(digest, digest2);
}

#[test]
fn store_appends_what_it_is_given() {
    let mut payload =
        PayloadWriter::with_id(CompType::ZSTD, HashMethod::SHA3_256, "/tmp/work", "abc");
    assert_eq!(
        payload.store(10, &[1, 2, 3], "aa".to_string()),
        (0, 3, 10, "aa".to_string())
    );
    assert_eq!(
        payload.store(7, &[4, 5], "bb".to_string()),
        (3, 2, 7, "bb".to_string())
    );
    assert_eq!(payload.blob, [1, 2, 3, 4, 5]);
}

#[test]
fn fresh_payloads_get_fresh_names() {
    let one = PayloadWriter::new(CompType::ZSTD, HashMethod::SHA3_256, "/tmp/work").unwrap();
    let two = PayloadWriter::new(CompType::ZSTD, HashMethod::SHA3_256, "/tmp/work").unwrap();
    assert!(one.path.starts_with("/tmp/work/"));
    assert!(one.path.ends_with(".zpkgtmp"));
    assert!(one.path.len() > "/tmp/work/.zpkgtmp".len());
    assert_ne!(one.path, two.path);
    assert!(one.blob.is_empty());
}

#[test]
fn providers_change_only_files_in_the_package_phase() {
    let mut payload =
        PayloadWriter::with_id(CompType::ZSTD, HashMethod::SHA3_256, "/tmp/work", "abc");
    let mut opts = Options::new();
    assert!(opts.target_path.is_none() && opts.work_path.is_none());
    assert!(!opts.debug && !opts.verbose);
    opts.target_path = Some("/srv/proto".to_string());
    let data: Vec<u8> = vec![7u8; 300];

    let dir = Dir {
        path: "etc".to_string(),
        owner: "root".to_string(),
        group: "root".to_string(),
        mode: 0o755,
    };
    let provider = provider_for(Action::Dir(dir.clone()));
    assert!(matches!(provider, Provider::Dir(_)));
    let realized = provider
        .realize(&opts, Phase::Package, None, &mut payload, Some(&data))
        .unwrap();
    assert_eq!(realized.to_string(), "Dir root:root 755 etc");
    assert!(payload.blob.is_empty());
    assert_eq!(DirUnix::new(dir).action.path, "etc");

    let record = Zpkg {
        name: "test".to_string(),
        version: "1.0.0".to_string(),
        publisher: "thing".to_string(),
        arch: "x86_64".to_string(),
        os: "darwin".to_string(),
        summary: "banan".to_string(),
        description: "narf".to_string(),
    };
    let provider = provider_for(Action::Zpkg(record.clone()));
    assert!(matches!(provider, Provider::Zpkg(_)));
    let realized = provider
        .realize(&opts, Phase::Install, None, &mut payload, None)
        .unwrap();
    assert_eq!(realized.id(), "Zpkg:test");
    assert_eq!(ZpkgDefault::new(record).action.name, "test");

    let provider = FileUnix::new(file("etc/motd"));
    assert_eq!(provider.source_path(&opts), "/srv/proto/etc/motd");
    for phase in [
        Phase::Install,
        Phase::Remove,
        Phase::Configure,
        Phase::NOOP,
        Phase::Validate,
    ] {
        match provider
            .realize(&opts, phase, None, &mut payload, Some(&data))
            .unwrap()
        {
            Action::File(f) => {
                assert_eq!((f.offset, f.csize, f.size), (0, 0, 0));
                assert_eq!(f.digest, "");
            }
            _ => panic!("a file stays a file"),
        }
        assert!(payload.blob.is_empty());
    }
    payload.store(0, &[9, 9, 9], String::new());
    match provider_for(Action::File(file("etc/motd")))
        .realize(&opts, Phase::Package, None, &mut payload, Some(&data))
        .unwrap()
    {
        Action::File(f) => {
            assert_eq!(f.path, "etc/motd");
            assert_eq!(f.mode, 0o640);
            assert_eq!(f.offset, 3);
            assert_eq!(f.size, 300);
            assert_eq!(f.csize as usize, payload.blob.len() - 3);
            assert_eq!(
                f.digest,
                format!("{:x}", sha3::Sha3_256::digest(&payload.blob[3..]))
            );
        }
        _ => panic!("a file stays a file"),
    }
}

fn run(builder: &mut Builder, sources: Vec<Option<Vec<u8>>>) -> (Manifest, Vec<u8>, Vec<u8>) {
    builder.set_paths("/home/builder");
    builder.set_target(false);
    builder.load_zpf();
    let work = builder.provider_options.work_path.clone().unwrap();
    let mut payload = PayloadWriter::new(builder.compression, builder.hash_method, &work).unwrap();
    assert_eq!(builder.sources().len(), sources.len());
    builder.realize(&mut payload, &sources).unwrap();
    builder.validate().unwrap();
    let manifest = builder.manifest.clone().unwrap();
    let bytes = builder.assemble(&describe(&manifest), &payload.blob).unwrap();
    (manifest, bytes, payload.blob)
}

#[test]
fn test_builder() {
    let (manifest, _, _) = run(&mut Builder::new(), vec![None, None]);
    assert_eq!(manifest.zpkg.name, "test".to_string());
}

#[test]
fn building_with_absent_files_gives_an_empty_payload() {
    let mut builder = Builder::new();
    let (manifest, bytes, blob) = run(&mut builder, vec![None, None]);
    assert_eq!(manifest.zpkg.name, "test");
    assert_eq!(manifest.zpkg.version, "1.0.0");
    assert_eq!(manifest.dirs.len(), 1);
    assert_eq!(manifest.dirs[0].path, "nacho/taco");
    assert_eq!(manifest.dirs[0].mode, 0o750);
    assert_eq!(manifest.files.len(), 2);
    assert_eq!(manifest.files[0].path, "nacho/taco/sniffer");
    assert_eq!(manifest.files[1].path, "nacho/oof.txt");
    for f in &manifest.files {
        assert_eq!((f.offset, f.csize, f.size), (0, 0, 0));
        assert_eq!(f.digest, "");
        assert_eq!(f.mode, 0o640);
        assert_eq!(f.owner, "root");
    }
    assert!(blob.is_empty());
    assert_eq!(
        builder.file_path.clone().unwrap(),
        "/home/builder/test@1.0.0-darwin-x86_64.zpkg"
    );
    assert_eq!(builder.zpf_path.clone().unwrap(), "/home/builder/Zpkgfile");
    assert_eq!(
        builder.provider_options.target_path.clone().unwrap(),
        "/home/builder/proto"
    );
    assert_eq!(
        builder.sources(),
        [
            "/home/builder/proto/nacho/taco/sniffer",
            "/home/builder/proto/nacho/oof.txt"
        ]
    );

    let mut reader = Reader::new("test.zpkg", "/tmp");
    let layout = reader.read(&bytes).unwrap();
    let header = reader.header.unwrap();
    assert_eq!(header.version(), 1);
    assert_eq!(
        header.manifest_len() as usize,
        layout.payload_start - layout.manifest_start
    );
    assert_eq!(layout.payload_start, bytes.len());
    let packed = &bytes[layout.manifest_start..layout.payload_start];
    let unpacked = zstd::bulk::decompress(packed, 1 << 16).unwrap();
    assert_eq!(unpacked, describe(&manifest));
    assert_eq!(
        String::from_utf8(unpacked).unwrap(),
        "test@1.0.0|dir nacho/taco 750|file nacho/taco/sniffer 0 0 0 []|file nacho/oof.txt 0 0 0 []"
    );
}

#[test]
fn building_with_files_records_where_they_lie() {
    let mut builder = Builder::new();
    builder.output("/out".to_string());
    builder.work("/work".to_string());
    builder.target("/srv/tree".to_string());
    builder.zpf("/srv/Zpkgfile".to_string());
    let first = vec![1u8; 500];
    let second = b"second file".to_vec();
    let (manifest, bytes, blob) =
        run(&mut builder, vec![Some(first.clone()), Some(second.clone())]);
    assert_eq!(builder.file_path.clone().unwrap(), "/out/test@1.0.0-darwin-x86_64.zpkg");
    assert_eq!(builder.provider_options.target_path.clone().unwrap(), "/srv/tree");
    let a = &manifest.files[0];
    let b = &manifest.files[1];
    assert_eq!(a.offset, 0);
    assert_eq!(a.size, 500);
    assert_eq!(b.offset, a.csize);
    assert_eq!(b.size, second.len() as u64);
    assert_eq!((b.offset + b.csize) as usize, blob.len());
    let stored_a = &blob[..a.csize as usize];
    let stored_b = &blob[b.offset as usize..];
    assert_eq!(zstd::stream::decode_all(stored_a).unwrap(), first);
    assert_eq!(zstd::stream::decode_all(stored_b).unwrap(), second);
    assert_eq!(a.digest, format!("{:x}", sha3::Sha3_256::digest(stored_a)));
    assert_eq!(b.digest, format!("{:x}", sha3::Sha3_256::digest(stored_b)));

    let mut reader = Reader::new("test.zpkg", "/tmp");
    let layout = reader.read(&bytes).unwrap();
    assert_eq!(&bytes[layout.payload_start..], &blob[..]);
    let packed = &bytes[layout.manifest_start..layout.payload_start];
    assert_ne!(packed, &describe(&manifest)[..]);
    assert_eq!(zstd::bulk::decompress(packed, 1 << 16).unwrap(), describe(&manifest));
}

#[test]
fn builder_settings() {
    let mut builder = Builder::new();
    assert!(builder.secure);
    assert!(!builder.restrict);
    builder.insecure();
    builder.restrict();
    builder.debug();
    builder.verbose();
    builder.owner("me".to_string());
    builder.group("us".to_string());
    builder.compression(CompType::ZSTD);
    builder.version(Version::V1);
    assert!(!builder.secure);
    assert!(builder.restrict);
    assert!(builder.provider_options.debug);
    assert!(builder.provider_options.verbose);
    assert_eq!(builder.owner.clone().unwrap(), "me");
    assert_eq!(builder.group.clone().unwrap(), "us");

    builder.zpf("/srv/pkg".to_string());
    builder.set_paths("/cwd");
    assert_eq!(builder.output_path.clone().unwrap(), "/cwd");
    assert_eq!(builder.provider_options.work_path.clone().unwrap(), "/cwd");
    assert_eq!(builder.zpf_path.clone().unwrap(), "/srv/pkg");
    builder.set_target(true);
    assert_eq!(builder.zpf_path.clone().unwrap(), "/srv/pkg/Zpkgfile");
    assert_eq!(builder.provider_options.target_path.clone().unwrap(), "/srv/pkg/proto");
}

#[test]
fn resolve_merges_what_a_walk_found() {
    let mut builder = Builder::new();
    builder.load_zpf();
    builder.resolve(vec![
        Action::Dir(Dir {
            path: "nacho".to_string(),
            owner: "1000".to_string(),
            group: "1000".to_string(),
            mode: 0o755,
        }),
        Action::Dir(Dir {
            path: "nacho/taco".to_string(),
            owner: "1000".to_string(),
            group: "1000".to_string(),
            mode: 0o777,
        }),
        Action::File(file("nacho/oof.txt")),
        Action::File(file("nacho/new.txt")),
        Action::File(file("nacho/new.txt")),
    ]);
    let manifest = builder.manifest.clone().unwrap();
    let dirs: Vec<&str> = manifest.dirs.iter().map(|d| d.path.as_str()).collect();
    let files: Vec<&str> = manifest.files.iter().map(|f| f.path.as_str()).collect();
    assert_eq!(dirs, ["nacho/taco", "nacho"]);
    assert_eq!(files, ["nacho/taco/sniffer", "nacho/oof.txt", "nacho/new.txt"]);
    assert_eq!(manifest.dirs[0].mode, 0o750);
    assert_eq!(manifest.dirs[0].owner, "root");
}

#[test]
fn validate_refuses_bad_records_and_repeated_paths() {
    let mut builder = Builder::new();
    builder.set_paths("/cwd");
    builder.load_zpf();
    let mut broken = builder.manifest.clone().unwrap();
    broken.zpkg.os = "beos".to_string();
    builder.manifest = Some(broken);
    assert!(matches!(builder.validate(), Err(BuildError::Package(_))));

    builder.load_zpf();
    let mut twice = builder.manifest.clone().unwrap();
    twice.files.push(file("nacho/taco"));
    builder.manifest = Some(twice);
    assert!(matches!(builder.validate(), Err(BuildError::Manifest(_))));

    builder.load_zpf();
    assert!(builder.validate().is_ok());
    assert!(matches!(
        PayloadError::Compression,
        PayloadError::Compression
    ));
}
