use std::io::Write;

use kaitou::dispatch::{extract_archive, run_job, run_batch, batch_status, BatchStatus, JobInput};
use kaitou::entries::ExtractError;
use kaitou::lha_extractor::extract_lha;
use kaitou::sevenz_extractor::extract_7z;
use kaitou::stream_extractor::{extract_gz, extract_xz, extract_bz2};
use kaitou::tar_extractor::{extract_tar, extract_tar_gz};
use kaitou::zip_extractor::extract_zip;

fn gzip_bytes(data: &[u8]) -> Vec<u8> {
    let mut enc = flate2::write::GzEncoder::new(Vec::new(), flate2::Compression::default());
    enc.write_all(data).unwrap();
    enc.finish().unwrap()
}

fn xz_bytes(data: &[u8]) -> Vec<u8> {
    let mut enc = xz2::write::XzEncoder::new(Vec::new(), 6);
    enc.write_all(data).unwrap();
    enc.finish().unwrap()
}

fn bz2_bytes(data: &[u8]) -> Vec<u8> {
    let mut enc = bzip2::write::BzEncoder::new(Vec::new(), bzip2::Compression::default());
    enc.write_all(data).unwrap();
    enc.finish().unwrap()
}

fn tar_bytes(files: &[(&str, &[u8])], dirs: &[&str]) -> Vec<u8> {
    let mut builder = tar::Builder::new(Vec::new());
    for dir in dirs {
        let mut header = tar::Header::new_gnu();
        header.set_entry_type(tar::EntryType::Directory);
        header.set_size(0);
        header.set_mode(0o755);
        header.set_cksum();
        builder.append_data(&mut header, *dir, std::io::empty()).unwrap();
    }
    for (name, data) in files {
        let mut header = tar::Header::new_gnu();
        header.set_size(data.len() as u64);
        header.set_mode(0o644);
        header.set_cksum();
        builder.append_data(&mut header, *name, *data).unwrap();
    }
    builder.into_inner().unwrap()
}

fn crc32(data: &[u8]) -> u32 {
    let mut crc = flate2::Crc::new();
    crc.update(data);
    crc.sum()
}

/// A stored (uncompressed) ZIP archive built by hand, so that entry names
/// can carry arbitrary raw bytes.
fn zip_bytes(entries: &[(&[u8], &[u8], Option<u32>)]) -> Vec<u8> {
    let mut out: Vec<u8> = Vec::new();
    let mut central: Vec<u8> = Vec::new();
    for (name, data, mode) in entries {
        let offset = out.len() as u32;
        let crc = crc32(data);
        let size = data.len() as u32;
        // local file header
        out.extend_from_slice(&0x04034b50u32.to_le_bytes());
        out.extend_from_slice(&20u16.to_le_bytes()); // version needed
        out.extend_from_slice(&0u16.to_le_bytes()); // flags
        out.extend_from_slice(&0u16.to_le_bytes()); // stored
        out.extend_from_slice(&0u16.to_le_bytes()); // time
        out.extend_from_slice(&0x21u16.to_le_bytes()); // date
        out.extend_from_slice(&crc.to_le_bytes());
        out.extend_from_slice(&size.to_le_bytes());
        out.extend_from_slice(&size.to_le_bytes());
        out.extend_from_slice(&(name.len() as u16).to_le_bytes());
        out.extend_from_slice(&0u16.to_le_bytes()); // extra len
        out.extend_from_slice(name);
        out.extend_from_slice(data);
        // central directory record
        central.extend_from_slice(&0x02014b50u32.to_le_bytes());
        let made_by: u16 = if mode.is_some() { (3 << 8) | 20 } else { 20 };
        central.extend_from_slice(&made_by.to_le_bytes());
        central.extend_from_slice(&20u16.to_le_bytes());
        central.extend_from_slice(&0u16.to_le_bytes());
        central.extend_from_slice(&0u16.to_le_bytes());
        central.extend_from_slice(&0u16.to_le_bytes()); // time
        central.extend_from_slice(&0x21u16.to_le_bytes()); // date
        central.extend_from_slice(&crc.to_le_bytes());
        central.extend_from_slice(&size.to_le_bytes());
        central.extend_from_slice(&size.to_le_bytes());
        central.extend_from_slice(&(name.len() as u16).to_le_bytes());
        central.extend_from_slice(&0u16.to_le_bytes()); // extra
        central.extend_from_slice(&0u16.to_le_bytes()); // comment
        central.extend_from_slice(&0u16.to_le_bytes()); // disk
        central.extend_from_slice(&0u16.to_le_bytes()); // internal attrs
        let external: u32 = mode.map(|m| m << 16).unwrap_or(0);
        central.extend_from_slice(&external.to_le_bytes());
        central.extend_from_slice(&offset.to_le_bytes());
        central.extend_from_slice(name);
    }
    let cd_offset = out.len() as u32;
    let cd_size = central.len() as u32;
    out.extend_from_slice(&central);
    // end of central directory
    out.extend_from_slice(&0x06054b50u32.to_le_bytes());
    out.extend_from_slice(&0u16.to_le_bytes());
    out.extend_from_slice(&0u16.to_le_bytes());
    out.extend_from_slice(&(entries.len() as u16).to_le_bytes());
    out.extend_from_slice(&(entries.len() as u16).to_le_bytes());
    out.extend_from_slice(&cd_size.to_le_bytes());
    out.extend_from_slice(&cd_offset.to_le_bytes());
    out.extend_from_slice(&0u16.to_le_bytes());
    out
}

fn crc16(data: &[u8]) -> u16 {
    let mut crc: u16 = 0;
    for b in data {
        crc ^= *b as u16;
        for _ in 0..8 {
            if crc & 1 != 0 {
                crc = (crc >> 1) ^ 0xa001;
            } else {
                crc >>= 1;
            }
        }
    }
    crc
}

/// A stored (`-lh0-`) LHA archive with level-0 headers, built by hand.
fn lha_bytes(entries: &[(&[u8], &[u8])]) -> Vec<u8> {
    let mut out: Vec<u8> = Vec::new();
    for (name, data) in entries {
        let mut body: Vec<u8> = Vec::new();
        body.extend_from_slice(b"-lh0-");
        body.extend_from_slice(&(data.len() as u32).to_le_bytes());
        body.extend_from_slice(&(data.len() as u32).to_le_bytes());
        body.extend_from_slice(&[0x00, 0x00, 0x21, 0x52]); // MS-DOS time and date
        body.push(0x20); // attribute
        body.push(0); // header level 0
        body.push(name.len() as u8);
        body.extend_from_slice(name);
        body.extend_from_slice(&crc16(data).to_le_bytes());
        let checksum: u8 = body.iter().fold(0u8, |a, b| a.wrapping_add(*b));
        out.push(body.len() as u8);
        out.push(checksum);
        out.extend_from_slice(&body);
        out.extend_from_slice(data);
    }
    out.push(0); // end-of-archive marker
    out
}

fn sevenz_fixture(files: &[(&str, &[u8])]) -> Vec<u8> {
    let mut writer = sevenz_rust::SevenZWriter::new(std::io::Cursor::new(Vec::new())).unwrap();
    for (name, data) in files {
        let mut entry = sevenz_rust::SevenZArchiveEntry::new();
        entry.name = (*name).to_string();
        writer.push_archive_entry(entry, Some(*data)).unwrap();
    }
    writer.finish().unwrap().into_inner()
}

/// Lists a 7z archive's entries the way the application shell does: the
/// library takes the listing, not the bytes, because the decoder is driven
/// outside it.
fn sevenz_list(data: &[u8]) -> Option<Vec<(Vec<u8>, bool, Vec<u8>)>> {
    let cursor = std::io::Cursor::new(data);
    let len = data.len() as u64;
    let mut sz =
        sevenz_rust::SevenZReader::new(cursor, len, sevenz_rust::Password::empty()).ok()?;
    let mut out = Vec::new();
    sz.for_each_entries(|entry, reader| {
        let mut content = Vec::new();
        std::io::Read::read_to_end(reader, &mut content)?;
        out.push((entry.name().as_bytes().to_vec(), entry.is_directory(), content));
        Ok(true)
    })
    .ok()?;
    Some(out)
}

#[test]
fn gz_extracts_one_renamed_entry() {
    let content = b"hello compressed world";
    let entries = extract_gz("notes.txt.gz", &gzip_bytes(content)).unwrap();
    assert_eq!(entries.len(), 1);
    assert_eq!(entries[0].path, "notes.txt");
    assert!(!entries[0].is_dir);
    assert_eq!(entries[0].data, content);
    assert!(entries[0].unix_mode.is_none());
}

#[test]
fn gz_rejects_garbage() {
    let err = extract_gz("a.gz", b"this is not gzip").unwrap_err();
    assert!(matches!(err, ExtractError::Format(_)));
}

#[test]
fn xz_extracts_one_renamed_entry() {
    let content = b"xz stream content";
    let entries = extract_xz("data.bin.xz", &xz_bytes(content)).unwrap();
    assert_eq!(entries.len(), 1);
    assert_eq!(entries[0].path, "data.bin");
    assert_eq!(entries[0].data, content);
}

#[test]
fn bz2_extracts_one_renamed_entry() {
    let content = b"bzip2 stream content";
    let entries = extract_bz2("log.bz2", &bz2_bytes(content)).unwrap();
    assert_eq!(entries.len(), 1);
    assert_eq!(entries[0].path, "log");
    assert_eq!(entries[0].data, content);
}

#[test]
fn tar_lists_directories_and_files() {
    let data = tar_bytes(&[("docs/hello.txt", b"hi there")], &["docs/"]);
    let entries = extract_tar(&data).unwrap();
    assert_eq!(entries.len(), 2);
    assert_eq!(entries[0].path, "docs/");
    assert!(entries[0].is_dir);
    assert_eq!(entries[1].path, "docs/hello.txt");
    assert!(!entries[1].is_dir);
    assert_eq!(entries[1].data, b"hi there");
}

#[test]
fn tar_gz_composes_inflate_and_tar() {
    let inner = tar_bytes(&[("a.txt", b"alpha"), ("b.txt", b"beta")], &[]);
    let entries = extract_tar_gz(&gzip_bytes(&inner)).unwrap();
    assert_eq!(entries.len(), 2);
    assert_eq!(entries[0].path, "a.txt");
    assert_eq!(entries[0].data, b"alpha");
    assert_eq!(entries[1].path, "b.txt");
    assert_eq!(entries[1].data, b"beta");
}

#[test]
fn tar_xz_composes_decompress_and_tar() {
    let inner = tar_bytes(&[("x.txt", b"xz wrapped")], &[]);
    let entries = kaitou::tar_extractor::extract_tar_xz(&xz_bytes(&inner)).unwrap();
    assert_eq!(entries.len(), 1);
    assert_eq!(entries[0].path, "x.txt");
    assert_eq!(entries[0].data, b"xz wrapped");
}

#[test]
fn tar_bz2_composes_decompress_and_tar() {
    let inner = tar_bytes(&[("b.txt", b"bz wrapped")], &[]);
    let entries = kaitou::tar_extractor::extract_tar_bz2(&bz2_bytes(&inner)).unwrap();
    assert_eq!(entries.len(), 1);
    assert_eq!(entries[0].path, "b.txt");
    assert_eq!(entries[0].data, b"bz wrapped");
}

#[test]
fn tar_rejects_garbage() {
    let err = extract_tar(&[0x55u8; 512]).unwrap_err();
    assert!(matches!(err, ExtractError::Format(_)));
}

#[test]
fn zip_decodes_shift_jis_names_and_directories() {
    // an archive holding docs/ノート.txt (name stored as Shift_JIS bytes)
    // and an empty directory entry
    let mut name: Vec<u8> = Vec::new();
    name.extend_from_slice(b"docs/");
    name.extend_from_slice(&[0x83, 0x6d, 0x81, 0x5b, 0x83, 0x67]); // ノート
    name.extend_from_slice(b".txt");
    let content = "メモの内容".as_bytes();
    let data = zip_bytes(&[(&name, content, None), (b"empty/", b"", None)]);
    let entries = extract_zip(data).unwrap();
    assert_eq!(entries.len(), 2);
    assert_eq!(entries[0].path, "docs/ノート.txt");
    assert!(!entries[0].is_dir);
    assert_eq!(entries[0].data, content);
    assert_eq!(entries[1].path, "empty/");
    assert!(entries[1].is_dir);
}

#[test]
fn zip_keeps_recorded_unix_modes() {
    let data = zip_bytes(&[(b"run.sh", b"#!/bin/sh\n", Some(0o100755))]);
    let entries = extract_zip(data).unwrap();
    assert_eq!(entries.len(), 1);
    assert_eq!(entries[0].unix_mode, Some(0o100755));
}

#[test]
fn zip_rejects_garbage() {
    let err = extract_zip(b"not a zip at all".to_vec()).unwrap_err();
    assert!(matches!(err, ExtractError::Format(_)));
}

#[test]
fn lha_extracts_entries_in_order() {
    let sjis_name: &[u8] = &[0x93, 0xfa, 0x96, 0x7b, 0x8c, 0xea, 0x2e, 0x74, 0x78, 0x74];
    let data = lha_bytes(&[(b"first.txt", b"one"), (sjis_name, b"two")]);
    let entries = extract_lha(&data).unwrap();
    assert_eq!(entries.len(), 2);
    assert_eq!(entries[0].path, "first.txt");
    assert_eq!(entries[0].data, b"one");
    assert_eq!(entries[1].path, "日本語.txt");
    assert_eq!(entries[1].data, b"two");
}

#[test]
fn lha_trailing_garbage_after_entries_is_tolerated() {
    // once at least one entry has been extracted, a next header that fails
    // to parse means end-of-archive, not failure
    let mut data = lha_bytes(&[(b"only.txt", b"payload")]);
    data.pop(); // drop the end marker
    data.extend_from_slice(b"garbage tail bytes");
    let entries = extract_lha(&data).unwrap();
    assert_eq!(entries.len(), 1);
    assert_eq!(entries[0].path, "only.txt");
    assert_eq!(entries[0].data, b"payload");
}

#[test]
fn zip_entry_that_cannot_be_read_aborts_the_job() {
    // a readable central directory with a broken local header: the table
    // parses, but reading the entry fails and the whole job is aborted
    let mut data = zip_bytes(&[(b"a.txt", b"content", None)]);
    data[0] = 0xff; // corrupt the local file header signature
    let err = extract_zip(data).unwrap_err();
    assert!(matches!(err, ExtractError::Read(_)));
}

#[test]
fn lha_with_no_entries_is_a_failure() {
    let err = extract_lha(b"certainly not an lha file").unwrap_err();
    assert!(matches!(err, ExtractError::Format(_)));
    let err = extract_lha(b"").unwrap_err();
    assert!(matches!(err, ExtractError::Format(_)));
}

#[test]
fn sevenz_extracts_listed_entries() {
    let data = sevenz_fixture(&[("hello.txt", b"seven zip payload")]);
    let listing = sevenz_list(&data);
    assert!(listing.is_some());
    let entries = extract_7z(listing).unwrap();
    assert_eq!(entries.len(), 1);
    assert_eq!(entries[0].path, "hello.txt");
    assert!(!entries[0].is_dir);
    assert_eq!(entries[0].data, b"seven zip payload");
}

#[test]
fn sevenz_garbage_yields_no_listing_and_a_format_error() {
    assert!(sevenz_list(b"junk junk junk junk").is_none());
    let err = extract_7z(None).unwrap_err();
    assert!(matches!(err, ExtractError::Format(_)));
}

#[test]
fn sevenz_escaping_name_aborts_the_job() {
    let listing = vec![(b"../evil.txt".to_vec(), false, b"x".to_vec())];
    let err = extract_7z(Some(listing)).unwrap_err();
    assert!(matches!(err, ExtractError::UnsafeName(_)));
}

#[test]
fn dispatch_selects_by_extension() {
    let content = b"payload";
    let entries = extract_archive("x.gz", gzip_bytes(content)).unwrap();
    assert_eq!(entries[0].path, "x");
    assert_eq!(entries[0].data, content);

    let inner = tar_bytes(&[("f", b"d")], &[]);
    let entries = extract_archive("x.tgz", gzip_bytes(&inner)).unwrap();
    assert_eq!(entries[0].path, "f");

    let zipped = zip_bytes(&[(b"z.txt", b"zipped", None)]);
    let entries = extract_archive("x.ZIP", zipped).unwrap();
    assert_eq!(entries[0].path, "z.txt");

    // the same bytes under a .gz name go to the gzip extractor and fail
    let zipped = zip_bytes(&[(b"z.txt", b"zipped", None)]);
    assert!(extract_archive("x.zip.gz", zipped).is_err());
}

#[test]
fn dispatch_reports_unsupported_extensions() {
    // an unsupported extension is a reported failure and yields no entries
    let err = extract_archive("archive.foo", b"anything".to_vec()).unwrap_err();
    match err {
        ExtractError::Unsupported(ext) => assert_eq!(ext, "foo"),
        other => panic!("expected an unsupported-format error, got {}", other.message()),
    }
}

#[test]
fn dispatch_reports_rar_and_sevenz_as_external() {
    let err = extract_archive("archive.rar", b"Rar!".to_vec()).unwrap_err();
    assert!(matches!(err, ExtractError::External));
    let err = extract_archive("archive.7z", sevenz_fixture(&[("a", b"b")])).unwrap_err();
    assert!(matches!(err, ExtractError::External));
}

#[test]
fn escaping_entry_names_abort_extraction() {
    // a decoded name with a dot-dot component must never reach the
    // destination, whatever the container format
    let data = zip_bytes(&[(b"../evil.txt", b"x", None)]);
    let err = extract_zip(data).unwrap_err();
    assert!(matches!(err, ExtractError::UnsafeName(_)));

    let data = lha_bytes(&[(b"../evil", b"x")]);
    let err = extract_lha(&data).unwrap_err();
    assert!(matches!(err, ExtractError::UnsafeName(_)));

    // a raw stream whose derived output name is a dot-dot component
    let err = extract_gz("...gz", &gzip_bytes(b"x")).unwrap_err();
    assert!(matches!(err, ExtractError::UnsafeName(_)));

    // safe relatives still pass: nested and dot-carrying names are fine
    let data = zip_bytes(&[(b"a/b..c/.hidden", b"x", None)]);
    let entries = extract_zip(data).unwrap();
    assert_eq!(entries[0].path, "a/b..c/.hidden");
}

#[test]
fn error_messages_name_the_cause() {
    assert_eq!(ExtractError::NotFound.message(), "source file not found");
    assert_eq!(
        ExtractError::Unsupported("foo".to_string()).message(),
        "unsupported format: foo"
    );
}

#[test]
fn job_without_data_is_not_found() {
    let out = run_job(JobInput {
        file_name: "missing.zip".to_string(),
        existing: Vec::new(),
        data: None,
    });
    assert_eq!(out.source, "missing.zip");
    assert!(matches!(out.outcome, Err(ExtractError::NotFound)));
}

#[test]
fn job_without_stem_has_no_destination() {
    let out = run_job(JobInput {
        file_name: "".to_string(),
        existing: Vec::new(),
        data: Some(b"x".to_vec()),
    });
    assert!(matches!(out.outcome, Err(ExtractError::NoName)));
}

#[test]
fn job_resolves_destination_against_existing_names() {
    let out = run_job(JobInput {
        file_name: "archive.tar.gz".to_string(),
        existing: vec!["archive".to_string()],
        data: Some(gzip_bytes(&tar_bytes(&[("f", b"d")], &[]))),
    });
    let extraction = out.outcome.unwrap();
    // the destination is named after the innermost content, disambiguated
    assert_eq!(extraction.dest_name, "archive (1)");
    assert_eq!(extraction.entries.len(), 1);
}

#[test]
fn batch_failures_do_not_disturb_other_jobs() {
    // three inputs; the second is corrupt; the first and third still succeed
    let good = |name: &str| JobInput {
        file_name: name.to_string(),
        existing: Vec::new(),
        data: Some(gzip_bytes(b"fine")),
    };
    let jobs = vec![
        good("one.gz"),
        JobInput {
            file_name: "two.gz".to_string(),
            existing: Vec::new(),
            data: Some(b"corrupt bytes".to_vec()),
        },
        good("three.gz"),
    ];
    let outcomes = run_batch(jobs);
    assert_eq!(outcomes.len(), 3);
    assert!(outcomes[0].outcome.is_ok());
    assert!(outcomes[1].outcome.is_err());
    assert!(outcomes[2].outcome.is_ok());
    assert_eq!(outcomes[0].source, "one.gz");
    assert_eq!(outcomes[2].source, "three.gz");
    assert_eq!(outcomes[0].outcome.as_ref().unwrap().dest_name, "one");
    assert_eq!(outcomes[2].outcome.as_ref().unwrap().entries[0].data, b"fine");
    assert_eq!(batch_status(&outcomes), BatchStatus::PartiallySucceeded);
}

#[test]
fn batch_status_adds_outcomes_up() {
    let good = |name: &str| JobInput {
        file_name: name.to_string(),
        existing: Vec::new(),
        data: Some(gzip_bytes(b"ok")),
    };
    let bad = |name: &str| JobInput {
        file_name: name.to_string(),
        existing: Vec::new(),
        data: None,
    };
    let all_good = run_batch(vec![good("a.gz"), good("b.gz")]);
    assert_eq!(batch_status(&all_good), BatchStatus::AllSucceeded);
    let all_bad = run_batch(vec![bad("a.gz"), bad("b.gz")]);
    assert_eq!(batch_status(&all_bad), BatchStatus::AllFailed);
    let none: Vec<kaitou::dispatch::JobOutcome> = Vec::new();
    assert_eq!(batch_status(&none), BatchStatus::AllSucceeded);
}
