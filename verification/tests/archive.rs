use std::io::{Cursor, Read, Write};

use macpack_runtime::join_path;
use macpack_runtime::paths::sanitize_entry_path;

fn build_archive(entries: &[(&str, &[u8])]) -> Vec<u8> {
    let mut writer = zip::ZipWriter::new(Cursor::new(Vec::new()));
    let options = zip::write::SimpleFileOptions::default();
    for (name, bytes) in entries {
        writer.start_file(*name, options).unwrap();
        writer.write_all(bytes).unwrap();
    }
    writer.finish().unwrap().into_inner()
}

#[test]
fn extraction_round_trip_preserves_bytes() {
    let entries: &[(&str, &[u8])] = &[
        ("macpack.toml", b"[package]\nname = \"Hello\"\n"),
        ("bin/hello", b"\x7fELF\x00\x01\x02\xff"),
        ("data/notes.txt", b"line one\r\nline two\n"),
    ];
    let bytes = build_archive(entries);
    let mut archive = zip::ZipArchive::new(Cursor::new(bytes)).unwrap();
    assert_eq!(archive.len(), entries.len());
    for i in 0..archive.len() {
        let mut entry = archive.by_index(i).unwrap();
        let name = entry.name().to_string();
        let expected = entries
            .iter()
            .find(|(n, _)| *n == name)
            .map(|(_, b)| *b)
            .unwrap();
        let mut read_back = Vec::new();
        entry.read_to_end(&mut read_back).unwrap();
        assert_eq!(read_back.as_slice(), expected);
    }
}

#[test]
fn traversal_entries_stay_under_the_destination() {
    let entries: &[(&str, &[u8])] = &[
        ("../outside.txt", b"escape"),
        ("/abs/inside.txt", b"absolute"),
        ("nested/../../deep.txt", b"deep"),
    ];
    let bytes = build_archive(entries);
    let mut archive = zip::ZipArchive::new(Cursor::new(bytes)).unwrap();
    let dest = "/scratch/mcpak_x";
    for i in 0..archive.len() {
        let entry = archive.by_index(i).unwrap();
        let sanitized = sanitize_entry_path(entry.name());
        assert!(!sanitized.starts_with('/'));
        for comp in sanitized.split('/') {
            assert_ne!(comp, "..");
            assert_ne!(comp, ".");
        }
        if !sanitized.is_empty() {
            let target = join_path(dest, &sanitized);
            assert!(target.starts_with("/scratch/mcpak_x/"));
            assert!(!target.contains("/../"));
        }
    }
}
