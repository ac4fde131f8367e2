use std::io::Write;
use tgbr::archive::{rom_image_from_archive, LoadError};

/// A zip archive holding `entries` (name, contents), written with the given method.
fn pack(entries: &[(&str, &[u8])], method: zip::CompressionMethod) -> Vec<u8> {
    let mut w = zip::ZipWriter::new(std::io::Cursor::new(Vec::new()));
    for (name, data) in entries {
        let options = zip::write::FileOptions::default().compression_method(method);
        w.start_file(*name, options).unwrap();
        w.write_all(data).unwrap();
    }
    w.finish().unwrap().into_inner()
}

#[test]
fn archive_gives_first_gb_entry() {
    let data = pack(
        &[("readme.txt", b"hello"), ("game.gb", &[1, 2, 3]), ("other.gbc", &[4, 5])],
        zip::CompressionMethod::Stored,
    );
    assert_eq!(rom_image_from_archive(&data), Ok(vec![1u8, 2, 3]));
}

#[test]
fn archive_accepts_gbc_entry() {
    let data = pack(&[("dir/game.gbc", &[9, 8, 7, 6])], zip::CompressionMethod::Stored);
    assert_eq!(rom_image_from_archive(&data), Ok(vec![9u8, 8, 7, 6]));
}

#[test]
fn archive_unpacks_deflated_entry() {
    let image: Vec<u8> = (0..4096u32).map(|i| (i % 7) as u8).collect();
    let data = pack(&[("game.gb", &image)], zip::CompressionMethod::Deflated);
    assert_eq!(rom_image_from_archive(&data), Ok(image));
}

#[test]
fn archive_without_rom_entry_is_refused() {
    let data = pack(
        &[("notes.txt", b"x"), ("game.gba", &[1]), ("gb", &[2])],
        zip::CompressionMethod::Stored,
    );
    assert_eq!(rom_image_from_archive(&data), Err(LoadError::NoGbFile));
}

#[test]
fn garbage_is_not_an_archive() {
    assert_eq!(rom_image_from_archive(&[1, 2, 3, 4, 5]), Err(LoadError::Archive));
    assert_eq!(rom_image_from_archive(&[]), Err(LoadError::Archive));
}

#[test]
fn entry_with_unflagged_aes_field_is_refused() {
    // An entry whose extra field says AES while its encryption flag is clear.
    let mut w = zip::ZipWriter::new(std::io::Cursor::new(Vec::new()));
    let options = zip::write::FileOptions::default().compression_method(zip::CompressionMethod::Stored);
    w.start_file_with_extra_data("game.gb", options).unwrap();
    w.write_all(&[0xFE, 0xCA, 7, 0, 1, 0, 0x41, 0x45, 1, 0, 0]).unwrap();
    w.end_extra_data().unwrap();
    w.write_all(&[1, 2, 3]).unwrap();
    let mut data = w.finish().unwrap().into_inner();
    let mut patched = 0;
    for i in 0..data.len() - 8 {
        if data[i..i + 8] == [0xFE, 0xCA, 7, 0, 1, 0, 0x41, 0x45] {
            data[i] = 0x01;
            data[i + 1] = 0x99;
            patched += 1;
        }
    }
    assert_eq!(patched, 2);
    assert_eq!(rom_image_from_archive(&data), Err(LoadError::Archive));
}

#[test]
fn entry_name_is_judged_without_trailing_slash() {
    let mut w = zip::ZipWriter::new(std::io::Cursor::new(Vec::new()));
    let options = zip::write::FileOptions::default().compression_method(zip::CompressionMethod::Stored);
    w.add_directory("saves.gb", options).unwrap();
    w.start_file("game.gb", options).unwrap();
    w.write_all(&[5, 6]).unwrap();
    let data = w.finish().unwrap().into_inner();
    // the directory entry "saves.gb/" has the extension "gb" and comes first
    assert_eq!(rom_image_from_archive(&data), Ok(vec![]));
}
