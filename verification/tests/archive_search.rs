use jar_launcher::archive::{archive_message, class_presence, contains_entry, ArchiveError, Defect, Lookup};
use jar_launcher::launcher::LauncherBinary;
use std::io::{Cursor, Write};
use std::path::PathBuf;
use zip::write::FileOptions;
use zip::{CompressionMethod, ZipWriter};

const LOCAL_HEADER: u32 = 0x0403_4b50;

/// The extra field of an entry that is encrypted by AES: strength 256,
/// stored without compression.
const AES_EXTRA: [u8; 11] = [0x01, 0x99, 0x07, 0x00, 0x02, 0x00, 0x41, 0x45, 0x03, 0x00, 0x00];

/// An archive with a directory `com/`, a directory `com/example/`, a stored
/// class and a deflated class.
fn sample_jar() -> Vec<u8> {
    let mut writer = ZipWriter::new(Cursor::new(Vec::new()));
    let stored = FileOptions::default().compression_method(CompressionMethod::Stored);
    let deflated = FileOptions::default().compression_method(CompressionMethod::Deflated);
    writer.add_directory("com/", stored).unwrap();
    writer.add_directory("com/example", stored).unwrap();
    writer.start_file("com/example/Main.class", stored).unwrap();
    writer.write_all(&[0xca, 0xfe, 0xba, 0xbe]).unwrap();
    writer.start_file("com/example/Util.class", deflated).unwrap();
    writer.write_all(&[0u8; 64]).unwrap();
    writer.finish().unwrap().into_inner()
}

/// An archive without entries.
fn empty_jar() -> Vec<u8> {
    let mut writer = ZipWriter::new(Cursor::new(Vec::new()));
    writer.finish().unwrap().into_inner()
}

/// An archive with one entry, written field by field.
fn single_entry(
    local_signature: u32,
    name: &str,
    flags: u16,
    method: u16,
    extra: &[u8],
    data: &[u8],
) -> Vec<u8> {
    let mut out: Vec<u8> = Vec::new();
    let mut fields: Vec<u8> = Vec::new();
    fields.extend_from_slice(&20u16.to_le_bytes());
    fields.extend_from_slice(&flags.to_le_bytes());
    fields.extend_from_slice(&method.to_le_bytes());
    fields.extend_from_slice(&0u16.to_le_bytes());
    fields.extend_from_slice(&0x21u16.to_le_bytes());
    fields.extend_from_slice(&0u32.to_le_bytes());
    fields.extend_from_slice(&(data.len() as u32).to_le_bytes());
    fields.extend_from_slice(&(data.len() as u32).to_le_bytes());
    fields.extend_from_slice(&(name.len() as u16).to_le_bytes());
    fields.extend_from_slice(&(extra.len() as u16).to_le_bytes());

    out.extend_from_slice(&local_signature.to_le_bytes());
    out.extend_from_slice(&fields);
    out.extend_from_slice(name.as_bytes());
    out.extend_from_slice(extra);
    out.extend_from_slice(data);

    let directory_start = out.len() as u32;
    out.extend_from_slice(&0x0201_4b50u32.to_le_bytes());
    out.extend_from_slice(&20u16.to_le_bytes());
    out.extend_from_slice(&fields);
    out.extend_from_slice(&0u16.to_le_bytes());
    out.extend_from_slice(&0u16.to_le_bytes());
    out.extend_from_slice(&0u16.to_le_bytes());
    out.extend_from_slice(&0u32.to_le_bytes());
    out.extend_from_slice(&0u32.to_le_bytes());
    out.extend_from_slice(name.as_bytes());
    out.extend_from_slice(extra);
    let directory_size = out.len() as u32 - directory_start;

    out.extend_from_slice(&0x0605_4b50u32.to_le_bytes());
    out.extend_from_slice(&0u16.to_le_bytes());
    out.extend_from_slice(&0u16.to_le_bytes());
    out.extend_from_slice(&1u16.to_le_bytes());
    out.extend_from_slice(&1u16.to_le_bytes());
    out.extend_from_slice(&directory_size.to_le_bytes());
    out.extend_from_slice(&directory_start.to_le_bytes());
    out.extend_from_slice(&0u16.to_le_bytes());
    out
}

fn missing_file() -> std::io::Error {
    std::io::Error::new(std::io::ErrorKind::NotFound, "no such file")
}

#[test]
fn file_entry_is_present() {
    let r = contains_entry(sample_jar(), "com/example/Main.class");
    assert!(matches!(r, Ok(true)));
}

#[test]
fn deflated_file_entry_is_present() {
    let r = contains_entry(sample_jar(), "com/example/Util.class");
    assert!(matches!(r, Ok(true)));
}

#[test]
fn directory_entry_is_not_a_class() {
    let r = contains_entry(sample_jar(), "com/");
    assert!(matches!(r, Ok(false)));
    let r = contains_entry(sample_jar(), "com/example/");
    assert!(matches!(r, Ok(false)));
}

#[test]
fn directory_name_without_slash_is_absent() {
    let r = contains_entry(sample_jar(), "com/example");
    assert!(matches!(r, Ok(false)));
}

#[test]
fn absent_entry_is_not_present() {
    let r = contains_entry(sample_jar(), "com/example/Other.class");
    assert!(matches!(r, Ok(false)));
}

#[test]
fn lookup_is_by_exact_name() {
    assert!(matches!(contains_entry(sample_jar(), "com.example.Main"), Ok(false)));
    assert!(matches!(contains_entry(sample_jar(), "com/example/Main"), Ok(false)));
    assert!(matches!(contains_entry(sample_jar(), "COM/EXAMPLE/MAIN.CLASS"), Ok(false)));
    assert!(matches!(contains_entry(sample_jar(), "/com/example/Main.class"), Ok(false)));
    assert!(matches!(contains_entry(sample_jar(), ""), Ok(false)));
}

#[test]
fn empty_archive_holds_nothing() {
    let r = contains_entry(empty_jar(), "com/example/Main.class");
    assert!(matches!(r, Ok(false)));
}

#[test]
fn bytes_that_are_no_zip_are_malformed() {
    let text = b"this is a text file and surely not a zip container".to_vec();
    assert!(matches!(contains_entry(text, "anything"), Err(ArchiveError::Malformed(_))));
    assert!(matches!(contains_entry(Vec::new(), "anything"), Err(ArchiveError::Malformed(_))));
    assert!(matches!(contains_entry(vec![0u8; 22], "anything"), Err(ArchiveError::Malformed(_))));
}

#[test]
fn truncated_archive_is_malformed() {
    let mut bytes = sample_jar();
    bytes.truncate(bytes.len() - 10);
    let r = contains_entry(bytes, "com/example/Main.class");
    assert!(matches!(r, Err(ArchiveError::Malformed(_))));
}

#[test]
fn message_of_malformed_archive_names_the_defect() {
    let r = contains_entry(vec![0u8; 4], "anything");
    match r {
        Err(e) => assert_eq!(e.message(), "invalid Zip archive: Invalid zip header"),
        Ok(_) => panic!("four bytes are no archive"),
    }
}

#[test]
fn handwritten_entry_is_present() {
    let bytes = single_entry(LOCAL_HEADER, "Main.class", 0, 0, &[], &[]);
    assert!(matches!(contains_entry(bytes, "Main.class"), Ok(true)));
    let bytes = single_entry(LOCAL_HEADER, "Main.class", 0, 0, &[], &[]);
    assert!(matches!(contains_entry(bytes, "Other.class"), Ok(false)));
}

#[test]
fn entry_name_ending_in_backslash_is_a_directory() {
    let bytes = single_entry(LOCAL_HEADER, "com\\", 0, 0, &[], &[]);
    assert!(matches!(contains_entry(bytes, "com\\"), Ok(false)));
}

#[test]
fn entry_with_broken_local_header_is_malformed() {
    let bytes = single_entry(0x0403_4b51, "Main.class", 0, 0, &[], &[]);
    match contains_entry(bytes, "Main.class") {
        Err(ArchiveError::Malformed(cause)) => {
            let e = ArchiveError::Malformed(cause);
            assert_eq!(e.message(), "invalid Zip archive: Invalid local file header");
        },
        _ => panic!("the local header is broken"),
    }
}

#[test]
fn absent_entry_beside_a_broken_one_is_not_present() {
    let bytes = single_entry(0x0403_4b51, "Main.class", 0, 0, &[], &[]);
    assert!(matches!(contains_entry(bytes, "Other.class"), Ok(false)));
}

#[test]
fn entry_with_unknown_compression_is_malformed() {
    let bytes = single_entry(LOCAL_HEADER, "Main.class", 0, 77, &[], &[]);
    match contains_entry(bytes, "Main.class") {
        Err(ArchiveError::Malformed(cause)) => {
            let e = ArchiveError::Malformed(cause);
            assert_eq!(e.message(), "unsupported Zip archive: Compression method not supported");
        },
        _ => panic!("the compression method is unknown"),
    }
}

#[test]
fn encrypted_entry_needs_a_password() {
    let bytes = single_entry(LOCAL_HEADER, "Main.class", 1, 0, &[], &[0u8; 12]);
    let r = contains_entry(bytes, "Main.class");
    assert!(matches!(r, Err(ArchiveError::PasswordRequired)));
}

#[test]
fn encrypted_entry_that_takes_the_empty_password_is_still_refused() {
    let data = [0u8, 0, 0, 0, 0, 0, 0, 0, 0, 0, 0, 252];
    let bytes = single_entry(LOCAL_HEADER, "Main.class", 1, 0, &[], &data);
    match contains_entry(bytes, "Main.class") {
        Err(ArchiveError::Malformed(cause)) => {
            let e = ArchiveError::Malformed(cause);
            assert_eq!(
                e.message(),
                "unsupported Zip archive: Password required to decrypt file"
            );
        },
        _ => panic!("the entry is encrypted"),
    }
}

#[test]
fn aes_entry_without_encryption_flag_needs_a_password() {
    let bytes = single_entry(LOCAL_HEADER, "Main.class", 0, 99, &AES_EXTRA, &[]);
    let r = contains_entry(bytes, "Main.class");
    assert!(matches!(r, Err(ArchiveError::PasswordRequired)));
    let bytes = single_entry(LOCAL_HEADER, "Main.class", 0, 0, &AES_EXTRA, &[]);
    let r = contains_entry(bytes, "Main.class");
    assert!(matches!(r, Err(ArchiveError::PasswordRequired)));
}

#[test]
fn aes_entry_with_encryption_flag_is_refused() {
    let bytes = single_entry(LOCAL_HEADER, "Main.class", 1, 99, &AES_EXTRA, &[]);
    let r = contains_entry(bytes, "Main.class");
    assert!(matches!(r, Err(ArchiveError::Malformed(_))));
}

#[test]
fn password_required_message() {
    assert_eq!(
        ArchiveError::PasswordRequired.message(),
        "unsupported Zip archive: Password required to decrypt file"
    );
}

#[test]
fn class_presence_of_each_outcome() {
    assert!(matches!(class_presence(Lookup::Found(true)), Ok(true)));
    assert!(matches!(class_presence(Lookup::Found(false)), Ok(false)));
    assert!(matches!(class_presence(Lookup::Absent), Ok(false)));
    let cause = zip::result::ZipError::InvalidArchive("broken");
    let r = class_presence(Lookup::Failed(cause));
    assert!(matches!(
        r,
        Err(ArchiveError::Malformed(zip::result::ZipError::InvalidArchive("broken")))
    ));
}

#[test]
fn test_jar_finds_a_class() {
    let binary = LauncherBinary::new(PathBuf::from("app.jar"));
    let r = binary.test_jar(Ok(sample_jar()), "com/example/Main.class");
    assert!(matches!(r, Ok(true)));
}

#[test]
fn test_jar_on_directory_and_absent_entry() {
    let binary = LauncherBinary::new(PathBuf::from("app.jar"));
    assert!(matches!(binary.test_jar(Ok(sample_jar()), "com/"), Ok(false)));
    assert!(matches!(binary.test_jar(Ok(sample_jar()), "com/example/Nothing.class"), Ok(false)));
}

#[test]
fn test_jar_on_file_that_is_no_archive() {
    let binary = LauncherBinary::new(PathBuf::from("notes.txt"));
    let r = binary.test_jar(Ok(b"plain text".to_vec()), "com/example/Main.class");
    assert!(matches!(r, Err(ArchiveError::Malformed(_))));
}

#[test]
fn test_jar_on_missing_file() {
    let binary = LauncherBinary::new(PathBuf::from("/nonexistent/app.jar"));
    let r = binary.test_jar(Err(missing_file()), "com/example/Main.class");
    match r {
        Err(ArchiveError::Unreadable(cause)) => {
            assert_eq!(cause.kind(), std::io::ErrorKind::NotFound);
            assert_eq!(ArchiveError::Unreadable(cause).message(), "no such file");
        },
        _ => panic!("the file could not be read"),
    }
}

#[test]
fn test_jar_after_the_file_is_gone() {
    let binary = LauncherBinary::new(PathBuf::from("app.jar"));
    assert!(matches!(binary.test_jar(Ok(sample_jar()), "com/example/Main.class"), Ok(true)));
    let r = binary.test_jar(Err(missing_file()), "com/example/Main.class");
    assert!(matches!(r, Err(ArchiveError::Unreadable(_))));
}

#[test]
fn archive_message_of_each_kind() {
    assert_eq!(archive_message(Defect::Unreadable, "no such file"), "no such file");
    assert_eq!(
        archive_message(Defect::Malformed, "invalid Zip archive: Invalid zip header"),
        "invalid Zip archive: Invalid zip header"
    );
    assert_eq!(
        archive_message(Defect::PasswordRequired, "anything"),
        "unsupported Zip archive: Password required to decrypt file"
    );
    assert_eq!(
        archive_message(Defect::PasswordRequired, ""),
        "unsupported Zip archive: Password required to decrypt file"
    );
}

#[test]
fn archive_message_is_folded_into_one_line() {
    assert_eq!(archive_message(Defect::Unreadable, "first\nsecond"), "first second");
    assert_eq!(archive_message(Defect::Malformed, "a\r\nb\n"), "a  b ");
    assert_eq!(archive_message(Defect::Unreadable, ""), "");
}

#[test]
fn message_of_unreadable_archive_is_one_line() {
    let cause = std::io::Error::new(std::io::ErrorKind::Other, "disk failed\ntry again");
    assert_eq!(ArchiveError::Unreadable(cause).message(), "disk failed try again");
}

#[test]
fn message_of_malformed_archive_is_one_line() {
    let inner = std::io::Error::new(std::io::ErrorKind::UnexpectedEof, "cut\r\nshort");
    let cause = zip::result::ZipError::Io(inner);
    assert_eq!(ArchiveError::Malformed(cause).message(), "cut  short");
}
