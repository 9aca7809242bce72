//! Searching a zip container for an entry.
//!
//! Parsing is done by the `zip` crate. What it makes of a byte sequence is
//! named here by uninterpreted functions, and the decisions that follow from
//! its answers are verified against those names.

use crate::failure::io_error_text;
use crate::text::{lemma_one_line_has_no_break, one_line, to_one_line};
use vstd::prelude::*;

verus! {

/// `zip::result::ZipError`, held as an opaque value.
#[verifier::external_type_specification]
#[verifier::external_body]
pub struct ExZipError(zip::result::ZipError);

/// `std::io::Cursor`, held as an opaque value.
#[verifier::external_type_specification]
#[verifier::external_body]
#[verifier::reject_recursive_types(T)]
pub struct ExCursor<T>(std::io::Cursor<T>);

/// `zip::ZipArchive`, held as an opaque value.
#[verifier::external_type_specification]
#[verifier::external_body]
#[verifier::reject_recursive_types(R)]
pub struct ExZipArchive<R>(zip::ZipArchive<R>);

/// How a search for an entry by name can end.
pub enum Finding {
    /// An entry of that name exists and was opened.
    Opened,
    /// No entry has that name.
    Absent,
    /// An entry of that name exists but could not be opened.
    Failed,
}

/// Whether `zip::ZipArchive::new` accepts a reader over these bytes, that is
/// whether they form a zip container whose central directory can be read.
pub uninterp spec fn zip_container(bytes: Seq<u8>) -> bool;

/// The bytes that an open archive reads from.
pub uninterp spec fn archive_bytes(archive: zip::ZipArchive<std::io::Cursor<Vec<u8>>>) -> Seq<u8>;

/// Whether `zip::ZipArchive::by_name_decrypt`, on an archive over these
/// bytes, reports the password as wrong for the entry of that name.
pub uninterp spec fn password_rejected(bytes: Seq<u8>, name: Seq<char>, password: Seq<u8>) -> bool;

/// How `zip::ZipArchive::by_name` ends on an archive over these bytes, where
/// it returns.
pub uninterp spec fn zip_finding(bytes: Seq<u8>, name: Seq<char>) -> Finding;

/// Whether an entry name denotes a directory: it ends in a slash or a
/// backslash.
pub open spec fn is_directory_name(name: Seq<char>) -> bool {
    name.len() > 0 && (name.last() == '/' || name.last() == '\\')
}

/// What a search for an entry by name produced.
#[derive(Debug)]
pub enum Lookup {
    /// The entry was opened; the flag says whether it is a regular file.
    Found(bool),
    /// No entry has that name.
    Absent,
    /// The entry exists but could not be opened.
    Failed(zip::result::ZipError),
}

impl Lookup {
    /// The way the search ended, without what it carried.
    pub open spec fn finding(&self) -> Finding {
        match self {
            Lookup::Found(_) => Finding::Opened,
            Lookup::Absent => Finding::Absent,
            Lookup::Failed(_) => Finding::Failed,
        }
    }
}

/// Why an archive could not be searched.
#[derive(Debug)]
pub enum ArchiveError {
    /// The archive could not be read from the file system.
    Unreadable(std::io::Error),
    /// The bytes are not a zip container, or the entry could not be opened.
    Malformed(zip::result::ZipError),
    /// The entry is encrypted, and no password is at hand.
    PasswordRequired,
}

/// The kinds of [`ArchiveError`].
pub enum Defect {
    Unreadable,
    Malformed,
    PasswordRequired,
}

impl ArchiveError {
    /// The kind of this error, without its cause.
    pub open spec fn defect(&self) -> Defect {
        match self {
            ArchiveError::Unreadable(_) => Defect::Unreadable,
            ArchiveError::Malformed(_) => Defect::Malformed,
            ArchiveError::PasswordRequired => Defect::PasswordRequired,
        }
    }
}

/// Opens an archive over the bytes, by `zip::ZipArchive::new` on a
/// `std::io::Cursor`. It succeeds exactly on the byte sequences that
/// [`zip_container`] names, and the archive then reads those bytes.
#[verifier::external_body]
fn open_archive(bytes: Vec<u8>) -> (r: Result<
    zip::ZipArchive<std::io::Cursor<Vec<u8>>>,
    zip::result::ZipError,
>)
    ensures
        r is Ok <==> zip_container(bytes@),
        r matches Ok(archive) ==> archive_bytes(archive) == bytes@,
{
    zip::ZipArchive::new(std::io::Cursor::new(bytes))
}

/// Tries a password on the entry of that name, by
/// `zip::ZipArchive::by_name_decrypt`, and tells whether it was reported as
/// wrong. A password is only ever tried on an entry that exists, so a wrong
/// one means that `by_name` finds the entry too. The archive reads the same
/// bytes afterwards.
#[verifier::external_body]
fn rejects_password(
    archive: &mut zip::ZipArchive<std::io::Cursor<Vec<u8>>>,
    name: &str,
    password: &[u8],
) -> (r: bool)
    ensures
        r == password_rejected(archive_bytes(*old(archive)), name@, password@),
        r ==> zip_finding(archive_bytes(*old(archive)), name@) != Finding::Absent,
        archive_bytes(*final(archive)) == archive_bytes(*old(archive)),
{
    matches!(archive.by_name_decrypt(name, password), Ok(Err(_)))
}

/// Searches the archive for an entry by `zip::ZipArchive::by_name`, and asks
/// an entry that was opened whether it is a regular file, by
/// `zip::read::ZipFile::is_file`.
///
/// `by_name` unwraps the outcome of its password check, so it panics on an
/// entry that carries AES data without the encryption flag. On such an entry
/// `by_name_decrypt` reports every password as wrong, so the precondition
/// leaves it out. (It also leaves out the encrypted entries that refuse the
/// empty password, on which `by_name` would return an error.) An opened
/// entry bears the name that was asked for, and `is_file` goes by that name
/// alone.
#[verifier::external_body]
fn lookup(archive: &mut zip::ZipArchive<std::io::Cursor<Vec<u8>>>, name: &str) -> (r: Lookup)
    requires
        !password_rejected(archive_bytes(*old(archive)), name@, Seq::<u8>::empty()),
    ensures
        r.finding() == zip_finding(archive_bytes(*old(archive)), name@),
        r matches Lookup::Found(regular) ==> regular == !is_directory_name(name@),
        archive_bytes(*final(archive)) == archive_bytes(*old(archive)),
{
    match archive.by_name(name) {
        Ok(entry) => Lookup::Found(entry.is_file()),
        Err(zip::result::ZipError::FileNotFound) => Lookup::Absent,
        Err(cause) => Lookup::Failed(cause),
    }
}

/// Renders a parsing failure as text, by `zip::result::ZipError`'s `Display`
/// implementation. Nothing is claimed of the text.
#[verifier::external_body]
fn zip_error_text(cause: &zip::result::ZipError) -> (text: String) {
    format!("{}", cause)
}

/// The answer that a search owes: whether a regular file of that name is in
/// the container, or why that cannot be told.
///
/// Bytes that are no container are an error. In a container, a name that no
/// entry bears is not present. An entry that asks for a password is an
/// error, and so is one that cannot be opened. An entry that was opened is
/// present unless its name is that of a directory.
pub open spec fn presence(bytes: Seq<u8>, name: Seq<char>) -> Result<bool, Defect> {
    if !zip_container(bytes) {
        Err(Defect::Malformed)
    } else if zip_finding(bytes, name) == Finding::Absent {
        Ok(false)
    } else if password_rejected(bytes, name, Seq::<u8>::empty()) {
        Err(Defect::PasswordRequired)
    } else if zip_finding(bytes, name) == Finding::Opened {
        Ok(!is_directory_name(name))
    } else {
        Err(Defect::Malformed)
    }
}

/// An answer as [`presence`] states it: the value, or the kind of the error.
pub open spec fn answer(r: Result<bool, ArchiveError>) -> Result<bool, Defect> {
    match r {
        Ok(present) => Ok(present),
        Err(e) => Err(e.defect()),
    }
}

/// Decides from the outcome of a search whether the class is present: an
/// entry that was opened counts if it is a regular file, an absent entry
/// does not count, and a failed search is an error that carries its cause.
pub fn class_presence(lookup: Lookup) -> (r: Result<bool, ArchiveError>)
    ensures
        r == match lookup {
            Lookup::Found(regular) => Ok::<bool, ArchiveError>(regular),
            Lookup::Absent => Ok::<bool, ArchiveError>(false),
            Lookup::Failed(cause) => Err::<bool, ArchiveError>(ArchiveError::Malformed(cause)),
        },
{
    match lookup {
        Lookup::Found(regular) => Ok(regular),
        Lookup::Absent => Ok(false),
        Lookup::Failed(cause) => Err(ArchiveError::Malformed(cause)),
    }
}

/// Tells whether the zip container in `bytes` holds a regular file whose
/// entry name is exactly `name`.
pub fn contains_entry(bytes: Vec<u8>, name: &str) -> (r: Result<bool, ArchiveError>)
    ensures
        answer(r) == presence(bytes@, name@),
{
    match open_archive(bytes) {
        Err(cause) => Err(ArchiveError::Malformed(cause)),
        Ok(mut archive) => {
            // The search itself must not meet an entry that asks for a
            // password, so the empty password is tried first.
            let no_password: Vec<u8> = Vec::new();
            if rejects_password(&mut archive, name, no_password.as_slice()) {
                Err(ArchiveError::PasswordRequired)
            } else {
                let found = lookup(&mut archive, name);
                class_presence(found)
            }
        },
    }
}

/// The message for an entry that asks for a password.
pub open spec fn password_required_text() -> Seq<char> {
    "unsupported Zip archive: Password required to decrypt file"@
}

/// The message for an error of the kind `defect` whose cause describes
/// itself as `detail`: a fixed text where a password is asked for, else the
/// cause's own text, folded into one line.
pub open spec fn archive_message_text(defect: Defect, detail: Seq<char>) -> Seq<char> {
    match defect {
        Defect::PasswordRequired => password_required_text(),
        _ => one_line(detail),
    }
}

/// The message for an error of the kind `defect`, from the text of its
/// cause.
pub fn archive_message(defect: Defect, detail: &str) -> (text: String)
    ensures
        text@ == archive_message_text(defect, detail@),
{
    match defect {
        Defect::PasswordRequired => {
            "unsupported Zip archive: Password required to decrypt file".to_owned()
        },
        _ => to_one_line(detail),
    }
}

/// A message for an archive error is a single line, whatever the cause's
/// own text holds.
pub proof fn lemma_archive_message_is_one_line(defect: Defect, detail: Seq<char>)
    ensures
        !archive_message_text(defect, detail).contains('\n'),
        !archive_message_text(defect, detail).contains('\r'),
{
    reveal_strlit("unsupported Zip archive: Password required to decrypt file");
    lemma_one_line_has_no_break(detail);
}

impl ArchiveError {
    /// A message for this error, on a single line: what [`archive_message`]
    /// makes of the error's kind and of the text of its cause.
    pub fn message(&self) -> (text: String)
        ensures
            !text@.contains('\n'),
            !text@.contains('\r'),
            self is PasswordRequired ==> text@ == password_required_text(),
            exists|detail: Seq<char>|
                text@ == #[trigger] archive_message_text(self.defect(), detail),
    {
        let text = match self {
            ArchiveError::Unreadable(cause) => {
                let detail = io_error_text(cause);
                proof {
                    lemma_archive_message_is_one_line(Defect::Unreadable, detail@);
                }
                archive_message(Defect::Unreadable, detail.as_str())
            },
            ArchiveError::Malformed(cause) => {
                let detail = zip_error_text(cause);
                proof {
                    lemma_archive_message_is_one_line(Defect::Malformed, detail@);
                }
                archive_message(Defect::Malformed, detail.as_str())
            },
            ArchiveError::PasswordRequired => {
                proof {
                    lemma_archive_message_is_one_line(Defect::PasswordRequired, ""@);
                }
                archive_message(Defect::PasswordRequired, "")
            },
        };
        text
    }
}

/// A container that holds a regular file under exactly this name answers
/// `true`, provided that the entry can be opened without a password.
pub proof fn lemma_file_entry_is_present(bytes: Seq<u8>, name: Seq<char>)
    requires
        zip_container(bytes),
        zip_finding(bytes, name) == Finding::Opened,
        !password_rejected(bytes, name, Seq::<u8>::empty()),
        !is_directory_name(name),
    ensures
        presence(bytes, name) == Ok::<bool, Defect>(true),
{
}

/// A container that holds this name only as a directory answers `false`,
/// provided that the entry can be opened without a password.
pub proof fn lemma_directory_entry_is_not_present(bytes: Seq<u8>, name: Seq<char>)
    requires
        zip_container(bytes),
        zip_finding(bytes, name) == Finding::Opened,
        !password_rejected(bytes, name, Seq::<u8>::empty()),
        is_directory_name(name),
    ensures
        presence(bytes, name) == Ok::<bool, Defect>(false),
{
}

/// A container that holds no entry of this name answers `false`.
pub proof fn lemma_absent_entry_is_not_present(bytes: Seq<u8>, name: Seq<char>)
    requires
        zip_container(bytes),
        zip_finding(bytes, name) == Finding::Absent,
    ensures
        presence(bytes, name) == Ok::<bool, Defect>(false),
{
}

/// Bytes that are no zip container give an error, whatever name is asked
/// for, and never an answer.
pub proof fn lemma_no_container_no_answer(bytes: Seq<u8>, name: Seq<char>)
    requires
        !zip_container(bytes),
    ensures
        presence(bytes, name) == Err::<bool, Defect>(Defect::Malformed),
{
}

} // verus!
