use sysrandom::credentials::{
    Candidate, IoError, Opened, Scan, VarError, CREDENTIALS_DIRECTORY, UNREADABLE_NAME,
};
use sysrandom::{discover, load_all, Error};

fn io_error(code: i32, message: &str) -> IoError {
    IoError { os_code: Some(code), message: message.to_string() }
}

fn candidate(path: &str, is_dir: bool) -> Result<Candidate, IoError> {
    Ok(Candidate { path: path.as_bytes().to_vec(), is_dir })
}

fn file(name: Option<&str>, content: &[u8]) -> Result<Opened, IoError> {
    Ok(Opened::File { name: name.map(str::to_string), content: content.to_vec() })
}

#[test]
fn discover_none() {
    let creds = discover(Scan::Listed(Vec::new())).unwrap();
    assert_eq!(0, creds.len());
}

#[test]
fn discover_reports_files_in_listing_order() {
    let listing = vec![
        candidate("/run/creds/b", false),
        candidate("/run/creds/dir", true),
        Err(io_error(5, "input/output error")),
        candidate("/run/creds/a", false),
        Ok(Candidate { path: vec![0xff, 0xfe], is_dir: false }),
    ];
    let found = discover(Scan::Listed(listing)).unwrap();
    assert_eq!(found, vec![b"/run/creds/b".to_vec(), b"/run/creds/a".to_vec(), vec![0xff, 0xfe]]);
}

#[test]
fn discover_without_a_directory_is_an_error() {
    assert_eq!(discover(Scan::Unset(VarError::NotPresent)), Err(Error::Env(VarError::NotPresent)));
    assert_eq!(
        discover(Scan::Unset(VarError::NotUnicode(vec![0x80]))),
        Err(Error::Env(VarError::NotUnicode(vec![0x80])))
    );
    assert_eq!(
        discover(Scan::Unlistable(io_error(2, "no such directory"))),
        Err(Error::IO(io_error(2, "no such directory")))
    );
}

#[test]
fn load_all_of_an_empty_directory_is_empty() {
    assert_eq!(load_all(Scan::Listed(Vec::new())), Ok(Vec::new()));
}

#[test]
fn load_all_reports_every_entry_on_its_own() {
    let listing = vec![
        file(Some("token"), b"secret"),
        Ok(Opened::Directory),
        Err(io_error(5, "input/output error")),
        Ok(Opened::Failed(io_error(13, "could not open"))),
        file(None, b"\x00\x01"),
        file(Some("empty"), b""),
        Err(io_error(13, "permission denied")),
    ];
    let loaded = load_all(Scan::Listed(listing)).unwrap();
    assert_eq!(
        loaded,
        vec![
            Ok(("token".to_string(), b"secret".to_vec())),
            Err(Error::IO(io_error(5, "input/output error"))),
            Err(Error::IO(io_error(13, "could not open"))),
            Ok(("could not read OsStr as &str".to_string(), vec![0, 1])),
            Ok(("empty".to_string(), Vec::new())),
            Err(Error::IO(io_error(13, "permission denied"))),
        ]
    );
}

#[test]
fn one_bad_file_gives_one_error_and_hides_no_other_file() {
    let listing = vec![
        file(Some("first"), b"one"),
        Ok(Opened::Failed(io_error(5, "read failed part-way"))),
        file(Some("last"), b"three"),
    ];
    let loaded = load_all(Scan::Listed(listing)).unwrap();
    assert_eq!(
        loaded,
        vec![
            Ok(("first".to_string(), b"one".to_vec())),
            Err(Error::IO(io_error(5, "read failed part-way"))),
            Ok(("last".to_string(), b"three".to_vec())),
        ]
    );
    let only_bad = vec![Ok(Opened::Failed(IoError { os_code: None, message: "gone".to_string() }))];
    assert_eq!(
        load_all(Scan::Listed(only_bad)),
        Ok(vec![Err(Error::IO(IoError { os_code: None, message: "gone".to_string() }))])
    );
}

#[test]
fn load_all_without_a_directory_is_an_error() {
    assert_eq!(load_all(Scan::Unset(VarError::NotPresent)), Err(Error::Env(VarError::NotPresent)));
    assert_eq!(
        load_all(Scan::Unlistable(io_error(20, "not a directory"))),
        Err(Error::IO(io_error(20, "not a directory")))
    );
}

#[test]
fn errors_convert_from_their_causes() {
    assert_eq!(Error::from(VarError::NotPresent), Error::Env(VarError::NotPresent));
    assert_eq!(Error::from(io_error(1, "x")), Error::IO(io_error(1, "x")));
}

#[test]
fn names_are_the_documented_ones() {
    assert_eq!(CREDENTIALS_DIRECTORY, "CREDENTIALS_DIRECTORY");
    assert_eq!(UNREADABLE_NAME, "could not read OsStr as &str");
}
