//! Credential files that a service manager hands over in a directory named
//! by an environment variable.
//!
//! Reading the environment and the directory is left to the embedding
//! program. What it found is described by a [`Scan`]; the functions here
//! decide what of it is reported, and how.

use vstd::prelude::*;
use vstd::std_specs::convert::FromSpecImpl;
use vstd::string::*;

verus! {

/// The name of the environment variable that holds the directory.
pub const CREDENTIALS_DIRECTORY: &'static str = "CREDENTIALS_DIRECTORY";

/// The name reported for a file whose name is not valid Unicode.
pub const UNREADABLE_NAME: &'static str = "could not read OsStr as &str";

/// Why the environment variable could not be read.
#[derive(Debug, PartialEq, Eq)]
pub enum VarError {
    /// The variable is not set.
    NotPresent,
    /// The variable is set to these bytes, which are not valid Unicode.
    NotUnicode(Vec<u8>),
}

/// A failure of the file system, as the operating system described it.
#[derive(Debug, PartialEq, Eq)]
pub struct IoError {
    /// The error number of the operating system, where there is one.
    pub os_code: Option<i32>,
    /// The description of the failure.
    pub message: String,
}

/// Why credentials could not be found or loaded.
#[derive(Debug, PartialEq, Eq)]
pub enum Error {
    /// The directory, or an entry of it, could not be read.
    IO(IoError),
    /// The environment does not name a directory.
    Env(VarError),
}

impl From<VarError> for Error {
    fn from(value: VarError) -> (error: Error) {
        Error::Env(value)
    }
}

impl FromSpecImpl<VarError> for Error {
    open spec fn obeys_from_spec() -> bool {
        true
    }

    open spec fn from_spec(value: VarError) -> Error {
        Error::Env(value)
    }
}

impl From<IoError> for Error {
    fn from(value: IoError) -> (error: Error) {
        Error::IO(value)
    }
}

impl FromSpecImpl<IoError> for Error {
    open spec fn obeys_from_spec() -> bool {
        true
    }

    open spec fn from_spec(value: IoError) -> Error {
        Error::IO(value)
    }
}

/// What reading the credentials directory came to, with `T` for what is
/// known of one entry.
#[derive(Debug, PartialEq, Eq)]
pub enum Scan<T> {
    /// The environment variable could not be read.
    Unset(VarError),
    /// The directory could not be opened for listing.
    Unlistable(IoError),
    /// The directory was listed: one item for each entry, or for each
    /// failure to read an entry, in the order of the listing.
    Listed(Vec<Result<T, IoError>>),
}

/// A directory entry, as far as discovery looks at it.
#[derive(Debug, PartialEq, Eq)]
pub struct Candidate {
    /// The path of the entry, as the bytes the operating system uses.
    pub path: Vec<u8>,
    /// Whether the entry is a directory.
    pub is_dir: bool,
}

/// A directory entry, as far as loading looks at it.
#[derive(Debug, PartialEq, Eq)]
pub enum Opened {
    /// The entry is a directory.
    Directory,
    /// The entry is not a directory, but could not be opened, or could not
    /// be read to its end.
    Failed(IoError),
    /// The entry was read to its end.
    File {
        /// The file's name, unless it is not valid Unicode.
        name: Option<String>,
        /// Everything the file holds.
        content: Vec<u8>,
    },
}

/// The paths of the entries that are credentials: those that could be read
/// and are not directories, in the order of the listing.
pub open spec fn files(listing: Seq<Result<Candidate, IoError>>) -> Seq<Vec<u8>>
    decreases listing.len(),
{
    if listing.len() == 0 {
        Seq::empty()
    } else {
        let before = files(listing.drop_last());
        match listing.last() {
            Ok(candidate) => if candidate.is_dir {
                before
            } else {
                before.push(candidate.path)
            },
            Err(_) => before,
        }
    }
}

/// Entries never hide one another: what is found in a listing is what is
/// found in its first part, followed by what is found in the rest.
pub proof fn lemma_files_of_parts(
    first: Seq<Result<Candidate, IoError>>,
    rest: Seq<Result<Candidate, IoError>>,
)
    ensures
        files(first + rest) == files(first) + files(rest),
    decreases rest.len(),
{
    if rest.len() > 0 {
        lemma_files_of_parts(first, rest.drop_last());
        assert((first + rest).drop_last() == first + rest.drop_last());
    }
}

/// A listing of one entry yields that entry's path, unless the entry is a
/// directory or could not be read.
pub proof fn lemma_files_of_one(item: Result<Candidate, IoError>)
    ensures
        files(seq![item]) == match item {
            Ok(candidate) => if candidate.is_dir {
                Seq::<Vec<u8>>::empty()
            } else {
                seq![candidate.path]
            },
            Err(_) => Seq::<Vec<u8>>::empty(),
        },
{
    reveal_with_fuel(files, 2);
}

/// The credentials of a scan: an error where the directory could not be
/// listed, and the paths of its files otherwise. An entry that could not be
/// read is passed over.
pub fn discover(scan: Scan<Candidate>) -> (found: Result<Vec<Vec<u8>>, Error>)
    ensures
        match scan {
            Scan::Unset(e) => found == Err::<Vec<Vec<u8>>, Error>(Error::Env(e)),
            Scan::Unlistable(e) => found == Err::<Vec<Vec<u8>>, Error>(Error::IO(e)),
            Scan::Listed(listing) => found matches Ok(paths) && paths@ == files(listing@),
        },
{
    match scan {
        Scan::Unset(e) => Err(Error::from(e)),
        Scan::Unlistable(e) => Err(Error::from(e)),
        Scan::Listed(listing) => {
            let ghost all = listing@;
            let mut paths: Vec<Vec<u8>> = Vec::new();
            for item in it: listing.into_iter()
                invariant
                    it.seq() == all,
                    paths@ == files(all.take(it.index() as int)),
            {
                proof {
                    let i = it.index() as int;
                    assert(all.take(i + 1).drop_last() == all.take(i));
                }
                match item {
                    Ok(candidate) => {
                        if !candidate.is_dir {
                            paths.push(candidate.path);
                        }
                    },
                    Err(_) => {},
                }
            }
            proof {
                assert(all.take(all.len() as int) == all);
            }
            Ok(paths)
        },
    }
}

/// The entries of a listing that loading reports: everything but the
/// directories, in the order of the listing. So every file is reported,
/// whether it was read or not, and so is every failure to read an entry of
/// the directory.
pub open spec fn reported(listing: Seq<Result<Opened, IoError>>) -> Seq<Result<Opened, IoError>>
    decreases listing.len(),
{
    if listing.len() == 0 {
        Seq::empty()
    } else {
        let before = reported(listing.drop_last());
        match listing.last() {
            Ok(Opened::Directory) => before,
            _ => before.push(listing.last()),
        }
    }
}

/// Entries never hide one another: what is reported of a listing is what is
/// reported of its first part, followed by what is reported of the rest.
pub proof fn lemma_reported_of_parts(
    first: Seq<Result<Opened, IoError>>,
    rest: Seq<Result<Opened, IoError>>,
)
    ensures
        reported(first + rest) == reported(first) + reported(rest),
    decreases rest.len(),
{
    if rest.len() > 0 {
        lemma_reported_of_parts(first, rest.drop_last());
        assert((first + rest).drop_last() == first + rest.drop_last());
    }
}

/// A listing of one entry is reported whole, unless the entry is a
/// directory.
pub proof fn lemma_reported_of_one(item: Result<Opened, IoError>)
    ensures
        reported(seq![item]) == match item {
            Ok(Opened::Directory) => Seq::<Result<Opened, IoError>>::empty(),
            _ => seq![item],
        },
{
    reveal_with_fuel(reported, 2);
}

/// Whether `loaded` is the report of the listed `item`: the failure itself
/// for an entry that could not be read and for a file that could not be
/// opened or read to its end; for a file that was read, its content under
/// its name, or under [`UNREADABLE_NAME`] where the name is not valid
/// Unicode.
pub open spec fn reports(
    loaded: Result<(String, Vec<u8>), Error>,
    item: Result<Opened, IoError>,
) -> bool {
    match item {
        Err(e) => loaded == Err::<(String, Vec<u8>), Error>(Error::IO(e)),
        Ok(Opened::Failed(e)) => loaded == Err::<(String, Vec<u8>), Error>(Error::IO(e)),
        Ok(Opened::File { name, content }) => {
            &&& loaded matches Ok((loaded_name, loaded_content))
            &&& loaded_content == content
            &&& loaded_name@ == match name {
                Some(name) => name@,
                None => UNREADABLE_NAME@,
            }
        },
        Ok(Opened::Directory) => false,
    }
}

/// A bad entry costs nothing but itself: in a listing without directories
/// there is one report for each entry, at the entry's own place.
pub proof fn lemma_every_file_is_reported(listing: Seq<Result<Opened, IoError>>)
    requires
        forall|i: int|
            0 <= i < listing.len() ==> #[trigger] listing[i] != Ok::<Opened, IoError>(
                Opened::Directory,
            ),
    ensures
        reported(listing) == listing,
    decreases listing.len(),
{
    if listing.len() > 0 {
        lemma_every_file_is_reported(listing.drop_last());
        assert(listing.drop_last().push(listing.last()) == listing);
    }
}

/// A report is an error exactly where the entry could not be read, and it
/// is then the entry's own failure; a file that was read is never reported
/// as an error.
pub proof fn lemma_report_is_the_entrys_own(
    loaded: Result<(String, Vec<u8>), Error>,
    item: Result<Opened, IoError>,
)
    requires
        reports(loaded, item),
    ensures
        loaded is Err <==> !(item matches Ok(Opened::File { .. })),
        item matches Err(e) ==> loaded == Err::<(String, Vec<u8>), Error>(Error::IO(e)),
        item matches Ok(Opened::Failed(e)) ==> loaded == Err::<(String, Vec<u8>), Error>(
            Error::IO(e),
        ),
{
}

/// The credentials of a scan with their contents: an error where the
/// directory could not be listed; otherwise one result for each entry that
/// is not a directory, so that one bad entry never hides the others: an
/// entry that could not be read gives an error at its own place, and every
/// file that was read is still reported.
pub fn load_all(scan: Scan<Opened>) -> (loaded: Result<
    Vec<Result<(String, Vec<u8>), Error>>,
    Error,
>)
    ensures
        match scan {
            Scan::Unset(e) => loaded == Err::<Vec<Result<(String, Vec<u8>), Error>>, Error>(
                Error::Env(e),
            ),
            Scan::Unlistable(e) => loaded == Err::<Vec<Result<(String, Vec<u8>), Error>>, Error>(
                Error::IO(e),
            ),
            Scan::Listed(listing) => {
                &&& loaded matches Ok(results)
                &&& results@.len() == reported(listing@).len()
                &&& forall|i: int|
                    0 <= i < results@.len() ==> reports(
                        #[trigger] results@[i],
                        reported(listing@)[i],
                    )
            },
        },
{
    match scan {
        Scan::Unset(e) => Err(Error::from(e)),
        Scan::Unlistable(e) => Err(Error::from(e)),
        Scan::Listed(listing) => {
            let ghost all = listing@;
            let mut results: Vec<Result<(String, Vec<u8>), Error>> = Vec::new();
            for item in it: listing.into_iter()
                invariant
                    it.seq() == all,
                    results@.len() == reported(all.take(it.index() as int)).len(),
                    forall|i: int|
                        0 <= i < results@.len() ==> reports(
                            #[trigger] results@[i],
                            reported(all.take(it.index() as int))[i],
                        ),
            {
                proof {
                    let i = it.index() as int;
                    assert(all.take(i + 1).drop_last() == all.take(i));
                }
                match item {
                    Err(e) => {
                        results.push(Err(Error::from(e)));
                    },
                    Ok(Opened::File { name, content }) => {
                        let name = match name {
                            Some(name) => name,
                            None => String::from_str(UNREADABLE_NAME),
                        };
                        results.push(Ok((name, content)));
                    },
                    Ok(Opened::Failed(e)) => {
                        results.push(Err(Error::from(e)));
                    },
                    Ok(Opened::Directory) => {},
                }
            }
            proof {
                assert(all.take(all.len() as int) == all);
            }
            Ok(results)
        },
    }
}

} // verus!
