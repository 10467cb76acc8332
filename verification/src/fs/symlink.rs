//! Creating a symbolic link.
use vstd::prelude::*;
use crate::error::{IoError, TheErr, TheResult};

verus! {

/// What a symbolic link points to: a file, a directory, or (on Windows) a
/// directory junction. Its textual names are `file`, `dir` and `junction`.
#[derive(Debug, Copy, Clone, PartialEq, Eq, Structural, PartialOrd, Ord, Hash)]
pub enum FsSymlinkOptions {
    File,
    Dir,
    Junction,
}

/// The error of parsing a text that names no [`FsSymlinkOptions`].
#[derive(Debug, Copy, Clone, PartialEq, Eq, Structural)]
pub enum ParseError {
    VariantNotFound,
}

/// The textual name of each kind of link.
pub open spec fn symlink_option_name(o: FsSymlinkOptions) -> Seq<char> {
    match o {
        FsSymlinkOptions::File => "file"@,
        FsSymlinkOptions::Dir => "dir"@,
        FsSymlinkOptions::Junction => "junction"@,
    }
}

/// The kind of link that a text names, if any: the text must be one of the
/// names exactly, in lower case.
pub open spec fn parse_symlink_option(s: Seq<char>) -> Option<FsSymlinkOptions> {
    if s == "file"@ {
        Some(FsSymlinkOptions::File)
    } else if s == "dir"@ {
        Some(FsSymlinkOptions::Dir)
    } else if s == "junction"@ {
        Some(FsSymlinkOptions::Junction)
    } else {
        None
    }
}

impl FsSymlinkOptions {
    /// Parses the textual name of a kind of link.
    pub fn from_str(s: &str) -> (r: Result<FsSymlinkOptions, ParseError>)
        ensures
            r == match parse_symlink_option(s@) {
                Some(o) => Ok::<FsSymlinkOptions, ParseError>(o),
                None => Err(ParseError::VariantNotFound),
            },
    {
        let text = s.to_owned();
        if text == "file".to_owned() {
            Ok(FsSymlinkOptions::File)
        } else if text == "dir".to_owned() {
            Ok(FsSymlinkOptions::Dir)
        } else if text == "junction".to_owned() {
            Ok(FsSymlinkOptions::Junction)
        } else {
            Err(ParseError::VariantNotFound)
        }
    }

    /// The textual name of this kind of link.
    pub fn to_string(&self) -> (s: String)
        ensures
            s@ == symlink_option_name(*self),
    {
        match self {
            FsSymlinkOptions::File => "file".to_owned(),
            FsSymlinkOptions::Dir => "dir".to_owned(),
            FsSymlinkOptions::Junction => "junction".to_owned(),
        }
    }
}

/// Parsing the name of a kind of link gives that kind back.
pub proof fn law_symlink_option_parse_name(o: FsSymlinkOptions)
    ensures
        parse_symlink_option(symlink_option_name(o)) == Some(o),
{
    reveal_strlit("file");
    reveal_strlit("dir");
    reveal_strlit("junction");
    assert("dir"@ != "file"@) by {
        assert("dir"@.len() != "file"@.len());
    }
    assert("junction"@ != "file"@ && "junction"@ != "dir"@) by {
        assert("junction"@.len() != "file"@.len());
        assert("junction"@.len() != "dir"@.len());
    }
}

/// A text that parses as a kind of link is exactly that kind's name.
pub proof fn law_symlink_option_name_parse(s: Seq<char>, o: FsSymlinkOptions)
    requires
        parse_symlink_option(s) == Some(o),
    ensures
        symlink_option_name(o) == s,
{
    reveal_strlit("file");
    reveal_strlit("dir");
    reveal_strlit("junction");
}

/// The result of creating a symbolic link `newpath` to `oldpath` when the
/// system answered `outcome`: success is passed on, a failure is reported
/// with both paths. The kind of link plays no part.
pub open spec fn symlink_result(
    r: TheResult<()>,
    oldpath: Seq<char>,
    newpath: Seq<char>,
    outcome: Result<(), IoError>,
) -> bool {
    match outcome {
        Ok(()) => r is Ok,
        Err(e) => r matches Err(TheErr::CreateSymlinkFailed(o, n, e2)) && o@ == oldpath && n@
            == newpath && e2 == e,
    }
}

/// Finishes creating a symbolic link `newpath` to `oldpath`, given what the
/// system answered (the kind of link only decides which system call is made,
/// and only on Windows): success is passed on, a failure is reported with
/// both paths.
pub fn fs_symlink_s(
    oldpath: &str,
    newpath: &str,
    options: FsSymlinkOptions,
    outcome: Result<(), IoError>,
) -> (r: TheResult<()>)
    ensures
        symlink_result(r, oldpath@, newpath@, outcome),
        outcome is Ok ==> r is Ok,
        outcome matches Err(e) ==> r matches Err(TheErr::CreateSymlinkFailed(o, n, e2)) && o@
            == oldpath@ && n@ == newpath@ && e2 == e,
{
    match outcome {
        Ok(()) => Ok(()),
        Err(e) => Err(TheErr::CreateSymlinkFailed(oldpath.to_owned(), newpath.to_owned(), e)),
    }
}

/// A failed system call is always reported as a failure to create the link,
/// with both paths and the system's error whatever it holds; a successful
/// one is always a success.
pub proof fn law_symlink_failure_reported(
    r: TheResult<()>,
    oldpath: Seq<char>,
    newpath: Seq<char>,
    outcome: Result<(), IoError>,
)
    requires
        symlink_result(r, oldpath, newpath, outcome),
    ensures
        outcome is Ok ==> r is Ok,
        outcome matches Err(e) ==> r matches Err(TheErr::CreateSymlinkFailed(o, n, e2)) && o@
            == oldpath && n@ == newpath && e2 == e,
{
}

/// Two results of creating symbolic links agree: both succeed, or both fail
/// with the same paths (by their text) and the same system error.
pub open spec fn same_symlink_result(r1: TheResult<()>, r2: TheResult<()>) -> bool {
    match (r1, r2) {
        (Ok(()), Ok(())) => true,
        (
            Err(TheErr::CreateSymlinkFailed(o1, n1, e1)),
            Err(TheErr::CreateSymlinkFailed(o2, n2, e2)),
        ) => o1@ == o2@ && n1@ == n2@ && e1 == e2,
        _ => false,
    }
}

/// The kind of link never changes the result: two calls with the same
/// paths and the same system answer, whatever kinds they were given, give
/// the same result.
pub proof fn law_symlink_kind_irrelevant(
    r1: TheResult<()>,
    r2: TheResult<()>,
    oldpath: Seq<char>,
    newpath: Seq<char>,
    outcome: Result<(), IoError>,
)
    requires
        symlink_result(r1, oldpath, newpath, outcome),
        symlink_result(r2, oldpath, newpath, outcome),
    ensures
        same_symlink_result(r1, r2),
{
}

} // verus!
