//! Assets: where a named resource lies under the assets' root, and what is
//! made of a file once it has been read.
//!
//! Reading is left to the caller. A path is held as its components, the
//! first of them where the path starts; joining them left to right gives the
//! path on the machine at hand.
use crate::ffi_utils::{nul_free, CText};
use vstd::prelude::*;

verus! {

/// `std::io::Error`, carried as it came.
#[verifier::external_type_specification]
#[verifier::external_body]
pub struct ExIoError(std::io::Error);

#[derive(Debug)]
pub enum Error {
    /// The file could not be read.
    Io(std::io::Error),
    /// The directory of the running program is not known.
    FailedToGetExePath,
    /// The file holds a zero byte, so it is no text for the driver.
    FileContainsNullByte,
    /// The file is no image that can be decoded.
    ImageDecodeFailed,
}

impl From<std::io::Error> for Error {
    fn from(other: std::io::Error) -> (r: Self) {
        Error::Io(other)
    }
}

impl vstd::std_specs::convert::FromSpecImpl<std::io::Error> for Error {
    open spec fn obeys_from_spec() -> bool {
        true
    }

    open spec fn from_spec(other: std::io::Error) -> Self {
        Error::Io(other)
    }
}

/// The `Debug` text of a `std::io::Error`, which depends on the machine.
#[verifier::external_body]
fn io_error_text(error: &std::io::Error) -> (text: String) {
    format!("{:?}", error)
}

impl Error {
    /// Whether `text` names this error as `Debug` would: the variant's name,
    /// and for `Io` the underlying error's own text in brackets behind it.
    pub open spec fn named_by(&self, text: Seq<char>) -> bool {
        match *self {
            Error::Io(_) => exists|detail: Seq<char>| text == "Io("@ + detail + ")"@,
            Error::FailedToGetExePath => text == "FailedToGetExePath"@,
            Error::FileContainsNullByte => text == "FileContainsNullByte"@,
            Error::ImageDecodeFailed => text == "ImageDecodeFailed"@,
        }
    }

    /// The error's name, for a message.
    pub fn debug_text(&self) -> (text: String)
        ensures
            self.named_by(text@),
    {
        match self {
            Error::Io(error) => {
                let detail = io_error_text(error);
                String::from_str("Io(").concat(detail.as_str()).concat(")")
            },
            Error::FailedToGetExePath => String::from_str("FailedToGetExePath"),
            Error::FileContainsNullByte => String::from_str("FileContainsNullByte"),
            Error::ImageDecodeFailed => String::from_str("ImageDecodeFailed"),
        }
    }
}

/// The message for a resource that could not be loaded.
pub open spec fn load_failure(name: Seq<char>, error: Seq<char>) -> Seq<char> {
    "Error loading resource "@ + name + ": "@ + error
}

/// Builds `load_failure`.
pub fn load_failure_message(name: &str, error: &Error) -> (message: String)
    ensures
        exists|text: Seq<char>| error.named_by(text) && message@ == load_failure(name@, text),
{
    let text = error.debug_text();
    String::from_str("Error loading resource ").concat(name).concat(": ").concat(text.as_str())
}

/// A decoded image: its size in pixels and its pixels, row by row, three
/// bytes to a pixel.
#[derive(Debug, PartialEq, Eq)]
pub struct Image {
    pub width: u64,
    pub height: u64,
    pub data: Vec<u8>,
}

/// The character that parts a resource's name into directories and file.
pub const SEPARATOR: char = '/';

/// The parts of a resource's name between its separators, in order. A name
/// without a separator is one part; every separator ends a part and begins
/// the next, which may be empty.
pub open spec fn split(name: Seq<char>) -> Seq<Seq<char>>
    decreases name.len(),
{
    if name.len() == 0 {
        seq![Seq::empty()]
    } else {
        let before = split(name.drop_last());
        if name.last() == SEPARATOR {
            before.push(Seq::empty())
        } else {
            before.drop_last().push(before.last().push(name.last()))
        }
    }
}

/// The path of the resource `location` under `root_dir`: the components of
/// the root, then the parts of the name.
pub fn resource_name_to_path(root_dir: &Vec<String>, location: &str) -> (path: Vec<String>)
    ensures
        path.deep_view() == root_dir.deep_view() + split(location@),
{
    let mut path: Vec<String> = Vec::new();
    let mut copied: usize = 0;
    while copied < root_dir.len()
        invariant
            copied <= root_dir.len(),
            path.deep_view() =~= root_dir.deep_view().take(copied as int),
        decreases root_dir.len() - copied,
    {
        let ghost before = path.deep_view();
        let component = root_dir[copied].clone();
        path.push(component);
        proof {
            assert(path.deep_view() =~= before.push(component@));
            assert(root_dir.deep_view().take(copied + 1) =~= root_dir.deep_view().take(
                copied as int,
            ).push(root_dir@[copied as int]@));
        }
        copied += 1;
    }
    let length = location.unicode_len();
    let mut start: usize = 0;
    let mut seen: usize = 0;
    assert(location@.take(0) =~= Seq::<char>::empty());
    while seen < length
        invariant
            length == location@.len(),
            start <= seen <= length,
            split(location@.take(seen as int)) == path.deep_view().skip(
                root_dir@.len() as int,
            ).push(location@.subrange(start as int, seen as int)),
            path.deep_view().take(root_dir@.len() as int) =~= root_dir.deep_view(),
            path@.len() >= root_dir@.len(),
        decreases length - seen,
    {
        let ghost parts = path.deep_view().skip(root_dir@.len() as int);
        let ghost current = location@.subrange(start as int, seen as int);
        proof {
            assert(location@.take(seen + 1).drop_last() =~= location@.take(seen as int));
            assert(location@.take(seen + 1).last() == location@[seen as int]);
            assert(parts.push(current).drop_last() =~= parts);
        }
        if location.get_char(seen) == SEPARATOR {
            let part = location.substring_char(start, seen);
            path.push(String::from_str(part));
            start = seen + 1;
            proof {
                assert(path.deep_view().skip(root_dir@.len() as int) =~= parts.push(current));
                assert(location@.subrange(start as int, seen + 1) =~= Seq::<char>::empty());
            }
        } else {
            proof {
                assert(location@.subrange(start as int, seen + 1) =~= current.push(
                    location@[seen as int],
                ));
            }
        }
        seen += 1;
    }
    let ghost parts = path.deep_view().skip(root_dir@.len() as int);
    let part = location.substring_char(start, length);
    path.push(String::from_str(part));
    proof {
        assert(location@.take(seen as int) =~= location@);
        assert(path.deep_view().skip(root_dir@.len() as int) =~= parts.push(part@));
        assert(path.deep_view() =~= path.deep_view().take(root_dir@.len() as int)
            + path.deep_view().skip(root_dir@.len() as int));
    }
    path
}

/// The assets of a program, kept under one root directory.
pub struct Resources {
    root_path: Vec<String>,
}

impl Resources {
    /// The components of the root directory's path.
    pub closed spec fn root(&self) -> Seq<Seq<char>> {
        self.root_path.deep_view()
    }

    /// The assets under `rel_path`, taken from the directory `exe_dir` of the
    /// running program. Fails where that directory is not known.
    pub fn from_relative_exe_path(exe_dir: Option<String>, rel_path: &str) -> (r: Result<
        Resources,
        Error,
    >)
        ensures
            exe_dir is None ==> r matches Err(Error::FailedToGetExePath),
            exe_dir matches Some(dir) ==> r matches Ok(resources) && resources.root() == seq![
                dir@,
                rel_path@,
            ],
    {
        match exe_dir {
            None => Err(Error::FailedToGetExePath),
            Some(dir) => {
                let mut root_path: Vec<String> = Vec::new();
                root_path.push(dir);
                root_path.push(String::from_str(rel_path));
                assert(root_path.deep_view() =~= seq![dir@, rel_path@]);
                Ok(Resources { root_path })
            },
        }
    }

    /// The path of the resource `resource_name`.
    pub fn resource_path(&self, resource_name: &str) -> (path: Vec<String>)
        ensures
            path.deep_view() == self.root() + split(resource_name@),
    {
        resource_name_to_path(&self.root_path, resource_name)
    }

    /// The text of a file, given what reading the file gave: the bytes as
    /// they are, unless one of them is zero.
    pub fn load_cstring(&self, read: Result<Vec<u8>, std::io::Error>) -> (r: Result<CText, Error>)
        ensures
            read matches Err(error) ==> r matches Err(Error::Io(e)) && e == error,
            read matches Ok(bytes) ==> if nul_free(bytes@) {
                r matches Ok(text) && text@ == bytes@
            } else {
                r matches Err(Error::FileContainsNullByte)
            },
    {
        let buffer = match read {
            Ok(buffer) => buffer,
            Err(error) => {
                return Err(Error::from(error));
            },
        };
        match CText::new(buffer) {
            Some(text) => Ok(text),
            None => Err(Error::FileContainsNullByte),
        }
    }

    /// The image in a file, given what opening the file gave and, where it
    /// was opened, what decoding it gave.
    pub fn load_image(&self, decoded: Result<Option<Image>, std::io::Error>) -> (r: Result<
        Image,
        Error,
    >)
        ensures
            decoded matches Err(error) ==> r matches Err(Error::Io(e)) && e == error,
            decoded matches Ok(None) ==> r matches Err(Error::ImageDecodeFailed),
            decoded matches Ok(Some(image)) ==> r matches Ok(loaded) && loaded == image,
    {
        match decoded {
            Err(error) => Err(Error::from(error)),
            Ok(None) => Err(Error::ImageDecodeFailed),
            Ok(Some(image)) => Ok(image),
        }
    }
}

} // verus!
