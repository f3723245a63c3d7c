use vstd::prelude::*;

use crate::text::{concat, find_last, last_index_of, lemma_last_index_of, str_eq};

verus! {

/// The kinds of file that the site is made of; each one is served with a fixed
/// content type.
#[derive(Clone, Copy, Debug, PartialEq, Eq, Structural)]
pub enum FileType {
    Html,
    Svg,
    Css,
    Jpg,
    Png,
}

/// Why a file type could not be told from a path.
#[derive(Debug)]
pub enum FileTypeError {
    /// The path's file name has no extension; holds the path.
    NoExtension(String),
    /// The extension names none of the known file types; holds the extension.
    UnknownExtension(String),
}

/// The last component of a `/`-separated path.
pub open spec fn file_name_of(p: Seq<char>) -> Seq<char> {
    p.subrange(last_index_of(p, '/') + 1, p.len() as int)
}

/// The extension of a path's file name: what follows its last `.`, where that
/// `.` is not the name's first character.
pub open spec fn extension_of(p: Seq<char>) -> Option<Seq<char>> {
    let n = file_name_of(p);
    let d = last_index_of(n, '.');
    if d > 0 {
        Some(n.subrange(d + 1, n.len() as int))
    } else {
        None
    }
}

/// The file type that an extension stands for.
pub open spec fn file_type_of_extension(e: Seq<char>) -> Option<FileType> {
    if e == "html"@ {
        Some(FileType::Html)
    } else if e == "svg"@ {
        Some(FileType::Svg)
    } else if e == "css"@ {
        Some(FileType::Css)
    } else if e == "jpg"@ {
        Some(FileType::Jpg)
    } else if e == "png"@ {
        Some(FileType::Png)
    } else {
        None
    }
}

/// The file type of a path, by its extension.
pub open spec fn file_type_of_path(p: Seq<char>) -> Option<FileType> {
    match extension_of(p) {
        Some(e) => file_type_of_extension(e),
        None => None,
    }
}

/// The content type under which a file type is served.
pub open spec fn content_type_of(t: FileType) -> Seq<char> {
    match t {
        FileType::Html => "text/html;charset=utf-8"@,
        FileType::Svg => "image/svg+xml"@,
        FileType::Css => "text/css;charset=utf-8"@,
        FileType::Jpg => "image/jpeg"@,
        FileType::Png => "image/png"@,
    }
}

/// The extension of a path's file name (see `extension_of`).
pub fn extension(path: &str) -> (r: Option<&str>)
    ensures
        match r {
            Some(e) => extension_of(path@) == Some(e@),
            None => extension_of(path@) is None,
        },
{
    let n = path.unicode_len();
    proof {
        lemma_last_index_of(path@, '/');
    }
    let start: usize = match find_last(path, '/') {
        Some(k) => k + 1,
        None => 0,
    };
    let name = path.substring_char(start, n);
    assert(name@ == file_name_of(path@));
    let m = name.unicode_len();
    proof {
        lemma_last_index_of(name@, '.');
    }
    match find_last(name, '.') {
        Some(d) => {
            if d > 0 {
                Some(name.substring_char(d + 1, m))
            } else {
                None
            }
        },
        None => None,
    }
}

impl FileType {
    /// Tells the file type from a path's extension; an unknown or missing
    /// extension is an error.
    pub fn detect(path: &str) -> (r: Result<FileType, FileTypeError>)
        ensures
            match r {
                Ok(t) => file_type_of_path(path@) == Some(t),
                Err(e) => e.describes(path@),
            },
            r is Ok <==> file_type_of_path(path@) is Some,
    {
        match extension(path) {
            None => Err(FileTypeError::NoExtension(String::from_str(path))),
            Some(ext) => {
                if str_eq(ext, "html") {
                    Ok(FileType::Html)
                } else if str_eq(ext, "svg") {
                    Ok(FileType::Svg)
                } else if str_eq(ext, "css") {
                    Ok(FileType::Css)
                } else if str_eq(ext, "jpg") {
                    Ok(FileType::Jpg)
                } else if str_eq(ext, "png") {
                    Ok(FileType::Png)
                } else {
                    Err(FileTypeError::UnknownExtension(String::from_str(ext)))
                }
            },
        }
    }

    /// The content type under which files of this type are served.
    pub fn content_type(&self) -> (r: &'static str)
        ensures
            r@ == content_type_of(*self),
    {
        match self {
            FileType::Html => "text/html;charset=utf-8",
            FileType::Svg => "image/svg+xml",
            FileType::Css => "text/css;charset=utf-8",
            FileType::Jpg => "image/jpeg",
            FileType::Png => "image/png",
        }
    }
}

impl FileTypeError {
    /// The error is the one that telling the type of path `p` runs into.
    pub open spec fn describes(&self, p: Seq<char>) -> bool {
        match self {
            FileTypeError::NoExtension(q) => extension_of(p) is None && q@ == p,
            FileTypeError::UnknownExtension(e) => extension_of(p) == Some(e@)
                && file_type_of_extension(e@) is None,
        }
    }

    /// A message that describes the error.
    pub fn message(&self) -> (r: String)
        ensures
            r@ == match self {
                FileTypeError::NoExtension(p) => "no file extension: "@ + p@,
                FileTypeError::UnknownExtension(e) => "unknown extension: "@ + e@,
            },
    {
        match self {
            FileTypeError::NoExtension(p) => concat("no file extension: ", p.as_str()),
            FileTypeError::UnknownExtension(e) => concat("unknown extension: ", e.as_str()),
        }
    }
}

} // verus!
