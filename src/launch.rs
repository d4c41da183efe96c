//! Which folder to scan, from the path given on the command line.

use vstd::prelude::*;

verus! {

/// What the file system says of the given path.
#[derive(Clone, Copy, Debug, PartialEq, Eq, Structural)]
pub enum PathKind {
    Missing,
    Directory,
    File,
}

/// The folder to scan and the file to show first, if one was named.
pub struct LaunchPlan {
    pub folder: String,
    pub initial: Option<String>,
}

/// The folder scanned when no usable one is given: the working directory.
pub open spec fn default_folder() -> Seq<char> {
    "./"@
}

/// The folder that holds a file: its parent, or the working directory when
/// the parent is empty or absent (a bare file name, a root path).
pub open spec fn folder_of_file(parent: Option<Seq<char>>) -> Seq<char> {
    match parent {
        Some(p) => if p.len() > 0 {
            p
        } else {
            default_folder()
        },
        None => default_folder(),
    }
}

/// No path, or a missing one, scans the working directory; a directory is
/// scanned itself; a file has its folder scanned and is shown first.
pub fn resolve_launch(arg: Option<String>, kind: PathKind, parent: Option<String>) -> (r:
    LaunchPlan)
    ensures
        match arg {
            Some(a) => match kind {
                PathKind::Missing => r.folder@ == default_folder() && r.initial is None,
                PathKind::Directory => r.folder@ == a@ && r.initial is None,
                PathKind::File => {
                    &&& r.folder@ == folder_of_file(
                        match parent {
                            Some(p) => Some(p@),
                            None => None,
                        },
                    )
                    &&& r.initial is Some
                    &&& r.initial->0@ == a@
                },
            },
            None => r.folder@ == default_folder() && r.initial is None,
        },
{
    let fallback = String::from_str("./");
    match arg {
        None => LaunchPlan { folder: fallback, initial: None },
        Some(a) => match kind {
            PathKind::Missing => LaunchPlan { folder: fallback, initial: None },
            PathKind::Directory => LaunchPlan { folder: a, initial: None },
            PathKind::File => {
                let folder = match parent {
                    Some(p) => if p.unicode_len() > 0 {
                        p
                    } else {
                        fallback
                    },
                    None => fallback,
                };
                LaunchPlan { folder, initial: Some(a) }
            },
        },
    }
}

} // verus!
