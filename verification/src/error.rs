//! The ways in which an operation on a disk image fails.
use vstd::prelude::*;
use vstd::string::StringExecFns;

verus! {

#[derive(Debug)]
pub enum DiskImageError {
    /// The disk utility ran and reported failure; holds what it wrote to
    /// standard error.
    CommandFailed(String),
    /// A path that has to exist does not; holds the path.
    InvalidPath(String),
    /// A size is malformed; holds the size.
    InvalidSize(String),
    /// The disk utility could not be started at all.
    DiskutilNotFound,
}

pub enum DiskImageErrorView {
    CommandFailed(Seq<char>),
    InvalidPath(Seq<char>),
    InvalidSize(Seq<char>),
    DiskutilNotFound,
}

impl View for DiskImageError {
    type V = DiskImageErrorView;

    open spec fn view(&self) -> DiskImageErrorView {
        match self {
            DiskImageError::CommandFailed(m) => DiskImageErrorView::CommandFailed(m@),
            DiskImageError::InvalidPath(p) => DiskImageErrorView::InvalidPath(p@),
            DiskImageError::InvalidSize(s) => DiskImageErrorView::InvalidSize(s@),
            DiskImageError::DiskutilNotFound => DiskImageErrorView::DiskutilNotFound,
        }
    }
}

impl DiskImageErrorView {
    /// The message shown to the user.
    pub open spec fn text(self) -> Seq<char> {
        match self {
            DiskImageErrorView::CommandFailed(m) => "Command failed: "@ + m,
            DiskImageErrorView::InvalidPath(p) => "Invalid path: "@ + p,
            DiskImageErrorView::InvalidSize(s) => "Invalid size: "@ + s,
            DiskImageErrorView::DiskutilNotFound => "diskutil command not found"@,
        }
    }
}

impl DiskImageError {
    pub fn to_string(&self) -> (s: String)
        ensures
            s@ == self@.text(),
    {
        match self {
            DiskImageError::CommandFailed(m) => String::from_str("Command failed: ").concat(
                m.as_str(),
            ),
            DiskImageError::InvalidPath(p) => String::from_str("Invalid path: ").concat(
                p.as_str(),
            ),
            DiskImageError::InvalidSize(s) => String::from_str("Invalid size: ").concat(
                s.as_str(),
            ),
            DiskImageError::DiskutilNotFound => String::from_str("diskutil command not found"),
        }
    }
}

} // verus!
