//! The option records that configure each operation on a disk image.
//!
//! Each record is a plain value: built by a constructor, changed by chained
//! mutators that hand back the updated record, and consumed by one operation.
//! Nothing is validated here; a size is checked by the operation that uses it.
use vstd::prelude::*;
use vstd::string::StringExecFns;

verus! {

/// The container format of an image.
#[derive(Debug, Clone, Copy, PartialEq, Eq, Structural)]
pub enum Format {
    RAW,
    ASIF,
    UDSB,
}

impl Format {
    /// The token by which the disk utility knows the format.
    pub open spec fn text(self) -> Seq<char> {
        match self {
            Format::RAW => "RAW"@,
            Format::ASIF => "ASIF"@,
            Format::UDSB => "UDSB"@,
        }
    }

    pub fn to_string(&self) -> (s: String)
        ensures
            s@ == self.text(),
    {
        match self {
            Format::RAW => String::from_str("RAW"),
            Format::ASIF => String::from_str("ASIF"),
            Format::UDSB => String::from_str("UDSB"),
        }
    }
}

impl Default for Format {
    fn default() -> (f: Self)
        ensures
            f == Format::ASIF,
    {
        Format::ASIF
    }
}

/// The lower-case form of an ASCII capital; any other character unchanged.
pub open spec fn ascii_lower(c: char) -> char {
    if 'A' <= c <= 'Z' {
        ((c as u8) + 32) as char
    } else {
        c
    }
}

/// The text with its ASCII capitals in lower case.
pub open spec fn ascii_lower_text(s: Seq<char>) -> Seq<char> {
    Seq::new(s.len(), |i: int| ascii_lower(s[i]))
}

/// The file system that a blank image is formatted with.
#[derive(Debug, Clone, Copy, PartialEq, Eq, Structural)]
pub enum FileSystem {
    APFS,
    ExFAT,
    MSDOS,
    /// No file system at all; shown as `None`.
    Unformatted,
}

impl FileSystem {
    /// The name as it is shown.
    pub open spec fn text(self) -> Seq<char> {
        match self {
            FileSystem::APFS => "APFS"@,
            FileSystem::ExFAT => "ExFAT"@,
            FileSystem::MSDOS => "MS-DOS"@,
            FileSystem::Unformatted => "None"@,
        }
    }

    /// The shown name in lower case: the value of `--fs`.
    pub open spec fn flag_text(self) -> Seq<char> {
        match self {
            FileSystem::APFS => "apfs"@,
            FileSystem::ExFAT => "exfat"@,
            FileSystem::MSDOS => "ms-dos"@,
            FileSystem::Unformatted => "none"@,
        }
    }

    pub fn to_string(&self) -> (s: String)
        ensures
            s@ == self.text(),
    {
        match self {
            FileSystem::APFS => String::from_str("APFS"),
            FileSystem::ExFAT => String::from_str("ExFAT"),
            FileSystem::MSDOS => String::from_str("MS-DOS"),
            FileSystem::Unformatted => String::from_str("None"),
        }
    }

    pub fn flag_value(&self) -> (s: String)
        ensures
            s@ == self.flag_text(),
    {
        match self {
            FileSystem::APFS => String::from_str("apfs"),
            FileSystem::ExFAT => String::from_str("exfat"),
            FileSystem::MSDOS => String::from_str("ms-dos"),
            FileSystem::Unformatted => String::from_str("none"),
        }
    }
}

/// The value of `--fs` is the shown name of the file system in lower case.
pub proof fn lemma_flag_text_is_lower_case(fs: FileSystem)
    ensures
        fs.flag_text() == ascii_lower_text(fs.text()),
{
    reveal_strlit("APFS");
    reveal_strlit("apfs");
    reveal_strlit("ExFAT");
    reveal_strlit("exfat");
    reveal_strlit("MS-DOS");
    reveal_strlit("ms-dos");
    reveal_strlit("None");
    reveal_strlit("none");
    assert(fs.flag_text() =~= ascii_lower_text(fs.text()));
}

impl Default for FileSystem {
    fn default() -> (f: Self)
        ensures
            f == FileSystem::APFS,
    {
        FileSystem::APFS
    }
}

/// How an image is attached.
#[derive(Debug, Clone)]
pub struct AttachOptions {
    pub mount_point: Option<String>,
    pub readonly: bool,
    pub nobrowse: bool,
    pub verbose: bool,
    pub dry_run: bool,
}

pub struct AttachOptionsView {
    pub mount_point: Option<Seq<char>>,
    pub readonly: bool,
    pub nobrowse: bool,
    pub verbose: bool,
    pub dry_run: bool,
}

impl View for AttachOptions {
    type V = AttachOptionsView;

    open spec fn view(&self) -> AttachOptionsView {
        AttachOptionsView {
            mount_point: match self.mount_point {
                Some(m) => Some(m@),
                None => None,
            },
            readonly: self.readonly,
            nobrowse: self.nobrowse,
            verbose: self.verbose,
            dry_run: self.dry_run,
        }
    }
}

impl AttachOptionsView {
    /// No mount point, every flag off.
    pub open spec fn initial() -> AttachOptionsView {
        AttachOptionsView {
            mount_point: None,
            readonly: false,
            nobrowse: false,
            verbose: false,
            dry_run: false,
        }
    }
}

impl AttachOptions {
    pub fn new() -> (o: Self)
        ensures
            o@ == AttachOptionsView::initial(),
    {
        AttachOptions {
            mount_point: None,
            readonly: false,
            nobrowse: false,
            verbose: false,
            dry_run: false,
        }
    }

    pub fn with_mount_point(self, mount_point: &str) -> (o: Self)
        ensures
            o@ == (AttachOptionsView { mount_point: Some(mount_point@), ..self@ }),
    {
        AttachOptions { mount_point: Some(String::from_str(mount_point)), ..self }
    }

    pub fn readonly(self) -> (o: Self)
        ensures
            o@ == (AttachOptionsView { readonly: true, ..self@ }),
    {
        AttachOptions { readonly: true, ..self }
    }

    pub fn nobrowse(self) -> (o: Self)
        ensures
            o@ == (AttachOptionsView { nobrowse: true, ..self@ }),
    {
        AttachOptions { nobrowse: true, ..self }
    }

    pub fn verbose(self) -> (o: Self)
        ensures
            o@ == (AttachOptionsView { verbose: true, ..self@ }),
    {
        AttachOptions { verbose: true, ..self }
    }

    pub fn with_verbose(self, verbose: bool) -> (o: Self)
        ensures
            o@ == (AttachOptionsView { verbose, ..self@ }),
    {
        AttachOptions { verbose, ..self }
    }

    pub fn with_dry_run(self, dry_run: bool) -> (o: Self)
        ensures
            o@ == (AttachOptionsView { dry_run, ..self@ }),
    {
        AttachOptions { dry_run, ..self }
    }
}

impl Default for AttachOptions {
    fn default() -> (o: Self)
        ensures
            o@ == AttachOptionsView::initial(),
    {
        AttachOptions::new()
    }
}

/// How a blank image is created.
#[derive(Debug, Clone)]
pub struct CreateBlankOptions {
    pub size: String,
    pub fs: FileSystem,
    pub format: Format,
    pub dry_run: bool,
    pub verbose: bool,
}

pub struct CreateBlankOptionsView {
    pub size: Seq<char>,
    pub fs: FileSystem,
    pub format: Format,
    pub dry_run: bool,
    pub verbose: bool,
}

impl View for CreateBlankOptions {
    type V = CreateBlankOptionsView;

    open spec fn view(&self) -> CreateBlankOptionsView {
        CreateBlankOptionsView {
            size: self.size@,
            fs: self.fs,
            format: self.format,
            dry_run: self.dry_run,
            verbose: self.verbose,
        }
    }
}

impl CreateBlankOptions {
    pub fn new(size: &str, fs: FileSystem, format: Format) -> (o: Self)
        ensures
            o@ == (CreateBlankOptionsView {
                size: size@,
                fs,
                format,
                dry_run: false,
                verbose: false,
            }),
    {
        CreateBlankOptions {
            size: String::from_str(size),
            fs,
            format,
            dry_run: false,
            verbose: false,
        }
    }

    pub fn with_dry_run(self, dry_run: bool) -> (o: Self)
        ensures
            o@ == (CreateBlankOptionsView { dry_run, ..self@ }),
    {
        CreateBlankOptions { dry_run, ..self }
    }

    pub fn with_verbose(self, verbose: bool) -> (o: Self)
        ensures
            o@ == (CreateBlankOptionsView { verbose, ..self@ }),
    {
        CreateBlankOptions { verbose, ..self }
    }
}

impl Default for CreateBlankOptions {
    /// One gigabyte, no file system, the default format.
    fn default() -> (o: Self)
        ensures
            o@ == (CreateBlankOptionsView {
                size: "1GB"@,
                fs: FileSystem::Unformatted,
                format: Format::ASIF,
                dry_run: false,
                verbose: false,
            }),
    {
        CreateBlankOptions::new("1GB", FileSystem::Unformatted, Format::ASIF)
    }
}

/// How an image is created from an existing directory or image.
#[derive(Debug, Clone, Copy, PartialEq, Eq, Structural)]
pub struct CreateFromOptions {
    pub format: Format,
    pub dry_run: bool,
    pub verbose: bool,
}

impl CreateFromOptions {
    pub fn new(format: Format) -> (o: Self)
        ensures
            o == (CreateFromOptions { format, dry_run: false, verbose: false }),
    {
        CreateFromOptions { format, dry_run: false, verbose: false }
    }

    pub fn with_dry_run(self, dry_run: bool) -> (o: Self)
        ensures
            o == (CreateFromOptions { dry_run, ..self }),
    {
        CreateFromOptions { dry_run, ..self }
    }

    pub fn with_verbose(self, verbose: bool) -> (o: Self)
        ensures
            o == (CreateFromOptions { verbose, ..self }),
    {
        CreateFromOptions { verbose, ..self }
    }
}

impl Default for CreateFromOptions {
    fn default() -> (o: Self)
        ensures
            o == (CreateFromOptions { format: Format::ASIF, dry_run: false, verbose: false }),
    {
        CreateFromOptions::new(Format::ASIF)
    }
}

/// How an image is resized.
#[derive(Debug, Clone)]
pub struct ResizeOptions {
    pub size: String,
    pub dry_run: bool,
    pub verbose: bool,
}

pub struct ResizeOptionsView {
    pub size: Seq<char>,
    pub dry_run: bool,
    pub verbose: bool,
}

impl View for ResizeOptions {
    type V = ResizeOptionsView;

    open spec fn view(&self) -> ResizeOptionsView {
        ResizeOptionsView { size: self.size@, dry_run: self.dry_run, verbose: self.verbose }
    }
}

impl ResizeOptions {
    pub fn new(size: &str) -> (o: Self)
        ensures
            o@ == (ResizeOptionsView { size: size@, dry_run: false, verbose: false }),
    {
        ResizeOptions { size: String::from_str(size), dry_run: false, verbose: false }
    }

    pub fn with_dry_run(self, dry_run: bool) -> (o: Self)
        ensures
            o@ == (ResizeOptionsView { dry_run, ..self@ }),
    {
        ResizeOptions { dry_run, ..self }
    }

    pub fn with_verbose(self, verbose: bool) -> (o: Self)
        ensures
            o@ == (ResizeOptionsView { verbose, ..self@ }),
    {
        ResizeOptions { verbose, ..self }
    }
}

} // verus!
