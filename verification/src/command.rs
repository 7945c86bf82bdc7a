//! The five operations on a disk image, each computed as a plan.
//!
//! An operation never touches the file system and never starts a process. It
//! is told what the caller found on disk and answers with a [`Plan`]. The
//! caller carries the plan out in this order: create the directory, print the
//! announcement, then either hand back the finished result or run the
//! invocation and give its [`Outcome`] to [`DiskImage::conclude`].
use vstd::prelude::*;
use vstd::string::StringExecFns;
use crate::error::{DiskImageError, DiskImageErrorView};
use crate::options::{
    AttachOptions, AttachOptionsView, CreateBlankOptions, CreateBlankOptionsView,
    CreateFromOptions, ResizeOptions, ResizeOptionsView,
};
use crate::size::{check_size, valid_size};
use crate::text::{decode_lossy, join, join_quoted, join_words, lossy_text, quote_all, texts};

verus! {

/// A program and the arguments it is started with.
#[derive(Debug)]
pub struct Invocation {
    pub program: String,
    pub args: Vec<String>,
}

pub struct InvocationView {
    pub program: Seq<char>,
    pub args: Seq<Seq<char>>,
}

impl View for Invocation {
    type V = InvocationView;

    open spec fn view(&self) -> InvocationView {
        InvocationView { program: self.program@, args: texts(self.args@) }
    }
}

impl InvocationView {
    /// The program followed by its arguments.
    pub open spec fn words(self) -> Seq<Seq<char>> {
        seq![self.program] + self.args
    }

    /// The command line as one would type it.
    pub open spec fn plain(self) -> Seq<char> {
        join_words(self.words())
    }

    /// The command line with every word between quotes.
    pub open spec fn quoted(self) -> Seq<char> {
        join_words(quote_all(self.words()))
    }
}

/// The disk utility, started with `args`.
pub open spec fn diskutil(args: Seq<Seq<char>>) -> InvocationView {
    InvocationView { program: "diskutil"@, args }
}

impl Invocation {
    fn diskutil(args: Vec<String>) -> (inv: Invocation)
        ensures
            inv@ == diskutil(texts(args@)),
    {
        Invocation { program: String::from_str("diskutil"), args }
    }

    /// The program followed by its arguments.
    pub fn words(&self) -> (words: Vec<String>)
        ensures
            texts(words@) == self@.words(),
    {
        let mut words: Vec<String> = Vec::new();
        words.push(self.program.clone());
        let n: usize = self.args.len();
        let mut i: usize = 0;
        while i < n
            invariant
                n == self.args@.len(),
                i <= n,
                words@.len() == i + 1,
                words@[0] == self.program,
                forall|k: int| 1 <= k <= i ==> #[trigger] words@[k] == self.args@[k - 1],
            decreases n - i,
        {
            words.push(self.args[i].clone());
            i += 1;
        }
        proof {
            assert forall|k: int| 0 <= k < words@.len() implies texts(words@)[k]
                == self@.words()[k] by {
                if k > 0 {
                    assert(words@[k] == self.args@[k - 1]);
                }
            }
            assert(texts(words@) =~= self@.words());
        }
        words
    }

    pub fn plain_text(&self) -> (line: String)
        ensures
            line@ == self@.plain(),
    {
        join(&self.words())
    }

    pub fn quoted_text(&self) -> (line: String)
        ensures
            line@ == self@.quoted(),
    {
        join_quoted(&self.words())
    }
}

/// What remains to be done once the directory exists and the announcement is
/// printed.
#[derive(Debug)]
pub enum Next {
    /// Nothing: the operation is over, with this result.
    Return(Result<String, DiskImageError>),
    /// Run this, once, and wait for it.
    Run(Invocation),
}

pub enum NextView {
    Return(Result<Seq<char>, DiskImageErrorView>),
    Run(InvocationView),
}

/// The text of an operation's result.
pub open spec fn result_view(r: Result<String, DiskImageError>) -> Result<
    Seq<char>,
    DiskImageErrorView,
> {
    match r {
        Ok(s) => Ok(s@),
        Err(e) => Err(e@),
    }
}

impl View for Next {
    type V = NextView;

    open spec fn view(&self) -> NextView {
        match self {
            Next::Return(r) => NextView::Return(result_view(*r)),
            Next::Run(inv) => NextView::Run(inv@),
        }
    }
}

/// What the caller of an operation has to do.
#[derive(Debug)]
pub struct Plan {
    /// A directory to create first, with its parents.
    pub create_dir: Option<String>,
    /// A line to print to standard output.
    pub announce: Option<String>,
    pub next: Next,
}

pub struct PlanView {
    pub create_dir: Option<Seq<char>>,
    pub announce: Option<Seq<char>>,
    pub next: NextView,
}

/// The text of an optional string.
pub open spec fn option_view(o: Option<String>) -> Option<Seq<char>> {
    match o {
        Some(s) => Some(s@),
        None => None,
    }
}

impl View for Plan {
    type V = PlanView;

    open spec fn view(&self) -> PlanView {
        PlanView {
            create_dir: option_view(self.create_dir),
            announce: option_view(self.announce),
            next: self.next@,
        }
    }
}

impl PlanView {
    /// The plan starts a process.
    pub open spec fn runs(self) -> bool {
        self.next is Run
    }

    /// The plan leaves the file system and the disk utility alone.
    pub open spec fn touches_nothing(self) -> bool {
        self.create_dir is None && !self.runs()
    }
}

/// A dry run: the command is shown, and handed back as the result.
pub open spec fn echo_plan(command: Seq<char>) -> PlanView {
    PlanView {
        create_dir: None,
        announce: Some("[DRY RUN] Would execute: "@ + command),
        next: NextView::Return(Ok("[DRY RUN] Command: "@ + command)),
    }
}

/// A real run, announced beforehand where `verbose` is set.
pub open spec fn run_plan(
    create_dir: Option<Seq<char>>,
    verbose: bool,
    invocation: InvocationView,
) -> PlanView {
    PlanView {
        create_dir,
        announce: if verbose {
            Some("[VERBOSE] Executing: "@ + invocation.quoted())
        } else {
            None
        },
        next: NextView::Run(invocation),
    }
}

/// A refusal: nothing is created, printed or run.
pub open spec fn fail_plan(error: DiskImageErrorView) -> PlanView {
    PlanView { create_dir: None, announce: None, next: NextView::Return(Err(error)) }
}

impl Plan {
    fn echo(command: String) -> (plan: Plan)
        ensures
            plan@ == echo_plan(command@),
    {
        let announce = String::from_str("[DRY RUN] Would execute: ").concat(command.as_str());
        let result = String::from_str("[DRY RUN] Command: ").concat(command.as_str());
        Plan { create_dir: None, announce: Some(announce), next: Next::Return(Ok(result)) }
    }

    fn run(create_dir: Option<String>, verbose: bool, invocation: Invocation) -> (plan: Plan)
        ensures
            plan@ == run_plan(option_view(create_dir), verbose, invocation@),
    {
        let announce = if verbose {
            Some(String::from_str("[VERBOSE] Executing: ").concat(invocation.quoted_text().as_str()))
        } else {
            None
        };
        Plan { create_dir, announce, next: Next::Run(invocation) }
    }

    fn fail(error: DiskImageError) -> (plan: Plan)
        ensures
            plan@ == fail_plan(error@),
    {
        Plan { create_dir: None, announce: None, next: Next::Return(Err(error)) }
    }
}

/// What happened when a plan was carried out.
#[derive(Debug)]
pub enum Outcome {
    /// The directory could not be created; holds the system's message.
    DirectoryFailed(String),
    /// The process could not be started.
    NotStarted,
    /// The process ran to its end.
    Exited { success: bool, stdout: Vec<u8>, stderr: Vec<u8> },
}

/// The result that an outcome stands for.
pub open spec fn conclusion(outcome: Outcome) -> Result<Seq<char>, DiskImageErrorView> {
    match outcome {
        Outcome::DirectoryFailed(message) => Err(DiskImageErrorView::CommandFailed(message@)),
        Outcome::NotStarted => Err(DiskImageErrorView::DiskutilNotFound),
        Outcome::Exited { success, stdout, stderr } => if success {
            Ok(lossy_text(stdout@))
        } else {
            Err(DiskImageErrorView::CommandFailed(lossy_text(stderr@)))
        },
    }
}

/// Arguments of `image attach`.
pub open spec fn attach_args(image_path: Seq<char>, options: AttachOptionsView) -> Seq<Seq<char>> {
    seq!["image"@, "attach"@] + (match options.mount_point {
        Some(m) => seq!["--mountPoint"@, m],
        None => seq![],
    }) + (if options.verbose {
        seq!["--verbose"@]
    } else {
        seq![]
    }) + seq![image_path]
}

/// The directory that attaching creates: the mount point, where one is given,
/// is missing, and the run is real.
pub open spec fn attach_directory(options: AttachOptionsView, mount_point_exists: bool) -> Option<
    Seq<char>,
> {
    if options.mount_point is Some && !mount_point_exists && !options.dry_run {
        options.mount_point
    } else {
        None
    }
}

pub open spec fn attach_plan(
    image_path: Seq<char>,
    options: AttachOptionsView,
    mount_point_exists: bool,
) -> PlanView {
    let invocation = diskutil(attach_args(image_path, options));
    if options.dry_run {
        echo_plan(invocation.quoted())
    } else {
        run_plan(attach_directory(options, mount_point_exists), options.verbose, invocation)
    }
}

/// Arguments of `image create blank`.
pub open spec fn create_blank_args(
    image_path: Seq<char>,
    options: CreateBlankOptionsView,
) -> Seq<Seq<char>> {
    seq![
        "image"@,
        "create"@,
        "blank"@,
        "--fs"@,
        options.fs.flag_text(),
        "--format"@,
        options.format.text(),
        "--size"@,
        options.size,
        image_path,
    ]
}

pub open spec fn create_blank_plan(
    image_path: Seq<char>,
    options: CreateBlankOptionsView,
) -> PlanView {
    let invocation = diskutil(create_blank_args(image_path, options));
    if !valid_size(options.size) {
        fail_plan(DiskImageErrorView::InvalidSize(options.size))
    } else if options.dry_run {
        echo_plan(invocation.plain())
    } else {
        run_plan(None, options.verbose, invocation)
    }
}

/// Arguments of `image create from`.
pub open spec fn create_from_args(
    source_path: Seq<char>,
    dest_path: Seq<char>,
    options: CreateFromOptions,
) -> Seq<Seq<char>> {
    seq!["image"@, "create"@, "from"@, "--format"@, options.format.text(), source_path, dest_path]
}

pub open spec fn create_from_plan(
    source_path: Seq<char>,
    dest_path: Seq<char>,
    options: CreateFromOptions,
    source_exists: bool,
) -> PlanView {
    let invocation = diskutil(create_from_args(source_path, dest_path, options));
    if options.dry_run {
        echo_plan(invocation.plain())
    } else if !source_exists {
        fail_plan(DiskImageErrorView::InvalidPath(source_path))
    } else {
        run_plan(None, options.verbose, invocation)
    }
}

/// Arguments of `image resize`.
pub open spec fn resize_args(image_path: Seq<char>, options: ResizeOptionsView) -> Seq<Seq<char>> {
    seq!["image"@, "resize"@, "--size"@, options.size, image_path]
}

pub open spec fn resize_plan(
    image_path: Seq<char>,
    options: ResizeOptionsView,
    image_exists: bool,
) -> PlanView {
    let invocation = diskutil(resize_args(image_path, options));
    if !valid_size(options.size) {
        fail_plan(DiskImageErrorView::InvalidSize(options.size))
    } else if options.dry_run {
        echo_plan(invocation.plain())
    } else if !image_exists {
        fail_plan(DiskImageErrorView::InvalidPath(image_path))
    } else {
        run_plan(None, options.verbose, invocation)
    }
}

pub open spec fn detach_plan(mount_point: Seq<char>) -> PlanView {
    run_plan(None, false, diskutil(seq!["unmount"@, mount_point]))
}

pub struct DiskImage;

impl DiskImage {
    /// Attaches the image, at the mount point where one is given.
    ///
    /// `mount_point_exists` says whether the mount point is on disk now; it is
    /// not read where no mount point is given. A missing mount point is
    /// created before a real run and left alone by a dry run.
    pub fn attach(
        image_path: &str,
        options: AttachOptions,
        mount_point_exists: bool,
    ) -> (plan: Plan)
        ensures
            plan@ == attach_plan(image_path@, options@, mount_point_exists),
    {
        let mut args: Vec<String> = Vec::new();
        args.push(String::from_str("image"));
        args.push(String::from_str("attach"));
        let mut create_dir: Option<String> = None;
        match &options.mount_point {
            Some(m) => {
                if !mount_point_exists && !options.dry_run {
                    create_dir = Some(m.clone());
                }
                args.push(String::from_str("--mountPoint"));
                args.push(m.clone());
            },
            None => {},
        }
        if options.verbose {
            args.push(String::from_str("--verbose"));
        }
        args.push(String::from_str(image_path));
        proof {
            assert(texts(args@) =~= attach_args(image_path@, options@));
        }
        let invocation = Invocation::diskutil(args);
        if options.dry_run {
            Plan::echo(invocation.quoted_text())
        } else {
            Plan::run(create_dir, options.verbose, invocation)
        }
    }

    /// Creates a blank image. The size is checked first, dry run or not.
    pub fn create_blank(image_path: &str, options: CreateBlankOptions) -> (plan: Plan)
        ensures
            plan@ == create_blank_plan(image_path@, options@),
    {
        if !check_size(options.size.as_str()) {
            return Plan::fail(DiskImageError::InvalidSize(options.size));
        }
        let mut args: Vec<String> = Vec::new();
        args.push(String::from_str("image"));
        args.push(String::from_str("create"));
        args.push(String::from_str("blank"));
        args.push(String::from_str("--fs"));
        args.push(options.fs.flag_value());
        args.push(String::from_str("--format"));
        args.push(options.format.to_string());
        args.push(String::from_str("--size"));
        args.push(options.size.clone());
        args.push(String::from_str(image_path));
        proof {
            assert(texts(args@) =~= create_blank_args(image_path@, options@));
        }
        let invocation = Invocation::diskutil(args);
        if options.dry_run {
            Plan::echo(invocation.plain_text())
        } else {
            Plan::run(None, options.verbose, invocation)
        }
    }

    /// Creates an image from what is at `source_path`.
    ///
    /// `source_exists` says whether the source is on disk now. A dry run does
    /// not ask.
    pub fn create_from(
        source_path: &str,
        dest_path: &str,
        options: CreateFromOptions,
        source_exists: bool,
    ) -> (plan: Plan)
        ensures
            plan@ == create_from_plan(source_path@, dest_path@, options, source_exists),
    {
        let mut args: Vec<String> = Vec::new();
        args.push(String::from_str("image"));
        args.push(String::from_str("create"));
        args.push(String::from_str("from"));
        args.push(String::from_str("--format"));
        args.push(options.format.to_string());
        args.push(String::from_str(source_path));
        args.push(String::from_str(dest_path));
        proof {
            assert(texts(args@) =~= create_from_args(source_path@, dest_path@, options));
        }
        let invocation = Invocation::diskutil(args);
        if options.dry_run {
            Plan::echo(invocation.plain_text())
        } else if !source_exists {
            Plan::fail(DiskImageError::InvalidPath(String::from_str(source_path)))
        } else {
            Plan::run(None, options.verbose, invocation)
        }
    }

    /// Resizes the image. The size is checked first, dry run or not.
    ///
    /// `image_exists` says whether the image is on disk now. A dry run does
    /// not ask.
    pub fn resize(image_path: &str, options: ResizeOptions, image_exists: bool) -> (plan: Plan)
        ensures
            plan@ == resize_plan(image_path@, options@, image_exists),
    {
        if !check_size(options.size.as_str()) {
            return Plan::fail(DiskImageError::InvalidSize(options.size));
        }
        let mut args: Vec<String> = Vec::new();
        args.push(String::from_str("image"));
        args.push(String::from_str("resize"));
        args.push(String::from_str("--size"));
        args.push(options.size.clone());
        args.push(String::from_str(image_path));
        proof {
            assert(texts(args@) =~= resize_args(image_path@, options@));
        }
        let invocation = Invocation::diskutil(args);
        if options.dry_run {
            Plan::echo(invocation.plain_text())
        } else if !image_exists {
            Plan::fail(DiskImageError::InvalidPath(String::from_str(image_path)))
        } else {
            Plan::run(None, options.verbose, invocation)
        }
    }

    /// Unmounts what is mounted at `mount_point`.
    pub fn detach(mount_point: &str) -> (plan: Plan)
        ensures
            plan@ == detach_plan(mount_point@),
    {
        let mut args: Vec<String> = Vec::new();
        args.push(String::from_str("unmount"));
        args.push(String::from_str(mount_point));
        proof {
            assert(texts(args@) =~= seq!["unmount"@, mount_point@]);
        }
        Plan::run(None, false, Invocation::diskutil(args))
    }

    /// Turns what happened into the operation's result: the standard output
    /// of a run that succeeded, the standard error of one that failed.
    pub fn conclude(outcome: Outcome) -> (result: Result<String, DiskImageError>)
        ensures
            result_view(result) == conclusion(outcome),
    {
        match outcome {
            Outcome::DirectoryFailed(message) => Err(DiskImageError::CommandFailed(message)),
            Outcome::NotStarted => Err(DiskImageError::DiskutilNotFound),
            Outcome::Exited { success, stdout, stderr } => {
                if success {
                    Ok(decode_lossy(&stdout))
                } else {
                    Err(DiskImageError::CommandFailed(decode_lossy(&stderr)))
                }
            },
        }
    }

    /// Whether `size` is accepted as a size.
    pub fn is_valid_size(size: &str) -> (ok: bool)
        ensures
            ok == valid_size(size@),
    {
        check_size(size)
    }
}

/// Attaches an image; see [`DiskImage::attach`].
pub fn attach(image_path: &str, options: AttachOptions, mount_point_exists: bool) -> (plan: Plan)
    ensures
        plan@ == attach_plan(image_path@, options@, mount_point_exists),
{
    DiskImage::attach(image_path, options, mount_point_exists)
}

/// Creates a blank image; see [`DiskImage::create_blank`].
pub fn create_blank(image_path: &str, options: CreateBlankOptions) -> (plan: Plan)
    ensures
        plan@ == create_blank_plan(image_path@, options@),
{
    DiskImage::create_blank(image_path, options)
}

/// Creates an image from an existing one; see [`DiskImage::create_from`].
pub fn create_from(
    source_path: &str,
    dest_path: &str,
    options: CreateFromOptions,
    source_exists: bool,
) -> (plan: Plan)
    ensures
        plan@ == create_from_plan(source_path@, dest_path@, options, source_exists),
{
    DiskImage::create_from(source_path, dest_path, options, source_exists)
}

/// Resizes an image; see [`DiskImage::resize`].
pub fn resize(image_path: &str, options: ResizeOptions, image_exists: bool) -> (plan: Plan)
    ensures
        plan@ == resize_plan(image_path@, options@, image_exists),
{
    DiskImage::resize(image_path, options, image_exists)
}

/// Unmounts a mount point; see [`DiskImage::detach`].
pub fn detach(mount_point: &str) -> (plan: Plan)
    ensures
        plan@ == detach_plan(mount_point@),
{
    DiskImage::detach(mount_point)
}

/// A dry run of attach creates no directory and starts no process, whether or
/// not the mount point is on disk; and it does not matter which.
pub proof fn lemma_attach_dry_run_touches_nothing(
    image_path: Seq<char>,
    options: AttachOptionsView,
    mount_point_exists: bool,
)
    requires
        options.dry_run,
    ensures
        attach_plan(image_path, options, mount_point_exists).touches_nothing(),
        attach_plan(image_path, options, mount_point_exists) == attach_plan(
            image_path,
            options,
            !mount_point_exists,
        ),
{
}

/// A real attach at a mount point that is missing creates that directory and
/// then runs the disk utility: one invocation, after the directory. At a
/// mount point that is there, or with none, it creates nothing.
pub proof fn lemma_attach_creates_missing_mount_point(
    image_path: Seq<char>,
    options: AttachOptionsView,
    mount_point_exists: bool,
)
    requires
        !options.dry_run,
    ensures
        attach_plan(image_path, options, mount_point_exists).next == NextView::Run(
            diskutil(attach_args(image_path, options)),
        ),
        options.mount_point is Some && !mount_point_exists ==> attach_plan(
            image_path,
            options,
            mount_point_exists,
        ).create_dir == options.mount_point,
        options.mount_point is None || mount_point_exists ==> attach_plan(
            image_path,
            options,
            mount_point_exists,
        ).create_dir is None,
{
}

/// A blank image of a malformed size is refused with `InvalidSize`, and
/// nothing is created, printed or run: in a dry run as in a real one.
pub proof fn lemma_create_blank_rejects_invalid_size(
    image_path: Seq<char>,
    options: CreateBlankOptionsView,
)
    requires
        !valid_size(options.size),
    ensures
        create_blank_plan(image_path, options) == fail_plan(
            DiskImageErrorView::InvalidSize(options.size),
        ),
        create_blank_plan(image_path, options).touches_nothing(),
{
}

/// A blank image of a well-formed size is never refused.
pub proof fn lemma_create_blank_accepts_valid_size(
    image_path: Seq<char>,
    options: CreateBlankOptionsView,
)
    requires
        valid_size(options.size),
    ensures
        options.dry_run ==> create_blank_plan(image_path, options) == echo_plan(
            diskutil(create_blank_args(image_path, options)).plain(),
        ),
        !options.dry_run ==> create_blank_plan(image_path, options).next == NextView::Run(
            diskutil(create_blank_args(image_path, options)),
        ),
{
}

/// Creating from a source that is missing is refused with `InvalidPath` in a
/// real run. A dry run does not look at the source: it succeeds with the
/// command it would have run, and touches nothing.
pub proof fn lemma_create_from_missing_source(
    source_path: Seq<char>,
    dest_path: Seq<char>,
    options: CreateFromOptions,
)
    ensures
        !options.dry_run ==> create_from_plan(source_path, dest_path, options, false) == fail_plan(
            DiskImageErrorView::InvalidPath(source_path),
        ),
        options.dry_run ==> create_from_plan(source_path, dest_path, options, false) == echo_plan(
            diskutil(create_from_args(source_path, dest_path, options)).plain(),
        ),
        options.dry_run ==> create_from_plan(source_path, dest_path, options, false)
            == create_from_plan(source_path, dest_path, options, true),
        options.dry_run ==> create_from_plan(
            source_path,
            dest_path,
            options,
            false,
        ).touches_nothing(),
{
}

/// Resizing checks the size before anything else, and the image's presence
/// only in a real run.
pub proof fn lemma_resize_checks(
    image_path: Seq<char>,
    options: ResizeOptionsView,
    image_exists: bool,
)
    ensures
        !valid_size(options.size) ==> resize_plan(image_path, options, image_exists) == fail_plan(
            DiskImageErrorView::InvalidSize(options.size),
        ),
        valid_size(options.size) && options.dry_run ==> resize_plan(
            image_path,
            options,
            image_exists,
        ) == echo_plan(diskutil(resize_args(image_path, options)).plain()),
        valid_size(options.size) && !options.dry_run && !image_exists ==> resize_plan(
            image_path,
            options,
            image_exists,
        ) == fail_plan(DiskImageErrorView::InvalidPath(image_path)),
{
}

/// No dry run of any operation creates a directory or starts a process.
pub proof fn lemma_dry_run_touches_nothing(
    path: Seq<char>,
    other_path: Seq<char>,
    attach: AttachOptionsView,
    blank: CreateBlankOptionsView,
    from: CreateFromOptions,
    resize: ResizeOptionsView,
    exists: bool,
)
    ensures
        attach.dry_run ==> attach_plan(path, attach, exists).touches_nothing(),
        blank.dry_run ==> create_blank_plan(path, blank).touches_nothing(),
        from.dry_run ==> create_from_plan(path, other_path, from, exists).touches_nothing(),
        resize.dry_run ==> resize_plan(path, resize, exists).touches_nothing(),
{
}

/// A dry run shows the command that the real run would start: the same
/// program and arguments, whenever the real run gets as far as starting it.
pub proof fn lemma_dry_run_shows_the_real_command(
    path: Seq<char>,
    other_path: Seq<char>,
    attach: AttachOptionsView,
    blank: CreateBlankOptionsView,
    from: CreateFromOptions,
    resize: ResizeOptionsView,
    exists: bool,
    invocation: InvocationView,
)
    ensures
        attach_plan(path, AttachOptionsView { dry_run: false, ..attach }, exists).next
            == NextView::Run(invocation) ==> attach_plan(
            path,
            AttachOptionsView { dry_run: true, ..attach },
            exists,
        ) == echo_plan(invocation.quoted()),
        create_blank_plan(path, CreateBlankOptionsView { dry_run: false, ..blank }).next
            == NextView::Run(invocation) ==> create_blank_plan(
            path,
            CreateBlankOptionsView { dry_run: true, ..blank },
        ) == echo_plan(invocation.plain()),
        create_from_plan(path, other_path, CreateFromOptions { dry_run: false, ..from }, exists).next
            == NextView::Run(invocation) ==> create_from_plan(
            path,
            other_path,
            CreateFromOptions { dry_run: true, ..from },
            exists,
        ) == echo_plan(invocation.plain()),
        resize_plan(path, ResizeOptionsView { dry_run: false, ..resize }, exists).next
            == NextView::Run(invocation) ==> resize_plan(
            path,
            ResizeOptionsView { dry_run: true, ..resize },
            exists,
        ) == echo_plan(invocation.plain()),
{
}

} // verus!
