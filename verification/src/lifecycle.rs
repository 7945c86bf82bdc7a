//! The end-to-end procedure: turn a directory into an image mounted in its
//! place.
//!
//! What is on disk when the procedure starts decides the steps. The caller
//! carries them out in order and stops at the first that fails.
use vstd::prelude::*;
use vstd::string::StringExecFns;
use crate::error::{DiskImageError, DiskImageErrorView};
use crate::options::{
    AttachOptions, AttachOptionsView, CreateBlankOptions, CreateBlankOptionsView,
    CreateFromOptions, FileSystem, Format, ResizeOptions, ResizeOptionsView,
};
use crate::command::option_view;

verus! {

/// Seconds to wait between creating an image from a directory and resizing
/// it, so that the disk utility can settle.
pub const SETTLE_SECONDS: u64 = 3;

/// How the contents of a directory are compressed.
#[derive(Debug, Clone, Copy, PartialEq, Eq, Structural)]
pub enum Algorithm {
    Lzfse,
    Lzvn,
    Zlib,
    /// Whatever the compression engine takes when it is not told.
    EngineDefault,
}

/// The selector names one of the algorithms.
pub open spec fn selector_known(selector: Seq<char>) -> bool {
    selector == "lzfse"@ || selector == "lzvn"@ || selector == "zlib"@
}

/// The algorithm that a selector stands for; the engine's default where it
/// names none.
pub open spec fn selected_algorithm(selector: Seq<char>) -> Algorithm {
    if selector == "lzfse"@ {
        Algorithm::Lzfse
    } else if selector == "lzvn"@ {
        Algorithm::Lzvn
    } else if selector == "zlib"@ {
        Algorithm::Zlib
    } else {
        Algorithm::EngineDefault
    }
}

/// The warning that goes with a selector, if it names no algorithm.
pub open spec fn selector_warning(selector: Seq<char>) -> Option<Seq<char>> {
    if selector_known(selector) {
        None
    } else {
        Some("Warning: Unknown compression type '"@ + selector + "', using default"@)
    }
}

fn same_text(a: &str, b: &str) -> (same: bool)
    ensures
        same == (a@ == b@),
{
    String::from_str(a) == String::from_str(b)
}

/// The algorithm that `selector` stands for. An unknown selector is no
/// failure: the engine's default is taken.
pub fn select_algorithm(selector: &str) -> (algorithm: Algorithm)
    ensures
        algorithm == selected_algorithm(selector@),
{
    if same_text(selector, "lzfse") {
        Algorithm::Lzfse
    } else if same_text(selector, "lzvn") {
        Algorithm::Lzvn
    } else if same_text(selector, "zlib") {
        Algorithm::Zlib
    } else {
        Algorithm::EngineDefault
    }
}

/// The warning to print for `selector`, if any.
pub fn warn_unknown_selector(selector: &str) -> (warning: Option<String>)
    ensures
        option_view(warning) == selector_warning(selector@),
{
    if same_text(selector, "lzfse") || same_text(selector, "lzvn") || same_text(selector, "zlib") {
        None
    } else {
        let mut line = String::from_str("Warning: Unknown compression type '");
        line.append(selector);
        line.append("', using default");
        Some(line)
    }
}

/// What the user asked for.
#[derive(Debug, Clone)]
pub struct Request {
    /// The directory that the image replaces.
    pub directory: String,
    /// The size that the image may grow to.
    pub max_size: String,
    /// The compression selector; `none` for no compression.
    pub compress: String,
    pub dry_run: bool,
    pub verbose: bool,
}

pub struct RequestView {
    pub directory: Seq<char>,
    pub max_size: Seq<char>,
    pub compress: Seq<char>,
    pub dry_run: bool,
    pub verbose: bool,
}

impl View for Request {
    type V = RequestView;

    open spec fn view(&self) -> RequestView {
        RequestView {
            directory: self.directory@,
            max_size: self.max_size@,
            compress: self.compress@,
            dry_run: self.dry_run,
            verbose: self.verbose,
        }
    }
}

/// One step of the procedure.
#[derive(Debug)]
pub enum Step {
    CreateBlank { image: String, options: CreateBlankOptions },
    CreateFrom { source: String, image: String, options: CreateFromOptions },
    /// Compress everything under `root` in place, after printing `warning`.
    Compress { root: String, algorithm: Algorithm, warning: Option<String> },
    /// Wait.
    Pause { seconds: u64 },
    Resize { image: String, options: ResizeOptions },
    /// Remove the directory.
    Remove { path: String },
    /// Print the line.
    Report { line: String },
    Attach { image: String, options: AttachOptions },
}

pub enum StepView {
    CreateBlank { image: Seq<char>, options: CreateBlankOptionsView },
    CreateFrom { source: Seq<char>, image: Seq<char>, options: CreateFromOptions },
    Compress { root: Seq<char>, algorithm: Algorithm, warning: Option<Seq<char>> },
    Pause { seconds: u64 },
    Resize { image: Seq<char>, options: ResizeOptionsView },
    Remove { path: Seq<char> },
    Report { line: Seq<char> },
    Attach { image: Seq<char>, options: AttachOptionsView },
}

impl View for Step {
    type V = StepView;

    open spec fn view(&self) -> StepView {
        match self {
            Step::CreateBlank { image, options } => StepView::CreateBlank {
                image: image@,
                options: options@,
            },
            Step::CreateFrom { source, image, options } => StepView::CreateFrom {
                source: source@,
                image: image@,
                options: *options,
            },
            Step::Compress { root, algorithm, warning } => StepView::Compress {
                root: root@,
                algorithm: *algorithm,
                warning: option_view(*warning),
            },
            Step::Pause { seconds } => StepView::Pause { seconds: *seconds },
            Step::Resize { image, options } => StepView::Resize {
                image: image@,
                options: options@,
            },
            Step::Remove { path } => StepView::Remove { path: path@ },
            Step::Report { line } => StepView::Report { line: line@ },
            Step::Attach { image, options } => StepView::Attach {
                image: image@,
                options: options@,
            },
        }
    }
}

/// The steps as values.
pub open spec fn steps_view(steps: Seq<Step>) -> Seq<StepView> {
    Seq::new(steps.len(), |i: int| steps[i]@)
}

/// The image that stands for a directory: its path with `.asif` behind it.
pub open spec fn image_path_of(directory: Seq<char>) -> Seq<char> {
    directory + ".asif"@
}

/// A blank image of the full size: nothing to copy, nothing to resize.
pub open spec fn blank_step(request: RequestView) -> StepView {
    StepView::CreateBlank {
        image: image_path_of(request.directory),
        options: CreateBlankOptionsView {
            size: request.max_size,
            fs: FileSystem::APFS,
            format: Format::ASIF,
            dry_run: request.dry_run,
            verbose: request.verbose,
        },
    }
}

pub open spec fn from_step(request: RequestView) -> StepView {
    StepView::CreateFrom {
        source: request.directory,
        image: image_path_of(request.directory),
        options: CreateFromOptions {
            format: Format::ASIF,
            dry_run: request.dry_run,
            verbose: request.verbose,
        },
    }
}

/// Compression of the directory itself, as the selector asks.
pub open spec fn directory_compression(request: RequestView) -> Seq<StepView> {
    if request.compress == "none"@ {
        seq![]
    } else {
        seq![
            StepView::Compress {
                root: request.directory,
                algorithm: selected_algorithm(request.compress),
                warning: selector_warning(request.compress),
            },
        ]
    }
}

pub open spec fn resize_step(request: RequestView) -> StepView {
    StepView::Resize {
        image: image_path_of(request.directory),
        options: ResizeOptionsView {
            size: request.max_size,
            dry_run: request.dry_run,
            verbose: request.verbose,
        },
    }
}

/// How the image comes to be: blank where there is no directory; else from
/// the directory, which is then compressed if asked, and after a pause the
/// image is resized.
pub open spec fn creation_steps(request: RequestView, directory_exists: bool) -> Seq<StepView> {
    if !directory_exists {
        seq![blank_step(request)]
    } else {
        seq![from_step(request)] + directory_compression(request) + seq![
            StepView::Pause { seconds: SETTLE_SECONDS },
            resize_step(request),
        ]
    }
}

/// The directory leaves once the image is there. A dry run only says so; a
/// real run has nothing to remove where there was no directory.
pub open spec fn removal_steps(request: RequestView, directory_exists: bool) -> Seq<StepView> {
    if request.dry_run {
        seq![StepView::Report { line: "[DRY RUN] removing "@ + request.directory }]
    } else if directory_exists {
        seq![StepView::Remove { path: request.directory }]
    } else {
        seq![]
    }
}

pub open spec fn attach_step(request: RequestView) -> StepView {
    StepView::Attach {
        image: image_path_of(request.directory),
        options: AttachOptionsView {
            mount_point: Some(request.directory),
            readonly: false,
            nobrowse: false,
            verbose: request.verbose,
            dry_run: request.dry_run,
        },
    }
}

/// The pass over the image that ends every procedure, whatever the selector.
pub open spec fn final_compression(request: RequestView) -> StepView {
    StepView::Compress {
        root: image_path_of(request.directory),
        algorithm: Algorithm::Lzfse,
        warning: None,
    }
}

/// The whole procedure.
pub open spec fn lifecycle_steps(
    request: RequestView,
    image_exists: bool,
    directory_exists: bool,
) -> Seq<StepView> {
    (if image_exists {
        seq![]
    } else {
        creation_steps(request, directory_exists) + removal_steps(request, directory_exists)
    }) + seq![attach_step(request), final_compression(request)]
}

/// Where in the procedure a failure happened.
#[derive(Debug, Clone, Copy, PartialEq, Eq, Structural)]
pub enum Stage {
    /// Creating or resizing the image.
    Create,
    /// Attaching it.
    Attach,
}

/// The line that tells the user of a failure.
pub open spec fn failure_text(stage: Stage, error: DiskImageErrorView) -> Seq<char> {
    match stage {
        Stage::Create => "error create image: "@ + error.text(),
        Stage::Attach => "Error attaching ASIF: "@ + error.text(),
    }
}

/// The status that the program ends with after a failure.
pub const FAILURE_STATUS: i32 = 1;

impl Request {
    pub fn new(
        directory: &str,
        max_size: &str,
        compress: &str,
        dry_run: bool,
        verbose: bool,
    ) -> (r: Self)
        ensures
            r@ == (RequestView {
                directory: directory@,
                max_size: max_size@,
                compress: compress@,
                dry_run,
                verbose,
            }),
    {
        Request {
            directory: String::from_str(directory),
            max_size: String::from_str(max_size),
            compress: String::from_str(compress),
            dry_run,
            verbose,
        }
    }

    /// The path of the image that stands for the directory.
    pub fn image_path(&self) -> (path: String)
        ensures
            path@ == image_path_of(self@.directory),
    {
        self.directory.clone().concat(".asif")
    }

    /// The steps to take, given what is on disk now: whether the image is
    /// there, and whether the directory is.
    pub fn steps(&self, image_exists: bool, directory_exists: bool) -> (steps: Vec<Step>)
        ensures
            steps_view(steps@) == lifecycle_steps(self@, image_exists, directory_exists),
            steps@.len() == lifecycle_steps(self@, image_exists, directory_exists).len(),
            forall|i: int|
                0 <= i < steps@.len() ==> (#[trigger] steps@[i])@ == lifecycle_steps(
                    self@,
                    image_exists,
                    directory_exists,
                )[i],
    {
        let mut steps: Vec<Step> = Vec::new();
        if !image_exists {
            if !directory_exists {
                let options = CreateBlankOptions::new(
                    self.max_size.as_str(),
                    FileSystem::APFS,
                    Format::ASIF,
                ).with_dry_run(self.dry_run).with_verbose(self.verbose);
                steps.push(Step::CreateBlank { image: self.image_path(), options });
            } else {
                let options = CreateFromOptions::new(Format::ASIF).with_dry_run(
                    self.dry_run,
                ).with_verbose(self.verbose);
                steps.push(
                    Step::CreateFrom {
                        source: self.directory.clone(),
                        image: self.image_path(),
                        options,
                    },
                );
                if !same_text(self.compress.as_str(), "none") {
                    steps.push(
                        Step::Compress {
                            root: self.directory.clone(),
                            algorithm: select_algorithm(self.compress.as_str()),
                            warning: warn_unknown_selector(self.compress.as_str()),
                        },
                    );
                }
                steps.push(Step::Pause { seconds: SETTLE_SECONDS });
                let options = ResizeOptions::new(self.max_size.as_str()).with_dry_run(
                    self.dry_run,
                ).with_verbose(self.verbose);
                steps.push(Step::Resize { image: self.image_path(), options });
            }
            if self.dry_run {
                let line = String::from_str("[DRY RUN] removing ").concat(self.directory.as_str());
                steps.push(Step::Report { line });
            } else if directory_exists {
                steps.push(Step::Remove { path: self.directory.clone() });
            }
        }
        let options = AttachOptions::new().with_dry_run(self.dry_run).with_verbose(
            self.verbose,
        ).with_mount_point(self.directory.as_str());
        steps.push(Step::Attach { image: self.image_path(), options });
        steps.push(
            Step::Compress { root: self.image_path(), algorithm: Algorithm::Lzfse, warning: None },
        );
        proof {
            assert(steps_view(steps@) =~= lifecycle_steps(self@, image_exists, directory_exists));
        }
        steps
    }
}

impl Step {
    /// The stage whose failure this step can cause, if it can fail at all.
    pub open spec fn stage_of(step: StepView) -> Option<Stage> {
        match step {
            StepView::CreateBlank { .. } => Some(Stage::Create),
            StepView::CreateFrom { .. } => Some(Stage::Create),
            StepView::Resize { .. } => Some(Stage::Create),
            StepView::Attach { .. } => Some(Stage::Attach),
            _ => None,
        }
    }

    pub fn stage(&self) -> (stage: Option<Stage>)
        ensures
            stage == Step::stage_of(self@),
    {
        match self {
            Step::CreateBlank { .. } => Some(Stage::Create),
            Step::CreateFrom { .. } => Some(Stage::Create),
            Step::Resize { .. } => Some(Stage::Create),
            Step::Attach { .. } => Some(Stage::Attach),
            _ => None,
        }
    }
}

/// The line that tells the user of a failure at `stage`.
pub fn failure_report(stage: Stage, error: &DiskImageError) -> (line: String)
    ensures
        line@ == failure_text(stage, error@),
{
    match stage {
        Stage::Create => String::from_str("error create image: ").concat(
            error.to_string().as_str(),
        ),
        Stage::Attach => String::from_str("Error attaching ASIF: ").concat(
            error.to_string().as_str(),
        ),
    }
}

/// What follows a step that could fail.
#[derive(Debug)]
pub enum Verdict {
    /// Go on with the next step.
    Continue,
    /// Stop: print the line to standard error and end with the status.
    /// Nothing is undone and nothing is tried again.
    Abort { line: String, status: i32 },
}

pub enum VerdictView {
    Continue,
    Abort { line: Seq<char>, status: i32 },
}

impl View for Verdict {
    type V = VerdictView;

    open spec fn view(&self) -> VerdictView {
        match self {
            Verdict::Continue => VerdictView::Continue,
            Verdict::Abort { line, status } => VerdictView::Abort { line: line@, status: *status },
        }
    }
}

/// The first failure ends the procedure; a success of any kind lets it go on.
pub open spec fn verdict_of(stage: Stage, result: Result<String, DiskImageError>) -> VerdictView {
    match result {
        Ok(_) => VerdictView::Continue,
        Err(error) => VerdictView::Abort {
            line: failure_text(stage, error@),
            status: FAILURE_STATUS,
        },
    }
}

/// Decides what follows the step at `stage` that ended with `result`.
pub fn judge(stage: Stage, result: &Result<String, DiskImageError>) -> (verdict: Verdict)
    ensures
        verdict@ == verdict_of(stage, *result),
{
    match result {
        Ok(_) => Verdict::Continue,
        Err(error) => Verdict::Abort { line: failure_report(stage, error), status: FAILURE_STATUS },
    }
}

/// An image that is there already is only attached and compressed: nothing
/// is created, resized or removed.
pub proof fn lemma_existing_image_is_only_attached(request: RequestView, directory_exists: bool)
    ensures
        lifecycle_steps(request, true, directory_exists) == seq![
            attach_step(request),
            final_compression(request),
        ],
{
    assert(lifecycle_steps(request, true, directory_exists) =~= seq![
        attach_step(request),
        final_compression(request),
    ]);
}

/// Every procedure ends by attaching the image at the directory's path and
/// then compressing the image, whatever was on disk and whatever was asked.
pub proof fn lemma_procedure_ends_with_attach(
    request: RequestView,
    image_exists: bool,
    directory_exists: bool,
)
    ensures
        ({
            let steps = lifecycle_steps(request, image_exists, directory_exists);
            &&& steps.len() >= 2
            &&& steps[steps.len() - 2] == attach_step(request)
            &&& steps.last() == final_compression(request)
            &&& forall|i: int| 0 <= i < steps.len() - 2 ==> !(#[trigger] steps[i] is Attach)
        }),
{
}

/// A blank image is made at its full size: no step resizes it, compresses a
/// directory or waits.
pub proof fn lemma_blank_image_is_not_resized(request: RequestView)
    ensures
        ({
            let steps = lifecycle_steps(request, false, false);
            &&& steps[0] == blank_step(request)
            &&& forall|i: int|
                0 <= i < steps.len() - 2 ==> !(#[trigger] steps[i] is Resize) && !(steps[i] is Pause)
                    && !(steps[i] is Compress) && !(steps[i] is Remove)
        }),
{
}

/// An image made from a directory is created, then the directory is
/// compressed if a selector other than `none` was given, then after the pause
/// the image is resized, and only then the directory leaves.
pub proof fn lemma_image_from_directory(request: RequestView)
    ensures
        ({
            let steps = lifecycle_steps(request, false, true);
            let k: int = if request.compress == "none"@ { 0 } else { 1 };
            &&& steps.len() == 6 + k
            &&& steps[0] == from_step(request)
            &&& k == 1 ==> steps[1] == (StepView::Compress {
                root: request.directory,
                algorithm: selected_algorithm(request.compress),
                warning: selector_warning(request.compress),
            })
            &&& steps[1 + k] == (StepView::Pause { seconds: 3 })
            &&& steps[2 + k] == resize_step(request)
            &&& request.dry_run ==> steps[3 + k] is Report
            &&& !request.dry_run ==> steps[3 + k] == (StepView::Remove { path: request.directory })
        }),
{
}

/// A dry run removes nothing.
pub proof fn lemma_dry_run_removes_nothing(
    request: RequestView,
    image_exists: bool,
    directory_exists: bool,
)
    requires
        request.dry_run,
    ensures
        forall|i: int|
            0 <= i < lifecycle_steps(request, image_exists, directory_exists).len() ==> !(
            #[trigger] lifecycle_steps(request, image_exists, directory_exists)[i] is Remove),
{
}

} // verus!
