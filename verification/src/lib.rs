//! Lifecycle of sparse disk images that hold large, disposable directories.
//!
//! The library decides; the program around it acts. Every operation on an
//! image is computed here as a plan: the directory to create, the line to
//! print, and either a finished result or the `diskutil` invocation to run.
//! What came back from running it is then turned into the operation's result.
pub mod command;
pub mod error;
pub mod lifecycle;
pub mod options;
pub mod size;
pub mod system;
pub mod text;

pub use command::{
    attach, create_blank, create_from, detach, resize, DiskImage, Invocation, InvocationView, Next,
    NextView, Outcome, Plan, PlanView,
};
pub use error::{DiskImageError, DiskImageErrorView};
pub use lifecycle::{
    failure_report, judge, select_algorithm, warn_unknown_selector, Algorithm, Request,
    RequestView, Stage, Step, StepView, Verdict, VerdictView, FAILURE_STATUS, SETTLE_SECONDS,
};
pub use options::{
    AttachOptions, AttachOptionsView, CreateBlankOptions, CreateBlankOptionsView,
    CreateFromOptions, FileSystem, Format, ResizeOptions, ResizeOptionsView,
};
pub use system::system_supported;
