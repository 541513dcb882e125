//! A project scaffolder: from a target name, a package manager and a project
//! variant it works out the source tree of a new project.
//!
//! The library holds the decisions of a generation run and none of its
//! effects. [`resolver`] says which templates of a store apply to a variant
//! and where the output of each one goes; [`template`] says which texts are
//! templates and what a template becomes once its variables are replaced;
//! [`engine`] renders a template with the variables of a run;
//! [`materializer`] is the state machine that takes a
//! run from an untouched target to a finished project, asking its
//! environment for each thing that has to happen on disk or in another
//! process; [`laws`] states what holds of every run.

pub mod engine;
pub mod error;
pub mod laws;
pub mod materializer;
pub mod options;
pub mod paths;
pub mod protocol;
pub mod resolver;
pub mod template;
pub mod text;

pub use engine::{RenderContext, RenderError};
pub use error::GenerateError;
pub use materializer::{Materializer, Phase, Stage};
pub use options::{OptionConversionError, OptionField, PackageManager, ProjectOptions, TemplateType};
pub use protocol::{Action, Command, Environment, Event, Notice, Step, VcsStep, VcsWarning};
pub use resolver::{OutputMapping, Resolution, TemplateResource};
