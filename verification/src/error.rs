//! The failures that end a generation run.

use crate::engine::RenderError;
use crate::text::followed_by;
use vstd::prelude::*;

verus! {

/// Why a run failed. Every failure ends the run at once; what the run had
/// written before stays where it is.
#[derive(Debug)]
pub enum GenerateError {
    /// The project name is empty.
    EmptyProjectName,
    /// The project root exists already.
    TargetExists { path: String },
    /// The template store could not be read.
    TemplateStoreUnavailable { detail: String },
    /// The template store is absent or holds no template.
    NoTemplatesFound,
    /// A template that applies would be written outside the project root.
    UnsafeTemplatePath { template: String },
    /// A template could not be rendered.
    Render { kind: RenderError, template: String, detail: String },
    /// A directory or file could not be written.
    WriteError { path: String, detail: String },
    /// The dependency installer could not be run, or reported a failure.
    InstallFailed { command: String, detail: String },
    /// The run was handed a reply that it was not waiting for.
    UnexpectedEvent,
}

/// The mathematical content of a [`GenerateError`].
pub enum GenerateErrorView {
    EmptyProjectName,
    TargetExists { path: Seq<char> },
    TemplateStoreUnavailable { detail: Seq<char> },
    NoTemplatesFound,
    UnsafeTemplatePath { template: Seq<char> },
    Render { kind: RenderError, template: Seq<char>, detail: Seq<char> },
    WriteError { path: Seq<char>, detail: Seq<char> },
    InstallFailed { command: Seq<char>, detail: Seq<char> },
    UnexpectedEvent,
}

impl View for GenerateError {
    type V = GenerateErrorView;

    open spec fn view(&self) -> GenerateErrorView {
        match self {
            GenerateError::EmptyProjectName => GenerateErrorView::EmptyProjectName,
            GenerateError::TargetExists { path } => GenerateErrorView::TargetExists { path: path@ },
            GenerateError::TemplateStoreUnavailable { detail } => {
                GenerateErrorView::TemplateStoreUnavailable { detail: detail@ }
            },
            GenerateError::NoTemplatesFound => GenerateErrorView::NoTemplatesFound,
            GenerateError::UnsafeTemplatePath { template } => {
                GenerateErrorView::UnsafeTemplatePath { template: template@ }
            },
            GenerateError::Render { kind, template, detail } => GenerateErrorView::Render {
                kind: *kind,
                template: template@,
                detail: detail@,
            },
            GenerateError::WriteError { path, detail } => GenerateErrorView::WriteError {
                path: path@,
                detail: detail@,
            },
            GenerateError::InstallFailed { command, detail } => GenerateErrorView::InstallFailed {
                command: command@,
                detail: detail@,
            },
            GenerateError::UnexpectedEvent => GenerateErrorView::UnexpectedEvent,
        }
    }
}

/// The content of an optional failure.
pub open spec fn failure_view(failure: Option<GenerateError>) -> Option<GenerateErrorView> {
    match failure {
        Some(error) => Some(error@),
        None => None,
    }
}

/// The text that tells a person what went wrong.
pub open spec fn spec_message(error: GenerateErrorView) -> Seq<char> {
    match error {
        GenerateErrorView::EmptyProjectName => "Project name must not be empty."@,
        GenerateErrorView::TargetExists { path } => "Directory '"@ + path + "' already exists."@,
        GenerateErrorView::TemplateStoreUnavailable { detail } => {
            "Failed to read the template store: "@ + detail
        },
        GenerateErrorView::NoTemplatesFound => "No templates found."@,
        GenerateErrorView::UnsafeTemplatePath { template } => {
            "Template '"@ + template + "' would be written outside the project directory."@
        },
        GenerateErrorView::Render { kind, template, detail } => {
            match kind {
                RenderError::MissingVariable => {
                    "Failed to render template: "@ + template + ": missing variable: "@ + detail
                },
                RenderError::MalformedTemplate => {
                    "Failed to render template: "@ + template + ": malformed template: "@ + detail
                },
            }
        },
        GenerateErrorView::WriteError { path, detail } => {
            "Failed to write file: "@ + path + ": "@ + detail
        },
        GenerateErrorView::InstallFailed { command, detail } => "`"@ + command + "` failed."@,
        GenerateErrorView::UnexpectedEvent => "The run was handed a reply it was not waiting for."@,
    }
}

impl GenerateError {
    /// The text that tells a person what went wrong.
    pub fn message(&self) -> (text: String)
        ensures
            text@ == spec_message(self@),
    {
        match self {
            GenerateError::EmptyProjectName => "Project name must not be empty.".to_owned(),
            GenerateError::TargetExists { path } => {
                let mut text = followed_by("Directory '", path.as_str());
                text.append("' already exists.");
                text
            },
            GenerateError::TemplateStoreUnavailable { detail } => {
                followed_by("Failed to read the template store: ", detail.as_str())
            },
            GenerateError::NoTemplatesFound => "No templates found.".to_owned(),
            GenerateError::UnsafeTemplatePath { template } => {
                let mut text = followed_by("Template '", template.as_str());
                text.append("' would be written outside the project directory.");
                text
            },
            GenerateError::Render { kind, template, detail } => {
                let mut text = followed_by("Failed to render template: ", template.as_str());
                match kind {
                    RenderError::MissingVariable => {
                        text.append(": missing variable: ");
                    },
                    RenderError::MalformedTemplate => {
                        text.append(": malformed template: ");
                    },
                }
                text.append(detail.as_str());
                text
            },
            GenerateError::WriteError { path, detail } => {
                let mut text = followed_by("Failed to write file: ", path.as_str());
                text.append(": ");
                text.append(detail.as_str());
                text
            },
            GenerateError::InstallFailed { command, detail } => {
                let mut text = followed_by("`", command.as_str());
                text.append("` failed.");
                text
            },
            GenerateError::UnexpectedEvent => {
                "The run was handed a reply it was not waiting for.".to_owned()
            },
        }
    }
}

} // verus!
