//! What a generation run is asked to do: the target, the package manager and
//! the project variant.

use crate::text::{followed_by, same_text};
use vstd::prelude::*;

verus! {

/// The package managers that can install a generated project's dependencies.
#[derive(Debug, Clone, Copy, PartialEq, Eq, Structural)]
pub enum PackageManager {
    Npm,
    Yarn,
    Pnpm,
}

/// The project variants that can be generated.
#[derive(Debug, Clone, Copy, PartialEq, Eq, Structural)]
pub enum TemplateType {
    VanillaTs,
    ReactTsx,
}

/// Everything a generation run needs to know.
///
/// `project_name` names the target directory and may be a path of several
/// segments; the name that templates see is its final segment.
#[derive(Debug)]
pub struct ProjectOptions {
    pub project_name: String,
    pub package_manager: PackageManager,
    pub template_type: TemplateType,
}

/// The mathematical content of a [`ProjectOptions`].
pub struct ProjectOptionsView {
    pub project_name: Seq<char>,
    pub package_manager: PackageManager,
    pub template_type: TemplateType,
}

impl View for ProjectOptions {
    type V = ProjectOptionsView;

    open spec fn view(&self) -> ProjectOptionsView {
        ProjectOptionsView {
            project_name: self.project_name@,
            package_manager: self.package_manager,
            template_type: self.template_type,
        }
    }
}

/// A field of the options as they arrive from a host runtime.
#[derive(Debug, Clone, Copy, PartialEq, Eq, Structural)]
pub enum OptionField {
    ProjectName,
    PackageManager,
    TemplateType,
}

/// Why raw option values could not be turned into [`ProjectOptions`].
#[derive(Debug, Clone, Copy, PartialEq, Eq, Structural)]
pub enum OptionConversionError {
    /// A required field was absent.
    Missing(OptionField),
    /// A field held a value outside its enumeration.
    Invalid(OptionField),
}

impl OptionField {
    /// The name of the field, as a host runtime writes it.
    pub open spec fn spec_name(self) -> Seq<char> {
        match self {
            OptionField::ProjectName => "project_name"@,
            OptionField::PackageManager => "package_manager"@,
            OptionField::TemplateType => "template_type"@,
        }
    }

    /// The name of the field, as a host runtime writes it.
    pub fn name(&self) -> (name: &'static str)
        ensures
            name@ == self.spec_name(),
    {
        match self {
            OptionField::ProjectName => "project_name",
            OptionField::PackageManager => "package_manager",
            OptionField::TemplateType => "template_type",
        }
    }
}

impl OptionConversionError {
    /// What is said of the error: which field it is about, and whether the
    /// field was absent or held a value outside its enumeration.
    pub open spec fn spec_message(self) -> Seq<char> {
        match self {
            OptionConversionError::Missing(field) => "missing field `"@ + field.spec_name() + "`"@,
            OptionConversionError::Invalid(field) => "unknown value for field `"@
                + field.spec_name() + "`"@,
        }
    }

    /// What is said of the error.
    pub fn message(&self) -> (text: String)
        ensures
            text@ == self.spec_message(),
    {
        let mut text = match self {
            OptionConversionError::Missing(field) => followed_by("missing field `", field.name()),
            OptionConversionError::Invalid(field) => followed_by(
                "unknown value for field `",
                field.name(),
            ),
        };
        text.append("`");
        text
    }
}

impl PackageManager {
    /// The name of the tool, which is also the command that runs it.
    pub open spec fn spec_command_name(self) -> Seq<char> {
        match self {
            PackageManager::Npm => "npm"@,
            PackageManager::Yarn => "yarn"@,
            PackageManager::Pnpm => "pnpm"@,
        }
    }

    /// The package manager that `text` names, if it names one.
    pub open spec fn spec_parse(text: Seq<char>) -> Option<PackageManager> {
        if text == "npm"@ {
            Some(PackageManager::Npm)
        } else if text == "yarn"@ {
            Some(PackageManager::Yarn)
        } else if text == "pnpm"@ {
            Some(PackageManager::Pnpm)
        } else {
            None
        }
    }

    /// The name of the tool, which is also the command that runs it.
    pub fn command_name(&self) -> (name: &'static str)
        ensures
            name@ == self.spec_command_name(),
    {
        match self {
            PackageManager::Npm => "npm",
            PackageManager::Yarn => "yarn",
            PackageManager::Pnpm => "pnpm",
        }
    }

    /// Reads a package manager from its lower-case name.
    pub fn parse(text: &str) -> (parsed: Option<PackageManager>)
        ensures
            parsed == Self::spec_parse(text@),
    {
        if same_text(text, "npm") {
            Some(PackageManager::Npm)
        } else if same_text(text, "yarn") {
            Some(PackageManager::Yarn)
        } else if same_text(text, "pnpm") {
            Some(PackageManager::Pnpm)
        } else {
            None
        }
    }

    /// Every package manager is read back from its own name.
    pub proof fn law_parse_inverts_command_name(self)
        ensures
            Self::spec_parse(self.spec_command_name()) == Some(self),
    {
        reveal_strlit("npm");
        reveal_strlit("yarn");
        reveal_strlit("pnpm");
        assert("npm"@.len() == 3 && "yarn"@.len() == 4);
        assert("yarn"@[0] == 'y' && "pnpm"@[0] == 'p');
    }
}

impl TemplateType {
    /// The identifier of the variant: the name of its template namespace.
    pub open spec fn spec_path_str(self) -> Seq<char> {
        match self {
            TemplateType::VanillaTs => "vanilla-ts"@,
            TemplateType::ReactTsx => "react-tsx"@,
        }
    }

    /// The text that presents the variant to a person choosing one.
    pub open spec fn spec_label(self) -> Seq<char> {
        match self {
            TemplateType::VanillaTs => "Vanilla (プレーンなTypeScript)"@,
            TemplateType::ReactTsx => "React (TSX)"@,
        }
    }

    /// The variant that `text` identifies, if it identifies one.
    pub open spec fn spec_parse(text: Seq<char>) -> Option<TemplateType> {
        if text == "vanilla-ts"@ {
            Some(TemplateType::VanillaTs)
        } else if text == "react-tsx"@ {
            Some(TemplateType::ReactTsx)
        } else {
            None
        }
    }

    /// The identifier of the variant: the name of its template namespace.
    pub fn path_str(&self) -> (name: &'static str)
        ensures
            name@ == self.spec_path_str(),
    {
        match self {
            TemplateType::VanillaTs => "vanilla-ts",
            TemplateType::ReactTsx => "react-tsx",
        }
    }

    /// The text that presents the variant to a person choosing one.
    pub fn label(&self) -> (text: &'static str)
        ensures
            text@ == self.spec_label(),
    {
        match self {
            TemplateType::VanillaTs => "Vanilla (プレーンなTypeScript)",
            TemplateType::ReactTsx => "React (TSX)",
        }
    }

    /// Reads a variant from its kebab-case identifier.
    pub fn parse(text: &str) -> (parsed: Option<TemplateType>)
        ensures
            parsed == Self::spec_parse(text@),
    {
        if same_text(text, "vanilla-ts") {
            Some(TemplateType::VanillaTs)
        } else if same_text(text, "react-tsx") {
            Some(TemplateType::ReactTsx)
        } else {
            None
        }
    }

    /// Every variant is read back from its own identifier.
    pub proof fn law_parse_inverts_path_str(self)
        ensures
            Self::spec_parse(self.spec_path_str()) == Some(self),
    {
        reveal_strlit("vanilla-ts");
        reveal_strlit("react-tsx");
        assert("vanilla-ts"@.len() == 10 && "react-tsx"@.len() == 9);
    }
}

/// What converting raw option values gives: the error for the first field, in
/// the order name, package manager, variant, that is absent or not in its
/// enumeration, and the options where there is none.
pub open spec fn spec_from_raw(
    project_name: Option<Seq<char>>,
    package_manager: Option<Seq<char>>,
    template_type: Option<Seq<char>>,
) -> Result<ProjectOptionsView, OptionConversionError> {
    if project_name is None {
        Err(OptionConversionError::Missing(OptionField::ProjectName))
    } else if package_manager is None {
        Err(OptionConversionError::Missing(OptionField::PackageManager))
    } else if PackageManager::spec_parse(package_manager->0) is None {
        Err(OptionConversionError::Invalid(OptionField::PackageManager))
    } else if template_type is None {
        Err(OptionConversionError::Missing(OptionField::TemplateType))
    } else if TemplateType::spec_parse(template_type->0) is None {
        Err(OptionConversionError::Invalid(OptionField::TemplateType))
    } else {
        Ok(
            ProjectOptionsView {
                project_name: project_name->0,
                package_manager: PackageManager::spec_parse(package_manager->0)->0,
                template_type: TemplateType::spec_parse(template_type->0)->0,
            },
        )
    }
}

/// The text of an optional string.
pub open spec fn raw_view(field: Option<String>) -> Option<Seq<char>> {
    match field {
        Some(text) => Some(text@),
        None => None,
    }
}

/// The mathematical content of a conversion's result.
pub open spec fn converted_view(
    converted: Result<ProjectOptions, OptionConversionError>,
) -> Result<ProjectOptionsView, OptionConversionError> {
    match converted {
        Ok(options) => Ok(options@),
        Err(error) => Err(error),
    }
}

impl ProjectOptions {
    /// Builds options from the loosely typed values that a host runtime hands
    /// over: each field may be absent, and the two choices arrive as text.
    pub fn from_raw(
        project_name: Option<String>,
        package_manager: Option<String>,
        template_type: Option<String>,
    ) -> (converted: Result<ProjectOptions, OptionConversionError>)
        ensures
            converted_view(converted) == spec_from_raw(
                raw_view(project_name),
                raw_view(package_manager),
                raw_view(template_type),
            ),
    {
        let name = match project_name {
            Some(name) => name,
            None => {
                return Err(OptionConversionError::Missing(OptionField::ProjectName));
            },
        };
        let manager_text = match package_manager {
            Some(text) => text,
            None => {
                return Err(OptionConversionError::Missing(OptionField::PackageManager));
            },
        };
        let manager = match PackageManager::parse(manager_text.as_str()) {
            Some(manager) => manager,
            None => {
                return Err(OptionConversionError::Invalid(OptionField::PackageManager));
            },
        };
        let variant_text = match template_type {
            Some(text) => text,
            None => {
                return Err(OptionConversionError::Missing(OptionField::TemplateType));
            },
        };
        let variant = match TemplateType::parse(variant_text.as_str()) {
            Some(variant) => variant,
            None => {
                return Err(OptionConversionError::Invalid(OptionField::TemplateType));
            },
        };
        Ok(ProjectOptions { project_name: name, package_manager: manager, template_type: variant })
    }
}

} // verus!
