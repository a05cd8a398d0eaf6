//! Where the specification files of a package live, as its manifest tells.

use std::collections::HashMap;
use std::path::PathBuf;

use vstd::prelude::*;

verus! {

/// `void::Void`, the type without values.
#[verifier::external_type_specification]
#[verifier::external_body]
pub struct ExVoid(void::Void);

/// `cargo_toml::Error`, the failure to read or parse a manifest.
#[verifier::external_type_specification]
#[verifier::external_body]
pub struct ExLoadFailure(cargo_toml::Error);

/// `std::path::PathBuf`, an owned path.
#[verifier::external_type_specification]
#[verifier::external_body]
pub struct ExPathBuf(std::path::PathBuf);

/// The name of the manifest file inside a package's directory.
pub const MANIFEST_FILE: &'static str = "Cargo.toml";

/// The environment variable that names the directory of the package that is
/// being built.
pub const MANIFEST_DIR_VAR: &'static str = "CARGO_MANIFEST_DIR";

/// Shows a path as `std::path::Path::display` does. Nothing is claimed of
/// the text.
#[verifier::external_body]
fn display_path(path: &PathBuf) -> (text: String) {
    format!("{}", path.display())
}

/// Shows a load failure as the `Display` of `cargo_toml::Error` does.
/// Nothing is claimed of the text.
#[verifier::external_body]
fn display_cause(cause: &cargo_toml::Error) -> (text: String) {
    format!("{}", cause)
}

/// Ends a branch that holds a value of the empty type, by
/// `void::unreachable`. No such value exists, so the call is never made and
/// nothing is claimed of it.
#[verifier::external_body]
fn absurd(never: &void::Void) -> (text: String) {
    void::unreachable(*never)
}

/// The message for a manifest that could not be loaded, from the path and
/// the cause as they are shown.
pub open spec fn load_message(path: Seq<char>, cause: Seq<char>) -> Seq<char> {
    "faild to load Cargo manifest from "@ + path + ": "@ + cause
}

/// Reserved for shapes of specification paths to come.
///
/// No value of it can be made; match on it with `_`.
pub struct OtherPaths {
    pub _private: void::Void,
}

/// Paths to specification files.
pub enum SpecificationPaths {
    /// One specification for the whole package.
    Single(PathBuf),
    /// One specification for each binary, by the binary's name.
    PerBinary(HashMap<String, PathBuf>),
    Other(OtherPaths),
}

/// The part of a package's metadata that names its specification files.
pub struct ConfigureMeMetadata {
    /// Path to the specification, relative to the manifest's directory.
    pub spec_paths: SpecificationPaths,
}

/// The metadata section of a package.
pub struct Metadata {
    pub configure_me: Option<ConfigureMeMetadata>,
}

/// The package section of a manifest, as far as it is read here.
pub struct Package {
    pub metadata: Option<Metadata>,
}

/// A package manifest, as far as it is read here.
pub struct Manifest {
    pub package: Option<Package>,
}

/// A manifest that could not be loaded.
#[derive(Debug)]
pub struct LoadError {
    /// The reason why it failed.
    pub error: cargo_toml::Error,
    path: PathBuf,
}

impl LoadError {
    /// The reason why it failed, in contracts.
    pub closed spec fn cause(&self) -> cargo_toml::Error {
        self.error
    }

    /// The path that was tried, in contracts.
    pub closed spec fn tried(&self) -> PathBuf {
        self.path
    }

    /// The failure `error` to load the manifest at `path`.
    pub fn new(error: cargo_toml::Error, path: PathBuf) -> (failure: LoadError)
        ensures
            failure.cause() == error,
            failure.tried() == path,
    {
        LoadError { error, path }
    }

    /// Path to the file that was attempted to be opened.
    pub fn path(&self) -> (path: &PathBuf)
        ensures
            *path == self.tried(),
    {
        &self.path
    }

    /// The message for a failure to load the manifest at a path shown as
    /// `path`, for a reason shown as `cause`.
    pub fn message_for(path: &str, cause: &str) -> (text: String)
        ensures
            text@ == load_message(path@, cause@),
    {
        let mut text = String::from_str("faild to load Cargo manifest from ");
        text.append(path);
        text.append(": ");
        text.append(cause);
        text
    }

    /// The message for this failure: [`load_message`] of the path and the
    /// cause as they show themselves.
    pub fn message(&self) -> (text: String)
        ensures
            exists|path: Seq<char>, cause: Seq<char>| text@ == load_message(path, cause),
    {
        let path = display_path(&self.path);
        let cause = display_cause(&self.error);
        LoadError::message_for(path.as_str(), cause.as_str())
    }
}

/// Reserved for errors to come.
///
/// No value of it can be made; match on it with `_`.
#[derive(Debug)]
pub struct OtherError {
    pub _private: void::Void,
}

/// Why no specification path could be had from a manifest.
#[derive(Debug)]
pub enum ManifestError {
    Load(LoadError),
    MissingPackage,
    MissingMetadata,
    MissingConfigureMeMetadata,
    MissingManifestDirEnvVar,
    Other(OtherError),
}

impl From<LoadError> for ManifestError {
    fn from(value: LoadError) -> (error: ManifestError) {
        ManifestError::Load(value)
    }
}

impl vstd::std_specs::convert::FromSpecImpl<LoadError> for ManifestError {
    open spec fn obeys_from_spec() -> bool {
        true
    }

    open spec fn from_spec(value: LoadError) -> ManifestError {
        ManifestError::Load(value)
    }
}

impl ManifestError {
    /// The message of an error that needs no more than its kind to be told.
    pub open spec fn fixed_message(self) -> Option<Seq<char>> {
        match self {
            ManifestError::MissingPackage => Some("The manifest is missing package section"@),
            ManifestError::MissingMetadata => Some("The manifest is missing metadata section"@),
            ManifestError::MissingConfigureMeMetadata => Some(
                "The manifest is missing metadata.configure_me section"@,
            ),
            ManifestError::MissingManifestDirEnvVar => Some(
                "missing environment variable: CARGO_MANIFEST_DIR"@,
            ),
            ManifestError::Load(_) => None,
            ManifestError::Other(_) => None,
        }
    }

    /// The message for this error.
    pub fn message(&self) -> (text: String)
        ensures
            self.fixed_message() matches Some(fixed) ==> text@ == fixed,
            self is Load ==> exists|path: Seq<char>, cause: Seq<char>|
                text@ == load_message(path, cause),
    {
        match self {
            ManifestError::Load(failure) => failure.message(),
            ManifestError::MissingPackage => String::from_str(
                "The manifest is missing package section",
            ),
            ManifestError::MissingMetadata => String::from_str(
                "The manifest is missing metadata section",
            ),
            ManifestError::MissingConfigureMeMetadata => String::from_str(
                "The manifest is missing metadata.configure_me section",
            ),
            ManifestError::MissingManifestDirEnvVar => String::from_str(
                "missing environment variable: CARGO_MANIFEST_DIR",
            ),
            ManifestError::Other(other) => absurd(&other._private),
        }
    }
}

/// Stands for the manifest in the current directory.
pub struct CurrentDir;

impl Manifest {
    /// The specification paths that the manifest names, or the first level
    /// at which it names none.
    pub open spec fn located(self) -> Result<SpecificationPaths, ManifestError> {
        match self.package {
            None => Err(ManifestError::MissingPackage),
            Some(package) => match package.metadata {
                None => Err(ManifestError::MissingMetadata),
                Some(metadata) => match metadata.configure_me {
                    None => Err(ManifestError::MissingConfigureMeMetadata),
                    Some(configure_me) => Ok(configure_me.spec_paths),
                },
            },
        }
    }

    /// The specification paths that the manifest names.
    pub fn spec_paths(&self) -> (res: Result<&SpecificationPaths, ManifestError>)
        ensures
            match res {
                Ok(paths) => self.located() == Ok::<SpecificationPaths, ManifestError>(*paths),
                Err(error) => self.located() == Err::<SpecificationPaths, ManifestError>(error),
            },
    {
        match &self.package {
            None => Err(ManifestError::MissingPackage),
            Some(package) => match &package.metadata {
                None => Err(ManifestError::MissingMetadata),
                Some(metadata) => match &metadata.configure_me {
                    None => Err(ManifestError::MissingConfigureMeMetadata),
                    Some(configure_me) => Ok(&configure_me.spec_paths),
                },
            },
        }
    }
}

/// The directory of the package that is being built, from the value of the
/// environment variable that names it.
pub fn get_dir(manifest_dir: Option<PathBuf>) -> (res: Result<PathBuf, ManifestError>)
    ensures
        match manifest_dir {
            Some(dir) => res == Ok::<PathBuf, ManifestError>(dir),
            None => res == Err::<PathBuf, ManifestError>(ManifestError::MissingManifestDirEnvVar),
        },
{
    match manifest_dir {
        Some(dir) => Ok(dir),
        None => Err(ManifestError::MissingManifestDirEnvVar),
    }
}

} // verus!
