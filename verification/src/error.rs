//! The failures of manifest resolution.

use vstd::prelude::*;

verus! {

/// Why the packaging configuration of a manifest could not be resolved.
///
/// A field of the manifest is named by its dotted path, a field of an asset
/// by the asset's position in `assets` (counted from zero) and its key.
#[derive(Debug, Clone)]
pub enum ConfigError {
    /// A required field is absent.
    Missing(&'static str),
    /// A field is present, but its value is not of the named type.
    WrongType(&'static str, &'static str),
    /// A required field of an asset is absent.
    AssetFileUndefined(usize, &'static str),
    /// A field of an asset is present, but its value is not of the named type.
    AssetFileWrongType(usize, &'static str, &'static str),
    /// No place of the search path holds the asset's source.
    AssetFileNotFound(String),
    /// Kept for assets given by a glob pattern; resolution never returns it.
    AssetGlobInvalid(usize, &'static str),
    /// Kept for assets that cannot be read; resolution never returns it.
    AssetReadFailed(&'static str),
}

/// A [`ConfigError`] with its texts as sequences of characters.
pub ghost enum ConfigErrorView {
    Missing(Seq<char>),
    WrongType(Seq<char>, Seq<char>),
    AssetFileUndefined(usize, Seq<char>),
    AssetFileWrongType(usize, Seq<char>, Seq<char>),
    AssetFileNotFound(Seq<char>),
    AssetGlobInvalid(usize, Seq<char>),
    AssetReadFailed(Seq<char>),
}

impl View for ConfigError {
    type V = ConfigErrorView;

    open spec fn view(&self) -> ConfigErrorView {
        match *self {
            ConfigError::Missing(field) => ConfigErrorView::Missing(field@),
            ConfigError::WrongType(field, expected) => ConfigErrorView::WrongType(
                field@,
                expected@,
            ),
            ConfigError::AssetFileUndefined(idx, field) => ConfigErrorView::AssetFileUndefined(
                idx,
                field@,
            ),
            ConfigError::AssetFileWrongType(idx, field, expected) =>
                ConfigErrorView::AssetFileWrongType(idx, field@, expected@),
            ConfigError::AssetFileNotFound(source) => ConfigErrorView::AssetFileNotFound(source@),
            ConfigError::AssetGlobInvalid(idx, reason) => ConfigErrorView::AssetGlobInvalid(
                idx,
                reason@,
            ),
            ConfigError::AssetReadFailed(reason) => ConfigErrorView::AssetReadFailed(reason@),
        }
    }
}

/// The result of a resolution step, with its value and its error as models.
pub open spec fn outcome<T: DeepView>(result: Result<T, ConfigError>) -> Result<
    T::V,
    ConfigErrorView,
> {
    match result {
        Ok(value) => Ok(value.deep_view()),
        Err(error) => Err(error@),
    }
}

/// `cargo_toml::Error`: why a manifest could not be read.  Nothing is said of
/// what such a value holds; it is carried to the caller as it is.
#[verifier::external_type_specification]
#[verifier::external_body]
pub struct ExManifestError(cargo_toml::Error);

/// Why no package description could be made from a manifest.
#[derive(Debug)]
pub enum GenerateError {
    /// The manifest is not a well-formed Cargo manifest.
    CargoToml(cargo_toml::Error),
    /// The manifest's packaging configuration is incomplete or ill-typed.
    Config(ConfigError),
}

impl From<ConfigError> for GenerateError {
    fn from(error: ConfigError) -> (wrapped: GenerateError)
    {
        GenerateError::Config(error)
    }
}

impl vstd::std_specs::convert::FromSpecImpl<ConfigError> for GenerateError {
    open spec fn obeys_from_spec() -> bool {
        true
    }

    open spec fn from_spec(error: ConfigError) -> GenerateError {
        GenerateError::Config(error)
    }
}

impl From<cargo_toml::Error> for GenerateError {
    fn from(error: cargo_toml::Error) -> (wrapped: GenerateError)
    {
        GenerateError::CargoToml(error)
    }
}

impl vstd::std_specs::convert::FromSpecImpl<cargo_toml::Error> for GenerateError {
    open spec fn obeys_from_spec() -> bool {
        true
    }

    open spec fn from_spec(error: cargo_toml::Error) -> GenerateError {
        GenerateError::CargoToml(error)
    }
}

} // verus!
