//! A parsed manifest and the packaging configuration found in it.

use crate::asset::{assets_of, resolve_assets, FileInfo, FileInfoView};
use crate::descriptor::{
    describe_package, descriptor_of, PackageDescriptor, PackageDescriptorView,
};
use crate::error::{outcome, ConfigError, ConfigErrorView, GenerateError};
use crate::tree::{entries_of, node_of, table_get, value_as_table, ConfigTable, Node};
use vstd::prelude::*;

verus! {

/// What packaging reads of a manifest's `package` table.
#[derive(Debug, Clone)]
pub struct Package {
    /// The package's name.
    pub name: String,
    /// The package's version; nothing where the manifest leaves it to its
    /// workspace.
    pub version: Option<String>,
    /// The license, where the manifest itself gives one.
    pub license: Option<String>,
    /// The description, where the manifest itself gives one.
    pub description: Option<String>,
    /// The value under `package.metadata`.
    pub metadata: Option<toml::Value>,
}

/// A [`Package`] with its texts as sequences of characters and its metadata
/// as a tree.
pub ghost struct PackageView {
    pub name: Seq<char>,
    pub version: Option<Seq<char>>,
    pub license: Option<Seq<char>>,
    pub description: Option<Seq<char>>,
    pub metadata: Option<Node>,
}

impl View for Package {
    type V = PackageView;

    open spec fn view(&self) -> PackageView {
        PackageView {
            name: self.name@,
            version: self.version.deep_view(),
            license: self.license.deep_view(),
            description: self.description.deep_view(),
            metadata: match self.metadata {
                Some(value) => Some(node_of(value)),
                None => None,
            },
        }
    }
}

impl DeepView for Package {
    type V = PackageView;

    open spec fn deep_view(&self) -> PackageView {
        self@
    }
}

/// What a manifest's text says, as far as packaging reads it.
pub ghost struct ManifestView {
    /// The `package` table, if the manifest has one.
    pub package: Option<PackageView>,
}

/// What `cargo_toml` reads in the bytes of a manifest file; nothing where it
/// refuses them.
pub uninterp spec fn parsed_manifest(content: Seq<u8>) -> Option<ManifestView>;

/// `cargo_toml::Manifest::from_slice`: parses the bytes of a manifest file.
/// The contract claims only that the outcome is a function of the bytes,
/// which [`parsed_manifest`] names.  Of the manifest that comes out, the
/// fields of its `package` table that [`Package`] has are moved over; a field
/// that the manifest leaves to its workspace is taken as not given.
#[verifier::external_body]
fn parse_manifest(content: &[u8]) -> (parsed: Result<Option<Package>, cargo_toml::Error>)
    ensures
        parsed is Ok <==> parsed_manifest(content@) is Some,
        parsed matches Ok(package) ==> parsed_manifest(content@) == Some(
            (ManifestView { package: package.deep_view() }),
        ),
{
    let manifest = cargo_toml::Manifest::from_slice(content)?;
    Ok(
        manifest.package.map(
            |package|
                Package {
                    name: package.name,
                    version: package.version.into(),
                    license: package.license.and_then(Into::into),
                    description: package.description.and_then(Into::into),
                    metadata: package.metadata,
                },
        ),
    )
}

/// A manifest, read for packaging.
#[derive(Debug)]
pub struct Config {
    package: Option<Package>,
}

impl View for Config {
    type V = ManifestView;

    closed spec fn view(&self) -> ManifestView {
        ManifestView { package: self.package.deep_view() }
    }
}

/// The `generate-rpm` table of a manifest: the table under
/// `package.metadata.generate-rpm`.  Each step of the path must be there, and
/// `metadata` and `generate-rpm` must be tables.
pub open spec fn metadata_of(manifest: ManifestView) -> Result<
    Map<Seq<char>, Node>,
    ConfigErrorView,
> {
    match manifest.package {
        None => Err(ConfigErrorView::Missing("package"@)),
        Some(package) => match package.metadata {
            None => Err(ConfigErrorView::Missing("package.metadata"@)),
            Some(Node::Table(metadata)) => {
                if !metadata.contains_key("generate-rpm"@) {
                    Err(ConfigErrorView::Missing("package.metadata.generate-rpm"@))
                } else {
                    match metadata["generate-rpm"@] {
                        Node::Table(table) => Ok(table),
                        _ => Err(
                            ConfigErrorView::WrongType(
                                "package.metadata.generate-rpm"@,
                                "table"@,
                            ),
                        ),
                    }
                }
            },
            Some(_) => Err(ConfigErrorView::WrongType("package.metadata"@, "table"@)),
        },
    }
}

/// The files of the package that a manifest describes.
pub open spec fn files_of(manifest: ManifestView) -> Result<Seq<FileInfoView>, ConfigErrorView> {
    match metadata_of(manifest) {
        Err(error) => Err(error),
        Ok(metadata) => assets_of(metadata),
    }
}

/// All that the builder of a package is given: the scalars of the package,
/// the compression of its payload, and its files in the order of the
/// `assets` array.
#[derive(Debug, Eq, PartialEq, Clone)]
pub struct PackagePlan {
    pub package: PackageDescriptor,
    pub compression: &'static str,
    pub files: Vec<FileInfo>,
}

/// A [`PackagePlan`] with its texts as sequences of characters.
pub ghost struct PackagePlanView {
    pub package: PackageDescriptorView,
    pub compression: Seq<char>,
    pub files: Seq<FileInfoView>,
}

impl View for PackagePlan {
    type V = PackagePlanView;

    open spec fn view(&self) -> PackagePlanView {
        PackagePlanView {
            package: self.package@,
            compression: self.compression@,
            files: self.files.deep_view(),
        }
    }
}

/// The plan of the package that a manifest describes: its scalars first,
/// then its files, compressed with gzip.
pub open spec fn plan_of(
    manifest: ManifestView,
    target_arch: Option<Seq<char>>,
    host_arch: Seq<char>,
) -> Result<PackagePlanView, ConfigErrorView> {
    match metadata_of(manifest) {
        Err(error) => Err(error),
        Ok(metadata) => match descriptor_of(
            manifest.package->Some_0,
            metadata,
            target_arch,
            host_arch,
        ) {
            Err(error) => Err(error),
            Ok(package) => match assets_of(metadata) {
                Err(error) => Err(error),
                Ok(files) => Ok(PackagePlanView { package, compression: "gzip"@, files }),
            },
        },
    }
}

/// A manifest without a `package` table has no packaging configuration:
/// its table, its files and its plan all fail for want of `package`.
pub proof fn lemma_package_required(
    manifest: ManifestView,
    target_arch: Option<Seq<char>>,
    host_arch: Seq<char>,
)
    requires
        manifest.package is None,
    ensures
        metadata_of(manifest) == Err::<Map<Seq<char>, Node>, _>(
            ConfigErrorView::Missing("package"@),
        ),
        files_of(manifest) == Err::<Seq<FileInfoView>, _>(ConfigErrorView::Missing("package"@)),
        plan_of(manifest, target_arch, host_arch) == Err::<PackagePlanView, _>(
            ConfigErrorView::Missing("package"@),
        ),
{
}

/// Resolution is a function of the manifest's bytes and of the two
/// architectures: two manifests read from the same bytes are the same, and
/// two plans made of the same manifest hold the same scalars and the same
/// files, text for text.
pub proof fn lemma_resolution_repeats(
    content: Seq<u8>,
    first: Config,
    second: Config,
    target_arch: Option<Seq<char>>,
    host_arch: Seq<char>,
    first_plan: PackagePlan,
    second_plan: PackagePlan,
)
    requires
        parsed_manifest(content) == Some(first@),
        parsed_manifest(content) == Some(second@),
        plan_of(first@, target_arch, host_arch) == Ok::<_, ConfigErrorView>(first_plan@),
        plan_of(second@, target_arch, host_arch) == Ok::<_, ConfigErrorView>(second_plan@),
    ensures
        first@ == second@,
        files_of(first@) == files_of(second@),
        first_plan@.package == second_plan@.package,
        first_plan@.files == second_plan@.files,
        files_of(first@) == Ok::<_, ConfigErrorView>(first_plan@.files),
{
}

impl Config {
    /// Reads a manifest from the bytes of its file.
    pub fn new(content: &[u8]) -> (config: Result<Config, GenerateError>)
        ensures
            config matches Ok(c) ==> parsed_manifest(content@) == Some(c@),
            config matches Err(error) ==> parsed_manifest(content@) is None && error is CargoToml,
    {
        match parse_manifest(content) {
            Ok(package) => Ok(Config { package }),
            Err(error) => Err(GenerateError::CargoToml(error)),
        }
    }

    /// The manifest's `package` table, if it has one.
    pub fn package(&self) -> (package: Option<&Package>)
        ensures
            package.deep_view() == self@.package,
    {
        self.package.as_ref()
    }

    /// The manifest's `generate-rpm` table.
    pub fn metadata(&self) -> (table: Result<&ConfigTable, ConfigError>)
        ensures
            table matches Ok(t) ==> metadata_of(self@) == Ok::<_, ConfigErrorView>(entries_of(*t)),
            table matches Err(error) ==> metadata_of(self@) == Err::<Map<Seq<char>, Node>, _>(
                error@,
            ),
    {
        let package = match &self.package {
            None => {
                return Err(ConfigError::Missing("package"));
            },
            Some(package) => package,
        };
        let metadata = match &package.metadata {
            None => {
                return Err(ConfigError::Missing("package.metadata"));
            },
            Some(value) => match value_as_table(value) {
                None => {
                    return Err(ConfigError::WrongType("package.metadata", "table"));
                },
                Some(metadata) => metadata,
            },
        };
        match table_get(metadata, "generate-rpm") {
            None => Err(ConfigError::Missing("package.metadata.generate-rpm")),
            Some(value) => match value_as_table(value) {
                None => Err(ConfigError::WrongType("package.metadata.generate-rpm", "table")),
                Some(table) => Ok(table),
            },
        }
    }

    /// The files of the package, in the order of the `assets` array.
    pub fn files(&self) -> (files: Result<Vec<FileInfo>, ConfigError>)
        ensures
            outcome(files) == files_of(self@),
    {
        let metadata = self.metadata()?;
        resolve_assets(metadata)
    }

    /// Resolves all that the builder of the package is given.  `target_arch`
    /// is the architecture asked for, if any; `host_arch` is Rust's name for
    /// the architecture of the host.
    pub fn create_rpm_builder(&self, target_arch: Option<String>, host_arch: &str) -> (plan: Result<
        PackagePlan,
        GenerateError,
    >)
        ensures
            plan matches Ok(p) ==> plan_of(self@, target_arch.deep_view(), host_arch@) == Ok::<
                _,
                ConfigErrorView,
            >(p@),
            plan matches Err(error) ==> error matches GenerateError::Config(e) && plan_of(
                self@,
                target_arch.deep_view(),
                host_arch@,
            ) == Err::<PackagePlanView, _>(e@),
    {
        let metadata = match self.metadata() {
            Ok(metadata) => metadata,
            Err(error) => {
                return Err(GenerateError::Config(error));
            },
        };
        let package = match &self.package {
            Some(package) => package,
            None => {
                return Err(GenerateError::Config(ConfigError::Missing("package")));
            },
        };
        let package = match describe_package(package, metadata, target_arch, host_arch) {
            Ok(package) => package,
            Err(error) => {
                return Err(GenerateError::Config(error));
            },
        };
        match resolve_assets(metadata) {
            Ok(files) => Ok(PackagePlan { package, compression: "gzip", files }),
            Err(error) => Err(GenerateError::Config(error)),
        }
    }
}

} // verus!
