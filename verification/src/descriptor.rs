//! The scalars of a package: name, version, license, architecture and
//! description, and what the `generate-rpm` table adds to them.

use crate::arch::{arch_of, resolve_arch, rpm_arch};
use crate::config::{Package, PackageView};
use crate::error::{outcome, ConfigError, ConfigErrorView};
use crate::tree::{entries_of, table_get, value_as_integer, value_as_str, ConfigTable, Node};
use vstd::prelude::*;

verus! {

/// The scalars that stamp a package.
#[derive(Debug, Eq, PartialEq, Clone)]
pub struct PackageDescriptor {
    pub name: String,
    pub version: String,
    pub license: String,
    pub arch: String,
    pub description: String,
    /// The release, where the manifest gives one.
    pub release: Option<u16>,
    /// The epoch, where the manifest gives one.
    pub epoch: Option<i32>,
    /// The script to run before the package is installed.
    pub pre_install_script: Option<String>,
    /// The script to run before the package is removed.
    pub pre_uninstall_script: Option<String>,
    /// The script to run after the package is installed.
    pub post_install_script: Option<String>,
    /// The script to run after the package is removed.
    pub post_uninstall_script: Option<String>,
}

/// A [`PackageDescriptor`] with its texts as sequences of characters.
pub ghost struct PackageDescriptorView {
    pub name: Seq<char>,
    pub version: Seq<char>,
    pub license: Seq<char>,
    pub arch: Seq<char>,
    pub description: Seq<char>,
    pub release: Option<u16>,
    pub epoch: Option<i32>,
    pub pre_install_script: Option<Seq<char>>,
    pub pre_uninstall_script: Option<Seq<char>>,
    pub post_install_script: Option<Seq<char>>,
    pub post_uninstall_script: Option<Seq<char>>,
}

impl View for PackageDescriptor {
    type V = PackageDescriptorView;

    open spec fn view(&self) -> PackageDescriptorView {
        PackageDescriptorView {
            name: self.name@,
            version: self.version@,
            license: self.license@,
            arch: self.arch@,
            description: self.description@,
            release: self.release,
            epoch: self.epoch,
            pre_install_script: self.pre_install_script.deep_view(),
            pre_uninstall_script: self.pre_uninstall_script.deep_view(),
            post_install_script: self.post_install_script.deep_view(),
            post_uninstall_script: self.post_uninstall_script.deep_view(),
        }
    }
}

impl DeepView for PackageDescriptor {
    type V = PackageDescriptorView;

    open spec fn deep_view(&self) -> PackageDescriptorView {
        self@
    }
}

/// The dotted path of a key of the `generate-rpm` table.
pub open spec fn metadata_path(key: Seq<char>) -> Seq<char> {
    "package.metadata.generate-rpm."@ + key
}

/// The text under `key` of the `generate-rpm` table, if the table has that
/// key; its value must be a string.
pub open spec fn string_at(table: Map<Seq<char>, Node>, key: Seq<char>) -> Result<
    Option<Seq<char>>,
    ConfigErrorView,
> {
    if !table.contains_key(key) {
        Ok(None)
    } else {
        match table[key] {
            Node::String(text) => Ok(Some(text)),
            _ => Err(ConfigErrorView::WrongType(metadata_path(key), "string"@)),
        }
    }
}

/// The number under `key` of the `generate-rpm` table, if the table has that
/// key; its value must be an integer.
pub open spec fn integer_at(table: Map<Seq<char>, Node>, key: Seq<char>) -> Result<
    Option<i64>,
    ConfigErrorView,
> {
    if !table.contains_key(key) {
        Ok(None)
    } else {
        match table[key] {
            Node::Integer(number) => Ok(Some(number)),
            _ => Err(ConfigErrorView::WrongType(metadata_path(key), "integer"@)),
        }
    }
}

/// A scalar that the `generate-rpm` table may give under `key` and that the
/// `package` table gives otherwise, under the path `fallback_path`.  Where
/// neither gives it, it is missing.
pub open spec fn text_or(
    table: Map<Seq<char>, Node>,
    key: Seq<char>,
    fallback: Option<Seq<char>>,
    fallback_path: Seq<char>,
) -> Result<Seq<char>, ConfigErrorView> {
    match string_at(table, key) {
        Err(error) => Err(error),
        Ok(Some(text)) => Ok(text),
        Ok(None) => match fallback {
            Some(text) => Ok(text),
            None => Err(ConfigErrorView::Missing(fallback_path)),
        },
    }
}

/// The release of a package: the low 16 bits of the number given.
pub open spec fn release_of(number: Option<i64>) -> Option<u16> {
    match number {
        Some(n) => Some(n as u16),
        None => None,
    }
}

/// The epoch of a package: the low 32 bits of the number given, as a signed
/// number.
pub open spec fn epoch_of(number: Option<i64>) -> Option<i32> {
    match number {
        Some(n) => Some(n as i32),
        None => None,
    }
}

/// The scalars of the package that `package` and its `generate-rpm` table
/// `metadata` describe.  They are taken in the order name, version, license,
/// description, release, epoch, then the four scripts; the first that fails
/// gives the error.
pub open spec fn descriptor_of(
    package: PackageView,
    metadata: Map<Seq<char>, Node>,
    target_arch: Option<Seq<char>>,
    host_arch: Seq<char>,
) -> Result<PackageDescriptorView, ConfigErrorView> {
    match text_or(metadata, "name"@, Some(package.name), "package.name"@) {
        Err(e) => Err(e),
        Ok(name) => match text_or(metadata, "version"@, package.version, "package.version"@) {
            Err(e) => Err(e),
            Ok(version) => match text_or(
                metadata,
                "license"@,
                package.license,
                "package.license"@,
            ) {
                Err(e) => Err(e),
                Ok(license) => match text_or(
                    metadata,
                    "summary"@,
                    package.description,
                    "package.description"@,
                ) {
                    Err(e) => Err(e),
                    Ok(description) => match integer_at(metadata, "release"@) {
                        Err(e) => Err(e),
                        Ok(release) => match integer_at(metadata, "epoch"@) {
                            Err(e) => Err(e),
                            Ok(epoch) => match string_at(metadata, "pre_install_script"@) {
                                Err(e) => Err(e),
                                Ok(pre_install_script) => match string_at(
                                    metadata,
                                    "pre_uninstall_script"@,
                                ) {
                                    Err(e) => Err(e),
                                    Ok(pre_uninstall_script) => match string_at(
                                        metadata,
                                        "post_install_script"@,
                                    ) {
                                        Err(e) => Err(e),
                                        Ok(post_install_script) => match string_at(
                                            metadata,
                                            "post_uninstall_script"@,
                                        ) {
                                            Err(e) => Err(e),
                                            Ok(post_uninstall_script) => Ok(
                                                PackageDescriptorView {
                                                    name,
                                                    version,
                                                    license,
                                                    arch: arch_of(target_arch, host_arch),
                                                    description,
                                                    release: release_of(release),
                                                    epoch: epoch_of(epoch),
                                                    pre_install_script,
                                                    pre_uninstall_script,
                                                    post_install_script,
                                                    post_uninstall_script,
                                                },
                                            ),
                                        },
                                    },
                                },
                            },
                        },
                    },
                },
            },
        },
    }
}

/// A package needs a license: where its name and version resolve and
/// neither the `generate-rpm` table nor the `package` table gives a license,
/// resolution fails for want of `package.license`, whatever else is given.
pub proof fn lemma_license_required(
    package: PackageView,
    metadata: Map<Seq<char>, Node>,
    target_arch: Option<Seq<char>>,
    host_arch: Seq<char>,
)
    requires
        string_at(metadata, "name"@) is Ok,
        text_or(metadata, "version"@, package.version, "package.version"@) is Ok,
        !metadata.contains_key("license"@),
        package.license is None,
    ensures
        descriptor_of(package, metadata, target_arch, host_arch) == Err::<
            PackageDescriptorView,
            _,
        >(ConfigErrorView::Missing("package.license"@)),
{
}

/// A package needs a description: where its name, version and license
/// resolve and neither `summary` of the `generate-rpm` table nor the
/// `package` table gives one, resolution fails for want of
/// `package.description`, whatever else is given.
pub proof fn lemma_description_required(
    package: PackageView,
    metadata: Map<Seq<char>, Node>,
    target_arch: Option<Seq<char>>,
    host_arch: Seq<char>,
)
    requires
        string_at(metadata, "name"@) is Ok,
        text_or(metadata, "version"@, package.version, "package.version"@) is Ok,
        text_or(metadata, "license"@, package.license, "package.license"@) is Ok,
        !metadata.contains_key("summary"@),
        package.description is None,
    ensures
        descriptor_of(package, metadata, target_arch, host_arch) == Err::<
            PackageDescriptorView,
            _,
        >(ConfigErrorView::Missing("package.description"@)),
{
}

/// A scalar of the `generate-rpm` table goes before that of the `package`
/// table.
pub proof fn lemma_metadata_overrides(
    table: Map<Seq<char>, Node>,
    key: Seq<char>,
    text: Seq<char>,
    fallback: Option<Seq<char>>,
    fallback_path: Seq<char>,
)
    requires
        table.contains_key(key),
        table[key] == Node::String(text),
    ensures
        text_or(table, key, fallback, fallback_path) == Ok::<_, ConfigErrorView>(text),
{
}

/// The architecture of a resolved package is the one asked for, where one is
/// asked for, whatever the host; else it is that of the host under its RPM
/// name.
pub proof fn lemma_descriptor_arch(
    package: PackageView,
    metadata: Map<Seq<char>, Node>,
    target_arch: Option<Seq<char>>,
    host_arch: Seq<char>,
)
    ensures
        descriptor_of(package, metadata, target_arch, host_arch) matches Ok(descriptor)
            ==> descriptor.arch == match target_arch {
            Some(arch) => arch,
            None => rpm_arch(host_arch),
        },
{
}

/// A release or an epoch that fits its width is kept as it is given.
pub proof fn lemma_numbers_in_range(number: i64)
    ensures
        0 <= number <= u16::MAX ==> release_of(Some(number)) == Some(number as u16) && (number as u16)
            == number,
        i32::MIN <= number <= i32::MAX ==> epoch_of(Some(number)) == Some(number as i32) && (
        number as i32) == number,
{
}

/// The paths under which the keys of the `generate-rpm` table are reported.
proof fn lemma_metadata_paths()
    ensures
        "package.metadata.generate-rpm.name"@ == metadata_path("name"@),
        "package.metadata.generate-rpm.version"@ == metadata_path("version"@),
        "package.metadata.generate-rpm.license"@ == metadata_path("license"@),
        "package.metadata.generate-rpm.summary"@ == metadata_path("summary"@),
        "package.metadata.generate-rpm.release"@ == metadata_path("release"@),
        "package.metadata.generate-rpm.epoch"@ == metadata_path("epoch"@),
        "package.metadata.generate-rpm.pre_install_script"@ == metadata_path(
            "pre_install_script"@,
        ),
        "package.metadata.generate-rpm.pre_uninstall_script"@ == metadata_path(
            "pre_uninstall_script"@,
        ),
        "package.metadata.generate-rpm.post_install_script"@ == metadata_path(
            "post_install_script"@,
        ),
        "package.metadata.generate-rpm.post_uninstall_script"@ == metadata_path(
            "post_uninstall_script"@,
        ),
{
    reveal_strlit("package.metadata.generate-rpm.");
    reveal_strlit("name");
    reveal_strlit("version");
    reveal_strlit("license");
    reveal_strlit("summary");
    reveal_strlit("release");
    reveal_strlit("epoch");
    reveal_strlit("pre_install_script");
    reveal_strlit("pre_uninstall_script");
    reveal_strlit("post_install_script");
    reveal_strlit("post_uninstall_script");
    reveal_strlit("package.metadata.generate-rpm.name");
    reveal_strlit("package.metadata.generate-rpm.version");
    reveal_strlit("package.metadata.generate-rpm.license");
    reveal_strlit("package.metadata.generate-rpm.summary");
    reveal_strlit("package.metadata.generate-rpm.release");
    reveal_strlit("package.metadata.generate-rpm.epoch");
    reveal_strlit("package.metadata.generate-rpm.pre_install_script");
    reveal_strlit("package.metadata.generate-rpm.pre_uninstall_script");
    reveal_strlit("package.metadata.generate-rpm.post_install_script");
    reveal_strlit("package.metadata.generate-rpm.post_uninstall_script");
}

/// Reads a string of the `generate-rpm` table; `path` is the key's path.
fn get_string<'a>(table: &'a ConfigTable, key: &str, path: &'static str) -> (text: Result<
    Option<&'a str>,
    ConfigError,
>)
    requires
        path@ == metadata_path(key@),
    ensures
        outcome(text) == string_at(entries_of(*table), key@),
{
    match table_get(table, key) {
        None => Ok(None),
        Some(value) => match value_as_str(value) {
            None => Err(ConfigError::WrongType(path, "string")),
            Some(text) => Ok(Some(text)),
        },
    }
}

/// Reads an integer of the `generate-rpm` table; `path` is the key's path.
fn get_integer(table: &ConfigTable, key: &str, path: &'static str) -> (number: Result<
    Option<i64>,
    ConfigError,
>)
    requires
        path@ == metadata_path(key@),
    ensures
        outcome(number) == integer_at(entries_of(*table), key@),
{
    match table_get(table, key) {
        None => Ok(None),
        Some(value) => match value_as_integer(value) {
            None => Err(ConfigError::WrongType(path, "integer")),
            Some(number) => Ok(Some(number)),
        },
    }
}

/// Reads a scalar that the `generate-rpm` table may override.
fn get_string_or(
    table: &ConfigTable,
    key: &str,
    path: &'static str,
    fallback: Option<&str>,
    fallback_path: &'static str,
) -> (text: Result<String, ConfigError>)
    requires
        path@ == metadata_path(key@),
    ensures
        outcome(text) == text_or(
            entries_of(*table),
            key@,
            fallback.deep_view(),
            fallback_path@,
        ),
{
    match get_string(table, key, path)? {
        Some(text) => Ok(text.to_owned()),
        None => match fallback {
            Some(text) => Ok(text.to_owned()),
            None => Err(ConfigError::Missing(fallback_path)),
        },
    }
}

/// Reads a script of the `generate-rpm` table.
fn get_script(table: &ConfigTable, key: &str, path: &'static str) -> (script: Result<
    Option<String>,
    ConfigError,
>)
    requires
        path@ == metadata_path(key@),
    ensures
        outcome(script) == string_at(entries_of(*table), key@),
{
    match get_string(table, key, path)? {
        Some(text) => Ok(Some(text.to_owned())),
        None => Ok(None),
    }
}

/// The text of an optional string.
fn as_text(text: &Option<String>) -> (borrowed: Option<&str>)
    ensures
        borrowed.deep_view() == text.deep_view(),
{
    match text {
        Some(text) => Some(text.as_str()),
        None => None,
    }
}

/// Resolves the scalars of a package from its `package` table and its
/// `generate-rpm` table.  `target_arch` is the architecture asked for, if
/// any; `host_arch` is Rust's name for the architecture of the host.
pub fn describe_package(
    package: &Package,
    metadata: &ConfigTable,
    target_arch: Option<String>,
    host_arch: &str,
) -> (descriptor: Result<PackageDescriptor, ConfigError>)
    ensures
        outcome(descriptor) == descriptor_of(
            package@,
            entries_of(*metadata),
            target_arch.deep_view(),
            host_arch@,
        ),
{
    proof {
        lemma_metadata_paths();
    }
    let name = get_string_or(
        metadata,
        "name",
        "package.metadata.generate-rpm.name",
        Some(package.name.as_str()),
        "package.name",
    )?;
    let version = get_string_or(
        metadata,
        "version",
        "package.metadata.generate-rpm.version",
        as_text(&package.version),
        "package.version",
    )?;
    let license = get_string_or(
        metadata,
        "license",
        "package.metadata.generate-rpm.license",
        as_text(&package.license),
        "package.license",
    )?;
    let description = get_string_or(
        metadata,
        "summary",
        "package.metadata.generate-rpm.summary",
        as_text(&package.description),
        "package.description",
    )?;
    let release = match get_integer(metadata, "release", "package.metadata.generate-rpm.release")? {
        Some(number) => Some(#[verifier::truncate] (number as u16)),
        None => None,
    };
    let epoch = match get_integer(metadata, "epoch", "package.metadata.generate-rpm.epoch")? {
        Some(number) => Some(#[verifier::truncate] (number as i32)),
        None => None,
    };
    let pre_install_script = get_script(
        metadata,
        "pre_install_script",
        "package.metadata.generate-rpm.pre_install_script",
    )?;
    let pre_uninstall_script = get_script(
        metadata,
        "pre_uninstall_script",
        "package.metadata.generate-rpm.pre_uninstall_script",
    )?;
    let post_install_script = get_script(
        metadata,
        "post_install_script",
        "package.metadata.generate-rpm.post_install_script",
    )?;
    let post_uninstall_script = get_script(
        metadata,
        "post_uninstall_script",
        "package.metadata.generate-rpm.post_uninstall_script",
    )?;
    let arch = resolve_arch(target_arch, host_arch);
    Ok(
        PackageDescriptor {
            name,
            version,
            license,
            arch,
            description,
            release,
            epoch,
            pre_install_script,
            pre_uninstall_script,
            post_install_script,
            post_uninstall_script,
        },
    )
}

} // verus!
