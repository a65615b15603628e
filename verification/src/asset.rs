//! Assets: the entries of the `assets` array, each resolved into a
//! [`FileInfo`].

use crate::error::{outcome, ConfigError, ConfigErrorView};
use crate::mode::{
    lemma_mode_has_type_bits, parse_octal, parse_octal_str, resolve_mode, with_type_bits, S_IFMT,
};
use crate::tree::{
    entries_of, node_of, nodes_of, table_get, value_as_array, value_as_bool, value_as_str,
    value_as_table, ConfigTable, Node,
};
use vstd::prelude::*;

verus! {

/// One file of the package.
#[derive(Debug, Eq, PartialEq, Clone)]
pub struct FileInfo {
    /// Where the file is taken from.
    pub source: String,
    /// Where the package installs it.
    pub dest: String,
    /// The owner, where the package's default is not wanted.
    pub user: Option<String>,
    /// The owning group, where the package's default is not wanted.
    pub group: Option<String>,
    /// The mode with its type bits, where the mode of the file on disk is
    /// not wanted.
    pub mode: Option<usize>,
    /// Whether the file is a configuration file.
    pub config: bool,
    /// Whether the file is documentation.
    pub doc: bool,
}

/// A [`FileInfo`] with its texts as sequences of characters.
pub ghost struct FileInfoView {
    pub source: Seq<char>,
    pub dest: Seq<char>,
    pub user: Option<Seq<char>>,
    pub group: Option<Seq<char>>,
    pub mode: Option<usize>,
    pub config: bool,
    pub doc: bool,
}

impl View for FileInfo {
    type V = FileInfoView;

    open spec fn view(&self) -> FileInfoView {
        FileInfoView {
            source: self.source@,
            dest: self.dest@,
            user: self.user.deep_view(),
            group: self.group.deep_view(),
            mode: self.mode,
            config: self.config,
            doc: self.doc,
        }
    }
}

impl DeepView for FileInfo {
    type V = FileInfoView;

    open spec fn deep_view(&self) -> FileInfoView {
        self@
    }
}

/// What the builder of a package is told about one file.
#[derive(Debug, Eq, PartialEq, Clone)]
pub struct FileOptions {
    /// Where the package installs the file.
    pub dest: String,
    /// The owner, where the builder's default is not wanted.
    pub user: Option<String>,
    /// The owning group, where the builder's default is not wanted.
    pub group: Option<String>,
    /// The mode, where that of the file on disk is not wanted.
    pub mode: Option<i32>,
    /// Whether the file is marked as a configuration file.
    pub config: bool,
    /// Whether the file is marked as documentation.
    pub doc: bool,
}

/// A [`FileOptions`] with its texts as sequences of characters.
pub ghost struct FileOptionsView {
    pub dest: Seq<char>,
    pub user: Option<Seq<char>>,
    pub group: Option<Seq<char>>,
    pub mode: Option<i32>,
    pub config: bool,
    pub doc: bool,
}

impl View for FileOptions {
    type V = FileOptionsView;

    open spec fn view(&self) -> FileOptionsView {
        FileOptionsView {
            dest: self.dest@,
            user: self.user.deep_view(),
            group: self.group.deep_view(),
            mode: self.mode,
            config: self.config,
            doc: self.doc,
        }
    }
}

/// A place where the source of an asset is looked for.
#[derive(Debug, Clone, Copy, PartialEq, Eq)]
pub enum Place {
    /// The source as it is written, seen from the working directory.
    WorkingDir,
    /// The source seen from the directory of the manifest.
    ManifestDir,
}

/// What the builder is told about a file: all of the file but its source,
/// the mode cut to its low 32 bits.
pub open spec fn options_of(file: FileInfoView) -> FileOptionsView {
    FileOptionsView {
        dest: file.dest,
        user: file.user,
        group: file.group,
        mode: match file.mode {
            Some(mode) => Some(mode as i32),
            None => None,
        },
        config: file.config,
        doc: file.doc,
    }
}

/// The place where the source of an asset is taken from: the first of the
/// two places, in the order of [`Place`], that holds it.
pub open spec fn place_of(in_working_dir: bool, in_manifest_dir: bool) -> Option<Place> {
    if in_working_dir {
        Some(Place::WorkingDir)
    } else if in_manifest_dir {
        Some(Place::ManifestDir)
    } else {
        None
    }
}

/// A copy of an optional text.
fn copy_text(text: &Option<String>) -> (copy: Option<String>)
    ensures
        copy.deep_view() == text.deep_view(),
{
    match text {
        Some(text) => Some(text.clone()),
        None => None,
    }
}

impl FileInfo {
    /// What the builder of the package is told about this file.
    pub fn generate_rpm_file_options(&self) -> (options: FileOptions)
        ensures
            options@ == options_of(self@),
    {
        FileOptions {
            dest: self.dest.clone(),
            user: copy_text(&self.user),
            group: copy_text(&self.group),
            mode: match self.mode {
                Some(mode) => Some(#[verifier::truncate] (mode as i32)),
                None => None,
            },
            config: self.config,
            doc: self.doc,
        }
    }

    /// Chooses the place that the file is taken from.  `in_working_dir` and
    /// `in_manifest_dir` say whether the source exists at each of the two
    /// places.
    pub fn locate_on_disk(&self, in_working_dir: bool, in_manifest_dir: bool) -> (place: Result<
        Place,
        ConfigError,
    >)
        ensures
            place matches Ok(p) ==> place_of(in_working_dir, in_manifest_dir) == Some(p),
            place matches Err(error) ==> place_of(in_working_dir, in_manifest_dir) is None
                && error@ == ConfigErrorView::AssetFileNotFound(self.source@),
    {
        if in_working_dir {
            Ok(Place::WorkingDir)
        } else if in_manifest_dir {
            Ok(Place::ManifestDir)
        } else {
            Err(ConfigError::AssetFileNotFound(self.source.clone()))
        }
    }
}

/// The text of a field that an asset must have.
pub open spec fn required_text(table: Map<Seq<char>, Node>, idx: usize, field: Seq<char>) -> Result<
    Seq<char>,
    ConfigErrorView,
> {
    if !table.contains_key(field) {
        Err(ConfigErrorView::AssetFileUndefined(idx, field))
    } else {
        match table[field] {
            Node::String(text) => Ok(text),
            _ => Err(ConfigErrorView::AssetFileWrongType(idx, field, "string"@)),
        }
    }
}

/// The text of a field that an asset may have.
pub open spec fn optional_text(table: Map<Seq<char>, Node>, idx: usize, field: Seq<char>) -> Result<
    Option<Seq<char>>,
    ConfigErrorView,
> {
    if !table.contains_key(field) {
        Ok(None)
    } else {
        match table[field] {
            Node::String(text) => Ok(Some(text)),
            _ => Err(ConfigErrorView::AssetFileWrongType(idx, field, "string"@)),
        }
    }
}

/// The truth value of a field that an asset may have; without the field it
/// is false.
pub open spec fn optional_flag(table: Map<Seq<char>, Node>, idx: usize, field: Seq<char>) -> Result<
    bool,
    ConfigErrorView,
> {
    if !table.contains_key(field) {
        Ok(false)
    } else {
        match table[field] {
            Node::Boolean(flag) => Ok(flag),
            _ => Err(ConfigErrorView::AssetFileWrongType(idx, field, "bool"@)),
        }
    }
}

/// The `source` of the asset at position `idx`.
pub open spec fn source_of(table: Map<Seq<char>, Node>, idx: usize) -> Result<
    Seq<char>,
    ConfigErrorView,
> {
    required_text(table, idx, "source"@)
}

/// The `dest` of the asset at position `idx`.
pub open spec fn dest_of(table: Map<Seq<char>, Node>, idx: usize) -> Result<
    Seq<char>,
    ConfigErrorView,
> {
    required_text(table, idx, "dest"@)
}

/// The `user` of the asset at position `idx`.
pub open spec fn user_of(table: Map<Seq<char>, Node>, idx: usize) -> Result<
    Option<Seq<char>>,
    ConfigErrorView,
> {
    optional_text(table, idx, "user"@)
}

/// The `group` of the asset at position `idx`.
pub open spec fn group_of(table: Map<Seq<char>, Node>, idx: usize) -> Result<
    Option<Seq<char>>,
    ConfigErrorView,
> {
    optional_text(table, idx, "group"@)
}

/// The `mode` of the asset at position `idx`, whose source is `source`: the
/// octal numeral under `mode`, with its type bits filled in.
pub open spec fn mode_of(table: Map<Seq<char>, Node>, source: Seq<char>, idx: usize) -> Result<
    Option<usize>,
    ConfigErrorView,
> {
    if !table.contains_key("mode"@) {
        Ok(None)
    } else {
        match table["mode"@] {
            Node::String(text) => match parse_octal(text) {
                Some(given) => Ok(Some(with_type_bits(given, source))),
                None => Err(ConfigErrorView::AssetFileWrongType(idx, "mode"@, "oct-string"@)),
            },
            _ => Err(ConfigErrorView::AssetFileWrongType(idx, "mode"@, "string"@)),
        }
    }
}

/// The `config` flag of the asset at position `idx`.
pub open spec fn config_of(table: Map<Seq<char>, Node>, idx: usize) -> Result<
    bool,
    ConfigErrorView,
> {
    optional_flag(table, idx, "config"@)
}

/// The `doc` flag of the asset at position `idx`.
pub open spec fn doc_of(table: Map<Seq<char>, Node>, idx: usize) -> Result<bool, ConfigErrorView> {
    optional_flag(table, idx, "doc"@)
}

/// The file that the asset at position `idx` describes.  Every field is
/// looked at; of several that are wrong, the first in the order `source`,
/// `dest`, `user`, `group`, `mode`, `config`, `doc` gives the error.
pub open spec fn asset_of(table: Map<Seq<char>, Node>, idx: usize) -> Result<
    FileInfoView,
    ConfigErrorView,
> {
    match source_of(table, idx) {
        Err(error) => Err(error),
        Ok(source) => match dest_of(table, idx) {
            Err(error) => Err(error),
            Ok(dest) => match user_of(table, idx) {
                Err(error) => Err(error),
                Ok(user) => match group_of(table, idx) {
                    Err(error) => Err(error),
                    Ok(group) => match mode_of(table, source, idx) {
                        Err(error) => Err(error),
                        Ok(mode) => match config_of(table, idx) {
                            Err(error) => Err(error),
                            Ok(config) => match doc_of(table, idx) {
                                Err(error) => Err(error),
                                Ok(doc) => Ok(
                                    FileInfoView { source, dest, user, group, mode, config, doc },
                                ),
                            },
                        },
                    },
                },
            },
        },
    }
}

/// The file that the item at position `idx` of the `assets` array describes.
/// An item that is no table is reported as an asset without `source`.
pub open spec fn entry_of(item: Node, idx: usize) -> Result<FileInfoView, ConfigErrorView> {
    match item {
        Node::Table(table) => asset_of(table, idx),
        _ => Err(ConfigErrorView::AssetFileUndefined(idx, "source"@)),
    }
}

/// The files that the items of the `assets` array describe, in their order.
/// The items are taken from the first on, and the first that fails gives the
/// error.
pub open spec fn files_from(items: Seq<Node>) -> Result<Seq<FileInfoView>, ConfigErrorView>
    decreases items.len(),
{
    if items.len() == 0 {
        Ok(Seq::empty())
    } else {
        match files_from(items.drop_last()) {
            Err(error) => Err(error),
            Ok(files) => match entry_of(items.last(), (items.len() - 1) as usize) {
                Err(error) => Err(error),
                Ok(file) => Ok(files.push(file)),
            },
        }
    }
}

/// The files of a package, as its `generate-rpm` table gives them under
/// `assets`, which must be there and be an array.
pub open spec fn assets_of(metadata: Map<Seq<char>, Node>) -> Result<
    Seq<FileInfoView>,
    ConfigErrorView,
> {
    if !metadata.contains_key("assets"@) {
        Err(ConfigErrorView::Missing("package.metadata.generate-rpm.assets"@))
    } else {
        match metadata["assets"@] {
            Node::Array(items) => files_from(items),
            _ => Err(
                ConfigErrorView::WrongType("package.metadata.generate-rpm.assets"@, "array"@),
            ),
        }
    }
}

/// Reads a text that the asset must have.
fn required_field(table: &ConfigTable, idx: usize, field: &'static str) -> (text: Result<
    String,
    ConfigError,
>)
    ensures
        outcome(text) == required_text(entries_of(*table), idx, field@),
{
    match table_get(table, field) {
        None => Err(ConfigError::AssetFileUndefined(idx, field)),
        Some(value) => match value_as_str(value) {
            None => Err(ConfigError::AssetFileWrongType(idx, field, "string")),
            Some(text) => Ok(text.to_owned()),
        },
    }
}

/// Reads a text that the asset may have.
fn optional_field(table: &ConfigTable, idx: usize, field: &'static str) -> (text: Result<
    Option<String>,
    ConfigError,
>)
    ensures
        outcome(text) == optional_text(entries_of(*table), idx, field@),
{
    match table_get(table, field) {
        None => Ok(None),
        Some(value) => match value_as_str(value) {
            None => Err(ConfigError::AssetFileWrongType(idx, field, "string")),
            Some(text) => Ok(Some(text.to_owned())),
        },
    }
}

/// Reads a flag that the asset may have.
fn flag_field(table: &ConfigTable, idx: usize, field: &'static str) -> (flag: Result<
    bool,
    ConfigError,
>)
    ensures
        outcome(flag) == optional_flag(entries_of(*table), idx, field@),
{
    match table_get(table, field) {
        None => Ok(false),
        Some(value) => match value_as_bool(value) {
            None => Err(ConfigError::AssetFileWrongType(idx, field, "bool")),
            Some(flag) => Ok(flag),
        },
    }
}

/// The `source` of an asset: a string that must be there.
pub fn _get_source(table: &ConfigTable, idx: usize) -> (source: Result<String, ConfigError>)
    ensures
        outcome(source) == source_of(entries_of(*table), idx),
{
    required_field(table, idx, "source")
}

/// The `dest` of an asset: a string that must be there.
pub fn _get_dest(table: &ConfigTable, idx: usize) -> (dest: Result<String, ConfigError>)
    ensures
        outcome(dest) == dest_of(entries_of(*table), idx),
{
    required_field(table, idx, "dest")
}

/// The `user` of an asset: a string, or nothing.
pub fn _get_user(table: &ConfigTable, idx: usize) -> (user: Result<Option<String>, ConfigError>)
    ensures
        outcome(user) == user_of(entries_of(*table), idx),
{
    optional_field(table, idx, "user")
}

/// The `group` of an asset: a string, or nothing.
pub fn _get_group(table: &ConfigTable, idx: usize) -> (group: Result<Option<String>, ConfigError>)
    ensures
        outcome(group) == group_of(entries_of(*table), idx),
{
    optional_field(table, idx, "group")
}

/// The `mode` of an asset: an octal numeral in a string, or nothing.  The
/// type bits that the numeral leaves open follow from `source`.
pub fn _get_mode(table: &ConfigTable, source: &str, idx: usize) -> (mode: Result<
    Option<usize>,
    ConfigError,
>)
    ensures
        outcome(mode) == mode_of(entries_of(*table), source@, idx),
{
    match table_get(table, "mode") {
        None => Ok(None),
        Some(value) => match value_as_str(value) {
            None => Err(ConfigError::AssetFileWrongType(idx, "mode", "string")),
            Some(text) => match parse_octal_str(text) {
                None => Err(ConfigError::AssetFileWrongType(idx, "mode", "oct-string")),
                Some(given) => Ok(Some(resolve_mode(given, source))),
            },
        },
    }
}

/// The `config` flag of an asset: a boolean, false where it is not given.
pub fn _get_config(table: &ConfigTable, idx: usize) -> (config: Result<bool, ConfigError>)
    ensures
        outcome(config) == config_of(entries_of(*table), idx),
{
    flag_field(table, idx, "config")
}

/// The `doc` flag of an asset: a boolean, false where it is not given.
pub fn _get_doc(table: &ConfigTable, idx: usize) -> (doc: Result<bool, ConfigError>)
    ensures
        outcome(doc) == doc_of(entries_of(*table), idx),
{
    flag_field(table, idx, "doc")
}

/// Resolves the asset at position `idx` of the `assets` array.
pub fn _handle_file(table: &ConfigTable, idx: usize) -> (info: Result<FileInfo, ConfigError>)
    ensures
        outcome(info) == asset_of(entries_of(*table), idx),
{
    let source = _get_source(table, idx)?;
    let dest = _get_dest(table, idx)?;
    let user = _get_user(table, idx)?;
    let group = _get_group(table, idx)?;
    let mode = _get_mode(table, source.as_str(), idx)?;
    let config = _get_config(table, idx)?;
    let doc = _get_doc(table, idx)?;
    Ok(FileInfo { source, dest, user, group, mode, config, doc })
}

/// An error among the first items is the error of the whole array.
pub proof fn lemma_error_stays(items: Seq<Node>, k: int)
    requires
        0 <= k <= items.len(),
        files_from(items.take(k)) is Err,
    ensures
        files_from(items) == files_from(items.take(k)),
    decreases items.len() - k,
{
    if k < items.len() {
        assert(items.take(k + 1).drop_last() == items.take(k));
        lemma_error_stays(items, k + 1);
    } else {
        assert(items.take(k) == items);
    }
}

/// The array resolves exactly when each of its items does, and then into one
/// file for each item, in the order of the items.
pub proof fn lemma_all_resolve(items: Seq<Node>)
    ensures
        files_from(items) is Ok <==> (forall|i: int|
            0 <= i < items.len() ==> (#[trigger] entry_of(items[i], i as usize)) is Ok),
        files_from(items) matches Ok(files) ==> files.len() == items.len() && (forall|i: int|
            0 <= i < items.len() ==> (#[trigger] entry_of(items[i], i as usize)) == Ok::<
                _,
                ConfigErrorView,
            >(files[i])),
    decreases items.len(),
{
    if items.len() > 0 {
        let front = items.drop_last();
        lemma_all_resolve(front);
        assert forall|i: int| 0 <= i < front.len() implies front[i] == items[i] by {}
        if files_from(items) is Ok {
            assert forall|i: int| 0 <= i < items.len() implies (#[trigger] entry_of(
                items[i],
                i as usize,
            )) == Ok::<_, ConfigErrorView>(files_from(items)->Ok_0[i]) by {
                if i < front.len() {
                    assert(entry_of(front[i], i as usize) is Ok);
                }
            }
        } else if files_from(front) is Ok {
            assert(entry_of(items[items.len() - 1], (items.len() - 1) as usize) is Err);
        } else {
            let i = choose|i: int|
                0 <= i < front.len() && !((#[trigger] entry_of(front[i], i as usize)) is Ok);
            assert(!(entry_of(items[i], i as usize) is Ok));
        }
    }
}

/// Resolution stops at the first item that fails: where every item before
/// position `idx` resolves and the item at `idx` does not, the error of the
/// array is that of the item at `idx`, whatever follows it.
pub proof fn lemma_first_failure(items: Seq<Node>, idx: int)
    requires
        0 <= idx < items.len(),
        forall|j: int| 0 <= j < idx ==> (#[trigger] entry_of(items[j], j as usize)) is Ok,
        entry_of(items[idx], idx as usize) is Err,
    ensures
        files_from(items) == Err::<Seq<FileInfoView>, _>(
            entry_of(items[idx], idx as usize)->Err_0,
        ),
{
    let front = items.take(idx);
    assert forall|j: int| 0 <= j < front.len() implies (#[trigger] entry_of(
        front[j],
        j as usize,
    )) is Ok by {
        assert(front[j] == items[j]);
    }
    lemma_all_resolve(front);
    assert(items.take(idx + 1).drop_last() == front);
    assert(items.take(idx + 1).last() == items[idx]);
    lemma_error_stays(items, idx + 1);
}

/// An asset with a `source` and without a `dest` fails for want of `dest`.
/// In an array whose earlier items all resolve, that is the error of the
/// array, and no later item changes it.
pub proof fn lemma_missing_dest(items: Seq<Node>, idx: int)
    requires
        0 <= idx < items.len(),
        forall|j: int| 0 <= j < idx ==> (#[trigger] entry_of(items[j], j as usize)) is Ok,
        items[idx] matches Node::Table(table) && source_of(table, idx as usize) is Ok
            && !table.contains_key("dest"@),
    ensures
        files_from(items) == Err::<Seq<FileInfoView>, _>(
            ConfigErrorView::AssetFileUndefined(idx as usize, "dest"@),
        ),
{
    lemma_first_failure(items, idx);
}

/// An `assets` value that is no array is refused as being of the wrong type.
pub proof fn lemma_assets_not_array(metadata: Map<Seq<char>, Node>)
    requires
        metadata.contains_key("assets"@),
        !(metadata["assets"@] is Array),
    ensures
        assets_of(metadata) == Err::<Seq<FileInfoView>, _>(
            ConfigErrorView::WrongType("package.metadata.generate-rpm.assets"@, "array"@),
        ),
{
}

/// Every mode that resolution gives has type bits.
pub proof fn lemma_resolved_mode_has_type_bits(table: Map<Seq<char>, Node>, idx: usize)
    ensures
        asset_of(table, idx) matches Ok(file) ==> (file.mode matches Some(mode) ==> mode
            & S_IFMT != 0),
{
    if let Ok(file) = asset_of(table, idx) {
        if let Some(mode) = file.mode {
            let text = table["mode"@]->String_0;
            lemma_mode_has_type_bits(parse_octal(text)->Some_0, file.source);
        }
    }
}

/// Resolves the `assets` array of a `generate-rpm` table into the files of
/// the package.
pub fn resolve_assets(metadata: &ConfigTable) -> (files: Result<Vec<FileInfo>, ConfigError>)
    ensures
        outcome(files) == assets_of(entries_of(*metadata)),
{
    let items = match table_get(metadata, "assets") {
        None => {
            return Err(ConfigError::Missing("package.metadata.generate-rpm.assets"));
        },
        Some(value) => match value_as_array(value) {
            None => {
                return Err(
                    ConfigError::WrongType("package.metadata.generate-rpm.assets", "array"),
                );
            },
            Some(items) => items,
        },
    };
    let ghost nodes = nodes_of(items@);
    let mut files: Vec<FileInfo> = Vec::with_capacity(items.len());
    let mut idx: usize = 0;
    proof {
        assert(nodes.take(0) == Seq::<Node>::empty());
        assert(files.deep_view() == Seq::<FileInfoView>::empty());
    }
    while idx < items.len()
        invariant
            idx <= items.len(),
            nodes == nodes_of(items@),
            assets_of(entries_of(*metadata)) == files_from(nodes),
            files_from(nodes.take(idx as int)) == Ok::<_, ConfigErrorView>(files.deep_view()),
        decreases items.len() - idx,
    {
        let ghost done = files.deep_view();
        proof {
            assert(nodes.take(idx + 1).drop_last() == nodes.take(idx as int));
            assert(nodes.take(idx + 1).last() == node_of(items@[idx as int]));
        }
        let info = match value_as_table(&items[idx]) {
            None => Err(ConfigError::AssetFileUndefined(idx, "source")),
            Some(table) => _handle_file(table, idx),
        };
        match info {
            Err(error) => {
                proof {
                    lemma_error_stays(nodes, idx + 1);
                }
                return Err(error);
            },
            Ok(file) => {
                files.push(file);
                assert(files.deep_view() == done.push(file@));
            },
        }
        idx = idx + 1;
    }
    assert(nodes.take(idx as int) == nodes);
    Ok(files)
}

} // verus!
