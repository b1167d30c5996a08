//! Merging component dependencies into a project manifest.
//!
//! Reading and writing the manifest text is the work of `cargo_toml` and
//! `toml`; what this module proves is which entries end up in the
//! dependency table.

use vstd::prelude::*;
use vstd::string::*;
use crate::catalog::{Component, ComponentCatalog, Dependency};
use crate::catalog::selected;
use crate::error::CliError;
use crate::merge::{contributed, merged_table, written_entry, DependencyTable, EntryView};
use crate::merge::{lemma_merge_concat, lemma_contributed_push};

verus! {

/// `cargo_toml::Manifest`, a parsed manifest. Nothing inside it is visible
/// to the proofs.
#[verifier::external_type_specification]
#[verifier::external_body]
#[verifier::reject_recursive_types(Metadata)]
pub struct ExManifest<Metadata>(cargo_toml::Manifest<Metadata>);

/// `toml::Value`, the type of a manifest's free-form metadata.
#[verifier::external_type_specification]
#[verifier::external_body]
pub struct ExValue(toml::Value);

/// `cargo_toml::Error`, the error of parsing a manifest.
#[verifier::external_type_specification]
#[verifier::external_body]
pub struct ExParseError(cargo_toml::Error);

/// `toml::ser::Error`, the error of rendering a manifest.
#[verifier::external_type_specification]
#[verifier::external_body]
pub struct ExRenderError(toml::ser::Error);

/// The `dependencies` table of a `cargo_toml::Manifest`: its keys, each with
/// the entry stored under it read as follows. `Dependency::Simple(v)` is a
/// bare entry with version `v`, no features, not optional, default features
/// on. `Dependency::Inherited(d)` is an inherited entry without a version,
/// with `d.features` and `d.optional`, default features on.
/// `Dependency::Detailed(d)` is a detailed entry with `d.version`,
/// `d.features`, `d.optional` and `d.default_features`. An entry is from the
/// default registry unless it is detailed and one of `path`, `registry`,
/// `registry_index`, `git`, `branch`, `tag`, `rev` is set.
pub uninterp spec fn dependency_table(manifest: cargo_toml::Manifest<toml::Value>) -> Map<
    Seq<char>,
    EntryView,
>;

/// What `cargo_toml::Manifest::from_slice` makes of `content`: `None` where
/// it reports an error, else the dependency table of the manifest it
/// returns.
pub uninterp spec fn parsed_dependencies(content: Seq<u8>) -> Option<Map<Seq<char>, EntryView>>;

/// The text that `toml::to_string` renders a manifest to, `None` where it
/// reports an error.
pub uninterp spec fn rendered_text(manifest: cargo_toml::Manifest<toml::Value>) -> Option<
    Seq<char>,
>;

/// Calls `cargo_toml::Manifest::from_slice`, which parses the bytes of a
/// manifest file. The contract claims that the outcome depends on the bytes
/// alone, and names it.
#[verifier::external_body]
fn parse_manifest(content: &[u8]) -> (parsed: Result<
    cargo_toml::Manifest<toml::Value>,
    cargo_toml::Error,
>)
    ensures
        match parsed {
            Ok(manifest) => parsed_dependencies(content@) == Some(dependency_table(manifest)),
            Err(_) => parsed_dependencies(content@).is_none(),
        },
{
    cargo_toml::Manifest::from_slice(content)
}

/// Calls `BTreeMap::insert` on the `dependencies` field of the manifest,
/// with the key `dependency.name` and a `Dependency::Detailed` record that
/// holds the version, features and optional flag of `dependency` and is
/// otherwise `DependencyDetail::default()`. The contract claims that the
/// table then holds that record under that key, in place of whatever the
/// key stood for, and is otherwise unchanged.
#[verifier::external_body]
fn insert_dependency(manifest: &mut cargo_toml::Manifest<toml::Value>, dependency: &Dependency)
    ensures
        dependency_table(*final(manifest)) == dependency_table(*old(manifest)).insert(
            dependency@.name,
            written_entry(dependency@),
        ),
{
    let detail = cargo_toml::DependencyDetail {
        version: Some(dependency.version.clone()),
        features: dependency.features.clone(),
        optional: dependency.optional,
        ..Default::default()
    };
    let record = cargo_toml::Dependency::Detailed(Box::new(detail));
    manifest.dependencies.insert(dependency.name.clone(), record);
}

/// Calls `toml::to_string` on the manifest. The contract claims that the
/// outcome depends on the manifest alone, and names it.
#[verifier::external_body]
fn render_manifest(manifest: &cargo_toml::Manifest<toml::Value>) -> (rendered: Result<
    String,
    toml::ser::Error,
>)
    ensures
        match rendered {
            Ok(text) => rendered_text(*manifest) == Some(text@),
            Err(_) => rendered_text(*manifest).is_none(),
        },
{
    toml::to_string(manifest)
}

/// Calls `to_string` on a `cargo_toml::Error`, which formats the error by
/// its `Display` impl. Nothing is claimed of the text.
#[verifier::external_body]
fn parse_error_text(error: &cargo_toml::Error) -> String {
    error.to_string()
}

/// Calls `to_string` on a `toml::ser::Error`, which formats the error by
/// its `Display` impl. Nothing is claimed of the text.
#[verifier::external_body]
fn render_error_text(error: &toml::ser::Error) -> String {
    error.to_string()
}

/// A parsed manifest. Its view is its dependency table.
#[derive(Debug)]
pub struct ManifestDocument {
    manifest: cargo_toml::Manifest<toml::Value>,
}

impl View for ManifestDocument {
    type V = DependencyTable;

    closed spec fn view(&self) -> DependencyTable {
        dependency_table(self.manifest)
    }
}

impl ManifestDocument {
    /// The text that the document renders to, `None` where it cannot be
    /// rendered.
    pub closed spec fn text(&self) -> Option<Seq<char>> {
        rendered_text(self.manifest)
    }

    /// Parses the content of a manifest file.
    pub fn parse(content: &[u8]) -> (parsed: Result<ManifestDocument, CliError>)
        ensures
            match parsed {
                Ok(document) => parsed_dependencies(content@) == Some(document@),
                Err(e) => parsed_dependencies(content@).is_none() && e is ManifestError,
            },
    {
        match parse_manifest(content) {
            Ok(manifest) => Ok(ManifestDocument { manifest }),
            Err(e) => Err(CliError::ManifestError(parse_error_text(&e))),
        }
    }

    /// Writes `dependency` into the table, in place of what its name stood
    /// for.
    pub fn add_dependency(&mut self, dependency: &Dependency)
        ensures
            final(self)@ == old(self)@.insert(dependency@.name, written_entry(dependency@)),
    {
        insert_dependency(&mut self.manifest, dependency);
    }

    /// Writes the dependencies of `component` into the table, in the order
    /// in which it declares them.
    pub fn add_component(&mut self, component: &Component)
        ensures
            final(self)@ == merged_table(old(self)@, component@.dependencies),
    {
        let mut i: usize = 0;
        assert(component@.dependencies.take(0) =~= Seq::empty());
        while i < component.dependencies.len()
            invariant
                i <= component.dependencies.len(),
                self@ == merged_table(old(self)@, component@.dependencies.take(i as int)),
            decreases component.dependencies.len() - i,
        {
            let ghost next = component@.dependencies.take(i as int + 1);
            assert(next.drop_last() =~= component@.dependencies.take(i as int));
            assert(next.last() == component.dependencies[i as int]@);
            self.add_dependency(&component.dependencies[i]);
            i += 1;
        }
        assert(component@.dependencies.take(i as int) =~= component@.dependencies);
    }

    /// Writes the dependencies of `components` into the table, component by
    /// component. Where two declarations share a name, the later one stays.
    pub fn merge_dependencies(&mut self, components: &Vec<&Component>)
        ensures
            final(self)@ == merged_table(old(self)@, contributed(components.deep_view())),
    {
        let mut i: usize = 0;
        assert(components.deep_view().take(0) =~= Seq::empty());
        while i < components.len()
            invariant
                i <= components.len(),
                self@ == merged_table(
                    old(self)@,
                    contributed(components.deep_view().take(i as int)),
                ),
            decreases components.len() - i,
        {
            let ghost done = components.deep_view().take(i as int);
            proof {
                assert(components.deep_view().take(i as int + 1) =~= done.push(components[i as int]@));
                lemma_contributed_push(done, components[i as int]@);
                lemma_merge_concat(old(self)@, contributed(done), components[i as int]@.dependencies);
            }
            self.add_component(components[i]);
            i += 1;
        }
        assert(components.deep_view().take(i as int) =~= components.deep_view());
    }

    /// Renders the document as manifest text.
    pub fn render(&self) -> (rendered: Result<String, CliError>)
        ensures
            match rendered {
                Ok(text) => self.text() == Some(text@),
                Err(e) => self.text().is_none() && e is ManifestError,
            },
    {
        match render_manifest(&self.manifest) {
            Ok(text) => Ok(text),
            Err(e) => Err(CliError::ManifestError(render_error_text(&e))),
        }
    }
}

/// Whether `document` is what the manifest `content` parses to with the
/// dependencies merged in that the selection `ids` from `catalog`
/// contributes.
pub open spec fn is_merge_of(
    document: ManifestDocument,
    content: Seq<u8>,
    catalog: Seq<crate::catalog::ComponentView>,
    ids: Seq<Seq<char>>,
) -> bool {
    parsed_dependencies(content) matches Some(base) && document@ == merged_table(
        base,
        contributed(selected(catalog, ids)),
    )
}

/// Whether `updated` is a possible outcome of updating the manifest
/// `content` with the selection `ids` from `catalog`: either the text of a
/// document that is the merge, or a manifest error where `content` does not
/// parse or such a document does not render.
pub open spec fn is_update_of(
    updated: Result<String, CliError>,
    content: Seq<u8>,
    catalog: Seq<crate::catalog::ComponentView>,
    ids: Seq<Seq<char>>,
) -> bool {
    match updated {
        Ok(text) => exists|document: ManifestDocument|
            is_merge_of(document, content, catalog, ids) && document.text() == Some(text@),
        Err(e) => e is ManifestError && (parsed_dependencies(content).is_none()
            || exists|document: ManifestDocument|
            is_merge_of(document, content, catalog, ids) && document.text().is_none()),
    }
}

/// The manifest text that results from merging into the manifest `content`
/// the dependencies of the components that `ids` select from `catalog`.
/// Ids that the catalog does not hold are passed over.
pub fn update_cargo_toml(content: &[u8], catalog: &ComponentCatalog, ids: &[String]) -> (updated:
    Result<String, CliError>)
    ensures
        is_update_of(updated, content@, catalog@, ids.deep_view()),
{
    match ManifestDocument::parse(content) {
        Ok(mut document) => {
            let chosen = catalog.select(ids);
            document.merge_dependencies(&chosen);
            let rendered = document.render();
            proof {
                assert(is_merge_of(document, content@, catalog@, ids.deep_view()));
            }
            rendered
        },
        Err(e) => Err(e),
    }
}

/// Adds the components that `ids` select from `catalog` to the project
/// whose manifest is `content`, and gives the new manifest text.
pub fn add_components(content: &[u8], catalog: &ComponentCatalog, ids: &[String]) -> (updated:
    Result<String, CliError>)
    ensures
        is_update_of(updated, content@, catalog@, ids.deep_view()),
{
    update_cargo_toml(content, catalog, ids)
}

} // verus!
