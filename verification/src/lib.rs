//! Merging of the modules of a chunk into one module.
//!
//! A dependency is merged into its importer in these steps. An
//! [`ExportRenamer`](export_renamer::ExportRenamer) gives what the dependency
//! exports the names that the importer uses, and puts the mark of the dependency
//! on them. An [`Unexporter`](unexporter::Unexporter) takes `export` away. A
//! [`LocalMarker`](local_marker::LocalMarker) puts the same mark on the uses in
//! the importer. An [`Es6ModuleInjector`](injector::Es6ModuleInjector) puts the
//! items of the dependency in the place of the import. A
//! [`Bundler`](merge::Bundler) decides which module is merged when.
//!
//! What each of these does is stated by [`events`], [`uses`] and [`marking_laws`]
//! for marking, by [`pattern_laws`], [`export_laws`], [`namespace_laws`] and
//! [`renaming_laws`] for renaming, and by [`step_laws`] for the decisions.
//! [`connection`], [`declaration_laws`], [`merge_laws`] and [`whole_merge`] state
//! what holds of them together.
pub mod actual_marker;
pub mod connection;
pub mod copy;
pub mod declaration_laws;
pub mod events;
pub mod export_laws;
pub mod export_renamer;
pub mod hygiene;
pub mod injector;
pub mod local_marker;
pub mod marking_laws;
pub mod merge;
pub mod merge_laws;
pub mod namespace_laws;
pub mod pattern;
pub mod pattern_laws;
pub mod renaming_laws;
pub mod run;
pub mod scope;
pub mod specifier;
pub mod step_laws;
pub mod syntax;
pub mod unexporter;
pub mod uses;
pub mod whole_merge;
