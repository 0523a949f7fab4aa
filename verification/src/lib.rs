//! An index of the fonts that were found: families, their faces, and the
//! sources that hold them.
//!
//! A [`StaticIndex`] is filled once from the fonts of the system. It finds a
//! family by name, identifier or generic family, selects the face of a family
//! that is nearest to the attributes asked for, and gives for each script
//! the families to fall back on, in order, where a font lacks a glyph. A
//! [`DynamicIndex`] takes the fonts that an application registers while it
//! runs, and shares each family with whoever holds a handle to it.
//!
//! Every function is total. What it returns is stated for every index; what
//! holds in addition of an index that is well formed, as every index is that
//! is filled through these functions alone, is stated under `wf()`.

pub mod attributes;
pub mod defaults;
pub mod dynamic;
pub mod entry;
pub mod fallback;
pub mod ids;
pub mod index;
pub mod index_data;
pub mod laws;
pub mod names;
pub mod script;
pub mod store;

pub use attributes::{Attributes, RequestedAttributes, Style};
pub use dynamic::{DynamicIndex, FaceInfo};
pub use entry::{FamilyEntry, FontEntry, SourceEntry};
pub use fallback::Fallbacks;
pub use ids::{FamilyId, FontId, SourceId};
pub use index::{FamilyKey, StaticIndex};
pub use index_data::{FamilyData, FamilyFont, FontData, SourceData, SourceKind};
pub use script::{Cjk, GenericFamily, Os, Script};
pub use store::BaseIndex;
