//! Augments a struct declaration, given as source text, with the derives and
//! the `ScrapedItem` implementation that a scraped item needs.
pub mod augment;
pub mod capability;
pub mod declaration;
pub mod laws;

pub use augment::{augment, finish_augmentation, scraped_item, AugmentedUnit, InterfaceImpl};
pub use capability::Capability;
pub use declaration::{ParseError, StructDeclaration};
