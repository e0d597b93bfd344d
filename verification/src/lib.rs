//! An in-memory bestiary for a collection game.
//!
//! The [`Bestiary`] registry maps species ids to a catalog [`Status`]
//! (`None`, `Seen` or `Owned`), advances that status through the `see` and
//! `own` events, and renders a status-gated projection of a species' data
//! through `view_species`. The [`Name`] and [`Id`] traits are the capability
//! interfaces that species and attribute types implement.

pub mod bestiary;
pub mod identity;

pub use bestiary::Bestiary;
pub use bestiary::BestiarySpeciesData;
pub use bestiary::Entry;
pub use bestiary::OwnedEntry;
pub use bestiary::SeenEntry;
pub use bestiary::Species;
pub use bestiary::Status;
pub use identity::Id;
pub use identity::Name;
