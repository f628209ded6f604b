//! Typed accessors for the options of a slash-command interaction.
//!
//! A command payload is a tree of named, typed option nodes with at most two
//! levels of subcommand nesting. The accessors of `InteractionCustomGet`
//! collapse that shape to one lookup per field: they choose the list to
//! search from the first top-level option, find the first option of the
//! requested kind and name in it, and yield its resolved value.

pub mod interaction;
pub mod laws;
pub mod option;
pub mod payload;
pub mod search;
pub mod text;

pub use interaction::can_resolve;
pub use interaction::get_value;
pub use interaction::Interaction;
pub use interaction::InteractionCustomGet;
pub use option::CommandOption;
pub use option::OptionKind;
pub use option::ResolvedValue;
