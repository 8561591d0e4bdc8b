//! The hover-event data shape used by chat tooltips: a tagged union of a
//! text tooltip, an item and an entity. Its wire encoding is a JSON object
//! `{action, contents}` with the action tag in snake_case; the encoder lives
//! with the caller, which keeps absent optional fields omitted rather than
//! nulled.
use vstd::prelude::*;

verus! {

/// A chat component's hover event.
#[derive(Clone, Debug, PartialEq, Eq)]
pub enum HoverEvent {
    /// Displays a tooltip with the given text.
    ShowText(String),
    /// Shows an item.
    ShowItem {
        /// Resource identifier of the item.
        id: String,
        /// Number of the items in the stack.
        count: Option<i32>,
        /// NBT information about the item (sNBT format).
        tag: String,
    },
    /// Shows an entity.
    ShowEntity {
        /// The entity's UUID, as its 128-bit value.
        id: u128,
        /// Resource identifier of the entity.
        kind: Option<String>,
        /// Optional custom name for the entity, as its plain text.
        name: Option<String>,
    },
}

impl HoverEvent {
    /// The `action` tag of the wire encoding's tagged union, in snake_case.
    pub fn action_name(&self) -> (tag: &'static str)
        ensures
            self is ShowText ==> tag@ == "show_text"@,
            self is ShowItem ==> tag@ == "show_item"@,
            self is ShowEntity ==> tag@ == "show_entity"@,
    {
        match self {
            HoverEvent::ShowText(..) => "show_text",
            HoverEvent::ShowItem { .. } => "show_item",
            HoverEvent::ShowEntity { .. } => "show_entity",
        }
    }
}

} // verus!
