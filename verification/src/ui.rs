//! What the views draw, as plain values: colours and the rows of the
//! magit-style transient popups.

use vstd::prelude::*;

verus! {

/// The theme colours the views use.
#[derive(PartialEq, Eq, Structural, Clone, Copy, Debug)]
pub enum Color {
    Default,
    Muted,
    Accent,
    Disabled,
    Created,
    Error,
    Info,
    Success,
    Warning,
}

/// A toggleable argument row such as `-f Fast-forward only (--ff-only)`.
pub struct ArgumentRow {
    pub key: &'static str,
    pub description: &'static str,
    pub flag: &'static str,
    pub active: bool,
}

/// An action row: the key that runs it and what it acts on.
pub struct ActionRow {
    pub key: String,
    pub description: String,
}

/// The view of an argument row.
pub open spec fn argument_view(r: ArgumentRow) -> (Seq<char>, Seq<char>, Seq<char>, bool) {
    (r.key@, r.description@, r.flag@, r.active)
}

/// The views of argument rows.
pub open spec fn arguments_view(rows: Seq<ArgumentRow>) -> Seq<(Seq<char>, Seq<char>, Seq<char>, bool)> {
    rows.map_values(|r: ArgumentRow| argument_view(r))
}

/// The views of action rows.
pub open spec fn actions_view(rows: Seq<ActionRow>) -> Seq<(Seq<char>, Seq<char>)> {
    rows.map_values(|r: ActionRow| (r.key@, r.description@))
}

/// The colours of an argument row's description and flag: enabled arguments
/// stand out, disabled ones are dimmed. The key is always drawn in
/// `Color::Created`.
pub fn argument_colors(active: bool) -> (r: (Color, Color))
    ensures
        r == if active {
            (Color::Default, Color::Accent)
        } else {
            (Color::Muted, Color::Disabled)
        },
{
    if active {
        (Color::Default, Color::Accent)
    } else {
        (Color::Muted, Color::Disabled)
    }
}

/// An argument row.
pub fn argument(key: &'static str, description: &'static str, flag: &'static str, active: bool) -> (r: ArgumentRow)
    ensures
        argument_view(r) == (key@, description@, flag@, active),
{
    ArgumentRow { key, description, flag, active }
}

/// An action row.
pub fn action(key: &str, description: &str) -> (r: ActionRow)
    ensures
        r.key@ == key@,
        r.description@ == description@,
{
    ActionRow { key: crate::text::to_owned_string(key), description: crate::text::to_owned_string(description) }
}

} // verus!
