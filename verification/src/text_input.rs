//! Text-input (IME) focus for one window: which logical text field owns
//! composition, and the reset protocol when focus moves between fields.
//!
//! At most one field per window is active. Moving focus resets the field
//! losing it before the new one is activated (itself with a reset, so no
//! stale composition survives); clearing focus resets only the field that
//! had it. Field updates are gated on the field being the active one — an
//! update for any other field is dropped.

use vstd::prelude::*;

use crate::tokens::{TextFieldToken, TokenCounter};

verus! {

/// A notification about a text field, delivered to the platform's
/// composition machinery.
#[derive(Clone, Copy, Debug, PartialEq, Eq, Structural)]
pub enum ImeEvent {
    /// The field's text or selection changed out from under the IME; any
    /// composition in progress must be discarded.
    Reset,
    /// The field moved on screen; cached candidate-window coordinates are
    /// stale.
    LayoutChanged,
    /// The selection changed; composition must be discarded as on reset.
    SelectionChanged,
}

/// What the platform must do to its input context for an accepted update.
#[derive(Clone, Copy, Debug, PartialEq, Eq, Structural)]
pub enum ImeAction {
    /// Recompute the on-screen coordinates of the composition.
    InvalidateCoordinates,
    /// Discard marked text and clear the handler's composition range.
    DiscardComposition,
}

/// Text-input state of one window.
pub struct TextInputState {
    active: Option<TextFieldToken>,
    counter: TokenCounter,
}

impl TextInputState {
    /// The field that currently owns composition focus, if any.
    pub closed spec fn spec_active(self) -> Option<TextFieldToken> {
        self.active
    }

    pub closed spec fn spec_next_token(self) -> u64 {
        self.counter.spec_next()
    }

    pub fn new() -> (s: TextInputState)
        ensures
            s.spec_active() is None,
    {
        TextInputState { active: None, counter: TokenCounter::new() }
    }

    /// Whether another text field can be registered.
    pub fn has_capacity(&self) -> (b: bool)
        ensures
            b == (self.spec_next_token() < u64::MAX),
    {
        self.counter.raw_left()
    }

    /// Register a new text field and hand out its token. Registration does
    /// not focus the field.
    pub fn add_text_field(&mut self) -> (t: TextFieldToken)
        requires
            old(self).spec_next_token() < u64::MAX,
        ensures
            t.spec_raw() == old(self).spec_next_token(),
            final(self).spec_next_token() == old(self).spec_next_token() + 1,
            final(self).spec_active() == old(self).spec_active(),
    {
        let raw = self.counter.next_raw();
        TextFieldToken::from_raw(raw)
    }

    /// Unregister a field. If it was the active one, the window is left
    /// with no active field; any other field's focus is untouched.
    pub fn remove_text_field(&mut self, token: TextFieldToken)
        ensures
            old(self).spec_active() == Some(token) ==> final(self).spec_active() is None,
            old(self).spec_active() != Some(token) ==> final(self).spec_active() == old(
                self,
            ).spec_active(),
            final(self).spec_next_token() == old(self).spec_next_token(),
    {
        match self.active {
            Some(active) => {
                if active.into_raw() == token.into_raw() {
                    proof {
                        crate::tokens::lemma_text_field_token_raw_injective(active, token);
                    }
                    self.active = None;
                }
            },
            None => {},
        }
    }

    /// Move composition focus to `field` (or to no field). Returns the
    /// reset notifications to deliver, in order: first to the field losing
    /// focus, if one had it, then to the field gaining it, if any — so a
    /// previously focused field is always reset before the new one is
    /// activated, and clearing focus resets only the previously active
    /// field.
    pub fn set_focused_text_field(&mut self, field: Option<TextFieldToken>) -> (emissions: Vec<
        (TextFieldToken, ImeEvent),
    >)
        ensures
            final(self).spec_active() == field,
            final(self).spec_next_token() == old(self).spec_next_token(),
            emissions@ == (match (old(self).spec_active(), field) {
                (Some(prev), Some(next)) => seq![
                    (prev, ImeEvent::Reset),
                    (next, ImeEvent::Reset),
                ],
                (Some(prev), None) => seq![(prev, ImeEvent::Reset)],
                (None, Some(next)) => seq![(next, ImeEvent::Reset)],
                (None, None) => Seq::<(TextFieldToken, ImeEvent)>::empty(),
            }),
    {
        let mut emissions: Vec<(TextFieldToken, ImeEvent)> = Vec::new();
        if let Some(prev) = self.active {
            emissions.push((prev, ImeEvent::Reset));
        }
        self.active = field;
        if let Some(next) = field {
            emissions.push((next, ImeEvent::Reset));
        }
        proof {
            assert(emissions@ =~= (match (old(self).spec_active(), field) {
                (Some(prev), Some(next)) => seq![
                    (prev, ImeEvent::Reset),
                    (next, ImeEvent::Reset),
                ],
                (Some(prev), None) => seq![(prev, ImeEvent::Reset)],
                (None, Some(next)) => seq![(next, ImeEvent::Reset)],
                (None, None) => Seq::<(TextFieldToken, ImeEvent)>::empty(),
            }));
        }
        emissions
    }

    /// An update arrived for `token`. It is acted on only while that field
    /// is the active one; the result names the input-context work to do,
    /// or `None` when the update is dropped as stale.
    pub fn update_text_field(&self, token: TextFieldToken, update: ImeEvent) -> (r: Option<
        ImeAction,
    >)
        ensures
            self.spec_active() != Some(token) ==> r is None,
            self.spec_active() == Some(token) ==> r == Some(
                match update {
                    ImeEvent::LayoutChanged => ImeAction::InvalidateCoordinates,
                    ImeEvent::Reset => ImeAction::DiscardComposition,
                    ImeEvent::SelectionChanged => ImeAction::DiscardComposition,
                },
            ),
    {
        let is_active = match self.active {
            Some(active) => {
                if active.into_raw() == token.into_raw() {
                    proof {
                        crate::tokens::lemma_text_field_token_raw_injective(active, token);
                    }
                    true
                } else {
                    false
                }
            },
            None => false,
        };
        if !is_active {
            return None;
        }
        match update {
            ImeEvent::LayoutChanged => Some(ImeAction::InvalidateCoordinates),
            ImeEvent::Reset => Some(ImeAction::DiscardComposition),
            ImeEvent::SelectionChanged => Some(ImeAction::DiscardComposition),
        }
    }
}

/// A key-down the handler did not consume must go on to the native
/// text-input system, which needs the original native event for
/// composition; a consumed one must not.
pub fn needs_ime_forward(handled: bool) -> (forward: bool)
    ensures
        forward == !handled,
{
    !handled
}

} // verus!
