//! Opaque identifiers handed out by the shell: timer tokens, text-field
//! tokens, idle tokens and file-dialog tokens.
//!
//! Tokens are allocated from monotonically increasing counters, so a token
//! is never reused for a different request within one counter's lifetime;
//! stale-token detection (a timer fires after its window closed) relies on
//! that.

use vstd::prelude::*;

verus! {

/// Identifies one `request_timer` call; handed back to the handler when the
/// timer fires.
#[derive(Clone, Copy, Debug, PartialEq, Eq, Hash, Structural)]
pub struct TimerToken {
    raw: u64,
}

impl TimerToken {
    pub closed spec fn spec_raw(self) -> u64 {
        self.raw
    }

    pub fn from_raw(raw: u64) -> (t: TimerToken)
        ensures
            t.spec_raw() == raw,
    {
        TimerToken { raw }
    }

    pub fn into_raw(self) -> (raw: u64)
        ensures
            raw == self.spec_raw(),
    {
        self.raw
    }
}

/// Identifies one logical text field registered on a window.
#[derive(Clone, Copy, Debug, PartialEq, Eq, Hash, Structural)]
pub struct TextFieldToken {
    raw: u64,
}

impl TextFieldToken {
    pub closed spec fn spec_raw(self) -> u64 {
        self.raw
    }

    pub fn from_raw(raw: u64) -> (t: TextFieldToken)
        ensures
            t.spec_raw() == raw,
    {
        TextFieldToken { raw }
    }

    pub fn into_raw(self) -> (raw: u64)
        ensures
            raw == self.spec_raw(),
    {
        self.raw
    }
}

/// Passed through the idle queue to the handler's generic idle hook.
#[derive(Clone, Copy, Debug, PartialEq, Eq, Hash, Structural)]
pub struct IdleToken {
    raw: u64,
}

impl IdleToken {
    pub closed spec fn spec_raw(self) -> u64 {
        self.raw
    }

    pub fn from_raw(raw: u64) -> (t: IdleToken)
        ensures
            t.spec_raw() == raw,
    {
        IdleToken { raw }
    }

    pub fn into_raw(self) -> (raw: u64)
        ensures
            raw == self.spec_raw(),
    {
        self.raw
    }
}

/// Identifies one open/save dialog request; the chosen path comes back to
/// the handler under this token.
#[derive(Clone, Copy, Debug, PartialEq, Eq, Hash, Structural)]
pub struct FileDialogToken {
    raw: u64,
}

impl FileDialogToken {
    pub closed spec fn spec_raw(self) -> u64 {
        self.raw
    }

    pub fn from_raw(raw: u64) -> (t: FileDialogToken)
        ensures
            t.spec_raw() == raw,
    {
        FileDialogToken { raw }
    }

    pub fn into_raw(self) -> (raw: u64)
        ensures
            raw == self.spec_raw(),
    {
        self.raw
    }
}

/// A timer token is nothing but its number: two tokens with the same raw
/// number are the same token.
pub proof fn lemma_timer_token_raw_injective(a: TimerToken, b: TimerToken)
    requires
        a.spec_raw() == b.spec_raw(),
    ensures
        a == b,
{
}

/// A text-field token is nothing but its number: two tokens with the same
/// raw number are the same token.
pub proof fn lemma_text_field_token_raw_injective(a: TextFieldToken, b: TextFieldToken)
    requires
        a.spec_raw() == b.spec_raw(),
    ensures
        a == b,
{
}

/// A monotonically increasing source of token numbers. The shell keeps one
/// per token kind; every call returns a number strictly larger than every
/// number returned before.
#[derive(Clone, Copy, Debug, PartialEq, Eq, Structural)]
pub struct TokenCounter {
    next: u64,
}

impl TokenCounter {
    pub closed spec fn spec_next(self) -> u64 {
        self.next
    }

    /// Token numbers start at 1, so 0 can stand for "no token".
    pub fn new() -> (c: TokenCounter)
        ensures
            c.spec_next() == 1,
    {
        TokenCounter { next: 1 }
    }

    /// Whether another number can be handed out.
    pub fn raw_left(&self) -> (b: bool)
        ensures
            b == (self.spec_next() < u64::MAX),
    {
        self.next < u64::MAX
    }

    /// Hand out the next number.
    pub fn next_raw(&mut self) -> (raw: u64)
        requires
            old(self).spec_next() < u64::MAX,
        ensures
            raw == old(self).spec_next(),
            final(self).spec_next() == old(self).spec_next() + 1,
    {
        let raw = self.next;
        self.next = self.next + 1;
        raw
    }
}

} // verus!
