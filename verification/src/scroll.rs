//! Where the viewport goes after the entry list has changed.

use vstd::prelude::*;

verus! {

/// Distance kept from the bottom edge after a new entry was appended.
pub const OFFSET_FROM_BOTTOM: i32 = 0;

/// Distance kept from the top edge after an older page was prepended.
pub const OFFSET_FROM_TOP: i32 = 10;

/// Time given to the layout to settle after a mutation, in milliseconds.
pub const SETTLE_MS: u32 = 50;

/// Time given to the first page, whose images still load, in milliseconds.
pub const FIRST_LOAD_SETTLE_MS: u32 = 300;

/// The two ways the entry list grows.
#[derive(Clone, Copy, Debug, PartialEq, Eq, Structural)]
pub enum Mutation {
    /// A new entry was added below the viewport.
    Append,
    /// An older page was added above the viewport.
    Prepend,
}

/// A deferred scroll: wait `delay_ms`, then place the viewport `offset`
/// pixels from the bottom or from the top.
#[derive(Clone, Copy, Debug, PartialEq, Eq, Structural)]
pub struct ScrollInstruction {
    pub offset: i32,
    pub from_bottom: bool,
    pub delay_ms: u32,
}

/// The scroll position that `instr` asks for in a view of height `scroll_height`.
pub open spec fn target_of(instr: ScrollInstruction, scroll_height: int) -> int {
    if instr.from_bottom {
        scroll_height - instr.offset
    } else {
        instr.offset as int
    }
}

/// The instruction that follows a mutation of the given kind.
pub open spec fn instruction_for(kind: Mutation) -> ScrollInstruction {
    match kind {
        Mutation::Append => ScrollInstruction {
            offset: OFFSET_FROM_BOTTOM,
            from_bottom: true,
            delay_ms: SETTLE_MS,
        },
        Mutation::Prepend => ScrollInstruction {
            offset: OFFSET_FROM_TOP,
            from_bottom: false,
            delay_ms: SETTLE_MS,
        },
    }
}

impl ScrollInstruction {
    /// The instruction issued once a mutation of kind `kind` has been rendered.
    pub fn after(kind: Mutation) -> (instr: ScrollInstruction)
        ensures
            instr == instruction_for(kind),
    {
        match kind {
            Mutation::Append => ScrollInstruction {
                offset: OFFSET_FROM_BOTTOM,
                from_bottom: true,
                delay_ms: SETTLE_MS,
            },
            Mutation::Prepend => ScrollInstruction {
                offset: OFFSET_FROM_TOP,
                from_bottom: false,
                delay_ms: SETTLE_MS,
            },
        }
    }

    /// The instruction issued after the very first render: anchored to the
    /// bottom, after the longer settle delay.
    pub fn first_load() -> (instr: ScrollInstruction)
        ensures
            instr == (ScrollInstruction {
                offset: OFFSET_FROM_BOTTOM,
                from_bottom: true,
                delay_ms: FIRST_LOAD_SETTLE_MS,
            }),
    {
        ScrollInstruction {
            offset: OFFSET_FROM_BOTTOM,
            from_bottom: true,
            delay_ms: FIRST_LOAD_SETTLE_MS,
        }
    }

    /// The position asked for in a view of this height is one that a scroll
    /// position can hold.
    pub fn fits(&self, scroll_height: i32) -> (ok: bool)
        ensures
            ok == (i32::MIN <= target_of(*self, scroll_height as int) <= i32::MAX),
    {
        if self.from_bottom {
            let target: i64 = scroll_height as i64 - self.offset as i64;
            -2_147_483_648 <= target && target <= 2_147_483_647
        } else {
            true
        }
    }

    /// The scroll position to set, given the measured height of the content.
    pub fn scroll_to_position(&self, scroll_height: i32) -> (top: i32)
        requires
            i32::MIN <= target_of(*self, scroll_height as int) <= i32::MAX,
        ensures
            top == target_of(*self, scroll_height as int),
    {
        if self.from_bottom {
            scroll_height - self.offset
        } else {
            self.offset
        }
    }
}

/// The scroll position to restore after a mutation of kind `kind`: a fixed
/// distance from the bottom after an append, a fixed distance from the top
/// after a prepend. The position held before the mutation plays no part.
pub fn restore_after_mutation(kind: Mutation, scroll_height: i32, prior_scroll_top: i32) -> (top:
    i32)
    ensures
        top == target_of(instruction_for(kind), scroll_height as int),
        kind == Mutation::Append ==> top == scroll_height - OFFSET_FROM_BOTTOM,
        kind == Mutation::Prepend ==> top == OFFSET_FROM_TOP,
{
    ScrollInstruction::after(kind).scroll_to_position(scroll_height)
}

} // verus!
