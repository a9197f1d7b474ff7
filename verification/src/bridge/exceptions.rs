//! How often a pending exception is described in full.

use vstd::prelude::*;

verus! {

/// How many exceptions are described in full in the life of a process.
pub const MAX_EXCEPTION_DESCRIPTIONS: usize = 5;

/// What is done about an exception before it is cleared.
#[derive(Clone, Copy, Debug, PartialEq, Eq)]
pub struct Description {
    /// The number of the exception, where one is pending.
    pub ordinal: Option<usize>,
    /// Whether the exception is described in full.
    pub emit: bool,
}

/// How many exceptions were pending when they were about to be cleared.
pub struct ExceptionDescriptions {
    seen: usize,
}

impl View for ExceptionDescriptions {
    type V = usize;

    closed spec fn view(&self) -> usize {
        self.seen
    }
}

impl ExceptionDescriptions {
    /// No exception was seen yet.
    pub fn new() -> (descriptions: ExceptionDescriptions)
        ensures
            descriptions@ == 0,
    {
        ExceptionDescriptions { seen: 0 }
    }
}

/// Whether the exception with this number is described in full.
pub open spec fn is_described(ordinal: usize) -> bool {
    ordinal < MAX_EXCEPTION_DESCRIPTIONS
}

/// The number of the exception after this one.
pub open spec fn after_exception(ordinal: usize) -> usize {
    if ordinal == usize::MAX {
        0
    } else {
        (ordinal + 1) as usize
    }
}

/// Decides about an exception before it is cleared, given whether one is pending, where that could
/// be told. Only a pending one is numbered, and only the first few are described.
pub fn describe_pending_java_exception_before_clear(
    descriptions: &mut ExceptionDescriptions,
    pending: Option<bool>,
) -> (description: Option<Description>)
    ensures
        match pending {
            Some(true) => {
                &&& description == Some(
                    Description {
                        ordinal: Some(old(descriptions)@),
                        emit: is_described(old(descriptions)@),
                    },
                )
                &&& final(descriptions)@ == after_exception(old(descriptions)@)
            },
            Some(false) => {
                &&& description == Some(Description { ordinal: None, emit: false })
                &&& final(descriptions)@ == old(descriptions)@
            },
            None => description is None && final(descriptions)@ == old(descriptions)@,
        },
{
    match pending {
        Some(true) => {
            let ordinal = descriptions.seen;
            descriptions.seen = descriptions.seen.wrapping_add(1);
            Some(Description { ordinal: Some(ordinal), emit: ordinal < MAX_EXCEPTION_DESCRIPTIONS })
        },
        Some(false) => Some(Description { ordinal: None, emit: false }),
        None => None,
    }
}

/// The number of the exception after the first `count`.
pub open spec fn after_exceptions(count: nat) -> usize
    decreases count,
{
    if count == 0 {
        0
    } else {
        after_exception(after_exceptions((count - 1) as nat))
    }
}

/// How many of the first `count` pending exceptions are described in full.
pub open spec fn described(count: nat) -> nat
    decreases count,
{
    if count == 0 {
        0
    } else {
        described((count - 1) as nat) + (if is_described(after_exceptions((count - 1) as nat)) {
            1nat
        } else {
            0nat
        })
    }
}

/// However many exceptions are pending over time, only the first few are described, until their
/// numbers start again.
pub proof fn law_descriptions_are_bounded(count: nat)
    requires
        count <= usize::MAX,
    ensures
        after_exceptions(count) == count,
        described(count) == (if count <= MAX_EXCEPTION_DESCRIPTIONS {
            count
        } else {
            MAX_EXCEPTION_DESCRIPTIONS as nat
        }),
    decreases count,
{
    if count > 0 {
        law_descriptions_are_bounded((count - 1) as nat);
    }
}

/// The first five exceptions are described in full and no later one is, and each has the number after
/// the one before it.
pub proof fn law_first_exceptions_are_described(ordinal: usize)
    ensures
        is_described(ordinal) <==> ordinal < 5,
        ordinal < usize::MAX ==> after_exception(ordinal) == ordinal + 1,
{
}

} // verus!
