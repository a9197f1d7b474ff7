//! The bounded identities under which requests are reported.

use vstd::prelude::*;

verus! {

/// The label of a custom command that is not on the allow-list.
pub const CUSTOM_COMMAND: &'static str = "CUSTOM_COMMAND";

/// What a bounded operation stands for.
#[derive(Clone, Copy, Debug, PartialEq, Eq)]
pub enum BoundedOperationKind {
    /// A command known at compile time.
    Known(&'static str),
    /// A slot of the allow-list of the state with this namespace.
    AllowedCustom { index: u8, namespace: u64 },
    /// Any other command.
    CustomCommand,
}

/// An identity of a request that costs no allocation and takes few values.
#[derive(Clone, Copy, Debug, PartialEq, Eq)]
pub struct BoundedOperation(BoundedOperationKind);

impl View for BoundedOperation {
    type V = BoundedOperationKind;

    closed spec fn view(&self) -> BoundedOperationKind {
        self.0
    }
}

impl BoundedOperation {
    /// The identity of a command known at compile time.
    pub fn known(operation: &'static str) -> (identity: BoundedOperation)
        ensures
            identity@ == BoundedOperationKind::Known(operation),
    {
        BoundedOperation(BoundedOperationKind::Known(operation))
    }

    /// The identity of an unknown or unlisted command.
    pub fn custom_command() -> (identity: BoundedOperation)
        ensures
            identity@ == BoundedOperationKind::CustomCommand,
    {
        BoundedOperation(BoundedOperationKind::CustomCommand)
    }

    /// The identity of a slot of an allow-list.
    pub(crate) fn allowed_custom(index: u8, namespace: u64) -> (identity: BoundedOperation)
        ensures
            identity@ == (BoundedOperationKind::AllowedCustom { index, namespace }),
    {
        BoundedOperation(BoundedOperationKind::AllowedCustom { index, namespace })
    }

    /// What the identity stands for.
    pub fn kind(&self) -> (kind: BoundedOperationKind)
        ensures
            kind == self@,
    {
        self.0
    }
}

/// The label of an operation in a state with this allow-list and this namespace: the name of a
/// known command, the listed name of a slot that this state gave out, and the fallback for all
/// else.
pub open spec fn operation_label(
    kind: BoundedOperationKind,
    allowed: Seq<Seq<u8>>,
    namespace: u64,
) -> Seq<u8> {
    match kind {
        BoundedOperationKind::Known(operation) => vstd::utf8::encode_utf8(operation@),
        BoundedOperationKind::AllowedCustom { index, namespace: owner } => {
            if owner == namespace && index < allowed.len() {
                allowed[index as int]
            } else {
                vstd::utf8::encode_utf8(CUSTOM_COMMAND@)
            }
        },
        BoundedOperationKind::CustomCommand => vstd::utf8::encode_utf8(CUSTOM_COMMAND@),
    }
}

/// The source of namespaces, one for each state. All states of a process draw on one source.
pub struct OperationNamespaces {
    next: u64,
}

impl View for OperationNamespaces {
    type V = u64;

    /// The namespace that is given out next.
    closed spec fn view(&self) -> u64 {
        self.next
    }
}

impl OperationNamespaces {
    /// A source whose first namespace is 1.
    pub fn new() -> (namespaces: OperationNamespaces)
        ensures
            namespaces@ == 1,
    {
        OperationNamespaces { next: 1 }
    }

    /// Gives out the next namespace.
    pub fn allocate(&mut self) -> (namespace: u64)
        ensures
            namespace == old(self)@,
            final(self)@ == crate::serial::following(old(self)@),
    {
        let namespace = self.next;
        self.next = self.next.wrapping_add(1);
        namespace
    }
}

/// A known command is shown by its own name, a slot by the listed name exactly in the state that gave
/// it out and where there is such a slot, and all else by the fallback.
pub proof fn law_labels(
    name: &'static str,
    index: u8,
    owner: u64,
    allowed: Seq<Seq<u8>>,
    namespace: u64,
)
    ensures
        operation_label(BoundedOperationKind::Known(name), allowed, namespace)
            == vstd::utf8::encode_utf8(name@),
        owner == namespace && index < allowed.len() ==> operation_label(
            BoundedOperationKind::AllowedCustom { index, namespace: owner },
            allowed,
            namespace,
        ) == allowed[index as int],
        owner != namespace || index >= allowed.len() ==> operation_label(
            BoundedOperationKind::AllowedCustom { index, namespace: owner },
            allowed,
            namespace,
        ) == vstd::utf8::encode_utf8("CUSTOM_COMMAND"@),
        operation_label(BoundedOperationKind::CustomCommand, allowed, namespace)
            == vstd::utf8::encode_utf8("CUSTOM_COMMAND"@),
{
}

} // verus!
