use vstd::prelude::*;

verus! {

/// The reason an array operation failed.
#[derive(Debug, Clone, Copy, PartialEq, Eq, Structural)]
pub enum ErrorKind {
    /// The requested allocation would hold zero bytes.
    ZeroSizeAllocation,
    /// The byte size of the allocation does not fit in a `usize`.
    SizeOverflow,
    /// The (size, alignment) pair does not form a legal memory layout.
    InvalidLayout,
    /// The allocator could not provide the memory.
    AllocationFailed,
    /// An index at or past the capacity was used.
    IndexOutOfRange,
    /// An error built by a caller from a message alone.
    Custom,
}

/// An error carrying a human-readable message.
///
/// Two errors are equal exactly when their messages are equal; the kind is
/// informative and takes no part in the comparison.
#[derive(Debug)]
pub struct ArrayError {
    kind: ErrorKind,
    msg: String,
}

impl ArrayError {
    /// The message, as a sequence of characters.
    pub closed spec fn message(&self) -> Seq<char> {
        self.msg@
    }

    /// The kind of failure.
    pub closed spec fn spec_kind(&self) -> ErrorKind {
        self.kind
    }

    /// Build an error of kind `Custom` from a message.
    pub fn new(msg: &str) -> (r: Self)
        ensures
            r.message() == msg@,
            r.spec_kind() == ErrorKind::Custom,
    {
        ArrayError { kind: ErrorKind::Custom, msg: msg.to_owned() }
    }

    /// Build an error of the given kind.
    pub fn with_kind(kind: ErrorKind, msg: &str) -> (r: Self)
        ensures
            r.message() == msg@,
            r.spec_kind() == kind,
    {
        ArrayError { kind, msg: msg.to_owned() }
    }

    /// The message.
    pub fn msg(&self) -> (r: &String)
        ensures
            r@ == self.message(),
    {
        &self.msg
    }

    /// The kind of failure.
    pub fn kind(&self) -> (r: ErrorKind)
        ensures
            r == self.spec_kind(),
    {
        self.kind
    }

    /// Whether the message is exactly `other`.
    pub fn matches(&self, other: &str) -> (r: bool)
        ensures
            r == (self.message() == other@),
    {
        let o = other.to_owned();
        self.msg == o
    }

    /// The message as an owned string, for display.
    pub fn to_string(&self) -> (r: String)
        ensures
            r@ == self.message(),
    {
        self.msg.clone()
    }
}

impl Clone for ArrayError {
    fn clone(&self) -> (r: Self)
        ensures
            r.message() == self.message(),
            r.spec_kind() == self.spec_kind(),
    {
        ArrayError { kind: self.kind, msg: self.msg.clone() }
    }
}

impl PartialEq for ArrayError {
    fn eq(&self, other: &ArrayError) -> (r: bool) {
        self.msg == other.msg
    }
}

impl vstd::std_specs::cmp::PartialEqSpecImpl for ArrayError {
    open spec fn obeys_eq_spec() -> bool {
        true
    }

    open spec fn eq_spec(&self, other: &ArrayError) -> bool {
        self.message() == other.message()
    }
}

} // verus!
