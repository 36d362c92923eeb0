use vstd::prelude::*;

verus! {

/// Source of workspace identifiers.
///
/// Identifiers start at 1 and every call of [`WorkspaceId::next`] hands out the
/// current value and advances it, so no identifier is ever issued twice.
pub struct WorkspaceIdCounter {
    value: u64,
}

impl WorkspaceIdCounter {
    #[verifier::type_invariant]
    spec fn starts_at_one(&self) -> bool {
        self.value >= 1
    }

    /// The value that the next call of [`WorkspaceId::next`] hands out.
    pub closed spec fn next_value(&self) -> nat {
        self.value as nat
    }

    /// Whether `id` was already handed out by this counter.
    pub open spec fn issued(&self, id: u64) -> bool {
        1 <= id < self.next_value()
    }

    /// A fresh counter whose first identifier is 1.
    pub fn new() -> (c: Self)
        ensures
            c.next_value() == 1,
    {
        WorkspaceIdCounter { value: 1 }
    }

    /// Whether the counter can still hand out an identifier.
    pub fn can_issue(&self) -> (r: bool)
        ensures
            r == (self.next_value() < u64::MAX),
    {
        self.value < u64::MAX
    }
}

/// Unique identifier of a workspace.
#[derive(Debug, Clone, Copy, PartialEq, Eq, Hash, Structural)]
pub struct WorkspaceId(u64);

impl WorkspaceId {
    /// The number inside the identifier.
    pub closed spec fn value(self) -> u64 {
        self.0
    }

    /// The identifier with number `n`.
    pub closed spec fn with_value(n: u64) -> WorkspaceId {
        WorkspaceId(n)
    }

    /// Hands out the next identifier of `counter`.
    ///
    /// Running out of identifiers is a programming error, so the counter must
    /// not be exhausted.
    pub fn next(counter: &mut WorkspaceIdCounter) -> (id: WorkspaceId)
        requires
            old(counter).next_value() < u64::MAX,
        ensures
            id.value() == old(counter).next_value(),
            final(counter).next_value() == old(counter).next_value() + 1,
            !old(counter).issued(id.value()),
            final(counter).issued(id.value()),
    {
        proof {
            use_type_invariant(&*counter);
        }
        let id = counter.value;
        counter.value = counter.value + 1;
        WorkspaceId(id)
    }

    /// The number inside the identifier.
    pub fn get(self) -> (r: u64)
        ensures
            r == self.value(),
    {
        self.0
    }

    /// An identifier with the given number.
    pub fn specific(id: u64) -> (r: Self)
        ensures
            r == WorkspaceId::with_value(id),
            r.value() == id,
    {
        Self(id)
    }
}

/// Identifier of an output (a monitor), by its formatted name.
///
/// The name is the output's make, model and serial when these are known, or its
/// connector name otherwise.
#[derive(Debug, Clone)]
pub struct OutputId(String);

impl View for OutputId {
    type V = Seq<char>;

    closed spec fn view(&self) -> Seq<char> {
        self.0@
    }
}

impl OutputId {
    /// The identifier of the output whose formatted name is `name`.
    pub fn new(name: String) -> (r: OutputId)
        ensures
            r@ == name@,
    {
        OutputId(name)
    }

    /// A copy of the identifier.
    pub fn duplicate(&self) -> (r: OutputId)
        ensures
            r@ == self@,
    {
        OutputId(self.0.clone())
    }

    /// The formatted name of the output.
    pub fn name(&self) -> (r: &str)
        ensures
            r@ == self@,
    {
        self.0.as_str()
    }

    /// The output that a workspace belongs to when it is created on `output`:
    /// the one that its configuration asks to open on, if any, else `output`.
    pub(crate) fn for_new_workspace(open_on_output: Option<String>, output: OutputId) -> (r: OutputId)
        ensures
            r@ == match open_on_output {
                Some(name) => name@,
                None => output@,
            },
    {
        match open_on_output {
            Some(name) => OutputId(name),
            None => output,
        }
    }

    /// The output that a workspace belongs to when it is created while no
    /// output is connected: the one that its configuration asks to open on, or
    /// the empty name.
    pub(crate) fn for_new_workspace_without_output(open_on_output: Option<String>) -> (r: OutputId)
        ensures
            r@ == match open_on_output {
                Some(name) => name@,
                None => Seq::<char>::empty(),
            },
    {
        match open_on_output {
            Some(name) => OutputId(name),
            None => OutputId(String::new()),
        }
    }
}

/// Reading back the number of an identifier built from a number gives that
/// number, and building an identifier from the number of another gives an
/// equal identifier.
pub proof fn specific_get_round_trip(n: u64, id: WorkspaceId)
    ensures
        WorkspaceId::with_value(n).value() == n,
        WorkspaceId::with_value(id.value()) == id,
{
}

/// Identifiers handed out one after another by the same counter are distinct,
/// and later ones are greater.
pub proof fn successive_ids_are_distinct(
    c0: WorkspaceIdCounter,
    c1: WorkspaceIdCounter,
    a: WorkspaceId,
    b: WorkspaceId,
)
    requires
        a.value() == c0.next_value(),
        c1.next_value() > c0.next_value(),
        b.value() == c1.next_value(),
    ensures
        a != b,
        a.value() < b.value(),
{
}

} // verus!
