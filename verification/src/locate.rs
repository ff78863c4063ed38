//! Finding a structure declaration by name.

use crate::syntax::StructDeclaration;
use vstd::prelude::*;

verus! {

/// What a traversal does after a node has been visited.
#[derive(Clone, Copy, Debug, PartialEq, Eq)]
pub enum Visit {
    /// Go on with the children of the node.
    Children,
    /// Leave the children out and go back up.
    Parent,
}

/// The state of a search for the declaration named `target`: `result` is the
/// first such declaration among those visited so far.
#[derive(Debug)]
pub struct StructFinder {
    pub target: String,
    pub result: Option<StructDeclaration>,
}

/// Whether the declaration has exactly the given name.
pub open spec fn is_named(decl: StructDeclaration, target: Seq<char>) -> bool {
    decl.name matches Some(name) && name@ == target
}

/// The first declaration of the given name, in traversal order.
pub open spec fn first_named(structs: Seq<StructDeclaration>, target: Seq<char>) -> Option<
    StructDeclaration,
>
    decreases structs.len(),
{
    if structs.len() == 0 {
        None
    } else if is_named(structs[0], target) {
        Some(structs[0])
    } else {
        first_named(structs.skip(1), target)
    }
}

/// The result of a search after one more declaration has been visited: a
/// match that was found earlier stays.
pub open spec fn after_visit(
    found: Option<StructDeclaration>,
    input: StructDeclaration,
    target: Seq<char>,
) -> Option<StructDeclaration> {
    if found is None && is_named(input, target) {
        Some(input)
    } else {
        found
    }
}

/// Visiting one more declaration after a sequence of them gives the first
/// match of the longer sequence.
pub proof fn lemma_first_named_push(
    structs: Seq<StructDeclaration>,
    input: StructDeclaration,
    target: Seq<char>,
)
    ensures
        first_named(structs.push(input), target) == after_visit(
            first_named(structs, target),
            input,
            target,
        ),
    decreases structs.len(),
{
    let longer = structs.push(input);
    if structs.len() == 0 {
        assert(longer[0] == input);
        assert(longer.skip(1) =~= Seq::<StructDeclaration>::empty());
        assert(first_named(longer.skip(1), target) is None);
    } else {
        assert(longer[0] == structs[0]);
        assert(longer.skip(1) =~= structs.skip(1).push(input));
        lemma_first_named_push(structs.skip(1), input, target);
    }
}

impl StructFinder {
    /// A search for `target` that has visited nothing yet.
    pub fn new(target: &str) -> (finder: StructFinder)
        ensures
            finder.target@ == target@,
            finder.result is None,
    {
        StructFinder { target: target.to_owned(), result: None }
    }

    /// Visits one declaration: it becomes the result where it has the name
    /// searched for and nothing was found before. The declarations nested in
    /// it are never looked at.
    pub fn visit_struct_specifier(&mut self, input: StructDeclaration) -> (visit: Visit)
        ensures
            final(self).target == old(self).target,
            final(self).result == after_visit(old(self).result, input, old(self).target@),
            visit == Visit::Parent,
    {
        if self.result.is_none() {
            let named: bool = match &input.name {
                Some(name) => *name == self.target,
                None => false,
            };
            if named {
                self.result = Some(input);
            }
        }
        Visit::Parent
    }
}

} // verus!
