//! The operations that a table sub command can name.

use vstd::prelude::*;
use vstd::string::StrSliceExecFns;

verus! {

/// What to do to a table entry.
#[derive(Clone, Copy, Debug, PartialEq, Eq)]
pub enum Operation {
    /// Add the entry to the table.
    Add,
    /// Remove the entry from the table.
    Del,
}

/// The operation that a sub command's name stands for: `add` or `del`,
/// written exactly so. Any other name, the empty one too, stands for none.
pub open spec fn operation_named(name: Seq<char>) -> Option<Operation> {
    if name == seq!['a', 'd', 'd'] {
        Some(Operation::Add)
    } else if name == seq!['d', 'e', 'l'] {
        Some(Operation::Del)
    } else {
        None
    }
}

/// Whether `name` and `word` are the same text.
fn same_text(name: &str, word: &str) -> (same: bool)
    ensures
        same == (name@ == word@),
{
    let len = name.unicode_len();
    if len != word.unicode_len() {
        return false;
    }
    let mut i: usize = 0;
    while i < len
        invariant
            i <= len,
            len == name@.len(),
            len == word@.len(),
            forall|k: int| 0 <= k < i ==> name@[k] == word@[k],
        decreases len - i,
    {
        if name.get_char(i) != word.get_char(i) {
            return false;
        }
        i += 1;
    }
    assert(name@ =~= word@);
    true
}

/// Reads the name of a sub command.
pub fn operation(name: &str) -> (op: Option<Operation>)
    ensures
        op == operation_named(name@),
{
    proof {
        lemma_operation_names();
    }
    if same_text(name, "add") {
        Some(Operation::Add)
    } else if same_text(name, "del") {
        Some(Operation::Del)
    } else {
        None
    }
}

/// The texts `"add"` and `"del"` name the two operations, and no other text
/// names one.
pub proof fn lemma_operation_names()
    ensures
        "add"@ == seq!['a', 'd', 'd'],
        "del"@ == seq!['d', 'e', 'l'],
        operation_named("add"@) == Some(Operation::Add),
        operation_named("del"@) == Some(Operation::Del),
        forall|name: Seq<char>| name != "add"@ && name != "del"@ ==> operation_named(name) is None,
{
    reveal_strlit("add");
    reveal_strlit("del");
    assert("add"@ =~= seq!['a', 'd', 'd']);
    assert("del"@ =~= seq!['d', 'e', 'l']);
    assert(seq!['a', 'd', 'd'][0] != seq!['d', 'e', 'l'][0]);
}

} // verus!
