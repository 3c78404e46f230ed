use vstd::prelude::*;

verus! {

/// The greeting text, as a mathematical sequence of characters.
pub open spec fn greeting() -> Seq<char> {
    "Hello world"@
}

/// Returns the greeting `"Hello world"`.
///
/// The operation is total: it takes no input, cannot fail, and has no
/// side effects.
pub fn hello_world() -> (r: String)
    ensures
        r@ == greeting(),
{
    "Hello world".to_owned()
}

/// Idempotence: every call of `hello_world` yields the same text, so any
/// two results are equal as character sequences.
pub proof fn lemma_hello_world_idempotent(a: String, b: String)
    requires
        a@ == greeting(),
        b@ == greeting(),
    ensures
        a@ == b@,
{
}

} // verus!
