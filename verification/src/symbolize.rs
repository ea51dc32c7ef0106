//! Symbol resolution: invoke a caller-supplied callback once per symbol
//! record that the backend holds for an address.
//!
//! The raw symbolicate backend is foreign and platform-specific; it hands the
//! library the symbol records it knows, each tied to the address it
//! describes. [`resolve_symbols`] holds the delivery logic: every record
//! matching the queried address reaches the callback, in the backend's order,
//! and nothing else does. An address the backend knows nothing about — a
//! stripped binary, missing debug info — yields zero invocations, not an
//! error.

use vstd::prelude::*;

verus! {

/// One symbol record as the backend reports it: the address it resolves and
/// an opaque payload (name, file and line live behind it; this layer passes
/// them through unmodified).
#[derive(Clone, Copy, PartialEq, Eq, Structural)]
pub struct Symbol {
    pub addr: u64,
    pub info: u64,
}

/// Number of records in `table` that resolve `addr`.
pub open spec fn matches_count(table: Seq<Symbol>, addr: u64) -> nat
    decreases table.len(),
{
    if table.len() == 0 {
        0
    } else {
        matches_count(table.drop_last(), addr) + if table.last().addr == addr {
            1nat
        } else {
            0nat
        }
    }
}

/// Hand every record of `table` that resolves `addr` to `f`, in table order,
/// and return how many callback invocations that took. There is no early-stop
/// signal: resolution for one address is expected to be short.
pub fn resolve_symbols<F: Fn(Symbol) -> ()>(table: &Vec<Symbol>, addr: u64, f: F) -> (n: usize)
    requires
        forall|s: Symbol| #[trigger] call_requires(f, (s,)),
    ensures
        n == matches_count(table@, addr),
        forall|j: int|
            0 <= j < table@.len() && table@[j].addr == addr ==> call_ensures(
                f,
                (#[trigger] table@[j],),
                (),
            ),
{
    let mut i: usize = 0;
    let mut n: usize = 0;
    while i < table.len()
        invariant
            forall|s: Symbol| #[trigger] call_requires(f, (s,)),
            i <= table@.len(),
            n <= i,
            n == matches_count(table@.take(i as int), addr),
            forall|j: int|
                0 <= j < i && table@[j].addr == addr ==> call_ensures(f, (#[trigger] table@[j],), ()),
        decreases table@.len() - i,
    {
        let s = table[i];
        if s.addr == addr {
            f(s);
            n += 1;
        }
        i += 1;
        proof {
            assert(table@.take(i as int).drop_last() =~= table@.take(i as int - 1));
            assert(table@.take(i as int).last() == table@[i as int - 1]);
        }
    }
    proof {
        assert(table@.take(table@.len() as int) =~= table@);
    }
    n
}

/// Law: an address that no record of the table resolves yields zero callback
/// invocations — the query returns normally with nothing delivered.
pub proof fn lemma_no_match_zero(table: Seq<Symbol>, addr: u64)
    requires
        forall|j: int| 0 <= j < table.len() ==> (#[trigger] table[j]).addr != addr,
    ensures
        matches_count(table, addr) == 0,
    decreases table.len(),
{
    if table.len() > 0 {
        lemma_no_match_zero(table.drop_last(), addr);
    }
}

} // verus!
