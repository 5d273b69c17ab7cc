//! Items shared by threads, workers and worklets.

use vstd::prelude::*;

verus! {

/// Outcome of one poll of an asynchronous operation.
#[derive(Debug, PartialEq, Eq, Structural)]
pub enum Step<T> {
    /// The operation finished with this value.
    Ready(T),
    /// The operation is still running.
    Pending,
}

/// A text framed by the same prefix and suffix determines what stands
/// between them: `prefix + a + suffix == prefix + b + suffix` only if
/// `a == b`, and `a` stands right after the prefix.
pub proof fn lemma_framed_text(prefix: Seq<char>, a: Seq<char>, b: Seq<char>, suffix: Seq<char>)
    ensures
        (prefix + a + suffix).subrange(prefix.len() as int, (prefix.len() + a.len()) as int) == a,
        prefix + a + suffix == prefix + b + suffix ==> a == b,
{
    let ta = prefix + a + suffix;
    assert(ta.subrange(prefix.len() as int, (prefix.len() + a.len()) as int) =~= a);
    let tb = prefix + b + suffix;
    assert(ta.len() == prefix.len() + a.len() + suffix.len());
    assert(tb.len() == prefix.len() + b.len() + suffix.len());
    if ta == tb {
        assert(a.len() == b.len());
        assert forall|i: int| 0 <= i < a.len() implies a[i] == b[i] by {
            assert(ta[prefix.len() + i] == a[i]);
            assert(tb[prefix.len() + i] == b[i]);
        }
        assert(a =~= b);
    }
}

/// Thread-local storage handle of a worker or worklet: its ID and the
/// addresses of its TLS and stack memory.
#[derive(Clone, Copy, Debug, PartialEq, Eq, Structural)]
pub struct Tls {
    /// ID of the worker or worklet the memory belongs to.
    pub id: u64,
    /// Base address of the TLS memory.
    pub tls_base: u32,
    /// Base address of the stack memory.
    pub stack_alloc: u32,
}

impl Tls {
    /// Creates a new [`Tls`].
    pub fn new(id: u64, tls_base: u32, stack_alloc: u32) -> (tls: Self)
        ensures
            tls.id == id,
            tls.tls_base == tls_base,
            tls.stack_alloc == stack_alloc,
    {
        Tls { id, tls_base, stack_alloc }
    }
}

/// Counter handing out the IDs of workers and worklets, like an atomic
/// `fetch_add` that wraps around.
#[derive(Debug)]
pub struct IdCounter {
    /// The value the next ID gets.
    pub next: u64,
}

/// The counter after one more ID was handed out.
pub open spec fn next_id(counter: u64) -> u64 {
    if counter == u64::MAX {
        0
    } else {
        (counter + 1) as u64
    }
}

impl IdCounter {
    /// Creates a counter starting at `0`.
    pub fn new() -> (counter: Self)
        ensures
            counter.next == 0,
    {
        IdCounter { next: 0 }
    }

    /// Hands out the next ID.
    pub fn fetch_add(&mut self) -> (id: u64)
        ensures
            id == old(self).next,
            final(self).next == next_id(old(self).next),
    {
        let id = self.next;
        self.next = self.next.wrapping_add(1);
        id
    }
}

/// Two IDs handed out one after the other by the same counter differ.
pub proof fn lemma_consecutive_ids_differ(counter: u64)
    ensures
        next_id(counter) != counter,
{
}

/// The counter after `k` more IDs were handed out from `counter`.
pub open spec fn ids_after(counter: u64, k: nat) -> u64
    decreases k,
{
    if k == 0 {
        counter
    } else {
        next_id(ids_after(counter, (k - 1) as nat))
    }
}

/// The counter after `k` IDs is the start plus `k`, wrapped around.
pub proof fn lemma_ids_after_wraps(counter: u64, k: nat)
    ensures
        ids_after(counter, k) as int == (counter + k) % 0x1_0000_0000_0000_0000,
    decreases k,
{
    if k > 0 {
        lemma_ids_after_wraps(counter, (k - 1) as nat);
    }
}

/// IDs never repeat: of the IDs one counter hands out, the `i`-th and the
/// `j`-th differ, as long as fewer than 2^64 IDs lie between them (the
/// counter wraps around only after that many).
pub proof fn lemma_ids_never_repeat(counter: u64, i: nat, j: nat)
    requires
        i < j,
        j - i < 0x1_0000_0000_0000_0000,
    ensures
        ids_after(counter, i) != ids_after(counter, j),
{
    lemma_ids_after_wraps(counter, i);
    lemma_ids_after_wraps(counter, j);
}

/// Declares `once_cell::sync::OnceCell` to the verifier.
#[verifier::external_type_specification]
#[verifier::external_body]
#[verifier::reject_recursive_types(T)]
pub struct ExOnceCell<T>(once_cell::sync::OnceCell<T>);

/// What a `OnceCell<bool>` holds: its value once set.
pub uninterp spec fn once_cell_value(cell: once_cell::sync::OnceCell<bool>) -> Option<bool>;

/// `OnceCell::new`: makes an empty cell.
#[verifier::external_body]
pub fn once_cell_new() -> (cell: once_cell::sync::OnceCell<bool>)
    ensures
        once_cell_value(cell) is None,
{
    once_cell::sync::OnceCell::new()
}

/// `OnceCell::get`: the value of the cell, if set.
#[verifier::external_body]
pub fn once_cell_get(cell: &once_cell::sync::OnceCell<bool>) -> (value: Option<bool>)
    ensures
        value == once_cell_value(*cell),
{
    cell.get().copied()
}

/// `OnceCell::try_insert`: sets the cell if it is empty; if it was set
/// already, it keeps its value, which is returned as the error.
#[verifier::external_body]
pub fn once_cell_try_insert(cell: &mut once_cell::sync::OnceCell<bool>, value: bool) -> (result: Result<(), bool>)
    ensures
        match once_cell_value(*old(cell)) {
            None => result is Ok && once_cell_value(*final(cell)) == Some(value),
            Some(old_value) => result == Err::<(), bool>(old_value)
                && once_cell_value(*final(cell)) == Some(old_value),
        },
{
    match cell.try_insert(value) {
        Ok(_) => Ok(()),
        Err((old_value, _)) => Err(*old_value),
    }
}

} // verus!
