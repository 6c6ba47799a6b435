//! A counter canister's logic: one signed counter that can be read, raised
//! and lowered by one, and a greeting built from a name.
use vstd::prelude::*;
use vstd::string::StringExecFns;

verus! {

/// The canister's whole state: one signed counter, zero when the process starts.
pub struct State {
    /// A simple value to store and manipulate.
    pub value: i64,
}

impl View for State {
    type V = int;

    open spec fn view(&self) -> int {
        self.value as int
    }
}

/// The counter after one increment.
pub open spec fn incremented(v: int) -> int {
    v + 1
}

/// The counter after one decrement (no lower bound is enforced).
pub open spec fn decremented(v: int) -> int {
    v - 1
}

/// The counter after `n` increments, starting from `v`.
pub open spec fn after_increments(v: int, n: nat) -> int
    decreases n,
{
    if n == 0 {
        v
    } else {
        incremented(after_increments(v, (n - 1) as nat))
    }
}

/// The counter after `m` decrements, starting from `v`.
pub open spec fn after_decrements(v: int, m: nat) -> int
    decreases m,
{
    if m == 0 {
        v
    } else {
        decremented(after_decrements(v, (m - 1) as nat))
    }
}

/// The greeting for `name`: the text `hi ` followed by the name.
pub open spec fn greeting(name: Seq<char>) -> Seq<char> {
    seq!['h', 'i', ' '] + name
}

impl State {
    /// The state at process start: the counter is zero.
    pub fn new() -> (s: State)
        ensures
            s@ == 0,
    {
        State { value: 0 }
    }

    /// Reads the counter; nothing changes.
    pub fn get_value(&self) -> (r: i64)
        ensures
            r as int == self@,
    {
        self.value
    }

    /// Adds one to the counter.
    pub fn increment(&mut self)
        requires
            old(self)@ < i64::MAX,
        ensures
            final(self)@ == incremented(old(self)@),
    {
        self.value = self.value + 1;
    }

    /// Subtracts one from the counter; it may go below zero.
    pub fn decrement(&mut self)
        requires
            old(self)@ > i64::MIN,
        ensures
            final(self)@ == decremented(old(self)@),
    {
        self.value = self.value - 1;
    }
}

impl Default for State {
    fn default() -> (s: State)
        ensures
            s@ == 0,
    {
        State::new()
    }
}

/// Returns `hi ` followed by `name`.
pub fn say_hi(name: String) -> (r: String)
    ensures
        r@ == greeting(name@),
{
    let mut r = String::from_str("hi ");
    r.append(name.as_str());
    proof {
        reveal_strlit("hi ");
    }
    r
}

/// Starting from `v`, `n` increments followed by `m` decrements leave the
/// counter at `v + n - m`.
pub proof fn lemma_increments_then_decrements(v: int, n: nat, m: nat)
    ensures
        after_decrements(after_increments(v, n), m) == v + n - m,
    decreases n + m,
{
    if m > 0 {
        lemma_increments_then_decrements(v, n, (m - 1) as nat);
    } else if n > 0 {
        lemma_increments_then_decrements(v, (n - 1) as nat, 0);
    }
}

} // verus!
