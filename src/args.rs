//! The tracer's command-line options, as plain values.
use vstd::prelude::*;
use crate::catalog::{catalog_name, is_first_number, syscall_name, syscall_number, SYSCALL_COUNT};
use crate::filter::{check_lists, config_result, list_contains, names_of, traces, InvalidOption};

verus! {

/// The options of one run: the names to trace or to leave out, and the
/// program to run with its arguments.
pub struct Opt {
    pub to_trace: Vec<String>,
    pub dont_trace: Vec<String>,
    pub exe: String,
    pub exe_args: Vec<String>,
}

/// The names of the table with numbers below `n` that the lists report, in
/// order of number, each once: at the first number that carries it.
pub open spec fn traced_below(to_trace: Seq<Seq<char>>, dont_trace: Seq<Seq<char>>, n: nat) -> Seq<Seq<char>>
    decreases n,
{
    if n == 0 {
        Seq::empty()
    } else {
        let prev = traced_below(to_trace, dont_trace, (n - 1) as nat);
        let name = catalog_name((n - 1) as u64);
        if name is Some && is_first_number((n - 1) as u64) && traces(to_trace, dont_trace, name) {
            prev.push(name->0)
        } else {
            prev
        }
    }
}

/// The names listed below `n` are distinct, and each is the name of a
/// number below `n`.
pub proof fn lemma_traced_below_distinct(to_trace: Seq<Seq<char>>, dont_trace: Seq<Seq<char>>, n: nat)
    requires
        n <= SYSCALL_COUNT,
    ensures
        traced_below(to_trace, dont_trace, n).no_duplicates(),
        forall|j: int| 0 <= j < traced_below(to_trace, dont_trace, n).len()
            ==> exists|k: u64| k < n && catalog_name(k) == Some(#[trigger] traced_below(to_trace, dont_trace, n)[j]),
    decreases n,
{
    if n > 0 {
        let prev = traced_below(to_trace, dont_trace, (n - 1) as nat);
        lemma_traced_below_distinct(to_trace, dont_trace, (n - 1) as nat);
        let nr = (n - 1) as u64;
        let name = catalog_name(nr);
        if name is Some && is_first_number(nr) && traces(to_trace, dont_trace, name) {
            let cur = prev.push(name->0);
            assert forall|j: int| 0 <= j < prev.len() implies prev[j] != name->0 by {
                let k = choose|k: u64| k < n - 1 && catalog_name(k) == Some(#[trigger] prev[j]);
                assert(catalog_name(k) != catalog_name(nr));
            }
            assert forall|j: int| 0 <= j < cur.len()
                implies exists|k: u64| k < n && catalog_name(k) == Some(#[trigger] cur[j]) by {
                if j < prev.len() {
                    assert(cur[j] == prev[j]);
                    let k = choose|k: u64| k < n - 1 && catalog_name(k) == Some(#[trigger] prev[j]);
                    assert(k < n && catalog_name(k) == Some(cur[j]));
                } else {
                    assert(catalog_name(nr) == Some(cur[j]));
                }
            }
        }
    }
}

impl Opt {
    /// Checks the options: the two lists are not both given, and each name
    /// in them is in the system call table.
    pub fn validate(&self) -> (r: Result<(), InvalidOption>)
        ensures
            r == config_result(names_of(self.to_trace@), names_of(self.dont_trace@)),
    {
        check_lists(&self.to_trace, &self.dont_trace)
    }

    /// The names of the table to report, in order of number and each once:
    /// those in `to_trace` if it is given, else those not in `dont_trace`,
    /// else all.
    pub fn syscalls_to_trace(&self) -> (r: Vec<&'static str>)
        ensures
            r@.map_values(|s: &'static str| s@) == traced_below(
                names_of(self.to_trace@),
                names_of(self.dont_trace@),
                SYSCALL_COUNT as nat,
            ),
            r@.map_values(|s: &'static str| s@).no_duplicates(),
    {
        let ghost inc = names_of(self.to_trace@);
        let ghost exc = names_of(self.dont_trace@);
        let mut r: Vec<&'static str> = Vec::new();
        let mut nr: u64 = 0;
        while nr < SYSCALL_COUNT
            invariant
                nr <= SYSCALL_COUNT,
                inc == names_of(self.to_trace@),
                exc == names_of(self.dont_trace@),
                r@.map_values(|s: &'static str| s@) == traced_below(inc, exc, nr as nat),
            decreases SYSCALL_COUNT - nr,
        {
            let name = syscall_name(nr);
            if let Some(s) = name {
                let first = match syscall_number(s) {
                    Some(k) => k == nr,
                    None => false,
                };
                let keep = first && if self.to_trace.len() > 0 {
                    list_contains(&self.to_trace, s)
                } else if self.dont_trace.len() > 0 {
                    !list_contains(&self.dont_trace, s)
                } else {
                    true
                };
                if keep {
                    r.push(s);
                }
                assert(r@.map_values(|s: &'static str| s@) =~= traced_below(inc, exc, (nr + 1) as nat));
            } else {
                assert(r@.map_values(|s: &'static str| s@) =~= traced_below(inc, exc, (nr + 1) as nat));
            }
            nr = nr + 1;
        }
        proof {
            lemma_traced_below_distinct(inc, exc, SYSCALL_COUNT as nat);
        }
        r
    }
}

} // verus!
