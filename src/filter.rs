//! Which system calls a trace reports: an inclusion list or an exclusion
//! list of names from the system call table, never both.
use vstd::prelude::*;
use crate::catalog::{is_known_name, str_equal, syscall_number};

verus! {

/// What a configuration error is about.
#[derive(PartialEq, Eq, Structural, Debug, Clone, Copy)]
pub enum InvalidKind {
    /// Both an inclusion list and an exclusion list were given.
    BothLists,
    /// A name in the inclusion list is not in the system call table.
    UnknownToTrace,
    /// A name in the exclusion list is not in the system call table.
    UnknownDontTrace,
}

/// A rejected tracing configuration.
#[derive(PartialEq, Eq, Structural, Debug, Clone, Copy)]
pub struct InvalidOption(pub InvalidKind);

impl InvalidOption {
    /// A sentence that describes the error.
    pub fn message(&self) -> (r: &'static str)
        ensures
            self.0 == InvalidKind::BothLists ==> r@ == "cannot assign both to_trace and dont_trace"@,
            self.0 == InvalidKind::UnknownToTrace ==> r@ == "system call in do_trace does not exist"@,
            self.0 == InvalidKind::UnknownDontTrace ==> r@ == "system call in dont_trace does not exist"@,
    {
        match self.0 {
            InvalidKind::BothLists => "cannot assign both to_trace and dont_trace",
            InvalidKind::UnknownToTrace => "system call in do_trace does not exist",
            InvalidKind::UnknownDontTrace => "system call in dont_trace does not exist",
        }
    }
}

/// The names held by a list of strings.
pub open spec fn names_of(v: Seq<String>) -> Seq<Seq<char>> {
    v.map_values(|s: String| s@)
}

/// Every name of the list is in the system call table.
pub open spec fn all_known(v: Seq<Seq<char>>) -> bool {
    forall|i: int| 0 <= i < v.len() ==> is_known_name(#[trigger] v[i])
}

/// The error that a pair of lists deserves, checked in this order: both
/// given, an unknown name to trace, an unknown name to leave out.
pub open spec fn config_error(to_trace: Seq<Seq<char>>, dont_trace: Seq<Seq<char>>) -> Option<InvalidKind> {
    if to_trace.len() > 0 && dont_trace.len() > 0 {
        Some(InvalidKind::BothLists)
    } else if !all_known(to_trace) {
        Some(InvalidKind::UnknownToTrace)
    } else if !all_known(dont_trace) {
        Some(InvalidKind::UnknownDontTrace)
    } else {
        None
    }
}

/// The outcome of checking a pair of lists.
pub open spec fn config_result(to_trace: Seq<Seq<char>>, dont_trace: Seq<Seq<char>>) -> Result<(), InvalidOption> {
    match config_error(to_trace, dont_trace) {
        Some(k) => Err(InvalidOption(k)),
        None => Ok(()),
    }
}

/// Whether a call with the given name (`None`: a number the table does not
/// name) is reported. A non-empty inclusion list reports its members only,
/// so an unnamed call is left out; otherwise everything outside the
/// exclusion list is reported, an unnamed call included.
pub open spec fn traces(to_trace: Seq<Seq<char>>, dont_trace: Seq<Seq<char>>, name: Option<Seq<char>>) -> bool {
    if to_trace.len() > 0 {
        name is Some && to_trace.contains(name->0)
    } else if dont_trace.len() > 0 {
        !(name is Some && dont_trace.contains(name->0))
    } else {
        true
    }
}

/// Whether `name` is in the list.
pub fn list_contains(v: &Vec<String>, name: &str) -> (r: bool)
    ensures
        r == names_of(v@).contains(name@),
{
    let mut i: usize = 0;
    while i < v.len()
        invariant
            i <= v@.len(),
            forall|k: int| 0 <= k < i ==> v@[k]@ != name@,
        decreases v@.len() - i,
    {
        if str_equal(v[i].as_str(), name) {
            assert(names_of(v@)[i as int] == name@);
            return true;
        }
        i = i + 1;
    }
    assert(!names_of(v@).contains(name@)) by {
        if names_of(v@).contains(name@) {
            let k = choose|k: int| 0 <= k < names_of(v@).len() && names_of(v@)[k] == name@;
            assert(v@[k]@ == name@);
        }
    }
    false
}

/// Whether every name of the list is in the system call table.
pub fn all_names_known(v: &Vec<String>) -> (r: bool)
    ensures
        r == all_known(names_of(v@)),
{
    let mut i: usize = 0;
    while i < v.len()
        invariant
            i <= v@.len(),
            forall|k: int| 0 <= k < i ==> is_known_name(#[trigger] names_of(v@)[k]),
        decreases v@.len() - i,
    {
        if syscall_number(v[i].as_str()).is_none() {
            assert(!is_known_name(names_of(v@)[i as int]));
            return false;
        }
        i = i + 1;
    }
    true
}

/// Checks a pair of lists: not both given, every name in the table.
pub fn check_lists(to_trace: &Vec<String>, dont_trace: &Vec<String>) -> (r: Result<(), InvalidOption>)
    ensures
        r == config_result(names_of(to_trace@), names_of(dont_trace@)),
{
    if to_trace.len() > 0 && dont_trace.len() > 0 {
        return Err(InvalidOption(InvalidKind::BothLists));
    }
    if !all_names_known(to_trace) {
        return Err(InvalidOption(InvalidKind::UnknownToTrace));
    }
    if !all_names_known(dont_trace) {
        return Err(InvalidOption(InvalidKind::UnknownDontTrace));
    }
    Ok(())
}

/// The filter of a trace: which names to report.
pub struct TraceSpec {
    to_trace: Vec<String>,
    dont_trace: Vec<String>,
}

/// What a `TraceSpec` holds: its inclusion and exclusion lists.
pub struct TraceSpecView {
    pub to_trace: Seq<Seq<char>>,
    pub dont_trace: Seq<Seq<char>>,
}

impl TraceSpecView {
    /// The lists are not both non-empty and hold known names only.
    pub open spec fn valid(self) -> bool {
        config_error(self.to_trace, self.dont_trace) is None
    }

    /// Whether a call with this name is reported.
    pub open spec fn traces(self, name: Option<Seq<char>>) -> bool {
        traces(self.to_trace, self.dont_trace, name)
    }
}

impl View for TraceSpec {
    type V = TraceSpecView;

    closed spec fn view(&self) -> TraceSpecView {
        TraceSpecView { to_trace: names_of(self.to_trace@), dont_trace: names_of(self.dont_trace@) }
    }
}

/// The view of an optional name.
pub open spec fn name_view(name: Option<&str>) -> Option<Seq<char>> {
    match name {
        Some(s) => Some(s@),
        None => None,
    }
}

impl TraceSpec {
    #[verifier::type_invariant]
    spec fn inv(&self) -> bool {
        self@.valid()
    }

    /// Builds a filter from an inclusion list and an exclusion list; fails
    /// when both are given or when a name is not in the system call table.
    pub fn new(to_trace: Vec<String>, dont_trace: Vec<String>) -> (r: Result<TraceSpec, InvalidOption>)
        ensures
            r is Ok <==> config_error(names_of(to_trace@), names_of(dont_trace@)) is None,
            r is Err ==> r == Err::<TraceSpec, InvalidOption>(InvalidOption(config_error(names_of(to_trace@), names_of(dont_trace@))->0)),
            r is Ok ==> r->Ok_0@ == (TraceSpecView { to_trace: names_of(to_trace@), dont_trace: names_of(dont_trace@) }),
    {
        match check_lists(&to_trace, &dont_trace) {
            Err(e) => Err(e),
            Ok(()) => Ok(TraceSpec { to_trace, dont_trace }),
        }
    }

    /// The filter that reports every call.
    pub fn all() -> (r: TraceSpec)
        ensures
            r@.to_trace.len() == 0,
            r@.dont_trace.len() == 0,
    {
        let r = TraceSpec { to_trace: Vec::new(), dont_trace: Vec::new() };
        assert(names_of(r.to_trace@) =~= Seq::<Seq<char>>::empty());
        assert(names_of(r.dont_trace@) =~= Seq::<Seq<char>>::empty());
        r
    }

    /// Whether a call with this name (`None`: unnamed number) is reported.
    pub fn should_trace(&self, name: Option<&str>) -> (r: bool)
        ensures
            r == self@.traces(name_view(name)),
    {
        if self.to_trace.len() > 0 {
            match name {
                Some(s) => list_contains(&self.to_trace, s),
                None => false,
            }
        } else if self.dont_trace.len() > 0 {
            match name {
                Some(s) => !list_contains(&self.dont_trace, s),
                None => true,
            }
        } else {
            true
        }
    }
}

} // verus!
