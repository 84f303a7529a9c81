//! Outcome flags of a whole invocation and the exit classification they
//! map to.
use vstd::prelude::*;

verus! {

/// Relies on `proc_exit::Code::SUCCESS`, whose raw value is 0.
#[verifier::external_body]
fn success_code() -> (r: i32)
    ensures
        r == 0,
{
    proc_exit::Code::SUCCESS.raw()
}

/// Relies on `proc_exit::Code::FAILURE`, whose raw value is 1.
#[verifier::external_body]
fn failure_code() -> (r: i32)
    ensures
        r == 1,
{
    proc_exit::Code::FAILURE.raw()
}

/// Relies on `proc_exit::Code::UNKNOWN`, whose raw value is 2.
#[verifier::external_body]
fn unknown_code() -> (r: i32)
    ensures
        r == 2,
{
    proc_exit::Code::UNKNOWN.raw()
}

/// Relies on `proc_exit::Code::USAGE_ERR`, whose raw value is 64.
#[verifier::external_body]
fn usage_err_code() -> (r: i32)
    ensures
        r == 64,
{
    proc_exit::Code::USAGE_ERR.raw()
}

/// Relies on `proc_exit::Code::CONFIG_ERR`, whose raw value is 78.
#[verifier::external_body]
fn config_err_code() -> (r: i32)
    ensures
        r == 78,
{
    proc_exit::Code::CONFIG_ERR.raw()
}

/// What the check of one file reported.
#[derive(Debug, Clone, Copy, PartialEq, Eq, Structural)]
pub struct FileOutcome {
    pub typo: bool,
    pub error: bool,
}

/// The two flags of an invocation; each only ever goes from false to true.
#[derive(Debug, Clone, Copy, PartialEq, Eq, Structural)]
pub struct OutcomeFlags {
    pub typos_found: bool,
    pub errors_found: bool,
}

/// The flags after recording `o` over `f`.
pub open spec fn recorded(f: OutcomeFlags, o: FileOutcome) -> OutcomeFlags {
    OutcomeFlags { typos_found: f.typos_found || o.typo, errors_found: f.errors_found || o.error }
}

/// The flags after recording the outcomes of `s` one by one, from none set.
pub open spec fn fold_outcomes(s: Seq<FileOutcome>) -> OutcomeFlags
    decreases s.len(),
{
    if s.len() == 0 {
        OutcomeFlags { typos_found: false, errors_found: false }
    } else {
        recorded(fold_outcomes(s.drop_last()), s.last())
    }
}

impl OutcomeFlags {
    /// Neither flag set.
    pub fn new() -> (r: OutcomeFlags)
        ensures
            !r.typos_found,
            !r.errors_found,
    {
        OutcomeFlags { typos_found: false, errors_found: false }
    }

    pub fn typos_found(&self) -> (r: bool)
        ensures
            r == self.typos_found,
    {
        self.typos_found
    }

    pub fn errors_found(&self) -> (r: bool)
        ensures
            r == self.errors_found,
    {
        self.errors_found
    }

    /// Sets each flag that `o` reports; a set flag stays set.
    pub fn record(&mut self, o: FileOutcome)
        ensures
            *final(self) == recorded(*old(self), o),
    {
        if o.typo {
            self.typos_found = true;
        }
        if o.error {
            self.errors_found = true;
        }
    }

    /// Sets each flag that `other` has set.
    pub fn absorb(&mut self, other: OutcomeFlags)
        ensures
            final(self).typos_found == (old(self).typos_found || other.typos_found),
            final(self).errors_found == (old(self).errors_found || other.errors_found),
    {
        if other.typos_found {
            self.typos_found = true;
        }
        if other.errors_found {
            self.errors_found = true;
        }
    }
}

/// The flags of the outcomes in `outcomes`, recorded in order.
pub fn summarize(outcomes: &Vec<FileOutcome>) -> (r: OutcomeFlags)
    ensures
        r == fold_outcomes(outcomes@),
{
    let mut f = OutcomeFlags::new();
    let mut i: usize = 0;
    while i < outcomes.len()
        invariant
            i <= outcomes.len(),
            f == fold_outcomes(outcomes@.subrange(0, i as int)),
        decreases outcomes.len() - i,
    {
        proof {
            let s = outcomes@.subrange(0, i + 1);
            assert(s.drop_last() =~= outcomes@.subrange(0, i as int));
        }
        f.record(outcomes[i]);
        i = i + 1;
    }
    assert(outcomes@.subrange(0, outcomes.len() as int) =~= outcomes@);
    f
}

/// A flag of recorded outcomes is set exactly when some outcome reports it.
pub proof fn lemma_fold_is_any(s: Seq<FileOutcome>)
    ensures
        fold_outcomes(s).typos_found == exists|i: int| 0 <= i < s.len() && (#[trigger] s[i]).typo,
        fold_outcomes(s).errors_found == exists|i: int| 0 <= i < s.len() && (#[trigger] s[i]).error,
    decreases s.len(),
{
    if s.len() > 0 {
        let t = s.drop_last();
        lemma_fold_is_any(t);
        if fold_outcomes(t).typos_found {
            let i = choose|i: int| 0 <= i < t.len() && (#[trigger] t[i]).typo;
            assert(s[i] == t[i]);
        }
        if fold_outcomes(t).errors_found {
            let i = choose|i: int| 0 <= i < t.len() && (#[trigger] t[i]).error;
            assert(s[i] == t[i]);
        }
        assert forall|i: int| 0 <= i < s.len() - 1 implies #[trigger] s[i] == t[i] by {}
    }
}

/// The flags do not depend on the order in which outcomes are recorded:
/// any two orders of the same outcomes, as workers may interleave them,
/// give the same flags.
pub proof fn lemma_order_invariant(s1: Seq<FileOutcome>, s2: Seq<FileOutcome>)
    requires
        s1.to_multiset() == s2.to_multiset(),
    ensures
        fold_outcomes(s1) == fold_outcomes(s2),
{
    lemma_fold_is_any(s1);
    lemma_fold_is_any(s2);
    lemma_same_flags_one_way(s1, s2);
    lemma_same_flags_one_way(s2, s1);
}

proof fn lemma_same_flags_one_way(s: Seq<FileOutcome>, t: Seq<FileOutcome>)
    requires
        s.to_multiset() == t.to_multiset(),
    ensures
        fold_outcomes(s).typos_found ==> fold_outcomes(t).typos_found,
        fold_outcomes(s).errors_found ==> fold_outcomes(t).errors_found,
{
    lemma_fold_is_any(s);
    lemma_fold_is_any(t);
    s.to_multiset_ensures();
    t.to_multiset_ensures();
    if fold_outcomes(s).typos_found {
        let i = choose|i: int| 0 <= i < s.len() && (#[trigger] s[i]).typo;
        assert(s.contains(s[i]));
        assert(s.to_multiset().count(s[i]) > 0);
        assert(t.to_multiset().count(s[i]) > 0);
        assert(t.contains(s[i]));
        let j = choose|j: int| 0 <= j < t.len() && t[j] == s[i];
        assert(t[j].typo);
    }
    if fold_outcomes(s).errors_found {
        let i = choose|i: int| 0 <= i < s.len() && (#[trigger] s[i]).error;
        assert(s.contains(s[i]));
        assert(s.to_multiset().count(s[i]) > 0);
        assert(t.to_multiset().count(s[i]) > 0);
        assert(t.contains(s[i]));
        let j = choose|j: int| 0 <= j < t.len() && t[j] == s[i];
        assert(t[j].error);
    }
}

/// How an invocation ends.
#[derive(Debug, Clone, Copy, PartialEq, Eq, Structural)]
pub enum ExitClass {
    /// Nothing to report.
    Success,
    /// Misspellings were reported and nothing failed.
    TyposFound,
    /// Some file or traversal failed.
    Failure,
    /// A root path or an argument is unusable.
    UsageError,
    /// A configuration could not be used.
    ConfigError,
}

/// Errors take precedence over typos; neither flag means success.
pub open spec fn spec_classify(f: OutcomeFlags) -> ExitClass {
    if f.errors_found {
        ExitClass::Failure
    } else if f.typos_found {
        ExitClass::TyposFound
    } else {
        ExitClass::Success
    }
}

/// The classification of an invocation's final flags.
pub fn classify(f: OutcomeFlags) -> (r: ExitClass)
    ensures
        r == spec_classify(f),
{
    if f.errors_found {
        ExitClass::Failure
    } else if f.typos_found {
        ExitClass::TyposFound
    } else {
        ExitClass::Success
    }
}

impl ExitClass {
    /// The process exit code of each class; typos and failures differ.
    pub open spec fn spec_code(self) -> i32 {
        match self {
            ExitClass::Success => 0,
            ExitClass::Failure => 1,
            ExitClass::TyposFound => 2,
            ExitClass::UsageError => 64,
            ExitClass::ConfigError => 78,
        }
    }

    pub fn code(&self) -> (r: i32)
        ensures
            r == self.spec_code(),
    {
        match self {
            ExitClass::Success => success_code(),
            ExitClass::Failure => failure_code(),
            ExitClass::TyposFound => unknown_code(),
            ExitClass::UsageError => usage_err_code(),
            ExitClass::ConfigError => config_err_code(),
        }
    }
}

/// What processing one root path came to.
#[derive(Debug, Clone, Copy, PartialEq, Eq, Structural)]
pub enum RootEvent {
    /// The walk of the root finished with these flags.
    Walked(OutcomeFlags),
    /// The root path does not exist.
    BadPath,
    /// The root's configuration could not be used.
    BadConfig,
    /// Enumeration of the root's directories failed after these flags.
    WalkFailed(OutcomeFlags),
}

/// The state of an invocation over its roots.
#[derive(Debug, Clone, Copy, PartialEq, Eq, Structural)]
pub struct RunState {
    pub flags: OutcomeFlags,
    /// Set when the invocation must end before its remaining roots.
    pub halted: Option<ExitClass>,
}

/// The state after `e`, from `s`.
pub open spec fn spec_step(s: RunState, e: RootEvent) -> RunState {
    if s.halted is Some {
        s
    } else {
        match e {
            RootEvent::Walked(f) => RunState {
                flags: OutcomeFlags {
                    typos_found: s.flags.typos_found || f.typos_found,
                    errors_found: s.flags.errors_found || f.errors_found,
                },
                halted: None,
            },
            RootEvent::WalkFailed(f) => RunState {
                flags: OutcomeFlags {
                    typos_found: s.flags.typos_found || f.typos_found,
                    errors_found: true,
                },
                halted: None,
            },
            RootEvent::BadPath => RunState { halted: Some(ExitClass::UsageError), ..s },
            RootEvent::BadConfig => RunState { halted: Some(ExitClass::ConfigError), ..s },
        }
    }
}

/// The state after the events of `s`, from the start.
pub open spec fn spec_run(s: Seq<RootEvent>) -> RunState
    decreases s.len(),
{
    if s.len() == 0 {
        RunState { flags: OutcomeFlags { typos_found: false, errors_found: false }, halted: None }
    } else {
        spec_step(spec_run(s.drop_last()), s.last())
    }
}

/// How a state ends the invocation.
pub open spec fn spec_finish(s: RunState) -> ExitClass {
    match s.halted {
        Some(c) => c,
        None => spec_classify(s.flags),
    }
}

/// Whether a root event reports a failure of a file or of a traversal.
pub open spec fn event_failed(e: RootEvent) -> bool {
    match e {
        RootEvent::Walked(f) => f.errors_found,
        RootEvent::WalkFailed(_) => true,
        _ => false,
    }
}

impl RunState {
    /// The state before any root.
    pub fn start() -> (r: RunState)
        ensures
            r == spec_run(Seq::empty()),
    {
        RunState { flags: OutcomeFlags::new(), halted: None }
    }

    /// Whether the remaining roots are to be skipped.
    pub fn is_halted(&self) -> (r: bool)
        ensures
            r == self.halted is Some,
    {
        self.halted.is_some()
    }

    /// Takes in what one root came to.
    pub fn step(&mut self, e: RootEvent)
        ensures
            *final(self) == spec_step(*old(self), e),
    {
        if self.halted.is_some() {
            return;
        }
        match e {
            RootEvent::Walked(f) => self.flags.absorb(f),
            RootEvent::WalkFailed(f) => {
                self.flags.absorb(f);
                self.flags.errors_found = true;
            },
            RootEvent::BadPath => self.halted = Some(ExitClass::UsageError),
            RootEvent::BadConfig => self.halted = Some(ExitClass::ConfigError),
        }
    }

    /// How the invocation ends.
    pub fn finish(&self) -> (r: ExitClass)
        ensures
            r == spec_finish(*self),
    {
        match self.halted {
            Some(c) => c,
            None => classify(self.flags),
        }
    }
}

/// Once any root reports a failed file or traversal, and no root ended the
/// invocation early, the invocation is a failure, whatever typos other roots
/// reported and in whatever order the roots came.
pub proof fn lemma_error_precedence(s: Seq<RootEvent>, i: int)
    requires
        0 <= i < s.len(),
        event_failed(s[i]),
        forall|j: int| 0 <= j < s.len() ==> !((#[trigger] s[j]) is BadPath) && !(s[j] is BadConfig),
    ensures
        spec_finish(spec_run(s)) == ExitClass::Failure,
    decreases s.len(),
{
    lemma_never_halted(s);
    lemma_failed_sticks(s, i);
}

proof fn lemma_never_halted(s: Seq<RootEvent>)
    requires
        forall|j: int| 0 <= j < s.len() ==> !((#[trigger] s[j]) is BadPath) && !(s[j] is BadConfig),
    ensures
        spec_run(s).halted is None,
    decreases s.len(),
{
    if s.len() > 0 {
        let t = s.drop_last();
        assert forall|j: int| 0 <= j < t.len() implies !((#[trigger] t[j]) is BadPath) && !(
        t[j] is BadConfig) by {
            assert(t[j] == s[j]);
        }
        lemma_never_halted(t);
    }
}

proof fn lemma_failed_sticks(s: Seq<RootEvent>, i: int)
    requires
        0 <= i < s.len(),
        event_failed(s[i]),
        spec_run(s).halted is None,
    ensures
        spec_run(s).flags.errors_found,
    decreases s.len(),
{
    let t = s.drop_last();
    if i < s.len() - 1 {
        assert(t[i] == s[i]);
        lemma_failed_sticks(t, i);
    }
}

} // verus!
