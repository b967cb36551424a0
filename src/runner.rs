use crate::hooks::{hooks_for, Hook};
use crate::language::Language;
use vstd::prelude::*;

verus! {

/// Whether a hook passed, given the exit code of its command: only a command
/// that exited with code 0 passes. `None` stands for a command that could not
/// be spawned or was ended by a signal.
pub open spec fn exit_passed(exit_code: Option<i32>) -> bool {
    exit_code == Some(0i32)
}

/// Whether every recorded outcome is a pass (true of no outcome at all).
pub open spec fn all_passed(outcomes: Seq<bool>) -> bool {
    forall|i: int| 0 <= i < outcomes.len() ==> #[trigger] outcomes[i]
}

/// Where the run of one ecosystem's hook sequence stands: the hooks to run, in
/// order, and the outcomes of those that have run.
pub struct RunState {
    pub language: Language,
    pub hooks: Seq<Hook>,
    pub outcomes: Seq<bool>,
}

impl RunState {
    /// A state that only running hooks in order can reach.
    pub open spec fn wf(self) -> bool {
        self.outcomes.len() <= self.hooks.len()
    }

    /// A run that has not started yet.
    pub open spec fn fresh(self) -> bool {
        self.outcomes.len() == 0
    }

    /// Every hook has run.
    pub open spec fn done(self) -> bool {
        self.outcomes.len() >= self.hooks.len()
    }

    /// The hook that runs next, if any.
    pub open spec fn next(self) -> Option<Hook> {
        if self.outcomes.len() < self.hooks.len() {
            Some(self.hooks[self.outcomes.len() as int])
        } else {
            None
        }
    }

    /// The state after the next hook ran and exited with `exit_code`.
    pub open spec fn record(self, exit_code: Option<i32>) -> RunState {
        RunState { outcomes: self.outcomes.push(exit_passed(exit_code)), ..self }
    }

    /// The state after hooks ran, in order, with the exit codes `codes`.
    pub open spec fn replay(self, codes: Seq<Option<i32>>) -> RunState
        decreases codes.len(),
    {
        if codes.len() == 0 {
            self
        } else {
            self.replay(codes.drop_last()).record(codes.last())
        }
    }

    /// The result of the run once every hook has run.
    pub open spec fn result(self, elapsed: u64) -> EcosystemResult {
        EcosystemResult { language: self.language, passed: all_passed(self.outcomes), elapsed }
    }
}

/// The outcome of verifying one ecosystem: whether every hook passed, and how
/// many seconds the whole sequence took.
#[derive(Clone, Copy, Debug, PartialEq, Eq, Structural)]
pub struct EcosystemResult {
    pub language: Language,
    pub passed: bool,
    pub elapsed: u64,
}

/// Whether a hook passed, given the exit code of its command.
pub fn hook_passed(exit_code: Option<i32>) -> (r: bool)
    ensures
        r == exit_passed(exit_code),
{
    match exit_code {
        Some(code) => code == 0,
        None => false,
    }
}

/// The message that closes a hook's progress line: its success message if it
/// passed, else its failure message.
pub fn outcome_message(hook: &Hook, passed: bool) -> (r: &'static str)
    ensures
        r@ == if passed {
            hook.success@
        } else {
            hook.failure@
        },
{
    if passed {
        hook.success
    } else {
        hook.failure
    }
}

/// The run of one ecosystem's hooks, one at a time and in order. Every hook
/// runs, whatever the outcome of those before it.
pub struct EcosystemRun {
    language: Language,
    hooks: Vec<Hook>,
    outcomes: Vec<bool>,
}

impl View for EcosystemRun {
    type V = RunState;

    closed spec fn view(&self) -> RunState {
        RunState { language: self.language, hooks: self.hooks@, outcomes: self.outcomes@ }
    }
}

impl EcosystemRun {
    /// A run of `hooks` for `language` that has not started.
    pub fn new(language: Language, hooks: Vec<Hook>) -> (r: Self)
        ensures
            r@ == (RunState { language, hooks: hooks@, outcomes: Seq::empty() }),
    {
        EcosystemRun { language, hooks, outcomes: Vec::new() }
    }

    /// A run of the catalog sequence of `language` that has not started.
    pub fn for_language(language: Language) -> (r: Self)
        ensures
            r@ == (RunState { language, hooks: hooks_for(language), outcomes: Seq::empty() }),
    {
        Self::new(language, Hook::get(language))
    }

    /// The ecosystem whose hooks this run runs.
    pub fn language(&self) -> (r: Language)
        ensures
            r == self@.language,
    {
        self.language
    }

    /// The hook to run next, or `None` once every hook has run.
    pub fn next_hook(&self) -> (r: Option<Hook>)
        ensures
            r == self@.next(),
    {
        let k = self.outcomes.len();
        if k < self.hooks.len() {
            Some(self.hooks[k])
        } else {
            None
        }
    }

    /// Every hook has run.
    pub fn is_done(&self) -> (r: bool)
        ensures
            r == self@.done(),
    {
        self.outcomes.len() >= self.hooks.len()
    }

    /// Records that the next hook ran and exited with `exit_code`; returns
    /// whether it passed.
    pub fn record(&mut self, exit_code: Option<i32>) -> (r: bool)
        requires
            !old(self)@.done(),
        ensures
            final(self)@ == old(self)@.record(exit_code),
            r == exit_passed(exit_code),
    {
        let passed = hook_passed(exit_code);
        self.outcomes.push(passed);
        passed
    }

    /// The result of the run, once every hook has run, given the seconds it
    /// took.
    pub fn finish(&self, elapsed: u64) -> (r: EcosystemResult)
        requires
            self@.done(),
        ensures
            r == self@.result(elapsed),
    {
        let mut passed = true;
        let mut i: usize = 0;
        while i < self.outcomes.len()
            invariant
                i <= self.outcomes@.len(),
                passed == all_passed(self.outcomes@.subrange(0, i as int)),
            decreases self.outcomes@.len() - i,
        {
            let ghost pre = self.outcomes@.subrange(0, i as int);
            let b = self.outcomes[i];
            assert(self.outcomes@.subrange(0, i + 1) == pre.push(b));
            assert(all_passed(pre.push(b)) == (all_passed(pre) && b)) by {
                if all_passed(pre.push(b)) {
                    assert forall|k: int| 0 <= k < pre.len() implies #[trigger] pre[k] by {
                        assert(pre.push(b)[k] == pre[k]);
                    }
                    assert(pre.push(b)[pre.len() as int] == b);
                }
            }
            passed = passed && b;
            i = i + 1;
        }
        assert(self.outcomes@.subrange(0, i as int) == self.outcomes@);
        EcosystemResult { language: self.language, passed, elapsed }
    }
}

/// Replaying exit codes keeps the ecosystem and its hooks, and adds one
/// outcome per code, each the verdict on its own code.
pub proof fn lemma_replay(s: RunState, codes: Seq<Option<i32>>)
    ensures
        s.replay(codes).language == s.language,
        s.replay(codes).hooks == s.hooks,
        s.replay(codes).outcomes.len() == s.outcomes.len() + codes.len(),
        s.replay(codes).outcomes.subrange(0, s.outcomes.len() as int) == s.outcomes,
        forall|i: int|
            0 <= i < codes.len() ==> s.replay(codes).outcomes[s.outcomes.len() + i]
                == exit_passed(#[trigger] codes[i]),
    decreases codes.len(),
{
    if codes.len() > 0 {
        let prefix = codes.drop_last();
        lemma_replay(s, prefix);
        let before = s.replay(prefix);
        assert(before.record(codes.last()).outcomes == before.outcomes.push(
            exit_passed(codes.last()),
        ));
        assert forall|i: int| 0 <= i < codes.len() implies s.replay(codes).outcomes[s.outcomes.len()
            + i] == exit_passed(#[trigger] codes[i]) by {
            if i < prefix.len() {
                assert(prefix[i] == codes[i]);
            }
        }
        assert(s.replay(codes).outcomes.subrange(0, s.outcomes.len() as int)
            == before.outcomes.subrange(0, s.outcomes.len() as int));
    }
}

/// No short-circuit: from a fresh run of N hooks, whatever exit codes come
/// back, the run hands out hook k as the k-th to run and is done after exactly
/// N of them, not before.
pub proof fn lemma_every_hook_runs(s: RunState, codes: Seq<Option<i32>>)
    requires
        s.fresh(),
        codes.len() <= s.hooks.len(),
    ensures
        s.replay(codes).outcomes.len() == codes.len(),
        s.replay(codes).done() <==> codes.len() == s.hooks.len(),
        codes.len() < s.hooks.len() ==> s.replay(codes).next() == Some(s.hooks[codes.len() as int]),
        s.replay(codes).wf(),
{
    lemma_replay(s, codes);
}

/// After every hook of a fresh run has run, the ecosystem passed if and only
/// if every exit code was 0.
pub proof fn lemma_passed_iff_all_exit_zero(s: RunState, codes: Seq<Option<i32>>, elapsed: u64)
    requires
        s.fresh(),
        codes.len() == s.hooks.len(),
    ensures
        s.replay(codes).done(),
        s.replay(codes).result(elapsed).passed <==> (forall|i: int|
            0 <= i < codes.len() ==> #[trigger] codes[i] == Some(0i32)),
{
    lemma_replay(s, codes);
    let out = s.replay(codes).outcomes;
    if all_passed(out) {
        assert forall|i: int| 0 <= i < codes.len() implies #[trigger] codes[i] == Some(0i32) by {
            assert(out[0 + i] == exit_passed(codes[i]));
        }
    }
    if forall|i: int| 0 <= i < codes.len() ==> #[trigger] codes[i] == Some(0i32) {
        assert forall|i: int| 0 <= i < out.len() implies #[trigger] out[i] by {
            assert(out[0 + i] == exit_passed(codes[i]));
        }
    }
}

/// A run with no hooks is done before it starts, and passes.
pub proof fn lemma_no_hooks_passes(s: RunState, elapsed: u64)
    requires
        s.fresh(),
        s.hooks.len() == 0,
    ensures
        s.done(),
        s.next() is None,
        s.result(elapsed).passed,
{
}

/// The catalog ecosystems with no hooks (`Unknown`, `R`, `Kotlin`) pass once
/// detected, without running anything.
pub proof fn lemma_unverified_ecosystems_pass(language: Language, elapsed: u64)
    requires
        hooks_for(language).len() == 0,
    ensures
        (RunState { language, hooks: hooks_for(language), outcomes: Seq::empty() }).done(),
        (RunState { language, hooks: hooks_for(language), outcomes: Seq::empty() }).result(
            elapsed,
        ).passed,
{
}

/// Two runs of the same hooks that get back the same exit codes end in the
/// same outcomes and the same verdict.
pub proof fn lemma_same_codes_same_verdict(
    s: RunState,
    t: RunState,
    codes: Seq<Option<i32>>,
    elapsed: u64,
)
    requires
        s.fresh(),
        t.fresh(),
        s.language == t.language,
        s.hooks == t.hooks,
    ensures
        s.replay(codes).outcomes == t.replay(codes).outcomes,
        s.replay(codes).result(elapsed) == t.replay(codes).result(elapsed),
{
    lemma_replay(s, codes);
    lemma_replay(t, codes);
    assert(s.outcomes == t.outcomes);
    assert(s == t);
}

} // verus!
