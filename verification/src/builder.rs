//! The staged lifecycle harness.  A harness is assembled from five
//! collaborator slots — pre-suite, pre-test, test program, post-test,
//! post-suite — each filled with either a user implementation or an explicit
//! no-op.  The builder's type changes with every filled slot, so `run` only
//! exists once all five are present and a slot cannot be filled twice.
//!
//! A run executes suite setup once, then one case per iteration (test setup,
//! program run, test teardown — the teardown always runs), stops at the
//! first failing case, executes suite teardown exactly once whatever
//! happened, and reports the iteration count reached together with the
//! failing seed, which on its own suffices to replay the failing case.

use vstd::prelude::*;

verus! {

use crate::seed_phrase::SeedPhrase;
use crate::stream::{DeterministicStream, fresh_seed_bytes};

/// Builds the suite state once, before the first case.
pub trait PreSuiteTrait<Suite> {
    /// Create the run-scoped suite state.
    fn setup_suite(&self) -> Suite;
}

/// Builds the per-iteration test state; it may draw from the stream.
pub trait PreTestTrait<Suite, TestData> {
    /// Create the iteration-scoped test state.
    fn setup_test(&self, suite: &Suite, stream: &mut DeterministicStream) -> TestData;
}

/// Tears the per-iteration test state down; runs whatever the outcome was.
pub trait PostTestTrait<Suite, TestData> {
    /// Destroy the iteration-scoped test state.
    fn teardown_test(&self, suite: &Suite, test: TestData);
}

/// Tears the suite state down once, after the last attempted case.
pub trait PostSuiteTrait<Suite> {
    /// Destroy the run-scoped suite state.
    fn teardown_suite(&self, suite: Suite);
}

/// The user-supplied test program.  It owns the rest of the case's stream
/// and reports whether the case passed.
pub trait ProgramTrait<Suite, TestData> {
    /// Run one case; `true` means the case passed.
    fn run(&self, suite: &Suite, test: &TestData, stream: DeterministicStream) -> bool;
}

/// The built-in no-op implementation for any slot a harness does not need.
pub struct NoOpSetup;

impl PreSuiteTrait<()> for NoOpSetup {
    fn setup_suite(&self) -> () {
    }
}

impl<Suite> PreTestTrait<Suite, ()> for NoOpSetup {
    fn setup_test(&self, _suite: &Suite, _stream: &mut DeterministicStream) -> () {
    }
}

impl<Suite, TestData> PostTestTrait<Suite, TestData> for NoOpSetup {
    fn teardown_test(&self, _suite: &Suite, _test: TestData) {
    }
}

impl<Suite> PostSuiteTrait<Suite> for NoOpSetup {
    fn teardown_suite(&self, _suite: Suite) {
    }
}

/// One lifecycle stage as it was performed, in order, during a run.
#[derive(Clone, Copy, PartialEq, Eq, Structural, Debug)]
pub enum LifecycleEvent {
    /// The suite state was created.
    SuiteSetup,
    /// An iteration's test state was created.
    TestSetup,
    /// The test program ran, with this outcome.
    ProgramRun(bool),
    /// An iteration's test state was destroyed.
    TestTeardown,
    /// The suite state was destroyed.
    SuiteTeardown,
}

/// The stages of one iteration whose program run had the given outcome.
pub open spec fn iteration_events(passed: bool) -> Seq<LifecycleEvent> {
    seq![
        LifecycleEvent::TestSetup,
        LifecycleEvent::ProgramRun(passed),
        LifecycleEvent::TestTeardown,
    ]
}

/// The stages of `n` executed iterations of which exactly the last one
/// failed if `failed` (and none otherwise).
pub open spec fn case_events(n: int, failed: bool) -> Seq<LifecycleEvent>
    decreases n,
{
    if n <= 0 {
        Seq::empty()
    } else {
        case_events(n - 1, false) + iteration_events(!failed)
    }
}

/// The full stage log of a run: suite setup, the iterations, suite teardown.
pub open spec fn expected_log(n: int, failed: bool) -> Seq<LifecycleEvent> {
    seq![LifecycleEvent::SuiteSetup] + case_events(n, failed) + seq![LifecycleEvent::SuiteTeardown]
}

proof fn lemma_case_events_shape(n: int, failed: bool)
    requires
        0 <= n,
    ensures
        case_events(n, failed).len() == 3 * n,
        forall|i: int|
            #![trigger case_events(n, failed)[3 * i]]
            0 <= i < n ==> case_events(n, failed)[3 * i] == LifecycleEvent::TestSetup
                && case_events(n, failed)[3 * i + 1] == LifecycleEvent::ProgramRun(
                i < n - 1 || !failed,
            ) && case_events(n, failed)[3 * i + 2] == LifecycleEvent::TestTeardown,
    decreases n,
{
    if n > 0 {
        lemma_case_events_shape(n - 1, false);
    }
}

/// Lifecycle ordering and fail-fast, read off the log of a run of `n`
/// iterations: suite setup is the single first event and suite teardown the
/// single last one; every iteration performed exactly one test setup, one
/// program run and one test teardown, in that order, the teardown regardless
/// of the outcome; and every program run before the last one passed, so a
/// run whose `n`-th iteration failed stopped there.  Together with the
/// contract of `run`, whose report carries exactly this log, this pins the
/// order of every stage the harness performs.
pub proof fn lemma_log_shape(n: int, failed: bool)
    requires
        0 <= n,
    ensures
        expected_log(n, failed).len() == 3 * n + 2,
        expected_log(n, failed)[0] == LifecycleEvent::SuiteSetup,
        expected_log(n, failed)[3 * n + 1] == LifecycleEvent::SuiteTeardown,
        forall|i: int|
            #![trigger expected_log(n, failed)[3 * i + 1]]
            0 <= i < n ==> expected_log(n, failed)[3 * i + 1] == LifecycleEvent::TestSetup
                && expected_log(n, failed)[3 * i + 2] == LifecycleEvent::ProgramRun(
                i < n - 1 || !failed,
            ) && expected_log(n, failed)[3 * i + 3] == LifecycleEvent::TestTeardown,
{
    lemma_case_events_shape(n, failed);
}

/// The configuration of a run: an optional fixed seed and an optional
/// iteration bound.
pub struct DeterministicSimulationArgs {
    /// Run exactly one case with this seed; the bound is then ignored.
    pub seed: Option<SeedPhrase>,
    /// How many fresh-seed cases to run; unbounded when absent.
    pub max_iterations: Option<u128>,
}

/// How many cases a configuration asks for: one for a fixed seed, the
/// configured bound otherwise, and a practically unreachable ceiling when
/// neither is given.
pub open spec fn iteration_bound(args: DeterministicSimulationArgs) -> int {
    if args.seed is Some {
        1
    } else if args.max_iterations is Some {
        args.max_iterations->0 as int
    } else {
        u128::MAX as int
    }
}

/// Derive the next case for a configuration: the fixed seed where one is
/// given, a freshly drawn random seed otherwise, each with its stream.  The
/// stream starts at the beginning of the output keyed by exactly the seed
/// that is returned (and, on failure, reported), which is what makes a
/// failing case replayable from its seed alone.
fn derive_case(args: &DeterministicSimulationArgs) -> (r: (SeedPhrase, DeterministicStream))
    ensures
        args.seed is Some ==> r.0 == args.seed->0,
        r.1.seed() == r.0@,
        r.1.pos() == 0,
{
    let seed: SeedPhrase = match &args.seed {
        Some(s) => *s,
        None => {
            let drawn = SeedPhrase::from_bytes(fresh_seed_bytes().as_slice());
            drawn.unwrap()
        },
    };
    let stream = DeterministicStream::from_seed(seed.into_bytes());
    (seed, stream)
}

/// The outcome of one harness run.
pub struct RunReport {
    /// How many iterations executed test setup, program run and teardown.
    pub iterations: u128,
    /// The seed of the failing case, where a case failed.
    pub failure: Option<SeedPhrase>,
    /// The order of lifecycle stages the run performed.
    pub log: Ghost<Seq<LifecycleEvent>>,
}

/// The staged harness builder.  Each collaborator slot starts at `()` and is
/// replaced, at the type level, when filled; `run` is only offered once all
/// five slots hold implementations.
pub struct RapidFuzzBuilder<Suite, TestData, PreSuite, PreTest, TestProgram, PostTest, PostSuite> {
    suite: core::marker::PhantomData<Suite>,
    test: core::marker::PhantomData<TestData>,
    pre_suite: PreSuite,
    pre_test: PreTest,
    test_program: TestProgram,
    post_test: PostTest,
    post_suite: PostSuite,
}

impl<Suite, TestData, PreSuite, PreTest, TestProgram, PostTest, PostSuite> RapidFuzzBuilder<
    Suite,
    TestData,
    PreSuite,
    PreTest,
    TestProgram,
    PostTest,
    PostSuite,
> {
    /// The five collaborator slots, in lifecycle order.
    pub closed spec fn parts(&self) -> (PreSuite, PreTest, TestProgram, PostTest, PostSuite) {
        (self.pre_suite, self.pre_test, self.test_program, self.post_test, self.post_suite)
    }
}

impl RapidFuzzBuilder<(), (), (), (), (), (), ()> {
    /// Start assembling a harness with every slot unfilled.
    pub fn new() -> (r: RapidFuzzBuilder<(), (), (), (), (), (), ()>) {
        RapidFuzzBuilder {
            suite: core::marker::PhantomData,
            test: core::marker::PhantomData,
            pre_suite: (),
            pre_test: (),
            test_program: (),
            post_test: (),
            post_suite: (),
        }
    }
}

impl<Suite, TestData, PreTest, TestProgram, PostTest, PostSuite> RapidFuzzBuilder<
    Suite,
    TestData,
    (),
    PreTest,
    TestProgram,
    PostTest,
    PostSuite,
> {
    /// Fill the pre-suite slot with a user implementation.
    pub fn with_pre_suite<PreSuite: PreSuiteTrait<Suite>>(self, pre_suite: PreSuite) -> (r:
        RapidFuzzBuilder<Suite, TestData, PreSuite, PreTest, TestProgram, PostTest, PostSuite>)
        ensures
            r.parts() == (
                pre_suite,
                self.parts().1,
                self.parts().2,
                self.parts().3,
                self.parts().4,
            ),
    {
        RapidFuzzBuilder {
            suite: core::marker::PhantomData,
            test: core::marker::PhantomData,
            pre_suite,
            pre_test: self.pre_test,
            test_program: self.test_program,
            post_test: self.post_test,
            post_suite: self.post_suite,
        }
    }

    /// Fill the pre-suite slot with the no-op; the suite state is `()`.
    pub fn without_pre_suite(self) -> (r: RapidFuzzBuilder<
        (),
        TestData,
        NoOpSetup,
        PreTest,
        TestProgram,
        PostTest,
        PostSuite,
    >)
        ensures
            r.parts() == (
                NoOpSetup,
                self.parts().1,
                self.parts().2,
                self.parts().3,
                self.parts().4,
            ),
    {
        RapidFuzzBuilder {
            suite: core::marker::PhantomData,
            test: core::marker::PhantomData,
            pre_suite: NoOpSetup,
            pre_test: self.pre_test,
            test_program: self.test_program,
            post_test: self.post_test,
            post_suite: self.post_suite,
        }
    }
}

impl<Suite, PreSuite, TestProgram, PostTest, PostSuite> RapidFuzzBuilder<
    Suite,
    (),
    PreSuite,
    (),
    TestProgram,
    PostTest,
    PostSuite,
> {
    /// Fill the pre-test slot with a user implementation, fixing the test
    /// state type.
    pub fn with_pre_test<TestData, PreTest: PreTestTrait<Suite, TestData>>(
        self,
        pre_test: PreTest,
    ) -> (r: RapidFuzzBuilder<Suite, TestData, PreSuite, PreTest, TestProgram, PostTest, PostSuite>)
        ensures
            r.parts() == (
                self.parts().0,
                pre_test,
                self.parts().2,
                self.parts().3,
                self.parts().4,
            ),
    {
        RapidFuzzBuilder {
            suite: core::marker::PhantomData,
            test: core::marker::PhantomData,
            pre_suite: self.pre_suite,
            pre_test,
            test_program: self.test_program,
            post_test: self.post_test,
            post_suite: self.post_suite,
        }
    }

    /// Fill the pre-test slot with the no-op; the test state is `()`.
    pub fn without_pre_test(self) -> (r: RapidFuzzBuilder<
        Suite,
        (),
        PreSuite,
        NoOpSetup,
        TestProgram,
        PostTest,
        PostSuite,
    >)
        ensures
            r.parts() == (
                self.parts().0,
                NoOpSetup,
                self.parts().2,
                self.parts().3,
                self.parts().4,
            ),
    {
        RapidFuzzBuilder {
            suite: core::marker::PhantomData,
            test: core::marker::PhantomData,
            pre_suite: self.pre_suite,
            pre_test: NoOpSetup,
            test_program: self.test_program,
            post_test: self.post_test,
            post_suite: self.post_suite,
        }
    }
}

impl<Suite, TestData, PreSuite, PreTest, PostTest, PostSuite> RapidFuzzBuilder<
    Suite,
    TestData,
    PreSuite,
    PreTest,
    (),
    PostTest,
    PostSuite,
> {
    /// Fill the test-program slot.  There is no no-op for this slot: a
    /// harness without a program has nothing to run.
    pub fn with_test_program<TestProgram: ProgramTrait<Suite, TestData>>(
        self,
        test_program: TestProgram,
    ) -> (r: RapidFuzzBuilder<Suite, TestData, PreSuite, PreTest, TestProgram, PostTest, PostSuite>)
        ensures
            r.parts() == (
                self.parts().0,
                self.parts().1,
                test_program,
                self.parts().3,
                self.parts().4,
            ),
    {
        RapidFuzzBuilder {
            suite: core::marker::PhantomData,
            test: core::marker::PhantomData,
            pre_suite: self.pre_suite,
            pre_test: self.pre_test,
            test_program,
            post_test: self.post_test,
            post_suite: self.post_suite,
        }
    }
}

impl<Suite, TestData, PreSuite, PreTest, TestProgram, PostSuite> RapidFuzzBuilder<
    Suite,
    TestData,
    PreSuite,
    PreTest,
    TestProgram,
    (),
    PostSuite,
> {
    /// Fill the post-test slot with a user implementation.
    pub fn with_post_test<PostTest: PostTestTrait<Suite, TestData>>(self, post_test: PostTest) -> (
        r: RapidFuzzBuilder<Suite, TestData, PreSuite, PreTest, TestProgram, PostTest, PostSuite>)
        ensures
            r.parts() == (
                self.parts().0,
                self.parts().1,
                self.parts().2,
                post_test,
                self.parts().4,
            ),
    {
        RapidFuzzBuilder {
            suite: core::marker::PhantomData,
            test: core::marker::PhantomData,
            pre_suite: self.pre_suite,
            pre_test: self.pre_test,
            test_program: self.test_program,
            post_test,
            post_suite: self.post_suite,
        }
    }

    /// Fill the post-test slot with the no-op.
    pub fn without_post_test(self) -> (r: RapidFuzzBuilder<
        Suite,
        TestData,
        PreSuite,
        PreTest,
        TestProgram,
        NoOpSetup,
        PostSuite,
    >)
        ensures
            r.parts() == (
                self.parts().0,
                self.parts().1,
                self.parts().2,
                NoOpSetup,
                self.parts().4,
            ),
    {
        RapidFuzzBuilder {
            suite: core::marker::PhantomData,
            test: core::marker::PhantomData,
            pre_suite: self.pre_suite,
            pre_test: self.pre_test,
            test_program: self.test_program,
            post_test: NoOpSetup,
            post_suite: self.post_suite,
        }
    }
}

impl<Suite, TestData, PreSuite, PreTest, TestProgram, PostTest> RapidFuzzBuilder<
    Suite,
    TestData,
    PreSuite,
    PreTest,
    TestProgram,
    PostTest,
    (),
> {
    /// Fill the post-suite slot with a user implementation.
    pub fn with_post_suite<PostSuite: PostSuiteTrait<Suite>>(self, post_suite: PostSuite) -> (r:
        RapidFuzzBuilder<Suite, TestData, PreSuite, PreTest, TestProgram, PostTest, PostSuite>)
        ensures
            r.parts() == (
                self.parts().0,
                self.parts().1,
                self.parts().2,
                self.parts().3,
                post_suite,
            ),
    {
        RapidFuzzBuilder {
            suite: core::marker::PhantomData,
            test: core::marker::PhantomData,
            pre_suite: self.pre_suite,
            pre_test: self.pre_test,
            test_program: self.test_program,
            post_test: self.post_test,
            post_suite,
        }
    }

    /// Fill the post-suite slot with the no-op; the suite state is `()`.
    pub fn without_post_suite(self) -> (r: RapidFuzzBuilder<
        (),
        TestData,
        PreSuite,
        PreTest,
        TestProgram,
        PostTest,
        NoOpSetup,
    >)
        ensures
            r.parts() == (
                self.parts().0,
                self.parts().1,
                self.parts().2,
                self.parts().3,
                NoOpSetup,
            ),
    {
        RapidFuzzBuilder {
            suite: core::marker::PhantomData,
            test: core::marker::PhantomData,
            pre_suite: self.pre_suite,
            pre_test: self.pre_test,
            test_program: self.test_program,
            post_test: self.post_test,
            post_suite: NoOpSetup,
        }
    }
}

impl<Suite, TestData, PreSuite, PreTest, TestProgram, PostTest, PostSuite> RapidFuzzBuilder<
    Suite,
    TestData,
    PreSuite,
    PreTest,
    TestProgram,
    PostTest,
    PostSuite,
> where
    PreSuite: PreSuiteTrait<Suite>,
    PreTest: PreTestTrait<Suite, TestData>,
    TestProgram: ProgramTrait<Suite, TestData>,
    PostTest: PostTestTrait<Suite, TestData>,
    PostSuite: PostSuiteTrait<Suite>,
 {
    /// Run one full test session for a configuration.
    ///
    /// The report's log shows that suite setup came first and suite teardown
    /// last, both exactly once; that every executed iteration performed test
    /// setup, program run and test teardown, in that order, the teardown
    /// regardless of the outcome; and that the run stopped at the first
    /// failing iteration.  The iteration count reaches the configured bound
    /// exactly when no case failed, and with a fixed seed a failure reports
    /// that seed.
    pub fn run(&self, args: &DeterministicSimulationArgs) -> (r: RunReport)
        ensures
            r.log@ == expected_log(r.iterations as int, r.failure is Some),
            r.iterations as int <= iteration_bound(*args),
            r.failure is None ==> r.iterations as int == iteration_bound(*args),
            r.failure is Some ==> 1 <= r.iterations,
            r.failure is Some && args.seed is Some ==> r.failure->0 == args.seed->0,
    {
        let bound: u128 = if args.seed.is_some() {
            1
        } else {
            match args.max_iterations {
                Some(m) => m,
                None => u128::MAX,
            }
        };
        let suite = self.pre_suite.setup_suite();
        let ghost mut log: Seq<LifecycleEvent> = seq![LifecycleEvent::SuiteSetup];
        let mut failure: Option<SeedPhrase> = None;
        let mut iterations: u128 = 0;
        while iterations < bound
            invariant_except_break
                bound as int == iteration_bound(*args),
                iterations <= bound,
                failure is None,
                log == seq![LifecycleEvent::SuiteSetup] + case_events(iterations as int, false),
            ensures
                iterations <= bound,
                failure is None ==> iterations == bound,
                failure is Some ==> 1 <= iterations,
                failure is Some && args.seed is Some ==> failure->0 == args.seed->0,
                log == seq![LifecycleEvent::SuiteSetup] + case_events(
                    iterations as int,
                    failure is Some,
                ),
            decreases bound - iterations,
        {
            let (seed, stream) = derive_case(args);
            let outcome = self.run_test_safely(&suite, stream);
            proof {
                log = log + iteration_events(outcome.0);
            }
            iterations = iterations + 1;
            if !outcome.0 {
                failure = Some(seed);
                break ;
            }
            proof {
                assert(case_events(iterations as int, false) == case_events(
                    iterations as int - 1,
                    false,
                ) + iteration_events(true));
            }
        }
        self.post_suite.teardown_suite(suite);
        proof {
            log = log + seq![LifecycleEvent::SuiteTeardown];
            assert(log =~= expected_log(iterations as int, failure is Some));
        }
        RunReport { iterations, failure, log: Ghost(log) }
    }

    /// Execute one case: test setup, the program run, and — whatever the
    /// program's outcome — test teardown.  Returns the outcome and the
    /// stages performed.
    fn run_test_safely(&self, suite: &Suite, stream: DeterministicStream) -> (r: (
        bool,
        Ghost<Seq<LifecycleEvent>>,
    ))
        ensures
            r.1@ == iteration_events(r.0),
    {
        let mut stream = stream;
        let test_data = self.pre_test.setup_test(suite, &mut stream);
        let passed = self.test_program.run(suite, &test_data, stream);
        self.post_test.teardown_test(suite, test_data);
        (passed, Ghost(iteration_events(passed)))
    }
}

} // verus!
