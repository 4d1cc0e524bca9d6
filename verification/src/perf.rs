//! A small timing harness: a test is a named callback, a run calls it a
//! fixed number of times and measures the wall-clock time that took, and a
//! suite reports its tests ranked by that time.

use core::marker::PhantomData;
use std::time::{Duration, Instant};
use vstd::prelude::*;

verus! {

/// `std::time::Instant`, a point on the monotonic clock. Nothing is known of
/// what it holds.
#[verifier::external_type_specification]
#[verifier::external_body]
pub struct ExInstant(Instant);

/// `Instant::now` reads the clock; nothing is claimed of the reading.
pub assume_specification[ Instant::now ]() -> Instant;

/// `Instant::elapsed` reads the clock again and gives the time since the
/// instant; nothing is claimed of it.
pub assume_specification[ Instant::elapsed ](start: &Instant) -> Duration;

/// The iteration numbers of a run of `count` iterations: `0`, `1`, and so on
/// up to `count - 1`.
pub open spec fn iterations(count: nat) -> Seq<u32> {
    Seq::new(count, |n: int| n as u32)
}

/// Something that can be run repeatedly and timed.
pub trait PerfTest<A> {
    /// The model of the test's name.
    spec fn name(&self) -> Seq<char>;

    /// The iteration numbers the test has been run with so far, in order.
    spec fn history(&self) -> Seq<u32>;

    /// What a run as iteration `n` may do to the arguments: it holds of a
    /// reference that stands for the arguments as they are handed to the run
    /// and, in the end, as the run leaves them.
    spec fn ran(&self, n: u32, handed: &mut A) -> bool;

    /// The name the test is reported under.
    fn getName(&self) -> (name: &str)
        ensures
            name@ == self.name(),
    ;

    /// Runs the test once, as iteration `n`, on `args`. Running a test does
    /// not change what its runs may do.
    fn runTest(&mut self, n: u32, args: &mut A)
        ensures
            final(self).name() == old(self).name(),
            final(self).history() == old(self).history().push(n),
            forall|m: u32, handed: &mut A| #[trigger]
                final(self).ran(m, handed) == old(self).ran(m, handed),
            exists|handed: &mut A|
                *handed == *old(args) && *final(handed) == *final(args) && #[trigger] old(self).ran(
                    n,
                    handed,
                ),
    ;
}

/// A test made of a name and a callback, which is handed the iteration
/// number and the arguments shared by the whole suite.
pub struct PerfTestData<A, F> where F: Fn(u32, &mut A) -> () {
    name: String,
    testFn: F,
    argsType: PhantomData<A>,
    runs: Ghost<Seq<u32>>,
}

impl<A, F> PerfTestData<A, F> where F: Fn(u32, &mut A) -> () {
    /// The callback can be called with every iteration number and argument.
    #[verifier::type_invariant]
    spec fn inv(self) -> bool {
        forall|n: u32, args: &mut A| call_requires(self.testFn, (n, args))
    }

    /// The callback of the test.
    pub closed spec fn callback(&self) -> F {
        self.testFn
    }

    /// A test that has not run yet. A run of it is a call of `testFn`: it
    /// does to the arguments what the callback's own contract says.
    pub fn new(name: &str, testFn: F) -> (test: Box<PerfTestData<A, F>>)
        requires
            forall|n: u32, args: &mut A| call_requires(testFn, (n, args)),
        ensures
            test.name() == name@,
            test.history() == Seq::<u32>::empty(),
            test.callback() == testFn,
            forall|n: u32, handed: &mut A| #[trigger]
                test.ran(n, handed) == call_ensures(testFn, (n, handed), ()),
    {
        Box::new(
            PerfTestData {
                name: name.to_owned(),
                testFn,
                argsType: PhantomData,
                runs: Ghost(Seq::empty()),
            },
        )
    }

    /// A short description of the test, for diagnostics.
    pub fn describe(&self) -> (text: String)
        ensures
            text@ == "PerfTest "@ + self.name(),
    {
        "PerfTest ".to_owned().concat(self.name.as_str())
    }
}

impl<A, F> PerfTest<A> for PerfTestData<A, F> where F: Fn(u32, &mut A) -> () {
    closed spec fn name(&self) -> Seq<char> {
        self.name@
    }

    closed spec fn history(&self) -> Seq<u32> {
        self.runs@
    }

    open spec fn ran(&self, n: u32, handed: &mut A) -> bool {
        call_ensures(self.callback(), (n, handed), ())
    }

    fn getName(&self) -> (name: &str) {
        self.name.as_str()
    }

    fn runTest(&mut self, n: u32, args: &mut A) {
        proof {
            use_type_invariant(&*self);
        }
        assert(forall|handed: &mut A| #[trigger]
            call_ensures(self.testFn, (n, handed), ()) ==> old(self).ran(n, handed));
        (self.testFn)(n, args);
        self.runs = Ghost(self.runs@.push(n));
    }
}

/// `state` is one of the values that the arguments pass through in a run.
/// It holds of every value: its use is to name the states of a run one by
/// one.
pub open spec fn passed<A>(state: A) -> bool {
    true
}

/// Runs `test` for the iterations `0` to `loopSize - 1`, in order, on
/// `args`, and returns the wall-clock time the whole run took.
///
/// The arguments pass through `loopSize + 1` states, from what the caller
/// handed in to what it gets back: iteration `i` is handed state `i` and
/// leaves state `i + 1`, as [`PerfTest::ran`] says of it. With no iteration
/// the arguments are left as they were.
pub fn perfTest<A, T: PerfTest<A> + ?Sized>(test: &mut T, args: &mut A, loopSize: u32) -> (elapsed:
    Duration)
    ensures
        final(test).name() == old(test).name(),
        final(test).history() == old(test).history() + iterations(loopSize as nat),
        forall|m: u32, handed: &mut A| #[trigger]
            final(test).ran(m, handed) == old(test).ran(m, handed),
        loopSize == 0 ==> *final(args) == *old(args),
        exists|states: Seq<A>|
            {
                &&& states.len() == loopSize + 1
                &&& states[0] == *old(args)
                &&& states[loopSize as int] == *final(args)
                &&& forall|i: u32|
                    i < loopSize && passed(#[trigger] states[i as int]) ==> exists|handed: &mut A|
                        *handed == states[i as int] && *final(handed) == states[i + 1]
                            && #[trigger] old(test).ran(i, handed)
            },
{
    let timeInstant: Instant = Instant::now();
    let mut n: u32 = 0;
    let ghost mut states: Seq<A> = seq![*args];
    while n < loopSize
        invariant
            n <= loopSize,
            test.name() == old(test).name(),
            test.history() == old(test).history() + iterations(n as nat),
            forall|m: u32, handed: &mut A| #[trigger]
                test.ran(m, handed) == old(test).ran(m, handed),
            states.len() == n + 1,
            states[0] == *old(args),
            states[n as int] == *args,
            forall|i: u32|
                i < n && passed(#[trigger] states[i as int]) ==> exists|handed: &mut A|
                    *handed == states[i as int] && *final(handed) == states[i + 1]
                        && #[trigger] old(test).ran(i, handed),
        decreases loopSize - n,
    {
        test.runTest(n, args);
        proof {
            states = states.push(*args);
        }
        n = n + 1;
    }
    timeInstant.elapsed()
}

/// The character for a decimal digit.
pub open spec fn digit(d: nat) -> char {
    if d == 0 {
        '0'
    } else if d == 1 {
        '1'
    } else if d == 2 {
        '2'
    } else if d == 3 {
        '3'
    } else if d == 4 {
        '4'
    } else if d == 5 {
        '5'
    } else if d == 6 {
        '6'
    } else if d == 7 {
        '7'
    } else if d == 8 {
        '8'
    } else {
        '9'
    }
}

/// A number in decimal, without sign, padding or leading zeros.
pub open spec fn decimal(n: nat) -> Seq<char>
    decreases n,
{
    if n < 10 {
        seq![digit(n)]
    } else {
        decimal(n / 10) + seq![digit(n % 10)]
    }
}

/// The text of one decimal digit.
fn digit_text(d: u128) -> (text: &'static str)
    requires
        d < 10,
    ensures
        text@ == seq![digit(d as nat)],
{
    proof {
        reveal_strlit("0");
        reveal_strlit("1");
        reveal_strlit("2");
        reveal_strlit("3");
        reveal_strlit("4");
        reveal_strlit("5");
        reveal_strlit("6");
        reveal_strlit("7");
        reveal_strlit("8");
        reveal_strlit("9");
    }
    if d == 0 {
        "0"
    } else if d == 1 {
        "1"
    } else if d == 2 {
        "2"
    } else if d == 3 {
        "3"
    } else if d == 4 {
        "4"
    } else if d == 5 {
        "5"
    } else if d == 6 {
        "6"
    } else if d == 7 {
        "7"
    } else if d == 8 {
        "8"
    } else {
        "9"
    }
}

/// Writes `n` in decimal.
pub fn decimal_text(n: u128) -> (text: String)
    ensures
        text@ == decimal(n as nat),
    decreases n,
{
    if n < 10 {
        digit_text(n).to_owned()
    } else {
        decimal_text(n / 10).concat(digit_text(n % 10))
    }
}

/// The line that announces a test before it runs.
pub open spec fn announcement_line(name: Seq<char>) -> Seq<char> {
    "Testing "@ + name + "..."@
}

/// The line that says that a test is done.
pub open spec fn done_text() -> Seq<char> {
    "Done!"@
}

/// The line that announces a pause of `secs` seconds. It starts with two
/// line breaks, which set it off from what the test wrote.
pub open spec fn waiting_text(secs: nat) -> Seq<char> {
    "\n\nWaiting "@ + decimal(secs) + " second(s)..."@
}

/// The line to print when a test is done.
pub fn done_line() -> (line: String)
    ensures
        line@ == done_text(),
{
    "Done!".to_owned()
}

/// The line to print before a pause of `secs` seconds.
pub fn waiting_line(secs: u64) -> (line: String)
    ensures
        line@ == waiting_text(secs as nat),
{
    "\n\nWaiting ".to_owned().concat(decimal_text(secs as u128).as_str()).concat(" second(s)...")
}

/// The line that reports how long a test took.
pub open spec fn report_line(name: Seq<char>, millis: nat) -> Seq<char> {
    "Test "@ + name + " completed in "@ + decimal(millis) + " ms"@
}

/// The test at position `a` ranks before the one at `b`: it was faster, or
/// as fast and earlier in the suite.
pub open spec fn ranks_before(elapsed: Seq<u128>, a: int, b: int) -> bool {
    elapsed[a] < elapsed[b] || (elapsed[a] == elapsed[b] && a < b)
}

/// The position `i` is listed in `order`.
pub open spec fn listed(order: Seq<usize>, i: int) -> bool {
    exists|k: int| 0 <= k < order.len() && #[trigger] order[k] == i
}

/// `order` lists the positions of `elapsed`, each once, fastest first.
pub open spec fn is_ranking(elapsed: Seq<u128>, order: Seq<usize>) -> bool {
    &&& order.len() == elapsed.len()
    &&& forall|k: int| 0 <= k < order.len() ==> 0 <= #[trigger] order[k] < elapsed.len()
    &&& forall|i: int| 0 <= i < elapsed.len() ==> #[trigger] listed(order, i)
    &&& forall|j: int, k: int|
        0 <= j < k < order.len() ==> ranks_before(
            elapsed,
            #[trigger] order[j] as int,
            #[trigger] order[k] as int,
        )
}

/// Two rankings of the same times agree at every position.
proof fn lemma_rankings_agree(elapsed: Seq<u128>, a: Seq<usize>, b: Seq<usize>, k: int)
    requires
        is_ranking(elapsed, a),
        is_ranking(elapsed, b),
        0 <= k < a.len(),
    ensures
        a[k] == b[k],
    decreases k,
{
    assert forall|j: int| 0 <= j < k implies a[j] == b[j] by {
        lemma_rankings_agree(elapsed, a, b, j);
    }
    assert(listed(b, a[k] as int));
    assert(listed(a, b[k] as int));
}

/// A list of times has one ranking only.
pub proof fn lemma_ranking_unique(elapsed: Seq<u128>, a: Seq<usize>, b: Seq<usize>)
    requires
        is_ranking(elapsed, a),
        is_ranking(elapsed, b),
    ensures
        a == b,
{
    assert forall|k: int| 0 <= k < a.len() implies a[k] == b[k] by {
        lemma_rankings_agree(elapsed, a, b, k);
    }
}

/// Ranks the tests by the time they took: the positions of `elapsed`, the
/// fastest first, ties in suite order.
pub fn ranking(elapsed: &Vec<u128>) -> (order: Vec<usize>)
    ensures
        is_ranking(elapsed@, order@),
{
    let mut order: Vec<usize> = Vec::new();
    let mut m: usize = 0;
    while m < elapsed.len()
        invariant
            m <= elapsed.len(),
            is_ranking(elapsed@.take(m as int), order@),
        decreases elapsed.len() - m,
    {
        let ghost before = order@;
        let mut p: usize = 0;
        while p < order.len() && elapsed[order[p]] <= elapsed[m]
            invariant
                m < elapsed.len(),
                order@ == before,
                is_ranking(elapsed@.take(m as int), order@),
                p <= order.len(),
                forall|j: int|
                    0 <= j < p ==> elapsed[#[trigger] order[j] as int] <= elapsed[m as int],
            decreases order.len() - p,
        {
            p = p + 1;
        }
        order.insert(p, m);
        proof {
            assert forall|i: int| 0 <= i <= m implies #[trigger] listed(order@, i) by {
                if i < m {
                    assert(listed(before, i));
                    let k = choose|k: int| 0 <= k < before.len() && #[trigger] before[k] == i;
                    if k < p {
                        assert(order[k] == i);
                    } else {
                        assert(order[k + 1] == i);
                    }
                } else {
                    assert(order[p as int] == i);
                }
            }
        }
        m = m + 1;
    }
    order
}

/// One step of a suite's run, for the caller to carry out.
#[derive(Clone, Copy, Debug, PartialEq, Eq, Structural)]
pub enum PerfStep {
    /// Print the announcement of the test at this position.
    Announce(usize),
    /// Print the line that announces a pause of this many seconds, then
    /// pause for them.
    Wait(u64),
    /// Time the test at this position and keep the result.
    Run(usize),
    /// Print the line that says that the test is done.
    Done,
    /// Print the summary.
    Report,
}

/// The seconds to pause before and after each test.
pub const PAUSE_SECS: u64 = 1;

/// The steps for the test at position `i`: announce it, pause, run it, say
/// that it is done, pause again.
pub open spec fn round(i: int) -> Seq<PerfStep> {
    seq![
        PerfStep::Announce(i as usize),
        PerfStep::Wait(PAUSE_SECS),
        PerfStep::Run(i as usize),
        PerfStep::Done,
        PerfStep::Wait(PAUSE_SECS),
    ]
}

/// The rounds of the first `count` tests, in suite order.
pub open spec fn rounds(count: nat) -> Seq<PerfStep>
    decreases count,
{
    if count == 0 {
        Seq::empty()
    } else {
        rounds((count - 1) as nat) + round(count - 1)
    }
}

/// The rounds are laid out five steps to a test: those of the test at
/// position `i` stand at the positions from `5 * i`.
pub proof fn lemma_rounds_layout(count: nat, i: int)
    requires
        0 <= i < count,
    ensures
        rounds(count).len() == 5 * count,
        rounds(count).subrange(5 * i, 5 * i + 5) == round(i),
    decreases count,
{
    let shorter = rounds((count - 1) as nat);
    assert(rounds(count) == shorter + round(count - 1));
    if i < count - 1 {
        lemma_rounds_layout((count - 1) as nat, i);
        assert(rounds(count).subrange(5 * i, 5 * i + 5) =~= shorter.subrange(5 * i, 5 * i + 5));
    } else {
        if count > 1 {
            lemma_rounds_layout((count - 1) as nat, 0);
        }
        assert(rounds(count).subrange(5 * i, 5 * i + 5) =~= round(i));
    }
}

/// A list of tests that are each run for the same number of iterations.
#[verifier::reject_recursive_types(A)]
pub struct PerfSuite<'a, A> {
    /// The tests, in suite order.
    pub tests: Vec<Box<dyn PerfTest<A> + 'a>>,
    /// The number of iterations of each run.
    pub loopSize: u32,
}

impl<'a, A> PerfSuite<'a, A> {
    /// A suite of `tests`, each to be run for `loopSize` iterations.
    pub fn new(tests: Vec<Box<dyn PerfTest<A> + 'a>>, loopSize: u32) -> (suite: PerfSuite<'a, A>)
        ensures
            suite.tests == tests,
            suite.loopSize == loopSize,
    {
        PerfSuite { tests, loopSize }
    }

    /// The steps of the suite's run: a round for each test, in suite order,
    /// and the summary at the end.
    pub fn plan(&self) -> (steps: Vec<PerfStep>)
        ensures
            steps@ == rounds(self.tests.len() as nat).push(PerfStep::Report),
    {
        let count: usize = self.tests.len();
        let mut steps: Vec<PerfStep> = Vec::new();
        let mut i: usize = 0;
        while i < count
            invariant
                i <= count,
                steps@ == rounds(i as nat),
            decreases count - i,
        {
            steps.push(PerfStep::Announce(i));
            steps.push(PerfStep::Wait(PAUSE_SECS));
            steps.push(PerfStep::Run(i));
            steps.push(PerfStep::Done);
            steps.push(PerfStep::Wait(PAUSE_SECS));
            i = i + 1;
        }
        steps.push(PerfStep::Report);
        steps
    }

    /// The line to print before the test at `index` runs.
    pub fn announcement(&self, index: usize) -> (line: String)
        requires
            index < self.tests.len(),
        ensures
            line@ == announcement_line(self.tests[index as int].name()),
    {
        "Testing ".to_owned().concat(self.tests[index].getName()).concat("...")
    }

    /// Runs the test at `index` for the suite's number of iterations on
    /// `args`, as [`perfTest`] does, and returns the wall-clock time that
    /// took. The other tests are left as they are.
    pub fn time(&mut self, index: usize, args: &mut A) -> (elapsed: Duration)
        requires
            index < old(self).tests.len(),
        ensures
            final(self).loopSize == old(self).loopSize,
            final(self).tests.len() == old(self).tests.len(),
            final(self).tests[index as int].name() == old(self).tests[index as int].name(),
            final(self).tests[index as int].history() == old(self).tests[index as int].history()
                + iterations(old(self).loopSize as nat),
            forall|m: u32, handed: &mut A| #[trigger]
                final(self).tests[index as int].ran(m, handed) == old(self).tests[index as int].ran(
                    m,
                    handed,
                ),
            old(self).loopSize == 0 ==> *final(args) == *old(args),
            exists|states: Seq<A>|
                {
                    &&& states.len() == old(self).loopSize + 1
                    &&& states[0] == *old(args)
                    &&& states[old(self).loopSize as int] == *final(args)
                    &&& forall|i: u32|
                        i < old(self).loopSize && passed(#[trigger] states[i as int])
                            ==> exists|handed: &mut A|
                            *handed == states[i as int] && *final(handed) == states[i + 1]
                                && #[trigger] old(self).tests[index as int].ran(i, handed)
                },
            forall|other: int|
                0 <= other < old(self).tests.len() && other != index ==> final(self).tests[other]
                    == old(self).tests[other],
    {
        let loopSize: u32 = self.loopSize;
        let test: &mut Box<dyn PerfTest<A> + 'a> = &mut self.tests[index];
        perfTest(&mut **test, args, loopSize)
    }

    /// The report of a finished suite: one line for each test, the fastest
    /// first, where `elapsed` holds the milliseconds each test took, in
    /// suite order.
    pub fn summary(&self, elapsed: &Vec<u128>) -> (lines: Vec<String>)
        requires
            elapsed.len() == self.tests.len(),
        ensures
            lines.len() == self.tests.len(),
            exists|order: Seq<usize>|
                is_ranking(elapsed@, order) && forall|k: int|
                    0 <= k < lines.len() ==> (#[trigger] lines[k])@ == report_line(
                        self.tests[order[k] as int].name(),
                        elapsed[order[k] as int] as nat,
                    ),
    {
        let order: Vec<usize> = ranking(elapsed);
        let mut lines: Vec<String> = Vec::new();
        let mut k: usize = 0;
        while k < order.len()
            invariant
                is_ranking(elapsed@, order@),
                elapsed.len() == self.tests.len(),
                k <= order.len(),
                lines.len() == k,
                forall|j: int|
                    0 <= j < k ==> (#[trigger] lines[j])@ == report_line(
                        self.tests[order[j] as int].name(),
                        elapsed[order[j] as int] as nat,
                    ),
            decreases order.len() - k,
        {
            let position: usize = order[k];
            let line: String = "Test ".to_owned().concat(self.tests[position].getName()).concat(
                " completed in ",
            ).concat(decimal_text(elapsed[position]).as_str()).concat(" ms");
            lines.push(line);
            k = k + 1;
        }
        lines
    }
}

} // verus!
