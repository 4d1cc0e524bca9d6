use dynlib::perf::{
    decimal_text, done_line, perfTest, ranking, waiting_line, PerfStep, PerfSuite, PerfTest,
    PerfTestData, PAUSE_SECS,
};
use std::cell::RefCell;

#[test]
fn decimal_text_of_small_and_large_numbers() {
    assert_eq!(decimal_text(0), "0");
    assert_eq!(decimal_text(7), "7");
    assert_eq!(decimal_text(10), "10");
    assert_eq!(decimal_text(1234567890), "1234567890");
    assert_eq!(decimal_text(1000000), "1000000");
    assert_eq!(decimal_text(u128::MAX), "340282366920938463463374607431768211455");
}

#[test]
fn decimal_text_agrees_with_the_standard_formatting() {
    for n in [0u128, 1, 9, 10, 11, 99, 100, 101, 4096, 65535, 999999, 18446744073709551616] {
        assert_eq!(decimal_text(n), format!("{}", n));
    }
}

#[test]
fn ranking_puts_the_fastest_first() {
    assert_eq!(ranking(&vec![30, 10, 20]), vec![1, 2, 0]);
    assert_eq!(ranking(&vec![1, 2, 3, 4]), vec![0, 1, 2, 3]);
    assert_eq!(ranking(&vec![4, 3, 2, 1]), vec![3, 2, 1, 0]);
}

#[test]
fn ranking_keeps_ties_in_suite_order() {
    assert_eq!(ranking(&vec![5, 5, 5]), vec![0, 1, 2]);
    assert_eq!(ranking(&vec![7, 3, 7, 3]), vec![1, 3, 0, 2]);
}

#[test]
fn ranking_of_nothing_and_of_one() {
    assert_eq!(ranking(&Vec::new()), Vec::<usize>::new());
    assert_eq!(ranking(&vec![42]), vec![0]);
}

#[test]
fn ranking_lists_every_position_once() {
    let elapsed: Vec<u128> = vec![9, 1, 8, 2, 7, 3, 6, 4, 5, 5, 0, u128::MAX];
    let order = ranking(&elapsed);
    let mut seen = order.clone();
    seen.sort();
    assert_eq!(seen, (0..elapsed.len()).collect::<Vec<usize>>());
    for pair in order.windows(2) {
        assert!((elapsed[pair[0]], pair[0]) < (elapsed[pair[1]], pair[1]));
    }
}

#[test]
fn a_test_has_its_name() {
    let test = PerfTestData::<(), _>::new("println!()", |_n: u32, _args: &mut ()| {});
    assert_eq!(test.getName(), "println!()");
    assert_eq!(test.describe(), "PerfTest println!()");
}

#[test]
fn a_test_hands_the_iteration_and_the_arguments_to_its_callback() {
    let mut test =
        PerfTestData::<Vec<u32>, _>::new("record", |n: u32, seen: &mut Vec<u32>| seen.push(n));
    let mut seen: Vec<u32> = Vec::new();
    test.runTest(7, &mut seen);
    test.runTest(3, &mut seen);
    assert_eq!(seen, vec![7, 3]);
}

#[test]
fn a_run_calls_the_test_once_for_each_iteration_in_order() {
    let log: RefCell<Vec<u32>> = RefCell::new(Vec::new());
    let mut test =
        PerfTestData::<(), _>::new("log", |n: u32, _args: &mut ()| log.borrow_mut().push(n));
    perfTest(test.as_mut(), &mut (), 5);
    assert_eq!(*log.borrow(), vec![0, 1, 2, 3, 4]);
    perfTest(test.as_mut(), &mut (), 2);
    assert_eq!(*log.borrow(), vec![0, 1, 2, 3, 4, 0, 1]);
}

#[test]
fn a_run_of_no_iterations_calls_nothing() {
    let mut calls: u64 = 0;
    let mut test = PerfTestData::<u64, _>::new("count", |_n: u32, total: &mut u64| *total += 1);
    perfTest(test.as_mut(), &mut calls, 0);
    assert_eq!(calls, 0);
    perfTest(test.as_mut(), &mut calls, 1000);
    assert_eq!(calls, 1000);
}

#[test]
fn a_run_works_through_a_trait_object() {
    let mut total: u64 = 0;
    let mut test: Box<dyn PerfTest<u64>> =
        PerfTestData::<u64, _>::new("sum", |n: u32, total: &mut u64| *total += n as u64);
    perfTest(test.as_mut(), &mut total, 101);
    assert_eq!(total, 5050);
}

fn counting_suite<'a>(loop_size: u32) -> PerfSuite<'a, Vec<u64>> {
    let tests: Vec<Box<dyn PerfTest<Vec<u64>> + 'a>> = vec![
        PerfTestData::<Vec<u64>, _>::new("first", |_n: u32, calls: &mut Vec<u64>| calls[0] += 1),
        PerfTestData::<Vec<u64>, _>::new("second", |_n: u32, calls: &mut Vec<u64>| calls[1] += 1),
        PerfTestData::<Vec<u64>, _>::new("third", |_n: u32, calls: &mut Vec<u64>| calls[2] += 1),
    ];
    PerfSuite::new(tests, loop_size)
}

#[test]
fn a_suite_keeps_its_tests_and_its_loop_size() {
    let suite = counting_suite(1000000);
    assert_eq!(suite.loopSize, 1000000);
    assert_eq!(suite.tests.len(), 3);
    assert_eq!(suite.tests[0].getName(), "first");
    assert_eq!(suite.tests[2].getName(), "third");
}

#[test]
fn the_plan_gives_each_test_its_round_and_ends_with_the_report() {
    let suite = counting_suite(1);
    assert_eq!(
        suite.plan(),
        vec![
            PerfStep::Announce(0),
            PerfStep::Wait(1),
            PerfStep::Run(0),
            PerfStep::Done,
            PerfStep::Wait(1),
            PerfStep::Announce(1),
            PerfStep::Wait(1),
            PerfStep::Run(1),
            PerfStep::Done,
            PerfStep::Wait(1),
            PerfStep::Announce(2),
            PerfStep::Wait(1),
            PerfStep::Run(2),
            PerfStep::Done,
            PerfStep::Wait(1),
            PerfStep::Report,
        ]
    );
    assert_eq!(PAUSE_SECS, 1);
}

#[test]
fn the_plan_of_an_empty_suite_is_the_report_alone() {
    let suite: PerfSuite<()> = PerfSuite::new(Vec::new(), 10);
    assert_eq!(suite.plan(), vec![PerfStep::Report]);
}

#[test]
fn carrying_out_the_plan_runs_every_test_once() {
    let mut suite = counting_suite(4);
    let mut calls: Vec<u64> = vec![0, 0, 0];
    let mut elapsed: Vec<u128> = Vec::new();
    let mut lines: Vec<String> = Vec::new();
    for step in suite.plan() {
        match step {
            PerfStep::Announce(index) => lines.push(suite.announcement(index)),
            PerfStep::Wait(_) => {}
            PerfStep::Run(index) => elapsed.push(suite.time(index, &mut calls).as_millis()),
            PerfStep::Done => lines.push(done_line()),
            PerfStep::Report => lines.extend(suite.summary(&vec![3, 2, 1])),
        }
    }
    assert_eq!(calls, vec![4, 4, 4]);
    assert_eq!(elapsed.len(), 3);
    assert_eq!(
        lines,
        vec![
            "Testing first...".to_string(),
            "Done!".to_string(),
            "Testing second...".to_string(),
            "Done!".to_string(),
            "Testing third...".to_string(),
            "Done!".to_string(),
            "Test third completed in 1 ms".to_string(),
            "Test second completed in 2 ms".to_string(),
            "Test first completed in 3 ms".to_string(),
        ]
    );
}

#[test]
fn a_suite_announces_each_test() {
    let suite = counting_suite(1);
    assert_eq!(suite.announcement(0), "Testing first...");
    assert_eq!(suite.announcement(1), "Testing second...");
    assert_eq!(suite.announcement(2), "Testing third...");
}

#[test]
fn timing_one_test_runs_only_that_test() {
    let mut suite = counting_suite(25);
    let mut calls: Vec<u64> = vec![0, 0, 0];
    suite.time(1, &mut calls);
    assert_eq!(calls, vec![0, 25, 0]);
    suite.time(0, &mut calls);
    suite.time(1, &mut calls);
    assert_eq!(calls, vec![25, 50, 0]);
    assert_eq!(suite.loopSize, 25);
    assert_eq!(suite.tests.len(), 3);
}

#[test]
fn the_summary_is_ranked_by_elapsed_time() {
    let suite = counting_suite(1);
    assert_eq!(
        suite.summary(&vec![30, 10, 20]),
        vec![
            "Test second completed in 10 ms".to_string(),
            "Test third completed in 20 ms".to_string(),
            "Test first completed in 30 ms".to_string(),
        ]
    );
}

#[test]
fn the_summary_keeps_ties_in_suite_order() {
    let suite = counting_suite(1);
    assert_eq!(
        suite.summary(&vec![0, 1500, 0]),
        vec![
            "Test first completed in 0 ms".to_string(),
            "Test third completed in 0 ms".to_string(),
            "Test second completed in 1500 ms".to_string(),
        ]
    );
}

#[test]
fn the_summary_of_an_empty_suite_is_empty() {
    let suite: PerfSuite<()> = PerfSuite::new(Vec::new(), 10);
    assert_eq!(suite.summary(&Vec::new()), Vec::<String>::new());
}

#[test]
fn the_lines_around_a_test() {
    assert_eq!(done_line(), "Done!");
    assert_eq!(waiting_line(1), "\n\nWaiting 1 second(s)...");
    assert_eq!(waiting_line(0), "\n\nWaiting 0 second(s)...");
    assert_eq!(waiting_line(u64::MAX), "\n\nWaiting 18446744073709551615 second(s)...");
}

#[test]
fn three_runs_of_a_pushing_callback_leave_the_iteration_numbers() {
    let mut test = PerfTestData::<Vec<u32>, _>::new("a", |n: u32, v: &mut Vec<u32>| v.push(n));
    let mut args: Vec<u32> = Vec::new();
    perfTest(test.as_mut(), &mut args, 3);
    assert_eq!(args, vec![0, 1, 2]);
}

#[test]
fn no_iteration_leaves_the_arguments_as_they_were() {
    let mut test = PerfTestData::<Vec<u32>, _>::new("a", |n: u32, v: &mut Vec<u32>| v.push(n));
    let mut args: Vec<u32> = vec![7];
    perfTest(test.as_mut(), &mut args, 0);
    assert_eq!(args, vec![7]);
}

#[test]
fn one_run_calls_the_callback_once_with_the_iteration_and_the_arguments() {
    let mut test = PerfTestData::<u32, _>::new("x", |n: u32, a: &mut u32| *a += n);
    let mut a: u32 = 1;
    test.runTest(5, &mut a);
    assert_eq!(a, 6);
    assert_eq!(test.getName(), "x");
}

#[test]
fn the_tests_of_a_suite_work_on_the_same_arguments_in_turn() {
    let tests: Vec<Box<dyn PerfTest<Vec<u32>>>> = vec![
        PerfTestData::<Vec<u32>, _>::new("a", |n: u32, v: &mut Vec<u32>| v.push(n)),
        PerfTestData::<Vec<u32>, _>::new("b", |n: u32, v: &mut Vec<u32>| v.push(n + 10)),
    ];
    let mut suite = PerfSuite::new(tests, 3);
    let mut args: Vec<u32> = Vec::new();
    for step in suite.plan() {
        if let PerfStep::Run(index) = step {
            suite.time(index, &mut args);
        }
    }
    assert_eq!(args, vec![0, 1, 2, 10, 11, 12]);
}

#[test]
fn a_suite_of_no_iterations_leaves_the_arguments_and_still_reports() {
    let tests: Vec<Box<dyn PerfTest<Vec<u32>>>> = vec![
        PerfTestData::<Vec<u32>, _>::new("a", |n: u32, v: &mut Vec<u32>| v.push(n)),
    ];
    let mut suite = PerfSuite::new(tests, 0);
    let mut args: Vec<u32> = vec![7];
    let mut lines: Vec<String> = Vec::new();
    for step in suite.plan() {
        match step {
            PerfStep::Announce(index) => lines.push(suite.announcement(index)),
            PerfStep::Wait(_) => {}
            PerfStep::Run(index) => {
                suite.time(index, &mut args);
            }
            PerfStep::Done => lines.push(done_line()),
            PerfStep::Report => lines.extend(suite.summary(&vec![0])),
        }
    }
    assert_eq!(args, vec![7]);
    assert_eq!(
        lines,
        vec![
            "Testing a...".to_string(),
            "Done!".to_string(),
            "Test a completed in 0 ms".to_string(),
        ]
    );
}
