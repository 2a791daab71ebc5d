use store_pipeline::pipeline::{collect_in_order, Action, OrderedPipeline};

#[test]
fn results_are_collected_in_label_order() {
    let completions = vec![(3usize, "d"), (0, "a"), (2, "c"), (1, "b")];
    assert_eq!(collect_in_order(completions), Some(vec!["a", "b", "c", "d"]));
}

#[test]
fn last_task_finishing_first_keeps_its_index() {
    let n = 50usize;
    let completions: Vec<(usize, usize)> = (0..n).rev().map(|l| (l, l * 10)).collect();
    let out = collect_in_order(completions).unwrap();
    assert_eq!(out.len(), n);
    for (index, value) in out.iter().enumerate() {
        assert_eq!(*value, index * 10);
    }
}

#[test]
fn no_completions_give_no_results() {
    assert_eq!(collect_in_order(Vec::<(usize, u8)>::new()), Some(vec![]));
}

#[test]
fn bad_labellings_are_refused() {
    assert_eq!(collect_in_order(vec![(0usize, 1u8), (0, 2)]), None);
    assert_eq!(collect_in_order(vec![(1usize, 1u8), (2, 2)]), None);
    assert_eq!(collect_in_order(vec![(5usize, 1u8)]), None);
}

#[test]
fn zero_limit_is_refused() {
    assert!(OrderedPipeline::<u8>::new(Some(0)).is_none());
    assert!(OrderedPipeline::<u8>::new(Some(1)).is_some());
    assert!(OrderedPipeline::<u8>::new(None).is_some());
}

#[test]
fn in_flight_never_exceeds_the_limit() {
    let k = 3usize;
    let mut p = OrderedPipeline::<usize>::new(Some(k)).unwrap();
    let mut next_to_finish = 0usize;
    let mut delivered = Vec::new();
    let total = 20usize;
    let mut launched = 0usize;
    while delivered.len() < total {
        while launched < total && p.can_launch() {
            let label = p.launch();
            assert_eq!(label, launched);
            launched += 1;
            assert!(p.in_flight_count() <= k);
        }
        assert!(p.in_flight_count() <= k);
        assert!(p.complete(next_to_finish, next_to_finish + 100));
        next_to_finish += 1;
        while let Some(v) = p.poll_next() {
            delivered.push(v);
        }
    }
    assert_eq!(delivered, (100..120).collect::<Vec<usize>>());
    assert_eq!(p.in_flight_count(), 0);
    assert_eq!(p.outstanding(), 0);
}

#[test]
fn launch_is_blocked_at_the_limit() {
    let mut p = OrderedPipeline::<u8>::new(Some(2)).unwrap();
    assert!(p.can_launch());
    assert_eq!(p.launch(), 0);
    assert!(p.can_launch());
    assert_eq!(p.launch(), 1);
    assert!(!p.can_launch());
    assert_eq!(p.in_flight_count(), 2);
    assert!(p.complete(1, 11));
    assert!(p.can_launch());
    assert_eq!(p.in_flight_count(), 1);
    assert_eq!(p.outstanding(), 2);
}

#[test]
fn results_wait_for_older_tasks() {
    let mut p = OrderedPipeline::<&str>::new(None).unwrap();
    assert_eq!(p.launch(), 0);
    assert_eq!(p.launch(), 1);
    assert_eq!(p.launch(), 2);
    assert!(p.complete(2, "two"));
    assert_eq!(p.poll_next(), None);
    assert!(p.complete(1, "one"));
    assert_eq!(p.poll_next(), None);
    assert!(p.complete(0, "zero"));
    assert_eq!(p.poll_next(), Some("zero"));
    assert_eq!(p.poll_next(), Some("one"));
    assert_eq!(p.poll_next(), Some("two"));
    assert_eq!(p.poll_next(), None);
    assert_eq!(p.launch(), 3);
}

#[test]
fn unknown_and_repeated_labels_are_not_accepted() {
    let mut p = OrderedPipeline::<u8>::new(None).unwrap();
    assert!(!p.complete(0, 1));
    assert_eq!(p.launch(), 0);
    assert!(p.complete(0, 1));
    assert!(!p.complete(0, 2));
    assert!(!p.complete(1, 2));
    assert_eq!(p.poll_next(), Some(1));
    assert!(!p.complete(0, 3));
}

#[test]
fn driver_decisions() {
    let mut p = OrderedPipeline::<u8>::new(Some(1)).unwrap();
    assert_eq!(p.decide(false), Action::PullNext);
    assert_eq!(p.decide(true), Action::Finished);
    p.launch();
    assert_eq!(p.decide(false), Action::Await);
    assert_eq!(p.decide(true), Action::Await);
    assert!(p.complete(0, 7));
    assert_eq!(p.decide(false), Action::Deliver);
    assert_eq!(p.decide(true), Action::Deliver);
    assert_eq!(p.poll_next(), Some(7));
    assert_eq!(p.decide(true), Action::Finished);
}

#[test]
fn driver_loop_keeps_listing_order_under_a_bound() {
    let listing = vec!["a", "b", "c", "d", "e"];
    let mut p = OrderedPipeline::<String>::new(Some(2)).unwrap();
    let mut running: Vec<(usize, &str)> = Vec::new();
    let mut next = 0usize;
    let mut out = Vec::new();
    loop {
        match p.decide(next == listing.len()) {
            Action::Deliver => out.push(p.poll_next().unwrap()),
            Action::PullNext => {
                let label = p.launch();
                running.push((label, listing[next]));
                next += 1;
            }
            Action::Await => {
                assert!(running.len() <= 2);
                let (label, name) = running.pop().unwrap();
                assert!(p.complete(label, name.to_uppercase()));
            }
            Action::Finished => break,
            Action::Saturated => unreachable!(),
        }
    }
    assert_eq!(out, vec!["A", "B", "C", "D", "E"]);
}
