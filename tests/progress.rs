use gmdn::progress::Progress;

#[test]
fn starts_with_no_steps() {
    let p = Progress::new(Some(5));
    assert_eq!(p.steps, 0);
    assert_eq!(p.cap, Some(5));
    assert!(!p.cap_reached());
}

#[test]
fn cap_of_one_stops_after_one_step() {
    let mut p = Progress::new(Some(1));
    assert_eq!(p.begin_step(), 1);
    let spread = vec![Some(20000), Some(18171), Some(20000)];
    assert!(p.cap_reached());
    assert!(p.should_stop(&spread));
}

#[test]
fn runs_until_cap() {
    let mut p = Progress::new(Some(3));
    let spread = vec![Some(1), Some(2), Some(3)];
    assert_eq!(p.begin_step(), 1);
    assert!(!p.should_stop(&spread));
    assert_eq!(p.begin_step(), 2);
    assert!(!p.should_stop(&spread));
    assert_eq!(p.begin_step(), 3);
    assert!(p.should_stop(&spread));
}

#[test]
fn no_cap_stops_only_on_agreement() {
    let mut p = Progress::new(None);
    for _ in 0..100 {
        p.begin_step();
    }
    assert!(!p.cap_reached());
    assert!(!p.should_stop(&vec![Some(1), Some(2), Some(2)]));
    assert!(!p.should_stop(&vec![None, None, None]));
    assert!(p.should_stop(&vec![Some(2), Some(2), Some(2)]));
}

#[test]
fn agreement_stops_before_cap() {
    let mut p = Progress::new(Some(10));
    p.begin_step();
    assert!(p.should_stop(&vec![Some(7), Some(7), Some(7)]));
}

#[test]
fn stays_stopped_after_agreement() {
    let mut p = Progress::new(Some(10));
    let same = vec![Some(7), Some(7), Some(7)];
    p.begin_step();
    assert!(p.should_stop(&same));
    p.begin_step();
    assert!(p.should_stop(&same));
}
