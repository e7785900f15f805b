use balance_monitor::wallet::Wallet;

fn args(address: &str) -> Vec<String> {
    vec!["monitor".to_string(), address.to_string()]
}

#[test]
fn default_takes_first_argument() {
    let w = Wallet::default(&args("abc"), 7);
    assert_eq!(w.address, "abc");
    assert_eq!(w.lamports, None);
    assert_eq!(w.initial_lamports, None);
    assert_eq!(w.price, None);
    assert_eq!(w.updated, 7);
}

#[test]
fn default_without_argument_is_empty() {
    let w = Wallet::default(&vec!["monitor".to_string()], 1);
    assert_eq!(w.address, "");
}

#[test]
fn first_sample_sets_both_balances() {
    let mut w = Wallet::default(&args("abc"), 1);
    w.take_first_sample(Some(42));
    assert_eq!(w.initial_lamports, Some(42));
    assert_eq!(w.lamports, Some(42));
    assert_eq!(w.updated, 1);
}

#[test]
fn failed_first_sample_leaves_both_empty() {
    let mut w = Wallet::default(&args("abc"), 1);
    w.take_first_sample(None);
    assert_eq!(w.initial_lamports, None);
    assert_eq!(w.lamports, None);
}

#[test]
fn failed_sample_keeps_balance_and_stamps_time() {
    let mut w = Wallet::default(&args("abc"), 1);
    w.take_first_sample(Some(10));
    w.record_sample(None, 5);
    assert_eq!(w.lamports, Some(10));
    assert_eq!(w.initial_lamports, Some(10));
    assert_eq!(w.updated, 5);
}

#[test]
fn later_success_sets_initial_after_failed_first() {
    let mut w = Wallet::default(&args("abc"), 1);
    w.take_first_sample(None);
    w.record_sample(Some(9), 2);
    assert_eq!(w.initial_lamports, Some(9));
    assert_eq!(w.lamports, Some(9));
}

#[test]
fn balances_stay_defined_and_initial_fixed_over_mixed_samples() {
    let mut w = Wallet::default(&args("abc"), 0);
    w.take_first_sample(Some(100));
    let samples = [None, Some(7), None, None, Some(0), Some(300), None];
    let mut now = 1;
    for s in samples {
        let before = w.updated;
        w.record_sample(s, now);
        assert!(w.lamports.is_some());
        assert_eq!(w.initial_lamports, Some(100));
        assert!(w.updated > before);
        now += 1;
    }
    assert_eq!(w.lamports, Some(300));
}
