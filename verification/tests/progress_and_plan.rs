use unpacker::plan::{plan_run, RunAction};
use unpacker::progress::{percent, Progress, FALLBACK_TOTAL};

#[test]
fn percent_exact_values() {
    assert_eq!(percent(0, 4), 0);
    assert_eq!(percent(1, 4), 25);
    assert_eq!(percent(2, 4), 50);
    assert_eq!(percent(4, 4), 100);
    assert_eq!(percent(5, 100), 5);
    assert_eq!(percent(1, 3), 33);
}

#[test]
fn percent_is_capped_at_100() {
    assert_eq!(percent(300, 100), 100);
    assert_eq!(percent(usize::MAX, 1), 100);
}

#[test]
fn percent_monotone_over_a_run() {
    let totals = [1usize, 3, 7, 100, 1000];
    for &total in totals.iter() {
        let mut last = 0u8;
        for done in 0..2 * total.min(500) {
            let p = percent(done, total);
            assert!(p >= last, "percent dropped at done={done}, total={total}");
            assert!(p <= 100);
            last = p;
        }
    }
}

#[test]
fn progress_counts_entries_and_never_drops() {
    let mut progress = Progress::new(Some(4));
    assert_eq!(progress.current_percent(), 0);
    let mut last = 0u8;
    for step in 1..=6usize {
        progress.record_entry();
        let p = progress.current_percent();
        assert_eq!(progress.done, step);
        assert!(p >= last);
        assert!(p <= 100);
        last = p;
    }
    assert_eq!(last, 100);
}

#[test]
fn progress_falls_back_without_an_estimate() {
    let no_hint = Progress::new(None);
    assert_eq!(no_hint.total, FALLBACK_TOTAL);
    let zero_hint = Progress::new(Some(0));
    assert_eq!(zero_hint.total, FALLBACK_TOTAL);
    let real_hint = Progress::new(Some(17));
    assert_eq!(real_hint.total, 17);
}

#[test]
fn plan_missing_input_wins_first() {
    assert_eq!(plan_run("foo.tar.xz", false, false), RunAction::MissingInput);
    assert_eq!(plan_run("pkg.zip", false, true), RunAction::MissingInput);
}

#[test]
fn plan_rejects_unrecognized_names() {
    assert_eq!(plan_run("pkg.zip", true, false), RunAction::UnsupportedName);
    assert_eq!(plan_run("pkg.zip", true, true), RunAction::UnsupportedName);
}

#[test]
fn plan_skips_already_extracted() {
    assert_eq!(plan_run("foo.tar.xz", true, true), RunAction::AlreadyExtracted);
}

#[test]
fn plan_extracts_fresh_archives() {
    assert_eq!(plan_run("foo.tar.xz", true, false), RunAction::Extract);
    assert_eq!(plan_run("foo.apg", true, false), RunAction::Extract);
}
