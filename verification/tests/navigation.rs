use file_browser::navigation::{advance, retreat};

#[test]
fn advance_from_none_starts_at_first() {
    assert_eq!(advance(None, 3), 0);
    assert_eq!(advance(None, 1), 0);
}

#[test]
fn advance_steps_and_wraps() {
    assert_eq!(advance(Some(0), 3), 1);
    assert_eq!(advance(Some(1), 3), 2);
    assert_eq!(advance(Some(2), 3), 0);
    assert_eq!(advance(Some(0), 1), 0);
}

#[test]
fn retreat_from_none_starts_at_last() {
    assert_eq!(retreat(None, 3), 2);
    assert_eq!(retreat(None, 1), 0);
}

#[test]
fn retreat_steps_and_wraps() {
    assert_eq!(retreat(Some(2), 3), 1);
    assert_eq!(retreat(Some(1), 3), 0);
    assert_eq!(retreat(Some(0), 3), 2);
    assert_eq!(retreat(Some(0), 1), 0);
}

#[test]
fn advance_then_retreat_round_trips() {
    for n in 1..6usize {
        for i in 0..n {
            assert_eq!(retreat(Some(advance(Some(i), n)), n), i);
            assert_eq!(advance(Some(retreat(Some(i), n)), n), i);
        }
    }
}

#[test]
fn advancing_n_times_from_none_visits_every_index_once() {
    let n = 5usize;
    let mut seen = vec![0u32; n];
    let mut sel: Option<usize> = None;
    for step in 0..n {
        let next = advance(sel, n);
        assert_eq!(next, step);
        seen[next] += 1;
        sel = Some(next);
    }
    assert!(seen.iter().all(|&c| c == 1));
    assert_eq!(advance(sel, n), 0);
}
