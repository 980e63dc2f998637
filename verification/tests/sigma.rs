use solhat_ui::sigma::{AnalysisRange, AnalysisSeries, SmaWindow};

// The key of a score: an unsigned number that orders as the scores do.
fn key(score: f64) -> u64 {
    assert!(!score.is_nan());
    let bits = score.to_bits();
    if bits >> 63 == 1 {
        !bits
    } else {
        bits | (1u64 << 63)
    }
}

fn score(key: u64) -> f64 {
    if key >> 63 == 1 {
        f64::from_bits(key & !(1u64 << 63))
    } else {
        f64::from_bits(!key)
    }
}

fn series_of(scores: &[f64]) -> AnalysisSeries {
    AnalysisSeries::new(scores.iter().map(|s| key(*s)).collect())
}

fn mean(scores: &[f64], window: SmaWindow) -> f64 {
    let frames = &scores[window.start..window.end];
    frames.iter().sum::<f64>() / frames.len() as f64
}

#[test]
fn keys_order_as_scores_do() {
    let scores = [-2000.5, -1.0, -0.0, 0.0, 1.0e-9, 1.0, 1.5, 3.0, 4.0, 2000.0];
    for pair in scores.windows(2) {
        assert!(key(pair[0]) <= key(pair[1]));
    }
    for s in scores {
        assert_eq!(score(key(s)), s);
    }
}

#[test]
fn range_of_four_scores() {
    let series = series_of(&[3.0, 1.0, 4.0, 1.5]);
    let range = series.minmax().unwrap();
    assert_eq!(range, AnalysisRange { min: key(1.0), max: key(4.0) });
    assert_eq!((score(range.min), score(range.max)), (1.0, 4.0));
}

#[test]
fn sorted_descending_of_four_scores() {
    let series = series_of(&[3.0, 1.0, 4.0, 1.5]);
    let sorted: Vec<f64> = series.sorted_list().into_iter().map(score).collect();
    assert_eq!(sorted, vec![4.0, 3.0, 1.5, 1.0]);
    assert_eq!(series.scores(), &vec![key(3.0), key(1.0), key(4.0), key(1.5)]);
}

#[test]
fn sorted_list_keeps_repeated_scores() {
    let series = series_of(&[2.0, 7.0, 2.0, -1.0, 7.0, 2.0, 0.5]);
    let sorted: Vec<f64> = series.sorted_list().into_iter().map(score).collect();
    assert_eq!(sorted, vec![7.0, 7.0, 2.0, 2.0, 2.0, 0.5, -1.0]);
}

#[test]
fn sorted_list_of_many_keys() {
    let keys: Vec<u64> = (0..1000u64).map(|i| (i * 7919) % 1009).collect();
    let series = AnalysisSeries::new(keys.clone());
    let mut expected = keys;
    expected.sort();
    expected.reverse();
    assert_eq!(series.sorted_list(), expected);
}

#[test]
fn empty_series_has_no_range() {
    let series = AnalysisSeries::new(vec![]);
    assert_eq!(series.len(), 0);
    assert_eq!(series.minmax(), None);
    assert_eq!(series.sorted_list(), Vec::<u64>::new());
    assert_eq!(series.sma(4), Vec::<SmaWindow>::new());
}

#[test]
fn single_score_is_its_own_range() {
    let series = series_of(&[2.5]);
    assert_eq!(series.minmax(), Some(AnalysisRange { min: key(2.5), max: key(2.5) }));
    assert_eq!(series.sorted_list(), vec![key(2.5)]);
}

#[test]
fn moving_average_of_width_four() {
    let scores = [1.0, 2.0, 3.0, 4.0, 5.0, 6.0, 7.0, 8.0];
    let series = series_of(&scores);
    let first = series.sma_window(0, 4);
    assert_eq!(first, SmaWindow { start: 0, end: 2 });
    assert_eq!(mean(&scores, first), 1.5);
    let fifth = series.sma_window(4, 4);
    assert_eq!(fifth, SmaWindow { start: 2, end: 6 });
    assert_eq!(mean(&scores, fifth), 4.5);
}

#[test]
fn moving_average_windows_of_every_frame() {
    let scores = [1.0, 2.0, 3.0, 4.0, 5.0, 6.0, 7.0, 8.0];
    let series = series_of(&scores);
    let windows = series.sma(4);
    let bounds: Vec<(usize, usize)> = windows.iter().map(|w| (w.start, w.end)).collect();
    assert_eq!(
        bounds,
        vec![(0, 2), (0, 3), (0, 4), (1, 5), (2, 6), (3, 7), (4, 8), (5, 8)]
    );
    let means: Vec<f64> = windows.iter().map(|w| mean(&scores, *w)).collect();
    assert_eq!(means, vec![1.5, 2.0, 2.5, 3.5, 4.5, 5.5, 6.5, 7.0]);
}

#[test]
fn moving_average_window_leaves_out_its_right_end() {
    let series = series_of(&[0.0; 20]);
    let window = series.sma_window(10, 6);
    assert_eq!(window, SmaWindow { start: 7, end: 13 });
    assert_eq!(window.end - window.start, 6);
    let odd = series.sma_window(10, 7);
    assert_eq!(odd, SmaWindow { start: 7, end: 13 });
}

#[test]
fn moving_average_of_width_zero_is_the_score_itself() {
    let scores = [4.0, 8.0, 15.0];
    let series = series_of(&scores);
    let windows = series.sma(0);
    let means: Vec<f64> = windows.iter().map(|w| mean(&scores, *w)).collect();
    assert_eq!(means, vec![4.0, 8.0, 15.0]);
    assert_eq!(series.sma_window(1, 0), SmaWindow { start: 1, end: 2 });
    assert_eq!(series.sma_window(2, 1), SmaWindow { start: 2, end: 3 });
}

#[test]
fn moving_average_of_huge_width_spans_the_series() {
    let series = series_of(&[1.0, 2.0, 3.0]);
    assert_eq!(series.sma_window(0, usize::MAX), SmaWindow { start: 0, end: 3 });
    assert_eq!(series.sma_window(2, usize::MAX), SmaWindow { start: 0, end: 3 });
}

#[test]
fn within_keeps_the_scores_inside_the_limits_in_order() {
    let scores: Vec<u64> = [5.0, 0.5, 2000.0, 2000.5, -1.0, 0.0, 12.0]
        .iter()
        .map(|s| key(*s))
        .collect();
    let series = AnalysisSeries::within(&scores, Some(key(0.0)), Some(key(2000.0)));
    let kept: Vec<f64> = series.scores().iter().map(|k| score(*k)).collect();
    assert_eq!(kept, vec![5.0, 0.5, 2000.0, 0.0, 12.0]);
    assert_eq!(series.len(), 5);
}

#[test]
fn within_without_limits_keeps_everything() {
    let scores = vec![9, 3, 7, 0, u64::MAX];
    let series = AnalysisSeries::within(&scores, None, None);
    assert_eq!(series.scores(), &scores);
    let below = AnalysisSeries::within(&scores, None, Some(7));
    assert_eq!(below.scores(), &vec![3, 7, 0]);
    let above = AnalysisSeries::within(&scores, Some(7), None);
    assert_eq!(above.scores(), &vec![9, 7, u64::MAX]);
    let none = AnalysisSeries::within(&scores, Some(8), Some(8));
    assert_eq!(none.len(), 0);
}
