use rss_atmos_rtm::batch::{batch_outcome, begin_point, collect_rows, poll_step, PollAction};
use rss_atmos_rtm::params::RtmParameters;
use rss_atmos_rtm::profile::{find_surface_index, prepend_with};
use rss_atmos_rtm::schedule::absorption_sources;
use rss_atmos_rtm::shape::{check_batch_shape, check_dims, check_lengths};
use rss_atmos_rtm::RtmError;

fn at_or_below(levels: &[f32], surface_pressure: f32) -> Vec<bool> {
    levels.iter().map(|&p| p <= surface_pressure).collect()
}

#[test]
fn error_messages() {
    assert_eq!(
        RtmError::InconsistentInputs.message(),
        "inputs to RTM have the wrong shape"
    );
    assert_eq!(RtmError::NoSurface.message(), "couldn't find the surface index");
    assert_eq!(
        RtmError::NotContiguous.message(),
        "array slice not contiguous in memory"
    );
    assert_eq!(RtmError::Cancelled.message(), "operation cancelled early");
}

#[test]
fn parameters_pair_frequencies_and_angles() {
    let p = RtmParameters::new(&[18.7f32, 23.8, 37.0], &[53.0f32, 53.0, 55.0]).unwrap();
    assert_eq!(p.num_pairs(), 3);
    assert_eq!(p.frequency(), &[18.7f32, 23.8, 37.0]);
    assert_eq!(p.incidence(), &[53.0f32, 53.0, 55.0]);
}

#[test]
fn parameters_reject_mismatched_lengths() {
    let r = RtmParameters::new(&[18.7f32, 23.8], &[53.0f32]);
    assert!(matches!(r, Err(RtmError::InconsistentInputs)));
}

#[test]
fn parameters_reject_empty() {
    let r = RtmParameters::<f32>::new(&[], &[]);
    assert!(matches!(r, Err(RtmError::InconsistentInputs)));
}

#[test]
fn surface_index_first_level_at_or_below() {
    let le = at_or_below(&[1000.0, 850.0, 700.0, 500.0], 900.0);
    assert_eq!(find_surface_index(&le), Ok(1));
}

#[test]
fn surface_index_equal_pressure_counts() {
    let le = at_or_below(&[1000.0, 850.0, 700.0], 850.0);
    assert_eq!(find_surface_index(&le), Ok(1));
    let le = at_or_below(&[1000.0, 850.0, 700.0], 1000.0);
    assert_eq!(find_surface_index(&le), Ok(0));
}

#[test]
fn surface_not_found() {
    let le = at_or_below(&[1000.0, 950.0, 925.0], 900.0);
    assert_eq!(find_surface_index(&le), Err(RtmError::NoSurface));
}

#[test]
fn surface_above_every_level_takes_first() {
    let le = at_or_below(&[500.0, 400.0, 300.0], 900.0);
    assert_eq!(find_surface_index(&le), Ok(0));
}

#[test]
fn surface_search_on_no_levels() {
    assert_eq!(find_surface_index(&[]), Err(RtmError::InconsistentInputs));
}

#[test]
fn prepend_overwrites_surface_slot() {
    let r = prepend_with(&[10.0f32, 20.0, 30.0], 1.0, 99.0, 2);
    assert_eq!(r, vec![1.0, 10.0, 99.0, 30.0]);
}

#[test]
fn prepend_at_front() {
    let r = prepend_with(&[10u32, 20, 30], 1, 99, 0);
    assert_eq!(r, vec![99, 10, 20, 30]);
    let r = prepend_with(&[10u32, 20, 30], 1, 99, 3);
    assert_eq!(r, vec![1, 10, 20, 99]);
}

#[test]
fn lengths_checked() {
    assert_eq!(check_lengths(&[4, 4, 4], 4), Ok(()));
    assert_eq!(check_lengths(&[], 4), Ok(()));
    assert_eq!(check_lengths(&[4, 3, 4], 4), Err(RtmError::InconsistentInputs));
    assert_eq!(check_dims(&[(2, 5), (2, 5)], 2, 5), Ok(()));
    assert_eq!(check_dims(&[(2, 5), (5, 2)], 2, 5), Err(RtmError::InconsistentInputs));
}

#[test]
fn batch_shape_checked() {
    let dims = [(3, 37); 4];
    assert_eq!(check_batch_shape(3, 37, 2, &dims, &[3; 4], &[2, 2]), Ok(()));
    assert_eq!(
        check_batch_shape(3, 37, 2, &dims, &[3, 3, 2, 3], &[2, 2]),
        Err(RtmError::InconsistentInputs)
    );
    assert_eq!(
        check_batch_shape(3, 37, 2, &dims, &[3; 4], &[2, 1]),
        Err(RtmError::InconsistentInputs)
    );
    assert_eq!(
        check_batch_shape(3, 36, 2, &dims, &[3; 4], &[2, 2]),
        Err(RtmError::InconsistentInputs)
    );
}

#[test]
fn poll_decisions() {
    assert_eq!(poll_step(true, 0, 5), PollAction::Interrupt);
    assert_eq!(poll_step(true, 5, 5), PollAction::Interrupt);
    assert_eq!(poll_step(false, 5, 5), PollAction::Finish);
    assert_eq!(poll_step(false, 2, 5), PollAction::Wait);
    assert_eq!(poll_step(false, 0, 0), PollAction::Finish);
}

#[test]
fn workers_stop_after_cancellation() {
    assert_eq!(begin_point(true), Err(RtmError::Cancelled));
    assert_eq!(begin_point(false), Ok(()));
}

#[test]
fn rows_kept_in_point_order() {
    let results: Vec<Result<Vec<f32>, RtmError>> =
        vec![Ok(vec![0.9, 250.0]), Ok(vec![0.8, 260.0]), Ok(vec![0.7, 270.0])];
    let rows = collect_rows(results).unwrap();
    assert_eq!(rows, vec![vec![0.9, 250.0], vec![0.8, 260.0], vec![0.7, 270.0]]);
}

#[test]
fn first_failure_fails_batch() {
    let results: Vec<Result<u32, RtmError>> = vec![
        Ok(1),
        Err(RtmError::NoSurface),
        Ok(3),
        Err(RtmError::Cancelled),
    ];
    assert_eq!(collect_rows(results), Err(RtmError::NoSurface));
}

#[test]
fn empty_batch_has_no_rows() {
    let results: Vec<Result<u32, RtmError>> = vec![];
    assert_eq!(collect_rows(results), Ok(vec![]));
}

#[test]
fn interrupted_batch_is_cancelled() {
    let results: Vec<Result<u32, RtmError>> = vec![Ok(1), Ok(2)];
    assert_eq!(batch_outcome(true, results), Err(RtmError::Cancelled));
    let results: Vec<Result<u32, RtmError>> = vec![Ok(1), Ok(2)];
    assert_eq!(batch_outcome(false, results), Ok(vec![1, 2]));
}

#[test]
fn identical_results_give_identical_tables() {
    let make = || -> Vec<Result<Vec<f32>, RtmError>> {
        (0..8).map(|i| Ok(vec![i as f32 * 0.1, 200.0 + i as f32])).collect()
    };
    let a = batch_outcome(false, make()).unwrap();
    let b = batch_outcome(false, make()).unwrap();
    for (x, y) in a.iter().zip(&b) {
        for (u, v) in x.iter().zip(y) {
            assert_eq!(u.to_bits(), v.to_bits());
        }
    }
}

#[test]
fn shared_frequencies_share_a_profile() {
    let keys: Vec<u32> = [18.7f32, 23.8, 18.7, 37.0, 23.8, 18.7]
        .iter()
        .map(|f| f.to_bits())
        .collect();
    assert_eq!(absorption_sources(&keys), vec![0, 1, 0, 3, 1, 0]);
}

#[test]
fn distinct_frequencies_each_get_a_profile() {
    assert_eq!(absorption_sources(&[7, 8, 9]), vec![0, 1, 2]);
    assert_eq!(absorption_sources(&[]), Vec::<usize>::new());
    assert_eq!(absorption_sources(&[5, 5, 5]), vec![0, 0, 0]);
}

#[test]
fn parameters_single_pair() {
    let p = RtmParameters::new(&[10.65f32], &[0.0f32]).unwrap();
    assert_eq!(p.num_pairs(), 1);
}
