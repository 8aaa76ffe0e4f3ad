use particle_filter::association::{associate, nearest_landmark};
use particle_filter::ensemble::{draw_copies, sequential_ids};
use particle_filter::lifecycle::{FilterError, Lifecycle, StepAction};
use particle_filter::scoring::{weight_plan, Factor, WeightPlan};
use particle_filter::select::{any_positive, first_max_index, first_min_index, select_within};

fn key(x: f64) -> u64 {
    if x == 0.0 {
        0
    } else {
        x.to_bits()
    }
}

fn keys(xs: &[f64]) -> Vec<u64> {
    xs.iter().map(|&x| key(x)).collect()
}

fn dist(ax: f64, ay: f64, bx: f64, by: f64) -> f64 {
    ((ax - bx).powi(2) + (ay - by).powi(2)).sqrt()
}

#[test]
fn best_index_is_first_largest_weight() {
    let w = [0.2, 1.768, 0.5, 1.768, 0.0];
    assert_eq!(first_max_index(&keys(&w)), Some(1));
}

#[test]
fn best_index_weight_dominates_every_other() {
    let w = [0.3, 0.001, 2.5e-5, 7.25, 7.0, 1e-300, 0.0];
    let i = first_max_index(&keys(&w)).unwrap();
    for &x in w.iter() {
        assert!(w[i] >= x);
    }
    assert_eq!(i, 3);
}

#[test]
fn best_index_of_empty_ensemble_is_none() {
    assert_eq!(first_max_index(&Vec::new()), None);
}

#[test]
fn nearest_index_keeps_first_of_equal_distances() {
    let d = [4.0, 1.5, 3.0, 1.5];
    assert_eq!(first_min_index(&keys(&d)), Some(1));
    assert_eq!(first_min_index(&Vec::new()), None);
}

#[test]
fn visibility_keeps_landmarks_within_range_inclusive() {
    let d = [10.0, 50.0, 50.000001, 0.0, 49.9];
    assert_eq!(select_within(&keys(&d), key(50.0)), vec![0, 1, 3, 4]);
    assert_eq!(select_within(&keys(&d), key(0.0)), vec![3]);
    assert_eq!(select_within(&Vec::new(), key(50.0)), Vec::<usize>::new());
}

#[test]
fn any_positive_weight() {
    assert!(!any_positive(&keys(&[0.0, 0.0, -0.0])));
    assert!(any_positive(&keys(&[0.0, 1e-5, 0.0])));
    assert!(!any_positive(&Vec::new()));
}

#[test]
fn single_landmark_aligned_observation_is_matched() {
    // one landmark at (5, 5); particle at (0, 0, 0); observation (5, 5)
    let landmarks = [(5.0, 5.0)];
    let (px, py, phi) = (0.0f64, 0.0f64, 0.0f64);
    let (ox, oy) = (5.0f64, 5.0f64);
    let mx = ox * phi.cos() - oy * phi.sin() + px;
    let my = ox * phi.sin() + oy * phi.cos() + py;
    let range = 50.0;
    let to_particle: Vec<u64> = landmarks.iter().map(|l| key(dist(l.0, l.1, px, py))).collect();
    let visible = select_within(&to_particle, key(range));
    assert_eq!(visible, vec![0]);
    let row: Vec<u64> = visible
        .iter()
        .map(|&v| key(dist(landmarks[v].0, landmarks[v].1, mx, my)))
        .collect();
    assert_eq!(row, vec![0]);
    let matches = associate(&visible, &vec![row]);
    assert_eq!(matches, vec![Some(0)]);
    let peak = 1.0 / (2.0 * std::f64::consts::PI * 0.3 * 0.3);
    match weight_plan(&matches, &vec![key(peak)], key(1e-5)) {
        WeightPlan::Product(fs) => assert_eq!(fs, vec![Factor::Likelihood]),
        WeightPlan::Floor => panic!("an aligned observation must be matched"),
    }
}

#[test]
fn nearest_landmark_maps_back_to_map_index() {
    let visible = vec![2, 5, 9];
    assert_eq!(nearest_landmark(&visible, &keys(&[3.0, 0.5, 0.5])), Some(5));
    assert_eq!(nearest_landmark(&Vec::new(), &Vec::new()), None);
}

#[test]
fn association_per_observation() {
    let visible = vec![0, 3];
    let rows = vec![keys(&[1.0, 2.0]), keys(&[9.0, 0.25]), keys(&[4.0, 4.0])];
    assert_eq!(associate(&visible, &rows), vec![Some(0), Some(3), Some(0)]);
}

#[test]
fn nothing_visible_floors_whole_particle() {
    let visible: Vec<usize> = Vec::new();
    let rows = vec![Vec::new(), Vec::new()];
    let matches = associate(&visible, &rows);
    assert_eq!(matches, vec![None, None]);
    assert!(matches!(
        weight_plan(&matches, &vec![0, 0], key(1e-5)),
        WeightPlan::Floor
    ));
}

#[test]
fn one_unmatched_observation_discards_other_factors() {
    let matches = vec![Some(1), None, Some(0)];
    let lik = keys(&[1.7, 0.0, 1.2]);
    assert!(matches!(weight_plan(&matches, &lik, key(1e-5)), WeightPlan::Floor));
}

#[test]
fn low_likelihood_is_floored_per_term() {
    let matches = vec![Some(0), Some(1), Some(0)];
    let lik = keys(&[1.7, 1e-9, 1e-5]);
    match weight_plan(&matches, &lik, key(1e-5)) {
        WeightPlan::Product(fs) => {
            assert_eq!(fs, vec![Factor::Likelihood, Factor::Epsilon, Factor::Likelihood])
        }
        WeightPlan::Floor => panic!("every observation was matched"),
    }
}

#[test]
fn no_observations_give_empty_product() {
    match weight_plan(&Vec::new(), &Vec::new(), key(1e-5)) {
        WeightPlan::Product(fs) => assert!(fs.is_empty()),
        WeightPlan::Floor => panic!("nothing is unmatched"),
    }
}

#[test]
fn ids_run_from_one_to_n() {
    assert_eq!(sequential_ids(5), vec![1, 2, 3, 4, 5]);
    assert_eq!(sequential_ids(0), Vec::<u32>::new());
    let ids = sequential_ids(1000);
    assert_eq!(ids.len(), 1000);
    assert_eq!(ids[999], 1000);
}

#[test]
fn redraw_copies_the_drawn_particles() {
    let particles = vec![(1.0f64, 2.0f64), (3.0, 4.0), (5.0, 6.0)];
    let draws = vec![2, 0, 2, 1];
    assert_eq!(
        draw_copies(&particles, &draws),
        vec![(5.0, 6.0), (1.0, 2.0), (5.0, 6.0), (3.0, 4.0)]
    );
}

#[test]
fn redraw_onto_dominant_particle_copies_it_everywhere() {
    let particles: Vec<(f64, f64, f64)> = (0..1000).map(|i| (i as f64, 0.0, 0.0)).collect();
    let draws = vec![417usize; 1000];
    let out = draw_copies(&particles, &draws);
    assert_eq!(out.len(), 1000);
    assert!(out.iter().all(|p| *p == (417.0, 0.0, 0.0)));
}

#[test]
fn lifecycle_initializes_once() {
    let mut lc = Lifecycle::new();
    assert!(!lc.is_initialized());
    assert_eq!(lc.particle_count(), 0);
    assert_eq!(lc.step_action(0), StepAction::Initialize);
    assert_eq!(lc.start(42), Ok(true));
    assert!(lc.is_initialized());
    assert_eq!(lc.particle_count(), 42);
    assert_eq!(lc.start(7), Ok(false));
    assert_eq!(lc.particle_count(), 42);
}

#[test]
fn lifecycle_refuses_zero_particles() {
    let mut lc = Lifecycle::new();
    assert_eq!(lc.start(0), Err(FilterError::NoParticles));
    assert!(!lc.is_initialized());
    assert_eq!(lc.start(3), Ok(true));
}

#[test]
fn step_actions_after_initialization() {
    let mut lc = Lifecycle::new();
    lc.start(10).unwrap();
    assert_eq!(lc.step_action(0), StepAction::ScoreOnly);
    assert_eq!(lc.step_action(1), StepAction::Predict(0));
    assert_eq!(lc.step_action(7), StepAction::Predict(6));
}
