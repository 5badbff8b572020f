use nine_nine::dispatch::{dispatch_step, next_problem, Config, ConfigError, MAX_ATTEMPTS};
use nine_nine::kind::ProblemKind;
use nine_nine::page::{page_cells, page_lines, row_markup, table_header};
use nine_nine::problem::{
    attempt, attempt_addition, attempt_chained_addition, attempt_chained_subtraction,
    attempt_comparison, attempt_subtraction,
};
use nine_nine::random::RandomSource;
use nine_nine::render::{cell_markup, decimal_string, problem_cell, render, render_problem};

const BOX: &str = "\\fbox{\\textcolor{white}{00}}";

fn config(operand_max: u64, sum_ceiling: u64, kinds: Vec<ProblemKind>) -> Config {
    Config { operand_max, sum_ceiling, enabled_kinds: kinds }
}

fn strings(xs: &[&str]) -> Vec<String> {
    xs.iter().map(|s| s.to_string()).collect()
}

fn is_placeholder(t: &str) -> bool {
    t == BOX || t == "~"
}

#[test]
fn addition_accepts_within_ceiling() {
    let p = attempt_addition(3, 4, 20).unwrap();
    assert_eq!(p.kind, ProblemKind::SingleAddition);
    assert_eq!(p.values, vec![3, 4, 7]);
    let edge = attempt_addition(10, 10, 20).unwrap();
    assert_eq!(edge.values, vec![10, 10, 20]);
}

#[test]
fn addition_rejects_over_ceiling() {
    assert!(attempt_addition(13, 8, 20).is_none());
    assert!(attempt_addition(3, 3, 5).is_none());
    assert!(attempt_addition(u64::MAX, 1, u64::MAX).is_none());
}

#[test]
fn subtraction_needs_first_not_smaller() {
    assert_eq!(attempt_subtraction(9, 4).unwrap().values, vec![9, 4, 5]);
    assert_eq!(attempt_subtraction(5, 5).unwrap().values, vec![5, 5, 0]);
    assert!(attempt_subtraction(3, 4).is_none());
}

#[test]
fn comparison_always_accepted() {
    let p = attempt_comparison(7, 2);
    assert_eq!(p.kind, ProblemKind::ComparisonPair);
    assert_eq!(p.values, vec![7, 2]);
}

#[test]
fn chained_addition_bounded_by_ceiling() {
    assert_eq!(attempt_chained_addition(5, 6, 9, 20).unwrap().values, vec![5, 6, 9]);
    assert!(attempt_chained_addition(5, 6, 10, 20).is_none());
}

#[test]
fn chained_subtraction_never_negative() {
    assert_eq!(attempt_chained_subtraction(9, 4, 5).unwrap().values, vec![9, 4, 5]);
    assert!(attempt_chained_subtraction(9, 4, 6).is_none());
    assert!(attempt_chained_subtraction(3, 4, 0).is_none());
}

#[test]
fn attempt_dispatches_on_kind() {
    let p = attempt(ProblemKind::SingleSubtraction, &vec![8, 3], 20).unwrap();
    assert_eq!(p.kind, ProblemKind::SingleSubtraction);
    assert_eq!(p.values, vec![8, 3, 5]);
    assert!(attempt(ProblemKind::ChainedAddition, &vec![8, 8, 8], 20).is_none());
    let c = attempt(ProblemKind::ComparisonPair, &vec![1, 9], 0).unwrap();
    assert_eq!(c.values, vec![1, 9]);
}

#[test]
fn accepted_problems_keep_their_arithmetic() {
    for a in 0..20u64 {
        for b in 0..20u64 {
            if let Some(p) = attempt_addition(a, b, 20) {
                assert_eq!(p.values[0] + p.values[1], p.values[2]);
                assert!(p.values[2] <= 20);
            }
            if let Some(p) = attempt_subtraction(a, b) {
                assert!(p.values[0] >= p.values[1]);
                assert_eq!(p.values[0] - p.values[1], p.values[2]);
            }
            for c in 0..20u64 {
                if let Some(p) = attempt_chained_subtraction(a, b, c) {
                    let v: Vec<i64> = p.values.iter().map(|x| *x as i64).collect();
                    assert!(v[0] - v[1] >= 0 && v[0] - v[1] - v[2] >= 0);
                }
            }
        }
    }
}

#[test]
fn single_addition_accepted_on_first_draw() {
    let cfg = config(10, 20, vec![ProblemKind::SingleAddition]);
    let mut rng = RandomSource::from_seed(7);
    for _ in 0..200 {
        let p = next_problem(&cfg, &mut rng).unwrap();
        assert_eq!(p.kind, ProblemKind::SingleAddition);
        assert_eq!(p.values.len(), 3);
        assert!(p.values[0] <= 9 && p.values[1] <= 9);
        assert_eq!(p.values[0] + p.values[1], p.values[2]);
        assert!(p.values[2] <= 20);
    }
}

#[test]
fn low_ceiling_never_lets_large_sums_through() {
    let cfg = config(10, 5, vec![ProblemKind::SingleAddition]);
    let mut rng = RandomSource::from_seed(11);
    for _ in 0..2000 {
        let p = next_problem(&cfg, &mut rng).unwrap();
        assert!(p.values[0] + p.values[1] <= 5);
        assert_eq!(p.values[0] + p.values[1], p.values[2]);
    }
}

#[test]
fn dispatcher_keeps_to_enabled_kinds() {
    let kinds = vec![ProblemKind::SingleSubtraction, ProblemKind::ChainedAddition];
    let cfg = config(20, 20, kinds.clone());
    let mut rng = RandomSource::from_seed(3);
    let mut seen_sub = false;
    let mut seen_chain = false;
    for _ in 0..500 {
        let p = next_problem(&cfg, &mut rng).unwrap();
        assert!(kinds.contains(&p.kind));
        seen_sub |= p.kind == ProblemKind::SingleSubtraction;
        seen_chain |= p.kind == ProblemKind::ChainedAddition;
    }
    assert!(seen_sub && seen_chain);
}

#[test]
fn dispatcher_reports_configuration_errors() {
    let mut rng = RandomSource::from_seed(1);
    assert_eq!(next_problem(&config(10, 20, vec![]), &mut rng).unwrap_err(), ConfigError::NoKinds);
    let empty = config(0, 20, vec![ProblemKind::SingleAddition]);
    assert_eq!(next_problem(&empty, &mut rng).unwrap_err(), ConfigError::EmptyRange);
}

#[test]
fn dispatcher_gives_up_on_unsatisfiable_ceiling() {
    let cfg = config(u64::MAX, 0, vec![ProblemKind::SingleAddition]);
    let mut rng = RandomSource::from_seed(5);
    assert_eq!(next_problem(&cfg, &mut rng).unwrap_err(), ConfigError::Exhausted);
}

#[test]
fn decimal_numerals() {
    assert_eq!(decimal_string(0), "0");
    assert_eq!(decimal_string(7), "7");
    assert_eq!(decimal_string(10), "10");
    assert_eq!(decimal_string(107), "107");
    assert_eq!(decimal_string(u64::MAX), "18446744073709551615");
}

#[test]
fn render_blanks_chosen_position() {
    let v = vec![5, 2, 7];
    assert_eq!(render(&v, Some(2)), strings(&["5", "2", "~"]));
    assert_eq!(render(&v, Some(0)), strings(&[BOX, "2", "7"]));
    assert_eq!(render(&v, Some(1)), strings(&["5", BOX, "7"]));
    assert_eq!(render(&v, None), strings(&["5", "2", "7"]));
}

#[test]
fn render_is_repeatable() {
    let v = vec![12, 3, 15];
    for j in 0..3 {
        let first = render(&v, Some(j));
        for _ in 0..5 {
            assert_eq!(render(&v, Some(j)), first);
        }
    }
}

#[test]
fn rendered_problem_has_one_placeholder_when_blanking() {
    let mut rng = RandomSource::from_seed(9);
    let add = attempt_addition(4, 5, 20).unwrap();
    let sub = attempt_subtraction(9, 5).unwrap();
    let chained = attempt_chained_addition(1, 2, 3, 20).unwrap();
    let cmp = attempt_comparison(1, 2);
    for _ in 0..50 {
        for p in [&add, &sub] {
            let t = render_problem(p, &mut rng);
            assert_eq!(t.len(), 3);
            assert_eq!(t.iter().filter(|s| is_placeholder(s)).count(), 1);
        }
        for p in [&chained, &cmp] {
            let t = render_problem(p, &mut rng);
            assert_eq!(t.iter().filter(|s| is_placeholder(s)).count(), 0);
            assert_eq!(t.len(), p.values.len());
        }
    }
}

#[test]
fn cell_markup_per_kind() {
    let t = strings(&["3", "4", "~"]);
    assert_eq!(cell_markup(ProblemKind::SingleAddition, &t), "$3+4$&$=~$");
    let t = strings(&["9", BOX, "5"]);
    assert_eq!(
        cell_markup(ProblemKind::SingleSubtraction, &t),
        "$9-\\fbox{\\textcolor{white}{00}}$&$=5$"
    );
    assert_eq!(cell_markup(ProblemKind::ComparisonPair, &strings(&["7", "2"])), "7&\\quad2");
    let t = strings(&["1", "2", "3"]);
    assert_eq!(cell_markup(ProblemKind::ChainedAddition, &t), "$1+2+3$&=");
    assert_eq!(cell_markup(ProblemKind::ChainedSubtraction, &t), "$1-2-3$&=");
}

#[test]
fn problem_cell_shows_open_chained_equation() {
    let mut rng = RandomSource::from_seed(2);
    let p = attempt_chained_subtraction(9, 4, 5).unwrap();
    assert_eq!(problem_cell(&p, &mut rng), "$9-4-5$&=");
}

#[test]
fn page_of_two_by_two() {
    let cfg = config(10, 20, vec![ProblemKind::SingleAddition, ProblemKind::SingleSubtraction]);
    let mut rng = RandomSource::from_seed(4);
    let grid = page_cells(&cfg, &mut rng, 2, 2).unwrap();
    assert_eq!(grid.len(), 2);
    assert!(grid.iter().all(|row| row.len() == 2));
    assert!(grid.iter().flatten().all(|c| c.starts_with('$') && c.contains("$&$=")));
    let lines = page_lines(&grid, 2);
    assert_eq!(lines.len(), 5);
    assert_eq!(lines[0], "\\begin{tabular}{rl@{\\qquad\\quad}rl}");
    assert_eq!(lines[1], format!("{}&{}\\\\", grid[0][0], grid[0][1]));
    assert_eq!(lines[2], format!("{}&{}\\\\", grid[1][0], grid[1][1]));
    assert_eq!(lines[3], "\\end{tabular}");
    assert_eq!(lines[4], "\\clearpage");
}

#[test]
fn page_reports_configuration_errors() {
    let mut rng = RandomSource::from_seed(4);
    let none = config(10, 20, vec![]);
    assert_eq!(page_cells(&none, &mut rng, 2, 2).unwrap_err(), ConfigError::NoKinds);
    let empty = config(0, 20, vec![ProblemKind::ComparisonPair]);
    assert_eq!(page_cells(&empty, &mut rng, 2, 2).unwrap_err(), ConfigError::EmptyRange);
}

#[test]
fn row_and_header_markup() {
    assert_eq!(row_markup(&strings(&["a", "b", "c"])), "a&b&c\\\\");
    assert_eq!(row_markup(&strings(&["a"])), "a\\\\");
    assert_eq!(row_markup(&vec![]), "\\\\");
    assert_eq!(table_header(1), "\\begin{tabular}{rl}");
    assert_eq!(
        table_header(3),
        "\\begin{tabular}{rl@{\\qquad\\quad}rl@{\\qquad\\quad}rl}"
    );
}

#[test]
fn samples_stay_in_range() {
    let mut rng = RandomSource::from_seed(8);
    let mut seen = [false; 3];
    for _ in 0..300 {
        let x = rng.sample(3);
        assert!(x < 3);
        seen[x as usize] = true;
        let (a, b) = rng.sample_pair(20);
        assert!(a < 20 && b < 20);
        let (a, b, c) = rng.sample_triple(1);
        assert_eq!((a, b, c), (0, 0, 0));
        assert!(rng.choose_index(4) < 4);
    }
    assert!(seen.iter().all(|s| *s));
    let ops = rng.sample_operands(5, 10);
    assert_eq!(ops.len(), 5);
    assert!(ops.iter().all(|x| *x < 10));
}

#[test]
fn same_seed_same_sequence() {
    let mut a = RandomSource::from_seed(42);
    let mut b = RandomSource::from_seed(42);
    for _ in 0..50 {
        assert_eq!(a.sample(1000), b.sample(1000));
    }
}

#[test]
fn kind_shapes() {
    assert_eq!(ProblemKind::SingleAddition.arity(), 2);
    assert_eq!(ProblemKind::ComparisonPair.arity(), 2);
    assert_eq!(ProblemKind::ChainedSubtraction.arity(), 3);
    assert!(ProblemKind::SingleSubtraction.supports_blank());
    assert!(!ProblemKind::ChainedAddition.supports_blank());
}

#[test]
fn dispatch_step_decides_each_draw() {
    let cfg = config(10, 5, vec![ProblemKind::ChainedSubtraction, ProblemKind::SingleAddition]);
    let p = dispatch_step(&cfg, 0, 1, &vec![2, 3]).unwrap().unwrap();
    assert_eq!(p.kind, ProblemKind::SingleAddition);
    assert_eq!(p.values, vec![2, 3, 5]);
    assert!(dispatch_step(&cfg, 0, 1, &vec![3, 3]).unwrap().is_none());
    assert!(dispatch_step(&cfg, MAX_ATTEMPTS - 2, 1, &vec![3, 3]).unwrap().is_none());
    assert_eq!(
        dispatch_step(&cfg, MAX_ATTEMPTS - 1, 1, &vec![3, 3]).unwrap_err(),
        ConfigError::Exhausted
    );
    let last = dispatch_step(&cfg, MAX_ATTEMPTS - 1, 0, &vec![9, 4, 5]).unwrap().unwrap();
    assert_eq!(last.values, vec![9, 4, 5]);
}

#[test]
fn full_rendering_draws_nothing() {
    let mut used = RandomSource::from_seed(21);
    let mut fresh = RandomSource::from_seed(21);
    let chained = attempt_chained_addition(1, 2, 3, 20).unwrap();
    let cmp = attempt_comparison(4, 2);
    render_problem(&chained, &mut used);
    problem_cell(&cmp, &mut used);
    for _ in 0..20 {
        assert_eq!(used.sample(1000), fresh.sample(1000));
    }
}
