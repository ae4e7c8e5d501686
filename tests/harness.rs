use quadrature::command::{parse_command, parse_invocation, Command, Invocation};
use quadrature::ellipse::{run_arc_ellipse, run_ellipse, EllipseArea, EllipsePerimeter};
use quadrature::rules::{check_args, divisor, node_count, node_position, weight, Rule};
use quadrature::sweep::{compare_counts, geometric_counts, pi_counts};
use quadrature::table::{compare_header, merge_columns, pi_header, MergeError};
use std::f64::consts::PI;

fn quad(rule: Rule, a: f64, b: f64, n: u32, f: impl Fn(f64) -> f64) -> f64 {
    check_args(rule, a <= b, n).unwrap();
    let half = (b - a) / n as f64 / 2.0;
    let mut sum = 0.0;
    for i in 0..node_count(rule, n) {
        sum += weight(rule, n, i) as f64 * f(a + node_position(rule, i) as f64 * half);
    }
    sum * 2.0 * half / divisor(rule) as f64
}

#[test]
fn compare_counts_are_powers_of_two_increasing() {
    let c = compare_counts();
    assert_eq!(c.len(), 27);
    assert_eq!(c[0], 2);
    assert_eq!(c[26], 1 << 27);
    for w in c.windows(2) {
        assert!(w[0] < w[1]);
        assert_eq!(w[1], 2 * w[0]);
    }
    for &n in &c {
        for r in [Rule::Rectangle, Rule::Trapezoid, Rule::Simpson] {
            assert_eq!(check_args(r, true, n), Ok(()));
        }
    }
}

#[test]
fn compare_rows_have_non_negative_errors() {
    let actual = 2.0 / 3.0;
    for &n in compare_counts().iter().take(14) {
        for r in [Rule::Rectangle, Rule::Trapezoid, Rule::Simpson] {
            let err = (actual - quad(r, -1.0, 1.0, n, |x| x * x)).abs();
            assert!(err >= 0.0);
        }
    }
}

#[test]
fn pi_counts_span_four_to_two_pow_twenty_five() {
    let c = pi_counts();
    assert_eq!(c.len(), 24);
    assert_eq!(c[0], 4);
    assert_eq!(c[23], 1 << 25);
    assert_eq!(geometric_counts(0, 0), vec![1]);
    assert_eq!(geometric_counts(3, 5), vec![8, 16, 32]);
    assert_eq!(geometric_counts(31, 31), vec![1u32 << 31]);
}

#[test]
fn headers() {
    assert_eq!(compare_header().join(";"), "n;rec;trp;sim");
    assert_eq!(pi_header().join(";"), "n;pi;verr;int;ierr");
}

fn strings(cells: &[&str]) -> Vec<String> {
    cells.iter().map(|c| c.to_string()).collect()
}

#[test]
fn merge_appends_columns_row_by_row() {
    let rows = vec![strings(&["4", "3.1", "0.04"]), strings(&["8", "3.14", "0.001"])];
    let data = vec![strings(&["2.99", "0.15"]), strings(&["3.10", "0.04"])];
    let merged = merge_columns(rows, data).unwrap();
    assert_eq!(
        merged,
        vec![
            strings(&["4", "3.1", "0.04", "2.99", "0.15"]),
            strings(&["8", "3.14", "0.001", "3.10", "0.04"]),
        ]
    );
    let empty: Vec<Vec<String>> = Vec::new();
    assert_eq!(merge_columns(empty.clone(), empty), Ok(Vec::new()));
}

#[test]
fn merge_refuses_mismatched_row_counts() {
    let rows = vec![vec![1], vec![2], vec![3]];
    let data = vec![vec![10], vec![20]];
    assert_eq!(
        merge_columns(rows, data),
        Err(MergeError::RowCountMismatch { data_rows: 2, table_rows: 3 })
    );
}

fn args(words: &[&str]) -> Vec<String> {
    words.iter().map(|w| w.to_string()).collect()
}

#[test]
fn invocations() {
    assert_eq!(parse_invocation(&args(&["prog", "pi"])), Invocation::Run(Command::Pi));
    assert_eq!(parse_invocation(&args(&["prog", "areas"])), Invocation::Run(Command::Areas));
    assert_eq!(parse_invocation(&args(&["prog", "arcs"])), Invocation::Run(Command::Arcs));
    assert_eq!(parse_invocation(&args(&["prog", "compare"])), Invocation::Run(Command::Compare));
    assert_eq!(parse_invocation(&args(&["prog", "Pi"])), Invocation::Unrecognised);
    assert_eq!(parse_invocation(&args(&["prog"])), Invocation::Nothing);
    assert_eq!(parse_invocation(&args(&["prog", "pi", "x"])), Invocation::Nothing);
    assert_eq!(parse_command(&"compare".to_string()), Some(Command::Compare));
    assert_eq!(parse_command(&"".to_string()), None);
}

#[test]
fn ellipse_area_cases() {
    let cases = run_ellipse();
    assert_eq!(
        cases,
        vec![
            EllipseArea { a: 1, b: 1, div: 100_000, pi_multiple: 1 },
            EllipseArea { a: 3, b: 2, div: 100_000, pi_multiple: 6 },
            EllipseArea { a: 7, b: 3, div: 100_000, pi_multiple: 21 },
            EllipseArea { a: 4, b: 1, div: 100_000, pi_multiple: 4 },
        ]
    );
    for c in cases {
        let (a, b) = (c.a as f64, c.b as f64);
        let area = 2.0
            * quad(Rule::Simpson, -a, a, c.div, |x| b * (1.0 - x * x / (a * a)).max(0.0).sqrt());
        assert!((area - c.pi_multiple as f64 * PI).abs() < 1e-4 * a * b);
    }
}

#[test]
fn ellipse_perimeter_cases() {
    let cases = run_arc_ellipse();
    assert_eq!(
        cases,
        vec![
            EllipsePerimeter { a: 3, b: 2, div: 1_000_000, eps_exp: 10, expected_e4: 158654 },
            EllipsePerimeter { a: 7, b: 3, div: 1_000_000, eps_exp: 10, expected_e4: 326857 },
            EllipsePerimeter { a: 4, b: 1, div: 1_000_000, eps_exp: 10, expected_e4: 171568 },
        ]
    );
}
