use provenance_score::evalresult::{EvalReport, EvalResult, Stringify};
use provenance_score::response::{get_verdict, label_of_verdict, mime_for_extension};

fn result(expected: u8, actual: u8, name: &str) -> EvalResult {
    EvalResult::new(expected, actual, String::from(name))
}

#[test]
fn empty_batch_tallies_to_zero() {
    let report = EvalReport::from(Vec::new());
    assert_eq!(report.files_analyzed, 0);
    assert_eq!(report.expected_result, 0);
    assert_eq!(report.hits, 0);
    assert_eq!(report.misses, 0);
    assert_eq!(report.fails, 0);
    assert!(report.results.is_empty());
}

#[test]
fn mixed_batch_tallies_hits_misses_fails() {
    let results = vec![
        result(1, 1, "a.png"),
        result(1, 2, "b.png"),
        result(1, 0, "c.png"),
        result(1, 1, "d.png"),
    ];
    let report = EvalReport::from(results);
    assert_eq!(report.files_analyzed, 4);
    assert_eq!(report.expected_result, 1);
    assert_eq!(report.hits, 2);
    assert_eq!(report.misses, 1);
    assert_eq!(report.fails, 1);
}

#[test]
fn all_hit_batch_has_full_accuracy() {
    let n = 5;
    let results: Vec<EvalResult> =
        (0..n).map(|i| result(1, 1, &format!("img{}.png", i))).collect();
    let report = EvalReport::from(results);
    assert_eq!(report.files_analyzed, n);
    assert_eq!(report.hits, n);
    assert_eq!(report.misses, 0);
    assert_eq!(report.fails, 0);
    let accuracy = report.hits as f32 / report.files_analyzed as f32;
    assert_eq!(accuracy, 1.0);
}

#[test]
fn eval_line_is_tab_separated() {
    let r = result(1, 2, "photo.png");
    assert_eq!(r.line(), "1\t2\tphoto.png");
    assert_eq!(Stringify::to_string(&r), "1\t2\tphoto.png");
    let wide = result(100, 255, "x");
    assert_eq!(wide.line(), "100\t255\tx");
}

#[test]
fn authentic_verdict_classifies_as_genuine() {
    let body = "{\"analysis\":{\"verdict\":\"Authentic Media\"}}";
    assert_eq!(get_verdict(body), 1);
}

#[test]
fn other_verdict_classifies_as_generated() {
    let body = "{\"analysis\":{\"verdict\":\"AI Generated\"}}";
    assert_eq!(get_verdict(body), 2);
}

#[test]
fn failed_analysis_classifies_as_fail() {
    assert_eq!(get_verdict("Analysis Failed: unreadable"), 0);
}

#[test]
fn missing_verdict_field_classifies_as_generated() {
    assert_eq!(get_verdict("{\"status\":\"ok\"}"), 2);
    assert_eq!(get_verdict("not json at all"), 2);
}

#[test]
fn verdict_text_label() {
    assert_eq!(label_of_verdict("\"Authentic\""), 1);
    assert_eq!(label_of_verdict("\"Suspected Fake\""), 2);
}

#[test]
fn upload_accepts_only_images() {
    assert_eq!(mime_for_extension("png"), Some("image/png"));
    assert_eq!(mime_for_extension("jpg"), Some("image/jpeg"));
    assert_eq!(mime_for_extension("jpeg"), Some("image/jpeg"));
    assert_eq!(mime_for_extension("gif"), None);
    assert_eq!(mime_for_extension("PNG"), None);
}
