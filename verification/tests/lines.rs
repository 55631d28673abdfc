use stream_gears::line::DEFAULT_LINE;
use stream_gears::line::ProbeSample;
use stream_gears::line::UploadLine;
use stream_gears::line::choose_line;
use stream_gears::line::select_line;

#[test]
fn lowest_latency_wins() {
    let samples = vec![
        ProbeSample { line: UploadLine::Ws, latency_ms: Some(80) },
        ProbeSample { line: UploadLine::Tx, latency_ms: Some(12) },
        ProbeSample { line: UploadLine::Qn, latency_ms: Some(45) },
    ];
    assert_eq!(select_line(&samples), UploadLine::Tx);
}

#[test]
fn timeouts_are_non_responses_not_errors() {
    let samples = vec![
        ProbeSample { line: UploadLine::Bda, latency_ms: None },
        ProbeSample { line: UploadLine::Txa, latency_ms: Some(200) },
        ProbeSample { line: UploadLine::Bldsa, latency_ms: None },
    ];
    assert_eq!(select_line(&samples), UploadLine::Txa);
}

#[test]
fn no_response_falls_back_to_default() {
    let samples = vec![
        ProbeSample { line: UploadLine::Ws, latency_ms: None },
        ProbeSample { line: UploadLine::Qn, latency_ms: None },
    ];
    assert_eq!(select_line(&samples), DEFAULT_LINE);
    assert_eq!(select_line(&Vec::new()), DEFAULT_LINE);
}

#[test]
fn ties_go_to_the_earliest_candidate() {
    let samples = vec![
        ProbeSample { line: UploadLine::Qn, latency_ms: Some(30) },
        ProbeSample { line: UploadLine::Bda2, latency_ms: Some(30) },
        ProbeSample { line: UploadLine::Ws, latency_ms: Some(30) },
    ];
    assert_eq!(select_line(&samples), UploadLine::Qn);
}

#[test]
fn explicit_line_skips_probing() {
    let samples = vec![ProbeSample { line: UploadLine::Tx, latency_ms: Some(1) }];
    assert_eq!(choose_line(Some(UploadLine::Bldsa), &samples), UploadLine::Bldsa);
    assert_eq!(choose_line(None, &samples), UploadLine::Tx);
}
