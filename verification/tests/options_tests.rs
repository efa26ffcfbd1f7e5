use kantorovich::options::{parse_metric, parse_sinkhorn_method, str_equal, Metric, SinkhornMethod};

#[test]
fn sinkhorn_method_names() {
    assert_eq!(parse_sinkhorn_method("standard"), Some(SinkhornMethod::Standard));
    assert_eq!(parse_sinkhorn_method("log"), Some(SinkhornMethod::Log));
    assert_eq!(parse_sinkhorn_method("Log"), None);
    assert_eq!(parse_sinkhorn_method("stable"), None);
    assert_eq!(parse_sinkhorn_method(""), None);
}

#[test]
fn metric_names() {
    assert_eq!(parse_metric("sqeuclidean"), Some(Metric::SqEuclidean));
    assert_eq!(parse_metric("euclidean"), Some(Metric::Euclidean));
    assert_eq!(parse_metric("cosine"), Some(Metric::Cosine));
    assert_eq!(parse_metric("manhattan"), None);
    assert_eq!(parse_metric("euclidean "), None);
}

#[test]
fn str_equal_compares_characters() {
    assert!(str_equal("héllo", "héllo"));
    assert!(!str_equal("héllo", "hello"));
    assert!(!str_equal("ab", "abc"));
    assert!(str_equal("", ""));
}
