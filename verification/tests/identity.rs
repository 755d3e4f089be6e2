use srvcs_exponent::{index, CONCERN, FLOATPOWER, SERVICE};

#[test]
fn index_reports_all_dependencies() {
    let info = index();
    assert_eq!(info.service, "srvcs-exponent");
    assert_eq!(info.concern, "arithmetic: base raised to exp (real)");
    assert_eq!(info.depends_on, vec!["srvcs-floatpower"]);
}

#[test]
fn index_reports_identity() {
    let info = index();
    assert_eq!(info.service, "srvcs-exponent");
    assert_eq!(info.concern, "arithmetic: base raised to exp (real)");
    assert_eq!(info.depends_on, vec!["srvcs-floatpower"]);
    assert_eq!((SERVICE, CONCERN, FLOATPOWER), (info.service, info.concern, info.depends_on[0]));
}
