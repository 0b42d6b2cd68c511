use tiger::report::builder::{err, fatal, report, tips, untidy, warn};
use tiger::report::{Confidence, ErrorKey, LogReport, PointedMessage, Severity};
use tiger::token::Loc;

fn at(line: u32) -> Loc {
    Loc { file: 0, line, column: 1 }
}

#[test]
fn loc_then_build_has_one_pointer() {
    let r = warn(ErrorKey::UnknownField).msg("unknown").loc(at(3)).build();
    assert_eq!(r.pointers.len(), 1);
    assert_eq!(r.pointers[0].location, at(3));
    assert_eq!(r.pointers[0].length, 1);
    assert!(r.pointers[0].msg.is_none());
    assert_eq!(r.severity, Severity::Warning);
    assert_eq!(r.confidence, Confidence::Reasonable);
    assert_eq!(r.key, ErrorKey::UnknownField);
    assert_eq!(r.msg, "unknown");
    assert!(r.info.is_none());
}

#[test]
fn starting_points_set_severity() {
    assert_eq!(tips(ErrorKey::Validation).msg("m").loc(at(1)).build().severity, Severity::Tips);
    assert_eq!(untidy(ErrorKey::Validation).msg("m").loc(at(1)).build().severity, Severity::Untidy);
    assert_eq!(err(ErrorKey::Validation).msg("m").loc(at(1)).build().severity, Severity::Error);
    assert_eq!(fatal(ErrorKey::Validation).msg("m").loc(at(1)).build().severity, Severity::Fatal);
    assert_eq!(
        report(ErrorKey::Scopes, Severity::Untidy).msg("m").loc(at(1)).build().severity,
        Severity::Untidy
    );
}

#[test]
fn confidence_overrides() {
    assert_eq!(warn(ErrorKey::Scopes).weak().msg("m").loc(at(1)).build().confidence, Confidence::Weak);
    assert_eq!(warn(ErrorKey::Scopes).strong().msg("m").loc(at(1)).build().confidence, Confidence::Strong);
    assert_eq!(
        warn(ErrorKey::Scopes).conf(Confidence::Weak).msg("m").loc(at(1)).build().confidence,
        Confidence::Weak
    );
}

#[test]
fn info_empty_is_none() {
    let r = err(ErrorKey::Structure).msg("m").info("").loc(at(1)).build();
    assert!(r.info.is_none());
    let r = err(ErrorKey::Structure).msg("m").info("more").loc(at(1)).build();
    assert_eq!(r.info.as_deref(), Some("more"));
}

#[test]
fn more_pointers() {
    let r = err(ErrorKey::DuplicateField)
        .msg("dup")
        .loc_msg(at(2), "first")
        .loc(at(5), "second")
        .build();
    assert_eq!(r.pointers.len(), 2);
    assert_eq!(r.pointers[0].msg.as_deref(), Some("first"));
    assert_eq!(r.pointers[1].location, at(5));
    assert_eq!(r.pointers[1].msg.as_deref(), Some("second"));
    let ps = vec![
        PointedMessage { location: at(7), length: 3, msg: None },
        PointedMessage { location: at(8), length: 1, msg: None },
    ];
    let r = err(ErrorKey::DuplicateField).msg("dup").pointers(ps).build();
    assert_eq!(r.pointers.len(), 2);
    assert_eq!(r.pointers[0].length, 3);
}

#[test]
fn push_appends_to_sink() {
    let mut sink: Vec<LogReport> = Vec::new();
    warn(ErrorKey::Scopes).msg("a").loc(at(1)).push(&mut sink);
    err(ErrorKey::Validation).msg("b").loc(at(2)).push(&mut sink);
    assert_eq!(sink.len(), 2);
    assert_eq!(sink[0].msg, "a");
    assert_eq!(sink[1].key, ErrorKey::Validation);
}
