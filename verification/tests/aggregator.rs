use ludtwig::output::{
    bytes_eq, exit_code, group_messages, summarize, Output, OutputMessage,
};

fn b(s: &str) -> Vec<u8> {
    s.as_bytes().to_vec()
}

fn msg(file: &str, output: Output) -> OutputMessage {
    OutputMessage { file: b(file), output }
}

#[test]
fn test_tally_three_files_one_error_one_warning() {
    let messages = vec![
        msg("a.twig", Output::Nothing),
        msg("b.twig", Output::Error(b("broken"))),
        msg("c.twig", Output::Warning(b("odd"))),
    ];
    let (files, errors, warnings) = summarize(&messages);
    assert_eq!(files, 3);
    assert_eq!(errors, 1);
    assert_eq!(warnings, 1);
    assert_ne!(exit_code(files, errors, warnings), 0);
}

#[test]
fn test_tally_counts_each_file_once() {
    let messages = vec![
        msg("a.twig", Output::Nothing),
        msg("a.twig", Output::Error(b("one"))),
        msg("a.twig", Output::Error(b("two"))),
    ];
    let (files, errors, warnings) = summarize(&messages);
    assert_eq!(files, 1);
    assert_eq!(errors, 2);
    assert_eq!(warnings, 0);
}

#[test]
fn test_group_keeps_first_seen_order_and_drops_quiet_events() {
    let messages = vec![
        msg("a.twig", Output::Nothing),
        msg("b.twig", Output::Error(b("e1"))),
        msg("a.twig", Output::Warning(b("w1"))),
        msg("b.twig", Output::Nothing),
    ];
    let reports = group_messages(messages);
    assert_eq!(reports.len(), 2);
    assert_eq!(reports[0].file, b("a.twig"));
    assert_eq!(reports[0].outputs, vec![Output::Warning(b("w1"))]);
    assert_eq!(reports[1].file, b("b.twig"));
    assert_eq!(reports[1].outputs, vec![Output::Error(b("e1"))]);
}

#[test]
fn test_group_counts_quiet_file_as_scanned() {
    let messages = vec![msg("quiet.twig", Output::Nothing)];
    let reports = group_messages(messages);
    assert_eq!(reports.len(), 1);
    assert_eq!(reports[0].file, b("quiet.twig"));
    assert!(reports[0].outputs.is_empty());
}

#[test]
fn test_exit_code_zero_when_clean() {
    assert_eq!(exit_code(5, 0, 0), 0);
}

#[test]
fn test_exit_code_zero_when_nothing_scanned() {
    assert_eq!(exit_code(0, 0, 0), 0);
    // issues without a scanned file do not fail the run either
    assert_eq!(exit_code(0, 1, 1), 0);
}

#[test]
fn test_exit_code_one_on_warning_only() {
    assert_eq!(exit_code(1, 0, 1), 1);
}

#[test]
fn test_bytes_eq_compares_contents() {
    assert!(bytes_eq(&b("abc"), &b("abc")));
    assert!(!bytes_eq(&b("abc"), &b("abd")));
    assert!(!bytes_eq(&b("abc"), &b("ab")));
}
