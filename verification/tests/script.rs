use adt::script::statements;

fn lines(text: &[&str]) -> Vec<String> {
    text.iter().map(|l| String::from(*l)).collect()
}

#[test]
fn one_statement_on_each_line() {
    assert_eq!(
        statements(&lines(&["select 1;", "select 2;"])),
        vec!["select 1;", "select 2;"]
    );
}

#[test]
fn statement_over_several_lines() {
    assert_eq!(
        statements(&lines(&["select a,", "  b", "from tbl;", "show tables;"])),
        vec!["select a,\n  b\nfrom tbl;", "show tables;"]
    );
}

#[test]
fn comments_are_passed_over() {
    assert_eq!(
        statements(&lines(&["-- first", "select 1", "-- in between;", "from tbl;", "--last"])),
        vec!["select 1\nfrom tbl;"]
    );
    assert_eq!(statements(&lines(&["-- only", "--comments"])), Vec::<String>::new());
}

#[test]
fn indented_comment_is_no_comment() {
    assert_eq!(statements(&lines(&[" -- x", "select 1;"])), vec![" -- x\nselect 1;"]);
}

#[test]
fn trailing_white_space_is_dropped() {
    assert_eq!(statements(&lines(&["select 1;   ", "select 2 \t", ";"])), vec![
        "select 1;",
        "select 2\n;"
    ]);
}

#[test]
fn last_statement_needs_no_semicolon() {
    assert_eq!(statements(&lines(&["select 1;", "select 2"])), vec!["select 1;", "select 2\n"]);
}

#[test]
fn blank_rest_is_no_statement() {
    assert_eq!(statements(&lines(&["select 1;", "", "   ", ""])), vec!["select 1;"]);
    assert_eq!(statements(&lines(&[])), Vec::<String>::new());
    assert_eq!(statements(&lines(&["", ""])), Vec::<String>::new());
}

#[test]
fn semicolon_inside_a_line_does_not_end_a_statement() {
    assert_eq!(
        statements(&lines(&["select 1; select 2", "from tbl;"])),
        vec!["select 1; select 2\nfrom tbl;"]
    );
}
