use oxide::parser::{
    parse_command, parse_command_expr, parse_expr, parse_filelist, parse_input, parse_pipe_expr,
    parse_redirection_expr, parse_redirection_op, parse_redirection_pipe_expr, push_child,
    redirection_op, ParseError, ParseErrorKind, ParseNode, ParseNodeType, RedirectionOp,
};
use oxide::token::{is_filename, is_pipe, is_whitespace, split_input};

fn holder() -> ParseNode {
    ParseNode { entry: ParseNodeType::Expr, children: Some(Vec::new()) }
}

fn entries(node: &ParseNode) -> Vec<&ParseNodeType> {
    node.children.as_ref().unwrap().iter().map(|child| &child.entry).collect()
}

#[test]
fn parse_single_command_with_argument() {
    let tokens = vec!["ls", "."];
    let root = parse_input(&tokens).unwrap();
    assert_eq!(root.entry, ParseNodeType::Expr);
    let children = root.children.as_ref().unwrap();
    assert_eq!(children.len(), 1);
    assert_eq!(children[0].entry, ParseNodeType::CommandExpr);
    let leaves = children[0].children.as_ref().unwrap();
    assert_eq!(leaves.len(), 2);
    assert_eq!(leaves[0].entry, ParseNodeType::Command(String::from("ls")));
    assert_eq!(leaves[1].entry, ParseNodeType::File(String::from(".")));
    assert!(leaves[0].children.is_none());
    assert!(leaves[1].children.is_none());
}

#[test]
fn parse_pipe_nests_the_rest_of_the_line() {
    let tokens = vec!["ls", ".", "|", "sort", ">", "out.txt"];
    let root = parse_input(&tokens).unwrap();
    assert_eq!(entries(&root), vec![&ParseNodeType::CommandExpr, &ParseNodeType::PipeExpr]);
    let pipe_expr = &root.children.as_ref().unwrap()[1];
    assert_eq!(
        entries(pipe_expr),
        vec![&ParseNodeType::Pipe, &ParseNodeType::CommandExpr, &ParseNodeType::RedirectionExpr]
    );
    let redirection = &pipe_expr.children.as_ref().unwrap()[2];
    assert_eq!(
        entries(redirection),
        vec![
            &ParseNodeType::RedirectionOp(RedirectionOp::Output),
            &ParseNodeType::File(String::from("out.txt"))
        ]
    );
}

#[test]
fn parse_is_the_same_each_time() {
    let tokens = vec!["a", "b", "|", "c", "<", "d"];
    let first = parse_input(&tokens).unwrap();
    let second = parse_input(&tokens.clone()).unwrap();
    assert_eq!(format!("{:?}", first), format!("{:?}", second));
    let bad = vec!["a", "|"];
    let first = parse_input(&bad).unwrap_err();
    let second = parse_input(&bad).unwrap_err();
    assert_eq!(format!("{:?}", first), format!("{:?}", second));
}

#[test]
fn parse_rejects_pipe_without_command() {
    let tokens = vec!["ls", "|"];
    let error = parse_input(&tokens).unwrap_err();
    assert_eq!(error.kind, ParseErrorKind::ExpectedCommand);
    assert_eq!(error.token_index, 2);
    assert_eq!(error.message, "reached end of input at token '|' but expected command.");
    assert_eq!(
        error.to_string(),
        "Parse Error at token 2: reached end of input at token '|' but expected command."
    );
}

#[test]
fn parse_rejects_an_empty_line() {
    let tokens: Vec<&str> = Vec::new();
    let error = parse_input(&tokens).unwrap_err();
    assert_eq!(error.kind, ParseErrorKind::ExpectedCommand);
    assert_eq!(error.token_index, 0);
    assert_eq!(error.message, "reached end of input but expected command.");
    assert!(parse_input(&split_input("   \t ")).is_err());
}

#[test]
fn parse_rejects_tokens_after_redirection() {
    let tokens = vec!["ls", ">", "a", ">>", "b"];
    let error = parse_input(&tokens).unwrap_err();
    assert_eq!(error.kind, ParseErrorKind::ExpectedEnd);
    assert_eq!(error.token_index, 3);
    assert_eq!(error.message, "expected end of input after redirection, got '>>'");
    let tokens = vec!["ls", "<", "a", "|", "sort"];
    let error = parse_input(&tokens).unwrap_err();
    assert_eq!(error.kind, ParseErrorKind::ExpectedEnd);
    assert_eq!(error.token_index, 3);
    assert_eq!(error.message, "expected end of input after redirection, got '|'");
}

#[test]
fn any_token_is_a_command() {
    for command in ["|", ">", ">>", "<", "ls"] {
        let tokens = vec![command, "x"];
        let root = parse_input(&tokens).unwrap();
        let leaves = root.children.as_ref().unwrap()[0].children.as_ref().unwrap();
        assert_eq!(leaves[0].entry, ParseNodeType::Command(String::from(command)));
    }
}

#[test]
fn a_redirection_may_have_no_file() {
    let tokens = vec!["ls", ">"];
    let root = parse_input(&tokens).unwrap();
    let redirection = &root.children.as_ref().unwrap()[1];
    assert_eq!(redirection.entry, ParseNodeType::RedirectionExpr);
    assert_eq!(entries(redirection), vec![&ParseNodeType::RedirectionOp(RedirectionOp::Output)]);
}

#[test]
fn is_filename_excludes_the_four_operators_only() {
    for operator in ["|", ">", ">>", "<"] {
        assert!(!is_filename(operator));
    }
    for token in ["ls", "cd", "exit", "clear", "", "||", ">>>", "<<", "|>", "a|", ">a", "-", "é", "."] {
        assert!(is_filename(token), "token: {}", token);
    }
    assert!(is_pipe("|"));
    assert!(!is_pipe("||"));
    assert!(!is_pipe(""));
    assert!(!is_pipe(">"));
}

#[test]
fn redirection_operators_are_recognised() {
    assert_eq!(redirection_op(">"), Some(RedirectionOp::Output));
    assert_eq!(redirection_op(">>"), Some(RedirectionOp::Append));
    assert_eq!(redirection_op("<"), Some(RedirectionOp::Input));
    for token in ["|", "", ">>>", "<<", "><", "a", "é"] {
        assert_eq!(redirection_op(token), None);
    }
}

#[test]
fn parse_command_takes_one_token() {
    let tokens = vec!["ls", "-l"];
    let mut index = 0;
    let mut node = holder();
    assert!(parse_command(&tokens, &mut index, &mut node).is_ok());
    assert_eq!(index, 1);
    assert_eq!(entries(&node), vec![&ParseNodeType::Command(String::from("ls"))]);
    let mut index = 2;
    let error = parse_command(&tokens, &mut index, &mut node).unwrap_err();
    assert_eq!(error.kind, ParseErrorKind::ExpectedCommand);
    assert_eq!(error.token_index, 2);
    assert_eq!(error.message, "reached end of input at token '-l' but expected command.");
    assert_eq!(index, 2);
    assert_eq!(node.children.as_ref().unwrap().len(), 1);
}

#[test]
fn parse_filelist_is_greedy_and_stops_at_an_operator() {
    let tokens = vec!["a", "b", "c", ">", "d"];
    let mut index = 1;
    let mut node = holder();
    assert!(parse_filelist(&tokens, &mut index, &mut node).is_ok());
    assert_eq!(index, 3);
    assert_eq!(
        entries(&node),
        vec![&ParseNodeType::File(String::from("b")), &ParseNodeType::File(String::from("c"))]
    );
    assert!(parse_filelist(&tokens, &mut index, &mut node).is_ok());
    assert_eq!(index, 3);
    assert_eq!(node.children.as_ref().unwrap().len(), 2);
    let mut index = 4;
    assert!(parse_filelist(&tokens, &mut index, &mut node).is_ok());
    assert_eq!(index, 5);
    assert!(parse_filelist(&tokens, &mut index, &mut node).is_ok());
    assert_eq!(index, 5);
}

#[test]
fn parse_redirection_op_rejects_other_tokens() {
    let tokens = vec!["ls", ">>", "|"];
    let mut node = holder();
    let mut index = 1;
    assert!(parse_redirection_op(&tokens, &mut index, &mut node).is_ok());
    assert_eq!(index, 2);
    assert_eq!(entries(&node), vec![&ParseNodeType::RedirectionOp(RedirectionOp::Append)]);
    let error = parse_redirection_op(&tokens, &mut index, &mut node).unwrap_err();
    assert_eq!(error.kind, ParseErrorKind::ExpectedRedirectionOp);
    assert_eq!(error.token_index, 2);
    assert_eq!(error.message, "expected redirection operator, got '|'");
    assert_eq!(index, 2);
    let mut index = 0;
    let error = parse_redirection_expr(&tokens, &mut index, &mut node).unwrap_err();
    assert_eq!(error.message, "expected redirection operator, got 'ls'");
    assert_eq!(error.to_string(), "Parse Error at token 0: expected redirection operator, got 'ls'");
    assert_eq!(node.children.as_ref().unwrap().len(), 1);
}

#[test]
fn parse_redirection_expr_reads_operator_and_files() {
    let tokens = vec!["<", "a", "b"];
    let mut node = holder();
    let mut index = 0;
    assert!(parse_redirection_expr(&tokens, &mut index, &mut node).is_ok());
    assert_eq!(index, 3);
    let redirection = &node.children.as_ref().unwrap()[0];
    assert_eq!(redirection.entry, ParseNodeType::RedirectionExpr);
    assert_eq!(
        entries(redirection),
        vec![
            &ParseNodeType::RedirectionOp(RedirectionOp::Input),
            &ParseNodeType::File(String::from("a")),
            &ParseNodeType::File(String::from("b"))
        ]
    );
    assert!(parse_redirection_expr(&tokens, &mut index, &mut node).is_ok());
    assert_eq!(node.children.as_ref().unwrap().len(), 1);
}

#[test]
fn parse_pipe_expr_wants_a_pipe() {
    let tokens = vec!["a", "|", "b"];
    let mut node = holder();
    let mut index = 0;
    let error = parse_pipe_expr(&tokens, &mut index, &mut node).unwrap_err();
    assert_eq!(error.kind, ParseErrorKind::ExpectedPipe);
    assert_eq!(error.token_index, 0);
    assert_eq!(error.message, "Expected '|' to continue piping. Got 'a' instead.");
    assert!(node.children.as_ref().unwrap().is_empty());
    let mut index = 1;
    assert!(parse_pipe_expr(&tokens, &mut index, &mut node).is_ok());
    assert_eq!(index, 3);
    assert_eq!(entries(&node), vec![&ParseNodeType::PipeExpr]);
    assert!(parse_pipe_expr(&tokens, &mut index, &mut node).is_ok());
    assert_eq!(index, 3);
    assert_eq!(node.children.as_ref().unwrap().len(), 1);
}

#[test]
fn parse_command_expr_and_what_follows() {
    let tokens = vec!["a", "x", ">", "f"];
    let mut node = holder();
    let mut index = 0;
    assert!(parse_command_expr(&tokens, &mut index, &mut node).is_ok());
    assert_eq!(index, 2);
    assert!(parse_redirection_pipe_expr(&tokens, &mut index, &mut node).is_ok());
    assert_eq!(index, 4);
    assert_eq!(entries(&node), vec![&ParseNodeType::CommandExpr, &ParseNodeType::RedirectionExpr]);
    let mut index = 1;
    let error = parse_redirection_pipe_expr(&tokens, &mut index, &mut node).unwrap_err();
    assert_eq!(error.kind, ParseErrorKind::ExpectedRedirectionOp);
    assert_eq!(error.token_index, 1);
    assert_eq!(node.children.as_ref().unwrap().len(), 2);
    let mut index = 2;
    let root = parse_expr(&tokens, &mut index).unwrap();
    assert_eq!(index, 4);
    assert_eq!(entries(&root), vec![&ParseNodeType::CommandExpr]);
    let error = parse_expr(&tokens, &mut index).unwrap_err();
    assert_eq!(error.kind, ParseErrorKind::ExpectedCommand);
    assert_eq!(index, 4);
}

#[test]
fn push_child_appends() {
    let mut node = holder();
    push_child(&mut node, ParseNode { entry: ParseNodeType::Pipe, children: None });
    push_child(&mut node, ParseNode { entry: ParseNodeType::CommandExpr, children: None });
    assert_eq!(entries(&node), vec![&ParseNodeType::Pipe, &ParseNodeType::CommandExpr]);
}

#[test]
fn a_parse_error_can_be_copied() {
    let error = ParseError {
        kind: ParseErrorKind::ExpectedPipe,
        message: String::from("m"),
        token_index: 1203,
    };
    let copy = error.clone();
    assert_eq!(copy.kind, error.kind);
    assert_eq!(copy.message, "m");
    assert_eq!(copy.to_string(), "Parse Error at token 1203: m");
    let zero = ParseError { token_index: 0, ..copy };
    assert_eq!(zero.to_string(), "Parse Error at token 0: m");
}

#[test]
fn tokens_are_the_runs_between_whitespace() {
    assert_eq!(split_input(""), Vec::<&str>::new());
    assert_eq!(split_input(" \t\n"), Vec::<&str>::new());
    assert_eq!(split_input("  ls\t-l \u{a0}é\u{3000}x  "), vec!["ls", "-l", "é", "x"]);
    assert_eq!(split_input("a|b > c"), vec!["a|b", ">", "c"]);
    let line = "x\u{2003}y\u{200b}z\u{85}w";
    let expected: Vec<&str> = line.split_whitespace().collect();
    assert_eq!(split_input(line), expected);
}

#[test]
fn whitespace_is_what_std_calls_whitespace() {
    let mut code: u32 = 0;
    while code <= 0x3100 {
        if let Some(c) = char::from_u32(code) {
            assert_eq!(is_whitespace(c), c.is_whitespace(), "code: {:x}", code);
        }
        code += 1;
    }
    assert!(!is_whitespace('\u{feff}'));
    assert!(!is_whitespace('\u{10ffff}'));
}
