//! Recursive-descent parser from a token sequence to a syntax tree.
//!
//! The grammar, with `ε` for the empty production:
//!
//! ```text
//! Expr            := CommandExpr ( PipeExpr | RedirectionExpr )?
//! CommandExpr     := Command FileList
//! PipeExpr        := '|' CommandExpr ( PipeExpr | RedirectionExpr )?
//! RedirectionExpr := RedirectionOp FileList
//! FileList        := ( File FileList ) | ε
//! Command         := any token
//! RedirectionOp   := '>' | '>>' | '<'
//! File            := any token that is not '|', '>', '>>' or '<'
//! ```
//!
//! A file list is greedy, so the token after one is an operator or the end of
//! the input. A redirection closes the line: whatever follows it is an error.

use vstd::prelude::*;
use crate::text::{decimal, decimal_string, join3};
use crate::token::{
    append_symbol, input_symbol, is_filename, is_filename_spec, is_pipe, output_symbol,
    pipe_symbol,
};

verus! {

/// How a redirection treats its target files.
#[derive(Clone, Copy, Debug, PartialEq, Eq, Structural)]
pub enum RedirectionOp {
    /// Truncate the target, then write.
    Output,
    /// Write at the end of the target.
    Append,
    /// Read the target and feed it to the command.
    Input,
}

/// Why a token sequence was rejected.
#[derive(Clone, Copy, Debug, PartialEq, Eq, Structural)]
pub enum ParseErrorKind {
    /// The input ended where a command was required.
    ExpectedCommand,
    /// A token stood where a redirection operator was required.
    ExpectedRedirectionOp,
    /// A token other than the pipe stood where a pipe was required.
    ExpectedPipe,
    /// A token followed a redirection, which closes the line.
    ExpectedEnd,
}

/// A rejected parse: what was wrong, in words, and at which token.
#[derive(Debug)]
pub struct ParseError {
    pub kind: ParseErrorKind,
    pub message: String,
    pub token_index: usize,
}

/// The mathematical value of a [`ParseError`].
pub struct ParseFailure {
    pub kind: ParseErrorKind,
    pub message: Seq<char>,
    pub token_index: int,
}

impl View for ParseError {
    type V = ParseFailure;

    open spec fn view(&self) -> ParseFailure {
        ParseFailure {
            kind: self.kind,
            message: self.message@,
            token_index: self.token_index as int,
        }
    }
}

/// How a failure is shown to the user.
pub open spec fn failure_text(failure: ParseFailure) -> Seq<char> {
    "Parse Error at token "@ + decimal(failure.token_index as nat) + ": "@ + failure.message
}

impl ParseError {
    /// The error as the shell prints it: the index of the token, then the
    /// message.
    pub fn to_string(&self) -> (res: String)
        ensures
            res@ == failure_text(self@),
    {
        let index = decimal_string(self.token_index);
        let mut res = join3("Parse Error at token ", index.as_str(), ": ");
        res.append(self.message.as_str());
        res
    }
}

impl Clone for ParseError {
    fn clone(&self) -> (res: ParseError)
        ensures
            res@ == self@,
    {
        ParseError {
            kind: self.kind,
            message: self.message.clone(),
            token_index: self.token_index,
        }
    }
}

/// The tag of a syntax tree node.
#[derive(Debug, PartialEq)]
pub enum ParseNodeType {
    Expr,
    CommandExpr,
    RedirectionPipeExpr,
    PipeExpr,
    RedirectionExpr,
    Command(String),
    File(String),
    RedirectionOp(RedirectionOp),
    Pipe,
}

/// A syntax tree: a tag and, for inner nodes, the ordered children.
#[derive(Debug)]
pub struct ParseNode {
    pub entry: ParseNodeType,
    pub children: Option<Vec<ParseNode>>,
}

/// The mathematical value of a [`ParseNodeType`].
pub enum NodeKind {
    Expr,
    CommandExpr,
    RedirectionPipeExpr,
    PipeExpr,
    RedirectionExpr,
    Command(Seq<char>),
    File(Seq<char>),
    RedirectionOp(RedirectionOp),
    Pipe,
}

/// The mathematical value of a [`ParseNode`].
pub struct Tree {
    pub entry: NodeKind,
    pub children: Option<Seq<Tree>>,
}

impl View for ParseNodeType {
    type V = NodeKind;

    open spec fn view(&self) -> NodeKind {
        match self {
            ParseNodeType::Expr => NodeKind::Expr,
            ParseNodeType::CommandExpr => NodeKind::CommandExpr,
            ParseNodeType::RedirectionPipeExpr => NodeKind::RedirectionPipeExpr,
            ParseNodeType::PipeExpr => NodeKind::PipeExpr,
            ParseNodeType::RedirectionExpr => NodeKind::RedirectionExpr,
            ParseNodeType::Command(name) => NodeKind::Command(name@),
            ParseNodeType::File(name) => NodeKind::File(name@),
            ParseNodeType::RedirectionOp(op) => NodeKind::RedirectionOp(*op),
            ParseNodeType::Pipe => NodeKind::Pipe,
        }
    }
}

/// The tree that a node stands for.
pub open spec fn tree_of(node: ParseNode) -> Tree
    decreases node,
{
    Tree {
        entry: node.entry@,
        children: match node.children {
            Some(nodes) => Some(
                Seq::new(
                    nodes@.len(),
                    |i: int|
                        if 0 <= i < nodes@.len() {
                            tree_of(nodes@[i])
                        } else {
                            arbitrary()
                        },
                ),
            ),
            None => None,
        },
    }
}

impl View for ParseNode {
    type V = Tree;

    open spec fn view(&self) -> Tree {
        tree_of(*self)
    }
}

/// The views of a list of nodes, in order.
pub open spec fn forest(nodes: Seq<ParseNode>) -> Seq<Tree> {
    Seq::new(nodes.len(), |i: int| nodes[i]@)
}

/// What `children` of a node's view is, in terms of the node's own children.
pub proof fn lemma_view_children(node: ParseNode)
    ensures
        node@.entry == node.entry@,
        node.children is None ==> node@.children is None,
        node.children is Some ==> node@.children == Some(forest(node.children->0@)),
{
    if node.children is Some {
        assert(node@.children->0 =~= forest(node.children->0@));
    }
}

/// A node without children.
pub open spec fn leaf(entry: NodeKind) -> Tree {
    Tree { entry, children: None }
}

/// An inner node.
pub open spec fn branch(entry: NodeKind, children: Seq<Tree>) -> Tree {
    Tree { entry, children: Some(children) }
}

/// The operator that a token spells, if it spells one.
pub open spec fn redirection_op_of(token: Seq<char>) -> Option<RedirectionOp> {
    if token == output_symbol() {
        Some(RedirectionOp::Output)
    } else if token == append_symbol() {
        Some(RedirectionOp::Append)
    } else if token == input_symbol() {
        Some(RedirectionOp::Input)
    } else {
        None
    }
}

/// The failure for an input that ends where a command must stand. It names
/// the last token where there is one.
pub open spec fn expected_command(tokens: Seq<Seq<char>>) -> ParseFailure {
    ParseFailure {
        kind: ParseErrorKind::ExpectedCommand,
        message: if tokens.len() == 0 {
            "reached end of input but expected command."@
        } else {
            "reached end of input at token '"@ + tokens.last() + "' but expected command."@
        },
        token_index: tokens.len() as int,
    }
}

/// The failure for the token at `at` standing in place of a redirection
/// operator.
pub open spec fn expected_redirection_op(tokens: Seq<Seq<char>>, at: int) -> ParseFailure {
    ParseFailure {
        kind: ParseErrorKind::ExpectedRedirectionOp,
        message: "expected redirection operator, got '"@ + tokens[at] + "'"@,
        token_index: at,
    }
}

/// The failure for the token at `at` standing in place of a pipe.
pub open spec fn expected_pipe(tokens: Seq<Seq<char>>, at: int) -> ParseFailure {
    ParseFailure {
        kind: ParseErrorKind::ExpectedPipe,
        message: "Expected '|' to continue piping. Got '"@ + tokens[at] + "' instead."@,
        token_index: at,
    }
}

/// The failure for the token at `at` following a redirection.
pub open spec fn expected_end(tokens: Seq<Seq<char>>, at: int) -> ParseFailure {
    ParseFailure {
        kind: ParseErrorKind::ExpectedEnd,
        message: "expected end of input after redirection, got '"@ + tokens[at] + "'"@,
        token_index: at,
    }
}

/// Where the longest run of file names that begins at `start` ends: the
/// index of the first token from `start` on that is an operator, or the
/// length of the input.
pub open spec fn file_run_end(tokens: Seq<Seq<char>>, start: int) -> int
    decreases tokens.len() - start,
{
    if 0 <= start < tokens.len() && is_filename_spec(tokens[start]) {
        file_run_end(tokens, start + 1)
    } else {
        start
    }
}

/// A file run ends no earlier than it starts and within the input, holds
/// file names only, and stops at an operator.
pub proof fn lemma_file_run_end(tokens: Seq<Seq<char>>, start: int)
    requires
        0 <= start <= tokens.len(),
    ensures
        start <= file_run_end(tokens, start) <= tokens.len(),
        forall|j: int|
            start <= j < file_run_end(tokens, start) ==> is_filename_spec(#[trigger] tokens[j]),
        file_run_end(tokens, start) < tokens.len() ==> !is_filename_spec(
            tokens[file_run_end(tokens, start)],
        ),
    decreases tokens.len() - start,
{
    if start < tokens.len() && is_filename_spec(tokens[start]) {
        lemma_file_run_end(tokens, start + 1);
    }
}

/// One `File` leaf for each token in `start..end`.
pub open spec fn file_leaves(tokens: Seq<Seq<char>>, start: int, end: int) -> Seq<Tree> {
    Seq::new((end - start) as nat, |i: int| leaf(NodeKind::File(tokens[start + i])))
}

/// The command expression whose command is the token at `at`: the command,
/// then the file run behind it.
pub open spec fn command_expr(tokens: Seq<Seq<char>>, at: int) -> Tree {
    branch(
        NodeKind::CommandExpr,
        seq![leaf(NodeKind::Command(tokens[at]))] + file_leaves(
            tokens,
            at + 1,
            file_run_end(tokens, at + 1),
        ),
    )
}

/// The redirection expression whose operator `op` is the token at `at`: the
/// operator, then the file run behind it.
pub open spec fn redirection_expr(tokens: Seq<Seq<char>>, at: int, op: RedirectionOp) -> Tree {
    branch(
        NodeKind::RedirectionExpr,
        seq![leaf(NodeKind::RedirectionOp(op))] + file_leaves(
            tokens,
            at + 1,
            file_run_end(tokens, at + 1),
        ),
    )
}

/// What may follow a command expression, read from the token at `at`: the
/// nodes that join the parent's children. Nothing at the end of the input; a
/// pipe expression, which holds the rest of the line, at a pipe; else a
/// redirection expression, after which the input must end.
pub open spec fn parse_tail(tokens: Seq<Seq<char>>, at: int) -> Result<Seq<Tree>, ParseFailure>
    decreases tokens.len() - at,
{
    if at < 0 || at >= tokens.len() {
        Ok(Seq::empty())
    } else if tokens[at] == pipe_symbol() {
        if at + 1 >= tokens.len() {
            Err(expected_command(tokens))
        } else {
            proof {
                lemma_file_run_end(tokens, at + 2);
            }
            match parse_tail(tokens, file_run_end(tokens, at + 2)) {
                Ok(rest) => Ok(
                    seq![
                        branch(
                            NodeKind::PipeExpr,
                            seq![leaf(NodeKind::Pipe), command_expr(tokens, at + 1)] + rest,
                        ),
                    ],
                ),
                Err(failure) => Err(failure),
            }
        }
    } else {
        match redirection_op_of(tokens[at]) {
            None => Err(expected_redirection_op(tokens, at)),
            Some(op) => {
                let end = file_run_end(tokens, at + 1);
                if end >= tokens.len() {
                    Ok(seq![redirection_expr(tokens, at, op)])
                } else {
                    Err(expected_end(tokens, end))
                }
            },
        }
    }
}

/// The expression that starts at the token at `at`: a command expression and
/// what follows it.
pub open spec fn parse_expr_spec(tokens: Seq<Seq<char>>, at: int) -> Result<Tree, ParseFailure> {
    if at >= tokens.len() {
        Err(expected_command(tokens))
    } else {
        match parse_tail(tokens, file_run_end(tokens, at + 1)) {
            Ok(rest) => Ok(branch(NodeKind::Expr, seq![command_expr(tokens, at)] + rest)),
            Err(failure) => Err(failure),
        }
    }
}

/// The syntax tree of a whole line, or why it has none.
pub open spec fn parse_spec(tokens: Seq<Seq<char>>) -> Result<Tree, ParseFailure> {
    parse_expr_spec(tokens, 0)
}

/// Appends `child` to the children of `tree_node`.
pub fn push_child(tree_node: &mut ParseNode, child: ParseNode)
    requires
        old(tree_node).children is Some,
    ensures
        final(tree_node).entry == old(tree_node).entry,
        final(tree_node).children is Some,
        final(tree_node).children->0@ == old(tree_node).children->0@.push(child),
        final(tree_node)@ == branch(
            old(tree_node)@.entry,
            old(tree_node)@.children->0.push(child@),
        ),
{
    proof {
        lemma_view_children(*tree_node);
    }
    match &mut tree_node.children {
        Some(nodes) => {
            nodes.push(child);
        },
        None => {},
    }
    proof {
        lemma_view_children(*tree_node);
        assert(forest(tree_node.children->0@) =~= forest(old(tree_node).children->0@).push(
            child@,
        ));
    }
}

/// The view of what a parser returns.
pub open spec fn outcome<T: View>(res: Result<T, ParseError>) -> Result<T::V, ParseFailure> {
    match res {
        Ok(value) => Ok(value@),
        Err(error) => Err(error@),
    }
}

/// A fresh inner node without children yet.
fn empty_node(entry: ParseNodeType) -> (node: ParseNode)
    ensures
        node.entry == entry,
        node@ == branch(entry@, Seq::empty()),
{
    let node = ParseNode { entry, children: Some(Vec::new()) };
    proof {
        lemma_view_children(node);
        assert(forest(node.children->0@) =~= Seq::<Tree>::empty());
    }
    node
}

/// Parses a whole line.
pub fn parse_input(input_tokens: &Vec<&str>) -> (res: Result<ParseNode, ParseError>)
    ensures
        outcome(res) == parse_spec(input_tokens.deep_view()),
{
    let mut input_index: usize = 0;
    parse_expr(input_tokens, &mut input_index)
}

/// Parses the expression that starts at `*input_index`. Afterwards the index
/// is the length of the input, or the index that the error reports.
pub fn parse_expr(input_tokens: &Vec<&str>, input_index: &mut usize) -> (res: Result<
    ParseNode,
    ParseError,
>)
    requires
        *old(input_index) <= input_tokens.len(),
    ensures
        outcome(res) == parse_expr_spec(input_tokens.deep_view(), *old(input_index) as int),
        res is Ok ==> *final(input_index) == input_tokens.len(),
        res matches Err(error) ==> *final(input_index) == error.token_index,
{
    let ghost tokens = input_tokens.deep_view();
    let mut parse_tree = empty_node(ParseNodeType::Expr);
    match parse_command_expr(input_tokens, input_index, &mut parse_tree) {
        Ok(()) => {},
        Err(error) => {
            return Err(error);
        },
    }
    proof {
        lemma_file_run_end(tokens, *old(input_index) + 1);
    }
    match parse_redirection_pipe_expr(input_tokens, input_index, &mut parse_tree) {
        Ok(()) => {},
        Err(error) => {
            return Err(error);
        },
    }
    proof {
        let first = command_expr(tokens, *old(input_index) as int);
        let rest = parse_tail(tokens, file_run_end(tokens, *old(input_index) + 1))->Ok_0;
        assert(Seq::<Tree>::empty().push(first) + rest =~= seq![first] + rest);
    }
    Ok(parse_tree)
}

/// Parses a command and its file list into one `CommandExpr` child of
/// `tree_node`. At the end of the input it fails and changes nothing.
pub fn parse_command_expr(
    input_tokens: &Vec<&str>,
    input_index: &mut usize,
    tree_node: &mut ParseNode,
) -> (res: Result<(), ParseError>)
    requires
        *old(input_index) <= input_tokens.len(),
        old(tree_node)@.children is Some,
    ensures
        *old(input_index) == input_tokens.len() ==> {
            &&& res matches Err(error)
            &&& error@ == expected_command(input_tokens.deep_view())
            &&& *final(input_index) == *old(input_index)
            &&& *final(tree_node) == *old(tree_node)
        },
        *old(input_index) < input_tokens.len() ==> {
            &&& res is Ok
            &&& *final(input_index) == file_run_end(
                input_tokens.deep_view(),
                *old(input_index) + 1,
            )
            &&& final(tree_node)@ == branch(
                old(tree_node)@.entry,
                old(tree_node)@.children->0.push(
                    command_expr(input_tokens.deep_view(), *old(input_index) as int),
                ),
            )
        },
{
    let ghost tokens = input_tokens.deep_view();
    let mut command_expr_node = empty_node(ParseNodeType::CommandExpr);
    match parse_command(input_tokens, input_index, &mut command_expr_node) {
        Ok(()) => {},
        Err(error) => {
            return Err(error);
        },
    }
    match parse_filelist(input_tokens, input_index, &mut command_expr_node) {
        Ok(()) => {},
        Err(error) => {
            return Err(error);
        },
    }
    proof {
        let at = *old(input_index) as int;
        assert(Seq::<Tree>::empty().push(leaf(NodeKind::Command(tokens[at]))) + file_leaves(
            tokens,
            at + 1,
            file_run_end(tokens, at + 1),
        ) =~= seq![leaf(NodeKind::Command(tokens[at]))] + file_leaves(
            tokens,
            at + 1,
            file_run_end(tokens, at + 1),
        ));
    }
    push_child(tree_node, command_expr_node);
    Ok(())
}

/// Parses what may follow a command expression: nothing at the end of the
/// input, a pipe expression at a pipe, else a redirection expression that
/// must close the line. On failure `tree_node` is unchanged.
pub fn parse_redirection_pipe_expr(
    input_tokens: &Vec<&str>,
    input_index: &mut usize,
    tree_node: &mut ParseNode,
) -> (res: Result<(), ParseError>)
    requires
        *old(input_index) <= input_tokens.len(),
        old(tree_node)@.children is Some,
    ensures
        match parse_tail(input_tokens.deep_view(), *old(input_index) as int) {
            Ok(nodes) => {
                &&& res is Ok
                &&& *final(input_index) == input_tokens.len()
                &&& final(tree_node)@ == branch(
                    old(tree_node)@.entry,
                    old(tree_node)@.children->0 + nodes,
                )
            },
            Err(failure) => {
                &&& res matches Err(error)
                &&& error@ == failure
                &&& *final(input_index) == failure.token_index
                &&& *final(tree_node) == *old(tree_node)
            },
        },
    decreases input_tokens.len() - *old(input_index),
{
    let ghost tokens = input_tokens.deep_view();
    let ghost at = *input_index as int;
    if *input_index == input_tokens.len() {
        proof {
            assert(tree_node@.children->0 + Seq::<Tree>::empty() =~= tree_node@.children->0);
        }
        return Ok(());
    }
    if is_pipe(input_tokens[*input_index]) {
        return parse_pipe_expr(input_tokens, input_index, tree_node);
    }
    let redirection_expr_node = match read_redirection_expr(input_tokens, input_index) {
        Ok(node) => node,
        Err(error) => {
            return Err(error);
        },
    };
    proof {
        lemma_file_run_end(tokens, at + 1);
    }
    if *input_index < input_tokens.len() {
        let message = join3(
            "expected end of input after redirection, got '",
            input_tokens[*input_index],
            "'",
        );
        return Err(
            ParseError { kind: ParseErrorKind::ExpectedEnd, message, token_index: *input_index },
        );
    }
    proof {
        assert(tree_node@.children->0.push(redirection_expr_node@) =~= tree_node@.children->0
            + seq![redirection_expr_node@]);
    }
    push_child(tree_node, redirection_expr_node);
    Ok(())
}

/// Parses a pipe and the rest of the line behind it into one `PipeExpr`
/// child of `tree_node`. At the end of the input it does nothing; at any
/// other token than a pipe it fails. On failure `tree_node` is unchanged.
pub fn parse_pipe_expr(
    input_tokens: &Vec<&str>,
    input_index: &mut usize,
    tree_node: &mut ParseNode,
) -> (res: Result<(), ParseError>)
    requires
        *old(input_index) <= input_tokens.len(),
        old(tree_node)@.children is Some,
    ensures
        *old(input_index) == input_tokens.len() ==> {
            &&& res is Ok
            &&& *final(input_index) == *old(input_index)
            &&& *final(tree_node) == *old(tree_node)
        },
        *old(input_index) < input_tokens.len() && input_tokens.deep_view()[*old(input_index) as int]
            != pipe_symbol() ==> {
            &&& res matches Err(error)
            &&& error@ == expected_pipe(input_tokens.deep_view(), *old(input_index) as int)
            &&& *final(input_index) == *old(input_index)
            &&& *final(tree_node) == *old(tree_node)
        },
        *old(input_index) < input_tokens.len() && input_tokens.deep_view()[*old(input_index) as int]
            == pipe_symbol() ==> match parse_tail(
            input_tokens.deep_view(),
            *old(input_index) as int,
        ) {
            Ok(nodes) => {
                &&& res is Ok
                &&& *final(input_index) == input_tokens.len()
                &&& final(tree_node)@ == branch(
                    old(tree_node)@.entry,
                    old(tree_node)@.children->0 + nodes,
                )
            },
            Err(failure) => {
                &&& res matches Err(error)
                &&& error@ == failure
                &&& *final(input_index) == failure.token_index
                &&& *final(tree_node) == *old(tree_node)
            },
        },
    decreases input_tokens.len() - *old(input_index), 0nat,
{
    let ghost tokens = input_tokens.deep_view();
    let ghost at = *input_index as int;
    if *input_index == input_tokens.len() {
        return Ok(());
    }
    let token = input_tokens[*input_index];
    if !is_pipe(token) {
        let message = join3("Expected '|' to continue piping. Got '", token, "' instead.");
        return Err(
            ParseError { kind: ParseErrorKind::ExpectedPipe, message, token_index: *input_index },
        );
    }
    let mut pipe_expr_node = empty_node(ParseNodeType::PipeExpr);
    let pipe_node = ParseNode { entry: ParseNodeType::Pipe, children: None };
    push_child(&mut pipe_expr_node, pipe_node);
    *input_index += 1;
    match parse_command_expr(input_tokens, input_index, &mut pipe_expr_node) {
        Ok(()) => {},
        Err(error) => {
            return Err(error);
        },
    }
    proof {
        lemma_file_run_end(tokens, at + 2);
    }
    match parse_redirection_pipe_expr(input_tokens, input_index, &mut pipe_expr_node) {
        Ok(()) => {},
        Err(error) => {
            return Err(error);
        },
    }
    proof {
        let rest = parse_tail(tokens, file_run_end(tokens, at + 2))->Ok_0;
        let inner = seq![leaf(NodeKind::Pipe), command_expr(tokens, at + 1)] + rest;
        assert(Seq::<Tree>::empty().push(leaf(NodeKind::Pipe)).push(command_expr(tokens, at + 1))
            + rest =~= inner);
        assert(tree_node@.children->0.push(branch(NodeKind::PipeExpr, inner))
            =~= tree_node@.children->0 + seq![branch(NodeKind::PipeExpr, inner)]);
    }
    push_child(tree_node, pipe_expr_node);
    Ok(())
}

/// Parses a redirection operator and its file list into one
/// `RedirectionExpr` child of `tree_node`. At the end of the input it does
/// nothing; at a token that is no operator it fails and changes nothing.
pub fn parse_redirection_expr(
    input_tokens: &Vec<&str>,
    input_index: &mut usize,
    tree_node: &mut ParseNode,
) -> (res: Result<(), ParseError>)
    requires
        *old(input_index) <= input_tokens.len(),
        old(tree_node)@.children is Some,
    ensures
        *old(input_index) == input_tokens.len() ==> {
            &&& res is Ok
            &&& *final(input_index) == *old(input_index)
            &&& *final(tree_node) == *old(tree_node)
        },
        *old(input_index) < input_tokens.len() ==> match redirection_op_of(
            input_tokens.deep_view()[*old(input_index) as int],
        ) {
            Some(op) => {
                &&& res is Ok
                &&& *final(input_index) == file_run_end(
                    input_tokens.deep_view(),
                    *old(input_index) + 1,
                )
                &&& final(tree_node)@ == branch(
                    old(tree_node)@.entry,
                    old(tree_node)@.children->0.push(
                        redirection_expr(input_tokens.deep_view(), *old(input_index) as int, op),
                    ),
                )
            },
            None => {
                &&& res matches Err(error)
                &&& error@ == expected_redirection_op(
                    input_tokens.deep_view(),
                    *old(input_index) as int,
                )
                &&& *final(input_index) == *old(input_index)
                &&& *final(tree_node) == *old(tree_node)
            },
        },
{
    if *input_index == input_tokens.len() {
        return Ok(());
    }
    let redirection_expr_node = match read_redirection_expr(input_tokens, input_index) {
        Ok(node) => node,
        Err(error) => {
            return Err(error);
        },
    };
    push_child(tree_node, redirection_expr_node);
    Ok(())
}

/// Reads a redirection operator and its file list into a `RedirectionExpr`
/// node of its own.
fn read_redirection_expr(input_tokens: &Vec<&str>, input_index: &mut usize) -> (res: Result<
    ParseNode,
    ParseError,
>)
    requires
        *old(input_index) < input_tokens.len(),
    ensures
        match redirection_op_of(input_tokens.deep_view()[*old(input_index) as int]) {
            Some(op) => {
                &&& res matches Ok(node)
                &&& node@ == redirection_expr(
                    input_tokens.deep_view(),
                    *old(input_index) as int,
                    op,
                )
                &&& *final(input_index) == file_run_end(
                    input_tokens.deep_view(),
                    *old(input_index) + 1,
                )
            },
            None => {
                &&& res matches Err(error)
                &&& error@ == expected_redirection_op(
                    input_tokens.deep_view(),
                    *old(input_index) as int,
                )
                &&& *final(input_index) == *old(input_index)
            },
        },
{
    let ghost tokens = input_tokens.deep_view();
    let ghost at = *input_index as int;
    let mut redirection_expr_node = empty_node(ParseNodeType::RedirectionExpr);
    match parse_redirection_op(input_tokens, input_index, &mut redirection_expr_node) {
        Ok(()) => {},
        Err(error) => {
            return Err(error);
        },
    }
    match parse_filelist(input_tokens, input_index, &mut redirection_expr_node) {
        Ok(()) => {},
        Err(error) => {
            return Err(error);
        },
    }
    proof {
        let op = redirection_op_of(tokens[at])->0;
        assert(Seq::<Tree>::empty().push(leaf(NodeKind::RedirectionOp(op))) + file_leaves(
            tokens,
            at + 1,
            file_run_end(tokens, at + 1),
        ) =~= seq![leaf(NodeKind::RedirectionOp(op))] + file_leaves(
            tokens,
            at + 1,
            file_run_end(tokens, at + 1),
        ));
    }
    Ok(redirection_expr_node)
}

/// Takes the token at `*input_index`, whatever it is, as a command: one
/// `Command` leaf joins the children of `tree_node`. At the end of the input
/// it fails and changes nothing.
pub fn parse_command(
    input_tokens: &Vec<&str>,
    input_index: &mut usize,
    tree_node: &mut ParseNode,
) -> (res: Result<(), ParseError>)
    requires
        *old(input_index) <= input_tokens.len(),
        old(tree_node)@.children is Some,
    ensures
        *old(input_index) == input_tokens.len() ==> {
            &&& res matches Err(error)
            &&& error@ == expected_command(input_tokens.deep_view())
            &&& *final(input_index) == *old(input_index)
            &&& *final(tree_node) == *old(tree_node)
        },
        *old(input_index) < input_tokens.len() ==> {
            &&& res is Ok
            &&& *final(input_index) == *old(input_index) + 1
            &&& final(tree_node)@ == branch(
                old(tree_node)@.entry,
                old(tree_node)@.children->0.push(
                    leaf(NodeKind::Command(input_tokens.deep_view()[*old(input_index) as int])),
                ),
            )
        },
{
    if *input_index == input_tokens.len() {
        let message = if *input_index == 0 {
            "reached end of input but expected command.".to_owned()
        } else {
            join3(
                "reached end of input at token '",
                input_tokens[*input_index - 1],
                "' but expected command.",
            )
        };
        return Err(
            ParseError {
                kind: ParseErrorKind::ExpectedCommand,
                message,
                token_index: *input_index,
            },
        );
    }
    let command = input_tokens[*input_index];
    let command_node = ParseNode {
        entry: ParseNodeType::Command(command.to_owned()),
        children: None,
    };
    push_child(tree_node, command_node);
    *input_index += 1;
    Ok(())
}

/// Takes the longest run of file names from `*input_index` on: one `File`
/// leaf for each joins the children of `tree_node`. It never fails.
pub fn parse_filelist(
    input_tokens: &Vec<&str>,
    input_index: &mut usize,
    tree_node: &mut ParseNode,
) -> (res: Result<(), ParseError>)
    requires
        *old(input_index) <= input_tokens.len(),
        old(tree_node)@.children is Some,
    ensures
        res is Ok,
        *final(input_index) == file_run_end(input_tokens.deep_view(), *old(input_index) as int),
        final(tree_node)@ == branch(
            old(tree_node)@.entry,
            old(tree_node)@.children->0 + file_leaves(
                input_tokens.deep_view(),
                *old(input_index) as int,
                *final(input_index) as int,
            ),
        ),
    decreases input_tokens.len() - *old(input_index),
{
    let ghost tokens = input_tokens.deep_view();
    let ghost at = *input_index as int;
    if *input_index == input_tokens.len() {
        proof {
            assert(tree_node@.children->0 + file_leaves(tokens, at, at) =~= tree_node@.children->0);
        }
        return Ok(());
    }
    let token = input_tokens[*input_index];
    if is_filename(token) {
        let file_node = ParseNode { entry: ParseNodeType::File(token.to_owned()), children: None };
        push_child(tree_node, file_node);
        *input_index += 1;
        match parse_filelist(input_tokens, input_index, tree_node) {
            Ok(()) => {},
            Err(error) => {
                return Err(error);
            },
        }
        proof {
            let end = *input_index as int;
            lemma_file_run_end(tokens, at + 1);
            assert(old(tree_node)@.children->0.push(leaf(NodeKind::File(tokens[at])))
                + file_leaves(tokens, at + 1, end) =~= old(tree_node)@.children->0 + file_leaves(
                tokens,
                at,
                end,
            ));
        }
    } else {
        proof {
            assert(tree_node@.children->0 + file_leaves(tokens, at, at) =~= tree_node@.children->0);
        }
    }
    Ok(())
}

/// Takes the token at `*input_index` as a redirection operator: one
/// `RedirectionOp` leaf joins the children of `tree_node`. At any other
/// token it fails and changes nothing.
pub fn parse_redirection_op(
    input_tokens: &Vec<&str>,
    input_index: &mut usize,
    tree_node: &mut ParseNode,
) -> (res: Result<(), ParseError>)
    requires
        *old(input_index) < input_tokens.len(),
        old(tree_node)@.children is Some,
    ensures
        match redirection_op_of(input_tokens.deep_view()[*old(input_index) as int]) {
            Some(op) => {
                &&& res is Ok
                &&& *final(input_index) == *old(input_index) + 1
                &&& final(tree_node)@ == branch(
                    old(tree_node)@.entry,
                    old(tree_node)@.children->0.push(leaf(NodeKind::RedirectionOp(op))),
                )
            },
            None => {
                &&& res matches Err(error)
                &&& error@ == expected_redirection_op(
                    input_tokens.deep_view(),
                    *old(input_index) as int,
                )
                &&& *final(input_index) == *old(input_index)
                &&& *final(tree_node) == *old(tree_node)
            },
        },
{
    let token = input_tokens[*input_index];
    let redirection_op_token = match redirection_op(token) {
        Some(op) => op,
        None => {
            let message = join3("expected redirection operator, got '", token, "'");
            return Err(
                ParseError {
                    kind: ParseErrorKind::ExpectedRedirectionOp,
                    message,
                    token_index: *input_index,
                },
            );
        },
    };
    let redirection_op_node = ParseNode {
        entry: ParseNodeType::RedirectionOp(redirection_op_token),
        children: None,
    };
    push_child(tree_node, redirection_op_node);
    *input_index += 1;
    Ok(())
}

/// The redirection operator that `token` spells, if it spells one.
pub fn redirection_op(token: &str) -> (res: Option<RedirectionOp>)
    ensures
        res == redirection_op_of(token@),
{
    let n: usize = token.unicode_len();
    if n == 1 {
        let c = token.get_char(0);
        assert(token@ =~= seq![c]);
        if c == '>' {
            Some(RedirectionOp::Output)
        } else if c == '<' {
            Some(RedirectionOp::Input)
        } else {
            None
        }
    } else if n == 2 {
        let c0 = token.get_char(0);
        let c1 = token.get_char(1);
        assert(token@ =~= seq![c0, c1]);
        if c0 == '>' && c1 == '>' {
            Some(RedirectionOp::Append)
        } else {
            None
        }
    } else {
        None
    }
}

} // verus!
