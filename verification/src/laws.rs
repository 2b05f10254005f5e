//! What holds of the library as a whole: between the tokens, the parser
//! and the plan builder, and of every run of the executor and of a builtin.

use vstd::prelude::*;
use crate::commands::{
    change_folder_spec, clear_spec, exit_spec, path_command_spec, Answer, CommandPhase,
    CommandState, PathCommand,
};
use crate::executor::{
    initial_progress, step_spec, trailing_files, Phase, Progress, Signal, Step,
};
use crate::logic::{
    children_of, empty_stage, file_names, last_command, last_redirection_op, plan_spec,
    walk, with_command_expr, with_redirection_expr, Stage,
};
use crate::listing::{list_spec, listed_paths};
use crate::registry::Tables;
use crate::parser::{
    branch, command_expr, expected_command, expected_end, file_leaves, file_run_end, leaf,
    lemma_file_run_end, outcome, parse_spec, parse_tail, redirection_expr, redirection_op_of,
    NodeKind, ParseError, ParseFailure, ParseNode, RedirectionOp, Tree,
};
use crate::token::{
    append_symbol, input_symbol, is_filename_spec, lemma_split_gives_words, output_symbol,
    pipe_symbol, split_spec,
};

verus! {

/// The symbol that spells a redirection operator.
pub open spec fn redirection_symbol(op: RedirectionOp) -> Seq<char> {
    match op {
        RedirectionOp::Output => output_symbol(),
        RedirectionOp::Append => append_symbol(),
        RedirectionOp::Input => input_symbol(),
    }
}

/// The tokens of one stage: the command, its arguments, then the
/// redirection operator and its targets where the stage has a redirection.
pub open spec fn stage_tokens(stage: Stage) -> Seq<Seq<char>> {
    seq![stage.command] + stage.arguments + match stage.redirection_op {
        Some(op) => seq![redirection_symbol(op)] + stage.redirection_files,
        None => Seq::empty(),
    }
}

/// The tokens of a pipeline: those of its stages, with a pipe between each
/// two.
pub open spec fn serialize(pipeline: Seq<Stage>) -> Seq<Seq<char>>
    decreases pipeline.len(),
{
    if pipeline.len() == 0 {
        Seq::empty()
    } else if pipeline.len() == 1 {
        stage_tokens(pipeline[0])
    } else {
        stage_tokens(pipeline[0]) + seq![pipe_symbol()] + serialize(pipeline.drop_first())
    }
}

/// No token of `tokens` is the empty string.
pub open spec fn tokens_nonempty(tokens: Seq<Seq<char>>) -> bool {
    forall|i: int| 0 <= i < tokens.len() ==> (#[trigger] tokens[i]).len() > 0
}

/// Every token of `tokens` may stand in a file list.
pub open spec fn all_filenames(tokens: Seq<Seq<char>>) -> bool {
    forall|i: int| 0 <= i < tokens.len() ==> is_filename_spec(#[trigger] tokens[i])
}

/// A stage that pipes its output on: it has a command, arguments that are
/// file names, and no redirection.
pub open spec fn piped_stage(stage: Stage) -> bool {
    &&& stage.command.len() > 0
    &&& all_filenames(stage.arguments)
    &&& stage.redirection_op is None
    &&& stage.redirection_files.len() == 0
}

/// A stage that ends a pipeline: it has a command, arguments that are file
/// names, and at most one redirection, whose targets are file names.
pub open spec fn closing_stage(stage: Stage) -> bool {
    &&& stage.command.len() > 0
    &&& all_filenames(stage.arguments)
    &&& all_filenames(stage.redirection_files)
    &&& stage.redirection_op is None ==> stage.redirection_files.len() == 0
}

/// A pipeline as the grammar allows it: at least one stage, and a
/// redirection on none but the last.
pub open spec fn well_formed_pipeline(pipeline: Seq<Stage>) -> bool {
    &&& pipeline.len() >= 1
    &&& forall|i: int| 0 <= i < pipeline.len() - 1 ==> piped_stage(#[trigger] pipeline[i])
    &&& closing_stage(pipeline.last())
}

/// A line that the grammar derives: the tokens of some well-formed
/// pipeline.
pub open spec fn grammatical(tokens: Seq<Seq<char>>) -> bool {
    exists|pipeline: Seq<Stage>|
        well_formed_pipeline(pipeline) && #[trigger] serialize(pipeline) == tokens
}

/// What is read from a node that is no file, followed by the file leaves
/// of `start..end`: the names of those files, and the head itself where it
/// is a command or an operator.
proof fn lemma_headed_file_run(
    head: Tree,
    tokens: Seq<Seq<char>>,
    start: int,
    end: int,
    command: Seq<char>,
    op: Option<RedirectionOp>,
)
    requires
        0 <= start <= end <= tokens.len(),
        !(head.entry is File),
    ensures
        file_names(seq![head] + file_leaves(tokens, start, end)) == tokens.subrange(start, end),
        head.entry matches NodeKind::Command(name) ==> last_command(
            seq![head] + file_leaves(tokens, start, end),
            command,
        ) == name,
        head.entry matches NodeKind::RedirectionOp(head_op) ==> last_redirection_op(
            seq![head] + file_leaves(tokens, start, end),
            op,
        ) == Some(head_op),
    decreases end - start,
{
    let nodes = seq![head] + file_leaves(tokens, start, end);
    if start == end {
        assert(nodes.drop_last() =~= Seq::<Tree>::empty());
        assert(nodes.last() == head);
        assert(file_names(nodes.drop_last()) =~= Seq::<Seq<char>>::empty());
        assert(tokens.subrange(start, end) =~= Seq::<Seq<char>>::empty());
    } else {
        lemma_headed_file_run(head, tokens, start, end - 1, command, op);
        assert(nodes.drop_last() =~= seq![head] + file_leaves(tokens, start, end - 1));
        assert(nodes.last() == leaf(NodeKind::File(tokens[end - 1])));
        assert(tokens.subrange(start, end - 1).push(tokens[end - 1]) =~= tokens.subrange(
            start,
            end,
        ));
    }
}

/// The stage that the command expression at `at` is read into.
pub open spec fn stage_at(tokens: Seq<Seq<char>>, at: int) -> Stage {
    Stage {
        command: tokens[at],
        arguments: tokens.subrange(at + 1, file_run_end(tokens, at + 1)),
        redirection_op: None,
        redirection_files: Seq::empty(),
    }
}

/// A command expression is read into the stage of its tokens.
proof fn lemma_read_command_expr(tokens: Seq<Seq<char>>, at: int)
    requires
        0 <= at < tokens.len(),
    ensures
        with_command_expr(empty_stage(), children_of(command_expr(tokens, at))) == stage_at(
            tokens,
            at,
        ),
{
    let end = file_run_end(tokens, at + 1);
    lemma_file_run_end(tokens, at + 1);
    let head = leaf(NodeKind::Command(tokens[at]));
    lemma_headed_file_run(head, tokens, at + 1, end, empty_stage().command, None);
    let nodes = children_of(command_expr(tokens, at));
    assert(nodes == seq![head] + file_leaves(tokens, at + 1, end));
    assert(last_command(nodes, empty_stage().command) == tokens[at]);
    assert(empty_stage().arguments + file_names(nodes) =~= tokens.subrange(at + 1, end));
}

/// The walk over what follows a command expression, with the stage of that
/// expression in hand, gives a well-formed pipeline whose tokens are those of
/// the stage and then the rest of the line.
proof fn lemma_tail_round_trip(tokens: Seq<Seq<char>>, at: int, before: Seq<Tree>, current: Stage)
    requires
        tokens_nonempty(tokens),
        0 <= at <= tokens.len(),
        parse_tail(tokens, at) is Ok,
        piped_stage(current),
    ensures
        well_formed_pipeline(
            walk(before + parse_tail(tokens, at)->Ok_0, before.len() as int, current),
        ),
        serialize(walk(before + parse_tail(tokens, at)->Ok_0, before.len() as int, current))
            == stage_tokens(current) + tokens.subrange(at, tokens.len() as int),
    decreases tokens.len() - at,
{
    let tail = parse_tail(tokens, at)->Ok_0;
    let nodes = before + tail;
    let from = before.len() as int;
    let rest_tokens = tokens.subrange(at, tokens.len() as int);
    if at >= tokens.len() {
        assert(nodes =~= before);
        assert(walk(nodes, from, current) == seq![current]);
        assert(stage_tokens(current) + rest_tokens =~= stage_tokens(current));
    } else if tokens[at] == pipe_symbol() {
        let end = file_run_end(tokens, at + 2);
        lemma_file_run_end(tokens, at + 2);
        let rest = parse_tail(tokens, end)->Ok_0;
        let head = seq![leaf(NodeKind::Pipe), command_expr(tokens, at + 1)];
        let inner = head + rest;
        assert(tail == seq![branch(NodeKind::PipeExpr, inner)]);
        assert(nodes[from] == branch(NodeKind::PipeExpr, inner));
        assert(walk(nodes, from, current) == seq![current] + walk(inner, 1, empty_stage()));
        let next = stage_at(tokens, at + 1);
        lemma_read_command_expr(tokens, at + 1);
        assert(inner[1] == command_expr(tokens, at + 1));
        assert(walk(inner, 1, empty_stage()) == walk(inner, 2, next));
        lemma_tail_round_trip(tokens, end, head, next);
        let after = walk(inner, 2, next);
        let whole = seq![current] + after;
        assert(whole.drop_first() =~= after);
        assert(whole.last() == after.last());
        assert forall|i: int| 0 <= i < whole.len() - 1 implies piped_stage(
            #[trigger] whole[i],
        ) by {
            if i > 0 {
                assert(whole[i] == after[i - 1]);
            }
        }
        assert(serialize(whole) == stage_tokens(current) + seq![pipe_symbol()] + serialize(
            after,
        ));
        assert(stage_tokens(next) =~= tokens.subrange(at + 1, end));
        assert(stage_tokens(current) + seq![pipe_symbol()] + (stage_tokens(next)
            + tokens.subrange(end, tokens.len() as int)) =~= stage_tokens(current) + rest_tokens);
    } else {
        let op = redirection_op_of(tokens[at])->0;
        let end = file_run_end(tokens, at + 1);
        lemma_file_run_end(tokens, at + 1);
        assert(tail == seq![redirection_expr(tokens, at, op)]);
        assert(nodes[from] == redirection_expr(tokens, at, op));
        let head = leaf(NodeKind::RedirectionOp(op));
        lemma_headed_file_run(head, tokens, at + 1, end, current.command, current.redirection_op);
        let read = children_of(redirection_expr(tokens, at, op));
        assert(read == seq![head] + file_leaves(tokens, at + 1, end));
        let closed = with_redirection_expr(current, read);
        assert(closed.redirection_files =~= tokens.subrange(at + 1, end));
        assert(last_redirection_op(read, current.redirection_op) == Some(op));
        assert(closed.redirection_files =~= tokens.subrange(at + 1, end));
        assert(walk(nodes, from, current) == walk(nodes, from + 1, closed));
        assert(walk(nodes, from + 1, closed) == seq![closed]);
        assert(tokens[at] == redirection_symbol(op));
        assert(stage_tokens(closed) =~= stage_tokens(current) + rest_tokens);
    }
}

/// Round trip, from tokens to tokens. Where a line of non-empty tokens
/// parses, the pipeline built from its tree is well formed, with a
/// redirection on no stage but the last, and its tokens are the line
/// itself: the command and arguments of each stage, a pipe between each
/// two stages, the redirection last.
pub proof fn lemma_parse_then_serialize(tokens: Seq<Seq<char>>)
    requires
        tokens_nonempty(tokens),
        parse_spec(tokens) is Ok,
    ensures
        well_formed_pipeline(plan_spec(children_of(parse_spec(tokens)->Ok_0))),
        serialize(plan_spec(children_of(parse_spec(tokens)->Ok_0))) == tokens,
        grammatical(tokens),
{
    let end = file_run_end(tokens, 1);
    lemma_file_run_end(tokens, 1);
    let tail = parse_tail(tokens, end)->Ok_0;
    let head = seq![command_expr(tokens, 0)];
    let nodes = head + tail;
    assert(children_of(parse_spec(tokens)->Ok_0) == nodes);
    lemma_read_command_expr(tokens, 0);
    let first = stage_at(tokens, 0);
    assert(nodes[0] == command_expr(tokens, 0));
    assert(plan_spec(nodes) == walk(nodes, 1, first));
    lemma_tail_round_trip(tokens, end, head, first);
    assert(stage_tokens(first) =~= tokens.subrange(0, end));
    assert(tokens.subrange(0, end) + tokens.subrange(end, tokens.len() as int) =~= tokens);
}

/// A run of file names that an operator or the end of the input follows
/// ends there.
proof fn lemma_file_run_exact(tokens: Seq<Seq<char>>, start: int, end: int)
    requires
        0 <= start <= end <= tokens.len(),
        forall|j: int| start <= j < end ==> is_filename_spec(#[trigger] tokens[j]),
        end < tokens.len() ==> !is_filename_spec(tokens[end]),
    ensures
        file_run_end(tokens, start) == end,
    decreases end - start,
{
    if start < end {
        lemma_file_run_exact(tokens, start + 1, end);
    }
}

/// The stage of `stage` that a command expression alone gives: its command
/// and arguments, no redirection yet.
pub open spec fn command_part(stage: Stage) -> Stage {
    Stage { redirection_op: None, redirection_files: Seq::empty(), ..stage }
}

/// A part of what is left of the tokens from `at` on is the same part of
/// the tokens, `at` further on.
proof fn lemma_part_of_suffix(
    tokens: Seq<Seq<char>>,
    at: int,
    offset: int,
    part: Seq<Seq<char>>,
)
    requires
        0 <= at <= tokens.len(),
        0 <= offset,
        at + offset + part.len() <= tokens.len(),
        forall|j: int|
            0 <= j < part.len() ==> tokens.subrange(at, tokens.len() as int)[offset + j]
                == #[trigger] part[j],
    ensures
        tokens.subrange(at + offset, at + offset + part.len()) == part,
{
    let slice = tokens.subrange(at + offset, at + offset + part.len());
    assert forall|j: int| 0 <= j < part.len() implies slice[j] == part[j] by {
        assert(tokens.subrange(at, tokens.len() as int)[offset + j] == tokens[at + offset + j]);
    }
    assert(slice =~= part);
}

/// The symbols are told apart: each operator spells itself, and none is
/// the pipe or a file name.
proof fn lemma_symbols(op: RedirectionOp)
    ensures
        redirection_op_of(redirection_symbol(op)) == Some(op),
        redirection_symbol(op) != pipe_symbol(),
        !is_filename_spec(redirection_symbol(op)),
        !is_filename_spec(pipe_symbol()),
        redirection_op_of(pipe_symbol()) is None,
{
    assert(output_symbol().len() == 1 && output_symbol()[0] == '>');
    assert(append_symbol().len() == 2);
    assert(input_symbol().len() == 1 && input_symbol()[0] == '<');
    assert(pipe_symbol().len() == 1 && pipe_symbol()[0] == '|');
}

/// Where the tokens from `at` on are those of a well-formed pipeline, its
/// first command expression and what follows it parse, and the walk over
/// them gives the pipeline back.
proof fn lemma_serialize_then_tail(
    pipeline: Seq<Stage>,
    tokens: Seq<Seq<char>>,
    at: int,
    before: Seq<Tree>,
)
    requires
        well_formed_pipeline(pipeline),
        0 <= at < tokens.len(),
        tokens.subrange(at, tokens.len() as int) == serialize(pipeline),
    ensures
        tokens[at] == pipeline[0].command,
        file_run_end(tokens, at + 1) == at + 1 + pipeline[0].arguments.len(),
        stage_at(tokens, at) == command_part(pipeline[0]),
        parse_tail(tokens, file_run_end(tokens, at + 1)) is Ok,
        walk(
            before + parse_tail(tokens, file_run_end(tokens, at + 1))->Ok_0,
            before.len() as int,
            command_part(pipeline[0]),
        ) == pipeline,
    decreases pipeline.len(),
{
    let first = pipeline[0];
    let count = first.arguments.len() as int;
    let end = at + 1 + count;
    let length = tokens.len() as int;
    let suffix = tokens.subrange(at, length);
    let current = command_part(first);
    let from = before.len() as int;
    assert(forall|j: int| 0 <= j < suffix.len() ==> suffix[j] == tokens[at + j]);
    if pipeline.len() == 1 {
        assert(suffix == stage_tokens(first));
        assert(closing_stage(first));
        match first.redirection_op {
            None => {
                assert(suffix.len() == 1 + count);
                assert(suffix[0] == first.command);
                assert forall|j: int| at + 1 <= j < end implies is_filename_spec(
                    #[trigger] tokens[j],
                ) by {
                    assert(tokens[j] == suffix[j - at]);
                    assert(suffix[j - at] == first.arguments[j - at - 1]);
                }
                lemma_file_run_exact(tokens, at + 1, end);
                lemma_part_of_suffix(tokens, at, 1, first.arguments);
                assert(first.redirection_files =~= Seq::<Seq<char>>::empty());
                assert(current == first);
                assert(before + Seq::<Tree>::empty() =~= before);
                assert(walk(before, from, current) == seq![current]);
                assert(pipeline =~= seq![first]);
            },
            Some(op) => {
                lemma_symbols(op);
                let targets = first.redirection_files;
                assert(suffix.len() == 1 + count + 1 + targets.len());
                assert(suffix[0] == first.command);
                assert(suffix[1 + count] == redirection_symbol(op));
                assert forall|j: int| at + 1 <= j < end implies is_filename_spec(
                    #[trigger] tokens[j],
                ) by {
                    assert(tokens[j] == suffix[j - at]);
                    assert(suffix[j - at] == first.arguments[j - at - 1]);
                }
                assert(tokens[end] == suffix[1 + count]);
                lemma_file_run_exact(tokens, at + 1, end);
                lemma_part_of_suffix(tokens, at, 1, first.arguments);
                assert forall|j: int| end + 1 <= j < length implies is_filename_spec(
                    #[trigger] tokens[j],
                ) by {
                    assert(tokens[j] == suffix[j - at]);
                    assert(suffix[j - at] == targets[j - end - 1]);
                }
                lemma_file_run_exact(tokens, end + 1, length);
                let node = redirection_expr(tokens, end, op);
                assert(parse_tail(tokens, end) == Ok::<Seq<Tree>, ParseFailure>(seq![node]));
                let nodes = before + seq![node];
                assert(nodes[from] == node);
                let head = leaf(NodeKind::RedirectionOp(op));
                lemma_headed_file_run(
                    head,
                    tokens,
                    end + 1,
                    length,
                    current.command,
                    current.redirection_op,
                );
                let read = children_of(node);
                assert(read == seq![head] + file_leaves(tokens, end + 1, length));
                let closed = with_redirection_expr(current, read);
                assert(closed.redirection_files =~= tokens.subrange(end + 1, length));
                lemma_part_of_suffix(tokens, at, 2 + count, targets);
                assert(closed == first);
                assert(walk(nodes, from, current) == walk(nodes, from + 1, closed));
                assert(walk(nodes, from + 1, closed) == seq![closed]);
                assert(pipeline =~= seq![first]);
            },
        }
    } else {
        let others = pipeline.drop_first();
        assert(piped_stage(first));
        assert(well_formed_pipeline(others)) by {
            assert(others.last() == pipeline.last());
            assert forall|i: int| 0 <= i < others.len() - 1 implies piped_stage(
                #[trigger] others[i],
            ) by {
                assert(others[i] == pipeline[i + 1]);
            }
        }
        lemma_symbols(RedirectionOp::Output);
        let later = serialize(others);
        assert(later.len() >= 1) by {
            assert(stage_tokens(others[0]).len() >= 1);
        }
        assert(first.redirection_files =~= Seq::<Seq<char>>::empty());
        assert(stage_tokens(first) =~= seq![first.command] + first.arguments);
        assert(suffix == stage_tokens(first) + seq![pipe_symbol()] + later);
        assert(suffix.len() == 1 + count + 1 + later.len());
        assert(suffix[0] == first.command);
        assert(suffix[1 + count] == pipe_symbol());
        assert forall|j: int| at + 1 <= j < end implies is_filename_spec(
            #[trigger] tokens[j],
        ) by {
            assert(tokens[j] == suffix[j - at]);
            assert(suffix[j - at] == first.arguments[j - at - 1]);
        }
        assert(tokens[end] == suffix[1 + count]);
        lemma_file_run_exact(tokens, at + 1, end);
        lemma_part_of_suffix(tokens, at, 1, first.arguments);
        assert(current == first);
        assert(tokens.subrange(end + 1, length) =~= later) by {
            assert forall|j: int| 0 <= j < later.len() implies tokens.subrange(end + 1, length)[j]
                == later[j] by {
                assert(tokens[end + 1 + j] == suffix[1 + count + 1 + j]);
            }
        }
        let head = seq![leaf(NodeKind::Pipe), command_expr(tokens, end + 1)];
        lemma_serialize_then_tail(others, tokens, end + 1, head);
        let next_end = file_run_end(tokens, end + 2);
        let rest = parse_tail(tokens, next_end)->Ok_0;
        let inner = head + rest;
        let node = branch(NodeKind::PipeExpr, inner);
        assert(parse_tail(tokens, end) == Ok::<Seq<Tree>, ParseFailure>(seq![node]));
        let nodes = before + seq![node];
        assert(nodes[from] == node);
        assert(walk(nodes, from, current) == seq![current] + walk(inner, 1, empty_stage()));
        lemma_read_command_expr(tokens, end + 1);
        assert(inner[1] == command_expr(tokens, end + 1));
        assert(walk(inner, 1, empty_stage()) == walk(inner, 2, stage_at(tokens, end + 1)));
        assert(seq![first] + others =~= pipeline);
    }
}

/// Round trip, from a pipeline to a pipeline. The tokens of a well-formed
/// pipeline parse, and the pipeline built from their tree is the one they
/// were written from.
pub proof fn lemma_serialize_then_parse(pipeline: Seq<Stage>)
    requires
        well_formed_pipeline(pipeline),
    ensures
        parse_spec(serialize(pipeline)) is Ok,
        plan_spec(children_of(parse_spec(serialize(pipeline))->Ok_0)) == pipeline,
{
    let tokens = serialize(pipeline);
    assert(tokens.len() >= 1) by {
        assert(stage_tokens(pipeline[0]).len() >= 1);
    }
    assert(tokens.subrange(0, tokens.len() as int) =~= tokens);
    let head = seq![command_expr(tokens, 0)];
    lemma_serialize_then_tail(pipeline, tokens, 0, head);
    let tail = parse_tail(tokens, file_run_end(tokens, 1))->Ok_0;
    let nodes = head + tail;
    assert(children_of(parse_spec(tokens)->Ok_0) == nodes);
    lemma_read_command_expr(tokens, 0);
    assert(nodes[0] == command_expr(tokens, 0));
    assert(plan_spec(nodes) == walk(nodes, 1, stage_at(tokens, 0)));
}

/// Every line that the grammar derives parses, and the tokens of the
/// pipeline built from its tree are the line itself.
pub proof fn lemma_grammatical_lines_round_trip(tokens: Seq<Seq<char>>)
    requires
        grammatical(tokens),
    ensures
        parse_spec(tokens) is Ok,
        well_formed_pipeline(plan_spec(children_of(parse_spec(tokens)->Ok_0))),
        serialize(plan_spec(children_of(parse_spec(tokens)->Ok_0))) == tokens,
{
    let pipeline = choose|pipeline: Seq<Stage>|
        well_formed_pipeline(pipeline) && #[trigger] serialize(pipeline) == tokens;
    lemma_serialize_then_parse(pipeline);
}

/// Round trip, from a typed line to its tokens. Where a line parses, the
/// tokens of the pipeline built from its tree are the tokens of the line:
/// the line itself but for its whitespace.
pub proof fn lemma_lines_round_trip(line: Seq<char>)
    requires
        parse_spec(split_spec(line)) is Ok,
    ensures
        serialize(plan_spec(children_of(parse_spec(split_spec(line))->Ok_0))) == split_spec(line),
{
    lemma_split_gives_words(line, 0);
    lemma_parse_then_serialize(split_spec(line));
}

/// A leaf that names a file.
pub open spec fn is_file_leaf(tree: Tree) -> bool {
    &&& tree.children is None
    &&& tree.entry matches NodeKind::File(name)
    &&& is_filename_spec(name)
}

/// Every node of `nodes` from the one at `from` on is a leaf that names a
/// file.
pub open spec fn file_leaves_from(nodes: Seq<Tree>, from: int) -> bool {
    forall|i: int| from <= i < nodes.len() ==> is_file_leaf(#[trigger] nodes[i])
}

/// A command expression as the grammar has it: a `Command` leaf, then
/// `File` leaves only.
pub open spec fn well_formed_command_expr(tree: Tree) -> bool {
    &&& tree.entry is CommandExpr
    &&& tree.children matches Some(nodes)
    &&& nodes.len() >= 1
    &&& nodes[0].entry is Command
    &&& nodes[0].children is None
    &&& file_leaves_from(nodes, 1)
}

/// A redirection expression as the grammar has it: a `RedirectionOp` leaf,
/// then `File` leaves only.
pub open spec fn well_formed_redirection_expr(tree: Tree) -> bool {
    &&& tree.entry is RedirectionExpr
    &&& tree.children matches Some(nodes)
    &&& nodes.len() >= 1
    &&& nodes[0].entry is RedirectionOp
    &&& nodes[0].children is None
    &&& file_leaves_from(nodes, 1)
}

/// What follows a command expression, as the grammar has it: nothing, or
/// one redirection expression, or one pipe expression, which holds a `Pipe`
/// leaf, a command expression and what follows that.
pub open spec fn well_formed_rest(nodes: Seq<Tree>, from: int) -> bool
    decreases nodes,
{
    ||| nodes.len() <= from
    ||| nodes.len() == from + 1 && 0 <= from && well_formed_redirection_expr(nodes[from])
    ||| {
        &&& nodes.len() == from + 1
        &&& 0 <= from
        &&& nodes[from].entry is PipeExpr
        &&& nodes[from].children matches Some(inner)
        &&& inner.len() >= 2
        &&& inner[0] == leaf(NodeKind::Pipe)
        &&& well_formed_command_expr(inner[1])
        &&& well_formed_rest(inner, 2)
    }
}

/// A whole tree as the grammar has it: an `Expr` that holds a command
/// expression and what follows it.
pub open spec fn well_formed_expr(tree: Tree) -> bool {
    &&& tree.entry is Expr
    &&& tree.children matches Some(nodes)
    &&& nodes.len() >= 1
    &&& well_formed_command_expr(nodes[0])
    &&& well_formed_rest(nodes, 1)
}

/// The command expression of the parser is as the grammar has it.
proof fn lemma_command_expr_is_well_formed(tokens: Seq<Seq<char>>, at: int)
    requires
        0 <= at < tokens.len(),
    ensures
        well_formed_command_expr(command_expr(tokens, at)),
{
    lemma_file_run_end(tokens, at + 1);
    let nodes = command_expr(tokens, at).children->0;
    assert forall|i: int| 1 <= i < nodes.len() implies is_file_leaf(#[trigger] nodes[i]) by {
        assert(nodes[i] == leaf(NodeKind::File(tokens[at + i])));
    }
}

/// What the parser puts behind a command expression is as the grammar has
/// it.
proof fn lemma_rest_is_well_formed(tokens: Seq<Seq<char>>, at: int, before: Seq<Tree>)
    requires
        0 <= at <= tokens.len(),
        parse_tail(tokens, at) is Ok,
    ensures
        well_formed_rest(before + parse_tail(tokens, at)->Ok_0, before.len() as int),
    decreases tokens.len() - at,
{
    let tail = parse_tail(tokens, at)->Ok_0;
    let nodes = before + tail;
    let from = before.len() as int;
    if at >= tokens.len() {
    } else if tokens[at] == pipe_symbol() {
        let end = file_run_end(tokens, at + 2);
        lemma_file_run_end(tokens, at + 2);
        let rest = parse_tail(tokens, end)->Ok_0;
        let head = seq![leaf(NodeKind::Pipe), command_expr(tokens, at + 1)];
        let inner = head + rest;
        assert(nodes[from] == branch(NodeKind::PipeExpr, inner));
        lemma_command_expr_is_well_formed(tokens, at + 1);
        lemma_rest_is_well_formed(tokens, end, head);
        assert(inner[0] == leaf(NodeKind::Pipe));
        assert(inner[1] == command_expr(tokens, at + 1));
    } else {
        let op = redirection_op_of(tokens[at])->0;
        lemma_file_run_end(tokens, at + 1);
        let node = redirection_expr(tokens, at, op);
        assert(nodes[from] == node);
        let read = node.children->0;
        assert forall|i: int| 1 <= i < read.len() implies is_file_leaf(#[trigger] read[i]) by {
            assert(read[i] == leaf(NodeKind::File(tokens[at + i])));
        }
    }
}

/// The tree of a line that parses is as the grammar has it: `Command` and
/// `File` leaves stand below command expressions only, `RedirectionOp` and
/// `File` leaves below redirection expressions only, and a redirection
/// expression is the last node of the line.
pub proof fn lemma_parsed_trees_are_well_formed(tokens: Seq<Seq<char>>)
    requires
        parse_spec(tokens) is Ok,
    ensures
        well_formed_expr(parse_spec(tokens)->Ok_0),
{
    lemma_file_run_end(tokens, 1);
    lemma_command_expr_is_well_formed(tokens, 0);
    let head = seq![command_expr(tokens, 0)];
    lemma_rest_is_well_formed(tokens, file_run_end(tokens, 1), head);
    let nodes = parse_spec(tokens)->Ok_0.children->0;
    assert(nodes[0] == command_expr(tokens, 0));
}

/// A failure that a whole line can give: the input ends where a command
/// must stand, or a token follows a redirection.
pub open spec fn line_failure(tokens: Seq<Seq<char>>, failure: ParseFailure) -> bool {
    ||| failure == expected_command(tokens)
    ||| {
        &&& 0 <= failure.token_index < tokens.len()
        &&& !is_filename_spec(tokens[failure.token_index])
        &&& failure == expected_end(tokens, failure.token_index)
    }
}

/// Behind a file list, what follows a command expression fails as a whole
/// line can fail, and not otherwise.
proof fn lemma_tail_failures(tokens: Seq<Seq<char>>, at: int)
    requires
        0 <= at <= tokens.len(),
        at < tokens.len() ==> !is_filename_spec(tokens[at]),
    ensures
        parse_tail(tokens, at) matches Err(failure) ==> line_failure(tokens, failure),
    decreases tokens.len() - at,
{
    if at < tokens.len() {
        if tokens[at] == pipe_symbol() {
            if at + 1 < tokens.len() {
                lemma_file_run_end(tokens, at + 2);
                lemma_tail_failures(tokens, file_run_end(tokens, at + 2));
            }
        } else {
            lemma_file_run_end(tokens, at + 1);
        }
    }
}

/// A whole line fails in two ways only: its input ends where a command
/// must stand, which the failure reports at the end of the input, or a
/// token follows a redirection, which the failure reports at that token.
pub proof fn lemma_line_failures(tokens: Seq<Seq<char>>)
    ensures
        parse_spec(tokens) matches Err(failure) ==> line_failure(tokens, failure),
{
    if tokens.len() > 0 {
        lemma_file_run_end(tokens, 1);
        lemma_tail_failures(tokens, file_run_end(tokens, 1));
    }
}

/// Parsing is a function of the tokens: two results that both meet the
/// contract of `parse_input`, on two token lists that read the same, are the
/// same tree or the same failure.
pub proof fn lemma_parse_is_deterministic(
    first_tokens: Vec<&str>,
    second_tokens: Vec<&str>,
    first: Result<ParseNode, ParseError>,
    second: Result<ParseNode, ParseError>,
)
    requires
        first_tokens.deep_view() == second_tokens.deep_view(),
        outcome(first) == parse_spec(first_tokens.deep_view()),
        outcome(second) == parse_spec(second_tokens.deep_view()),
    ensures
        outcome(first) == outcome(second),
{
}

/// How many of `count` things are left behind the one at `at`.
pub open spec fn left_behind(count: nat, at: int) -> nat {
    if at < count {
        (count - at) as nat
    } else {
        0
    }
}

/// A bound on the steps that a run still takes before it is over.
pub open spec fn steps_left(pipeline: Seq<Stage>, progress: Progress) -> nat {
    let targets = trailing_files(pipeline).len();
    let writing = 2 * targets + 3;
    let stages = writing + 2 + 4 * left_behind(pipeline.len(), progress.stage);
    match progress.phase {
        Phase::Finished => 0,
        Phase::Closing => 1,
        Phase::ReportingWrite => 2 * left_behind(targets, progress.target) + 1,
        Phase::Writing => 2 * left_behind(targets, progress.target) + 2,
        Phase::Collecting => writing + 1,
        Phase::ReportingFeed => stages + 1,
        Phase::Diagnosing => stages + 1,
        Phase::Feeding => stages + 2,
        Phase::RunningBuiltin => stages + 3,
        Phase::Spawning => stages + 3,
        Phase::ReadingInput => writing + 4 * pipeline.len() + 6,
        Phase::Ready => writing + 4 * pipeline.len() + 7,
    }
}

/// Every step brings a run nearer to its end, whatever came of the last
/// action.
pub proof fn lemma_every_step_nears_the_end(
    pipeline: Seq<Stage>,
    tables: Tables,
    progress: Progress,
    signal: Signal,
)
    requires
        progress.phase != Phase::Finished,
        0 <= progress.stage,
        0 <= progress.target,
    ensures
        steps_left(pipeline, step_spec(pipeline, tables, progress, signal).0) < steps_left(
            pipeline,
            progress,
        ),
        0 <= step_spec(pipeline, tables, progress, signal).0.stage,
        0 <= step_spec(pipeline, tables, progress, signal).0.target,
{
}

/// A run of a line with `n` stages and `f` output files is over within
/// `4 n + 2 f + 10` steps.
pub proof fn lemma_runs_are_short(pipeline: Seq<Stage>)
    ensures
        steps_left(pipeline, initial_progress()) == 4 * pipeline.len() + 2 * trailing_files(
            pipeline,
        ).len() + 10,
{
}

/// A run that is over stays over, and asks for nothing more.
pub proof fn lemma_finished_stays_finished(
    pipeline: Seq<Stage>,
    tables: Tables,
    progress: Progress,
    signal: Signal,
)
    requires
        progress.phase == Phase::Finished,
    ensures
        step_spec(pipeline, tables, progress, signal) == (progress, Step::Finished),
{
}

/// A spawn that fails ends the run: it is reported, and behind the report
/// nothing more is asked for.
pub proof fn lemma_failed_spawn_ends_the_run(
    pipeline: Seq<Stage>,
    tables: Tables,
    progress: Progress,
    reason: Seq<char>,
    later: Signal,
)
    requires
        progress.phase == Phase::Spawning,
    ensures
        step_spec(pipeline, tables, progress, Signal::Failed { reason }).1 is Report,
        step_spec(
            pipeline,
            tables,
            step_spec(pipeline, tables, progress, Signal::Failed { reason }).0,
            later,
        ).1 == Step::Finished,
{
}

/// What came of a builtin does not matter: the run goes on the same
/// whether it failed or not.
pub proof fn lemma_builtin_outcome_is_ignored(
    pipeline: Seq<Stage>,
    tables: Tables,
    progress: Progress,
    first: Signal,
    second: Signal,
)
    requires
        progress.phase == Phase::RunningBuiltin,
    ensures
        step_spec(pipeline, tables, progress, first) == step_spec(
            pipeline,
            tables,
            progress,
            second,
        ),
{
}

/// A bound on the steps that a builtin over `paths` still takes before it
/// is done.
pub open spec fn requests_left(paths: Seq<Seq<char>>, state: CommandState) -> nat {
    let paths_left = 7 * left_behind(paths.len(), state.index as int);
    match state.phase {
        CommandPhase::Finished => 0,
        CommandPhase::Closing => 1,
        CommandPhase::Saying => paths_left + 1,
        CommandPhase::Creating => paths_left + 2,
        CommandPhase::CreatingFile => paths_left + 2,
        CommandPhase::Listing => paths_left + 2,
        CommandPhase::Moving => paths_left + 2,
        CommandPhase::Opening => paths_left + 2,
        CommandPhase::Reading => paths_left + 2,
        CommandPhase::RemovingFile => paths_left + 2,
        CommandPhase::RemovingFolder => paths_left + 2,
        CommandPhase::Running => paths_left + 2,
        CommandPhase::Announcing => paths_left + 3,
        CommandPhase::Asking => paths_left + 3,
        CommandPhase::Counting => paths_left + 4,
        CommandPhase::Probing => paths_left + 5,
        CommandPhase::Heading => paths_left + 6,
        CommandPhase::Ready => 7 * paths.len() + 7,
    }
}

/// Every step brings a builtin that goes through its paths nearer to its
/// end, whatever the reply.
pub proof fn lemma_path_commands_end(
    command: PathCommand,
    paths: Seq<Seq<char>>,
    state: CommandState,
    answer: Answer,
)
    requires
        state.phase != CommandPhase::Finished,
    ensures
        requests_left(paths, path_command_spec(command, paths, state, answer).0) < requests_left(
            paths,
            state,
        ),
{
}

/// Every step brings `list` nearer to its end, whatever the reply and
/// however the times are written.
pub proof fn lemma_list_ends(
    paths: Seq<Seq<char>>,
    state: CommandState,
    answer: Answer,
    stamps: Seq<Seq<char>>,
)
    requires
        state.phase != CommandPhase::Finished,
    ensures
        requests_left(listed_paths(paths), list_spec(paths, state, answer, stamps).0)
            < requests_left(listed_paths(paths), state),
{
}

/// Every step brings `change_folder`, `clear` and `exit` nearer to their
/// end, whatever the reply.
pub proof fn lemma_single_commands_end(paths: Seq<Seq<char>>, state: CommandState, answer: Answer)
    requires
        state.phase != CommandPhase::Finished,
    ensures
        requests_left(paths, change_folder_spec(paths, state, answer).0) < requests_left(
            paths,
            state,
        ),
        requests_left(paths, clear_spec(state, answer).0) < requests_left(paths, state),
        requests_left(paths, exit_spec(state).0) < requests_left(paths, state),
{
}

} // verus!
