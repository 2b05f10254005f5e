//! From a syntax tree to a pipeline: the ordered stages of a line, each with
//! its command, its arguments and its redirection.

use vstd::prelude::*;
use crate::parser::{
    forest, lemma_view_children, NodeKind, ParseNode, ParseNodeType, RedirectionOp, Tree,
};

verus! {

/// One stage of a pipeline: a command, its arguments, and where its input
/// comes from or its output goes when that is a file.
#[derive(Debug, PartialEq)]
pub struct CommandData {
    pub command: String,
    pub arguments: Vec<String>,
    pub redirection_op: Option<RedirectionOp>,
    pub redirection_files: Vec<String>,
}

/// The mathematical value of a [`CommandData`].
pub struct Stage {
    pub command: Seq<char>,
    pub arguments: Seq<Seq<char>>,
    pub redirection_op: Option<RedirectionOp>,
    pub redirection_files: Seq<Seq<char>>,
}

impl View for CommandData {
    type V = Stage;

    open spec fn view(&self) -> Stage {
        Stage {
            command: self.command@,
            arguments: self.arguments.deep_view(),
            redirection_op: self.redirection_op,
            redirection_files: self.redirection_files.deep_view(),
        }
    }
}

/// The views of a list of stages, in order.
pub open spec fn pipeline_of(stages: Seq<CommandData>) -> Seq<Stage> {
    Seq::new(stages.len(), |i: int| stages[i]@)
}

/// The stage that nothing has been read into yet.
pub open spec fn empty_stage() -> Stage {
    Stage {
        command: Seq::empty(),
        arguments: Seq::empty(),
        redirection_op: None,
        redirection_files: Seq::empty(),
    }
}

impl CommandData {
    /// A stage with an empty command, no arguments and no redirection.
    pub fn new() -> (res: CommandData)
        ensures
            res@ == empty_stage(),
    {
        let res = CommandData {
            command: String::new(),
            arguments: Vec::new(),
            redirection_op: None,
            redirection_files: Vec::new(),
        };
        assert(res.arguments.deep_view() =~= Seq::<Seq<char>>::empty());
        assert(res.redirection_files.deep_view() =~= Seq::<Seq<char>>::empty());
        res
    }

    /// Tells whether the stage carries a redirection.
    pub fn has_redirection(&self) -> (res: bool)
        ensures
            res == (self@.redirection_op is Some),
    {
        match self.redirection_op {
            Some(_) => true,
            None => false,
        }
    }
}

/// The names of the `File` nodes among `nodes`, in order.
pub open spec fn file_names(nodes: Seq<Tree>) -> Seq<Seq<char>>
    decreases nodes.len(),
{
    if nodes.len() == 0 {
        Seq::empty()
    } else {
        match nodes.last().entry {
            NodeKind::File(name) => file_names(nodes.drop_last()).push(name),
            _ => file_names(nodes.drop_last()),
        }
    }
}

/// The name of the last `Command` node among `nodes`, or `otherwise` where
/// there is none.
pub open spec fn last_command(nodes: Seq<Tree>, otherwise: Seq<char>) -> Seq<char>
    decreases nodes.len(),
{
    if nodes.len() == 0 {
        otherwise
    } else {
        match nodes.last().entry {
            NodeKind::Command(name) => name,
            _ => last_command(nodes.drop_last(), otherwise),
        }
    }
}

/// The operator of the last `RedirectionOp` node among `nodes`, or
/// `otherwise` where there is none.
pub open spec fn last_redirection_op(
    nodes: Seq<Tree>,
    otherwise: Option<RedirectionOp>,
) -> Option<RedirectionOp>
    decreases nodes.len(),
{
    if nodes.len() == 0 {
        otherwise
    } else {
        match nodes.last().entry {
            NodeKind::RedirectionOp(op) => Some(op),
            _ => last_redirection_op(nodes.drop_last(), otherwise),
        }
    }
}

/// Reads the children of a command expression: the last `Command` among
/// them names the command, each `File` is one more argument, and any other
/// node is passed over.
pub fn read_command_expr(
    command: &mut String,
    arguments: &mut Vec<String>,
    command_expr_children: &Vec<ParseNode>,
)
    ensures
        final(command)@ == last_command(forest(command_expr_children@), old(command)@),
        final(arguments).deep_view() == old(arguments).deep_view() + file_names(
            forest(command_expr_children@),
        ),
{
    let ghost nodes = forest(command_expr_children@);
    let mut i: usize = 0;
    proof {
        assert(nodes.take(0) =~= Seq::<Tree>::empty());
        assert(arguments.deep_view() + Seq::<Seq<char>>::empty() =~= arguments.deep_view());
    }
    while i < command_expr_children.len()
        invariant
            i <= command_expr_children.len(),
            nodes == forest(command_expr_children@),
            command@ == last_command(nodes.take(i as int), old(command)@),
            arguments.deep_view() == old(arguments).deep_view() + file_names(nodes.take(i as int)),
        decreases command_expr_children.len() - i,
    {
        let node = &command_expr_children[i];
        proof {
            assert(nodes.take(i + 1).drop_last() =~= nodes.take(i as int));
            assert(nodes.take(i + 1).last() == node@);
        }
        let ghost before = arguments.deep_view();
        match &node.entry {
            ParseNodeType::Command(command_name) => {
                *command = command_name.clone();
            },
            ParseNodeType::File(filename) => {
                arguments.push(filename.clone());
                assert(arguments.deep_view() =~= before.push(filename@));
                assert(arguments.deep_view() =~= old(arguments).deep_view() + file_names(
                    nodes.take(i + 1),
                ));
            },
            _ => {},
        }
        i += 1;
    }
    proof {
        assert(nodes.take(i as int) =~= nodes);
    }
}

/// Reads the children of a redirection expression: the last
/// `RedirectionOp` among them is the operator, each `File` is one more
/// target, and any other node is passed over.
pub fn read_redirection_expr(
    redirection_op: &mut Option<RedirectionOp>,
    redirection_files: &mut Vec<String>,
    redirection_expr_children: &Vec<ParseNode>,
)
    ensures
        *final(redirection_op) == last_redirection_op(
            forest(redirection_expr_children@),
            *old(redirection_op),
        ),
        final(redirection_files).deep_view() == old(redirection_files).deep_view() + file_names(
            forest(redirection_expr_children@),
        ),
{
    let ghost nodes = forest(redirection_expr_children@);
    let mut i: usize = 0;
    proof {
        assert(nodes.take(0) =~= Seq::<Tree>::empty());
        assert(redirection_files.deep_view() + Seq::<Seq<char>>::empty()
            =~= redirection_files.deep_view());
    }
    while i < redirection_expr_children.len()
        invariant
            i <= redirection_expr_children.len(),
            nodes == forest(redirection_expr_children@),
            *redirection_op == last_redirection_op(nodes.take(i as int), *old(redirection_op)),
            redirection_files.deep_view() == old(redirection_files).deep_view() + file_names(
                nodes.take(i as int),
            ),
        decreases redirection_expr_children.len() - i,
    {
        let node = &redirection_expr_children[i];
        proof {
            assert(nodes.take(i + 1).drop_last() =~= nodes.take(i as int));
            assert(nodes.take(i + 1).last() == node@);
        }
        let ghost before = redirection_files.deep_view();
        match &node.entry {
            ParseNodeType::RedirectionOp(redirection_op_name) => {
                *redirection_op = Some(*redirection_op_name);
            },
            ParseNodeType::File(filename) => {
                redirection_files.push(filename.clone());
                assert(redirection_files.deep_view() =~= before.push(filename@));
                assert(redirection_files.deep_view() =~= old(redirection_files).deep_view()
                    + file_names(nodes.take(i + 1)));
            },
            _ => {},
        }
        i += 1;
    }
    proof {
        assert(nodes.take(i as int) =~= nodes);
    }
}

/// The children of a node, none for a leaf.
pub open spec fn children_of(tree: Tree) -> Seq<Tree> {
    match tree.children {
        Some(children) => children,
        None => Seq::empty(),
    }
}

/// `stage` after the children of a command expression were read into it.
pub open spec fn with_command_expr(stage: Stage, nodes: Seq<Tree>) -> Stage {
    Stage {
        command: last_command(nodes, stage.command),
        arguments: stage.arguments + file_names(nodes),
        ..stage
    }
}

/// `stage` after the children of a redirection expression were read into
/// it.
pub open spec fn with_redirection_expr(stage: Stage, nodes: Seq<Tree>) -> Stage {
    Stage {
        redirection_op: last_redirection_op(nodes, stage.redirection_op),
        redirection_files: stage.redirection_files + file_names(nodes),
        ..stage
    }
}

/// What the stage in hand adds to the pipeline when the walk ends: itself
/// if it has a command, else nothing.
pub open spec fn closing(stage: Stage) -> Seq<Stage> {
    if stage.command.len() == 0 {
        Seq::empty()
    } else {
        seq![stage]
    }
}

/// The stages that a walk yields from the node at `from` on, with `current`
/// in hand. A command expression and a redirection expression are read into
/// the stage in hand. A pipe expression closes it, whatever it holds, and the
/// walk goes on inside the pipe expression, behind its first child, with an
/// empty stage. Any other node ends the walk, as the end of the list does.
pub open spec fn walk(nodes: Seq<Tree>, from: int, current: Stage) -> Seq<Stage>
    decreases nodes, nodes.len() - from,
{
    if from < 0 || from >= nodes.len() {
        closing(current)
    } else {
        match nodes[from].entry {
            NodeKind::CommandExpr => walk(
                nodes,
                from + 1,
                with_command_expr(current, children_of(nodes[from])),
            ),
            NodeKind::RedirectionExpr => walk(
                nodes,
                from + 1,
                with_redirection_expr(current, children_of(nodes[from])),
            ),
            NodeKind::PipeExpr => match nodes[from].children {
                Some(inner) => seq![current] + walk(inner, 1, empty_stage()),
                None => seq![current],
            },
            _ => closing(current),
        }
    }
}

/// The pipeline of a list of top-level nodes.
pub open spec fn plan_spec(nodes: Seq<Tree>) -> Seq<Stage> {
    walk(nodes, 0, empty_stage())
}

/// Flattens the children of an `Expr` node into the ordered stages of the
/// line.
pub fn accumulate_commands_and_arguments(expr_children: &Vec<ParseNode>) -> (res: Vec<
    CommandData,
>)
    ensures
        pipeline_of(res@) == plan_spec(forest(expr_children@)),
{
    let mut commands_and_arguments: Vec<CommandData> = Vec::new();
    let mut nodes: &Vec<ParseNode> = expr_children;
    let mut child_index: usize = 0;
    let mut command_data = CommandData::new();
    let ghost goal = plan_spec(forest(expr_children@));
    proof {
        assert(pipeline_of(commands_and_arguments@) + goal =~= goal);
    }
    let mut walking = true;
    while walking && child_index < nodes.len()
        invariant
            goal == plan_spec(forest(expr_children@)),
            walking ==> pipeline_of(commands_and_arguments@) + walk(
                forest(nodes@),
                child_index as int,
                command_data@,
            ) == goal,
            !walking ==> pipeline_of(commands_and_arguments@) + closing(command_data@) == goal,
        decreases forest(nodes@), walking as int, nodes.len() - child_index,
    {
        let node = &nodes[child_index];
        let ghost trees = forest(nodes@);
        let ghost done = pipeline_of(commands_and_arguments@);
        proof {
            lemma_view_children(*node);
            assert(trees[child_index as int] == node@);
        }
        match node.entry {
            ParseNodeType::CommandExpr => {
                match &node.children {
                    Some(command_expr_children) => {
                        read_command_expr(
                            &mut command_data.command,
                            &mut command_data.arguments,
                            command_expr_children,
                        );
                    },
                    None => {
                        assert(command_data@.arguments + file_names(Seq::<Tree>::empty())
                            =~= command_data@.arguments);
                    },
                }
                child_index += 1;
            },
            ParseNodeType::RedirectionExpr => {
                match &node.children {
                    Some(redirection_expr_children) => {
                        read_redirection_expr(
                            &mut command_data.redirection_op,
                            &mut command_data.redirection_files,
                            redirection_expr_children,
                        );
                    },
                    None => {
                        assert(command_data@.redirection_files + file_names(
                            Seq::<Tree>::empty(),
                        ) =~= command_data@.redirection_files);
                    },
                }
                child_index += 1;
            },
            ParseNodeType::PipeExpr => {
                let ghost closed = command_data@;
                commands_and_arguments.push(command_data);
                command_data = CommandData::new();
                proof {
                    assert(pipeline_of(commands_and_arguments@) =~= done.push(closed));
                }
                match &node.children {
                    Some(pipe_expr_children) => {
                        proof {
                            let inner = forest(pipe_expr_children@);
                            assert(done.push(closed) + walk(inner, 1, empty_stage()) =~= done + (
                            seq![closed] + walk(inner, 1, empty_stage())));
                            assert(decreases_to!(trees => trees[child_index as int]));
                            assert(decreases_to!(trees[child_index as int] => trees[child_index as int].children));
                            assert(decreases_to!(trees[child_index as int].children => inner));
                        }
                        nodes = pipe_expr_children;
                        child_index = 1;
                    },
                    None => {
                        proof {
                            assert(done.push(closed) + closing(empty_stage()) =~= done
                                + seq![closed]);
                        }
                        walking = false;
                    },
                }
            },
            _ => {
                walking = false;
            },
        }
    }
    let ghost done = pipeline_of(commands_and_arguments@);
    let ghost last = command_data@;
    if !command_data.command.as_str().is_empty() {
        commands_and_arguments.push(command_data);
        proof {
            assert(pipeline_of(commands_and_arguments@) =~= done + closing(last));
        }
    } else {
        proof {
            assert(done + closing(last) =~= done);
        }
    }
    commands_and_arguments
}

} // verus!
