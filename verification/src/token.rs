//! Tokens and their classification.

use vstd::prelude::*;

verus! {

/// The pipe separator, as a sequence of characters.
pub open spec fn pipe_symbol() -> Seq<char> {
    seq!['|']
}

/// The symbol of output redirection that truncates its target.
pub open spec fn output_symbol() -> Seq<char> {
    seq!['>']
}

/// The symbol of output redirection that appends to its target.
pub open spec fn append_symbol() -> Seq<char> {
    seq!['>', '>']
}

/// The symbol of input redirection.
pub open spec fn input_symbol() -> Seq<char> {
    seq!['<']
}

/// A token can stand in a file list exactly when it is none of the four
/// operator symbols.
pub open spec fn is_filename_spec(token: Seq<char>) -> bool {
    &&& token != pipe_symbol()
    &&& token != output_symbol()
    &&& token != append_symbol()
    &&& token != input_symbol()
}

/// Tells whether `token` is the pipe separator.
pub fn is_pipe(token: &str) -> (res: bool)
    ensures
        res == (token@ == pipe_symbol()),
{
    let n: usize = token.unicode_len();
    if n == 1 {
        let c = token.get_char(0);
        assert(token@ =~= seq![c]);
        c == '|'
    } else {
        false
    }
}

/// Tells whether `token` may be consumed as a file name or argument.
pub fn is_filename(token: &str) -> (res: bool)
    ensures
        res == is_filename_spec(token@),
{
    let n: usize = token.unicode_len();
    if n == 1 {
        let c = token.get_char(0);
        assert(token@ =~= seq![c]);
        !(c == '|' || c == '>' || c == '<')
    } else if n == 2 {
        let c0 = token.get_char(0);
        let c1 = token.get_char(1);
        assert(token@ =~= seq![c0, c1]);
        !(c0 == '>' && c1 == '>')
    } else {
        true
    }
}

/// The characters with the Unicode property `White_Space`.
pub open spec fn is_whitespace_spec(c: char) -> bool {
    let code = c as u32;
    ||| 0x09 <= code <= 0x0D
    ||| code == 0x20
    ||| code == 0x85
    ||| code == 0xA0
    ||| code == 0x1680
    ||| 0x2000 <= code <= 0x200A
    ||| code == 0x2028
    ||| code == 0x2029
    ||| code == 0x202F
    ||| code == 0x205F
    ||| code == 0x3000
}

/// Tells whether `c` separates tokens.
pub fn is_whitespace(c: char) -> (res: bool)
    ensures
        res == is_whitespace_spec(c),
{
    let code: u32 = c as u32;
    (0x09 <= code && code <= 0x0D) || code == 0x20 || code == 0x85 || code == 0xA0 || code
        == 0x1680 || (0x2000 <= code && code <= 0x200A) || code == 0x2028 || code == 0x2029
        || code == 0x202F || code == 0x205F || code == 0x3000
}

/// Where the word that begins at `from` ends: the index of the first
/// whitespace character from `from` on, or the length of the line.
pub open spec fn word_end(line: Seq<char>, from: int) -> int
    decreases line.len() - from,
{
    if 0 <= from < line.len() && !is_whitespace_spec(line[from]) {
        word_end(line, from + 1)
    } else {
        from
    }
}

/// A word ends no earlier than it begins and within the line, holds no
/// whitespace, and stops at whitespace.
pub proof fn lemma_word_end(line: Seq<char>, from: int)
    requires
        0 <= from <= line.len(),
    ensures
        from <= word_end(line, from) <= line.len(),
        from < line.len() && !is_whitespace_spec(line[from]) ==> from < word_end(line, from),
        forall|j: int| from <= j < word_end(line, from) ==> !is_whitespace_spec(#[trigger] line[j]),
        word_end(line, from) < line.len() ==> is_whitespace_spec(line[word_end(line, from)]),
    decreases line.len() - from,
{
    if from < line.len() && !is_whitespace_spec(line[from]) {
        lemma_word_end(line, from + 1);
    }
}

/// The words of `line` from the character at `from` on.
pub open spec fn split_from(line: Seq<char>, from: int) -> Seq<Seq<char>>
    decreases line.len() - from,
{
    if from < 0 || from >= line.len() {
        Seq::empty()
    } else if is_whitespace_spec(line[from]) {
        split_from(line, from + 1)
    } else {
        proof {
            lemma_word_end(line, from);
        }
        seq![line.subrange(from, word_end(line, from))] + split_from(line, word_end(line, from))
    }
}

/// The tokens of a line: its longest runs of characters that are not
/// whitespace, in order.
pub open spec fn split_spec(line: Seq<char>) -> Seq<Seq<char>> {
    split_from(line, 0)
}

/// Splits a line into its tokens.
pub fn split_input<'a>(input: &'a str) -> (res: Vec<&'a str>)
    ensures
        res.deep_view() == split_spec(input@),
{
    let ghost line = input@;
    let length: usize = input.unicode_len();
    let mut commands: Vec<&'a str> = Vec::new();
    let mut at: usize = 0;
    proof {
        assert(commands.deep_view() + split_from(line, 0) =~= split_spec(line));
    }
    while at < length
        invariant
            line == input@,
            length == line.len(),
            at <= length,
            commands.deep_view() + split_from(line, at as int) == split_spec(line),
        decreases length - at,
    {
        if is_whitespace(input.get_char(at)) {
            at += 1;
        } else {
            let start: usize = at;
            let ghost before = commands.deep_view();
            proof {
                lemma_word_end(line, start as int);
            }
            while at < length && !is_whitespace(input.get_char(at))
                invariant
                    line == input@,
                    length == line.len(),
                    start <= at <= length,
                    word_end(line, at as int) == word_end(line, start as int),
                decreases length - at,
            {
                at += 1;
            }
            let word = input.substring_char(start, at);
            commands.push(word);
            proof {
                assert(at as int == word_end(line, start as int));
                assert(commands.deep_view() =~= before.push(word@));
                assert(before.push(word@) + split_from(line, at as int) =~= before + (seq![word@]
                    + split_from(line, at as int)));
            }
        }
    }
    proof {
        assert(commands.deep_view() + Seq::<Seq<char>>::empty() =~= commands.deep_view());
    }
    commands
}

/// A word: at least one character, none of them whitespace.
pub open spec fn is_word(token: Seq<char>) -> bool {
    &&& token.len() > 0
    &&& forall|j: int| 0 <= j < token.len() ==> !is_whitespace_spec(#[trigger] token[j])
}

/// Every token of a line is a word.
pub proof fn lemma_split_gives_words(line: Seq<char>, from: int)
    requires
        0 <= from <= line.len(),
    ensures
        forall|i: int|
            0 <= i < split_from(line, from).len() ==> is_word(#[trigger] split_from(line, from)[i]),
    decreases line.len() - from,
{
    if from >= line.len() {
        assert(split_from(line, from).len() == 0);
    } else if is_whitespace_spec(line[from]) {
        lemma_split_gives_words(line, from + 1);
        assert(split_from(line, from) == split_from(line, from + 1));
    } else {
        lemma_word_end(line, from);
        let end = word_end(line, from);
        lemma_split_gives_words(line, end);
        let word = line.subrange(from, end);
        let rest = split_from(line, end);
        let all = seq![word] + rest;
        assert(split_from(line, from) == all);
        assert(is_word(word)) by {
            assert forall|j: int| 0 <= j < word.len() implies !is_whitespace_spec(
                #[trigger] word[j],
            ) by {
                assert(word[j] == line[from + j]);
            }
        }
        assert forall|i: int| 0 <= i < all.len() implies is_word(#[trigger] all[i]) by {
            if i == 0 {
                assert(all[0] == word);
            } else {
                assert(all[i] == rest[i - 1]);
            }
        }
    }
}

} // verus!
