use crate::blocks::{
    block_at, block_views, blocks_of, brace_free, chars_of, collect_blocks_from_string,
    double_at, find_delimiter, is_triple_at, lemma_find_delimiter_absent, triple_at, Block,
    BlockKind, BlockView, CLOSING_BRACE, OPENING_BRACE,
};
use crate::error::{CollectBlocksFromStringError, DecodeFailure, DecodeStringError};
use crate::variable_resolver::VariableResolver;
use vstd::prelude::*;

verus! {

/// `s` with every run of three `c` replaced by two, reading from left to right.
pub open spec fn collapse_triples(s: Seq<char>, c: char) -> Seq<char>
    decreases s.len(),
{
    if s.len() == 0 {
        s
    } else if triple_at(s, 0, c) {
        seq![c, c] + collapse_triples(s.skip(3), c)
    } else {
        seq![s[0]] + collapse_triples(s.skip(1), c)
    }
}

/// Literal text with its escapes undone: three opening braces stand for two, and three
/// closing braces stand for two.
pub open spec fn unescape(s: Seq<char>) -> Seq<char> {
    collapse_triples(collapse_triples(s, OPENING_BRACE), CLOSING_BRACE)
}

/// What one block contributes to the decoded text, or the name that could not be resolved.
pub open spec fn block_output(block: BlockView, variables: Map<Seq<char>, Seq<char>>) -> Result<
    Seq<char>,
    Seq<char>,
> {
    match block.kind {
        BlockKind::Literal => Ok(unescape(block.text)),
        BlockKind::Placeholder => if variables.contains_key(block.text) {
            Ok(variables[block.text])
        } else {
            Err(block.text)
        },
    }
}

/// The outputs of all blocks, joined in order; the name of the first placeholder from the
/// left that no variable resolves, if there is one.
pub open spec fn resolve_blocks(
    blocks: Seq<BlockView>,
    variables: Map<Seq<char>, Seq<char>>,
) -> Result<Seq<char>, Seq<char>>
    decreases blocks.len(),
{
    if blocks.len() == 0 {
        Ok(Seq::empty())
    } else {
        match resolve_blocks(blocks.drop_last(), variables) {
            Err(name) => Err(name),
            Ok(prefix) => match block_output(blocks.last(), variables) {
                Ok(piece) => Ok(prefix + piece),
                Err(name) => Err(name),
            },
        }
    }
}

/// The decoded form of `template`: it is split into blocks first, and the blocks are
/// resolved only if that succeeds.
pub open spec fn decode(template: Seq<char>, variables: Map<Seq<char>, Seq<char>>) -> Result<
    Seq<char>,
    DecodeFailure,
> {
    match blocks_of(template) {
        Err(offset) => Err(DecodeFailure::UnclosedPlaceholder { offset }),
        Ok(blocks) => match resolve_blocks(blocks, variables) {
            Err(name) => Err(DecodeFailure::UnresolvedVariable { name }),
            Ok(decoded) => Ok(decoded),
        },
    }
}

/// Whether `s` holds no escape: neither three opening nor three closing braces in a row.
pub open spec fn escape_free(s: Seq<char>) -> bool {
    forall|i: int| !triple_at(s, i, OPENING_BRACE) && !triple_at(s, i, CLOSING_BRACE)
}

/// Whether `s` holds no placeholder: its literal text runs to the end.
pub open spec fn placeholder_free(s: Seq<char>) -> bool {
    find_delimiter(s, 0, OPENING_BRACE) == s.len()
}

/// A prefix without `c` is left as it is, and the rest is collapsed as if it stood alone.
pub proof fn lemma_collapse_after_prefix(prefix: Seq<char>, rest: Seq<char>, c: char)
    requires
        forall|i: int| 0 <= i < prefix.len() ==> prefix[i] != c,
    ensures
        collapse_triples(prefix + rest, c) == prefix + collapse_triples(rest, c),
    decreases prefix.len(),
{
    if prefix.len() > 0 {
        assert((prefix + rest).skip(1) =~= prefix.skip(1) + rest);
        lemma_collapse_after_prefix(prefix.skip(1), rest, c);
    }
}

/// Text without three `c` in a row is left as it is.
pub proof fn lemma_collapse_without_triple(s: Seq<char>, c: char)
    requires
        forall|i: int| !triple_at(s, i, c),
    ensures
        collapse_triples(s, c) == s,
    decreases s.len(),
{
    if s.len() > 0 {
        assert forall|i: int| !triple_at(s.skip(1), i, c) by {
            if triple_at(s.skip(1), i, c) {
                assert(triple_at(s, i + 1, c));
            }
        }
        lemma_collapse_without_triple(s.skip(1), c);
    }
}

/// Text without an escape is its own unescaped form.
pub proof fn lemma_unescape_without_escape(s: Seq<char>)
    requires
        escape_free(s),
    ensures
        unescape(s) == s,
{
    lemma_collapse_without_triple(s, OPENING_BRACE);
    lemma_collapse_without_triple(s, CLOSING_BRACE);
}

/// A template without a placeholder decodes to its unescaped form, whatever the variables
/// are. Where it holds no escape either, it decodes to itself.
pub proof fn lemma_decode_without_placeholder(
    template: Seq<char>,
    variables: Map<Seq<char>, Seq<char>>,
)
    requires
        placeholder_free(template),
    ensures
        decode(template, variables) == Ok::<Seq<char>, DecodeFailure>(unescape(template)),
        escape_free(template) ==> decode(template, variables) == Ok::<Seq<char>, DecodeFailure>(
            template,
        ),
{
    if template.len() == 0 {
        assert(template =~= Seq::<char>::empty());
    } else {
        let literal = block_at(BlockKind::Literal, template, 0, template.len() as int);
        let blocks = seq![literal];
        assert(template.subrange(0, template.len() as int) =~= template);
        assert(resolve_blocks(blocks.drop_last(), variables) == Ok::<Seq<char>, Seq<char>>(
            Seq::empty(),
        ));
    }
    if escape_free(template) {
        lemma_unescape_without_escape(template);
    }
}

/// A brace-free text between three opening and three closing braces decodes to the same
/// text between two opening and two closing braces: the escape gives the doubled braces
/// back as literal text.
pub proof fn lemma_escaped_braces_decode_literally(
    inner: Seq<char>,
    variables: Map<Seq<char>, Seq<char>>,
)
    requires
        brace_free(inner),
    ensures
        decode(
            seq![OPENING_BRACE, OPENING_BRACE, OPENING_BRACE] + inner + seq![
                CLOSING_BRACE,
                CLOSING_BRACE,
                CLOSING_BRACE,
            ],
            variables,
        ) == Ok::<Seq<char>, DecodeFailure>(
            seq![OPENING_BRACE, OPENING_BRACE] + inner + seq![CLOSING_BRACE, CLOSING_BRACE],
        ),
{
    let opening = seq![OPENING_BRACE, OPENING_BRACE, OPENING_BRACE];
    let closing = seq![CLOSING_BRACE, CLOSING_BRACE, CLOSING_BRACE];
    let template = opening + inner + closing;
    // The literal text runs to the end: behind the escape there is no opening brace.
    assert forall|i: int| 3 <= i implies !double_at(template, i, OPENING_BRACE) by {}
    lemma_find_delimiter_absent(template, 3, OPENING_BRACE);
    lemma_decode_without_placeholder(template, variables);
    // Undoing the opening escape leaves the rest as it is.
    let tail = inner + closing;
    assert(template.skip(3) =~= tail);
    lemma_collapse_after_prefix(tail, Seq::empty(), OPENING_BRACE);
    // Undoing the closing escape leaves what stands before it as it is.
    let head = seq![OPENING_BRACE, OPENING_BRACE] + inner;
    assert(seq![OPENING_BRACE, OPENING_BRACE] + tail =~= head + closing);
    lemma_collapse_after_prefix(head, closing, CLOSING_BRACE);
    assert(collapse_triples(closing.skip(3), CLOSING_BRACE) =~= Seq::<char>::empty());
}

/// Replaces every run of three `c` in `text` by two, reading from left to right.
pub fn collapse_triples_in(text: &str, c: char) -> (collapsed: String)
    ensures
        collapsed@ == collapse_triples(text@, c),
{
    let chars = chars_of(text);
    let n = chars.len();
    let mut collapsed = String::new();
    let mut kept_from: usize = 0;
    let mut i: usize = 0;
    assert(text@.skip(0) =~= text@);
    while i < n
        invariant
            n == chars.len(),
            chars@ == text@,
            kept_from <= i <= n,
            collapse_triples(text@, c) == collapsed@ + text@.subrange(kept_from as int, i as int)
                + collapse_triples(text@.skip(i as int), c),
        decreases n - i,
    {
        let ghost rest = text@.skip(i as int);
        if is_triple_at(&chars, i, c) {
            collapsed.append(text.substring_char(kept_from, i + 2));
            assert(rest.skip(3) =~= text@.skip(i + 3));
            i = i + 3;
            kept_from = i;
        } else {
            assert(rest.skip(1) =~= text@.skip(i + 1));
            i = i + 1;
        }
    }
    collapsed.append(text.substring_char(kept_from, n));
    collapsed
}

/// Undoes the escapes in literal text.
pub fn unescape_literal(text: &str) -> (plain: String)
    ensures
        plain@ == unescape(text@),
{
    let opened = collapse_triples_in(text, OPENING_BRACE);
    collapse_triples_in(opened.as_str(), CLOSING_BRACE)
}

/// Resolves blocks against a table of variables and joins their outputs.
pub fn resolve_blocks_with(blocks: &Vec<Block>, variables: &VariableResolver) -> (result: Result<
    String,
    String,
>)
    ensures
        (match result {
            Ok(decoded) => resolve_blocks(block_views(blocks@), variables@) == Ok::<
                Seq<char>,
                Seq<char>,
            >(decoded@),
            Err(name) => resolve_blocks(block_views(blocks@), variables@) == Err::<
                Seq<char>,
                Seq<char>,
            >(name@),
        }),
{
    let ghost views = block_views(blocks@);
    let mut decoded = String::new();
    let mut i: usize = 0;
    while i < blocks.len()
        invariant
            i <= blocks.len(),
            views == block_views(blocks@),
            resolve_blocks(views.take(i as int), variables@) == Ok::<Seq<char>, Seq<char>>(
                decoded@,
            ),
        decreases blocks.len() - i,
    {
        let block = &blocks[i];
        assert(views.take(i + 1).drop_last() =~= views.take(i as int));
        match block.kind {
            BlockKind::Literal => {
                let plain = unescape_literal(block.text.as_str());
                decoded.append(plain.as_str());
            },
            BlockKind::Placeholder => {
                match variables.resolve_variable(block.text.as_str()) {
                    Some(value) => {
                        decoded.append(value);
                    },
                    None => {
                        proof {
                            lemma_resolve_blocks_fails_on(views, i + 1, variables@);
                        }
                        return Err(block.text.clone());
                    },
                }
            },
        }
        i = i + 1;
    }
    assert(views.take(blocks.len() as int) =~= views);
    Ok(decoded)
}

/// Once a prefix of the blocks fails to resolve, all the blocks fail in the same way.
pub proof fn lemma_resolve_blocks_fails_on(
    blocks: Seq<BlockView>,
    upto: int,
    variables: Map<Seq<char>, Seq<char>>,
)
    requires
        0 <= upto <= blocks.len(),
        resolve_blocks(blocks.take(upto), variables) is Err,
    ensures
        resolve_blocks(blocks, variables) == resolve_blocks(blocks.take(upto), variables),
    decreases blocks.len() - upto,
{
    if upto == blocks.len() {
        assert(blocks.take(upto) =~= blocks);
    } else {
        assert(blocks.take(upto + 1).drop_last() =~= blocks.take(upto));
        lemma_resolve_blocks_fails_on(blocks, upto + 1, variables);
    }
}

/// Decodes `text` against a table of variables.
pub fn decode_with(text: &str, variables: &VariableResolver) -> (result: Result<
    String,
    DecodeStringError,
>)
    ensures
        (match result {
            Ok(decoded) => decode(text@, variables@) == Ok::<Seq<char>, DecodeFailure>(decoded@),
            Err(error) => decode(text@, variables@) == Err::<Seq<char>, DecodeFailure>(error@),
        }),
{
    match collect_blocks_from_string(text) {
        Err(error) => Err(DecodeStringError::CollectBlocksFromStringError(error)),
        Ok(blocks) => match resolve_blocks_with(&blocks, variables) {
            Err(variable_name) => Err(DecodeStringError::CouldNotResolveVariable { variable_name }),
            Ok(decoded) => Ok(decoded),
        },
    }
}

} // verus!
