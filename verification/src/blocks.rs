use crate::error::CollectBlocksFromStringError;
use vstd::prelude::*;
use vstd::utf8::encode_utf8;

verus! {

/// The brace that opens a placeholder when doubled.
pub const OPENING_BRACE: char = '{';

/// The brace that closes a placeholder when doubled.
pub const CLOSING_BRACE: char = '}';

/// What a block of a template is.
#[derive(Clone, Copy, Debug, PartialEq, Eq, Structural)]
pub enum BlockKind {
    /// Text that is copied to the output, once its escapes are undone.
    Literal,
    /// The name of a variable, written between doubled braces.
    Placeholder,
}

/// One block of a template: a stretch of literal text, or the name inside a placeholder.
#[derive(Debug, PartialEq, Eq)]
pub struct Block {
    pub kind: BlockKind,
    /// The block's characters exactly as the template holds them.
    pub text: String,
    /// The byte offset in the template at which the block starts.
    pub offset: usize,
}

/// The mathematical value of a [`Block`].
pub struct BlockView {
    pub kind: BlockKind,
    pub text: Seq<char>,
    pub offset: nat,
}

impl View for Block {
    type V = BlockView;

    open spec fn view(&self) -> BlockView {
        BlockView { kind: self.kind, text: self.text@, offset: self.offset as nat }
    }
}

/// The values of a sequence of blocks.
pub open spec fn block_views(blocks: Seq<Block>) -> Seq<BlockView> {
    blocks.map_values(|b: Block| b@)
}

/// The number of bytes that the first `index` characters of `text` take in UTF-8.
pub open spec fn byte_offset(text: Seq<char>, index: int) -> nat {
    encode_utf8(text.take(index)).len()
}

/// Whether `s` holds `c` at the two positions from `at`.
pub open spec fn double_at(s: Seq<char>, at: int, c: char) -> bool {
    0 <= at && at + 2 <= s.len() && s[at] == c && s[at + 1] == c
}

/// Whether `s` holds `c` at the three positions from `at`.
pub open spec fn triple_at(s: Seq<char>, at: int, c: char) -> bool {
    0 <= at && at + 3 <= s.len() && s[at] == c && s[at + 1] == c && s[at + 2] == c
}

/// The position of the first delimiter at or after `from`, or `s.len()` where there is none.
///
/// The text is read from left to right. Three `c` in a row are an escape and are skipped
/// together; two `c` in a row that are not the start of such an escape are the delimiter;
/// anything else is skipped one character at a time.
pub open spec fn find_delimiter(s: Seq<char>, from: int, c: char) -> int
    decreases s.len() - from,
{
    if from < 0 || from >= s.len() {
        s.len() as int
    } else if triple_at(s, from, c) {
        find_delimiter(s, from + 3, c)
    } else if double_at(s, from, c) {
        from
    } else {
        find_delimiter(s, from + 1, c)
    }
}

/// The block of the given kind that spans the characters `start..end` of `s`.
pub open spec fn block_at(kind: BlockKind, s: Seq<char>, start: int, end: int) -> BlockView {
    BlockView { kind, text: s.subrange(start, end), offset: byte_offset(s, start) }
}

/// The blocks of `s` from position `from` on, where `from` is read as literal text.
///
/// The literal text runs up to the next opening delimiter and is a block unless it is
/// empty. The placeholder's name runs from behind that delimiter up to the next closing
/// delimiter and is always a block. Where the closing delimiter is missing, the result is
/// the byte offset at which the name starts.
pub open spec fn blocks_from(s: Seq<char>, from: int) -> Result<Seq<BlockView>, nat>
    decreases s.len() - from,
    via blocks_from_decreases
{
    if from < 0 || from >= s.len() {
        Ok(Seq::empty())
    } else {
        let open = find_delimiter(s, from, OPENING_BRACE);
        let literal = if open > from {
            seq![block_at(BlockKind::Literal, s, from, open)]
        } else {
            Seq::empty()
        };
        if open >= s.len() {
            Ok(literal)
        } else {
            let name_start = open + 2;
            let close = find_delimiter(s, name_start, CLOSING_BRACE);
            if close >= s.len() {
                Err(byte_offset(s, name_start))
            } else {
                match blocks_from(s, close + 2) {
                    Ok(rest) => Ok(
                        literal + seq![block_at(BlockKind::Placeholder, s, name_start, close)]
                            + rest,
                    ),
                    Err(offset) => Err(offset),
                }
            }
        }
    }
}

#[via_fn]
proof fn blocks_from_decreases(s: Seq<char>, from: int) {
    if 0 <= from < s.len() {
        let open = find_delimiter(s, from, OPENING_BRACE);
        lemma_find_delimiter(s, from, OPENING_BRACE);
        if open < s.len() {
            lemma_find_delimiter(s, open + 2, CLOSING_BRACE);
        }
    }
}

/// The blocks of the template `s`, or the byte offset at which an unclosed placeholder starts.
pub open spec fn blocks_of(s: Seq<char>) -> Result<Seq<BlockView>, nat> {
    blocks_from(s, 0)
}

/// Where `find_delimiter` lands: not before `from`, and on a delimiter unless at the end.
pub proof fn lemma_find_delimiter(s: Seq<char>, from: int, c: char)
    requires
        0 <= from <= s.len(),
    ensures
        from <= find_delimiter(s, from, c) <= s.len(),
        find_delimiter(s, from, c) < s.len() ==> double_at(s, find_delimiter(s, from, c), c),
    decreases s.len() - from,
{
    if from >= s.len() {
    } else if triple_at(s, from, c) {
        lemma_find_delimiter(s, from + 3, c);
    } else if double_at(s, from, c) {
    } else {
        lemma_find_delimiter(s, from + 1, c);
    }
}

/// The blocks that a scan of `s` still finds when it stands at the position `at`.
///
/// The scan reads `s` once, from left to right, in one of two modes: in literal text, or
/// inside a placeholder. The block that it is reading started at `block_start`.
///
/// In literal text, three opening braces in a row are skipped together and stay in the
/// text. Two in a row end the literal block, which counts only if it is not empty, and
/// the placeholder's name starts behind them. Inside a placeholder, three closing braces
/// in a row are skipped together and stay in the name. Two in a row end the name, and
/// literal text starts behind them. Anything else is skipped one character at a time.
/// At the end, literal text that is not empty is a last block, and a placeholder that is
/// still open is an error at the offset where its name starts.
pub open spec fn scan(s: Seq<char>, at: int, inside: bool, block_start: int) -> Result<
    Seq<BlockView>,
    nat,
>
    decreases s.len() - at,
{
    if at < 0 || at >= s.len() {
        if inside {
            Err(byte_offset(s, block_start))
        } else if block_start < s.len() {
            Ok(seq![block_at(BlockKind::Literal, s, block_start, s.len() as int)])
        } else {
            Ok(Seq::empty())
        }
    } else if !inside {
        if triple_at(s, at, OPENING_BRACE) {
            scan(s, at + 3, false, block_start)
        } else if double_at(s, at, OPENING_BRACE) {
            let literal = if at > block_start {
                seq![block_at(BlockKind::Literal, s, block_start, at)]
            } else {
                Seq::empty()
            };
            prepend_blocks(literal, scan(s, at + 2, true, at + 2))
        } else {
            scan(s, at + 1, false, block_start)
        }
    } else {
        if triple_at(s, at, CLOSING_BRACE) {
            scan(s, at + 3, true, block_start)
        } else if double_at(s, at, CLOSING_BRACE) {
            prepend_blocks(
                seq![block_at(BlockKind::Placeholder, s, block_start, at)],
                scan(s, at + 2, false, at + 2),
            )
        } else {
            scan(s, at + 1, true, block_start)
        }
    }
}

/// What follows the opening of a placeholder whose name starts at `name_start`: the
/// placeholder and the blocks behind it, or the error of a placeholder that is not
/// closed.
pub open spec fn blocks_from_name(s: Seq<char>, name_start: int) -> Result<Seq<BlockView>, nat> {
    let close = find_delimiter(s, name_start, CLOSING_BRACE);
    if close >= s.len() {
        Err(byte_offset(s, name_start))
    } else {
        prepend_blocks(
            seq![block_at(BlockKind::Placeholder, s, name_start, close)],
            blocks_from(s, close + 2),
        )
    }
}

/// A scan that stands at `at`, with nothing but skipped text between the start of its
/// block and `at`, finds the blocks that start where its block starts.
pub proof fn lemma_scan_finds_blocks(s: Seq<char>, at: int, inside: bool, block_start: int)
    requires
        0 <= block_start <= at <= s.len(),
        inside ==> find_delimiter(s, block_start, CLOSING_BRACE) == find_delimiter(
            s,
            at,
            CLOSING_BRACE,
        ),
        !inside ==> find_delimiter(s, block_start, OPENING_BRACE) == find_delimiter(
            s,
            at,
            OPENING_BRACE,
        ),
    ensures
        inside ==> scan(s, at, inside, block_start) == blocks_from_name(s, block_start),
        !inside ==> scan(s, at, inside, block_start) == blocks_from(s, block_start),
    decreases s.len() - at,
{
    let c = if inside {
        CLOSING_BRACE
    } else {
        OPENING_BRACE
    };
    lemma_find_delimiter(s, block_start, c);
    if at >= s.len() {
        if !inside && block_start < s.len() {
            lemma_find_delimiter(s, at, c);
        }
    } else if triple_at(s, at, c) {
        lemma_scan_finds_blocks(s, at + 3, inside, block_start);
    } else if double_at(s, at, c) {
        lemma_scan_finds_blocks(s, at + 2, !inside, at + 2);
        if !inside {
            lemma_find_delimiter(s, at + 2, CLOSING_BRACE);
            match blocks_from_name(s, at + 2) {
                Ok(rest) => {
                    let literal = if at > block_start {
                        seq![block_at(BlockKind::Literal, s, block_start, at)]
                    } else {
                        Seq::<BlockView>::empty()
                    };
                    let close = find_delimiter(s, at + 2, CLOSING_BRACE);
                    let name = seq![block_at(BlockKind::Placeholder, s, at + 2, close)];
                    assert(literal + (name + blocks_from(s, close + 2)->Ok_0) =~= literal + name
                        + blocks_from(s, close + 2)->Ok_0);
                },
                Err(_) => {},
            }
        }
    } else {
        lemma_scan_finds_blocks(s, at + 1, inside, block_start);
    }
}

/// The blocks of a template are the blocks that one scan of it finds, from its first
/// character on and starting in literal text.
pub proof fn lemma_blocks_of_is_the_scan(s: Seq<char>)
    ensures
        blocks_of(s) == scan(s, 0, false, 0),
{
    lemma_scan_finds_blocks(s, 0, false, 0);
}

/// Text without a doubled `c` from `from` on holds no delimiter there.
pub proof fn lemma_find_delimiter_absent(s: Seq<char>, from: int, c: char)
    requires
        0 <= from <= s.len(),
        forall|i: int| from <= i ==> !double_at(s, i, c),
    ensures
        find_delimiter(s, from, c) == s.len(),
    decreases s.len() - from,
{
    if from < s.len() {
        lemma_find_delimiter_absent(s, from + 1, c);
    }
}

/// Whether `s` holds neither an opening nor a closing brace.
pub open spec fn brace_free(s: Seq<char>) -> bool {
    forall|i: int| 0 <= i < s.len() ==> s[i] != OPENING_BRACE && s[i] != CLOSING_BRACE
}

/// A template that is not empty and holds no brace is one literal block: the whole
/// template, at offset 0.
pub proof fn lemma_brace_free_is_one_literal(s: Seq<char>)
    requires
        s.len() > 0,
        brace_free(s),
    ensures
        blocks_of(s) == Ok::<Seq<BlockView>, nat>(
            seq![BlockView { kind: BlockKind::Literal, text: s, offset: 0 }],
        ),
{
    lemma_find_delimiter_absent(s, 0, OPENING_BRACE);
    assert(s.subrange(0, s.len() as int) =~= s);
}

/// The characters of `text`, in order.
pub fn chars_of(text: &str) -> (chars: Vec<char>)
    ensures
        chars@ == text@,
{
    let mut chars: Vec<char> = Vec::new();
    for c in it: text.chars()
        invariant
            chars@ == it.seq().take(it.index() as int),
            it.seq() == text@,
    {
        chars.push(c);
    }
    chars
}

/// Whether `chars` holds `c` at the two positions from `at`.
pub fn is_double_at(chars: &Vec<char>, at: usize, c: char) -> (found: bool)
    ensures
        found == double_at(chars@, at as int, c),
{
    at < chars.len() && chars.len() - at >= 2 && chars[at] == c && chars[at + 1] == c
}

/// Whether `chars` holds `c` at the three positions from `at`.
pub fn is_triple_at(chars: &Vec<char>, at: usize, c: char) -> (found: bool)
    ensures
        found == triple_at(chars@, at as int, c),
{
    at < chars.len() && chars.len() - at >= 3 && chars[at] == c && chars[at + 1] == c && chars[at
        + 2] == c
}

/// Finds the first delimiter made of `c` at or after `from`.
pub fn find_delimiter_from(chars: &Vec<char>, from: usize, c: char) -> (at: usize)
    ensures
        at == find_delimiter(chars@, from as int, c),
        at <= chars.len(),
        from <= chars.len() ==> from <= at,
{
    let n = chars.len();
    let mut i: usize = from;
    while i < n
        invariant
            n == chars.len(),
            from <= i,
            from <= n ==> i <= n,
            find_delimiter(chars@, i as int, c) == find_delimiter(chars@, from as int, c),
        decreases n - i,
    {
        if is_triple_at(chars, i, c) {
            i = i + 3;
        } else if is_double_at(chars, i, c) {
            return i;
        } else {
            i = i + 1;
        }
    }
    n
}

/// The byte offset in `text` of the character at `index`.
fn byte_offset_of(text: &str, index: usize) -> (offset: usize)
    requires
        index <= text@.len(),
    ensures
        offset == byte_offset(text@, index as int),
{
    text.substring_char(0, index).as_bytes().len()
}

/// The block of the given kind that spans the characters `start..end` of `text`.
fn cut_block(text: &str, kind: BlockKind, start: usize, end: usize) -> (block: Block)
    requires
        start <= end <= text@.len(),
    ensures
        block@ == block_at(kind, text@, start as int, end as int),
{
    let offset = byte_offset_of(text, start);
    Block { kind, text: text.substring_char(start, end).to_owned(), offset }
}

/// What a result of `blocks_from` becomes when `prefix` is put in front of its blocks.
pub open spec fn prepend_blocks(
    prefix: Seq<BlockView>,
    rest: Result<Seq<BlockView>, nat>,
) -> Result<Seq<BlockView>, nat> {
    match rest {
        Ok(blocks) => Ok(prefix + blocks),
        Err(offset) => Err(offset),
    }
}

/// Splits a template into its literal and placeholder blocks.
///
/// Fails where a placeholder is opened and never closed, with the byte offset of the first
/// character after the opening braces.
pub fn collect_blocks_from_string(text: &str) -> (result: Result<
    Vec<Block>,
    CollectBlocksFromStringError,
>)
    ensures
        (match result {
            Ok(blocks) => blocks_of(text@) == Ok::<Seq<BlockView>, nat>(block_views(blocks@)),
            Err(CollectBlocksFromStringError::OpenedBlockIsNotClosed { block_start_offset }) => {
                blocks_of(text@) == Err::<Seq<BlockView>, nat>(block_start_offset as nat)
            },
        }),
{
    let chars = chars_of(text);
    let n = chars.len();
    let mut blocks: Vec<Block> = Vec::new();
    let mut from: usize = 0;
    while from < n
        invariant
            n == chars.len(),
            chars@ == text@,
            from <= n,
            blocks_of(text@) == prepend_blocks(
                block_views(blocks@),
                blocks_from(text@, from as int),
            ),
        decreases n - from,
    {
        let ghost before = block_views(blocks@);
        let ghost start = from as int;
        let open = find_delimiter_from(&chars, from, OPENING_BRACE);
        proof {
            lemma_find_delimiter(text@, start, OPENING_BRACE);
        }
        let ghost literal = if open > from {
            seq![block_at(BlockKind::Literal, text@, start, open as int)]
        } else {
            Seq::<BlockView>::empty()
        };
        if open > from {
            let block = cut_block(text, BlockKind::Literal, from, open);
            blocks.push(block);
        }
        assert(block_views(blocks@) =~= before + literal);
        if open >= n {
            return Ok(blocks);
        }
        let name_start = open + 2;
        let close = find_delimiter_from(&chars, name_start, CLOSING_BRACE);
        proof {
            lemma_find_delimiter(text@, name_start as int, CLOSING_BRACE);
        }
        if close >= n {
            let block_start_offset = byte_offset_of(text, name_start);
            return Err(CollectBlocksFromStringError::OpenedBlockIsNotClosed { block_start_offset });
        }
        let block = cut_block(text, BlockKind::Placeholder, name_start, close);
        blocks.push(block);
        from = close + 2;
        proof {
            let placeholder = seq![
                block_at(BlockKind::Placeholder, text@, name_start as int, close as int),
            ];
            assert(block_views(blocks@) =~= before + literal + placeholder);
            match blocks_from(text@, from as int) {
                Ok(rest) => {
                    assert((before + literal + placeholder) + rest =~= before + (literal
                        + placeholder + rest));
                },
                Err(_) => {},
            }
        }
    }
    Ok(blocks)
}

} // verus!
