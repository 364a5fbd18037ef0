//! Which screen is shown, and the layout of text in table cells.

use vstd::prelude::*;
use vstd::std_specs::convert::FromSpecImpl;
use vstd::string::StringExecFns;
use vstd::utf8::{decode_utf8, encode_utf8, valid_utf8};

use crate::text::{piece_views, split_chars, split_on, text_views};

verus! {

/// The screen that is shown.
#[derive(Clone, Copy, Debug, Default, PartialEq, Eq, Structural)]
pub enum Screen {
    /// The listing of posts.
    #[default]
    PostList,
    /// One post with its comments.
    Post,
    /// The image of a post.
    Image,
    /// The listing of a post's comments.
    CommentList,
    /// One comment.
    Comment,
}

/// The screen with the number `code`; numbers that stand for no screen give the
/// listing of posts.
pub open spec fn screen_of(code: u16) -> Screen {
    if code == 1 {
        Screen::Post
    } else if code == 2 {
        Screen::Image
    } else if code == 3 {
        Screen::CommentList
    } else if code == 4 {
        Screen::Comment
    } else {
        Screen::PostList
    }
}

/// The number of the screen `screen`.
pub open spec fn code_of(screen: Screen) -> u16 {
    match screen {
        Screen::PostList => 0,
        Screen::Post => 1,
        Screen::Image => 2,
        Screen::CommentList => 3,
        Screen::Comment => 4,
    }
}

impl From<u16> for Screen {
    fn from(val: u16) -> (screen: Self) {
        match val {
            1 => Screen::Post,
            2 => Screen::Image,
            3 => Screen::CommentList,
            4 => Screen::Comment,
            _ => Screen::PostList,
        }
    }
}

impl FromSpecImpl<u16> for Screen {
    open spec fn obeys_from_spec() -> bool {
        true
    }

    open spec fn from_spec(val: u16) -> Self {
        screen_of(val)
    }
}

impl From<usize> for Screen {
    fn from(val: usize) -> (screen: Self) {
        let code: u16 = #[verifier::truncate]
        (val as u16);
        Screen::from(code)
    }
}

impl FromSpecImpl<usize> for Screen {
    open spec fn obeys_from_spec() -> bool {
        true
    }

    open spec fn from_spec(val: usize) -> Self {
        screen_of(val as u16)
    }
}

impl From<&Screen> for u16 {
    fn from(val: &Screen) -> (code: Self) {
        u16::from(*val)
    }
}

impl FromSpecImpl<&Screen> for u16 {
    open spec fn obeys_from_spec() -> bool {
        true
    }

    open spec fn from_spec(val: &Screen) -> Self {
        code_of(*val)
    }
}

impl From<Screen> for u16 {
    fn from(val: Screen) -> (code: Self) {
        match val {
            Screen::PostList => 0,
            Screen::Post => 1,
            Screen::Image => 2,
            Screen::CommentList => 3,
            Screen::Comment => 4,
        }
    }
}

impl FromSpecImpl<Screen> for u16 {
    open spec fn obeys_from_spec() -> bool {
        true
    }

    open spec fn from_spec(val: Screen) -> Self {
        code_of(val)
    }
}

/// A screen's number leads back to the screen.
pub proof fn lemma_screen_code_round_trip(screen: Screen)
    ensures
        screen_of(code_of(screen)) == screen,
        code_of(screen) <= 4,
{
}

/// Whether `c` is kept when text is laid out in cells: line breaks are dropped.
pub open spec fn is_kept(c: char) -> bool {
    c != '\r' && c != '\n'
}

/// `text` without its carriage returns and line feeds.
pub open spec fn without_line_breaks(text: Seq<char>) -> Seq<char> {
    text.filter(|c: char| is_kept(c))
}

/// The number of chunks of `width` bytes into which `len` bytes fall, the last one
/// possibly shorter.
pub open spec fn chunk_count(len: nat, width: nat) -> nat {
    if len % width == 0 {
        len / width
    } else {
        len / width + 1
    }
}

/// The text of the chunk with the number `k`: the bytes from `k * width` on, `width`
/// of them or as many as are left, read as UTF-8, and nothing where they are not
/// valid UTF-8.
pub open spec fn chunk_text(bytes: Seq<u8>, width: nat, k: nat) -> Seq<char> {
    let start = (k * width) as int;
    let end = if start + width <= bytes.len() {
        start + width
    } else {
        bytes.len() as int
    };
    let chunk = bytes.subrange(start, end);
    if valid_utf8(chunk) {
        decode_utf8(chunk)
    } else {
        Seq::<char>::empty()
    }
}

/// The cells after the first `k` chunks of `bytes` were dealt out to them in turn:
/// chunk `i` goes to cell `i % cells.len()`, and from the second row on a line feed
/// goes before it.
pub open spec fn cells_after(cells: Seq<Seq<char>>, bytes: Seq<u8>, width: nat, k: nat) -> Seq<
    Seq<char>,
>
    decreases k,
{
    if k == 0 {
        cells
    } else {
        let before = cells_after(cells, bytes, width, (k - 1) as nat);
        let i = (k - 1) as nat;
        let cell = (i % cells.len()) as int;
        let piece = chunk_text(bytes, width, i);
        let added = if i >= cells.len() {
            seq!['\n'] + piece
        } else {
            piece
        };
        before.update(cell, before[cell] + added)
    }
}

/// Reads `bytes` as UTF-8 with `core::str::from_utf8`, which succeeds exactly on
/// valid UTF-8 and then gives a string of just these bytes.
#[verifier::external_body]
fn utf8_text(bytes: &[u8]) -> (text: Option<&str>)
    ensures
        text is Some <==> valid_utf8(bytes@),
        text matches Some(t) ==> t@ == decode_utf8(bytes@),
{
    core::str::from_utf8(bytes).ok()
}

/// Adds `c` to the end of `text` with `String::push`.
#[verifier::external_body]
fn push_char(text: &mut String, c: char)
    ensures
        final(text)@ == old(text)@.push(c),
{
    text.push(c)
}

/// Copies `text` without its carriage returns and line feeds.
pub fn strip_line_breaks(text: &str) -> (stripped: String)
    ensures
        stripped@ == without_line_breaks(text@),
{
    let mut stripped = String::new();
    proof {
        reveal(Seq::filter);
        assert(text@.take(0) =~= Seq::<char>::empty());
    }
    for c in it: text.chars()
        invariant
            it.seq() == text@,
            stripped@ == without_line_breaks(text@.take(it.index() as int)),
    {
        proof {
            reveal(Seq::filter);
            let n = it.index() as int;
            assert(text@.take(n + 1).drop_last() =~= text@.take(n));
            assert(text@.take(n + 1).last() == c);
        }
        if c != '\r' && c != '\n' {
            push_char(&mut stripped, c);
        }
    }
    assert(text@.take(text@.len() as int) =~= text@);
    stripped
}

/// Adds `piece` to the end of the cell `cell`, after a line feed where `on_new_row`
/// holds.
fn add_to_cell(out: &mut Vec<String>, cell: usize, piece: &str, on_new_row: bool)
    requires
        cell < old(out).len(),
    ensures
        final(out).len() == old(out).len(),
        text_views(final(out)@) == text_views(old(out)@).update(
            cell as int,
            text_views(old(out)@)[cell as int] + if on_new_row {
                seq!['\n'] + piece@
            } else {
                piece@
            },
        ),
{
    let ghost before = out@;
    let target = &mut out[cell];
    if on_new_row {
        proof {
            reveal_strlit("\n");
        }
        assert("\n"@ =~= seq!['\n']);
        target.append("\n");
    }
    target.append(piece);
    proof {
        let added = if on_new_row {
            seq!['\n'] + piece@
        } else {
            piece@
        };
        assert(out@[cell as int]@ =~= before[cell as int]@ + added);
        assert(text_views(out@) =~= text_views(before).update(
            cell as int,
            text_views(before)[cell as int] + added,
        ));
    }
}

/// Going from chunk `k` to the next one: the start moves on by `width`, the cell by
/// one, around the end of the row, and the row by one where the cell comes round.
proof fn lemma_next_chunk(k: nat, width: nat, n: nat)
    requires
        n > 0,
    ensures
        (k + 1) * width == k * width + width,
        (k + 1) % n == if k % n + 1 == n {
            0
        } else {
            k % n + 1
        },
        (k + 1) / n == if k % n + 1 == n {
            k / n + 1
        } else {
            k / n
        },
        k % n < n,
        k >= n <==> k / n >= 1,
{
    assert((k + 1) * width == k * width + width) by (nonlinear_arith);
    vstd::arithmetic::div_mod::lemma_fundamental_div_mod(k as int, n as int);
    vstd::arithmetic::div_mod::lemma_fundamental_div_mod(k as int + 1, n as int);
    vstd::arithmetic::div_mod::lemma_mod_bound(k as int, n as int);
    vstd::arithmetic::div_mod::lemma_mod_bound(k as int + 1, n as int);
    let q = k as int / n as int;
    let r = k as int % n as int;
    assert(k as int + 1 == (q + 1) * (n as int) + (r + 1 - n)) by (nonlinear_arith)
        requires
            k as int == (n as int) * q + r,
    ;
    assert(k as int + 1 == q * (n as int) + (r + 1)) by (nonlinear_arith)
        requires
            k as int == (n as int) * q + r,
    ;
    if r + 1 == n {
        vstd::arithmetic::div_mod::lemma_fundamental_div_mod_converse(
            k as int + 1,
            n as int,
            q + 1,
            0,
        );
    } else {
        vstd::arithmetic::div_mod::lemma_fundamental_div_mod_converse(
            k as int + 1,
            n as int,
            q,
            r + 1,
        );
    }
    vstd::arithmetic::div_mod::lemma_div_pos_is_pos(k as int, n as int);
    if k < n {
        vstd::arithmetic::div_mod::lemma_basic_div(k as int, n as int);
    } else {
        vstd::arithmetic::div_mod::lemma_div_is_ordered(n as int, k as int, n as int);
        vstd::arithmetic::div_mod::lemma_div_basics(n as int);
    }
}

/// Deals the text `text`, without its line breaks, out to the cells of `out` in
/// chunks of `width` bytes: the first chunk goes to the first cell, the next one to
/// the next cell, and after the last cell a new row begins in the first one. From the
/// second row on a line feed goes before each chunk. A chunk that is not valid UTF-8
/// on its own adds no text. Returns the height of the row of cells: 1 and the number
/// of times the cells came round.
pub fn split_cells(text: &str, width: usize, out: &mut Vec<String>) -> (height: usize)
    requires
        width > 0,
        old(out).len() > 0 || encode_utf8(without_line_breaks(text@)).len() == 0,
        encode_utf8(without_line_breaks(text@)).len() < usize::MAX,
    ensures
        final(out).len() == old(out).len(),
        text_views(final(out)@) == cells_after(
            text_views(old(out)@),
            encode_utf8(without_line_breaks(text@)),
            width as nat,
            chunk_count(encode_utf8(without_line_breaks(text@)).len(), width as nat),
        ),
        old(out).len() > 0 ==> height == 1 + chunk_count(
            encode_utf8(without_line_breaks(text@)).len(),
            width as nat,
        ) / (old(out).len() as nat),
        old(out).len() == 0 ==> height == 1,
{
    let stripped = strip_line_breaks(text);
    let bytes = stripped.as_str().as_bytes();
    let len: usize = bytes.len();
    let n: usize = out.len();
    let ghost cells = text_views(out@);
    if len == 0 {
        assert(chunk_count(0, width as nat) == 0) by (nonlinear_arith)
            requires
                width > 0,
        ;
        return 1;
    }
    let mut start: usize = 0;
    let mut cell: usize = 0;
    let mut height: usize = 1;
    let ghost mut k: nat = 0;
    assert(0int % (n as int) == 0 && 0int / (n as int) == 0) by (nonlinear_arith)
        requires
            n > 0,
    ;
    while start < len
        invariant
            width > 0,
            n > 0,
            n == out.len(),
            len == bytes@.len(),
            len < usize::MAX,
            start <= len,
            start == k * width || (start == len && k * width >= len),
            start < len ==> start == k * width,
            k * width < len + width,
            cell == k % (n as nat),
            height == 1 + k / (n as nat),
            height <= 1 + k,
            k <= start,
            cells.len() == n,
            text_views(out@) == cells_after(cells, bytes@, width as nat, k),
        ensures
            start == len,
            k * width >= len,
            k * width < len + width,
            n == out.len(),
            height == 1 + k / (n as nat),
            text_views(out@) == cells_after(cells, bytes@, width as nat, k),
        decreases len - start,
    {
        proof {
            lemma_next_chunk(k, width as nat, n as nat);
        }
        let end: usize = if width <= len - start {
            start + width
        } else {
            len
        };
        let chunk = vstd::slice::slice_subrange(bytes, start, end);
        let piece: &str = match utf8_text(chunk) {
            Some(t) => t,
            None => {
                proof {
                    reveal_strlit("");
                }
                assert(""@ =~= Seq::<char>::empty());
                ""
            },
        };
        assert(piece@ == chunk_text(bytes@, width as nat, k));
        let ghost before = text_views(out@);
        proof {
            assert(k >= n <==> height != 1);
        }
        add_to_cell(out, cell, piece, height != 1);
        proof {
            let added = if k >= n {
                seq!['\n'] + piece@
            } else {
                piece@
            };
            assert(cells_after(cells, bytes@, width as nat, k + 1) == before.update(
                cell as int,
                before[cell as int] + added,
            ));
        }
        cell = if cell + 1 == n {
            0
        } else {
            cell + 1
        };
        if cell == 0 {
            height = height + 1;
        }
        start = end;
        proof {
            k = k + 1;
        }
    }
    proof {
        let w = width as nat;
        let l = len as nat;
        assert(k == chunk_count(l, w)) by {
            vstd::arithmetic::div_mod::lemma_fundamental_div_mod(l as int, w as int);
            vstd::arithmetic::div_mod::lemma_mod_bound(l as int, w as int);
            let q = l as int / w as int;
            let r = l as int % w as int;
            assert(k * w >= l && k * w < l + w);
            if r == 0 {
                assert(k == q) by (nonlinear_arith)
                    requires
                        l == w * q,
                        k * w >= l,
                        k * w < l + w,
                        w > 0,
                ;
            } else {
                assert(k == q + 1) by (nonlinear_arith)
                    requires
                        l == w * q + r,
                        0 < r < w,
                        k * w >= l,
                        k * w < l + w,
                        w > 0,
                ;
            }
        }
    }
    height
}

/// Whether `char::is_whitespace` holds of `c`.
pub uninterp spec fn is_space(c: char) -> bool;

/// Whether `char::is_control` holds of `c`.
pub uninterp spec fn is_control(c: char) -> bool;

/// Asks `char::is_whitespace` whether `c` has the Unicode property White_Space.
#[verifier::external_body]
fn char_is_space(c: char) -> (b: bool)
    ensures
        b == is_space(c),
{
    c.is_whitespace()
}

/// Asks `char::is_control` whether `c` is a control code.
#[verifier::external_body]
fn char_is_control(c: char) -> (b: bool)
    ensures
        b == is_control(c),
{
    c.is_control()
}

/// Whether `c` is shown in a line of text: white space and control codes are not.
pub open spec fn is_shown(c: char) -> bool {
    !is_space(c) && !is_control(c)
}

/// The characters of `word` that are shown.
pub open spec fn shown(word: Seq<char>) -> Seq<char> {
    word.filter(|c: char| is_shown(c))
}

/// Lines in the making: the lines that are finished, and the line that is being
/// filled with the number of characters shown in it, if one is.
pub struct Lines {
    pub done: Seq<Seq<char>>,
    pub open: Option<(Seq<char>, nat)>,
}

/// The lines made of `words` for a width of `width`, word by word. A word opens a
/// line where none is being filled. Where the characters shown so far in the line and
/// those of the word reach `width`, the line is finished and the word is left out;
/// else a blank and the shown characters of the word go to the end of the line.
pub open spec fn lines_made(words: Seq<Seq<char>>, width: nat) -> Lines
    decreases words.len(),
{
    if words.len() == 0 {
        Lines { done: Seq::empty(), open: None }
    } else {
        let before = lines_made(words.drop_last(), width);
        let word = shown(words.last());
        let (line, len) = match before.open {
            Some(open) => open,
            None => (Seq::<char>::empty(), 0nat),
        };
        if len + word.len() >= width {
            Lines { done: before.done.push(line), open: None }
        } else {
            Lines { done: before.done, open: Some((line + seq![' '] + word, len + word.len())) }
        }
    }
}

/// The lines into which `words` fall for a width of `width`: those that were
/// finished, and last the one that was still being filled, if one was.
pub open spec fn wrapped_lines(words: Seq<Seq<char>>, width: nat) -> Seq<Seq<char>> {
    let lines = lines_made(words, width);
    match lines.open {
        Some(open) => lines.done.push(open.0),
        None => lines.done,
    }
}

/// Copies the characters of `word` that are shown.
fn shown_text(word: &Vec<char>) -> (text: String)
    ensures
        text@ == shown(word@),
        text@.len() <= word@.len(),
{
    let mut text = String::new();
    let mut i: usize = 0;
    proof {
        reveal(Seq::filter);
        assert(word@.take(0) =~= Seq::<char>::empty());
    }
    while i < word.len()
        invariant
            i <= word.len(),
            text@ == shown(word@.take(i as int)),
            text@.len() <= i,
        decreases word.len() - i,
    {
        let c: char = word[i];
        proof {
            reveal(Seq::filter);
            assert(word@.take(i + 1).drop_last() =~= word@.take(i as int));
            assert(word@.take(i + 1).last() == c);
        }
        if !char_is_space(c) && !char_is_control(c) {
            push_char(&mut text, c);
        }
        i = i + 1;
    }
    assert(word@.take(word@.len() as int) =~= word@);
    text
}

/// Breaks `raw` into lines for a width of `width`. The words of `raw` are what
/// stands between its blanks. Each line takes words, each after a blank and without
/// its white space and control codes, until a word comes with which the characters
/// shown in the line would reach `width`: that word ends the line and is left out.
pub fn filter_line(raw: &str, width: usize) -> (lines: Vec<String>)
    ensures
        text_views(lines@) == wrapped_lines(split_on(raw@, ' '), width as nat),
{
    let words = split_chars(raw, ' ');
    let mut lines: Vec<String> = Vec::new();
    let mut line = String::new();
    let mut line_len: usize = 0;
    let mut open: bool = false;
    let mut k: usize = 0;
    proof {
        assert(piece_views(words@).take(0) =~= Seq::<Seq<char>>::empty());
        assert(text_views(lines@) =~= Seq::<Seq<char>>::empty());
    }
    while k < words.len()
        invariant
            k <= words.len(),
            piece_views(words@) == split_on(raw@, ' '),
            text_views(lines@) == lines_made(piece_views(words@).take(k as int), width as nat).done,
            open ==> lines_made(piece_views(words@).take(k as int), width as nat).open == Some(
                (line@, line_len as nat),
            ),
            !open ==> lines_made(piece_views(words@).take(k as int), width as nat).open is None,
            open ==> line_len < width,
        decreases words.len() - k,
    {
        let word = shown_text(&words[k]);
        let count: usize = word.as_str().unicode_len();
        proof {
            let all = piece_views(words@);
            assert(all.take(k + 1).drop_last() =~= all.take(k as int));
            assert(all.take(k + 1).last() == words@[k as int]@);
        }
        if !open {
            line = String::new();
            line_len = 0;
            open = true;
        }
        if count >= width || line_len >= width - count {
            let ghost done = text_views(lines@).push(line@);
            lines.push(line);
            line = String::new();
            line_len = 0;
            open = false;
            assert(text_views(lines@) =~= done);
        } else {
            proof {
                reveal_strlit(" ");
            }
            assert(" "@ =~= seq![' ']);
            line.append(" ");
            line.append(word.as_str());
            line_len = line_len + count;
        }
        k = k + 1;
    }
    proof {
        assert(piece_views(words@).take(k as int) =~= piece_views(words@));
    }
    if open {
        let ghost all = text_views(lines@).push(line@);
        lines.push(line);
        assert(text_views(lines@) =~= all);
    }
    lines
}

} // verus!
