//! Wrapping the text of a note so that it stays inside the note's box.

use vstd::prelude::*;

verus! {

/// The characters of `text`, one per element.
pub fn chars_of(text: &str) -> (v: Vec<char>)
    ensures
        v@ == text@,
{
    let mut v: Vec<char> = Vec::new();
    for c in it: text.chars()
        invariant
            v@ == it.seq().take(it.index() as int),
    {
        v.push(c);
    }
    v
}


/// The index of the first `c` in `s`, or `s.len()` when there is none.
pub open spec fn first_index(s: Seq<char>, c: char) -> nat
    decreases s.len(),
{
    if s.len() == 0 {
        0
    } else if s[0] == c {
        0
    } else {
        1 + first_index(s.skip(1), c)
    }
}

/// Places one word on a line of `cols` columns whose first `col` columns
/// are taken, and gives the text written and the columns taken afterwards.
///
/// A word longer than a whole line is cut into pieces of `cols` characters,
/// each on a line of its own. A word that does not fit behind what is on
/// the line starts a new line; one that fits goes after a single space.
pub open spec fn place_word(col: nat, w: Seq<char>, cols: nat) -> (Seq<char>, nat)
    decreases w.len(),
{
    if cols > 0 && w.len() > cols {
        let head = if col > 0 {
            seq!['\n'] + w.take(cols as int)
        } else {
            w.take(cols as int)
        };
        let rest = place_word(0, w.skip(cols as int), cols);
        (head.push('\n') + rest.0, rest.1)
    } else if col > 0 && col + 1 + w.len() > cols {
        (seq!['\n'] + w, w.len())
    } else if col > 0 {
        (seq![' '] + w, col + 1 + w.len())
    } else {
        (w, w.len())
    }
}

/// The words of `l` (the pieces between single spaces, empty ones too),
/// placed one after another starting at column `col`.
pub open spec fn wrap_words(col: nat, l: Seq<char>, cols: nat) -> Seq<char>
    decreases l.len(),
{
    let e = first_index(l, ' ');
    let placed = place_word(col, l.take(e as int), cols);
    if e < l.len() {
        placed.0 + wrap_words(placed.1, l.skip(e + 1 as int), cols)
    } else {
        placed.0
    }
}

/// A line without the carriage return of a CRLF line ending.
pub open spec fn strip_cr(l: Seq<char>) -> Seq<char> {
    if l.len() > 0 && l.last() == '\r' {
        l.drop_last()
    } else {
        l
    }
}

/// The lines of `t` (split at `\n`, a `\r` before it dropped, no empty
/// line after a final line ending), each wrapped on its own and separated
/// by `\n`; `first` says whether `t` starts the text.
pub open spec fn wrap_lines(first: bool, t: Seq<char>, cols: nat) -> Seq<char>
    decreases t.len(),
{
    if t.len() == 0 {
        Seq::empty()
    } else {
        let e = first_index(t, '\n');
        let sep: Seq<char> = if first {
            Seq::empty()
        } else {
            seq!['\n']
        };
        if e < t.len() {
            sep + wrap_words(0, strip_cr(t.take(e as int)), cols) + wrap_lines(
                false,
                t.skip(e + 1 as int),
                cols,
            )
        } else {
            sep + wrap_words(0, t, cols)
        }
    }
}

/// `t` wrapped to lines of `cols` columns.
pub open spec fn wrap_text(t: Seq<char>, cols: nat) -> Seq<char> {
    wrap_lines(true, t, cols)
}

/// `first_index` is the position of the first `c`.
pub proof fn lemma_first_index(s: Seq<char>, c: char, j: int)
    requires
        0 <= j <= s.len(),
        forall|k: int| 0 <= k < j ==> s[k] != c,
        j == s.len() || s[j] == c,
    ensures
        first_index(s, c) == j,
    decreases j,
{
    if j > 0 {
        assert(s[0] != c);
        assert forall|k: int| 0 <= k < j - 1 implies s.skip(1)[k] != c by {
            assert(s.skip(1)[k] == s[k + 1]);
        }
        if j < s.len() {
            assert(s.skip(1)[j - 1] == s[j]);
        }
        lemma_first_index(s.skip(1), c, j - 1);
    }
}

/// The first position at or after `from` and before `to` that holds `c`,
/// or `to`.
fn find_char(chars: &Vec<char>, from: usize, to: usize, c: char) -> (e: usize)
    requires
        from <= to <= chars@.len(),
    ensures
        from <= e <= to,
        first_index(chars@.subrange(from as int, to as int), c) == e - from,
{
    let mut e = from;
    while e < to && chars[e] != c
        invariant
            from <= e <= to <= chars@.len(),
            forall|k: int| from <= k < e ==> chars@[k] != c,
        decreases to - e,
    {
        e = e + 1;
    }
    proof {
        let s = chars@.subrange(from as int, to as int);
        assert forall|k: int| 0 <= k < e - from implies s[k] != c by {
            assert(s[k] == chars@[from + k]);
        }
        lemma_first_index(s, c, e - from);
    }
    e
}

/// Appends one word, `chars[start..end]`, placed as [`place_word`] says,
/// and gives the columns taken afterwards.
fn push_word(
    out: &mut String,
    text: &str,
    chars: &Vec<char>,
    start: usize,
    end: usize,
    col: usize,
    cols: usize,
) -> (c: usize)
    requires
        text@ == chars@,
        start <= end <= chars@.len(),
        0 < cols,
        col <= cols,
    ensures
        final(out)@ == old(out)@ + place_word(
            col as nat,
            chars@.subrange(start as int, end as int),
            cols as nat,
        ).0,
        c == place_word(col as nat, chars@.subrange(start as int, end as int), cols as nat).1,
        c <= cols,
{
    proof {
        reveal_strlit("\n");
        reveal_strlit(" ");
    }
    let ghost word = chars@.subrange(start as int, end as int);
    let ghost target = place_word(col as nat, word, cols as nat);
    let mut s = start;
    let mut col = col;
    while end - s > cols
        invariant
            text@ == chars@,
            start <= s <= end <= chars@.len(),
            0 < cols,
            col <= cols,
            old(out)@ + target.0 == out@ + place_word(
                col as nat,
                chars@.subrange(s as int, end as int),
                cols as nat,
            ).0,
            target.1 == place_word(col as nat, chars@.subrange(s as int, end as int), cols as nat).1,
        decreases end - s,
    {
        let ghost w = chars@.subrange(s as int, end as int);
        let ghost before = out@;
        proof {
            reveal_strlit("\n");
            assert(w.take(cols as int) == chars@.subrange(s as int, (s + cols) as int));
            assert(w.skip(cols as int) == chars@.subrange((s + cols) as int, end as int));
        }
        let ghost head = if col > 0 {
            seq!['\n'] + w.take(cols as int)
        } else {
            w.take(cols as int)
        };
        if col > 0 {
            out.append("\n");
        }
        out.append(text.substring_char(s, s + cols));
        out.append("\n");
        proof {
            let rest = place_word(0, w.skip(cols as int), cols as nat);
            assert(out@ =~= before + head.push('\n'));
            assert(before + (head.push('\n') + rest.0) =~= out@ + rest.0);
        }
        s = s + cols;
        col = 0;
    }
    let ghost w = chars@.subrange(s as int, end as int);
    let len = end - s;
    if col > 0 && (col >= cols || len > cols - col - 1) {
        out.append("\n");
        out.append(text.substring_char(s, end));
        len
    } else if col > 0 {
        out.append(" ");
        out.append(text.substring_char(s, end));
        col + 1 + len
    } else {
        out.append(text.substring_char(s, end));
        len
    }
}

/// Appends the line `chars[start..end]` wrapped as [`wrap_words`] says.
fn push_line(out: &mut String, text: &str, chars: &Vec<char>, start: usize, end: usize, cols: usize)
    requires
        text@ == chars@,
        start <= end <= chars@.len(),
        0 < cols,
    ensures
        final(out)@ == old(out)@ + wrap_words(0, chars@.subrange(start as int, end as int), cols as nat),
{
    let ghost line = chars@.subrange(start as int, end as int);
    let mut ws = start;
    let mut col: usize = 0;
    loop
        invariant_except_break
            old(out)@ + wrap_words(0, line, cols as nat) == out@ + wrap_words(
                col as nat,
                chars@.subrange(ws as int, end as int),
                cols as nat,
            ),
        invariant
            text@ == chars@,
            start <= ws <= end <= chars@.len(),
            0 < cols,
            col <= cols,
        ensures
            out@ == old(out)@ + wrap_words(0, line, cols as nat),
        decreases end - ws,
    {
        let ghost rest = chars@.subrange(ws as int, end as int);
        let we = find_char(chars, ws, end, ' ');
        proof {
            assert(rest.take((we - ws) as int) == chars@.subrange(ws as int, we as int));
        }
        let ghost before = out@;
        let ghost old_col = col;
        let ghost placed = place_word(col as nat, rest.take((we - ws) as int), cols as nat);
        col = push_word(out, text, chars, ws, we, col, cols);
        if we == end {
            proof {
                assert(rest.take((we - ws) as int) == rest);
                assert(wrap_words(old_col as nat, rest, cols as nat) == placed.0);
                assert(out@ == before + placed.0);
                assert(out@ == old(out)@ + wrap_words(0, line, cols as nat));
            }
            break;
        }
        proof {
            let tail = wrap_words(placed.1, rest.skip((we - ws + 1) as int), cols as nat);
            assert(before + (placed.0 + tail) =~= out@ + tail);
        }
        proof {
            assert(rest.skip((we - ws + 1) as int) == chars@.subrange((we + 1) as int, end as int));
        }
        ws = we + 1;
    }
}

/// The text of a note wrapped to lines of at most `columns` characters:
/// every line of the text on its own, words separated by single spaces
/// kept together where they fit, and a word longer than a line cut.
#[verifier::spinoff_prover]
pub fn wrap_note_columns(text: &str, columns: usize) -> (s: String)
    requires
        0 < columns,
    ensures
        s@ == wrap_text(text@, columns as nat),
{
    proof {
        reveal_strlit("\n");
    }
    let chars = chars_of(text);
    let n = chars.len();
    let mut out = String::new();
    let mut pos: usize = 0;
    let mut first = true;
    proof {
        assert(chars@.subrange(0, n as int) == chars@);
    }
    while pos < n
        invariant
            text@ == chars@,
            n == chars@.len(),
            pos <= n,
            0 < columns,
            wrap_text(chars@, columns as nat) == out@ + wrap_lines(
                first,
                chars@.subrange(pos as int, n as int),
                columns as nat,
            ),
        decreases n - pos,
    {
        let ghost t = chars@.subrange(pos as int, n as int);
        let e = find_char(&chars, pos, n, '\n');
        let ghost before = out@;
        proof {
            reveal_strlit("\n");
        }
        let ghost sep: Seq<char> = if first {
            Seq::empty()
        } else {
            seq!['\n']
        };
        if !first {
            out.append("\n");
        }
        proof {
            assert(out@ =~= before + sep);
        }
        if e < n {
            let mut le = e;
            if le > pos && chars[le - 1] == '\r' {
                le = le - 1;
            }
            proof {
                assert(strip_cr(t.take((e - pos) as int)) == chars@.subrange(pos as int, le as int));
                assert(t.skip((e - pos + 1) as int) == chars@.subrange((e + 1) as int, n as int));
            }
            push_line(&mut out, text, &chars, pos, le, columns);
            proof {
                let line = wrap_words(0, strip_cr(t.take((e - pos) as int)), columns as nat);
                let tail = wrap_lines(false, t.skip((e - pos + 1) as int), columns as nat);
                assert(before + (sep + line + tail) =~= out@ + tail);
            }
            pos = e + 1;
        } else {
            proof {
                assert(t == chars@.subrange(pos as int, n as int));
            }
            push_line(&mut out, text, &chars, pos, n, columns);
            proof {
                assert(before + (sep + wrap_words(0, t, columns as nat)) =~= out@);
                assert(chars@.subrange(n as int, n as int) =~= Seq::<char>::empty());
            }
            pos = n;
        }
        first = false;
    }
    out
}


/// Reading `b` on a line that already holds `k` characters, no line ever
/// holds more than `cols` characters.
pub open spec fn fits_from(k: nat, b: Seq<char>, cols: nat) -> bool
    decreases b.len(),
{
    if b.len() == 0 {
        true
    } else if b[0] == '\n' {
        fits_from(0, b.skip(1), cols)
    } else {
        k + 1 <= cols && fits_from(k + 1, b.skip(1), cols)
    }
}

/// The number of characters on the last line after reading `b` on a line
/// that already holds `k` characters.
pub open spec fn end_col(k: nat, b: Seq<char>) -> nat
    decreases b.len(),
{
    if b.len() == 0 {
        k
    } else if b[0] == '\n' {
        end_col(0, b.skip(1))
    } else {
        end_col(k + 1, b.skip(1))
    }
}

/// No character of `s` is a line break.
pub open spec fn no_newline(s: Seq<char>) -> bool {
    forall|i: int| 0 <= i < s.len() ==> s[i] != '\n'
}

/// Reading `a + b` is reading `a`, then `b` from where `a` left off.
pub proof fn lemma_fits_concat(k: nat, a: Seq<char>, b: Seq<char>, cols: nat)
    ensures
        fits_from(k, a + b, cols) == (fits_from(k, a, cols) && fits_from(end_col(k, a), b, cols)),
        end_col(k, a + b) == end_col(end_col(k, a), b),
    decreases a.len(),
{
    if a.len() == 0 {
        assert(a + b =~= b);
    } else {
        assert((a + b).skip(1) =~= a.skip(1) + b);
        assert((a + b)[0] == a[0]);
        if a[0] == '\n' {
            lemma_fits_concat(0, a.skip(1), b, cols);
        } else {
            lemma_fits_concat(k + 1, a.skip(1), b, cols);
        }
    }
}

/// A piece without line breaks fits when it ends within the line.
pub proof fn lemma_fits_flat(k: nat, w: Seq<char>, cols: nat)
    requires
        no_newline(w),
    ensures
        fits_from(k, w, cols) == (w.len() == 0 || k + w.len() <= cols),
        end_col(k, w) == k + w.len(),
    decreases w.len(),
{
    if w.len() > 0 {
        assert(no_newline(w.skip(1))) by {
            assert forall|i: int| 0 <= i < w.skip(1).len() implies w.skip(1)[i] != '\n' by {
                assert(w.skip(1)[i] == w[i + 1]);
            }
        }
        lemma_fits_flat(k + 1, w.skip(1), cols);
    }
}

/// A line break fits anywhere and leaves an empty line.
proof fn lemma_fits_break(k: nat, cols: nat)
    ensures
        fits_from(k, seq!['\n'], cols),
        end_col(k, seq!['\n']) == 0,
{
    let b = seq!['\n'];
    assert(b[0] == '\n');
    assert(b.skip(1) =~= Seq::<char>::empty());
    assert(fits_from(0, b.skip(1), cols));
    assert(end_col(0, b.skip(1)) == 0);
}

/// A single line break, then a piece without line breaks.
proof fn lemma_fits_break_then(k: nat, w: Seq<char>, cols: nat)
    requires
        no_newline(w),
        w.len() <= cols,
    ensures
        fits_from(k, seq!['\n'] + w, cols),
        end_col(k, seq!['\n'] + w) == w.len(),
{
    lemma_fits_concat(k, seq!['\n'], w, cols);
    lemma_fits_break(k, cols);
    lemma_fits_flat(0, w, cols);
}

/// The pieces of a word have no line breaks when the word has none.
proof fn lemma_no_newline_parts(w: Seq<char>, n: int)
    requires
        no_newline(w),
        0 <= n <= w.len(),
    ensures
        no_newline(w.take(n)),
        no_newline(w.skip(n)),
{
    assert forall|i: int| 0 <= i < w.take(n).len() implies w.take(n)[i] != '\n' by {
        assert(w.take(n)[i] == w[i]);
    }
    assert forall|i: int| 0 <= i < w.skip(n).len() implies w.skip(n)[i] != '\n' by {
        assert(w.skip(n)[i] == w[i + n]);
    }
}

/// A placed word keeps every line within `cols`, and the column it reports
/// is the length of the last line.
pub proof fn lemma_place_word_fits(col: nat, w: Seq<char>, cols: nat)
    requires
        0 < cols,
        col <= cols,
        no_newline(w),
    ensures
        fits_from(col, place_word(col, w, cols).0, cols),
        end_col(col, place_word(col, w, cols).0) == place_word(col, w, cols).1,
        place_word(col, w, cols).1 <= cols,
    decreases w.len(),
{
    let placed = place_word(col, w, cols);
    if w.len() > cols {
        lemma_no_newline_parts(w, cols as int);
        let first = w.take(cols as int);
        let head = if col > 0 {
            seq!['\n'] + first
        } else {
            first
        };
        if col > 0 {
            lemma_fits_break_then(col, first, cols);
        } else {
            lemma_fits_flat(col, first, cols);
        }
        lemma_fits_concat(col, head, seq!['\n'], cols);
        assert(head.push('\n') =~= head + seq!['\n']);
        lemma_fits_break(end_col(col, head), cols);
        let rest = place_word(0, w.skip(cols as int), cols);
        lemma_place_word_fits(0, w.skip(cols as int), cols);
        lemma_fits_concat(col, head.push('\n'), rest.0, cols);
    } else if col > 0 && col + 1 + w.len() > cols {
        lemma_fits_break_then(col, w, cols);
    } else if col > 0 {
        assert(no_newline(seq![' '] + w)) by {
            assert forall|i: int| 0 <= i < (seq![' '] + w).len() implies (seq![' '] + w)[i]
                != '\n' by {
                if i > 0 {
                    assert((seq![' '] + w)[i] == w[i - 1]);
                }
            }
        }
        lemma_fits_flat(col, seq![' '] + w, cols);
    } else {
        lemma_fits_flat(col, w, cols);
    }
}

/// Nothing before `first_index` is the character looked for, and
/// `first_index` is within the sequence.
pub proof fn lemma_first_index_bounds(s: Seq<char>, c: char)
    ensures
        first_index(s, c) <= s.len(),
        forall|k: int| 0 <= k < first_index(s, c) ==> s[k] != c,
        first_index(s, c) < s.len() ==> s[first_index(s, c) as int] == c,
    decreases s.len(),
{
    if s.len() > 0 && s[0] != c {
        lemma_first_index_bounds(s.skip(1), c);
        assert forall|k: int| 0 <= k < first_index(s, c) implies s[k] != c by {
            if k > 0 {
                assert(s.skip(1)[k - 1] == s[k]);
            }
        }
        if first_index(s, c) < s.len() {
            assert(s.skip(1)[first_index(s, c) - 1] == s[first_index(s, c) as int]);
        }
    }
}

/// The words of a line without line breaks keep every line within `cols`.
pub proof fn lemma_wrap_words_fits(col: nat, l: Seq<char>, cols: nat)
    requires
        0 < cols,
        col <= cols,
        no_newline(l),
    ensures
        fits_from(col, wrap_words(col, l, cols), cols),
    decreases l.len(),
{
    let e = first_index(l, ' ');
    lemma_first_index_bounds(l, ' ');
    lemma_no_newline_parts(l, e as int);
    let placed = place_word(col, l.take(e as int), cols);
    lemma_place_word_fits(col, l.take(e as int), cols);
    if e < l.len() {
        lemma_no_newline_parts(l, e + 1 as int);
        lemma_wrap_words_fits(placed.1, l.skip(e + 1 as int), cols);
        lemma_fits_concat(col, placed.0, wrap_words(placed.1, l.skip(e + 1 as int), cols), cols);
    }
}

/// Wrapped lines, read from any column when they do not start the text
/// (they start with a line break then), keep every line within `cols`.
pub proof fn lemma_wrap_lines_fits(first: bool, k: nat, t: Seq<char>, cols: nat)
    requires
        0 < cols,
        first ==> k == 0,
    ensures
        fits_from(k, wrap_lines(first, t, cols), cols),
    decreases t.len(),
{
    if t.len() > 0 {
        let e = first_index(t, '\n');
        lemma_first_index_bounds(t, '\n');
        let sep: Seq<char> = if first {
            Seq::empty()
        } else {
            seq!['\n']
        };
        assert(fits_from(k, sep, cols) && end_col(k, sep) == 0) by {
            if !first {
                lemma_fits_break(k, cols);
            }
        }
        let line = if e < t.len() {
            strip_cr(t.take(e as int))
        } else {
            t
        };
        assert(no_newline(line)) by {
            assert forall|i: int| 0 <= i < line.len() implies line[i] != '\n' by {
                assert(line[i] == t[i]);
            }
        }
        lemma_wrap_words_fits(0, line, cols);
        let body = wrap_words(0, line, cols);
        lemma_fits_concat(k, sep, body, cols);
        if e < t.len() {
            let rest = wrap_lines(false, t.skip(e + 1 as int), cols);
            lemma_wrap_lines_fits(false, end_col(k, sep + body), t.skip(e + 1 as int), cols);
            lemma_fits_concat(k, sep + body, rest, cols);
        }
    }
}

/// A wrapped note never has a line longer than the columns it was wrapped
/// to: reading it from the start, every line holds at most `cols`
/// characters.
pub proof fn law_wrapped_lines_fit(t: Seq<char>, cols: nat)
    requires
        0 < cols,
    ensures
        fits_from(0, wrap_text(t, cols), cols),
{
    lemma_wrap_lines_fits(true, 0, t, cols);
}


/// Spaces and line breaks: the characters wrapping may add or drop.
pub open spec fn is_layout_char(c: char) -> bool {
    c == ' ' || c == '\n'
}

/// The characters of `s` that are not layout characters, in order.
pub open spec fn letters(s: Seq<char>) -> Seq<char>
    decreases s.len(),
{
    if s.len() == 0 {
        Seq::empty()
    } else if is_layout_char(s[0]) {
        letters(s.skip(1))
    } else {
        seq![s[0]] + letters(s.skip(1))
    }
}

/// The lines of `t` one after another, as `str::lines` gives them: split
/// at `\n`, the `\r` of a `\r\n` ending dropped, nothing after a final
/// line ending.
pub open spec fn joined_lines(t: Seq<char>) -> Seq<char>
    decreases t.len(),
{
    if t.len() == 0 {
        Seq::empty()
    } else {
        let e = first_index(t, '\n');
        if e < t.len() {
            strip_cr(t.take(e as int)) + joined_lines(t.skip(e + 1 as int))
        } else {
            t
        }
    }
}

/// The number of lines of `t`, as `str::lines` counts them.
pub open spec fn line_count(t: Seq<char>) -> nat
    decreases t.len(),
{
    if t.len() == 0 {
        0
    } else {
        let e = first_index(t, '\n');
        if e < t.len() {
            1 + line_count(t.skip(e + 1 as int))
        } else {
            1
        }
    }
}

/// The number of line breaks in `s`.
pub open spec fn newlines(s: Seq<char>) -> nat
    decreases s.len(),
{
    if s.len() == 0 {
        0
    } else {
        (if s[0] == '\n' {
            1nat
        } else {
            0nat
        }) + newlines(s.skip(1))
    }
}

/// The letters of `a + b` are those of `a`, then those of `b`.
pub proof fn lemma_letters_concat(a: Seq<char>, b: Seq<char>)
    ensures
        letters(a + b) == letters(a) + letters(b),
    decreases a.len(),
{
    if a.len() == 0 {
        assert(a + b =~= b);
        assert(letters(a) + letters(b) =~= letters(b));
    } else {
        assert((a + b).skip(1) =~= a.skip(1) + b);
        assert((a + b)[0] == a[0]);
        lemma_letters_concat(a.skip(1), b);
        if !is_layout_char(a[0]) {
            assert(seq![a[0]] + (letters(a.skip(1)) + letters(b)) =~= (seq![a[0]] + letters(
                a.skip(1),
            )) + letters(b));
        }
    }
}

/// The line breaks of `a + b` are those of `a` and those of `b`.
proof fn lemma_newlines_concat(a: Seq<char>, b: Seq<char>)
    ensures
        newlines(a + b) == newlines(a) + newlines(b),
    decreases a.len(),
{
    if a.len() == 0 {
        assert(a + b =~= b);
    } else {
        assert((a + b).skip(1) =~= a.skip(1) + b);
        assert((a + b)[0] == a[0]);
        lemma_newlines_concat(a.skip(1), b);
    }
}

/// A single layout character has no letters.
proof fn lemma_letters_layout(c: char)
    requires
        is_layout_char(c),
    ensures
        letters(seq![c]) == Seq::<char>::empty(),
{
    assert(seq![c][0] == c);
    assert(seq![c].skip(1) =~= Seq::<char>::empty());
    assert(letters(seq![c].skip(1)) == Seq::<char>::empty());
}

/// Placing a word writes exactly its letters.
pub proof fn lemma_place_word_letters(col: nat, w: Seq<char>, cols: nat)
    ensures
        letters(place_word(col, w, cols).0) == letters(w),
    decreases w.len(),
{
    lemma_letters_layout('\n');
    lemma_letters_layout(' ');
    if cols > 0 && w.len() > cols {
        let first = w.take(cols as int);
        let head = if col > 0 {
            seq!['\n'] + first
        } else {
            first
        };
        lemma_letters_concat(seq!['\n'], first);
        assert(letters(head) == letters(first)) by {
            if col > 0 {
                assert(Seq::<char>::empty() + letters(first) =~= letters(first));
            }
        }
        assert(head.push('\n') =~= head + seq!['\n']);
        lemma_letters_concat(head, seq!['\n']);
        lemma_place_word_letters(0, w.skip(cols as int), cols);
        let rest = place_word(0, w.skip(cols as int), cols);
        lemma_letters_concat(head.push('\n'), rest.0);
        assert(w =~= first + w.skip(cols as int));
        lemma_letters_concat(first, w.skip(cols as int));
        assert(letters(head) + Seq::<char>::empty() =~= letters(head));
    } else if col > 0 && col + 1 + w.len() > cols {
        lemma_letters_concat(seq!['\n'], w);
        assert(Seq::<char>::empty() + letters(w) =~= letters(w));
    } else if col > 0 {
        lemma_letters_concat(seq![' '], w);
        assert(Seq::<char>::empty() + letters(w) =~= letters(w));
    }
}

/// Wrapping the words of a line writes exactly the letters of the line.
pub proof fn lemma_wrap_words_letters(col: nat, l: Seq<char>, cols: nat)
    ensures
        letters(wrap_words(col, l, cols)) == letters(l),
    decreases l.len(),
{
    let e = first_index(l, ' ');
    lemma_first_index_bounds(l, ' ');
    let placed = place_word(col, l.take(e as int), cols);
    lemma_place_word_letters(col, l.take(e as int), cols);
    if e < l.len() {
        lemma_wrap_words_letters(placed.1, l.skip(e + 1 as int), cols);
        lemma_letters_concat(placed.0, wrap_words(placed.1, l.skip(e + 1 as int), cols));
        assert(l =~= l.take(e as int) + seq![' '] + l.skip(e + 1 as int));
        lemma_letters_concat(l.take(e as int), seq![' ']);
        lemma_letters_concat(l.take(e as int) + seq![' '], l.skip(e + 1 as int));
        lemma_letters_layout(' ');
        assert(letters(l.take(e as int)) + Seq::<char>::empty() =~= letters(l.take(e as int)));
    } else {
        assert(l.take(e as int) =~= l);
    }
}

/// Wrapped lines hold exactly the letters of the lines of the text.
pub proof fn lemma_wrap_lines_letters(first: bool, t: Seq<char>, cols: nat)
    ensures
        letters(wrap_lines(first, t, cols)) == letters(joined_lines(t)),
        newlines(wrap_lines(first, t, cols)) + (if first {
            1int
        } else {
            0int
        }) >= line_count(t),
    decreases t.len(),
{
    lemma_letters_layout('\n');
    if t.len() > 0 {
        let e = first_index(t, '\n');
        lemma_first_index_bounds(t, '\n');
        let sep: Seq<char> = if first {
            Seq::empty()
        } else {
            seq!['\n']
        };
        assert(letters(sep) == Seq::<char>::empty());
        if first {
            assert(newlines(sep) == 0);
        } else {
            assert(sep[0] == '\n');
            assert(sep.skip(1) =~= Seq::<char>::empty());
            assert(newlines(sep.skip(1)) == 0);
            assert(newlines(sep) == 1);
        }
        if e < t.len() {
            let line = strip_cr(t.take(e as int));
            lemma_wrap_words_letters(0, line, cols);
            let body = wrap_words(0, line, cols);
            let rest = wrap_lines(false, t.skip(e + 1 as int), cols);
            lemma_wrap_lines_letters(false, t.skip(e + 1 as int), cols);
            lemma_letters_concat(sep, body);
            lemma_letters_concat(sep + body, rest);
            lemma_letters_concat(line, joined_lines(t.skip(e + 1 as int)));
            lemma_newlines_concat(sep, body);
            lemma_newlines_concat(sep + body, rest);
            assert(Seq::<char>::empty() + letters(body) =~= letters(body));
        } else {
            lemma_wrap_words_letters(0, t, cols);
            lemma_letters_concat(sep, wrap_words(0, t, cols));
            lemma_newlines_concat(sep, wrap_words(0, t, cols));
            assert(Seq::<char>::empty() + letters(t) =~= letters(t));
        }
    }
}

/// The lines of a text hold no line break.
proof fn lemma_joined_lines_no_newline(t: Seq<char>)
    ensures
        no_newline(joined_lines(t)),
    decreases t.len(),
{
    if t.len() > 0 {
        let e = first_index(t, '\n');
        lemma_first_index_bounds(t, '\n');
        if e < t.len() {
            lemma_joined_lines_no_newline(t.skip(e + 1 as int));
            let line = strip_cr(t.take(e as int));
            let rest = joined_lines(t.skip(e + 1 as int));
            assert forall|i: int| 0 <= i < (line + rest).len() implies (line + rest)[i] != '\n' by {
                if i < line.len() {
                    assert(line[i] == t[i]);
                } else {
                    assert((line + rest)[i] == rest[i - line.len()]);
                }
            }
        } else {
            assert forall|i: int| 0 <= i < t.len() implies t[i] != '\n' by {}
        }
    }
}

/// Wrapping loses no text of a note: leaving out spaces and line breaks,
/// the wrapped text reads exactly as the lines of the note (each without
/// the `\r` of a `\r\n` ending) with their spaces left out; and every line
/// break between the note's lines is still there.
pub proof fn law_wrapping_keeps_every_letter(t: Seq<char>, cols: nat)
    ensures
        letters(wrap_text(t, cols)) == letters(joined_lines(t)),
        no_newline(joined_lines(t)),
        newlines(wrap_text(t, cols)) + 1 >= line_count(t),
{
    lemma_wrap_lines_letters(true, t, cols);
    lemma_joined_lines_no_newline(t);
}

} // verus!
