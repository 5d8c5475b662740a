//! Writing and reading of laid-out text, and the proof that reading what
//! was written gives back the values that were written.
//!
//! A text is written from a layout: fixed text with places for integers and
//! for quoted texts. The reader follows the same layout, so that it finds
//! in a written text the values that were put into it.

use vstd::prelude::*;
use vstd::string::*;

use crate::text::push_char;

verus! {

/// Whether the character is a decimal digit.
pub open spec fn is_digit(c: char) -> bool {
    '0' <= c && c <= '9'
}

/// The character of a decimal digit.
pub open spec fn digit_char(d: int) -> char {
    ((d + 48) as u8) as char
}

/// The value of a decimal digit.
pub open spec fn digit_value(c: char) -> int {
    c as u32 - 48
}

/// The decimal digits of a natural number, without leading zeros.
pub open spec fn digits(n: nat) -> Seq<char>
    decreases n,
{
    if n < 10 {
        seq![digit_char(n as int)]
    } else {
        digits(n / 10).push(digit_char((n % 10) as int))
    }
}

/// The decimal form of an integer: a minus sign if it is negative, then the
/// digits of its magnitude.
pub open spec fn render_int(v: int) -> Seq<char> {
    if v < 0 {
        seq!['-'] + digits((-v) as nat)
    } else {
        digits(v as nat)
    }
}

/// The number of digits at the start of a text.
pub open spec fn digit_run(s: Seq<char>) -> nat
    decreases s.len(),
{
    if s.len() > 0 && is_digit(s[0]) {
        1 + digit_run(s.skip(1))
    } else {
        0
    }
}

/// The number that a text of digits stands for.
pub open spec fn digits_value(s: Seq<char>) -> nat
    decreases s.len(),
{
    if s.len() == 0 {
        0
    } else {
        (digits_value(s.drop_last()) * 10 + digit_value(s.last())) as nat
    }
}

/// Reads an integer at the start of a text: an optional minus sign and all
/// the digits that follow. Yields the integer and the number of characters
/// read, or nothing if there is no digit or the integer does not fit.
#[verifier::opaque]
pub open spec fn parse_int(s: Seq<char>) -> Option<(i64, nat)> {
    let negative = s.len() > 0 && s[0] == '-';
    let body = if negative {
        s.skip(1)
    } else {
        s
    };
    let n = digit_run(body);
    let magnitude = digits_value(body.take(n as int));
    let v = if negative {
        -magnitude
    } else {
        magnitude as int
    };
    if n == 0 || v < i64::MIN || v > i64::MAX {
        None
    } else {
        Some((v as i64, if negative {
            n + 1
        } else {
            n
        }))
    }
}

/// A text that starts with `n` digits, and with no more, has a digit run of
/// `n`.
pub proof fn lemma_digit_run(s: Seq<char>, n: nat)
    requires
        n <= s.len(),
        forall|k: int| 0 <= k < n ==> is_digit(#[trigger] s[k]),
        n == s.len() || !is_digit(s[n as int]),
    ensures
        digit_run(s) == n,
    decreases n,
{
    if n > 0 {
        let t = s.skip(1);
        assert forall|k: int| 0 <= k < n - 1 implies is_digit(#[trigger] t[k]) by {
            assert(t[k] == s[k + 1]);
        }
        lemma_digit_run(t, (n - 1) as nat);
    }
}

/// The digits of a number are digits, start with no minus sign, and stand
/// for the number.
pub proof fn lemma_digits(n: nat)
    ensures
        digits(n).len() >= 1,
        forall|k: int| 0 <= k < digits(n).len() ==> is_digit(#[trigger] digits(n)[k]),
        digits_value(digits(n)) == n,
    decreases n,
{
    if n < 10 {
        let s = digits(n);
        assert(s.drop_last() =~= Seq::<char>::empty());
        assert(digits_value(s.drop_last()) == 0);
    } else {
        lemma_digits(n / 10);
        let s = digits(n);
        assert(s.drop_last() =~= digits(n / 10));
        assert(s.last() == digit_char((n % 10) as int));
    }
}

/// Reading the decimal form of an integer gives the integer back, whatever
/// follows it, as long as no digit follows.
pub proof fn lemma_parse_rendered_int(v: i64, rest: Seq<char>)
    requires
        rest.len() == 0 || !is_digit(rest[0]),
    ensures
        parse_int(render_int(v as int) + rest) == Some((v, render_int(v as int).len())),
{
    reveal(parse_int);
    let magnitude: nat = if v < 0 {
        (-v) as nat
    } else {
        v as nat
    };
    let d = digits(magnitude);
    lemma_digits(magnitude);
    let s = render_int(v as int) + rest;
    let body = d + rest;
    if v < 0 {
        assert(s[0] == '-');
        assert(s.skip(1) =~= body);
    } else {
        assert(s[0] == d[0]);
        assert(s =~= body);
    }
    assert forall|k: int| 0 <= k < d.len() implies is_digit(#[trigger] body[k]) by {
        assert(body[k] == d[k]);
    }
    if rest.len() > 0 {
        assert(body[d.len() as int] == rest[0]);
    }
    lemma_digit_run(body, d.len());
    assert(body.take(d.len() as int) =~= d);
}

/// Whether the character is a control character, which a quoted text holds
/// only in escaped form.
pub open spec fn is_control(c: char) -> bool {
    (c as u32) < 0x20
}

/// The character of a hexadecimal digit, in lower case.
pub open spec fn hex_char(d: int) -> char {
    if d < 10 {
        digit_char(d)
    } else {
        ((d + 87) as u8) as char
    }
}

/// The value of a hexadecimal digit in lower case, if the character is one.
pub open spec fn hex_value(c: char) -> Option<int> {
    if is_digit(c) {
        Some(digit_value(c))
    } else if 'a' <= c && c <= 'f' {
        Some(c as u32 - 87)
    } else {
        None
    }
}

/// The letter that stands for a character after a backslash, if the
/// character has one: the quote and the backslash stand for themselves, and
/// backspace, tab, line feed, form feed and carriage return have the letters
/// `b`, `t`, `n`, `f` and `r`.
pub open spec fn escape_letter(c: char) -> Option<char> {
    if c == '"' || c == '\\' {
        Some(c)
    } else if c == '\u{8}' {
        Some('b')
    } else if c == '\t' {
        Some('t')
    } else if c == '\n' {
        Some('n')
    } else if c == '\u{c}' {
        Some('f')
    } else if c == '\r' {
        Some('r')
    } else {
        None
    }
}

/// The character that a letter after a backslash stands for, if it stands
/// for one.
pub open spec fn escaped_by(letter: char) -> Option<char> {
    if letter == '"' || letter == '\\' {
        Some(letter)
    } else if letter == 'b' {
        Some('\u{8}')
    } else if letter == 't' {
        Some('\t')
    } else if letter == 'n' {
        Some('\n')
    } else if letter == 'f' {
        Some('\u{c}')
    } else if letter == 'r' {
        Some('\r')
    } else {
        None
    }
}

/// The form of a character inside a quoted text: a character with a letter
/// is written as a backslash and the letter, any other control character as
/// `\u00` and two hexadecimal digits, and every other character is itself.
pub open spec fn escape_char(c: char) -> Seq<char> {
    if escape_letter(c) is Some {
        seq!['\\', escape_letter(c)->0]
    } else if is_control(c) {
        seq![
            '\\',
            'u',
            '0',
            '0',
            hex_char((c as u32 / 16) as int),
            hex_char((c as u32 % 16) as int),
        ]
    } else {
        seq![c]
    }
}

/// The form of a text inside quotes.
pub open spec fn escape(s: Seq<char>) -> Seq<char>
    decreases s.len(),
{
    if s.len() == 0 {
        Seq::empty()
    } else {
        escape_char(s[0]) + escape(s.skip(1))
    }
}

/// The quoted form of a text.
pub open spec fn render_text(s: Seq<char>) -> Seq<char> {
    seq!['"'] + escape(s) + seq!['"']
}

/// Reads one character of a quoted text, plain or escaped. Yields the
/// character and the number of characters read.
pub open spec fn parse_char(s: Seq<char>) -> Option<(char, nat)> {
    if s.len() == 0 || s[0] == '"' {
        None
    } else if s[0] == '\\' {
        if s.len() >= 2 && escaped_by(s[1]) is Some {
            Some((escaped_by(s[1])->0, 2))
        } else if s.len() >= 6 && s[1] == 'u' && s[2] == '0' && s[3] == '0' && hex_value(s[4])
            is Some && hex_value(s[5]) is Some && hex_value(s[4])->0 * 16 + hex_value(s[5])->0
            < 0x20 {
            Some((((hex_value(s[4])->0 * 16 + hex_value(s[5])->0) as u8) as char, 6))
        } else {
            None
        }
    } else if is_control(s[0]) {
        None
    } else {
        Some((s[0], 1))
    }
}

/// Reads the rest of a quoted text, after its opening quote and up to its
/// closing quote. Yields the text and the number of characters read, the
/// closing quote included.
pub open spec fn parse_chars(s: Seq<char>) -> Option<(Seq<char>, nat)>
    decreases s.len(),
{
    if s.len() > 0 && s[0] == '"' {
        Some((Seq::empty(), 1))
    } else {
        match parse_char(s) {
            Some((c, n)) => if 0 < n <= s.len() {
                match parse_chars(s.skip(n as int)) {
                    Some((rest, m)) => Some((seq![c] + rest, n + m)),
                    None => None,
                }
            } else {
                None
            },
            None => None,
        }
    }
}

/// Reads a quoted text at the start of a text. Yields the text and the
/// number of characters read, both quotes included.
#[verifier::opaque]
pub open spec fn parse_text(s: Seq<char>) -> Option<(Seq<char>, nat)> {
    if s.len() > 0 && s[0] == '"' {
        match parse_chars(s.skip(1)) {
            Some((text, n)) => Some((text, n + 1)),
            None => None,
        }
    } else {
        None
    }
}

/// Reading the escaped form of a character gives the character back.
pub proof fn lemma_parse_escaped_char(c: char, rest: Seq<char>)
    ensures
        parse_char(escape_char(c) + rest) == Some((c, escape_char(c).len())),
        escape_char(c).len() >= 1,
        (escape_char(c) + rest)[0] != '"',
{
    let s = escape_char(c) + rest;
    if escape_letter(c) is Some {
        let letter = escape_letter(c)->0;
        assert(s[0] == '\\' && s[1] == letter);
        assert(escaped_by(letter) == Some(c));
    } else if is_control(c) {
        let code = c as u32;
        let hi = code / 16;
        let lo = code % 16;
        assert(s[0] == '\\' && s[1] == 'u' && s[2] == '0' && s[3] == '0');
        assert(escaped_by('u') is None);
        assert(s[4] == hex_char(hi as int) && s[5] == hex_char(lo as int));
        assert(hex_value(hex_char(hi as int)) == Some(hi as int));
        assert(hex_value(hex_char(lo as int)) == Some(lo as int));
        assert(hi * 16 + lo == code);
        assert(((code as u8) as char) == c);
    } else {
        assert(s[0] == c);
    }
}

/// The escaped form of a text with one more character is the escaped form
/// of the text followed by that of the character.
pub proof fn lemma_escape_push(s: Seq<char>, c: char)
    ensures
        escape(s.push(c)) == escape(s) + escape_char(c),
    decreases s.len(),
{
    let t = s.push(c);
    if s.len() == 0 {
        assert(t.skip(1) =~= Seq::<char>::empty());
        assert(s =~= Seq::<char>::empty());
        assert(escape(Seq::<char>::empty()) =~= Seq::<char>::empty());
        assert(t[0] == c);
        assert(escape(t) =~= escape_char(c) + Seq::<char>::empty());
        assert(escape(t) =~= escape(s) + escape_char(c));
    } else {
        assert(t.skip(1) =~= s.skip(1).push(c));
        lemma_escape_push(s.skip(1), c);
        assert(t[0] == s[0]);
        assert(escape(t) =~= escape(s) + escape_char(c));
    }
}

/// Reading the escaped form of a text and the closing quote gives the text
/// back, whatever follows.
pub proof fn lemma_parse_escaped(s: Seq<char>, rest: Seq<char>)
    ensures
        parse_chars(escape(s) + seq!['"'] + rest) == Some((s, escape(s).len() + 1)),
    decreases s.len(),
{
    let text = escape(s) + seq!['"'] + rest;
    if s.len() == 0 {
        assert(text[0] == '"');
        assert(s =~= Seq::<char>::empty());
    } else {
        let c = s[0];
        let head = escape_char(c);
        let tail = escape(s.skip(1)) + seq!['"'] + rest;
        assert(text =~= head + tail);
        lemma_parse_escaped_char(c, tail);
        assert(text.skip(head.len() as int) =~= tail);
        lemma_parse_escaped(s.skip(1), rest);
        assert(seq![c] + s.skip(1) =~= s);
        assert(escape(s).len() == head.len() + escape(s.skip(1)).len());
    }
}

/// Reading the quoted form of a text gives the text back, whatever follows.
pub proof fn lemma_parse_rendered_text(s: Seq<char>, rest: Seq<char>)
    ensures
        parse_text(render_text(s) + rest) == Some((s, render_text(s).len())),
{
    reveal(parse_text);
    let text = render_text(s) + rest;
    assert(text[0] == '"');
    assert(text.skip(1) =~= escape(s) + seq!['"'] + rest);
    lemma_parse_escaped(s, rest);
}

/// One part of a layout: fixed text, or the place of an integer or of a
/// quoted text.
pub enum Slot {
    Lit(Seq<char>),
    Int,
    Text,
}

/// A value that fills a place of a layout.
pub enum Value {
    Int(i64),
    Text(Seq<char>),
}

/// Whether the values fill the places of the layout, one value for each
/// place, in order and of the right kind.
pub open spec fn fits(layout: Seq<Slot>, values: Seq<Value>) -> bool
    decreases layout.len(),
{
    if layout.len() == 0 {
        values.len() == 0
    } else {
        match layout[0] {
            Slot::Lit(_) => fits(layout.skip(1), values),
            Slot::Int => values.len() > 0 && values[0] is Int && fits(
                layout.skip(1),
                values.skip(1),
            ),
            Slot::Text => values.len() > 0 && values[0] is Text && fits(
                layout.skip(1),
                values.skip(1),
            ),
        }
    }
}

/// Whether each place of an integer is followed by fixed text that does not
/// begin with a digit, so that the end of the integer can be told.
pub open spec fn well_formed(layout: Seq<Slot>) -> bool
    decreases layout.len(),
{
    if layout.len() == 0 {
        true
    } else {
        &&& well_formed(layout.skip(1))
        &&& layout[0] is Int ==> layout.len() >= 2 && (layout[1] matches Slot::Lit(l) && l.len() > 0
            && !is_digit(l[0]))
    }
}

/// The text of a layout whose places are filled with the values.
pub open spec fn render(layout: Seq<Slot>, values: Seq<Value>) -> Seq<char>
    decreases layout.len(),
{
    if layout.len() == 0 {
        Seq::empty()
    } else {
        match layout[0] {
            Slot::Lit(l) => l + render(layout.skip(1), values),
            Slot::Int => render_int(values[0]->Int_0 as int) + render(
                layout.skip(1),
                values.skip(1),
            ),
            Slot::Text => render_text(values[0]->Text_0) + render(layout.skip(1), values.skip(1)),
        }
    }
}

/// Reads a text laid out as the layout says, from the start of `s`. Yields
/// the values found in the places and the number of characters read.
pub open spec fn parse(layout: Seq<Slot>, s: Seq<char>) -> Option<(Seq<Value>, nat)>
    decreases layout.len(),
{
    if layout.len() == 0 {
        Some((Seq::empty(), 0))
    } else {
        match layout[0] {
            Slot::Lit(l) => if l.len() <= s.len() && s.take(l.len() as int) == l {
                match parse(layout.skip(1), s.skip(l.len() as int)) {
                    Some((values, n)) => Some((values, l.len() + n)),
                    None => None,
                }
            } else {
                None
            },
            Slot::Int => match parse_int(s) {
                Some((v, n)) => if n <= s.len() {
                    match parse(layout.skip(1), s.skip(n as int)) {
                        Some((values, m)) => Some((seq![Value::Int(v)] + values, n + m)),
                        None => None,
                    }
                } else {
                    None
                },
                None => None,
            },
            Slot::Text => match parse_text(s) {
                Some((t, n)) => if n <= s.len() {
                    match parse(layout.skip(1), s.skip(n as int)) {
                        Some((values, m)) => Some((seq![Value::Text(t)] + values, n + m)),
                        None => None,
                    }
                } else {
                    None
                },
                None => None,
            },
        }
    }
}

/// Reading the text of a filled layout gives the values back, whatever
/// follows the text.
pub proof fn lemma_parse_rendered(layout: Seq<Slot>, values: Seq<Value>, rest: Seq<char>)
    requires
        well_formed(layout),
        fits(layout, values),
    ensures
        parse(layout, render(layout, values) + rest) == Some(
            (values, render(layout, values).len()),
        ),
    decreases layout.len(),
{
    let text = render(layout, values) + rest;
    if layout.len() == 0 {
        assert(values =~= Seq::<Value>::empty());
    } else {
        let tail = layout.skip(1);
        match layout[0] {
            Slot::Lit(l) => {
                let after = render(tail, values) + rest;
                assert(text =~= l + after);
                assert(text.take(l.len() as int) =~= l);
                assert(text.skip(l.len() as int) =~= after);
                lemma_parse_rendered(tail, values, rest);
            },
            Slot::Int => {
                let v = values[0]->Int_0;
                let head = render_int(v as int);
                let after = render(tail, values.skip(1)) + rest;
                assert(text =~= head + after);
                assert(tail[0] == layout[1]);
                let l = layout[1]->Lit_0;
                assert(render(tail, values.skip(1)) =~= l + render(
                    tail.skip(1),
                    values.skip(1),
                ));
                assert(after[0] == l[0]);
                lemma_parse_rendered_int(v, after);
                assert(text.skip(head.len() as int) =~= after);
                lemma_parse_rendered(tail, values.skip(1), rest);
                assert(seq![Value::Int(v)] + values.skip(1) =~= values);
            },
            Slot::Text => {
                let t = values[0]->Text_0;
                let head = render_text(t);
                let after = render(tail, values.skip(1)) + rest;
                assert(text =~= head + after);
                lemma_parse_rendered_text(t, after);
                assert(text.skip(head.len() as int) =~= after);
                lemma_parse_rendered(tail, values.skip(1), rest);
                assert(seq![Value::Text(t)] + values.skip(1) =~= values);
            },
        }
    }
}

/// The characters of a text.
pub(crate) fn to_chars(text: &str) -> (chars: Vec<char>)
    ensures
        chars@ == text@,
{
    let mut chars: Vec<char> = Vec::new();
    for c in it: text.chars()
        invariant
            chars@ == it.seq().take(it.index() as int),
            it.seq() == text@,
    {
        chars.push(c);
    }
    chars
}

/// Appends the digits of a number.
fn write_digits(out: &mut String, n: u64)
    ensures
        final(out)@ == old(out)@ + digits(n as nat),
    decreases n,
{
    if n >= 10 {
        write_digits(out, n / 10);
    }
    let d: u8 = (n % 10) as u8;
    push_char(out, (d + 48) as char);
    proof {
        if n >= 10 {
            assert(out@ =~= old(out)@ + digits(n as nat));
        } else {
            assert(out@ =~= old(out)@ + digits(n as nat));
        }
    }
}

/// Appends the decimal form of an integer.
pub(crate) fn write_int(out: &mut String, v: i64)
    ensures
        final(out)@ == old(out)@ + render_int(v as int),
{
    if v < 0 {
        push_char(out, '-');
        let magnitude: u64 = (-(v as i128)) as u64;
        write_digits(out, magnitude);
        assert(out@ =~= old(out)@ + render_int(v as int));
    } else {
        write_digits(out, v as u64);
    }
}

/// The character of a hexadecimal digit.
fn hex_digit(d: u32) -> (c: char)
    requires
        d < 16,
    ensures
        c == hex_char(d as int),
{
    if d < 10 {
        (d as u8 + 48) as char
    } else {
        (d as u8 + 87) as char
    }
}

/// Appends the form that a character has inside a quoted text.
fn write_escaped(out: &mut String, c: char)
    ensures
        final(out)@ == old(out)@ + escape_char(c),
{
    if c == '"' || c == '\\' {
        push_char(out, '\\');
        push_char(out, c);
    } else if c == '\u{8}' {
        push_char(out, '\\');
        push_char(out, 'b');
    } else if c == '\t' {
        push_char(out, '\\');
        push_char(out, 't');
    } else if c == '\n' {
        push_char(out, '\\');
        push_char(out, 'n');
    } else if c == '\u{c}' {
        push_char(out, '\\');
        push_char(out, 'f');
    } else if c == '\r' {
        push_char(out, '\\');
        push_char(out, 'r');
    } else if (c as u32) < 0x20 {
        let code = c as u32;
        push_char(out, '\\');
        push_char(out, 'u');
        push_char(out, '0');
        push_char(out, '0');
        push_char(out, hex_digit(code / 16));
        push_char(out, hex_digit(code % 16));
    } else {
        push_char(out, c);
    }
    assert(out@ =~= old(out)@ + escape_char(c));
}

/// Appends the quoted form of a text.
pub(crate) fn write_text(out: &mut String, text: &str)
    ensures
        final(out)@ == old(out)@ + render_text(text@),
{
    push_char(out, '"');
    let ghost start = out@;
    assert(start + escape(text@.take(0)) =~= start);
    for c in it: text.chars()
        invariant
            it.seq() == text@,
            out@ == start + escape(text@.take(it.index() as int)),
    {
        proof {
            let i = it.index() as int;
            assert(text@.take(i + 1) =~= text@.take(i).push(c));
            lemma_escape_push(text@.take(i), c);
        }
        write_escaped(out, c);
        assert(out@ =~= start + escape(text@.take(it.index() + 1)));
    }
    assert(text@.take(text@.len() as int) =~= text@);
    push_char(out, '"');
    assert(out@ =~= old(out)@ + render_text(text@));
}

/// Reads fixed text at a position. Yields the position after it.
pub(crate) fn read_lit(text: &Vec<char>, pos: usize, lit: &str) -> (end: Option<usize>)
    requires
        pos <= text@.len(),
    ensures
        match end {
            Some(e) => e == pos + lit@.len() && e <= text@.len() && text@.skip(pos as int).take(
                lit@.len() as int,
            ) == lit@,
            None => !(lit@.len() <= text@.len() - pos && text@.skip(pos as int).take(
                lit@.len() as int,
            ) == lit@),
        },
{
    let mut at: usize = pos;
    for c in it: lit.chars()
        invariant
            it.seq() == lit@,
            at == pos + it.index(),
            at <= text@.len(),
            forall|k: int| 0 <= k < it.index() ==> text@[pos + k] == lit@[k],
    {
        if at >= text.len() {
            return None;
        }
        if text[at] != c {
            proof {
                let k = it.index() as int;
                if lit@.len() <= text@.len() - pos {
                    assert(text@.skip(pos as int).take(lit@.len() as int)[k] == text@[pos + k]);
                }
            }
            return None;
        }
        at = at + 1;
    }
    assert(text@.skip(pos as int).take(lit@.len() as int) =~= lit@);
    Some(at)
}

/// Reads an integer at a position. Yields the integer and the position
/// after it.
pub(crate) fn read_int(text: &Vec<char>, pos: usize) -> (r: Option<(i64, usize)>)
    requires
        pos <= text@.len(),
    ensures
        match parse_int(text@.skip(pos as int)) {
            Some((v, n)) => r matches Some((found, end)) && found == v && end == pos + n && pos
                + n <= text@.len(),
            None => r is None,
        },
{
    reveal(parse_int);
    let len = text.len();
    let negative = pos < len && text[pos] == '-';
    let start: usize = if negative {
        pos + 1
    } else {
        pos
    };
    let ghost s = text@.skip(pos as int);
    let ghost body = text@.skip(start as int);
    proof {
        if negative {
            assert(s[0] == text@[pos as int]);
            assert(s.skip(1) =~= body);
        } else if pos < len {
            assert(s[0] == text@[pos as int]);
        }
    }
    let mut i: usize = start;
    let mut acc: u128 = 0;
    let mut too_big = false;
    assert(text@.subrange(start as int, i as int) =~= Seq::<char>::empty());
    while i < len && text[i] >= '0' && text[i] <= '9'
        invariant
            len == text@.len(),
            start <= i <= len,
            forall|k: int| start <= k < i ==> is_digit(#[trigger] text@[k]),
            !too_big ==> acc == digits_value(text@.subrange(start as int, i as int)) && acc
                <= 0x8000_0000_0000_0000,
            too_big ==> digits_value(text@.subrange(start as int, i as int))
                > 0x8000_0000_0000_0000,
        decreases len - i,
    {
        let d: u128 = (text[i] as u32 - 48) as u128;
        proof {
            let next = text@.subrange(start as int, i + 1);
            assert(next.drop_last() =~= text@.subrange(start as int, i as int));
            assert(next.last() == text@[i as int]);
        }
        if !too_big {
            acc = acc * 10 + d;
            if acc > 0x8000_0000_0000_0000 {
                too_big = true;
            }
        }
        i = i + 1;
    }
    let n: usize = i - start;
    proof {
        assert forall|k: int| 0 <= k < n implies is_digit(#[trigger] body[k]) by {
            assert(body[k] == text@[start + k]);
        }
        if n < body.len() {
            assert(body[n as int] == text@[i as int]);
        }
        lemma_digit_run(body, n as nat);
        assert(body.take(n as int) =~= text@.subrange(start as int, i as int));
    }
    if n == 0 || too_big {
        None
    } else if negative {
        let v: i64 = (-(acc as i128)) as i64;
        Some((v, i))
    } else if acc > 0x7fff_ffff_ffff_ffff {
        None
    } else {
        Some((acc as i64, i))
    }
}

/// The value of a hexadecimal digit in lower case.
fn hex_digit_value(c: char) -> (v: Option<u32>)
    ensures
        match hex_value(c) {
            Some(d) => v == Some(d as u32),
            None => v is None,
        },
{
    if c >= '0' && c <= '9' {
        Some(c as u32 - 48)
    } else if c >= 'a' && c <= 'f' {
        Some(c as u32 - 87)
    } else {
        None
    }
}

/// The character that a letter after a backslash stands for.
fn letter_value(letter: char) -> (c: Option<char>)
    ensures
        c == escaped_by(letter),
{
    if letter == '"' || letter == '\\' {
        Some(letter)
    } else if letter == 'b' {
        Some('\u{8}')
    } else if letter == 't' {
        Some('\t')
    } else if letter == 'n' {
        Some('\n')
    } else if letter == 'f' {
        Some('\u{c}')
    } else if letter == 'r' {
        Some('\r')
    } else {
        None
    }
}

/// Reads one character of a quoted text at a position, plain or escaped.
/// Yields the character and the position after it.
fn read_char(text: &Vec<char>, pos: usize) -> (r: Option<(char, usize)>)
    requires
        pos <= text@.len(),
    ensures
        match parse_char(text@.skip(pos as int)) {
            Some((c, n)) => r matches Some((found, end)) && found == c && end == pos + n && 0 < n
                && pos + n <= text@.len(),
            None => r is None,
        },
{
    let len = text.len();
    let ghost s = text@.skip(pos as int);
    assert(forall|k: int| 0 <= k < s.len() ==> s[k] == text@[pos + k]);
    if pos >= len {
        return None;
    }
    let c = text[pos];
    if c == '"' {
        None
    } else if c == '\\' {
        let short = if len - pos >= 2 {
            letter_value(text[pos + 1])
        } else {
            None
        };
        if let Some(found) = short {
            Some((found, pos + 2))
        } else if len - pos >= 6 && text[pos + 1] == 'u' && text[pos + 2] == '0' && text[pos + 3]
            == '0' {
            match (hex_digit_value(text[pos + 4]), hex_digit_value(text[pos + 5])) {
                (Some(hi), Some(lo)) => {
                    if hi * 16 + lo < 0x20 {
                        Some((((hi * 16 + lo) as u8) as char, pos + 6))
                    } else {
                        None
                    }
                },
                _ => None,
            }
        } else {
            None
        }
    } else if (c as u32) < 0x20 {
        None
    } else {
        Some((c, pos + 1))
    }
}

/// Reads a quoted text at a position. Yields the text and the position
/// after its closing quote.
pub(crate) fn read_text(text: &Vec<char>, pos: usize) -> (r: Option<(String, usize)>)
    requires
        pos <= text@.len(),
    ensures
        match parse_text(text@.skip(pos as int)) {
            Some((t, n)) => r matches Some((found, end)) && found@ == t && end == pos + n && pos
                + n <= text@.len(),
            None => r is None,
        },
{
    reveal(parse_text);
    let len = text.len();
    let ghost s = text@.skip(pos as int);
    if pos >= len || text[pos] != '"' {
        proof {
            if pos < len {
                assert(s[0] == text@[pos as int]);
            }
        }
        return None;
    }
    assert(s[0] == text@[pos as int]);
    let ghost inner = text@.skip(pos + 1);
    assert(s.skip(1) =~= inner);
    let mut found = String::new();
    let mut i: usize = pos + 1;
    assert(found@ + Seq::<char>::empty() =~= Seq::<char>::empty());
    proof {
        match parse_chars(inner) {
            Some((rest, m)) => {
                assert(found@ + rest =~= rest);
            },
            None => {},
        }
    }
    while i < len
        invariant
            len == text@.len(),
            pos + 1 <= i <= len,
            inner == text@.skip(pos + 1),
            parse_text(text@.skip(pos as int)) == (match parse_chars(inner) {
                Some((t, n)) => Some((t, n + 1)),
                None => None,
            }),
            parse_chars(inner) == (match parse_chars(text@.skip(i as int)) {
                Some((rest, m)) => Some((found@ + rest, (i - (pos + 1) + m) as nat)),
                None => None,
            }),
        decreases len - i,
    {
        let ghost here = text@.skip(i as int);
        assert(here[0] == text@[i as int]);
        if text[i] == '"' {
            assert(parse_chars(here) == Some((Seq::<char>::empty(), 1nat)));
            assert(found@ + Seq::<char>::empty() =~= found@);
            return Some((found, i + 1));
        }
        match read_char(text, i) {
            Some((c, next)) => {
                proof {
                    let n = (next - i) as nat;
                    assert(here.skip(n as int) =~= text@.skip(next as int));
                    match parse_chars(text@.skip(next as int)) {
                        Some((rest, m)) => {
                            assert(found@.push(c) + rest =~= found@ + (seq![c] + rest));
                        },
                        None => {},
                    }
                }
                push_char(&mut found, c);
                i = next;
            },
            None => {
                return None;
            },
        }
    }
    proof {
        let here = text@.skip(i as int);
        assert(here.len() == 0);
        assert(parse_char(here) is None);
    }
    None
}

/// One part of a layout: fixed text, or the place of an integer or of a
/// quoted text.
#[derive(Debug, Clone, Copy, PartialEq, Eq)]
pub enum Part {
    Lit(&'static str),
    Int,
    Text,
}

/// A value that fills a place of a layout.
#[derive(Debug, Clone, PartialEq, Eq)]
pub enum Field {
    Int(i64),
    Text(String),
}

impl View for Part {
    type V = Slot;

    open spec fn view(&self) -> Slot {
        match *self {
            Part::Lit(l) => Slot::Lit(l@),
            Part::Int => Slot::Int,
            Part::Text => Slot::Text,
        }
    }
}

impl View for Field {
    type V = Value;

    open spec fn view(&self) -> Value {
        match *self {
            Field::Int(v) => Value::Int(v),
            Field::Text(t) => Value::Text(t@),
        }
    }
}

/// The layout that a sequence of parts stands for.
pub open spec fn parts_view(parts: Seq<Part>) -> Seq<Slot> {
    Seq::new(parts.len(), |i: int| parts[i]@)
}

/// The values that a sequence of fields stands for.
pub open spec fn fields_view(fields: Seq<Field>) -> Seq<Value> {
    Seq::new(fields.len(), |i: int| fields[i]@)
}

/// Appends the text of a layout whose places are filled with the fields.
pub(crate) fn write_layout(out: &mut String, parts: &Vec<Part>, fields: &Vec<Field>)
    requires
        fits(parts_view(parts@), fields_view(fields@)),
    ensures
        final(out)@ == old(out)@ + render(parts_view(parts@), fields_view(fields@)),
{
    let ghost layout = parts_view(parts@);
    let ghost values = fields_view(fields@);
    let count = fields.len();
    let mut i: usize = 0;
    let mut j: usize = 0;
    assert(layout.skip(0) =~= layout && values.skip(0) =~= values);
    while i < parts.len()
        invariant
            layout == parts_view(parts@),
            values == fields_view(fields@),
            count == fields@.len(),
            i <= parts@.len(),
            j <= fields@.len(),
            fits(layout.skip(i as int), values.skip(j as int)),
            old(out)@ + render(layout, values) == out@ + render(
                layout.skip(i as int),
                values.skip(j as int),
            ),
        decreases parts@.len() - i,
    {
        let ghost here = layout.skip(i as int);
        let ghost left = values.skip(j as int);
        let ghost before = out@;
        assert(here[0] == parts@[i as int]@);
        assert(here.skip(1) =~= layout.skip(i + 1));
        match parts[i] {
            Part::Lit(l) => {
                out.append(l);
                assert(before + render(here, left) =~= out@ + render(here.skip(1), left));
            },
            Part::Int => {
                assert(j < count);
                assert(left[0] == fields@[j as int]@);
                assert(left.skip(1) =~= values.skip(j + 1));
                match &fields[j] {
                    Field::Int(v) => {
                        write_int(out, *v);
                    },
                    Field::Text(_) => {
                        assert(false);
                    },
                }
                assert(before + render(here, left) =~= out@ + render(here.skip(1), left.skip(1)));
                j = j + 1;
            },
            Part::Text => {
                assert(j < count);
                assert(left[0] == fields@[j as int]@);
                assert(left.skip(1) =~= values.skip(j + 1));
                match &fields[j] {
                    Field::Text(t) => {
                        write_text(out, t.as_str());
                    },
                    Field::Int(_) => {
                        assert(false);
                    },
                }
                assert(before + render(here, left) =~= out@ + render(here.skip(1), left.skip(1)));
                j = j + 1;
            },
        }
        i = i + 1;
    }
    assert(render(layout.skip(i as int), values.skip(j as int)) =~= Seq::<char>::empty());
    assert(out@ + Seq::<char>::empty() =~= out@);
}

/// Reads a text laid out as the parts say, at a position. Yields the fields
/// found in the places and the position after the text.
pub(crate) fn read_layout(text: &Vec<char>, pos: usize, parts: &Vec<Part>) -> (r: Option<
    (Vec<Field>, usize),
>)
    requires
        pos <= text@.len(),
    ensures
        match parse(parts_view(parts@), text@.skip(pos as int)) {
            Some((values, n)) => r matches Some((fields, end)) && fields_view(fields@) == values
                && end == pos + n && pos + n <= text@.len(),
            None => r is None,
        },
{
    let ghost layout = parts_view(parts@);
    let ghost s = text@.skip(pos as int);
    let mut fields: Vec<Field> = Vec::new();
    let mut at: usize = pos;
    let mut i: usize = 0;
    assert(layout.skip(0) =~= layout);
    assert(fields_view(fields@) =~= Seq::<Value>::empty());
    proof {
        match parse(layout, s) {
            Some((values, n)) => {
                assert(fields_view(fields@) + values =~= values);
            },
            None => {},
        }
    }
    while i < parts.len()
        invariant
            layout == parts_view(parts@),
            s == text@.skip(pos as int),
            i <= parts@.len(),
            pos <= at <= text@.len(),
            parse(layout, s) == (match parse(layout.skip(i as int), text@.skip(at as int)) {
                Some((values, n)) => Some((fields_view(fields@) + values, (at - pos + n) as nat)),
                None => None,
            }),
        decreases parts@.len() - i,
    {
        let ghost here = layout.skip(i as int);
        let ghost rest = text@.skip(at as int);
        let ghost before = fields_view(fields@);
        assert(here[0] == parts@[i as int]@);
        assert(here.skip(1) =~= layout.skip(i + 1));
        match parts[i] {
            Part::Lit(l) => {
                match read_lit(text, at, l) {
                    Some(end) => {
                        assert(rest.skip(l@.len() as int) =~= text@.skip(end as int));
                        at = end;
                    },
                    None => {
                        return None;
                    },
                }
            },
            Part::Int => {
                match read_int(text, at) {
                    Some((v, end)) => {
                        proof {
                            let n = (end - at) as nat;
                            assert(rest.skip(n as int) =~= text@.skip(end as int));
                            match parse(here.skip(1), text@.skip(end as int)) {
                                Some((values, m)) => {
                                    assert(before.push(Value::Int(v)) + values =~= before + (
                                    seq![Value::Int(v)] + values));
                                },
                                None => {},
                            }
                        }
                        fields.push(Field::Int(v));
                        assert(fields_view(fields@) =~= before.push(Value::Int(v)));
                        at = end;
                    },
                    None => {
                        return None;
                    },
                }
            },
            Part::Text => {
                match read_text(text, at) {
                    Some((t, end)) => {
                        proof {
                            let n = (end - at) as nat;
                            assert(rest.skip(n as int) =~= text@.skip(end as int));
                            match parse(here.skip(1), text@.skip(end as int)) {
                                Some((values, m)) => {
                                    assert(before.push(Value::Text(t@)) + values =~= before + (
                                    seq![Value::Text(t@)] + values));
                                },
                                None => {},
                            }
                        }
                        fields.push(Field::Text(t));
                        assert(fields_view(fields@) =~= before.push(Value::Text(t@)));
                        at = end;
                    },
                    None => {
                        return None;
                    },
                }
            },
        }
        i = i + 1;
    }
    proof {
        assert(layout.skip(i as int).len() == 0);
        assert(fields_view(fields@) + Seq::<Value>::empty() =~= fields_view(fields@));
    }
    Some((fields, at))
}

} // verus!
