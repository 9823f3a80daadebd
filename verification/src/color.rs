//! The color value model: a closed set of named colors, an extension variant
//! for extended palettes, and a total, lossy text parser.

use vstd::prelude::*;

verus! {

/// A requested terminal color.
///
/// `AnsiValue` carries an index into an extended 256-color palette. `Reset`
/// asks a backend to restore the terminal's default for the attribute being
/// set. Text that names no known color parses to the documented default
/// variant, `White`; parsing never fails.
#[derive(Clone, Copy, Debug, PartialEq, Eq, Structural)]
pub enum Color {
    Black,
    Red,
    Green,
    Yellow,
    Blue,
    Magenta,
    Cyan,
    White,
    Reset,
    AnsiValue(u8),
}

/// The whitespace characters the parser tolerates around a color name.
pub open spec fn is_space(c: char) -> bool {
    c == ' ' || c == '\t' || c == '\n' || c == '\r'
}

/// ASCII lowercasing of one character; everything else is left unchanged.
pub open spec fn lower_char(c: char) -> char {
    if 'A' <= c && c <= 'Z' {
        ((c as u8) + 32) as char
    } else {
        c
    }
}

/// ASCII lowercasing of a whole character sequence.
pub open spec fn lower_seq(s: Seq<char>) -> Seq<char> {
    s.map_values(|c: char| lower_char(c))
}

/// The sequence with its leading whitespace removed.
pub open spec fn trim_start(s: Seq<char>) -> Seq<char>
    decreases s.len(),
{
    if s.len() > 0 && is_space(s[0]) {
        trim_start(s.drop_first())
    } else {
        s
    }
}

/// The sequence with its trailing whitespace removed.
pub open spec fn trim_end(s: Seq<char>) -> Seq<char>
    decreases s.len(),
{
    if s.len() > 0 && is_space(s.last()) {
        trim_end(s.drop_last())
    } else {
        s
    }
}

/// The normal form the parser compares against: surrounding whitespace
/// removed, ASCII letters lowercased.
pub open spec fn normalize(s: Seq<char>) -> Seq<char> {
    lower_seq(trim_end(trim_start(s)))
}

/// What `Color::from_text` returns for a given character sequence.
pub open spec fn from_text_spec(s: Seq<char>) -> Color {
    let n = normalize(s);
    if n == "black"@ {
        Color::Black
    } else if n == "red"@ {
        Color::Red
    } else if n == "green"@ {
        Color::Green
    } else if n == "yellow"@ {
        Color::Yellow
    } else if n == "blue"@ {
        Color::Blue
    } else if n == "magenta"@ {
        Color::Magenta
    } else if n == "cyan"@ {
        Color::Cyan
    } else if n == "white"@ {
        Color::White
    } else if n == "reset"@ {
        Color::Reset
    } else {
        Color::White
    }
}

impl Color {
    /// Parse a color from text. Parsing is case-insensitive, tolerates
    /// surrounding whitespace, and is total: text that names no known color
    /// yields the default variant, `White`.
    pub fn from_text(text: &str) -> (c: Color)
        ensures
            c == from_text_spec(text@),
    {
        let n = normalize_exec(text);
        if eq_str(&n, "black") {
            Color::Black
        } else if eq_str(&n, "red") {
            Color::Red
        } else if eq_str(&n, "green") {
            Color::Green
        } else if eq_str(&n, "yellow") {
            Color::Yellow
        } else if eq_str(&n, "blue") {
            Color::Blue
        } else if eq_str(&n, "magenta") {
            Color::Magenta
        } else if eq_str(&n, "cyan") {
            Color::Cyan
        } else if eq_str(&n, "white") {
            Color::White
        } else if eq_str(&n, "reset") {
            Color::Reset
        } else {
            Color::White
        }
    }
}

/// The normal form of the text, as a character vector.
fn normalize_exec(text: &str) -> (v: Vec<char>)
    ensures
        v@ == normalize(text@),
{
    let len = text.unicode_len();
    proof {
        assert(text@.subrange(0, len as int) =~= text@);
    }
    let mut start: usize = 0;
    while start < len && is_space_exec(text.get_char(start))
        invariant
            0 <= start <= len,
            len == text@.len(),
            trim_start(text@.subrange(start as int, len as int)) == trim_start(text@),
        decreases len - start,
    {
        proof {
            let tail = text@.subrange(start as int, len as int);
            assert(tail.drop_first() =~= text@.subrange(start as int + 1, len as int));
        }
        start += 1;
    }
    proof {
        let tail = text@.subrange(start as int, len as int);
        assert(trim_start(tail) == tail);
        assert(trim_start(text@) == text@.subrange(start as int, len as int));
    }
    let mut end: usize = len;
    while end > start && is_space_exec(text.get_char(end - 1))
        invariant
            start <= end <= len,
            len == text@.len(),
            trim_start(text@) == text@.subrange(start as int, len as int),
            trim_end(text@.subrange(start as int, end as int)) == trim_end(trim_start(text@)),
        decreases end,
    {
        proof {
            let mid = text@.subrange(start as int, end as int);
            assert(mid.last() == text@[end - 1]);
            assert(mid.drop_last() =~= text@.subrange(start as int, end as int - 1));
        }
        end -= 1;
    }
    proof {
        let mid = text@.subrange(start as int, end as int);
        assert(trim_end(mid) == mid);
        assert(trim_end(trim_start(text@)) == text@.subrange(start as int, end as int));
    }
    let mut v: Vec<char> = Vec::new();
    let mut i: usize = start;
    while i < end
        invariant
            start <= i <= end <= len,
            len == text@.len(),
            trim_end(trim_start(text@)) == text@.subrange(start as int, end as int),
            v@ == lower_seq(text@.subrange(start as int, i as int)),
        decreases end - i,
    {
        let c = lower_char_exec(text.get_char(i));
        v.push(c);
        proof {
            let prev = text@.subrange(start as int, i as int);
            let next = text@.subrange(start as int, i as int + 1);
            assert(lower_seq(next) =~= lower_seq(prev).push(lower_char(text@[i as int])));
        }
        i += 1;
    }
    v
}

/// Whether the characters of `v` spell exactly the string `s`.
fn eq_str(v: &Vec<char>, s: &str) -> (r: bool)
    ensures
        r == (v@ == s@),
{
    let n = s.unicode_len();
    if v.len() != n {
        return false;
    }
    let mut i: usize = 0;
    while i < n
        invariant
            0 <= i <= n,
            n == s@.len(),
            n == v@.len(),
            forall|k: int| 0 <= k < i ==> v@[k] == s@[k],
        decreases n - i,
    {
        if v[i] != s.get_char(i) {
            return false;
        }
        i += 1;
    }
    proof {
        assert(v@ =~= s@);
    }
    true
}

/// The canonical spelling of a color's name: the text whose parse yields the
/// color. The extension variant has no name; its canonical text is empty,
/// which parses to the default, `White`.
pub open spec fn canonical_name(c: Color) -> Seq<char> {
    match c {
        Color::Black => "black"@,
        Color::Red => "red"@,
        Color::Green => "green"@,
        Color::Yellow => "yellow"@,
        Color::Blue => "blue"@,
        Color::Magenta => "magenta"@,
        Color::Cyan => "cyan"@,
        Color::White => "white"@,
        Color::Reset => "reset"@,
        Color::AnsiValue(_) => Seq::empty(),
    }
}

/// Lowercasing moves only ASCII letters, so it neither makes nor unmakes
/// whitespace.
pub proof fn lemma_lower_char_space(c: char)
    ensures
        is_space(lower_char(c)) == is_space(c),
{
}

/// Leading whitespace ahead of a sequence does not change what trimming
/// leaves.
pub proof fn lemma_trim_start_ws_prefix(p: Seq<char>, t: Seq<char>)
    requires
        forall|i: int| 0 <= i < p.len() ==> is_space(p[i]),
    ensures
        trim_start(p + t) == trim_start(t),
    decreases p.len(),
{
    if p.len() == 0 {
        assert(p + t =~= t);
    } else {
        assert(is_space((p + t)[0]));
        assert((p + t).drop_first() =~= p.drop_first() + t);
        lemma_trim_start_ws_prefix(p.drop_first(), t);
    }
}

/// Trailing whitespace after a sequence does not change what trimming leaves.
pub proof fn lemma_trim_end_ws_suffix(t: Seq<char>, q: Seq<char>)
    requires
        forall|i: int| 0 <= i < q.len() ==> is_space(q[i]),
    ensures
        trim_end(t + q) == trim_end(t),
    decreases q.len(),
{
    if q.len() == 0 {
        assert(t + q =~= t);
    } else {
        assert((t + q).last() == q.last());
        assert((t + q).drop_last() =~= t + q.drop_last());
        lemma_trim_end_ws_suffix(t, q.drop_last());
    }
}

/// A nonempty text with no whitespace at its ends and no uppercase ASCII
/// letter is its own normal form.
pub proof fn lemma_normalize_fixed(s: Seq<char>)
    requires
        s.len() > 0,
        !is_space(s[0]),
        !is_space(s.last()),
        forall|i: int| 0 <= i < s.len() ==> lower_char(#[trigger] s[i]) == s[i],
    ensures
        normalize(s) == s,
{
    assert(trim_start(s) == s);
    assert(trim_end(s) == s);
    assert(lower_seq(s) =~= s);
}

/// Parsing the canonical name of any named color yields that color back.
pub proof fn lemma_canonical_name_parses(c: Color)
    requires
        !(c is AnsiValue),
    ensures
        from_text_spec(canonical_name(c)) == c,
{
    reveal_strlit("black");
    reveal_strlit("red");
    reveal_strlit("green");
    reveal_strlit("yellow");
    reveal_strlit("blue");
    reveal_strlit("magenta");
    reveal_strlit("cyan");
    reveal_strlit("white");
    reveal_strlit("reset");
    match c {
        Color::Black => {
            lemma_normalize_fixed("black"@);
            assert(from_text_spec("black"@) == Color::Black);
        },
        Color::Red => {
            lemma_normalize_fixed("red"@);
            assert(from_text_spec("red"@) == Color::Red);
        },
        Color::Green => {
            lemma_normalize_fixed("green"@);
            assert(from_text_spec("green"@) == Color::Green);
        },
        Color::Yellow => {
            lemma_normalize_fixed("yellow"@);
            assert(from_text_spec("yellow"@) == Color::Yellow);
        },
        Color::Blue => {
            lemma_normalize_fixed("blue"@);
            assert(from_text_spec("blue"@) == Color::Blue);
        },
        Color::Magenta => {
            lemma_normalize_fixed("magenta"@);
            assert(from_text_spec("magenta"@) == Color::Magenta);
        },
        Color::Cyan => {
            lemma_normalize_fixed("cyan"@);
            assert(from_text_spec("cyan"@) == Color::Cyan);
        },
        Color::White => {
            lemma_normalize_fixed("white"@);
            assert(from_text_spec("white"@) == Color::White);
        },
        Color::Reset => {
            lemma_normalize_fixed("reset"@);
            assert(from_text_spec("reset"@) == Color::Reset);
        },
        Color::AnsiValue(_) => (),
    }
}

/// Parsing is insensitive to letter case and to surrounding whitespace: any
/// case variation `v` of a (trimmed, nonempty) text `name`, wrapped in any
/// whitespace `p` and `q`, parses to the same color as `name` itself. With
/// `lemma_canonical_name_parses` this covers every recognized color name.
pub proof fn lemma_from_text_case_whitespace_invariant(
    name: Seq<char>,
    v: Seq<char>,
    p: Seq<char>,
    q: Seq<char>,
)
    requires
        name.len() > 0,
        !is_space(name[0]),
        !is_space(name.last()),
        v.len() == name.len(),
        forall|i: int| 0 <= i < name.len() ==> lower_char(v[i]) == lower_char(#[trigger] name[i]),
        forall|i: int| 0 <= i < p.len() ==> is_space(p[i]),
        forall|i: int| 0 <= i < q.len() ==> is_space(q[i]),
    ensures
        from_text_spec(p + v + q) == from_text_spec(name),
{
    lemma_lower_char_space(v[0]);
    lemma_lower_char_space(name[0]);
    lemma_lower_char_space(v[v.len() - 1]);
    lemma_lower_char_space(name[name.len() - 1]);
    assert(!is_space(v[0]));
    assert(!is_space(v.last()));
    assert(p + v + q =~= p + (v + q));
    lemma_trim_start_ws_prefix(p, v + q);
    assert((v + q)[0] == v[0]);
    assert(trim_start(v + q) == v + q);
    lemma_trim_end_ws_suffix(v, q);
    assert(trim_end(v) == v);
    assert(trim_start(name) == name);
    assert(trim_end(name) == name);
    assert(normalize(p + v + q) == lower_seq(v));
    assert(lower_seq(v) =~= lower_seq(name));
    assert(normalize(p + v + q) == normalize(name));
}

/// Parsing is idempotent: parsing the canonical name of whatever any text
/// parses to gives that same color, because the parser only ever yields named
/// colors.
pub proof fn lemma_from_text_idempotent(s: Seq<char>)
    ensures
        from_text_spec(canonical_name(from_text_spec(s))) == from_text_spec(s),
{
    let c = from_text_spec(s);
    assert(!(c is AnsiValue));
    lemma_canonical_name_parses(c);
}

/// Any text whose normal form is none of the recognized color names parses to
/// the default variant, `White`; no input is rejected.
pub proof fn lemma_from_text_unrecognized(s: Seq<char>)
    requires
        normalize(s) != "black"@,
        normalize(s) != "red"@,
        normalize(s) != "green"@,
        normalize(s) != "yellow"@,
        normalize(s) != "blue"@,
        normalize(s) != "magenta"@,
        normalize(s) != "cyan"@,
        normalize(s) != "reset"@,
    ensures
        from_text_spec(s) == Color::White,
{
}

fn lower_char_exec(c: char) -> (r: char)
    ensures
        r == lower_char(c),
{
    if 'A' <= c && c <= 'Z' {
        ((c as u8) + 32) as char
    } else {
        c
    }
}

fn is_space_exec(c: char) -> (r: bool)
    ensures
        r == is_space(c),
{
    c == ' ' || c == '\t' || c == '\n' || c == '\r'
}

} // verus!
