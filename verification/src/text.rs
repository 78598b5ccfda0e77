//! Text preparation for the daemon: basename extraction, decimal rendering of
//! the line number, assembly of the `[<basename>:<line>] <message>` line, and
//! substitution of the fixed sentinel for text that holds an embedded
//! terminator character.

use vstd::prelude::*;

verus! {

/// Whether the text holds an embedded terminator character, which the
/// daemon's native text representation cannot carry.
pub open spec fn contains_nul(s: Seq<char>) -> bool {
    exists|i: int| 0 <= i < s.len() && s[i] == '\0'
}

/// Reports whether the text holds an embedded terminator character.
pub fn has_nul(s: &str) -> (r: bool)
    ensures
        r == contains_nul(s@),
{
    let len: usize = s.unicode_len();
    let mut i: usize = 0;
    while i < len
        invariant
            i <= len,
            len == s@.len(),
            forall|j: int| 0 <= j < i ==> s@[j] != '\0',
        decreases len - i,
    {
        if s.get_char(i) == '\0' {
            assert(contains_nul(s@));
            return true;
        }
        i = i + 1;
    }
    false
}

/// The part of a path after its last separator; the whole path when it has no
/// separator, and empty when it ends in one.
pub open spec fn basename_spec(s: Seq<char>) -> Seq<char>
    decreases s.len(),
{
    if s.len() == 0 {
        s
    } else if s[s.len() - 1] == '/' {
        Seq::empty()
    } else {
        basename_spec(s.drop_last()).push(s.last())
    }
}

/// When every character from position `i` on is a non-separator and position
/// `i` is either the start or just after a separator, the basename is exactly
/// the suffix from `i`.
proof fn lemma_basename_suffix(s: Seq<char>, i: int)
    requires
        0 <= i <= s.len(),
        i > 0 ==> s[i - 1] == '/',
        forall|k: int| i <= k < s.len() ==> s[k] != '/',
    ensures
        basename_spec(s) == s.subrange(i, s.len() as int),
    decreases s.len(),
{
    if s.len() == i {
        if i == 0 {
            assert(s.subrange(0, 0) =~= s);
        } else {
            assert(s[s.len() - 1] == '/');
            assert(s.subrange(i, s.len() as int) =~= Seq::<char>::empty());
        }
    } else {
        assert(s[s.len() - 1] != '/');
        lemma_basename_suffix(s.drop_last(), i);
        assert(s.drop_last().subrange(i, s.len() - 1).push(s.last()) =~= s.subrange(
            i,
            s.len() as int,
        ));
    }
}

/// Strips any directory prefix up to the last path separator, as the suffix
/// of the input after that separator.
pub fn basename<'a>(s: &'a str) -> (r: &'a str)
    ensures
        r@ == basename_spec(s@),
{
    let len: usize = s.unicode_len();
    let mut i: usize = len;
    while i > 0 && s.get_char(i - 1) != '/'
        invariant
            i <= len,
            len == s@.len(),
            forall|k: int| i <= k < len ==> s@[k] != '/',
        decreases i,
    {
        i = i - 1;
    }
    proof {
        lemma_basename_suffix(s@, i as int);
    }
    s.substring_char(i, len)
}

/// The decimal digit for one value below ten.
pub open spec fn digit_char(d: int) -> char {
    if d == 0 {
        '0'
    } else if d == 1 {
        '1'
    } else if d == 2 {
        '2'
    } else if d == 3 {
        '3'
    } else if d == 4 {
        '4'
    } else if d == 5 {
        '5'
    } else if d == 6 {
        '6'
    } else if d == 7 {
        '7'
    } else if d == 8 {
        '8'
    } else {
        '9'
    }
}

/// The decimal rendering of a number, most significant digit first, with no
/// leading zero except for the number zero itself.
pub open spec fn decimal_spec(n: nat) -> Seq<char>
    decreases n,
{
    if n < 10 {
        seq![digit_char(n as int)]
    } else {
        decimal_spec(n / 10).push(digit_char((n % 10) as int))
    }
}

/// The one-character string for one decimal digit.
fn digit_str(d: u32) -> (r: &'static str)
    requires
        d < 10,
    ensures
        r@ == seq![digit_char(d as int)],
{
    if d == 0 {
        proof {
            reveal_strlit("0");
            assert("0"@ =~= seq![digit_char(0)]);
        }
        "0"
    } else if d == 1 {
        proof {
            reveal_strlit("1");
            assert("1"@ =~= seq![digit_char(1)]);
        }
        "1"
    } else if d == 2 {
        proof {
            reveal_strlit("2");
            assert("2"@ =~= seq![digit_char(2)]);
        }
        "2"
    } else if d == 3 {
        proof {
            reveal_strlit("3");
            assert("3"@ =~= seq![digit_char(3)]);
        }
        "3"
    } else if d == 4 {
        proof {
            reveal_strlit("4");
            assert("4"@ =~= seq![digit_char(4)]);
        }
        "4"
    } else if d == 5 {
        proof {
            reveal_strlit("5");
            assert("5"@ =~= seq![digit_char(5)]);
        }
        "5"
    } else if d == 6 {
        proof {
            reveal_strlit("6");
            assert("6"@ =~= seq![digit_char(6)]);
        }
        "6"
    } else if d == 7 {
        proof {
            reveal_strlit("7");
            assert("7"@ =~= seq![digit_char(7)]);
        }
        "7"
    } else if d == 8 {
        proof {
            reveal_strlit("8");
            assert("8"@ =~= seq![digit_char(8)]);
        }
        "8"
    } else {
        proof {
            reveal_strlit("9");
            assert("9"@ =~= seq![digit_char(9)]);
        }
        "9"
    }
}

/// Appends the decimal rendering of `n` to the text.
fn push_decimal(out: &mut String, n: u32)
    ensures
        final(out)@ == old(out)@ + decimal_spec(n as nat),
    decreases n,
{
    if n >= 10 {
        push_decimal(out, n / 10);
    }
    let ds = digit_str(n % 10);
    out.append(ds);
    proof {
        if n < 10 {
            assert(old(out)@ + seq![digit_char((n % 10) as int)] =~= old(out)@ + decimal_spec(
                n as nat,
            ));
        } else {
            assert((old(out)@ + decimal_spec((n / 10) as nat)) + seq![
                digit_char((n % 10) as int),
            ] =~= old(out)@ + decimal_spec(n as nat));
        }
    }
}

/// The whole formatted line `[<basename>:<line>] <message>`.
pub open spec fn formatted_line(file: Seq<char>, line: nat, msg: Seq<char>) -> Seq<char> {
    seq!['['] + basename_spec(file) + seq![':'] + decimal_spec(line) + seq![']', ' '] + msg
}

/// Builds the line `[<basename of file>:<line>] <msg>` that the daemon is
/// handed for one record.
pub fn format_line(file: &str, line: u32, msg: &str) -> (r: String)
    ensures
        r@ == formatted_line(file@, line as nat, msg@),
{
    let mut out = String::new();
    out.append("[");
    out.append(basename(file));
    out.append(":");
    push_decimal(&mut out, line);
    out.append("] ");
    out.append(msg);
    proof {
        reveal_strlit("[");
        reveal_strlit(":");
        reveal_strlit("] ");
        assert("["@ =~= seq!['[']);
        assert(":"@ =~= seq![':']);
        assert("] "@ =~= seq![']', ' ']);
        assert(out@ =~= formatted_line(file@, line as nat, msg@));
    }
    out
}

/// The fixed diagnostic line that replaces a message the daemon's text
/// representation cannot carry.
pub open spec fn sentinel_text() -> Seq<char> {
    "ERROR: NulError when converting log message from Rust to C."@
}

/// The sentinel itself holds no embedded terminator, so it can always be
/// handed to the daemon.
pub proof fn lemma_sentinel_no_nul()
    ensures
        !contains_nul(sentinel_text()),
{
    reveal_strlit("ERROR: NulError when converting log message from Rust to C.");
}

/// The fixed fallback diagnostic line, as an owned value.
pub fn sentinel_message() -> (r: String)
    ensures
        r@ == sentinel_text(),
{
    String::from_str("ERROR: NulError when converting log message from Rust to C.")
}

/// Passes well-formed text through unchanged and replaces text that holds an
/// embedded terminator with the fixed sentinel, so a malformed message never
/// fails the caller and never vanishes silently.
pub fn encode_text(text: String) -> (r: String)
    ensures
        !contains_nul(text@) ==> r@ == text@,
        contains_nul(text@) ==> r@ == sentinel_text(),
        !contains_nul(r@),
{
    proof {
        lemma_sentinel_no_nul();
    }
    if has_nul(text.as_str()) {
        sentinel_message()
    } else {
        text
    }
}

/// A concatenation holds an embedded terminator exactly when one of its parts
/// does.
pub proof fn lemma_contains_nul_concat(a: Seq<char>, b: Seq<char>)
    ensures
        contains_nul(a + b) <==> contains_nul(a) || contains_nul(b),
{
    if contains_nul(a) {
        let i = choose|i: int| 0 <= i < a.len() && a[i] == '\0';
        assert((a + b)[i] == '\0');
    }
    if contains_nul(b) {
        let i = choose|i: int| 0 <= i < b.len() && b[i] == '\0';
        assert((a + b)[a.len() + i] == '\0');
    }
    if contains_nul(a + b) {
        let i = choose|i: int| 0 <= i < (a + b).len() && (a + b)[i] == '\0';
        if i < a.len() {
            assert(a[i] == '\0');
        } else {
            assert(b[i - a.len()] == '\0');
        }
    }
}

/// A decimal rendering consists of digits alone and so never holds an
/// embedded terminator.
pub proof fn lemma_decimal_no_nul(n: nat)
    ensures
        !contains_nul(decimal_spec(n)),
    decreases n,
{
    if n >= 10 {
        lemma_decimal_no_nul(n / 10);
        if contains_nul(decimal_spec(n)) {
            let i = choose|i: int|
                0 <= i < decimal_spec(n).len() && decimal_spec(n)[i] == '\0';
            if i < decimal_spec(n / 10).len() {
                assert(decimal_spec(n / 10)[i] == '\0');
            }
        }
    }
}

/// The basename is drawn from the path's own characters, so a path without an
/// embedded terminator has a basename without one.
pub proof fn lemma_basename_no_nul(s: Seq<char>)
    ensures
        !contains_nul(s) ==> !contains_nul(basename_spec(s)),
    decreases s.len(),
{
    if s.len() > 0 && s[s.len() - 1] != '/' {
        lemma_basename_no_nul(s.drop_last());
        if !contains_nul(s) && contains_nul(basename_spec(s)) {
            assert(forall|j: int| 0 <= j < s.len() - 1 ==> s.drop_last()[j] == s[j]);
            let i = choose|i: int|
                0 <= i < basename_spec(s).len() && basename_spec(s)[i] == '\0';
            if i < basename_spec(s.drop_last()).len() {
                assert(basename_spec(s.drop_last())[i] == '\0');
            } else {
                assert(s[s.len() - 1] == '\0');
            }
        }
    }
}

/// The formatted line holds an embedded terminator exactly when the file's
/// basename or the message does: the brackets, the colon and the decimal
/// digits never contribute one.
pub proof fn lemma_formatted_line_nul(file: Seq<char>, line: nat, msg: Seq<char>)
    ensures
        contains_nul(formatted_line(file, line, msg)) <==> contains_nul(basename_spec(file))
            || contains_nul(msg),
{
    let a = seq!['['];
    let b = basename_spec(file);
    let c = seq![':'];
    let d = decimal_spec(line);
    let e = seq![']', ' '];
    lemma_decimal_no_nul(line);
    assert(!contains_nul(a));
    assert(!contains_nul(c));
    assert(!contains_nul(e));
    lemma_contains_nul_concat(a, b);
    lemma_contains_nul_concat(a + b, c);
    lemma_contains_nul_concat(a + b + c, d);
    lemma_contains_nul_concat(a + b + c + d, e);
    lemma_contains_nul_concat(a + b + c + d + e, msg);
}

} // verus!
