//! Text primitives: decimal and octal digits, and PostgreSQL string-literal escaping.
use vstd::prelude::*;
use vstd::string::*;

verus! {

/// Relies on `String::push`: appends exactly the one character.
#[verifier::external_body]
pub(crate) fn push_char(s: &mut String, c: char)
    ensures
        final(s)@ == old(s)@.push(c),
{
    s.push(c)
}

/// The ASCII digit for `n` (`n < 10`); also the octal digit for `n < 8`.
pub open spec fn digit_char(n: nat) -> char {
    if n == 0 { '0' }
    else if n == 1 { '1' }
    else if n == 2 { '2' }
    else if n == 3 { '3' }
    else if n == 4 { '4' }
    else if n == 5 { '5' }
    else if n == 6 { '6' }
    else if n == 7 { '7' }
    else if n == 8 { '8' }
    else { '9' }
}

/// The decimal text of a natural number, without leading zeros.
pub open spec fn decimal(n: nat) -> Seq<char>
    decreases n,
{
    if n < 10 {
        seq![digit_char(n)]
    } else {
        decimal(n / 10).push(digit_char(n % 10))
    }
}

/// The decimal text of an integer, with a leading `-` when it is negative.
pub open spec fn signed_decimal(i: int) -> Seq<char> {
    if i < 0 {
        seq!['-'] + decimal((-i) as nat)
    } else {
        decimal(i as nat)
    }
}

fn digit(n: u64) -> (c: char)
    requires
        n < 10,
    ensures
        c == digit_char(n as nat),
{
    if n == 0 { '0' }
    else if n == 1 { '1' }
    else if n == 2 { '2' }
    else if n == 3 { '3' }
    else if n == 4 { '4' }
    else if n == 5 { '5' }
    else if n == 6 { '6' }
    else if n == 7 { '7' }
    else if n == 8 { '8' }
    else { '9' }
}

/// Appends the decimal text of `n`.
pub fn push_decimal(s: &mut String, n: u64)
    ensures
        final(s)@ == old(s)@ + decimal(n as nat),
    decreases n,
{
    if n < 10 {
        push_char(s, digit(n));
        assert(final(s)@ =~= old(s)@ + decimal(n as nat));
    } else {
        push_decimal(s, n / 10);
        push_char(s, digit(n % 10));
        assert(final(s)@ =~= old(s)@ + decimal(n as nat));
    }
}

/// Appends the decimal text of `i`, signed.
pub fn push_signed_decimal(s: &mut String, i: i64)
    ensures
        final(s)@ == old(s)@ + signed_decimal(i as int),
{
    if i < 0 {
        push_char(s, '-');
        let m: u64 = if i == i64::MIN {
            9223372036854775808u64
        } else {
            (-i) as u64
        };
        push_decimal(s, m);
        assert(final(s)@ =~= old(s)@ + signed_decimal(i as int));
    } else {
        push_decimal(s, i as u64);
    }
}


/// An ASCII control character: below the space, or DEL.
pub open spec fn is_ascii_control(c: char) -> bool {
    (c as u32) < 32 || (c as u32) == 127
}

/// A character that a string literal cannot hold as it is.
pub open spec fn needs_escape(c: char) -> bool {
    c == '\\' || c == '\'' || is_ascii_control(c)
}

/// What one character becomes inside an escape-string literal (`E'...'`).
pub open spec fn escape_char(c: char) -> Seq<char> {
    if c == '\x08' {
        seq!['\\', 'b']
    } else if c == '\x0C' {
        seq!['\\', 'f']
    } else if c == '\n' {
        seq!['\\', 'n']
    } else if c == '\r' {
        seq!['\\', 'r']
    } else if c == '\t' {
        seq!['\\', 't']
    } else if c == '\\' {
        seq!['\\', '\\']
    } else if c == '\'' {
        seq!['\\', '\'']
    } else if c == '\0' {
        seq!['\\', '0']
    } else if is_ascii_control(c) {
        let n = c as u32 as nat;
        seq!['\\', digit_char(n / 64), digit_char((n / 8) % 8), digit_char(n % 8)]
    } else {
        seq![c]
    }
}

/// The body of a string literal: each character escaped in turn.
pub open spec fn escape_body(s: Seq<char>) -> Seq<char>
    decreases s.len(),
{
    if s.len() == 0 {
        Seq::empty()
    } else {
        escape_body(s.drop_last()) + escape_char(s.last())
    }
}

/// Whether some character of `s` needs escaping.
pub open spec fn has_escapes(s: Seq<char>) -> bool {
    exists|i: int| 0 <= i < s.len() && needs_escape(#[trigger] s[i])
}

/// The PostgreSQL string literal for `s`: `E'...'` with escapes where some
/// character needs one, else plainly quoted.
pub open spec fn string_literal(s: Seq<char>) -> Seq<char> {
    if has_escapes(s) {
        seq!['E', '\''] + escape_body(s) + seq!['\'']
    } else {
        seq!['\''] + escape_body(s) + seq!['\'']
    }
}

/// Whether `s` holds some character that needs an escape.
pub fn should_escape(s: &str) -> (r: bool)
    ensures
        r == has_escapes(s@),
{
    let n = s.unicode_len();
    let mut i: usize = 0;
    while i < n
        invariant
            n == s@.len(),
            i <= n,
            forall|j: int| 0 <= j < i ==> !needs_escape(#[trigger] s@[j]),
        decreases n - i,
    {
        let c = s.get_char(i);
        let code = c as u32;
        if c == '\\' || c == '\'' || code < 32 || code == 127 {
            return true;
        }
        i = i + 1;
    }
    false
}

fn octal_digit(n: u32) -> (c: char)
    requires
        n < 8,
    ensures
        c == digit_char(n as nat),
{
    digit(n as u64)
}

/// Appends the escaped form of one character.
fn push_escaped_char(out: &mut String, c: char)
    ensures
        final(out)@ == old(out)@ + escape_char(c),
{
    let code = c as u32;
    if c == '\x08' {
        out.append("\\b");
    } else if c == '\x0C' {
        out.append("\\f");
    } else if c == '\n' {
        out.append("\\n");
    } else if c == '\r' {
        out.append("\\r");
    } else if c == '\t' {
        out.append("\\t");
    } else if c == '\\' {
        out.append("\\\\");
    } else if c == '\'' {
        out.append("\\'");
    } else if c == '\0' {
        out.append("\\0");
    } else if code < 32 || code == 127 {
        push_char(out, '\\');
        push_char(out, octal_digit(code / 64));
        push_char(out, octal_digit((code / 8) % 8));
        push_char(out, octal_digit(code % 8));
    } else {
        push_char(out, c);
    }
    proof {
        reveal_strlit("\\b");
        reveal_strlit("\\f");
        reveal_strlit("\\n");
        reveal_strlit("\\r");
        reveal_strlit("\\t");
        reveal_strlit("\\\\");
        reveal_strlit("\\'");
        reveal_strlit("\\0");
    }
    assert(final(out)@ =~= old(out)@ + escape_char(c));
}

/// Appends the string literal for `s`, escaping what needs it.
pub fn push_string_literal(out: &mut String, s: &str)
    ensures
        final(out)@ == old(out)@ + string_literal(s@),
{
    let escape = should_escape(s);
    if escape {
        push_char(out, 'E');
    }
    push_char(out, '\'');
    let ghost start = out@;
    let n = s.unicode_len();
    let mut i: usize = 0;
    while i < n
        invariant
            n == s@.len(),
            i <= n,
            out@ == start + escape_body(s@.subrange(0, i as int)),
        decreases n - i,
    {
        let c = s.get_char(i);
        push_escaped_char(out, c);
        proof {
            assert(s@.subrange(0, i + 1).drop_last() =~= s@.subrange(0, i as int));
        }
        i = i + 1;
    }
    push_char(out, '\'');
    assert(s@.subrange(0, n as int) =~= s@);
    assert(final(out)@ =~= old(out)@ + string_literal(s@));
}


/// An octal digit character, `0` to `7`.
pub open spec fn is_octal_char(c: char) -> bool {
    48 <= (c as u32) && (c as u32) <= 55
}

/// The number that a run of octal digit characters spells.
pub open spec fn octal_number(d: Seq<char>) -> nat
    decreases d.len(),
{
    if d.len() == 0 {
        0
    } else {
        octal_number(d.drop_last()) * 8 + ((d.last() as u32) - 48) as nat
    }
}

/// How many octal digits (at most three) stand in `t` from position `i`.
pub open spec fn octal_run(t: Seq<char>, i: int) -> int {
    if i < t.len() && is_octal_char(t[i]) {
        if i + 1 < t.len() && is_octal_char(t[i + 1]) {
            if i + 2 < t.len() && is_octal_char(t[i + 2]) {
                3
            } else {
                2
            }
        } else {
            1
        }
    } else {
        0
    }
}

/// The code that a one-letter backslash escape stands for.
pub open spec fn simple_escape_code(c: char) -> u32 {
    if c == 'b' {
        8
    } else if c == 'f' {
        12
    } else if c == 'n' {
        10
    } else if c == 'r' {
        13
    } else if c == 't' {
        9
    } else {
        c as u32
    }
}

/// How PostgreSQL reads the body of an escape-string literal, as character
/// codes: `\b \f \n \r \t`, a backslash before any other character stands for
/// that character, and one to three octal digits after a backslash give a code.
pub open spec fn unescape(t: Seq<char>) -> Seq<u32>
    decreases t.len(),
{
    if t.len() == 0 {
        Seq::empty()
    } else if t[0] == '\\' && t.len() >= 2 {
        let k = octal_run(t, 1);
        if k == 0 {
            seq![simple_escape_code(t[1])] + unescape(t.subrange(2, t.len() as int))
        } else {
            seq![octal_number(t.subrange(1, 1 + k)) as u32] + unescape(
                t.subrange(1 + k, t.len() as int),
            )
        }
    } else {
        seq![t[0] as u32] + unescape(t.subrange(1, t.len() as int))
    }
}

/// The character codes of `s`.
pub open spec fn char_codes(s: Seq<char>) -> Seq<u32> {
    s.map_values(|c: char| c as u32)
}

/// How PostgreSQL reads a string literal back: the escape form is unescaped,
/// the plain form taken as it stands between its quotes.
pub open spec fn read_string_literal(t: Seq<char>) -> Seq<u32> {
    if t.len() >= 3 && t[0] == 'E' {
        unescape(t.subrange(2, t.len() - 1))
    } else {
        char_codes(t.subrange(1, t.len() - 1))
    }
}

/// No NUL character of `s` is directly followed by an octal digit.
pub open spec fn nul_never_before_octal(s: Seq<char>) -> bool {
    forall|i: int| 0 <= i < s.len() - 1 && #[trigger] s[i] == '\0' ==> !is_octal_char(s[i + 1])
}

proof fn lemma_escape_body_front(s: Seq<char>)
    requires
        s.len() > 0,
    ensures
        escape_body(s) == escape_char(s[0]) + escape_body(s.drop_first()),
    decreases s.len(),
{
    if s.len() == 1 {
        assert(s.drop_last() =~= Seq::<char>::empty());
        assert(s.drop_first() =~= Seq::<char>::empty());
        assert(escape_body(s) =~= escape_char(s[0]) + escape_body(s.drop_first()));
    } else {
        lemma_escape_body_front(s.drop_last());
        assert(s.drop_last().drop_first() =~= s.drop_first().drop_last());
        assert(escape_body(s) =~= escape_char(s[0]) + escape_body(s.drop_first()));
    }
}

proof fn lemma_escape_body_plain(s: Seq<char>)
    requires
        !has_escapes(s),
    ensures
        escape_body(s) == s,
    decreases s.len(),
{
    if s.len() > 0 {
        assert(!needs_escape(s[s.len() - 1]));
        assert(!has_escapes(s.drop_last())) by {
            if has_escapes(s.drop_last()) {
                let i = choose|i: int| 0 <= i < s.drop_last().len() && needs_escape(#[trigger] s.drop_last()[i]);
                assert(needs_escape(s[i]));
            }
        }
        lemma_escape_body_plain(s.drop_last());
        assert(escape_body(s) =~= s);
    }
}

proof fn lemma_octal_triple(n: nat)
    requires
        n < 128,
    ensures
        ((n / 64) * 8 + (n / 8) % 8) * 8 + n % 8 == n,
{
    assert(((n / 64) * 8 + (n / 8) % 8) * 8 + n % 8 == n) by (nonlinear_arith)
        requires n < 128;
}

proof fn lemma_digit_char_code(n: nat)
    requires
        n < 10,
    ensures
        (digit_char(n) as u32) == 48 + n,
{
}

proof fn lemma_octal_number_three(d: Seq<char>)
    requires
        d.len() == 3,
        is_octal_char(d[0]) && is_octal_char(d[1]) && is_octal_char(d[2]),
    ensures
        octal_number(d) == ((((d[0] as u32) - 48) as nat * 8 + ((d[1] as u32) - 48) as nat) * 8
            + ((d[2] as u32) - 48) as nat),
{
    let d1 = d.drop_last();
    let d2 = d1.drop_last();
    let d3 = d2.drop_last();
    assert(d3 =~= Seq::<char>::empty());
    assert(octal_number(d3) == 0);
    assert(d2 =~= seq![d[0]]);
    assert(octal_number(d2) == ((d[0] as u32) - 48) as nat);
    assert(d1 =~= seq![d[0], d[1]]);
    assert(octal_number(d1) == octal_number(d2) * 8 + ((d[1] as u32) - 48) as nat);
}

proof fn lemma_unescape_control(c: char, rest: Seq<char>)
    requires
        is_ascii_control(c),
        c != '\x08' && c != '\x0C' && c != '\n' && c != '\r' && c != '\t' && c != '\0',
    ensures
        unescape(escape_char(c) + rest) == seq![c as u32] + unescape(rest),
{
    let n = c as u32 as nat;
    let t = escape_char(c) + rest;
    lemma_digit_char_code(n / 64);
    lemma_digit_char_code((n / 8) % 8);
    lemma_digit_char_code(n % 8);
    assert(t[0] == '\\');
    assert(octal_run(t, 1) == 3);
    let d = t.subrange(1, 4);
    lemma_octal_number_three(d);
    lemma_octal_triple(n);
    assert(octal_number(d) == n);
    assert(t.subrange(4, t.len() as int) =~= rest);
}

proof fn lemma_unescape_step(c: char, rest: Seq<char>)
    requires
        c == '\0' && rest.len() > 0 ==> !is_octal_char(rest[0]),
    ensures
        unescape(escape_char(c) + rest) == seq![c as u32] + unescape(rest),
{
    let t = escape_char(c) + rest;
    if c == '\x08' || c == '\x0C' || c == '\n' || c == '\r' || c == '\t' || c == '\\' || c
        == '\'' {
        assert(t[0] == '\\' && t.len() >= 2);
        assert(octal_run(t, 1) == 0);
        assert(t.subrange(2, t.len() as int) =~= rest);
    } else if c == '\0' {
        assert(t[0] == '\\' && t[1] == '0');
        assert(octal_run(t, 1) == 1);
        assert(t.subrange(1, 2) =~= seq!['0']);
        assert(seq!['0'].drop_last() =~= Seq::<char>::empty());
        assert(octal_number(seq!['0'].drop_last()) == 0);
        assert(octal_number(t.subrange(1, 2)) == 0);
        assert(t.subrange(2, t.len() as int) =~= rest);
    } else if is_ascii_control(c) {
        lemma_unescape_control(c, rest);
    } else {
        assert(t[0] == c);
        assert(t.subrange(1, t.len() as int) =~= rest);
    }
}

proof fn lemma_unescape_body(s: Seq<char>)
    requires
        nul_never_before_octal(s),
    ensures
        unescape(escape_body(s)) == char_codes(s),
    decreases s.len(),
{
    if s.len() == 0 {
        assert(escape_body(s) =~= Seq::<char>::empty());
        assert(char_codes(s) =~= Seq::<u32>::empty());
    } else {
        let c = s[0];
        let tail = s.drop_first();
        assert(nul_never_before_octal(tail)) by {
            assert forall|i: int| 0 <= i < tail.len() - 1 && #[trigger] tail[i] == '\0' implies !is_octal_char(tail[i + 1]) by {
                assert(s[i + 1] == '\0');
            }
        }
        lemma_escape_body_front(s);
        lemma_unescape_body(tail);
        let rest = escape_body(tail);
        if tail.len() > 0 {
            lemma_escape_body_front(tail);
            assert(rest[0] == '\\' || rest[0] == tail[0]);
            assert(s[1] == tail[0]);
        }
        lemma_unescape_step(c, rest);
        assert(char_codes(s) =~= seq![c as u32] + char_codes(tail));
    }
}

/// A character that stands for itself in a string literal's body.
pub open spec fn is_plain_char(c: char) -> bool {
    !needs_escape(c)
}

/// A one-letter escape: `\b \f \n \r \t \\ \' \0`.
pub open spec fn is_escape_letter(c: char) -> bool {
    c == 'b' || c == 'f' || c == 'n' || c == 'r' || c == 't' || c == '\\' || c == '\'' || c == '0'
}

/// A literal body made of tokens, left to right: a plain character, a
/// backslash and an escape letter, or a backslash and three octal digits. No
/// token is an unescaped quote, so the literal cannot close early.
pub open spec fn well_formed_body(t: Seq<char>) -> bool
    decreases t.len(),
{
    if t.len() == 0 {
        true
    } else if is_plain_char(t[0]) {
        well_formed_body(t.skip(1))
    } else if t[0] == '\\' && t.len() >= 2 && is_escape_letter(t[1]) {
        well_formed_body(t.skip(2))
    } else if t[0] == '\\' && t.len() >= 4 && is_octal_char(t[1]) && is_octal_char(t[2])
        && is_octal_char(t[3]) {
        well_formed_body(t.skip(4))
    } else {
        false
    }
}

proof fn lemma_well_formed_step(c: char, rest: Seq<char>)
    requires
        well_formed_body(rest),
    ensures
        well_formed_body(escape_char(c) + rest),
{
    let t = escape_char(c) + rest;
    let e = escape_char(c);
    if !needs_escape(c) {
        assert(e == seq![c]);
        assert(is_plain_char(t[0]));
        assert(t.skip(1) =~= rest);
    } else if c == '\x08' || c == '\x0C' || c == '\n' || c == '\r' || c == '\t' || c == '\\' || c
        == '\'' || c == '\0' {
        assert(e.len() == 2 && t[0] == '\\' && is_escape_letter(t[1]));
        assert(!is_plain_char(t[0]));
        assert(t.skip(2) =~= rest);
    } else {
        let n = c as u32 as nat;
        lemma_digit_char_code(n / 64);
        lemma_digit_char_code((n / 8) % 8);
        lemma_digit_char_code(n % 8);
        assert(e.len() == 4 && t[0] == '\\');
        assert(!is_plain_char(t[0]));
        assert(is_octal_char(t[1]) && is_octal_char(t[2]) && is_octal_char(t[3]));
        assert(t.skip(4) =~= rest);
        if is_escape_letter(t[1]) {
            // `\0` read as a letter escape; the two digits after it are plain.
            let u = t.skip(2);
            assert(is_plain_char(u[0]) && is_plain_char(u[1]));
            assert(u.skip(1).skip(1) =~= rest);
            assert(u.skip(1)[0] == u[1]);
            assert(well_formed_body(u.skip(1)));
            assert(well_formed_body(u));
        }
    }
}

proof fn lemma_escape_body_well_formed(s: Seq<char>)
    ensures
        well_formed_body(escape_body(s)),
    decreases s.len(),
{
    if s.len() == 0 {
        assert(escape_body(s) =~= Seq::<char>::empty());
    } else {
        lemma_escape_body_front(s);
        lemma_escape_body_well_formed(s.drop_first());
        lemma_well_formed_step(s[0], escape_body(s.drop_first()));
    }
}

/// Every string literal is a quote (after `E` when escapes are used), a body
/// of well-formed tokens, and a closing quote; in the plain form the body
/// holds no backslash either.
pub proof fn lemma_string_literal_well_formed(s: Seq<char>)
    ensures
        ({
            let t = string_literal(s);
            let body = escape_body(s);
            &&& well_formed_body(body)
            &&& has_escapes(s) ==> t == seq!['E', '\''] + body + seq!['\'']
            &&& !has_escapes(s) ==> t == seq!['\''] + body + seq!['\''] && body == s
            &&& !has_escapes(s) ==> forall|i: int| 0 <= i < body.len() ==> is_plain_char(#[trigger] body[i])
        }),
{
    lemma_escape_body_well_formed(s);
    if !has_escapes(s) {
        lemma_escape_body_plain(s);
    }
}

/// Escaping is total and reversible: reading back the string literal of any
/// string gives its characters again, as long as no NUL stands directly before
/// an octal digit (PostgreSQL would read `\0` and that digit as one octal escape).
pub proof fn lemma_string_literal_round_trip(s: Seq<char>)
    requires
        nul_never_before_octal(s),
    ensures
        read_string_literal(string_literal(s)) == char_codes(s),
{
    let t = string_literal(s);
    if has_escapes(s) {
        lemma_unescape_body(s);
        assert(t.subrange(2, t.len() - 1) =~= escape_body(s));
    } else {
        lemma_escape_body_plain(s);
        assert(t[0] == '\'');
        assert(t.subrange(1, t.len() - 1) =~= s);
    }
}

} // verus!
