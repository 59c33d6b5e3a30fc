use vstd::prelude::*;
use vstd::string::{StrSliceExecFns, StringExecFns};

verus! {

/// The lower-case hexadecimal digit for a value below sixteen.
pub open spec fn hex_digit(n: int) -> char {
    if n == 0 {
        '0'
    } else if n == 1 {
        '1'
    } else if n == 2 {
        '2'
    } else if n == 3 {
        '3'
    } else if n == 4 {
        '4'
    } else if n == 5 {
        '5'
    } else if n == 6 {
        '6'
    } else if n == 7 {
        '7'
    } else if n == 8 {
        '8'
    } else if n == 9 {
        '9'
    } else if n == 10 {
        'a'
    } else if n == 11 {
        'b'
    } else if n == 12 {
        'c'
    } else if n == 13 {
        'd'
    } else if n == 14 {
        'e'
    } else {
        'f'
    }
}

/// How a single character appears inside a JSON string literal: the
/// two-character escapes for quote, backslash and the common control
/// characters, a `\u00xx` escape for the remaining control characters,
/// and the character itself otherwise.
pub open spec fn escape_char(c: char) -> Seq<char> {
    if c == '"' {
        seq!['\\', '"']
    } else if c == '\\' {
        seq!['\\', '\\']
    } else if c == '\n' {
        seq!['\\', 'n']
    } else if c == '\r' {
        seq!['\\', 'r']
    } else if c == '\t' {
        seq!['\\', 't']
    } else if (c as u32) < 32 {
        seq!['\\', 'u', '0', '0', hex_digit((c as u32) as int / 16), hex_digit((c as u32) as int % 16)]
    } else {
        seq![c]
    }
}

/// The body of a JSON string literal encoding `s`.
pub open spec fn escape(s: Seq<char>) -> Seq<char>
    decreases s.len(),
{
    if s.len() == 0 {
        Seq::empty()
    } else {
        escape_char(s[0]) + escape(s.drop_first())
    }
}

/// The JSON string literal encoding `s`, quotes included.
pub open spec fn json_string(s: Seq<char>) -> Seq<char> {
    seq!['"'] + escape(s) + seq!['"']
}

/// Escaping a string one character longer appends that character's escape.
pub proof fn lemma_escape_snoc(s: Seq<char>, c: char)
    ensures
        escape(s.push(c)) == escape(s) + escape_char(c),
    decreases s.len(),
{
    assert(s.push(c)[0] == if s.len() == 0 { c } else { s[0] });
    if s.len() == 0 {
        assert(s.push(c).drop_first() =~= Seq::<char>::empty());
        assert(escape(Seq::<char>::empty()) =~= Seq::<char>::empty());
        assert(escape(s) =~= Seq::<char>::empty());
        assert(escape(s.push(c)) =~= escape(s) + escape_char(c));
    } else {
        lemma_escape_snoc(s.drop_first(), c);
        assert(s.push(c).drop_first() =~= s.drop_first().push(c));
        assert(escape(s.push(c)) =~= escape_char(s[0]) + escape(s.drop_first().push(c)));
        assert(escape(s.push(c)) =~= escape(s) + escape_char(c));
    }
}

/// Relies on `String::push` of std: appends the one character to the string.
#[verifier::external_body]
pub(crate) fn push_char(out: &mut String, c: char)
    ensures
        final(out)@ == old(out)@.push(c),
{
    out.push(c);
}

/// Appends the escaped body of `s` to `out`.
fn append_escaped(out: &mut String, s: &str)
    ensures
        final(out)@ == old(out)@ + escape(s@),
{
    let n = s.unicode_len();
    let mut i: usize = 0;
    while i < n
        invariant
            i <= n,
            n == s@.len(),
            out@ == old(out)@ + escape(s@.subrange(0, i as int)),
        decreases n - i,
    {
        let c = s.get_char(i);
        let ghost prefix = s@.subrange(0, i as int);
        proof {
            lemma_escape_snoc(prefix, c);
            assert(s@.subrange(0, i + 1 as int) =~= prefix.push(c));
        }
        if c == '"' {
            push_char(out, '\\');
            push_char(out, '"');
        } else if c == '\\' {
            push_char(out, '\\');
            push_char(out, '\\');
        } else if c == '\n' {
            push_char(out, '\\');
            push_char(out, 'n');
        } else if c == '\r' {
            push_char(out, '\\');
            push_char(out, 'r');
        } else if c == '\t' {
            push_char(out, '\\');
            push_char(out, 't');
        } else if (c as u32) < 32 {
            let code = c as u32;
            push_char(out, '\\');
            push_char(out, 'u');
            push_char(out, '0');
            push_char(out, '0');
            push_char(out, hex_digit_exec(code / 16));
            push_char(out, hex_digit_exec(code % 16));
        } else {
            push_char(out, c);
        }
        assert(out@ =~= old(out)@ + escape(prefix.push(c)));
        i += 1;
    }
    assert(s@.subrange(0, n as int) =~= s@);
}

/// The lower-case hexadecimal digit for a value below sixteen.
fn hex_digit_exec(n: u32) -> (r: char)
    requires
        n < 16,
    ensures
        r == hex_digit(n as int),
{
    match n {
        0 => '0',
        1 => '1',
        2 => '2',
        3 => '3',
        4 => '4',
        5 => '5',
        6 => '6',
        7 => '7',
        8 => '8',
        9 => '9',
        10 => 'a',
        11 => 'b',
        12 => 'c',
        13 => 'd',
        14 => 'e',
        _ => 'f',
    }
}

/// Appends the JSON string literal encoding `s` to `out`.
pub fn append_json_string(out: &mut String, s: &str)
    ensures
        final(out)@ == old(out)@ + json_string(s@),
{
    push_char(out, '"');
    append_escaped(out, s);
    push_char(out, '"');
    assert(out@ =~= old(out)@ + json_string(s@));
}

/// The views of an optional string.
pub open spec fn opt_view(o: Option<String>) -> Option<Seq<char>> {
    match o {
        Some(s) => Some(s@),
        None => None,
    }
}

/// An optional string as a JSON value: its literal, or `null`.
pub open spec fn json_opt_string(o: Option<Seq<char>>) -> Seq<char> {
    match o {
        Some(s) => json_string(s),
        None => "null"@,
    }
}

/// Appends an optional string as a JSON value to `out`.
pub fn append_json_opt_string(out: &mut String, o: &Option<String>)
    ensures
        final(out)@ == old(out)@ + json_opt_string(opt_view(*o)),
{
    match o {
        Some(s) => append_json_string(out, s.as_str()),
        None => out.append("null"),
    }
}

/// The decimal digits of a non-negative number, most significant first.
pub open spec fn dec_rep(n: int) -> Seq<char>
    decreases n,
{
    if n < 10 {
        seq![hex_digit(n)]
    } else {
        dec_rep(n / 10) + seq![hex_digit(n % 10)]
    }
}

/// Appends the decimal digits of `n` to `out`.
pub fn append_u64(out: &mut String, n: u64)
    ensures
        final(out)@ == old(out)@ + dec_rep(n as int),
    decreases n,
{
    if n < 10 {
        push_char(out, hex_digit_exec(n as u32));
        assert(out@ =~= old(out)@ + dec_rep(n as int));
    } else {
        append_u64(out, n / 10);
        push_char(out, hex_digit_exec((n % 10) as u32));
        assert(out@ =~= old(out)@ + dec_rep(n as int));
    }
}

/// An optional number as a JSON value: its digits, or `null`.
pub open spec fn json_opt_u64(o: Option<u64>) -> Seq<char> {
    match o {
        Some(n) => dec_rep(n as int),
        None => "null"@,
    }
}

/// Appends an optional number as a JSON value to `out`.
pub fn append_json_opt_u64(out: &mut String, o: &Option<u64>)
    ensures
        final(out)@ == old(out)@ + json_opt_u64(*o),
{
    match o {
        Some(n) => append_u64(out, *n),
        None => out.append("null"),
    }
}

/// The items of a JSON array of string literals after the first:
/// each one preceded by a comma.
pub open spec fn array_tail(elems: Seq<Seq<char>>) -> Seq<char>
    decreases elems.len(),
{
    if elems.len() == 0 {
        Seq::empty()
    } else {
        seq![','] + json_string(elems[0]) + array_tail(elems.drop_first())
    }
}

/// The JSON array holding the given strings, in order.
pub open spec fn json_string_array(elems: Seq<Seq<char>>) -> Seq<char> {
    if elems.len() == 0 {
        seq!['[', ']']
    } else {
        seq!['['] + json_string(elems[0]) + array_tail(elems.drop_first()) + seq![']']
    }
}

/// One more trailing item extends the tail by a comma and its literal.
pub proof fn lemma_array_tail_snoc(elems: Seq<Seq<char>>, e: Seq<char>)
    ensures
        array_tail(elems.push(e)) == array_tail(elems) + seq![','] + json_string(e),
    decreases elems.len(),
{
    assert(elems.push(e)[0] == if elems.len() == 0 { e } else { elems[0] });
    if elems.len() == 0 {
        assert(elems.push(e).drop_first() =~= Seq::<Seq<char>>::empty());
        assert(array_tail(Seq::<Seq<char>>::empty()) =~= Seq::<char>::empty());
        assert(array_tail(elems) =~= Seq::<char>::empty());
        assert(array_tail(elems.push(e)) =~= array_tail(elems) + seq![','] + json_string(e));
    } else {
        lemma_array_tail_snoc(elems.drop_first(), e);
        assert(elems.push(e).drop_first() =~= elems.drop_first().push(e));
        assert(array_tail(elems.push(e)) =~= seq![','] + json_string(elems[0]) + array_tail(
            elems.drop_first().push(e),
        ));
        assert(array_tail(elems.push(e)) =~= array_tail(elems) + seq![','] + json_string(e));
    }
}

/// The views of the strings in `v`, in order.
pub open spec fn string_views(v: Seq<String>) -> Seq<Seq<char>> {
    v.map_values(|s: String| s@)
}

/// Appends the JSON array holding the strings of `elems`, in order, to `out`.
pub fn append_json_string_array(out: &mut String, elems: &Vec<String>)
    ensures
        final(out)@ == old(out)@ + json_string_array(string_views(elems@)),
{
    let ghost dv = string_views(elems@);
    push_char(out, '[');
    let n = elems.len();
    let mut i: usize = 0;
    while i < n
        invariant
            i <= n,
            n == elems@.len(),
            dv == string_views(elems@),
            dv.len() == n,
            i == 0 ==> out@ == old(out)@.push('['),
            i > 0 ==> out@ == old(out)@ + seq!['['] + json_string(dv[0]) + array_tail(
                dv.subrange(1, i as int),
            ),
        decreases n - i,
    {
        if i > 0 {
            push_char(out, ',');
        }
        append_json_string(out, elems[i].as_str());
        proof {
            assert(dv[i as int] == elems@[i as int]@);
            if i > 0 {
                lemma_array_tail_snoc(dv.subrange(1, i as int), dv[i as int]);
                assert(dv.subrange(1, i + 1 as int) =~= dv.subrange(1, i as int).push(
                    dv[i as int],
                ));
                assert(out@ =~= old(out)@ + seq!['['] + json_string(dv[0]) + array_tail(
                    dv.subrange(1, i + 1 as int),
                ));
            } else {
                assert(out@ =~= old(out)@.push('[') + json_string(dv[0]));
                assert(dv.subrange(1, 1) =~= Seq::<Seq<char>>::empty());
                assert(out@ =~= old(out)@ + seq!['['] + json_string(dv[0]) + array_tail(
                    dv.subrange(1, 1),
                ));
            }
        }
        i += 1;
    }
    push_char(out, ']');
    if n == 0 {
        assert(out@ =~= old(out)@ + json_string_array(dv));
    } else {
        assert(dv.subrange(1, n as int) =~= dv.drop_first());
        assert(out@ =~= old(out)@ + json_string_array(dv));
    }
}

} // verus!
