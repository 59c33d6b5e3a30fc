use vstd::prelude::*;
use vstd::string::{StrSliceExecFns, StringExecFns};

use crate::error::ErrorKind;
use crate::json::{push_char, string_views};

verus! {

/// The operator-supplied prototype of what is to be published: the path
/// of the source bundle for the foundational language of languages, and
/// the paths of whatever further language references the publishing
/// sequence needs. Immutable once loaded.
#[derive(Debug)]
pub struct SeedDescriptor {
    pub language_language_ref: String,
    pub additional_language_refs: Vec<String>,
}

/// JSON insignificant whitespace.
pub open spec fn is_ws(c: char) -> bool {
    c == ' ' || c == '\t' || c == '\n' || c == '\r'
}

/// The first position at or after `i` holding a non-whitespace character
/// (or the end of the text).
pub open spec fn spec_skip_ws(s: Seq<char>, i: int) -> int
    decreases s.len() - i,
{
    if 0 <= i < s.len() && is_ws(s[i]) {
        spec_skip_ws(s, i + 1)
    } else {
        i
    }
}

fn skip_ws(s: &str, i: usize) -> (j: usize)
    requires
        i <= s@.len() <= usize::MAX,
    ensures
        j == spec_skip_ws(s@, i as int),
        i <= j <= s@.len(),
    decreases s@.len() - i,
{
    if i < s.unicode_len() {
        let c = s.get_char(i);
        if c == ' ' || c == '\t' || c == '\n' || c == '\r' {
            return skip_ws(s, i + 1);
        }
    }
    i
}

/// The character a two-character escape stands for.
pub open spec fn unescape(e: char) -> char {
    if e == '"' {
        '"'
    } else if e == '\\' {
        '\\'
    } else if e == 'n' {
        '\n'
    } else if e == 'r' {
        '\r'
    } else {
        '\t'
    }
}

/// The escapes the descriptor format accepts.
pub open spec fn is_escape(e: char) -> bool {
    e == '"' || e == '\\' || e == 'n' || e == 'r' || e == 't'
}

/// Reads the remainder of a string literal whose opening quote stands
/// just before `i`: the decoded contents and the position after the
/// closing quote. `None` when the literal is unterminated, holds a raw
/// control character, or uses an escape the format does not accept.
pub open spec fn spec_string_body(s: Seq<char>, i: int) -> Option<(Seq<char>, int)>
    decreases s.len() - i,
{
    if !(0 <= i < s.len()) {
        None
    } else if s[i] == '"' {
        Some((Seq::<char>::empty(), i + 1))
    } else if s[i] == '\\' {
        if i + 1 < s.len() && is_escape(s[i + 1]) {
            match spec_string_body(s, i + 2) {
                Some(p) => Some((seq![unescape(s[i + 1])] + p.0, p.1)),
                None => None,
            }
        } else {
            None
        }
    } else if (s[i] as u32) < 32 {
        None
    } else {
        match spec_string_body(s, i + 1) {
            Some(p) => Some((seq![s[i]] + p.0, p.1)),
            None => None,
        }
    }
}

fn string_body(s: &str, i: usize) -> (r: Option<(String, usize)>)
    requires
        i <= s@.len() <= usize::MAX,
    ensures
        r is Some <==> spec_string_body(s@, i as int) is Some,
        r matches Some(p) ==> (spec_string_body(s@, i as int) matches Some(q) && p.0@ == q.0
            && p.1 == q.1 && i < p.1 <= s@.len()),
    decreases s@.len() - i,
{
    if i >= s.unicode_len() {
        return None;
    }
    let c = s.get_char(i);
    if c == '"' {
        return Some((String::new(), i + 1));
    }
    if c == '\\' {
        if i + 1 < s.unicode_len() {
            let e = s.get_char(i + 1);
            if e == '"' || e == '\\' || e == 'n' || e == 'r' || e == 't' {
                let u = if e == '"' {
                    '"'
                } else if e == '\\' {
                    '\\'
                } else if e == 'n' {
                    '\n'
                } else if e == 'r' {
                    '\r'
                } else {
                    '\t'
                };
                match string_body(s, i + 2) {
                    Some(p) => {
                        let mut out = String::new();
                        push_char(&mut out, u);
                        out.append(p.0.as_str());
                        assert(out@ =~= seq![unescape(s@[i as int + 1])] + p.0@);
                        return Some((out, p.1));
                    },
                    None => {
                        return None;
                    },
                }
            }
        }
        return None;
    }
    if (c as u32) < 32 {
        return None;
    }
    match string_body(s, i + 1) {
        Some(p) => {
            let mut out = String::new();
            push_char(&mut out, c);
            out.append(p.0.as_str());
            assert(out@ =~= seq![s@[i as int]] + p.0@);
            Some((out, p.1))
        },
        None => None,
    }
}

/// Reads a string literal starting exactly at `i`.
pub open spec fn spec_parse_string(s: Seq<char>, i: int) -> Option<(Seq<char>, int)> {
    if 0 <= i < s.len() && s[i] == '"' {
        spec_string_body(s, i + 1)
    } else {
        None
    }
}

fn parse_string(s: &str, i: usize) -> (r: Option<(String, usize)>)
    requires
        i <= s@.len() <= usize::MAX,
    ensures
        r is Some <==> spec_parse_string(s@, i as int) is Some,
        r matches Some(p) ==> (spec_parse_string(s@, i as int) matches Some(q) && p.0@ == q.0
            && p.1 == q.1 && i < p.1 <= s@.len()),
{
    if i < s.unicode_len() && s.get_char(i) == '"' {
        string_body(s, i + 1)
    } else {
        None
    }
}

/// Reads the rest of a string array after its first items `acc`: either
/// the closing bracket, or a comma and one more string literal, repeated.
pub open spec fn spec_array_rest(s: Seq<char>, i: int, acc: Seq<Seq<char>>) -> Option<
    (Seq<Seq<char>>, int),
>
    decreases s.len() - i,
{
    let j = spec_skip_ws(s, i);
    if 0 <= j < s.len() && s[j] == ']' {
        Some((acc, j + 1))
    } else if 0 <= j < s.len() && s[j] == ',' {
        let k = spec_skip_ws(s, j + 1);
        match spec_parse_string(s, k) {
            Some(p) => {
                if i < p.1 <= s.len() {
                    spec_array_rest(s, p.1, acc.push(p.0))
                } else {
                    None
                }
            },
            None => None,
        }
    } else {
        None
    }
}

fn array_rest(s: &str, i: usize, acc: Vec<String>) -> (r: Option<(Vec<String>, usize)>)
    requires
        i <= s@.len() <= usize::MAX,
    ensures
        r is Some <==> spec_array_rest(s@, i as int, string_views(acc@)) is Some,
        r matches Some(p) ==> (spec_array_rest(s@, i as int, string_views(acc@)) matches Some(q)
            && string_views(p.0@) == q.0 && p.1 == q.1 && p.1 <= s@.len()),
    decreases s@.len() - i,
{
    let ghost specacc = string_views(acc@);
    let j = skip_ws(s, i);
    if j < s.unicode_len() {
        let c = s.get_char(j);
        if c == ']' {
            return Some((acc, j + 1));
        }
        if c == ',' {
            let k = skip_ws(s, j + 1);
            match parse_string(s, k) {
                Some(p) => {
                    let mut acc2 = acc;
                    acc2.push(p.0);
                    assert(string_views(acc2@) =~= specacc.push(
                        spec_parse_string(s@, k as int)->Some_0.0,
                    ));
                    return array_rest(s, p.1, acc2);
                },
                None => {
                    return None;
                },
            }
        }
    }
    None
}

/// Reads an array of string literals starting exactly at `i`.
pub open spec fn spec_parse_array(s: Seq<char>, i: int) -> Option<(Seq<Seq<char>>, int)> {
    if 0 <= i < s.len() && s[i] == '[' {
        let j = spec_skip_ws(s, i + 1);
        if 0 <= j < s.len() && s[j] == ']' {
            Some((Seq::<Seq<char>>::empty(), j + 1))
        } else {
            match spec_parse_string(s, j) {
                Some(p) => {
                    if i < p.1 <= s.len() {
                        spec_array_rest(s, p.1, seq![p.0])
                    } else {
                        None
                    }
                },
                None => None,
            }
        }
    } else {
        None
    }
}

fn parse_array(s: &str, i: usize) -> (r: Option<(Vec<String>, usize)>)
    requires
        i <= s@.len() <= usize::MAX,
    ensures
        r is Some <==> spec_parse_array(s@, i as int) is Some,
        r matches Some(p) ==> (spec_parse_array(s@, i as int) matches Some(q) && string_views(p.0@)
            == q.0 && p.1 == q.1 && p.1 <= s@.len()),
{
    if i < s.unicode_len() && s.get_char(i) == '[' {
        let j = skip_ws(s, i + 1);
        if j < s.unicode_len() && s.get_char(j) == ']' {
            let empty: Vec<String> = Vec::new();
            assert(string_views(empty@) =~= Seq::<Seq<char>>::empty());
            return Some((empty, j + 1));
        }
        match parse_string(s, j) {
            Some(p) => {
                let mut acc: Vec<String> = Vec::new();
                let ghost v0 = spec_parse_string(s@, j as int)->Some_0.0;
                acc.push(p.0);
                assert(string_views(acc@) =~= seq![v0]);
                array_rest(s, p.1, acc)
            },
            None => None,
        }
    } else {
        None
    }
}

/// The name of the descriptor's required first field.
pub open spec fn ref_key() -> Seq<char> {
    "language_language_ref"@
}

/// The name of the descriptor's required second field.
pub open spec fn additional_key() -> Seq<char> {
    "additional_language_refs"@
}

/// The descriptor file's expected shape: one JSON object holding, in this
/// order, `language_language_ref` (a string) and `additional_language_refs`
/// (an array of strings), and nothing else. The result is the pair of the
/// decoded bundle reference and the decoded further references.
pub open spec fn spec_parse_descriptor(s: Seq<char>) -> Option<(Seq<char>, Seq<Seq<char>>)> {
    let i0 = spec_skip_ws(s, 0);
    if !(0 <= i0 < s.len() && s[i0] == '{') {
        None
    } else {
        match spec_parse_string(s, spec_skip_ws(s, i0 + 1)) {
            Some(k1) => {
                if k1.0 == ref_key() && k1.1 <= s.len() {
                    let i2 = spec_skip_ws(s, k1.1);
                    if 0 <= i2 < s.len() && s[i2] == ':' {
                        match spec_parse_string(s, spec_skip_ws(s, i2 + 1)) {
                            Some(v1) => {
                                if v1.1 <= s.len() {
                                    let i4 = spec_skip_ws(s, v1.1);
                                    if 0 <= i4 < s.len() && s[i4] == ',' {
                                        spec_parse_descriptor_tail(s, spec_skip_ws(s, i4 + 1), v1.0)
                                    } else {
                                        None
                                    }
                                } else {
                                    None
                                }
                            },
                            None => None,
                        }
                    } else {
                        None
                    }
                } else {
                    None
                }
            },
            None => None,
        }
    }
}

/// The second field and the closing brace of the descriptor object.
pub open spec fn spec_parse_descriptor_tail(s: Seq<char>, i: int, bundle_ref: Seq<char>) -> Option<
    (Seq<char>, Seq<Seq<char>>),
> {
    match spec_parse_string(s, i) {
        Some(k2) => {
            if k2.0 == additional_key() && k2.1 <= s.len() {
                let i6 = spec_skip_ws(s, k2.1);
                if 0 <= i6 < s.len() && s[i6] == ':' {
                    match spec_parse_array(s, spec_skip_ws(s, i6 + 1)) {
                        Some(arr) => {
                            if arr.1 <= s.len() {
                                let i8 = spec_skip_ws(s, arr.1);
                                if 0 <= i8 < s.len() && s[i8] == '}' && spec_skip_ws(s, i8 + 1)
                                    == s.len() {
                                    Some((bundle_ref, arr.0))
                                } else {
                                    None
                                }
                            } else {
                                None
                            }
                        },
                        None => None,
                    }
                } else {
                    None
                }
            } else {
                None
            }
        },
        None => None,
    }
}

/// Parses the text of a descriptor file. Succeeds exactly on text of the
/// expected shape (`spec_parse_descriptor`); the descriptor then carries
/// the decoded field values. Any other text is a validation error, and
/// nothing else is reported.
pub fn parse_descriptor(s: &str) -> (r: Result<SeedDescriptor, ErrorKind>)
    ensures
        r is Ok <==> spec_parse_descriptor(s@) is Some,
        r matches Ok(d) ==> (spec_parse_descriptor(s@) matches Some(p)
            && d.language_language_ref@ == p.0 && string_views(d.additional_language_refs@)
            == p.1),
        r matches Err(e) ==> e == ErrorKind::Validation,
{
    let n = s.unicode_len();
    assert(s@.len() <= usize::MAX);
    let i0 = skip_ws(s, 0);
    if !(i0 < n && s.get_char(i0) == '{') {
        return Err(ErrorKind::Validation);
    }
    let i1 = skip_ws(s, i0 + 1);
    let k1 = match parse_string(s, i1) {
        Some(p) => p,
        None => {
            return Err(ErrorKind::Validation);
        },
    };
    let ref_key_text = String::from_str("language_language_ref");
    if !(k1.0 == ref_key_text) {
        return Err(ErrorKind::Validation);
    }
    let i2 = skip_ws(s, k1.1);
    if !(i2 < s.unicode_len() && s.get_char(i2) == ':') {
        return Err(ErrorKind::Validation);
    }
    let i3 = skip_ws(s, i2 + 1);
    let v1 = match parse_string(s, i3) {
        Some(p) => p,
        None => {
            return Err(ErrorKind::Validation);
        },
    };
    let i4 = skip_ws(s, v1.1);
    if !(i4 < s.unicode_len() && s.get_char(i4) == ',') {
        return Err(ErrorKind::Validation);
    }
    let i5 = skip_ws(s, i4 + 1);
    let k2 = match parse_string(s, i5) {
        Some(p) => p,
        None => {
            return Err(ErrorKind::Validation);
        },
    };
    let additional_key_text = String::from_str("additional_language_refs");
    if !(k2.0 == additional_key_text) {
        return Err(ErrorKind::Validation);
    }
    let i6 = skip_ws(s, k2.1);
    if !(i6 < s.unicode_len() && s.get_char(i6) == ':') {
        return Err(ErrorKind::Validation);
    }
    let i7 = skip_ws(s, i6 + 1);
    let arr = match parse_array(s, i7) {
        Some(p) => p,
        None => {
            return Err(ErrorKind::Validation);
        },
    };
    let i8 = skip_ws(s, arr.1);
    if !(i8 < s.unicode_len() && s.get_char(i8) == '}') {
        return Err(ErrorKind::Validation);
    }
    let i9 = skip_ws(s, i8 + 1);
    if i9 != s.unicode_len() {
        return Err(ErrorKind::Validation);
    }
    Ok(SeedDescriptor { language_language_ref: v1.0, additional_language_refs: arr.0 })
}

} // verus!
