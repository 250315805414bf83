use vstd::prelude::*;

verus! {

/// The lower-case hexadecimal digit `d`.
pub open spec fn hex_digit(d: nat) -> char {
    if d < 10 {
        (48 + d) as char
    } else {
        (87 + d) as char
    }
}

/// How `serde_json` writes the character `c` inside a string literal: a quote
/// and a backslash after a backslash; backspace, form feed, line feed,
/// carriage return and tab as `\b`, `\f`, `\n`, `\r`, `\t`; the other
/// characters below 0x20 as `\u00` and two lower-case hexadecimal digits;
/// every other character as it is.
pub open spec fn escaped_char(c: char) -> Seq<char> {
    let n = c as nat;
    if c == '"' {
        seq!['\\', '"']
    } else if c == '\\' {
        seq!['\\', '\\']
    } else if n == 8 {
        seq!['\\', 'b']
    } else if n == 12 {
        seq!['\\', 'f']
    } else if n == 10 {
        seq!['\\', 'n']
    } else if n == 13 {
        seq!['\\', 'r']
    } else if n == 9 {
        seq!['\\', 't']
    } else if n < 32 {
        seq!['\\', 'u', '0', '0', hex_digit(n / 16), hex_digit(n % 16)]
    } else {
        seq![c]
    }
}

/// The characters of `s`, each written as [`escaped_char`] writes it.
pub open spec fn escaped(s: Seq<char>) -> Seq<char>
    decreases s.len(),
{
    if s.len() == 0 {
        Seq::empty()
    } else {
        escaped(s.drop_last()) + escaped_char(s.last())
    }
}

/// The JSON string literal that `serde_json` writes for the text `s`: the
/// escaped text in double quotes.
pub open spec fn json_quoted(s: Seq<char>) -> Seq<char> {
    seq!['"'] + escaped(s) + seq!['"']
}

/// `serde_json::to_string` of a string slice, which does not fail: the text in
/// double quotes, escaped as `format_escaped_str_contents` does.
#[verifier::external_body]
pub(crate) fn quote_json(s: &str) -> (r: String)
    ensures
        r@ == json_quoted(s@),
{
    match serde_json::to_string(s) {
        Ok(text) => text,
        Err(_) => String::new(),
    }
}

/// The JSON text of an optional string: its literal, or `null`.
pub open spec fn opt_json(o: Option<Seq<char>>) -> Seq<char> {
    match o {
        Some(s) => json_quoted(s),
        None => "null"@,
    }
}

/// The JSON text of an optional flag: `true`, `false` or `null`.
pub open spec fn flag_json(o: Option<bool>) -> Seq<char> {
    match o {
        Some(true) => "true"@,
        Some(false) => "false"@,
        None => "null"@,
    }
}

/// The JSON text of an optional string.
pub fn opt_to_json(o: &Option<String>) -> (r: String)
    ensures
        r@ == opt_json(crate::config::opt_view(*o)),
{
    match o {
        Some(s) => quote_json(s.as_str()),
        None => "null".to_owned(),
    }
}

/// The JSON text of an optional flag.
pub fn flag_to_json(o: Option<bool>) -> (r: String)
    ensures
        r@ == flag_json(o),
{
    match o {
        Some(true) => "true".to_owned(),
        Some(false) => "false".to_owned(),
        None => "null".to_owned(),
    }
}

/// The decimal digit `d`.
pub open spec fn digit_char(d: nat) -> char {
    (48 + d) as char
}

/// The decimal digits of `n`, most significant first, without leading zeros
/// (a single `0` for zero).
pub open spec fn decimal_digits(n: nat) -> Seq<char>
    decreases n,
{
    if n < 10 {
        seq![digit_char(n)]
    } else {
        decimal_digits(n / 10).push(digit_char(n % 10))
    }
}

/// The JSON number that `serde_json` writes for the integer `n`: its decimal
/// digits, after a minus sign when it is negative.
pub open spec fn json_integer(n: i64) -> Seq<char> {
    if n < 0 {
        seq!['-'] + decimal_digits((-n) as nat)
    } else {
        decimal_digits(n as nat)
    }
}

/// `serde_json::to_string` of an `i64`, which does not fail and writes the
/// integer in decimal (through `itoa`), with a minus sign when it is negative.
#[verifier::external_body]
pub(crate) fn integer_json(n: i64) -> (r: String)
    ensures
        r@ == json_integer(n),
{
    match serde_json::to_string(&n) {
        Ok(text) => text,
        Err(_) => String::new(),
    }
}

/// The literals of a list of texts, separated by commas.
pub open spec fn json_items(v: Seq<Seq<char>>) -> Seq<char>
    decreases v.len(),
{
    if v.len() == 0 {
        Seq::empty()
    } else if v.len() == 1 {
        json_quoted(v[0])
    } else {
        json_items(v.drop_last()) + ","@ + json_quoted(v.last())
    }
}

/// The JSON array of a list of texts.
pub open spec fn json_string_array(v: Seq<Seq<char>>) -> Seq<char> {
    "["@ + json_items(v) + "]"@
}

/// The JSON array of a list of texts, in order.
pub fn string_array_json(v: &Vec<String>) -> (r: String)
    ensures
        r@ == json_string_array(crate::model::views(v@)),
{
    let ghost w = crate::model::views(v@);
    let mut items = String::new();
    let mut i: usize = 0;
    while i < v.len()
        invariant
            i <= v@.len(),
            w == crate::model::views(v@),
            w.len() == v@.len(),
            items@ == json_items(w.take(i as int)),
        decreases v@.len() - i,
    {
        assert(w.take(i + 1).drop_last() =~= w.take(i as int));
        assert(w.take(i + 1).last() == v@[i as int]@);
        let q = quote_json(v[i].as_str());
        if i == 0 {
            assert(w.take(1)[0] == v@[0]@);
            items = q;
        } else {
            let with_comma = crate::text::concat(items.as_str(), ",");
            items = crate::text::concat(with_comma.as_str(), q.as_str());
        }
        i = i + 1;
    }
    assert(w.take(v@.len() as int) =~= w);
    let open = crate::text::concat("[", items.as_str());
    crate::text::concat(open.as_str(), "]")
}

} // verus!
