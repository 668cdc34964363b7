use vstd::prelude::*;
use vstd::string::*;

use crate::query::escape_quotes;
use crate::text::{contains_char, joined, push_char, push_str};

verus! {

/// Whether a field must be quoted: it holds the delimiter, a quote or a line break.
pub open spec fn needs_quotes(s: Seq<char>) -> bool {
    s.contains(',') || s.contains('"') || s.contains('\n') || s.contains('\r')
}

/// A field as written: quoted with embedded quotes doubled where needed, else as is.
pub open spec fn csv_field(s: Seq<char>) -> Seq<char> {
    if needs_quotes(s) {
        seq!['"'] + escape_quotes(s) + seq!['"']
    } else {
        s
    }
}

/// A record: the fields separated by commas, ended by a newline.
pub open spec fn csv_line(cols: Seq<Seq<char>>) -> Seq<char> {
    joined(cols.map_values(|c: Seq<char>| csv_field(c)), ","@) + "\n"@
}

/// One field, quoted where it must be.
pub fn csv_escape(s: &str) -> (r: String)
    ensures
        r@ == csv_field(s@),
{
    let quote = contains_char(s, ',') || contains_char(s, '"') || contains_char(s, '\n')
        || contains_char(s, '\r');
    if !quote {
        return crate::text::owned(s);
    }
    let n = s.unicode_len();
    let mut out = String::new();
    push_char(&mut out, '"');
    let mut i: usize = 0;
    while i < n
        invariant
            n == s@.len(),
            i <= n,
            out@ == seq!['"'] + escape_quotes(s@.subrange(0, i as int)),
        decreases n - i,
    {
        let c = s.get_char(i);
        assert(s@.subrange(0, i + 1).drop_last() =~= s@.subrange(0, i as int));
        push_char(&mut out, c);
        if c == '"' {
            push_char(&mut out, '"');
        }
        assert(out@ =~= seq!['"'] + escape_quotes(s@.subrange(0, i + 1)));
        i = i + 1;
    }
    assert(s@.subrange(0, n as int) =~= s@);
    push_char(&mut out, '"');
    out
}

/// One record of delimited text: each field quoted where it must be, separated by
/// commas, ended by a newline.
pub fn write_csv_row(cols: &Vec<String>) -> (r: String)
    ensures
        r@ == csv_line(cols.deep_view()),
{
    let mut fields: Vec<String> = Vec::new();
    let mut i: usize = 0;
    while i < cols.len()
        invariant
            i <= cols@.len(),
            fields@.len() == i,
            forall|j: int| 0 <= j < i ==> #[trigger] fields@[j]@ == csv_field(cols@[j]@),
        decreases cols@.len() - i,
    {
        fields.push(csv_escape(cols[i].as_str()));
        i = i + 1;
    }
    assert(fields.deep_view() =~= cols.deep_view().map_values(|c: Seq<char>| csv_field(c)));
    let mut line = crate::text::join(&fields, ",");
    push_str(&mut line, "\n");
    line
}

/// The lowercase hexadecimal digit for `n < 16`.
pub open spec fn hex_digit(n: int) -> char {
    if n < 10 {
        (('0' as int) + n) as char
    } else {
        (('a' as int) + n - 10) as char
    }
}

/// Each byte as two lowercase hexadecimal digits, high half first.
pub open spec fn hex_of(data: Seq<u8>) -> Seq<char>
    decreases data.len(),
{
    if data.len() == 0 {
        Seq::empty()
    } else {
        let b = data.last() as int;
        hex_of(data.drop_last()) + seq![hex_digit(b / 16), hex_digit(b % 16)]
    }
}

fn hex_char(n: u8) -> (c: char)
    requires
        n < 16,
    ensures
        c == hex_digit(n as int),
{
    if n < 10 {
        (48 + n) as char
    } else {
        (87 + n) as char
    }
}

/// Lowercase hexadecimal text of `data`, two digits per byte.
pub fn encode(data: &[u8]) -> (r: String)
    ensures
        r@ == hex_of(data@),
{
    let mut s = String::new();
    let mut i: usize = 0;
    while i < data.len()
        invariant
            i <= data@.len(),
            s@ == hex_of(data@.subrange(0, i as int)),
        decreases data@.len() - i,
    {
        let b = data[i];
        assert(data@.subrange(0, i + 1).drop_last() =~= data@.subrange(0, i as int));
        push_char(&mut s, hex_char(b / 16));
        push_char(&mut s, hex_char(b % 16));
        i = i + 1;
    }
    assert(data@.subrange(0, i as int) =~= data@);
    s
}

} // verus!
