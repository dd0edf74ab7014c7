//! Encoding of ordered, optional query parameters into a query string.
//!
//! A value is percent-encoded byte by byte over its UTF-8 form: the unreserved
//! ASCII characters (letters, digits, `-`, `.`, `_`, `~`) stay as they are and
//! every other byte becomes `%` and two upper-case hex digits, so a space is
//! always rendered as `%20` and `&`, `=`, `?`, `:`, `,` and `%` are escaped.
//! Parameter names are taken as they are.
use vstd::prelude::*;
use vstd::utf8::encode_utf8;

verus! {

/// A query parameter as the contracts see it: its name and, if present, its value.
pub type ParamView = (Seq<char>, Option<Seq<char>>);

/// True for an unreserved ASCII character, which a value keeps as it is.
pub open spec fn is_unreserved(c: char) -> bool {
    ('A' <= c <= 'Z') || ('a' <= c <= 'z') || ('0' <= c <= '9') || c == '-' || c == '.' || c
        == '_' || c == '~'
}

/// The upper-case hexadecimal digit of a value below 16.
pub open spec fn hex_digit(n: u8) -> char {
    if n < 10 {
        ((n + 0x30) as u8) as char
    } else {
        ((n + 0x37) as u8) as char
    }
}

/// The text that one byte of a value becomes in the query string.
pub open spec fn encode_byte(b: u8) -> Seq<char> {
    if is_unreserved(b as char) {
        seq![b as char]
    } else {
        seq!['%', hex_digit(b / 16), hex_digit(b % 16)]
    }
}

/// The percent-encoding of a byte sequence.
pub open spec fn query_encode(bytes: Seq<u8>) -> Seq<char>
    decreases bytes.len(),
{
    if bytes.len() == 0 {
        seq![]
    } else {
        encode_byte(bytes[0]) + query_encode(bytes.drop_first())
    }
}

/// The escaped form of a value: its UTF-8 bytes, percent-encoded.
pub open spec fn encoded_value(v: Seq<char>) -> Seq<char> {
    query_encode(encode_utf8(v))
}

/// The query string of an ordered parameter list: empty if no value is
/// present, else `?` before the first present `name=value` and `&` before
/// each later one, in declaration order.
pub open spec fn query_string(params: Seq<ParamView>) -> Seq<char>
    decreases params.len(),
{
    if params.len() == 0 {
        seq![]
    } else {
        let prefix = query_string(params.drop_last());
        match params.last().1 {
            None => prefix,
            Some(v) => prefix + seq![if prefix.len() == 0 { '?' } else { '&' }] + params.last().0
                + seq!['='] + encoded_value(v),
        }
    }
}

/// The view of an optional owned string.
pub open spec fn opt_view(o: Option<String>) -> Option<Seq<char>> {
    match o {
        Some(s) => Some(s@),
        None => None,
    }
}

/// The view of a parameter list as handed to the encoder.
pub open spec fn params_view(params: Seq<(&str, Option<String>)>) -> Seq<ParamView> {
    params.map_values(|p: (&str, Option<String>)| (p.0@, opt_view(p.1)))
}

/// Relies on `String::push`: the character is appended.
#[verifier::external_body]
fn push_char(s: &mut String, c: char)
    ensures
        final(s)@ == old(s)@.push(c),
{
    s.push(c)
}

fn hex_digit_char(n: u8) -> (r: char)
    requires
        n < 16,
    ensures
        r == hex_digit(n),
{
    if n < 10 {
        (n + 0x30) as char
    } else {
        (n + 0x37) as char
    }
}

/// The escaped form of a value.
pub fn encode(value: &str) -> (r: String)
    ensures
        r@ == encoded_value(value@),
{
    let bytes = value.as_bytes();
    let ghost all = encode_utf8(value@);
    let mut out = String::new();
    let mut i: usize = 0;
    assert(all.skip(0) =~= all);
    assert(out@ + query_encode(all) =~= query_encode(all));
    while i < bytes.len()
        invariant
            bytes@ == all,
            i <= all.len(),
            out@ + query_encode(all.skip(i as int)) == query_encode(all),
        decreases bytes.len() - i,
    {
        let b = bytes[i];
        proof {
            assert(all.skip(i as int).drop_first() == all.skip(i + 1));
            assert(all.skip(i as int)[0] == b);
        }
        let c = b as char;
        let ghost before = out@;
        if ('A' <= c && c <= 'Z') || ('a' <= c && c <= 'z') || ('0' <= c && c <= '9') || c == '-'
            || c == '.' || c == '_' || c == '~' {
            push_char(&mut out, c);
            assert(out@ == before + encode_byte(b));
        } else {
            push_char(&mut out, '%');
            push_char(&mut out, hex_digit_char(b / 16));
            push_char(&mut out, hex_digit_char(b % 16));
            assert(out@ =~= before + encode_byte(b));
        }
        assert(out@ + query_encode(all.skip(i + 1)) =~= before + query_encode(all.skip(i as int)));
        i += 1;
    }
    assert(query_encode(all.skip(i as int)) =~= Seq::<char>::empty());
    out
}

/// The decimal digit of a value below 10.
pub open spec fn decimal_digit(n: nat) -> char {
    ((n + 0x30) as u8) as char
}

/// The decimal rendering of a natural number, without sign or leading zeros.
pub open spec fn decimal(n: nat) -> Seq<char>
    decreases n,
{
    if n < 10 {
        seq![decimal_digit(n)]
    } else {
        decimal(n / 10) + seq![decimal_digit(n % 10)]
    }
}

/// Relies on `ToString` for `u64` (its `Display`): the decimal digits of the
/// number, without sign or leading zeros.
#[verifier::external_body]
pub(crate) fn decimal_string(n: u64) -> (r: String)
    ensures
        r@ == decimal(n as nat),
{
    n.to_string()
}

/// Encodes an ordered list of named optional values into a query string.
pub fn params_into_query_string(params: Vec<(&str, Option<String>)>) -> (r: String)
    ensures
        r@ == query_string(params_view(params@)),
{
    let mut query = String::new();
    let mut i: usize = 0;
    while i < params.len()
        invariant
            i <= params@.len(),
            query@ == query_string(params_view(params@).take(i as int)),
        decreases params.len() - i,
    {
        let ghost before = query@;
        assert(params_view(params@).take(i + 1).drop_last() == params_view(params@).take(i as int));
        let name: &str = params[i].0;
        match &params[i].1 {
            Some(value) => {
                proof {
                    reveal_strlit("?");
                    reveal_strlit("&");
                    reveal_strlit("=");
                }
                if query.as_str().unicode_len() == 0 {
                    query.append("?");
                } else {
                    query.append("&");
                }
                query.append(name);
                query.append("=");
                let escaped = encode(value.as_str());
                query.append(escaped.as_str());
            },
            None => {},
        }
        i += 1;
    }
    assert(params_view(params@).take(params@.len() as int) == params_view(params@));
    query
}

/// The `name=value` pieces of the present parameters, in declaration order.
pub open spec fn present_pieces(params: Seq<ParamView>) -> Seq<Seq<char>>
    decreases params.len(),
{
    if params.len() == 0 {
        seq![]
    } else {
        match params.last().1 {
            None => present_pieces(params.drop_last()),
            Some(v) => present_pieces(params.drop_last()).push(
                params.last().0 + seq!['='] + encoded_value(v),
            ),
        }
    }
}

/// Pieces joined by `&`, in order.
pub open spec fn join_amp(pieces: Seq<Seq<char>>) -> Seq<char>
    decreases pieces.len(),
{
    if pieces.len() == 0 {
        seq![]
    } else if pieces.len() == 1 {
        pieces[0]
    } else {
        join_amp(pieces.drop_last()) + seq!['&'] + pieces.last()
    }
}

/// The number of occurrences of a character in a text.
pub open spec fn count_char(s: Seq<char>, c: char) -> nat
    decreases s.len(),
{
    if s.len() == 0 {
        0
    } else {
        count_char(s.drop_last(), c) + if s.last() == c { 1nat } else { 0nat }
    }
}

proof fn lemma_count_concat(a: Seq<char>, b: Seq<char>, c: char)
    ensures
        count_char(a + b, c) == count_char(a, c) + count_char(b, c),
    decreases b.len(),
{
    if b.len() == 0 {
        assert(a + b =~= a);
    } else {
        lemma_count_concat(a, b.drop_last(), c);
        assert((a + b).drop_last() =~= a + b.drop_last());
    }
}

/// Without any present value the query string is empty.
pub proof fn lemma_no_value_no_query(params: Seq<ParamView>)
    requires
        forall|i: int| 0 <= i < params.len() ==> (#[trigger] params[i]).1.is_none(),
    ensures
        query_string(params) == Seq::<char>::empty(),
        present_pieces(params).len() == 0,
    decreases params.len(),
{
    if params.len() > 0 {
        let rest = params.drop_last();
        assert forall|i: int| 0 <= i < rest.len() implies (#[trigger] rest[i]).1.is_none() by {
            assert(rest[i] == params[i]);
        }
        lemma_no_value_no_query(rest);
        assert(params.last() == params[params.len() - 1]);
    }
}

/// The query string is `?` followed by the pieces of the present parameters
/// joined by `&`, in declaration order; it is empty when none is present.
pub proof fn lemma_query_is_joined_pieces(params: Seq<ParamView>)
    ensures
        query_string(params) == if present_pieces(params).len() == 0 {
            Seq::<char>::empty()
        } else {
            seq!['?'] + join_amp(present_pieces(params))
        },
    decreases params.len(),
{
    if params.len() > 0 {
        let rest = params.drop_last();
        lemma_query_is_joined_pieces(rest);
        let pieces = present_pieces(rest);
        match params.last().1 {
            None => {},
            Some(v) => {
                let piece = params.last().0 + seq!['='] + encoded_value(v);
                let all = pieces.push(piece);
                assert(all.drop_last() =~= pieces);
                if pieces.len() == 0 {
                    assert(query_string(params) =~= seq!['?'] + piece);
                } else {
                    assert(join_amp(all) == join_amp(pieces) + seq!['&'] + piece);
                    assert(query_string(params) =~= seq!['?'] + join_amp(all));
                }
            },
        }
    }
}

/// With exactly one present parameter the query string is `?name=value`;
/// when the name holds no `&`, the query holds none either.
pub proof fn lemma_one_value_query(params: Seq<ParamView>, k: int, v: Seq<char>)
    requires
        0 <= k < params.len(),
        params[k].1 == Some(v),
        forall|i: int| 0 <= i < params.len() && i != k ==> (#[trigger] params[i]).1.is_none(),
    ensures
        query_string(params) == seq!['?'] + params[k].0 + seq!['='] + encoded_value(v),
        count_char(params[k].0, '&') == 0 ==> count_char(query_string(params), '&') == 0,
    decreases params.len(),
{
    if count_char(params[k].0, '&') == 0 {
        lemma_piece_has_no_amp(params[k].0, v);
        lemma_count_single('?', '&');
        lemma_count_concat(seq!['?'], params[k].0 + seq!['='] + encoded_value(v), '&');
        assert(seq!['?'] + params[k].0 + seq!['='] + encoded_value(v) =~= seq!['?'] + (params[k].0
            + seq!['='] + encoded_value(v)));
    }
    let rest = params.drop_last();
    if k == params.len() - 1 {
        assert forall|i: int| 0 <= i < rest.len() implies (#[trigger] rest[i]).1.is_none() by {
            assert(rest[i] == params[i]);
        }
        lemma_no_value_no_query(rest);
        assert(query_string(params) =~= seq!['?'] + params[k].0 + seq!['='] + encoded_value(v));
    } else {
        assert forall|i: int| 0 <= i < rest.len() && i != k implies (#[trigger] rest[i]).1.is_none() by {
            assert(rest[i] == params[i]);
        }
        assert(rest[k] == params[k]);
        lemma_one_value_query(rest, k, v);
        assert(params.last() == params[params.len() - 1]);
    }
}

/// True when no name of a present parameter holds `&`.
pub open spec fn names_free_of_amp(params: Seq<ParamView>) -> bool {
    forall|i: int| 0 <= i < params.len() && (#[trigger] params[i]).1.is_some() ==> count_char(params[i].0, '&') == 0
}

proof fn lemma_piece_has_no_amp(name: Seq<char>, v: Seq<char>)
    requires
        count_char(name, '&') == 0,
    ensures
        count_char(name + seq!['='] + encoded_value(v), '&') == 0,
{
    lemma_encoded_value_has_no_separator(v);
    lemma_count_concat(name, seq!['='], '&');
    lemma_count_concat(name + seq!['='], encoded_value(v), '&');
    lemma_count_single('=', '&');
}

proof fn lemma_pieces_have_no_amp(params: Seq<ParamView>)
    requires
        names_free_of_amp(params),
    ensures
        forall|i: int| 0 <= i < present_pieces(params).len() ==> count_char(
            #[trigger] present_pieces(params)[i],
            '&',
        ) == 0,
    decreases params.len(),
{
    if params.len() > 0 {
        let rest = params.drop_last();
        assert forall|i: int| 0 <= i < rest.len() && (#[trigger] rest[i]).1.is_some() implies count_char(rest[i].0, '&') == 0 by {
            assert(rest[i] == params[i]);
        }
        lemma_pieces_have_no_amp(rest);
        let last = params[params.len() - 1];
        assert(params.last() == last);
        match last.1 {
            None => {},
            Some(v) => {
                lemma_piece_has_no_amp(last.0, v);
                let piece = last.0 + seq!['='] + encoded_value(v);
                let pieces = present_pieces(rest).push(piece);
                assert(present_pieces(params) == pieces);
                assert forall|i: int| 0 <= i < pieces.len() implies count_char(
                    #[trigger] pieces[i],
                    '&',
                ) == 0 by {
                    if i < pieces.len() - 1 {
                        assert(pieces[i] == present_pieces(rest)[i]);
                    }
                }
            },
        }
    }
}

/// With `n > 1` present parameters whose names hold no `&`, the query string
/// holds exactly `n - 1` separators `&`, and the pieces keep the declaration
/// order.
pub proof fn lemma_separators(params: Seq<ParamView>)
    requires
        present_pieces(params).len() > 1,
        names_free_of_amp(params),
    ensures
        query_string(params) == seq!['?'] + join_amp(present_pieces(params)),
        count_char(query_string(params), '&') == present_pieces(params).len() - 1,
{
    lemma_query_is_joined_pieces(params);
    lemma_pieces_have_no_amp(params);
    let pieces = present_pieces(params);
    lemma_join_count(pieces);
    lemma_count_concat(seq!['?'], join_amp(pieces), '&');
    lemma_count_single('?', '&');
}

proof fn lemma_count_single(x: char, c: char)
    ensures
        count_char(seq![x], c) == if x == c { 1nat } else { 0nat },
{
    let s = seq![x];
    assert(s.drop_last() =~= Seq::<char>::empty());
    assert(count_char(Seq::<char>::empty(), c) == 0);
    assert(s.last() == x);
}

proof fn lemma_join_count(pieces: Seq<Seq<char>>)
    requires
        pieces.len() > 0,
        forall|i: int| 0 <= i < pieces.len() ==> count_char(#[trigger] pieces[i], '&') == 0,
    ensures
        count_char(join_amp(pieces), '&') == pieces.len() - 1,
    decreases pieces.len(),
{
    if pieces.len() > 1 {
        let rest = pieces.drop_last();
        assert forall|i: int| 0 <= i < rest.len() implies count_char(#[trigger] rest[i], '&') == 0 by {
            assert(rest[i] == pieces[i]);
        }
        lemma_join_count(rest);
        lemma_count_concat(join_amp(rest) + seq!['&'], pieces.last(), '&');
        lemma_count_concat(join_amp(rest), seq!['&'], '&');
        assert(seq!['&'].drop_last() =~= Seq::<char>::empty());
        lemma_count_single('&', '&');
        assert(pieces.last() == pieces[pieces.len() - 1]);
        assert(count_char(pieces[pieces.len() - 1], '&') == 0);
    } else {
        assert(count_char(pieces[0], '&') == 0);
    }
}

/// True for an ASCII hexadecimal digit of either case.
pub open spec fn is_hex(c: char) -> bool {
    ('0' <= c <= '9') || ('a' <= c <= 'f') || ('A' <= c <= 'F')
}

/// The value of a hexadecimal digit.
pub open spec fn hex_value(c: char) -> nat {
    if '0' <= c <= '9' {
        ((c as u32) - 0x30) as nat
    } else if 'a' <= c <= 'f' {
        ((c as u32) - 0x57) as nat
    } else {
        ((c as u32) - 0x37) as nat
    }
}

/// Percent-decoding: `%` and two hex digits become the byte they spell; any
/// other character stands for its own byte.
pub open spec fn percent_decode(s: Seq<char>) -> Seq<u8>
    decreases s.len(),
{
    if s.len() == 0 {
        seq![]
    } else if s.len() >= 3 && s[0] == '%' && is_hex(s[1]) && is_hex(s[2]) {
        seq![(hex_value(s[1]) * 16 + hex_value(s[2])) as u8] + percent_decode(s.skip(3))
    } else {
        seq![s[0] as u8] + percent_decode(s.drop_first())
    }
}

proof fn lemma_hex_digit(n: u8)
    requires
        n < 16,
    ensures
        is_hex(hex_digit(n)),
        hex_value(hex_digit(n)) == n,
        is_unreserved(hex_digit(n)),
{
}

proof fn lemma_kept_byte(b: u8)
    requires
        is_unreserved(b as char),
    ensures
        (b as char) as u8 == b,
        b as char != '%',
{
}

/// The escaped text of bytes starts with the escape of the first byte.
proof fn lemma_encode_head(b: Seq<u8>)
    requires
        b.len() > 0,
    ensures
        query_encode(b) == encode_byte(b[0]) + query_encode(b.drop_first()),
{
}

/// Percent-decoding the escaped form of bytes gives the bytes back.
pub proof fn lemma_decode_encoded_bytes(b: Seq<u8>)
    ensures
        percent_decode(query_encode(b)) == b,
    decreases b.len(),
{
    if b.len() > 0 {
        let rest = b.drop_first();
        lemma_decode_encoded_bytes(rest);
        lemma_encode_head(b);
        let s = query_encode(b);
        let tail = query_encode(rest);
        let x = b[0];
        if is_unreserved(x as char) {
            lemma_kept_byte(x);
            assert(s.drop_first() =~= tail);
            assert(percent_decode(s) =~= b);
        } else {
            lemma_hex_digit(x / 16);
            lemma_hex_digit(x % 16);
            assert(s.skip(3) =~= tail);
            assert(s[1] == hex_digit(x / 16));
            assert(s[2] == hex_digit(x % 16));
            assert((hex_value(s[1]) * 16 + hex_value(s[2])) as u8 == x);
            assert(percent_decode(s) =~= b);
        }
    }
}

/// Every value comes back unchanged from percent-decoding its escaped form.
pub proof fn lemma_decode_encoded_value(v: Seq<char>)
    ensures
        percent_decode(encoded_value(v)) == encode_utf8(v),
        vstd::utf8::decode_utf8(percent_decode(encoded_value(v))) == v,
{
    lemma_decode_encoded_bytes(encode_utf8(v));
    vstd::utf8::encode_utf8_decode_utf8(v);
}

/// The escaped text of any bytes holds only unreserved characters and `%`.
pub proof fn lemma_encoded_chars(b: Seq<u8>)
    ensures
        forall|i: int|
            0 <= i < query_encode(b).len() ==> is_unreserved(#[trigger] query_encode(b)[i])
                || query_encode(b)[i] == '%',
    decreases b.len(),
{
    if b.len() > 0 {
        lemma_encoded_chars(b.drop_first());
        lemma_encode_head(b);
        lemma_hex_digit(b[0] / 16);
        lemma_hex_digit(b[0] % 16);
        let head = encode_byte(b[0]);
        let tail = query_encode(b.drop_first());
        assert forall|i: int| 0 <= i < query_encode(b).len() implies is_unreserved(
            #[trigger] query_encode(b)[i],
        ) || query_encode(b)[i] == '%' by {
            if i >= head.len() {
                assert(query_encode(b)[i] == tail[i - head.len()]);
            }
        }
    }
}

proof fn lemma_count_absent(s: Seq<char>, c: char)
    requires
        forall|i: int| 0 <= i < s.len() ==> #[trigger] s[i] != c,
    ensures
        count_char(s, c) == 0,
    decreases s.len(),
{
    if s.len() > 0 {
        let r = s.drop_last();
        assert forall|i: int| 0 <= i < r.len() implies #[trigger] r[i] != c by {
            assert(r[i] == s[i]);
        }
        lemma_count_absent(r, c);
        assert(s.last() == s[s.len() - 1]);
    }
}

/// An escaped value holds no separator of the query: no `&`, `=` or `?`.
pub proof fn lemma_encoded_value_has_no_separator(v: Seq<char>)
    ensures
        count_char(encoded_value(v), '&') == 0,
        count_char(encoded_value(v), '=') == 0,
        count_char(encoded_value(v), '?') == 0,
{
    lemma_encoded_chars(encode_utf8(v));
    lemma_count_absent(encoded_value(v), '&');
    lemma_count_absent(encoded_value(v), '=');
    lemma_count_absent(encoded_value(v), '?');
}

/// True when `t` occurs in `s`.
pub open spec fn contains_text(s: Seq<char>, t: Seq<char>) -> bool {
    exists|j: int| 0 <= j && j + t.len() <= s.len() && #[trigger] s.subrange(j, j + t.len()) == t
}

/// True when no character of `s` is `c`.
pub open spec fn lacks_char(s: Seq<char>, c: char) -> bool {
    forall|i: int| 0 <= i < s.len() ==> #[trigger] s[i] != c
}

/// True when `s` ends with `w`.
pub open spec fn ends_with(s: Seq<char>, w: Seq<char>) -> bool {
    s.len() >= w.len() && s.subrange(s.len() - w.len(), s.len() as int) == w
}

/// True when `w=` cannot come from the name of any present parameter: each
/// present name holds no `=` and does not end with `w`.
pub open spec fn no_name_yields(params: Seq<ParamView>, w: Seq<char>) -> bool {
    forall|i: int|
        0 <= i < params.len() && (#[trigger] params[i]).1.is_some() ==> lacks_char(params[i].0, '=')
            && !ends_with(params[i].0, w)
}

/// A parameter text `w=` appears in the query string only through a present
/// parameter whose name ends with `w`: escaped values never hold `=`, `&` or
/// `?`, so no value can forge one.
pub proof fn lemma_no_forged_parameter(params: Seq<ParamView>, w: Seq<char>)
    requires
        lacks_char(w, '='),
        lacks_char(w, '&'),
        lacks_char(w, '?'),
        no_name_yields(params, w),
    ensures
        !contains_text(query_string(params), w.push('=')),
    decreases params.len(),
{
    if params.len() > 0 {
        let rest = params.drop_last();
        assert forall|i: int| 0 <= i < rest.len() && (#[trigger] rest[i]).1.is_some() implies lacks_char(
            rest[i].0,
            '=',
        ) && !ends_with(rest[i].0, w) by {
            assert(rest[i] == params[i]);
        }
        lemma_no_forged_parameter(rest, w);
        let last = params[params.len() - 1];
        assert(params.last() == last);
        match last.1 {
            None => {},
            Some(v) => {
                let prefix = query_string(rest);
                let sep = if prefix.len() == 0 { '?' } else { '&' };
                let name = last.0;
                let e = encoded_value(v);
                let q = query_string(params);
                let t = w.push('=');
                assert(q == prefix + seq![sep] + name + seq!['='] + e);
                lemma_encoded_chars(encode_utf8(v));
                let p = prefix.len() as int;
                let eq_at = p + 1 + name.len();
                assert(lacks_char(name, '='));
                if contains_text(q, t) {
                    let j = choose|j: int|
                        0 <= j && j + t.len() <= q.len() && #[trigger] q.subrange(j, j + t.len()) == t;
                    let end = j + w.len();
                    assert(q.subrange(j, j + t.len())[w.len() as int] == q[end]);
                    assert(q[end] == '=');
                    if end < p {
                        assert(prefix.subrange(j, j + t.len()) =~= q.subrange(j, j + t.len()));
                        assert(contains_text(prefix, t));
                    } else if end == p {
                        assert(q[end] == sep);
                    } else if end < eq_at {
                        assert(q[end] == name[end - p - 1]);
                    } else if end == eq_at {
                        if name.len() >= w.len() {
                            assert(name.subrange(name.len() - w.len(), name.len() as int) =~= w) by {
                                assert forall|k: int| 0 <= k < w.len() implies name.subrange(
                                    name.len() - w.len(),
                                    name.len() as int,
                                )[k] == #[trigger] w[k] by {
                                    assert(q.subrange(j, j + t.len())[k] == q[j + k]);
                                    assert(t[k] == w[k]);
                                    assert(q[j + k] == name[j + k - p - 1]);
                                }
                            }
                        } else {
                            let k = p - j;
                            assert(q.subrange(j, j + t.len())[k] == q[p]);
                            assert(t[k] == w[k]);
                            assert(w[k] == sep);
                        }
                    } else {
                        assert(q[end] == e[end - eq_at - 1]);
                        assert(is_unreserved(e[end - eq_at - 1]) || e[end - eq_at - 1] == '%');
                    }
                }
            },
        }
    }
}

} // verus!
