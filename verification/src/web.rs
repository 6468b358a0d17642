//! The loopback web UI: reading a request, choosing its route, and the
//! status and waiting context that its pages show.
use crate::domain::{
    DecisionRequest, IssueFilter, IssueListItem, IssueState, WaitKind, opt_string_view,
};
use crate::error::{fails_with_input, invalid_input, not_found, AppError};
use crate::text::{
    chars_of, concat, is_blank, is_blank_str, is_white_space, parse_i64, parse_i64_spec,
    parse_usize_chars, parse_usize_spec, push_str, str_equals, string_from_chars, string_from_utf8, trim,
    trim_chars,
};
use vstd::prelude::*;
use vstd::string::StringSliceAdditionalSpecFns;
use vstd::utf8::encode_utf8;

verus! {

/// The longest request line accepted, in bytes.
pub const MAX_REQUEST_LINE: usize = 8192;

/// The most header lines read.
pub const MAX_HEADERS: usize = 64;

/// The largest request body accepted, in bytes.
pub const MAX_REQUEST_BODY: usize = 65536;

/// The value of a hexadecimal digit byte, in either case.
pub open spec fn hex_value_spec(b: u8) -> Option<u8> {
    if 48 <= b && b <= 57 {
        Some((b - 48) as u8)
    } else if 97 <= b && b <= 102 {
        Some((b - 97 + 10) as u8)
    } else if 65 <= b && b <= 70 {
        Some((b - 65 + 10) as u8)
    } else {
        None
    }
}

pub fn hex_value(value: u8) -> (r: Option<u8>)
    ensures
        r == hex_value_spec(value),
{
    if 48 <= value && value <= 57 {
        Some(value - 48)
    } else if 97 <= value && value <= 102 {
        Some(value - 97 + 10)
    } else if 65 <= value && value <= 70 {
        Some(value - 65 + 10)
    } else {
        None
    }
}

/// The bytes that percent-decoding gives, or the message of the first
/// malformed escape.
pub open spec fn percent_bytes(b: Seq<u8>) -> Result<Seq<u8>, Seq<char>>
    decreases b.len(),
{
    if b.len() == 0 {
        Ok(Seq::empty())
    } else if b[0] == 37u8 {
        if 2 >= b.len() {
            Err("web URL contains an incomplete escape"@)
        } else {
            match (hex_value_spec(b[1]), hex_value_spec(b[2])) {
                (Some(h), Some(l)) => match percent_bytes(b.skip(3)) {
                    Ok(rest) => Ok(seq![(h * 16 + l) as u8] + rest),
                    Err(m) => Err(m),
                },
                _ => Err("web URL contains an invalid escape"@),
            }
        }
    } else {
        match percent_bytes(b.skip(1)) {
            Ok(rest) => Ok(seq![b[0]] + rest),
            Err(m) => Err(m),
        }
    }
}

/// Decodes the `%XX` escapes of a URL part; the result must be UTF-8.
pub fn percent_decode(value: &str) -> (r: Result<String, AppError>)
    ensures
        match percent_bytes(value.spec_bytes()) {
            Err(m) => fails_with_input(r, m),
            Ok(b) => if exists|t: Seq<char>| encode_utf8(t) == b {
                r matches Ok(s) && encode_utf8(s@) == b
            } else {
                fails_with_input(r, "web URL is not valid UTF-8"@)
            },
        },
{
    let bytes = value.as_bytes();
    let ghost b = value.spec_bytes();
    let mut decoded: Vec<u8> = Vec::new();
    let mut index: usize = 0;
    assert(b.skip(0) =~= b);
    while index < bytes.len()
        invariant
            bytes@ == b,
            b == value.spec_bytes(),
            index <= bytes.len(),
            percent_bytes(b) == match percent_bytes(b.skip(index as int)) {
                Ok(rest) => Ok(decoded@ + rest),
                Err(m) => Err::<Seq<u8>, Seq<char>>(m),
            },
        decreases bytes.len() - index,
    {
        let ghost tail = b.skip(index as int);
        let ghost d_before = decoded@;
        assert(tail.len() == bytes.len() - index);
        assert(tail[0] == bytes@[index as int]);
        if bytes[index] == 37u8 {
            if bytes.len() - index <= 2 {
                assert(percent_bytes(tail) == Err::<Seq<u8>, Seq<char>>(
                    "web URL contains an incomplete escape"@,
                ));
                return Err(invalid_input("web URL contains an incomplete escape"));
            }
            assert(tail[1] == bytes@[index + 1] && tail[2] == bytes@[index + 2]);
            let high = match hex_value(bytes[index + 1]) {
                Some(h) => h,
                None => {
                    assert(percent_bytes(tail) == Err::<Seq<u8>, Seq<char>>(
                        "web URL contains an invalid escape"@,
                    ));
                    return Err(invalid_input("web URL contains an invalid escape"));
                },
            };
            let low = match hex_value(bytes[index + 2]) {
                Some(l) => l,
                None => {
                    assert(percent_bytes(tail) == Err::<Seq<u8>, Seq<char>>(
                        "web URL contains an invalid escape"@,
                    ));
                    return Err(invalid_input("web URL contains an invalid escape"));
                },
            };
            assert((high << 4u8) | low == high * 16 + low) by (bit_vector)
                requires
                    high < 16,
                    low < 16,
            ;
            decoded.push((high << 4u8) | low);
            proof {
                assert(tail.skip(3) =~= b.skip(index + 3));
            }
            index = index + 3;
        } else {
            decoded.push(bytes[index]);
            proof {
                assert(tail.skip(1) =~= b.skip(index + 1));
            }
            index = index + 1;
        }
        proof {
            let d0 = d_before;
            let x = decoded@.last();
            assert(decoded@ =~= d0.push(x));
            match percent_bytes(b.skip(index as int)) {
                Ok(rest) => {
                    assert(percent_bytes(tail) == Ok::<Seq<u8>, Seq<char>>(seq![x] + rest));
                    assert(d0 + (seq![x] + rest) =~= decoded@ + rest);
                },
                Err(m) => {
                    assert(percent_bytes(tail) == Err::<Seq<u8>, Seq<char>>(m));
                },
            }
        }
    }
    proof {
        assert(b.skip(index as int) =~= Seq::<u8>::empty());
        assert(decoded@ + Seq::<u8>::empty() =~= decoded@);
    }
    match string_from_utf8(decoded) {
        Some(s) => Ok(s),
        None => Err(invalid_input("web URL is not valid UTF-8")),
    }
}

/// The parts of `s` between the occurrences of `c`, as `str::split` gives
/// them.
pub open spec fn split_on(s: Seq<char>, c: char) -> Seq<Seq<char>>
    decreases s.len(),
{
    if s.len() == 0 {
        seq![Seq::empty()]
    } else {
        let before = split_on(s.drop_last(), c);
        if s.last() == c {
            before.push(Seq::empty())
        } else {
            before.drop_last().push(before.last().push(s.last()))
        }
    }
}

proof fn lemma_split_on_len(s: Seq<char>, c: char)
    ensures
        split_on(s, c).len() >= 1,
    decreases s.len(),
{
    if s.len() > 0 {
        lemma_split_on_len(s.drop_last(), c);
    }
}

/// The position of the first `c` in `s`, or -1.
pub open spec fn first_index_of(s: Seq<char>, c: char) -> int
    decreases s.len(),
{
    if s.len() == 0 {
        -1
    } else if s[0] == c {
        0
    } else {
        let rest = first_index_of(s.drop_first(), c);
        if rest < 0 {
            -1
        } else {
            rest + 1
        }
    }
}

/// The key of a query pair: the text before its first `=`, or all of it.
pub open spec fn key_part(pair: Seq<char>) -> Seq<char> {
    let i = first_index_of(pair, '=');
    if i < 0 {
        pair
    } else {
        pair.take(i)
    }
}

/// The value of a query pair: the text after its first `=`, or nothing.
pub open spec fn value_part(pair: Seq<char>) -> Seq<char> {
    let i = first_index_of(pair, '=');
    if i < 0 {
        Seq::empty()
    } else {
        pair.skip(i + 1)
    }
}

pub open spec fn plus_to_space(s: Seq<char>) -> Seq<char> {
    s.map_values(|c: char| if c == '+' { ' ' } else { c })
}

/// What percent-decoding a text gives: its bytes, or the message of its
/// problem.
pub open spec fn decoded_bytes(s: Seq<char>) -> Result<Seq<u8>, Seq<char>> {
    match percent_bytes(encode_utf8(s)) {
        Err(m) => Err(m),
        Ok(b) => if exists|t: Seq<char>| encode_utf8(t) == b {
            Ok(b)
        } else {
            Err("web URL is not valid UTF-8"@)
        },
    }
}

/// The non-empty `&`-separated pairs of a query.
pub open spec fn query_segments(raw: Seq<char>) -> Seq<Seq<char>> {
    split_on(raw, '&').filter(|p: Seq<char>| p.len() > 0)
}

/// The first problem, if any, of the pairs from `k` on.
pub open spec fn query_error(segments: Seq<Seq<char>>, k: int) -> Option<Seq<char>>
    decreases segments.len() - k,
{
    if k < 0 || k >= segments.len() {
        None
    } else if decoded_bytes(key_part(segments[k])) is Err {
        Some(decoded_bytes(key_part(segments[k]))->Err_0)
    } else if decoded_bytes(plus_to_space(value_part(segments[k]))) is Err {
        Some(decoded_bytes(plus_to_space(value_part(segments[k])))->Err_0)
    } else {
        query_error(segments, k + 1)
    }
}

fn decode_part(chars: &Vec<char>) -> (r: Result<String, AppError>)
    ensures
        match decoded_bytes(chars@) {
            Err(m) => fails_with_input(r, m),
            Ok(b) => r matches Ok(s) && encode_utf8(s@) == b,
        },
{
    let s = string_from_chars(chars);
    percent_decode(s.as_str())
}

fn first_equals(v: &Vec<char>) -> (r: Option<usize>)
    ensures
        match r {
            Some(i) => i < v.len() && first_index_of(v@, '=') == i,
            None => first_index_of(v@, '=') == -1,
        },
{
    let mut i: usize = 0;
    while i < v.len()
        invariant
            i <= v.len(),
            forall|j: int| 0 <= j < i ==> v@[j] != '=',
        decreases v.len() - i,
    {
        if v[i] == '=' {
            proof {
                lemma_first_index(v@, '=', i as int);
            }
            return Some(i);
        }
        i = i + 1;
    }
    proof {
        lemma_first_index(v@, '=', v.len() as int);
    }
    None
}

proof fn lemma_first_index(s: Seq<char>, c: char, i: int)
    requires
        0 <= i <= s.len(),
        forall|j: int| 0 <= j < i ==> s[j] != c,
        i < s.len() ==> s[i] == c,
    ensures
        first_index_of(s, c) == if i < s.len() {
            i
        } else {
            -1
        },
    decreases s.len(),
{
    if s.len() > 0 && i > 0 {
        assert forall|j: int| 0 <= j < i - 1 implies s.drop_first()[j] != c by {
            assert(s.drop_first()[j] == s[j + 1]);
        }
        lemma_first_index(s.drop_first(), c, i - 1);
    }
}

fn sub_chars(v: &Vec<char>, from: usize, to: usize) -> (r: Vec<char>)
    requires
        from <= to <= v.len(),
    ensures
        r@ == v@.subrange(from as int, to as int),
{
    let mut r: Vec<char> = Vec::new();
    let mut k = from;
    while k < to
        invariant
            from <= k <= to,
            to <= v.len(),
            r@ == v@.subrange(from as int, k as int),
        decreases to - k,
    {
        r.push(v[k]);
        k = k + 1;
        assert(r@ =~= v@.subrange(from as int, k as int));
    }
    r
}

/// The pairs read from a query: one per non-empty segment, in order, each
/// key and value decoded from its segment.
pub open spec fn decoded_pairs(pairs: Seq<(String, String)>, raw_query: Seq<char>) -> bool {
    &&& pairs.len() == query_segments(raw_query).len()
    &&& forall|i: int|
        0 <= i < pairs.len() ==> {
            let seg = #[trigger] query_segments(raw_query)[i];
            &&& encode_utf8(pairs[i].0@) == decoded_bytes(key_part(seg))->Ok_0
            &&& encode_utf8(pairs[i].1@) == decoded_bytes(plus_to_space(value_part(seg)))->Ok_0
        }
}

/// Reads the `&`-separated `key=value` pairs of a query, percent-decoded,
/// with `+` in a value standing for a space; empty pairs are skipped. The
/// pairs keep their order; a later pair with the same key wins.
pub fn parse_query(raw_query: &str) -> (r: Result<Vec<(String, String)>, AppError>)
    ensures
        match query_error(query_segments(raw_query@), 0) {
            Some(m) => fails_with_input(r, m),
            None => r matches Ok(pairs) && decoded_pairs(pairs@, raw_query@),
        },
{
    let chars = chars_of(raw_query);
    // split on '&'
    let mut segments: Vec<Vec<char>> = Vec::new();
    let mut current: Vec<char> = Vec::new();
    let mut i: usize = 0;
    while i < chars.len()
        invariant
            i <= chars.len(),
            chars@ == raw_query@,
            segments@.map_values(|v: Vec<char>| v@).push(current@) == split_on(chars@.take(i as int), '&'),
        decreases chars.len() - i,
    {
        let c = chars[i];
        proof {
            assert(chars@.take(i + 1).drop_last() =~= chars@.take(i as int));
            assert(chars@.take(i + 1).last() == c);
        }
        let ghost before = segments@.map_values(|v: Vec<char>| v@);
        if c == '&' {
            let done = current;
            current = Vec::new();
            segments.push(done);
            assert(segments@.map_values(|v: Vec<char>| v@) =~= before.push(done@));
            assert(segments@.map_values(|v: Vec<char>| v@).push(current@) =~= before.push(done@).push(Seq::empty()));
        } else {
            let ghost old_current = current@;
            current.push(c);
            assert(before.push(old_current).drop_last() =~= before);
        }
        i = i + 1;
    }
    segments.push(current);
    assert(chars@.take(i as int) =~= chars@);
    let ghost all = segments@.map_values(|v: Vec<char>| v@);
    let mut pairs: Vec<(String, String)> = Vec::new();
    let ghost mut seen: int = 0;
    let mut k: usize = 0;
    while k < segments.len()
        invariant
            k <= segments.len(),
            all == segments@.map_values(|v: Vec<char>| v@),
            all == split_on(raw_query@, '&'),
            seen == all.take(k as int).filter(|p: Seq<char>| p.len() > 0).len(),
            pairs@.len() == seen,
            query_error(query_segments(raw_query@), 0) == query_error(query_segments(raw_query@), seen),
            forall|j: int|
                0 <= j < seen ==> {
                    let seg = #[trigger] query_segments(raw_query@)[j];
                    &&& encode_utf8(pairs@[j].0@) == decoded_bytes(key_part(seg))->Ok_0
                    &&& encode_utf8(pairs@[j].1@) == decoded_bytes(
                        plus_to_space(value_part(seg)),
                    )->Ok_0
                },
            all.take(k as int).filter(|p: Seq<char>| p.len() > 0) == query_segments(raw_query@).take(seen),
        decreases segments.len() - k,
    {
        let ghost nonempty = |p: Seq<char>| p.len() > 0;
        proof {
            lemma_filter_take_step(all, k as int, nonempty);
            lemma_filter_split(all, k + 1, nonempty);
            assert(all[k as int] == segments@[k as int]@);
        }
        let seg = &segments[k];
        if seg.len() > 0 {
            proof {
                assert(query_segments(raw_query@) == all.filter(nonempty));
                assert(query_segments(raw_query@).len() > seen);
                assert(query_segments(raw_query@)[seen] == seg@);
            }
            let (key_chars, value_chars) = match first_equals(seg) {
                Some(e) => (sub_chars(seg, 0, e), sub_chars(seg, e + 1, seg.len())),
                None => (sub_chars(seg, 0, seg.len()), Vec::new()),
            };
            proof {
                assert(key_chars@ == key_part(seg@));
                assert(value_chars@ == value_part(seg@));
            }
            let mut plus: Vec<char> = Vec::new();
            let mut j: usize = 0;
            while j < value_chars.len()
                invariant
                    j <= value_chars.len(),
                    plus@ == plus_to_space(value_chars@.take(j as int)),
                decreases value_chars.len() - j,
            {
                let c = value_chars[j];
                plus.push(if c == '+' { ' ' } else { c });
                assert(plus_to_space(value_chars@.take(j + 1)) =~= plus_to_space(value_chars@.take(j as int)).push(if c == '+' { ' ' } else { c }));
                j = j + 1;
            }
            assert(value_chars@.take(j as int) =~= value_chars@);
            let key = decode_part(&key_chars)?;
            let value = decode_part(&plus)?;
            pairs.push((key, value));
            proof {
                seen = seen + 1;
                assert(all.take(k + 1).filter(nonempty) =~= query_segments(raw_query@).take(seen));
            }
        } else {
            proof {
                assert(all.take(k + 1).filter(nonempty) == all.take(k as int).filter(nonempty));
            }
        }
        k = k + 1;
    }
    proof {
        assert(all.take(k as int) =~= all);
        lemma_filter_split(all, k as int, |p: Seq<char>| p.len() > 0);
    }
    Ok(pairs)
}

proof fn lemma_filter_take_step(s: Seq<Seq<char>>, k: int, p: spec_fn(Seq<char>) -> bool)
    requires
        0 <= k < s.len(),
    ensures
        s.take(k + 1).filter(p) == if p(s[k]) {
            s.take(k).filter(p).push(s[k])
        } else {
            s.take(k).filter(p)
        },
{
    let t = s.take(k + 1);
    assert(t.drop_last() =~= s.take(k));
    assert(t.last() == s[k]);
    reveal(Seq::filter);
}

proof fn lemma_filter_split(s: Seq<Seq<char>>, k: int, p: spec_fn(Seq<char>) -> bool)
    requires
        0 <= k <= s.len(),
    ensures
        s.filter(p) == s.take(k).filter(p) + s.skip(k).filter(p),
{
    assert(s =~= s.take(k) + s.skip(k));
    Seq::filter_distributes_over_add(s.take(k), s.skip(k), p);
}

/// The value of the last pair named `key`, as a map of the query holds it.
pub open spec fn query_lookup(pairs: Seq<(String, String)>, key: Seq<char>) -> Option<String>
    decreases pairs.len(),
{
    if pairs.len() == 0 {
        None
    } else if pairs.last().0@ == key {
        Some(pairs.last().1)
    } else {
        query_lookup(pairs.drop_last(), key)
    }
}

/// The value of `key` in a parsed query.
pub fn query_value<'a>(pairs: &'a Vec<(String, String)>, key: &str) -> (r: Option<&'a String>)
    ensures
        match r {
            Some(v) => query_lookup(pairs@, key@) == Some(*v),
            None => query_lookup(pairs@, key@) is None,
        },
{
    let mut i = pairs.len();
    assert(pairs@.take(i as int) =~= pairs@);
    while i > 0
        invariant
            i <= pairs.len(),
            query_lookup(pairs@, key@) == query_lookup(pairs@.take(i as int), key@),
        decreases i,
    {
        assert(pairs@.take(i as int).last() == pairs@[i - 1]);
        assert(pairs@.take(i as int).drop_last() =~= pairs@.take(i - 1));
        if str_equals(pairs[i - 1].0.as_str(), key) {
            return Some(&pairs[i - 1].1);
        }
        i = i - 1;
    }
    None
}

/// The words of `s` and the word being read, as `split_whitespace` meets them.
pub open spec fn word_state(s: Seq<char>) -> (Seq<Seq<char>>, Seq<char>)
    decreases s.len(),
{
    if s.len() == 0 {
        (Seq::empty(), Seq::empty())
    } else {
        let (done, current) = word_state(s.drop_last());
        if is_white_space(s.last()) {
            if current.len() > 0 {
                (done.push(current), Seq::empty())
            } else {
                (done, current)
            }
        } else {
            (done, current.push(s.last()))
        }
    }
}

/// The whitespace-separated words of `s`.
pub open spec fn words(s: Seq<char>) -> Seq<Seq<char>> {
    let (done, current) = word_state(s);
    if current.len() > 0 {
        done.push(current)
    } else {
        done
    }
}

pub fn split_words(s: &str) -> (r: Vec<String>)
    ensures
        r@.map_values(|w: String| w@) == words(s@),
{
    let chars = chars_of(s);
    let mut done: Vec<String> = Vec::new();
    let mut current: Vec<char> = Vec::new();
    let mut i: usize = 0;
    while i < chars.len()
        invariant
            i <= chars.len(),
            chars@ == s@,
            word_state(chars@.take(i as int)) == (done@.map_values(|w: String| w@), current@),
        decreases chars.len() - i,
    {
        let c = chars[i];
        proof {
            assert(chars@.take(i + 1).drop_last() =~= chars@.take(i as int));
            assert(chars@.take(i + 1).last() == c);
        }
        if crate::text::is_whitespace_char(c) {
            if current.len() > 0 {
                let ghost before = done@.map_values(|w: String| w@);
                let w = string_from_chars(&current);
                done.push(w);
                current = Vec::new();
                assert(done@.map_values(|w: String| w@) =~= before.push(w@));
                assert(current@ =~= Seq::<char>::empty());
            }
        } else {
            current.push(c);
        }
        i = i + 1;
    }
    assert(chars@.take(i as int) =~= chars@);
    if current.len() > 0 {
        let ghost before = done@.map_values(|w: String| w@);
        let w = string_from_chars(&current);
        done.push(w);
        assert(done@.map_values(|w: String| w@) =~= before.push(current@));
    }
    done
}

/// The problem, if any, of a request line, else its method and target.
pub open spec fn request_line_spec(line: Seq<char>) -> Result<(Seq<char>, Seq<char>), Seq<char>> {
    let w = words(line);
    if encode_utf8(line).len() > MAX_REQUEST_LINE {
        Err("web request line is too long"@)
    } else if w.len() == 0 {
        Err("web request is empty"@)
    } else if w.len() == 1 {
        Err("web request has no target"@)
    } else if w.len() == 2 {
        Err("web request has no HTTP version"@)
    } else if w[2] != "HTTP/1.0"@ && w[2] != "HTTP/1.1"@ {
        Err("web request uses an unsupported HTTP version"@)
    } else {
        Ok((w[0], w[1]))
    }
}

/// Reads the method and target of a request line of HTTP/1.0 or 1.1.
pub fn parse_request_line(line: &str) -> (r: Result<(String, String), AppError>)
    ensures
        match request_line_spec(line@) {
            Err(m) => fails_with_input(r, m),
            Ok((method, target)) => r matches Ok((m, t)) && m@ == method && t@ == target,
        },
{
    if line.as_bytes().len() > MAX_REQUEST_LINE {
        return Err(invalid_input("web request line is too long"));
    }
    let w = split_words(line);
    proof {
        assert(w@.len() == words(line@).len());
    }
    if w.len() == 0 {
        return Err(invalid_input("web request is empty"));
    }
    if w.len() == 1 {
        return Err(invalid_input("web request has no target"));
    }
    if w.len() == 2 {
        return Err(invalid_input("web request has no HTTP version"));
    }
    proof {
        assert(w@.map_values(|x: String| x@)[2] == w@[2]@);
        assert(w@.map_values(|x: String| x@)[0] == w@[0]@);
        assert(w@.map_values(|x: String| x@)[1] == w@[1]@);
    }
    if !str_equals(w[2].as_str(), "HTTP/1.0") && !str_equals(w[2].as_str(), "HTTP/1.1") {
        return Err(invalid_input("web request uses an unsupported HTTP version"));
    }
    Ok((w[0].clone(), w[1].clone()))
}

/// What a header line tells.
#[derive(Clone, Copy, Debug, PartialEq, Eq, Structural)]
pub enum HeaderLine {
    /// The blank line that ends the headers.
    End,
    ContentLength(usize),
    Other,
}

/// `c` with ASCII letters lowered.
pub open spec fn lower(c: char) -> char {
    if 'A' <= c && c <= 'Z' {
        ((c as u32) + 32) as char
    } else {
        c
    }
}

/// The meaning of a header line, given the content length read so far.
pub open spec fn header_spec(header: Seq<char>, content_length: Option<usize>) -> Result<
    HeaderLine,
    Seq<char>,
> {
    if header == "\r\n"@ || header == "\n"@ {
        Ok(HeaderLine::End)
    } else {
        let i = first_index_of(header, ':');
        if i < 0 {
            Err("web request has an invalid header"@)
        } else {
            let name = trim(header.take(i)).map_values(|c: char| lower(c));
            let value = trim(header.skip(i + 1));
            if name == "content-length"@ {
                if content_length is Some {
                    Err("web request has duplicate content-length headers"@)
                } else {
                    match parse_usize_spec(value) {
                        None => Err("web request content-length is invalid"@),
                        Some(n) => if n > MAX_REQUEST_BODY {
                            Err("web request body is too large"@)
                        } else {
                            Ok(HeaderLine::ContentLength(n as usize))
                        },
                    }
                }
            } else if name == "transfer-encoding"@ {
                Err("web request transfer-encoding is unsupported"@)
            } else {
                Ok(HeaderLine::Other)
            }
        }
    }
}

fn lower_char(c: char) -> (d: char)
    ensures
        d == lower(c),
{
    if 'A' <= c && c <= 'Z' {
        ((c as u32) + 32) as u8 as char
    } else {
        c
    }
}

/// Reads one header line: the end of the headers, a content length (once,
/// at most 64 KiB), or another header; chunked bodies are refused.
pub fn parse_header_line(header: &str, content_length: Option<usize>) -> (r: Result<HeaderLine, AppError>)
    ensures
        match header_spec(header@, content_length) {
            Err(m) => fails_with_input(r, m),
            Ok(h) => r == Ok::<HeaderLine, AppError>(h),
        },
{
    if str_equals(header, "\r\n") || str_equals(header, "\n") {
        return Ok(HeaderLine::End);
    }
    let chars = chars_of(header);
    let mut colon: usize = 0;
    while colon < chars.len() && chars[colon] != ':'
        invariant
            colon <= chars.len(),
            forall|j: int| 0 <= j < colon ==> chars@[j] != ':',
        decreases chars.len() - colon,
    {
        colon = colon + 1;
    }
    proof {
        lemma_first_index(chars@, ':', colon as int);
    }
    if colon == chars.len() {
        return Err(invalid_input("web request has an invalid header"));
    }
    let name_chars = trim_chars(&sub_chars(&chars, 0, colon));
    let mut name: Vec<char> = Vec::new();
    let mut k: usize = 0;
    while k < name_chars.len()
        invariant
            k <= name_chars.len(),
            name@ == name_chars@.take(k as int).map_values(|c: char| lower(c)),
        decreases name_chars.len() - k,
    {
        name.push(lower_char(name_chars[k]));
        assert(name_chars@.take(k + 1).map_values(|c: char| lower(c)) =~= name_chars@.take(k as int).map_values(|c: char| lower(c)).push(lower(name_chars@[k as int])));
        k = k + 1;
    }
    assert(name_chars@.take(k as int) =~= name_chars@);
    assert(chars@.subrange(0, colon as int) =~= chars@.take(colon as int));
    let value = trim_chars(&sub_chars(&chars, colon + 1, chars.len()));
    assert(chars@.subrange(colon + 1, chars@.len() as int) =~= chars@.skip(colon + 1));
    let name_text = string_from_chars(&name);
    if str_equals(name_text.as_str(), "content-length") {
        if content_length.is_some() {
            return Err(invalid_input("web request has duplicate content-length headers"));
        }
        let length = match parse_usize_chars(&value) {
            Some(n) => n,
            None => {
                return Err(invalid_input("web request content-length is invalid"));
            },
        };
        if length > MAX_REQUEST_BODY {
            return Err(invalid_input("web request body is too large"));
        }
        return Ok(HeaderLine::ContentLength(length));
    }
    if str_equals(name_text.as_str(), "transfer-encoding") {
        return Err(invalid_input("web request transfer-encoding is unsupported"));
    }
    Ok(HeaderLine::Other)
}

/// The path and query of a request target, split at its first `?`.
pub open spec fn target_parts(target: Seq<char>) -> (Seq<char>, Seq<char>) {
    let i = first_index_of(target, '?');
    if i < 0 {
        (target, Seq::empty())
    } else {
        (target.take(i), target.skip(i + 1))
    }
}

/// Reads a request target: its percent-decoded path and its query pairs.
pub fn parse_target(target: &str) -> (r: Result<(String, Vec<(String, String)>), AppError>)
    ensures
        ({
            let (raw_path, raw_query) = target_parts(target@);
            match decoded_bytes(raw_path) {
                Err(m) => fails_with_input(r, m),
                Ok(b) => match query_error(query_segments(raw_query), 0) {
                    Some(m) => fails_with_input(r, m),
                    None => r matches Ok((path, pairs)) && encode_utf8(path@) == b && decoded_pairs(
                        pairs@,
                        raw_query,
                    ),
                },
            }
        }),
{
    let chars = chars_of(target);
    let mut q: usize = 0;
    while q < chars.len() && chars[q] != '?'
        invariant
            q <= chars.len(),
            forall|j: int| 0 <= j < q ==> chars@[j] != '?',
        decreases chars.len() - q,
    {
        q = q + 1;
    }
    proof {
        lemma_first_index(chars@, '?', q as int);
    }
    let path_chars = sub_chars(&chars, 0, q);
    let query_chars = if q < chars.len() {
        sub_chars(&chars, q + 1, chars.len())
    } else {
        Vec::new()
    };
    proof {
        assert(chars@.subrange(0, q as int) =~= if q < chars.len() { chars@.take(q as int) } else { chars@ });
        if q < chars.len() {
            assert(chars@.subrange(q + 1, chars@.len() as int) =~= chars@.skip(q + 1));
        } else {
            assert(query_chars@ =~= Seq::<char>::empty());
        }
    }
    let path = decode_part(&path_chars)?;
    let raw_query = string_from_chars(&query_chars);
    let pairs = parse_query(raw_query.as_str())?;
    Ok((path, pairs))
}

/// The HTTP status of each error kind.
pub open spec fn status_code_spec(error: AppError) -> u16 {
    match error {
        AppError::InvalidInput(_) | AppError::InvalidBackup(_) | AppError::BackupConfirmationRequired
        | AppError::UnsupportedDatabaseSchemaVersion { .. } => 400,
        AppError::NotFound(_) | AppError::DatabaseNotInitialized => 404,
        AppError::DatabaseBusy(_) => 503,
        AppError::Conflict(_) | AppError::IdempotencyConflict | AppError::InvalidTransition(_)
        | AppError::RevisionConflict { .. } | AppError::ProjectNameConflict
        | AppError::BackupOutputExists | AppError::BackupDestinationInUse => 409,
        AppError::Internal(_) | AppError::DatabaseAlreadyInitialized | AppError::AuditIntegrity {
            ..
        } | AppError::AuditOperation { .. } | AppError::BackupOperation { .. }
        | AppError::SelfUpdateFailed(_) | AppError::SelfUninstallFailed(_) => 500,
    }
}

/// The HTTP status with which the web UI reports an error.
pub fn status_code(error: &AppError) -> (s: u16)
    ensures
        s == status_code_spec(*error),
{
    match error {
        AppError::InvalidInput(_) | AppError::InvalidBackup(_) | AppError::BackupConfirmationRequired
        | AppError::UnsupportedDatabaseSchemaVersion { .. } => 400,
        AppError::NotFound(_) | AppError::DatabaseNotInitialized => 404,
        AppError::DatabaseBusy(_) => 503,
        AppError::Conflict(_) | AppError::IdempotencyConflict | AppError::InvalidTransition(_)
        | AppError::RevisionConflict { .. } | AppError::ProjectNameConflict
        | AppError::BackupOutputExists | AppError::BackupDestinationInUse => 409,
        AppError::Internal(_) | AppError::DatabaseAlreadyInitialized | AppError::AuditIntegrity {
            ..
        } | AppError::AuditOperation { .. } | AppError::BackupOperation { .. }
        | AppError::SelfUpdateFailed(_) | AppError::SelfUninstallFailed(_) => 500,
    }
}

/// The reason phrase of a response status.
pub fn reason_phrase(status: u16) -> (s: &'static str)
    ensures
        s@ == if status == 200 {
            "OK"@
        } else if status == 400 {
            "Bad Request"@
        } else if status == 404 {
            "Not Found"@
        } else if status == 405 {
            "Method Not Allowed"@
        } else if status == 409 {
            "Conflict"@
        } else if status == 500 {
            "Internal Server Error"@
        } else if status == 503 {
            "Service Unavailable"@
        } else {
            "Unknown"@
        },
{
    if status == 200 {
        "OK"
    } else if status == 400 {
        "Bad Request"
    } else if status == 404 {
        "Not Found"
    } else if status == 405 {
        "Method Not Allowed"
    } else if status == 409 {
        "Conflict"
    } else if status == 500 {
        "Internal Server Error"
    } else if status == 503 {
        "Service Unavailable"
    } else {
        "Unknown"
    }
}

/// The head of a response: status line and headers, ended by a blank line.
pub fn response_head(status: u16, content_type: &str, length: usize) -> (s: String)
    ensures
        s@ == "HTTP/1.1 "@ + crate::text::nat_decimal(status as nat) + " "@ + reason_phrase_spec(status)
            + "\r\nContent-Type: "@ + content_type@ + "\r\nContent-Length: "@
            + crate::text::nat_decimal(length as nat)
            + "\r\nCache-Control: no-store\r\nConnection: close\r\n\r\n"@,
{
    let code = crate::text::u64_to_decimal(status as u64);
    let reason = reason_phrase(status);
    let n = crate::text::u64_to_decimal(length as u64);
    let mut s = concat("HTTP/1.1 ", code.as_str());
    push_str(&mut s, " ");
    push_str(&mut s, reason);
    push_str(&mut s, "\r\nContent-Type: ");
    push_str(&mut s, content_type);
    push_str(&mut s, "\r\nContent-Length: ");
    push_str(&mut s, n.as_str());
    push_str(&mut s, "\r\nCache-Control: no-store\r\nConnection: close\r\n\r\n");
    s
}

pub open spec fn reason_phrase_spec(status: u16) -> Seq<char> {
    if status == 200 {
        "OK"@
    } else if status == 400 {
        "Bad Request"@
    } else if status == 404 {
        "Not Found"@
    } else if status == 405 {
        "Method Not Allowed"@
    } else if status == 409 {
        "Conflict"@
    } else if status == 500 {
        "Internal Server Error"@
    } else if status == 503 {
        "Service Unavailable"@
    } else {
        "Unknown"@
    }
}

/// Where a request goes.
#[derive(Clone, Debug)]
pub enum Route {
    ResolveDecision,
    MethodNotAllowed,
    Index,
    Stylesheet,
    StateScript,
    AppScript,
    Status,
    Projects,
    Issues,
    IssueDetail { number: i64, project: String },
    InvalidIssueNumber,
    MissingProject,
    NotFound,
}

/// The route of a request: decision resolution by `POST`, pages and data by
/// `GET`, nothing else.
pub open spec fn route_spec(method: Seq<char>, path: Seq<char>, query: Seq<(String, String)>) -> Route {
    if method == "POST"@ && crate::cli::starts_with(path, "/api/decisions/"@) {
        Route::ResolveDecision
    } else if method != "GET"@ {
        Route::MethodNotAllowed
    } else if path == "/"@ {
        Route::Index
    } else if path == "/app.css"@ {
        Route::Stylesheet
    } else if path == "/state.js"@ {
        Route::StateScript
    } else if path == "/app.js"@ {
        Route::AppScript
    } else if path == "/api/status"@ {
        Route::Status
    } else if path == "/api/projects"@ {
        Route::Projects
    } else if path == "/api/issues"@ {
        Route::Issues
    } else if crate::cli::starts_with(path, "/api/issues/"@) {
        match parse_i64_spec(path.skip(12)) {
            None => Route::InvalidIssueNumber,
            Some(n) => match query_lookup(query, "project"@) {
                None => Route::MissingProject,
                Some(p) => Route::IssueDetail { number: n as i64, project: p },
            },
        }
    } else {
        Route::NotFound
    }
}

#[verifier::loop_isolation(false)]
fn has_prefix_text(s: &str, prefix: &str) -> (b: bool)
    ensures
        b == crate::cli::starts_with(s@, prefix@),
{
    let chars = chars_of(s);
    let p = chars_of(prefix);
    if p.len() > chars.len() {
        return false;
    }
    let mut i: usize = 0;
    while i < p.len()
        invariant
            p.len() <= chars.len(),
            i <= p.len(),
            forall|j: int| 0 <= j < i ==> chars@[j] == p@[j],
        decreases p.len() - i,
    {
        if chars[i] != p[i] {
            assert(chars@.take(p@.len() as int)[i as int] != p@[i as int]);
            return false;
        }
        i = i + 1;
    }
    assert(chars@.take(p@.len() as int) =~= p@);
    true
}

fn text_after(s: &str, n: usize) -> (r: String)
    requires
        n <= s@.len(),
    ensures
        r@ == s@.skip(n as int),
{
    let chars = chars_of(s);
    let rest = sub_chars(&chars, n, chars.len());
    assert(chars@.subrange(n as int, chars@.len() as int) =~= chars@.skip(n as int));
    string_from_chars(&rest)
}

/// Chooses the route of a request.
pub fn route(method: &str, path: &str, query: &Vec<(String, String)>) -> (r: Route)
    ensures
        match (r, route_spec(method@, path@, query@)) {
            (Route::IssueDetail { number, project }, Route::IssueDetail { number: n, project: p }) => number == n && project == p,
            (Route::ResolveDecision, Route::ResolveDecision) => true,
            (Route::MethodNotAllowed, Route::MethodNotAllowed) => true,
            (Route::Index, Route::Index) => true,
            (Route::Stylesheet, Route::Stylesheet) => true,
            (Route::StateScript, Route::StateScript) => true,
            (Route::AppScript, Route::AppScript) => true,
            (Route::Status, Route::Status) => true,
            (Route::Projects, Route::Projects) => true,
            (Route::Issues, Route::Issues) => true,
            (Route::InvalidIssueNumber, Route::InvalidIssueNumber) => true,
            (Route::MissingProject, Route::MissingProject) => true,
            (Route::NotFound, Route::NotFound) => true,
            _ => false,
        },
{
    if str_equals(method, "POST") && has_prefix_text(path, "/api/decisions/") {
        return Route::ResolveDecision;
    }
    if !str_equals(method, "GET") {
        return Route::MethodNotAllowed;
    }
    if str_equals(path, "/") {
        Route::Index
    } else if str_equals(path, "/app.css") {
        Route::Stylesheet
    } else if str_equals(path, "/state.js") {
        Route::StateScript
    } else if str_equals(path, "/app.js") {
        Route::AppScript
    } else if str_equals(path, "/api/status") {
        Route::Status
    } else if str_equals(path, "/api/projects") {
        Route::Projects
    } else if str_equals(path, "/api/issues") {
        Route::Issues
    } else if has_prefix_text(path, "/api/issues/") {
        proof {
            reveal_strlit("/api/issues/");
            assert("/api/issues/"@.len() == 12);
        }
        let rest = text_after(path, 12);
        match parse_i64(rest.as_str()) {
            None => Route::InvalidIssueNumber,
            Some(n) => match query_value(query, "project") {
                None => Route::MissingProject,
                Some(p) => Route::IssueDetail { number: n, project: p.clone() },
            },
        }
    } else {
        Route::NotFound
    }
}

/// The status and error of a route that answers with an error.
pub fn route_error(route: &Route) -> (r: Option<(u16, AppError)>)
    ensures
        match *route {
            Route::MethodNotAllowed => r matches Some((405, AppError::InvalidInput(m))) && m@
                == "web UI only supports GET and decision resolution POST"@,
            Route::InvalidIssueNumber => r matches Some((400, AppError::InvalidInput(m))) && m@
                == "issue number must be a positive integer"@,
            Route::MissingProject => r matches Some((400, AppError::InvalidInput(m))) && m@
                == "issue detail requires a project query parameter"@,
            Route::NotFound => r matches Some((404, AppError::NotFound(m))) && m@
                == "web route not found"@,
            _ => r is None,
        },
{
    match route {
        Route::MethodNotAllowed => Some(
            (405, invalid_input("web UI only supports GET and decision resolution POST")),
        ),
        Route::InvalidIssueNumber => Some(
            (400, invalid_input("issue number must be a positive integer")),
        ),
        Route::MissingProject => Some(
            (400, invalid_input("issue detail requires a project query parameter")),
        ),
        Route::NotFound => Some((404, not_found("web route not found"))),
        _ => None,
    }
}

/// The request id of `/api/decisions/{id}/resolve`: a non-empty segment
/// without `/`.
pub open spec fn decision_route_id_spec(path: Seq<char>) -> Option<Seq<char>> {
    let prefix = "/api/decisions/"@;
    let suffix = "/resolve"@;
    if crate::cli::starts_with(path, prefix) && path.len() >= prefix.len() + suffix.len()
        && path.skip(path.len() - suffix.len()) == suffix {
        let id = path.subrange(prefix.len() as int, path.len() - suffix.len());
        if id.len() > 0 && !id.contains('/') {
            Some(id)
        } else {
            None
        }
    } else {
        None
    }
}

/// Reads the request id from a decision resolution path.
#[verifier::loop_isolation(false)]
pub fn decision_route_id(path: &str) -> (r: Option<String>)
    ensures
        match r {
            Some(id) => decision_route_id_spec(path@) == Some(id@),
            None => decision_route_id_spec(path@) is None,
        },
{
    proof {
        reveal_strlit("/api/decisions/");
        reveal_strlit("/resolve");
        assert("/api/decisions/"@.len() == 15);
        assert("/resolve"@.len() == 8);
    }
    if !has_prefix_text(path, "/api/decisions/") {
        return None;
    }
    let chars = chars_of(path);
    if chars.len() < 23 {
        return None;
    }
    let tail = sub_chars(&chars, chars.len() - 8, chars.len());
    let tail_text = string_from_chars(&tail);
    assert(chars@.subrange(chars@.len() - 8, chars@.len() as int) =~= chars@.skip(chars@.len() - 8));
    if !str_equals(tail_text.as_str(), "/resolve") {
        return None;
    }
    let id = sub_chars(&chars, 15, chars.len() - 8);
    if id.len() == 0 {
        return None;
    }
    let mut i: usize = 0;
    while i < id.len()
        invariant
            i <= id.len(),
            forall|j: int| 0 <= j < i ==> id@[j] != '/',
        decreases id.len() - i,
    {
        if id[i] == '/' {
            assert(id@.contains('/')) by {
                assert(id@[i as int] == '/');
            }
            return None;
        }
        i = i + 1;
    }
    Some(string_from_chars(&id))
}

/// A decision resolved from the web UI moves the Issue out of `blocked`, never
/// into `in_progress`: that needs a lease.
pub fn check_web_next_state(next_state: IssueState) -> (r: Result<(), AppError>)
    ensures
        next_state == IssueState::InProgress ==> fails_with_input(
            r,
            "decision resolution next_state must be todo, blocked, done, or cancelled"@,
        ),
        next_state != IssueState::InProgress ==> r is Ok,
{
    if next_state == IssueState::InProgress {
        return Err(
            invalid_input("decision resolution next_state must be todo, blocked, done, or cancelled"),
        );
    }
    Ok(())
}

/// The listing filter of `/api/issues`: the `project`, the text `query`, and
/// finished Issues when `include_done` is `1`, `true` or `yes`.
pub fn issue_filter(query: &Vec<(String, String)>) -> (f: IssueFilter)
    ensures
        f.projects@.len() == match query_lookup(query@, "project"@) {
            Some(_) => 1int,
            None => 0int,
        },
        query_lookup(query@, "project"@) matches Some(p) ==> f.projects@[0] == p,
        f.states@.len() == 0,
        f.priorities@.len() == 0,
        f.assignee is None,
        f.updated_after is None,
        f.query == query_lookup(query@, "query"@),
        f.include_done == match query_lookup(query@, "include_done"@) {
            Some(v) => v@ == "1"@ || v@ == "true"@ || v@ == "yes"@,
            None => false,
        },
{
    let mut projects: Vec<String> = Vec::new();
    if let Some(p) = query_value(query, "project") {
        projects.push(p.clone());
    }
    let include_done = match query_value(query, "include_done") {
        Some(v) => str_equals(v.as_str(), "1") || str_equals(v.as_str(), "true") || str_equals(
            v.as_str(),
            "yes",
        ),
        None => false,
    };
    let text = match query_value(query, "query") {
        Some(q) => Some(q.clone()),
        None => None,
    };
    IssueFilter {
        projects,
        states: Vec::new(),
        priorities: Vec::new(),
        assignee: None,
        updated_after: None,
        query: text,
        include_done,
    }
}

/// Why a blocked Issue waits, as the web UI shows it.
#[derive(Clone, Debug)]
pub struct WebWait {
    pub kind: Option<WaitKind>,
    pub label: String,
    pub reason: String,
}

pub open spec fn wait_kind_label_spec(kind: WaitKind) -> Seq<char> {
    match kind {
        WaitKind::Human => "Human decision"@,
        WaitKind::Dependency => "Blocking dependency"@,
        WaitKind::External => "External system"@,
    }
}

pub fn wait_kind_label(kind: WaitKind) -> (s: &'static str)
    ensures
        s@ == wait_kind_label_spec(kind),
{
    match kind {
        WaitKind::Human => "Human decision",
        WaitKind::Dependency => "Blocking dependency",
        WaitKind::External => "External system",
    }
}

/// A decision request is open.
pub open spec fn is_open(request: DecisionRequest) -> bool {
    request.status@ == "open"@
}

/// The questions of the open decision requests, in order.
pub fn open_questions(decisions: &Vec<DecisionRequest>) -> (q: Vec<String>)
    ensures
        q@.map_values(|s: String| s@) == decisions@.filter(|d: DecisionRequest| is_open(d)).map_values(
            |d: DecisionRequest| d.question@,
        ),
{
    let mut q: Vec<String> = Vec::new();
    let mut i: usize = 0;
    while i < decisions.len()
        invariant
            i <= decisions.len(),
            q@.map_values(|s: String| s@) == decisions@.take(i as int).filter(
                |d: DecisionRequest| is_open(d),
            ).map_values(|d: DecisionRequest| d.question@),
        decreases decisions.len() - i,
    {
        let d = &decisions[i];
        proof {
            let t = decisions@.take(i + 1);
            assert(t.drop_last() =~= decisions@.take(i as int));
            assert(t.last() == decisions@[i as int]);
            reveal(Seq::filter);
        }
        let ghost before = q@.map_values(|s: String| s@);
        if str_equals(d.status.as_str(), "open") {
            q.push(d.question.clone());
            assert(q@.map_values(|s: String| s@) =~= before.push(d.question@));
        }
        i = i + 1;
    }
    assert(decisions@.take(i as int) =~= decisions@);
    q
}

/// What the latest `issue_blocked` event of a blocked Issue recorded: the
/// wait kind, if it names a known one, and the reason, if it is a text.
#[derive(Clone, Debug)]
pub struct BlockedEvent {
    pub wait_kind: Option<WaitKind>,
    pub reason: Option<String>,
}

/// What the web UI shows as an Issue's wait: a human decision first; for a
/// blocked Issue, what its latest block recorded, else a blocking
/// dependency, else that nothing was recorded.
pub open spec fn wait_spec(
    has_open_decision: bool,
    state: IssueState,
    blocked_event: Option<BlockedEvent>,
    blocked_by_dependency: bool,
) -> Option<(Option<WaitKind>, Seq<char>, Seq<char>)> {
    if has_open_decision {
        Some((Some(WaitKind::Human), "Human decision"@, "A human decision is required"@))
    } else if state != IssueState::Blocked {
        None
    } else {
        match blocked_event {
            Some(e) => Some(
                (
                    e.wait_kind,
                    match e.wait_kind {
                        Some(k) => wait_kind_label_spec(k),
                        None => "Waiting reason"@,
                    },
                    match e.reason {
                        Some(r) => if is_blank(r@) {
                            "Waiting details are not recorded"@
                        } else {
                            r@
                        },
                        None => "Waiting details are not recorded"@,
                    },
                ),
            ),
            None => if blocked_by_dependency {
                Some(
                    (
                        Some(WaitKind::Dependency),
                        "Blocking dependency"@,
                        "Waiting for a blocking dependency"@,
                    ),
                )
            } else {
                Some((None, "Waiting reason"@, "Waiting details are not recorded"@))
            },
        }
    }
}

/// The wait of an Issue, from what the program read of it.
pub fn wait_context(
    has_open_decision: bool,
    state: IssueState,
    blocked_event: Option<BlockedEvent>,
    blocked_by_dependency: bool,
) -> (w: Option<WebWait>)
    ensures
        match wait_spec(has_open_decision, state, blocked_event, blocked_by_dependency) {
            Some((kind, label, reason)) => w matches Some(x) && x.kind == kind && x.label@ == label
                && x.reason@ == reason,
            None => w is None,
        },
{
    if has_open_decision {
        return Some(
            WebWait {
                kind: Some(WaitKind::Human),
                label: wait_kind_label(WaitKind::Human).to_owned(),
                reason: "A human decision is required".to_owned(),
            },
        );
    }
    if state != IssueState::Blocked {
        return None;
    }
    match blocked_event {
        Some(e) => {
            let label = match e.wait_kind {
                Some(k) => wait_kind_label(k).to_owned(),
                None => "Waiting reason".to_owned(),
            };
            let reason = match e.reason {
                Some(r) => if is_blank_str(r.as_str()) {
                    "Waiting details are not recorded".to_owned()
                } else {
                    r
                },
                None => "Waiting details are not recorded".to_owned(),
            };
            Some(WebWait { kind: e.wait_kind, label, reason })
        },
        None => if blocked_by_dependency {
            Some(
                WebWait {
                    kind: Some(WaitKind::Dependency),
                    label: wait_kind_label(WaitKind::Dependency).to_owned(),
                    reason: "Waiting for a blocking dependency".to_owned(),
                },
            )
        } else {
            Some(
                WebWait {
                    kind: None,
                    label: "Waiting reason".to_owned(),
                    reason: "Waiting details are not recorded".to_owned(),
                },
            )
        },
    }
}

} // verus!
