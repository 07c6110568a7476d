//! The JSON body of the gateway's `401` answer.
use vstd::prelude::*;
use vstd::string::*;

use crate::text::chars_of;

verus! {

broadcast use vstd::string::group_string_axioms;

/// The lower-case hexadecimal digit for `d < 16`.
pub open spec fn hex_char(d: nat) -> char {
    if d == 0 {
        '0'
    } else if d == 1 {
        '1'
    } else if d == 2 {
        '2'
    } else if d == 3 {
        '3'
    } else if d == 4 {
        '4'
    } else if d == 5 {
        '5'
    } else if d == 6 {
        '6'
    } else if d == 7 {
        '7'
    } else if d == 8 {
        '8'
    } else if d == 9 {
        '9'
    } else if d == 10 {
        'a'
    } else if d == 11 {
        'b'
    } else if d == 12 {
        'c'
    } else if d == 13 {
        'd'
    } else if d == 14 {
        'e'
    } else {
        'f'
    }
}

/// The characters that a JSON string cannot hold as they are: the quote, the
/// backslash and the control characters U+0000 to U+001F.
pub open spec fn needs_escape(c: char) -> bool {
    c == '"' || c == '\\' || (c as u32) < 0x20
}

/// How `c` is written inside a JSON string: `\"`, `\\`, the short escapes
/// `\b`, `\t`, `\n`, `\f`, `\r`, `\u00XX` for the other control characters,
/// and every other character as it is.
pub open spec fn escape_char(c: char) -> Seq<char> {
    let n = c as u32;
    if c == '"' {
        seq!['\\', '"']
    } else if c == '\\' {
        seq!['\\', '\\']
    } else if n == 8 {
        seq!['\\', 'b']
    } else if n == 9 {
        seq!['\\', 't']
    } else if n == 10 {
        seq!['\\', 'n']
    } else if n == 12 {
        seq!['\\', 'f']
    } else if n == 13 {
        seq!['\\', 'r']
    } else if n < 0x20 {
        seq!['\\', 'u', '0', '0', hex_char((n / 16) as nat), hex_char((n % 16) as nat)]
    } else {
        seq![c]
    }
}

/// `s` written as the contents of a JSON string, each character escaped as
/// `escape_char` says.
pub open spec fn json_escape(s: Seq<char>) -> Seq<char>
    decreases s.len(),
{
    if s.len() == 0 {
        Seq::empty()
    } else {
        json_escape(s.drop_last()) + escape_char(s.last())
    }
}

/// The body answered to a request refused for a missing or wrong API key: a
/// JSON object whose string values are the route, the request id and the
/// trace id, each escaped by JSON's string rules.
pub open spec fn unauthorized_body(route: Seq<char>, request_id: Seq<char>, trace_id: Seq<char>) -> Seq<
    char,
> {
    "{\"error\":{\"code\":\"unauthorized\",\"message\":\"missing or invalid API key\",\"route\":\""@
        + json_escape(route) + "\",\"request_id\":\""@ + json_escape(request_id)
        + "\",\"trace_id\":\""@ + json_escape(trace_id) + "\"}}"@
}

proof fn lemma_json_escape_step(s: Seq<char>, i: int)
    requires
        0 <= i < s.len(),
    ensures
        json_escape(s.take(i + 1)) == json_escape(s.take(i)) + escape_char(s[i]),
{
    assert(s.take(i + 1).drop_last() =~= s.take(i));
}

/// The one-character string of the hexadecimal digit `d`.
fn hex_str(d: u32) -> (s: &'static str)
    requires
        d < 16,
    ensures
        s@ == seq![hex_char(d as nat)],
{
    proof {
        reveal_strlit("0");
        reveal_strlit("1");
        reveal_strlit("2");
        reveal_strlit("3");
        reveal_strlit("4");
        reveal_strlit("5");
        reveal_strlit("6");
        reveal_strlit("7");
        reveal_strlit("8");
        reveal_strlit("9");
        reveal_strlit("a");
        reveal_strlit("b");
        reveal_strlit("c");
        reveal_strlit("d");
        reveal_strlit("e");
        reveal_strlit("f");
    }
    match d {
        0 => "0",
        1 => "1",
        2 => "2",
        3 => "3",
        4 => "4",
        5 => "5",
        6 => "6",
        7 => "7",
        8 => "8",
        9 => "9",
        10 => "a",
        11 => "b",
        12 => "c",
        13 => "d",
        14 => "e",
        _ => "f",
    }
}

/// Appends the escaped form of a character that needs escaping.
fn append_escape(out: &mut String, c: char)
    requires
        needs_escape(c),
    ensures
        final(out)@ == old(out)@ + escape_char(c),
{
    proof {
        reveal_strlit("\\\"");
        reveal_strlit("\\\\");
        reveal_strlit("\\b");
        reveal_strlit("\\t");
        reveal_strlit("\\n");
        reveal_strlit("\\f");
        reveal_strlit("\\r");
        reveal_strlit("\\u00");
    }
    let n = c as u32;
    if c == '"' {
        out.append("\\\"");
    } else if c == '\\' {
        out.append("\\\\");
    } else if n == 8 {
        out.append("\\b");
    } else if n == 9 {
        out.append("\\t");
    } else if n == 10 {
        out.append("\\n");
    } else if n == 12 {
        out.append("\\f");
    } else if n == 13 {
        out.append("\\r");
    } else {
        out.append("\\u00");
        out.append(hex_str(n / 16));
        out.append(hex_str(n % 16));
        assert(final(out)@ =~= old(out)@ + escape_char(c));
    }
}

/// Appends `s`, escaped as the contents of a JSON string.
pub fn append_json_escaped(out: &mut String, s: &str)
    ensures
        final(out)@ == old(out)@ + json_escape(s@),
{
    let ghost init = out@;
    let chars = chars_of(s);
    let n = chars.len();
    let mut start: usize = 0;
    let mut i: usize = 0;
    proof {
        assert(chars@.take(0) =~= Seq::<char>::empty());
        assert(out@ + chars@.subrange(0, 0) =~= init + json_escape(chars@.take(0)));
    }
    while i < n
        invariant
            chars@ == s@,
            n == chars@.len(),
            start <= i <= n,
            out@ + chars@.subrange(start as int, i as int) == init + json_escape(
                chars@.take(i as int),
            ),
        decreases n - i,
    {
        let c = chars[i];
        proof {
            lemma_json_escape_step(chars@, i as int);
        }
        let n_c = c as u32;
        if c == '"' || c == '\\' || n_c < 0x20 {
            let run = s.substring_char(start, i);
            let ghost before = out@;
            out.append(run);
            append_escape(out, c);
            proof {
                assert(out@ =~= before + chars@.subrange(start as int, i as int) + escape_char(
                    c,
                ));
                assert(chars@.subrange(i + 1, i + 1) =~= Seq::<char>::empty());
                assert(out@ + chars@.subrange(i + 1, i + 1) =~= out@);
            }
            start = i + 1;
        } else {
            proof {
                assert(escape_char(c) =~= seq![c]);
                assert(chars@.subrange(start as int, i + 1) =~= chars@.subrange(
                    start as int,
                    i as int,
                ).push(c));
                assert(out@ + chars@.subrange(start as int, i + 1) =~= (out@ + chars@.subrange(
                    start as int,
                    i as int,
                )) + escape_char(c));
            }
        }
        i = i + 1;
    }
    let run = s.substring_char(start, n);
    out.append(run);
    proof {
        assert(chars@.take(n as int) =~= s@);
    }
}

/// Renders the `401` body for `route`, `request_id` and `trace_id`.
pub fn unauthorized(route: &str, request_id: &str, trace_id: &str) -> (body: String)
    ensures
        body@ == unauthorized_body(route@, request_id@, trace_id@),
{
    let mut body =
        "{\"error\":{\"code\":\"unauthorized\",\"message\":\"missing or invalid API key\",\"route\":\"".to_string();
    append_json_escaped(&mut body, route);
    body.append("\",\"request_id\":\"");
    append_json_escaped(&mut body, request_id);
    body.append("\",\"trace_id\":\"");
    append_json_escaped(&mut body, trace_id);
    body.append("\"}}");
    body
}

/// The escaped form of a string holds no bare quote: every `"` in it is
/// preceded by a backslash, so a value cannot end its JSON string early.
pub proof fn law_escaped_quotes_are_escaped(s: Seq<char>)
    ensures
        forall|k: int|
            0 <= k < json_escape(s).len() && #[trigger] json_escape(s)[k] == '"' ==> k > 0
                && json_escape(s)[k - 1] == '\\',
    decreases s.len(),
{
    if s.len() > 0 {
        let p = s.drop_last();
        law_escaped_quotes_are_escaped(p);
        let e = escape_char(s.last());
        let jp = json_escape(p);
        let js = json_escape(s);
        assert(js == jp + e);
        assert forall|k: int| 0 <= k < js.len() && #[trigger] js[k] == '"' implies k > 0 && js[k
            - 1] == '\\' by {
            if k < jp.len() {
                assert(js[k] == jp[k]);
                assert(js[k - 1] == jp[k - 1]);
            } else {
                let m = k - jp.len();
                assert(js[k] == e[m]);
                let n = s.last() as u32;
                if m > 0 {
                    assert(js[k - 1] == e[m - 1]);
                }
                // In every escape only the second character can be a quote,
                // and the first is always a backslash; a plain character is
                // never a quote.
                assert(m == 1 && e[0] == '\\') by {
                    if s.last() == '"' {
                    } else if s.last() == '\\' {
                    } else if n < 0x20 {
                        assert(hex_char(((n / 16) as nat)) != '"');
                        assert(hex_char(((n % 16) as nat)) != '"');
                    } else {
                        assert(e[0] == s.last());
                    }
                }
            }
        }
    }
}

proof fn lemma_json_escape_concat(a: Seq<char>, b: Seq<char>)
    ensures
        json_escape(a + b) == json_escape(a) + json_escape(b),
    decreases b.len(),
{
    if b.len() == 0 {
        assert(a + b =~= a);
        assert(json_escape(a) + json_escape(b) =~= json_escape(a));
    } else {
        lemma_json_escape_concat(a, b.drop_last());
        assert((a + b).drop_last() =~= a + b.drop_last());
        assert((a + b).last() == b.last());
        assert(json_escape(a + b) =~= json_escape(a) + json_escape(b));
    }
}

proof fn lemma_json_escape_front(s: Seq<char>)
    requires
        s.len() > 0,
    ensures
        json_escape(s) == escape_char(s[0]) + json_escape(s.drop_first()),
{
    let one = seq![s[0]];
    assert(one.drop_last() =~= Seq::<char>::empty());
    assert(one.last() == s[0]);
    assert(json_escape(Seq::<char>::empty()) == Seq::<char>::empty());
    assert(json_escape(one) == json_escape(one.drop_last()) + escape_char(one.last()));
    assert(json_escape(one) =~= escape_char(s[0]));
    assert(one + s.drop_first() =~= s);
    lemma_json_escape_concat(one, s.drop_first());
}

proof fn lemma_json_escape_len(s: Seq<char>)
    ensures
        json_escape(s).len() >= s.len(),
    decreases s.len(),
{
    if s.len() > 0 {
        lemma_json_escape_len(s.drop_last());
    }
}

proof fn lemma_hex_char_injective(a: nat, b: nat)
    requires
        a < 16,
        b < 16,
        hex_char(a) == hex_char(b),
    ensures
        a == b,
{
}

/// No escaped character is the beginning of another's escape.
proof fn lemma_escape_char_prefix(c1: char, c2: char, x: Seq<char>, y: Seq<char>)
    requires
        escape_char(c1) + x == escape_char(c2) + y,
    ensures
        c1 == c2,
{
    let e1 = escape_char(c1);
    let e2 = escape_char(c2);
    let s = e1 + x;
    assert(s[0] == e1[0]);
    assert(s[0] == (e2 + y)[0]);
    assert((e2 + y)[0] == e2[0]);
    if needs_escape(c1) && needs_escape(c2) {
        assert(s[1] == e1[1]);
        assert((e2 + y)[1] == e2[1]);
        let n1 = c1 as u32;
        let n2 = c2 as u32;
        if e1.len() == 6 && e2.len() == 6 {
            assert(s[4] == e1[4]);
            assert((e2 + y)[4] == e2[4]);
            assert(s[5] == e1[5]);
            assert((e2 + y)[5] == e2[5]);
            lemma_hex_char_injective((n1 / 16) as nat, (n2 / 16) as nat);
            lemma_hex_char_injective((n1 % 16) as nat, (n2 % 16) as nat);
            assert(n1 == n2);
        }
    }
}

/// Escaping loses nothing: different strings have different escaped forms.
pub proof fn law_json_escape_injective(a: Seq<char>, b: Seq<char>)
    requires
        json_escape(a) == json_escape(b),
    ensures
        a == b,
    decreases a.len(),
{
    lemma_json_escape_len(a);
    lemma_json_escape_len(b);
    if a.len() == 0 {
        if b.len() > 0 {
            lemma_json_escape_front(b);
        }
        assert(a =~= b);
    } else if b.len() == 0 {
        lemma_json_escape_front(a);
    } else {
        lemma_json_escape_front(a);
        lemma_json_escape_front(b);
        lemma_escape_char_prefix(a[0], b[0], json_escape(a.drop_first()), json_escape(b.drop_first()));
        let e = escape_char(a[0]);
        assert(json_escape(a.drop_first()) =~= json_escape(a).skip(e.len() as int));
        assert(json_escape(b.drop_first()) =~= json_escape(b).skip(e.len() as int));
        law_json_escape_injective(a.drop_first(), b.drop_first());
        assert(a =~= seq![a[0]] + a.drop_first());
        assert(b =~= seq![b[0]] + b.drop_first());
    }
}

/// A string with no character that needs escaping is written as it is.
pub proof fn law_json_escape_plain(s: Seq<char>)
    requires
        forall|i: int| 0 <= i < s.len() ==> !needs_escape(#[trigger] s[i]),
    ensures
        json_escape(s) == s,
    decreases s.len(),
{
    if s.len() > 0 {
        let p = s.drop_last();
        assert forall|i: int| 0 <= i < p.len() implies !needs_escape(#[trigger] p[i]) by {
            assert(p[i] == s[i]);
        }
        law_json_escape_plain(p);
        assert(!needs_escape(s.last()));
        assert(escape_char(s.last()) =~= seq![s.last()]);
        assert(json_escape(s) =~= s);
    }
}

/// The fixed text before the route in the body.
spec fn body_head() -> Seq<char> {
    "{\"error\":{\"code\":\"unauthorized\",\"message\":\"missing or invalid API key\",\"route\":\""@
}

proof fn lemma_middle_cancel(pre: Seq<char>, x: Seq<char>, y: Seq<char>, post: Seq<char>)
    requires
        pre + x + post == pre + y + post,
    ensures
        x == y,
{
    let b1 = pre + x + post;
    let b2 = pre + y + post;
    assert(x =~= b1.subrange(pre.len() as int, b1.len() - post.len()));
    assert(y =~= b2.subrange(pre.len() as int, b2.len() - post.len()));
}

proof fn lemma_body_request_id_injective(r: Seq<char>, q: Seq<char>, t: Seq<char>, q2: Seq<char>)
    requires
        unauthorized_body(r, q, t) == unauthorized_body(r, q2, t),
    ensures
        q == q2,
{
    let pre = body_head() + json_escape(r) + "\",\"request_id\":\""@;
    let post = "\",\"trace_id\":\""@ + json_escape(t) + "\"}}"@;
    assert(unauthorized_body(r, q, t) =~= pre + json_escape(q) + post);
    assert(unauthorized_body(r, q2, t) =~= pre + json_escape(q2) + post);
    lemma_middle_cancel(pre, json_escape(q), json_escape(q2), post);
    law_json_escape_injective(q, q2);
}

proof fn lemma_body_route_injective(r: Seq<char>, q: Seq<char>, t: Seq<char>, r2: Seq<char>)
    requires
        unauthorized_body(r, q, t) == unauthorized_body(r2, q, t),
    ensures
        r == r2,
{
    let pre = body_head();
    let post = "\",\"request_id\":\""@ + json_escape(q) + "\",\"trace_id\":\""@ + json_escape(t)
        + "\"}}"@;
    assert(unauthorized_body(r, q, t) =~= pre + json_escape(r) + post);
    assert(unauthorized_body(r2, q, t) =~= pre + json_escape(r2) + post);
    lemma_middle_cancel(pre, json_escape(r), json_escape(r2), post);
    law_json_escape_injective(r, r2);
}

proof fn lemma_body_trace_id_injective(r: Seq<char>, q: Seq<char>, t: Seq<char>, t2: Seq<char>)
    requires
        unauthorized_body(r, q, t) == unauthorized_body(r, q, t2),
    ensures
        t == t2,
{
    let pre = body_head() + json_escape(r) + "\",\"request_id\":\""@ + json_escape(q)
        + "\",\"trace_id\":\""@;
    let post = "\"}}"@;
    assert(unauthorized_body(r, q, t) =~= pre + json_escape(t) + post);
    assert(unauthorized_body(r, q, t2) =~= pre + json_escape(t2) + post);
    lemma_middle_cancel(pre, json_escape(t), json_escape(t2), post);
    law_json_escape_injective(t, t2);
}

/// Values with nothing to escape appear in the body exactly as given.
pub proof fn law_body_plain_values(r: Seq<char>, q: Seq<char>, t: Seq<char>)
    requires
        forall|i: int| 0 <= i < r.len() ==> !needs_escape(#[trigger] r[i]),
        forall|i: int| 0 <= i < q.len() ==> !needs_escape(#[trigger] q[i]),
        forall|i: int| 0 <= i < t.len() ==> !needs_escape(#[trigger] t[i]),
    ensures
        unauthorized_body(r, q, t)
            == "{\"error\":{\"code\":\"unauthorized\",\"message\":\"missing or invalid API key\",\"route\":\""@
            + r + "\",\"request_id\":\""@ + q + "\",\"trace_id\":\""@ + t + "\"}}"@,
{
    law_json_escape_plain(r);
    law_json_escape_plain(q);
    law_json_escape_plain(t);
}

/// The body carries each of the three values in full: two bodies that differ
/// in one value only are different, so no value is cut or replaced.
pub proof fn law_body_holds_values_whole(
    r: Seq<char>,
    q: Seq<char>,
    t: Seq<char>,
    r2: Seq<char>,
    q2: Seq<char>,
    t2: Seq<char>,
)
    ensures
        unauthorized_body(r, q, t) == unauthorized_body(r, q2, t) ==> q == q2,
        unauthorized_body(r, q, t) == unauthorized_body(r2, q, t) ==> r == r2,
        unauthorized_body(r, q, t) == unauthorized_body(r, q, t2) ==> t == t2,
{
    if unauthorized_body(r, q, t) == unauthorized_body(r, q2, t) {
        lemma_body_request_id_injective(r, q, t, q2);
    }
    if unauthorized_body(r, q, t) == unauthorized_body(r2, q, t) {
        lemma_body_route_injective(r, q, t, r2);
    }
    if unauthorized_body(r, q, t) == unauthorized_body(r, q, t2) {
        lemma_body_trace_id_injective(r, q, t, t2);
    }
}

} // verus!
