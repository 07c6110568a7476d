//! Gateway policy configuration and the `key = value` policy file format.
use vstd::prelude::*;
use vstd::string::*;

use crate::text::{
    chars_of, find_char, first_index, lemma_first_index_bounds, segment_is, str_eq, trim,
    trim_range,
};

verus! {

broadcast use vstd::string::group_string_axioms;

/// What a route demands of a request.
pub struct RoutePolicy {
    pub api_key_required: bool,
    pub api_key: String,
    pub policy_profile: String,
}

/// The gateway's policy: organisation name, metadata header names and the
/// policy of each known route.
pub struct Config {
    pub org_name: String,
    pub request_id_header: String,
    pub trace_id_header: String,
    pub auth_header: String,
    pub users: RoutePolicy,
    pub orders: RoutePolicy,
}

pub struct RoutePolicyView {
    pub api_key_required: bool,
    pub api_key: Seq<char>,
    pub policy_profile: Seq<char>,
}

pub struct ConfigView {
    pub org_name: Seq<char>,
    pub request_id_header: Seq<char>,
    pub trace_id_header: Seq<char>,
    pub auth_header: Seq<char>,
    pub users: RoutePolicyView,
    pub orders: RoutePolicyView,
}

impl View for RoutePolicy {
    type V = RoutePolicyView;

    open spec fn view(&self) -> RoutePolicyView {
        RoutePolicyView {
            api_key_required: self.api_key_required,
            api_key: self.api_key@,
            policy_profile: self.policy_profile@,
        }
    }
}

impl View for Config {
    type V = ConfigView;

    open spec fn view(&self) -> ConfigView {
        ConfigView {
            org_name: self.org_name@,
            request_id_header: self.request_id_header@,
            trace_id_header: self.trace_id_header@,
            auth_header: self.auth_header@,
            users: self.users@,
            orders: self.orders@,
        }
    }
}

impl Clone for RoutePolicy {
    fn clone(&self) -> (r: Self)
        ensures
            r@ == self@,
    {
        RoutePolicy {
            api_key_required: self.api_key_required,
            api_key: self.api_key.clone(),
            policy_profile: self.policy_profile.clone(),
        }
    }
}

impl Clone for Config {
    fn clone(&self) -> (r: Self)
        ensures
            r@ == self@,
    {
        Config {
            org_name: self.org_name.clone(),
            request_id_header: self.request_id_header.clone(),
            trace_id_header: self.trace_id_header.clone(),
            auth_header: self.auth_header.clone(),
            users: self.users.clone(),
            orders: self.orders.clone(),
        }
    }
}

/// The built-in policy, in force for every key that the policy file leaves unset.
pub open spec fn default_config() -> ConfigView {
    ConfigView {
        org_name: "acme-gateway"@,
        request_id_header: "x-request-id"@,
        trace_id_header: "x-trace-id"@,
        auth_header: "x-api-key"@,
        users: RoutePolicyView {
            api_key_required: true,
            api_key: "users-secret"@,
            policy_profile: "protected"@,
        },
        orders: RoutePolicyView {
            api_key_required: false,
            api_key: "orders-demo"@,
            policy_profile: "public"@,
        },
    }
}

impl Default for Config {
    fn default() -> (c: Self)
        ensures
            c@ == default_config(),
    {
        Config {
            org_name: "acme-gateway".to_string(),
            request_id_header: "x-request-id".to_string(),
            trace_id_header: "x-trace-id".to_string(),
            auth_header: "x-api-key".to_string(),
            users: RoutePolicy {
                api_key_required: true,
                api_key: "users-secret".to_string(),
                policy_profile: "protected".to_string(),
            },
            orders: RoutePolicy {
                api_key_required: false,
                api_key: "orders-demo".to_string(),
                policy_profile: "public".to_string(),
            },
        }
    }
}

/// The words that the policy file reads as `true`; every other word is `false`.
pub open spec fn is_true_word(value: Seq<char>) -> bool {
    ||| value == "1"@
    ||| value == "true"@
    ||| value == "yes"@
    ||| value == "on"@
}

/// Reads a policy file's boolean value.
pub fn parse_bool(value: &str) -> (b: bool)
    ensures
        b == is_true_word(value@),
{
    str_eq(value, "1") || str_eq(value, "true") || str_eq(value, "yes") || str_eq(value, "on")
}

/// The policy after one `key = value` setting; unknown keys change nothing.
pub open spec fn assign(cfg: ConfigView, key: Seq<char>, value: Seq<char>) -> ConfigView {
    if key == "org_name"@ {
        ConfigView { org_name: value, ..cfg }
    } else if key == "request_id_header"@ {
        ConfigView { request_id_header: value, ..cfg }
    } else if key == "trace_id_header"@ {
        ConfigView { trace_id_header: value, ..cfg }
    } else if key == "auth_header"@ {
        ConfigView { auth_header: value, ..cfg }
    } else if key == "users.api_key_required"@ {
        ConfigView {
            users: RoutePolicyView { api_key_required: is_true_word(value), ..cfg.users },
            ..cfg
        }
    } else if key == "users.api_key"@ {
        ConfigView { users: RoutePolicyView { api_key: value, ..cfg.users }, ..cfg }
    } else if key == "orders.api_key_required"@ {
        ConfigView {
            orders: RoutePolicyView { api_key_required: is_true_word(value), ..cfg.orders },
            ..cfg
        }
    } else if key == "orders.api_key"@ {
        ConfigView { orders: RoutePolicyView { api_key: value, ..cfg.orders }, ..cfg }
    } else {
        cfg
    }
}

/// The policy after one line of the policy file. The line is trimmed; an empty
/// line, a line that starts with `#` and a line without `=` change nothing;
/// otherwise the trimmed text before the first `=` is the key and the trimmed
/// text after it is the value.
pub open spec fn apply_line(cfg: ConfigView, line: Seq<char>) -> ConfigView {
    let t = trim(line);
    if t.len() == 0 || t[0] == '#' {
        cfg
    } else {
        let k = first_index(t, '=');
        if k == t.len() {
            cfg
        } else {
            assign(cfg, trim(t.take(k)), trim(t.skip(k + 1)))
        }
    }
}

/// The policy after the lines of `text`, which `\n` separates, one after the other.
pub open spec fn load_lines(cfg: ConfigView, text: Seq<char>) -> ConfigView
    decreases text.len(),
{
    let i = first_index(text, '\n');
    if i < text.len() {
        proof {
            lemma_first_index_bounds(text, '\n');
        }
        load_lines(apply_line(cfg, text.take(i)), text.skip(i + 1))
    } else {
        apply_line(cfg, text)
    }
}

/// The policy that a policy file holding `text` sets up.
pub open spec fn loaded(text: Seq<char>) -> ConfigView {
    load_lines(default_config(), text)
}

/// Applies the line `[lo, hi)` of `chars`, the characters of `raw`, to `config`.
fn apply_line_exec(config: &mut Config, raw: &str, chars: &Vec<char>, lo: usize, hi: usize)
    requires
        chars@ == raw@,
        lo <= hi <= chars@.len(),
    ensures
        final(config)@ == apply_line(old(config)@, chars@.subrange(lo as int, hi as int)),
{
    let (a, b) = trim_range(chars, lo, hi);
    let ghost t = chars@.subrange(a as int, b as int);
    if a == b || chars[a] == '#' {
        return;
    }
    let k = find_char(chars, a, b, '=');
    if k == b {
        return;
    }
    proof {
        assert(t.take(k - a) =~= chars@.subrange(a as int, k as int));
        assert(t.skip(k - a + 1) =~= chars@.subrange(k + 1, b as int));
    }
    let (ka, kb) = trim_range(chars, a, k);
    let (va, vb) = trim_range(chars, k + 1, b);
    let value = raw.substring_char(va, vb);
    proof {
        assert(value@ == chars@.subrange(va as int, vb as int));
    }
    if segment_is(chars, ka, kb, "org_name") {
        config.org_name = value.to_string();
    } else if segment_is(chars, ka, kb, "request_id_header") {
        config.request_id_header = value.to_string();
    } else if segment_is(chars, ka, kb, "trace_id_header") {
        config.trace_id_header = value.to_string();
    } else if segment_is(chars, ka, kb, "auth_header") {
        config.auth_header = value.to_string();
    } else if segment_is(chars, ka, kb, "users.api_key_required") {
        config.users.api_key_required = parse_bool(value);
    } else if segment_is(chars, ka, kb, "users.api_key") {
        config.users.api_key = value.to_string();
    } else if segment_is(chars, ka, kb, "orders.api_key_required") {
        config.orders.api_key_required = parse_bool(value);
    } else if segment_is(chars, ka, kb, "orders.api_key") {
        config.orders.api_key = value.to_string();
    }
}

impl Config {
    /// The policy that a policy file holding `raw` sets up: the built-in
    /// policy, changed by each `key = value` line of `raw` in turn.
    pub fn load(raw: &str) -> (config: Self)
        ensures
            config@ == loaded(raw@),
    {
        let chars = chars_of(raw);
        let mut config = Config::default();
        let n = chars.len();
        let mut pos: usize = 0;
        proof {
            assert(chars@.subrange(0, n as int) =~= chars@);
        }
        loop
            invariant
                chars@ == raw@,
                n == chars@.len(),
                pos <= n,
                loaded(raw@) == load_lines(config@, chars@.subrange(pos as int, n as int)),
            decreases n - pos,
        {
            let ghost rest = chars@.subrange(pos as int, n as int);
            let j = find_char(&chars, pos, n, '\n');
            apply_line_exec(&mut config, raw, &chars, pos, j);
            if j == n {
                proof {
                    assert(rest.take(j - pos) =~= rest);
                }
                return config;
            }
            proof {
                assert(rest.take(j - pos) =~= chars@.subrange(pos as int, j as int));
                assert(rest.skip(j - pos + 1) =~= chars@.subrange(j + 1, n as int));
            }
            pos = j + 1;
        }
    }
}

/// A policy file is read line by line: reading `a`, a line break and `b` is
/// reading `a` and then reading `b` on the policy that `a` left.
pub proof fn law_load_concat(cfg: ConfigView, a: Seq<char>, b: Seq<char>)
    ensures
        load_lines(cfg, a + seq!['\n'] + b) == load_lines(load_lines(cfg, a), b),
    decreases a.len(),
{
    let s = a + seq!['\n'] + b;
    lemma_first_index_bounds(a, '\n');
    lemma_first_index_bounds(s, '\n');
    let i = first_index(a, '\n');
    let j = first_index(s, '\n');
    if i < a.len() {
        assert(s[i] == '\n');
        assert(j <= i) by {
            if j > i {
                assert(s[i] != '\n');
            }
        }
        assert(j == i) by {
            if j < i {
                assert(a[j] == s[j]);
            }
        }
        assert(s.take(j) =~= a.take(i));
        assert(s.skip(j + 1) =~= a.skip(i + 1) + seq!['\n'] + b);
        law_load_concat(apply_line(cfg, a.take(i)), a.skip(i + 1), b);
    } else {
        assert(s[a.len() as int] == '\n');
        assert(j == a.len()) by {
            if j < a.len() {
                assert(a[j] == s[j]);
            }
        }
        assert(s.take(j) =~= a);
        assert(s.skip(j + 1) =~= b);
    }
}

/// A policy file with nothing in it leaves the built-in policy in force.
pub proof fn law_empty_file_is_default()
    ensures
        loaded(Seq::<char>::empty()) == default_config(),
{
    let e = Seq::<char>::empty();
    lemma_first_index_bounds(e, '\n');
    assert(trim(e) =~= e);
}

/// The keys that the policy file knows.
pub open spec fn known_key(key: Seq<char>) -> bool {
    ||| key == "org_name"@
    ||| key == "request_id_header"@
    ||| key == "trace_id_header"@
    ||| key == "auth_header"@
    ||| key == "users.api_key_required"@
    ||| key == "users.api_key"@
    ||| key == "orders.api_key_required"@
    ||| key == "orders.api_key"@
}

/// A single line (it holds no `\n`) that sets nothing: blank after trimming,
/// a comment, without `=`, or with a key that is not known.
pub open spec fn ignorable_line(line: Seq<char>) -> bool {
    let t = trim(line);
    let k = first_index(t, '=');
    &&& !line.contains('\n')
    &&& (t.len() == 0 || t[0] == '#' || k == t.len() || !known_key(trim(t.take(k))))
}

proof fn lemma_ignorable_line_sets_nothing(cfg: ConfigView, line: Seq<char>)
    requires
        ignorable_line(line),
    ensures
        load_lines(cfg, line) == cfg,
{
    lemma_first_index_bounds(line, '\n');
    if first_index(line, '\n') < line.len() {
        assert(line.contains('\n'));
    }
}

/// Inserting or removing lines that set nothing (blank lines, comments, lines
/// without `=`, lines with an unknown key) does not change the policy that a
/// policy file sets up: at the start, between two parts, or at the end.
pub proof fn law_ignorable_lines(cfg: ConfigView, a: Seq<char>, line: Seq<char>, b: Seq<char>)
    requires
        ignorable_line(line),
    ensures
        load_lines(cfg, a + seq!['\n'] + line + seq!['\n'] + b) == load_lines(
            cfg,
            a + seq!['\n'] + b,
        ),
        load_lines(cfg, line + seq!['\n'] + b) == load_lines(cfg, b),
        load_lines(cfg, a + seq!['\n'] + line) == load_lines(cfg, a),
{
    let c = load_lines(cfg, a);
    lemma_ignorable_line_sets_nothing(c, line);
    lemma_ignorable_line_sets_nothing(cfg, line);
    law_load_concat(cfg, a, line + seq!['\n'] + b);
    assert(a + seq!['\n'] + (line + seq!['\n'] + b) =~= a + seq!['\n'] + line + seq!['\n'] + b);
    law_load_concat(c, line, b);
    law_load_concat(cfg, a, b);
    law_load_concat(cfg, line, b);
    law_load_concat(cfg, a, line);
}

/// The policy file reads as true exactly the words `1`, `true`, `yes` and
/// `on`; `0`, `false`, `no`, `off` and the empty value read as false. A route's
/// `api_key_required` setting takes that reading and changes nothing else.
pub proof fn law_true_words(cfg: ConfigView, v: Seq<char>)
    ensures
        is_true_word(v) <==> (v == "1"@ || v == "true"@ || v == "yes"@ || v == "on"@),
        !is_true_word("0"@),
        !is_true_word("false"@),
        !is_true_word("no"@),
        !is_true_word("off"@),
        !is_true_word(Seq::<char>::empty()),
        assign(cfg, "users.api_key_required"@, v) == (ConfigView {
            users: RoutePolicyView {
                api_key_required: v == "1"@ || v == "true"@ || v == "yes"@ || v == "on"@,
                ..cfg.users
            },
            ..cfg
        }),
        assign(cfg, "orders.api_key_required"@, v) == (ConfigView {
            orders: RoutePolicyView {
                api_key_required: v == "1"@ || v == "true"@ || v == "yes"@ || v == "on"@,
                ..cfg.orders
            },
            ..cfg
        }),
{
    reveal_strlit("0");
    reveal_strlit("1");
    reveal_strlit("true");
    reveal_strlit("yes");
    reveal_strlit("on");
    reveal_strlit("false");
    reveal_strlit("no");
    reveal_strlit("off");
    reveal_strlit("org_name");
    reveal_strlit("request_id_header");
    reveal_strlit("trace_id_header");
    reveal_strlit("auth_header");
    reveal_strlit("users.api_key_required");
    reveal_strlit("users.api_key");
    reveal_strlit("orders.api_key_required");
    reveal_strlit("orders.api_key");
    assert("no"@ != "on"@) by {
        assert("no"@[0] != "on"@[0]);
    }
    assert("0"@ != "1"@) by {
        assert("0"@[0] != "1"@[0]);
    }
    assert("false"@.len() == 5);
    assert("true"@.len() == 4);
    assert("yes"@.len() == 3);
    assert("on"@.len() == 2);
    assert("1"@.len() == 1);
    assert("off"@.len() == 3);
    assert("off"@ != "yes"@) by {
        assert("off"@[0] != "yes"@[0]);
    }
    assert("users.api_key_required"@ != "users.api_key"@) by {
        assert("users.api_key_required"@.len() != "users.api_key"@.len());
    }
    assert("orders.api_key_required"@ != "users.api_key_required"@) by {
        assert("orders.api_key_required"@.len() != "users.api_key_required"@.len());
    }
    assert("orders.api_key_required"@ != "orders.api_key"@) by {
        assert("orders.api_key_required"@.len() != "orders.api_key"@.len());
    }
    assert("users.api_key_required"@ != "org_name"@) by {
        assert("users.api_key_required"@.len() != "org_name"@.len());
    }
    assert("users.api_key_required"@ != "request_id_header"@) by {
        assert("users.api_key_required"@.len() != "request_id_header"@.len());
    }
    assert("users.api_key_required"@ != "trace_id_header"@) by {
        assert("users.api_key_required"@.len() != "trace_id_header"@.len());
    }
    assert("users.api_key_required"@ != "auth_header"@) by {
        assert("users.api_key_required"@.len() != "auth_header"@.len());
    }
    assert("orders.api_key_required"@ != "org_name"@) by {
        assert("orders.api_key_required"@.len() != "org_name"@.len());
    }
    assert("orders.api_key_required"@ != "request_id_header"@) by {
        assert("orders.api_key_required"@.len() != "request_id_header"@.len());
    }
    assert("orders.api_key_required"@ != "trace_id_header"@) by {
        assert("orders.api_key_required"@.len() != "trace_id_header"@.len());
    }
    assert("orders.api_key_required"@ != "auth_header"@) by {
        assert("orders.api_key_required"@.len() != "auth_header"@.len());
    }
}

} // verus!
