//! Lua source fragments for the compositor's Lua configuration API.
use vstd::prelude::*;
use crate::text::{push_char, owned, str_eq};

verus! {

/// The escape sequence that stands for `c` inside a double-quoted Lua
/// string: backslash, double quote, newline, carriage return and tab are
/// escaped, every other character stands for itself.
pub open spec fn lua_escape_char(c: char) -> Seq<char> {
    if c == '\\' {
        seq!['\\', '\\']
    } else if c == '"' {
        seq!['\\', '"']
    } else if c == '\n' {
        seq!['\\', 'n']
    } else if c == '\r' {
        seq!['\\', 'r']
    } else if c == '\t' {
        seq!['\\', 't']
    } else {
        seq![c]
    }
}

/// `s` with every character escaped.
pub open spec fn lua_escape(s: Seq<char>) -> Seq<char>
    decreases s.len(),
{
    if s.len() == 0 {
        Seq::empty()
    } else {
        lua_escape(s.drop_last()) + lua_escape_char(s.last())
    }
}

/// A double-quoted Lua string literal that denotes `s`.
pub open spec fn lua_string_literal(s: Seq<char>) -> Seq<char> {
    seq!['"'] + lua_escape(s) + seq!['"']
}

/// How Lua reads the body of a double-quoted string literal: the escapes
/// `\\`, `\"`, `\n`, `\r` and `\t` stand for one character each, any
/// other character for itself. `None` when the body is not one Lua accepts
/// with those escapes: a bare `"` would end the literal early, a bare line
/// break leaves it unfinished, and a lone or other backslash is not one of
/// them.
pub open spec fn lua_decode(t: Seq<char>) -> Option<Seq<char>>
    decreases t.len(),
{
    if t.len() == 0 {
        Some(Seq::empty())
    } else if t[0] == '"' || t[0] == '\n' || t[0] == '\r' {
        None
    } else if t[0] == '\\' {
        if t.len() < 2 {
            None
        } else {
            let e = t[1];
            let c = if e == 'n' {
                Some('\n')
            } else if e == 'r' {
                Some('\r')
            } else if e == 't' {
                Some('\t')
            } else if e == '\\' || e == '"' {
                Some(e)
            } else {
                None
            };
            match (c, lua_decode(t.skip(2))) {
                (Some(c), Some(r)) => Some(seq![c] + r),
                _ => None,
            }
        }
    } else {
        match lua_decode(t.skip(1)) {
            Some(r) => Some(seq![t[0]] + r),
            None => None,
        }
    }
}

proof fn lemma_escape_prepend(c: char, s: Seq<char>)
    ensures
        lua_escape(seq![c] + s) == lua_escape_char(c) + lua_escape(s),
    decreases s.len(),
{
    if s.len() == 0 {
        assert(seq![c] + s =~= seq![c]);
        assert(seq![c].drop_last() =~= Seq::<char>::empty());
        assert(seq![c].last() == c);
        assert(lua_escape(Seq::<char>::empty()) == Seq::<char>::empty());
        assert(lua_escape(seq![c]) =~= lua_escape_char(c));
        assert(lua_escape_char(c) + lua_escape(s) =~= lua_escape_char(c));
    } else {
        lemma_escape_prepend(c, s.drop_last());
        assert((seq![c] + s).drop_last() =~= seq![c] + s.drop_last());
        assert((seq![c] + s).last() == s.last());
        assert(lua_escape_char(c) + lua_escape(s.drop_last()) + lua_escape_char(s.last())
            =~= lua_escape_char(c) + (lua_escape(s.drop_last()) + lua_escape_char(s.last())));
    }
}

/// The literal that `format_string` writes denotes exactly the given text:
/// Lua reads the escaped body back to the given characters, and nothing
/// in it ends the literal early.
pub proof fn law_lua_literal_reads_back(s: Seq<char>)
    ensures
        lua_decode(lua_escape(s)) == Some(s),
    decreases s.len(),
{
    if s.len() > 0 {
        let c = s[0];
        let rest = s.skip(1);
        assert(s =~= seq![c] + rest);
        lemma_escape_prepend(c, rest);
        law_lua_literal_reads_back(rest);
        let e = lua_escape(rest);
        let t = lua_escape_char(c) + e;
        if c == '\\' || c == '"' || c == '\n' || c == '\r' || c == '\t' {
            assert(t.skip(2) =~= e);
        } else {
            assert(t.skip(1) =~= e);
        }
        assert(seq![c] + rest =~= s);
    }
}

/// No character of the escaped body is a bare line break, carriage return
/// or tab: between the quotes of the literal these appear only as `\n`,
/// `\r` and `\t`.
pub proof fn law_escaped_body_has_no_bare_controls(s: Seq<char>)
    ensures
        forall|i: int|
            0 <= i < lua_escape(s).len() ==> #[trigger] lua_escape(s)[i] != '\n' && lua_escape(s)[i]
                != '\r' && lua_escape(s)[i] != '\t',
    decreases s.len(),
{
    if s.len() > 0 {
        let init = s.drop_last();
        law_escaped_body_has_no_bare_controls(init);
        let a = lua_escape(init);
        let b = lua_escape_char(s.last());
        assert(lua_escape(s) == a + b);
        assert forall|i: int| 0 <= i < (a + b).len() implies #[trigger] (a + b)[i] != '\n' && (a
            + b)[i] != '\r' && (a + b)[i] != '\t' by {
            if i < a.len() {
                assert((a + b)[i] == a[i]);
            } else {
                assert((a + b)[i] == b[i - a.len()]);
            }
        }
    }
}

/// `key = <value>, ` as a Lua table field.
pub open spec fn lua_field(key: Seq<char>, value: Seq<char>) -> Seq<char> {
    key + " = "@ + value + ", "@
}

pub open spec fn lua_bool(value: bool) -> Seq<char> {
    if value {
        "true"@
    } else {
        "false"@
    }
}

/// Formats a Lua string literal, escaping quotes and control characters.
pub fn format_string(value: &str) -> (r: String)
    ensures
        r@ == lua_string_literal(value@),
{
    let n = value.unicode_len();
    let mut f = String::new();
    push_char(&mut f, '"');
    let mut i: usize = 0;
    while i < n
        invariant
            n == value@.len(),
            i <= n,
            f@ == seq!['"'] + lua_escape(value@.subrange(0, i as int)),
        decreases n - i,
    {
        let ch = value.get_char(i);
        let ghost before = f@;
        if ch == '\\' {
            push_char(&mut f, '\\');
            push_char(&mut f, '\\');
        } else if ch == '"' {
            push_char(&mut f, '\\');
            push_char(&mut f, '"');
        } else if ch == '\n' {
            push_char(&mut f, '\\');
            push_char(&mut f, 'n');
        } else if ch == '\r' {
            push_char(&mut f, '\\');
            push_char(&mut f, 'r');
        } else if ch == '\t' {
            push_char(&mut f, '\\');
            push_char(&mut f, 't');
        } else {
            push_char(&mut f, ch);
        }
        proof {
            let next = value@.subrange(0, i + 1);
            assert(next.drop_last() =~= value@.subrange(0, i as int));
            assert(next.last() == ch);
            assert(f@ =~= before + lua_escape_char(ch));
        }
        i += 1;
    }
    push_char(&mut f, '"');
    assert(value@.subrange(0, n as int) =~= value@);
    f
}

/// The string literal of `value`, or nothing when absent.
pub fn format_string_opt(value: Option<&str>) -> (r: String)
    ensures
        r@ == match value {
            Some(v) => lua_string_literal(v@),
            None => Seq::empty(),
        },
{
    match value {
        Some(v) => format_string(v),
        None => String::new(),
    }
}

fn field(key: &str, value: &str) -> (r: String)
    ensures
        r@ == lua_field(key@, value@),
{
    let mut r = owned(key);
    r.append(" = ");
    r.append(value);
    r.append(", ");
    proof {
        reveal_strlit(" = ");
        reveal_strlit(", ");
    }
    r
}

/// `key = "value", ` with the value as an escaped string literal.
pub fn format_string_field(key: &str, value: &str) -> (r: String)
    ensures
        r@ == lua_field(key@, lua_string_literal(value@)),
{
    let v = format_string(value);
    field(key, v.as_str())
}

/// The string field, or nothing when the value is absent.
pub fn format_string_field_opt(key: &str, value: Option<&str>) -> (r: String)
    ensures
        r@ == match value {
            Some(v) => lua_field(key@, lua_string_literal(v@)),
            None => Seq::empty(),
        },
{
    match value {
        Some(v) => format_string_field(key, v),
        None => String::new(),
    }
}

/// `key = true, ` or `key = false, `.
pub fn format_bool_field(key: &str, value: bool) -> (r: String)
    ensures
        r@ == lua_field(key@, lua_bool(value)),
{
    proof {
        reveal_strlit("true");
        reveal_strlit("false");
    }
    field(key, if value { "true" } else { "false" })
}

/// The bool field, or nothing when the value is absent.
pub fn format_bool_field_opt(key: &str, value: Option<bool>) -> (r: String)
    ensures
        r@ == match value {
            Some(v) => lua_field(key@, lua_bool(v)),
            None => Seq::empty(),
        },
{
    match value {
        Some(v) => format_bool_field(key, v),
        None => String::new(),
    }
}

/// `key = value, ` with the value inserted verbatim (a Lua expression).
pub fn format_raw_field(key: &str, value: &str) -> (r: String)
    ensures
        r@ == lua_field(key@, value@),
{
    field(key, value)
}

/// The raw field, or nothing when the value is absent.
pub fn format_raw_field_opt(key: &str, value: Option<&str>) -> (r: String)
    ensures
        r@ == match value {
            Some(v) => lua_field(key@, v@),
            None => Seq::empty(),
        },
{
    match value {
        Some(v) => format_raw_field(key, v),
        None => String::new(),
    }
}

/// Errors of the compositor's IPC.
#[derive(Debug, PartialEq, Eq)]
pub enum HyprError {
    /// The compositor answered a dispatch with something other than `ok`.
    NotOkDispatch(String),
}

/// A Lua expression to be evaluated by the compositor.
#[derive(Debug, Clone)]
pub struct EvalRaw(pub String);

/// The IPC request that evaluates `lua`.
pub open spec fn eval_request(lua: Seq<char>) -> Seq<char> {
    "eval "@ + lua
}

/// The error message for a reply other than `ok`, as a view.
pub open spec fn eval_error_message(reply: Seq<char>) -> Seq<char> {
    "Could not eval: "@ + reply
}

impl EvalRaw {
    /// Wraps a Lua expression.
    pub fn new(lua: &str) -> (r: Self)
        ensures
            r.0@ == lua@,
    {
        EvalRaw(owned(lua))
    }

    /// The IPC request text that asks the compositor to evaluate this
    /// expression.
    pub fn request(&self) -> (r: String)
        ensures
            r@ == eval_request(self.0@),
    {
        let mut r = owned("eval ");
        r.append(self.0.as_str());
        proof {
            reveal_strlit("eval ");
        }
        r
    }

    /// Interprets the compositor's reply to [`EvalRaw::request`]: `ok`
    /// succeeds, anything else is a `NotOkDispatch` error that quotes it.
    pub fn reply_result(reply: &str) -> (r: Result<(), HyprError>)
        ensures
            r is Ok <==> reply@ == "ok"@,
            r matches Err(HyprError::NotOkDispatch(m)) ==> m@ == eval_error_message(reply@),
    {
        proof {
            reveal_strlit("ok");
        }
        if str_eq(reply, "ok") {
            Ok(())
        } else {
            let mut m = owned("Could not eval: ");
            m.append(reply);
            proof {
                reveal_strlit("Could not eval: ");
            }
            Err(HyprError::NotOkDispatch(m))
        }
    }
}

} // verus!
