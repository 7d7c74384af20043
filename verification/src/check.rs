//! Validation of a configuration beyond what the file format ensures.
use vstd::prelude::*;
use crate::config::{Config, SearchEngine, WindowsGeneral};
use crate::convert::{overview_default, switch_default};
use crate::config_io::DEFAULT_SCALE_BITS;
use crate::text::{owned, push_char, str_eq};

verus! {

/// Why a configuration is invalid.
#[derive(Debug, Clone, PartialEq, Eq)]
pub enum CheckError {
    /// The scale factor is not between 0 and 15 (both excluded).
    InvalidScale,
    /// The overview is opened with a bare modifier name (`super`, `alt`,
    /// `control`, `ctrl`) instead of a key such as `super_l`.
    OpenKeyIsBareModifier,
    /// The default terminal command is empty.
    EmptyTerminal,
    /// A search engine has an empty url.
    EmptyEngineUrl,
    /// A search engine has an empty name.
    EmptyEngineName,
    /// Two search engines share this key.
    DuplicateEngineKey(char),
}

/// The `f64` whose IEEE-754 bits are `bits` is at least 15 or at most 0
/// (NaN is neither). Read on the bits: positive zero, the positive values
/// from 15 (`0x402E000000000000`) up to infinity (`0x7FF0000000000000`),
/// and every negative value or zero up to negative infinity; NaNs lie above
/// either infinity.
pub open spec fn scale_out_of_range(bits: u64) -> bool {
    bits == 0 || (0x402E_0000_0000_0000 <= bits <= 0x7FF0_0000_0000_0000) || (0x8000_0000_0000_0000
        <= bits <= 0xFFF0_0000_0000_0000)
}

/// A key name that is a bare modifier and cannot open the overview.
pub open spec fn is_bare_modifier(key: Seq<char>) -> bool {
    key == "super"@ || key == "alt"@ || key == "control"@ || key == "ctrl"@
}

/// The problem of the engine at `i`, given the engines before it.
pub open spec fn engine_problem(e: Seq<SearchEngine>, i: int) -> Option<CheckError> {
    if e[i].url@.len() == 0 {
        Some(CheckError::EmptyEngineUrl)
    } else if e[i].name@.len() == 0 {
        Some(CheckError::EmptyEngineName)
    } else if exists|j: int| 0 <= j < i && #[trigger] e[j].key == e[i].key {
        Some(CheckError::DuplicateEngineKey(e[i].key))
    } else {
        None
    }
}

/// The problem of the first faulty engine among the first `n`.
pub open spec fn first_engine_problem(e: Seq<SearchEngine>, n: nat) -> Option<CheckError>
    decreases n,
{
    if n == 0 {
        None
    } else {
        match first_engine_problem(e, (n - 1) as nat) {
            Some(p) => Some(p),
            None => engine_problem(e, n - 1),
        }
    }
}

/// The verdict on a configuration: the first rule that it breaks, in the
/// order scale, key, terminal, engines.
pub open spec fn check_result(config: Config) -> Result<(), CheckError> {
    match config.windows {
        Some(w) => if scale_out_of_range(w.general.scale_bits) {
            Err(CheckError::InvalidScale)
        } else {
            match w.overview {
            Some(o) => if is_bare_modifier(o.key@) {
                Err(CheckError::OpenKeyIsBareModifier)
            } else if o.launcher.default_terminal matches Some(t) && t@.len() == 0 {
                Err(CheckError::EmptyTerminal)
            } else {
                match o.launcher.plugins.websearch {
                    Some(ws) => match first_engine_problem(ws.engines@, ws.engines@.len()) {
                        Some(p) => Err(p),
                        None => Ok(()),
                    },
                    None => Ok(()),
                }
            },
            None => Ok(()),
        }},
        None => Ok(()),
    }
}

/// Once an engine is faulty, the verdict on every longer prefix names the
/// same problem.
proof fn lemma_first_problem_sticks(e: Seq<SearchEngine>, i: nat, n: nat)
    requires
        i <= n,
        first_engine_problem(e, i) is Some,
    ensures
        first_engine_problem(e, n) == first_engine_problem(e, i),
    decreases n - i,
{
    if i < n {
        lemma_first_problem_sticks(e, i, (n - 1) as nat);
    }
}

/// The shipped defaults are valid: a configuration whose window settings,
/// overview and switch are the defaults passes the check.
pub proof fn law_defaults_pass_check(c: Config)
    requires
        c.windows matches Some(w) && w.general == (WindowsGeneral {
            scale_bits: DEFAULT_SCALE_BITS,
            items_per_row: 5,
            live_preview_refresh_rate: 300,
        }) && (w.overview matches Some(o) ==> overview_default(o)) && (w.switch matches Some(s)
            ==> switch_default(s)),
    ensures
        check_result(c) == Ok::<(), CheckError>(()),
{
    reveal_strlit("Super_L");
    reveal_strlit("super");
    reveal_strlit("Google");
    reveal_strlit("Wikipedia");
    reveal_strlit("https://www.google.com/search?q={}");
    reveal_strlit("https://en.wikipedia.org/wiki/Special:Search?search={}");
    let w = c.windows->0;
    if let Some(o) = w.overview {
        assert(o.key@ != "super"@ && o.key@ != "alt"@ && o.key@ != "control"@ && o.key@ != "ctrl"@) by {
            reveal_strlit("alt");
            reveal_strlit("control");
            reveal_strlit("ctrl");
            assert(o.key@[0] == 'S');
        }
        let e = o.launcher.plugins.websearch->0.engines@;
        assert(first_engine_problem(e, 0) is None);
        assert(engine_problem(e, 0) is None);
        assert(first_engine_problem(e, 1) is None);
        assert(engine_problem(e, 1) is None);
        assert(first_engine_problem(e, 2) is None);
    }
}

/// An overview opened with a bare modifier name (super, alt, control or
/// ctrl) is refused for it, unless the scale, checked first, is already
/// wrong; an overview key that is none of these four names is never refused
/// for being a bare modifier.
pub proof fn law_bare_modifier_open_key_is_refused(c: Config)
    ensures
        c.windows is Some && c.windows->0.overview is Some && (c.windows->0.overview->0.key@
            == "super"@ || c.windows->0.overview->0.key@ == "alt"@
            || c.windows->0.overview->0.key@ == "control"@ || c.windows->0.overview->0.key@
            == "ctrl"@) ==> check_result(c) == if scale_out_of_range(
            c.windows->0.general.scale_bits,
        ) {
            Err::<(), CheckError>(CheckError::InvalidScale)
        } else {
            Err::<(), CheckError>(CheckError::OpenKeyIsBareModifier)
        },
        c.windows is Some && c.windows->0.overview is Some && c.windows->0.overview->0.key@
            != "super"@ && c.windows->0.overview->0.key@ != "alt"@
            && c.windows->0.overview->0.key@ != "control"@ && c.windows->0.overview->0.key@
            != "ctrl"@ ==> check_result(c)
            != Err::<(), CheckError>(CheckError::OpenKeyIsBareModifier),
{
    if let Some(w) = c.windows {
        if let Some(o) = w.overview {
            let e = o.launcher.plugins.websearch->0.engines@;
            assert forall|n: nat| #[trigger] first_engine_problem(e, n)
                != Some(CheckError::OpenKeyIsBareModifier) by {
                lemma_engine_problem_kind(e, n);
            }
        }
    }
}

/// The engines' problems are about engines only.
proof fn lemma_engine_problem_kind(e: Seq<SearchEngine>, n: nat)
    ensures
        first_engine_problem(e, n) != Some(CheckError::OpenKeyIsBareModifier),
    decreases n,
{
    if n > 0 {
        lemma_engine_problem_kind(e, (n - 1) as nat);
    }
}

fn is_bare_modifier_key(key: &str) -> (r: bool)
    ensures
        r == is_bare_modifier(key@),
{
    str_eq(key, "super") || str_eq(key, "alt") || str_eq(key, "control") || str_eq(key, "ctrl")
}

fn check_engines(e: &Vec<SearchEngine>) -> (r: Option<CheckError>)
    ensures
        r == first_engine_problem(e@, e@.len()),
{
    let mut i: usize = 0;
    while i < e.len()
        invariant
            i <= e@.len(),
            first_engine_problem(e@, i as nat) is None,
        decreases e@.len() - i,
    {
        let engine = &e[i];
        if engine.url.as_str().unicode_len() == 0 {
            proof {
                lemma_first_problem_sticks(e@, (i + 1) as nat, e@.len());
            }
            return Some(CheckError::EmptyEngineUrl);
        }
        if engine.name.as_str().unicode_len() == 0 {
            proof {
                lemma_first_problem_sticks(e@, (i + 1) as nat, e@.len());
            }
            return Some(CheckError::EmptyEngineName);
        }
        let mut j: usize = 0;
        while j < i
            invariant
                i < e@.len(),
                j <= i,
                forall|k: int| 0 <= k < j ==> e@[k].key != e@[i as int].key,
                first_engine_problem(e@, i as nat) is None,
                e@[i as int].url@.len() != 0,
                e@[i as int].name@.len() != 0,
                engine.key == e@[i as int].key,
            decreases i - j,
        {
            if e[j].key == engine.key {
                assert(e@[j as int].key == e@[i as int].key);
                proof {
                    lemma_first_problem_sticks(e@, (i + 1) as nat, e@.len());
                }
                return Some(CheckError::DuplicateEngineKey(engine.key));
            }
            j += 1;
        }
        assert(engine_problem(e@, i as int) is None);
        i += 1;
    }
    None
}

/// Checks the scale factor, the overview key, the default terminal and the
/// search engines.
pub fn check(config: &Config) -> (r: Result<(), CheckError>)
    ensures
        r == check_result(*config),
{
    if let Some(w) = &config.windows {
        let b = w.general.scale_bits;
        if b == 0 || (0x402E_0000_0000_0000 <= b && b <= 0x7FF0_0000_0000_0000) || (
        0x8000_0000_0000_0000 <= b && b <= 0xFFF0_0000_0000_0000) {
            return Err(CheckError::InvalidScale);
        }
        if let Some(o) = &w.overview {
            if is_bare_modifier_key(o.key.as_str()) {
                return Err(CheckError::OpenKeyIsBareModifier);
            }
            let l = &o.launcher;
            if let Some(dt) = &l.default_terminal {
                if dt.as_str().unicode_len() == 0 {
                    return Err(CheckError::EmptyTerminal);
                }
            }
            if let Some(ws) = &l.plugins.websearch {
                if let Some(p) = check_engines(&ws.engines) {
                    return Err(p);
                }
            }
        }
    }
    Ok(())
}

impl CheckError {
    /// The message shown to the user.
    pub fn message(&self) -> (r: String)
        ensures
            r@ == check_message(*self),
    {
        match self {
            CheckError::InvalidScale => owned("Scale factor must be less than 15 and greater than 0"),
            CheckError::OpenKeyIsBareModifier => owned(
                "If a modifier key is used to open it must include _l or _r at the end. (e.g. super_l, alt_r, etc)\nctrl_l / _r is NOT a valid modifier key, only control_l / _r is",
            ),
            CheckError::EmptyTerminal => owned("Default terminal command cannot be empty"),
            CheckError::EmptyEngineUrl => owned("Search engine url cannot be empty"),
            CheckError::EmptyEngineName => owned("Search engine name cannot be empty"),
            CheckError::DuplicateEngineKey(k) => {
                let mut m = owned("Duplicate search engine key: ");
                push_char(&mut m, *k);
                m
            },
        }
    }
}

pub open spec fn check_message(e: CheckError) -> Seq<char> {
    match e {
        CheckError::InvalidScale => "Scale factor must be less than 15 and greater than 0"@,
        CheckError::OpenKeyIsBareModifier => "If a modifier key is used to open it must include _l or _r at the end. (e.g. super_l, alt_r, etc)\nctrl_l / _r is NOT a valid modifier key, only control_l / _r is"@,
        CheckError::EmptyTerminal => "Default terminal command cannot be empty"@,
        CheckError::EmptyEngineUrl => "Search engine url cannot be empty"@,
        CheckError::EmptyEngineName => "Search engine name cannot be empty"@,
        CheckError::DuplicateEngineKey(k) => "Duplicate search engine key: "@.push(k),
    }
}

} // verus!
