//! Launcher plugins: the entries they offer and what launching one runs.
//!
//! Reading desktop files, checking paths and starting programs is left to
//! the caller; these modules decide which entries are offered and which
//! command line a launch runs.
use vstd::prelude::*;
use crate::transfer::Identifier;

pub mod applications;
pub mod path;
pub mod web;

verus! {

/// An entry that a plugin always offers (a search engine, a shell).
#[derive(Debug)]
pub struct PluginItem {
    pub icon: Option<String>,
    pub iden: Identifier,
    /// The key that selects the entry.
    pub key: char,
    pub text: String,
    pub details: String,
}

/// An entry of the launcher list.
#[derive(Debug)]
pub struct LaunchItem {
    pub name: String,
    pub keywords: Vec<String>,
    pub icon: Option<String>,
    pub details: String,
    pub details_long: Option<String>,
    /// Added to the match score (frequently launched entries rank higher).
    pub bonus_score: u64,
    pub iden: Identifier,
    pub takes_args: bool,
    /// Sub-entries (desktop actions).
    pub children: Vec<LaunchItem>,
}

/// An entry offered for the text typed so far.
#[derive(Debug)]
pub struct MatchedLaunchItem {
    pub item: LaunchItem,
    pub score: u64,
    pub args: Option<String>,
    /// Whether the entry can be launched.
    pub enabled: bool,
}

/// What the launcher does after a launch.
#[derive(Debug, Clone, Copy, PartialEq, Eq, Structural)]
pub struct PluginReturn {
    /// Play the launch animation (something was started).
    pub show_animation: bool,
}

/// The placeholders of an `Exec` line that stand for the argument.
pub open spec fn has_placeholder(exec: Seq<char>) -> bool {
    crate::text::contains_seq(exec, "%u"@) || crate::text::contains_seq(exec, "%U"@)
        || crate::text::contains_seq(exec, "%f"@) || crate::text::contains_seq(exec, "%F"@)
}

/// Every placeholder of `exec` replaced by `arg`, the placeholders taken in
/// the order `%u`, `%U`, `%f`, `%F`.
pub open spec fn fill_placeholders(exec: Seq<char>, arg: Seq<char>) -> Seq<char> {
    crate::text::replaced(
        crate::text::replaced(
            crate::text::replaced(crate::text::replaced(exec, "%u"@, arg), "%U"@, arg),
            "%f"@,
            arg,
        ),
        "%F"@,
        arg,
    )
}

/// The command line that runs `exec` on `arg`: the placeholders replaced by
/// `arg`, or, without any placeholder, `arg` appended after a space.
pub open spec fn command_line(exec: Seq<char>, arg: Seq<char>) -> Seq<char> {
    if has_placeholder(exec) {
        fill_placeholders(exec, arg)
    } else {
        exec + " "@ + arg
    }
}

/// Builds the command line that runs `exec` on `arg`.
pub fn command_line_for(exec: &str, arg: &str) -> (r: String)
    ensures
        r@ == command_line(exec@, arg@),
{
    proof {
        reveal_strlit("%u");
        reveal_strlit("%U");
        reveal_strlit("%f");
        reveal_strlit("%F");
        reveal_strlit(" ");
    }
    let any = crate::text::str_contains(exec, "%u") || crate::text::str_contains(exec, "%U")
        || crate::text::str_contains(exec, "%f") || crate::text::str_contains(exec, "%F");
    if any {
        let a = crate::text::replace_all(exec, "%u", arg);
        let b = crate::text::replace_all(a.as_str(), "%U", arg);
        let c = crate::text::replace_all(b.as_str(), "%f", arg);
        crate::text::replace_all(c.as_str(), "%F", arg)
    } else {
        let mut r = crate::text::owned(exec);
        r.append(" ");
        r.append(arg);
        r
    }
}

/// `perm` lists each of the indices `0..n` exactly once.
pub open spec fn is_permutation(perm: Seq<int>, n: int) -> bool {
    &&& perm.len() == n
    &&& perm.no_duplicates()
    &&& forall|i: int| 0 <= i < perm.len() ==> 0 <= #[trigger] perm[i] < n
}

/// `r` holds the items of `s` (taken through `perm`), by descending score,
/// items of equal score in the order given: a stable sort.
pub open spec fn ranked_by_score(s: Seq<MatchedLaunchItem>, r: Seq<MatchedLaunchItem>, perm: Seq<
    int,
>) -> bool {
    &&& is_permutation(perm, s.len() as int)
    &&& forall|i: int| 0 <= i < r.len() ==> #[trigger] r[i] == s[perm[i]]
    &&& forall|i: int, j: int| 0 <= i < j < r.len() ==> r[i].score >= r[j].score
    &&& forall|i: int, j: int|
        0 <= i < j < r.len() && r[i].score == r[j].score ==> perm[i] < perm[j]
}

/// Sorts the matches by descending score, keeping the order of equal scores.
pub fn rank_matches(items: Vec<MatchedLaunchItem>) -> (r: Vec<MatchedLaunchItem>)
    ensures
        exists|perm: Seq<int>| ranked_by_score(items@, r@, perm),
{
    let ghost all = items@;
    let mut rest = items;
    let mut out: Vec<MatchedLaunchItem> = Vec::new();
    let ghost mut perm: Seq<int> = Seq::empty();
    let ghost mut k: int = 0;
    while rest.len() > 0
        invariant
            0 <= k <= all.len(),
            rest@ == all.skip(k),
            out.len() == k,
            perm.len() == k,
            perm.no_duplicates(),
            forall|i: int| 0 <= i < perm.len() ==> 0 <= #[trigger] perm[i] < k,
            forall|i: int| 0 <= i < out.len() ==> #[trigger] out@[i] == all[perm[i]],
            forall|i: int, j: int| 0 <= i < j < out.len() ==> out@[i].score >= out@[j].score,
            forall|i: int, j: int|
                0 <= i < j < out.len() && out@[i].score == out@[j].score ==> perm[i] < perm[j],
        decreases rest.len(),
    {
        let item = rest.remove(0);
        proof {
            assert(all.skip(k)[0] == all[k]);
            assert(all.skip(k).skip(1) =~= all.skip(k + 1));
        }
        let mut p: usize = 0;
        while p < out.len() && out[p].score >= item.score
            invariant
                p <= out.len(),
                forall|i: int| 0 <= i < p ==> out@[i].score >= item.score,
            decreases out.len() - p,
        {
            p += 1;
        }
        let ghost old_out = out@;
        let ghost old_perm = perm;
        out.insert(p, item);
        proof {
            perm = old_perm.insert(p as int, k);
            assert forall|i: int| 0 <= i < out.len() implies #[trigger] out@[i] == all[perm[i]] by {
                if i < p {
                    assert(out@[i] == old_out[i]);
                } else if i > p {
                    assert(out@[i] == old_out[i - 1]);
                }
            }
            assert forall|i: int| p < i < out.len() implies out@[i].score < out@[p as int].score by {
                assert(old_out[p as int].score < out@[p as int].score);
                if i - 1 > p {
                    assert(old_out[p as int].score >= old_out[i - 1].score);
                }
            }
            assert forall|i: int, j: int| 0 <= i < j < out.len() implies out@[i].score
                >= out@[j].score by {
                if j < p {
                } else if j == p {
                } else if i == p {
                } else if i < p {
                    assert(out@[i].score >= out@[p as int].score);
                } else {
                    assert(out@[i] == old_out[i - 1] && out@[j] == old_out[j - 1]);
                }
            }
            assert forall|i: int, j: int|
                0 <= i < j < out.len() && out@[i].score == out@[j].score implies perm[i]
                < perm[j] by {
                if j < p {
                    assert(perm[i] == old_perm[i] && perm[j] == old_perm[j]);
                } else if j == p {
                    assert(perm[j] == k);
                    assert(perm[i] == old_perm[i]);
                } else if i == p {
                    assert(out@[j].score < out@[p as int].score);
                } else if i < p {
                    assert(perm[i] == old_perm[i] && perm[j] == old_perm[j - 1]);
                } else {
                    assert(perm[i] == old_perm[i - 1] && perm[j] == old_perm[j - 1]);
                }
            }
            assert forall|i: int| 0 <= i < perm.len() implies 0 <= #[trigger] perm[i] < k + 1 by {
                if i < p {
                    assert(perm[i] == old_perm[i]);
                } else if i > p {
                    assert(perm[i] == old_perm[i - 1]);
                }
            }
            assert forall|i: int, j: int| 0 <= i < perm.len() && 0 <= j < perm.len() && i != j implies perm[i]
                != perm[j] by {
                if i != p && j != p {
                    let oi = if i < p { i } else { i - 1 };
                    let oj = if j < p { j } else { j - 1 };
                    assert(perm[i] == old_perm[oi] && perm[j] == old_perm[oj]);
                } else if i == p {
                    let oj = if j < p { j } else { j - 1 };
                    assert(perm[j] == old_perm[oj]);
                } else {
                    let oi = if i < p { i } else { i - 1 };
                    assert(perm[i] == old_perm[oi]);
                }
            }
            k = k + 1;
        }
    }
    proof {
        assert(all.skip(k).len() == 0);
        assert(ranked_by_score(all, out@, perm));
    }
    out
}

/// The matches of the enabled plugins: the path plugin's, then the
/// calculator's.
pub open spec fn enabled_matches(
    plugins: crate::config::Plugins,
    path_items: Seq<MatchedLaunchItem>,
    calc_items: Seq<MatchedLaunchItem>,
) -> Seq<MatchedLaunchItem> {
    (if plugins.path is Some {
        path_items
    } else {
        Seq::empty()
    }) + (if plugins.calc is Some {
        calc_items
    } else {
        Seq::empty()
    })
}

/// The matches offered for the typed text: those of the path plugin and of
/// the calculator (each only when enabled), ranked by descending score,
/// path matches first among equal scores.
pub fn get_input_driven_launch_items(
    plugins: &crate::config::Plugins,
    path_items: Vec<MatchedLaunchItem>,
    calc_items: Vec<MatchedLaunchItem>,
) -> (r: Vec<MatchedLaunchItem>)
    ensures
        exists|perm: Seq<int>|
            #[trigger] ranked_by_score(
                enabled_matches(*plugins, path_items@, calc_items@),
                r@,
                perm,
            ),
{
    let ghost pi = path_items@;
    let ghost ci = calc_items@;
    let mut out: Vec<MatchedLaunchItem> = Vec::new();
    let mut path_items = path_items;
    let mut calc_items = calc_items;
    if plugins.path.is_some() {
        out.append(&mut path_items);
    }
    if plugins.calc.is_some() {
        out.append(&mut calc_items);
    }
    assert(out@ =~= enabled_matches(*plugins, pi, ci));
    rank_matches(out)
}

/// Which plugin handles a launch, with what it needs.
#[derive(Debug, PartialEq, Eq)]
pub enum PluginLaunch {
    /// A desktop entry (`data`) or one of its actions (`data_additional`).
    Applications { data: Option<String>, data_additional: Option<String> },
    /// The typed text as a shell command.
    Shell { text: String },
    /// The typed text as a command in a terminal.
    Terminal { text: String },
    /// A search for the typed text with the engine whose url is `data`.
    WebSearch { data: Option<String>, text: String },
    /// The typed text as a folder to open.
    Path { text: String },
    /// Copy the result identified by `data`.
    Calc { data: Option<String> },
    /// The action `data` (or its child `data_additional`) on the typed text
    /// and `args`.
    Actions {
        data: Option<String>,
        text: String,
        data_additional: Option<String>,
        args: Option<String>,
    },
}

fn copy_opt(o: &Option<String>) -> (r: Option<String>)
    ensures
        r == *o,
{
    match o {
        Some(s) => Some(s.clone()),
        None => None,
    }
}

fn owned_opt(o: Option<&str>) -> (r: Option<String>)
    ensures
        crate::paths::opt_string(r) == crate::paths::opt_str(o),
{
    match o {
        Some(s) => Some(crate::text::owned(s)),
        None => None,
    }
}

/// Routes the launch of the entry `iden` with the typed `text` (and the
/// arguments typed after an action) to its plugin.
pub fn launch(iden: &Identifier, text: &str, args: Option<&str>) -> (r: PluginLaunch)
    ensures
        match iden.plugin {
            crate::transfer::PluginName::Applications => r == PluginLaunch::Applications {
                data: iden.data,
                data_additional: iden.data_additional,
            },
            crate::transfer::PluginName::Shell => r matches PluginLaunch::Shell { text: t } && t@
                == text@,
            crate::transfer::PluginName::Terminal => r matches PluginLaunch::Terminal { text: t }
                && t@ == text@,
            crate::transfer::PluginName::WebSearch => r matches PluginLaunch::WebSearch {
                data: d,
                text: t,
            } && d == iden.data && t@ == text@,
            crate::transfer::PluginName::Path => r matches PluginLaunch::Path { text: t } && t@
                == text@,
            crate::transfer::PluginName::Calc => r == PluginLaunch::Calc { data: iden.data },
            crate::transfer::PluginName::Actions => r matches PluginLaunch::Actions {
                data: d,
                text: t,
                data_additional: a,
                args: g,
            } && d == iden.data && t@ == text@ && a == iden.data_additional
                && crate::paths::opt_string(g) == crate::paths::opt_str(args),
        },
{
    match iden.plugin {
        crate::transfer::PluginName::Applications => PluginLaunch::Applications {
            data: copy_opt(&iden.data),
            data_additional: copy_opt(&iden.data_additional),
        },
        crate::transfer::PluginName::Shell => PluginLaunch::Shell { text: crate::text::owned(text) },
        crate::transfer::PluginName::Terminal => PluginLaunch::Terminal {
            text: crate::text::owned(text),
        },
        crate::transfer::PluginName::WebSearch => PluginLaunch::WebSearch {
            data: copy_opt(&iden.data),
            text: crate::text::owned(text),
        },
        crate::transfer::PluginName::Path => PluginLaunch::Path { text: crate::text::owned(text) },
        crate::transfer::PluginName::Calc => PluginLaunch::Calc { data: copy_opt(&iden.data) },
        crate::transfer::PluginName::Actions => PluginLaunch::Actions {
            data: copy_opt(&iden.data),
            text: crate::text::owned(text),
            data_additional: copy_opt(&iden.data_additional),
            args: owned_opt(args),
        },
    }
}

} // verus!
