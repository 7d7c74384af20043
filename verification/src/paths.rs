//! Where the configuration, style, data and cache files live, following the
//! XDG base directory conventions. The caller reads the environment and the
//! file system; this module decides.
use vstd::prelude::*;
use crate::text::{owned, push_char};

verus! {

/// Name of the application's directory inside the base directories; debug
/// builds keep theirs apart.
pub open spec fn app_dir_name(debug: bool) -> Seq<char> {
    if debug {
        "hyprshell.debug"@
    } else {
        "hyprshell"@
    }
}

fn app_dir(debug: bool) -> (r: &'static str)
    ensures
        r@ == app_dir_name(debug),
{
    if debug {
        "hyprshell.debug"
    } else {
        "hyprshell"
    }
}

/// `rel` appended to `base` as a path component.
pub open spec fn path_join(base: Seq<char>, rel: Seq<char>) -> Seq<char> {
    if base.len() == 0 {
        rel
    } else if base.last() == '/' {
        base + rel
    } else {
        base.push('/') + rel
    }
}

/// Appends `rel` to the path `base` as a component.
pub fn join(base: &str, rel: &str) -> (r: String)
    ensures
        r@ == path_join(base@, rel@),
{
    let n = base.unicode_len();
    if n == 0 {
        return owned(rel);
    }
    let mut out = owned(base);
    if base.get_char(n - 1) != '/' {
        push_char(&mut out, '/');
    }
    out.append(rel);
    out
}

/// The configuration file names that are looked for, in order.
pub open spec fn config_file_candidate(config_home: Seq<char>, debug: bool, i: int) -> Seq<char> {
    let dir = path_join(config_home, app_dir_name(debug));
    if i == 0 {
        path_join(dir, "config.toml"@)
    } else if i == 1 {
        path_join(dir, "config.json"@)
    } else if i == 2 {
        path_join(dir, "config.ron"@)
    } else {
        path_join(dir, "config.json5"@)
    }
}

/// The configuration files that are looked for, in order: `config.toml`,
/// `config.json`, `config.ron`, `config.json5` in the application's
/// directory of the configuration home.
pub fn config_file_candidates(config_home: &str, debug: bool) -> (r: Vec<String>)
    ensures
        r@.len() == 4,
        forall|i: int|
            0 <= i < 4 ==> (#[trigger] r@[i])@ == config_file_candidate(config_home@, debug, i),
{
    let dir = join(config_home, app_dir(debug));
    let mut r: Vec<String> = Vec::new();
    r.push(join(dir.as_str(), "config.toml"));
    r.push(join(dir.as_str(), "config.json"));
    r.push(join(dir.as_str(), "config.ron"));
    r.push(join(dir.as_str(), "config.json5"));
    r
}

/// The first of the candidate files that exists (`found[i]` tells whether
/// candidate `i` exists); the TOML file when none does.
pub open spec fn default_config_file(config_home: Seq<char>, debug: bool, found: [bool; 4]) -> Seq<char> {
    if found[0] {
        config_file_candidate(config_home, debug, 0)
    } else if found[1] {
        config_file_candidate(config_home, debug, 1)
    } else if found[2] {
        config_file_candidate(config_home, debug, 2)
    } else if found[3] {
        config_file_candidate(config_home, debug, 3)
    } else {
        config_file_candidate(config_home, debug, 0)
    }
}

/// The configuration file to use, given which of the candidates exist.
pub fn get_default_config_file(config_home: &str, debug: bool, found: [bool; 4]) -> (r: String)
    ensures
        r@ == default_config_file(config_home@, debug, found),
{
    let mut c = config_file_candidates(config_home, debug);
    let i: usize = if found[0] {
        0
    } else if found[1] {
        1
    } else if found[2] {
        2
    } else if found[3] {
        3
    } else {
        0
    };
    c.swap_remove(i)
}

/// The style sheet: `styles.css` in the application's directory of the
/// configuration home.
pub fn get_default_css_file(config_home: &str, debug: bool) -> (r: String)
    ensures
        r@ == path_join(path_join(config_home@, app_dir_name(debug)), "styles.css"@),
{
    let dir = join(config_home, app_dir(debug));
    join(dir.as_str(), "styles.css")
}

/// The application's directory in the data home.
pub fn get_default_data_dir(data_home: &str, debug: bool) -> (r: String)
    ensures
        r@ == path_join(data_home@, app_dir_name(debug)),
{
    join(data_home, app_dir(debug))
}

/// The application's directory in the cache home.
pub fn get_default_cache_dir(cache_home: &str, debug: bool) -> (r: String)
    ensures
        r@ == path_join(cache_home@, app_dir_name(debug)),
{
    join(cache_home, app_dir(debug))
}

/// The system-wide data directory: `/usr/share`.
pub fn get_system_data_home() -> (r: String)
    ensures
        r@ == "/usr/share"@,
{
    owned("/usr/share")
}

/// The application's directory in the system-wide data directory.
pub fn get_default_system_data_dir(debug: bool) -> (r: String)
    ensures
        r@ == path_join("/usr/share"@, app_dir_name(debug)),
{
    let home = get_system_data_home();
    join(home.as_str(), app_dir(debug))
}

/// A base directory: the XDG variable when set, otherwise `$HOME` followed
/// by the conventional suffix (one of the two is set).
pub open spec fn base_dir(xdg: Option<Seq<char>>, home: Option<Seq<char>>, suffix: Seq<char>) -> Seq<
    char,
> {
    match xdg {
        Some(x) => x,
        None => home->0 + suffix,
    }
}

pub open spec fn opt_str(o: Option<&str>) -> Option<Seq<char>> {
    match o {
        Some(s) => Some(s@),
        None => None,
    }
}

pub open spec fn opt_string(o: Option<String>) -> Option<Seq<char>> {
    match o {
        Some(s) => Some(s@),
        None => None,
    }
}

fn base(xdg: Option<&str>, home: Option<&str>, suffix: &str) -> (r: String)
    requires
        xdg is Some || home is Some,
    ensures
        r@ == base_dir(opt_str(xdg), opt_str(home), suffix@),
{
    match xdg {
        Some(x) => owned(x),
        None => {
            let h = home.unwrap();
            let mut out = owned(h);
            out.append(suffix);
            out
        },
    }
}

/// `XDG_DATA_HOME`, or `$HOME/.local/share`; one of the two must be set.
pub fn get_data_home(xdg_data_home: Option<&str>, home: Option<&str>) -> (r: String)
    requires
        xdg_data_home is Some || home is Some,
    ensures
        r@ == base_dir(opt_str(xdg_data_home), opt_str(home), "/.local/share"@),
{
    base(xdg_data_home, home, "/.local/share")
}

/// `XDG_CACHE_HOME`, or `$HOME/.cache`; one of the two must be set.
pub fn get_cache_home(xdg_cache_home: Option<&str>, home: Option<&str>) -> (r: String)
    requires
        xdg_cache_home is Some || home is Some,
    ensures
        r@ == base_dir(opt_str(xdg_cache_home), opt_str(home), "/.cache"@),
{
    base(xdg_cache_home, home, "/.cache")
}

/// `XDG_CONFIG_HOME`, or `$HOME/.config`; one of the two must be set.
pub fn get_config_home(xdg_config_home: Option<&str>, home: Option<&str>) -> (r: String)
    requires
        xdg_config_home is Some || home is Some,
    ensures
        r@ == base_dir(opt_str(xdg_config_home), opt_str(home), "/.config"@),
{
    base(xdg_config_home, home, "/.config")
}

/// The parts of a search path, split at every `:` (empty parts included).
pub open spec fn split_path_list(s: Seq<char>) -> Seq<Seq<char>>
    decreases s.len(),
{
    if s.len() == 0 {
        seq![Seq::empty()]
    } else {
        let r = split_path_list(s.drop_last());
        if s.last() == ':' {
            r.push(Seq::empty())
        } else {
            r.update(r.len() - 1, r.last().push(s.last()))
        }
    }
}

proof fn lemma_split_nonempty(s: Seq<char>)
    ensures
        split_path_list(s).len() >= 1,
    decreases s.len(),
{
    if s.len() > 0 {
        lemma_split_nonempty(s.drop_last());
    }
}

/// Splits a `:`-separated list of paths.
pub fn split_paths(value: &str) -> (r: Vec<String>)
    ensures
        r@.len() == split_path_list(value@).len(),
        forall|i: int| 0 <= i < r@.len() ==> (#[trigger] r@[i])@ == split_path_list(value@)[i],
{
    let n = value.unicode_len();
    let mut done: Vec<String> = Vec::new();
    let mut cur = String::new();
    let mut i: usize = 0;
    while i < n
        invariant
            n == value@.len(),
            i <= n,
            done@.len() + 1 == split_path_list(value@.subrange(0, i as int)).len(),
            forall|j: int|
                0 <= j < done@.len() ==> (#[trigger] done@[j])@ == split_path_list(
                    value@.subrange(0, i as int),
                )[j],
            cur@ == split_path_list(value@.subrange(0, i as int)).last(),
        decreases n - i,
    {
        let c = value.get_char(i);
        proof {
            let next = value@.subrange(0, i + 1);
            assert(next.drop_last() =~= value@.subrange(0, i as int));
            assert(next.last() == c);
            lemma_split_nonempty(value@.subrange(0, i as int));
        }
        if c == ':' {
            let finished = cur;
            done.push(finished);
            cur = String::new();
        } else {
            push_char(&mut cur, c);
        }
        i += 1;
    }
    done.push(cur);
    assert(value@.subrange(0, n as int) =~= value@);
    done
}

/// `XDG_CONFIG_DIRS` split into paths, or `/etc/xdg/`.
pub fn get_config_dirs(xdg_config_dirs: Option<&str>) -> (r: Vec<String>)
    ensures
        xdg_config_dirs is None ==> r@.len() == 1 && r@[0]@ == "/etc/xdg/"@,
        xdg_config_dirs matches Some(v) ==> r@.len() == split_path_list(v@).len() && forall|i: int|
            0 <= i < r@.len() ==> (#[trigger] r@[i])@ == split_path_list(v@)[i],
{
    match xdg_config_dirs {
        Some(v) => split_paths(v),
        None => {
            let mut r: Vec<String> = Vec::new();
            r.push(owned("/etc/xdg/"));
            r
        },
    }
}

/// `XDG_DATA_DIRS` split into paths, or `/usr/local/share` and `/usr/share`.
pub fn get_data_dirs(xdg_data_dirs: Option<&str>) -> (r: Vec<String>)
    ensures
        xdg_data_dirs is None ==> r@.len() == 2 && r@[0]@ == "/usr/local/share"@ && r@[1]@
            == "/usr/share"@,
        xdg_data_dirs matches Some(v) ==> r@.len() == split_path_list(v@).len() && forall|i: int|
            0 <= i < r@.len() ==> (#[trigger] r@[i])@ == split_path_list(v@)[i],
{
    match xdg_data_dirs {
        Some(v) => split_paths(v),
        None => {
            let mut r: Vec<String> = Vec::new();
            r.push(owned("/usr/local/share"));
            r.push(owned("/usr/share"));
            r
        },
    }
}

} // verus!
