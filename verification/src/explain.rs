//! A plain-language explanation of what a configuration enables.
use vstd::prelude::*;
use crate::config::{modifier_label, Config, Launcher, Overview, SearchEngine, Switch};
use crate::text::owned;

verus! {

/// Terminal escape sequences, or empty strings when colour is off.
pub struct Palette {
    pub bold: &'static str,
    pub italic: &'static str,
    pub blue: &'static str,
    pub green: &'static str,
    pub reset: &'static str,
}

/// The texts of a [`Palette`].
pub struct PaletteText {
    pub bold: Seq<char>,
    pub italic: Seq<char>,
    pub blue: Seq<char>,
    pub green: Seq<char>,
    pub reset: Seq<char>,
}

impl View for Palette {
    type V = PaletteText;

    open spec fn view(&self) -> PaletteText {
        PaletteText {
            bold: self.bold@,
            italic: self.italic@,
            blue: self.blue@,
            green: self.green@,
            reset: self.reset@,
        }
    }
}

/// ANSI bold, italic, blue, green and reset when colour is on; nothing
/// otherwise.
pub open spec fn palette_text(enable_color: bool) -> PaletteText {
    if enable_color {
        PaletteText {
            bold: "\x1b[1m"@,
            italic: "\x1b[3m"@,
            blue: "\x1b[34m"@,
            green: "\x1b[32m"@,
            reset: "\x1b[0m"@,
        }
    } else {
        PaletteText { bold: ""@, italic: ""@, blue: ""@, green: ""@, reset: ""@ }
    }
}

impl PaletteText {
    /// `text` as a key name: blue.
    pub open spec fn key(self, text: Seq<char>) -> Seq<char> {
        self.blue + text + self.reset
    }

    /// `text` as a configurable key name: bold blue.
    pub open spec fn conf_key(self, text: Seq<char>) -> Seq<char> {
        self.bold + self.blue + text + self.reset
    }

    /// `text` as a note: italic.
    pub open spec fn note(self, text: Seq<char>) -> Seq<char> {
        self.italic + text + self.reset
    }
}

pub fn palette(enable_color: bool) -> (p: Palette)
    ensures
        p@ == palette_text(enable_color),
{
    if enable_color {
        Palette {
            bold: "\x1b[1m",
            italic: "\x1b[3m",
            blue: "\x1b[34m",
            green: "\x1b[32m",
            reset: "\x1b[0m",
        }
    } else {
        Palette { bold: "", italic: "", blue: "", green: "", reset: "" }
    }
}

pub open spec fn header_text(p: PaletteText, file: Seq<char>) -> Seq<char> {
    p.bold + p.green + "Config is valid"@ + p.reset + " ("@ + file + ")\n"@ + p.bold
        + "Explanation"@ + p.reset + " ("@ + p.key("blue"@) + " are keys, "@ + p.conf_key(
        "bold blue"@,
    ) + " keys can be configured in config):"@ + p.reset + "\n"@
}

/// The choice of window and the switch between them, shared by the
/// overview and the switch texts.
pub open spec fn select_text(p: PaletteText) -> Seq<char> {
    p.key("tab"@) + " and "@ + p.key("grave"@) + " / "@ + p.key("shift"@) + " + "@ + p.key(
        "tab"@,
    ) + " to select a different window, "@
}

pub open spec fn overview_keys_text(p: PaletteText, o: Overview) -> Seq<char> {
    "Use "@ + p.conf_key(modifier_label(o.modifier)) + " + "@ + p.conf_key(o.key@)
        + " to open the Overview. Use "@ + select_text(p) + "press "@ + p.key("return"@)
        + " to switch\nYou can also use the "@ + p.key("arrow keys"@) + " or "@ + p.conf_key(
        modifier_label(o.launcher.launch_modifier),
    ) + " + vim keys to navigate the workspaces. Use "@ + p.key("Esc"@)
        + " to close the overview.\n"@ + "After opening the Overview the "@ + p.bold
        + "Launcher"@ + p.reset + " is available:\n"@
}

/// Names of the engines, separated by `, `.
pub open spec fn engine_names(e: Seq<SearchEngine>) -> Seq<char>
    decreases e.len(),
{
    if e.len() == 0 {
        Seq::empty()
    } else if e.len() == 1 {
        e[0].name@
    } else {
        engine_names(e.drop_last()) + ", "@ + e.last().name@
    }
}

pub open spec fn applications_text(p: PaletteText) -> Seq<char> {
    "\t- Start typing to search through applications (sorted by how often they were opened).\n\t\tPress "@
        + p.key("return"@) + " to launch the first app, use "@ + p.key("Ctrl"@) + " + "@ + p.key(
        "1"@,
    ) + "/"@ + p.key("2"@) + "/"@ + p.key("3"@) + "/... to open the second, third, etc.\n"@
}

pub open spec fn ctrl_key_text(p: PaletteText, key: Seq<char>, what: Seq<char>) -> Seq<char> {
    "\t- Press "@ + p.key("Ctrl"@) + " + "@ + p.key(key) + what
}

pub open spec fn websearch_text(p: PaletteText, e: Seq<SearchEngine>) -> Seq<char> {
    "\t- Press "@ + p.key("Ctrl"@) + " + "@ + p.conf_key("<key>"@)
        + " to search the typed text in any of the configured SearchEngines: "@ + engine_names(e)
        + ".\n"@
}

pub open spec fn calc_text(prefix: Option<String>) -> Seq<char> {
    match prefix {
        Some(x) => "\t- Typing `"@ + x@
            + "` followed by a mathematical expression will calculate it and display the result in the launcher.\n"@,
        None => "\t- Typing a mathematical expression will calculate it and display the result in the launcher.\n"@,
    }
}

pub open spec fn path_text() -> Seq<char> {
    "\t- Paths (starting with ~ or /) can be open in default file-manager.\n"@
}

pub open spec fn actions_text() -> Seq<char> {
    "\t- Type Reboot/Shutdown/etc. to run corresponding commands. Type `actions` to see all available ones.\n"@
}

pub open spec fn opt_text(present: bool, text: Seq<char>) -> Seq<char> {
    if present {
        text
    } else {
        Seq::empty()
    }
}

/// One line per enabled launcher plugin, or a note that none is enabled.
pub open spec fn plugins_text(p: PaletteText, l: Launcher) -> Seq<char> {
    let ps = l.plugins;
    let any = ps.applications is Some || ps.terminal is Some || ps.shell is Some || ps.websearch is Some
        || ps.calc is Some || ps.path is Some || ps.actions is Some;
    let web = match ps.websearch {
        Some(w) => websearch_text(p, w.engines@),
        None => Seq::empty(),
    };
    let calc = match ps.calc {
        Some(c) => calc_text(c.prefix),
        None => Seq::empty(),
    };
    if !any {
        p.note("\t<No plugins enabled in launcher>"@) + "\n"@
    } else {
        opt_text(ps.applications is Some, applications_text(p)) + opt_text(
            ps.terminal is Some,
            ctrl_key_text(p, "t"@, " to run the typed command in a terminal.\n"@),
        ) + opt_text(
            ps.shell is Some,
            ctrl_key_text(p, "r"@, " to run the typed command in the background.\n"@),
        ) + web + calc + opt_text(ps.path is Some, path_text()) + opt_text(
            ps.actions is Some,
            actions_text(),
        )
    }
}

pub open spec fn switch_text(p: PaletteText, s: Switch) -> Seq<char> {
    let m = modifier_label(s.modifier);
    "Press "@ + p.conf_key(m) + " + "@ + p.key("tab"@) + " and hold "@ + p.conf_key(m)
        + " to view recently used applications. Press "@ + select_text(p) + "release "@
        + p.conf_key(m) + " to close the window.\n"@
}

/// The explanation of `config`, headed by a validity note naming the file
/// when one is given.
pub open spec fn explain_text(config: Config, file: Option<Seq<char>>, p: PaletteText) -> Seq<
    char,
> {
    let head = match file {
        Some(f) => header_text(p, f),
        None => Seq::empty(),
    };
    let body = match config.windows {
        Some(w) => {
            let overview = match w.overview {
                Some(o) => overview_keys_text(p, o) + plugins_text(p, o.launcher),
                None => p.note("<Overview disabled>"@) + "\n"@,
            };
            let switch = match w.switch {
                Some(s) => switch_text(p, s),
                None => p.note("<Switch mode disabled>"@) + "\n"@,
            };
            overview + "\n"@ + switch
        },
        None => p.note("<Windows disabled>"@) + "\n"@,
    };
    head + body
}

/// With a configuration file, the explanation is the validity header for
/// that file followed by the explanation without a file. (That colour only
/// adds codes is `explain_plain::law_colours_only_add_codes`.)
pub proof fn law_header_then_body(config: Config, file: Seq<char>, p: PaletteText)
    ensures
        explain_text(config, Some(file), p) == header_text(p, file) + explain_text(config, None, p),
{
    let body = explain_text(config, None, p);
    assert(Seq::<char>::empty() + body =~= body);
}

fn push_key(out: &mut String, p: &Palette, text: &str)
    ensures
        final(out)@ == old(out)@ + p@.key(text@),
{
    out.append(p.blue);
    out.append(text);
    out.append(p.reset);
    assert(final(out)@ =~= old(out)@ + p@.key(text@));
}

fn push_conf_key(out: &mut String, p: &Palette, text: &str)
    ensures
        final(out)@ == old(out)@ + p@.conf_key(text@),
{
    out.append(p.bold);
    out.append(p.blue);
    out.append(text);
    out.append(p.reset);
    assert(final(out)@ =~= old(out)@ + p@.conf_key(text@));
}

fn push_note(out: &mut String, p: &Palette, text: &str)
    ensures
        final(out)@ == old(out)@ + p@.note(text@) + "\n"@,
{
    out.append(p.italic);
    out.append(text);
    out.append(p.reset);
    out.append("\n");
    assert(final(out)@ =~= old(out)@ + p@.note(text@) + "\n"@);
}

fn header(p: &Palette, file: &str) -> (r: String)
    ensures
        r@ == header_text(p@, file@),
{
    let mut out = String::new();
    out.append(p.bold);
    out.append(p.green);
    out.append("Config is valid");
    out.append(p.reset);
    out.append(" (");
    out.append(file);
    out.append(")\n");
    out.append(p.bold);
    out.append("Explanation");
    out.append(p.reset);
    out.append(" (");
    push_key(&mut out, p, "blue");
    out.append(" are keys, ");
    push_conf_key(&mut out, p, "bold blue");
    out.append(" keys can be configured in config):");
    out.append(p.reset);
    out.append("\n");
    assert(out@ =~= header_text(p@, file@));
    out
}

fn push_select(out: &mut String, p: &Palette)
    ensures
        final(out)@ == old(out)@ + select_text(p@),
{
    let ghost start = out@;
    push_key(out, p, "tab");
    out.append(" and ");
    push_key(out, p, "grave");
    out.append(" / ");
    push_key(out, p, "shift");
    out.append(" + ");
    push_key(out, p, "tab");
    out.append(" to select a different window, ");
    assert(out@ =~= start + select_text(p@));
}

fn overview_keys(p: &Palette, o: &Overview) -> (r: String)
    ensures
        r@ == overview_keys_text(p@, *o),
{
    let mut out = owned("Use ");
    push_conf_key(&mut out, p, o.modifier.label());
    out.append(" + ");
    push_conf_key(&mut out, p, o.key.as_str());
    out.append(" to open the Overview. Use ");
    push_select(&mut out, p);
    out.append("press ");
    push_key(&mut out, p, "return");
    out.append(" to switch\nYou can also use the ");
    push_key(&mut out, p, "arrow keys");
    out.append(" or ");
    push_conf_key(&mut out, p, o.launcher.launch_modifier.label());
    out.append(" + vim keys to navigate the workspaces. Use ");
    push_key(&mut out, p, "Esc");
    out.append(" to close the overview.\n");
    out.append("After opening the Overview the ");
    out.append(p.bold);
    out.append("Launcher");
    out.append(p.reset);
    out.append(" is available:\n");
    assert(out@ =~= overview_keys_text(p@, *o));
    out
}

fn push_engine_names(out: &mut String, e: &Vec<SearchEngine>)
    ensures
        final(out)@ == old(out)@ + engine_names(e@),
{
    let ghost start = out@;
    let mut i: usize = 0;
    while i < e.len()
        invariant
            i <= e@.len(),
            out@ == start + engine_names(e@.subrange(0, i as int)),
        decreases e@.len() - i,
    {
        let ghost before = out@;
        if i > 0 {
            out.append(", ");
        }
        out.append(e[i].name.as_str());
        proof {
            let s = e@.subrange(0, i + 1);
            assert(s.drop_last() =~= e@.subrange(0, i as int));
            if i == 0 {
                assert(engine_names(s) == s[0].name@);
                assert(out@ =~= start + engine_names(s));
            } else {
                assert(out@ =~= start + engine_names(s));
            }
        }
        i += 1;
    }
    assert(e@.subrange(0, e@.len() as int) =~= e@);
}

fn applications_piece(p: &Palette) -> (r: String)
    ensures
        r@ == applications_text(p@),
{
    let mut out = owned(
        "\t- Start typing to search through applications (sorted by how often they were opened).\n\t\tPress ",
    );
    push_key(&mut out, p, "return");
    out.append(" to launch the first app, use ");
    push_key(&mut out, p, "Ctrl");
    out.append(" + ");
    push_key(&mut out, p, "1");
    out.append("/");
    push_key(&mut out, p, "2");
    out.append("/");
    push_key(&mut out, p, "3");
    out.append("/... to open the second, third, etc.\n");
    out
}

fn ctrl_key_piece(p: &Palette, key: &str, what: &str) -> (r: String)
    ensures
        r@ == ctrl_key_text(p@, key@, what@),
{
    let mut out = owned("\t- Press ");
    push_key(&mut out, p, "Ctrl");
    out.append(" + ");
    push_key(&mut out, p, key);
    out.append(what);
    out
}

fn websearch_piece(p: &Palette, engines: &Vec<SearchEngine>) -> (r: String)
    ensures
        r@ == websearch_text(p@, engines@),
{
    let mut out = owned("\t- Press ");
    push_key(&mut out, p, "Ctrl");
    out.append(" + ");
    push_conf_key(&mut out, p, "<key>");
    out.append(" to search the typed text in any of the configured SearchEngines: ");
    push_engine_names(&mut out, engines);
    out.append(".\n");
    out
}

fn calc_piece(prefix: &Option<String>) -> (r: String)
    ensures
        r@ == calc_text(*prefix),
{
    if let Some(prefix) = prefix {
        let mut out = owned("\t- Typing `");
        out.append(prefix.as_str());
        out.append(
            "` followed by a mathematical expression will calculate it and display the result in the launcher.\n",
        );
        out
    } else {
        owned(
            "\t- Typing a mathematical expression will calculate it and display the result in the launcher.\n",
        )
    }
}

/// Appends `piece` when `present`.
fn push_opt(out: &mut String, present: bool, piece: &str)
    ensures
        final(out)@ == old(out)@ + opt_text(present, piece@),
{
    if present {
        out.append(piece);
    } else {
        assert(old(out)@ + opt_text(present, piece@) =~= old(out)@);
    }
}

fn plugins(p: &Palette, l: &Launcher) -> (r: String)
    ensures
        r@ == plugins_text(p@, *l),
{
    let ps = &l.plugins;
    let any = ps.applications.is_some() || ps.terminal.is_some() || ps.shell.is_some()
        || ps.websearch.is_some() || ps.calc.is_some() || ps.path.is_some()
        || ps.actions.is_some();
    if !any {
        let mut out = owned(p.italic);
        out.append("\t<No plugins enabled in launcher>");
        out.append(p.reset);
        out.append("\n");
        return out;
    }
    let mut out = if ps.applications.is_some() {
        applications_piece(p)
    } else {
        String::new()
    };
    let t = ctrl_key_piece(p, "t", " to run the typed command in a terminal.\n");
    push_opt(&mut out, ps.terminal.is_some(), t.as_str());
    let r = ctrl_key_piece(p, "r", " to run the typed command in the background.\n");
    push_opt(&mut out, ps.shell.is_some(), r.as_str());
    let ghost before_web = out@;
    if let Some(w) = &ps.websearch {
        let piece = websearch_piece(p, &w.engines);
        out.append(piece.as_str());
    } else {
        assert(before_web + Seq::<char>::empty() =~= before_web);
    }
    let ghost before_calc = out@;
    if let Some(c) = &ps.calc {
        let piece = calc_piece(&c.prefix);
        out.append(piece.as_str());
    } else {
        assert(before_calc + Seq::<char>::empty() =~= before_calc);
    }
    push_opt(
        &mut out,
        ps.path.is_some(),
        "\t- Paths (starting with ~ or /) can be open in default file-manager.\n",
    );
    push_opt(
        &mut out,
        ps.actions.is_some(),
        "\t- Type Reboot/Shutdown/etc. to run corresponding commands. Type `actions` to see all available ones.\n",
    );
    out
}

fn switch_keys(p: &Palette, s: &Switch) -> (r: String)
    ensures
        r@ == switch_text(p@, *s),
{
    let m = s.modifier.label();
    let mut out = owned("Press ");
    push_conf_key(&mut out, p, m);
    out.append(" + ");
    push_key(&mut out, p, "tab");
    out.append(" and hold ");
    push_conf_key(&mut out, p, m);
    out.append(" to view recently used applications. Press ");
    push_select(&mut out, p);
    out.append("release ");
    push_conf_key(&mut out, p, m);
    out.append(" to close the window.\n");
    assert(out@ =~= switch_text(p@, *s));
    out
}

/// Explains which keys open the overview and the switch and which launcher
/// plugins are enabled. With a configuration file, the text starts by saying
/// that the configuration in that file is valid. With `enable_color`, keys
/// are highlighted with terminal escape sequences.
pub fn explain(config: &Config, config_file: Option<&str>, enable_color: bool) -> (r: String)
    ensures
        r@ == explain_text(
            *config,
            match config_file {
                Some(f) => Some(f@),
                None => None,
            },
            palette_text(enable_color),
        ),
{
    let p = palette(enable_color);
    let body = if let Some(windows) = &config.windows {
        let mut out = if let Some(overview) = &windows.overview {
            let mut k = overview_keys(&p, overview);
            let t = plugins(&p, &overview.launcher);
            k.append(t.as_str());
            k
        } else {
            let mut n = owned(p.italic);
            n.append("<Overview disabled>");
            n.append(p.reset);
            n.append("\n");
            n
        };
        out.append("\n");
        let t = if let Some(switch) = &windows.switch {
            switch_keys(&p, switch)
        } else {
            let mut n = owned(p.italic);
            n.append("<Switch mode disabled>");
            n.append(p.reset);
            n.append("\n");
            n
        };
        out.append(t.as_str());
        out
    } else {
        let mut n = owned(p.italic);
        n.append("<Windows disabled>");
        n.append(p.reset);
        n.append("\n");
        n
    };
    match config_file {
        Some(f) => {
            let mut out = header(&p, f);
            out.append(body.as_str());
            out
        },
        None => {
            assert(Seq::<char>::empty() + body@ =~= body@);
            body
        },
    }
}

} // verus!
