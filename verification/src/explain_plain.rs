//! The coloured explanation is the plain one with terminal colour codes
//! added: removing every code `ESC [ digits m` from it gives the plain text.
use vstd::prelude::*;
use crate::config::{modifier_label, Config, Launcher, Modifier, Overview, SearchEngine, Switch};
use crate::explain::{
    actions_text, applications_text, calc_text, ctrl_key_text, engine_names, explain_text,
    header_text, opt_text, overview_keys_text, palette_text, path_text, plugins_text, select_text,
    switch_text, websearch_text, PaletteText,
};

verus! {

pub open spec fn is_digit(c: char) -> bool {
    '0' <= c && c <= '9'
}

/// Where a colour code whose digits start at `i` ends (just after its `m`).
pub open spec fn code_end(s: Seq<char>, i: int) -> Option<int>
    decreases s.len() - i,
{
    if i < 0 || i >= s.len() {
        None
    } else if s[i] == 'm' {
        Some(i + 1)
    } else if is_digit(s[i]) {
        code_end(s, i + 1)
    } else {
        None
    }
}

/// The length of the colour code `ESC [ digits m` that starts `s`, if one
/// does.
pub open spec fn code_len(s: Seq<char>) -> Option<int> {
    if s.len() >= 2 && s[0] == '\x1b' && s[1] == '[' {
        code_end(s, 2)
    } else {
        None
    }
}

pub proof fn lemma_code_end(s: Seq<char>, i: int)
    ensures
        code_end(s, i) matches Some(n) ==> i < n <= s.len(),
    decreases s.len() - i,
{
    if 0 <= i < s.len() && s[i] != 'm' && is_digit(s[i]) {
        lemma_code_end(s, i + 1);
    }
}

/// `s` with every colour code removed.
pub open spec fn without_codes(s: Seq<char>) -> Seq<char>
    decreases s.len(),
{
    if s.len() == 0 {
        s
    } else {
        match code_len(s) {
            Some(n) => {
                proof {
                    lemma_code_end(s, 2);
                }
                without_codes(s.skip(n))
            },
            None => seq![s[0]] + without_codes(s.skip(1)),
        }
    }
}

/// Every escape character of `s` starts a complete colour code within `s`.
pub open spec fn codes_closed(s: Seq<char>) -> bool
    decreases s.len(),
{
    if s.len() == 0 {
        true
    } else {
        match code_len(s) {
            Some(n) => {
                proof {
                    lemma_code_end(s, 2);
                }
                codes_closed(s.skip(n))
            },
            None => s[0] != '\x1b' && codes_closed(s.skip(1)),
        }
    }
}

/// `x` has its codes complete and is `y` once they are removed.
pub open spec fn plain_as(x: Seq<char>, y: Seq<char>) -> bool {
    codes_closed(x) && without_codes(x) == y
}

/// No escape character in `s`.
pub open spec fn escape_free(s: Seq<char>) -> bool {
    forall|i: int| 0 <= i < s.len() ==> s[i] != '\x1b'
}

proof fn lemma_code_end_concat(a: Seq<char>, b: Seq<char>, i: int)
    requires
        code_end(a, i) is Some,
    ensures
        code_end(a + b, i) == code_end(a, i),
    decreases a.len() - i,
{
    if a[i] != 'm' {
        lemma_code_end_concat(a, b, i + 1);
    }
}

proof fn lemma_concat(a: Seq<char>, b: Seq<char>)
    requires
        codes_closed(a),
    ensures
        without_codes(a + b) == without_codes(a) + without_codes(b),
        codes_closed(b) ==> codes_closed(a + b),
    decreases a.len(),
{
    if a.len() == 0 {
        assert(a + b =~= b);
        assert(without_codes(a) + without_codes(b) =~= without_codes(b));
    } else {
        let ab = a + b;
        assert(ab[0] == a[0]);
        match code_len(a) {
            Some(n) => {
                lemma_code_end(a, 2);
                assert(ab[1] == a[1]);
                lemma_code_end_concat(a, b, 2);
                assert(code_len(ab) == Some(n));
                assert(ab.skip(n) =~= a.skip(n) + b);
                lemma_concat(a.skip(n), b);
            },
            None => {
                assert(code_len(ab) is None);
                assert(ab.skip(1) =~= a.skip(1) + b);
                lemma_concat(a.skip(1), b);
                assert(seq![a[0]] + (without_codes(a.skip(1)) + without_codes(b)) =~= (seq![a[0]]
                    + without_codes(a.skip(1))) + without_codes(b));
            },
        }
    }
}

/// Joining texts joins their plain forms.
pub broadcast proof fn lemma_plain_join(x1: Seq<char>, y1: Seq<char>, x2: Seq<char>, y2: Seq<char>)
    requires
        plain_as(x1, y1),
        plain_as(x2, y2),
    ensures
        #[trigger] plain_as(x1 + x2, y1 + y2),
{
    lemma_concat(x1, x2);
}

proof fn lemma_escape_free(s: Seq<char>)
    requires
        escape_free(s),
    ensures
        plain_as(s, s),
    decreases s.len(),
{
    if s.len() > 0 {
        assert(code_len(s) is None);
        assert(escape_free(s.skip(1))) by {
            assert forall|i: int| 0 <= i < s.skip(1).len() implies s.skip(1)[i] != '\x1b' by {
                assert(s.skip(1)[i] == s[i + 1]);
            }
        }
        lemma_escape_free(s.skip(1));
        assert(seq![s[0]] + s.skip(1) =~= s);
    }
}

proof fn lemma_words_0()
    ensures
        plain_as(""@, ""@),
        plain_as("Config is valid"@, "Config is valid"@),
        plain_as(" ("@, " ("@),
        plain_as(")\n"@, ")\n"@),
        plain_as("Explanation"@, "Explanation"@),
        plain_as("blue"@, "blue"@),
        plain_as(" are keys, "@, " are keys, "@),
        plain_as("bold blue"@, "bold blue"@),
        plain_as(" keys can be configured in config):"@, " keys can be configured in config):"@),
        plain_as("\n"@, "\n"@),
        plain_as("tab"@, "tab"@),
        plain_as(" and "@, " and "@),
        plain_as("grave"@, "grave"@),
        plain_as(" / "@, " / "@),
        plain_as("shift"@, "shift"@),
        plain_as(" + "@, " + "@),
{
    assert(plain_as(""@, ""@)) by {
        reveal_strlit("");
        lemma_escape_free(""@);
    }
    assert(plain_as("Config is valid"@, "Config is valid"@)) by {
        reveal_strlit("Config is valid");
        lemma_escape_free("Config is valid"@);
    }
    assert(plain_as(" ("@, " ("@)) by {
        reveal_strlit(" (");
        lemma_escape_free(" ("@);
    }
    assert(plain_as(")\n"@, ")\n"@)) by {
        reveal_strlit(")\n");
        lemma_escape_free(")\n"@);
    }
    assert(plain_as("Explanation"@, "Explanation"@)) by {
        reveal_strlit("Explanation");
        lemma_escape_free("Explanation"@);
    }
    assert(plain_as("blue"@, "blue"@)) by {
        reveal_strlit("blue");
        lemma_escape_free("blue"@);
    }
    assert(plain_as(" are keys, "@, " are keys, "@)) by {
        reveal_strlit(" are keys, ");
        lemma_escape_free(" are keys, "@);
    }
    assert(plain_as("bold blue"@, "bold blue"@)) by {
        reveal_strlit("bold blue");
        lemma_escape_free("bold blue"@);
    }
    assert(plain_as(" keys can be configured in config):"@, " keys can be configured in config):"@)) by {
        reveal_strlit(" keys can be configured in config):");
        lemma_escape_free(" keys can be configured in config):"@);
    }
    assert(plain_as("\n"@, "\n"@)) by {
        reveal_strlit("\n");
        lemma_escape_free("\n"@);
    }
    assert(plain_as("tab"@, "tab"@)) by {
        reveal_strlit("tab");
        lemma_escape_free("tab"@);
    }
    assert(plain_as(" and "@, " and "@)) by {
        reveal_strlit(" and ");
        lemma_escape_free(" and "@);
    }
    assert(plain_as("grave"@, "grave"@)) by {
        reveal_strlit("grave");
        lemma_escape_free("grave"@);
    }
    assert(plain_as(" / "@, " / "@)) by {
        reveal_strlit(" / ");
        lemma_escape_free(" / "@);
    }
    assert(plain_as("shift"@, "shift"@)) by {
        reveal_strlit("shift");
        lemma_escape_free("shift"@);
    }
    assert(plain_as(" + "@, " + "@)) by {
        reveal_strlit(" + ");
        lemma_escape_free(" + "@);
    }
}

proof fn lemma_words_1()
    ensures
        plain_as(" to select a different window, "@, " to select a different window, "@),
        plain_as("Use "@, "Use "@),
        plain_as(" to open the Overview. Use "@, " to open the Overview. Use "@),
        plain_as("press "@, "press "@),
        plain_as("return"@, "return"@),
        plain_as(" to switch\nYou can also use the "@, " to switch\nYou can also use the "@),
        plain_as("arrow keys"@, "arrow keys"@),
        plain_as(" or "@, " or "@),
        plain_as(" + vim keys to navigate the workspaces. Use "@, " + vim keys to navigate the workspaces. Use "@),
        plain_as("Esc"@, "Esc"@),
        plain_as(" to close the overview.\n"@, " to close the overview.\n"@),
        plain_as("After opening the Overview the "@, "After opening the Overview the "@),
        plain_as("Launcher"@, "Launcher"@),
        plain_as(" is available:\n"@, " is available:\n"@),
        plain_as(", "@, ", "@),
        plain_as("\t- Start typing to search through applications (sorted by how often they were opened).\n\t\tPress "@, "\t- Start typing to search through applications (sorted by how often they were opened).\n\t\tPress "@),
{
    assert(plain_as(" to select a different window, "@, " to select a different window, "@)) by {
        reveal_strlit(" to select a different window, ");
        lemma_escape_free(" to select a different window, "@);
    }
    assert(plain_as("Use "@, "Use "@)) by {
        reveal_strlit("Use ");
        lemma_escape_free("Use "@);
    }
    assert(plain_as(" to open the Overview. Use "@, " to open the Overview. Use "@)) by {
        reveal_strlit(" to open the Overview. Use ");
        lemma_escape_free(" to open the Overview. Use "@);
    }
    assert(plain_as("press "@, "press "@)) by {
        reveal_strlit("press ");
        lemma_escape_free("press "@);
    }
    assert(plain_as("return"@, "return"@)) by {
        reveal_strlit("return");
        lemma_escape_free("return"@);
    }
    assert(plain_as(" to switch\nYou can also use the "@, " to switch\nYou can also use the "@)) by {
        reveal_strlit(" to switch\nYou can also use the ");
        lemma_escape_free(" to switch\nYou can also use the "@);
    }
    assert(plain_as("arrow keys"@, "arrow keys"@)) by {
        reveal_strlit("arrow keys");
        lemma_escape_free("arrow keys"@);
    }
    assert(plain_as(" or "@, " or "@)) by {
        reveal_strlit(" or ");
        lemma_escape_free(" or "@);
    }
    assert(plain_as(" + vim keys to navigate the workspaces. Use "@, " + vim keys to navigate the workspaces. Use "@)) by {
        reveal_strlit(" + vim keys to navigate the workspaces. Use ");
        lemma_escape_free(" + vim keys to navigate the workspaces. Use "@);
    }
    assert(plain_as("Esc"@, "Esc"@)) by {
        reveal_strlit("Esc");
        lemma_escape_free("Esc"@);
    }
    assert(plain_as(" to close the overview.\n"@, " to close the overview.\n"@)) by {
        reveal_strlit(" to close the overview.\n");
        lemma_escape_free(" to close the overview.\n"@);
    }
    assert(plain_as("After opening the Overview the "@, "After opening the Overview the "@)) by {
        reveal_strlit("After opening the Overview the ");
        lemma_escape_free("After opening the Overview the "@);
    }
    assert(plain_as("Launcher"@, "Launcher"@)) by {
        reveal_strlit("Launcher");
        lemma_escape_free("Launcher"@);
    }
    assert(plain_as(" is available:\n"@, " is available:\n"@)) by {
        reveal_strlit(" is available:\n");
        lemma_escape_free(" is available:\n"@);
    }
    assert(plain_as(", "@, ", "@)) by {
        reveal_strlit(", ");
        lemma_escape_free(", "@);
    }
    assert(plain_as("\t- Start typing to search through applications (sorted by how often they were opened).\n\t\tPress "@, "\t- Start typing to search through applications (sorted by how often they were opened).\n\t\tPress "@)) by {
        reveal_strlit("\t- Start typing to search through applications (sorted by how often they were opened).\n\t\tPress ");
        lemma_escape_free("\t- Start typing to search through applications (sorted by how often they were opened).\n\t\tPress "@);
    }
}

proof fn lemma_words_2()
    ensures
        plain_as(" to launch the first app, use "@, " to launch the first app, use "@),
        plain_as("Ctrl"@, "Ctrl"@),
        plain_as("1"@, "1"@),
        plain_as("/"@, "/"@),
        plain_as("2"@, "2"@),
        plain_as("3"@, "3"@),
        plain_as("/... to open the second, third, etc.\n"@, "/... to open the second, third, etc.\n"@),
        plain_as("\t- Press "@, "\t- Press "@),
        plain_as("<key>"@, "<key>"@),
        plain_as(" to search the typed text in any of the configured SearchEngines: "@, " to search the typed text in any of the configured SearchEngines: "@),
        plain_as(".\n"@, ".\n"@),
        plain_as("\t- Typing `"@, "\t- Typing `"@),
        plain_as("` followed by a mathematical expression will calculate it and display the result in the launcher.\n"@, "` followed by a mathematical expression will calculate it and display the result in the launcher.\n"@),
        plain_as("\t- Typing a mathematical expression will calculate it and display the result in the launcher.\n"@, "\t- Typing a mathematical expression will calculate it and display the result in the launcher.\n"@),
        plain_as("\t- Paths (starting with ~ or /) can be open in default file-manager.\n"@, "\t- Paths (starting with ~ or /) can be open in default file-manager.\n"@),
        plain_as("\t- Type Reboot/Shutdown/etc. to run corresponding commands. Type `actions` to see all available ones.\n"@, "\t- Type Reboot/Shutdown/etc. to run corresponding commands. Type `actions` to see all available ones.\n"@),
{
    assert(plain_as(" to launch the first app, use "@, " to launch the first app, use "@)) by {
        reveal_strlit(" to launch the first app, use ");
        lemma_escape_free(" to launch the first app, use "@);
    }
    assert(plain_as("Ctrl"@, "Ctrl"@)) by {
        reveal_strlit("Ctrl");
        lemma_escape_free("Ctrl"@);
    }
    assert(plain_as("1"@, "1"@)) by {
        reveal_strlit("1");
        lemma_escape_free("1"@);
    }
    assert(plain_as("/"@, "/"@)) by {
        reveal_strlit("/");
        lemma_escape_free("/"@);
    }
    assert(plain_as("2"@, "2"@)) by {
        reveal_strlit("2");
        lemma_escape_free("2"@);
    }
    assert(plain_as("3"@, "3"@)) by {
        reveal_strlit("3");
        lemma_escape_free("3"@);
    }
    assert(plain_as("/... to open the second, third, etc.\n"@, "/... to open the second, third, etc.\n"@)) by {
        reveal_strlit("/... to open the second, third, etc.\n");
        lemma_escape_free("/... to open the second, third, etc.\n"@);
    }
    assert(plain_as("\t- Press "@, "\t- Press "@)) by {
        reveal_strlit("\t- Press ");
        lemma_escape_free("\t- Press "@);
    }
    assert(plain_as("<key>"@, "<key>"@)) by {
        reveal_strlit("<key>");
        lemma_escape_free("<key>"@);
    }
    assert(plain_as(" to search the typed text in any of the configured SearchEngines: "@, " to search the typed text in any of the configured SearchEngines: "@)) by {
        reveal_strlit(" to search the typed text in any of the configured SearchEngines: ");
        lemma_escape_free(" to search the typed text in any of the configured SearchEngines: "@);
    }
    assert(plain_as(".\n"@, ".\n"@)) by {
        reveal_strlit(".\n");
        lemma_escape_free(".\n"@);
    }
    assert(plain_as("\t- Typing `"@, "\t- Typing `"@)) by {
        reveal_strlit("\t- Typing `");
        lemma_escape_free("\t- Typing `"@);
    }
    assert(plain_as("` followed by a mathematical expression will calculate it and display the result in the launcher.\n"@, "` followed by a mathematical expression will calculate it and display the result in the launcher.\n"@)) by {
        reveal_strlit("` followed by a mathematical expression will calculate it and display the result in the launcher.\n");
        lemma_escape_free("` followed by a mathematical expression will calculate it and display the result in the launcher.\n"@);
    }
    assert(plain_as("\t- Typing a mathematical expression will calculate it and display the result in the launcher.\n"@, "\t- Typing a mathematical expression will calculate it and display the result in the launcher.\n"@)) by {
        reveal_strlit("\t- Typing a mathematical expression will calculate it and display the result in the launcher.\n");
        lemma_escape_free("\t- Typing a mathematical expression will calculate it and display the result in the launcher.\n"@);
    }
    assert(plain_as("\t- Paths (starting with ~ or /) can be open in default file-manager.\n"@, "\t- Paths (starting with ~ or /) can be open in default file-manager.\n"@)) by {
        reveal_strlit("\t- Paths (starting with ~ or /) can be open in default file-manager.\n");
        lemma_escape_free("\t- Paths (starting with ~ or /) can be open in default file-manager.\n"@);
    }
    assert(plain_as("\t- Type Reboot/Shutdown/etc. to run corresponding commands. Type `actions` to see all available ones.\n"@, "\t- Type Reboot/Shutdown/etc. to run corresponding commands. Type `actions` to see all available ones.\n"@)) by {
        reveal_strlit("\t- Type Reboot/Shutdown/etc. to run corresponding commands. Type `actions` to see all available ones.\n");
        lemma_escape_free("\t- Type Reboot/Shutdown/etc. to run corresponding commands. Type `actions` to see all available ones.\n"@);
    }
}

proof fn lemma_words_3()
    ensures
        plain_as("\t<No plugins enabled in launcher>"@, "\t<No plugins enabled in launcher>"@),
        plain_as("t"@, "t"@),
        plain_as(" to run the typed command in a terminal.\n"@, " to run the typed command in a terminal.\n"@),
        plain_as("r"@, "r"@),
        plain_as(" to run the typed command in the background.\n"@, " to run the typed command in the background.\n"@),
        plain_as("Press "@, "Press "@),
        plain_as(" and hold "@, " and hold "@),
        plain_as(" to view recently used applications. Press "@, " to view recently used applications. Press "@),
        plain_as("release "@, "release "@),
        plain_as(" to close the window.\n"@, " to close the window.\n"@),
        plain_as("<Overview disabled>"@, "<Overview disabled>"@),
        plain_as("<Switch mode disabled>"@, "<Switch mode disabled>"@),
        plain_as("<Windows disabled>"@, "<Windows disabled>"@),
        plain_as("Alt"@, "Alt"@),
        plain_as("Super"@, "Super"@),
        plain_as("None"@, "None"@),
{
    assert(plain_as("\t<No plugins enabled in launcher>"@, "\t<No plugins enabled in launcher>"@)) by {
        reveal_strlit("\t<No plugins enabled in launcher>");
        lemma_escape_free("\t<No plugins enabled in launcher>"@);
    }
    assert(plain_as("t"@, "t"@)) by {
        reveal_strlit("t");
        lemma_escape_free("t"@);
    }
    assert(plain_as(" to run the typed command in a terminal.\n"@, " to run the typed command in a terminal.\n"@)) by {
        reveal_strlit(" to run the typed command in a terminal.\n");
        lemma_escape_free(" to run the typed command in a terminal.\n"@);
    }
    assert(plain_as("r"@, "r"@)) by {
        reveal_strlit("r");
        lemma_escape_free("r"@);
    }
    assert(plain_as(" to run the typed command in the background.\n"@, " to run the typed command in the background.\n"@)) by {
        reveal_strlit(" to run the typed command in the background.\n");
        lemma_escape_free(" to run the typed command in the background.\n"@);
    }
    assert(plain_as("Press "@, "Press "@)) by {
        reveal_strlit("Press ");
        lemma_escape_free("Press "@);
    }
    assert(plain_as(" and hold "@, " and hold "@)) by {
        reveal_strlit(" and hold ");
        lemma_escape_free(" and hold "@);
    }
    assert(plain_as(" to view recently used applications. Press "@, " to view recently used applications. Press "@)) by {
        reveal_strlit(" to view recently used applications. Press ");
        lemma_escape_free(" to view recently used applications. Press "@);
    }
    assert(plain_as("release "@, "release "@)) by {
        reveal_strlit("release ");
        lemma_escape_free("release "@);
    }
    assert(plain_as(" to close the window.\n"@, " to close the window.\n"@)) by {
        reveal_strlit(" to close the window.\n");
        lemma_escape_free(" to close the window.\n"@);
    }
    assert(plain_as("<Overview disabled>"@, "<Overview disabled>"@)) by {
        reveal_strlit("<Overview disabled>");
        lemma_escape_free("<Overview disabled>"@);
    }
    assert(plain_as("<Switch mode disabled>"@, "<Switch mode disabled>"@)) by {
        reveal_strlit("<Switch mode disabled>");
        lemma_escape_free("<Switch mode disabled>"@);
    }
    assert(plain_as("<Windows disabled>"@, "<Windows disabled>"@)) by {
        reveal_strlit("<Windows disabled>");
        lemma_escape_free("<Windows disabled>"@);
    }
    assert(plain_as("Alt"@, "Alt"@)) by {
        reveal_strlit("Alt");
        lemma_escape_free("Alt"@);
    }
    assert(plain_as("Super"@, "Super"@)) by {
        reveal_strlit("Super");
        lemma_escape_free("Super"@);
    }
    assert(plain_as("None"@, "None"@)) by {
        reveal_strlit("None");
        lemma_escape_free("None"@);
    }
}

/// Each colour of `p` is a colour code that leaves the matching text of
/// `q` (empty in the plain palette).
pub open spec fn palette_plain(p: PaletteText, q: PaletteText) -> bool {
    &&& plain_as(p.bold, q.bold)
    &&& plain_as(p.italic, q.italic)
    &&& plain_as(p.blue, q.blue)
    &&& plain_as(p.green, q.green)
    &&& plain_as(p.reset, q.reset)
}

proof fn lemma_palette()
    ensures
        palette_plain(palette_text(true), palette_text(false)),
{
    reveal_strlit("\x1b[1m");
    reveal_strlit("\x1b[3m");
    reveal_strlit("\x1b[34m");
    reveal_strlit("\x1b[32m");
    reveal_strlit("\x1b[0m");
    reveal_strlit("");
    reveal_with_fuel(code_end, 4);
    let p = palette_text(true);
    let q = palette_text(false);
    assert(""@ =~= Seq::<char>::empty());
    lemma_code(p.bold);
    lemma_code(p.italic);
    lemma_code(p.blue);
    lemma_code(p.green);
    lemma_code(p.reset);
}

proof fn lemma_code(c: Seq<char>)
    requires
        code_len(c) == Some(c.len() as int),
    ensures
        plain_as(c, Seq::<char>::empty()),
{
    assert(c.len() > 0);
    let e = c.skip(c.len() as int);
    assert(e =~= Seq::<char>::empty());
    assert(codes_closed(e));
    assert(without_codes(e) == e);
    assert(without_codes(c) == without_codes(e));
    assert(codes_closed(c) == codes_closed(e));
}

proof fn lemma_label(m: Modifier)
    ensures
        plain_as(modifier_label(m), modifier_label(m)),
{
    lemma_words_0();
    lemma_words_1();
    lemma_words_2();
    lemma_words_3();
    match m {
        Modifier::Alt => {},
        Modifier::Ctrl => {},
        Modifier::Super => {},
        Modifier::NoModifier => {},
    }
}

proof fn lemma_engine_names(e: Seq<SearchEngine>)
    requires
        forall|i: int| 0 <= i < e.len() ==> escape_free(#[trigger] e[i].name@),
    ensures
        plain_as(engine_names(e), engine_names(e)),
    decreases e.len(),
{
    broadcast use lemma_plain_join;

    lemma_words_2();
    lemma_words_1();
    if e.len() == 0 {
    } else if e.len() == 1 {
        lemma_escape_free(e[0].name@);
    } else {
        let u = e.drop_last();
        assert forall|i: int| 0 <= i < u.len() implies escape_free(#[trigger] u[i].name@) by {
            assert(u[i] == e[i]);
        }
        lemma_engine_names(u);
        lemma_escape_free(e.last().name@);
    }
}

#[verifier::spinoff_prover]
#[verifier::rlimit(40)]
proof fn lemma_header(p: PaletteText, q: PaletteText, file: Seq<char>)
    requires
        palette_plain(p, q),
        escape_free(file),
    ensures
        plain_as(header_text(p, file), header_text(q, file)),
{
    broadcast use lemma_plain_join;

    lemma_words_0();
    lemma_escape_free(file);
}

proof fn lemma_select(p: PaletteText, q: PaletteText)
    requires
        palette_plain(p, q),
    ensures
        plain_as(select_text(p), select_text(q)),
{
    broadcast use lemma_plain_join;

    lemma_words_0();
    lemma_words_1();
}

#[verifier::spinoff_prover]
#[verifier::rlimit(40)]
proof fn lemma_overview_keys(p: PaletteText, q: PaletteText, o: Overview)
    requires
        palette_plain(p, q),
        escape_free(o.key@),
    ensures
        plain_as(overview_keys_text(p, o), overview_keys_text(q, o)),
{
    broadcast use lemma_plain_join;

    lemma_words_0();
    lemma_words_1();
    lemma_select(p, q);
    lemma_label(o.modifier);
    lemma_label(o.launcher.launch_modifier);
    lemma_escape_free(o.key@);
}

pub open spec fn launcher_plain(l: Launcher) -> bool {
    &&& (l.plugins.websearch matches Some(w) ==> forall|i: int|
        0 <= i < w.engines@.len() ==> escape_free(#[trigger] w.engines@[i].name@))
    &&& (l.plugins.calc matches Some(c) ==> (c.prefix matches Some(x) ==> escape_free(x@)))
}

#[verifier::spinoff_prover]
#[verifier::rlimit(40)]
proof fn lemma_plugins(p: PaletteText, q: PaletteText, l: Launcher)
    requires
        palette_plain(p, q),
        launcher_plain(l),
    ensures
        plain_as(plugins_text(p, l), plugins_text(q, l)),
{
    broadcast use lemma_plain_join;

    lemma_words_0();
    lemma_words_1();
    lemma_words_2();
    lemma_words_3();
    let ps = l.plugins;
    let app = applications_text(p);
    assert(plain_as(app, applications_text(q)));
    assert(plain_as(opt_text(ps.applications is Some, app), opt_text(ps.applications is Some, applications_text(q))));
    let term = ctrl_key_text(p, "t"@, " to run the typed command in a terminal.\n"@);
    assert(plain_as(term, ctrl_key_text(q, "t"@, " to run the typed command in a terminal.\n"@)));
    let shell = ctrl_key_text(p, "r"@, " to run the typed command in the background.\n"@);
    assert(plain_as(shell, ctrl_key_text(q, "r"@, " to run the typed command in the background.\n"@)));
    assert(plain_as(path_text(), path_text()));
    assert(plain_as(actions_text(), actions_text()));
    match ps.websearch {
        Some(w) => {
            lemma_engine_names(w.engines@);
            assert(plain_as(websearch_text(p, w.engines@), websearch_text(q, w.engines@)));
        },
        None => {},
    }
    match ps.calc {
        Some(c) => {
            match c.prefix {
                Some(x) => {
                    lemma_escape_free(x@);
                },
                None => {},
            }
            assert(plain_as(calc_text(c.prefix), calc_text(c.prefix)));
        },
        None => {},
    }
}

#[verifier::spinoff_prover]
#[verifier::rlimit(40)]
proof fn lemma_switch(p: PaletteText, q: PaletteText, s: Switch)
    requires
        palette_plain(p, q),
    ensures
        plain_as(switch_text(p, s), switch_text(q, s)),
{
    broadcast use lemma_plain_join;

    lemma_words_0();
    lemma_words_1();
    lemma_words_2();
    lemma_words_3();
    lemma_select(p, q);
    lemma_label(s.modifier);
}

/// The texts of the configuration that the explanation quotes hold no
/// escape character: the overview key, the search engine names and the
/// calculator prefix.
pub open spec fn config_plain(c: Config) -> bool {
    c.windows matches Some(w) ==> (w.overview matches Some(o) ==> escape_free(o.key@)
        && launcher_plain(o.launcher))
}

/// The coloured explanation, with its colour codes removed, is the plain
/// explanation, when the quoted texts hold no escape character.
#[verifier::spinoff_prover]
#[verifier::rlimit(40)]
pub proof fn law_colours_only_add_codes(config: Config, file: Option<Seq<char>>)
    requires
        config_plain(config),
        file matches Some(f) ==> escape_free(f),
    ensures
        codes_closed(explain_text(config, file, palette_text(true))),
        without_codes(explain_text(config, file, palette_text(true))) == explain_text(
            config,
            file,
            palette_text(false),
        ),
{
    broadcast use lemma_plain_join;

    let p = palette_text(true);
    let q = palette_text(false);
    lemma_palette();
    lemma_words_0();
    lemma_words_1();
    lemma_words_2();
    lemma_words_3();
    let empty = Seq::<char>::empty();
    assert(plain_as(empty, empty));
    match file {
        Some(f) => lemma_header(p, q, f),
        None => {},
    }
    let head_p = match file {
        Some(f) => header_text(p, f),
        None => empty,
    };
    let head_q = match file {
        Some(f) => header_text(q, f),
        None => empty,
    };
    assert(plain_as(head_p, head_q));
    assert(plain_as(p.note("<Windows disabled>"@) + "\n"@, q.note("<Windows disabled>"@) + "\n"@));
    assert(plain_as(p.note("<Overview disabled>"@) + "\n"@, q.note("<Overview disabled>"@) + "\n"@));
    assert(plain_as(p.note("<Switch mode disabled>"@) + "\n"@, q.note("<Switch mode disabled>"@) + "\n"@));
    match config.windows {
        Some(w) => {
            match w.overview {
                Some(o) => {
                    lemma_overview_keys(p, q, o);
                    lemma_plugins(p, q, o.launcher);
                    assert(plain_as(
                        overview_keys_text(p, o) + plugins_text(p, o.launcher),
                        overview_keys_text(q, o) + plugins_text(q, o.launcher),
                    ));
                },
                None => {},
            }
            match w.switch {
                Some(s) => lemma_switch(p, q, s),
                None => {},
            }
        },
        None => {},
    }
    assert(plain_as(explain_text(config, file, p), explain_text(config, file, q)));
}

} // verus!
