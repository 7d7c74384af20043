//! The web search plugin: one entry per configured search engine.
use vstd::prelude::*;
use crate::config::{SearchEngine, WebSearchConfig};
use crate::launcher::{command_line, command_line_for, PluginItem, PluginReturn};
use crate::text::{owned, replaced, replace_all};
use crate::transfer::{Identifier, PluginName};

verus! {

/// The default browser's desktop entry.
#[derive(Debug)]
pub struct BrowserData {
    /// The `Exec` line, possibly with a `%u`, `%U`, `%f` or `%F` placeholder.
    pub exec_line: String,
    pub startup_wm_class: Option<String>,
    pub icon: Option<String>,
}

/// What launching a search runs.
#[derive(Debug)]
pub struct UrlLaunch {
    /// The browser command line.
    pub command: String,
    /// The window class to focus afterwards, when the browser names one.
    pub focus_class: Option<String>,
}

/// The search url: `{}` in the engine's url replaced by the search text.
pub open spec fn search_url(url: Seq<char>, text: Seq<char>) -> Seq<char> {
    replaced(url, "{}"@, text)
}

/// The browser command line that opens `url` (quoted).
pub open spec fn browser_command(exec: Seq<char>, url: Seq<char>) -> Seq<char> {
    command_line(exec, "'"@ + url + "'"@)
}

/// The entry of a search engine: its name, "Search with" and its name as
/// details, selected by its key; the icon is the browser's.
pub open spec fn engine_item(e: SearchEngine, icon: Option<String>, item: PluginItem) -> bool {
    &&& item.icon == icon
    &&& item.iden.plugin == PluginName::WebSearch
    &&& item.iden.data == Some(e.url)
    &&& item.iden.data_additional is None
    &&& item.key == e.key
    &&& item.text@ == e.name@
    &&& item.details@ == "Search with "@ + e.name@
}

fn engine_to_item(e: &SearchEngine, icon: &Option<String>) -> (r: PluginItem)
    ensures
        engine_item(*e, *icon, r),
{
    let mut details = owned("Search with ");
    details.append(e.name.as_str());
    PluginItem {
        icon: icon.clone(),
        iden: Identifier::data(PluginName::WebSearch, e.url.clone()),
        key: e.key,
        text: e.name.clone(),
        details,
    }
}

/// The entries of the configured search engines, in configuration order,
/// each with the browser's icon.
pub fn get_static_options(config: &WebSearchConfig, browser_icon: &Option<String>) -> (r: Vec<
    PluginItem,
>)
    ensures
        r.len() == config.engines.len(),
        forall|i: int| 0 <= i < r.len() ==> engine_item(config.engines[i], *browser_icon, #[trigger] r[i]),
{
    let mut out: Vec<PluginItem> = Vec::new();
    let mut i: usize = 0;
    while i < config.engines.len()
        invariant
            i <= config.engines.len(),
            out.len() == i,
            forall|j: int| 0 <= j < i ==> engine_item(config.engines[j], *browser_icon, #[trigger] out[j]),
        decreases config.engines.len() - i,
    {
        out.push(engine_to_item(&config.engines[i], browser_icon));
        i += 1;
    }
    out
}

/// Launches a search for `text` with the engine whose url is `iden`.
/// Nothing happens for an empty text; without an engine nothing runs but the
/// animation plays.
pub fn launch_option(iden: Option<&str>, text: &str, browser: &BrowserData) -> (r: (
    PluginReturn,
    Option<UrlLaunch>,
))
    ensures
        r.0.show_animation == (text@.len() > 0),
        r.1 is Some <==> (text@.len() > 0 && iden is Some),
        r.1 matches Some(l) ==> l.command@ == browser_command(
            browser.exec_line@,
            search_url(iden->0@, text@),
        ) && l.focus_class == browser.startup_wm_class,
{
    if text.unicode_len() == 0 {
        return (PluginReturn { show_animation: false }, None);
    }
    match iden {
        Some(url_template) => {
            proof {
                reveal_strlit("{}");
                reveal_strlit("'");
            }
            let url = replace_all(url_template, "{}", text);
            let mut quoted = owned("'");
            quoted.append(url.as_str());
            quoted.append("'");
            let command = command_line_for(browser.exec_line.as_str(), quoted.as_str());
            (
                PluginReturn { show_animation: true },
                Some(UrlLaunch { command, focus_class: browser.startup_wm_class.clone() }),
            )
        },
        None => (PluginReturn { show_animation: true }, None),
    }
}

/// The browser a desktop entry describes: it needs an `Exec` line.
pub fn browser_from_entry(
    exec: Option<String>,
    startup_wm_class: Option<String>,
    icon: Option<String>,
) -> (r: Option<BrowserData>)
    ensures
        r == match exec {
            Some(e) => Some(BrowserData { exec_line: e, startup_wm_class, icon }),
            None => None,
        },
{
    match exec {
        Some(e) => Some(BrowserData { exec_line: e, startup_wm_class, icon }),
        None => None,
    }
}

/// The command that opens a url through the desktop portal.
pub open spec fn portal_open_uri() -> Seq<char> {
    "gdbus call --session --dest=\"org.freedesktop.portal.Desktop\" --object-path=/org/freedesktop/portal/desktop --method=org.freedesktop.portal.OpenURI.OpenURI '' '%u' '{}'"@
}

/// The default browser when one was found, else the desktop portal, with
/// firefox as the window to focus.
pub fn get_browser_info(found: Option<BrowserData>) -> (r: BrowserData)
    ensures
        found is Some ==> r == found->0,
        found is None ==> r.exec_line@ == portal_open_uri(),
        found is None ==> r.startup_wm_class is Some && r.startup_wm_class->0@ == "firefox"@,
        found is None ==> r.icon is Some && r.icon->0@ == "Dbus"@,
{
    match found {
        Some(b) => b,
        None => BrowserData {
            exec_line: owned(
                "gdbus call --session --dest=\"org.freedesktop.portal.Desktop\" --object-path=/org/freedesktop/portal/desktop --method=org.freedesktop.portal.OpenURI.OpenURI '' '%u' '{}'",
            ),
            startup_wm_class: Some(owned("firefox")),
            icon: Some(owned("Dbus")),
        },
    }
}

/// The keys that select an entry directly: lower-case ASCII letters.
pub open spec fn is_key_letter(c: char) -> bool {
    'a' <= c <= 'z'
}

/// The key that types `c`, when it is a key letter.
pub fn convert_to_key(c: char) -> (r: Option<char>)
    ensures
        r == (if is_key_letter(c) {
            Some(c)
        } else {
            None
        }),
{
    if 'a' <= c && c <= 'z' {
        Some(c)
    } else {
        None
    }
}

/// The engine keys that are key letters, in order.
pub open spec fn key_letters(engines: Seq<SearchEngine>) -> Seq<char>
    decreases engines.len(),
{
    if engines.len() == 0 {
        seq![]
    } else {
        let rest = key_letters(engines.drop_last());
        if is_key_letter(engines.last().key) {
            rest.push(engines.last().key)
        } else {
            rest
        }
    }
}

/// The keys the search engines are selected with.
pub fn get_chars(config: &WebSearchConfig) -> (r: Vec<char>)
    ensures
        r@ == key_letters(config.engines@),
{
    let mut out: Vec<char> = Vec::new();
    let mut i: usize = 0;
    while i < config.engines.len()
        invariant
            i <= config.engines.len(),
            out@ == key_letters(config.engines@.take(i as int)),
        decreases config.engines.len() - i,
    {
        proof {
            assert(config.engines@.take(i + 1).drop_last() =~= config.engines@.take(i as int));
        }
        if let Some(k) = convert_to_key(config.engines[i].key) {
            out.push(k);
        }
        i = i + 1;
    }
    proof {
        assert(config.engines@.take(i as int) =~= config.engines@);
    }
    out
}

} // verus!
