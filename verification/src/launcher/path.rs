//! The path plugin: typing a path offers to open it in the file manager.
use vstd::prelude::*;
use crate::launcher::{
    command_line, command_line_for, LaunchItem, MatchedLaunchItem, PluginReturn,
};
use crate::text::{byte_len, owned, utf8_len};
use crate::transfer::{Identifier, PluginName};

verus! {

/// The default file manager's desktop entry.
#[derive(Debug)]
pub struct FilemanagerData {
    /// The `Exec` line, possibly with a `%u`, `%U`, `%f` or `%F` placeholder.
    pub exec_line: String,
    pub name: String,
    pub icon: Option<String>,
}

/// The path that `text` names, when it starts with `/` or `~`; a leading
/// `~` stands for `home`.
pub open spec fn path_target(text: Seq<char>, home: Seq<char>) -> Option<Seq<char>> {
    if text.len() > 0 && text[0] == '/' {
        Some(text)
    } else if text.len() > 0 && text[0] == '~' {
        Some(home + text.skip(1))
    } else {
        None
    }
}

/// The path that `text` names, if it is a path query.
pub fn path_query(text: &str, home: &str) -> (r: Option<String>)
    ensures
        r matches Some(p) ==> path_target(text@, home@) == Some(p@),
        r is None ==> path_target(text@, home@) is None,
{
    if text.unicode_len() == 0 {
        return None;
    }
    let c = text.get_char(0);
    if c == '/' {
        Some(owned(text))
    } else if c == '~' {
        let mut p = owned(home);
        let mut i: usize = 1;
        let n = text.unicode_len();
        while i < n
            invariant
                n == text@.len(),
                1 <= i <= n,
                p@ == home@ + text@.subrange(1, i as int),
            decreases n - i,
        {
            crate::text::push_char(&mut p, text.get_char(i));
            i += 1;
            assert(p@ =~= home@ + text@.subrange(1, i as int));
        }
        assert(text@.subrange(1, n as int) =~= text@.skip(1));
        Some(p)
    } else {
        None
    }
}

/// The entry that offers to open the typed path: "Open in" and the file
/// manager's name, scored by that name's length in bytes, enabled when the
/// path exists.
pub open spec fn open_item(fm: FilemanagerData, exists: bool, m: MatchedLaunchItem) -> bool {
    &&& m.item.name@ == "Open in "@ + fm.name@
    &&& m.item.icon == fm.icon
    &&& m.item.keywords.len() == 0
    &&& m.item.details@ == Seq::<char>::empty()
    &&& m.item.details_long is None
    &&& m.item.bonus_score == 0
    &&& !m.item.takes_args
    &&& m.item.iden == Identifier { plugin: PluginName::Path, data: None, data_additional: None }
    &&& m.item.children.len() == 0
    &&& m.score == utf8_len("Open in "@ + fm.name@)
    &&& m.args is None
    &&& m.enabled == exists
}

/// The entries for the typed `text`: one to open it in the file manager
/// when it starts with `/` or `~`, none otherwise. `exists` tells whether
/// the path it names exists.
pub fn get_launch_items(text: &str, file_manager: &FilemanagerData, exists: bool) -> (r: Vec<
    MatchedLaunchItem,
>)
    requires
        utf8_len(file_manager.name@) + 8 <= u64::MAX,
    ensures
        path_target(text@, Seq::empty()) is None ==> r.len() == 0,
        path_target(text@, Seq::empty()) is Some ==> r.len() == 1 && open_item(
            *file_manager,
            exists,
            r[0],
        ),
{
    let is_path = text.unicode_len() > 0 && (text.get_char(0) == '/' || text.get_char(0) == '~');
    if !is_path {
        return Vec::new();
    }
    proof {
        reveal_strlit("Open in ");
    }
    let mut name = owned("Open in ");
    name.append(file_manager.name.as_str());
    proof {
        lemma_utf8_len_concat("Open in "@, file_manager.name@);
        assert(utf8_len("Open in "@) == 8) by {
            reveal_with_fuel(utf8_len, 9);
        }
    }
    let score = byte_len(name.as_str());
    let item = LaunchItem {
        icon: file_manager.icon.clone(),
        name,
        keywords: Vec::new(),
        details: String::new(),
        details_long: None,
        bonus_score: 0,
        takes_args: false,
        iden: Identifier::plugin(PluginName::Path),
        children: Vec::new(),
    };
    let mut out = Vec::new();
    out.push(MatchedLaunchItem { item, score, args: None, enabled: exists });
    out
}

/// Bytes of a concatenation add up.
pub proof fn lemma_utf8_len_concat(a: Seq<char>, b: Seq<char>)
    ensures
        utf8_len(a + b) == utf8_len(a) + utf8_len(b),
    decreases b.len(),
{
    if b.len() == 0 {
        assert(a + b =~= a);
    } else {
        lemma_utf8_len_concat(a, b.drop_last());
        assert((a + b).drop_last() =~= a + b.drop_last());
    }
}

/// Opens the folder `text` in the file manager; nothing happens for an
/// empty text.
pub fn launch_option(text: &str, file_manager: &FilemanagerData) -> (r: (PluginReturn, Option<
    String,
>))
    ensures
        r.0.show_animation == (text@.len() > 0),
        text@.len() == 0 ==> r.1 is None,
        text@.len() > 0 ==> (r.1 matches Some(c) && c@ == command_line(file_manager.exec_line@, text@)),
{
    if text.unicode_len() == 0 {
        return (PluginReturn { show_animation: false }, None);
    }
    let command = command_line_for(file_manager.exec_line.as_str(), text);
    (PluginReturn { show_animation: true }, Some(command))
}

/// The file manager a desktop entry describes: it needs an `Exec` line; the
/// name is empty when missing.
pub fn file_manager_from_entry(
    exec: Option<String>,
    name: Option<String>,
    icon: Option<String>,
) -> (r: Option<FilemanagerData>)
    ensures
        exec is None ==> r is None,
        exec matches Some(e) ==> r matches Some(f) && f.exec_line == e && f.icon == icon
            && f.name@ == match name {
            Some(n) => n@,
            None => Seq::<char>::empty(),
        },
{
    match exec {
        Some(e) => {
            let name = match name {
                Some(n) => n,
                None => String::new(),
            };
            Some(FilemanagerData { exec_line: e, name, icon })
        },
        None => None,
    }
}

/// The command that shows a folder through the file manager service.
pub open spec fn show_folders() -> Seq<char> {
    "gdbus call --session --dest=\"org.freedesktop.FileManager1\" --object-path=/org/freedesktop/FileManager1 --method=org.freedesktop.FileManager1.ShowFolders \"['file://%u']\" ''"@
}

/// The default file manager when one was found, else the file manager
/// service, shown as "Dbus" with the nautilus icon.
pub fn get_file_manager_info(found: Option<FilemanagerData>) -> (r: FilemanagerData)
    ensures
        found is Some ==> r == found->0,
        found is None ==> r.exec_line@ == show_folders() && r.name@ == "Dbus"@,
        found is None ==> r.icon is Some && r.icon->0@ == "org.gnome.Nautilus"@,
{
    match found {
        Some(f) => f,
        None => FilemanagerData {
            exec_line: owned(
                "gdbus call --session --dest=\"org.freedesktop.FileManager1\" --object-path=/org/freedesktop/FileManager1 --method=org.freedesktop.FileManager1.ShowFolders \"['file://%u']\" ''",
            ),
            name: owned("Dbus"),
            icon: Some(owned("org.gnome.Nautilus")),
        },
    }
}

} // verus!
