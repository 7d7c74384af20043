//! Per-application workarounds, such as icon overrides, and the migration
//! of their file.
use vstd::prelude::*;
use crate::migrate::MigrationError;
use crate::text::owned;
use crate::workarounds_io as io;
use crate::workarounds_io::CURRENT_WORKARROUND_VERSION;

verus! {

#[derive(Debug, Clone, PartialEq, Eq)]
pub struct Workarrounds {
    pub class_to_icon: Vec<ClassToIcon>,
}

#[derive(Debug, Clone, PartialEq, Eq)]
pub struct ClassToIcon {
    pub class: String,
    pub icon: String,
}

/// An entry of the file is refused when it is marked `enabled`.
#[derive(Debug, Clone, Copy, PartialEq, Eq, Structural)]
pub enum WorkaroundError {
    Enabled,
}

/// The entries that the conversion keeps: those not marked `enabled`, in
/// their order.
pub open spec fn kept_entries(v: Seq<io::ClassToIcon>) -> Seq<io::ClassToIcon>
    decreases v.len(),
{
    if v.len() == 0 {
        Seq::empty()
    } else {
        let rest = kept_entries(v.drop_last());
        if v.last().enabled {
            rest
        } else {
            rest.push(v.last())
        }
    }
}

impl ClassToIcon {
    /// The icon override of one file entry; an entry marked `enabled` is
    /// refused.
    pub fn try_from(value: io::ClassToIcon) -> (r: Result<Self, WorkaroundError>)
        ensures
            value.enabled ==> r == Err::<Self, WorkaroundError>(WorkaroundError::Enabled),
            !value.enabled ==> (r matches Ok(c) && c.class == value.class && c.icon == value.icon),
    {
        if value.enabled {
            return Err(WorkaroundError::Enabled);
        }
        Ok(ClassToIcon { class: value.class, icon: value.icon })
    }
}

impl Workarrounds {
    /// The workarounds of a file: refused entries are left out.
    pub fn from_io(value: io::Workarrounds) -> (r: Self)
        ensures
            r.class_to_icon@.len() == kept_entries(value.class_to_icon@).len(),
            forall|i: int|
                0 <= i < r.class_to_icon@.len() ==> (#[trigger] r.class_to_icon@[i]).class
                    == kept_entries(value.class_to_icon@)[i].class && r.class_to_icon@[i].icon
                    == kept_entries(value.class_to_icon@)[i].icon,
    {
        let ghost orig = value.class_to_icon@;
        let total = value.class_to_icon.len();
        let mut rest = value.class_to_icon;
        let mut out: Vec<ClassToIcon> = Vec::new();
        let mut n: usize = 0;
        while rest.len() > 0
            invariant
                n + rest@.len() == orig.len(),
                total == orig.len(),
                rest@ == orig.subrange(n as int, orig.len() as int),
                out@.len() == kept_entries(orig.subrange(0, n as int)).len(),
                forall|i: int|
                    0 <= i < out@.len() ==> (#[trigger] out@[i]).class == kept_entries(
                        orig.subrange(0, n as int),
                    )[i].class && out@[i].icon == kept_entries(orig.subrange(0, n as int))[i].icon,
            decreases rest@.len(),
        {
            let e = rest.remove(0);
            proof {
                assert(orig.subrange(0, n + 1).drop_last() =~= orig.subrange(0, n as int));
                assert(orig.subrange(0, n + 1).last() == e);
            }
            match ClassToIcon::try_from(e) {
                Ok(c) => out.push(c),
                Err(_) => {},
            }
            n += 1;
            assert(rest@ =~= orig.subrange(n as int, orig.len() as int));
        }
        assert(orig.subrange(0, n as int) =~= orig);
        Workarrounds { class_to_icon: out }
    }
}

impl Default for Workarrounds {
    fn default() -> (r: Self)
        ensures
            r.class_to_icon@.len() == 0,
    {
        Workarrounds::from_io(io::Workarrounds::default())
    }
}

/// Whether a workarounds file of `version` must be migrated: newer
/// versions are refused, older ones need migration.
pub fn check_migration_needed(version: u64) -> (r: Result<bool, MigrationError>)
    ensures
        version > CURRENT_WORKARROUND_VERSION ==> r == Err::<bool, MigrationError>(
            MigrationError::NewerThanSupported,
        ),
        version <= CURRENT_WORKARROUND_VERSION ==> r == Ok::<bool, MigrationError>(
            version != CURRENT_WORKARROUND_VERSION,
        ),
{
    if version > CURRENT_WORKARROUND_VERSION {
        return Err(MigrationError::NewerThanSupported);
    }
    Ok(version != CURRENT_WORKARROUND_VERSION)
}

/// The entry `key` of the root table of TOML text, as toml_edit reads it:
/// `None` when the text is no TOML document, `Some(None)` when the root
/// table has no entry `key`, `Some(Some(None))` when that entry is no
/// integer.
pub uninterp spec fn toml_root_integer(text: Seq<char>, key: Seq<char>) -> Option<Option<Option<i64>>>;

/// Trusted: parses `text` with toml_edit (`DocumentMut` from `str`), then
/// reads the root table's entry `key` with `Table::get` and
/// `Item::as_integer`. The result depends on the text and the key alone and
/// is named `toml_root_integer`; what the TOML grammar accepts is left to
/// toml_edit.
#[verifier::external_body]
fn parse_root_integer(text: &str, key: &str) -> (r: Option<Option<Option<i64>>>)
    ensures
        r == toml_root_integer(text@, key@),
{
    match text.parse::<toml_edit::DocumentMut>() {
        Ok(doc) => Some(doc.get(key).map(toml_edit::Item::as_integer)),
        Err(_) => None,
    }
}

/// The version entry of a workarounds file's text, as toml_edit reads it.
pub open spec fn toml_version(text: Seq<char>) -> Option<Option<Option<i64>>> {
    toml_root_integer(text, "version"@)
}

/// The version a parsed workarounds document declares (an integer whose
/// bits are taken as unsigned).
pub open spec fn document_version(parsed: Option<Option<Option<i64>>>) -> Result<u64, MigrationError> {
    match parsed {
        None => Err(MigrationError::InvalidToml),
        Some(Some(Some(v))) => Ok(v as u64),
        Some(_) => Err(MigrationError::NoVersion),
    }
}

/// The version in a parsed workarounds document. A document without a
/// `version` entry is left out: reading it fails outright.
pub fn version_in_document(parsed: Option<Option<Option<i64>>>) -> (r: Result<u64, MigrationError>)
    requires
        parsed != Some(None::<Option<i64>>),
    ensures
        r == document_version(parsed),
{
    match parsed {
        None => Err(MigrationError::InvalidToml),
        Some(Some(Some(v))) => Ok(v as u64),
        Some(_) => Err(MigrationError::NoVersion),
    }
}

/// The version of the workarounds file whose text is `text` (`None` when
/// there is no file, which counts as version 0).
pub fn get_config_version(text: Option<&str>) -> (r: Result<u64, MigrationError>)
    requires
        text matches Some(t) ==> toml_version(t@) != Some(None::<Option<i64>>),
    ensures
        text is None ==> r == Ok::<u64, MigrationError>(0),
        text matches Some(t) ==> r == document_version(toml_version(t@)),
{
    match text {
        None => Ok(0),
        Some(t) => version_in_document(parse_root_integer(t, "version")),
    }
}

/// The version of the workarounds file whose text is `text`, or `None` when
/// the file is a TOML document without a `version` entry, which cannot be
/// read.
pub fn read_config_version(text: Option<&str>) -> (r: Option<Result<u64, MigrationError>>)
    ensures
        r is None <==> (text matches Some(t) && toml_version(t@) == Some(None::<Option<i64>>)),
        text is None ==> r == Some(Ok::<u64, MigrationError>(0)),
        text matches Some(t) ==> (toml_version(t@) != Some(None::<Option<i64>>) ==> r == Some(
            document_version(toml_version(t@)),
        )),
{
    match text {
        None => Some(get_config_version(None)),
        Some(t) => {
            let parsed = parse_root_integer(t, "version");
            match parsed {
                Some(None) => None,
                _ => Some(get_config_version(text)),
            }
        },
    }
}

/// The workarounds that a file of `old_version` migrates to: from version 0
/// (no file), an enabled icon override for the `helium` browser.
pub fn migrate(old_version: u64) -> (r: Result<io::Workarrounds, MigrationError>)
    ensures
        old_version == 0 ==> (r matches Ok(w) && w.version == CURRENT_WORKARROUND_VERSION
            && w.class_to_icon@.len() == 1 && w.class_to_icon@[0].enabled
            && w.class_to_icon@[0].class@ == "helium"@ && w.class_to_icon@[0].icon@
            == "helium-browser"@),
        old_version != 0 ==> r == Err::<io::Workarrounds, MigrationError>(
            MigrationError::UnsupportedVersion(old_version),
        ),
{
    if old_version != 0 {
        return Err(MigrationError::UnsupportedVersion(old_version));
    }
    let mut class_to_icon: Vec<io::ClassToIcon> = Vec::new();
    class_to_icon.push(
        io::ClassToIcon { enabled: true, class: owned("helium"), icon: owned("helium-browser") },
    );
    Ok(io::Workarrounds { version: CURRENT_WORKARROUND_VERSION, class_to_icon })
}

} // verus!
