//! The configuration of a sync and the header written above mirrored files.
use vstd::prelude::*;
use crate::json::{find_member, member, JsonValue};

verus! {

/// The configuration file read when none is named.
pub const DEFAULT_CONFIG_FILE: &'static str = "shadows.json";

/// One remote file to mirror and where to put it.
#[derive(Clone, Debug, PartialEq, Eq)]
pub struct SyncConfiguration {
    /// Local path, relative to the directory of the configuration file.
    pub file: String,
    /// Address of the remote file.
    pub remote: String,
    /// Text that starts every line of the header.
    pub comment_prefix: String,
    /// When set, no header is written above the mirrored content.
    pub suppress_comments: bool,
}

/// A whole configuration: a version tag and the entries, in file order.
#[derive(Clone, Debug, PartialEq, Eq)]
pub struct ConfigFile {
    pub version: String,
    pub sync_files: Vec<SyncConfiguration>,
}

/// What one entry of the configuration says, as plain values.
pub struct SyncEntryModel {
    pub file: Seq<char>,
    pub remote: Seq<char>,
    pub comment_prefix: Seq<char>,
    pub suppress_comments: bool,
}

impl View for SyncConfiguration {
    type V = SyncEntryModel;

    open spec fn view(&self) -> SyncEntryModel {
        SyncEntryModel {
            file: self.file@,
            remote: self.remote@,
            comment_prefix: self.comment_prefix@,
            suppress_comments: self.suppress_comments,
        }
    }
}

/// What a whole configuration says, as plain values.
pub struct ConfigModel {
    pub version: Seq<char>,
    pub entries: Seq<SyncEntryModel>,
}

impl View for ConfigFile {
    type V = ConfigModel;

    open spec fn view(&self) -> ConfigModel {
        ConfigModel {
            version: self.version@,
            entries: self.sync_files@.map_values(|e: SyncConfiguration| e@),
        }
    }
}

/// Why a configuration could not be loaded. Each one ends the run before any
/// entry is processed.
#[derive(PartialEq, Eq, Structural, Clone, Copy, Debug)]
pub enum ConfigError {
    /// The path of the configuration file does not resolve.
    NotFound,
    /// The resolved path has no parent directory.
    NoParentFolder,
    /// The file could not be opened.
    NotOpenable,
    /// The file could not be read to the end as text.
    NotReadable,
    /// The text is not a configuration.
    Malformed,
}

impl ConfigError {
    /// The message reported for this error.
    pub fn message(&self) -> (r: &'static str)
        ensures
            r@ == config_error_text(*self),
    {
        match self {
            ConfigError::NotFound => "Couldn't find config file",
            ConfigError::NoParentFolder => "Couldn't find parent folder",
            ConfigError::NotOpenable => "Couldn't open config file",
            ConfigError::NotReadable => "Couldn't read config file",
            ConfigError::Malformed => "Couldn't parse config file",
        }
    }
}

/// The message of each configuration error.
pub open spec fn config_error_text(e: ConfigError) -> Seq<char> {
    match e {
        ConfigError::NotFound => "Couldn't find config file"@,
        ConfigError::NoParentFolder => "Couldn't find parent folder"@,
        ConfigError::NotOpenable => "Couldn't open config file"@,
        ConfigError::NotReadable => "Couldn't read config file"@,
        ConfigError::Malformed => "Couldn't parse config file"@,
    }
}

/// A member that must be a string.
pub open spec fn required_string(v: Option<JsonValue>) -> Option<Seq<char>> {
    match v {
        Some(JsonValue::Str(s)) => Some(s@),
        _ => None,
    }
}

/// A member that may be left out, in which case `default` stands for it.
pub open spec fn optional_string(v: Option<JsonValue>, default: Seq<char>) -> Option<Seq<char>> {
    match v {
        None => Some(default),
        Some(JsonValue::Str(s)) => Some(s@),
        _ => None,
    }
}

/// A boolean member that may be left out, in which case `default` stands for it.
pub open spec fn optional_bool(v: Option<JsonValue>, default: bool) -> Option<bool> {
    match v {
        None => Some(default),
        Some(JsonValue::Bool(b)) => Some(b),
        _ => None,
    }
}

/// The entry that a JSON value describes, if it describes one. Members with
/// other names are ignored.
pub open spec fn decode_entry(v: JsonValue) -> Option<SyncEntryModel> {
    match v {
        JsonValue::Object(m) => {
            let file = required_string(member(m@, "file"@));
            let remote = required_string(member(m@, "remote"@));
            let prefix = optional_string(member(m@, "commentPrefix"@), spec_default_prefix());
            let suppress = optional_bool(member(m@, "suppressComments"@), false);
            if file is Some && remote is Some && prefix is Some && suppress is Some {
                Some(
                    SyncEntryModel {
                        file: file->0,
                        remote: remote->0,
                        comment_prefix: prefix->0,
                        suppress_comments: suppress->0,
                    },
                )
            } else {
                None
            }
        },
        _ => None,
    }
}

/// The configuration that a JSON document describes, if it describes one:
/// every listed entry must be well formed.
pub open spec fn decode_config(doc: JsonValue) -> Option<ConfigModel> {
    match doc {
        JsonValue::Object(m) => {
            let version = required_string(member(m@, "version"@));
            match member(m@, "syncFiles"@) {
                Some(JsonValue::Array(items)) => {
                    if version is Some && forall|i: int|
                        0 <= i < items@.len() ==> (#[trigger] decode_entry(items@[i])) is Some {
                        Some(
                            ConfigModel {
                                version: version->0,
                                entries: items@.map_values(|x: JsonValue| decode_entry(x)->0),
                            },
                        )
                    } else {
                        None
                    }
                },
                _ => None,
            }
        },
        _ => None,
    }
}

/// An entry that leaves out `commentPrefix` and `suppressComments` gets the
/// prefix `"# "` and keeps its header.
pub proof fn lemma_entry_defaults(v: JsonValue)
    requires
        v is Object,
        required_string(member(v->Object_0@, "file"@)) is Some,
        required_string(member(v->Object_0@, "remote"@)) is Some,
        member(v->Object_0@, "commentPrefix"@) is None,
        member(v->Object_0@, "suppressComments"@) is None,
    ensures
        decode_entry(v) is Some,
        decode_entry(v)->0.comment_prefix == spec_default_prefix(),
        decode_entry(v)->0.suppress_comments == false,
{
}

/// One malformed entry makes the whole configuration malformed, whatever
/// the other entries hold.
pub proof fn lemma_malformed_entry_rejects_config(doc: JsonValue, i: int)
    requires
        doc is Object,
        member(doc->Object_0@, "syncFiles"@) matches Some(JsonValue::Array(items)) && 0 <= i
            < items@.len() && decode_entry(items@[i]) is None,
    ensures
        decode_config(doc) is None,
{
}

/// The comment prefix of an entry that names none: `"# "`.
pub open spec fn spec_default_prefix() -> Seq<char> {
    seq!['#', ' ']
}

/// First line of the header, without its line break.
pub open spec fn shadowing_line(prefix: Seq<char>, remote: Seq<char>) -> Seq<char> {
    prefix + "This file is shadowing "@ + remote
}

/// Second line of the header, without its line break.
pub open spec fn overwrite_line(prefix: Seq<char>) -> Seq<char> {
    prefix + "All changes will be overwritten by the next sync"@
}

/// The header: two comment lines and a blank line.
pub open spec fn header_text(prefix: Seq<char>, remote: Seq<char>) -> Seq<char> {
    shadowing_line(prefix, remote) + "\n"@ + overwrite_line(prefix) + "\n\n"@
}

/// `s` holds no line break.
pub open spec fn single_line(s: Seq<char>) -> bool {
    forall|i: int| 0 <= i < s.len() ==> s[i] != '\n'
}

/// Where the prefix and the address hold no line break, the header is two
/// lines that start with the prefix, then a blank line.
pub proof fn lemma_header_lines(prefix: Seq<char>, remote: Seq<char>)
    requires
        single_line(prefix),
        single_line(remote),
    ensures
        header_text(prefix, remote) == shadowing_line(prefix, remote) + seq!['\n']
            + overwrite_line(prefix) + seq!['\n', '\n'],
        single_line(shadowing_line(prefix, remote)),
        single_line(overwrite_line(prefix)),
        shadowing_line(prefix, remote).subrange(0, prefix.len() as int) == prefix,
        overwrite_line(prefix).subrange(0, prefix.len() as int) == prefix,
{
    reveal_strlit("This file is shadowing ");
    reveal_strlit("All changes will be overwritten by the next sync");
    reveal_strlit("\n");
    reveal_strlit("\n\n");
    assert("\n"@ =~= seq!['\n']);
    assert("\n\n"@ =~= seq!['\n', '\n']);
    let a = "This file is shadowing "@;
    let b = "All changes will be overwritten by the next sync"@;
    assert(single_line(a));
    assert(single_line(b));
    let l1 = shadowing_line(prefix, remote);
    assert forall|i: int| 0 <= i < l1.len() implies l1[i] != '\n' by {
        if i < prefix.len() {
        } else if i < prefix.len() + a.len() {
            assert(l1[i] == a[i - prefix.len()]);
        } else {
            assert(l1[i] == remote[i - prefix.len() - a.len()]);
        }
    }
    let l2 = overwrite_line(prefix);
    assert forall|i: int| 0 <= i < l2.len() implies l2[i] != '\n' by {
        if i >= prefix.len() {
            assert(l2[i] == b[i - prefix.len()]);
        }
    }
    assert(l1.subrange(0, prefix.len() as int) =~= prefix);
    assert(l2.subrange(0, prefix.len() as int) =~= prefix);
}

/// The comment prefix used when the configuration names none.
pub fn default_comment_prefix() -> (r: String)
    ensures
        r@ == spec_default_prefix(),
{
    let r = String::from_str("# ");
    proof {
        reveal_strlit("# ");
    }
    assert(r@ =~= spec_default_prefix());
    r
}

/// Whether headers are suppressed when the configuration does not say.
pub fn default_suppress_comments() -> (r: bool)
    ensures
        r == false,
{
    false
}

/// The header written above the content mirrored for `configuration`.
pub fn create_info(configuration: &SyncConfiguration) -> (r: String)
    ensures
        r@ == header_text(configuration.comment_prefix@, configuration.remote@),
{
    let mut message = String::new();
    message.append(configuration.comment_prefix.as_str());
    message.append("This file is shadowing ");
    message.append(configuration.remote.as_str());
    message.append("\n");
    message.append(configuration.comment_prefix.as_str());
    message.append("All changes will be overwritten by the next sync");
    message.append("\n\n");
    message
}

/// The value of the first member named `key`.
fn lookup<'a>(members: &'a Vec<(String, JsonValue)>, key: &str) -> (r: Option<&'a JsonValue>)
    ensures
        match r {
            Some(v) => member(members@, key@) == Some(*v),
            None => member(members@, key@) is None,
        },
{
    let k = String::from_str(key);
    match find_member(members, &k) {
        Some(i) => Some(&members[i].1),
        None => None,
    }
}

/// The string held by a member that must be a string.
fn take_required_string(v: Option<&JsonValue>) -> (r: Option<String>)
    ensures
        match v {
            Some(JsonValue::Str(s)) => r is Some && r->0@ == s@,
            _ => r is None,
        },
{
    match v {
        Some(JsonValue::Str(s)) => Some(s.clone()),
        _ => None,
    }
}

/// Decodes one entry of the configuration.
pub fn parse_entry(v: &JsonValue) -> (r: Option<SyncConfiguration>)
    ensures
        match r {
            Some(e) => decode_entry(*v) == Some(e@),
            None => decode_entry(*v) is None,
        },
{
    match v {
        JsonValue::Object(m) => {
            let file = take_required_string(lookup(m, "file"));
            let remote = take_required_string(lookup(m, "remote"));
            let prefix = match lookup(m, "commentPrefix") {
                None => Some(default_comment_prefix()),
                Some(JsonValue::Str(s)) => Some(s.clone()),
                Some(_) => None,
            };
            let suppress = match lookup(m, "suppressComments") {
                None => Some(default_suppress_comments()),
                Some(JsonValue::Bool(b)) => Some(*b),
                Some(_) => None,
            };
            match (file, remote, prefix, suppress) {
                (Some(file), Some(remote), Some(comment_prefix), Some(suppress_comments)) => {
                    Some(SyncConfiguration { file, remote, comment_prefix, suppress_comments })
                },
                _ => None,
            }
        },
        _ => None,
    }
}

/// Decodes a configuration document. A document that is not an object with
/// a string `version` and an array `syncFiles` of well-formed entries is
/// rejected as a whole.
pub fn parse_config(doc: &JsonValue) -> (r: Result<ConfigFile, ConfigError>)
    ensures
        match r {
            Ok(c) => decode_config(*doc) == Some(c@),
            Err(e) => decode_config(*doc) is None && e == ConfigError::Malformed,
        },
{
    match doc {
        JsonValue::Object(m) => {
            let version = take_required_string(lookup(m, "version"));
            let items = match lookup(m, "syncFiles") {
                Some(JsonValue::Array(items)) => items,
                _ => {
                    return Err(ConfigError::Malformed);
                },
            };
            let version = match version {
                Some(v) => v,
                None => {
                    return Err(ConfigError::Malformed);
                },
            };
            let mut sync_files: Vec<SyncConfiguration> = Vec::new();
            let mut i: usize = 0;
            while i < items.len()
                invariant
                    *doc == JsonValue::Object(*m),
                    member(m@, "syncFiles"@) == Some(JsonValue::Array(*items)),
                    required_string(member(m@, "version"@)) == Some(version@),
                    i <= items@.len(),
                    sync_files@.len() == i,
                    forall|j: int| 0 <= j < i ==> (#[trigger] decode_entry(items@[j])) is Some,
                    forall|j: int|
                        0 <= j < i ==> decode_entry(items@[j]) == Some(#[trigger] sync_files@[j]@),
                decreases items@.len() - i,
            {
                match parse_entry(&items[i]) {
                    Some(e) => {
                        sync_files.push(e);
                    },
                    None => {
                        assert(decode_entry(items@[i as int]) is None);
                        return Err(ConfigError::Malformed);
                    },
                }
                i = i + 1;
            }
            let r = ConfigFile { version, sync_files };
            assert(r@.entries =~= items@.map_values(|x: JsonValue| decode_entry(x)->0));
            Ok(r)
        },
        _ => Err(ConfigError::Malformed),
    }
}

} // verus!
