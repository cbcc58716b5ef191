use vstd::prelude::*;
use crate::json::{JsonValue, strings_in, strings_of, texts};

verus! {

/// Name of the settings file inside the per-user application data directory.
pub const SETTINGS_FILE_NAME: &'static str = "settings.json";

/// The persisted settings document.
pub struct Settings {
    pub recent_files: Option<Vec<String>>,
    pub last_opened_project: Option<String>,
}

impl View for Settings {
    type V = (Option<Seq<Seq<char>>>, Option<Seq<char>>);

    open spec fn view(&self) -> (Option<Seq<Seq<char>>>, Option<Seq<char>>) {
        (
            match self.recent_files {
                Some(v) => Some(texts(v@)),
                None => None,
            },
            match self.last_opened_project {
                Some(p) => Some(p@),
                None => None,
            },
        )
    }
}

/// Whether every item is a string.
pub open spec fn all_strings(items: Seq<JsonValue>) -> bool {
    forall|i: int| 0 <= i < items.len() ==> (#[trigger] items[i]).text_spec().is_some()
}

/// Reading of the `recentFiles` member: absent or null reads as no list, an
/// array of strings as that list; anything else does not read (outer `None`).
pub open spec fn recent_files_field(m: Option<JsonValue>) -> Option<Option<Seq<Seq<char>>>> {
    match m {
        None => Some(None),
        Some(JsonValue::Null) => Some(None),
        Some(JsonValue::Array(items)) => if all_strings(items@) {
            Some(Some(strings_of(items@)))
        } else {
            None
        },
        _ => None,
    }
}

/// Reading of the `lastOpenedProject` member: absent or null reads as no
/// project, a string as that path; anything else does not read.
pub open spec fn project_field(m: Option<JsonValue>) -> Option<Option<Seq<char>>> {
    match m {
        None => Some(None),
        Some(JsonValue::Null) => Some(None),
        Some(JsonValue::Str(s)) => Some(Some(s@)),
        _ => None,
    }
}

/// The settings that a document holds: an object whose two known members
/// read; other members are ignored. `None` for a document of another shape.
pub open spec fn settings_of(doc: JsonValue) -> Option<(Option<Seq<Seq<char>>>, Option<Seq<char>>)> {
    match doc {
        JsonValue::Object(_) => match (
            recent_files_field(doc.member_spec("recentFiles"@)),
            project_field(doc.member_spec("lastOpenedProject"@)),
        ) {
            (Some(recent), Some(project)) => Some((recent, project)),
            _ => None,
        },
        _ => None,
    }
}

/// Reads the `recentFiles` member.
fn read_recent_files(m: Option<&JsonValue>) -> (r: Option<Option<Vec<String>>>)
    ensures
        match r {
            Some(Some(v)) => recent_files_field(crate::json::deref_opt(m)) == Some(Some(texts(v@))),
            Some(None) => recent_files_field(crate::json::deref_opt(m)) == Some(None::<Seq<Seq<char>>>),
            None => recent_files_field(crate::json::deref_opt(m)).is_none(),
        },
{
    match m {
        None => Some(None),
        Some(JsonValue::Null) => Some(None),
        Some(JsonValue::Array(items)) => {
            let mut i: usize = 0;
            while i < items.len()
                invariant
                    i <= items@.len(),
                    crate::json::deref_opt(m) == Some(JsonValue::Array(*items)),
                    forall|j: int| 0 <= j < i ==> (#[trigger] items@[j]).text_spec().is_some(),
                decreases items@.len() - i,
            {
                match &items[i] {
                    JsonValue::Str(_) => {},
                    _ => {
                        assert(items@[i as int].text_spec().is_none());
                        return None;
                    },
                }
                i = i + 1;
            }
            Some(Some(strings_in(items)))
        },
        _ => None,
    }
}

/// Reads the `lastOpenedProject` member.
fn read_project(m: Option<&JsonValue>) -> (r: Option<Option<String>>)
    ensures
        match r {
            Some(Some(p)) => project_field(crate::json::deref_opt(m)) == Some(Some(p@)),
            Some(None) => project_field(crate::json::deref_opt(m)) == Some(None::<Seq<char>>),
            None => project_field(crate::json::deref_opt(m)).is_none(),
        },
{
    match m {
        None => Some(None),
        Some(JsonValue::Null) => Some(None),
        Some(JsonValue::Str(s)) => Some(Some(s.clone())),
        _ => None,
    }
}

/// Reads a settings document; `None` when it has another shape.
pub fn parse_settings(doc: &JsonValue) -> (r: Option<Settings>)
    ensures
        match r {
            Some(s) => settings_of(*doc) == Some(s@),
            None => settings_of(*doc).is_none(),
        },
{
    match doc {
        JsonValue::Object(_) => {
            let recent = read_recent_files(doc.member("recentFiles"));
            let project = read_project(doc.member("lastOpenedProject"));
            match (recent, project) {
                (Some(recent_files), Some(last_opened_project)) => Some(
                    Settings { recent_files, last_opened_project },
                ),
                _ => None,
            }
        },
        _ => None,
    }
}

} // verus!
