use vstd::prelude::*;
use crate::json::{JsonValue, strings_in, strings_of, text_eq, texts};

verus! {

/// The flag of `properties` that switches an open dialog to folder picking.
pub const OPEN_DIRECTORY: &'static str = "openDirectory";

/// A named file-type filter of a native picker.
pub struct FileFilter {
    pub name: String,
    pub extensions: Vec<String>,
}

impl View for FileFilter {
    type V = (Seq<char>, Seq<Seq<char>>);

    open spec fn view(&self) -> (Seq<char>, Seq<Seq<char>>) {
        (self.name@, texts(self.extensions@))
    }
}

/// The views of a sequence of filters.
pub open spec fn filter_views(v: Seq<FileFilter>) -> Seq<(Seq<char>, Seq<Seq<char>>)> {
    v.map_values(|f: FileFilter| f@)
}

/// The view of an optional string.
pub open spec fn opt_text(o: Option<String>) -> Option<Seq<char>> {
    match o {
        Some(s) => Some(s@),
        None => None,
    }
}

/// The filter that one entry of the `filters` option registers: one with a
/// non-empty name and at least one string extension. Other entries register
/// nothing.
pub open spec fn filter_of(entry: JsonValue) -> Option<(Seq<char>, Seq<Seq<char>>)> {
    match (entry.text_member_spec("name"@), entry.items_member_spec("extensions"@)) {
        (Some(name), Some(items)) => if name.len() > 0 && strings_of(items).len() > 0 {
            Some((name, strings_of(items)))
        } else {
            None
        },
        _ => None,
    }
}

/// The filters that a sequence of entries registers, in order.
pub open spec fn registered_filters(entries: Seq<JsonValue>) -> Seq<(Seq<char>, Seq<Seq<char>>)>
    decreases entries.len(),
{
    if entries.len() == 0 {
        Seq::empty()
    } else {
        let earlier = registered_filters(entries.drop_last());
        match filter_of(entries.last()) {
            Some(f) => earlier.push(f),
            None => earlier,
        }
    }
}

/// The filters that a dialog options document registers.
pub open spec fn option_filters(options: JsonValue) -> Seq<(Seq<char>, Seq<Seq<char>>)> {
    match options.items_member_spec("filters"@) {
        Some(entries) => registered_filters(entries),
        None => Seq::empty(),
    }
}

/// Whether a dialog options document asks for folder picking: its
/// `properties` array holds the string `openDirectory`.
pub open spec fn directory_mode(options: JsonValue) -> bool {
    match options.items_member_spec("properties"@) {
        Some(items) => exists|i: int|
            0 <= i < items.len() && #[trigger] items[i].text_spec() == Some(OPEN_DIRECTORY@),
        None => false,
    }
}

/// Every filter that a sequence of entries registers has a non-empty name
/// and at least one extension.
pub proof fn lemma_registered_filters_nonempty(entries: Seq<JsonValue>)
    ensures
        forall|i: int|
            0 <= i < registered_filters(entries).len() ==> {
                &&& (#[trigger] registered_filters(entries)[i]).0.len() > 0
                &&& registered_filters(entries)[i].1.len() > 0
            },
    decreases entries.len(),
{
    if entries.len() > 0 {
        let earlier = registered_filters(entries.drop_last());
        lemma_registered_filters_nonempty(entries.drop_last());
        let all = registered_filters(entries);
        assert forall|i: int| 0 <= i < all.len() implies (#[trigger] all[i]).0.len() > 0
            && all[i].1.len() > 0 by {
            if i < earlier.len() {
                assert(all[i] == earlier[i]);
            }
        }
    }
}

/// An entry whose extensions hold no string registers no filter; it is
/// passed over, not rejected.
pub proof fn lemma_entry_without_extensions_skipped(entry: JsonValue)
    requires
        entry.items_member_spec("extensions"@) matches Some(items) && strings_of(items).len() == 0,
    ensures
        filter_of(entry).is_none(),
{
}

/// Options whose `properties` hold `openDirectory` ask for folder picking,
/// whatever their filters.
pub proof fn lemma_open_directory_selects_folder(options: JsonValue, i: int)
    requires
        options.items_member_spec("properties"@) matches Some(items) && 0 <= i < items.len()
            && items[i].text_spec() == Some(OPEN_DIRECTORY@),
    ensures
        directory_mode(options),
{
    let items = options.items_member_spec("properties"@).unwrap();
    assert(items[i].text_spec() == Some(OPEN_DIRECTORY@));
}

/// Which native picker an open dialog shows.
#[derive(PartialEq, Eq, Structural, Clone, Copy, Debug)]
pub enum Picker {
    File,
    Folder,
}

/// Native configuration of an open dialog.
pub struct OpenDialogPlan {
    pub title: Option<String>,
    pub start_directory: Option<String>,
    pub picker: Picker,
    pub filters: Vec<FileFilter>,
}

/// Native configuration of a save dialog.
pub struct SaveDialogPlan {
    pub title: Option<String>,
    pub file_name: Option<String>,
    pub filters: Vec<FileFilter>,
}

/// The filter that `entry` registers, if any.
pub fn entry_filter(entry: &JsonValue) -> (r: Option<FileFilter>)
    ensures
        match r {
            Some(f) => filter_of(*entry) == Some(f@),
            None => filter_of(*entry).is_none(),
        },
{
    match (entry.text_member("name"), entry.items_member("extensions")) {
        (Some(name), Some(items)) => {
            let extensions = strings_in(items);
            if name.unicode_len() > 0 && extensions.len() > 0 {
                proof {
                    assert(texts(extensions@).len() == extensions@.len());
                }
                Some(FileFilter { name: name.clone(), extensions })
            } else {
                proof {
                    assert(texts(extensions@).len() == extensions@.len());
                }
                None
            }
        },
        _ => None,
    }
}

/// The filters that the entries register, in order; entries without a
/// name or without any extension are passed over.
pub fn collect_filters(entries: &Vec<JsonValue>) -> (r: Vec<FileFilter>)
    ensures
        filter_views(r@) == registered_filters(entries@),
{
    let mut out: Vec<FileFilter> = Vec::new();
    let mut i: usize = 0;
    while i < entries.len()
        invariant
            i <= entries@.len(),
            filter_views(out@) == registered_filters(entries@.take(i as int)),
        decreases entries@.len() - i,
    {
        proof {
            assert(entries@.take(i + 1).drop_last() =~= entries@.take(i as int));
        }
        match entry_filter(&entries[i]) {
            Some(f) => {
                let ghost before = out@;
                let ghost fv = f@;
                out.push(f);
                proof {
                    assert(filter_views(out@) =~= filter_views(before).push(fv));
                }
            },
            None => {},
        }
        i = i + 1;
    }
    proof {
        assert(entries@.take(i as int) =~= entries@);
    }
    out
}

/// The filters that a dialog options document registers.
pub fn dialog_filters(options: &JsonValue) -> (r: Vec<FileFilter>)
    ensures
        filter_views(r@) == option_filters(*options),
{
    match options.items_member("filters") {
        Some(entries) => collect_filters(entries),
        None => {
            let r: Vec<FileFilter> = Vec::new();
            proof {
                assert(filter_views(r@) =~= Seq::empty());
            }
            r
        },
    }
}

/// Whether the options ask for folder picking.
pub fn wants_directory(options: &JsonValue) -> (r: bool)
    ensures
        r == directory_mode(*options),
{
    match options.items_member("properties") {
        Some(items) => {
            let mut i: usize = 0;
            while i < items.len()
                invariant
                    i <= items@.len(),
                    options.items_member_spec("properties"@) == Some(items@),
                    forall|j: int| 0 <= j < i ==> #[trigger] items@[j].text_spec() != Some(OPEN_DIRECTORY@),
                decreases items@.len() - i,
            {
                match items[i].as_text() {
                    Some(s) => {
                        if text_eq(s.as_str(), OPEN_DIRECTORY) {
                            assert(items@[i as int].text_spec() == Some(OPEN_DIRECTORY@));
                            return true;
                        }
                    },
                    None => {},
                }
                i = i + 1;
            }
            false
        },
        None => false,
    }
}

/// A copy of an optional string.
fn copy_text(o: Option<&String>) -> (r: Option<String>)
    ensures
        match o {
            Some(s) => r == Some(*s),
            None => r.is_none(),
        },
{
    match o {
        Some(s) => Some(s.clone()),
        None => None,
    }
}

/// Translates an options document into an open dialog's configuration:
/// `title` as the title, `defaultPath` as the starting directory, folder
/// picking exactly when `properties` holds `openDirectory`, and every filter
/// entry with a name and extensions.
pub fn open_dialog_plan(options: &JsonValue) -> (r: OpenDialogPlan)
    ensures
        opt_text(r.title) == options.text_member_spec("title"@),
        opt_text(r.start_directory) == options.text_member_spec("defaultPath"@),
        (r.picker == Picker::Folder) == directory_mode(*options),
        filter_views(r.filters@) == option_filters(*options),
{
    let title = copy_text(options.text_member("title"));
    let start_directory = copy_text(options.text_member("defaultPath"));
    let picker = if wants_directory(options) {
        Picker::Folder
    } else {
        Picker::File
    };
    let filters = dialog_filters(options);
    OpenDialogPlan { title, start_directory, picker, filters }
}

/// Translates an options document into a save dialog's configuration:
/// `title` as the title, `defaultPath` as the suggested file name, and every
/// filter entry with a name and extensions.
pub fn save_dialog_plan(options: &JsonValue) -> (r: SaveDialogPlan)
    ensures
        opt_text(r.title) == options.text_member_spec("title"@),
        opt_text(r.file_name) == options.text_member_spec("defaultPath"@),
        filter_views(r.filters@) == option_filters(*options),
{
    let title = copy_text(options.text_member("title"));
    let file_name = copy_text(options.text_member("defaultPath"));
    let filters = dialog_filters(options);
    SaveDialogPlan { title, file_name, filters }
}

} // verus!
