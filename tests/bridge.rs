use editor_bridge::autoload::{AutoLoader, Event, Step, AUTO_LOAD_DELAY_MS};
use editor_bridge::dialog::{open_dialog_plan, save_dialog_plan, Picker};
use editor_bridge::envelope::{read_outcome, write_outcome, FileResult};
use editor_bridge::json::{strings_in, text_eq, JsonValue};
use editor_bridge::menu::{menu_action, MenuAction};
use editor_bridge::outcome::{open_outcome, open_response, save_outcome, save_response};
use editor_bridge::settings::{parse_settings, SETTINGS_FILE_NAME};

fn text(s: &str) -> JsonValue {
    JsonValue::Str(s.to_string())
}

fn obj(entries: Vec<(&str, JsonValue)>) -> JsonValue {
    JsonValue::Object(entries.into_iter().map(|(k, v)| (k.to_string(), v)).collect())
}

fn arr(items: Vec<JsonValue>) -> JsonValue {
    JsonValue::Array(items)
}

fn filter(name: &str, exts: &[&str]) -> JsonValue {
    obj(vec![("name", text(name)), ("extensions", arr(exts.iter().map(|e| text(e)).collect()))])
}

#[test]
fn read_success_carries_contents_verbatim() {
    let r = read_outcome(Ok("line one\nline two\n".to_string()));
    assert!(r.success);
    assert_eq!(r.data.as_deref(), Some("line one\nline two\n"));
    assert!(r.error.is_none());
}

#[test]
fn read_failure_has_no_data_and_a_message() {
    let r = read_outcome(Err("No such file or directory (os error 2)".to_string()));
    assert!(!r.success);
    assert!(r.data.is_none());
    assert_eq!(r.error.as_deref(), Some("No such file or directory (os error 2)"));
    assert!(!r.error.unwrap().is_empty());
}

#[test]
fn write_outcomes() {
    let ok = write_outcome(Ok(()));
    assert!(ok.success && ok.data.is_none() && ok.error.is_none());
    let bad = write_outcome(Err("Permission denied (os error 13)".to_string()));
    assert!(!bad.success && bad.data.is_none());
    assert_eq!(bad.error.as_deref(), Some("Permission denied (os error 13)"));
}

#[test]
fn envelope_constructors() {
    let a = FileResult::succeeded("x".to_string());
    assert!(a.success && a.data.as_deref() == Some("x") && a.error.is_none());
    let b = FileResult::succeeded_empty();
    assert!(b.success && b.data.is_none() && b.error.is_none());
    let c = FileResult::failed("boom".to_string());
    assert!(!c.success && c.data.is_none() && c.error.as_deref() == Some("boom"));
}

#[test]
fn settings_text_loads_back_byte_for_byte() {
    let saved = "{\"lastOpenedProject\":\"/a/b.proj\"}";
    let written = write_outcome(Ok(()));
    assert!(written.success);
    let loaded = read_outcome(Ok(saved.to_string()));
    assert!(loaded.success);
    assert_eq!(loaded.data.as_deref(), Some("{\"lastOpenedProject\":\"/a/b.proj\"}"));
    assert!(loaded.error.is_none());
    assert_eq!(SETTINGS_FILE_NAME, "settings.json");
}

#[test]
fn member_lookup_takes_first_match_and_needs_an_object() {
    let doc = obj(vec![("a", text("one")), ("b", text("two")), ("a", text("three"))]);
    match doc.member("a") {
        Some(JsonValue::Str(s)) => assert_eq!(s, "one"),
        _ => panic!("member a missing"),
    }
    assert!(doc.member("c").is_none());
    assert!(arr(vec![text("a")]).member("a").is_none());
    assert_eq!(doc.text_member("b").map(|s| s.as_str()), Some("two"));
    assert!(obj(vec![("b", JsonValue::Null)]).text_member("b").is_none());
}

#[test]
fn text_comparison() {
    assert!(text_eq("openDirectory", "openDirectory"));
    assert!(!text_eq("openDirectory", "openFile"));
    assert!(!text_eq("abc", "ab"));
    assert!(text_eq("", ""));
}

#[test]
fn strings_in_skips_other_items() {
    let items = vec![text("png"), JsonValue::Number("3".to_string()), JsonValue::Null, text("jpg")];
    assert_eq!(strings_in(&items), vec!["png".to_string(), "jpg".to_string()]);
}

#[test]
fn open_plan_reads_all_options() {
    let options = obj(vec![
        ("title", text("Open Project")),
        ("defaultPath", text("/home/user/projects")),
        ("filters", arr(vec![filter("Projects", &["proj"]), filter("Images", &["png", "jpg"])])),
        ("unknown", JsonValue::Bool(true)),
    ]);
    let plan = open_dialog_plan(&options);
    assert_eq!(plan.title.as_deref(), Some("Open Project"));
    assert_eq!(plan.start_directory.as_deref(), Some("/home/user/projects"));
    assert_eq!(plan.picker, Picker::File);
    assert_eq!(plan.filters.len(), 2);
    assert_eq!(plan.filters[0].name, "Projects");
    assert_eq!(plan.filters[0].extensions, vec!["proj".to_string()]);
    assert_eq!(plan.filters[1].name, "Images");
    assert_eq!(plan.filters[1].extensions, vec!["png".to_string(), "jpg".to_string()]);
}

#[test]
fn empty_extension_list_registers_no_filter() {
    let options = obj(vec![(
        "filters",
        arr(vec![
            filter("Nothing", &[]),
            filter("Maps", &["map"]),
            obj(vec![("name", text("Numbers")), ("extensions", arr(vec![JsonValue::Number("1".to_string())]))]),
            obj(vec![("extensions", arr(vec![text("txt")]))]),
            filter("", &["txt"]),
            text("not a filter"),
        ]),
    )]);
    let plan = open_dialog_plan(&options);
    assert_eq!(plan.filters.len(), 1);
    assert_eq!(plan.filters[0].name, "Maps");
    assert_eq!(plan.filters[0].extensions, vec!["map".to_string()]);
    let save = save_dialog_plan(&options);
    assert_eq!(save.filters.len(), 1);
}

#[test]
fn open_directory_selects_folder_picker_despite_filters() {
    let options = obj(vec![
        ("properties", arr(vec![text("multiSelections"), text("openDirectory")])),
        ("filters", arr(vec![filter("Projects", &["proj"])])),
    ]);
    let plan = open_dialog_plan(&options);
    assert_eq!(plan.picker, Picker::Folder);
    assert_eq!(plan.filters.len(), 1);
}

#[test]
fn other_properties_keep_file_picker() {
    let options = obj(vec![("properties", arr(vec![text("openFile"), JsonValue::Number("1".to_string())]))]);
    assert_eq!(open_dialog_plan(&options).picker, Picker::File);
    let flag_not_in_array = obj(vec![("properties", text("openDirectory"))]);
    assert_eq!(open_dialog_plan(&flag_not_in_array).picker, Picker::File);
    let empty = obj(vec![]);
    let plan = open_dialog_plan(&empty);
    assert_eq!(plan.picker, Picker::File);
    assert!(plan.title.is_none() && plan.start_directory.is_none() && plan.filters.is_empty());
}

#[test]
fn options_that_are_no_object_use_defaults() {
    let plan = open_dialog_plan(&JsonValue::Null);
    assert_eq!(plan.picker, Picker::File);
    assert!(plan.title.is_none() && plan.filters.is_empty());
    let save = save_dialog_plan(&arr(vec![text("title")]));
    assert!(save.title.is_none() && save.file_name.is_none() && save.filters.is_empty());
}

#[test]
fn save_plan_uses_default_path_as_file_name() {
    let options = obj(vec![
        ("title", text("Save Map")),
        ("defaultPath", text("level1.map")),
        ("properties", arr(vec![text("openDirectory")])),
    ]);
    let plan = save_dialog_plan(&options);
    assert_eq!(plan.title.as_deref(), Some("Save Map"));
    assert_eq!(plan.file_name.as_deref(), Some("level1.map"));
    assert!(plan.filters.is_empty());
}

#[test]
fn open_outcomes() {
    let picked = open_outcome(Some("/home/user/a.proj".to_string()));
    assert!(!picked.is_canceled());
    assert_eq!(picked.file_paths(), &vec!["/home/user/a.proj".to_string()]);
    let dismissed = open_outcome(None);
    assert!(dismissed.is_canceled());
    assert!(dismissed.file_paths().is_empty());
}

#[test]
fn broken_handoff_reports_cancel() {
    let open = open_response(None);
    assert!(open.is_canceled() && open.file_paths().is_empty());
    let save = save_response(None);
    assert!(save.is_canceled() && save.file_path().is_none());
    let delivered = open_response(Some(open_outcome(Some("/x".to_string()))));
    assert!(!delivered.is_canceled());
    assert_eq!(delivered.file_paths(), &vec!["/x".to_string()]);
}

#[test]
fn save_outcomes() {
    let chosen = save_outcome(Some("/home/user/b.map".to_string()));
    assert!(!chosen.is_canceled());
    assert_eq!(chosen.file_path().map(|p| p.as_str()), Some("/home/user/b.map"));
    let dismissed = save_response(Some(save_outcome(None)));
    assert!(dismissed.is_canceled());
    assert!(dismissed.file_path().is_none());
}

#[test]
fn settings_document_shapes() {
    let s = parse_settings(&obj(vec![("lastOpenedProject", text("/a/b.proj"))])).unwrap();
    assert_eq!(s.last_opened_project.as_deref(), Some("/a/b.proj"));
    assert!(s.recent_files.is_none());

    let full = parse_settings(&obj(vec![
        ("recentFiles", arr(vec![text("/a.proj"), text("/b.proj")])),
        ("lastOpenedProject", JsonValue::Null),
        ("theme", text("dark")),
    ]))
    .unwrap();
    assert_eq!(full.recent_files, Some(vec!["/a.proj".to_string(), "/b.proj".to_string()]));
    assert!(full.last_opened_project.is_none());

    assert!(parse_settings(&obj(vec![("lastOpenedProject", JsonValue::Number("7".to_string()))])).is_none());
    assert!(parse_settings(&obj(vec![("recentFiles", arr(vec![text("/a"), JsonValue::Bool(false)]))])).is_none());
    assert!(parse_settings(&obj(vec![("recentFiles", text("/a"))])).is_none());
    assert!(parse_settings(&text("settings")).is_none());
    let empty = parse_settings(&obj(vec![])).unwrap();
    assert!(empty.recent_files.is_none() && empty.last_opened_project.is_none());
}

fn settings_read(text_data: &str) -> Event {
    Event::SettingsRead(FileResult::succeeded(text_data.to_string()))
}

#[test]
fn auto_load_emits_existing_project_once() {
    let mut loader = AutoLoader::new();
    assert!(matches!(loader.step(Event::Started), Step::ReadSettings));
    let data = "{\"lastOpenedProject\":\"/tmp/exists.proj\"}";
    match loader.step(settings_read(data)) {
        Step::ParseSettings(t) => assert_eq!(t, data),
        _ => panic!("expected a parse request"),
    }
    let doc = obj(vec![("lastOpenedProject", text("/tmp/exists.proj"))]);
    match loader.step(Event::SettingsParsed(Some(doc))) {
        Step::CheckProject(p) => assert_eq!(p, "/tmp/exists.proj"),
        _ => panic!("expected an existence check"),
    }
    match loader.step(Event::ProjectChecked(true)) {
        Step::Wait(ms) => assert_eq!(ms, 1500),
        _ => panic!("expected a wait"),
    }
    assert_eq!(AUTO_LOAD_DELAY_MS, 1500);
    assert!(!loader.is_finished());
    match loader.step(Event::DelayElapsed) {
        Step::Emit(p) => assert_eq!(p, "/tmp/exists.proj"),
        _ => panic!("expected the notification"),
    }
    assert!(loader.is_finished());
    assert!(matches!(loader.step(Event::DelayElapsed), Step::Nothing));
    assert!(matches!(loader.step(Event::Started), Step::Nothing));
    assert!(matches!(loader.step(Event::ProjectChecked(true)), Step::Nothing));
}

#[test]
fn auto_load_skips_missing_project() {
    let mut loader = AutoLoader::new();
    loader.step(Event::Started);
    loader.step(settings_read("{\"lastOpenedProject\":\"/tmp/exists.proj\"}"));
    loader.step(Event::SettingsParsed(Some(obj(vec![("lastOpenedProject", text("/tmp/exists.proj"))]))));
    assert!(matches!(loader.step(Event::ProjectChecked(false)), Step::Nothing));
    assert!(loader.is_finished());
    assert!(matches!(loader.step(Event::DelayElapsed), Step::Nothing));
}

#[test]
fn auto_load_stops_on_unusable_settings() {
    let mut failed = AutoLoader::new();
    failed.step(Event::Started);
    let read = Event::SettingsRead(FileResult::failed("No such file or directory (os error 2)".to_string()));
    assert!(matches!(failed.step(read), Step::Nothing));
    assert!(failed.is_finished());

    let mut unparsed = AutoLoader::new();
    unparsed.step(Event::Started);
    unparsed.step(settings_read("not json"));
    assert!(matches!(unparsed.step(Event::SettingsParsed(None)), Step::Nothing));
    assert!(unparsed.is_finished());

    let mut no_project = AutoLoader::new();
    no_project.step(Event::Started);
    no_project.step(settings_read("{\"recentFiles\":[]}"));
    let doc = obj(vec![("recentFiles", arr(vec![]))]);
    assert!(matches!(no_project.step(Event::SettingsParsed(Some(doc))), Step::Nothing));
    assert!(no_project.is_finished());
}

#[test]
fn auto_load_ignores_events_out_of_order() {
    let mut loader = AutoLoader::new();
    assert!(matches!(loader.step(Event::DelayElapsed), Step::Nothing));
    assert!(!loader.is_finished());
    assert!(matches!(loader.step(Event::Started), Step::ReadSettings));
    assert!(matches!(loader.step(Event::ProjectChecked(true)), Step::Nothing));
    assert!(!loader.is_finished());
}

#[test]
fn menu_items_map_to_actions() {
    match menu_action("new-project") {
        MenuAction::Notify(name) => assert_eq!(name, "menu:new-project"),
        _ => panic!("expected a notification"),
    }
    match menu_action("save-project-as") {
        MenuAction::Notify(name) => assert_eq!(name, "menu:save-project-as"),
        _ => panic!("expected a notification"),
    }
    assert!(matches!(menu_action("reload"), MenuAction::Reload));
    assert!(matches!(menu_action("toggle-devtools"), MenuAction::ToggleDevtools));
    assert!(matches!(menu_action("undo"), MenuAction::Ignore));
    assert!(matches!(menu_action(""), MenuAction::Ignore));
}
