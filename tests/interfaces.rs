use portal_backend::{
    matches_namespace, offered_choices, open_file_results, parse_uris, selected_choices, save_file_results, save_files_results,
    selects_namespace, writable_from, Account, AccountImpl, AppID, Choice, CloseError,
    DialogOutcome, DocumentID, FileChooser, FileChooserImpl, FileChooserReply, FileName, Flags,
    Namespace, OpenFileOptions, OpenFileResults, Permission, RequestImpl, RequestRegistry,
    RequestState, Response, SaveFileOptions, SaveFileResults, SaveFilesOptions,
    SaveFilesResults, SetOn, SettingValue, Settings, SettingsImpl, SettingsReply,
    UserInformation, UserInformationOptions, UserInformationRequest, Uri, Wallpaper,
    WallpaperImpl, WallpaperOptions, WindowIdentifier, WindowIdentifierType,
};
use std::cell::{Cell, RefCell};
use std::rc::Rc;

type Store = Rc<RefCell<Vec<(String, String, SettingValue)>>>;

fn store_read(store: &Store, namespace: &str, key: &str) -> SettingValue {
    store
        .borrow()
        .iter()
        .find(|(n, k, _)| n == namespace && k == key)
        .map(|(_, _, v)| v.clone())
        .unwrap_or(SettingValue::Text(String::new()))
}

fn store_write(store: &Store, namespace: &str, key: &str, value: SettingValue) {
    let mut s = store.borrow_mut();
    s.retain(|(n, k, _)| !(n == namespace && k == key));
    s.push((namespace.to_string(), key.to_string(), value));
}

struct SimulatedSettings {
    store: Store,
}

impl SettingsImpl for SimulatedSettings {
    fn read_all(&self, namespaces: Vec<String>) -> Vec<Namespace> {
        let mut out: Vec<Namespace> = Vec::new();
        for (n, k, v) in self.store.borrow().iter() {
            if !selects_namespace(&namespaces, n) {
                continue;
            }
            match out.iter_mut().find(|g| &g.name == n) {
                Some(g) => g.values.push((k.clone(), v.clone())),
                None => out.push(Namespace { name: n.clone(), values: vec![(k.clone(), v.clone())] }),
            }
        }
        out
    }

    fn read(&self, namespace: &str, key: &str) -> SettingValue {
        store_read(&self.store, namespace, key)
    }
}

struct SimulatedWallpaper {
    store: Store,
    closes: Cell<u32>,
}

impl RequestImpl for SimulatedWallpaper {
    fn close(&self) {
        self.closes.set(self.closes.get() + 1);
    }
}

impl WallpaperImpl for SimulatedWallpaper {
    fn set_wallpaper_uri(
        &self,
        _app_id: AppID,
        _window_identifier: WindowIdentifierType,
        uri: Uri,
        _options: WallpaperOptions,
    ) -> Response<()> {
        store_write(&self.store, "org.test.background", "picture-uri", SettingValue::Text(uri.as_str().to_string()));
        Response::ok(())
    }
}

fn read_value(settings: &mut Settings<SimulatedSettings>, namespace: &str, key: &str) -> SettingValue {
    let call = settings.read(namespace.to_string(), key.to_string()).unwrap();
    let action = settings.try_next().unwrap();
    settings.activate(action);
    match settings.response(call) {
        Some(SettingsReply::One(v)) => v,
        other => panic!("unexpected {:?}", other),
    }
}

#[test]
fn wallpaper_uri_round_trips_through_settings() {
    let store: Store = Rc::new(RefCell::new(Vec::new()));
    let mut registry = RequestRegistry::new();
    let mut wallpaper = Wallpaper::new(SimulatedWallpaper { store: store.clone(), closes: Cell::new(0) });
    let mut settings = Settings::new(SimulatedSettings { store: store.clone() });

    let uri = Uri::parse("file:///bg.png").unwrap();
    let call = wallpaper
        .set_wallpaper_uri(
            "/request/1".to_string(),
            AppID::new("org.example.App"),
            WindowIdentifierType::Wayland("handle".to_string()),
            uri,
            WallpaperOptions::default(),
        )
        .unwrap();
    let action = wallpaper.next().unwrap();
    wallpaper.activate(&mut registry, action);
    assert_eq!(wallpaper.response(call), Some(Response::ok(())));

    let value = read_value(&mut settings, "org.test.background", "picture-uri");
    assert_eq!(value, SettingValue::Text("file:///bg.png".to_string()));
}

#[test]
fn two_reads_without_writes_agree() {
    let store: Store = Rc::new(RefCell::new(Vec::new()));
    store_write(&store, "org.gnome.desktop.interface", "color-scheme", SettingValue::Text("prefer-dark".to_string()));
    let mut settings = Settings::new(SimulatedSettings { store });
    let first = read_value(&mut settings, "org.gnome.desktop.interface", "color-scheme");
    let second = read_value(&mut settings, "org.gnome.desktop.interface", "color-scheme");
    assert_eq!(first, second);
    assert_eq!(first, SettingValue::Text("prefer-dark".to_string()));
}

#[test]
fn read_all_answers_with_selected_namespaces() {
    let store: Store = Rc::new(RefCell::new(Vec::new()));
    store_write(&store, "org.gnome.desktop.interface", "a", SettingValue::Boolean(true));
    store_write(&store, "org.freedesktop.appearance", "color-scheme", SettingValue::UInt32(1));
    let mut settings = Settings::new(SimulatedSettings { store });
    let call = settings.read_all(vec!["org.freedesktop.*".to_string()]).unwrap();
    let action = settings.try_next().unwrap();
    settings.activate(action);
    match settings.response(call) {
        Some(SettingsReply::All(groups)) => {
            assert_eq!(groups.len(), 1);
            assert_eq!(groups[0].name, "org.freedesktop.appearance");
            assert_eq!(groups[0].values, vec![("color-scheme".to_string(), SettingValue::UInt32(1))]);
        }
        other => panic!("unexpected {:?}", other),
    }
}

#[test]
fn namespace_patterns() {
    assert!(matches_namespace("", "org.a"));
    assert!(matches_namespace("org.a", "org.a"));
    assert!(!matches_namespace("org.a", "org.ab"));
    assert!(matches_namespace("org.*", "org.ab"));
    assert!(matches_namespace("org.*", "org."));
    assert!(!matches_namespace("org.*", "org"));
    assert!(matches_namespace("*", "anything"));
    assert!(selects_namespace(&vec![], "org.a"));
    assert!(selects_namespace(&vec!["x".to_string(), "org.*".to_string()], "org.a"));
    assert!(!selects_namespace(&vec!["x".to_string(), "y.*".to_string()], "org.a"));
}

struct SimulatedAccount;

impl RequestImpl for SimulatedAccount {
    fn close(&self) {}
}

impl AccountImpl for SimulatedAccount {
    fn get_user_information(
        &self,
        app_id: AppID,
        _window_identifier: WindowIdentifierType,
        options: UserInformationOptions,
    ) -> Response<UserInformation> {
        let image = Uri::parse("file:///home/u/face.png").unwrap();
        let name = format!("{}:{}", app_id.as_str(), options.reason().unwrap_or(""));
        Response::ok(UserInformation::new(app_id.as_str(), &name, image))
    }
}

#[test]
fn concurrent_user_information_calls_do_not_mix() {
    let mut registry = RequestRegistry::new();
    let mut account = Account::new(SimulatedAccount);
    let first = account
        .get_user_information(
            "/request/a".to_string(),
            AppID::new("org.one.App"),
            WindowIdentifierType::X11(0x40),
            UserInformationOptions::new(Some("first".to_string())),
        )
        .unwrap();
    let second = account
        .get_user_information(
            "/request/b".to_string(),
            AppID::new("org.two.App"),
            WindowIdentifierType::Wayland("w".to_string()),
            UserInformationOptions::new(Some("second".to_string())),
        )
        .unwrap();
    while let Some(action) = account.try_next() {
        account.activate(&mut registry, action);
    }
    let b = account.response(second).unwrap();
    let a = account.response(first).unwrap();
    match (a, b) {
        (Response::Success(a), Response::Success(b)) => {
            assert_eq!(a.id(), Some("org.one.App"));
            assert_eq!(a.name(), Some("org.one.App:first"));
            assert_eq!(b.id(), Some("org.two.App"));
            assert_eq!(b.name(), Some("org.two.App:second"));
            assert_eq!(a.image().map(|u| u.as_str()), Some("file:///home/u/face.png"));
        }
        other => panic!("unexpected {:?}", other),
    }
    assert_eq!(registry.state(&"/request/a".to_string()), Some(RequestState::Registered));
    assert_eq!(registry.state(&"/request/b".to_string()), Some(RequestState::Registered));
}

#[test]
fn close_twice_fails_as_not_found() {
    let store: Store = Rc::new(RefCell::new(Vec::new()));
    let mut registry = RequestRegistry::new();
    let mut wallpaper = Wallpaper::new(SimulatedWallpaper { store, closes: Cell::new(0) });
    let handle = "/request/close".to_string();
    wallpaper
        .set_wallpaper_uri(
            handle.clone(),
            AppID::new("org.example.App"),
            WindowIdentifierType::X11(1),
            Uri::parse("file:///x.png").unwrap(),
            WallpaperOptions { show_preview: Some(false), set_on: Some(SetOn::Both) },
        )
        .unwrap();
    let action = wallpaper.next().unwrap();
    wallpaper.activate(&mut registry, action);
    assert_eq!(wallpaper.close(&mut registry, &handle), Ok(()));
    assert_eq!(wallpaper.imp.closes.get(), 1);
    assert_eq!(wallpaper.close(&mut registry, &handle), Err(CloseError::NotFound));
    assert_eq!(wallpaper.imp.closes.get(), 1);
}

#[test]
fn close_that_came_in_during_the_call_is_served() {
    let store: Store = Rc::new(RefCell::new(Vec::new()));
    let mut registry = RequestRegistry::new();
    let mut wallpaper = Wallpaper::new(SimulatedWallpaper { store, closes: Cell::new(0) });
    let handle = "/request/busy".to_string();
    let call = wallpaper
        .set_wallpaper_uri(
            handle.clone(),
            AppID::new("org.example.App"),
            WindowIdentifierType::X11(1),
            Uri::parse("file:///x.png").unwrap(),
            WallpaperOptions::default(),
        )
        .unwrap();
    // A request already living at the path makes registration fail.
    registry.register(handle.clone()).unwrap();
    let action = wallpaper.next().unwrap();
    wallpaper.activate(&mut registry, action);
    assert_eq!(wallpaper.response(call), Some(Response::other()));
    assert_eq!(registry.state(&handle), Some(RequestState::Registered));
}

#[test]
fn registration_conflict_answers_other() {
    let mut registry = RequestRegistry::new();
    let mut account = Account::new(SimulatedAccount);
    registry.register("/request/taken".to_string()).unwrap();
    let call = account
        .get_user_information(
            "/request/taken".to_string(),
            AppID::new("org.one.App"),
            WindowIdentifierType::X11(2),
            UserInformationOptions::default(),
        )
        .unwrap();
    let action = account.try_next().unwrap();
    account.activate(&mut registry, action);
    assert!(matches!(account.response(call), Some(Response::Other)));
    assert!(account.response(call).is_none());
}

struct SimulatedChooser;

impl RequestImpl for SimulatedChooser {
    fn close(&self) {}
}

impl FileChooserImpl for SimulatedChooser {
    fn open_file(
        &self,
        _app_id: AppID,
        _window_identifier: WindowIdentifierType,
        _title: &str,
        options: OpenFileOptions,
    ) -> Response<OpenFileResults> {
        assert_eq!(options.multiple, Some(false));
        assert_eq!(options.directory, Some(false));
        let offered = offered_choices(options.choices.clone().unwrap_or_default(), Some("Open files read-only"));
        // The user leaves every choice as it was offered.
        let asked: Vec<(Choice, Option<String>)> =
            offered.iter().map(|c| (c.clone(), Some(c.initial_selection.clone()))).collect();
        open_file_results(
            DialogOutcome::Accepted,
            parse_uris(&vec!["file:///home/u/a.txt".to_string()]),
            None,
            &asked,
            &Some("false".to_string()),
        )
    }

    fn save_file(
        &self,
        _app_id: AppID,
        _window_identifier: WindowIdentifierType,
        _title: &str,
        _options: SaveFileOptions,
    ) -> Response<SaveFileResults> {
        save_file_results(DialogOutcome::Cancelled, vec![], None, &vec![])
    }

    fn save_files(
        &self,
        _app_id: AppID,
        _window_identifier: WindowIdentifierType,
        _title: &str,
        _options: SaveFilesOptions,
    ) -> Response<SaveFilesResults> {
        save_files_results(DialogOutcome::Dismissed, vec![], &vec![])
    }
}

#[test]
fn open_file_selects_one_file() {
    let mut registry = RequestRegistry::new();
    let mut chooser = FileChooser::new(SimulatedChooser);
    let options = OpenFileOptions { multiple: Some(false), directory: Some(false), ..Default::default() };
    let call = chooser
        .open_file(
            "/request/open".to_string(),
            AppID::new("org.example.App"),
            WindowIdentifierType::X11(3),
            "Open".to_string(),
            options,
        )
        .unwrap();
    let action = chooser.next().unwrap();
    chooser.activate(&mut registry, action);
    match chooser.response(call) {
        Some(FileChooserReply::OpenFile(Response::Success(res))) => {
            let uris: Vec<&str> = res.uris.as_ref().unwrap().iter().map(|u| u.as_str()).collect();
            assert_eq!(uris, vec!["file:///home/u/a.txt"]);
            assert_eq!(res.writable, Some(true));
            let choices = res.choices.unwrap();
            assert_eq!(choices.len(), 1);
            assert_eq!(choices[0].id, "read-only");
            assert_eq!(choices[0].initial_selection, "false");
        }
        other => panic!("unexpected {:?}", other),
    }
}

#[test]
fn save_calls_answer_with_their_own_kind() {
    let mut registry = RequestRegistry::new();
    let mut chooser = FileChooser::new(SimulatedChooser);
    let c1 = chooser
        .save_file("/r/s1".to_string(), AppID::new("a.b"), WindowIdentifierType::X11(1), "Save".to_string(), SaveFileOptions::default())
        .unwrap();
    let c2 = chooser
        .save_files("/r/s2".to_string(), AppID::new("a.b"), WindowIdentifierType::X11(1), "Save".to_string(), SaveFilesOptions::default())
        .unwrap();
    while let Some(action) = chooser.next() {
        chooser.activate(&mut registry, action);
    }
    assert!(matches!(chooser.response(c1), Some(FileChooserReply::SaveFile(Response::Cancelled))));
    assert!(matches!(chooser.response(c2), Some(FileChooserReply::SaveFiles(Response::Other))));
}

#[test]
fn dialog_results_drop_unparsable_uris() {
    let r = open_file_results(
        DialogOutcome::Accepted,
        parse_uris(&vec!["not a uri".to_string(), "HTTP://Example.COM/a".to_string()]),
        None,
        &vec![],
        &None,
    );
    match r {
        Response::Success(res) => {
            let uris: Vec<&str> = res.uris.as_ref().unwrap().iter().map(|u| u.as_str()).collect();
            assert_eq!(uris, vec!["http://example.com/a"]);
            assert_eq!(res.writable, None);
            assert_eq!(res.choices.map(|c| c.len()), Some(0));
        }
        other => panic!("unexpected {:?}", other),
    }
    match open_file_results(DialogOutcome::Accepted, parse_uris(&vec!["nope".to_string()]), None, &vec![], &None) {
        Response::Success(res) => assert!(res.uris.is_none()),
        other => panic!("unexpected {:?}", other),
    }
    assert!(matches!(
        open_file_results(DialogOutcome::Cancelled, vec![], None, &vec![], &None),
        Response::Cancelled
    ));
}

#[test]
fn read_only_choice_decides_writability() {
    assert_eq!(writable_from(&Some("false".to_string())), Some(true));
    assert_eq!(writable_from(&Some("true".to_string())), Some(false));
    assert_eq!(writable_from(&None), None);
    let c = Choice::boolean("read-only", "Read only", true);
    assert_eq!(c.initial_selection, "true");
    assert!(c.options.is_empty());
}

#[test]
fn parse_uris_keeps_order_and_drops_bad_ones() {
    let uris = parse_uris(&vec![
        "b:x".to_string(),
        "".to_string(),
        "file:///a".to_string(),
        "no scheme".to_string(),
    ]);
    let texts: Vec<&str> = uris.iter().map(|u| u.as_str()).collect();
    assert_eq!(texts, vec!["b:x", "file:///a"]);
}

#[test]
fn uri_parse_normalises() {
    assert_eq!(Uri::parse("file:///bg.png").unwrap().as_str(), "file:///bg.png");
    assert_eq!(Uri::parse("HTTP://Example.com").unwrap().as_str(), "http://example.com/");
    assert!(Uri::parse("relative/path").is_none());
}

#[test]
fn file_names_must_end_in_one_nul() {
    let f = FileName::from_bytes_with_nul(b"a.txt\0".to_vec()).unwrap();
    assert_eq!(f.as_bytes(), b"a.txt");
    assert!(FileName::from_bytes_with_nul(b"a.txt".to_vec()).is_none());
    assert!(FileName::from_bytes_with_nul(b"a\0b\0".to_vec()).is_none());
    assert!(FileName::from_bytes_with_nul(vec![]).is_none());
    assert_eq!(FileName::from_bytes_with_nul(vec![0]).unwrap().as_bytes(), b"");
}

#[test]
fn permissions_and_flags() {
    assert_eq!(Permission::GrantPermissions.as_str(), "grant-permissions");
    assert_eq!(Permission::parse("write"), Some(Permission::Write));
    assert_eq!(Permission::parse("delete"), Some(Permission::Delete));
    assert_eq!(Permission::parse("Read"), None);
    assert_eq!(Permission::Read.to_string(), "read");
    assert_eq!(Flags::ReuseExisting.bits(), 1);
    assert_eq!(Flags::Persistent.bits(), 2);
    assert_eq!(Flags::AsNeededByApp.bits(), 4);
    assert_eq!(Flags::ExportDirectory.bits(), 8);
}

#[test]
fn user_information_request_builder() {
    let r = UserInformation::builder();
    assert!(r.options().reason().is_none());
    assert!(!r.window_identifier().is_set());
    let r = r.reason(Some("Why")).identifier(Some(WindowIdentifier::from_type(WindowIdentifierType::X11(7))));
    assert_eq!(r.options().reason(), Some("Why"));
    assert_eq!(r.window_identifier().target, Some(WindowIdentifierType::X11(7)));
    let r = UserInformationRequest::new().reason(None).identifier(None);
    assert!(r.options().reason().is_none());
    assert!(r.window_identifier().target.is_none());
}

#[test]
fn ids_compare_by_value() {
    assert_eq!(AppID::new("org.a"), AppID::from_string("org.a".to_string()));
    assert_ne!(AppID::new("org.a"), AppID::new("org.b"));
    assert_eq!(AppID::new("org.a").to_string(), "org.a");
    assert_eq!(DocumentID::new("f2ee988d").as_str(), "f2ee988d");
    assert_eq!(SetOn::Lockscreen.as_str(), "lockscreen");
    assert_eq!(SetOn::parse("both"), Some(SetOn::Both));
    assert_eq!(SetOn::parse("background"), Some(SetOn::Background));
    assert_eq!(SetOn::parse("Both"), None);
}

#[test]
fn offered_choices_end_with_read_only() {
    let mine = Choice {
        id: "encoding".to_string(),
        label: "Encoding".to_string(),
        options: vec![("utf8".to_string(), "UTF-8".to_string())],
        initial_selection: "utf8".to_string(),
    };
    let offered = offered_choices(vec![mine.clone()], Some("Open directories read-only"));
    assert_eq!(offered.len(), 2);
    assert_eq!(offered[0], mine);
    assert_eq!(offered[1].id, "read-only");
    assert_eq!(offered[1].label, "Open directories read-only");
    assert_eq!(offered[1].initial_selection, "false");
    assert_eq!(offered_choices(vec![mine.clone()], None), vec![mine]);
}

#[test]
fn selected_choices_keep_reported_selections() {
    let a = Choice::boolean("a", "A", false);
    let b = Choice::boolean("b", "B", false);
    let c = Choice::boolean("read-only", "RO", false);
    let picked = selected_choices(&vec![
        (a, Some("true".to_string())),
        (b, None),
        (c, Some("false".to_string())),
    ]);
    let seen: Vec<(&str, &str)> = picked.iter().map(|c| (c.id.as_str(), c.initial_selection.as_str())).collect();
    assert_eq!(seen, vec![("a", "true"), ("read-only", "false")]);
}
