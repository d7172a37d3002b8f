use recipe_tui::browser::{load_directory_contents, DirEntry};
use recipe_tui::command::converter_program;
use recipe_tui::controller::{handle_key, handle_main_screen_input, handle_result_screen_input, Key};
use recipe_tui::focus::FocusedWidget;
use recipe_tui::selectable::SelectableList;
use recipe_tui::state::{
    outcome_message, Action, App, AppError, ConversionOutcome, ConversionRequest, DirectoryScan,
    Screen,
};

fn dir(path: &str) -> DirEntry {
    DirEntry { path: path.to_string(), is_dir: true, is_file: false, extension: None }
}

fn file(path: &str, ext: Option<&str>) -> DirEntry {
    DirEntry {
        path: path.to_string(),
        is_dir: false,
        is_file: true,
        extension: ext.map(|e| e.to_string()),
    }
}

fn sample_scan() -> DirectoryScan {
    DirectoryScan {
        parent: Some("/home".to_string()),
        entries: vec![
            file("/home/u/a.txt", Some("txt")),
            dir("/home/u/sub"),
            file("/home/u/pack.mcaddon", Some("mcaddon")),
            file("/home/u/notes", None),
            dir("/home/u/other"),
            file("/home/u/b.txt", Some("txt")),
            file("/home/u/c.md", Some("md")),
        ],
    }
}

fn sample_app() -> App {
    App::new("/home/u".to_string(), sample_scan())
}

fn empty_app() -> App {
    App::new("/".to_string(), DirectoryScan { parent: None, entries: Vec::new() })
}

#[test]
fn advance_wraps_after_length_steps() {
    for start in 0..4usize {
        let mut l = SelectableList::new(vec![10, 20, 30, 40]);
        for _ in 0..start {
            l.advance();
        }
        assert_eq!(l.selected(), Some(start));
        for _ in 0..4 {
            l.advance();
        }
        assert_eq!(l.selected(), Some(start));
    }
}

#[test]
fn retreat_wraps_after_length_steps() {
    for start in 0..3usize {
        let mut l = SelectableList::new(vec!['a', 'b', 'c']);
        for _ in 0..start {
            l.advance();
        }
        for _ in 0..3 {
            l.retreat();
        }
        assert_eq!(l.selected(), Some(start));
    }
}

#[test]
fn advance_from_last_goes_to_first() {
    let mut l = SelectableList::new(vec![1, 2, 3]);
    l.advance();
    l.advance();
    assert_eq!(l.current(), Some(&3));
    l.advance();
    assert_eq!(l.current(), Some(&1));
}

#[test]
fn retreat_from_first_goes_to_last() {
    let mut l = SelectableList::new(vec![1, 2, 3]);
    l.retreat();
    assert_eq!(l.selected(), Some(2));
    assert_eq!(l.current(), Some(&3));
}

#[test]
fn single_entry_list_stays_put() {
    let mut l = SelectableList::new(vec![7]);
    l.advance();
    assert_eq!(l.selected(), Some(0));
    l.retreat();
    assert_eq!(l.selected(), Some(0));
}

#[test]
fn empty_list_is_safe() {
    let mut l: SelectableList<u8> = SelectableList::new(Vec::new());
    assert_eq!(l.selected(), None);
    l.advance();
    assert_eq!(l.selected(), None);
    l.retreat();
    assert_eq!(l.selected(), None);
    assert_eq!(l.current(), None);
    assert!(l.is_empty());
    let e: SelectableList<u8> = SelectableList::empty();
    assert_eq!(e.current(), None);
}

#[test]
fn select_default_goes_back_to_first() {
    let mut l = SelectableList::new(vec![5, 6, 7]);
    l.advance();
    l.advance();
    l.select_default();
    assert_eq!(l.selected(), Some(0));
    l.select_default();
    assert_eq!(l.selected(), Some(0));
}

#[test]
fn replace_with_empty_clears_cursor() {
    let mut l = SelectableList::new(vec![5, 6]);
    l.advance();
    l.replace(Vec::new());
    assert_eq!(l.selected(), None);
    assert_eq!(l.len(), 0);
}

#[test]
fn focus_ring_closes_without_archive() {
    let mut app = sample_app();
    let starts = [
        FocusedWidget::Directory,
        FocusedWidget::TxtFile,
        FocusedWidget::McaddonToggle,
        FocusedWidget::GoButton,
    ];
    for w in starts {
        app.focused_widget = w;
        for _ in 0..4 {
            app.next_widget();
        }
        assert_eq!(app.focused_widget, w);
    }
}

#[test]
fn focus_ring_closes_with_archive() {
    let mut app = sample_app();
    app.use_mcaddon = true;
    let starts = [
        FocusedWidget::Directory,
        FocusedWidget::TxtFile,
        FocusedWidget::McaddonToggle,
        FocusedWidget::McaddonFile,
        FocusedWidget::GoButton,
    ];
    for w in starts {
        app.focused_widget = w;
        for _ in 0..5 {
            app.next_widget();
        }
        assert_eq!(app.focused_widget, w);
    }
}

#[test]
fn focus_order_follows_toggle() {
    let mut app = sample_app();
    app.focused_widget = FocusedWidget::McaddonToggle;
    app.next_widget();
    assert_eq!(app.focused_widget, FocusedWidget::GoButton);
    app.previous_widget();
    assert_eq!(app.focused_widget, FocusedWidget::McaddonToggle);
    app.use_mcaddon = true;
    app.next_widget();
    assert_eq!(app.focused_widget, FocusedWidget::McaddonFile);
    app.next_widget();
    assert_eq!(app.focused_widget, FocusedWidget::GoButton);
    app.previous_widget();
    assert_eq!(app.focused_widget, FocusedWidget::McaddonFile);
    app.focused_widget = FocusedWidget::Directory;
    app.previous_widget();
    assert_eq!(app.focused_widget, FocusedWidget::GoButton);
}

#[test]
fn previous_widget_undoes_next_widget() {
    for toggle in [false, true] {
        let mut app = sample_app();
        app.use_mcaddon = toggle;
        let mut targets = vec![
            FocusedWidget::Directory,
            FocusedWidget::TxtFile,
            FocusedWidget::McaddonToggle,
            FocusedWidget::GoButton,
        ];
        if toggle {
            targets.push(FocusedWidget::McaddonFile);
        }
        for w in targets {
            app.focused_widget = w;
            app.next_widget();
            app.previous_widget();
            assert_eq!(app.focused_widget, w);
        }
    }
}

#[test]
fn new_app_lists_directory() {
    let app = sample_app();
    assert_eq!(app.screen, Screen::Main);
    assert_eq!(app.focused_widget, FocusedWidget::Directory);
    assert!(!app.use_mcaddon);
    assert_eq!(app.result_message, "");
    assert_eq!(
        app.directories.items(),
        &vec!["/home".to_string(), "/home/u/sub".to_string(), "/home/u/other".to_string()]
    );
    assert_eq!(app.txt_files.items(), &vec!["/home/u/a.txt".to_string(), "/home/u/b.txt".to_string()]);
    assert_eq!(app.mcaddon_files.items(), &vec!["/home/u/pack.mcaddon".to_string()]);
    assert_eq!(app.directories.selected(), Some(0));
    assert_eq!(app.txt_files.selected(), Some(0));
    assert_eq!(app.mcaddon_files.selected(), Some(0));
}

#[test]
fn root_directory_has_no_parent_entry() {
    let scan = DirectoryScan { parent: None, entries: vec![dir("/etc"), dir("/usr")] };
    let app = App::new("/".to_string(), scan);
    assert_eq!(app.directories.items(), &vec!["/etc".to_string(), "/usr".to_string()]);
}

#[test]
fn load_directory_contents_sorts_entries() {
    let scan = sample_scan();
    let c = load_directory_contents(scan.parent, &scan.entries);
    assert_eq!(c.directories, vec!["/home", "/home/u/sub", "/home/u/other"]);
    assert_eq!(c.txt_files, vec!["/home/u/a.txt", "/home/u/b.txt"]);
    assert_eq!(c.mcaddon_files, vec!["/home/u/pack.mcaddon"]);
}

#[test]
fn directory_named_like_a_file_is_no_file() {
    let entries = vec![DirEntry {
        path: "/x/odd.txt".to_string(),
        is_dir: true,
        is_file: false,
        extension: Some("txt".to_string()),
    }];
    let c = load_directory_contents(None, &entries);
    assert_eq!(c.directories, vec!["/x/odd.txt"]);
    assert!(c.txt_files.is_empty());
}

#[test]
fn change_directory_reloads_lists() {
    let mut app = sample_app();
    app.focused_widget = FocusedWidget::TxtFile;
    app.next_item();
    assert_eq!(app.txt_files.selected(), Some(1));
    let scan = DirectoryScan {
        parent: Some("/home/u".to_string()),
        entries: vec![file("/home/u/sub/z.txt", Some("txt")), dir("/home/u/sub/deep")],
    };
    let r = app.change_directory("/home/u/sub".to_string(), Ok(scan));
    assert!(r.is_ok());
    assert_eq!(app.current_directory, "/home/u/sub");
    assert_eq!(app.directories.items(), &vec!["/home/u".to_string(), "/home/u/sub/deep".to_string()]);
    assert_eq!(app.txt_files.items(), &vec!["/home/u/sub/z.txt".to_string()]);
    assert_eq!(app.txt_files.selected(), Some(0));
    assert!(app.mcaddon_files.is_empty());
    assert_eq!(app.mcaddon_files.selected(), None);
    assert_eq!(app.focused_widget, FocusedWidget::TxtFile);
}

#[test]
fn change_directory_failure_keeps_state() {
    let mut app = sample_app();
    let r = app.change_directory("/gone".to_string(), Err("permission denied".to_string()));
    match r {
        Err(AppError::DirectoryRead(m)) => assert_eq!(m, "permission denied"),
        _ => panic!("expected a directory read error"),
    }
    assert_eq!(app.current_directory, "/home/u");
    assert_eq!(app.directories.len(), 3);
    assert_eq!(app.txt_files.len(), 2);
}

#[test]
fn items_move_only_in_focused_list() {
    let mut app = sample_app();
    app.focused_widget = FocusedWidget::Directory;
    app.next_item();
    assert_eq!(app.directories.selected(), Some(1));
    assert_eq!(app.txt_files.selected(), Some(0));
    app.previous_item();
    app.previous_item();
    assert_eq!(app.directories.selected(), Some(2));
    app.focused_widget = FocusedWidget::GoButton;
    app.next_item();
    assert_eq!(app.directories.selected(), Some(2));
    assert_eq!(app.txt_files.selected(), Some(0));
    assert_eq!(app.mcaddon_files.selected(), Some(0));
}

#[test]
fn missing_primary_selection_reports_error() {
    let mut app = empty_app();
    app.focused_widget = FocusedWidget::GoButton;
    let a = app.activate();
    assert!(matches!(a, Action::Continue));
    assert_eq!(app.screen, Screen::Result);
    assert!(app.result_message.contains("No .txt file selected"));
}

#[test]
fn successful_conversion_reports_output() {
    let scan = DirectoryScan { parent: None, entries: vec![file("/r.txt", Some("txt"))] };
    let mut app = App::new("/".to_string(), scan);
    app.focused_widget = FocusedWidget::GoButton;
    let a = app.activate();
    let q = match a {
        Action::Convert(q) => q,
        _ => panic!("expected a conversion request"),
    };
    assert_eq!(q.txt_file, "/r.txt");
    assert_eq!(q.mcaddon_file, None);
    assert_eq!(app.screen, Screen::Main);
    app.finish_conversion(ConversionOutcome::Finished {
        success: true,
        stdout: "OK".to_string(),
        stderr: String::new(),
    });
    assert_eq!(app.result_message, "Success!\n\nOK");
    assert_eq!(app.screen, Screen::Result);
}

#[test]
fn failed_conversion_reports_stderr() {
    let mut app = sample_app();
    app.finish_conversion(ConversionOutcome::Finished {
        success: false,
        stdout: "ignored".to_string(),
        stderr: "bad format".to_string(),
    });
    assert_eq!(app.result_message, "Error:\n\nbad format");
    assert_eq!(app.screen, Screen::Result);
}

#[test]
fn launch_failure_is_wrapped() {
    let o = ConversionOutcome::LaunchFailed("No such file or directory".to_string());
    assert_eq!(outcome_message(&o), "Failed to execute command: No such file or directory");
}

#[test]
fn toggle_gating_requires_archive() {
    let scan = DirectoryScan { parent: None, entries: vec![file("/r.txt", Some("txt"))] };
    let mut app = App::new("/".to_string(), scan);
    app.use_mcaddon = true;
    app.focused_widget = FocusedWidget::GoButton;
    let a = app.activate();
    assert!(matches!(a, Action::Continue));
    assert_eq!(app.screen, Screen::Result);
    assert_eq!(app.result_message, "Error: No .mcaddon file selected");
}

#[test]
fn execute_reports_each_missing_selection() {
    let mut app = empty_app();
    assert!(matches!(app.execute_python_script(), Err(AppError::NoPrimarySelected)));
    let scan = DirectoryScan { parent: None, entries: vec![file("/r.txt", Some("txt"))] };
    let mut app = App::new("/".to_string(), scan);
    app.use_mcaddon = true;
    assert!(matches!(app.execute_python_script(), Err(AppError::NoCompanionSelected)));
}

#[test]
fn conversion_with_archive_passes_both_files() {
    let mut app = sample_app();
    app.use_mcaddon = true;
    app.focused_widget = FocusedWidget::TxtFile;
    app.next_item();
    let q = app.execute_python_script().ok().expect("request");
    assert_eq!(q.txt_file, "/home/u/b.txt");
    assert_eq!(q.mcaddon_file, Some("/home/u/pack.mcaddon".to_string()));
    assert_eq!(
        q.arguments(),
        vec!["run", "minecraft_recipe.py", "/home/u/b.txt", "--mcaddon", "/home/u/pack.mcaddon"]
    );
    assert_eq!(converter_program(), "uv");
}

#[test]
fn arguments_without_archive() {
    let q = ConversionRequest { txt_file: "/a.txt".to_string(), mcaddon_file: None };
    assert_eq!(q.arguments(), vec!["run", "minecraft_recipe.py", "/a.txt"]);
}

#[test]
fn error_messages() {
    assert_eq!(AppError::NoPrimarySelected.message(), "Error: No .txt file selected");
    assert_eq!(AppError::NoCompanionSelected.message(), "Error: No .mcaddon file selected");
    assert_eq!(AppError::NonZeroExit("x".to_string()).message(), "Error:\n\nx");
    assert_eq!(AppError::LaunchFailure("y".to_string()).message(), "Failed to execute command: y");
    assert_eq!(AppError::DirectoryRead("z".to_string()).message(), "Cannot read directory: z");
}

#[test]
fn enter_on_directory_asks_for_move() {
    let mut app = sample_app();
    app.next_item();
    let a = app.activate();
    match a {
        Action::ChangeDirectory(d) => assert_eq!(d, "/home/u/sub"),
        _ => panic!("expected a directory change"),
    }
    assert_eq!(app.current_directory, "/home/u");
}

#[test]
fn enter_on_toggle_flips_it() {
    let mut app = sample_app();
    app.focused_widget = FocusedWidget::McaddonToggle;
    assert!(matches!(app.activate(), Action::Continue));
    assert!(app.use_mcaddon);
    app.activate();
    assert!(!app.use_mcaddon);
    app.toggle_mcaddon();
    assert!(app.use_mcaddon);
}

#[test]
fn enter_on_file_list_does_nothing() {
    let mut app = sample_app();
    app.focused_widget = FocusedWidget::TxtFile;
    assert!(matches!(app.activate(), Action::Continue));
    assert_eq!(app.screen, Screen::Main);
    assert_eq!(app.txt_files.selected(), Some(0));
}

#[test]
fn main_screen_keys() {
    let mut app = sample_app();
    assert!(matches!(handle_main_screen_input(&mut app, Key::Char('q')), Action::Quit));
    assert!(matches!(handle_main_screen_input(&mut app, Key::Esc), Action::Quit));
    assert!(matches!(handle_main_screen_input(&mut app, Key::Tab), Action::Continue));
    assert_eq!(app.focused_widget, FocusedWidget::TxtFile);
    handle_main_screen_input(&mut app, Key::BackTab);
    assert_eq!(app.focused_widget, FocusedWidget::Directory);
    handle_main_screen_input(&mut app, Key::Down);
    assert_eq!(app.directories.selected(), Some(1));
    handle_main_screen_input(&mut app, Key::Up);
    assert_eq!(app.directories.selected(), Some(0));
    assert!(matches!(handle_main_screen_input(&mut app, Key::Char('x')), Action::Continue));
    assert!(matches!(handle_main_screen_input(&mut app, Key::Other), Action::Continue));
    assert!(matches!(
        handle_main_screen_input(&mut app, Key::Enter),
        Action::ChangeDirectory(_)
    ));
}

#[test]
fn result_screen_keys() {
    assert!(handle_result_screen_input(Key::Enter));
    assert!(handle_result_screen_input(Key::Char('q')));
    assert!(handle_result_screen_input(Key::Esc));
    assert!(!handle_result_screen_input(Key::Tab));
    assert!(!handle_result_screen_input(Key::Char('x')));
    let mut app = sample_app();
    app.screen = Screen::Result;
    assert!(matches!(handle_key(&mut app, Key::Tab), Action::Continue));
    assert_eq!(app.focused_widget, FocusedWidget::Directory);
    assert!(matches!(handle_key(&mut app, Key::Enter), Action::Quit));
}

#[test]
fn handle_key_on_main_screen() {
    let mut app = sample_app();
    assert!(matches!(handle_key(&mut app, Key::Tab), Action::Continue));
    assert_eq!(app.focused_widget, FocusedWidget::TxtFile);
    assert_eq!(app.screen, Screen::Main);
    assert_eq!(app.current_directory, "/home/u");
    assert!(!app.use_mcaddon);
    assert_eq!(app.result_message, "");
    assert!(matches!(handle_key(&mut app, Key::Char('q')), Action::Quit));
    assert!(matches!(handle_key(&mut app, Key::Esc), Action::Quit));
    assert_eq!(app.focused_widget, FocusedWidget::TxtFile);
}
