//! The state of the whole front-end: the directory being browsed, its three
//! lists, the focus, the archive toggle, the screen and the converter's report.

use crate::browser::{
    directory_list, files_with_extension, is_file_with_extension, lemma_files_with_extension_exact,
    lemma_subdirectories_exact, load_directory_contents, mcaddon_extension, parent_entry,
    subdirectories, txt_extension, DirEntry,
};
use crate::focus::{next_focus, previous_focus, FocusedWidget};
use crate::selectable::SelectableList;
use vstd::prelude::*;

verus! {

/// The screen on show.
#[derive(Debug, Clone, Copy, PartialEq, Eq, Structural)]
pub enum Screen {
    Main,
    Result,
}

/// What went wrong, on the way to a conversion or while browsing.
pub enum AppError {
    /// The directory could not be listed; the text says why.
    DirectoryRead(String),
    /// The converter was asked for with no recipe file selected.
    NoPrimarySelected,
    /// The archive toggle is on and no archive is selected.
    NoCompanionSelected,
    /// The converter could not be started; the text says why.
    LaunchFailure(String),
    /// The converter ran and failed; the text is what it wrote to its error stream.
    NonZeroExit(String),
}

/// A listing of one directory: its parent, if it has one, and its entries in
/// the order the file system gave them.
pub struct DirectoryScan {
    pub parent: Option<String>,
    pub entries: Vec<DirEntry>,
}

/// What the converter is to be run on.
pub struct ConversionRequest {
    /// The recipe file.
    pub txt_file: String,
    /// The add-on archive, when the archive toggle is on.
    pub mcaddon_file: Option<String>,
}

/// How a run of the converter ended.
pub enum ConversionOutcome {
    /// The converter ran to its end, with or without success, and wrote these
    /// texts to its output and error streams.
    Finished { success: bool, stdout: String, stderr: String },
    /// The converter could not be started; the text says why.
    LaunchFailed(String),
}

/// The report when no recipe file is selected.
pub open spec fn no_txt_message() -> Seq<char> {
    "Error: No .txt file selected"@
}

/// The report when the archive toggle is on and no archive is selected.
pub open spec fn no_mcaddon_message() -> Seq<char> {
    "Error: No .mcaddon file selected"@
}

/// What precedes the converter's output after a successful run.
pub open spec fn success_banner() -> Seq<char> {
    "Success!\n\n"@
}

/// What precedes the converter's error stream after a failed run.
pub open spec fn failure_banner() -> Seq<char> {
    "Error:\n\n"@
}

/// What precedes the reason the converter could not be started.
pub open spec fn launch_failure_banner() -> Seq<char> {
    "Failed to execute command: "@
}

/// What precedes the reason a directory could not be listed.
pub open spec fn listing_failure_banner() -> Seq<char> {
    "Cannot read directory: "@
}

/// The text that describes an error.
pub open spec fn error_text(e: AppError) -> Seq<char> {
    match e {
        AppError::DirectoryRead(m) => listing_failure_banner() + m@,
        AppError::NoPrimarySelected => no_txt_message(),
        AppError::NoCompanionSelected => no_mcaddon_message(),
        AppError::LaunchFailure(m) => launch_failure_banner() + m@,
        AppError::NonZeroExit(m) => failure_banner() + m@,
    }
}

/// The report shown once a run of the converter has ended.
pub open spec fn outcome_text(o: ConversionOutcome) -> Seq<char> {
    match o {
        ConversionOutcome::Finished { success, stdout, stderr } => if success {
            success_banner() + stdout@
        } else {
            failure_banner() + stderr@
        },
        ConversionOutcome::LaunchFailed(m) => launch_failure_banner() + m@,
    }
}

impl AppError {
    /// The text that describes the error.
    pub fn message(&self) -> (r: String)
        ensures
            r@ == error_text(*self),
    {
        match self {
            AppError::DirectoryRead(m) => {
                let mut s = "Cannot read directory: ".to_owned();
                s.append(m.as_str());
                s
            },
            AppError::NoPrimarySelected => "Error: No .txt file selected".to_owned(),
            AppError::NoCompanionSelected => "Error: No .mcaddon file selected".to_owned(),
            AppError::LaunchFailure(m) => {
                let mut s = "Failed to execute command: ".to_owned();
                s.append(m.as_str());
                s
            },
            AppError::NonZeroExit(m) => {
                let mut s = "Error:\n\n".to_owned();
                s.append(m.as_str());
                s
            },
        }
    }
}

/// The report shown once a run of the converter has ended.
pub fn outcome_message(outcome: &ConversionOutcome) -> (r: String)
    ensures
        r@ == outcome_text(*outcome),
{
    match outcome {
        ConversionOutcome::Finished { success, stdout, stderr } => {
            if *success {
                let mut s = "Success!\n\n".to_owned();
                s.append(stdout.as_str());
                s
            } else {
                AppError::NonZeroExit(stderr.clone()).message()
            }
        },
        ConversionOutcome::LaunchFailed(m) => AppError::LaunchFailure(m.clone()).message(),
    }
}

} // verus!

verus! {

/// What the surrounding program is to do after a step of the state machine.
pub enum Action {
    /// Nothing: wait for the next key.
    Continue,
    /// Leave the program.
    Quit,
    /// List this directory and hand the listing to `App::change_directory`.
    ChangeDirectory(String),
    /// Run the converter and hand its outcome to `App::finish_conversion`.
    Convert(ConversionRequest),
}

/// The whole state of the front-end.
pub struct App {
    pub screen: Screen,
    pub focused_widget: FocusedWidget,
    pub current_directory: String,
    /// The parent directory, if any, then the subdirectories.
    pub directories: SelectableList<String>,
    /// The recipe files of the current directory.
    pub txt_files: SelectableList<String>,
    /// The add-on archives of the current directory.
    pub mcaddon_files: SelectableList<String>,
    /// Whether an add-on archive goes to the converter too.
    pub use_mcaddon: bool,
    /// The converter's report, or why it was not run.
    pub result_message: String,
}

/// The two states agree on everything but the three lists.
pub open spec fn same_settings(a: App, b: App) -> bool {
    &&& a.screen == b.screen
    &&& a.focused_widget == b.focused_widget
    &&& a.current_directory == b.current_directory
    &&& a.use_mcaddon == b.use_mcaddon
    &&& a.result_message == b.result_message
}

/// The two states hold the same three lists.
pub open spec fn same_lists(a: App, b: App) -> bool {
    &&& a.directories == b.directories
    &&& a.txt_files == b.txt_files
    &&& a.mcaddon_files == b.mcaddon_files
}

/// What the converter is to be run on, or why it cannot be run, given the
/// selections of `app`.
pub open spec fn conversion_request(app: App) -> Result<ConversionRequest, AppError> {
    match app.txt_files.current_entry() {
        None => Err(AppError::NoPrimarySelected),
        Some(t) => if app.use_mcaddon {
            match app.mcaddon_files.current_entry() {
                None => Err(AppError::NoCompanionSelected),
                Some(m) => Ok(ConversionRequest { txt_file: t, mcaddon_file: Some(m) }),
            }
        } else {
            Ok(ConversionRequest { txt_file: t, mcaddon_file: None })
        },
    }
}

/// `b` is `a` with the focus moved one widget forward (or back); every
/// other part of the state is unchanged.
pub open spec fn focus_moved(a: App, b: App, forward: bool) -> bool {
    &&& b.focused_widget == if forward {
        next_focus(a.focused_widget, a.use_mcaddon)
    } else {
        previous_focus(a.focused_widget, a.use_mcaddon)
    }
    &&& b.screen == a.screen
    &&& b.current_directory == a.current_directory
    &&& b.use_mcaddon == a.use_mcaddon
    &&& b.result_message == a.result_message
    &&& same_lists(b, a)
}

/// The list that `a` has in focus, if any, has its cursor one step on (or
/// back) in `b`; every other part of the state is unchanged.
pub open spec fn items_stepped(a: App, b: App, forward: bool) -> bool {
    &&& same_settings(b, a)
    &&& if a.focused_widget == FocusedWidget::Directory {
        if forward {
            b.directories.is_advanced_from(a.directories)
        } else {
            b.directories.is_retreated_from(a.directories)
        }
    } else {
        b.directories == a.directories
    }
    &&& if a.focused_widget == FocusedWidget::TxtFile {
        if forward {
            b.txt_files.is_advanced_from(a.txt_files)
        } else {
            b.txt_files.is_retreated_from(a.txt_files)
        }
    } else {
        b.txt_files == a.txt_files
    }
    &&& if a.focused_widget == FocusedWidget::McaddonFile {
        if forward {
            b.mcaddon_files.is_advanced_from(a.mcaddon_files)
        } else {
            b.mcaddon_files.is_retreated_from(a.mcaddon_files)
        }
    } else {
        b.mcaddon_files == a.mcaddon_files
    }
}

/// Enter on the focused widget of `a` leads to `b` and asks for `r`: on the
/// directory list, a move to the selected directory; on the toggle, the
/// archive switched; on the button, a run of the converter, or the reason it
/// cannot run shown on the result screen; on a file list, nothing.
pub open spec fn activated(a: App, b: App, r: Action) -> bool {
    &&& same_lists(b, a)
    &&& b.focused_widget == a.focused_widget
    &&& b.current_directory == a.current_directory
    &&& match a.focused_widget {
        FocusedWidget::Directory => {
            &&& b == a
            &&& match a.directories.current_entry() {
                Some(d) => r == Action::ChangeDirectory(d),
                None => r is Continue,
            }
        },
        FocusedWidget::McaddonToggle => {
            &&& r is Continue
            &&& b.use_mcaddon == !a.use_mcaddon
            &&& b.screen == a.screen
            &&& b.result_message == a.result_message
        },
        FocusedWidget::GoButton => {
            &&& b.use_mcaddon == a.use_mcaddon
            &&& match conversion_request(a) {
                Ok(q) => {
                    &&& r == Action::Convert(q)
                    &&& b.screen == a.screen
                    &&& b.result_message == a.result_message
                },
                Err(e) => {
                    &&& r is Continue
                    &&& b.screen == Screen::Result
                    &&& b.result_message@ == error_text(e)
                },
            }
        },
        _ => {
            &&& r is Continue
            &&& b == a
        },
    }
}

/// After a move to a directory whose listing is `scan`, the directory list
/// starts with the parent, when there is one, and the rest of it is exactly
/// the subdirectories; the recipe and archive lists hold exactly the files
/// with each extension.
pub proof fn lemma_reload_consistent(app: App, scan: DirectoryScan, p: String)
    requires
        app.shows(scan),
    ensures
        scan.parent is Some ==> app.directories.entries()[0] == scan.parent->Some_0,
        app.directories.entries().subrange(
            parent_entry(scan.parent).len() as int,
            app.directories.entries().len() as int,
        ).contains(p) <==> exists|j: int|
            0 <= j < scan.entries@.len() && #[trigger] scan.entries@[j].is_dir
                && scan.entries@[j].path == p,
        app.txt_files.entries().contains(p) <==> exists|j: int|
            0 <= j < scan.entries@.len() && #[trigger] is_file_with_extension(
                scan.entries@[j],
                txt_extension(),
            ) && scan.entries@[j].path == p,
        app.mcaddon_files.entries().contains(p) <==> exists|j: int|
            0 <= j < scan.entries@.len() && #[trigger] is_file_with_extension(
                scan.entries@[j],
                mcaddon_extension(),
            ) && scan.entries@[j].path == p,
{
    let d = app.directories.entries();
    let pre = parent_entry(scan.parent);
    assert(d.subrange(pre.len() as int, d.len() as int) =~= subdirectories(scan.entries@));
    lemma_subdirectories_exact(scan.entries@, p);
    lemma_files_with_extension_exact(scan.entries@, txt_extension(), p);
    lemma_files_with_extension_exact(scan.entries@, mcaddon_extension(), p);
}

impl App {
    /// Every list's cursor fits its entries.
    pub open spec fn wf(&self) -> bool {
        &&& self.directories.wf()
        &&& self.txt_files.wf()
        &&& self.mcaddon_files.wf()
    }

    /// The three lists hold what the listing offers, each with its first entry
    /// selected.
    pub open spec fn shows(&self, scan: DirectoryScan) -> bool {
        &&& self.directories.holds_fresh(directory_list(scan.parent, scan.entries@))
        &&& self.txt_files.holds_fresh(files_with_extension(scan.entries@, txt_extension()))
        &&& self.mcaddon_files.holds_fresh(
            files_with_extension(scan.entries@, mcaddon_extension()),
        )
    }

    /// The state at start-up, browsing `current_directory`, whose listing is
    /// `scan`.
    pub fn new(current_directory: String, scan: DirectoryScan) -> (r: App)
        ensures
            r.wf(),
            r.shows(scan),
            r.screen == Screen::Main,
            r.focused_widget == FocusedWidget::Directory,
            r.current_directory == current_directory,
            !r.use_mcaddon,
            r.result_message@.len() == 0,
    {
        let contents = load_directory_contents(scan.parent, &scan.entries);
        App {
            screen: Screen::Main,
            focused_widget: FocusedWidget::Directory,
            current_directory,
            directories: SelectableList::new(contents.directories),
            txt_files: SelectableList::new(contents.txt_files),
            mcaddon_files: SelectableList::new(contents.mcaddon_files),
            use_mcaddon: false,
            result_message: String::new(),
        }
    }

    /// Moves to `new_dir`, whose listing is `scan`, and refills the three
    /// lists. Where the listing failed, nothing changes and the error is
    /// returned.
    pub fn change_directory(&mut self, new_dir: String, scan: Result<DirectoryScan, String>) -> (r:
        Result<(), AppError>)
        ensures
            match scan {
                Ok(s) => {
                    &&& r is Ok
                    &&& final(self).wf()
                    &&& final(self).shows(s)
                    &&& final(self).current_directory == new_dir
                    &&& final(self).screen == old(self).screen
                    &&& final(self).focused_widget == old(self).focused_widget
                    &&& final(self).use_mcaddon == old(self).use_mcaddon
                    &&& final(self).result_message == old(self).result_message
                },
                Err(m) => {
                    &&& r == Err::<(), AppError>(AppError::DirectoryRead(m))
                    &&& *final(self) == *old(self)
                },
            },
    {
        match scan {
            Ok(s) => {
                let contents = load_directory_contents(s.parent, &s.entries);
                self.current_directory = new_dir;
                self.directories.replace(contents.directories);
                self.txt_files.replace(contents.txt_files);
                self.mcaddon_files.replace(contents.mcaddon_files);
                Ok(())
            },
            Err(m) => Err(AppError::DirectoryRead(m)),
        }
    }

    /// Moves the focus to the next widget.
    pub fn next_widget(&mut self)
        ensures
            focus_moved(*old(self), *final(self), true),
    {
        self.focused_widget = match self.focused_widget {
            FocusedWidget::Directory => FocusedWidget::TxtFile,
            FocusedWidget::TxtFile => FocusedWidget::McaddonToggle,
            FocusedWidget::McaddonToggle => {
                if self.use_mcaddon {
                    FocusedWidget::McaddonFile
                } else {
                    FocusedWidget::GoButton
                }
            },
            FocusedWidget::McaddonFile => FocusedWidget::GoButton,
            FocusedWidget::GoButton => FocusedWidget::Directory,
        };
    }

    /// Moves the focus to the previous widget.
    pub fn previous_widget(&mut self)
        ensures
            focus_moved(*old(self), *final(self), false),
    {
        self.focused_widget = match self.focused_widget {
            FocusedWidget::Directory => FocusedWidget::GoButton,
            FocusedWidget::TxtFile => FocusedWidget::Directory,
            FocusedWidget::McaddonToggle => FocusedWidget::TxtFile,
            FocusedWidget::McaddonFile => FocusedWidget::McaddonToggle,
            FocusedWidget::GoButton => {
                if self.use_mcaddon {
                    FocusedWidget::McaddonFile
                } else {
                    FocusedWidget::McaddonToggle
                }
            },
        };
    }

    /// Moves the cursor of the focused list one entry on; a widget that is no
    /// list is left alone.
    pub fn next_item(&mut self)
        requires
            old(self).wf(),
        ensures
            final(self).wf(),
            items_stepped(*old(self), *final(self), true),
    {
        match self.focused_widget {
            FocusedWidget::Directory => self.directories.advance(),
            FocusedWidget::TxtFile => self.txt_files.advance(),
            FocusedWidget::McaddonFile => self.mcaddon_files.advance(),
            _ => {},
        }
    }

    /// Moves the cursor of the focused list one entry back; a widget that is
    /// no list is left alone.
    pub fn previous_item(&mut self)
        requires
            old(self).wf(),
        ensures
            final(self).wf(),
            items_stepped(*old(self), *final(self), false),
    {
        match self.focused_widget {
            FocusedWidget::Directory => self.directories.retreat(),
            FocusedWidget::TxtFile => self.txt_files.retreat(),
            FocusedWidget::McaddonFile => self.mcaddon_files.retreat(),
            _ => {},
        }
    }

    /// Switches the add-on archive on or off.
    pub fn toggle_mcaddon(&mut self)
        ensures
            final(self).use_mcaddon == !old(self).use_mcaddon,
            final(self).screen == old(self).screen,
            final(self).focused_widget == old(self).focused_widget,
            final(self).current_directory == old(self).current_directory,
            final(self).result_message == old(self).result_message,
            same_lists(*final(self), *old(self)),
    {
        self.use_mcaddon = !self.use_mcaddon;
    }
    /// Checks the selections for a run of the converter. Where one is
    /// missing, the reason becomes the report and the result screen is shown;
    /// otherwise nothing changes and the request is returned.
    pub fn execute_python_script(&mut self) -> (r: Result<ConversionRequest, AppError>)
        requires
            old(self).wf(),
        ensures
            r == conversion_request(*old(self)),
            final(self).wf(),
            same_lists(*final(self), *old(self)),
            final(self).focused_widget == old(self).focused_widget,
            final(self).current_directory == old(self).current_directory,
            final(self).use_mcaddon == old(self).use_mcaddon,
            match r {
                Ok(_) => {
                    &&& final(self).screen == old(self).screen
                    &&& final(self).result_message == old(self).result_message
                },
                Err(e) => {
                    &&& final(self).screen == Screen::Result
                    &&& final(self).result_message@ == error_text(e)
                },
            },
    {
        let txt_file = match self.txt_files.current() {
            Some(t) => t.clone(),
            None => {
                let e = AppError::NoPrimarySelected;
                self.result_message = e.message();
                self.screen = Screen::Result;
                return Err(e);
            },
        };
        if self.use_mcaddon {
            match self.mcaddon_files.current() {
                Some(m) => Ok(ConversionRequest { txt_file, mcaddon_file: Some(m.clone()) }),
                None => {
                    let e = AppError::NoCompanionSelected;
                    self.result_message = e.message();
                    self.screen = Screen::Result;
                    Err(e)
                },
            }
        } else {
            Ok(ConversionRequest { txt_file, mcaddon_file: None })
        }
    }

    /// Records how a run of the converter ended and shows the result screen.
    pub fn finish_conversion(&mut self, outcome: ConversionOutcome)
        ensures
            final(self).result_message@ == outcome_text(outcome),
            final(self).screen == Screen::Result,
            final(self).focused_widget == old(self).focused_widget,
            final(self).current_directory == old(self).current_directory,
            final(self).use_mcaddon == old(self).use_mcaddon,
            same_lists(*final(self), *old(self)),
    {
        self.result_message = outcome_message(&outcome);
        self.screen = Screen::Result;
    }

    /// What Enter does to the focused widget. On the directory list it asks
    /// for a move to the selected directory; on the toggle it switches the
    /// archive on or off; on the button it checks the selections and asks for
    /// a run of the converter; on a file list it does nothing.
    pub fn activate(&mut self) -> (r: Action)
        requires
            old(self).wf(),
        ensures
            final(self).wf(),
            activated(*old(self), *final(self), r),
    {
        match self.focused_widget {
            FocusedWidget::Directory => match self.directories.current() {
                Some(d) => Action::ChangeDirectory(d.clone()),
                None => Action::Continue,
            },
            FocusedWidget::McaddonToggle => {
                self.toggle_mcaddon();
                Action::Continue
            },
            FocusedWidget::GoButton => match self.execute_python_script() {
                Ok(q) => Action::Convert(q),
                Err(_) => Action::Continue,
            },
            _ => Action::Continue,
        }
    }
}

} // verus!
