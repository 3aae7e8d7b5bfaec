//! Launch targets and the command line that starts each of them.
//!
//! Resolving a target is pure; starting the process is left to the caller.

use vstd::prelude::*;

verus! {

/// An application the shell can start.
#[derive(Clone, Debug)]
pub enum LaunchableApp {
    Weather,
    AudioPlayer,
    VideoPlayer,
    FileExplorer,
    Terminal,
    IDE,
    TextEditor,
    Calendar,
    Maps,
    Notes,
    TodoList,
    Writer(Option<String>),
    Calc(Option<String>),
    Impress(Option<String>),
}

/// A program and its arguments, ready to be spawned.
#[derive(Clone, Debug)]
pub struct LaunchCommand {
    pub program: String,
    pub args: Vec<String>,
}

/// A command line as text: the program and the list of arguments.
pub struct CommandLine {
    pub program: Seq<char>,
    pub args: Seq<Seq<char>>,
}

impl View for LaunchCommand {
    type V = CommandLine;

    open spec fn view(&self) -> CommandLine {
        CommandLine { program: self.program@, args: self.args@.map_values(|a: String| a@) }
    }
}

/// The command line of `program` with `args`.
pub open spec fn command_line(program: Seq<char>, args: Seq<Seq<char>>) -> CommandLine {
    CommandLine { program, args }
}

/// The optional file argument, as a list of at most one argument.
pub open spec fn file_args(file: Option<Seq<char>>) -> Seq<Seq<char>> {
    match file {
        Some(f) => seq![f],
        None => Seq::empty(),
    }
}

/// The view of an optional borrowed file name.
pub open spec fn str_file(file: Option<&str>) -> Option<Seq<char>> {
    match file {
        Some(f) => Some(f@),
        None => None,
    }
}

/// The view of an optional owned file name.
pub open spec fn string_file(file: Option<String>) -> Option<Seq<char>> {
    match file {
        Some(f) => Some(f@),
        None => None,
    }
}

/// An office document editor opened with `flag` and an optional file.
pub open spec fn office_line(flag: Seq<char>, file: Option<Seq<char>>) -> CommandLine {
    command_line("libreoffice"@, seq![flag] + file_args(file))
}

/// A sandboxed application started by its flatpak id.
pub open spec fn flatpak_line(app_id: Seq<char>) -> CommandLine {
    command_line("flatpak"@, seq!["run"@, app_id])
}

/// One of the shell's own programs, started through the build tool.
pub open spec fn bin_line(bin: Seq<char>) -> CommandLine {
    command_line("cargo"@, seq!["run"@, "--bin"@, bin])
}

/// The command line that starts `app`.
pub open spec fn launch_line(app: LaunchableApp) -> CommandLine {
    match app {
        LaunchableApp::Weather => bin_line("weather"@),
        LaunchableApp::AudioPlayer => bin_line("audio"@),
        LaunchableApp::VideoPlayer => bin_line("video"@),
        LaunchableApp::FileExplorer => command_line("pcmanfm"@, Seq::empty()),
        LaunchableApp::Terminal => command_line("lxterminal"@, Seq::empty()),
        LaunchableApp::IDE => command_line("thonny"@, Seq::empty()),
        LaunchableApp::TextEditor => command_line("mousepad"@, Seq::empty()),
        LaunchableApp::Calendar => flatpak_line("org.gnome.Calendar"@),
        LaunchableApp::Maps => flatpak_line("org.gnome.Maps"@),
        LaunchableApp::Notes => flatpak_line("com.github.flxzt.rnote"@),
        LaunchableApp::TodoList => flatpak_line("io.github.mrvladus.List"@),
        LaunchableApp::Writer(f) => office_line("--writer"@, string_file(f)),
        LaunchableApp::Calc(f) => office_line("--calc"@, string_file(f)),
        LaunchableApp::Impress(f) => office_line("--impress"@, string_file(f)),
    }
}

/// Builds the command line of each launchable application.
pub struct Launcher;

impl Launcher {
    pub fn open_file_explorer() -> (r: LaunchCommand)
        ensures
            r@ == command_line("pcmanfm"@, Seq::empty()),
    {
        Self::command("pcmanfm")
    }

    pub fn open_terminal() -> (r: LaunchCommand)
        ensures
            r@ == command_line("lxterminal"@, Seq::empty()),
    {
        Self::command("lxterminal")
    }

    pub fn open_ide() -> (r: LaunchCommand)
        ensures
            r@ == command_line("thonny"@, Seq::empty()),
    {
        Self::command("thonny")
    }

    pub fn open_text_editor() -> (r: LaunchCommand)
        ensures
            r@ == command_line("mousepad"@, Seq::empty()),
    {
        Self::command("mousepad")
    }

    pub fn open_calendar() -> (r: LaunchCommand)
        ensures
            r@ == flatpak_line("org.gnome.Calendar"@),
    {
        Self::flatpak_command("org.gnome.Calendar")
    }

    pub fn open_maps() -> (r: LaunchCommand)
        ensures
            r@ == flatpak_line("org.gnome.Maps"@),
    {
        Self::flatpak_command("org.gnome.Maps")
    }

    pub fn open_notes() -> (r: LaunchCommand)
        ensures
            r@ == flatpak_line("com.github.flxzt.rnote"@),
    {
        Self::flatpak_command("com.github.flxzt.rnote")
    }

    pub fn open_todo_list() -> (r: LaunchCommand)
        ensures
            r@ == flatpak_line("io.github.mrvladus.List"@),
    {
        Self::flatpak_command("io.github.mrvladus.List")
    }

    pub fn open_writer(file: Option<&str>) -> (r: LaunchCommand)
        ensures
            r@ == office_line("--writer"@, str_file(file)),
    {
        Self::office_command("--writer", file)
    }

    pub fn open_calc(file: Option<&str>) -> (r: LaunchCommand)
        ensures
            r@ == office_line("--calc"@, str_file(file)),
    {
        Self::office_command("--calc", file)
    }

    pub fn open_impress(file: Option<&str>) -> (r: LaunchCommand)
        ensures
            r@ == office_line("--impress"@, str_file(file)),
    {
        Self::office_command("--impress", file)
    }

    fn command(program: &str) -> (r: LaunchCommand)
        ensures
            r@ == command_line(program@, Seq::empty()),
    {
        let r = LaunchCommand { program: program.to_owned(), args: Vec::new() };
        assert(r@.args =~= Seq::<Seq<char>>::empty());
        r
    }

    fn flatpak_command(app_id: &str) -> (r: LaunchCommand)
        ensures
            r@ == flatpak_line(app_id@),
    {
        let mut args: Vec<String> = Vec::new();
        args.push("run".to_owned());
        args.push(app_id.to_owned());
        let r = LaunchCommand { program: "flatpak".to_owned(), args };
        assert(r@.args =~= seq!["run"@, app_id@]);
        r
    }

    fn office_command(flag: &str, file: Option<&str>) -> (r: LaunchCommand)
        ensures
            r@ == office_line(flag@, str_file(file)),
    {
        let mut args: Vec<String> = Vec::new();
        args.push(flag.to_owned());
        if let Some(f) = file {
            args.push(f.to_owned());
        }
        let r = LaunchCommand { program: "libreoffice".to_owned(), args };
        assert(r@.args =~= seq![flag@] + file_args(str_file(file)));
        r
    }

    fn bin_command(bin: &str) -> (r: LaunchCommand)
        ensures
            r@ == bin_line(bin@),
    {
        let mut args: Vec<String> = Vec::new();
        args.push("run".to_owned());
        args.push("--bin".to_owned());
        args.push(bin.to_owned());
        let r = LaunchCommand { program: "cargo".to_owned(), args };
        assert(r@.args =~= seq!["run"@, "--bin"@, bin@]);
        r
    }
}

/// The file name of an optional owned file, borrowed.
fn borrow_file(file: &Option<String>) -> (r: Option<&str>)
    ensures
        str_file(r) == string_file(*file),
{
    match file {
        Some(f) => Some(f.as_str()),
        None => None,
    }
}

/// The command line that starts `app`; the caller spawns it.
pub fn launch_app(app: LaunchableApp) -> (r: LaunchCommand)
    ensures
        r@ == launch_line(app),
{
    match app {
        LaunchableApp::Weather => Launcher::bin_command("weather"),
        LaunchableApp::AudioPlayer => Launcher::bin_command("audio"),
        LaunchableApp::VideoPlayer => Launcher::bin_command("video"),
        LaunchableApp::FileExplorer => Launcher::open_file_explorer(),
        LaunchableApp::Terminal => Launcher::open_terminal(),
        LaunchableApp::IDE => Launcher::open_ide(),
        LaunchableApp::TextEditor => Launcher::open_text_editor(),
        LaunchableApp::Calendar => Launcher::open_calendar(),
        LaunchableApp::Maps => Launcher::open_maps(),
        LaunchableApp::Notes => Launcher::open_notes(),
        LaunchableApp::TodoList => Launcher::open_todo_list(),
        LaunchableApp::Writer(file) => Launcher::open_writer(borrow_file(&file)),
        LaunchableApp::Calc(file) => Launcher::open_calc(borrow_file(&file)),
        LaunchableApp::Impress(file) => Launcher::open_impress(borrow_file(&file)),
    }
}

} // verus!
