//! The helper programs, the commands that the backend runs, and what it
//! makes of their outcome.

use vstd::prelude::*;

use crate::text::text_views;

verus! {

/// A helper program.
#[derive(Debug, Clone, Copy, PartialEq, Eq, Structural)]
pub enum Tool {
    /// Takes screenshots through the compositor's own screencopy protocol.
    Grim,
    /// Types text and keys into the focused surface.
    Wtype,
    /// Talks to the niri compositor.
    Niri,
}

impl Tool {
    /// The name under which a program is found on the search path.
    pub open spec fn name(self) -> Seq<char> {
        match self {
            Tool::Grim => "grim"@,
            Tool::Wtype => "wtype"@,
            Tool::Niri => "niri"@,
        }
    }

    /// The name under which the program is found on the search path.
    pub fn program(&self) -> (res: &'static str)
        ensures
            res@ == self.name(),
    {
        match self {
            Tool::Grim => "grim",
            Tool::Wtype => "wtype",
            Tool::Niri => "niri",
        }
    }
}

/// What the file system says of a file.
#[derive(Debug, Clone, Copy)]
pub struct ToolFile {
    pub is_file: bool,
    /// The permission bits.
    pub mode: u32,
}

impl ToolFile {
    /// A regular file that someone may execute.
    pub open spec fn executable(self) -> bool {
        self.is_file && self.mode & 0o111 != 0
    }

    /// Whether this is a regular file that someone may execute.
    pub fn is_executable(&self) -> (res: bool)
        ensures
            res == self.executable(),
    {
        self.is_file && self.mode & 0o111 != 0
    }
}

/// Whether a program is installed, given what stands under its name in each
/// directory of the search path.
pub fn has_tool(found: &[Option<ToolFile>]) -> (res: bool)
    ensures
        res == exists|i: int|
            0 <= i < found@.len() && #[trigger] found@[i] is Some && found@[i]->0.executable(),
{
    for i in 0..found.len()
        invariant
            forall|k: int|
                0 <= k < i ==> !(#[trigger] found@[k] is Some && found@[k]->0.executable()),
    {
        if let Some(file) = &found[i] {
            if file.is_executable() {
                assert(found@[i as int] is Some && found@[i as int]->0.executable());
                return true;
            }
        }
    }
    false
}

/// A command to run: a program and its arguments.
#[derive(Debug)]
pub struct ToolCommand {
    pub program: String,
    pub args: Vec<String>,
}

/// What a [`ToolCommand`] says.
pub struct CommandView {
    pub program: Seq<char>,
    pub args: Seq<Seq<char>>,
}

impl View for ToolCommand {
    type V = CommandView;

    open spec fn view(&self) -> CommandView {
        CommandView { program: self.program@, args: text_views(self.args@) }
    }
}

/// What a command that ran to its end left behind.
#[derive(Debug)]
pub struct CommandOutput {
    pub success: bool,
    pub stdout: Vec<u8>,
    pub stderr: Vec<u8>,
}

/// The command that takes a screenshot.
pub fn grim_command() -> (res: ToolCommand)
    ensures
        res@ == (CommandView {
            program: "grim"@,
            args: seq!["-l"@, "0"@, "-t"@, "png"@, "-"@],
        }),
{
    let mut args: Vec<String> = Vec::new();
    args.push("-l".to_owned());
    args.push("0".to_owned());
    args.push("-t".to_owned());
    args.push("png".to_owned());
    args.push("-".to_owned());
    assert(text_views(args@) =~= seq!["-l"@, "0"@, "-t"@, "png"@, "-"@]);
    ToolCommand { program: Tool::Grim.program().to_owned(), args }
}

/// The command that lists the windows of the niri compositor.
pub fn niri_windows_command() -> (res: ToolCommand)
    ensures
        res@ == (CommandView { program: "niri"@, args: seq!["msg"@, "--json"@, "windows"@] }),
{
    let mut args: Vec<String> = Vec::new();
    args.push("msg".to_owned());
    args.push("--json".to_owned());
    args.push("windows".to_owned());
    assert(text_views(args@) =~= seq!["msg"@, "--json"@, "windows"@]);
    ToolCommand { program: Tool::Niri.program().to_owned(), args }
}

/// The command that focuses the niri window with the number `id`.
pub open spec fn focus_command(id: u64) -> CommandView {
    CommandView {
        program: "niri"@,
        args: seq![
            "msg"@,
            "action"@,
            "focus-window"@,
            "--id"@,
            crate::text::decimal(id as nat),
        ],
    }
}

/// The command that focuses a niri window, for an id that is a number.
pub fn niri_focus_command(id: &str) -> (res: Option<ToolCommand>)
    ensures
        match res {
            Some(command) => crate::text::unsigned_value(id@) is Some && command@
                == focus_command(crate::text::unsigned_value(id@)->0),
            None => crate::text::unsigned_value(id@) is None,
        },
{
    match crate::text::parse_unsigned(id) {
        Some(number) => {
            let mut args: Vec<String> = Vec::new();
            args.push("msg".to_owned());
            args.push("action".to_owned());
            args.push("focus-window".to_owned());
            args.push("--id".to_owned());
            args.push(crate::text::decimal_text(number));
            assert(text_views(args@) =~= focus_command(number).args);
            Some(ToolCommand { program: Tool::Niri.program().to_owned(), args })
        },
        None => None,
    }
}

/// The command that types `text`.
pub open spec fn type_command(text: Seq<char>) -> CommandView {
    CommandView { program: "wtype"@, args: seq!["--"@, text] }
}

/// The command that types `text`.
pub fn wtype_text_command(text: &str) -> (res: ToolCommand)
    ensures
        res@ == type_command(text@),
{
    let mut args: Vec<String> = Vec::new();
    args.push("--".to_owned());
    args.push(text.to_owned());
    assert(text_views(args@) =~= seq!["--"@, text@]);
    ToolCommand { program: Tool::Wtype.program().to_owned(), args }
}

/// The command that raises a window asks niri to focus the window with the
/// number that the id stands for, written without leading zeros.
pub proof fn law_focus_command_names_the_window(id: Seq<char>)
    requires
        crate::text::unsigned_value(id) is Some,
    ensures
        ({
            let command = focus_command(crate::text::unsigned_value(id)->0);
            &&& command.program == "niri"@
            &&& command.args.len() == 5
            &&& command.args[0] == "msg"@
            &&& command.args[1] == "action"@
            &&& command.args[2] == "focus-window"@
            &&& command.args[3] == "--id"@
            &&& crate::text::unsigned_value(command.args[4]) == crate::text::unsigned_value(id)
            &&& command.args[4][0] != '+'
            &&& command.args[4][0] == '0' ==> command.args[4] == seq!['0']
        }),
{
    let n = crate::text::unsigned_value(id)->0;
    crate::text::law_decimal_read_back(n);
    crate::text::law_decimal_has_no_leading_zero(n as nat);
}

/// Two ids lead to the same focus command exactly where they stand for the
/// same number.
pub proof fn law_focus_commands_tell_windows_apart(a: u64, b: u64)
    ensures
        focus_command(a) == focus_command(b) <==> a == b,
{
    crate::text::law_decimal_read_back(a);
    crate::text::law_decimal_read_back(b);
    assert(focus_command(a).args[4] == crate::text::decimal(a as nat));
    assert(focus_command(b).args[4] == crate::text::decimal(b as nat));
}

/// Text is typed as one argument, as it is, and no text is taken for an
/// option.
pub proof fn law_text_is_typed_as_it_is(text: Seq<char>)
    ensures
        type_command(text).program == "wtype"@,
        type_command(text).args.len() == 2,
        type_command(text).args[0] == "--"@,
        type_command(text).args[1] == text,
{
}

/// The helper programs go by these names.
pub proof fn law_tool_names(tool: Tool)
    ensures
        tool == Tool::Grim ==> tool.name() == "grim"@,
        tool == Tool::Wtype ==> tool.name() == "wtype"@,
        tool == Tool::Niri ==> tool.name() == "niri"@,
{
}

/// A file is executable where it is a regular file and its owner, its group
/// or others may execute it.
pub proof fn law_executable_for_someone(file: ToolFile)
    ensures
        file.executable() <==> file.is_file && (file.mode & 0o100 != 0 || file.mode & 0o010 != 0
            || file.mode & 0o001 != 0),
{
    let mode = file.mode;
    assert(mode & 0o111 != 0 <==> (mode & 0o100 != 0 || mode & 0o010 != 0 || mode & 0o001 != 0))
        by (bit_vector);
}

/// A command says its program and its arguments, in order.
pub proof fn law_command_says_its_words(command: ToolCommand)
    ensures
        command@.program == command.program@,
        command@.args.len() == command.args@.len(),
        forall|i: int|
            0 <= i < command.args@.len() ==> #[trigger] command@.args[i] == command.args@[i]@,
{
}

} // verus!
