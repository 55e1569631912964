use vstd::prelude::*;

use crate::run::{Command, CommandView};
use crate::text::{
    chars_of, copy_chars, lines, lines_of, rows, same_chars, split, split_chars,
    split_once, split_once_chars, string_of_vec, strings, trim, trim_chars,
};

verus! {

/// The model of the configuration.
pub struct ConfigurationView {
    pub su_command: SuCommandView,
    pub merge_strategy: MergeStrategy,
}

/// The configuration of the program.
#[derive(Debug, Clone, PartialEq, Eq)]
pub struct Configuration {
    pub su_command: SuCommand,
    pub merge_strategy: MergeStrategy,
}

impl View for Configuration {
    type V = ConfigurationView;

    open spec fn view(&self) -> ConfigurationView {
        ConfigurationView { su_command: self.su_command@, merge_strategy: self.merge_strategy }
    }
}

/// The su command that applies where the configuration names none: `su -c`,
/// wrapping the command in place of its marker.
pub open spec fn default_su_command() -> SuCommandView {
    SuCommandView {
        command: CommandView {
            base: "su"@,
            args: seq!["-c"@, "{% command %}"@],
            escalated: false,
        },
        wraps: true,
    }
}

/// The configuration that applies where the file sets nothing.
pub open spec fn default_configuration() -> ConfigurationView {
    ConfigurationView {
        su_command: default_su_command(),
        merge_strategy: MergeStrategy::Interactive,
    }
}

impl Default for Configuration {
    fn default() -> (r: Configuration)
        ensures
            r@ == default_configuration(),
    {
        Configuration { su_command: SuCommand::default(), merge_strategy: MergeStrategy::default() }
    }
}

impl Configuration {
    /// A copy of the configuration.
    pub fn duplicate(&self) -> (r: Configuration)
        ensures
            r@ == self@,
    {
        Configuration {
            su_command: self.su_command.duplicate(),
            merge_strategy: self.merge_strategy,
        }
    }
}

/// How to settle a difference between the configuration and the system.
#[derive(Debug, Clone, Copy, PartialEq, Eq, Structural)]
pub enum MergeStrategy {
    PreferSystem,
    PreferConfig,
    Interactive,
}

impl Default for MergeStrategy {
    fn default() -> (r: MergeStrategy)
        ensures
            r == MergeStrategy::Interactive,
    {
        MergeStrategy::Interactive
    }
}

/// The model of a su command.
pub struct SuCommandView {
    pub command: CommandView,
    pub wraps: bool,
}

/// The command that runs another as the superuser, and whether it takes that
/// command as one argument in place of a marker (it wraps) or as trailing
/// arguments.
#[derive(Debug, Clone, PartialEq, Eq)]
pub struct SuCommand {
    command: Command,
    wraps: bool,
}

impl View for SuCommand {
    type V = SuCommandView;

    closed spec fn view(&self) -> SuCommandView {
        SuCommandView { command: self.command@, wraps: self.wraps }
    }
}

impl Default for SuCommand {
    fn default() -> (r: SuCommand)
        ensures
            r@ == default_su_command(),
    {
        let r = SuCommand { command: Command::new("su", &["-c", "{% command %}"]), wraps: true };
        assert(r@.command.args =~= seq!["-c"@, "{% command %}"@]);
        r
    }
}

impl SuCommand {
    /// The su command line.
    pub fn command(&self) -> (r: &Command)
        ensures
            r@ == self@.command,
    {
        &self.command
    }

    /// Whether it wraps the command it runs.
    pub fn wraps(&self) -> (r: bool)
        ensures
            r == self@.wraps,
    {
        self.wraps
    }

    /// A copy of the su command.
    pub fn duplicate(&self) -> (r: SuCommand)
        ensures
            r@ == self@,
    {
        SuCommand { command: self.command.duplicate(), wraps: self.wraps }
    }
}

/// The model of a configuration error.
pub struct ErrorView {
    pub message: Seq<char>,
    pub kind: ErrorKind,
}

/// An error in reading the configuration.
#[derive(Debug)]
pub struct Error {
    pub message: String,
    pub kind: ErrorKind,
}

impl View for Error {
    type V = ErrorView;

    open spec fn view(&self) -> ErrorView {
        ErrorView { message: self.message@, kind: self.kind }
    }
}

impl Error {
    /// An error of the given kind.
    pub fn new(message: &str, kind: ErrorKind) -> (r: Error)
        ensures
            r@ == (ErrorView { message: message@, kind }),
    {
        Error { message: message.to_owned(), kind }
    }

    /// The error as it is shown: its kind's description, a colon, a space,
    /// and the message.
    pub fn describe(&self) -> (r: String)
        ensures
            r@ == shown(self@),
    {
        let mut r = self.kind.describe().to_owned();
        r.append(": ");
        r.append(self.message.as_str());
        r
    }

    /// A copy of the error.
    pub fn duplicate(&self) -> (r: Error)
        ensures
            r@ == self@,
    {
        Error { message: self.message.clone(), kind: self.kind }
    }
}

/// How an error is shown.
pub open spec fn shown(e: ErrorView) -> Seq<char> {
    description(e.kind) + ": "@ + e.message
}

/// What went wrong in reading the configuration.
#[derive(Debug, Clone, Copy, PartialEq, Eq, Structural)]
pub enum ErrorKind {
    CommandNotInPath,
    VarError,
    MalformedConfigLine,
    MetadataUnreadable,
    WrongPermissions,
    UTF8,
    IO,
}

/// The description by which an error kind is shown.
pub open spec fn description(kind: ErrorKind) -> Seq<char> {
    match kind {
        ErrorKind::VarError => "Environment variable error"@,
        ErrorKind::CommandNotInPath => "Command not in PATH"@,
        ErrorKind::MalformedConfigLine => "Malformed configuration line"@,
        ErrorKind::MetadataUnreadable => "Metadata unreadable"@,
        ErrorKind::WrongPermissions => "Wrong permissions"@,
        ErrorKind::UTF8 => "Invalid characters could not be decoded (expected UTF-8)"@,
        ErrorKind::IO => "Input/Output error"@,
    }
}

impl ErrorKind {
    /// The description by which the kind is shown.
    pub fn describe(&self) -> (r: &'static str)
        ensures
            r@ == description(*self),
    {
        match self {
            ErrorKind::VarError => "Environment variable error",
            ErrorKind::CommandNotInPath => "Command not in PATH",
            ErrorKind::MalformedConfigLine => "Malformed configuration line",
            ErrorKind::MetadataUnreadable => "Metadata unreadable",
            ErrorKind::WrongPermissions => "Wrong permissions",
            ErrorKind::UTF8 => "Invalid characters could not be decoded (expected UTF-8)",
            ErrorKind::IO => "Input/Output error",
        }
    }
}

/// The model of the raw settings of a configuration file.
pub struct RawView {
    pub su_command: Option<Seq<char>>,
    pub su_command_wraps: Option<Seq<char>>,
    pub merge_strategy: Option<Seq<char>>,
}

/// The settings that a configuration file holds, as text.
#[derive(Debug)]
pub struct Raw {
    pub su_command: Option<String>,
    pub su_command_wraps: Option<String>,
    pub merge_strategy: Option<String>,
}

/// The view of an optional string.
pub open spec fn optional(s: Option<String>) -> Option<Seq<char>> {
    match s {
        Some(v) => Some(v@),
        None => None,
    }
}

impl View for Raw {
    type V = RawView;

    open spec fn view(&self) -> RawView {
        RawView {
            su_command: optional(self.su_command),
            su_command_wraps: optional(self.su_command_wraps),
            merge_strategy: optional(self.merge_strategy),
        }
    }
}

/// The value that the last line of the form `key = value` with the given key
/// sets (key and value trimmed of white space; the line split at its first `=`).
pub open spec fn setting(lines: Seq<Seq<char>>, key: Seq<char>) -> Option<Seq<char>>
    decreases lines.len(),
{
    if lines.len() == 0 {
        None
    } else {
        match split_once(lines.last(), '=') {
            Some((k, v)) => if trim(k) == key {
                Some(trim(v))
            } else {
                setting(lines.drop_last(), key)
            },
            None => setting(lines.drop_last(), key),
        }
    }
}

/// The raw settings of a configuration file with the given contents.
pub open spec fn raw_settings(contents: Seq<char>) -> RawView {
    let ls = lines(contents);
    RawView {
        su_command: setting(ls, "su_command"@),
        su_command_wraps: setting(ls, "su_command_wraps"@),
        merge_strategy: setting(ls, "merge_strategy"@),
    }
}

/// The value set for `key` by the lines `ls`.
fn lookup(ls: &Vec<Vec<char>>, key: &str) -> (r: Option<String>)
    ensures
        optional(r) == setting(rows(ls@), key@),
{
    let k = chars_of(key);
    let ghost lv = rows(ls@);
    let mut found: Option<String> = None;
    let mut i: usize = 0;
    while i < ls.len()
        invariant
            i <= ls.len(),
            lv == rows(ls@),
            k@ == key@,
            optional(found) == setting(lv.take(i as int), key@),
        decreases ls.len() - i,
    {
        assert(lv.take(i + 1).drop_last() == lv.take(i as int));
        assert(lv[i as int] == ls@[i as int]@);
        match split_once_chars(&ls[i], '=') {
            Some((a, b)) => {
                let ta = trim_chars(&a);
                if same_chars(&ta, &k) {
                    found = Some(string_of_vec(trim_chars(&b)));
                }
            },
            None => {},
        }
        i += 1;
    }
    assert(lv.take(ls.len() as int) == lv);
    found
}

/// Reads the raw settings from the contents of a configuration file.
pub fn raw_from_contents(contents: &str) -> (r: Raw)
    ensures
        r@ == raw_settings(contents@),
{
    let text = chars_of(contents);
    let ls = lines_of(&text);
    Raw {
        su_command: lookup(&ls, "su_command"),
        su_command_wraps: lookup(&ls, "su_command_wraps"),
        merge_strategy: lookup(&ls, "merge_strategy"),
    }
}

/// The pieces that are not empty, in order.
pub open spec fn non_empty(ps: Seq<Seq<char>>) -> Seq<Seq<char>>
    decreases ps.len(),
{
    if ps.len() == 0 {
        ps
    } else if ps.last().len() == 0 {
        non_empty(ps.drop_last())
    } else {
        non_empty(ps.drop_last()).push(ps.last())
    }
}

/// The words of a su command setting: its pieces between spaces that are not
/// empty.
pub open spec fn words(value: Seq<char>) -> Seq<Seq<char>> {
    non_empty(split(value, ' '))
}

/// The words of a su command setting.
fn words_of(value: &str) -> (r: Vec<Vec<char>>)
    ensures
        rows(r@) == words(value@),
{
    let text = chars_of(value);
    let pieces = split_chars(&text, ' ');
    let ghost pv = rows(pieces@);
    let mut r: Vec<Vec<char>> = Vec::new();
    let mut i: usize = 0;
    while i < pieces.len()
        invariant
            i <= pieces.len(),
            pv == rows(pieces@),
            rows(r@) == non_empty(pv.take(i as int)),
        decreases pieces.len() - i,
    {
        assert(pv.take(i + 1).drop_last() == pv.take(i as int));
        assert(pv[i as int] == pieces@[i as int]@);
        if pieces[i].len() > 0 {
            let w = copy_chars(&pieces[i]);
            let ghost before = r@;
            r.push(w);
            assert(rows(r@) =~= rows(before).push(w@));
        }
        i += 1;
    }
    assert(pv.take(pieces.len() as int) == pv);
    r
}

/// The program and arguments that a su command setting names, where it
/// names a program: its first word and the words after it.
pub fn split_su_command(config_value: &str) -> (r: Option<(String, Vec<String>)>)
    ensures
        match r {
            Some((base, args)) => words(config_value@).len() > 0 && base@ == words(
                config_value@,
            )[0] && strings(args@) == words(config_value@).drop_first(),
            None => words(config_value@).len() == 0,
        },
{
    let w = words_of(config_value);
    let ghost wv = rows(w@);
    if w.len() == 0 {
        return None;
    }
    assert(wv[0] == w@[0]@);
    let base = string_of_vec(copy_chars(&w[0]));
    let mut args: Vec<String> = Vec::new();
    let mut i: usize = 1;
    while i < w.len()
        invariant
            1 <= i <= w.len(),
            wv == rows(w@),
            strings(args@) == wv.subrange(1, i as int),
        decreases w.len() - i,
    {
        let a = string_of_vec(copy_chars(&w[i]));
        let ghost before = args@;
        args.push(a);
        assert(strings(args@) =~= strings(before).push(a@));
        assert(wv.subrange(1, i + 1) =~= wv.subrange(1, i as int).push(wv[i as int]));
        i += 1;
    }
    assert(wv.subrange(1, w.len() as int) =~= wv.drop_first());
    Some((base, args))
}

/// The model of what the file system showed of a su command's program.
pub enum BaseProbeView {
    Unresolved(ErrorView),
    NotAFile,
    File { mode: u32, path: Option<Seq<char>> },
}

/// What the file system showed of a su command's program: that it could not
/// be resolved to a path (with the error of the resolution), that the path
/// is not a file or its metadata could not be read, or the permission bits
/// of the file and its path as text (none where the path is not UTF-8).
#[derive(Debug)]
pub enum BaseProbe {
    Unresolved(Error),
    NotAFile,
    File { mode: u32, path: Option<String> },
}

impl View for BaseProbe {
    type V = BaseProbeView;

    open spec fn view(&self) -> BaseProbeView {
        match self {
            BaseProbe::Unresolved(e) => BaseProbeView::Unresolved(e@),
            BaseProbe::NotAFile => BaseProbeView::NotAFile,
            BaseProbe::File { mode, path } => BaseProbeView::File { mode: *mode, path: optional(*path) },
        }
    }
}

/// Whether permission bits let someone execute the file.
pub open spec fn executable(mode: u32) -> bool {
    mode & 0o111u32 != 0
}

/// What a su command setting gives, with what the file system showed of its
/// program: a su command running the resolved path with the words after the
/// first, or the first error among an empty setting, a program that could
/// not be resolved, a path that is not a readable file, a file that no one
/// may execute, and a path that is not UTF-8.
pub open spec fn su_command_result(value: Seq<char>, wraps: bool, probe: BaseProbeView) -> Result<
    SuCommandView,
    ErrorView,
> {
    let w = words(value);
    if w.len() == 0 {
        Err(
            ErrorView {
                message: "Configuration line is empty"@,
                kind: ErrorKind::MalformedConfigLine,
            },
        )
    } else {
        match probe {
            BaseProbeView::Unresolved(e) => Err(e),
            BaseProbeView::NotAFile => Err(
                ErrorView {
                    message: "su_command path does not point to a file or its metadata is unreadable"@,
                    kind: ErrorKind::MetadataUnreadable,
                },
            ),
            BaseProbeView::File { mode, path } => if !executable(mode) {
                Err(
                    ErrorView {
                        message: "su_command path does not point to an executable file"@,
                        kind: ErrorKind::WrongPermissions,
                    },
                )
            } else {
                match path {
                    None => Err(
                        ErrorView {
                            message: "su_command path contains invalid characters (expected UTF-8)"@,
                            kind: ErrorKind::UTF8,
                        },
                    ),
                    Some(p) => Ok(
                        SuCommandView {
                            command: CommandView { base: p, args: w.drop_first(), escalated: false },
                            wraps,
                        },
                    ),
                }
            },
        }
    }
}

/// Builds the su command that a setting names, given what the file system
/// showed of its program.
pub fn parse_su_command(config_value: &str, wraps: bool, probe: BaseProbe) -> (r: Result<
    SuCommand,
    Error,
>)
    ensures
        match r {
            Ok(s) => su_command_result(config_value@, wraps, probe@) == Ok::<
                SuCommandView,
                ErrorView,
            >(s@),
            Err(e) => su_command_result(config_value@, wraps, probe@) == Err::<
                SuCommandView,
                ErrorView,
            >(e@),
        },
{
    let split = split_su_command(config_value);
    let args = match split {
        None => {
            return Err(Error::new("Configuration line is empty", ErrorKind::MalformedConfigLine));
        },
        Some((_, args)) => args,
    };
    match probe {
        BaseProbe::Unresolved(e) => Err(e),
        BaseProbe::NotAFile => Err(
            Error::new(
                "su_command path does not point to a file or its metadata is unreadable",
                ErrorKind::MetadataUnreadable,
            ),
        ),
        BaseProbe::File { mode, path } => {
            if mode & 0o111u32 == 0 {
                return Err(
                    Error::new(
                        "su_command path does not point to an executable file",
                        ErrorKind::WrongPermissions,
                    ),
                );
            }
            match path {
                None => Err(
                    Error::new(
                        "su_command path contains invalid characters (expected UTF-8)",
                        ErrorKind::UTF8,
                    ),
                ),
                Some(p) => {
                    let command = Command::from_parts(p, args);
                    Ok(SuCommand { command, wraps })
                },
            }
        },
    }
}

/// Whether a `su_command_wraps` setting asks for wrapping.
pub open spec fn wraps_setting(raw: RawView) -> bool {
    raw.su_command_wraps == Some("true"@)
}

/// The su command that applies where the file names none: `su -c` with the
/// marker of the command, which wraps unless the file sets
/// `su_command_wraps = false`.
pub open spec fn unnamed_su_command(raw: RawView) -> SuCommandView {
    SuCommandView {
        command: default_su_command().command,
        wraps: raw.su_command_wraps != Some("false"@),
    }
}

/// The merge strategy that a setting names, if it names one.
pub open spec fn merge_setting(m: Seq<char>) -> Option<MergeStrategy> {
    if m == "prefer configuration"@ {
        Some(MergeStrategy::PreferConfig)
    } else if m == "prefer system"@ {
        Some(MergeStrategy::PreferSystem)
    } else {
        None
    }
}

/// The configuration that raw settings give: the su command they name where
/// it can be built (wrapping where `su_command_wraps` is `true`), the default
/// su command where it cannot, and where they name none the default su
/// command, wrapping unless `su_command_wraps` is `false`; and the merge
/// strategy they name where it is known, else the default.
pub open spec fn parsed(raw: RawView, probe: BaseProbeView) -> ConfigurationView {
    ConfigurationView {
        su_command: match raw.su_command {
            Some(v) => match su_command_result(v, wraps_setting(raw), probe) {
                Ok(s) => s,
                Err(_) => default_su_command(),
            },
            None => unnamed_su_command(raw),
        },
        merge_strategy: match raw.merge_strategy {
            Some(m) => match merge_setting(m) {
                Some(x) => x,
                None => MergeStrategy::Interactive,
            },
            None => MergeStrategy::Interactive,
        },
    }
}

/// The notices that reading raw settings prints: one for a su command that
/// could not be built, one for a merge strategy that is not known.
pub open spec fn parse_notices(raw: RawView, probe: BaseProbeView) -> Seq<Seq<char>> {
    let su = match raw.su_command {
        Some(v) => match su_command_result(v, wraps_setting(raw), probe) {
            Ok(_) => Seq::empty(),
            Err(e) => seq!["Failed parsing su_comand configuration value: "@ + shown(e)],
        },
        None => Seq::empty(),
    };
    let merge = match raw.merge_strategy {
        Some(m) => match merge_setting(m) {
            Some(_) => Seq::empty(),
            None => seq!["Unrecognized merge strategy: "@ + m],
        },
        None => Seq::empty(),
    };
    su + merge
}

/// Whether a string equals a literal.
fn is_text(s: &String, literal: &str) -> (r: bool)
    ensures
        r == (s@ == literal@),
{
    let a = chars_of(s.as_str());
    let b = chars_of(literal);
    same_chars(&a, &b)
}

/// The configuration that raw settings give, with the notices to print;
/// `probe` is what the file system showed of the su command's program (it
/// matters only where the settings name a su command).
pub fn parse(raw: &Raw, probe: BaseProbe) -> (r: (Configuration, Vec<String>))
    ensures
        r.0@ == parsed(raw@, probe@),
        strings(r.1@) == parse_notices(raw@, probe@),
{
    let mut candidate = Configuration::default();
    let mut notices: Vec<String> = Vec::new();
    let ghost pv = probe@;
    match &raw.su_command {
        Some(value) => {
            let wraps = match &raw.su_command_wraps {
                Some(w) => is_text(w, "true"),
                None => false,
            };
            match parse_su_command(value.as_str(), wraps, probe) {
                Ok(s) => {
                    candidate.su_command = s;
                },
                Err(error) => {
                    let mut note = "Failed parsing su_comand configuration value: ".to_owned();
                    let shown = error.describe();
                    note.append(shown.as_str());
                    notices.push(note);
                    assert(strings(notices@) =~= seq![note@]);
                },
            }
        },
        None => {
            let unwrapped = match &raw.su_command_wraps {
                Some(w) => is_text(w, "false"),
                None => false,
            };
            if unwrapped {
                candidate.su_command.wraps = false;
            }
        },
    }
    let ghost su_notes = strings(notices@);
    match &raw.merge_strategy {
        Some(m) => {
            if is_text(m, "prefer configuration") {
                candidate.merge_strategy = MergeStrategy::PreferConfig;
            } else if is_text(m, "prefer system") {
                candidate.merge_strategy = MergeStrategy::PreferSystem;
            } else {
                let mut note = "Unrecognized merge strategy: ".to_owned();
                note.append(m.as_str());
                notices.push(note);
                assert(strings(notices@) =~= su_notes.push(note@));
                candidate.merge_strategy = MergeStrategy::default();
            }
        },
        None => {},
    }
    assert(strings(notices@) =~= parse_notices(raw@, pv));
    (candidate, notices)
}

/// Where the configuration file sets no su command, the su command is the
/// default one, `su -c`, wrapping the command unless the file sets
/// `su_command_wraps = false`.
pub proof fn lemma_default_su_command(contents: Seq<char>, probe: BaseProbeView)
    requires
        raw_settings(contents).su_command is None,
    ensures
        parsed(raw_settings(contents), probe).su_command.command == default_su_command().command,
        parsed(raw_settings(contents), probe).su_command.wraps == (raw_settings(
            contents,
        ).su_command_wraps != Some("false"@)),
{
}

/// `su_command_wraps = false` turns wrapping off where the file names no su
/// command, and where the su command it names can be built; a su command
/// that cannot be built leaves the default, which wraps.
pub proof fn lemma_wraps_false(raw: RawView, probe: BaseProbeView)
    requires
        raw.su_command_wraps == Some("false"@),
    ensures
        match raw.su_command {
            None => !parsed(raw, probe).su_command.wraps,
            Some(v) => match su_command_result(v, wraps_setting(raw), probe) {
                Ok(_) => !parsed(raw, probe).su_command.wraps,
                Err(_) => parsed(raw, probe).su_command == default_su_command(),
            },
        },
{
    reveal_strlit("true");
    reveal_strlit("false");
    assert("true"@.len() != "false"@.len());
}

/// Where the file sets a su command whose program resolves to an executable
/// file with a UTF-8 path, that command is the one used: the resolved path
/// with the words after the first, wrapping as `su_command_wraps = true` asks.
pub proof fn lemma_su_command_applies(raw: RawView, mode: u32, path: Seq<char>)
    requires
        raw.su_command is Some,
        words(raw.su_command->0).len() > 0,
        executable(mode),
    ensures
        parsed(raw, BaseProbeView::File { mode, path: Some(path) }).su_command == (SuCommandView {
            command: CommandView {
                base: path,
                args: words(raw.su_command->0).drop_first(),
                escalated: false,
            },
            wraps: wraps_setting(raw),
        }),
{
}

/// Where the su command cannot be built, the default one stays, wrapping
/// whatever `su_command_wraps` says, and a notice tells why.
pub proof fn lemma_failed_su_command(raw: RawView, probe: BaseProbeView)
    requires
        raw.su_command is Some,
        su_command_result(raw.su_command->0, wraps_setting(raw), probe) is Err,
    ensures
        parsed(raw, probe).su_command == default_su_command(),
        parse_notices(raw, probe).len() >= 1,
        parse_notices(raw, probe)[0] == "Failed parsing su_comand configuration value: "@ + shown(
            su_command_result(raw.su_command->0, wraps_setting(raw), probe)->Err_0,
        ),
{
}

/// The merge strategy is `prefer system` or `prefer configuration` where
/// the file says so, and interactive otherwise; the su command has no say.
pub proof fn lemma_merge_strategy(raw: RawView, probe: BaseProbeView)
    ensures
        parsed(raw, probe).merge_strategy == (match raw.merge_strategy {
            Some(m) => if m == "prefer system"@ {
                MergeStrategy::PreferSystem
            } else if m == "prefer configuration"@ {
                MergeStrategy::PreferConfig
            } else {
                MergeStrategy::Interactive
            },
            None => MergeStrategy::Interactive,
        }),
{
    reveal_strlit("prefer system");
    reveal_strlit("prefer configuration");
    assert("prefer system"@.len() != "prefer configuration"@.len());
}

} // verus!
