use vstd::prelude::*;

use crate::conf::{executable, BaseProbe, BaseProbeView};
use crate::lite::run::{Command, CommandView};
use crate::text::{
    chars_of, copy_chars, lines, lines_of, rows, same_chars, split, split_chars, string_of_vec,
    strings, trim, trim_chars,
};

verus! {

/// The model of the configuration.
pub struct ConfigurationView {
    pub su_command: CommandView,
}

/// The configuration: the command that runs another as the superuser.
#[derive(Debug, Clone)]
pub struct Configuration {
    pub su_command: Command,
}

impl View for Configuration {
    type V = ConfigurationView;

    open spec fn view(&self) -> ConfigurationView {
        ConfigurationView { su_command: self.su_command@ }
    }
}

/// The su command that applies where the configuration names none: `su -c`
/// with the marker of the command.
pub open spec fn default_su_command() -> CommandView {
    CommandView { base: "su"@, args: seq!["-c"@, "{% command %}"@] }
}

impl Default for Configuration {
    fn default() -> (r: Configuration)
        ensures
            r@.su_command == default_su_command(),
    {
        let mut args: Vec<String> = Vec::new();
        args.push("-c".to_owned());
        args.push("{% command %}".to_owned());
        let r = Configuration { su_command: Command { base: "su".to_owned(), args } };
        assert(r@.su_command.args =~= seq!["-c"@, "{% command %}"@]);
        r
    }
}

/// The value that the last line setting `key` gives: each line is split at
/// every `=` and its pieces trimmed; the first piece is the key and the last
/// the value (a line without `=` is its own key and value).
pub open spec fn setting(lines: Seq<Seq<char>>, key: Seq<char>) -> Option<Seq<char>>
    decreases lines.len(),
{
    if lines.len() == 0 {
        None
    } else {
        let pieces = split(lines.last(), '=');
        if trim(pieces[0]) == key {
            Some(trim(pieces.last()))
        } else {
            setting(lines.drop_last(), key)
        }
    }
}

/// The pieces that are not empty, in order.
pub open spec fn non_empty(ps: Seq<Seq<char>>) -> Seq<Seq<char>>
    decreases ps.len(),
{
    if ps.len() == 0 {
        ps
    } else if ps.last().len() == 0 {
        non_empty(ps.drop_last())
    } else {
        non_empty(ps.drop_last()).push(ps.last())
    }
}

/// The su command that configuration file contents name, before its program
/// is looked up: the words of the `su_command` setting (pieces between
/// spaces that are not empty), the first as the program, where there is one.
pub open spec fn su_command_candidate(contents: Seq<char>) -> Option<CommandView> {
    match setting(lines(contents), "su_command"@) {
        None => None,
        Some(value) => {
            let w = non_empty(split(value, ' '));
            if w.len() == 0 {
                None
            } else {
                Some(CommandView { base: w[0], args: w.drop_first() })
            }
        },
    }
}

/// The value of the `su_command` setting.
pub fn su_command_value(ls: &Vec<Vec<char>>) -> (r: Option<Vec<char>>)
    ensures
        match r {
            Some(v) => setting(rows(ls@), "su_command"@) == Some(v@),
            None => setting(rows(ls@), "su_command"@) is None,
        },
{
    let key = chars_of("su_command");
    let ghost lv = rows(ls@);
    let mut found: Option<Vec<char>> = None;
    let mut i: usize = 0;
    while i < ls.len()
        invariant
            i <= ls.len(),
            lv == rows(ls@),
            key@ == "su_command"@,
            match found {
                Some(v) => setting(lv.take(i as int), "su_command"@) == Some(v@),
                None => setting(lv.take(i as int), "su_command"@) is None,
            },
        decreases ls.len() - i,
    {
        assert(lv.take(i + 1).drop_last() == lv.take(i as int));
        assert(lv[i as int] == ls@[i as int]@);
        let pieces = split_chars(&ls[i], '=');
        assert(rows(pieces@).len() == pieces@.len());
        assert(rows(pieces@)[0] == pieces@[0]@);
        assert(rows(pieces@).last() == pieces@[pieces.len() - 1]@);
        let k = trim_chars(&pieces[0]);
        if same_chars(&k, &key) {
            found = Some(trim_chars(&pieces[pieces.len() - 1]));
        }
        i += 1;
    }
    assert(lv.take(ls.len() as int) == lv);
    found
}

/// The su command that configuration file contents name, before its program
/// is looked up.
pub fn candidate(contents: &str) -> (r: Option<Command>)
    ensures
        match r {
            Some(c) => su_command_candidate(contents@) == Some(c@),
            None => su_command_candidate(contents@) is None,
        },
{
    let text = chars_of(contents);
    let ls = lines_of(&text);
    let value = match su_command_value(&ls) {
        None => {
            return None;
        },
        Some(v) => v,
    };
    let pieces = split_chars(&value, ' ');
    let ghost pv = rows(pieces@);
    let mut words: Vec<Vec<char>> = Vec::new();
    let mut i: usize = 0;
    while i < pieces.len()
        invariant
            i <= pieces.len(),
            pv == rows(pieces@),
            rows(words@) == non_empty(pv.take(i as int)),
        decreases pieces.len() - i,
    {
        assert(pv.take(i + 1).drop_last() == pv.take(i as int));
        assert(pv[i as int] == pieces@[i as int]@);
        if pieces[i].len() > 0 {
            let w = copy_chars(&pieces[i]);
            let ghost before = words@;
            words.push(w);
            assert(rows(words@) =~= rows(before).push(w@));
        }
        i += 1;
    }
    assert(pv.take(pieces.len() as int) == pv);
    let ghost wv = rows(words@);
    if words.len() == 0 {
        return None;
    }
    assert(wv[0] == words@[0]@);
    let base = string_of_vec(copy_chars(&words[0]));
    let mut args: Vec<String> = Vec::new();
    let mut j: usize = 1;
    while j < words.len()
        invariant
            1 <= j <= words.len(),
            wv == rows(words@),
            strings(args@) == wv.subrange(1, j as int),
        decreases words.len() - j,
    {
        let a = string_of_vec(copy_chars(&words[j]));
        let ghost before = args@;
        args.push(a);
        assert(strings(args@) =~= strings(before).push(a@));
        assert(wv.subrange(1, j + 1) =~= wv.subrange(1, j as int).push(wv[j as int]));
        j += 1;
    }
    assert(wv.subrange(1, words.len() as int) =~= wv.drop_first());
    Some(Command { base, args })
}

/// Whether what the file system showed of a su command's program lets it
/// be used: it is a file that someone may execute.
pub open spec fn usable(probe: BaseProbeView) -> bool {
    match probe {
        BaseProbeView::File { mode, path } => executable(mode),
        _ => false,
    }
}

/// Whether a su command's program, as the file system showed it, can be used.
pub fn is_usable(probe: &BaseProbe) -> (r: bool)
    ensures
        r == usable(probe@),
{
    match probe {
        BaseProbe::File { mode, path: _ } => *mode & 0o111u32 != 0,
        _ => false,
    }
}

/// The configuration with the candidate su command where there is one and
/// its program, found at the path it names or on `PATH` (`probe` is what the
/// file system showed of it), is an executable file; the default otherwise.
pub fn configure(candidate: Option<Command>, probe: &BaseProbe) -> (r: Configuration)
    ensures
        r@.su_command == match candidate {
            Some(c) => if usable(probe@) {
                c@
            } else {
                default_su_command()
            },
            None => default_su_command(),
        },
{
    let mut conf = Configuration::default();
    let found = is_usable(probe);
    match candidate {
        Some(c) => {
            if found {
                conf.su_command = c;
            }
        },
        None => {},
    }
    conf
}

} // verus!
