// The rules of a desktop settings daemon: dynamic values that carry a
// plugin's data, the binding and registry of plugins, the report on their
// self-tests, and the settings that travel over the bus. Nothing here
// touches a file, a library or the bus; the daemon does, and asks here what
// to make of it.

use vstd::prelude::*;

use utils::flags::{
    problem_views, value_of, Flag, FlagModel, FlagProblem, FlagProblemModel, Flags, PathKind,
};
use utils::text::same_text;
use utils::variant::{TVariant, Variant};

pub mod audio;
pub mod network;
pub mod utils;

verus! {

/// A path that was asked for and is not there.
#[derive(Debug, Clone)]
pub struct PathNotFoundError;

impl PathNotFoundError {
    /// The error as text.
    pub fn to_string(&self) -> (text: String)
        ensures
            text@ == "File could not be found"@,
    {
        String::from_str("File could not be found")
    }
}

/// `text` with every occurrence of `pattern` replaced by `with`, found
/// from the left, one after the end of the other.
pub open spec fn replaced(text: Seq<char>, pattern: Seq<char>, with: Seq<char>) -> Seq<char>
    decreases text.len(),
{
    if pattern.len() == 0 || text.len() < pattern.len() {
        text
    } else if text.subrange(0, pattern.len() as int) == pattern {
        with + replaced(text.subrange(pattern.len() as int, text.len() as int), pattern, with)
    } else {
        seq![text[0]] + replaced(text.subrange(1, text.len() as int), pattern, with)
    }
}

/// `str::replace` of the standard library: a new text in which each match
/// of the pattern, taken from the left and without overlap, is replaced.
#[verifier::external_body]
fn replace_text(text: &str, pattern: &str, with: &str) -> (result: String)
    requires
        pattern@.len() > 0,
    ensures
        result@ == replaced(text@, pattern@, with@),
{
    text.replace(pattern, with)
}

/// The configuration directory as it is outside the sandbox of a flatpak.
pub open spec fn flatpak_fixed(path: Seq<char>) -> Seq<char> {
    replaced(path, "var/app/org.Xetibo.ReSet/config"@, "config"@)
}

/// Undoes what running inside a flatpak does to the configuration path.
pub fn flatpak_fix(path: String) -> (fixed: String)
    ensures
        fixed@ == flatpak_fixed(path@),
{
    proof {
        reveal_strlit("var/app/org.Xetibo.ReSet/config");
    }
    replace_text(path.as_str(), "var/app/org.Xetibo.ReSet/config", "config")
}

/// Whether a text of the command line is a flag: one dash and more, or two
/// dashes and more.
pub open spec fn is_flag_text(text: Seq<char>) -> bool {
    text.len() > 1 && text[0] == '-' && (text[1] != '-' || text.len() > 2)
}

pub fn is_flag(maybe_flag: &str) -> (flag: bool)
    ensures
        flag == is_flag_text(maybe_flag@),
{
    let length = maybe_flag.unicode_len();
    if length < 2 {
        return false;
    }
    if maybe_flag.get_char(0) != '-' {
        return false;
    }
    maybe_flag.get_char(1) != '-' || length > 2
}

/// How many values follow a flag: the texts from `from` on, up to the next
/// flag or the end.
pub open spec fn values_count(flags: Seq<String>, from: int) -> nat
    decreases flags.len() - from,
{
    if from < 0 || from >= flags.len() || is_flag_text(flags[from]@) {
        0
    } else {
        1 + values_count(flags, from + 1)
    }
}

/// What the file system holds at the path that stands at `at`.
pub open spec fn kind_at(kinds: Seq<PathKind>, at: int) -> PathKind {
    if 0 <= at < kinds.len() {
        kinds[at]
    } else {
        PathKind::Missing
    }
}

/// The values of a flag end before the end of the command line.
pub proof fn lemma_values_are_in_line(flags: Seq<String>, from: int)
    requires
        0 <= from <= flags.len(),
    ensures
        from + values_count(flags, from) <= flags.len(),
    decreases flags.len() - from,
{
    if from < flags.len() && !is_flag_text(flags[from]@) {
        lemma_values_are_in_line(flags, from + 1);
    }
}

/// The flags that the command line holds from `at` on.
///
/// `--config` takes the next text and counts where that is a file;
/// `--plugins` takes the next text and counts where that is a directory;
/// a text that is no flag is passed over; any other flag takes the texts up
/// to the next flag as its values.
pub open spec fn parsed_from(flags: Seq<String>, kinds: Seq<PathKind>, at: int) -> Seq<FlagModel>
    decreases flags.len() - at,
{
    if at < 0 || at >= flags.len() {
        Seq::empty()
    } else if flags[at]@ == "--config"@ {
        if at + 1 >= flags.len() {
            Seq::empty()
        } else if kind_at(kinds, at + 1) is File {
            seq![FlagModel::ConfigDir(flags[at + 1]@)] + parsed_from(flags, kinds, at + 2)
        } else {
            parsed_from(flags, kinds, at + 2)
        }
    } else if flags[at]@ == "--plugins"@ {
        if at + 1 >= flags.len() {
            Seq::empty()
        } else if kind_at(kinds, at + 1) is Directory {
            seq![FlagModel::PluginDir(flags[at + 1]@)] + parsed_from(flags, kinds, at + 2)
        } else {
            parsed_from(flags, kinds, at + 2)
        }
    } else if !is_flag_text(flags[at]@) {
        parsed_from(flags, kinds, at + 1)
    } else {
        let count = values_count(flags, at + 1);
        proof {
            lemma_values_are_in_line(flags, at + 1);
        }
        seq![
            FlagModel::Other(flags[at]@, value_of(flags.subrange(at + 1, at + 1 + count))),
        ] + parsed_from(flags, kinds, at + 1 + count)
    }
}

/// Takes the text that follows `--config`: it counts where it is a file.
pub fn handle_config(flags: &mut Flags, file: Option<&String>, kind: PathKind)
    ensures
        file is Some && kind is File ==> final(flags)@ == old(flags)@.push(
            FlagModel::ConfigDir(file.unwrap()@),
        ),
        file is None || !(kind is File) ==> final(flags)@ == old(flags)@,
{
    let path = match file {
        Some(path) => path,
        None => {
            return ;
        },
    };
    match kind {
        PathKind::File => {
            flags.0.push(Flag::ConfigDir(path.clone()));
            proof {
                assert(flags@ =~= old(flags)@.push(FlagModel::ConfigDir(path@)));
            }
        },
        _ => {},
    }
}

/// Takes the text that follows `--plugins`: it counts where it is a
/// directory.
pub fn handle_plugins(flags: &mut Flags, file: Option<&String>, kind: PathKind)
    ensures
        file is Some && kind is Directory ==> final(flags)@ == old(flags)@.push(
            FlagModel::PluginDir(file.unwrap()@),
        ),
        file is None || !(kind is Directory) ==> final(flags)@ == old(flags)@,
{
    let path = match file {
        Some(path) => path,
        None => {
            return ;
        },
    };
    match kind {
        PathKind::Directory => {
            flags.0.push(Flag::PluginDir(path.clone()));
            proof {
                assert(flags@ =~= old(flags)@.push(FlagModel::PluginDir(path@)));
            }
        },
        _ => {},
    }
}

/// Takes the text at `at`, which is neither `--config` nor `--plugins`. A
/// text that is no flag is passed over. A flag takes the texts that follow
/// it, up to the next flag, as its values. Gives the place of the first
/// text that was not taken.
pub fn handle_other(flags: &mut Flags, line: &Vec<String>, at: usize) -> (next: usize)
    requires
        at < line@.len(),
    ensures
        !is_flag_text(line@[at as int]@) ==> next == at + 1 && final(flags)@ == old(flags)@,
        is_flag_text(line@[at as int]@) ==> next == at + 1 + values_count(line@, at + 1)
            && final(flags)@ == old(flags)@.push(
            FlagModel::Other(line@[at as int]@, value_of(line@.subrange(at + 1, next as int))),
        ),
        next <= line@.len(),
{
    let length = line.len();
    let flag = &line[at];
    if !is_flag(flag.as_str()) {
        return at + 1;
    }
    let mut parsed_flags: Vec<String> = Vec::new();
    let mut next = at + 1;
    proof {
        lemma_values_are_in_line(line@, at + 1);
    }
    while next < length && !is_flag(line[next].as_str())
        invariant
            length == line@.len(),
            at < next <= line@.len(),
            parsed_flags@ == line@.subrange(at + 1, next as int),
            next + values_count(line@, next as int) == at + 1 + values_count(line@, at + 1),
        decreases line@.len() - next,
    {
        parsed_flags.push(line[next].clone());
        proof {
            assert(parsed_flags@ =~= line@.subrange(at + 1, next + 1));
        }
        next += 1;
    }
    let ghost values = parsed_flags@;
    let value = if parsed_flags.len() == 0 {
        Variant::empty()
    } else if parsed_flags.len() == 1 {
        match parsed_flags.pop() {
            Some(only) => only.into_variant(),
            None => Variant::empty(),
        }
    } else {
        let list = parsed_flags.into_variant();
        proof {
            assert(list@.content->List_0 =~= value_of(values).content->List_0);
        }
        list
    };
    flags.0.push(Flag::Other((flag.clone(), value)));
    proof {
        assert(flags@ =~= old(flags)@.push(FlagModel::Other(flag@, value_of(values))));
    }
    next
}

/// Reads the command line. The first text is the program's name and no
/// flag. `kinds` says what the file system holds at each text, place by
/// place, and nothing where it is shorter than the command line.
pub fn parse_flags(flags: Vec<String>, kinds: Vec<PathKind>) -> (parsed_flags: Flags)
    requires
        flags@.len() > 0,
    ensures
        parsed_flags@ == parsed_from(flags@, kinds@, 1),
{
    let mut parsed_flags = Flags(Vec::new());
    let mut at: usize = 1;
    proof {
        assert(parsed_flags@ + parsed_from(flags@, kinds@, 1) =~= parsed_from(flags@, kinds@, 1));
    }
    while at < flags.len()
        invariant
            1 <= at,
            parsed_flags@ + parsed_from(flags@, kinds@, at as int) == parsed_from(
                flags@,
                kinds@,
                1,
            ),
        decreases flags@.len() - at,
    {
        let ghost before = parsed_flags@;
        let ghost rest = parsed_from(flags@, kinds@, at as int);
        if same_text(flags[at].as_str(), "--config") {
            if at + 1 < flags.len() {
                let kind = if at + 1 < kinds.len() {
                    kinds[at + 1]
                } else {
                    PathKind::Missing
                };
                handle_config(&mut parsed_flags, Some(&flags[at + 1]), kind);
                at += 2;
                proof {
                    assert(parsed_flags@ + parsed_from(flags@, kinds@, at as int) =~= before
                        + rest);
                }
            } else {
                handle_config(&mut parsed_flags, None, PathKind::Missing);
                at = flags.len();
                proof {
                    assert(parsed_flags@ + parsed_from(flags@, kinds@, at as int) =~= before
                        + rest);
                }
            }
        } else if same_text(flags[at].as_str(), "--plugins") {
            if at + 1 < flags.len() {
                let kind = if at + 1 < kinds.len() {
                    kinds[at + 1]
                } else {
                    PathKind::Missing
                };
                handle_plugins(&mut parsed_flags, Some(&flags[at + 1]), kind);
                at += 2;
                proof {
                    assert(parsed_flags@ + parsed_from(flags@, kinds@, at as int) =~= before
                        + rest);
                }
            } else {
                handle_plugins(&mut parsed_flags, None, PathKind::Missing);
                at = flags.len();
                proof {
                    assert(parsed_flags@ + parsed_from(flags@, kinds@, at as int) =~= before
                        + rest);
                }
            }
        } else {
            at = handle_other(&mut parsed_flags, &flags, at);
            proof {
                assert(parsed_flags@ + parsed_from(flags@, kinds@, at as int) =~= before + rest);
            }
        }
    }
    proof {
        assert(parsed_flags@ + Seq::<FlagModel>::empty() =~= parsed_flags@);
    }
    parsed_flags
}

/// What is wrong with the path that follows `--config`, where a file is
/// wanted, or `--plugins`, where a directory is.
pub open spec fn path_problems(kind: PathKind, file_wanted: bool) -> Seq<FlagProblemModel> {
    match kind {
        PathKind::Missing => seq![FlagProblemModel::MissingPath],
        PathKind::File => if file_wanted {
            Seq::empty()
        } else {
            seq![FlagProblemModel::NotADirectory]
        },
        PathKind::Directory => if file_wanted {
            seq![FlagProblemModel::NotAFile]
        } else {
            Seq::empty()
        },
    }
}

/// The problems of the command line from `at` on, in the order of the
/// texts they are about.
///
/// `--config` and `--plugins` need a path behind them, and something of
/// the right kind at that path; a text that stands where a flag is expected
/// and is none is a problem; any other flag and its values are none.
pub open spec fn problems_from(flags: Seq<String>, kinds: Seq<PathKind>, at: int) -> Seq<
    FlagProblemModel,
>
    decreases flags.len() - at,
{
    if at < 0 || at >= flags.len() {
        Seq::empty()
    } else if flags[at]@ == "--config"@ {
        if at + 1 >= flags.len() {
            seq![FlagProblemModel::NoFile]
        } else {
            path_problems(kind_at(kinds, at + 1), true) + problems_from(flags, kinds, at + 2)
        }
    } else if flags[at]@ == "--plugins"@ {
        if at + 1 >= flags.len() {
            seq![FlagProblemModel::NoDirectory]
        } else {
            path_problems(kind_at(kinds, at + 1), false) + problems_from(flags, kinds, at + 2)
        }
    } else if !is_flag_text(flags[at]@) {
        seq![FlagProblemModel::NotAFlag(flags[at]@)] + problems_from(flags, kinds, at + 1)
    } else {
        let count = values_count(flags, at + 1);
        proof {
            lemma_values_are_in_line(flags, at + 1);
        }
        problems_from(flags, kinds, at + 1 + count)
    }
}

/// The place behind the values that stand from `from` on.
pub fn values_end(line: &Vec<String>, from: usize) -> (end: usize)
    requires
        from <= line@.len(),
    ensures
        end == from + values_count(line@, from as int),
        end <= line@.len(),
{
    let length = line.len();
    let mut end = from;
    proof {
        lemma_values_are_in_line(line@, from as int);
    }
    while end < length && !is_flag(line[end].as_str())
        invariant
            length == line@.len(),
            from <= end <= line@.len(),
            end + values_count(line@, end as int) == from + values_count(line@, from as int),
        decreases line@.len() - end,
    {
        end += 1;
    }
    end
}

/// Notes what is wrong with the path behind `--config` or `--plugins`.
fn note_path_problem(problems: &mut Vec<FlagProblem>, kind: PathKind, file_wanted: bool)
    ensures
        problem_views(final(problems)@) == problem_views(old(problems)@) + path_problems(
            kind,
            file_wanted,
        ),
{
    let ghost before = problems@;
    match kind {
        PathKind::Missing => {
            problems.push(FlagProblem::MissingPath);
        },
        PathKind::File => {
            if !file_wanted {
                problems.push(FlagProblem::NotADirectory);
            }
        },
        PathKind::Directory => {
            if file_wanted {
                problems.push(FlagProblem::NotAFile);
            }
        },
    }
    proof {
        assert(problem_views(problems@) =~= problem_views(before) + path_problems(
            kind,
            file_wanted,
        ));
    }
}

/// Says what is wrong with a command line, problem by problem. The first
/// text is the program's name. `kinds` says what the file system holds at
/// each text, place by place, and nothing where it is shorter than the
/// command line.
pub fn flag_problems(flags: &Vec<String>, kinds: &Vec<PathKind>) -> (problems: Vec<FlagProblem>)
    requires
        flags@.len() > 0,
    ensures
        problem_views(problems@) == problems_from(flags@, kinds@, 1),
{
    let mut problems: Vec<FlagProblem> = Vec::new();
    let mut at: usize = 1;
    proof {
        assert(problem_views(problems@) + problems_from(flags@, kinds@, 1) =~= problems_from(
            flags@,
            kinds@,
            1,
        ));
    }
    while at < flags.len()
        invariant
            1 <= at,
            problem_views(problems@) + problems_from(flags@, kinds@, at as int) == problems_from(
                flags@,
                kinds@,
                1,
            ),
        decreases flags@.len() - at,
    {
        let ghost before = problem_views(problems@);
        let ghost rest = problems_from(flags@, kinds@, at as int);
        let config = same_text(flags[at].as_str(), "--config");
        let plugins = same_text(flags[at].as_str(), "--plugins");
        if config || plugins {
            if at + 1 < flags.len() {
                let kind = if at + 1 < kinds.len() {
                    kinds[at + 1]
                } else {
                    PathKind::Missing
                };
                note_path_problem(&mut problems, kind, config);
                at += 2;
            } else {
                if config {
                    problems.push(FlagProblem::NoFile);
                } else {
                    problems.push(FlagProblem::NoDirectory);
                }
                at = flags.len();
            }
        } else if !is_flag(flags[at].as_str()) {
            problems.push(FlagProblem::NotAFlag(flags[at].clone()));
            at += 1;
        } else {
            at = values_end(flags, at + 1);
        }
        proof {
            assert(problem_views(problems@) + problems_from(flags@, kinds@, at as int) =~= before
                + rest);
        }
    }
    proof {
        assert(problem_views(problems@) + Seq::<FlagProblemModel>::empty() =~= problem_views(
            problems@,
        ));
    }
    problems
}

} // verus!
