use vstd::prelude::*;
use vstd::string::*;

use super::macros::ErrorLevel;
use super::variant::{Empty, Shape, Content, Variant, VariantView, wrapped};

verus! {

/// One flag of the command line.
pub enum Flag {
    /// `--config` and the file it names.
    ConfigDir(String),
    /// `--plugins` and the directory it names.
    PluginDir(String),
    /// Any other flag, with the values that follow it.
    Other((String, Variant)),
}

/// A flag seen from outside.
pub enum FlagModel {
    ConfigDir(Seq<char>),
    PluginDir(Seq<char>),
    Other(Seq<char>, VariantView),
}

impl View for Flag {
    type V = FlagModel;

    open spec fn view(&self) -> FlagModel {
        match self {
            Flag::ConfigDir(path) => FlagModel::ConfigDir(path@),
            Flag::PluginDir(path) => FlagModel::PluginDir(path@),
            Flag::Other((name, value)) => FlagModel::Other(name@, value@),
        }
    }
}

/// The flags of a command line, in the order they were given.
pub struct Flags(pub Vec<Flag>);

impl View for Flags {
    type V = Seq<FlagModel>;

    open spec fn view(&self) -> Seq<FlagModel> {
        Seq::new(self.0@.len(), |i: int| self.0@[i]@)
    }
}

/// What the file system holds at a path.
#[derive(Clone, Copy, Debug, PartialEq, Eq)]
pub enum PathKind {
    Missing,
    File,
    Directory,
}

/// What the values of a flag are kept as: nothing where there is none,
/// a text where there is one, a list of texts where there are more.
pub open spec fn value_of(values: Seq<String>) -> VariantView {
    if values.len() == 0 {
        wrapped(Empty {  })
    } else if values.len() == 1 {
        wrapped(values[0])
    } else {
        VariantView {
            tag: Shape::List(Box::new(Shape::Text)),
            content: Content::List(Seq::new(values.len(), |i: int| Content::Text(values[i]@))),
        }
    }
}

/// What is wrong with a command line. Each problem costs the flag it is
/// about, and the reading goes on behind it.
pub enum FlagProblem {
    /// `--config` stands last: no file follows it.
    NoFile,
    /// `--plugins` stands last: no directory follows it.
    NoDirectory,
    /// There is nothing at the path that a flag names.
    MissingPath,
    /// `--config` names something that is no file.
    NotAFile,
    /// `--plugins` names something that is no directory.
    NotADirectory,
    /// A text stands where a flag is expected.
    NotAFlag(String),
}

/// A problem of a command line seen from outside.
pub enum FlagProblemModel {
    NoFile,
    NoDirectory,
    MissingPath,
    NotAFile,
    NotADirectory,
    NotAFlag(Seq<char>),
}

impl View for FlagProblem {
    type V = FlagProblemModel;

    open spec fn view(&self) -> FlagProblemModel {
        match self {
            FlagProblem::NoFile => FlagProblemModel::NoFile,
            FlagProblem::NoDirectory => FlagProblemModel::NoDirectory,
            FlagProblem::MissingPath => FlagProblemModel::MissingPath,
            FlagProblem::NotAFile => FlagProblemModel::NotAFile,
            FlagProblem::NotADirectory => FlagProblemModel::NotADirectory,
            FlagProblem::NotAFlag(text) => FlagProblemModel::NotAFlag(text@),
        }
    }
}

impl FlagProblem {
    /// Every problem of the command line is critical.
    pub open spec fn severity(&self) -> ErrorLevel {
        ErrorLevel::Critical
    }

    /// What the problem says, in words.
    pub open spec fn text(&self) -> Seq<char> {
        match self {
            FlagProblem::NoFile => "No file provided!"@,
            FlagProblem::NoDirectory => "No directory provided!"@,
            FlagProblem::MissingPath => "Provided path does not exist!"@,
            FlagProblem::NotAFile => "Provided path is not a file!"@,
            FlagProblem::NotADirectory => "Provided path is not a directory!"@,
            FlagProblem::NotAFlag(text) => "Expected a flag, got a regular string instead: "@
                + text@,
        }
    }

    pub fn level(&self) -> (level: ErrorLevel)
        ensures
            level == self.severity(),
    {
        ErrorLevel::Critical
    }

    pub fn message(&self) -> (message: String)
        ensures
            message@ == self.text(),
    {
        match self {
            FlagProblem::NoFile => String::from_str("No file provided!"),
            FlagProblem::NoDirectory => String::from_str("No directory provided!"),
            FlagProblem::MissingPath => String::from_str("Provided path does not exist!"),
            FlagProblem::NotAFile => String::from_str("Provided path is not a file!"),
            FlagProblem::NotADirectory => String::from_str("Provided path is not a directory!"),
            FlagProblem::NotAFlag(text) => {
                let mut message = String::from_str(
                    "Expected a flag, got a regular string instead: ",
                );
                message.append(text.as_str());
                message
            },
        }
    }
}

/// What each problem of a list is, seen from outside.
pub open spec fn problem_views(problems: Seq<FlagProblem>) -> Seq<FlagProblemModel> {
    Seq::new(problems.len(), |i: int| problems[i]@)
}

} // verus!
