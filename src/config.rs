//! Turning the process arguments into a search configuration.
use vstd::prelude::*;

verus! {

/// Why the arguments do not describe a search.
#[derive(Debug, Clone, Copy, PartialEq, Eq, Structural)]
pub enum UsageError {
    /// No token after the program name.
    MissingQuery,
    /// A query but no file path.
    MissingFilePath,
    /// The query token is the empty string.
    EmptyQuery,
    /// The file path token is the empty string.
    EmptyFilePath,
    /// The token after the file path is not a known flag.
    UnrecognizedArgument,
    /// More than one token after the file path.
    TooManyArguments,
}

impl UsageError {
    /// The text shown to the user for this error.
    pub open spec fn message_text(&self) -> Seq<char> {
        match self {
            UsageError::MissingQuery => "Not enough arguments: query not provided."@,
            UsageError::MissingFilePath => "Not enough arguments: file_path not provided."@,
            UsageError::EmptyQuery => "Invalid argument: query must not be empty."@,
            UsageError::EmptyFilePath => "Invalid argument: file_path must not be empty."@,
            UsageError::UnrecognizedArgument =>
                "Unrecognized argument or flag. Usage: <query> <file_path> [-i/--ignore-case]"@,
            UsageError::TooManyArguments =>
                "Too many arguments. Usage: <query> <file_path> [-i/--ignore-case]"@,
        }
    }

    /// The text shown to the user for this error.
    pub fn message(&self) -> (r: &'static str)
        ensures
            r@ == self.message_text(),
    {
        match self {
            UsageError::MissingQuery => "Not enough arguments: query not provided.",
            UsageError::MissingFilePath => "Not enough arguments: file_path not provided.",
            UsageError::EmptyQuery => "Invalid argument: query must not be empty.",
            UsageError::EmptyFilePath => "Invalid argument: file_path must not be empty.",
            UsageError::UnrecognizedArgument =>
                "Unrecognized argument or flag. Usage: <query> <file_path> [-i/--ignore-case]",
            UsageError::TooManyArguments =>
                "Too many arguments. Usage: <query> <file_path> [-i/--ignore-case]",
        }
    }
}

/// A validated search request: the query and the file path are never empty
/// when it comes from [`Config::build`].
#[derive(Debug, Clone)]
pub struct Config {
    /// The text to look for.
    pub query: String,
    /// The file to search in.
    pub file_path: String,
    /// Compare lowercased text instead of the text as it is.
    pub ignore_case: bool,
}

/// The mathematical content of a [`Config`].
pub struct ConfigView {
    pub query: Seq<char>,
    pub file_path: Seq<char>,
    pub ignore_case: bool,
}

impl ConfigView {
    /// The query and the file path are both non-empty.
    pub open spec fn is_valid(&self) -> bool {
        self.query.len() > 0 && self.file_path.len() > 0
    }
}

impl View for Config {
    type V = ConfigView;

    open spec fn view(&self) -> ConfigView {
        ConfigView { query: self.query@, file_path: self.file_path@, ignore_case: self.ignore_case }
    }
}

/// The texts of a list of argument strings.
pub open spec fn arg_texts(args: Seq<String>) -> Seq<Seq<char>> {
    args.map_values(|a: String| a@)
}

/// The two spellings of the case-insensitivity flag.
pub open spec fn is_ignore_case_flag(t: Seq<char>) -> bool {
    t == seq!['-', 'i'] || t == seq!['-', '-', 'i', 'g', 'n', 'o', 'r', 'e', '-', 'c', 'a', 's', 'e']
}

/// What a list of arguments means. Index 0 is the program name and is
/// skipped; then come the query, the file path and at most one flag. The
/// query and the file path must not be empty.
pub open spec fn parse_args(args: Seq<Seq<char>>) -> Result<ConfigView, UsageError> {
    if args.len() < 2 {
        Err(UsageError::MissingQuery)
    } else if args.len() < 3 {
        Err(UsageError::MissingFilePath)
    } else if args[1].len() == 0 {
        Err(UsageError::EmptyQuery)
    } else if args[2].len() == 0 {
        Err(UsageError::EmptyFilePath)
    } else if args.len() > 3 && !is_ignore_case_flag(args[3]) {
        Err(UsageError::UnrecognizedArgument)
    } else if args.len() > 4 {
        Err(UsageError::TooManyArguments)
    } else {
        Ok(ConfigView { query: args[1], file_path: args[2], ignore_case: args.len() == 4 })
    }
}

/// The view of a parse result.
pub open spec fn result_view(r: Result<Config, UsageError>) -> Result<ConfigView, UsageError> {
    match r {
        Ok(c) => Ok(c@),
        Err(e) => Err(e),
    }
}

/// Whether `t` is `-i` or `--ignore-case`.
fn is_flag(t: &String) -> (r: bool)
    ensures
        r == is_ignore_case_flag(t@),
{
    let short: String = "-i".to_owned();
    let long: String = "--ignore-case".to_owned();
    proof {
        reveal_strlit("-i");
        reveal_strlit("--ignore-case");
        assert(short@ =~= seq!['-', 'i']);
        assert(long@ =~= seq!['-', '-', 'i', 'g', 'n', 'o', 'r', 'e', '-', 'c', 'a', 's', 'e']);
    }
    *t == short || *t == long
}

impl Config {
    /// Reads the query, the file path and the optional flag from the
    /// process arguments; the texts are kept as they are.
    pub fn build(args: &[String]) -> (r: Result<Config, UsageError>)
        ensures
            result_view(r) == parse_args(arg_texts(args@)),
            r is Ok ==> r->Ok_0@.is_valid(),
    {
        let ghost texts = arg_texts(args@);
        if args.len() < 2 {
            return Err(UsageError::MissingQuery);
        }
        if args.len() < 3 {
            return Err(UsageError::MissingFilePath);
        }
        if args[1].as_str().is_empty() {
            return Err(UsageError::EmptyQuery);
        }
        if args[2].as_str().is_empty() {
            return Err(UsageError::EmptyFilePath);
        }
        let query = args[1].clone();
        let file_path = args[2].clone();
        let mut ignore_case = false;
        if args.len() > 3 {
            if !is_flag(&args[3]) {
                return Err(UsageError::UnrecognizedArgument);
            }
            if args.len() > 4 {
                return Err(UsageError::TooManyArguments);
            }
            ignore_case = true;
        }
        assert(texts[1] == query@ && texts[2] == file_path@);
        Ok(Config { query, file_path, ignore_case })
    }
}

/// A non-empty query and a non-empty file path, with or without one flag,
/// always make a configuration, and its texts are the argument tokens exactly
/// as given.
pub proof fn valid_arguments_kept_verbatim(args: Seq<Seq<char>>)
    requires
        args.len() == 3 || (args.len() == 4 && is_ignore_case_flag(args[3])),
        args[1].len() > 0,
        args[2].len() > 0,
    ensures
        parse_args(args) is Ok,
        parse_args(args)->Ok_0.query == args[1],
        parse_args(args)->Ok_0.file_path == args[2],
{
}

/// Every configuration that the arguments make has a non-empty query and a
/// non-empty file path.
pub proof fn parsed_config_is_valid(args: Seq<Seq<char>>)
    requires
        parse_args(args) is Ok,
    ensures
        parse_args(args)->Ok_0.is_valid(),
{
}

/// An empty query or an empty file path is refused as a usage error.
pub proof fn empty_tokens_refused(args: Seq<Seq<char>>)
    requires
        args.len() >= 3,
        args[1].len() == 0 || args[2].len() == 0,
    ensures
        parse_args(args) is Err,
        args[1].len() == 0 ==> parse_args(args) == Err::<ConfigView, UsageError>(
            UsageError::EmptyQuery,
        ),
{
}

/// Case-insensitive matching is chosen exactly when a flag token follows the
/// file path; without it the search compares texts as they are.
pub proof fn ignore_case_only_with_flag(args: Seq<Seq<char>>)
    requires
        parse_args(args) is Ok,
    ensures
        parse_args(args)->Ok_0.ignore_case <==> (args.len() == 4 && is_ignore_case_flag(args[3])),
{
}

/// With a query and no file path, the arguments are refused as a usage error.
pub proof fn missing_file_path_refused(args: Seq<Seq<char>>)
    requires
        args.len() == 2,
    ensures
        parse_args(args) == Err::<ConfigView, UsageError>(UsageError::MissingFilePath),
{
}

/// After a non-empty query and file path, a token that is neither `-i` nor
/// `--ignore-case` is refused as a usage error.
pub proof fn unknown_flag_refused(args: Seq<Seq<char>>)
    requires
        args.len() >= 4,
        args[1].len() > 0,
        args[2].len() > 0,
        !is_ignore_case_flag(args[3]),
    ensures
        parse_args(args) == Err::<ConfigView, UsageError>(UsageError::UnrecognizedArgument),
{
}

} // verus!
