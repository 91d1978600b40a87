//! The command line: `--port`, `--fps`, `--max` and `--debug`, read with clap.

use vstd::prelude::*;
use clap::builder::ValueParserFactory;
use clap::{Arg, ArgAction, ArgMatches, Command};
use vstd::string::StringExecFns;
use crate::text::{all_digits, decimal_value};

verus! {

#[verifier::external_type_specification]
#[verifier::external_body]
pub struct ExCommand(Command);

#[verifier::external_type_specification]
#[verifier::external_body]
pub struct ExArg(Arg);

#[verifier::external_type_specification]
#[verifier::external_body]
pub struct ExArgMatches(ArgMatches);

/// The settings of the program.
#[derive(PartialEq, Eq, Structural, Clone, Copy, Debug)]
pub struct Args {
    /// The port to serve on.
    pub port: u16,
    /// The frame rate of the stream.
    pub fps: u16,
    /// The `--max` setting, the number of clients the server is meant for.
    pub max_clients: u32,
    /// Whether to log at debug level.
    pub debug: bool,
}

/// Why the command line gave no settings.
#[derive(Debug)]
pub enum ArgsError {
    /// clap stopped: the command line is malformed, or help was asked for.
    /// `message` is clap's text, to be written to standard error or, where
    /// `use_stderr` is false, to standard output, before exiting with `exit_code`.
    Usage { message: String, use_stderr: bool, exit_code: i32 },
    /// The value of the argument with this id could not be read back.
    Unreadable { id: String },
}

// ---------------------------------------------------------------------------
// A model of clap's argument declarations and of what a parse hands back.

/// How clap reads the values of an argument: as text (clap's default), or
/// through its parser for `u16` or `u32` values.
pub enum ValueKind {
    Text,
    U16,
    U32,
}

/// What an `Arg` declares: its id, its `--long` and `-s` names, its default
/// value, how its values are read, and whether it is a flag (`SetTrue`).
pub struct ArgDecl {
    pub id: Seq<char>,
    pub long: Option<Seq<char>>,
    pub short: Option<char>,
    pub default: Option<Seq<char>>,
    pub kind: ValueKind,
    pub flag: bool,
}

/// A value that clap holds for an argument after a parse.
pub enum Matched {
    U16(u16),
    U32(u32),
    Flag(bool),
}

/// What an `Arg` declares.
pub uninterp spec fn arg_decl(arg: Arg) -> ArgDecl;

/// The arguments of a `Command`, in the order they were added.
pub uninterp spec fn command_args(command: Command) -> Seq<ArgDecl>;

/// The first value that an `ArgMatches` holds for each argument id.
pub uninterp spec fn matched_values(matches: ArgMatches) -> Map<Seq<char>, Matched>;

/// What clap's parse (`Command::try_get_matches_from`) of the command line
/// `argv` makes of a command with the arguments `args`: the values it holds
/// for each id, or `None` where clap refuses the line.
pub uninterp spec fn clap_matches(args: Seq<ArgDecl>, argv: Seq<Seq<char>>) -> Option<
    Map<Seq<char>, Matched>,
>;

/// The text of each item of a command line.
pub open spec fn argv_text(argv: Seq<String>) -> Seq<Seq<char>> {
    argv.map_values(|s: String| s@)
}

/// The number that `s` writes in the grammar of Rust's `i64::from_str`: an
/// optional `+` or `-`, then at least one decimal digit and nothing else.
pub open spec fn int_text_value(s: Seq<char>) -> Option<int> {
    if s.len() > 0 && (s[0] == '+' || s[0] == '-') {
        let digits = s.drop_first();
        if digits.len() > 0 && all_digits(digits) {
            if s[0] == '-' {
                Some(-decimal_value(digits))
            } else {
                Some(decimal_value(digits) as int)
            }
        } else {
            None
        }
    } else if s.len() > 0 && all_digits(s) {
        Some(decimal_value(s) as int)
    } else {
        None
    }
}

/// The value that clap's parser for `kind` reads from `s`: the `u16` and `u32`
/// parsers read an `i64` and refuse it outside the type's range.
pub open spec fn kind_value(kind: ValueKind, s: Seq<char>) -> Option<Matched> {
    match int_text_value(s) {
        Some(v) => match kind {
            ValueKind::U16 => if 0 <= v <= u16::MAX {
                Some(Matched::U16(v as u16))
            } else {
                None
            },
            ValueKind::U32 => if 0 <= v <= u32::MAX {
                Some(Matched::U32(v as u32))
            } else {
                None
            },
            ValueKind::Text => None,
        },
        None => None,
    }
}

/// `--` followed by `long`.
pub open spec fn long_form(long: Seq<char>) -> Seq<char> {
    seq!['-', '-'] + long
}

/// The long name of clap's own help flag.
pub open spec fn help_name() -> Seq<char> {
    seq!['h', 'e', 'l', 'p']
}

/// An argument that clap takes without a panic and that the facts below
/// speak of: an option or a flag named by `--long` or `-s` (no positional
/// argument), whose names leave clap's `--help` and `-h` free; a flag keeps
/// clap's own value parser and default; an option reads `u16` or `u32`
/// values and has a default that its parser reads.
pub open spec fn well_formed_arg(a: ArgDecl) -> bool {
    &&& a.long is Some || a.short is Some
    &&& a.long matches Some(l) ==> l.len() > 0 && l[0] != '-' && !l.contains('=') && l
        != help_name()
    &&& a.short matches Some(c) ==> c != '-' && c != 'h'
    &&& a.id != help_name()
    &&& if a.flag {
        a.kind is Text && a.default is None
    } else {
        a.kind !is Text && a.default is Some && kind_value(a.kind, a.default->0) is Some
    }
}

/// Arguments that are each well formed, with distinct ids, long names and
/// short names.
pub open spec fn well_formed_args(args: Seq<ArgDecl>) -> bool {
    &&& forall|i: int| 0 <= i < args.len() ==> well_formed_arg(#[trigger] args[i])
    &&& forall|i: int, j: int|
        0 <= i < j < args.len() ==> {
            &&& (#[trigger] args[i]).id != (#[trigger] args[j]).id
            &&& args[i].long is Some ==> args[i].long != args[j].long
            &&& args[i].short is Some ==> args[i].short != args[j].short
        }
}

/// The value an argument holds where the command line does not give it: a
/// flag is off, an option takes its default.
pub open spec fn default_value(a: ArgDecl) -> Matched {
    if a.flag {
        Matched::Flag(false)
    } else {
        kind_value(a.kind, a.default->0)->0
    }
}

/// Whether `t` names the argument `a`, as `--long` or as `-s`.
pub open spec fn names(a: ArgDecl, t: Seq<char>) -> bool {
    ||| a.long matches Some(l) && t == long_form(l)
    ||| a.short matches Some(c) && t == seq!['-', c]
}

/// The index of the argument that `t` names, if one does.
pub open spec fn option_index(args: Seq<ArgDecl>, t: Seq<char>) -> Option<int> {
    if exists|i: int| 0 <= i < args.len() && names(#[trigger] args[i], t) {
        Some(choose|i: int| 0 <= i < args.len() && names(#[trigger] args[i], t))
    } else {
        None
    }
}

/// Whether `t`, where an option belongs, is one that clap refuses for these
/// arguments: a plain word (there are no positional arguments), or `--name`
/// with a name that is no argument's and not `help`.
pub open spec fn unknown_option(t: Seq<char>) -> bool {
    ||| t.len() > 0 && t[0] != '-'
    ||| t.len() > 2 && t[0] == '-' && t[1] == '-' && !t.contains('=') && t.subrange(2, t.len() as int)
        != help_name()
}

/// How far the documented forms of a command line take a reading of it.
pub enum Reading {
    /// Options given as `--long value`, `-s value`, `--long` or `-s`, each at
    /// most once, every value read: the values given, by id.
    Given(Map<Seq<char>, Matched>),
    /// A line that clap refuses: a value that its parser does not read, an
    /// option whose value is missing, or an unknown option.
    Refused,
    /// A form that this reading does not follow (`--long=value`, a value
    /// that starts with `-`, an option given twice, `--help`, ...).
    Unread,
}

/// `rest`, with the value `m` given for `id` in front of it.
pub open spec fn given_before(id: Seq<char>, m: Matched, rest: Reading) -> Reading {
    match rest {
        Reading::Given(g) => if g.dom().contains(id) {
            Reading::Unread
        } else {
            Reading::Given(g.insert(id, m))
        },
        other => other,
    }
}

/// The reading of the items of a command line after the program's name.
pub open spec fn reading(args: Seq<ArgDecl>, tokens: Seq<Seq<char>>) -> Reading
    decreases tokens.len(),
{
    if tokens.len() == 0 {
        Reading::Given(Map::empty())
    } else {
        let t = tokens[0];
        match option_index(args, t) {
            Some(i) => {
                let a = args[i];
                if a.flag {
                    given_before(a.id, Matched::Flag(true), reading(args, tokens.drop_first()))
                } else if tokens.len() < 2 {
                    Reading::Refused
                } else {
                    let v = tokens[1];
                    if v.len() > 0 && v[0] == '-' {
                        if v.len() >= 2 && v != seq!['-', '-'] {
                            Reading::Refused
                        } else {
                            Reading::Unread
                        }
                    } else {
                        match kind_value(a.kind, v) {
                            Some(m) => given_before(
                                a.id,
                                m,
                                reading(args, tokens.subrange(2, tokens.len() as int)),
                            ),
                            None => Reading::Refused,
                        }
                    }
                }
            },
            None => if unknown_option(t) {
                Reading::Refused
            } else {
                Reading::Unread
            },
        }
    }
}

/// Whether `values` holds, for each argument, the value given for it in `g`
/// or else its default.
pub open spec fn agrees(
    values: Map<Seq<char>, Matched>,
    args: Seq<ArgDecl>,
    g: Map<Seq<char>, Matched>,
) -> bool {
    forall|i: int|
        0 <= i < args.len() ==> values.dom().contains((#[trigger] args[i]).id) && values[args[i].id]
            == (if g.dom().contains(args[i].id) {
            g[args[i].id]
        } else {
            default_value(args[i])
        })
}

/// Whether `m` is a value that a command line can give for `a`: `true` for a
/// flag, a value of its type for an option.
pub open spec fn given_fits(a: ArgDecl, m: Matched) -> bool {
    if a.flag {
        m == Matched::Flag(true)
    } else {
        match a.kind {
            ValueKind::U16 => m is U16,
            ValueKind::U32 => m is U32,
            ValueKind::Text => false,
        }
    }
}

/// Each value that a reading gives belongs to one of the arguments and fits it.
proof fn lemma_reading_fits(args: Seq<ArgDecl>, tokens: Seq<Seq<char>>)
    ensures
        reading(args, tokens) matches Reading::Given(g) ==> forall|id: Seq<char>|
            #[trigger] g.dom().contains(id) ==> exists|i: int|
                0 <= i < args.len() && args[i].id == id && given_fits(args[i], g[id]),
    decreases tokens.len(),
{
    if tokens.len() > 0 {
        let t = tokens[0];
        if let Some(i) = option_index(args, t) {
            assert(0 <= i < args.len() && names(args[i], t));
            let a = args[i];
            if a.flag {
                lemma_reading_fits(args, tokens.drop_first());
            } else if tokens.len() >= 2 {
                lemma_reading_fits(args, tokens.subrange(2, tokens.len() as int));
            }
        }
    }
}

// ---------------------------------------------------------------------------
// clap, behind trusted items.

/// `Command::new`: a command with no arguments yet.
#[verifier::external_body]
fn command_new(name: &'static str) -> (r: Command)
    ensures
        command_args(r) == Seq::<ArgDecl>::empty(),
{
    Command::new(name)
}

/// `Command::about`: sets the help text's summary; the arguments stay.
#[verifier::external_body]
fn command_about(command: Command, about: &'static str) -> (r: Command)
    ensures
        command_args(r) == command_args(command),
{
    command.about(about)
}

/// `Command::arg`: adds `arg` after the command's arguments.
#[verifier::external_body]
fn command_arg(command: Command, arg: Arg) -> (r: Command)
    ensures
        command_args(r) == command_args(command).push(arg_decl(arg)),
{
    command.arg(arg)
}

/// `Command::after_help`: sets the text shown after the help; the arguments
/// stay.
#[verifier::external_body]
fn command_after_help(command: Command, help: &'static str) -> (r: Command)
    ensures
        command_args(r) == command_args(command),
{
    command.after_help(help)
}

/// `Command::try_get_matches_from`: clap's parse of the command line `argv`,
/// whose first item is the program's name. clap's error is handed on as its
/// rendered text (`Error::render`), `Error::use_stderr` and `Error::exit_code`.
///
/// The command's arguments must be well formed: clap's checks of a command
/// (in debug builds) panic on duplicate ids or names, on a long name that
/// starts with `-`, and on a flag with a value parser of another type.
/// Claimed: the parse succeeds exactly where `clap_matches` holds values, and
/// those are the values handed back; on the forms of [`reading`], each
/// argument holds the value given for it or else its default (clap's
/// `default_value`, and `false` for a `SetTrue` flag), and a value that its
/// parser refuses, a missing value or an unknown option is an error. The text
/// of an error is not stated; an error that clap writes to standard error
/// (every error but a request for help or the version) has the exit code 2,
/// the others 0 (`Error::exit_code`).
#[verifier::external_body]
fn try_get_matches_from(command: Command, argv: Vec<String>) -> (r: Result<ArgMatches, ArgsError>)
    requires
        well_formed_args(command_args(command)),
    ensures
        r is Ok <==> clap_matches(command_args(command), argv_text(argv@)) is Some,
        r matches Ok(m) ==> clap_matches(command_args(command), argv_text(argv@)) == Some(
            matched_values(m),
        ),
        r matches Err(e) ==> e is Usage,
        r matches Err(ArgsError::Usage { use_stderr, exit_code, .. }) ==> exit_code == (if use_stderr {
            2i32
        } else {
            0i32
        }),
        argv@.len() >= 1 ==> match reading(command_args(command), argv_text(argv@).drop_first()) {
            Reading::Given(g) => r matches Ok(m) && agrees(
                matched_values(m),
                command_args(command),
                g,
            ),
            Reading::Refused => r matches Err(ArgsError::Usage { use_stderr: true, .. }),
            Reading::Unread => true,
        },
{
    match command.try_get_matches_from(argv) {
        Ok(matches) => Ok(matches),
        Err(e) => Err(
            ArgsError::Usage {
                message: e.render().to_string(),
                use_stderr: e.use_stderr(),
                exit_code: e.exit_code(),
            },
        ),
    }
}

/// `Arg::new`: an argument with the id `id` and nothing else set.
#[verifier::external_body]
fn arg_new(id: &'static str) -> (r: Arg)
    ensures
        arg_decl(r) == (ArgDecl {
            id: id@,
            long: None,
            short: None,
            default: None,
            kind: ValueKind::Text,
            flag: false,
        }),
{
    Arg::new(id)
}

/// `Arg::long`: sets the long name.
#[verifier::external_body]
fn arg_long(arg: Arg, long: &'static str) -> (r: Arg)
    ensures
        arg_decl(r) == (ArgDecl { long: Some(long@), ..arg_decl(arg) }),
{
    arg.long(long)
}

/// `Arg::short`: sets the short name, which clap asserts is not `-`.
#[verifier::external_body]
fn arg_short(arg: Arg, short: char) -> (r: Arg)
    requires
        short != '-',
    ensures
        arg_decl(r) == (ArgDecl { short: Some(short), ..arg_decl(arg) }),
{
    arg.short(short)
}

/// `Arg::default_value`: sets the default value.
#[verifier::external_body]
fn arg_default_value(arg: Arg, value: &'static str) -> (r: Arg)
    ensures
        arg_decl(r) == (ArgDecl { default: Some(value@), ..arg_decl(arg) }),
{
    arg.default_value(value)
}

/// `Arg::value_parser` with clap's parser for `u16` values.
#[verifier::external_body]
fn arg_value_parser_u16(arg: Arg) -> (r: Arg)
    ensures
        arg_decl(r) == (ArgDecl { kind: ValueKind::U16, ..arg_decl(arg) }),
{
    arg.value_parser(<u16 as ValueParserFactory>::value_parser())
}

/// `Arg::value_parser` with clap's parser for `u32` values.
#[verifier::external_body]
fn arg_value_parser_u32(arg: Arg) -> (r: Arg)
    ensures
        arg_decl(r) == (ArgDecl { kind: ValueKind::U32, ..arg_decl(arg) }),
{
    arg.value_parser(<u32 as ValueParserFactory>::value_parser())
}

/// `Arg::action` with `ArgAction::SetTrue`, which makes the argument a flag.
#[verifier::external_body]
fn arg_action_set_true(arg: Arg) -> (r: Arg)
    ensures
        arg_decl(r) == (ArgDecl { flag: true, ..arg_decl(arg) }),
{
    arg.action(ArgAction::SetTrue)
}

/// `ArgMatches::try_get_one::<u16>`, with the value copied out: the value
/// held for `id` where it is a `u16`; `None` where none is held or it has
/// another type (clap's `MatchesError`).
#[verifier::external_body]
fn try_get_one_u16(matches: &ArgMatches, id: &str) -> (r: Option<u16>)
    ensures
        matched_values(*matches).dom().contains(id@) && matched_values(*matches)[id@] is U16
            ==> r == Some(matched_values(*matches)[id@]->U16_0),
        !(matched_values(*matches).dom().contains(id@) && matched_values(*matches)[id@] is U16)
            ==> r is None,
{
    match matches.try_get_one::<u16>(id) {
        Ok(v) => v.copied(),
        Err(_) => None,
    }
}

/// `ArgMatches::try_get_one::<u32>`, with the value copied out: the value
/// held for `id` where it is a `u32`; `None` where none is held or it has
/// another type (clap's `MatchesError`).
#[verifier::external_body]
fn try_get_one_u32(matches: &ArgMatches, id: &str) -> (r: Option<u32>)
    ensures
        matched_values(*matches).dom().contains(id@) && matched_values(*matches)[id@] is U32
            ==> r == Some(matched_values(*matches)[id@]->U32_0),
        !(matched_values(*matches).dom().contains(id@) && matched_values(*matches)[id@] is U32)
            ==> r is None,
{
    match matches.try_get_one::<u32>(id) {
        Ok(v) => v.copied(),
        Err(_) => None,
    }
}

/// `ArgMatches::try_get_one::<bool>`, with the value copied out: the value
/// held for `id` where it is a `bool`; `None` where none is held or it has
/// another type (clap's `MatchesError`).
#[verifier::external_body]
fn try_get_one_bool(matches: &ArgMatches, id: &str) -> (r: Option<bool>)
    ensures
        matched_values(*matches).dom().contains(id@) && matched_values(*matches)[id@] is Flag
            ==> r == Some(matched_values(*matches)[id@]->Flag_0),
        !(matched_values(*matches).dom().contains(id@) && matched_values(*matches)[id@] is Flag)
            ==> r is None,
{
    match matches.try_get_one::<bool>(id) {
        Ok(v) => v.copied(),
        Err(_) => None,
    }
}

// ---------------------------------------------------------------------------
// The program's command line.

/// The settings from the values that clap read back for `port`, `fps`,
/// `max clients` and `debug`; each must be there.
pub fn args_from_values(
    port: Option<u16>,
    fps: Option<u16>,
    max_clients: Option<u32>,
    debug: Option<bool>,
) -> (r: Result<Args, ArgsError>)
    ensures
        r is Ok <==> (port is Some && fps is Some && max_clients is Some && debug is Some),
        r matches Ok(a) ==> a == (Args {
            port: port->0,
            fps: fps->0,
            max_clients: max_clients->0,
            debug: debug->0,
        }),
        r matches Err(e) ==> e is Unreadable,
{
    match (port, fps, max_clients, debug) {
        (Some(port), Some(fps), Some(max_clients), Some(debug)) => Ok(
            Args { port, fps, max_clients, debug },
        ),
        (None, _, _, _) => Err(ArgsError::Unreadable { id: String::from_str("port") }),
        (_, None, _, _) => Err(ArgsError::Unreadable { id: String::from_str("fps") }),
        (_, _, None, _) => Err(ArgsError::Unreadable { id: String::from_str("max clients") }),
        (_, _, _, None) => Err(ArgsError::Unreadable { id: String::from_str("debug") }),
    }
}

/// The program's arguments: `--port` (default 3000) and `--fps` (default 30),
/// read as `u16`; `--max` (id `max clients`, default 5), read as `u32`; and the
/// flag `--debug` / `-d`.
pub open spec fn webds_args() -> Seq<ArgDecl> {
    seq![
        ArgDecl {
            id: "port"@,
            long: Some("port"@),
            short: None,
            default: Some("3000"@),
            kind: ValueKind::U16,
            flag: false,
        },
        ArgDecl {
            id: "fps"@,
            long: Some("fps"@),
            short: None,
            default: Some("30"@),
            kind: ValueKind::U16,
            flag: false,
        },
        ArgDecl {
            id: "max clients"@,
            long: Some("max"@),
            short: None,
            default: Some("5"@),
            kind: ValueKind::U32,
            flag: false,
        },
        ArgDecl {
            id: "debug"@,
            long: Some("debug"@),
            short: Some('d'),
            default: None,
            kind: ValueKind::Text,
            flag: true,
        },
    ]
}

/// The settings that values held by id make: `None` unless each of `port`,
/// `fps`, `max clients` and `debug` holds a value of its type.
pub open spec fn settings_in(m: Map<Seq<char>, Matched>) -> Option<Args> {
    if m.dom().contains("port"@) && m["port"@] is U16 && m.dom().contains("fps"@) && m["fps"@] is U16
        && m.dom().contains("max clients"@) && m["max clients"@] is U32 && m.dom().contains(
        "debug"@,
    ) && m["debug"@] is Flag {
        Some(
            Args {
                port: m["port"@]->U16_0,
                fps: m["fps"@]->U16_0,
                max_clients: m["max clients"@]->U32_0,
                debug: m["debug"@]->Flag_0,
            },
        )
    } else {
        None
    }
}

/// The settings that a command line asks for when it gives the values `g`
/// by id: each value given, else the default (3000, 30, 5); `debug` is on
/// where the flag is given.
pub open spec fn settings_given(g: Map<Seq<char>, Matched>) -> Args {
    Args {
        port: if g.dom().contains("port"@) {
            g["port"@]->U16_0
        } else {
            3000
        },
        fps: if g.dom().contains("fps"@) {
            g["fps"@]->U16_0
        } else {
            30
        },
        max_clients: if g.dom().contains("max clients"@) {
            g["max clients"@]->U32_0
        } else {
            5
        },
        debug: g.dom().contains("debug"@),
    }
}

/// The program's arguments are well formed, their defaults are 3000, 30, 5
/// and off, and their ids are distinct.
proof fn lemma_webds_args_well_formed()
    ensures
        well_formed_args(webds_args()),
        default_value(webds_args()[0]) == Matched::U16(3000),
        default_value(webds_args()[1]) == Matched::U16(30),
        default_value(webds_args()[2]) == Matched::U32(5),
        default_value(webds_args()[3]) == Matched::Flag(false),
        forall|i: int, j: int|
            0 <= i < webds_args().len() && 0 <= j < webds_args().len() && webds_args()[i].id
                == webds_args()[j].id ==> i == j,
{
    reveal_strlit("port");
    reveal_strlit("fps");
    reveal_strlit("max clients");
    reveal_strlit("max");
    reveal_strlit("debug");
    reveal_strlit("3000");
    reveal_strlit("30");
    reveal_strlit("5");
    reveal_with_fuel(decimal_value, 5);
    let args = webds_args();
    assert(all_digits("3000"@));
    assert(all_digits("30"@));
    assert(all_digits("5"@));
    assert(decimal_value("3000"@) == 3000);
    assert(decimal_value("30"@) == 30);
    assert(decimal_value("5"@) == 5);
    assert(!"port"@.contains('='));
    assert(!"fps"@.contains('='));
    assert(!"max"@.contains('='));
    assert(!"debug"@.contains('='));
    assert(help_name()[0] != "port"@[0] && help_name()[0] != "fps"@[0] && help_name()[0]
        != "max"@[0] && help_name()[0] != "debug"@[0]);
    assert("port"@[0] != "fps"@[0] && "port"@[0] != "max clients"@[0] && "port"@[0] != "debug"@[0]);
    assert("fps"@[0] != "max clients"@[0] && "fps"@[0] != "debug"@[0]);
    assert("max clients"@[0] != "debug"@[0]);
    assert("port"@[0] != "max"@[0] && "fps"@[0] != "max"@[0] && "max"@[0] != "debug"@[0]);
}

/// The clap command that describes the program's command line: the
/// arguments of [`webds_args`], with the program's summary and an example.
fn command() -> (r: Command)
    ensures
        command_args(r) == webds_args(),
{
    let port = arg_value_parser_u16(arg_default_value(arg_long(arg_new("port"), "port"), "3000"));
    let fps = arg_value_parser_u16(arg_default_value(arg_long(arg_new("fps"), "fps"), "30"));
    let max = arg_value_parser_u32(
        arg_default_value(arg_long(arg_new("max clients"), "max"), "5"),
    );
    let debug = arg_action_set_true(arg_short(arg_long(arg_new("debug"), "debug"), 'd'));
    let command = command_about(command_new("webds"), "webds - web desktop share");
    let command = command_arg(command_arg(command_arg(command_arg(command, port), fps), max), debug);
    let r = command_after_help(command, "example: webds --port 4000 --fps 30 --max 50");
    assert(command_args(r) =~= webds_args());
    r
}

/// The decimal digits of `n`, most significant first, with no leading zero.
pub open spec fn decimal_text(n: nat) -> Seq<char>
    decreases n,
{
    if n < 10 {
        seq![(('0' as u32) + n) as char]
    } else {
        decimal_text(n / 10).push((('0' as u32) + n % 10) as char)
    }
}

/// The decimal text of a number is a non-empty run of digits that reads back
/// as the number.
pub proof fn lemma_decimal_text(n: nat)
    ensures
        decimal_text(n).len() > 0,
        all_digits(decimal_text(n)),
        decimal_value(decimal_text(n)) == n,
    decreases n,
{
    let d = n % 10;
    assert(n == (n / 10) * 10 + d && (n < 10 ==> d == n)) by (nonlinear_arith)
        requires
            d == n % 10,
    ;
    assert(((('0' as u32) + d) as char) as u32 == ('0' as u32) + d);
    if n < 10 {
        let t = decimal_text(n);
        assert(t.drop_last() =~= Seq::<char>::empty());
        assert(decimal_value(t.drop_last()) == 0);
        assert(t.last() == (('0' as u32) + d) as char);
        assert(decimal_value(t) == d);
    } else {
        lemma_decimal_text(n / 10);
        let t = decimal_text(n);
        assert(t.drop_last() =~= decimal_text(n / 10));
        assert(t.last() == (('0' as u32) + d) as char);
        assert(decimal_value(t) == decimal_value(decimal_text(n / 10)) * 10 + d);
        assert forall|i: int| 0 <= i < t.len() implies '0' <= #[trigger] t[i] <= '9' by {
            if i < t.len() - 1 {
                assert(t[i] == decimal_text(n / 10)[i]);
            }
        }
    }
}

/// The reading of `--port` followed by a run of digits that writes a `u16`:
/// that port is given, and nothing else.
proof fn lemma_port_line(tokens: Seq<Seq<char>>)
    requires
        tokens.len() == 2,
        tokens[0] == "--port"@,
        tokens[1].len() > 0,
        all_digits(tokens[1]),
        decimal_value(tokens[1]) <= u16::MAX,
    ensures
        reading(webds_args(), tokens) == Reading::Given(
            Map::<Seq<char>, Matched>::empty().insert(
                "port"@,
                Matched::U16(decimal_value(tokens[1]) as u16),
            ),
        ),
{
    reveal_strlit("--port");
    reveal_strlit("port");
    reveal_strlit("fps");
    reveal_strlit("max");
    reveal_strlit("debug");
    let args = webds_args();
    let t = tokens[0];
    assert(t =~= long_form("port"@));
    assert(names(args[0], t));
    assert(!names(args[1], t)) by {
        assert(long_form("fps"@).len() != t.len());
    }
    assert(!names(args[2], t)) by {
        assert(long_form("max"@).len() != t.len());
    }
    assert(!names(args[3], t)) by {
        assert(long_form("debug"@)[2] != t[2]);
        assert(seq!['-', 'd'].len() != t.len());
    }
    assert(option_index(args, t) == Some(0int));
    let v = tokens[1];
    assert('0' <= v[0] <= '9');
    assert(int_text_value(v) == Some(decimal_value(v) as int));
    assert(kind_value(ValueKind::U16, v) == Some(Matched::U16(decimal_value(v) as u16)));
    let rest = tokens.subrange(2, 2);
    assert(rest =~= Seq::<Seq<char>>::empty());
    assert(reading(args, rest) == Reading::Given(Map::<Seq<char>, Matched>::empty()));
    assert(!args[0].flag && args[0].id == "port"@ && args[0].kind == ValueKind::U16);
    assert(!(v.len() > 0 && v[0] == '-'));
    assert(reading(args, tokens) == given_before(
        "port"@,
        Matched::U16(decimal_value(v) as u16),
        reading(args, rest),
    ));
}

/// The settings that the command line `argv` (the program's name first) asks
/// for. clap decides: where it refuses the line, or help is asked for, its
/// text comes back as a usage error (for standard error with the exit code
/// 2, or, for help, for standard output with 0); otherwise the values it holds make the
/// settings. On the documented forms, each option takes the value given for
/// it or else its default, `--debug` or `-d` turns debugging on, and a value
/// out of its type's range, a missing value or an unknown option is a usage
/// error.
pub fn get_args(argv: Vec<String>) -> (r: Result<Args, ArgsError>)
    ensures
        (r matches Err(ArgsError::Usage { .. })) <==> clap_matches(
            webds_args(),
            argv_text(argv@),
        ) is None,
        clap_matches(webds_args(), argv_text(argv@)) matches Some(m) ==> match settings_in(m) {
            Some(a) => r matches Ok(b) && b == a,
            None => r matches Err(ArgsError::Unreadable { .. }),
        },
        argv@.len() >= 1 ==> match reading(webds_args(), argv_text(argv@).drop_first()) {
            Reading::Given(g) => r matches Ok(b) && b == settings_given(g),
            Reading::Refused => r matches Err(ArgsError::Usage { use_stderr: true, exit_code: 2, .. }),
            Reading::Unread => true,
        },
        r matches Err(ArgsError::Usage { use_stderr, exit_code, .. }) ==> exit_code == (if use_stderr {
            2i32
        } else {
            0i32
        }),
        match clap_matches(webds_args(), argv_text(argv@)) {
            Some(m) => m.dom().contains("port"@) && m["port"@] is U16 && m.dom().contains("fps"@)
                && m["fps"@] is U16 && m.dom().contains("max clients"@) && m["max clients"@] is U32
                && m.dom().contains("debug"@) && m["debug"@] is Flag ==> (r matches Ok(a)
                && Matched::U16(a.port) == m["port"@] && Matched::U16(a.fps) == m["fps"@]
                && Matched::U32(a.max_clients) == m["max clients"@] && Matched::Flag(a.debug)
                == m["debug"@]),
            None => true,
        },
        argv@.len() == 3 && argv@[1]@ == "--port"@ && argv@[2]@.len() > 0 && all_digits(argv@[2]@)
            && decimal_value(argv@[2]@) <= u16::MAX ==> (r matches Ok(a) && a.port == decimal_value(
            argv@[2]@,
        ) && a.fps == 30 && a.max_clients == 5 && !a.debug),
{
    let ghost text = argv_text(argv@);
    let ghost argc = argv@.len();
    let command = command();
    proof {
        lemma_webds_args_well_formed();
        lemma_reading_fits(webds_args(), text.drop_first());
        if argv@.len() == 3 && argv@[1]@ == "--port"@ && argv@[2]@.len() > 0 && all_digits(argv@[2]@)
            && decimal_value(argv@[2]@) <= u16::MAX {
            assert(text.drop_first()[0] == argv@[1]@);
            assert(text.drop_first()[1] == argv@[2]@);
            lemma_port_line(text.drop_first());
            reveal_strlit("port");
            reveal_strlit("fps");
            reveal_strlit("max clients");
            reveal_strlit("debug");
        }
    }
    match try_get_matches_from(command, argv) {
        Ok(matches) => {
            let port = try_get_one_u16(&matches, "port");
            let fps = try_get_one_u16(&matches, "fps");
            let max_clients = try_get_one_u32(&matches, "max clients");
            let debug = try_get_one_bool(&matches, "debug");
            let r = args_from_values(port, fps, max_clients, debug);
            proof {
                let values = matched_values(matches);
                if argc >= 1 {
                    if let Reading::Given(g) = reading(webds_args(), text.drop_first()) {
                        let args = webds_args();
                        assert(agrees(values, args, g));
                        assert(args[0].id == "port"@);
                        assert(args[1].id == "fps"@);
                        assert(args[2].id == "max clients"@);
                        assert(args[3].id == "debug"@);
                        assert(values.dom().contains(args[0].id));
                        assert(values.dom().contains(args[1].id));
                        assert(values.dom().contains(args[2].id));
                        assert(values.dom().contains(args[3].id));
                        if g.dom().contains("port"@) {
                            let i = choose|i: int|
                                0 <= i < args.len() && args[i].id == "port"@ && given_fits(
                                    args[i],
                                    g["port"@],
                                );
                            assert(i == 0);
                        }
                        if g.dom().contains("fps"@) {
                            let i = choose|i: int|
                                0 <= i < args.len() && args[i].id == "fps"@ && given_fits(
                                    args[i],
                                    g["fps"@],
                                );
                            assert(i == 1);
                        }
                        if g.dom().contains("max clients"@) {
                            let i = choose|i: int|
                                0 <= i < args.len() && args[i].id == "max clients"@ && given_fits(
                                    args[i],
                                    g["max clients"@],
                                );
                            assert(i == 2);
                        }
                        if g.dom().contains("debug"@) {
                            let i = choose|i: int|
                                0 <= i < args.len() && args[i].id == "debug"@ && given_fits(
                                    args[i],
                                    g["debug"@],
                                );
                            assert(i == 3);
                        }
                        assert(settings_in(values) == Some(settings_given(g)));
                    }
                }
            }
            r
        },
        Err(e) => Err(e),
    }
}

} // verus!
