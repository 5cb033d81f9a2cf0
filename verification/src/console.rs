use vstd::prelude::*;
use crate::text::{c_string, NulError};
use vstd::string::*;
use crate::hooks::MemoryWrite;

verus! {

/// Category under which a console command is listed by the client.
#[derive(Clone, Copy, Debug, PartialEq, Eq)]
pub enum CommandCategory {
    Debug,
    Graphics,
    Console,
    Combat,
    Game,
    Default,
    Net,
    Sound,
    GM,
}

/// The numeric value the client uses for a command category.
pub open spec fn category_code(category: CommandCategory) -> u32 {
    match category {
        CommandCategory::Debug => 0x0,
        CommandCategory::Graphics => 0x1,
        CommandCategory::Console => 0x2,
        CommandCategory::Combat => 0x3,
        CommandCategory::Game => 0x4,
        CommandCategory::Default => 0x5,
        CommandCategory::Net => 0x6,
        CommandCategory::Sound => 0x7,
        CommandCategory::GM => 0x8,
    }
}

impl CommandCategory {
    /// The value passed to the client's command registration routine.
    pub fn code(&self) -> (res: u32)
        ensures
            res == category_code(*self),
    {
        match self {
            CommandCategory::Debug => 0x0,
            CommandCategory::Graphics => 0x1,
            CommandCategory::Console => 0x2,
            CommandCategory::Combat => 0x3,
            CommandCategory::Game => 0x4,
            CommandCategory::Default => 0x5,
            CommandCategory::Net => 0x6,
            CommandCategory::Sound => 0x7,
            CommandCategory::GM => 0x8,
        }
    }
}

/// Colour in which the client prints a console line.
#[derive(Clone, Copy, Debug, PartialEq, Eq)]
pub enum ConsoleColor {
    Default,
    Input,
    Echo,
    Error,
    Warning,
    Global,
    Admin,
    Highlight,
    Background,
}

/// The numeric value the client uses for a console colour.
pub open spec fn color_code(color: ConsoleColor) -> u32 {
    match color {
        ConsoleColor::Default => 0x0,
        ConsoleColor::Input => 0x1,
        ConsoleColor::Echo => 0x2,
        ConsoleColor::Error => 0x3,
        ConsoleColor::Warning => 0x4,
        ConsoleColor::Global => 0x5,
        ConsoleColor::Admin => 0x6,
        ConsoleColor::Highlight => 0x7,
        ConsoleColor::Background => 0x8,
    }
}

impl ConsoleColor {
    /// The value passed to the client's console routines.
    pub fn code(&self) -> (res: u32)
        ensures
            res == color_code(*self),
    {
        match self {
            ConsoleColor::Default => 0x0,
            ConsoleColor::Input => 0x1,
            ConsoleColor::Echo => 0x2,
            ConsoleColor::Error => 0x3,
            ConsoleColor::Warning => 0x4,
            ConsoleColor::Global => 0x5,
            ConsoleColor::Admin => 0x6,
            ConsoleColor::Highlight => 0x7,
            ConsoleColor::Background => 0x8,
        }
    }
}

/// Severity of a log record, most severe first.
#[derive(Clone, Copy, Debug, PartialEq, Eq)]
pub enum Level {
    Error,
    Warn,
    Info,
    Debug,
    Trace,
}

/// The most verbose severity a logger lets through, or `Off`.
#[derive(Clone, Copy, Debug, PartialEq, Eq)]
pub enum LevelFilter {
    Off,
    Error,
    Warn,
    Info,
    Debug,
    Trace,
}

/// Verbosity rank of a severity: the least verbose (`Error`) is 1.
pub open spec fn level_rank(level: Level) -> int {
    match level {
        Level::Error => 1,
        Level::Warn => 2,
        Level::Info => 3,
        Level::Debug => 4,
        Level::Trace => 5,
    }
}

/// Verbosity rank of a filter: `Off` is 0, so it lets nothing through.
pub open spec fn filter_rank(filter: LevelFilter) -> int {
    match filter {
        LevelFilter::Off => 0,
        LevelFilter::Error => 1,
        LevelFilter::Warn => 2,
        LevelFilter::Info => 3,
        LevelFilter::Debug => 4,
        LevelFilter::Trace => 5,
    }
}

fn level_rank_exec(level: Level) -> (res: u8)
    ensures
        res == level_rank(level),
{
    match level {
        Level::Error => 1,
        Level::Warn => 2,
        Level::Info => 3,
        Level::Debug => 4,
        Level::Trace => 5,
    }
}

fn filter_rank_exec(filter: LevelFilter) -> (res: u8)
    ensures
        res == filter_rank(filter),
{
    match filter {
        LevelFilter::Off => 0,
        LevelFilter::Error => 1,
        LevelFilter::Warn => 2,
        LevelFilter::Info => 3,
        LevelFilter::Debug => 4,
        LevelFilter::Trace => 5,
    }
}

/// Console colour for a log record of the given severity.
pub open spec fn level_color(level: Level) -> ConsoleColor {
    match level {
        Level::Info => ConsoleColor::Admin,
        Level::Warn => ConsoleColor::Warning,
        Level::Error => ConsoleColor::Error,
        _ => ConsoleColor::Default,
    }
}

/// A logger that prints records on the game console.
#[derive(Clone, Copy, Debug)]
pub struct ConsoleLogger {
    pub level: LevelFilter,
}

impl ConsoleLogger {
    pub fn new(level: LevelFilter) -> (res: Self)
        ensures
            res.level == level,
    {
        ConsoleLogger { level }
    }

    /// The filter the logger was made with.
    pub fn level(&self) -> (res: LevelFilter)
        ensures
            res == self.level,
    {
        self.level
    }

    /// Whether a record of the given severity is printed.
    pub fn enabled(&self, level: Level) -> (res: bool)
        ensures
            res == (level_rank(level) <= filter_rank(self.level)),
    {
        level_rank_exec(level) <= filter_rank_exec(self.level)
    }

    /// Colour in which a record of the given severity is printed.
    pub fn color_for(level: Level) -> (res: ConsoleColor)
        ensures
            res == level_color(level),
    {
        match level {
            Level::Info => ConsoleColor::Admin,
            Level::Warn => ConsoleColor::Warning,
            Level::Error => ConsoleColor::Error,
            _ => ConsoleColor::Default,
        }
    }

    /// How a record of the given severity is printed: in which colour, or
    /// not at all when the logger's filter holds it back.
    pub fn log(&self, level: Level) -> (res: Option<ConsoleColor>)
        ensures
            res == if level_rank(level) <= filter_rank(self.level) {
                Some(level_color(level))
            } else {
                None
            },
    {
        if self.enabled(level) {
            Some(Self::color_for(level))
        } else {
            None
        }
    }
}

/// A line for the client's console: NUL-terminated text and colour code.
#[derive(Clone, Debug)]
pub struct ConsoleLine {
    pub text: Vec<u8>,
    pub color: u32,
}

/// Prepares `text` for the client's console-write routine.
pub fn console_write(text: &str, color: ConsoleColor) -> (res: Result<ConsoleLine, NulError>)
    ensures
        match res {
            Ok(line) => {
                &&& !text.spec_bytes().contains(0u8)
                &&& line.text@ == text.spec_bytes().push(0u8)
                &&& line.color == color_code(color)
            },
            Err(e) => {
                &&& text.spec_bytes().contains(0u8)
                &&& e.position < text.spec_bytes().len()
                &&& text.spec_bytes()[e.position as int] == 0u8
            },
        },
{
    match c_string(text) {
        Ok(bytes) => Ok(ConsoleLine { text: bytes, color: color.code() }),
        Err(e) => Err(e),
    }
}

/// Arguments of the client's command-registration routine, apart from the
/// handler: NUL-terminated name, category code, optional NUL-terminated help.
#[derive(Clone, Debug)]
pub struct CommandRequest {
    pub name: Vec<u8>,
    pub category: u32,
    pub help: Option<Vec<u8>>,
}

/// `bytes` is `text` as a C string.
pub open spec fn is_c_string_of(bytes: Seq<u8>, text: &str) -> bool {
    !text.spec_bytes().contains(0u8) && bytes == text.spec_bytes().push(0u8)
}

/// Prepares the registration of console command `cmd`.
pub fn register_command(cmd: &str, category: CommandCategory, help: Option<&str>) -> (res: Result<
    CommandRequest,
    NulError,
>)
    ensures
        res is Ok <==> (!cmd.spec_bytes().contains(0u8) && match help {
            Some(h) => !h.spec_bytes().contains(0u8),
            None => true,
        }),
        res matches Ok(req) ==> {
            &&& is_c_string_of(req.name@, cmd)
            &&& req.category == category_code(category)
            &&& match (req.help, help) {
                (Some(b), Some(h)) => is_c_string_of(b@, h),
                (None, None) => true,
                _ => false,
            }
        },
{
    let name = c_string(cmd)?;
    let help_bytes = match help {
        Some(h) => Some(c_string(h)?),
        None => None,
    };
    Ok(CommandRequest { name, category: category.code(), help: help_bytes })
}

/// Prepares the registration of console command `cmd` with help text
/// `help`, for the client that always takes a help text.
pub fn console_command_register(cmd: &str, category: CommandCategory, help: &str) -> (res: Result<
    CommandRequest,
    NulError,
>)
    ensures
        res is Ok <==> (!cmd.spec_bytes().contains(0u8) && !help.spec_bytes().contains(0u8)),
        res matches Ok(req) ==> {
            &&& is_c_string_of(req.name@, cmd)
            &&& req.category == category_code(category)
            &&& req.help matches Some(b) && is_c_string_of(b@, help)
        },
{
    register_command(cmd, category, Some(help))
}

/// Address of the client's flag that enables its console.
pub const CONSOLE_ENABLED: u32 = 0x00C4EC20;

/// The colour value the extension gives the `Admin` console colour.
pub const ADMIN_COLOR_VALUE: u32 = 0xFF00CCFF;

/// What setting up the console does: enable the client's console and set
/// the colour of one console colour.
#[derive(Clone, Debug)]
pub struct ConsoleSetup {
    pub enable: MemoryWrite,
    pub color: ConsoleColor,
    pub color_value: u32,
}

/// Setting up the console: enable it, and show `Admin` lines in the
/// extension's colour.
pub fn init() -> (res: ConsoleSetup)
    ensures
        res.enable == (MemoryWrite::Word { address: CONSOLE_ENABLED, value: 1 }),
        res.color == ConsoleColor::Admin,
        res.color_value == ADMIN_COLOR_VALUE,
{
    ConsoleSetup {
        enable: MemoryWrite::Word { address: CONSOLE_ENABLED, value: 1 },
        color: ConsoleColor::Admin,
        color_value: ADMIN_COLOR_VALUE,
    }
}

/// A logger lets a record through exactly when the record is at most as
/// verbose as its filter: `Off` lets nothing through, each named filter
/// lets its own severity and every less verbose one through, and nothing
/// more verbose.
pub proof fn lemma_filter_lets_through(level: Level, filter: LevelFilter)
    ensures
        (level_rank(level) <= filter_rank(filter)) == match filter {
            LevelFilter::Off => false,
            LevelFilter::Error => level == Level::Error,
            LevelFilter::Warn => level == Level::Error || level == Level::Warn,
            LevelFilter::Info => level == Level::Error || level == Level::Warn || level == Level::Info,
            LevelFilter::Debug => level != Level::Trace,
            LevelFilter::Trace => true,
        },
{
}

/// Records are printed in the colour of their severity: errors as errors,
/// warnings as warnings, information in the admin colour, and debugging and
/// tracing records in the default colour.
pub proof fn lemma_level_colors(level: Level)
    ensures
        level_color(level) == match level {
            Level::Error => ConsoleColor::Error,
            Level::Warn => ConsoleColor::Warning,
            Level::Info => ConsoleColor::Admin,
            Level::Debug => ConsoleColor::Default,
            Level::Trace => ConsoleColor::Default,
        },
{
}

/// Different categories, and different colours, have different numbers in
/// the client, all below 9.
pub proof fn lemma_codes_distinct(a: CommandCategory, b: CommandCategory, c: ConsoleColor, d: ConsoleColor)
    ensures
        a != b ==> category_code(a) != category_code(b),
        c != d ==> color_code(c) != color_code(d),
        category_code(a) < 9,
        color_code(c) < 9,
{
}

} // verus!
