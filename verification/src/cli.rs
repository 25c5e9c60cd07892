//! A command line tool: what every such tool offers, what it does unless it
//! says otherwise, and the lines that it reports.

use std::path::PathBuf;
use vstd::prelude::*;

verus! {

/// The error of a formatter. Nothing in this library looks inside one.
#[verifier::external_type_specification]
#[verifier::external_body]
pub struct ExFmtError(std::fmt::Error);

/// The error of a JSON writer. Nothing in this library looks inside one.
#[verifier::external_type_specification]
#[verifier::external_body]
pub struct ExJsonError(serde_json::Error);

/// What the tool says when it starts to run.
pub const RUN_BANNER: &'static str = "Running CLI application (default)...";

/// What the tool says when it reads its arguments.
pub const PARSE_BANNER: &'static str = "Parsing command-line arguments (default)...";

/// How the tool is used.
pub const USAGE: &'static str = "Usage: vlmcli [options] <command>";

/// What the tool says when JSON output is off.
pub const JSON_DISABLED: &'static str = "JSON mode: disabled (default)";

/// A line that the tool reports, and where it goes.
pub enum Report {
    /// A line for the standard output.
    Stdout(String),
    /// A line for the standard error.
    Stderr(String),
}

/// The pretty-printed text of the JSON object that has two members with
/// text as their values.
pub uninterp spec fn pretty_json(
    first_key: Seq<char>,
    first_value: Seq<char>,
    second_key: Seq<char>,
    second_value: Seq<char>,
) -> Seq<char>;

/// The digit `d` as a character.
pub open spec fn digit(d: nat) -> char
    recommends
        d < 10,
{
    if d == 0 {
        '0'
    } else if d == 1 {
        '1'
    } else if d == 2 {
        '2'
    } else if d == 3 {
        '3'
    } else if d == 4 {
        '4'
    } else if d == 5 {
        '5'
    } else if d == 6 {
        '6'
    } else if d == 7 {
        '7'
    } else if d == 8 {
        '8'
    } else {
        '9'
    }
}

/// A number in decimal digits, without leading zeros.
pub open spec fn decimal(n: nat) -> Seq<char>
    decreases n,
{
    if n < 10 {
        seq![digit(n)]
    } else {
        decimal(n / 10).push(digit(n % 10))
    }
}

/// What the tool says of a pattern.
pub open spec fn pattern_report(pattern: Seq<char>) -> Seq<char> {
    "Applying pattern (default): "@ + pattern
}

/// What the tool says of a count.
pub open spec fn count_report(count: nat) -> Seq<char> {
    "Processing "@ + decimal(count) + " items (default)"@
}

/// What the tool says of a file whose path is written as `file`.
pub open spec fn file_report(file: Seq<char>) -> Seq<char> {
    "Processing file (default): "@ + file
}

/// What the tool says of a path that is written as `path`.
pub open spec fn path_report(path: Seq<char>) -> Seq<char> {
    "Processing path (default): "@ + path
}

/// What the tool says of JSON text that was written.
pub open spec fn json_written(text: Seq<char>) -> Seq<char> {
    "JSON output (default):\n"@ + text
}

/// What the tool says of JSON text that could not be written.
pub open spec fn json_failed(reason: Seq<char>) -> Seq<char> {
    "JSON serialization error: "@ + reason
}

/// Calls `serde_json::to_string_pretty` on the JSON object that has the two
/// members given, each with text as its value. The call succeeds: the
/// writer fails only where its output does, where a key is no text, or where
/// a value refuses to be written, and here the output is a vector, the
/// keys are text and the values are text. Its result is named, not stated.
#[verifier::external_body]
fn pretty_pair(first: (&str, &str), second: (&str, &str)) -> (outcome: Result<
    String,
    serde_json::Error,
>)
    ensures
        outcome.is_ok(),
        outcome matches Ok(text) ==> text@ == pretty_json(
            first.0@,
            first.1@,
            second.0@,
            second.1@,
        ),
{
    let mut object = serde_json::Map::new();
    object.insert(first.0.to_string(), serde_json::Value::String(first.1.to_string()));
    object.insert(second.0.to_string(), serde_json::Value::String(second.1.to_string()));
    serde_json::to_string_pretty(&serde_json::Value::Object(object))
}

/// Calls `to_string` on an error of `serde_json`, that is its `Display`
/// impl. Nothing is claimed of the text.
#[verifier::external_body]
fn json_error_text(error: &serde_json::Error) -> String {
    error.to_string()
}

/// Calls `format!` with `{:?}` on a path, that is its `Debug` impl.
/// Nothing is claimed of the text.
#[verifier::external_body]
fn path_text(path: &PathBuf) -> String {
    format!("{:?}", path)
}

/// The digit `d` as a character.
fn digit_of(d: usize) -> (c: char)
    requires
        d < 10,
    ensures
        c == digit(d as nat),
{
    if d == 0 {
        '0'
    } else if d == 1 {
        '1'
    } else if d == 2 {
        '2'
    } else if d == 3 {
        '3'
    } else if d == 4 {
        '4'
    } else if d == 5 {
        '5'
    } else if d == 6 {
        '6'
    } else if d == 7 {
        '7'
    } else if d == 8 {
        '8'
    } else {
        '9'
    }
}

/// Writes a number in decimal digits.
pub fn decimal_text(n: usize) -> (text: String)
    ensures
        text@ == decimal(n as nat),
    decreases n,
{
    if n < 10 {
        let mut text = String::new();
        text.push(digit_of(n));
        text
    } else {
        let mut text = decimal_text(n / 10);
        text.push(digit_of(n % 10));
        text
    }
}

/// The line that the tool reports of a pattern.
pub fn pattern_line(pattern: &str) -> (line: String)
    ensures
        line@ == pattern_report(pattern@),
{
    let mut line = String::from_str("Applying pattern (default): ");
    line.append(pattern);
    line
}

/// The line that the tool reports of a count.
pub fn count_line(count: usize) -> (line: String)
    ensures
        line@ == count_report(count as nat),
{
    let mut line = String::from_str("Processing ");
    line.append(decimal_text(count).as_str());
    line.append(" items (default)");
    line
}

/// The line that the tool reports of a file whose path is written as
/// `written`.
pub fn file_line_of(written: &str) -> (line: String)
    ensures
        line@ == file_report(written@),
{
    let mut line = String::from_str("Processing file (default): ");
    line.append(written);
    line
}

/// The line that the tool reports of a path that is written as `written`.
pub fn path_line_of(written: &str) -> (line: String)
    ensures
        line@ == path_report(written@),
{
    let mut line = String::from_str("Processing path (default): ");
    line.append(written);
    line
}

/// The line that the tool reports of a file: its path follows the words,
/// written as the path's `Debug` impl writes it.
pub fn file_line(file: &PathBuf) -> (line: String)
    ensures
        exists|written: Seq<char>| line@ == file_report(written),
{
    let written = path_text(file);
    let line = file_line_of(written.as_str());
    line
}

/// The line that the tool reports of a path, which follows the words,
/// written as the path's `Debug` impl writes it.
pub fn path_line(path: &PathBuf) -> (line: String)
    ensures
        exists|written: Seq<char>| line@ == path_report(written),
{
    let written = path_text(path);
    let line = path_line_of(written.as_str());
    line
}

/// The line that tells how an attempt to write JSON text ended: the text
/// for the standard output, or the reason of the failure for the standard
/// error.
pub fn json_outcome_line(outcome: Result<String, String>) -> (report: Report)
    ensures
        outcome matches Ok(text) ==> (report matches Report::Stdout(line) && line@
            == json_written(text@)),
        outcome matches Err(reason) ==> (report matches Report::Stderr(line) && line@
            == json_failed(reason@)),
{
    match outcome {
        Ok(text) => {
            let mut line = String::from_str("JSON output (default):\n");
            line.append(text.as_str());
            Report::Stdout(line)
        },
        Err(reason) => {
            let mut line = String::from_str("JSON serialization error: ");
            line.append(reason.as_str());
            Report::Stderr(line)
        },
    }
}

/// What the tool reports when JSON output is turned on or off: that it is
/// off, or the status of the tool as pretty-printed JSON. Either is a line
/// for the standard output.
pub fn json_report(json: bool) -> (report: Report)
    ensures
        !json ==> (report matches Report::Stdout(line) && line@ == JSON_DISABLED@),
        json ==> (report matches Report::Stdout(line) && line@ == json_written(
            pretty_json("status"@, "active"@, "mode"@, "json"@),
        )),
{
    if json {
        match pretty_pair(("status", "active"), ("mode", "json")) {
            Ok(text) => json_outcome_line(Ok(text)),
            Err(error) => json_outcome_line(Err(json_error_text(&error))),
        }
    } else {
        Report::Stdout(String::from_str(JSON_DISABLED))
    }
}

/// What a command line tool offers.
pub trait VLMCli {
    /// Runs the tool.
    fn run(&self) -> Result<(), std::fmt::Error>;

    /// Reads the arguments of the command line.
    fn parse_args(&self) -> Result<(), std::fmt::Error>;

    /// Shows how the tool is used.
    fn help(&self);

    /// A tool for a pattern.
    fn pattern(pattern: String) -> Self where Self: Sized;

    /// A tool for a file.
    fn file(file: PathBuf) -> Self where Self: Sized;

    /// Sets how many items are worked on.
    fn count(&self, count: usize);

    /// Works on a path.
    fn path(&self, path: PathBuf);

    /// Turns JSON output on or off.
    fn json(&self, json: bool);
}

/// What a command line tool does unless it says otherwise: every step
/// succeeds, and every tool made is the default one. A tool that says
/// otherwise is bound by none of this.
pub trait DefaultVLMCli: Default {
    /// Reads the arguments and succeeds where that did.
    fn run_default(&self) -> (outcome: Result<(), std::fmt::Error>)
        default_ensures
            call_ensures(Self::parse_args_default, (self,), outcome),
    {
        self.parse_args_default()
    }

    /// Reads no argument and succeeds.
    fn parse_args_default(&self) -> (outcome: Result<(), std::fmt::Error>)
        default_ensures
            outcome.is_ok(),
    {
        Ok(())
    }

    /// Shows how the tool is used; the text is [`USAGE`].
    fn help_default(&self) {
    }

    /// The default tool, whatever the pattern.
    fn pattern_default(pattern: String) -> (tool: Self) where Self: Sized
        default_ensures
            call_ensures(Self::default, (), tool),
    {
        Self::default()
    }

    /// The default tool, whatever the file.
    fn file_default(file: PathBuf) -> (tool: Self) where Self: Sized
        default_ensures
            call_ensures(Self::default, (), tool),
    {
        Self::default()
    }

    /// The default tool, whatever the count.
    fn count_default(&self, count: usize) -> (tool: Self)
        default_ensures
            call_ensures(Self::default, (), tool),
    {
        Self::default()
    }

    /// The default tool, whatever the path.
    fn path_default(&self, path: PathBuf) -> (tool: Self)
        default_ensures
            call_ensures(Self::default, (), tool),
    {
        Self::default()
    }

    /// The default tool, whether JSON output is on or off.
    fn json_default(&self, json: bool) -> (tool: Self)
        default_ensures
            call_ensures(Self::default, (), tool),
    {
        Self::default()
    }
}

impl<T: DefaultVLMCli> VLMCli for T {
    /// Runs the tool as `run_default` does.
    fn run(&self) -> (outcome: Result<(), std::fmt::Error>)
        ensures
            call_ensures(T::run_default, (self,), outcome),
    {
        self.run_default()
    }

    /// Reads the arguments as `parse_args_default` does.
    fn parse_args(&self) -> (outcome: Result<(), std::fmt::Error>)
        ensures
            call_ensures(T::parse_args_default, (self,), outcome),
    {
        self.parse_args_default()
    }

    fn help(&self) {
        self.help_default()
    }

    /// The tool that `pattern_default` makes for the pattern.
    fn pattern(pattern: String) -> (tool: Self) where Self: Sized
        ensures
            call_ensures(T::pattern_default, (pattern,), tool),
    {
        Self::pattern_default(pattern)
    }

    /// The tool that `file_default` makes for the file.
    fn file(file: PathBuf) -> (tool: Self) where Self: Sized
        ensures
            call_ensures(T::file_default, (file,), tool),
    {
        Self::file_default(file)
    }

    fn count(&self, count: usize) {
        let _ = Self::default().count_default(count);
    }

    fn path(&self, path: PathBuf) {
        let _ = Self::default().path_default(path);
    }

    fn json(&self, json: bool) {
        let _ = Self::default().json_default(json);
    }
}

/// The command line tool of this library. It does what every tool does.
pub struct Vlmcli;

impl Default for Vlmcli {
    fn default() -> (tool: Self)
        ensures
            tool == Vlmcli,
    {
        Vlmcli
    }
}

impl DefaultVLMCli for Vlmcli {

}

impl crate::tasks::DefaultVLMTaskExecutor for Vlmcli {

}

impl crate::tasks::DefaultVLMGenericTaskExecutor for Vlmcli {

}

} // verus!
