//! The notice shown when the registry lists another release.
//!
//! The text is fixed but for the three strings it quotes: the package name,
//! the running version and the version that the registry lists. Each quoted
//! string is set apart by terminal colours.

use ansi_term::Colour;
use vstd::prelude::*;
use vstd::string::*;

verus! {

/// The site that a notice sends the reader to.
pub const REGISTRY_URL: &'static str = "https://crates.io";

/// How many box-drawing characters make up one horizontal rule.
pub const RULE_WIDTH: usize = 60;

/// The ways in which the notice sets a piece of text apart.
#[derive(Clone, Copy, Debug)]
pub enum Emphasis {
    BoldGreen,
    BoldRed,
    BoldBlue,
    Yellow,
}

/// The escape sequence that switches an emphasis on.
pub open spec fn escape_start(emphasis: Emphasis) -> Seq<char> {
    match emphasis {
        Emphasis::BoldGreen => "\x1b[1;32m"@,
        Emphasis::BoldRed => "\x1b[1;31m"@,
        Emphasis::BoldBlue => "\x1b[1;34m"@,
        Emphasis::Yellow => "\x1b[33m"@,
    }
}

/// The escape sequence that switches every emphasis off.
pub open spec fn escape_reset() -> Seq<char> {
    "\x1b[0m"@
}

/// `text` between the escape sequences of `emphasis`.
pub open spec fn painted(emphasis: Emphasis, text: Seq<char>) -> Seq<char> {
    escape_start(emphasis) + text + escape_reset()
}

/// One horizontal rule: `RULE_WIDTH` box-drawing characters, whatever the
/// package is called.
pub open spec fn rule_text() -> Seq<char> {
    Seq::new(RULE_WIDTH as nat, |i: int| '─')
}

/// A rule on a line of its own, with a line break before it.
pub open spec fn border_text() -> Seq<char> {
    "\n"@ + rule_text() + "\n"@
}

/// The first line: which package, and from which version to which.
pub open spec fn headline_text(name: Seq<char>, current: Seq<char>, latest: Seq<char>) -> Seq<
    char,
> {
    "A new version of "@ + painted(Emphasis::BoldGreen, name) + " is available! "@ + painted(
        Emphasis::BoldRed,
        current,
    ) + " → "@ + painted(Emphasis::BoldGreen, latest)
}

/// The command that installs a package.
pub open spec fn install_hint_text(name: Seq<char>) -> Seq<char> {
    "cargo install "@ + name
}

/// The second line: how to install the listed version.
pub open spec fn install_line_text(name: Seq<char>, latest: Seq<char>) -> Seq<char> {
    "Use `"@ + painted(Emphasis::BoldBlue, install_hint_text(name)) + "` to install version "@
        + painted(Emphasis::BoldGreen, latest)
}

/// The page of a package on the registry's site.
pub open spec fn details_url_text(name: Seq<char>) -> Seq<char> {
    REGISTRY_URL@ + "/crates/"@ + name
}

/// The third line: where to read more.
pub open spec fn details_line_text(name: Seq<char>) -> Seq<char> {
    "Check "@ + painted(Emphasis::Yellow, details_url_text(name)) + " for more details"@
}

/// What separates the parts of a notice: a line break and the indentation
/// of the line that follows.
pub open spec fn indent_text() -> Seq<char> {
    "\n    "@
}

/// The whole notice: a border, the three lines, each indented, an indented
/// empty line, and the border again.
pub open spec fn notice_text(name: Seq<char>, current: Seq<char>, latest: Seq<char>) -> Seq<char> {
    border_text() + indent_text() + headline_text(name, current, latest) + indent_text()
        + install_line_text(name, latest) + indent_text() + details_line_text(name) + indent_text()
        + border_text()
}

/// Calls `ansi_term`: builds the style for `emphasis` with `Colour::bold` or
/// `Colour::normal`, paints `text` with `Style::paint` and renders the
/// painted string through its `Display` impl.
///
/// Trusted: the rendering is the style's prefix, the text unchanged and the
/// reset sequence. The prefix of a style with a foreground colour is ESC `[`,
/// then `1;` if it is bold, then the colour's number (31 red, 32 green,
/// 33 yellow, 34 blue) and `m`; the reset sequence is ESC `[0m`.
#[verifier::external_body]
fn paint(emphasis: Emphasis, text: &str) -> (rendered: String)
    ensures
        rendered@ == painted(emphasis, text@),
{
    let style = match emphasis {
        Emphasis::BoldGreen => Colour::Green.bold(),
        Emphasis::BoldRed => Colour::Red.bold(),
        Emphasis::BoldBlue => Colour::Blue.bold(),
        Emphasis::Yellow => Colour::Yellow.normal(),
    };
    style.paint(text).to_string()
}

/// Draws one horizontal rule.
pub fn horizontal_rule() -> (rule: String)
    ensures
        rule@ == rule_text(),
{
    let mut rule = String::new();
    let mut drawn: usize = 0;
    while drawn < RULE_WIDTH
        invariant
            drawn <= RULE_WIDTH,
            rule@ == Seq::new(drawn as nat, |i: int| '─'),
        decreases RULE_WIDTH - drawn,
    {
        rule.append("─");
        drawn = drawn + 1;
        proof {
            reveal_strlit("─");
            assert(rule@ =~= Seq::new(drawn as nat, |i: int| '─'));
        }
    }
    rule
}

/// Draws a rule on a line of its own, with a line break before it.
pub fn border_line() -> (border: String)
    ensures
        border@ == border_text(),
{
    let rule = horizontal_rule();
    let mut border = String::from_str("\n");
    border.append(rule.as_str());
    border.append("\n");
    border
}

/// Writes the first line of a notice.
pub fn headline(name: &str, current_version: &str, latest_version: &str) -> (line: String)
    ensures
        line@ == headline_text(name@, current_version@, latest_version@),
{
    let painted_name = paint(Emphasis::BoldGreen, name);
    let painted_current = paint(Emphasis::BoldRed, current_version);
    let painted_latest = paint(Emphasis::BoldGreen, latest_version);
    let mut line = String::from_str("A new version of ");
    line.append(painted_name.as_str());
    line.append(" is available! ");
    line.append(painted_current.as_str());
    line.append(" → ");
    line.append(painted_latest.as_str());
    line
}

/// Writes the second line of a notice.
pub fn install_line(name: &str, latest_version: &str) -> (line: String)
    ensures
        line@ == install_line_text(name@, latest_version@),
{
    let mut hint = String::from_str("cargo install ");
    hint.append(name);
    let painted_hint = paint(Emphasis::BoldBlue, hint.as_str());
    let painted_latest = paint(Emphasis::BoldGreen, latest_version);
    let mut line = String::from_str("Use `");
    line.append(painted_hint.as_str());
    line.append("` to install version ");
    line.append(painted_latest.as_str());
    line
}

/// Writes the third line of a notice.
pub fn details_line(name: &str) -> (line: String)
    ensures
        line@ == details_line_text(name@),
{
    let mut url = String::from_str(REGISTRY_URL);
    url.append("/crates/");
    url.append(name);
    let painted_url = paint(Emphasis::Yellow, url.as_str());
    let mut line = String::from_str("Check ");
    line.append(painted_url.as_str());
    line.append(" for more details");
    line
}

/// Writes the notice that tells the user of `name` that the registry lists
/// `latest_version` while `current_version` is running.
pub fn generate_notice(name: &str, current_version: &str, latest_version: &str) -> (notice: String)
    ensures
        notice@ == notice_text(name@, current_version@, latest_version@),
{
    let border = border_line();
    let first = headline(name, current_version, latest_version);
    let second = install_line(name, latest_version);
    let third = details_line(name);
    let mut notice = border.clone();
    notice.append("\n    ");
    notice.append(first.as_str());
    notice.append("\n    ");
    notice.append(second.as_str());
    notice.append("\n    ");
    notice.append(third.as_str());
    notice.append("\n    ");
    notice.append(border.as_str());
    notice
}

} // verus!
