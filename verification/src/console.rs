//! The serial console: line editing, command parsing, and what a command
//! does to the configuration, the diagnostics switches and the request slots.
//!
//! Reading bytes, writing to the persistent store and printing are left to
//! the caller. A command that changes a stored setting is first persisted by
//! the caller and then recorded here.

use vstd::prelude::*;
use vstd::string::*;
use crate::config::{mode_of_text, Config, OrientationMode};
use crate::debug_flags::{toggle, toggle_all, DebugFlags, DebugModule, Requests};
use crate::text::{
    chars_of, is_space, is_whitespace, lower, lowered, same_text, slice, string_of, trim, trimmed,
};

verus! {

/// The state of the line editor as a mathematical value.
pub struct EditorModel {
    pub line: Seq<char>,
    pub in_escape: bool,
}

/// A byte that ends an escape sequence: an ASCII letter or a tilde.
pub open spec fn ends_escape(byte: u8) -> bool {
    (0x41 <= byte <= 0x5A) || (0x61 <= byte <= 0x7A) || byte == 0x7E
}

impl EditorModel {
    /// The line that a byte completes: a line feed or carriage return
    /// completes a line that is not empty.
    pub open spec fn completed(self, byte: u8) -> Option<Seq<char>> {
        if !self.in_escape && (byte == 0x0A || byte == 0x0D) && self.line.len() > 0 {
            Some(self.line)
        } else {
            None
        }
    }

    /// The editor after a byte. Inside an escape sequence bytes are dropped
    /// up to and including the one that ends it. Escape starts a sequence, a
    /// line end clears the line, delete and backspace remove the last
    /// character, any other byte from the space on is appended, and the
    /// remaining control bytes are dropped.
    pub open spec fn fed(self, byte: u8) -> EditorModel {
        if self.in_escape {
            EditorModel { in_escape: !ends_escape(byte), ..self }
        } else if byte == 0x1B {
            EditorModel { in_escape: true, ..self }
        } else if byte == 0x0A || byte == 0x0D {
            EditorModel { line: Seq::empty(), ..self }
        } else if byte == 0x7F || byte == 0x08 {
            if self.line.len() > 0 {
                EditorModel { line: self.line.drop_last(), ..self }
            } else {
                self
            }
        } else if byte >= 0x20 {
            EditorModel { line: self.line.push(byte as char), ..self }
        } else {
            self
        }
    }
}

/// Collects the bytes typed at the console into lines.
pub struct LineEditor {
    line: Vec<char>,
    in_escape: bool,
}

impl View for LineEditor {
    type V = EditorModel;

    closed spec fn view(&self) -> EditorModel {
        EditorModel { line: self.line@, in_escape: self.in_escape }
    }
}

impl LineEditor {
    pub fn new() -> (e: LineEditor)
        ensures
            e@ == (EditorModel { line: Seq::empty(), in_escape: false }),
    {
        LineEditor { line: Vec::new(), in_escape: false }
    }

    /// Takes one byte and returns the line that it completes, if any.
    pub fn feed(&mut self, byte: u8) -> (line: Option<String>)
        ensures
            final(self)@ == old(self)@.fed(byte),
            match line {
                Some(l) => old(self)@.completed(byte) == Some(l@),
                None => old(self)@.completed(byte) is None,
            },
    {
        if self.in_escape {
            if (0x41 <= byte && byte <= 0x5A) || (0x61 <= byte && byte <= 0x7A) || byte == 0x7E {
                self.in_escape = false;
            }
            return None;
        }
        if byte == 0x1B {
            self.in_escape = true;
            return None;
        }
        if byte == 0x0A || byte == 0x0D {
            if self.line.len() == 0 {
                assert(self.line@ =~= Seq::<char>::empty());
                return None;
            }
            let done: String = string_of(&self.line);
            self.line.clear();
            return Some(done);
        }
        if byte == 0x7F || byte == 0x08 {
            if self.line.len() > 0 {
                self.line.pop();
            }
            return None;
        }
        if byte >= 0x20 {
            self.line.push(byte as char);
        }
        None
    }
}

/// `s` without the characters `c` at its end.
pub open spec fn strip_end(s: Seq<char>, c: char) -> Seq<char>
    decreases s.len(),
{
    if s.len() > 0 && s.last() == c {
        strip_end(s.drop_last(), c)
    } else {
        s
    }
}

/// `s` without the characters `c` at its start.
pub open spec fn strip_start(s: Seq<char>, c: char) -> Seq<char>
    decreases s.len(),
{
    if s.len() > 0 && s[0] == c {
        strip_start(s.drop_first(), c)
    } else {
        s
    }
}

/// `s` without the characters `c` at either end.
pub open spec fn strip(s: Seq<char>, c: char) -> Seq<char> {
    strip_end(strip_start(s, c), c)
}

/// An argument as typed: trimmed, then freed of double and of single quotes
/// around it.
pub open spec fn unquote(s: Seq<char>) -> Seq<char> {
    strip(strip(trim(s), '"'), '\'')
}

/// The index of the first white-space character, or the length without one.
pub open spec fn first_space(s: Seq<char>) -> int
    decreases s.len(),
{
    if s.len() == 0 || is_space(s[0]) {
        0
    } else {
        1 + first_space(s.drop_first())
    }
}

/// The part before the first white-space character.
pub open spec fn head(s: Seq<char>) -> Seq<char> {
    s.take(first_space(s))
}

/// The part after the first white-space character; empty without one.
pub open spec fn tail(s: Seq<char>) -> Seq<char> {
    if first_space(s) < s.len() {
        s.skip(first_space(s) + 1)
    } else {
        Seq::empty()
    }
}

/// The line as it is parsed: trimmed and without backslashes at its end.
pub open spec fn clean_line(line: Seq<char>) -> Seq<char> {
    strip_end(trim(line), '\\')
}

proof fn lemma_first_space_is(s: Seq<char>, k: int)
    requires
        0 <= k <= s.len(),
        forall|i: int| 0 <= i < k ==> !is_space(s[i]),
        k < s.len() ==> is_space(s[k]),
    ensures
        first_space(s) == k,
    decreases s.len(),
{
    if s.len() > 0 && !is_space(s[0]) {
        let t = s.drop_first();
        assert forall|i: int| 0 <= i < k - 1 implies !is_space(t[i]) by {
            assert(t[i] == s[i + 1]);
        }
        lemma_first_space_is(t, k - 1);
    }
}

/// Splits at the first white-space character.
fn split_first(v: &Vec<char>) -> (parts: (Vec<char>, Vec<char>))
    ensures
        parts.0@ == head(v@),
        parts.1@ == tail(v@),
{
    let n: usize = v.len();
    let mut k: usize = 0;
    while k < n && !is_whitespace(v[k])
        invariant
            k <= n,
            n == v@.len(),
            forall|i: int| 0 <= i < k ==> !is_space(v@[i]),
        decreases n - k,
    {
        k += 1;
    }
    proof {
        lemma_first_space_is(v@, k as int);
    }
    let first: Vec<char> = slice(v, 0, k);
    let rest: Vec<char> = if k < n {
        slice(v, k + 1, n)
    } else {
        Vec::new()
    };
    (first, rest)
}

fn strip_char(v: &Vec<char>, c: char) -> (r: Vec<char>)
    ensures
        r@ == strip(v@, c),
{
    let n: usize = v.len();
    let mut start: usize = 0;
    assert(v@.subrange(0, n as int) =~= v@);
    while start < n && v[start] == c
        invariant
            start <= n,
            n == v@.len(),
            strip_start(v@, c) == strip_start(v@.subrange(start as int, n as int), c),
        decreases n - start,
    {
        assert(v@.subrange(start as int, n as int).drop_first() =~= v@.subrange(
            start + 1,
            n as int,
        ));
        start += 1;
    }
    let mut end: usize = n;
    while end > start && v[end - 1] == c
        invariant
            start <= end <= n,
            n == v@.len(),
            strip(v@, c) == strip_end(v@.subrange(start as int, end as int), c),
        decreases end,
    {
        assert(v@.subrange(start as int, end as int).drop_last() =~= v@.subrange(
            start as int,
            end - 1,
        ));
        end -= 1;
    }
    slice(v, start, end)
}

fn strip_trailing(v: &Vec<char>, c: char) -> (r: Vec<char>)
    ensures
        r@ == strip_end(v@, c),
{
    let mut end: usize = v.len();
    assert(v@.subrange(0, end as int) =~= v@);
    while end > 0 && v[end - 1] == c
        invariant
            end <= v@.len(),
            strip_end(v@, c) == strip_end(v@.subrange(0, end as int), c),
        decreases end,
    {
        assert(v@.subrange(0, end as int).drop_last() =~= v@.subrange(0, end - 1));
        end -= 1;
    }
    slice(v, 0, end)
}

fn unquoted(v: &Vec<char>) -> (r: Vec<char>)
    ensures
        r@ == unquote(v@),
{
    strip_char(&strip_char(&trimmed(v), '"'), '\'')
}

/// What a command line asks for.
#[derive(Debug, Clone, Copy, PartialEq, Eq, Structural)]
pub enum CommandKind {
    /// Nothing was typed.
    Empty,
    Help,
    WifiShow,
    /// Store the network name (argument) and password (second argument).
    WifiSet,
    WifiSetUsage,
    WifiScan,
    WifiClear,
    ApiShow,
    /// Store the weather key (argument).
    ApiSetKey,
    ApiSetKeyUsage,
    /// Store the weather query (argument).
    ApiSetQuery,
    ApiSetQueryUsage,
    ApiClear,
    AlertsShow,
    AlertsOn,
    AlertsOff,
    /// Store the user agent for alert requests (argument).
    AlertsUa,
    AlertsUaUsage,
    /// Store the alert scope (argument).
    AlertsScope,
    AlertsScopeUsage,
    AlertsAutoScopeOn,
    AlertsAutoScopeOff,
    AlertsAutoScopeShow,
    AlertsAutoScopeUsage,
    AlertsZoneShow,
    AlertsZoneClear,
    AlertsZoneUsage,
    AlertsUsage,
    FlashShow,
    /// Store the flash time (argument).
    FlashSetTime,
    FlashSetTimeUsage,
    FlashUsage,
    OrientationShow,
    FlipToggle,
    FlipShow,
    FlipOn,
    FlipOff,
    FlipUsage,
    OrientationSet(OrientationMode),
    OrientationUsage,
    I2cScan,
    I2cUsage,
    ImuRead,
    ImuUsage,
    DebugShow,
    DebugToggle(DebugModule),
    DebugAll,
    /// The module (argument) is not known.
    DebugUnknown,
    Status,
    Reboot,
    /// The command (argument) is not known.
    Unknown,
}

/// A parsed command line as a mathematical value.
pub struct CommandModel {
    pub kind: CommandKind,
    pub arg: Seq<char>,
    pub arg2: Seq<char>,
}

/// A parsed command line.
#[derive(Debug, Clone)]
pub struct Command {
    pub kind: CommandKind,
    pub arg: String,
    pub arg2: String,
}

impl Command {
    pub open spec fn model(self) -> CommandModel {
        CommandModel { kind: self.kind, arg: self.arg@, arg2: self.arg2@ }
    }
}

/// A command without arguments.
pub open spec fn plain(kind: CommandKind) -> CommandModel {
    CommandModel { kind, arg: Seq::empty(), arg2: Seq::empty() }
}

/// A command with one argument, or its usage note when the argument is
/// empty.
pub open spec fn with_text(kind: CommandKind, usage: CommandKind, text: Seq<char>) -> CommandModel {
    if text.len() == 0 {
        plain(usage)
    } else {
        CommandModel { kind, arg: text, arg2: Seq::empty() }
    }
}

/// A word that switches something on.
pub open spec fn says_on(s: Seq<char>) -> bool {
    s == "on"@ || s == "1"@ || s == "true"@
}

/// A word that switches something off.
pub open spec fn says_off(s: Seq<char>) -> bool {
    s == "off"@ || s == "0"@ || s == "false"@
}

pub open spec fn wifi_command(sub: Seq<char>, rest: Seq<char>) -> CommandModel {
    if sub == "show"@ {
        plain(CommandKind::WifiShow)
    } else if sub == "set"@ {
        let ssid = strip(strip(head(rest), '"'), '\'');
        if ssid.len() == 0 {
            plain(CommandKind::WifiSetUsage)
        } else {
            CommandModel { kind: CommandKind::WifiSet, arg: ssid, arg2: unquote(tail(rest)) }
        }
    } else if sub == "scan"@ {
        plain(CommandKind::WifiScan)
    } else if sub == "clear"@ {
        plain(CommandKind::WifiClear)
    } else {
        plain(CommandKind::Help)
    }
}

pub open spec fn api_command(sub: Seq<char>, rest: Seq<char>) -> CommandModel {
    if sub == "show"@ {
        plain(CommandKind::ApiShow)
    } else if sub == "set-key"@ {
        with_text(CommandKind::ApiSetKey, CommandKind::ApiSetKeyUsage, unquote(rest))
    } else if sub == "set-query"@ {
        with_text(CommandKind::ApiSetQuery, CommandKind::ApiSetQueryUsage, unquote(rest))
    } else if sub == "clear"@ {
        plain(CommandKind::ApiClear)
    } else {
        plain(CommandKind::Help)
    }
}

pub open spec fn alerts_command(sub: Seq<char>, rest: Seq<char>) -> CommandModel {
    let word = lower(trim(rest));
    if sub.len() == 0 || sub == "show"@ {
        plain(CommandKind::AlertsShow)
    } else if sub == "on"@ || sub == "enable"@ || sub == "enabled"@ {
        plain(CommandKind::AlertsOn)
    } else if sub == "off"@ || sub == "disable"@ || sub == "disabled"@ {
        plain(CommandKind::AlertsOff)
    } else if sub == "ua"@ {
        with_text(CommandKind::AlertsUa, CommandKind::AlertsUaUsage, unquote(rest))
    } else if sub == "scope"@ {
        with_text(CommandKind::AlertsScope, CommandKind::AlertsScopeUsage, unquote(rest))
    } else if sub == "auto-scope"@ {
        if says_on(word) || word == "enable"@ || word == "enabled"@ {
            plain(CommandKind::AlertsAutoScopeOn)
        } else if says_off(word) || word == "disable"@ || word == "disabled"@ {
            plain(CommandKind::AlertsAutoScopeOff)
        } else if word.len() == 0 || word == "show"@ {
            plain(CommandKind::AlertsAutoScopeShow)
        } else {
            plain(CommandKind::AlertsAutoScopeUsage)
        }
    } else if sub == "zone"@ {
        if word.len() == 0 || word == "show"@ {
            plain(CommandKind::AlertsZoneShow)
        } else if word == "clear"@ {
            plain(CommandKind::AlertsZoneClear)
        } else {
            plain(CommandKind::AlertsZoneUsage)
        }
    } else {
        plain(CommandKind::AlertsUsage)
    }
}

pub open spec fn flash_command(sub: Seq<char>, rest: Seq<char>) -> CommandModel {
    if sub.len() == 0 || sub == "show"@ {
        plain(CommandKind::FlashShow)
    } else if sub == "set-time"@ {
        with_text(CommandKind::FlashSetTime, CommandKind::FlashSetTimeUsage, unquote(rest))
    } else {
        plain(CommandKind::FlashUsage)
    }
}

pub open spec fn orientation_command(sub: Seq<char>, rest: Seq<char>) -> CommandModel {
    if sub.len() == 0 || sub == "show"@ {
        plain(CommandKind::OrientationShow)
    } else if sub == "flip"@ {
        if rest.len() == 0 || rest == "toggle"@ {
            plain(CommandKind::FlipToggle)
        } else if rest == "show"@ {
            plain(CommandKind::FlipShow)
        } else if says_on(rest) {
            plain(CommandKind::FlipOn)
        } else if says_off(rest) {
            plain(CommandKind::FlipOff)
        } else {
            plain(CommandKind::FlipUsage)
        }
    } else {
        match mode_of_text(sub) {
            Some(mode) => plain(CommandKind::OrientationSet(mode)),
            None => plain(CommandKind::OrientationUsage),
        }
    }
}

pub open spec fn i2c_command(sub: Seq<char>) -> CommandModel {
    if sub.len() == 0 || sub == "scan"@ {
        plain(CommandKind::I2cScan)
    } else {
        plain(CommandKind::I2cUsage)
    }
}

pub open spec fn imu_command(sub: Seq<char>) -> CommandModel {
    if sub.len() == 0 || sub == "read"@ {
        plain(CommandKind::ImuRead)
    } else {
        plain(CommandKind::ImuUsage)
    }
}

pub open spec fn debug_command(sub: Seq<char>) -> CommandModel {
    if sub.len() == 0 || sub == "show"@ {
        plain(CommandKind::DebugShow)
    } else if sub == "touch"@ {
        plain(CommandKind::DebugToggle(DebugModule::Touch))
    } else if sub == "bme280"@ || sub == "bme"@ || sub == "sensor"@ {
        plain(CommandKind::DebugToggle(DebugModule::Bme280))
    } else if sub == "wifi"@ {
        plain(CommandKind::DebugToggle(DebugModule::Wifi))
    } else if sub == "weather"@ || sub == "api"@ {
        plain(CommandKind::DebugToggle(DebugModule::Weather))
    } else if sub == "imu"@ {
        plain(CommandKind::DebugToggle(DebugModule::Imu))
    } else if sub == "all"@ {
        plain(CommandKind::DebugAll)
    } else {
        CommandModel { kind: CommandKind::DebugUnknown, arg: sub, arg2: Seq::empty() }
    }
}

/// What a line asks for. The first word names the command, the second the
/// action, and the rest of the line, trimmed, is the action's argument.
pub open spec fn command_of(line: Seq<char>) -> CommandModel {
    let clean = clean_line(line);
    let cmd = head(clean);
    let sub = head(tail(clean));
    let rest = trim(tail(tail(clean)));
    if clean.len() == 0 {
        plain(CommandKind::Empty)
    } else if cmd == "help"@ || cmd == "?"@ {
        plain(CommandKind::Help)
    } else if cmd == "wifi"@ {
        wifi_command(sub, rest)
    } else if cmd == "api"@ {
        api_command(sub, rest)
    } else if cmd == "alerts"@ {
        alerts_command(sub, rest)
    } else if cmd == "flash"@ {
        flash_command(sub, rest)
    } else if cmd == "orientation"@ {
        orientation_command(sub, rest)
    } else if cmd == "i2c"@ {
        i2c_command(sub)
    } else if cmd == "imu"@ {
        imu_command(sub)
    } else if cmd == "debug"@ {
        debug_command(sub)
    } else if cmd == "status"@ {
        plain(CommandKind::Status)
    } else if cmd == "reboot"@ {
        plain(CommandKind::Reboot)
    } else {
        CommandModel { kind: CommandKind::Unknown, arg: cmd, arg2: Seq::empty() }
    }
}

fn bare(kind: CommandKind) -> (c: Command)
    ensures
        c.model() == plain(kind),
{
    Command { kind, arg: String::new(), arg2: String::new() }
}

fn text_command(kind: CommandKind, usage: CommandKind, text: &Vec<char>) -> (c: Command)
    ensures
        c.model() == with_text(kind, usage, text@),
{
    if text.len() == 0 {
        bare(usage)
    } else {
        Command { kind, arg: string_of(text), arg2: String::new() }
    }
}

fn is_on_word(s: &Vec<char>) -> (b: bool)
    ensures
        b == says_on(s@),
{
    same_text(s, "on") || same_text(s, "1") || same_text(s, "true")
}

fn is_off_word(s: &Vec<char>) -> (b: bool)
    ensures
        b == says_off(s@),
{
    same_text(s, "off") || same_text(s, "0") || same_text(s, "false")
}

fn handle_wifi(sub: &Vec<char>, rest: &Vec<char>) -> (c: Command)
    ensures
        c.model() == wifi_command(sub@, rest@),
{
    if same_text(sub, "show") {
        bare(CommandKind::WifiShow)
    } else if same_text(sub, "set") {
        let (first, second): (Vec<char>, Vec<char>) = split_first(rest);
        let ssid: Vec<char> = strip_char(&strip_char(&first, '"'), '\'');
        if ssid.len() == 0 {
            bare(CommandKind::WifiSetUsage)
        } else {
            Command {
                kind: CommandKind::WifiSet,
                arg: string_of(&ssid),
                arg2: string_of(&unquoted(&second)),
            }
        }
    } else if same_text(sub, "scan") {
        bare(CommandKind::WifiScan)
    } else if same_text(sub, "clear") {
        bare(CommandKind::WifiClear)
    } else {
        bare(CommandKind::Help)
    }
}

fn handle_api(sub: &Vec<char>, rest: &Vec<char>) -> (c: Command)
    ensures
        c.model() == api_command(sub@, rest@),
{
    if same_text(sub, "show") {
        bare(CommandKind::ApiShow)
    } else if same_text(sub, "set-key") {
        text_command(CommandKind::ApiSetKey, CommandKind::ApiSetKeyUsage, &unquoted(rest))
    } else if same_text(sub, "set-query") {
        text_command(CommandKind::ApiSetQuery, CommandKind::ApiSetQueryUsage, &unquoted(rest))
    } else if same_text(sub, "clear") {
        bare(CommandKind::ApiClear)
    } else {
        bare(CommandKind::Help)
    }
}

fn handle_alerts(sub: &Vec<char>, rest: &Vec<char>) -> (c: Command)
    ensures
        c.model() == alerts_command(sub@, rest@),
{
    if sub.len() == 0 || same_text(sub, "show") {
        bare(CommandKind::AlertsShow)
    } else if same_text(sub, "on") || same_text(sub, "enable") || same_text(sub, "enabled") {
        bare(CommandKind::AlertsOn)
    } else if same_text(sub, "off") || same_text(sub, "disable") || same_text(sub, "disabled") {
        bare(CommandKind::AlertsOff)
    } else if same_text(sub, "ua") {
        text_command(CommandKind::AlertsUa, CommandKind::AlertsUaUsage, &unquoted(rest))
    } else if same_text(sub, "scope") {
        text_command(CommandKind::AlertsScope, CommandKind::AlertsScopeUsage, &unquoted(rest))
    } else if same_text(sub, "auto-scope") {
        let word: Vec<char> = lowered(&trimmed(rest));
        if is_on_word(&word) || same_text(&word, "enable") || same_text(&word, "enabled") {
            bare(CommandKind::AlertsAutoScopeOn)
        } else if is_off_word(&word) || same_text(&word, "disable") || same_text(
            &word,
            "disabled",
        ) {
            bare(CommandKind::AlertsAutoScopeOff)
        } else if word.len() == 0 || same_text(&word, "show") {
            bare(CommandKind::AlertsAutoScopeShow)
        } else {
            bare(CommandKind::AlertsAutoScopeUsage)
        }
    } else if same_text(sub, "zone") {
        let word: Vec<char> = lowered(&trimmed(rest));
        if word.len() == 0 || same_text(&word, "show") {
            bare(CommandKind::AlertsZoneShow)
        } else if same_text(&word, "clear") {
            bare(CommandKind::AlertsZoneClear)
        } else {
            bare(CommandKind::AlertsZoneUsage)
        }
    } else {
        bare(CommandKind::AlertsUsage)
    }
}

fn handle_flash(sub: &Vec<char>, rest: &Vec<char>) -> (c: Command)
    ensures
        c.model() == flash_command(sub@, rest@),
{
    if sub.len() == 0 || same_text(sub, "show") {
        bare(CommandKind::FlashShow)
    } else if same_text(sub, "set-time") {
        text_command(CommandKind::FlashSetTime, CommandKind::FlashSetTimeUsage, &unquoted(rest))
    } else {
        bare(CommandKind::FlashUsage)
    }
}

fn handle_orientation(sub: &Vec<char>, rest: &Vec<char>) -> (c: Command)
    ensures
        c.model() == orientation_command(sub@, rest@),
{
    if sub.len() == 0 || same_text(sub, "show") {
        bare(CommandKind::OrientationShow)
    } else if same_text(sub, "flip") {
        if rest.len() == 0 || same_text(rest, "toggle") {
            bare(CommandKind::FlipToggle)
        } else if same_text(rest, "show") {
            bare(CommandKind::FlipShow)
        } else if is_on_word(rest) {
            bare(CommandKind::FlipOn)
        } else if is_off_word(rest) {
            bare(CommandKind::FlipOff)
        } else {
            bare(CommandKind::FlipUsage)
        }
    } else {
        match OrientationMode::parse(string_of(sub).as_str()) {
            Some(mode) => bare(CommandKind::OrientationSet(mode)),
            None => bare(CommandKind::OrientationUsage),
        }
    }
}

fn handle_i2c(sub: &Vec<char>) -> (c: Command)
    ensures
        c.model() == i2c_command(sub@),
{
    if sub.len() == 0 || same_text(sub, "scan") {
        bare(CommandKind::I2cScan)
    } else {
        bare(CommandKind::I2cUsage)
    }
}

fn handle_imu(sub: &Vec<char>) -> (c: Command)
    ensures
        c.model() == imu_command(sub@),
{
    if sub.len() == 0 || same_text(sub, "read") {
        bare(CommandKind::ImuRead)
    } else {
        bare(CommandKind::ImuUsage)
    }
}

fn handle_debug(sub: &Vec<char>) -> (c: Command)
    ensures
        c.model() == debug_command(sub@),
{
    if sub.len() == 0 || same_text(sub, "show") {
        bare(CommandKind::DebugShow)
    } else if same_text(sub, "touch") {
        bare(CommandKind::DebugToggle(DebugModule::Touch))
    } else if same_text(sub, "bme280") || same_text(sub, "bme") || same_text(sub, "sensor") {
        bare(CommandKind::DebugToggle(DebugModule::Bme280))
    } else if same_text(sub, "wifi") {
        bare(CommandKind::DebugToggle(DebugModule::Wifi))
    } else if same_text(sub, "weather") || same_text(sub, "api") {
        bare(CommandKind::DebugToggle(DebugModule::Weather))
    } else if same_text(sub, "imu") {
        bare(CommandKind::DebugToggle(DebugModule::Imu))
    } else if same_text(sub, "all") {
        bare(CommandKind::DebugAll)
    } else {
        Command { kind: CommandKind::DebugUnknown, arg: string_of(sub), arg2: String::new() }
    }
}

/// Parses one line typed at the console.
pub fn process_line(line: &str) -> (c: Command)
    ensures
        c.model() == command_of(line@),
{
    let clean: Vec<char> = strip_trailing(&trimmed(&chars_of(line)), '\\');
    if clean.len() == 0 {
        return bare(CommandKind::Empty);
    }
    let (cmd, after_cmd): (Vec<char>, Vec<char>) = split_first(&clean);
    let (sub, after_sub): (Vec<char>, Vec<char>) = split_first(&after_cmd);
    let rest: Vec<char> = trimmed(&after_sub);
    if same_text(&cmd, "help") || same_text(&cmd, "?") {
        bare(CommandKind::Help)
    } else if same_text(&cmd, "wifi") {
        handle_wifi(&sub, &rest)
    } else if same_text(&cmd, "api") {
        handle_api(&sub, &rest)
    } else if same_text(&cmd, "alerts") {
        handle_alerts(&sub, &rest)
    } else if same_text(&cmd, "flash") {
        handle_flash(&sub, &rest)
    } else if same_text(&cmd, "orientation") {
        handle_orientation(&sub, &rest)
    } else if same_text(&cmd, "i2c") {
        handle_i2c(&sub)
    } else if same_text(&cmd, "imu") {
        handle_imu(&sub)
    } else if same_text(&cmd, "debug") {
        handle_debug(&sub)
    } else if same_text(&cmd, "status") {
        bare(CommandKind::Status)
    } else if same_text(&cmd, "reboot") {
        bare(CommandKind::Reboot)
    } else {
        Command { kind: CommandKind::Unknown, arg: string_of(&cmd), arg2: String::new() }
    }
}

/// Carries out a diagnostics command on the switches. Returns the position
/// that the command switched to, or `None` for a command that switches
/// nothing.
pub fn apply_debug(flags: &mut DebugFlags, kind: CommandKind) -> (on: Option<bool>)
    ensures
        match kind {
            CommandKind::DebugToggle(module) => on == Some(!old(flags).get(module))
                && *final(flags) == old(flags).with(module, !old(flags).get(module)),
            CommandKind::DebugAll => on == Some(old(flags).any_off()) && *final(flags)
                == DebugFlags::all(old(flags).any_off()),
            _ => on is None && *final(flags) == *old(flags),
        },
{
    match kind {
        CommandKind::DebugToggle(module) => Some(toggle(flags, module)),
        CommandKind::DebugAll => Some(toggle_all(flags)),
        _ => None,
    }
}

/// Posts the request that a command leaves for the main loop, if it leaves
/// one: a bus scan, an inertial read, or a new orientation mode.
pub fn post_request(requests: &mut Requests, kind: CommandKind) -> (posted: bool)
    ensures
        posted == (kind is I2cScan || kind is ImuRead || kind is OrientationSet),
        final(requests).i2c_scan@ == if kind is I2cScan {
            Some(())
        } else {
            old(requests).i2c_scan@
        },
        final(requests).imu_read@ == if kind is ImuRead {
            Some(())
        } else {
            old(requests).imu_read@
        },
        final(requests).orientation_mode@ == match kind {
            CommandKind::OrientationSet(mode) => Some(mode),
            _ => old(requests).orientation_mode@,
        },
        final(requests).orientation_flip@ == old(requests).orientation_flip@,
{
    match kind {
        CommandKind::I2cScan => {
            requests.i2c_scan.post(());
            true
        },
        CommandKind::ImuRead => {
            requests.imu_read.post(());
            true
        },
        CommandKind::OrientationSet(mode) => {
            requests.orientation_mode.post(mode);
            true
        },
        _ => false,
    }
}

/// What a flip command comes to.
#[derive(Debug, Clone, Copy, PartialEq, Eq, Structural)]
pub enum FlipOutcome {
    /// The command is no flip command.
    NotAFlip,
    /// The mode is automatic, where the flip flag has no use.
    Unavailable,
    /// Show the flag.
    Show,
    /// Show the usage note.
    Usage,
    /// Store this flag, then record and request it.
    Store(bool),
}

/// The outcome of a flip command under the current configuration.
pub open spec fn flip_outcome(mode: OrientationMode, flip: bool, kind: CommandKind) -> FlipOutcome {
    if !(kind is FlipToggle || kind is FlipShow || kind is FlipOn || kind is FlipOff
        || kind is FlipUsage) {
        FlipOutcome::NotAFlip
    } else if mode == OrientationMode::Auto {
        FlipOutcome::Unavailable
    } else {
        match kind {
            CommandKind::FlipToggle => FlipOutcome::Store(!flip),
            CommandKind::FlipOn => FlipOutcome::Store(true),
            CommandKind::FlipOff => FlipOutcome::Store(false),
            CommandKind::FlipShow => FlipOutcome::Show,
            _ => FlipOutcome::Usage,
        }
    }
}

/// Decides what a flip command does.
pub fn decide_flip(cfg: &Config, kind: CommandKind) -> (outcome: FlipOutcome)
    ensures
        outcome == flip_outcome(cfg.orientation_mode, cfg.orientation_flip, kind),
{
    let is_flip: bool = match kind {
        CommandKind::FlipToggle | CommandKind::FlipShow | CommandKind::FlipOn
        | CommandKind::FlipOff | CommandKind::FlipUsage => true,
        _ => false,
    };
    if !is_flip {
        return FlipOutcome::NotAFlip;
    }
    if cfg.orientation_mode == OrientationMode::Auto {
        return FlipOutcome::Unavailable;
    }
    match kind {
        CommandKind::FlipToggle => FlipOutcome::Store(!cfg.orientation_flip),
        CommandKind::FlipOn => FlipOutcome::Store(true),
        CommandKind::FlipOff => FlipOutcome::Store(false),
        CommandKind::FlipShow => FlipOutcome::Show,
        _ => FlipOutcome::Usage,
    }
}

/// Records a flip flag that was stored, and requests it from the main loop.
pub fn record_flip(cfg: &mut Config, requests: &mut Requests, flip: bool)
    ensures
        *final(cfg) == (Config { orientation_flip: flip, ..*old(cfg) }),
        final(requests).orientation_flip@ == Some(flip),
        final(requests).orientation_mode == old(requests).orientation_mode,
        final(requests).i2c_scan == old(requests).i2c_scan,
        final(requests).imu_read == old(requests).imu_read,
{
    cfg.orientation_flip = flip;
    requests.orientation_flip.post(flip);
}

/// The configuration after a command whose setting was stored. A command
/// that stores nothing leaves the configuration as it is.
pub open spec fn recorded(cfg: Config, after: Config, c: Command) -> bool {
    match c.kind {
        CommandKind::WifiSet => after == (Config {
            wifi_ssid: after.wifi_ssid,
            wifi_pass: after.wifi_pass,
            ..cfg
        }) && after.wifi_ssid@ == c.arg@ && after.wifi_pass@ == c.arg2@,
        CommandKind::WifiClear => after == (Config {
            wifi_ssid: after.wifi_ssid,
            wifi_pass: after.wifi_pass,
            ..cfg
        }) && after.wifi_ssid@.len() == 0 && after.wifi_pass@.len() == 0,
        CommandKind::ApiSetKey => after == (Config {
            weather_api_key: after.weather_api_key,
            ..cfg
        }) && after.weather_api_key@ == c.arg@,
        CommandKind::ApiSetQuery => after == (Config {
            weather_query: after.weather_query,
            ..cfg
        }) && after.weather_query@ == c.arg@,
        CommandKind::ApiClear => after == (Config {
            weather_api_key: after.weather_api_key,
            weather_query: after.weather_query,
            ..cfg
        }) && after.weather_api_key@.len() == 0 && after.weather_query@ == "q=New York,US"@,
        CommandKind::AlertsOn => after == (Config { alerts_enabled: true, ..cfg }),
        CommandKind::AlertsOff => after == (Config { alerts_enabled: false, ..cfg }),
        CommandKind::AlertsUa => after == (Config {
            nws_user_agent: after.nws_user_agent,
            ..cfg
        }) && after.nws_user_agent@ == c.arg@,
        CommandKind::AlertsScope => after == (Config { nws_scope: after.nws_scope, ..cfg })
            && after.nws_scope@ == c.arg@,
        CommandKind::AlertsAutoScopeOn => after == (Config { alerts_auto_scope: true, ..cfg }),
        CommandKind::AlertsAutoScopeOff => after == (Config { alerts_auto_scope: false, ..cfg }),
        CommandKind::AlertsZoneClear => after == (Config { nws_zone: after.nws_zone, ..cfg })
            && after.nws_zone@.len() == 0,
        CommandKind::FlashSetTime => after == (Config { flash_time: after.flash_time, ..cfg })
            && after.flash_time@ == c.arg@,
        CommandKind::OrientationSet(mode) => after == (Config { orientation_mode: mode, ..cfg }),
        _ => after == cfg,
    }
}

/// Records the setting of a command after it was stored.
pub fn record_setting(cfg: &mut Config, c: &Command)
    ensures
        recorded(*old(cfg), *final(cfg), *c),
{
    match c.kind {
        CommandKind::WifiSet => {
            cfg.wifi_ssid = c.arg.clone();
            cfg.wifi_pass = c.arg2.clone();
        },
        CommandKind::WifiClear => {
            cfg.wifi_ssid = String::new();
            cfg.wifi_pass = String::new();
        },
        CommandKind::ApiSetKey => {
            cfg.weather_api_key = c.arg.clone();
        },
        CommandKind::ApiSetQuery => {
            cfg.weather_query = c.arg.clone();
        },
        CommandKind::ApiClear => {
            cfg.weather_api_key = String::new();
            cfg.weather_query = String::from_str("q=New York,US");
        },
        CommandKind::AlertsOn => {
            cfg.alerts_enabled = true;
        },
        CommandKind::AlertsOff => {
            cfg.alerts_enabled = false;
        },
        CommandKind::AlertsUa => {
            cfg.nws_user_agent = c.arg.clone();
        },
        CommandKind::AlertsScope => {
            cfg.nws_scope = c.arg.clone();
        },
        CommandKind::AlertsAutoScopeOn => {
            cfg.alerts_auto_scope = true;
        },
        CommandKind::AlertsAutoScopeOff => {
            cfg.alerts_auto_scope = false;
        },
        CommandKind::AlertsZoneClear => {
            cfg.nws_zone = String::new();
        },
        CommandKind::FlashSetTime => {
            cfg.flash_time = c.arg.clone();
        },
        CommandKind::OrientationSet(mode) => {
            cfg.orientation_mode = mode;
        },
        _ => {},
    }
}

/// A secret as shown: as it is up to four characters, else four stars and
/// its last four characters.
pub open spec fn masked(key: Seq<char>) -> Seq<char> {
    if key.len() <= 4 {
        key
    } else {
        "****"@ + key.skip(key.len() - 4)
    }
}

/// Masks a secret for display.
pub fn mask_key(key: &str) -> (shown: String)
    ensures
        shown@ == masked(key@),
{
    let chars: Vec<char> = chars_of(key);
    let n: usize = chars.len();
    if n <= 4 {
        String::from_str(key)
    } else {
        let mut shown: String = String::from_str("****");
        shown.append(string_of(&slice(&chars, n - 4, n)).as_str());
        shown
    }
}

/// The help text, line by line.
pub open spec fn help_text() -> Seq<Seq<char>> {
    seq![
        "commands:"@,
        "  wifi show                  - show Wi-Fi config"@,
        "  wifi set <ssid> <pass>     - set Wi-Fi credentials"@,
        "  wifi scan                  - scan for nearby networks"@,
        "  wifi clear                 - clear Wi-Fi override"@,
        "  i2c scan                   - rescan I2C bus"@,
        "  imu read                   - one-shot IMU reading"@,
        "  api show                   - show API config"@,
        "  api set-key <key>          - set OpenWeather API key"@,
        "  api set-query <query>      - set location query"@,
        "  api clear                  - clear API overrides"@,
        "  alerts show                - show alert settings"@,
        "  alerts on|off              - enable/disable NWS alerts"@,
        "  alerts auto-scope on|off   - auto-discover NWS zone from Wi-Fi"@,
        "  alerts ua <user-agent>     - set NWS User-Agent"@,
        "  alerts scope <scope>       - set NWS scope (example: area=MO)"@,
        "  alerts zone show|clear     - show/clear cached zone"@,
        "  flash show                 - show flash metadata"@,
        "  flash set-time <text>      - set flash time metadata"@,
        "  orientation auto|landscape|portrait"@,
        "  orientation flip on|off|toggle|show"@,
        "  debug <module>             - toggle debug for module"@,
        "    modules: touch, bme280, wifi, weather, imu, all"@,
        "  debug show                 - show debug flag status"@,
        "  status                     - show system status"@,
        "  reboot                     - reboot device"@,
    ]
}

/// The lines of the help text.
pub fn print_help() -> (lines: Vec<&'static str>)
    ensures
        lines@.map_values(|l: &'static str| l@) == help_text(),
{
    let mut lines: Vec<&'static str> = Vec::new();
    lines.push("commands:");
    lines.push("  wifi show                  - show Wi-Fi config");
    lines.push("  wifi set <ssid> <pass>     - set Wi-Fi credentials");
    lines.push("  wifi scan                  - scan for nearby networks");
    lines.push("  wifi clear                 - clear Wi-Fi override");
    lines.push("  i2c scan                   - rescan I2C bus");
    lines.push("  imu read                   - one-shot IMU reading");
    lines.push("  api show                   - show API config");
    lines.push("  api set-key <key>          - set OpenWeather API key");
    lines.push("  api set-query <query>      - set location query");
    lines.push("  api clear                  - clear API overrides");
    lines.push("  alerts show                - show alert settings");
    lines.push("  alerts on|off              - enable/disable NWS alerts");
    lines.push("  alerts auto-scope on|off   - auto-discover NWS zone from Wi-Fi");
    lines.push("  alerts ua <user-agent>     - set NWS User-Agent");
    lines.push("  alerts scope <scope>       - set NWS scope (example: area=MO)");
    lines.push("  alerts zone show|clear     - show/clear cached zone");
    lines.push("  flash show                 - show flash metadata");
    lines.push("  flash set-time <text>      - set flash time metadata");
    lines.push("  orientation auto|landscape|portrait");
    lines.push("  orientation flip on|off|toggle|show");
    lines.push("  debug <module>             - toggle debug for module");
    lines.push("    modules: touch, bme280, wifi, weather, imu, all");
    lines.push("  debug show                 - show debug flag status");
    lines.push("  status                     - show system status");
    lines.push("  reboot                     - reboot device");
    assert(lines@.map_values(|l: &'static str| l@) =~= help_text());
    lines
}

} // verus!
