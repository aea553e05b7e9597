//! The developer console: a line of text in, a command for the game and a
//! few lines of reply out.
use std::collections::VecDeque;
use vstd::prelude::*;
use vstd::string::StringExecFns;

use crate::settings::{Fullscreen, GameScene, GameSettings, Message};

verus! {

/// The most lines the console keeps, less one: a line that makes the
/// history this long pushes out the oldest.
pub const HISTORY_LIMIT: usize = 50;

/// The reply to `help`.
pub const HELP_MESSAGE: &'static str = "
Available commands:
  vsync [on/off] - Enables or disables vsync.
  fps_limit [number] - sets the framerate limit of the game.
  fullscreen [windowed/borderless/exclusive] - Sets if the window is in fullscreen.
  scene [scene] - changes the scene.
  stage [number] - sets the stage.
  clear - clears the console
  clear-cache - clears the cache reducing memory usage.
  close - closes the terminal
  quit/exit - quits the game immediately
  help - displays this help message.
";

/// The text lowercased as Unicode prescribes.
pub uninterp spec fn lower_of(s: Seq<char>) -> Seq<char>;

/// Whether `c` is ASCII whitespace: space, tab, line feed, form feed or
/// carriage return.
pub open spec fn is_blank(c: char) -> bool {
    c == ' ' || c == '\t' || c == '\n' || c == '\x0C' || c == '\r'
}

/// The words of `s`: its maximal runs of characters other than ASCII
/// whitespace, in order.
pub open spec fn words_of(s: Seq<char>) -> Seq<Seq<char>>
    decreases s.len(),
{
    if s.len() == 0 {
        seq![]
    } else {
        let w = words_of(s.drop_last());
        let c = s.last();
        if is_blank(c) {
            w
        } else if s.len() >= 2 && !is_blank(s[s.len() - 2]) && w.len() > 0 {
            w.update(w.len() - 1, w.last().push(c))
        } else {
            w.push(seq![c])
        }
    }
}

/// Whether `c` is an ASCII digit.
pub open spec fn is_digit(c: char) -> bool {
    '0' <= c <= '9'
}

/// The value of the decimal digits `s`.
pub open spec fn digits_value(s: Seq<char>) -> nat
    decreases s.len(),
{
    if s.len() == 0 {
        0
    } else {
        digits_value(s.drop_last()) * 10 + (s.last() as nat - '0' as nat) as nat
    }
}

/// The number `s` spells: an optional `+` and then one or more decimal
/// digits, of a value that fits in a `u32`; `None` for anything else.
pub open spec fn number_of(s: Seq<char>) -> Option<u32> {
    let d = if s.len() > 0 && s[0] == '+' {
        s.drop_first()
    } else {
        s
    };
    if d.len() > 0 && (forall|i: int| 0 <= i < d.len() ==> is_digit(#[trigger] d[i])) && digits_value(d)
        <= u32::MAX {
        Some(digits_value(d) as u32)
    } else {
        None
    }
}

/// The decimal digits of `n`, without leading zeros.
pub open spec fn decimal_of(n: nat) -> Seq<char>
    decreases n,
{
    if n < 10 {
        seq![('0' as nat + n) as char]
    } else {
        decimal_of(n / 10).push(('0' as nat + n % 10) as char)
    }
}

/// `true` or `false`.
pub open spec fn bool_text(b: bool) -> Seq<char> {
    if b {
        "true"@
    } else {
        "false"@
    }
}

/// The name of a fullscreen mode.
pub open spec fn fullscreen_text(f: Fullscreen) -> Seq<char> {
    match f {
        Fullscreen::Windowed => "Windowed"@,
        Fullscreen::Borderless => "Borderless"@,
        Fullscreen::Exclusive => "Exclusive"@,
    }
}

/// `s` in double quotes between `before` and `after`.
pub open spec fn quoted(before: Seq<char>, s: Seq<char>, after: Seq<char>) -> Seq<char> {
    before + "\""@ + s + "\""@ + after
}

/// The vsync value a word asks for, if it names one.
pub open spec fn vsync_word(w: Seq<char>) -> Option<bool> {
    if w == "on"@ || w == "true"@ || w == "enable"@ {
        Some(true)
    } else if w == "disable"@ || w == "false"@ || w == "off"@ {
        Some(false)
    } else {
        None
    }
}

/// The fullscreen mode a word asks for, if it names one.
pub open spec fn fullscreen_word(w: Seq<char>) -> Option<Fullscreen> {
    if w == "windowed"@ || w == "w"@ {
        Some(Fullscreen::Windowed)
    } else if w == "borderless"@ || w == "b"@ {
        Some(Fullscreen::Borderless)
    } else if w == "exclusive"@ || w == "x"@ {
        Some(Fullscreen::Exclusive)
    } else {
        None
    }
}

/// What the command `w` (lowercased words) does with the settings
/// `settings`: the message for the game, and the line printed in reply.
pub open spec fn reply(settings: GameSettings, w: Seq<Seq<char>>) -> (Option<Message>, Option<Seq<char>>) {
    if w.len() == 0 {
        (None, None)
    } else {
        let c = w[0];
        let has_arg = w.len() > 1;
        let a = w[1];
        if c == "close"@ || c == "clear"@ {
            (None, None)
        } else if c == "vsync"@ {
            if !has_arg {
                (None, Some("usage:\n  vsync [on/off]\nvsync="@ + bool_text(settings.vsync)))
            } else if let Some(v) = vsync_word(a) {
                (
                    Some(Message::ApplySettings(GameSettings { vsync: v, ..settings })),
                    Some("vsync set: "@ + bool_text(settings.vsync) + " -> "@ + bool_text(v)),
                )
            } else {
                (None, Some(quoted("You can not set vsync to "@, a, "."@)))
            }
        } else if c == "fps_limit"@ {
            if !has_arg {
                (None, Some("usage:\n  fps_limit [number]\n fps_limit="@ + decimal_of(settings.fps_limit as nat)))
            } else if let Some(n) = number_of(a) {
                (
                    Some(Message::ApplySettings(GameSettings { fps_limit: n, ..settings })),
                    Some("framerate limit set: "@ + decimal_of(settings.fps_limit as nat) + " -> "@
                        + decimal_of(n as nat)),
                )
            } else {
                (None, Some(quoted("You can not set your fps limit to "@, a, "."@)))
            }
        } else if c == "fullscreen"@ {
            if !has_arg {
                (
                    None,
                    Some("usage:\n  fullscreen [windowed/borderless/exclusive]\n fullscreen="@
                        + fullscreen_text(settings.fullscreen)),
                )
            } else if let Some(f) = fullscreen_word(a) {
                (Some(Message::ApplySettings(GameSettings { fullscreen: f, ..settings })), None)
            } else {
                (None, Some(quoted("Can not set fullscreen to "@, a, ""@)))
            }
        } else if c == "scene"@ {
            if !has_arg {
                (None, Some("usage:\n  scene [scene]"@))
            } else if a == "menu"@ {
                (Some(Message::SwitchScene(GameScene::Menu)), None)
            } else if a == "ingame"@ {
                (Some(Message::SwitchScene(GameScene::Ingame)), None)
            } else {
                (None, Some(quoted("There is no scene called "@, a, "."@)))
            }
        } else if c == "stage"@ {
            if !has_arg {
                (None, Some("usage:\n  stage [number]"@))
            } else if let Some(n) = number_of(a) {
                (Some(Message::ChangeLevel(n)), None)
            } else {
                (None, Some(quoted("Invalid stage "@, a, "."@)))
            }
        } else if c == "quit"@ || c == "exit"@ {
            (Some(Message::Exit), None)
        } else if c == "clear-cache"@ {
            (Some(Message::ClearCache), None)
        } else if c == "help"@ {
            (None, Some(HELP_MESSAGE@))
        } else {
            (None, Some(quoted(""@, c, " not defined."@)))
        }
    }
}

/// The history `h` after printing `line`.
pub open spec fn logged(h: Seq<Seq<char>>, line: Seq<char>) -> Seq<Seq<char>> {
    if h.len() + 1 >= HISTORY_LIMIT {
        h.push(line).drop_first()
    } else {
        h.push(line)
    }
}

/// The history `h` after printing `line`, if there is one.
pub open spec fn logged_opt(h: Seq<Seq<char>>, line: Option<Seq<char>>) -> Seq<Seq<char>> {
    match line {
        Some(l) => logged(h, l),
        None => h,
    }
}

/// The console's state.
pub struct Console {
    /// The settings that commands start from.
    pub settings: GameSettings,
    /// Whether it is shown.
    pub active: bool,
    /// Whether the input line should take the keyboard.
    pub focus: bool,
    /// The input line.
    pub text: String,
    /// The lines printed so far, oldest first.
    pub history: VecDeque<String>,
    /// The last command entered.
    pub last_command: String,
}

impl Console {
    /// The printed lines as text.
    pub open spec fn lines(self) -> Seq<Seq<char>> {
        self.history@.map_values(|s: String| s@)
    }

    /// A hidden console with nothing printed.
    pub fn new(settings: GameSettings) -> (r: Console)
        ensures
            r.settings == settings,
            !r.active,
            !r.focus,
            r.text@.len() == 0,
            r.lines().len() == 0,
            r.last_command@.len() == 0,
    {
        let r = Console {
            settings,
            active: false,
            focus: false,
            text: String::new(),
            history: VecDeque::new(),
            last_command: String::new(),
        };
        proof {
            assert(r.lines() =~= Seq::empty());
        }
        r
    }

    /// Shows or hides it; the input line takes the keyboard.
    pub fn toggle(&mut self)
        ensures
            final(self).active == !old(self).active,
            final(self).focus,
            final(self).settings == old(self).settings,
            final(self).text == old(self).text,
            final(self).history == old(self).history,
            final(self).last_command == old(self).last_command,
    {
        self.active = !self.active;
        self.focus = true;
    }

    /// Prints a line; the oldest goes once the history reaches
    /// `HISTORY_LIMIT` lines.
    pub fn print(&mut self, text: String)
        ensures
            final(self).lines() == logged(old(self).lines(), text@),
            final(self).settings == old(self).settings,
            final(self).active == old(self).active,
            final(self).focus == old(self).focus,
            final(self).text == old(self).text,
            final(self).last_command == old(self).last_command,
    {
        let ghost t = text@;
        self.history.push_back(text);
        proof {
            assert(self.lines() =~= old(self).lines().push(t));
        }
        if self.history.len() >= HISTORY_LIMIT {
            let _ = self.history.pop_front();
            proof {
                assert(self.lines() =~= old(self).lines().push(t).drop_first());
            }
        }
    }

    /// Runs the command in the input line: echoes it, keeps it as the last
    /// command, and obeys it, lowercased and cut into words.
    pub fn execute(&mut self) -> (r: Option<Message>)
        ensures
            ({
                let w = words_of(lower_of(old(self).text@));
                let echoed = logged(old(self).lines(), old(self).text@);
                &&& r == reply(old(self).settings, w).0
                &&& final(self).last_command@ == old(self).text@
                &&& final(self).text@ == old(self).text@
                &&& final(self).settings == old(self).settings
                &&& final(self).focus == old(self).focus
                &&& final(self).active == (old(self).active && !(w.len() > 0 && w[0] == "close"@))
                &&& final(self).lines() == if w.len() > 0 && w[0] == "clear"@ {
                    Seq::empty()
                } else {
                    logged_opt(echoed, reply(old(self).settings, w).1)
                }
            }),
    {
        let text = self.text.clone();
        self.print(text);
        self.last_command = self.text.clone();
        let lower = lowercase(self.text.as_str());
        let words = split_words(lower.as_str());
        self.run(&words)
    }

    /// Obeys the command `words`, already lowercased: prints the reply and
    /// hands back the message for the game. `close` hides the console and
    /// `clear` empties its history.
    pub fn run(&mut self, words: &Vec<String>) -> (r: Option<Message>)
        ensures
            ({
                let w = words@.map_values(|s: String| s@);
                &&& r == reply(old(self).settings, w).0
                &&& final(self).text == old(self).text
                &&& final(self).last_command == old(self).last_command
                &&& final(self).settings == old(self).settings
                &&& final(self).focus == old(self).focus
                &&& final(self).active == (old(self).active && !(w.len() > 0 && w[0] == "close"@))
                &&& final(self).lines() == if w.len() > 0 && w[0] == "clear"@ {
                    Seq::empty()
                } else {
                    logged_opt(old(self).lines(), reply(old(self).settings, w).1)
                }
            }),
    {
        let ghost w = words@.map_values(|s: String| s@);
        if words.len() == 0 {
            return None;
        }
        let c = &words[0];
        let has_arg = words.len() > 1;
        proof {
            assert(w[0] == c@);
            if has_arg {
                assert(w[1] == words@[1]@);
            }
        }
        if is(c, "close") {
            proof {
                reveal_strlit("close");
                reveal_strlit("clear");
                assert("close"@[2] == 'o' && "clear"@[2] == 'e');
            }
            self.active = false;
            return None;
        }
        if is(c, "clear") {
            self.history.clear();
            proof {
                assert(self.lines() =~= Seq::empty());
            }
            return None;
        }
        if is(c, "vsync") {
            if !has_arg {
                let mut line = String::new();
                line.append("usage:\n  vsync [on/off]\nvsync=");
                line.append(bool_str(self.settings.vsync));
                self.print(line);
                return None;
            }
            let a = &words[1];
            let vsync = if is(a, "on") || is(a, "true") || is(a, "enable") {
                true
            } else if is(a, "disable") || is(a, "false") || is(a, "off") {
                false
            } else {
                self.print(quote("You can not set vsync to ", a.as_str(), "."));
                return None;
            };
            let mut line = String::new();
            line.append("vsync set: ");
            line.append(bool_str(self.settings.vsync));
            line.append(" -> ");
            line.append(bool_str(vsync));
            self.print(line);
            return Some(Message::ApplySettings(GameSettings { vsync, ..self.settings }));
        }
        if is(c, "fps_limit") {
            if !has_arg {
                let mut line = String::new();
                line.append("usage:\n  fps_limit [number]\n fps_limit=");
                let n = decimal(self.settings.fps_limit);
                line.append(n.as_str());
                self.print(line);
                return None;
            }
            let a = &words[1];
            match parse_number(a.as_str()) {
                Some(fps_limit) => {
                    let mut line = String::new();
                    line.append("framerate limit set: ");
                    let before = decimal(self.settings.fps_limit);
                    line.append(before.as_str());
                    line.append(" -> ");
                    let after = decimal(fps_limit);
                    line.append(after.as_str());
                    self.print(line);
                    return Some(Message::ApplySettings(GameSettings { fps_limit, ..self.settings }));
                },
                None => {
                    self.print(quote("You can not set your fps limit to ", a.as_str(), "."));
                    return None;
                },
            }
        }
        if is(c, "fullscreen") {
            if !has_arg {
                let mut line = String::new();
                line.append("usage:\n  fullscreen [windowed/borderless/exclusive]\n fullscreen=");
                line.append(fullscreen_str(self.settings.fullscreen));
                self.print(line);
                return None;
            }
            let a = &words[1];
            let fullscreen = if is(a, "windowed") || is(a, "w") {
                Fullscreen::Windowed
            } else if is(a, "borderless") || is(a, "b") {
                Fullscreen::Borderless
            } else if is(a, "exclusive") || is(a, "x") {
                Fullscreen::Exclusive
            } else {
                self.print(quote("Can not set fullscreen to ", a.as_str(), ""));
                return None;
            };
            return Some(Message::ApplySettings(GameSettings { fullscreen, ..self.settings }));
        }
        if is(c, "scene") {
            if !has_arg {
                self.print("usage:\n  scene [scene]".to_owned());
                return None;
            }
            let a = &words[1];
            if is(a, "menu") {
                return Some(Message::SwitchScene(GameScene::Menu));
            }
            if is(a, "ingame") {
                return Some(Message::SwitchScene(GameScene::Ingame));
            }
            self.print(quote("There is no scene called ", a.as_str(), "."));
            return None;
        }
        if is(c, "stage") {
            if !has_arg {
                self.print("usage:\n  stage [number]".to_owned());
                return None;
            }
            let a = &words[1];
            return match parse_number(a.as_str()) {
                Some(stage) => Some(Message::ChangeLevel(stage)),
                None => {
                    self.print(quote("Invalid stage ", a.as_str(), "."));
                    None
                },
            };
        }
        if is(c, "quit") || is(c, "exit") {
            return Some(Message::Exit);
        }
        if is(c, "clear-cache") {
            return Some(Message::ClearCache);
        }
        if is(c, "help") {
            self.print(HELP_MESSAGE.to_owned());
            return None;
        }
        self.print(quote("", c.as_str(), " not defined."));
        None
    }
}

/// Whether `w` reads `lit`.
fn is(w: &String, lit: &str) -> (r: bool)
    ensures
        r == (w@ == lit@),
{
    let l = lit.to_owned();
    w.eq(&l)
}

/// `s` in double quotes between `before` and `after`.
fn quote(before: &str, s: &str, after: &str) -> (r: String)
    ensures
        r@ == quoted(before@, s@, after@),
{
    let mut r = String::new();
    r.append(before);
    r.append("\"");
    r.append(s);
    r.append("\"");
    r.append(after);
    r
}

/// `true` or `false`.
fn bool_str(b: bool) -> (r: &'static str)
    ensures
        r@ == bool_text(b),
{
    if b {
        "true"
    } else {
        "false"
    }
}

/// The name of a fullscreen mode.
fn fullscreen_str(f: Fullscreen) -> (r: &'static str)
    ensures
        r@ == fullscreen_text(f),
{
    match f {
        Fullscreen::Windowed => "Windowed",
        Fullscreen::Borderless => "Borderless",
        Fullscreen::Exclusive => "Exclusive",
    }
}

/// Relies on `str::to_lowercase`: the lowercase form, which depends on the
/// text alone.
#[verifier::external_body]
fn lowercase(s: &str) -> (r: String)
    ensures
        r@ == lower_of(s@),
{
    s.to_lowercase()
}

/// Relies on `str::split_ascii_whitespace`: the words between runs of
/// ASCII whitespace (space, tab, line feed, form feed, carriage return),
/// each as a `String`.
#[verifier::external_body]
fn split_words(s: &str) -> (r: Vec<String>)
    ensures
        r@.map_values(|w: String| w@) == words_of(s@),
{
    s.split_ascii_whitespace().map(|w| w.to_string()).collect()
}

/// Relies on `u32`'s `FromStr`: an optional `+` and one or more ASCII
/// digits whose value fits, and nothing else, give a number.
#[verifier::external_body]
fn parse_number(s: &str) -> (r: Option<u32>)
    ensures
        r == number_of(s@),
{
    s.parse::<u32>().ok()
}

/// Relies on `u32`'s `Display` through `to_string`: its decimal digits.
#[verifier::external_body]
fn decimal(n: u32) -> (r: String)
    ensures
        r@ == decimal_of(n as nat),
{
    n.to_string()
}

} // verus!
