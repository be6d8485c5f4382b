//! What the operator asks for: the controller, the credentials, the command.

use crate::text::same_text;
use vstd::prelude::*;
use vstd::string::*;

verus! {

/// A command and its optional argument, the identifier of a system.
#[derive(Debug)]
pub struct RedfishUtilCmd {
    pub cmd: String,
    pub arg: Option<String>,
}

/// A command as a mathematical value.
pub struct CommandLine {
    pub cmd: Seq<char>,
    pub arg: Option<Seq<char>>,
}

impl View for RedfishUtilCmd {
    type V = CommandLine;

    open spec fn view(&self) -> CommandLine {
        CommandLine { cmd: self.cmd@, arg: self.arg.deep_view() }
    }
}

/// The position of the first `c` in a text; the length of the text where
/// there is none.
pub open spec fn position(s: Seq<char>, c: char) -> int
    decreases s.len(),
{
    if s.len() == 0 {
        0
    } else if s[0] == c {
        0
    } else {
        1 + position(s.drop_first(), c)
    }
}

/// A command as it is written on the command line: the command alone, or
/// the command, a colon and the argument. More than one colon is no
/// command.
pub open spec fn command_line(text: Seq<char>) -> Option<CommandLine> {
    let i = position(text, ':');
    if i >= text.len() {
        Some(CommandLine { cmd: text, arg: None })
    } else {
        let rest = text.subrange(i + 1, text.len() as int);
        if position(rest, ':') < rest.len() {
            None
        } else {
            Some(CommandLine { cmd: text.subrange(0, i), arg: Some(rest) })
        }
    }
}

/// Where no `c` stands before `i`, and `i` is the end or holds `c`, the
/// first `c` is at `i`.
proof fn position_found(s: Seq<char>, c: char, i: int)
    requires
        0 <= i <= s.len(),
        forall|k: int| 0 <= k < i ==> s[k] != c,
        i < s.len() ==> s[i] == c,
    ensures
        position(s, c) == i,
    decreases s.len(),
{
    if s.len() > 0 && i > 0 {
        let rest = s.drop_first();
        assert forall|k: int| 0 <= k < i - 1 implies rest[k] != c by {
            assert(rest[k] == s[k + 1]);
        }
        position_found(rest, c, i - 1);
    }
}

/// The position of the first `c` in a text at or after `from`; the length
/// of the text where there is none.
fn find_char(text: &str, c: char, from: usize) -> (i: usize)
    requires
        from <= text@.len(),
    ensures
        from <= i <= text@.len(),
        forall|k: int| from <= k < i ==> text@[k] != c,
        i < text@.len() ==> text@[i as int] == c,
{
    let n = text.unicode_len();
    let mut i: usize = from;
    while i < n
        invariant
            from <= i <= n,
            n == text@.len(),
            forall|k: int| from <= k < i ==> text@[k] != c,
        decreases n - i,
    {
        if text.get_char(i) == c {
            return i;
        }
        i = i + 1;
    }
    i
}

impl RedfishUtilCmd {
    /// A command with its argument, as given.
    pub fn new(cmd: String, arg: Option<String>) -> (r: RedfishUtilCmd)
        ensures
            r.cmd == cmd,
            r.arg == arg,
    {
        RedfishUtilCmd { cmd, arg }
    }

    /// Reads a command as it is written on the command line: `CMD` or
    /// `CMD:ARG`. None where the text holds more than one colon.
    pub fn parse(text: &str) -> (r: Option<RedfishUtilCmd>)
        ensures
            r.deep_view() == command_line(text@),
    {
        let n = text.unicode_len();
        let i = find_char(text, ':', 0);
        proof {
            position_found(text@, ':', i as int);
        }
        if i >= n {
            Some(RedfishUtilCmd { cmd: text.to_owned(), arg: None })
        } else {
            let k = find_char(text, ':', i + 1);
            let ghost rest = text@.subrange(i + 1, n as int);
            proof {
                assert forall|m: int| 0 <= m < k - (i + 1) implies rest[m] != ':' by {
                    assert(rest[m] == text@[m + i + 1]);
                }
                position_found(rest, ':', k - (i + 1));
            }
            if k < n {
                None
            } else {
                let cmd = text.substring_char(0, i).to_owned();
                let arg = text.substring_char(i + 1, n).to_owned();
                Some(RedfishUtilCmd { cmd, arg: Some(arg) })
            }
        }
    }
}

impl DeepView for RedfishUtilCmd {
    type V = CommandLine;

    open spec fn deep_view(&self) -> CommandLine {
        self@
    }
}

/// Everything one run needs to know.
#[derive(Debug)]
pub struct Config {
    /// Trace requests and responses.
    pub debug: bool,
    /// Accept a certificate that cannot be verified.
    pub insecure: bool,
    pub user: String,
    pub passwd: String,
    pub host: String,
    pub cmd: RedfishUtilCmd,
    /// How many seconds to wait for an answer; the transport's own limit
    /// where none is given.
    pub timeout: Option<u64>,
}

/// A configuration as a mathematical value.
pub struct Settings {
    pub debug: bool,
    pub insecure: bool,
    pub user: Seq<char>,
    pub passwd: Seq<char>,
    pub host: Seq<char>,
    pub cmd: CommandLine,
    pub timeout: Option<u64>,
}

impl View for Config {
    type V = Settings;

    open spec fn view(&self) -> Settings {
        Settings {
            debug: self.debug,
            insecure: self.insecure,
            user: self.user@,
            passwd: self.passwd@,
            host: self.host@,
            cmd: self.cmd@,
            timeout: self.timeout,
        }
    }
}

impl Config {
    /// A configuration of its parts, as given, that leaves the time to wait
    /// for an answer to the transport.
    pub fn new(
        debug: bool,
        insecure: bool,
        user: String,
        passwd: String,
        host: String,
        cmd: RedfishUtilCmd,
    ) -> (r: Config)
        ensures
            r.debug == debug,
            r.insecure == insecure,
            r.user == user,
            r.passwd == passwd,
            r.host == host,
            r.cmd == cmd,
            r.timeout is None,
    {
        Config { debug, insecure, user, passwd, host, cmd, timeout: None }
    }

    /// The same configuration, waiting `seconds` for each answer.
    pub fn with_timeout(self, seconds: u64) -> (r: Config)
        ensures
            r@ == (Settings { timeout: Some(seconds), ..self@ }),
    {
        Config {
            debug: self.debug,
            insecure: self.insecure,
            user: self.user,
            passwd: self.passwd,
            host: self.host,
            cmd: self.cmd,
            timeout: Some(seconds),
        }
    }
}

/// One named controller of a configuration file.
#[derive(Debug)]
pub struct ConfigFileEntry {
    pub name: String,
    pub host: String,
    pub user: String,
    pub passwd: String,
}

/// A configuration file: where it was read from and the controllers it names.
#[derive(Debug)]
pub struct ConfigFile {
    pub filename: String,
    pub entries: Vec<ConfigFileEntry>,
}

impl Default for ConfigFileEntry {
    /// An entry with nothing in it.
    fn default() -> (r: ConfigFileEntry)
        ensures
            r.name@ == Seq::<char>::empty(),
            r.host@ == Seq::<char>::empty(),
            r.user@ == Seq::<char>::empty(),
            r.passwd@ == Seq::<char>::empty(),
    {
        ConfigFileEntry {
            name: String::new(),
            host: String::new(),
            user: String::new(),
            passwd: String::new(),
        }
    }
}

impl Default for ConfigFile {
    /// A file without a name and without entries.
    fn default() -> (r: ConfigFile)
        ensures
            r.filename@ == Seq::<char>::empty(),
            r.entries@ == Seq::<ConfigFileEntry>::empty(),
    {
        ConfigFile { filename: String::new(), entries: Vec::new() }
    }
}

impl ConfigFile {
    /// Whether no entry before position `i` has the name.
    pub open spec fn unnamed_before(&self, name: Seq<char>, i: int) -> bool {
        forall|k: int| 0 <= k < i ==> (#[trigger] self.entries[k]).name@ != name
    }

    /// The position of the first entry with the given name.
    pub fn find(&self, name: &str) -> (r: Option<usize>)
        ensures
            match r {
                Some(i) => i < self.entries.len() && self.entries[i as int].name@ == name@
                    && self.unnamed_before(name@, i as int),
                None => self.unnamed_before(name@, self.entries.len() as int),
            },
    {
        let mut i: usize = 0;
        while i < self.entries.len()
            invariant
                i <= self.entries.len(),
                self.unnamed_before(name@, i as int),
            decreases self.entries.len() - i,
        {
            if same_text(self.entries[i].name.as_str(), name) {
                return Some(i);
            }
            i = i + 1;
        }
        None
    }
}

} // verus!
