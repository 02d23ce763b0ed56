//! Starting a proxy: checking its arguments, announcing it, and deciding
//! how its child process is launched.

use vstd::prelude::*;
use vstd::string::*;
use crate::text::{is_whitespace, trimmed_start};
use crate::types::{ProxyId, ProxyInfo, ProxyStats, ProxyStatus};

verus! {

/// What a proxy is started with.
#[derive(Debug, Clone)]
pub struct ProxyArgs {
    pub command: String,
    pub name: String,
    pub ipc_socket: String,
    pub verbose: bool,
    pub shell: bool,
    pub no_monitor: bool,
}

/// Why a proxy cannot start its child.
#[derive(Debug, Clone, Copy, PartialEq, Eq, Structural)]
pub enum LaunchError {
    /// The command is the empty text.
    NoCommand,
    /// The command holds nothing but whitespace.
    EmptyCommand,
}

impl LaunchError {
    /// The error as a sentence.
    pub fn message(&self) -> (text: &'static str)
        ensures
            text@ == match self {
                LaunchError::NoCommand => "No command specified"@,
                LaunchError::EmptyCommand => "Empty command"@,
            },
    {
        match self {
            LaunchError::NoCommand => "No command specified",
            LaunchError::EmptyCommand => "Empty command",
        }
    }
}

/// The program to run for the child, and its arguments.
#[derive(Debug, Clone)]
pub struct LaunchPlan {
    pub program: String,
    pub args: Vec<String>,
}

/// The number of characters before the first whitespace of `s`.
pub open spec fn word_len(s: Seq<char>) -> nat
    decreases s.len(),
{
    if s.len() > 0 && !is_whitespace(s[0]) {
        1 + word_len(s.drop_first())
    } else {
        0
    }
}

/// The words of `s`: its maximal runs of characters that are not whitespace,
/// in order.
pub open spec fn words(s: Seq<char>) -> Seq<Seq<char>>
    decreases s.len(),
    via words_decreases
{
    let t = trimmed_start(s);
    if t.len() == 0 {
        Seq::empty()
    } else {
        seq![t.take(word_len(t) as int)] + words(t.skip(word_len(t) as int))
    }
}

#[via_fn]
proof fn words_decreases(s: Seq<char>) {
    let t = trimmed_start(s);
    if t.len() > 0 {
        lemma_trimmed_start_shape(s);
        lemma_word_len_bound(t);
    }
}

/// Trimming the start never lengthens a text and leaves no whitespace in
/// front.
pub proof fn lemma_trimmed_start_shape(s: Seq<char>)
    ensures
        trimmed_start(s).len() <= s.len(),
        trimmed_start(s).len() > 0 ==> !is_whitespace(trimmed_start(s)[0]),
    decreases s.len(),
{
    if s.len() > 0 && is_whitespace(s[0]) {
        lemma_trimmed_start_shape(s.drop_first());
    }
}

/// A word is no longer than its text.
pub proof fn lemma_word_len_bound(s: Seq<char>)
    ensures
        word_len(s) <= s.len(),
    decreases s.len(),
{
    if s.len() > 0 && !is_whitespace(s[0]) {
        lemma_word_len_bound(s.drop_first());
    }
}

/// The words of a text that starts with whitespace are those of the rest.
proof fn lemma_words_skip_space(s: Seq<char>, i: int)
    requires
        0 <= i < s.len(),
        is_whitespace(s[i]),
    ensures
        words(s.skip(i)) == words(s.skip(i + 1)),
{
    assert(s.skip(i).drop_first() =~= s.skip(i + 1));
    assert(trimmed_start(s.skip(i)) == trimmed_start(s.skip(i + 1)));
}

/// A word that goes on for one more character.
proof fn lemma_word_len_step(s: Seq<char>, i: int)
    requires
        0 <= i < s.len(),
        !is_whitespace(s[i]),
    ensures
        word_len(s.skip(i)) == 1 + word_len(s.skip(i + 1)),
{
    assert(s.skip(i).drop_first() =~= s.skip(i + 1));
}

/// The views of a sequence of strings.
pub open spec fn texts(v: Seq<String>) -> Seq<Seq<char>> {
    Seq::new(v.len(), |k: int| v[k]@)
}

/// Whether `c` has the `White_Space` property.
pub fn char_is_whitespace(c: char) -> (r: bool)
    ensures
        r == is_whitespace(c),
{
    let n: u32 = c as u32;
    (0x09 <= n && n <= 0x0D) || n == 0x20 || n == 0x85 || n == 0xA0 || n == 0x1680 || (0x2000 <= n
        && n <= 0x200A) || n == 0x2028 || n == 0x2029 || n == 0x202F || n == 0x205F || n == 0x3000
}

/// Splits `s` at whitespace into its words.
pub fn split_words(s: &str) -> (r: Vec<String>)
    ensures
        texts(r@) == words(s@),
{
    let n = s.unicode_len();
    let mut out: Vec<String> = Vec::new();
    let mut i: usize = 0;
    assert(s@.skip(0) =~= s@);
    assert(texts(out@) + words(s@.skip(0)) =~= words(s@));
    loop
        invariant
            i <= n,
            n == s@.len(),
            texts(out@) + words(s@.skip(i as int)) == words(s@),
        ensures
            texts(out@) == words(s@),
        decreases n - i,
    {
        let ghost entered = i;
        while i < n && char_is_whitespace(s.get_char(i))
            invariant
                entered <= i <= n,
                n == s@.len(),
                texts(out@) + words(s@.skip(i as int)) == words(s@),
            decreases n - i,
        {
            proof {
                lemma_words_skip_space(s@, i as int);
            }
            i = i + 1;
        }
        if i >= n {
            assert(s@.skip(i as int) =~= Seq::<char>::empty());
            assert(words(s@.skip(i as int)) =~= Seq::<Seq<char>>::empty());
            assert(texts(out@) + Seq::<Seq<char>>::empty() =~= texts(out@));
            break ;
        }
        let start = i;
        let ghost t = s@.skip(start as int);
        assert(t[0] == s@[start as int]);
        assert(trimmed_start(t) == t);
        proof {
            lemma_word_len_step(s@, i as int);
        }
        i = i + 1;
        while i < n && !char_is_whitespace(s.get_char(i))
            invariant
                start < i <= n,
                n == s@.len(),
                t == s@.skip(start as int),
                word_len(t) == (i - start) + word_len(s@.skip(i as int)),
            decreases n - i,
        {
            proof {
                lemma_word_len_step(s@, i as int);
            }
            i = i + 1;
        }
        proof {
            if i < n {
                assert(s@.skip(i as int)[0] == s@[i as int]);
            }
            assert(word_len(s@.skip(i as int)) == 0);
            assert(word_len(t) == i - start);
        }
        let word = s.substring_char(start, i).to_owned();
        let ghost before = out@;
        out.push(word);
        proof {
            assert(word@ =~= t.take(word_len(t) as int));
            assert(t.skip(word_len(t) as int) =~= s@.skip(i as int));
            assert(words(t) == seq![word@] + words(s@.skip(i as int)));
            assert(texts(out@) =~= texts(before).push(word@));
            assert(texts(out@) + words(s@.skip(i as int)) =~= texts(before) + words(t));
        }
    }
    out
}

/// What launching `command` means: through the shell, `sh -c command`;
/// directly, the first word of the command with the other words as
/// arguments.
pub open spec fn launch_of(command: Seq<char>, use_shell: bool) -> Result<
    (Seq<char>, Seq<Seq<char>>),
    LaunchError,
> {
    if command.len() == 0 {
        Err(LaunchError::NoCommand)
    } else if use_shell {
        Ok(("sh"@, seq!["-c"@, command]))
    } else if words(command).len() == 0 {
        Err(LaunchError::EmptyCommand)
    } else {
        Ok((words(command)[0], words(command).skip(1)))
    }
}

/// Decides how the child process for `command` is launched.
pub fn plan_launch(command: &str, use_shell: bool) -> (r: Result<LaunchPlan, LaunchError>)
    ensures
        match r {
            Ok(plan) => launch_of(command@, use_shell) == Ok::<_, LaunchError>(
                (plan.program@, texts(plan.args@)),
            ),
            Err(e) => launch_of(command@, use_shell) == Err::<(Seq<char>, Seq<Seq<char>>), _>(e),
        },
{
    if command.is_empty() {
        return Err(LaunchError::NoCommand);
    }
    if use_shell {
        let mut args: Vec<String> = Vec::new();
        args.push("-c".to_owned());
        args.push(command.to_owned());
        let plan = LaunchPlan { program: "sh".to_owned(), args };
        assert(texts(plan.args@) =~= seq!["-c"@, command@]);
        Ok(plan)
    } else {
        let mut parts = split_words(command);
        if parts.len() == 0 {
            return Err(LaunchError::EmptyCommand);
        }
        let ghost all = parts@;
        let program = parts.remove(0);
        assert(texts(parts@) =~= texts(all).skip(1));
        assert(program@ == texts(all)[0]);
        Ok(LaunchPlan { program, args: parts })
    }
}

/// How a proxy announces itself when it starts: under its identifier and
/// name, listening on its standard streams, with the command as given, in
/// the starting state.
pub fn started_info(id: ProxyId, name: String, command: String, stats: ProxyStats) -> (info:
    ProxyInfo)
    ensures
        info.id == id,
        info.name == name,
        info.listen_address@ == "stdio"@,
        info.target_command@ == seq![command],
        info.status is Starting,
        info.stats == stats,
{
    let mut target_command: Vec<String> = Vec::new();
    target_command.push(command);
    let info = ProxyInfo {
        id,
        name,
        listen_address: "stdio".to_owned(),
        target_command,
        status: ProxyStatus::Starting,
        stats,
    };
    assert(info.target_command@ =~= seq![command]);
    info
}

impl ProxyArgs {
    /// Whether a command was given; without one the proxy does not start.
    pub fn has_command(&self) -> (r: bool)
        ensures
            r == (self.command@.len() > 0),
    {
        !self.command.as_str().is_empty()
    }

    /// The socket of the monitor to report to, unless reporting is off.
    pub fn monitor_socket(&self) -> (socket: Option<&str>)
        ensures
            socket is Some == !self.no_monitor,
            socket matches Some(path) ==> path@ == self.ipc_socket@,
    {
        if self.no_monitor {
            None
        } else {
            Some(self.ipc_socket.as_str())
        }
    }
}

} // verus!
