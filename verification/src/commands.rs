//! The rate-limited command registry: a table of chat commands, each with an
//! independent cooldown, looked up under mutual exclusion per call.

use vstd::prelude::*;
use vstd::string::StringExecFns;
use crate::strutil::str_eq;

verus! {

/// One chat command: its name, reply template and rate-limiting state.
/// `last_called` is the only field that changes after construction; it is
/// set exactly when the command fires.
pub struct Command {
    pub name: String,
    pub response: String,
    pub timeout_seconds: u32,
    pub usage: String,
    pub requires_tag: bool,
    pub requires_arguments: bool,
    pub api_call: Option<String>,
    pub last_called: Option<i64>,
}

impl Clone for Command {
    fn clone(&self) -> (r: Self)
        ensures
            r == *self,
    {
        Command {
            name: self.name.clone(),
            response: self.response.clone(),
            timeout_seconds: self.timeout_seconds,
            usage: self.usage.clone(),
            requires_tag: self.requires_tag,
            requires_arguments: self.requires_arguments,
            api_call: match &self.api_call {
                Some(s) => Some(s.clone()),
                None => None,
            },
            last_called: self.last_called,
        }
    }
}

/// `c` after firing at time `now`.
pub open spec fn fired(c: Command, now: i64) -> Command {
    Command { last_called: Some(now), ..c }
}

/// Whether `c` may fire at time `now`: no cooldown configured, never fired
/// before, or the cooldown window has fully elapsed.
pub open spec fn eligible(c: Command, now: i64) -> bool {
    ||| c.timeout_seconds == 0
    ||| c.last_called is None
    ||| now - c.last_called->0 >= c.timeout_seconds
}

/// A lookup for a command that requires arguments, made without arguments,
/// bypasses the cooldown entirely so the caller can render usage text.
pub open spec fn bypasses_cooldown(c: Command, arguments_passed: bool) -> bool {
    c.requires_arguments && !arguments_passed
}

/// Index of the first command named `name`, or -1.
pub open spec fn find_idx(cs: Seq<Command>, name: Seq<char>) -> int
    decreases cs.len(),
{
    if cs.len() == 0 {
        -1
    } else if cs[0].name@ == name {
        0
    } else {
        let r = find_idx(cs.skip(1), name);
        if r == -1 {
            -1
        } else {
            r + 1
        }
    }
}

pub proof fn lemma_find_idx(cs: Seq<Command>, name: Seq<char>)
    ensures
        -1 <= find_idx(cs, name) < cs.len(),
        find_idx(cs, name) >= 0 ==> cs[find_idx(cs, name)].name@ == name,
        find_idx(cs, name) >= 0 ==> forall|j: int|
            0 <= j < find_idx(cs, name) ==> (#[trigger] cs[j]).name@ != name,
        find_idx(cs, name) == -1 ==> forall|j: int|
            0 <= j < cs.len() ==> (#[trigger] cs[j]).name@ != name,
    decreases cs.len(),
{
    if cs.len() > 0 && cs[0].name@ != name {
        lemma_find_idx(cs.skip(1), name);
        assert(forall|j: int| 1 <= j < cs.len() ==> cs[j] == cs.skip(1)[j - 1]);
    }
}

/// Updating one entry without changing its name leaves every lookup index
/// as it was.
pub proof fn lemma_find_idx_update(cs: Seq<Command>, name: Seq<char>, i: int, c2: Command)
    requires
        0 <= i < cs.len(),
        c2.name@ == cs[i].name@,
    ensures
        find_idx(cs.update(i, c2), name) == find_idx(cs, name),
    decreases cs.len(),
{
    if cs.len() > 0 {
        if i == 0 {
            if cs[0].name@ != name {
                assert(cs.update(i, c2).skip(1) =~= cs.skip(1));
            }
        } else {
            lemma_find_idx_update(cs.skip(1), name, i - 1, c2);
            assert(cs.update(i, c2).skip(1) =~= cs.skip(1).update(i - 1, c2));
            assert(cs.update(i, c2)[0] == cs[0]);
        }
    }
}

/// What one registry lookup does: the registry contents afterwards, and the
/// returned command, as a function of the contents, the queried name,
/// whether arguments were provided, and the current time.
pub open spec fn lookup_spec(
    cs: Seq<Command>,
    name: Seq<char>,
    arguments_passed: bool,
    now: i64,
) -> (Seq<Command>, Option<Command>) {
    let i = find_idx(cs, name);
    if i == -1 {
        (cs, None)
    } else {
        let c = cs[i];
        if bypasses_cooldown(c, arguments_passed) {
            (cs, Some(c))
        } else if eligible(c, now) {
            (cs.update(i, fired(c, now)), Some(fired(c, now)))
        } else {
            (cs, None)
        }
    }
}

/// The process-wide command table. Constructed once at startup and shared
/// (behind a lock) by every task that routes messages.
pub struct CommandRegistry {
    pub commands: Vec<Command>,
}

impl CommandRegistry {
    /// Command names are unique keys.
    pub open spec fn wf(self) -> bool {
        forall|i: int, j: int|
            0 <= i < j < self.commands@.len() ==> (#[trigger] self.commands@[i]).name@ != (
            #[trigger] self.commands@[j]).name@
    }

    pub fn new() -> (r: Self)
        ensures
            r.commands@.len() == 0,
            r.wf(),
    {
        CommandRegistry { commands: Vec::new() }
    }

    /// Adds a command under a name not yet present.
    pub fn register(&mut self, c: Command)
        requires
            find_idx(old(self).commands@, c.name@) == -1,
        ensures
            final(self).commands@ == old(self).commands@.push(c),
            old(self).wf() ==> final(self).wf(),
    {
        proof {
            lemma_find_idx(self.commands@, c.name@);
        }
        self.commands.push(c);
    }

    /// One rate-limited lookup at time `now`; see `lookup_spec` for the
    /// exact behaviour. Firing updates `last_called` under the same borrow,
    /// so two overlapping lookups of one command cannot both fire within
    /// the cooldown window.
    pub fn lookup_at(&mut self, command_text: &str, arguments_passed: bool, now: i64) -> (r:
        Option<Command>)
        ensures
            (final(self).commands@, r) == lookup_spec(
                old(self).commands@,
                command_text@,
                arguments_passed,
                now,
            ),
            old(self).wf() ==> final(self).wf(),
    {
        let ghost cs = self.commands@;
        let n = self.commands.len();
        let mut idx: usize = 0;
        while idx < n
            invariant
                idx <= n,
                n == cs.len(),
                self.commands@ == cs,
                cs == old(self).commands@,
                forall|j: int| 0 <= j < idx ==> (#[trigger] cs[j]).name@ != command_text@,
            decreases n - idx,
        {
            if str_eq(self.commands[idx].name.as_str(), command_text) {
                proof {
                    lemma_find_idx(cs, command_text@);
                    let r = find_idx(cs, command_text@);
                    assert(cs[idx as int].name@ == command_text@);
                    if r == -1 {
                        assert(cs[idx as int].name@ != command_text@);
                    } else if r < idx {
                        assert(cs[r].name@ != command_text@);
                    } else if r > idx {
                        assert(cs[idx as int].name@ != command_text@);
                    }
                    assert(r == idx);
                }
                let c = self.commands[idx].clone();
                if c.requires_arguments && !arguments_passed {
                    return Some(c);
                }
                let elig = c.timeout_seconds == 0 || match c.last_called {
                    None => true,
                    Some(t) => (now as i128) - (t as i128) >= (c.timeout_seconds as i128),
                };
                if elig {
                    self.commands[idx].last_called = Some(now);
                    let c2 = self.commands[idx].clone();
                    proof {
                        assert(self.commands@ =~= cs.update(idx as int, fired(cs[idx as int], now)));
                        assert(forall|k: int|
                            0 <= k < cs.len() ==> (#[trigger] self.commands@[k]).name@
                                == cs[k].name@);
                        if old(self).wf() {
                            assert forall|i2: int, j2: int|
                                0 <= i2 < j2 < self.commands@.len() implies (
                            #[trigger] self.commands@[i2]).name@ != (
                            #[trigger] self.commands@[j2]).name@ by {
                                assert(cs[i2].name@ != cs[j2].name@);
                            }
                        }
                    }
                    return Some(c2);
                } else {
                    return None;
                }
            }
            idx = idx + 1;
        }
        proof {
            lemma_find_idx(cs, command_text@);
            let r = find_idx(cs, command_text@);
            if r >= 0 {
                assert(cs[r].name@ != command_text@);
            }
        }
        None
    }
}

/// Looks `command_text` up in the registry at the current wall-clock time.
/// Whatever the clock returned, the outcome is one rate-limited lookup at
/// that instant.
pub fn get_command(registry: &mut CommandRegistry, command_text: String, arguments_passed: bool)
    -> (r: Option<Command>)
    ensures
        exists|now: i64|
            (final(registry).commands@, r) == #[trigger] lookup_spec(
                old(registry).commands@,
                command_text@,
                arguments_passed,
                now,
            ),
        old(registry).wf() ==> final(registry).wf(),
{
    let now = crate::clock::now_seconds();
    let r = registry.lookup_at(command_text.as_str(), arguments_passed, now);
    proof {
        assert((final(registry).commands@, r) == lookup_spec(
            old(registry).commands@,
            command_text@,
            arguments_passed,
            now,
        ));
    }
    r
}

impl Command {
    /// Builds a command that has never fired.
    pub fn new(
        name: String,
        response: String,
        timeout_seconds: u32,
        usage: String,
        requires_tag: bool,
        requires_arguments: bool,
        api_call: Option<String>,
    ) -> (r: Self)
        ensures
            r.name == name,
            r.response == response,
            r.timeout_seconds == timeout_seconds,
            r.usage == usage,
            r.requires_tag == requires_tag,
            r.requires_arguments == requires_arguments,
            r.api_call == api_call,
            r.last_called is None,
    {
        Self { name, response, timeout_seconds, usage, requires_tag, requires_arguments, api_call, last_called: None }
    }

    /// Stamps the command as fired at the current wall-clock time.
    pub fn update_last_called(&mut self)
        ensures
            exists|now: i64| *final(self) == #[trigger] fired(*old(self), now),
    {
        let now = crate::clock::now_seconds();
        self.last_called = Some(now);
        proof {
            assert(*final(self) == fired(*old(self), now));
        }
    }
}

/// After a command with a positive cooldown fires at time `t`, a lookup of
/// the same command at any time `t2` within the cooldown window returns
/// nothing and leaves the registry unchanged; at or after the end of the
/// window it fires again and restarts the window.
pub proof fn lemma_cooldown_window(cs: Seq<Command>, name: Seq<char>, t: i64, t2: i64)
    requires
        find_idx(cs, name) >= 0,
        cs[find_idx(cs, name)].timeout_seconds > 0,
        !cs[find_idx(cs, name)].requires_arguments,
        eligible(cs[find_idx(cs, name)], t),
        t <= t2,
    ensures
        ({
            let i = find_idx(cs, name);
            let c = cs[i];
            let cs2 = lookup_spec(cs, name, true, t).0;
            &&& lookup_spec(cs, name, true, t) == (cs.update(i, fired(c, t)), Some::<Command>(
                fired(c, t),
            ))
            &&& t2 - t < c.timeout_seconds ==> lookup_spec(cs2, name, true, t2) == (
            cs2,
            None::<Command>,
            )
            &&& t2 - t >= c.timeout_seconds ==> lookup_spec(cs2, name, true, t2) == (
            cs2.update(i, fired(fired(c, t), t2)),
            Some::<Command>(fired(fired(c, t), t2)),
            )
        }),
{
    let i = find_idx(cs, name);
    let c = cs[i];
    lemma_find_idx(cs, name);
    lemma_find_idx_update(cs, name, i, fired(c, t));
}

/// A command with no cooldown fires on every lookup that provides what it
/// requires, however frequent the calls.
pub proof fn lemma_zero_cooldown_always_fires(
    cs: Seq<Command>,
    name: Seq<char>,
    arguments_passed: bool,
    now: i64,
)
    requires
        find_idx(cs, name) >= 0,
        cs[find_idx(cs, name)].timeout_seconds == 0,
        !bypasses_cooldown(cs[find_idx(cs, name)], arguments_passed),
    ensures
        lookup_spec(cs, name, arguments_passed, now).1 == Some(
            fired(cs[find_idx(cs, name)], now),
        ),
{
    lemma_find_idx(cs, name);
}

/// A lookup of a command that requires arguments, made without arguments,
/// always returns the command and never touches `last_called` or any other
/// registry state.
pub proof fn lemma_usage_lookup_bypasses_cooldown(cs: Seq<Command>, name: Seq<char>, now: i64)
    requires
        find_idx(cs, name) >= 0,
        cs[find_idx(cs, name)].requires_arguments,
    ensures
        lookup_spec(cs, name, false, now) == (cs, Some::<Command>(cs[find_idx(cs, name)])),
{
    lemma_find_idx(cs, name);
}

/// A lookup changes no command's name, and changes `last_called` at most to
/// `Some(now)`: under a non-decreasing clock every command's `last_called`
/// is monotonically non-decreasing.
pub proof fn lemma_last_called_monotone(
    cs: Seq<Command>,
    name: Seq<char>,
    arguments_passed: bool,
    now: i64,
)
    ensures
        ({
            let cs2 = lookup_spec(cs, name, arguments_passed, now).0;
            &&& cs2.len() == cs.len()
            &&& forall|k: int|
                0 <= k < cs.len() ==> (#[trigger] cs2[k]).last_called == cs[k].last_called || cs2[k]
                    == fired(cs[k], now)
        }),
{
    lemma_find_idx(cs, name);
}

/// The sequence of lookups of `name` at the given times, each with
/// arguments provided: the resulting registry contents and how many of the
/// lookups returned a command (fired or bypassed).
pub open spec fn run_lookups(cs: Seq<Command>, name: Seq<char>, times: Seq<i64>) -> (Seq<
    Command,
>, nat)
    decreases times.len(),
{
    if times.len() == 0 {
        (cs, 0)
    } else {
        let step = lookup_spec(cs, name, true, times[0]);
        let rest = run_lookups(step.0, name, times.skip(1));
        (rest.0, rest.1 + if step.1 is Some {
            1nat
        } else {
            0nat
        })
    }
}

proof fn lemma_no_fire_in_window(cs: Seq<Command>, name: Seq<char>, t: i64, times: Seq<i64>)
    requires
        find_idx(cs, name) >= 0,
        cs[find_idx(cs, name)].timeout_seconds > 0,
        !cs[find_idx(cs, name)].requires_arguments,
        cs[find_idx(cs, name)].last_called == Some(t),
        forall|k: int|
            0 <= k < times.len() ==> t <= #[trigger] times[k] < t + cs[find_idx(
                cs,
                name,
            )].timeout_seconds,
    ensures
        run_lookups(cs, name, times) == (cs, 0nat),
    decreases times.len(),
{
    if times.len() > 0 {
        lemma_find_idx(cs, name);
        assert(t <= times[0] < t + cs[find_idx(cs, name)].timeout_seconds);
        assert(lookup_spec(cs, name, true, times[0]) == (cs, None::<Command>));
        assert(forall|k: int|
            0 <= k < times.skip(1).len() ==> #[trigger] times.skip(1)[k] == times[k + 1]);
        lemma_no_fire_in_window(cs, name, t, times.skip(1));
    }
}

/// Simultaneous lookups: if a command with a positive cooldown is eligible
/// at time `t` and several lookups of it race, all at times within the
/// window opened at `t` and the first exactly at `t`, then exactly one of
/// them receives the command.
pub proof fn lemma_exactly_one_fire(cs: Seq<Command>, name: Seq<char>, times: Seq<i64>)
    requires
        find_idx(cs, name) >= 0,
        cs[find_idx(cs, name)].timeout_seconds > 0,
        !cs[find_idx(cs, name)].requires_arguments,
        eligible(cs[find_idx(cs, name)], times[0]),
        times.len() >= 1,
        forall|k: int|
            1 <= k < times.len() ==> times[0] <= #[trigger] times[k] < times[0] + cs[find_idx(
                cs,
                name,
            )].timeout_seconds,
    ensures
        run_lookups(cs, name, times).1 == 1,
{
    let i = find_idx(cs, name);
    let c = cs[i];
    let t = times[0];
    lemma_find_idx(cs, name);
    let cs2 = cs.update(i, fired(c, t));
    assert(lookup_spec(cs, name, true, t) == (cs2, Some::<Command>(fired(c, t))));
    lemma_find_idx_update(cs, name, i, fired(c, t));
    assert(cs2[find_idx(cs2, name)] == fired(c, t));
    assert(forall|k: int|
        0 <= k < times.skip(1).len() ==> #[trigger] times.skip(1)[k] == times[k + 1]);
    lemma_no_fire_in_window(cs2, name, t, times.skip(1));
}

/// The fixed command table the bot starts with: a greeting that tags the
/// sender, a repository link, and a song request that requires arguments
/// and triggers the external search-and-queue action.
pub fn default_registry() -> (r: CommandRegistry)
    ensures
        r.wf(),
        r.commands@.len() == 3,
        r.commands@[0].name@ == "!hi"@,
        r.commands@[0].response@ == "Salve @<user>"@,
        r.commands@[0].timeout_seconds == 60,
        r.commands@[0].usage@ == ""@,
        r.commands@[0].requires_tag,
        !r.commands@[0].requires_arguments,
        r.commands@[0].api_call is None,
        r.commands@[0].last_called is None,
        r.commands@[1].name@ == "!github"@,
        r.commands@[1].response@ == "https://github.com/vininew921"@,
        r.commands@[1].timeout_seconds == 60,
        r.commands@[1].usage@ == ""@,
        !r.commands@[1].requires_tag,
        !r.commands@[1].requires_arguments,
        r.commands@[1].api_call is None,
        r.commands@[1].last_called is None,
        r.commands@[2].name@ == "!sr"@,
        r.commands@[2].response@ == "Musica <song> adicionada a fila"@,
        r.commands@[2].timeout_seconds == 30,
        r.commands@[2].usage@ == "Song request: !sr nome da musica"@,
        !r.commands@[2].requires_tag,
        r.commands@[2].requires_arguments,
        r.commands@[2].api_call matches Some(a) && a@ == "play_track"@,
        r.commands@[2].last_called is None,
{
    let mut reg = CommandRegistry::new();
    let hi = Command::new(
        String::from_str("!hi"),
        String::from_str("Salve @<user>"),
        60,
        String::from_str(""),
        true,
        false,
        None,
    );
    let github = Command::new(
        String::from_str("!github"),
        String::from_str("https://github.com/vininew921"),
        60,
        String::from_str(""),
        false,
        false,
        None,
    );
    let sr = Command::new(
        String::from_str("!sr"),
        String::from_str("Musica <song> adicionada a fila"),
        30,
        String::from_str("Song request: !sr nome da musica"),
        false,
        true,
        Some(String::from_str("play_track")),
    );
    proof {
        reveal_strlit("!hi");
        reveal_strlit("!github");
        reveal_strlit("!sr");
        assert("!hi"@.len() == 3);
        assert("!github"@.len() == 7);
        assert("!sr"@.len() == 3);
        assert("!hi"@ != "!sr"@) by {
            assert("!hi"@[1] == 'h');
            assert("!sr"@[1] == 's');
        }
        lemma_find_idx(reg.commands@, hi.name@);
    }
    reg.register(hi);
    proof {
        lemma_find_idx(reg.commands@, github.name@);
    }
    reg.register(github);
    proof {
        lemma_find_idx(reg.commands@, sr.name@);
    }
    reg.register(sr);
    reg
}

} // verus!
