//! The plugin runtime: plugin metadata and triggers, the registry that lists
//! plugins in the order they were registered, and the dispatch step of a
//! plugin's loop, which reads its message ports in turn and says which
//! callback, if any, a message calls.

use crate::bus::{BusView, RecvError, SignalHub, SignalPort};
use crate::event::{EventHubs, EventManager, GroupMessageEvent, PrivateMessageEvent};
use vstd::prelude::*;

verus! {

/// When a plugin reacts to a message.
#[derive(Debug, Clone, PartialEq)]
pub enum Trigger {
    /// When the raw text starts with this prefix.
    StartWith(String),
    /// When this regular expression matches the raw text; a pattern that
    /// does not compile matches nothing.
    Pattern(String),
    /// On every message.
    Always,
}

/// Whether the regular expression `pattern` compiles (`Some`) and, if so,
/// whether it matches somewhere in `text`.
pub uninterp spec fn regex_match(pattern: Seq<char>, text: Seq<char>) -> Option<bool>;

/// Relies on regex::Regex::new, which fails on a pattern that does not
/// compile, and Regex::is_match, which reports a match anywhere in `text`;
/// the outcome depends on the two strings alone.
#[verifier::external_body]
fn pattern_matches(pattern: &str, text: &str) -> (r: Option<bool>)
    ensures
        r == regex_match(pattern@, text@),
{
    regex::Regex::new(pattern).ok().map(|re| re.is_match(text))
}

pub open spec fn starts_with(text: Seq<char>, prefix: Seq<char>) -> bool {
    prefix.len() <= text.len() && text.subrange(0, prefix.len() as int) == prefix
}

/// Whether `trigger` fires on a message whose raw text is `text`.
pub open spec fn fires(trigger: Trigger, text: Seq<char>) -> bool {
    match trigger {
        Trigger::StartWith(p) => starts_with(text, p@),
        Trigger::Pattern(p) => regex_match(p@, text) == Some(true),
        Trigger::Always => true,
    }
}

/// Whether `text` starts with `prefix`.
pub fn str_starts_with(text: &str, prefix: &str) -> (r: bool)
    ensures
        r == starts_with(text@, prefix@),
{
    let n = prefix.unicode_len();
    if n > text.unicode_len() {
        return false;
    }
    let mut i: usize = 0;
    while i < n
        invariant
            n == prefix@.len(),
            n <= text@.len(),
            0 <= i <= n,
            text@.subrange(0, i as int) == prefix@.subrange(0, i as int),
        decreases n - i,
    {
        if text.get_char(i) != prefix.get_char(i) {
            proof {
                assert(text@.subrange(0, n as int)[i as int] != prefix@[i as int]);
            }
            return false;
        }
        proof {
            assert(text@.subrange(0, i as int + 1) =~= text@.subrange(0, i as int).push(text@[i as int]));
            assert(prefix@.subrange(0, i as int + 1) =~= prefix@.subrange(0, i as int).push(prefix@[i as int]));
        }
        i = i + 1;
    }
    proof {
        assert(prefix@.subrange(0, n as int) =~= prefix@);
    }
    true
}

/// A character with the Unicode White_Space property, the set that
/// `char::is_whitespace` and `str::trim` go by.
pub open spec fn is_white_space(c: char) -> bool {
    ('\u{9}' <= c && c <= '\u{d}') || c == ' ' || c == '\u{85}' || c == '\u{a0}' || c == '\u{1680}'
        || ('\u{2000}' <= c && c <= '\u{200a}') || c == '\u{2028}' || c == '\u{2029}' || c
        == '\u{202f}' || c == '\u{205f}' || c == '\u{3000}'
}

/// `s` without the white space that ends it.
pub open spec fn trim_end(s: Seq<char>) -> Seq<char>
    decreases s.len(),
{
    if s.len() > 0 && is_white_space(s.last()) {
        trim_end(s.drop_last())
    } else {
        s
    }
}

/// Whether `c` is white space.
pub fn char_is_white_space(c: char) -> (r: bool)
    ensures
        r == is_white_space(c),
{
    ('\u{9}' <= c && c <= '\u{d}') || c == ' ' || c == '\u{85}' || c == '\u{a0}' || c == '\u{1680}'
        || ('\u{2000}' <= c && c <= '\u{200a}') || c == '\u{2028}' || c == '\u{2029}' || c
        == '\u{202f}' || c == '\u{205f}' || c == '\u{3000}'
}

/// `s` without the white space that ends it.
pub fn trim_end_of(s: &str) -> (r: String)
    ensures
        r@ == trim_end(s@),
{
    let mut k: usize = s.unicode_len();
    proof {
        assert(s@.subrange(0, k as int) =~= s@);
    }
    while k > 0 && char_is_white_space(s.get_char(k - 1))
        invariant
            k <= s@.len(),
            trim_end(s@) == trim_end(s@.subrange(0, k as int)),
        decreases k,
    {
        proof {
            let t = s@.subrange(0, k as int);
            assert(t.drop_last() =~= s@.subrange(0, k as int - 1));
            assert(t.last() == s@[k as int - 1]);
        }
        k = k - 1;
    }
    proof {
        let t = s@.subrange(0, k as int);
        if k > 0 {
            assert(t.last() == s@[k as int - 1]);
        }
        assert(trim_end(t) == t);
    }
    String::from_str(s.substring_char(0, k))
}

/// Whether `trigger` fires, given what the pattern gave on the text where
/// it is a pattern trigger (`None` where the pattern did not compile).
pub fn fires_with(trigger: &Trigger, text: &str, pattern_outcome: Option<bool>) -> (r: bool)
    ensures
        r == match *trigger {
            Trigger::StartWith(p) => starts_with(text@, p@),
            Trigger::Pattern(_) => pattern_outcome == Some(true),
            Trigger::Always => true,
        },
{
    match trigger {
        Trigger::StartWith(p) => str_starts_with(text, p.as_str()),
        Trigger::Pattern(_) => match pattern_outcome {
            Some(m) => m,
            None => false,
        },
        Trigger::Always => true,
    }
}

impl Trigger {
    /// Whether this trigger fires on a message whose raw text is `text`.
    pub fn matches(&self, text: &str) -> (r: bool)
        ensures
            r == fires(*self, text@),
    {
        match self {
            Trigger::Pattern(p) => fires_with(self, text, pattern_matches(p.as_str(), text)),
            _ => fires_with(self, text, None),
        }
    }
}

/// A registered plugin: its metadata and its trigger. Its callbacks live
/// with the caller, which invokes them when `wants` says so.
#[derive(Debug, Clone)]
pub struct Plugin {
    name: String,
    description: String,
    version: String,
    author: String,
    trigger: Trigger,
}

impl Plugin {
    pub closed spec fn name(&self) -> Seq<char> {
        self.name@
    }

    pub closed spec fn description(&self) -> Seq<char> {
        self.description@
    }

    pub closed spec fn version(&self) -> Seq<char> {
        self.version@
    }

    pub closed spec fn author(&self) -> Seq<char> {
        self.author@
    }

    pub closed spec fn trigger(&self) -> Trigger {
        self.trigger
    }

    /// A plugin named "None", version "0.0.0", that fires on every message.
    pub fn new() -> (r: Plugin)
        ensures
            r.name() == "None"@,
            r.description() == "None"@,
            r.version() == "0.0.0"@,
            r.author() == "None"@,
            r.trigger() == Trigger::Always,
    {
        Plugin {
            name: String::from_str("None"),
            description: String::from_str("None"),
            version: String::from_str("0.0.0"),
            author: String::from_str("None"),
            trigger: Trigger::Always,
        }
    }

    pub fn with_name(self, name: &str) -> (r: Plugin)
        ensures
            r.name() == name@,
            r.description() == self.description(),
            r.version() == self.version(),
            r.author() == self.author(),
            r.trigger() == self.trigger(),
    {
        Plugin { name: String::from_str(name), ..self }
    }

    pub fn with_description(self, description: &str) -> (r: Plugin)
        ensures
            r.name() == self.name(),
            r.description() == description@,
            r.version() == self.version(),
            r.author() == self.author(),
            r.trigger() == self.trigger(),
    {
        Plugin { description: String::from_str(description), ..self }
    }

    pub fn with_version(self, version: &str) -> (r: Plugin)
        ensures
            r.name() == self.name(),
            r.description() == self.description(),
            r.version() == version@,
            r.author() == self.author(),
            r.trigger() == self.trigger(),
    {
        Plugin { version: String::from_str(version), ..self }
    }

    pub fn with_author(self, author: &str) -> (r: Plugin)
        ensures
            r.name() == self.name(),
            r.description() == self.description(),
            r.version() == self.version(),
            r.author() == author@,
            r.trigger() == self.trigger(),
    {
        Plugin { author: String::from_str(author), ..self }
    }

    pub fn with_trigger(self, trigger: Trigger) -> (r: Plugin)
        ensures
            r.name() == self.name(),
            r.description() == self.description(),
            r.version() == self.version(),
            r.author() == self.author(),
            r.trigger() == trigger,
    {
        Plugin { trigger, ..self }
    }

    pub fn get_name(&self) -> (r: &String)
        ensures
            r@ == self.name(),
    {
        &self.name
    }

    pub fn get_trigger(&self) -> (r: &Trigger)
        ensures
            *r == self.trigger(),
    {
        &self.trigger
    }

    /// The plugin's entry in a help listing: `->[name]` and, on the next
    /// line, `-->description`.
    pub fn get_info_str(&self) -> (r: String)
        ensures
            r@ == info_of(self.name(), self.description()),
    {
        let mut s = String::from_str("->[");
        s.append(self.name.as_str());
        s.append("]\n-->");
        s.append(self.description.as_str());
        proof {
            reveal_strlit("->[");
            reveal_strlit("]\n-->");
        }
        s
    }

    /// Whether a message whose raw text is `text` calls this plugin.
    pub fn wants(&self, text: &str) -> (r: bool)
        ensures
            r == fires(self.trigger(), text@),
    {
        self.trigger.matches(text)
    }
}

pub open spec fn info_of(name: Seq<char>, description: Seq<char>) -> Seq<char> {
    "->["@ + name + "]\n-->"@ + description
}

/// The help listing of plugins whose entries are `infos`: a heading, then
/// the entries separated by blank lines.
pub open spec fn listing_of(infos: Seq<Seq<char>>) -> Seq<char>
    decreases infos.len(),
{
    if infos.len() == 0 {
        "[PluginList]"@
    } else if infos.len() == 1 {
        "[PluginList]\n"@ + infos[0]
    } else {
        listing_of(infos.drop_last()) + "\n\n"@ + infos.last()
    }
}

/// The registered plugins, in the order they were registered.
pub struct PluginManager {
    plugins: Vec<Plugin>,
}

impl PluginManager {
    pub closed spec fn plugins(&self) -> Seq<Plugin> {
        self.plugins@
    }

    pub fn new() -> (r: PluginManager)
        ensures
            r.plugins() == Seq::<Plugin>::empty(),
    {
        PluginManager { plugins: Vec::new() }
    }

    /// Registers `plugin` after those already registered.
    pub fn add_plugin(&mut self, plugin: Plugin)
        ensures
            final(self).plugins() == old(self).plugins().push(plugin),
    {
        self.plugins.push(plugin);
    }

    /// The registered plugins, in the order they were registered.
    pub fn list(&self) -> (r: &Vec<Plugin>)
        ensures
            r@ == self.plugins(),
    {
        &self.plugins
    }

    /// The help listing of the registered plugins, in registration order:
    /// `[PluginList]`, then each plugin's entry, separated by blank lines,
    /// trimmed. The listing begins with `[`, so only its end can hold white
    /// space to trim.
    pub fn plugin_help(&self) -> (r: String)
        ensures
            r@ == trim_end(listing_of(Seq::new(self.plugins().len(), |i: int| info_of(self.plugins()[i].name(), self.plugins()[i].description())))),
    {
        let ghost infos = Seq::new(self.plugins().len(), |i: int| info_of(self.plugins()[i].name(), self.plugins()[i].description()));
        proof {
            reveal_strlit("[PluginList]");
            reveal_strlit("[PluginList]\n");
            reveal_strlit("\n\n");
        }
        if self.plugins.len() == 0 {
            return trim_end_of("[PluginList]");
        }
        let mut s = String::from_str("[PluginList]\n");
        let first = self.plugins[0].get_info_str();
        s.append(first.as_str());
        proof {
            assert(infos.subrange(0, 1).drop_last() =~= Seq::<Seq<char>>::empty());
            assert(s@ == listing_of(infos.subrange(0, 1)));
        }
        let mut i: usize = 1;
        while i < self.plugins.len()
            invariant
                1 <= i <= self.plugins.len(),
                infos.len() == self.plugins.len(),
                infos == Seq::new(self.plugins().len(), |i: int| info_of(self.plugins()[i].name(), self.plugins()[i].description())),
                s@ == listing_of(infos.subrange(0, i as int)),
            decreases self.plugins.len() - i,
        {
            let info = self.plugins[i].get_info_str();
            s.append("\n\n");
            s.append(info.as_str());
            proof {
                assert(infos.subrange(0, i as int + 1).drop_last() =~= infos.subrange(0, i as int));
            }
            i = i + 1;
        }
        proof {
            assert(infos.subrange(0, self.plugins.len() as int) =~= infos);
        }
        trim_end_of(s.as_str())
    }
}

/// What one step of a plugin's dispatch loop found.
#[derive(Debug, PartialEq)]
pub enum Dispatch<'a> {
    /// A group message that fires the trigger: call the group callback.
    Group(&'a GroupMessageEvent),
    /// A private message that fires the trigger: call the private callback.
    Private(&'a PrivateMessageEvent),
    /// A message that does not fire the trigger: skipped.
    Skipped,
    /// A port fell behind by this many messages, which were lost to it.
    Lagged(u64),
    /// Neither port has a message.
    Idle,
}

/// The state of one plugin's dispatch loop: its two message ports, and
/// which of them it reads first next time.
pub struct PluginRunner {
    group_port: SignalPort,
    private_port: SignalPort,
    group_first: bool,
}

impl PluginRunner {
    pub closed spec fn group_position(&self) -> int {
        self.group_port.position()
    }

    pub closed spec fn private_position(&self) -> int {
        self.private_port.position()
    }

    pub closed spec fn group_first(&self) -> bool {
        self.group_first
    }

    /// A loop that reads every message that `events` publishes from now on;
    /// its two ports count as live receivers of the message buses.
    pub fn new(events: &mut EventManager) -> (r: PluginRunner)
        requires
            old(events).hubs().wf(),
            old(events).hubs().group_messages().ports < u64::MAX,
            old(events).hubs().private_messages().ports < u64::MAX,
        ensures
            final(events).hubs().wf(),
            r.group_position() == old(events).hubs().group_messages().next(),
            r.private_position() == old(events).hubs().private_messages().next(),
            r.group_first(),
            final(events).hubs().group_messages() == (BusView { ports: old(events).hubs().group_messages().ports + 1, ..old(events).hubs().group_messages() }),
            final(events).hubs().private_messages() == (BusView { ports: old(events).hubs().private_messages().ports + 1, ..old(events).hubs().private_messages() }),
            final(events).hubs().all_events() == old(events).hubs().all_events(),
            final(events).hubs().heartbeats() == old(events).hubs().heartbeats(),
            final(events).hubs().lifecycles() == old(events).hubs().lifecycles(),
    {
        let group_port = events.get_group_message_port();
        let private_port = events.get_private_message_port();
        PluginRunner { group_port, private_port, group_first: true }
    }

    /// One step of the loop: reads one message from the port whose turn it
    /// is, else from the other, and says whether `plugin` wants it. The
    /// turn passes to the other port after every read.
    pub fn poll<'a>(&mut self, plugin: &Plugin, hubs: &'a EventHubs) -> (r: Dispatch<'a>)
        requires
            hubs.wf(),
        ensures
            ({
                let g = hubs.group_messages();
                let p = hubs.private_messages();
                let gp = old(self).group_position();
                let pp = old(self).private_position();
                let g_ready = gp < g.next();
                let p_ready = pp < p.next();
                let take_group = g_ready && (old(self).group_first() || !p_ready);
                if !g_ready && !p_ready {
                    r == Dispatch::Idle && final(self).group_position() == gp && final(self).private_position() == pp
                } else if take_group {
                    final(self).private_position() == pp && !final(self).group_first() && if gp < g.head {
                        r == Dispatch::Lagged((g.head - gp) as u64) && final(self).group_position() == g.head
                    } else {
                        final(self).group_position() == gp + 1 && if fires(plugin.trigger(), g.visible(gp)[0].raw_message@) {
                            r == Dispatch::Group(&g.visible(gp)[0])
                        } else {
                            r == Dispatch::Skipped
                        }
                    }
                } else {
                    final(self).group_position() == gp && final(self).group_first() && if pp < p.head {
                        r == Dispatch::Lagged((p.head - pp) as u64) && final(self).private_position() == p.head
                    } else {
                        final(self).private_position() == pp + 1 && if fires(plugin.trigger(), p.visible(pp)[0].raw_message@) {
                            r == Dispatch::Private(&p.visible(pp)[0])
                        } else {
                            r == Dispatch::Skipped
                        }
                    }
                }
            }),
    {
        let g = hubs.group_message_hub();
        let p = hubs.private_message_hub();
        let g_ready = self.group_port_ready(g);
        let p_ready = self.private_port_ready(p);
        if !g_ready && !p_ready {
            return Dispatch::Idle;
        }
        if g_ready && (self.group_first || !p_ready) {
            self.group_first = false;
            match self.group_port.recv(g) {
                Ok(m) => if plugin.wants(m.raw_message.as_str()) {
                    Dispatch::Group(m)
                } else {
                    Dispatch::Skipped
                },
                Err(RecvError::Lagged(n)) => Dispatch::Lagged(n),
                Err(_) => Dispatch::Idle,
            }
        } else {
            self.group_first = true;
            match self.private_port.recv(p) {
                Ok(m) => if plugin.wants(m.raw_message.as_str()) {
                    Dispatch::Private(m)
                } else {
                    Dispatch::Skipped
                },
                Err(RecvError::Lagged(n)) => Dispatch::Lagged(n),
                Err(_) => Dispatch::Idle,
            }
        }
    }

    fn group_port_ready(&self, g: &SignalHub<GroupMessageEvent>) -> (r: bool)
        requires
            g@.wf(),
        ensures
            r == (self.group_port.position() < g@.next()),
    {
        self.group_port.has_pending(g)
    }

    fn private_port_ready(&self, p: &SignalHub<PrivateMessageEvent>) -> (r: bool)
        requires
            p@.wf(),
        ensures
            r == (self.private_port.position() < p@.next()),
    {
        self.private_port.has_pending(p)
    }
}

} // verus!
