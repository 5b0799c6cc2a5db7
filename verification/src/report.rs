//! Reports: the entries collected from an error chain, the walk that
//! collects them, and their human-readable rendering.

use vstd::prelude::*;

use crate::text::{decimal_text, push_decimal};

verus! {

/// A source-code position: file, line and column.
#[derive(Clone, Debug, PartialEq, Eq)]
pub struct Location {
    pub file: String,
    pub line: u32,
    pub column: u32,
}

impl Location {
    /// The position as `file:line:column`.
    pub open spec fn text(self) -> Seq<char> {
        self.file@ + ":"@ + decimal_text(self.line as nat) + ":"@ + decimal_text(self.column as nat)
    }

    /// Renders the position as `file:line:column`.
    pub fn to_string(&self) -> (res: String)
        ensures
            res@ == self.text(),
    {
        let mut out = self.file.clone();
        out.append(":");
        push_decimal(&mut out, self.line as u64);
        out.append(":");
        push_decimal(&mut out, self.column as u64);
        out
    }
}

/// A single entry of a report: an error message and, where the error
/// tracks it, the location where the error was constructed.
#[derive(Debug)]
pub struct Entry {
    message: String,
    location: Option<Location>,
}

impl Entry {
    /// The message of this entry.
    pub closed spec fn message_text(self) -> Seq<char> {
        self.message@
    }

    /// The location of this entry, if any.
    pub closed spec fn location_of(self) -> Option<Location> {
        self.location
    }

    /// Builds an entry from a message and an optional location.
    pub fn new(message: String, location: Option<Location>) -> (e: Entry)
        ensures
            e.message_text() == message@,
            e.location_of() == location,
    {
        Entry { message, location }
    }

    /// Returns the display message for this entry.
    pub fn message(&self) -> (res: &str)
        ensures
            res@ == self.message_text(),
    {
        self.message.as_str()
    }

    /// Returns the location where this error was constructed, if the error
    /// tracks it.
    pub fn location(&self) -> (res: Option<&Location>)
        ensures
            match res {
                Some(l) => self.location_of() == Some(*l),
                None => self.location_of() is None,
            },
    {
        match &self.location {
            Some(l) => Some(l),
            None => None,
        }
    }
}

/// The entries of a report collected from a chain: the outermost error, the
/// errors reached through the typed chain, then the plain sources below the
/// last typed error, which carry no location.
pub open spec fn chain_entries_hold(
    entries: Seq<Entry>,
    root: Entry,
    typed: Seq<Entry>,
    untyped: Seq<Seq<char>>,
) -> bool {
    &&& entries.len() == 1 + typed.len() + untyped.len()
    &&& entries[0] == root
    &&& forall|i: int| 0 <= i < typed.len() ==> #[trigger] entries[1 + i] == typed[i]
    &&& forall|j: int|
        0 <= j < untyped.len() ==> {
            &&& (#[trigger] entries[1 + typed.len() + j]).message_text() == untyped[j]
            &&& entries[1 + typed.len() + j].location_of() is None
        }
}

/// The line naming where the outermost error was constructed, if known.
pub open spec fn head_at_text(loc: Option<Location>) -> Seq<char> {
    match loc {
        Some(l) => "\n      at "@ + l.text(),
        None => Seq::empty(),
    }
}

/// The line naming where a cause was constructed, if known.
pub open spec fn cause_at_text(loc: Option<Location>) -> Seq<char> {
    match loc {
        Some(l) => "\n        at "@ + l.text(),
        None => Seq::empty(),
    }
}

/// The rendering of the cause numbered `k`.
pub open spec fn cause_text(k: nat, e: Entry) -> Seq<char> {
    "\n  "@ + decimal_text(k) + ": "@ + e.message_text() + cause_at_text(e.location_of())
}

/// The rendering of the first `k` causes, `entries[1]` to `entries[k]`,
/// numbered from 1.
pub open spec fn causes_text(entries: Seq<Entry>, k: nat) -> Seq<char>
    decreases k,
{
    if k == 0 {
        Seq::empty()
    } else {
        causes_text(entries, (k - 1) as nat) + cause_text(k, entries[k as int])
    }
}

/// The header above the list of `n` causes: singular for one cause, plural
/// otherwise.
pub open spec fn causes_header(n: nat) -> Seq<char> {
    if n == 1 {
        "\n\nCaused by this error:"@
    } else {
        "\n\nCaused by these errors (recent errors listed first):"@
    }
}

/// The human-readable rendering of a report: nothing for no entries;
/// otherwise the outermost error with its location, then, where there are
/// causes, a header and the numbered causes with their locations.
pub open spec fn report_text(entries: Seq<Entry>) -> Seq<char> {
    if entries.len() == 0 {
        Seq::empty()
    } else {
        "Error: "@ + entries[0].message_text() + head_at_text(entries[0].location_of()) + if entries.len()
            == 1 {
            Seq::empty()
        } else {
            causes_header((entries.len() - 1) as nat) + causes_text(entries, (entries.len() - 1) as nat)
        }
    }
}

fn push_at(out: &mut String, prefix: &str, loc: &Option<Location>)
    ensures
        final(out)@ == old(out)@ + match loc {
            Some(l) => prefix@ + l.text(),
            None => Seq::empty(),
        },
{
    match loc {
        Some(l) => {
            out.append(prefix);
            let t = l.to_string();
            out.append(t.as_str());
        },
        None => {},
    }
}

/// A collected summary of an entire error chain, from the outermost error
/// to the root cause.
pub struct Report {
    entries: Vec<Entry>,
}

impl View for Report {
    type V = Seq<Entry>;

    closed spec fn view(&self) -> Seq<Entry> {
        self.entries@
    }
}

/// What the walk over an error chain asks for next.
#[derive(Clone, Copy, Debug, PartialEq, Eq, Structural)]
pub enum WalkAction {
    /// Ask the last typed error for its typed source.
    AskStackSource,
    /// Ask the last error reached for its plain source.
    AskSource,
    /// The chain has been walked to its end.
    Done,
}

/// The state of a walk over an error chain: the typed links are followed
/// first, then the plain sources below the last typed link.
pub struct ChainWalk {
    entries: Vec<Entry>,
    typed: usize,
    action: WalkAction,
}

impl ChainWalk {
    /// The entries collected so far.
    pub closed spec fn entries_so_far(self) -> Seq<Entry> {
        self.entries@
    }

    /// How many of the collected entries came from the typed chain,
    /// the outermost error included.
    pub closed spec fn typed_count(self) -> nat {
        self.typed as nat
    }

    /// What the walk asks for next.
    pub closed spec fn next_action(self) -> WalkAction {
        self.action
    }

    /// The walk's invariant: the outermost error is collected, the typed
    /// entries precede the plain ones, and plain entries carry no location.
    pub closed spec fn wf(self) -> bool {
        &&& 1 <= self.typed <= self.entries@.len()
        &&& self.action == WalkAction::AskStackSource ==> self.typed == self.entries@.len()
        &&& forall|i: int|
            self.typed <= i < self.entries@.len() ==> (#[trigger] self.entries@[i]).location_of() is None
    }

    /// Starts a walk at the outermost error.
    pub fn new(root: Entry) -> (w: ChainWalk)
        ensures
            w.wf(),
            w.entries_so_far() == seq![root],
            w.typed_count() == 1,
            w.next_action() == WalkAction::AskStackSource,
    {
        let mut entries = Vec::new();
        entries.push(root);
        ChainWalk { entries, typed: 1, action: WalkAction::AskStackSource }
    }

    /// What the walk asks for next.
    pub fn action(&self) -> (a: WalkAction)
        ensures
            a == self.next_action(),
    {
        self.action
    }

    /// Hands the walk the answer of the last typed error's `stack_source`:
    /// a further typed error is collected and asked in turn; at the end of
    /// the typed chain the walk turns to plain sources.
    pub fn on_stack_source(&mut self, next: Option<Entry>)
        requires
            old(self).wf(),
            old(self).next_action() == WalkAction::AskStackSource,
        ensures
            final(self).wf(),
            match next {
                Some(e) => {
                    &&& final(self).entries_so_far() == old(self).entries_so_far().push(e)
                    &&& final(self).typed_count() == old(self).typed_count() + 1
                    &&& final(self).next_action() == WalkAction::AskStackSource
                },
                None => {
                    &&& final(self).entries_so_far() == old(self).entries_so_far()
                    &&& final(self).typed_count() == old(self).typed_count()
                    &&& final(self).next_action() == WalkAction::AskSource
                },
            },
    {
        match next {
            Some(e) => {
                self.entries.push(e);
                self.typed = self.entries.len();
            },
            None => {
                self.action = WalkAction::AskSource;
            },
        }
    }

    /// Hands the walk the answer of the last error's plain `source`: a
    /// further error is collected without a location and asked in turn; at
    /// the end of the chain the walk is done.
    pub fn on_source(&mut self, next: Option<String>)
        requires
            old(self).wf(),
            old(self).next_action() == WalkAction::AskSource,
        ensures
            final(self).wf(),
            final(self).typed_count() == old(self).typed_count(),
            match next {
                Some(m) => {
                    &&& final(self).entries_so_far().len() == old(self).entries_so_far().len() + 1
                    &&& final(self).entries_so_far().drop_last() == old(self).entries_so_far()
                    &&& final(self).entries_so_far().last().message_text() == m@
                    &&& final(self).entries_so_far().last().location_of() is None
                    &&& final(self).next_action() == WalkAction::AskSource
                },
                None => {
                    &&& final(self).entries_so_far() == old(self).entries_so_far()
                    &&& final(self).next_action() == WalkAction::Done
                },
            },
    {
        match next {
            Some(m) => {
                let e = Entry { message: m, location: None };
                self.entries.push(e);
                assert(self.entries@.drop_last() =~= old(self).entries@);
            },
            None => {
                self.action = WalkAction::Done;
            },
        }
    }

    /// Ends the walk, turning the collected entries into a report.
    pub fn into_report(self) -> (r: Report)
        requires
            self.wf(),
        ensures
            r@ == self.entries_so_far(),
            r@.len() >= 1,
    {
        Report { entries: self.entries }
    }
}

impl Report {
    /// Collects the chain rooted at `root` into a report: the outermost
    /// error, then the errors of its typed chain in order, then the plain
    /// sources below the last typed error, which carry no location.
    pub fn new(root: Entry, typed: Vec<Entry>, untyped: Vec<String>) -> (r: Report)
        requires
            typed@.len() + untyped@.len() < usize::MAX,
        ensures
            chain_entries_hold(r@, root, typed@, untyped@.map_values(|m: String| m@)),
    {
        let ghost root_g = root;
        let mut walk = ChainWalk::new(root);
        let mut typed = typed;
        let ghost typed_g = typed@;
        let mut i: usize = 0;
        let n = typed.len();
        // Entries are taken from the back, so reverse first to keep order.
        let mut rest: Vec<Entry> = Vec::new();
        while typed.len() > 0
            invariant
                rest@.len() + typed@.len() == n,
                n == typed_g.len(),
                typed@ == typed_g.take(typed@.len() as int),
                forall|k: int| 0 <= k < rest@.len() ==> #[trigger] rest@[k] == typed_g[n - 1 - k],
            decreases typed@.len(),
        {
            let e = typed.pop().unwrap();
            rest.push(e);
            assert(typed@ =~= typed_g.take(typed@.len() as int));
        }
        while rest.len() > 0
            invariant
                walk.wf(),
                walk.next_action() == WalkAction::AskStackSource,
                i + rest@.len() == n,
                n == typed_g.len(),
                forall|k: int| 0 <= k < rest@.len() ==> #[trigger] rest@[k] == typed_g[n - 1 - k],
                walk.entries_so_far().len() == 1 + i,
                walk.entries_so_far()[0] == root_g,
                forall|k: int| 0 <= k < i ==> #[trigger] walk.entries_so_far()[1 + k] == typed_g[k],
            decreases rest@.len(),
        {
            let e = rest.pop().unwrap();
            walk.on_stack_source(Some(e));
            i = i + 1;
        }
        walk.on_stack_source(None);
        let ghost base = walk.entries_so_far();
        let mut j: usize = 0;
        while j < untyped.len()
            invariant
                walk.wf(),
                walk.next_action() == WalkAction::AskSource,
                j <= untyped@.len(),
                n == typed_g.len(),
                n + untyped@.len() < usize::MAX,
                walk.entries_so_far().len() == 1 + n + j,
                base.len() == 1 + n,
                forall|k: int| 0 <= k < 1 + n ==> #[trigger] walk.entries_so_far()[k] == base[k],
                base[0] == root_g,
                forall|k: int| 0 <= k < n ==> #[trigger] base[1 + k] == typed_g[k],
                forall|k: int|
                    0 <= k < j ==> {
                        &&& (#[trigger] walk.entries_so_far()[1 + n + k]).message_text() == untyped@[k]@
                        &&& walk.entries_so_far()[1 + n + k].location_of() is None
                    },
            decreases untyped@.len() - j,
        {
            let m = untyped[j].clone();
            let ghost before = walk.entries_so_far();
            walk.on_source(Some(m));
            assert forall|k: int| 0 <= k < 1 + n implies #[trigger] walk.entries_so_far()[k] == base[k] by {
                assert(walk.entries_so_far().drop_last()[k] == before[k]);
            }
            assert forall|k: int| 0 <= k < j implies {
                &&& (#[trigger] walk.entries_so_far()[1 + n + k]).message_text() == untyped@[k]@
                &&& walk.entries_so_far()[1 + n + k].location_of() is None
            } by {
                assert(walk.entries_so_far().drop_last()[1 + n + k] == before[1 + n + k]);
            }
            j = j + 1;
        }
        walk.on_source(None);
        let r = walk.into_report();
        proof {
            let mv = untyped@.map_values(|m: String| m@);
            assert forall|i: int| 0 <= i < typed_g.len() implies #[trigger] r@[1 + i] == typed_g[i] by {
                assert(base[1 + i] == typed_g[i]);
            }
            assert forall|k: int| 0 <= k < mv.len() implies {
                &&& (#[trigger] r@[1 + typed_g.len() + k]).message_text() == mv[k]
                &&& r@[1 + typed_g.len() + k].location_of() is None
            } by {
            }
        }
        r
    }


    /// Renders the report: the outermost error first, followed by the
    /// numbered causes and their locations.
    pub fn to_string(&self) -> (res: String)
        ensures
            res@ == report_text(self@),
    {
        let n = self.entries.len();
        let mut out = String::new();
        if n == 0 {
            return out;
        }
        out.append("Error: ");
        out.append(self.entries[0].message.as_str());
        push_at(&mut out, "\n      at ", &self.entries[0].location);
        if n == 1 {
            assert(out@ =~= report_text(self@));
            return out;
        }
        let ghost head = out@;
        if n == 2 {
            out.append("\n\nCaused by this error:");
        } else {
            out.append("\n\nCaused by these errors (recent errors listed first):");
        }
        let ghost pre = out@;
        let mut k: usize = 1;
        while k < n
            invariant
                1 <= k <= n,
                n == self.entries@.len(),
                out@ == pre + causes_text(self@, (k - 1) as nat),
            decreases n - k,
        {
            let ghost before = out@;
            let e = &self.entries[k];
            out.append("\n  ");
            push_decimal(&mut out, k as u64);
            out.append(": ");
            out.append(e.message.as_str());
            push_at(&mut out, "\n        at ", &e.location);
            assert(out@ =~= before + cause_text(k as nat, self@[k as int]));
            assert(causes_text(self@, k as nat) == causes_text(self@, (k - 1) as nat) + cause_text(
                k as nat,
                self@[k as int],
            ));
            k = k + 1;
        }
        assert(out@ =~= report_text(self@));
        out
    }

    /// Returns the entries of this report, from the outermost error to the
    /// root cause.
    pub fn entries(&self) -> (res: &[Entry])
        ensures
            res@ == self@,
    {
        self.entries.as_slice()
    }
}

} // verus!
