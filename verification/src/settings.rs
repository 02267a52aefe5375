use vstd::prelude::*;
use vstd::string::StrSliceExecFns;
use vstd::string::StringExecFns;
use crate::encode::{chars_to_string, str_chars};

verus! {

/// A settings snapshot: the decimal-display flag, the compression-scheme
/// identifier carried by its canonical name (its meaning belongs to the
/// Config collaborator), and the exclude patterns as a list. It is built
/// fresh from a save or reset payload before being handed to persistence.
#[derive(Debug, Clone, PartialEq, Eq)]
pub struct ConfigSnapshot {
    pub decimal: bool,
    pub compression: String,
    pub excludes: Vec<String>,
}

/// Mathematical model of a snapshot.
pub struct ConfigSnapshotView {
    pub decimal: bool,
    pub compression: Seq<char>,
    pub excludes: Seq<Seq<char>>,
}

impl View for ConfigSnapshot {
    type V = ConfigSnapshotView;

    open spec fn view(&self) -> ConfigSnapshotView {
        ConfigSnapshotView {
            decimal: self.decimal,
            compression: self.compression@,
            excludes: self.excludes.deep_view(),
        }
    }
}

/// The exclude patterns of a save payload: its newline-separated lines.
/// Splitting an empty text gives one empty pattern, as splitting on a
/// separator does.
pub open spec fn split_lines(s: Seq<char>) -> Seq<Seq<char>>
    decreases s.len(),
{
    if s.len() == 0 {
        seq![Seq::<char>::empty()]
    } else if s[0] == '\n' {
        seq![Seq::<char>::empty()] + split_lines(s.skip(1))
    } else {
        let rest = split_lines(s.skip(1));
        seq![seq![s[0]] + rest[0]] + rest.skip(1)
    }
}

/// The newline-joined text of a pattern list, as the settings notification
/// reports it.
pub open spec fn join_lines(parts: Seq<Seq<char>>) -> Seq<char>
    decreases parts.len(),
{
    if parts.len() == 0 {
        Seq::<char>::empty()
    } else if parts.len() == 1 {
        parts[0]
    } else {
        parts[0] + seq!['\n'] + join_lines(parts.skip(1))
    }
}

/// Splitting always yields at least one pattern.
pub proof fn lemma_split_nonempty(s: Seq<char>)
    ensures
        split_lines(s).len() >= 1,
    decreases s.len(),
{
    if s.len() != 0 {
        lemma_split_nonempty(s.skip(1));
    }
}

/// Normalization law: joining the split of a payload gives the payload
/// back, so the settings notification echoes the saved excludes text
/// exactly.
pub proof fn lemma_join_split(s: Seq<char>)
    ensures
        join_lines(split_lines(s)) == s,
    decreases s.len(),
{
    if s.len() == 0 {
        assert(join_lines(split_lines(s)) =~= s);
    } else if s[0] == '\n' {
        let p = split_lines(s.skip(1));
        lemma_split_nonempty(s.skip(1));
        lemma_join_split(s.skip(1));
        let parts = seq![Seq::<char>::empty()] + p;
        assert(parts.len() >= 2);
        assert(parts[0] == Seq::<char>::empty());
        assert(parts.skip(1) =~= p);
        assert(Seq::<char>::empty() + seq!['\n'] + join_lines(p) =~= s);
    } else {
        let p = split_lines(s.skip(1));
        lemma_split_nonempty(s.skip(1));
        lemma_join_split(s.skip(1));
        let parts = seq![seq![s[0]] + p[0]] + p;
        let built = seq![seq![s[0]] + p[0]] + p.skip(1);
        assert(split_lines(s) == built);
        if p.len() == 1 {
            assert(built.len() == 1);
            assert(join_lines(built) == seq![s[0]] + p[0]);
            assert(join_lines(p) == p[0]);
            assert(seq![s[0]] + p[0] =~= s);
        } else {
            assert(built.len() >= 2);
            assert(built[0] == seq![s[0]] + p[0]);
            assert(built.skip(1) =~= p.skip(1));
            assert(join_lines(p) == p[0] + seq!['\n'] + join_lines(p.skip(1)));
            assert((seq![s[0]] + p[0]) + seq!['\n'] + join_lines(p.skip(1)) =~= seq![s[0]] + (
            p[0] + seq!['\n'] + join_lines(p.skip(1))));
            assert(seq![s[0]] + join_lines(p) =~= s);
        }
    }
}

fn split_from(v: &Vec<char>, pos: usize) -> (r: Vec<String>)
    requires
        pos <= v.len(),
    ensures
        r.deep_view() == split_lines(v@.skip(pos as int)),
    decreases v.len() - pos,
{
    let ghost s = v@.skip(pos as int);
    if pos == v.len() {
        let mut r: Vec<String> = Vec::new();
        r.push(String::new());
        proof {
            assert(s.len() == 0);
            assert(r.deep_view() =~= seq![Seq::<char>::empty()]);
        }
        r
    } else {
        let c = v[pos];
        proof {
            assert(s[0] == c);
            assert(s.skip(1) =~= v@.skip(pos + 1 as int));
        }
        let mut rest = split_from(v, pos + 1);
        let ghost rd = rest.deep_view();
        proof {
            lemma_split_nonempty(v@.skip(pos + 1 as int));
            assert(rest@.len() == rd.len());
        }
        if c == '\n' {
            rest.insert(0, String::new());
            proof {
                assert(rest.deep_view() =~= seq![Seq::<char>::empty()] + rd);
            }
            rest
        } else {
            let first = rest.remove(0);
            let mut head_chars: Vec<char> = Vec::new();
            head_chars.push(c);
            let mut head = chars_to_string(&head_chars);
            head.append(first.as_str());
            proof {
                assert(head@ =~= seq![c] + rd[0]);
            }
            rest.insert(0, head);
            proof {
                assert(rest.deep_view() =~= seq![seq![c] + rd[0]] + rd.skip(1));
            }
            rest
        }
    }
}

/// The lines of a save payload's excludes text.
pub fn split_excludes(text: &str) -> (r: Vec<String>)
    ensures
        r.deep_view() == split_lines(text@),
{
    let v = str_chars(text);
    proof {
        assert(v@.skip(0) =~= text@);
    }
    split_from(&v, 0)
}

fn join_from(parts: &Vec<String>, pos: usize) -> (r: String)
    requires
        pos <= parts.len(),
    ensures
        r@ == join_lines(parts.deep_view().skip(pos as int)),
    decreases parts.len() - pos,
{
    let ghost pd = parts.deep_view().skip(pos as int);
    if pos == parts.len() {
        proof {
            assert(pd.len() == 0);
        }
        String::new()
    } else if pos + 1 == parts.len() {
        let r = parts[pos].clone();
        proof {
            assert(pd.len() == 1);
            assert(pd[0] == parts.deep_view()[pos as int]);
        }
        r
    } else {
        let mut r = parts[pos].clone();
        r.append("\n");
        let tail = join_from(parts, pos + 1);
        r.append(tail.as_str());
        proof {
            reveal_strlit("\n");
            assert("\n"@ =~= seq!['\n']);
            assert(pd.len() >= 2);
            assert(pd[0] == parts.deep_view()[pos as int]);
            assert(pd.skip(1) =~= parts.deep_view().skip(pos + 1 as int));
        }
        r
    }
}

/// The newline-joined excludes text for the settings notification.
pub fn join_excludes(parts: &Vec<String>) -> (r: String)
    ensures
        r@ == join_lines(parts.deep_view()),
{
    proof {
        assert(parts.deep_view().skip(0) =~= parts.deep_view());
    }
    join_from(parts, 0)
}

/// The in-memory configuration, paired with a record of what the
/// persistence collaborator last committed. Validation and the actual disk
/// write belong to that collaborator; their verdicts are handed in by the
/// caller that obtained them.
pub struct ConfigStore {
    current: ConfigSnapshot,
    persisted: Ghost<ConfigSnapshotView>,
}

impl ConfigStore {
    /// The configuration the process currently applies.
    pub closed spec fn current_view(&self) -> ConfigSnapshotView {
        self.current@
    }

    /// The configuration last known committed to persistence.
    pub closed spec fn persisted_view(&self) -> ConfigSnapshotView {
        self.persisted@
    }

    /// At startup the store holds what persistence reported.
    pub fn new(initial: ConfigSnapshot) -> (s: ConfigStore)
        ensures
            s.current_view() == initial@,
            s.persisted_view() == initial@,
    {
        let ghost v = initial@;
        ConfigStore { current: initial, persisted: Ghost(v) }
    }

    /// The applied configuration, for the eager settings notification.
    pub fn current(&self) -> (c: &ConfigSnapshot)
        ensures
            c@ == self.current_view(),
    {
        &self.current
    }

    /// Applies a snapshot in memory; what is persisted does not move.
    pub fn replace(&mut self, s: ConfigSnapshot)
        ensures
            final(self).current_view() == s@,
            final(self).persisted_view() == old(self).persisted_view(),
    {
        self.current = s;
    }

    /// Records the persistence collaborator's verdict for the commit of the
    /// applied configuration: on success the persisted state catches up; on
    /// failure it stays where it was — the in-memory state is not rolled
    /// back.
    pub fn commit(&mut self, ok: bool)
        ensures
            final(self).current_view() == old(self).current_view(),
            ok ==> final(self).persisted_view() == old(self).current_view(),
            !ok ==> final(self).persisted_view() == old(self).persisted_view(),
    {
        if ok {
            let ghost v = self.current@;
            self.persisted = Ghost(v);
        }
    }
}

} // verus!
