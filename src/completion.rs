//! Tab completion over the command grammar: every branch, every leaf under
//! its branch, and every flag under its leaf, followed by the shell's own
//! words.

use crate::command::words;
use crate::grammar::{all_branches, Branch, Flag, Leaf};
use crate::text::{is_prefix, starts_with};
use vstd::prelude::*;

verus! {

/// `a`, a space, then `b`.
pub open spec fn joined(a: Seq<char>, b: Seq<char>) -> Seq<char> {
    a + seq![' '] + b
}

/// The entries for the flags `fs`, each after the path `p`.
pub open spec fn flag_entries(p: Seq<char>, fs: Seq<Flag>) -> Seq<Seq<char>>
    decreases fs.len(),
{
    if fs.len() == 0 {
        Seq::empty()
    } else {
        flag_entries(p, fs.drop_last()).push(joined(p, fs.last().spec_label()))
    }
}

/// The entries for the leaves `ls` of branch `b`: each leaf's path, then its flags.
pub open spec fn leaf_entries(b: Branch, ls: Seq<Leaf>) -> Seq<Seq<char>>
    decreases ls.len(),
{
    if ls.len() == 0 {
        Seq::empty()
    } else {
        let p = joined(b.spec_name(), ls.last().spec_name());
        leaf_entries(b, ls.drop_last()) + seq![p] + flag_entries(p, ls.last().spec_flags())
    }
}

/// The entries under the branches `bs`: each branch's name, then its leaves.
pub open spec fn branch_entries(bs: Seq<Branch>) -> Seq<Seq<char>>
    decreases bs.len(),
{
    if bs.len() == 0 {
        Seq::empty()
    } else {
        let b = bs.last();
        branch_entries(bs.drop_last()) + seq![b.spec_name()] + leaf_entries(b, b.spec_leaves())
    }
}

/// Everything completion offers, in order.
pub open spec fn candidates() -> Seq<Seq<char>> {
    branch_entries(all_branches()) + seq!["exit"@, "help"@]
}

/// The entries of `c` that begin with `p`, in order.
pub open spec fn with_prefix(c: Seq<Seq<char>>, p: Seq<char>) -> Seq<Seq<char>>
    decreases c.len(),
{
    if c.len() == 0 {
        Seq::empty()
    } else if is_prefix(p, c.last()) {
        with_prefix(c.drop_last(), p).push(c.last())
    } else {
        with_prefix(c.drop_last(), p)
    }
}

fn all_branch_values() -> (r: Vec<Branch>)
    ensures
        r@ == all_branches(),
{
    let r = vec![Branch::Account, Branch::Agent, Branch::Contract, Branch::System];
    assert(r@ =~= all_branches());
    r
}

fn join_words(a: &str, b: &str) -> (r: String)
    ensures
        r@ == joined(a@, b@),
{
    let mut s = String::from_str(a);
    s.append(" ");
    s.append(b);
    proof {
        reveal_strlit(" ");
    }
    assert(s@ =~= joined(a@, b@));
    s
}

/// Appends the entries of the flags of `leaf` after the path `p`.
fn push_flag_entries(names: &mut Vec<String>, p: &str, leaf: Leaf)
    ensures
        words(final(names)@) == words(old(names)@) + flag_entries(p@, leaf.spec_flags()),
{
    let fs = leaf.flags();
    let mut i: usize = 0;
    while i < fs.len()
        invariant
            fs@ == leaf.spec_flags(),
            i <= fs.len(),
            words(names@) == words(old(names)@) + flag_entries(p@, fs@.take(i as int)),
        decreases fs.len() - i,
    {
        let ghost before = words(names@);
        names.push(join_words(p, fs[i].label()));
        assert(fs@.take(i + 1).drop_last() =~= fs@.take(i as int));
        assert(words(names@) =~= before.push(joined(p@, fs@[i as int].spec_label())));
        i = i + 1;
    }
    assert(fs@.take(i as int) =~= fs@);
}

/// The grammar's entries, in order: branches, leaves and flags.
pub fn command_names() -> (r: Vec<String>)
    ensures
        words(r@) == branch_entries(all_branches()),
{
    let mut names: Vec<String> = Vec::new();
    let bs = all_branch_values();
    let mut i: usize = 0;
    assert(words(names@) =~= branch_entries(bs@.take(0)));
    while i < bs.len()
        invariant
            bs@ == all_branches(),
            i <= bs.len(),
            words(names@) == branch_entries(bs@.take(i as int)),
        decreases bs.len() - i,
    {
        let b = bs[i];
        let ghost at_branch = words(names@);
        names.push(String::from_str(b.name()));
        assert(words(names@) =~= at_branch + seq![b.spec_name()]);
        let ls = b.leaves();
        let mut j: usize = 0;
        assert(leaf_entries(b, ls@.take(0)) =~= Seq::<Seq<char>>::empty());
        while j < ls.len()
            invariant
                ls@ == b.spec_leaves(),
                j <= ls.len(),
                words(names@) == at_branch + seq![b.spec_name()] + leaf_entries(b, ls@.take(j as int)),
            decreases ls.len() - j,
        {
            let l = ls[j];
            let ghost before = words(names@);
            let p = join_words(b.name(), l.name());
            names.push(p.clone());
            assert(words(names@) =~= before + seq![p@]);
            push_flag_entries(&mut names, p.as_str(), l);
            assert(ls@.take(j + 1).drop_last() =~= ls@.take(j as int));
            assert(words(names@) =~= at_branch + seq![b.spec_name()] + leaf_entries(b, ls@.take(j + 1)));
            j = j + 1;
        }
        assert(ls@.take(j as int) =~= ls@);
        assert(bs@.take(i + 1).drop_last() =~= bs@.take(i as int));
        i = i + 1;
    }
    assert(bs@.take(i as int) =~= bs@);
    names
}

/// Completes a line against the known command names.
pub struct ReplHelper {
    pub commands: Vec<String>,
}

impl ReplHelper {
    /// A helper offering the grammar's entries and the shell's own words.
    pub fn new() -> (r: ReplHelper)
        ensures
            words(r.commands@) == candidates(),
    {
        let mut commands = command_names();
        let ghost base = words(commands@);
        commands.push(String::from_str("exit"));
        commands.push(String::from_str("help"));
        assert(words(commands@) =~= candidates());
        ReplHelper { commands }
    }

    /// The known names that begin with `line`, in their order.
    pub fn complete(&self, line: &str) -> (r: Vec<String>)
        ensures
            words(r@) == with_prefix(words(self.commands@), line@),
    {
        let ghost c = words(self.commands@);
        let mut r: Vec<String> = Vec::new();
        let mut i: usize = 0;
        while i < self.commands.len()
            invariant
                c == words(self.commands@),
                i <= self.commands.len(),
                words(r@) == with_prefix(c.take(i as int), line@),
            decreases self.commands.len() - i,
        {
            let ghost before = words(r@);
            assert(c.take(i + 1).drop_last() =~= c.take(i as int));
            assert(c.take(i + 1).last() == self.commands@[i as int]@);
            if starts_with(self.commands[i].as_str(), line) {
                r.push(self.commands[i].clone());
                assert(words(r@) =~= before.push(self.commands@[i as int]@));
            }
            i = i + 1;
        }
        assert(c.take(i as int) =~= c);
        r
    }
}

/// Every entry of `s` begins with `q`.
pub open spec fn all_start_with(s: Seq<Seq<char>>, q: Seq<char>) -> bool {
    forall|i: int| 0 <= i < s.len() ==> is_prefix(q, #[trigger] s[i])
}

/// No entry of `s` begins with `q`.
pub open spec fn none_start_with(s: Seq<Seq<char>>, q: Seq<char>) -> bool {
    forall|i: int| 0 <= i < s.len() ==> !is_prefix(q, #[trigger] s[i])
}

proof fn lemma_with_prefix_concat(a: Seq<Seq<char>>, b: Seq<Seq<char>>, p: Seq<char>)
    ensures
        with_prefix(a + b, p) == with_prefix(a, p) + with_prefix(b, p),
    decreases b.len(),
{
    if b.len() == 0 {
        assert(a + b =~= a);
        assert(with_prefix(a, p) + with_prefix(b, p) =~= with_prefix(a, p));
    } else {
        assert((a + b).drop_last() =~= a + b.drop_last());
        assert((a + b).last() == b.last());
        lemma_with_prefix_concat(a, b.drop_last(), p);
        if is_prefix(p, b.last()) {
            assert(with_prefix(a + b, p) =~= with_prefix(a, p) + with_prefix(b, p));
        }
    }
}

proof fn lemma_with_prefix_all(s: Seq<Seq<char>>, p: Seq<char>)
    requires
        all_start_with(s, p),
    ensures
        with_prefix(s, p) == s,
    decreases s.len(),
{
    if s.len() > 0 {
        assert(is_prefix(p, s[s.len() - 1]));
        lemma_with_prefix_all(s.drop_last(), p);
        assert(s.drop_last().push(s.last()) =~= s);
    }
}

proof fn lemma_with_prefix_none(s: Seq<Seq<char>>, p: Seq<char>)
    requires
        none_start_with(s, p),
    ensures
        with_prefix(s, p) == Seq::<Seq<char>>::empty(),
    decreases s.len(),
{
    if s.len() > 0 {
        assert(!is_prefix(p, s[s.len() - 1]));
        lemma_with_prefix_none(s.drop_last(), p);
    }
}

proof fn lemma_flag_entries_start(p: Seq<char>, fs: Seq<Flag>)
    ensures
        all_start_with(flag_entries(p, fs), p + seq![' ']),
    decreases fs.len(),
{
    if fs.len() > 0 {
        lemma_flag_entries_start(p, fs.drop_last());
        let e = joined(p, fs.last().spec_label());
        assert(e.subrange(0, p.len() as int + 1) =~= p + seq![' ']);
        let s = flag_entries(p, fs);
        assert forall|i: int| 0 <= i < s.len() implies is_prefix(p + seq![' '], #[trigger] s[i]) by {
            if i < s.len() - 1 {
                assert(s[i] == flag_entries(p, fs.drop_last())[i]);
            }
        }
    }
}

proof fn lemma_leaf_entries_start(b: Branch, ls: Seq<Leaf>)
    ensures
        all_start_with(leaf_entries(b, ls), b.spec_name() + seq![' ']),
    decreases ls.len(),
{
    if ls.len() > 0 {
        lemma_leaf_entries_start(b, ls.drop_last());
        let q = b.spec_name() + seq![' '];
        let p = joined(b.spec_name(), ls.last().spec_name());
        let fe = flag_entries(p, ls.last().spec_flags());
        lemma_flag_entries_start(p, ls.last().spec_flags());
        assert(p.subrange(0, q.len() as int) =~= q);
        let head = leaf_entries(b, ls.drop_last());
        let s = leaf_entries(b, ls);
        assert(s == head + seq![p] + fe);
        assert forall|i: int| 0 <= i < s.len() implies is_prefix(q, #[trigger] s[i]) by {
            if i < head.len() {
                assert(s[i] == head[i]);
            } else if i == head.len() {
                assert(s[i] == p);
            } else {
                let k = i - head.len() - 1;
                assert(s[i] == fe[k]);
                assert(is_prefix(p + seq![' '], fe[k]));
                assert(fe[k].subrange(0, p.len() as int + 1) =~= p + seq![' ']);
                assert(fe[k].subrange(0, q.len() as int) =~= (p + seq![' ']).subrange(0, q.len() as int));
                assert((p + seq![' ']).subrange(0, q.len() as int) =~= q);
            }
        }
    }
}

/// Entries that begin with `q` do not begin with a `p` that differs from `q`
/// at a position both have.
proof fn lemma_other_prefix(s: Seq<Seq<char>>, q: Seq<char>, p: Seq<char>, k: int)
    requires
        all_start_with(s, q),
        0 <= k < q.len(),
        k < p.len(),
        q[k] != p[k],
    ensures
        none_start_with(s, p),
{
    assert forall|i: int| 0 <= i < s.len() implies !is_prefix(p, #[trigger] s[i]) by {
        assert(is_prefix(q, s[i]));
        assert(s[i][k] == q[k]);
        if is_prefix(p, s[i]) {
            assert(s[i][k] == p[k]);
        }
    }
}

/// The entries of a branch other than `b`, or the shell words, hold nothing
/// that completes `b` followed by a space.
proof fn lemma_branch_part(c: Branch, b: Branch)
    requires
        c != b,
    ensures
        none_start_with(seq![c.spec_name()] + leaf_entries(c, c.spec_leaves()), b.spec_name() + seq![' ']),
{
    reveal_strlit("account");
    reveal_strlit("agent");
    reveal_strlit("contract");
    reveal_strlit("system");
    let q = c.spec_name();
    let p = b.spec_name() + seq![' '];
    let s = seq![q] + leaf_entries(c, c.spec_leaves());
    lemma_leaf_entries_start(c, c.spec_leaves());
    assert(all_start_with(seq![q], q)) by {
        assert(q.subrange(0, q.len() as int) =~= q);
    }
    let k: int = if q[0] != p[0] { 0 } else { 1 };
    assert(q[k] != p[k]);
    lemma_other_prefix(seq![q], q, p, k);
    let l = leaf_entries(c, c.spec_leaves());
    assert forall|i: int| 0 <= i < l.len() implies is_prefix(q, #[trigger] l[i]) by {
        assert(is_prefix(q + seq![' '], l[i]));
        assert(l[i].subrange(0, q.len() as int) =~= (q + seq![' ']).subrange(0, q.len() as int));
        assert((q + seq![' ']).subrange(0, q.len() as int) =~= q);
    }
    lemma_other_prefix(l, q, p, k);
    assert forall|i: int| 0 <= i < s.len() implies !is_prefix(p, #[trigger] s[i]) by {
        if i == 0 {
            assert(s[i] == seq![q][0]);
        } else {
            assert(s[i] == l[i - 1]);
        }
    }
}

/// Completing a branch name followed by a space offers exactly that branch's
/// leaves and their flags, in the grammar's order: the same names the parser
/// accepts under the branch.
pub proof fn lemma_branch_completion(b: Branch)
    ensures
        with_prefix(candidates(), b.spec_name() + seq![' ']) == leaf_entries(b, b.spec_leaves()),
{
    reveal_strlit("account");
    reveal_strlit("agent");
    reveal_strlit("contract");
    reveal_strlit("system");
    reveal_strlit("exit");
    reveal_strlit("help");
    let p = b.spec_name() + seq![' '];
    let bs = all_branches();
    assert(bs.drop_last() =~= seq![Branch::Account, Branch::Agent, Branch::Contract]);
    assert(bs.drop_last().drop_last() =~= seq![Branch::Account, Branch::Agent]);
    assert(bs.drop_last().drop_last().drop_last() =~= seq![Branch::Account]);
    assert(bs.drop_last().drop_last().drop_last().drop_last() =~= Seq::<Branch>::empty());
    let part = |c: Branch| seq![c.spec_name()] + leaf_entries(c, c.spec_leaves());
    let a0 = part(Branch::Account);
    let a1 = part(Branch::Agent);
    let a2 = part(Branch::Contract);
    let a3 = part(Branch::System);
    let shell = seq!["exit"@, "help"@];
    let b3 = bs.drop_last();
    let b2 = b3.drop_last();
    let b1 = b2.drop_last();
    assert(branch_entries(b1.drop_last()) == Seq::<Seq<char>>::empty());
    assert(branch_entries(b1) =~= a0);
    assert(branch_entries(b2) =~= a0 + a1);
    assert(branch_entries(b3) =~= a0 + a1 + a2);
    assert(branch_entries(bs) =~= a0 + a1 + a2 + a3);
    assert(candidates() =~= a0 + a1 + a2 + a3 + shell);
    lemma_with_prefix_concat(a0 + a1 + a2 + a3, shell, p);
    lemma_with_prefix_concat(a0 + a1 + a2, a3, p);
    lemma_with_prefix_concat(a0 + a1, a2, p);
    lemma_with_prefix_concat(a0, a1, p);
    assert(none_start_with(shell, p)) by {
        assert forall|i: int| 0 <= i < shell.len() implies !is_prefix(p, #[trigger] shell[i]) by {
            assert(shell[i][0] != p[0]);
        }
    }
    lemma_with_prefix_none(shell, p);
    let own = leaf_entries(b, b.spec_leaves());
    lemma_leaf_entries_start(b, b.spec_leaves());
    lemma_with_prefix_all(own, p);
    assert(!is_prefix(p, b.spec_name()));
    lemma_with_prefix_concat(seq![b.spec_name()], own, p);
    assert(with_prefix(seq![b.spec_name()], p) =~= Seq::<Seq<char>>::empty()) by {
        assert(seq![b.spec_name()].drop_last() =~= Seq::<Seq<char>>::empty());
        assert(seq![b.spec_name()].last() == b.spec_name());
        assert(with_prefix(Seq::<Seq<char>>::empty(), p) == Seq::<Seq<char>>::empty());
    }
    if b != Branch::Account {
        lemma_branch_part(Branch::Account, b);
        lemma_with_prefix_none(a0, p);
    }
    if b != Branch::Agent {
        lemma_branch_part(Branch::Agent, b);
        lemma_with_prefix_none(a1, p);
    }
    if b != Branch::Contract {
        lemma_branch_part(Branch::Contract, b);
        lemma_with_prefix_none(a2, p);
    }
    if b != Branch::System {
        lemma_branch_part(Branch::System, b);
        lemma_with_prefix_none(a3, p);
    }
    assert(with_prefix(candidates(), p) =~= own);
}

} // verus!
