//! The configured accounts: names mapped to their settings, kept in
//! increasing name order with no name twice.

use vstd::prelude::*;
use crate::text::{chars_of, eq_ignore_ascii_case, eq_ignore_case, same_text};

verus! {

/// The settings of one configured account.
#[derive(Debug)]
pub struct AccountConfig {
    /// Who the account's token belongs to, as the API reported it; may be empty.
    pub identity: String,
}

/// What an [`AccountConfig`] holds.
pub struct AccountView {
    pub identity: Seq<char>,
}

impl View for AccountConfig {
    type V = AccountView;

    open spec fn view(&self) -> AccountView {
        AccountView { identity: self.identity@ }
    }
}

impl Clone for AccountConfig {
    fn clone(&self) -> (r: AccountConfig)
        ensures
            r@ == self@,
    {
        AccountConfig { identity: self.identity.clone() }
    }
}

/// Code-point lexicographic order on names, the order of `String`'s `Ord`.
pub open spec fn name_lt(a: Seq<char>, b: Seq<char>) -> bool
    decreases a.len(),
{
    if a.len() == 0 {
        b.len() > 0
    } else if b.len() == 0 {
        false
    } else if a[0] != b[0] {
        a[0] < b[0]
    } else {
        name_lt(a.drop_first(), b.drop_first())
    }
}

/// Entries in strictly increasing name order.
pub open spec fn is_sorted(entries: Seq<(Seq<char>, AccountView)>) -> bool {
    forall|i: int, j: int| 0 <= i < j < entries.len() ==> name_lt(#[trigger] entries[i].0, #[trigger] entries[j].0)
}

/// The first entry whose name equals `name` when ASCII case is ignored.
pub open spec fn find_entry(entries: Seq<(Seq<char>, AccountView)>, name: Seq<char>) -> Option<(Seq<char>, AccountView)>
    decreases entries.len(),
{
    if entries.len() == 0 {
        None
    } else if eq_ignore_ascii_case(entries[0].0, name) {
        Some(entries[0])
    } else {
        find_entry(entries.drop_first(), name)
    }
}

/// `entries` with `(name, account)` put in its place by name, replacing an entry of that name.
pub open spec fn insert_entry(entries: Seq<(Seq<char>, AccountView)>, name: Seq<char>, account: AccountView) -> Seq<(Seq<char>, AccountView)>
    decreases entries.len(),
{
    if entries.len() == 0 {
        seq![(name, account)]
    } else if entries[0].0 == name {
        seq![(name, account)] + entries.drop_first()
    } else if name_lt(name, entries[0].0) {
        seq![(name, account)] + entries
    } else {
        seq![entries[0]] + insert_entry(entries.drop_first(), name, account)
    }
}

/// `entries` without the entry named exactly `name`.
pub open spec fn remove_entry(entries: Seq<(Seq<char>, AccountView)>, name: Seq<char>) -> Seq<(Seq<char>, AccountView)> {
    entries.filter(other_name(name))
}

/// Whether an entry has a name other than `name`.
pub open spec fn other_name(name: Seq<char>) -> spec_fn((Seq<char>, AccountView)) -> bool {
    |e: (Seq<char>, AccountView)| e.0 != name
}

pub proof fn lemma_name_lt_irreflexive(a: Seq<char>)
    ensures
        !name_lt(a, a),
    decreases a.len(),
{
    if a.len() > 0 {
        lemma_name_lt_irreflexive(a.drop_first());
    }
}

pub proof fn lemma_name_lt_transitive(a: Seq<char>, b: Seq<char>, c: Seq<char>)
    requires
        name_lt(a, b),
        name_lt(b, c),
    ensures
        name_lt(a, c),
    decreases a.len(),
{
    if a.len() > 0 && b.len() > 0 && c.len() > 0 {
        if a[0] == b[0] && b[0] == c[0] {
            lemma_name_lt_transitive(a.drop_first(), b.drop_first(), c.drop_first());
        }
    }
}

pub proof fn lemma_name_lt_total(a: Seq<char>, b: Seq<char>)
    ensures
        a == b || name_lt(a, b) || name_lt(b, a),
    decreases a.len(),
{
    if a.len() == 0 && b.len() == 0 {
        assert(a =~= b);
    } else if a.len() > 0 && b.len() > 0 && a[0] == b[0] {
        lemma_name_lt_total(a.drop_first(), b.drop_first());
        if a.drop_first() == b.drop_first() {
            assert(a.len() == b.len()) by {
                assert(a.drop_first().len() == b.drop_first().len());
            }
            assert forall|i: int| 0 <= i < a.len() implies a[i] == b[i] by {
                if i > 0 {
                    assert(a[i] == a.drop_first()[i - 1]);
                    assert(b[i] == b.drop_first()[i - 1]);
                }
            }
            assert(a =~= b);
        }
    }
}

pub proof fn lemma_name_lt_asymmetric(a: Seq<char>, b: Seq<char>)
    requires
        name_lt(a, b),
    ensures
        !name_lt(b, a),
{
    if name_lt(b, a) {
        lemma_name_lt_transitive(a, b, a);
        lemma_name_lt_irreflexive(a);
    }
}

/// Whether `a` comes before `b` in name order.
pub fn name_less(a: &str, b: &str) -> (r: bool)
    ensures
        r == name_lt(a@, b@),
{
    let ca = chars_of(a);
    let cb = chars_of(b);
    let mut i: usize = 0;
    assert(a@.skip(0) =~= a@);
    assert(b@.skip(0) =~= b@);
    while i < ca.len() && i < cb.len() && ca[i] == cb[i]
        invariant
            ca@ == a@,
            cb@ == b@,
            i <= ca.len(),
            i <= cb.len(),
            name_lt(a@, b@) == name_lt(a@.skip(i as int), b@.skip(i as int)),
        decreases ca.len() - i,
    {
        assert(a@.skip(i as int).drop_first() =~= a@.skip(i + 1));
        assert(b@.skip(i as int).drop_first() =~= b@.skip(i + 1));
        i = i + 1;
    }
    if i == ca.len() {
        i < cb.len()
    } else if i == cb.len() {
        false
    } else {
        assert(a@.skip(i as int)[0] == ca@[i as int]);
        assert(b@.skip(i as int)[0] == cb@[i as int]);
        ca[i] < cb[i]
    }
}

/// Law: inserting `(name, account)` into sorted entries gives entries that
/// hold `account` under `name` and nothing else under that name, and keep
/// every entry of another name and add none.
pub proof fn lemma_insert_entry_map(s: Seq<(Seq<char>, AccountView)>, name: Seq<char>, account: AccountView)
    requires
        is_sorted(s),
    ensures
        insert_entry(s, name, account).contains((name, account)),
        forall|i: int| 0 <= i < insert_entry(s, name, account).len() && (#[trigger] insert_entry(s, name, account)[i]).0 == name
            ==> insert_entry(s, name, account)[i] == (name, account),
        forall|e: (Seq<char>, AccountView)| e.0 != name ==> (s.contains(e) <==> #[trigger] insert_entry(s, name, account).contains(e)),
    decreases s.len(),
{
    let r = insert_entry(s, name, account);
    if s.len() == 0 {
        assert(r[0] == (name, account));
    } else if s[0].0 == name {
        assert(r[0] == (name, account));
        assert forall|i: int| 0 <= i < r.len() && (#[trigger] r[i]).0 == name implies r[i] == (name, account) by {
            if i > 0 {
                assert(r[i] == s[i]);
                lemma_name_lt_irreflexive(name);
            }
        }
        assert forall|e: (Seq<char>, AccountView)| e.0 != name implies (s.contains(e) <==> #[trigger] r.contains(e)) by {
            if s.contains(e) {
                let k = choose|k: int| 0 <= k < s.len() && s[k] == e;
                assert(r[k] == s[k]);
            }
            if r.contains(e) {
                let k = choose|k: int| 0 <= k < r.len() && r[k] == e;
                assert(s[k] == r[k]);
            }
        }
    } else if name_lt(name, s[0].0) {
        assert(r[0] == (name, account));
        assert forall|i: int| 0 <= i < r.len() && (#[trigger] r[i]).0 == name implies r[i] == (name, account) by {
            if i > 0 {
                assert(r[i] == s[i - 1]);
                if i - 1 > 0 {
                    lemma_name_lt_transitive(name, s[0].0, s[i - 1].0);
                }
                lemma_name_lt_irreflexive(name);
            }
        }
        assert forall|e: (Seq<char>, AccountView)| e.0 != name implies (s.contains(e) <==> #[trigger] r.contains(e)) by {
            if s.contains(e) {
                let k = choose|k: int| 0 <= k < s.len() && s[k] == e;
                assert(r[k + 1] == s[k]);
            }
            if r.contains(e) {
                let k = choose|k: int| 0 <= k < r.len() && r[k] == e;
                assert(s[k - 1] == r[k]);
            }
        }
    } else {
        let t = s.drop_first();
        assert forall|i: int, j: int| 0 <= i < j < t.len() implies name_lt(#[trigger] t[i].0, #[trigger] t[j].0) by {
            assert(t[i] == s[i + 1] && t[j] == s[j + 1]);
        }
        lemma_insert_entry_map(t, name, account);
        let rt = insert_entry(t, name, account);
        assert(r == seq![s[0]] + rt);
        let k0 = choose|k: int| 0 <= k < rt.len() && rt[k] == (name, account);
        assert(r[k0 + 1] == (name, account));
        assert forall|i: int| 0 <= i < r.len() && (#[trigger] r[i]).0 == name implies r[i] == (name, account) by {
            if i > 0 {
                assert(r[i] == rt[i - 1]);
            }
        }
        assert forall|e: (Seq<char>, AccountView)| e.0 != name implies (s.contains(e) <==> #[trigger] r.contains(e)) by {
            if s.contains(e) {
                let k = choose|k: int| 0 <= k < s.len() && s[k] == e;
                if k > 0 {
                    assert(t[k - 1] == e);
                    assert(rt.contains(e));
                    let m = choose|m: int| 0 <= m < rt.len() && rt[m] == e;
                    assert(r[m + 1] == e);
                } else {
                    assert(r[0] == e);
                }
            }
            if r.contains(e) {
                let k = choose|k: int| 0 <= k < r.len() && r[k] == e;
                if k > 0 {
                    assert(rt[k - 1] == e);
                    assert(rt.contains(e));
                    let m = choose|m: int| 0 <= m < t.len() && t[m] == e;
                    assert(s[m + 1] == e);
                } else {
                    assert(s[0] == e);
                }
            }
        }
    }
}

/// Law: removing `name` leaves no entry of that name and keeps every other entry.
pub proof fn lemma_remove_entry_map(s: Seq<(Seq<char>, AccountView)>, name: Seq<char>)
    ensures
        forall|e: (Seq<char>, AccountView)| #[trigger] remove_entry(s, name).contains(e) <==> (s.contains(e) && e.0 != name),
{
    let f = other_name(name);
    assert forall|e: (Seq<char>, AccountView)| #[trigger] remove_entry(s, name).contains(e) <==> (s.contains(e) && e.0 != name) by {
        if s.contains(e) && e.0 != name {
            let k = choose|k: int| 0 <= k < s.len() && s[k] == e;
            s.lemma_filter_contains(f, k);
        }
        if s.filter(f).contains(e) {
            s.lemma_filter_contains_rev(f, e);
            let k = choose|k: int| 0 <= k < s.filter(f).len() && s.filter(f)[k] == e;
            s.lemma_filter_pred(f, k);
        }
    }
}

/// Law: removing a name that was just inserted, where it was not configured
/// before, gives back the entries as they were.
pub proof fn lemma_insert_then_remove(s: Seq<(Seq<char>, AccountView)>, name: Seq<char>, account: AccountView)
    requires
        forall|i: int| 0 <= i < s.len() ==> (#[trigger] s[i]).0 != name,
    ensures
        remove_entry(insert_entry(s, name, account), name) == s,
    decreases s.len(),
{
    let f = other_name(name);
    if s.len() == 0 {
        Seq::<(Seq<char>, AccountView)>::empty().lemma_filter_prepend((name, account), f);
        assert(Seq::<(Seq<char>, AccountView)>::empty().filter(f) =~= Seq::empty()) by {
            reveal(Seq::filter);
        }
        assert(seq![(name, account)] + Seq::<(Seq<char>, AccountView)>::empty() =~= seq![(name, account)]);
        assert(remove_entry(insert_entry(s, name, account), name) =~= s);
    } else if name_lt(name, s[0].0) {
        s.lemma_filter_prepend((name, account), f);
        assert forall|i: int| 0 <= i < s.len() implies #[trigger] f(s[i]) by {}
        lemma_filter_all(s, f);
        assert(Seq::<(Seq<char>, AccountView)>::empty() + s =~= s);
    } else {
        let t = s.drop_first();
        assert forall|i: int| 0 <= i < t.len() implies (#[trigger] t[i]).0 != name by {
            assert(t[i] == s[i + 1]);
        }
        lemma_insert_then_remove(t, name, account);
        insert_entry(t, name, account).lemma_filter_prepend(s[0], f);
        assert(seq![s[0]] + t =~= s);
    }
}

proof fn lemma_filter_all(s: Seq<(Seq<char>, AccountView)>, f: spec_fn((Seq<char>, AccountView)) -> bool)
    requires
        forall|i: int| 0 <= i < s.len() ==> #[trigger] f(s[i]),
    ensures
        s.filter(f) == s,
    decreases s.len(),
{
    reveal(Seq::filter);
    if s.len() > 0 {
        let t = s.drop_last();
        assert forall|i: int| 0 <= i < t.len() implies #[trigger] f(t[i]) by {
            assert(t[i] == s[i]);
        }
        lemma_filter_all(t, f);
        assert(t.push(s.last()) =~= s);
    } else {
        assert(s.filter(f) =~= s);
    }
}

/// Law: a name that is configured is always found, and whatever is found is
/// a configured entry whose name matches the requested one ignoring ASCII case,
/// with no earlier entry matching; a name that matches no entry is not found.
pub proof fn lemma_find_entry_finds_configured(s: Seq<(Seq<char>, AccountView)>, name: Seq<char>)
    ensures
        forall|i: int| 0 <= i < s.len() ==> (#[trigger] find_entry(s, s[i].0)) is Some,
        (exists|i: int| 0 <= i < s.len() && s[i].0 == name) ==> find_entry(s, name) is Some,
        match find_entry(s, name) {
            Some(e) => exists|i: int|
                0 <= i < s.len() && s[i] == e && eq_ignore_ascii_case(e.0, name) && forall|k: int|
                    0 <= k < i ==> !eq_ignore_ascii_case(#[trigger] s[k].0, name),
            None => forall|i: int| 0 <= i < s.len() ==> !eq_ignore_ascii_case(#[trigger] s[i].0, name),
        },
    decreases s.len(),
{
    assert forall|i: int| 0 <= i < s.len() implies (#[trigger] find_entry(s, s[i].0)) is Some by {
        lemma_find_entry_self(s, i);
    }
    if exists|i: int| 0 <= i < s.len() && s[i].0 == name {
        let i = choose|i: int| 0 <= i < s.len() && s[i].0 == name;
        lemma_find_entry_self(s, i);
    }
    if s.len() > 0 && !eq_ignore_ascii_case(s[0].0, name) {
        let t = s.drop_first();
        lemma_find_entry_finds_configured(t, name);
        match find_entry(t, name) {
            Some(e) => {
                let j = choose|j: int|
                    0 <= j < t.len() && t[j] == e && eq_ignore_ascii_case(e.0, name) && forall|k: int|
                        0 <= k < j ==> !eq_ignore_ascii_case(#[trigger] t[k].0, name);
                assert(s[j + 1] == e);
                assert forall|k: int| 0 <= k < j + 1 implies !eq_ignore_ascii_case(#[trigger] s[k].0, name) by {
                    if k > 0 {
                        assert(s[k] == t[k - 1]);
                    }
                }
            },
            None => {
                assert forall|i: int| 0 <= i < s.len() implies !eq_ignore_ascii_case(#[trigger] s[i].0, name) by {
                    if i > 0 {
                        assert(s[i] == t[i - 1]);
                    }
                }
            },
        }
    } else if s.len() > 0 {
        assert(s[0] == find_entry(s, name)->0);
    }
}

proof fn lemma_find_entry_self(s: Seq<(Seq<char>, AccountView)>, i: int)
    requires
        0 <= i < s.len(),
    ensures
        find_entry(s, s[i].0) is Some,
    decreases i,
{
    if !eq_ignore_ascii_case(s[0].0, s[i].0) {
        if i == 0 {
            assert(eq_ignore_ascii_case(s[0].0, s[0].0));
        } else {
            let t = s.drop_first();
            assert(t[i - 1] == s[i]);
            lemma_find_entry_self(t, i - 1);
        }
    }
}

/// The configured accounts, in increasing name order.
#[derive(Debug)]
pub struct Config {
    accounts: Vec<(String, AccountConfig)>,
}

/// The entries of `v` as names and account views.
pub open spec fn entries_view(v: Seq<(String, AccountConfig)>) -> Seq<(Seq<char>, AccountView)> {
    v.map_values(|e: (String, AccountConfig)| (e.0@, e.1@))
}

impl View for Config {
    type V = Seq<(Seq<char>, AccountView)>;

    closed spec fn view(&self) -> Seq<(Seq<char>, AccountView)> {
        entries_view(self.accounts@)
    }
}

proof fn lemma_insert_entry_sorted(s: Seq<(Seq<char>, AccountView)>, name: Seq<char>, account: AccountView)
    requires
        is_sorted(s),
    ensures
        is_sorted(insert_entry(s, name, account)),
        forall|k: int| 0 <= k < insert_entry(s, name, account).len() ==>
            (#[trigger] insert_entry(s, name, account)[k].0 == name || exists|m: int| 0 <= m < s.len() && s[m].0 == insert_entry(s, name, account)[k].0),
    decreases s.len(),
{
    let r = insert_entry(s, name, account);
    if s.len() == 0 {
    } else if s[0].0 == name {
        assert forall|i: int, j: int| 0 <= i < j < r.len() implies name_lt(#[trigger] r[i].0, #[trigger] r[j].0) by {
            if i == 0 {
                assert(r[j] == s[j]);
            } else {
                assert(r[i] == s[i] && r[j] == s[j]);
            }
        }
        assert forall|k: int| 0 <= k < r.len() implies (#[trigger] r[k].0 == name || exists|m: int| 0 <= m < s.len() && s[m].0 == r[k].0) by {
            if k > 0 {
                assert(r[k] == s[k]);
            }
        }
    } else if name_lt(name, s[0].0) {
        assert forall|i: int, j: int| 0 <= i < j < r.len() implies name_lt(#[trigger] r[i].0, #[trigger] r[j].0) by {
            if i == 0 {
                assert(r[j] == s[j - 1]);
                if j - 1 > 0 {
                    lemma_name_lt_transitive(name, s[0].0, s[j - 1].0);
                }
            } else {
                assert(r[i] == s[i - 1] && r[j] == s[j - 1]);
            }
        }
        assert forall|k: int| 0 <= k < r.len() implies (#[trigger] r[k].0 == name || exists|m: int| 0 <= m < s.len() && s[m].0 == r[k].0) by {
            if k > 0 {
                assert(r[k] == s[k - 1]);
            }
        }
    } else {
        let t = s.drop_first();
        assert forall|i: int, j: int| 0 <= i < j < t.len() implies name_lt(#[trigger] t[i].0, #[trigger] t[j].0) by {
            assert(t[i] == s[i + 1] && t[j] == s[j + 1]);
        }
        lemma_insert_entry_sorted(t, name, account);
        let rt = insert_entry(t, name, account);
        lemma_name_lt_total(name, s[0].0);
        assert(name_lt(s[0].0, name));
        assert forall|i: int, j: int| 0 <= i < j < r.len() implies name_lt(#[trigger] r[i].0, #[trigger] r[j].0) by {
            if i == 0 {
                assert(r[j] == rt[j - 1]);
                assert(rt[j - 1].0 == name || exists|m: int| 0 <= m < t.len() && t[m].0 == rt[j - 1].0);
                if rt[j - 1].0 != name {
                    let m = choose|m: int| 0 <= m < t.len() && t[m].0 == rt[j - 1].0;
                    assert(t[m] == s[m + 1]);
                }
            } else {
                assert(r[i] == rt[i - 1] && r[j] == rt[j - 1]);
            }
        }
        assert forall|k: int| 0 <= k < r.len() implies (#[trigger] r[k].0 == name || exists|m: int| 0 <= m < s.len() && s[m].0 == r[k].0) by {
            if k == 0 {
                assert(s[0].0 == r[0].0);
            } else {
                assert(r[k] == rt[k - 1]);
                if rt[k - 1].0 != name {
                    let m = choose|m: int| 0 <= m < t.len() && t[m].0 == rt[k - 1].0;
                    assert(t[m] == s[m + 1]);
                }
            }
        }
    }
}

proof fn lemma_insert_entry_at(s: Seq<(Seq<char>, AccountView)>, p: int, name: Seq<char>, account: AccountView)
    requires
        0 <= p <= s.len(),
        forall|k: int| 0 <= k < p ==> name_lt(#[trigger] s[k].0, name),
    ensures
        insert_entry(s, name, account) == s.subrange(0, p) + insert_entry(s.subrange(p, s.len() as int), name, account),
    decreases p,
{
    if p == 0 {
        assert(s.subrange(0, 0) + insert_entry(s.subrange(0, s.len() as int), name, account) =~= insert_entry(s, name, account)) by {
            assert(s.subrange(0, s.len() as int) =~= s);
        }
    } else {
        let t = s.drop_first();
        assert forall|k: int| 0 <= k < p - 1 implies name_lt(#[trigger] t[k].0, name) by {
            assert(t[k] == s[k + 1]);
        }
        lemma_insert_entry_at(t, p - 1, name, account);
        lemma_name_lt_asymmetric(s[0].0, name);
        lemma_name_lt_irreflexive(name);
        assert(s[0].0 != name);
        assert(t.subrange(p - 1, t.len() as int) =~= s.subrange(p, s.len() as int));
        assert(seq![s[0]] + t.subrange(0, p - 1) =~= s.subrange(0, p));
        assert(insert_entry(s, name, account) == seq![s[0]] + insert_entry(t, name, account));
        assert(seq![s[0]] + (t.subrange(0, p - 1) + insert_entry(s.subrange(p, s.len() as int), name, account))
            =~= s.subrange(0, p) + insert_entry(s.subrange(p, s.len() as int), name, account));
    }
}

proof fn lemma_find_entry_skip(s: Seq<(Seq<char>, AccountView)>, i: int, name: Seq<char>)
    requires
        0 <= i <= s.len(),
        forall|k: int| 0 <= k < i ==> !eq_ignore_ascii_case(#[trigger] s[k].0, name),
    ensures
        find_entry(s, name) == find_entry(s.subrange(i, s.len() as int), name),
    decreases i,
{
    if i == 0 {
        assert(s.subrange(0, s.len() as int) =~= s);
    } else {
        let t = s.drop_first();
        assert forall|k: int| 0 <= k < i - 1 implies !eq_ignore_ascii_case(#[trigger] t[k].0, name) by {
            assert(t[k] == s[k + 1]);
        }
        lemma_find_entry_skip(t, i - 1, name);
        assert(t.subrange(i - 1, t.len() as int) =~= s.subrange(i, s.len() as int));
    }
}

impl Config {
    #[verifier::type_invariant]
    spec fn sorted_by_name(self) -> bool {
        is_sorted(entries_view(self.accounts@))
    }

    /// A configuration with no accounts.
    pub fn new() -> (c: Config)
        ensures
            c@ == Seq::<(Seq<char>, AccountView)>::empty(),
    {
        let c = Config { accounts: Vec::new() };
        assert(entries_view(c.accounts@) =~= Seq::<(Seq<char>, AccountView)>::empty());
        c
    }

    /// The number of configured accounts.
    pub fn len(&self) -> (n: usize)
        ensures
            n == self@.len(),
    {
        self.accounts.len()
    }

    /// Whether no account is configured.
    pub fn is_empty(&self) -> (b: bool)
        ensures
            b == (self@.len() == 0),
    {
        self.accounts.len() == 0
    }

    /// The entries, in strictly increasing name order.
    pub fn sorted(&self) -> (r: &Vec<(String, AccountConfig)>)
        ensures
            entries_view(r@) == self@,
            is_sorted(self@),
    {
        proof {
            use_type_invariant(self);
        }
        &self.accounts
    }

    /// The `i`-th entry in name order, cloned.
    pub fn entry(&self, i: usize) -> (r: (String, AccountConfig))
        requires
            i < self@.len(),
        ensures
            (r.0@, r.1@) == self@[i as int],
    {
        let e = &self.accounts[i];
        (e.0.clone(), e.1.clone())
    }

    /// The first entry whose name matches `name` ignoring ASCII case, cloned.
    pub fn find(&self, name: &str) -> (r: Option<(String, AccountConfig)>)
        ensures
            match r {
                Some(e) => find_entry(self@, name@) == Some((e.0@, e.1@)),
                None => find_entry(self@, name@) is None,
            },
    {
        let n = self.accounts.len();
        let mut i: usize = 0;
        assert(self@.subrange(0, n as int) =~= self@);
        while i < n
            invariant
                n == self.accounts@.len(),
                i <= n,
                find_entry(self@, name@) == find_entry(self@.subrange(i as int, n as int), name@),
            decreases n - i,
        {
            let e = &self.accounts[i];
            proof {
                let s = self@.subrange(i as int, n as int);
                assert(s[0] == self@[i as int]);
                assert(s.drop_first() =~= self@.subrange(i + 1, n as int));
            }
            if eq_ignore_case(e.0.as_str(), name) {
                return Some((e.0.clone(), e.1.clone()));
            }
            i = i + 1;
        }
        None
    }

    /// Puts `account` under `name`, replacing an entry of exactly that name.
    pub fn insert(&mut self, name: String, account: AccountConfig)
        ensures
            final(self)@ == insert_entry(old(self)@, name@, account@),
    {
        proof {
            use_type_invariant(&*self);
        }
        let mut v: Vec<(String, AccountConfig)> = Vec::new();
        std::mem::swap(&mut v, &mut self.accounts);
        let ghost s = entries_view(v@);
        assert(s == old(self)@);
        let n = v.len();
        let mut p: usize = 0;
        while p < n && name_less(v[p].0.as_str(), name.as_str())
            invariant
                n == v@.len(),
                s == entries_view(v@),
                p <= n,
                forall|k: int| 0 <= k < p ==> name_lt(#[trigger] s[k].0, name@),
            decreases n - p,
        {
            p = p + 1;
        }
        proof {
            lemma_insert_entry_at(s, p as int, name@, account@);
            lemma_insert_entry_sorted(s, name@, account@);
        }
        let ghost rest = s.subrange(p as int, n as int);
        if p < n && v[p].0 == name {
            proof {
                assert(rest[0] == s[p as int]);
                assert(rest.drop_first() =~= s.subrange(p + 1, n as int));
            }
            let ghost nv = name@;
            let ghost av = account@;
            v.set(p, (name, account));
            proof {
                assert(entries_view(v@) =~= s.subrange(0, p as int) + (seq![(nv, av)] + rest.drop_first()));
            }
        } else {
            proof {
                if p < n {
                    assert(rest[0] == s[p as int]);
                    lemma_name_lt_total(name@, s[p as int].0);
                }
            }
            let ghost nv = name@;
            let ghost av = account@;
            v.insert(p, (name, account));
            proof {
                assert(entries_view(v@) =~= s.subrange(0, p as int) + (seq![(nv, av)] + rest));
            }
        }
        self.accounts = v;
    }

    /// Removes the entry named exactly `name`; returns whether there was one.
    pub fn remove(&mut self, name: &str) -> (removed: bool)
        ensures
            final(self)@ == remove_entry(old(self)@, name@),
            removed == exists|i: int| 0 <= i < old(self)@.len() && old(self)@[i].0 == name@,
    {
        proof {
            use_type_invariant(&*self);
        }
        let mut v: Vec<(String, AccountConfig)> = Vec::new();
        std::mem::swap(&mut v, &mut self.accounts);
        let ghost s = entries_view(v@);
        assert(s == old(self)@);
        let mut out: Vec<(String, AccountConfig)> = Vec::new();
        let mut removed = false;
        let n = v.len();
        let mut i: usize = 0;
        while i < n
            invariant
                n == v@.len(),
                s == entries_view(v@),
                is_sorted(s),
                i <= n,
                entries_view(out@) == remove_entry(s.subrange(0, i as int), name@),
                removed == exists|k: int| 0 <= k < i && s[k].0 == name@,
                forall|a: int, b: int| 0 <= a < b < out@.len() ==> name_lt(#[trigger] entries_view(out@)[a].0, #[trigger] entries_view(out@)[b].0),
                forall|a: int| 0 <= a < out@.len() ==> exists|k: int| 0 <= k < i && s[k].0 == #[trigger] entries_view(out@)[a].0,
            decreases n - i,
        {
            let ghost before = out@;
            proof {
                let pre = s.subrange(0, i as int);
                assert(s.subrange(0, i + 1) =~= pre.push(s[i as int]));
                pre.lemma_filter_push(s[i as int], other_name(name@));
            }
            if same_text(v[i].0.as_str(), name) {
                removed = true;
            } else {
                out.push((v[i].0.clone(), v[i].1.clone()));
                proof {
                    let ov = entries_view(out@);
                    assert(ov =~= entries_view(before).push(s[i as int]));
                    assert forall|a: int, b: int| 0 <= a < b < ov.len() implies name_lt(#[trigger] ov[a].0, #[trigger] ov[b].0) by {
                        if b == ov.len() - 1 {
                            let k = choose|k: int| 0 <= k < i && s[k].0 == entries_view(before)[a].0;
                            assert(ov[a] == entries_view(before)[a]);
                        } else {
                            assert(ov[a] == entries_view(before)[a] && ov[b] == entries_view(before)[b]);
                        }
                    }
                    assert forall|a: int| 0 <= a < ov.len() implies exists|k: int| 0 <= k < i + 1 && s[k].0 == #[trigger] ov[a].0 by {
                        if a == ov.len() - 1 {
                            assert(s[i as int].0 == ov[a].0);
                        } else {
                            assert(ov[a] == entries_view(before)[a]);
                            let k = choose|k: int| 0 <= k < i && s[k].0 == entries_view(before)[a].0;
                        }
                    }
                }
            }
            i = i + 1;
        }
        proof {
            assert(s.subrange(0, n as int) =~= s);
        }
        self.accounts = out;
        removed
    }
}

} // verus!
