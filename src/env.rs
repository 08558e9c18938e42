//! The key/value environment of a trace: a map from names to values whose
//! keys are unique and kept in ascending order.

use vstd::prelude::*;
use vstd::string::StrSliceExecFns;
use core::cmp::Ordering;

verus! {

/// A value of the trace environment.
#[derive(Clone, Eq, Hash, Debug)]
pub enum EnvValue {
    Integer(i64),
    String(String),
}

pub ghost enum EnvValueView {
    Integer(i64),
    String(Seq<char>),
}

impl View for EnvValue {
    type V = EnvValueView;

    open spec fn view(&self) -> EnvValueView {
        match self {
            EnvValue::Integer(i) => EnvValueView::Integer(*i),
            EnvValue::String(s) => EnvValueView::String(s@),
        }
    }
}

impl PartialEq for EnvValue {
    fn eq(&self, o: &EnvValue) -> (r: bool) {
        match (self, o) {
            (EnvValue::Integer(a), EnvValue::Integer(b)) => *a == *b,
            (EnvValue::String(a), EnvValue::String(b)) => a.eq(b),
            _ => false,
        }
    }
}

impl vstd::std_specs::cmp::PartialEqSpecImpl for EnvValue {
    open spec fn obeys_eq_spec() -> bool {
        true
    }

    open spec fn eq_spec(&self, o: &EnvValue) -> bool {
        self@ == o@
    }
}

/// The order of keys: lexicographic by code point, which is the order of
/// their UTF-8 bytes.
pub open spec fn key_lt(a: Seq<char>, b: Seq<char>) -> bool
    decreases a.len(),
{
    if a.len() == 0 {
        b.len() > 0
    } else if b.len() == 0 {
        false
    } else if a[0] != b[0] {
        (a[0] as int) < (b[0] as int)
    } else {
        key_lt(a.drop_first(), b.drop_first())
    }
}

proof fn lemma_key_lt_total(a: Seq<char>, b: Seq<char>)
    ensures
        a == b || key_lt(a, b) || key_lt(b, a),
        key_lt(a, b) ==> !key_lt(b, a) && a != b,
    decreases a.len(),
{
    if a.len() > 0 && b.len() > 0 && a[0] == b[0] {
        lemma_key_lt_total(a.drop_first(), b.drop_first());
        if a.drop_first() == b.drop_first() {
            assert(a =~= seq![a[0]] + a.drop_first());
            assert(b =~= seq![b[0]] + b.drop_first());
        }
    } else if a.len() == 0 && b.len() == 0 {
        assert(a =~= b);
    } else if a.len() > 0 && b.len() > 0 {
        assert((a[0] as int) != (b[0] as int));
    }
}

proof fn lemma_key_lt_trans(a: Seq<char>, b: Seq<char>, c: Seq<char>)
    requires
        key_lt(a, b),
        key_lt(b, c),
    ensures
        key_lt(a, c),
    decreases a.len(),
{
    if a.len() > 0 && b.len() > 0 && c.len() > 0 && a[0] == b[0] && b[0] == c[0] {
        lemma_key_lt_trans(a.drop_first(), b.drop_first(), c.drop_first());
    }
}

proof fn lemma_key_lt_skip(a: Seq<char>, b: Seq<char>, i: int)
    requires
        0 <= i <= a.len(),
        i <= b.len(),
        a.take(i) == b.take(i),
    ensures
        key_lt(a, b) == key_lt(a.skip(i), b.skip(i)),
    decreases i,
{
    if i > 0 {
        assert(a[0] == a.take(i)[0]);
        assert(b[0] == b.take(i)[0]);
        assert(a.drop_first().take(i - 1) =~= a.take(i).drop_first());
        assert(b.drop_first().take(i - 1) =~= b.take(i).drop_first());
        lemma_key_lt_skip(a.drop_first(), b.drop_first(), i - 1);
        assert(a.drop_first().skip(i - 1) =~= a.skip(i));
        assert(b.drop_first().skip(i - 1) =~= b.skip(i));
    } else {
        assert(a.skip(0) =~= a);
        assert(b.skip(0) =~= b);
    }
}

/// Compares two keys in key order.
pub fn compare_keys(a: &String, b: &String) -> (r: Ordering)
    ensures
        (r == Ordering::Less) == key_lt(a@, b@),
        (r == Ordering::Equal) == (a@ == b@),
        (r == Ordering::Greater) == key_lt(b@, a@),
{
    let sa = a.as_str();
    let sb = b.as_str();
    let la = sa.unicode_len();
    let lb = sb.unicode_len();
    let mut i: usize = 0;
    while i < la && i < lb
        invariant
            la == a@.len(),
            lb == b@.len(),
            sa@ == a@,
            sb@ == b@,
            i <= la,
            i <= lb,
            a@.take(i as int) == b@.take(i as int),
        decreases la - i,
    {
        let ca = sa.get_char(i);
        let cb = sb.get_char(i);
        if ca != cb {
            proof {
                lemma_key_lt_skip(a@, b@, i as int);
                lemma_key_lt_skip(b@, a@, i as int);
                assert(a@.skip(i as int)[0] == ca);
                assert(b@.skip(i as int)[0] == cb);
                assert(a@[i as int] != b@[i as int]);
            }
            if ca < cb {
                return Ordering::Less;
            } else {
                return Ordering::Greater;
            }
        }
        proof {
            assert(a@.take(i as int + 1) =~= a@.take(i as int).push(a@[i as int]));
            assert(b@.take(i as int + 1) =~= b@.take(i as int).push(b@[i as int]));
        }
        i = i + 1;
    }
    proof {
        lemma_key_lt_skip(a@, b@, i as int);
        lemma_key_lt_skip(b@, a@, i as int);
        if la == lb {
            assert(a@ =~= a@.take(i as int));
            assert(b@ =~= b@.take(i as int));
        } else {
            assert(a@.len() != b@.len());
        }
    }
    if la < lb {
        Ordering::Less
    } else if la > lb {
        Ordering::Greater
    } else {
        Ordering::Equal
    }
}

/// Keys are unique and in ascending order.
pub open spec fn env_sorted(s: Seq<(Seq<char>, EnvValueView)>) -> bool {
    forall|i: int, j: int| 0 <= i < j < s.len() ==> key_lt(#[trigger] s[i].0, #[trigger] s[j].0)
}

/// The environment after setting `k` to `v`: an entry with that key has its
/// value replaced (the last write wins); otherwise the entry goes at its
/// place in key order.
pub open spec fn env_insert(
    s: Seq<(Seq<char>, EnvValueView)>,
    k: Seq<char>,
    v: EnvValueView,
) -> Seq<(Seq<char>, EnvValueView)>
    decreases s.len(),
{
    if s.len() == 0 {
        seq![(k, v)]
    } else if s[0].0 == k {
        s.update(0, (k, v))
    } else if key_lt(k, s[0].0) {
        s.insert(0, (k, v))
    } else {
        env_insert(s.drop_first(), k, v).insert(0, s[0])
    }
}

proof fn lemma_env_insert_at(s: Seq<(Seq<char>, EnvValueView)>, k: Seq<char>, v: EnvValueView, i: int)
    requires
        0 <= i <= s.len(),
        forall|j: int| 0 <= j < i ==> key_lt(#[trigger] s[j].0, k),
    ensures
        i == s.len() ==> env_insert(s, k, v) == s.push((k, v)),
        i < s.len() && s[i].0 == k ==> env_insert(s, k, v) == s.update(i, (k, v)),
        i < s.len() && key_lt(k, s[i].0) ==> env_insert(s, k, v) == s.insert(i, (k, v)),
    decreases i,
{
    if i > 0 {
        lemma_key_lt_total(s[0].0, k);
        assert forall|j: int| 0 <= j < i - 1 implies key_lt(#[trigger] s.drop_first()[j].0, k) by {
            assert(s.drop_first()[j] == s[j + 1]);
        }
        lemma_env_insert_at(s.drop_first(), k, v, i - 1);
        if i == s.len() {
            assert(s.drop_first().push((k, v)).insert(0, s[0]) =~= s.push((k, v)));
        }
        if i < s.len() {
            assert(s.drop_first().update(i - 1, (k, v)).insert(0, s[0]) =~= s.update(i, (k, v)));
            assert(s.drop_first().insert(i - 1, (k, v)).insert(0, s[0]) =~= s.insert(i, (k, v)));
        }
    } else if s.len() == 0 {
        assert(seq![(k, v)] =~= s.push((k, v)));
    } else {
        lemma_key_lt_total(s[0].0, k);
    }
}

/// What setting `k` to `v` keeps and adds: the entry `(k, v)`, and every
/// entry whose key is not `k`; nothing else.
pub proof fn lemma_env_insert_members(
    s: Seq<(Seq<char>, EnvValueView)>,
    k: Seq<char>,
    v: EnvValueView,
)
    ensures
        env_insert(s, k, v).contains((k, v)),
        forall|e: (Seq<char>, EnvValueView)|
            s.contains(e) && e.0 != k ==> #[trigger] env_insert(s, k, v).contains(e),
        forall|e: (Seq<char>, EnvValueView)|
            #[trigger] env_insert(s, k, v).contains(e) ==> e == (k, v) || s.contains(e),
    decreases s.len(),
{
    let r = env_insert(s, k, v);
    if s.len() == 0 {
        assert(r[0] == (k, v));
        assert forall|e: (Seq<char>, EnvValueView)| #[trigger] r.contains(e) implies e == (k, v)
            || s.contains(e) by {
            let i = choose|i: int| 0 <= i < r.len() && r[i] == e;
            assert(i == 0);
        }
    } else if s[0].0 == k {
        assert(r[0] == (k, v));
        assert forall|e: (Seq<char>, EnvValueView)| s.contains(e) && e.0 != k implies #[trigger] r.contains(e) by {
            let m = choose|m: int| 0 <= m < s.len() && s[m] == e;
            assert(m != 0);
            assert(r[m] == e);
        }
        assert forall|e: (Seq<char>, EnvValueView)| #[trigger] r.contains(e) implies e == (k, v)
            || s.contains(e) by {
            let i = choose|i: int| 0 <= i < r.len() && r[i] == e;
            if i != 0 {
                assert(s[i] == e);
            }
        }
    } else if key_lt(k, s[0].0) {
        assert(r[0] == (k, v));
        assert forall|e: (Seq<char>, EnvValueView)| s.contains(e) && e.0 != k implies #[trigger] r.contains(e) by {
            let m = choose|m: int| 0 <= m < s.len() && s[m] == e;
            assert(r[m + 1] == e);
        }
        assert forall|e: (Seq<char>, EnvValueView)| #[trigger] r.contains(e) implies e == (k, v)
            || s.contains(e) by {
            let i = choose|i: int| 0 <= i < r.len() && r[i] == e;
            if i != 0 {
                assert(s[i - 1] == e);
            }
        }
    } else {
        let t = s.drop_first();
        let rt = env_insert(t, k, v);
        lemma_env_insert_members(t, k, v);
        assert(r == rt.insert(0, s[0]));
        let w = choose|i: int| 0 <= i < rt.len() && rt[i] == (k, v);
        assert(r[w + 1] == (k, v));
        assert forall|e: (Seq<char>, EnvValueView)| s.contains(e) && e.0 != k implies #[trigger] r.contains(e) by {
            let m = choose|m: int| 0 <= m < s.len() && s[m] == e;
            if m == 0 {
                assert(r[0] == e);
            } else {
                assert(t[m - 1] == e);
                assert(t.contains(e));
                assert(rt.contains(e));
                let i = choose|i: int| 0 <= i < rt.len() && rt[i] == e;
                assert(r[i + 1] == e);
            }
        }
        assert forall|e: (Seq<char>, EnvValueView)| #[trigger] r.contains(e) implies e == (k, v)
            || s.contains(e) by {
            let i = choose|i: int| 0 <= i < r.len() && r[i] == e;
            if i == 0 {
                assert(s[0] == e);
            } else {
                assert(rt[i - 1] == e);
                assert(rt.contains(e));
                if e != (k, v) {
                    assert(t.contains(e));
                    let m = choose|m: int| 0 <= m < t.len() && t[m] == e;
                    assert(s[m + 1] == e);
                }
            }
        }
    }
}

/// Setting a key keeps the keys of an environment unique and ascending.
pub proof fn lemma_env_insert_sorted(s: Seq<(Seq<char>, EnvValueView)>, k: Seq<char>, v: EnvValueView)
    requires
        env_sorted(s),
    ensures
        env_sorted(env_insert(s, k, v)),
    decreases s.len(),
{
    let r = env_insert(s, k, v);
    if s.len() == 0 {
    } else {
        lemma_key_lt_total(s[0].0, k);
        if s[0].0 == k {
            assert forall|i: int, j: int| 0 <= i < j < r.len() implies key_lt(
                #[trigger] r[i].0,
                #[trigger] r[j].0,
            ) by {
                assert(r[i].0 == s[i].0 && r[j].0 == s[j].0);
            }
        } else if key_lt(k, s[0].0) {
            assert forall|i: int, j: int| 0 <= i < j < r.len() implies key_lt(
                #[trigger] r[i].0,
                #[trigger] r[j].0,
            ) by {
                if i == 0 {
                    if j > 1 {
                        lemma_key_lt_trans(k, s[0].0, s[j - 1].0);
                    }
                } else {
                    assert(r[i] == s[i - 1] && r[j] == s[j - 1]);
                }
            }
        } else {
            let t = s.drop_first();
            assert forall|i: int, j: int| 0 <= i < j < t.len() implies key_lt(
                #[trigger] t[i].0,
                #[trigger] t[j].0,
            ) by {
                assert(t[i] == s[i + 1] && t[j] == s[j + 1]);
            }
            lemma_env_insert_sorted(t, k, v);
            lemma_env_insert_members(t, k, v);
            let rt = env_insert(t, k, v);
            assert(r == rt.insert(0, s[0]));
            assert forall|j: int| 0 <= j < rt.len() implies key_lt(s[0].0, #[trigger] rt[j].0) by {
                assert(rt.contains(rt[j]));
                if rt[j] != (k, v) {
                    let m = choose|m: int| 0 <= m < t.len() && t[m] == rt[j];
                    assert(t[m] == s[m + 1]);
                }
            }
            assert forall|i: int, j: int| 0 <= i < j < r.len() implies key_lt(
                #[trigger] r[i].0,
                #[trigger] r[j].0,
            ) by {
                if i == 0 {
                    assert(r[j] == rt[j - 1]);
                } else {
                    assert(r[i] == rt[i - 1] && r[j] == rt[j - 1]);
                }
            }
        }
    }
}

/// The view of a list of environment entries.
pub open spec fn entries_view(s: Seq<(String, EnvValue)>) -> Seq<(Seq<char>, EnvValueView)> {
    s.map_values(|e: (String, EnvValue)| (e.0@, e.1@))
}

/// Trace environment: a map from names to values, its entries kept in
/// ascending key order with each key once.
#[derive(Eq, Hash, Debug)]
pub struct Env {
    entries: Vec<(String, EnvValue)>,
}

impl View for Env {
    type V = Seq<(Seq<char>, EnvValueView)>;

    closed spec fn view(&self) -> Seq<(Seq<char>, EnvValueView)> {
        entries_view(self.entries@)
    }
}

impl Env {
    #[verifier::type_invariant]
    spec fn keys_sorted(self) -> bool {
        env_sorted(entries_view(self.entries@))
    }

    /// An empty environment.
    pub fn new() -> (r: Env)
        ensures
            r@ == Seq::<(Seq<char>, EnvValueView)>::empty(),
    {
        let r = Env { entries: Vec::new() };
        assert(entries_view(r.entries@) =~= Seq::empty());
        r
    }

    /// Sets `key` to `value`: an existing entry with that key has its value
    /// replaced; otherwise the entry is added at its place in key order.
    pub fn insert(&mut self, key: String, value: EnvValue)
        ensures
            final(self)@ == env_insert(old(self)@, key@, value@),
            env_sorted(final(self)@),
    {
        proof {
            use_type_invariant(&*self);
        }
        let mut v: Vec<(String, EnvValue)> = Vec::new();
        std::mem::swap(&mut v, &mut self.entries);
        let ghost s = entries_view(v@);
        let ghost kv = key@;
        let ghost vv = value@;
        assert(s == old(self)@);
        let mut i: usize = 0;
        let mut done = false;
        while !done && i < v.len()
            invariant
                s == entries_view(v@),
                kv == key@,
                i <= v@.len(),
                forall|j: int| 0 <= j < i ==> key_lt(#[trigger] s[j].0, kv),
                done ==> i < v@.len() && !key_lt(s[i as int].0, kv),
            decreases v@.len() - i + (if done { 0int } else { 1int }),
        {
            assert(s[i as int] == (v@[i as int].0@, v@[i as int].1@));
            match compare_keys(&v[i].0, &key) {
                Ordering::Less => {
                    i = i + 1;
                },
                _ => {
                    done = true;
                },
            }
        }
        proof {
            lemma_env_insert_at(s, kv, vv, i as int);
            lemma_env_insert_sorted(s, kv, vv);
        }
        if done {
            proof {
                lemma_key_lt_total(s[i as int].0, kv);
                assert(s[i as int] == (v@[i as int].0@, v@[i as int].1@));
            }
            match compare_keys(&v[i].0, &key) {
                Ordering::Equal => {
                    v[i] = (key, value);
                    assert(entries_view(v@) =~= s.update(i as int, (kv, vv)));
                },
                _ => {
                    v.insert(i, (key, value));
                    assert(entries_view(v@) =~= s.insert(i as int, (kv, vv)));
                },
            }
        } else {
            v.push((key, value));
            assert(entries_view(v@) =~= s.push((kv, vv)));
        }
        self.entries = v;
    }

    /// The entries, in ascending key order, each key once.
    pub fn entries(&self) -> (r: &Vec<(String, EnvValue)>)
        ensures
            entries_view(r@) == self@,
            env_sorted(self@),
    {
        proof {
            use_type_invariant(self);
        }
        &self.entries
    }

    /// The value of `key`, if the environment holds it.
    pub fn get(&self, key: &String) -> (r: Option<&EnvValue>)
        ensures
            r.is_none() <==> forall|i: int| 0 <= i < self@.len() ==> self@[i].0 != key@,
            r.is_some() ==> self@.contains((key@, r.unwrap()@)),
    {
        let mut i: usize = 0;
        while i < self.entries.len()
            invariant
                i <= self.entries@.len(),
                self@ == entries_view(self.entries@),
                forall|j: int| 0 <= j < i ==> self@[j].0 != key@,
            decreases self.entries@.len() - i,
        {
            assert(self@[i as int] == (self.entries@[i as int].0@, self.entries@[i as int].1@));
            if self.entries[i].0.eq(key) {
                return Some(&self.entries[i].1);
            }
            i = i + 1;
        }
        None
    }
}

/// A copy of an environment value.
pub fn copy_value(v: &EnvValue) -> (r: EnvValue)
    ensures
        r@ == v@,
{
    match v {
        EnvValue::Integer(i) => EnvValue::Integer(*i),
        EnvValue::String(s) => EnvValue::String(s.clone()),
    }
}

impl Clone for Env {
    fn clone(&self) -> (r: Env)
        ensures
            r@ == self@,
    {
        proof {
            use_type_invariant(self);
        }
        let mut out: Vec<(String, EnvValue)> = Vec::new();
        let mut i: usize = 0;
        while i < self.entries.len()
            invariant
                i <= self.entries@.len(),
                entries_view(out@) =~= entries_view(self.entries@).take(i as int),
            decreases self.entries@.len() - i,
        {
            let k = self.entries[i].0.clone();
            let v = copy_value(&self.entries[i].1);
            let ghost before = entries_view(out@);
            out.push((k, v));
            assert(entries_view(out@) =~= before.push((k@, v@)));
            assert(entries_view(out@) =~= entries_view(self.entries@).take(i as int + 1));
            i = i + 1;
        }
        assert(entries_view(self.entries@).take(i as int) =~= entries_view(self.entries@));
        Env { entries: out }
    }
}

impl PartialEq for Env {
    fn eq(&self, o: &Env) -> (r: bool) {
        if self.entries.len() != o.entries.len() {
            return false;
        }
        assert(self@.len() == self.entries@.len() && o@.len() == o.entries@.len());
        let mut i: usize = 0;
        while i < self.entries.len()
            invariant
                self.entries@.len() == o.entries@.len(),
                i <= self.entries@.len(),
                forall|j: int| 0 <= j < i ==> self@[j] == o@[j],
            decreases self.entries@.len() - i,
        {
            assert(self@[i as int] == (self.entries@[i as int].0@, self.entries@[i as int].1@));
            assert(o@[i as int] == (o.entries@[i as int].0@, o.entries@[i as int].1@));
            if !(self.entries[i].0.eq(&o.entries[i].0) && self.entries[i].1.eq(&o.entries[i].1)) {
                return false;
            }
            i = i + 1;
        }
        assert(self@ =~= o@);
        true
    }
}

impl vstd::std_specs::cmp::PartialEqSpecImpl for Env {
    open spec fn obeys_eq_spec() -> bool {
        true
    }

    open spec fn eq_spec(&self, o: &Env) -> bool {
        self@ == o@
    }
}

} // verus!
