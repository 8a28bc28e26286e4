//! JSON data carried by tool proposals, calls and results.

use vstd::prelude::*;

verus! {

/// A JSON number as the ledger keeps it.
#[derive(Clone, Copy, Debug, PartialEq, Eq, Structural)]
pub enum JsonNumber {
    /// A non-negative integer.
    PosInt(u64),
    /// A negative integer (a non-negative one compares equal to the same
    /// [`JsonNumber::PosInt`]).
    NegInt(i64),
    /// A finite binary64 value, kept as its IEEE-754 bit pattern.
    ///
    /// JSON has no NaN or infinity, so only finite patterns are JSON numbers.
    /// A non-finite pattern stored here anyway is outside that model: it is
    /// compared by its bits like any other, so it equals itself.
    Float(u64),
}

/// Spec view of a JSON value: its exact structure.
pub enum JsonView {
    Null,
    Bool(bool),
    Number(JsonNumber),
    Str(Seq<char>),
    Array(Seq<JsonView>),
    Object(Seq<(Seq<char>, JsonView)>),
}

/// A JSON value, as the ledger carries tool inputs and result data.
#[derive(Debug)]
pub enum JsonValue {
    /// `null`.
    Null,
    /// `true` or `false`.
    Bool(bool),
    /// A number.
    Number(JsonNumber),
    /// A string.
    String(String),
    /// An array.
    Array(Vec<JsonValue>),
    /// An object, as its entries. Like a JSON map, the last entry of a key
    /// holds that key's value and entry order does not matter to equality.
    Object(Vec<(String, JsonValue)>),
}

pub open spec fn json_view(v: JsonValue) -> JsonView
    decreases v,
{
    match v {
        JsonValue::Null => JsonView::Null,
        JsonValue::Bool(b) => JsonView::Bool(b),
        JsonValue::Number(n) => JsonView::Number(n),
        JsonValue::String(s) => JsonView::Str(s@),
        JsonValue::Array(items) => JsonView::Array(items_view(items@)),
        JsonValue::Object(entries) => JsonView::Object(entries_view(entries@)),
    }
}

pub open spec fn items_view(s: Seq<JsonValue>) -> Seq<JsonView>
    decreases s,
{
    if s.len() == 0 {
        Seq::empty()
    } else {
        items_view(s.drop_last()).push(json_view(s.last()))
    }
}

pub open spec fn entries_view(s: Seq<(String, JsonValue)>) -> Seq<(Seq<char>, JsonView)>
    decreases s,
{
    if s.len() == 0 {
        Seq::empty()
    } else {
        entries_view(s.drop_last()).push((s.last().0@, json_view(s.last().1)))
    }
}

impl View for JsonValue {
    type V = JsonView;

    open spec fn view(&self) -> JsonView {
        json_view(*self)
    }
}


/// Each item of an array is viewed on its own.
pub proof fn lemma_items_view(s: Seq<JsonValue>)
    ensures
        items_view(s).len() == s.len(),
        forall|i: int| 0 <= i < s.len() ==> #[trigger] items_view(s)[i] == json_view(s[i]),
    decreases s.len(),
{
    if s.len() > 0 {
        lemma_items_view(s.drop_last());
    }
}

/// Each entry of an object is viewed on its own.
pub proof fn lemma_entries_view(s: Seq<(String, JsonValue)>)
    ensures
        entries_view(s).len() == s.len(),
        forall|i: int|
            0 <= i < s.len() ==> #[trigger] entries_view(s)[i] == (s[i].0@, json_view(s[i].1)),
    decreases s.len(),
{
    if s.len() > 0 {
        lemma_entries_view(s.drop_last());
    }
}

/// A JSON value in canonical form: what JSON equality compares. Integers are
/// kept by value, a float zero has no sign, and an object is the map from each
/// key to the value of its last entry.
pub enum CanonicalJson {
    Null,
    Bool(bool),
    Int(int),
    Float(u64),
    Str(Seq<char>),
    Array(Seq<CanonicalJson>),
    Object(Map<Seq<char>, CanonicalJson>),
}

/// Mask of every bit of a binary64 value but its sign.
pub open spec fn magnitude_mask() -> u64 {
    0x7fff_ffff_ffff_ffffu64
}

/// The canonical form of a number.
pub open spec fn canonical_number(n: JsonNumber) -> CanonicalJson {
    match n {
        JsonNumber::PosInt(u) => CanonicalJson::Int(u as int),
        JsonNumber::NegInt(i) => CanonicalJson::Int(i as int),
        JsonNumber::Float(bits) => if bits & magnitude_mask() == 0 {
            CanonicalJson::Float(0)
        } else {
            CanonicalJson::Float(bits)
        },
    }
}

/// The canonical form of a JSON value.
pub open spec fn canonical(v: JsonView) -> CanonicalJson
    decreases v,
{
    match v {
        JsonView::Null => CanonicalJson::Null,
        JsonView::Bool(b) => CanonicalJson::Bool(b),
        JsonView::Number(n) => canonical_number(n),
        JsonView::Str(s) => CanonicalJson::Str(s),
        JsonView::Array(xs) => CanonicalJson::Array(canonical_items(xs)),
        JsonView::Object(es) => CanonicalJson::Object(canonical_entries(es)),
    }
}

/// The canonical forms of an array's items.
pub open spec fn canonical_items(xs: Seq<JsonView>) -> Seq<CanonicalJson>
    decreases xs,
{
    if xs.len() == 0 {
        Seq::empty()
    } else {
        canonical_items(xs.drop_last()).push(canonical(xs.last()))
    }
}

/// An object's entries as a map; a later entry of a key replaces an earlier one.
pub open spec fn canonical_entries(es: Seq<(Seq<char>, JsonView)>) -> Map<Seq<char>, CanonicalJson>
    decreases es,
{
    if es.len() == 0 {
        Map::empty()
    } else {
        canonical_entries(es.drop_last()).insert(es.last().0, canonical(es.last().1))
    }
}

/// JSON equality: numbers by value (the two float zeroes are equal, an
/// integer never equals a float), arrays item by item, objects as maps from
/// each key to the value of its last entry.
pub open spec fn json_equal(a: JsonView, b: JsonView) -> bool {
    canonical(a) == canonical(b)
}

/// Entry `i` is the last entry of its key, so it holds that key's value.
pub open spec fn is_last_entry(es: Seq<(Seq<char>, JsonView)>, i: int) -> bool {
    0 <= i < es.len() && forall|j: int| i < j < es.len() ==> es[j].0 != es[i].0
}

/// Some entry has key `k`.
pub open spec fn has_key(es: Seq<(Seq<char>, JsonView)>, k: Seq<char>) -> bool {
    exists|i: int| 0 <= i < es.len() && es[i].0 == k
}

/// Each item is canonicalized on its own.
pub proof fn lemma_canonical_items(xs: Seq<JsonView>)
    ensures
        canonical_items(xs).len() == xs.len(),
        forall|i: int| 0 <= i < xs.len() ==> #[trigger] canonical_items(xs)[i] == canonical(xs[i]),
    decreases xs.len(),
{
    if xs.len() > 0 {
        lemma_canonical_items(xs.drop_last());
    }
}

/// The map of an object has exactly the object's keys, and each key maps to
/// the canonical value of its last entry.
pub proof fn lemma_canonical_entries(es: Seq<(Seq<char>, JsonView)>)
    ensures
        forall|k: Seq<char>| #[trigger] canonical_entries(es).dom().contains(k) <==> has_key(es, k),
        forall|i: int| #[trigger] is_last_entry(es, i) ==> canonical_entries(es)[es[i].0] == canonical(es[i].1),
    decreases es.len(),
{
    if es.len() > 0 {
        let prev = es.drop_last();
        lemma_canonical_entries(prev);
        assert forall|k: Seq<char>| #[trigger] canonical_entries(es).dom().contains(k) <==> has_key(es, k) by {
            if has_key(es, k) && k != es.last().0 {
                let i = choose|i: int| 0 <= i < es.len() && es[i].0 == k;
                assert(prev[i].0 == k);
            }
            if has_key(prev, k) {
                let i = choose|i: int| 0 <= i < prev.len() && prev[i].0 == k;
                assert(es[i].0 == k);
            }
            if k == es.last().0 {
                assert(es[es.len() - 1].0 == k);
            }
        }
        assert forall|i: int| #[trigger] is_last_entry(es, i) implies canonical_entries(es)[es[i].0] == canonical(es[i].1) by {
            if i < es.len() - 1 {
                assert(es[es.len() - 1].0 != es[i].0);
                assert(is_last_entry(prev, i));
            }
        }
    }
}

/// Every key of an object has a last entry.
pub proof fn lemma_key_has_last_entry(es: Seq<(Seq<char>, JsonView)>, k: Seq<char>)
    requires
        has_key(es, k),
    ensures
        exists|i: int| #[trigger] is_last_entry(es, i) && es[i].0 == k,
    decreases es.len(),
{
    let n = es.len() - 1;
    if es[n].0 == k {
        assert(is_last_entry(es, n));
    } else {
        let prev = es.drop_last();
        let i0 = choose|i: int| 0 <= i < es.len() && es[i].0 == k;
        assert(prev[i0].0 == k);
        lemma_key_has_last_entry(prev, k);
        let i = choose|i: int| #[trigger] is_last_entry(prev, i) && prev[i].0 == k;
        assert forall|j: int| i < j < es.len() implies es[j].0 != es[i].0 by {
            if j < n {
                assert(prev[j].0 != prev[i].0);
            }
        }
        assert(is_last_entry(es, i));
    }
}

/// Two last entries of the same key are the same entry.
pub proof fn lemma_last_entry_unique(es: Seq<(Seq<char>, JsonView)>, a: int, b: int)
    requires
        is_last_entry(es, a),
        is_last_entry(es, b),
        es[a].0 == es[b].0,
    ensures
        a == b,
{
    if a < b {
        assert(es[b].0 != es[a].0);
    } else if b < a {
        assert(es[a].0 != es[b].0);
    }
}

fn number_equal(a: JsonNumber, b: JsonNumber) -> (r: bool)
    ensures
        r == (canonical_number(a) == canonical_number(b)),
{
    match (a, b) {
        (JsonNumber::Float(x), JsonNumber::Float(y)) => {
            let mask: u64 = 0x7fff_ffff_ffff_ffff;
            assert((x & mask) != 0 ==> x != 0) by (bit_vector);
            assert((y & mask) != 0 ==> y != 0) by (bit_vector);
            x == y || ((x & mask) == 0 && (y & mask) == 0)
        },
        (JsonNumber::Float(_), _) => false,
        (_, JsonNumber::Float(_)) => false,
        (JsonNumber::PosInt(x), JsonNumber::PosInt(y)) => x == y,
        (JsonNumber::NegInt(x), JsonNumber::NegInt(y)) => x == y,
        (JsonNumber::PosInt(x), JsonNumber::NegInt(y)) => y >= 0 && x == y as u64,
        (JsonNumber::NegInt(x), JsonNumber::PosInt(y)) => x >= 0 && x as u64 == y,
    }
}

/// Whether entry `i` is the last entry of its key.
fn is_last_key(xs: &Vec<(String, JsonValue)>, i: usize) -> (r: bool)
    requires
        i < xs.len(),
    ensures
        r == is_last_entry(entries_view(xs@), i as int),
{
    proof {
        lemma_entries_view(xs@);
    }
    let ghost ev = entries_view(xs@);
    let mut j: usize = i + 1;
    while j < xs.len()
        invariant
            ev == entries_view(xs@),
            ev.len() == xs@.len(),
            forall|k: int| 0 <= k < xs@.len() ==> #[trigger] ev[k] == (xs@[k].0@, json_view(xs@[k].1)),
            i < j <= xs.len(),
            forall|k: int| i < k < j ==> ev[k].0 != ev[i as int].0,
        decreases xs.len() - j,
    {
        if xs[j].0 == xs[i].0 {
            assert(ev[j as int].0 == ev[i as int].0);
            return false;
        }
        j = j + 1;
    }
    true
}

/// The last entry with key `key`, if any.
fn find_last_key(ys: &Vec<(String, JsonValue)>, key: &String) -> (r: Option<usize>)
    ensures
        match r {
            Some(j) => j < ys.len() && is_last_entry(entries_view(ys@), j as int) && entries_view(
                ys@,
            )[j as int].0 == key@,
            None => !has_key(entries_view(ys@), key@),
        },
{
    proof {
        lemma_entries_view(ys@);
    }
    let ghost ev = entries_view(ys@);
    let mut j: usize = ys.len();
    while j > 0
        invariant
            ev == entries_view(ys@),
            ev.len() == ys@.len(),
            forall|k: int| 0 <= k < ys@.len() ==> #[trigger] ev[k] == (ys@[k].0@, json_view(ys@[k].1)),
            j <= ys.len(),
            forall|k: int| j <= k < ys@.len() ==> ev[k].0 != key@,
        decreases j,
    {
        j = j - 1;
        if ys[j].0 == *key {
            assert(ev[j as int].0 == key@);
            return Some(j);
        }
    }
    None
}

/// Whether some entry has key `key`.
fn contains_key(xs: &Vec<(String, JsonValue)>, key: &String) -> (r: bool)
    ensures
        r == has_key(entries_view(xs@), key@),
{
    match find_last_key(xs, key) {
        Some(_) => true,
        None => false,
    }
}

impl JsonValue {
    /// Compares two JSON values as JSON: numbers by value, arrays item by
    /// item, objects as maps from each key to its last entry's value.
    pub fn json_eq(&self, other: &JsonValue) -> (r: bool)
        ensures
            r == json_equal(self@, other@),
        decreases self,
    {
        match (self, other) {
            (JsonValue::Null, JsonValue::Null) => true,
            (JsonValue::Bool(x), JsonValue::Bool(y)) => *x == *y,
            (JsonValue::Number(x), JsonValue::Number(y)) => number_equal(*x, *y),
            (JsonValue::String(x), JsonValue::String(y)) => *x == *y,
            (JsonValue::Array(xs), JsonValue::Array(ys)) => {
                proof {
                    lemma_items_view(xs@);
                    lemma_items_view(ys@);
                    lemma_canonical_items(items_view(xs@));
                    lemma_canonical_items(items_view(ys@));
                }
                let ghost cx = canonical_items(items_view(xs@));
                let ghost cy = canonical_items(items_view(ys@));
                if xs.len() != ys.len() {
                    assert(cx.len() != cy.len());
                    return false;
                }
                let mut i: usize = 0;
                while i < xs.len()
                    invariant
                        i <= xs.len() == ys.len(),
                        *self == JsonValue::Array(*xs),
                        *other == JsonValue::Array(*ys),
                        cx == canonical_items(items_view(xs@)),
                        cy == canonical_items(items_view(ys@)),
                        cx.len() == xs@.len(),
                        cy.len() == ys@.len(),
                        forall|k: int| 0 <= k < xs@.len() ==> #[trigger] cx[k] == canonical(json_view(xs@[k])),
                        forall|k: int| 0 <= k < ys@.len() ==> #[trigger] cy[k] == canonical(json_view(ys@[k])),
                        forall|k: int| 0 <= k < i ==> cx[k] == cy[k],
                    decreases xs.len() - i,
                {
                    proof {
                        assert(decreases_to!(*self => (*self)->Array_0));
                        assert(decreases_to!(*xs => xs@));
                        assert(decreases_to!(xs@ => xs@[i as int]));
                    }
                    if !xs[i].json_eq(&ys[i]) {
                        assert(cx[i as int] != cy[i as int]);
                        return false;
                    }
                    i = i + 1;
                }
                assert(cx =~= cy);
                true
            },
            (JsonValue::Object(xs), JsonValue::Object(ys)) => {
                proof {
                    lemma_entries_view(xs@);
                    lemma_entries_view(ys@);
                    lemma_canonical_entries(entries_view(xs@));
                    lemma_canonical_entries(entries_view(ys@));
                }
                let ghost ex = entries_view(xs@);
                let ghost ey = entries_view(ys@);
                let ghost mx = canonical_entries(ex);
                let ghost my = canonical_entries(ey);
                let mut i: usize = 0;
                while i < xs.len()
                    invariant
                        i <= xs.len(),
                        *self == JsonValue::Object(*xs),
                        *other == JsonValue::Object(*ys),
                        ex == entries_view(xs@),
                        ey == entries_view(ys@),
                        mx == canonical_entries(ex),
                        my == canonical_entries(ey),
                        ex.len() == xs@.len(),
                        ey.len() == ys@.len(),
                        forall|k: int| 0 <= k < xs@.len() ==> #[trigger] ex[k] == (xs@[k].0@, json_view(xs@[k].1)),
                        forall|k: int| 0 <= k < ys@.len() ==> #[trigger] ey[k] == (ys@[k].0@, json_view(ys@[k].1)),
                        forall|k: Seq<char>| #[trigger] mx.dom().contains(k) <==> has_key(ex, k),
                        forall|k: Seq<char>| #[trigger] my.dom().contains(k) <==> has_key(ey, k),
                        forall|k: int| #[trigger] is_last_entry(ex, k) ==> mx[ex[k].0] == canonical(ex[k].1),
                        forall|k: int| #[trigger] is_last_entry(ey, k) ==> my[ey[k].0] == canonical(ey[k].1),
                        forall|k: int| 0 <= k < i && #[trigger] is_last_entry(ex, k) ==> my.dom().contains(ex[k].0) && my[ex[k].0] == mx[ex[k].0],
                    decreases xs.len() - i,
                {
                    if is_last_key(xs, i) {
                        proof {
                            assert(has_key(ex, ex[i as int].0));
                        }
                        match find_last_key(ys, &xs[i].0) {
                            None => {
                                assert(mx.dom().contains(ex[i as int].0));
                                assert(!my.dom().contains(ex[i as int].0));
                                assert(mx != my);
                                return false;
                            },
                            Some(j) => {
                                proof {
                                    assert(decreases_to!(*self => (*self)->Object_0));
                                    assert(decreases_to!(*xs => xs@));
                                    assert(decreases_to!(xs@ => xs@[i as int]));
                                    assert(decreases_to!(xs@[i as int] => xs@[i as int].1));
                                    assert(is_last_entry(ey, j as int));
                                    assert(has_key(ey, ey[j as int].0));
                                }
                                if !xs[i].1.json_eq(&ys[j].1) {
                                    assert(mx[ex[i as int].0] != my[ex[i as int].0]);
                                    assert(mx != my);
                                    return false;
                                }
                            },
                        }
                    }
                    i = i + 1;
                }
                let mut j: usize = 0;
                while j < ys.len()
                    invariant
                        j <= ys.len(),
                        *self == JsonValue::Object(*xs),
                        *other == JsonValue::Object(*ys),
                        ex == entries_view(xs@),
                        ey == entries_view(ys@),
                        mx == canonical_entries(ex),
                        my == canonical_entries(ey),
                        ey.len() == ys@.len(),
                        forall|k: int| 0 <= k < ys@.len() ==> #[trigger] ey[k] == (ys@[k].0@, json_view(ys@[k].1)),
                        forall|k: Seq<char>| #[trigger] mx.dom().contains(k) <==> has_key(ex, k),
                        forall|k: Seq<char>| #[trigger] my.dom().contains(k) <==> has_key(ey, k),
                        forall|k: int| 0 <= k < j ==> #[trigger] has_key(ex, ey[k].0),
                    decreases ys.len() - j,
                {
                    if !contains_key(xs, &ys[j].0) {
                        assert(has_key(ey, ey[j as int].0));
                        assert(my.dom().contains(ey[j as int].0));
                        assert(!mx.dom().contains(ey[j as int].0));
                        assert(mx != my);
                        return false;
                    }
                    j = j + 1;
                }
                proof {
                    assert forall|k: Seq<char>| #[trigger] my.dom().contains(k) implies mx.dom().contains(k) by {
                        let jj = choose|jj: int| 0 <= jj < ey.len() && ey[jj].0 == k;
                        assert(has_key(ex, ey[jj].0));
                    }
                    assert forall|k: Seq<char>| #[trigger] mx.dom().contains(k) implies my.dom().contains(k) && my[k] == mx[k] by {
                        lemma_key_has_last_entry(ex, k);
                        let ii = choose|ii: int| #[trigger] is_last_entry(ex, ii) && ex[ii].0 == k;
                        assert(0 <= ii < xs.len());
                    }
                    assert(mx =~= my);
                }
                true
            },
            _ => false,
        }
    }
}

impl PartialEq for JsonValue {
    fn eq(&self, other: &Self) -> (r: bool) {
        self.json_eq(other)
    }
}

impl vstd::std_specs::cmp::PartialEqSpecImpl for JsonValue {
    open spec fn obeys_eq_spec() -> bool {
        true
    }

    open spec fn eq_spec(&self, other: &Self) -> bool {
        json_equal(self@, other@)
    }
}

impl Clone for JsonValue {
    fn clone(&self) -> (r: Self)
        ensures
            r@ == self@,
        decreases self,
    {
        match self {
            JsonValue::Null => JsonValue::Null,
            JsonValue::Bool(b) => JsonValue::Bool(*b),
            JsonValue::Number(n) => JsonValue::Number(*n),
            JsonValue::String(s) => JsonValue::String(s.clone()),
            JsonValue::Array(xs) => {
                let mut out: Vec<JsonValue> = Vec::new();
                let mut i: usize = 0;
                while i < xs.len()
                    invariant
                        *self == JsonValue::Array(*xs),
                        i <= xs.len(),
                        out@.len() == i,
                        forall|k: int| 0 <= k < i ==> json_view(#[trigger] out@[k]) == json_view(xs@[k]),
                    decreases xs.len() - i,
                {
                    proof {
                        assert(decreases_to!(*self => (*self)->Array_0));
                        assert(decreases_to!(*xs => xs@));
                        assert(decreases_to!(xs@ => xs@[i as int]));
                    }
                    let item = xs[i].clone();
                    out.push(item);
                    i = i + 1;
                }
                proof {
                    lemma_items_view(xs@);
                    lemma_items_view(out@);
                    assert(items_view(out@) =~= items_view(xs@));
                }
                JsonValue::Array(out)
            },
            JsonValue::Object(xs) => {
                let mut out: Vec<(String, JsonValue)> = Vec::new();
                let mut i: usize = 0;
                while i < xs.len()
                    invariant
                        *self == JsonValue::Object(*xs),
                        i <= xs.len(),
                        out@.len() == i,
                        forall|k: int|
                            0 <= k < i ==> (#[trigger] out@[k]).0@ == xs@[k].0@ && json_view(out@[k].1)
                                == json_view(xs@[k].1),
                    decreases xs.len() - i,
                {
                    proof {
                        assert(decreases_to!(*self => (*self)->Object_0));
                        assert(decreases_to!(*xs => xs@));
                        assert(decreases_to!(xs@ => xs@[i as int]));
                        assert(decreases_to!(xs@[i as int] => xs@[i as int].1));
                    }
                    let key = xs[i].0.clone();
                    let value = xs[i].1.clone();
                    out.push((key, value));
                    i = i + 1;
                }
                proof {
                    lemma_entries_view(xs@);
                    lemma_entries_view(out@);
                    assert(entries_view(out@) =~= entries_view(xs@));
                }
                JsonValue::Object(out)
            },
        }
    }
}

} // verus!
