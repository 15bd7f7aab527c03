//! A structured JSON document model.
//!
//! `JsonValue` is the executable tree; its mathematical counterpart is
//! `JVal`, a ghost tree over character sequences. Numbers are carried as
//! their decimal rendering, which keeps the model free of floating point
//! and lets amount fields normalize string and number presentations alike.

use vstd::prelude::*;

verus! {

/// The mathematical model of a JSON document.
pub enum JVal {
    Null,
    Bool(bool),
    /// A number, as the decimal rendering the parser produced for it.
    Num(Seq<char>),
    Str(Seq<char>),
    Arr(Seq<JVal>),
    /// Object entries in the order the parser hands them out.
    Obj(Seq<(Seq<char>, JVal)>),
}

/// An executable JSON tree mirroring `JVal`.
pub enum JsonValue {
    Null,
    Bool(bool),
    /// A number, as its decimal rendering.
    Number(String),
    Text(String),
    Array(Vec<JsonValue>),
    Object(Vec<(String, JsonValue)>),
}

impl JsonValue {
    /// The ghost tree this executable tree stands for.
    pub open spec fn jval(self) -> JVal
        decreases self,
    {
        match self {
            JsonValue::Null => JVal::Null,
            JsonValue::Bool(b) => JVal::Bool(b),
            JsonValue::Number(s) => JVal::Num(s@),
            JsonValue::Text(s) => JVal::Str(s@),
            JsonValue::Array(a) => JVal::Arr(jvals_of(a@)),
            JsonValue::Object(o) => JVal::Obj(jentries_of(o@)),
        }
    }
}

/// The ghost trees of a sequence of executable trees.
pub open spec fn jvals_of(s: Seq<JsonValue>) -> Seq<JVal>
    decreases s,
{
    if s.len() == 0 {
        Seq::empty()
    } else {
        jvals_of(s.drop_last()).push(s.last().jval())
    }
}

/// The ghost entries of a sequence of executable object entries.
pub open spec fn jentries_of(s: Seq<(String, JsonValue)>) -> Seq<(Seq<char>, JVal)>
    decreases s,
{
    if s.len() == 0 {
        Seq::empty()
    } else {
        jentries_of(s.drop_last()).push((s.last().0@, s.last().1.jval()))
    }
}

impl View for JsonValue {
    type V = JVal;

    open spec fn view(&self) -> JVal {
        self.jval()
    }
}

/// How deeply a JSON tree nests; a leaf counts 1.
pub open spec fn jdepth(j: JVal) -> nat
    decreases j,
{
    match j {
        JVal::Arr(a) => 1 + jdepth_arr(a),
        JVal::Obj(o) => 1 + jdepth_obj(o),
        _ => 1,
    }
}

/// The deepest nesting among the elements of an array.
pub open spec fn jdepth_arr(a: Seq<JVal>) -> nat
    decreases a,
{
    if a.len() == 0 {
        0
    } else {
        let rest = jdepth_arr(a.drop_last());
        let last = jdepth(a.last());
        if last >= rest {
            last
        } else {
            rest
        }
    }
}

/// The deepest nesting among the values of an object.
pub open spec fn jdepth_obj(o: Seq<(Seq<char>, JVal)>) -> nat
    decreases o,
{
    if o.len() == 0 {
        0
    } else {
        let rest = jdepth_obj(o.drop_last());
        let last = jdepth(o.last().1);
        if last >= rest {
            last
        } else {
            rest
        }
    }
}

/// Every element of an array nests strictly less deeply than the array.
pub proof fn lemma_jdepth_arr_bound(a: Seq<JVal>, i: int)
    requires
        0 <= i < a.len(),
    ensures
        jdepth(a[i]) <= jdepth_arr(a),
    decreases a.len(),
{
    if i == a.len() - 1 {
        assert(a.last() == a[i]);
    } else {
        lemma_jdepth_arr_bound(a.drop_last(), i);
        assert(a.drop_last()[i] == a[i]);
    }
}

/// Every value of an object nests strictly less deeply than the object.
pub proof fn lemma_jdepth_obj_bound(o: Seq<(Seq<char>, JVal)>, i: int)
    requires
        0 <= i < o.len(),
    ensures
        jdepth(o[i].1) <= jdepth_obj(o),
    decreases o.len(),
{
    if i == o.len() - 1 {
        assert(o.last() == o[i]);
    } else {
        lemma_jdepth_obj_bound(o.drop_last(), i);
        assert(o.drop_last()[i] == o[i]);
    }
}

/// `jvals_of` maps the sequence elementwise.
pub proof fn lemma_jvals_of(s: Seq<JsonValue>)
    ensures
        jvals_of(s).len() == s.len(),
        forall|i: int| 0 <= i < s.len() ==> jvals_of(s)[i] == s[i].jval(),
    decreases s.len(),
{
    if s.len() > 0 {
        lemma_jvals_of(s.drop_last());
        assert forall|i: int| 0 <= i < s.len() implies jvals_of(s)[i] == s[i].jval() by {
            if i < s.len() - 1 {
                assert(s.drop_last()[i] == s[i]);
            }
        }
    }
}

/// `jentries_of` maps the sequence elementwise.
pub proof fn lemma_jentries_of(s: Seq<(String, JsonValue)>)
    ensures
        jentries_of(s).len() == s.len(),
        forall|i: int|
            0 <= i < s.len() ==> jentries_of(s)[i] == (s[i].0@, s[i].1.jval()),
    decreases s.len(),
{
    if s.len() > 0 {
        lemma_jentries_of(s.drop_last());
        assert forall|i: int|
            0 <= i < s.len() implies jentries_of(s)[i] == (s[i].0@, s[i].1.jval()) by {
            if i < s.len() - 1 {
                assert(s.drop_last()[i] == s[i]);
            }
        }
    }
}

/// The first entry carrying `key`, if the object has one.
pub open spec fn jlookup(entries: Seq<(Seq<char>, JVal)>, key: Seq<char>) -> Option<JVal>
    decreases entries,
{
    if entries.len() == 0 {
        None
    } else if entries[0].0 == key {
        Some(entries[0].1)
    } else {
        jlookup(entries.drop_first(), key)
    }
}

/// The field named `key` of `j`, when `j` is an object that has it.
pub open spec fn obj_get(j: JVal, key: Seq<char>) -> Option<JVal> {
    match j {
        JVal::Obj(o) => jlookup(o, key),
        _ => None,
    }
}

/// A lookup that finds no matching key before position `i` resolves at `i`.
proof fn lemma_jlookup_at(entries: Seq<(Seq<char>, JVal)>, key: Seq<char>, i: int)
    requires
        0 <= i < entries.len(),
        forall|j: int| 0 <= j < i ==> entries[j].0 != key,
        entries[i].0 == key,
    ensures
        jlookup(entries, key) == Some(entries[i].1),
    decreases i,
{
    if i > 0 {
        lemma_jlookup_at(entries.drop_first(), key, i - 1);
    }
}

/// A lookup over entries none of which carries `key` finds nothing.
proof fn lemma_jlookup_none(entries: Seq<(Seq<char>, JVal)>, key: Seq<char>)
    requires
        forall|j: int| 0 <= j < entries.len() ==> entries[j].0 != key,
    ensures
        jlookup(entries, key) is None,
    decreases entries.len(),
{
    if entries.len() > 0 {
        lemma_jlookup_none(entries.drop_first(), key);
    }
}

impl JsonValue {
    /// Looks up the field named `key`; `None` when `self` is not an
    /// object or has no such field.
    pub fn get_field<'a>(&'a self, key: &str) -> (r: Option<&'a JsonValue>)
        ensures
            match r {
                Some(f) => obj_get(self@, key@) == Some(f@),
                None => obj_get(self@, key@) is None,
            },
    {
        match self {
            JsonValue::Object(o) => {
                proof {
                    lemma_jentries_of(o@);
                }
                let needle: String = key.to_owned();
                let mut i: usize = 0;
                while i < o.len()
                    invariant
                        i <= o.len(),
                        needle@ == key@,
                        jentries_of(o@).len() == o@.len(),
                        forall|k: int|
                            0 <= k < o@.len() ==> jentries_of(o@)[k] == (o@[k].0@, o@[k].1.jval()),
                        forall|j: int| 0 <= j < i ==> o@[j].0@ != key@,
                        self@ == JVal::Obj(jentries_of(o@)),
                    decreases o.len() - i,
                {
                    if o[i].0 == needle {
                        proof {
                            lemma_jlookup_at(jentries_of(o@), key@, i as int);
                        }
                        return Some(&o[i].1);
                    }
                    i = i + 1;
                }
                proof {
                    lemma_jlookup_none(jentries_of(o@), key@);
                }
                None
            },
            _ => None,
        }
    }
}

} // verus!
