//! Issue field values held in plain form, so that the logic reading them
//! can be verified. The program around the library converts the wire
//! payloads into and out of this shape.

use vstd::prelude::*;

verus! {

/// A JSON-like field value held in plain form. Numbers that do not fit an
/// unsigned 64-bit integer are kept in their textual form.
#[derive(Debug)]
pub enum FieldValue {
    Null,
    Bool(bool),
    Uint(u64),
    NumText(String),
    Str(String),
    List(Vec<FieldValue>),
    Object(Vec<(String, FieldValue)>),
}

/// The mathematical shape of a `FieldValue`.
#[verifier::ext_equal]
pub enum JsonView {
    Null,
    Bool(bool),
    Uint(u64),
    NumText(Seq<char>),
    Str(Seq<char>),
    List(Seq<JsonView>),
    Object(Seq<(Seq<char>, JsonView)>),
}

/// The shapes of a list of named values.
pub open spec fn entries_deep(s: Seq<(String, FieldValue)>) -> Seq<(Seq<char>, JsonView)> {
    Seq::new(s.len(), |i: int| (s[i].0@, s[i].1.deep()))
}

impl FieldValue {
    /// The value seen as its mathematical shape.
    pub open spec fn deep(self) -> JsonView
        decreases self,
    {
        match self {
            FieldValue::Null => JsonView::Null,
            FieldValue::Bool(b) => JsonView::Bool(b),
            FieldValue::Uint(n) => JsonView::Uint(n),
            FieldValue::NumText(s) => JsonView::NumText(s@),
            FieldValue::Str(s) => JsonView::Str(s@),
            FieldValue::List(l) => JsonView::List(
                Seq::new(
                    l@.len(),
                    |i: int|
                        if 0 <= i < l@.len() {
                            l@[i].deep()
                        } else {
                            JsonView::Null
                        },
                ),
            ),
            FieldValue::Object(entries) => JsonView::Object(
                Seq::new(
                    entries@.len(),
                    |i: int|
                        if 0 <= i < entries@.len() {
                            (entries@[i].0@, entries@[i].1.deep())
                        } else {
                            (Seq::<char>::empty(), JsonView::Null)
                        },
                ),
            ),
        }
    }

    /// A copy with the same shape.
    #[verifier::loop_isolation(false)]
    pub fn duplicate(&self) -> (r: FieldValue)
        ensures
            r.deep() == self.deep(),
        decreases *self,
    {
        match self {
            FieldValue::Null => FieldValue::Null,
            FieldValue::Bool(b) => FieldValue::Bool(*b),
            FieldValue::Uint(n) => FieldValue::Uint(*n),
            FieldValue::NumText(s) => FieldValue::NumText(s.clone()),
            FieldValue::Str(s) => FieldValue::Str(s.clone()),
            FieldValue::List(l) => {
                let mut out: Vec<FieldValue> = Vec::new();
                let mut j: usize = 0;
                while j < l.len()
                    invariant
                        0 <= j <= l@.len(),
                        out@.len() == j,
                        forall|k: int| 0 <= k < j ==> out@[k].deep() == l@[k].deep(),
                    decreases l@.len() - j,
                {
                    let d = l[j].duplicate();
                    out.push(d);
                    j = j + 1;
                }
                let r = FieldValue::List(out);
                proof {
                    let s1 = r.deep()->List_0;
                    let s2 = self.deep()->List_0;
                    assert(s1 =~~= s2);
                    assert(r.deep() == self.deep());
                }
                r
            },
            FieldValue::Object(entries) => {
                let mut out: Vec<(String, FieldValue)> = Vec::new();
                let mut j: usize = 0;
                while j < entries.len()
                    invariant
                        0 <= j <= entries@.len(),
                        out@.len() == j,
                        forall|k: int|
                            0 <= k < j ==> out@[k].0@ == entries@[k].0@ && out@[k].1.deep()
                                == entries@[k].1.deep(),
                    decreases entries@.len() - j,
                {
                    let name = entries[j].0.clone();
                    let d = entries[j].1.duplicate();
                    out.push((name, d));
                    j = j + 1;
                }
                let r = FieldValue::Object(out);
                proof {
                    let s1 = r.deep()->Object_0;
                    let s2 = self.deep()->Object_0;
                    assert(s1 =~~= s2);
                    assert(r.deep() == self.deep());
                }
                r
            },
        }
    }
}

/// Copies a list of named values, entry by entry.
#[verifier::loop_isolation(false)]
pub fn duplicate_entries(entries: &Vec<(String, FieldValue)>) -> (r: Vec<(String, FieldValue)>)
    ensures
        entries_deep(r@) == entries_deep(entries@),
{
    let mut out: Vec<(String, FieldValue)> = Vec::new();
    let mut j: usize = 0;
    while j < entries.len()
        invariant
            0 <= j <= entries@.len(),
            out@.len() == j,
            forall|k: int|
                0 <= k < j ==> out@[k].0@ == entries@[k].0@ && out@[k].1.deep()
                    == entries@[k].1.deep(),
        decreases entries@.len() - j,
    {
        let name = entries[j].0.clone();
        let d = entries[j].1.duplicate();
        out.push((name, d));
        j = j + 1;
    }
    proof {
        assert(entries_deep(out@) =~= entries_deep(entries@));
    }
    out
}

/// The value under a name, the last write winning.
pub open spec fn lookup_value(entries: Seq<(String, FieldValue)>, name: Seq<char>) -> Option<
    FieldValue,
>
    decreases entries.len(),
{
    if entries.len() == 0 {
        None
    } else if entries.last().0@ == name {
        Some(entries.last().1)
    } else {
        lookup_value(entries.drop_last(), name)
    }
}

/// Returns the value under a name, the last write winning.
#[verifier::loop_isolation(false)]
pub fn get_value<'a>(entries: &'a Vec<(String, FieldValue)>, name: &str) -> (r: Option<
    &'a FieldValue,
>)
    ensures
        match r {
            Some(v) => lookup_value(entries@, name@) == Some(*v),
            None => lookup_value(entries@, name@) is None,
        },
{
    let key = String::from_str(name);
    let mut i: usize = entries.len();
    proof {
        assert(entries@.take(entries@.len() as int) =~= entries@);
    }
    while i > 0
        invariant
            0 <= i <= entries@.len(),
            lookup_value(entries@, name@) == lookup_value(entries@.take(i as int), name@),
        decreases i,
    {
        i = i - 1;
        if entries[i].0 == key {
            proof {
                let t = entries@.take(i + 1 as int);
                assert(t.last() == entries@[i as int]);
            }
            return Some(&entries[i].1);
        }
        proof {
            let t = entries@.take(i + 1 as int);
            assert(t.last() == entries@[i as int]);
            assert(t.drop_last() =~= entries@.take(i as int));
        }
    }
    None
}

/// The text of a string value.
pub open spec fn str_of(v: FieldValue) -> Option<Seq<char>> {
    match v {
        FieldValue::Str(s) => Some(s@),
        _ => None,
    }
}

/// Returns the text of a string value.
pub fn as_str_value(v: &FieldValue) -> (r: Option<String>)
    ensures
        match r {
            Some(s) => str_of(*v) == Some(s@),
            None => str_of(*v) is None,
        },
{
    match v {
        FieldValue::Str(s) => Some(s.clone()),
        _ => None,
    }
}

/// The truth of a boolean value.
pub open spec fn bool_of(v: FieldValue) -> Option<bool> {
    match v {
        FieldValue::Bool(b) => Some(b),
        _ => None,
    }
}

/// Returns the truth of a boolean value.
pub fn as_bool_value(v: &FieldValue) -> (r: Option<bool>)
    ensures
        r == bool_of(*v),
{
    match v {
        FieldValue::Bool(b) => Some(*b),
        _ => None,
    }
}

/// The number held by an unsigned integer value.
pub open spec fn uint_of(v: FieldValue) -> Option<u64> {
    match v {
        FieldValue::Uint(n) => Some(n),
        _ => None,
    }
}

/// Returns the number held by an unsigned integer value.
pub fn as_uint_value(v: &FieldValue) -> (r: Option<u64>)
    ensures
        r == uint_of(*v),
{
    match v {
        FieldValue::Uint(n) => Some(*n),
        _ => None,
    }
}

/// The text under a name inside an object value.
pub open spec fn obj_str(v: FieldValue, name: Seq<char>) -> Option<Seq<char>> {
    match v {
        FieldValue::Object(entries) => match lookup_value(entries@, name) {
            Some(f) => str_of(f),
            None => None,
        },
        _ => None,
    }
}

/// The truth under a name inside an object value.
pub open spec fn obj_bool(v: FieldValue, name: Seq<char>) -> Option<bool> {
    match v {
        FieldValue::Object(entries) => match lookup_value(entries@, name) {
            Some(f) => bool_of(f),
            None => None,
        },
        _ => None,
    }
}

/// The number under a name inside an object value.
pub open spec fn obj_uint(v: FieldValue, name: Seq<char>) -> Option<u64> {
    match v {
        FieldValue::Object(entries) => match lookup_value(entries@, name) {
            Some(f) => uint_of(f),
            None => None,
        },
        _ => None,
    }
}

/// The value under a name inside an object value.
pub open spec fn obj_field(v: FieldValue, name: Seq<char>) -> Option<FieldValue> {
    match v {
        FieldValue::Object(entries) => lookup_value(entries@, name),
        _ => None,
    }
}

/// Whether a field is absent or null: the reading of an optional field
/// that is simply not there.
pub open spec fn obj_missing(v: FieldValue, name: Seq<char>) -> bool {
    obj_field(v, name) is None || (obj_field(v, name) matches Some(f) && f is Null)
}

/// Whether an optional text field reads cleanly: absent, null, or a string.
pub open spec fn opt_str_ok(v: FieldValue, name: Seq<char>) -> bool {
    obj_missing(v, name) || obj_str(v, name) is Some
}

/// The reading of an optional text field: nothing where absent or null.
pub open spec fn opt_str(v: FieldValue, name: Seq<char>) -> Option<Seq<char>> {
    if obj_missing(v, name) {
        None
    } else {
        obj_str(v, name)
    }
}

/// Whether an optional number field reads cleanly.
pub open spec fn opt_uint_ok(v: FieldValue, name: Seq<char>) -> bool {
    obj_missing(v, name) || obj_uint(v, name) is Some
}

/// The reading of an optional number field: nothing where absent or null.
pub open spec fn opt_uint(v: FieldValue, name: Seq<char>) -> Option<u64> {
    if obj_missing(v, name) {
        None
    } else {
        obj_uint(v, name)
    }
}

/// Returns the value under a field of an object value.
pub fn get_field<'a>(v: &'a FieldValue, name: &str) -> (r: Option<&'a FieldValue>)
    ensures
        match r {
            Some(f) => obj_field(*v, name@) == Some(*f),
            None => obj_field(*v, name@) is None,
        },
{
    match v {
        FieldValue::Object(entries) => get_value(entries, name),
        _ => None,
    }
}

/// Returns the text under a required field.
pub fn get_req_str(v: &FieldValue, name: &str) -> (r: Option<String>)
    ensures
        r is Some <==> obj_str(*v, name@) is Some,
        r matches Some(s) ==> obj_str(*v, name@) == Some(s@),
{
    match v {
        FieldValue::Object(entries) => match get_value(entries, name) {
            Some(f) => as_str_value(f),
            None => None,
        },
        _ => None,
    }
}

/// Returns the truth under a required field.
pub fn get_req_bool(v: &FieldValue, name: &str) -> (r: Option<bool>)
    ensures
        r == obj_bool(*v, name@),
{
    match v {
        FieldValue::Object(entries) => match get_value(entries, name) {
            Some(f) => as_bool_value(f),
            None => None,
        },
        _ => None,
    }
}

/// Returns the number under a required field.
pub fn get_req_u64(v: &FieldValue, name: &str) -> (r: Option<u64>)
    ensures
        r == obj_uint(*v, name@),
{
    match v {
        FieldValue::Object(entries) => match get_value(entries, name) {
            Some(f) => as_uint_value(f),
            None => None,
        },
        _ => None,
    }
}

/// Reads an optional text field: the outer option is the clean reading,
/// the inner the presence.
pub fn get_opt_str(v: &FieldValue, name: &str) -> (r: Option<Option<String>>)
    ensures
        r is Some <==> opt_str_ok(*v, name@),
        r matches Some(o) ==> match o {
            Some(s) => opt_str(*v, name@) == Some(s@),
            None => opt_str(*v, name@) is None,
        },
{
    match v {
        FieldValue::Object(entries) => match get_value(entries, name) {
            Some(f) => match f {
                FieldValue::Null => Some(None),
                FieldValue::Str(s) => Some(Some(s.clone())),
                _ => None,
            },
            None => Some(None),
        },
        _ => Some(None),
    }
}

/// Reads an optional number field: the outer option is the clean reading,
/// the inner the presence.
pub fn get_opt_u64(v: &FieldValue, name: &str) -> (r: Option<Option<u64>>)
    ensures
        r is Some <==> opt_uint_ok(*v, name@),
        r matches Some(o) ==> o == opt_uint(*v, name@),
{
    match v {
        FieldValue::Object(entries) => match get_value(entries, name) {
            Some(f) => match f {
                FieldValue::Null => Some(None),
                FieldValue::Uint(n) => Some(Some(*n)),
                _ => None,
            },
            None => Some(None),
        },
        _ => Some(None),
    }
}

} // verus!
