//! JSON objects as the library builds and reads them: fields whose values
//! are read as strings, unsigned integers or booleans by key.

use vstd::prelude::*;

use crate::text::str_eq;

verus! {

/// One argument value; `S` is the string type.
#[derive(Debug, Clone)]
pub enum ArgValue<S> {
    Null,
    Bool(bool),
    /// A JSON number that is an unsigned 64-bit integer.
    Number(u64),
    Text(S),
    /// Any other JSON value (negative or fractional numbers, arrays, objects).
    Other,
}

impl View for ArgValue<String> {
    type V = ArgValue<Seq<char>>;

    open spec fn view(&self) -> ArgValue<Seq<char>> {
        match self {
            ArgValue::Null => ArgValue::Null,
            ArgValue::Bool(b) => ArgValue::Bool(*b),
            ArgValue::Number(n) => ArgValue::Number(*n),
            ArgValue::Text(s) => ArgValue::Text(s@),
            ArgValue::Other => ArgValue::Other,
        }
    }
}

/// The fields of a JSON object, in order.
#[derive(Debug, Clone)]
pub struct JsonObject {
    pub fields: Vec<(String, ArgValue<String>)>,
}

pub open spec fn field_view(f: (String, ArgValue<String>)) -> (Seq<char>, ArgValue<Seq<char>>) {
    (f.0@, f.1@)
}

impl View for JsonObject {
    type V = Seq<(Seq<char>, ArgValue<Seq<char>>)>;

    open spec fn view(&self) -> Seq<(Seq<char>, ArgValue<Seq<char>>)> {
        self.fields@.map_values(|f: (String, ArgValue<String>)| field_view(f))
    }
}

/// The value under `key` (`args[key]`): the first field with that key, or
/// `Null` when there is none.
pub open spec fn lookup(
    fields: Seq<(Seq<char>, ArgValue<Seq<char>>)>,
    key: Seq<char>,
) -> ArgValue<Seq<char>>
    decreases fields.len(),
{
    if fields.len() == 0 {
        ArgValue::Null
    } else if fields[0].0 == key {
        fields[0].1
    } else {
        lookup(fields.drop_first(), key)
    }
}

/// `args[key].as_str()`.
pub open spec fn arg_str(fields: Seq<(Seq<char>, ArgValue<Seq<char>>)>, key: Seq<char>) -> Option<
    Seq<char>,
> {
    match lookup(fields, key) {
        ArgValue::Text(s) => Some(s),
        _ => None,
    }
}

/// `args[key].as_u64()`.
pub open spec fn arg_u64(fields: Seq<(Seq<char>, ArgValue<Seq<char>>)>, key: Seq<char>) -> Option<
    u64,
> {
    match lookup(fields, key) {
        ArgValue::Number(n) => Some(n),
        _ => None,
    }
}

/// `args[key].as_bool()`.
pub open spec fn arg_bool(fields: Seq<(Seq<char>, ArgValue<Seq<char>>)>, key: Seq<char>) -> Option<
    bool,
> {
    match lookup(fields, key) {
        ArgValue::Bool(b) => Some(b),
        _ => None,
    }
}

pub open spec fn opt_string_view(o: Option<String>) -> Option<Seq<char>> {
    match o {
        Some(s) => Some(s@),
        None => None,
    }
}

/// `args[key]` is the value of the first field named `key`, and `null` when no
/// field has that name.
pub proof fn lemma_lookup_reads_first_field(
    fields: Seq<(Seq<char>, ArgValue<Seq<char>>)>,
    key: Seq<char>,
    i: int,
)
    ensures
        0 <= i < fields.len() && fields[i].0 == key && (forall|j: int| 0 <= j < i ==> fields[j].0 != key)
            ==> lookup(fields, key) == fields[i].1,
        (forall|j: int| 0 <= j < fields.len() ==> fields[j].0 != key) ==> lookup(fields, key)
            == ArgValue::<Seq<char>>::Null,
    decreases fields.len(),
{
    if fields.len() > 0 {
        let rest = fields.drop_first();
        lemma_lookup_reads_first_field(rest, key, i - 1);
        if 0 <= i < fields.len() && fields[i].0 == key && (forall|j: int| 0 <= j < i ==> fields[j].0 != key) {
            if i > 0 {
                assert(fields[0].0 != key);
                assert forall|j: int| 0 <= j < i - 1 implies rest[j].0 != key by {
                    assert(rest[j] == fields[j + 1]);
                }
                assert(rest[i - 1] == fields[i]);
            }
        }
        if forall|j: int| 0 <= j < fields.len() ==> fields[j].0 != key {
            assert(fields[0].0 != key);
            assert forall|j: int| 0 <= j < rest.len() implies rest[j].0 != key by {
                assert(rest[j] == fields[j + 1]);
            }
        }
    }
}

impl JsonObject {
    /// An object without fields (`{}`).
    pub fn new() -> (a: JsonObject)
        ensures
            a@ == Seq::<(Seq<char>, ArgValue<Seq<char>>)>::empty(),
    {
        let a = JsonObject { fields: Vec::new() };
        assert(a@ =~= Seq::<(Seq<char>, ArgValue<Seq<char>>)>::empty());
        a
    }

    /// Adds a field at the end.
    pub fn push(&mut self, key: String, value: ArgValue<String>)
        ensures
            final(self)@ == old(self)@.push((key@, value@)),
    {
        self.fields.push((key, value));
        assert(self@ =~= old(self)@.push((key@, value@)));
    }

    /// The position of the field that `args[key]` reads, if any.
    fn find(&self, key: &str) -> (r: Option<usize>)
        ensures
            match r {
                Some(i) => i < self@.len() && lookup(self@, key@) == self@[i as int].1,
                None => lookup(self@, key@) == ArgValue::<Seq<char>>::Null,
            },
    {
        let n = self.fields.len();
        let mut i: usize = 0;
        assert(self@.subrange(0, n as int) =~= self@);
        while i < n
            invariant
                n == self@.len(),
                n == self.fields@.len(),
                i <= n,
                lookup(self@, key@) == lookup(self@.subrange(i as int, n as int), key@),
            decreases n - i,
        {
            let ghost sub = self@.subrange(i as int, n as int);
            assert(sub[0] == self@[i as int]);
            assert(self@[i as int].0 == self.fields@[i as int].0@);
            if str_eq(self.fields[i].0.as_str(), key) {
                return Some(i);
            }
            assert(sub.drop_first() =~= self@.subrange(i + 1, n as int));
            i = i + 1;
        }
        None
    }

    /// `args[key].as_str()`.
    pub fn get_str(&self, key: &str) -> (r: Option<String>)
        ensures
            opt_string_view(r) == arg_str(self@, key@),
    {
        match self.find(key) {
            Some(i) => {
                assert(self@[i as int].1 == self.fields@[i as int].1@);
                match &self.fields[i].1 {
                    ArgValue::Text(s) => Some(s.clone()),
                    _ => None,
                }
            },
            None => None,
        }
    }

    /// `args[key].as_u64()`.
    pub fn get_u64(&self, key: &str) -> (r: Option<u64>)
        ensures
            r == arg_u64(self@, key@),
    {
        match self.find(key) {
            Some(i) => {
                assert(self@[i as int].1 == self.fields@[i as int].1@);
                match &self.fields[i].1 {
                    ArgValue::Number(n) => Some(*n),
                    _ => None,
                }
            },
            None => None,
        }
    }

    /// `args[key].as_bool()`.
    pub fn get_bool(&self, key: &str) -> (r: Option<bool>)
        ensures
            r == arg_bool(self@, key@),
    {
        match self.find(key) {
            Some(i) => {
                assert(self@[i as int].1 == self.fields@[i as int].1@);
                match &self.fields[i].1 {
                    ArgValue::Bool(b) => Some(*b),
                    _ => None,
                }
            },
            None => None,
        }
    }
}

} // verus!
