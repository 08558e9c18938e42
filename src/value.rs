//! Key/value parameter sets handed to components when they are created.

use vstd::prelude::*;

verus! {

/// A parameter value.
#[derive(Clone, PartialEq, Eq, Hash, Debug)]
pub enum ParamValue {
    Bool(bool),
    SignedInteger(i64),
    String(String),
    StringArray(Vec<String>),
}

pub ghost enum ParamValueView {
    Bool(bool),
    SignedInteger(i64),
    String(Seq<char>),
    StringArray(Seq<Seq<char>>),
}

pub open spec fn string_views(s: Seq<String>) -> Seq<Seq<char>> {
    s.map_values(|t: String| t@)
}

impl View for ParamValue {
    type V = ParamValueView;

    open spec fn view(&self) -> ParamValueView {
        match self {
            ParamValue::Bool(b) => ParamValueView::Bool(*b),
            ParamValue::SignedInteger(i) => ParamValueView::SignedInteger(*i),
            ParamValue::String(s) => ParamValueView::String(s@),
            ParamValue::StringArray(a) => ParamValueView::StringArray(string_views(a@)),
        }
    }
}

pub open spec fn entry_views(s: Seq<(String, ParamValue)>) -> Seq<(Seq<char>, ParamValueView)> {
    s.map_values(|e: (String, ParamValue)| (e.0@, e.1@))
}

/// A map of parameters, in insertion order.
#[derive(Clone, PartialEq, Eq, Hash, Debug)]
pub struct Value {
    entries: Vec<(String, ParamValue)>,
}

impl View for Value {
    type V = Seq<(Seq<char>, ParamValueView)>;

    closed spec fn view(&self) -> Seq<(Seq<char>, ParamValueView)> {
        entry_views(self.entries@)
    }
}

impl Value {
    /// An empty map.
    pub fn new_map() -> (r: Value)
        ensures
            r@ == Seq::<(Seq<char>, ParamValueView)>::empty(),
    {
        let r = Value { entries: Vec::new() };
        assert(entry_views(r.entries@) =~= Seq::empty());
        r
    }

    /// Appends an entry.
    pub fn insert_entry(&mut self, key: &str, value: ParamValue)
        ensures
            final(self)@ == old(self)@.push((key@, value@)),
    {
        let ghost before = self@;
        let ghost v = value@;
        self.entries.push((key.to_owned(), value));
        assert(entry_views(self.entries@) =~= before.push((key@, v)));
    }

    /// The entries, in insertion order.
    pub fn entries(&self) -> (r: &Vec<(String, ParamValue)>)
        ensures
            entry_views(r@) == self@,
    {
        &self.entries
    }
}

} // verus!
