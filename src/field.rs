//! Field trees of events: the engine's fields and their owned copies.

use vstd::prelude::*;
use crate::error::{BtResult, Error};
use crate::util::{opt_bytes, opt_owned_cstr, opt_text, spec_opt_text};

verus! {

/// The kinds of field this library copies; any other is `Unsupported`.
#[derive(Clone, Copy, PartialEq, Eq, Structural, PartialOrd, Ord, Hash, Debug)]
pub enum FieldType {
    Bool,
    UnsignedInteger,
    SignedInteger,
    SinglePrecisionReal,
    DoublePrecisionReal,
    String,
    UnsignedEnumeration,
    SignedEnumeration,
    Structure,
    /// Another kind, with the engine's field class type code.
    Unsupported(u64),
}

pub const FIELD_CLASS_TYPE_BOOL: u64 = 1;
pub const FIELD_CLASS_TYPE_UNSIGNED_INTEGER: u64 = 12;
pub const FIELD_CLASS_TYPE_SIGNED_INTEGER: u64 = 20;
pub const FIELD_CLASS_TYPE_UNSIGNED_ENUMERATION: u64 = 44;
pub const FIELD_CLASS_TYPE_SIGNED_ENUMERATION: u64 = 52;
pub const FIELD_CLASS_TYPE_SINGLE_PRECISION_REAL: u64 = 192;
pub const FIELD_CLASS_TYPE_DOUBLE_PRECISION_REAL: u64 = 320;
pub const FIELD_CLASS_TYPE_STRING: u64 = 512;
pub const FIELD_CLASS_TYPE_STRUCTURE: u64 = 1024;

impl FieldType {
    pub open spec fn spec_from_raw(raw: u64) -> FieldType {
        if raw == FIELD_CLASS_TYPE_BOOL {
            FieldType::Bool
        } else if raw == FIELD_CLASS_TYPE_UNSIGNED_INTEGER {
            FieldType::UnsignedInteger
        } else if raw == FIELD_CLASS_TYPE_SIGNED_INTEGER {
            FieldType::SignedInteger
        } else if raw == FIELD_CLASS_TYPE_SINGLE_PRECISION_REAL {
            FieldType::SinglePrecisionReal
        } else if raw == FIELD_CLASS_TYPE_DOUBLE_PRECISION_REAL {
            FieldType::DoublePrecisionReal
        } else if raw == FIELD_CLASS_TYPE_STRING {
            FieldType::String
        } else if raw == FIELD_CLASS_TYPE_UNSIGNED_ENUMERATION {
            FieldType::UnsignedEnumeration
        } else if raw == FIELD_CLASS_TYPE_SIGNED_ENUMERATION {
            FieldType::SignedEnumeration
        } else if raw == FIELD_CLASS_TYPE_STRUCTURE {
            FieldType::Structure
        } else {
            FieldType::Unsupported(raw)
        }
    }

    /// The kind of field that an engine field class type code stands for.
    pub fn from_raw(raw: u64) -> (r: FieldType)
        ensures
            r == Self::spec_from_raw(raw),
    {
        if raw == FIELD_CLASS_TYPE_BOOL {
            FieldType::Bool
        } else if raw == FIELD_CLASS_TYPE_UNSIGNED_INTEGER {
            FieldType::UnsignedInteger
        } else if raw == FIELD_CLASS_TYPE_SIGNED_INTEGER {
            FieldType::SignedInteger
        } else if raw == FIELD_CLASS_TYPE_SINGLE_PRECISION_REAL {
            FieldType::SinglePrecisionReal
        } else if raw == FIELD_CLASS_TYPE_DOUBLE_PRECISION_REAL {
            FieldType::DoublePrecisionReal
        } else if raw == FIELD_CLASS_TYPE_STRING {
            FieldType::String
        } else if raw == FIELD_CLASS_TYPE_UNSIGNED_ENUMERATION {
            FieldType::UnsignedEnumeration
        } else if raw == FIELD_CLASS_TYPE_SIGNED_ENUMERATION {
            FieldType::SignedEnumeration
        } else if raw == FIELD_CLASS_TYPE_STRUCTURE {
            FieldType::Structure
        } else {
            FieldType::Unsupported(raw)
        }
    }

    /// Whether fields of this kind are copied.
    pub fn is_supported(&self) -> (r: bool)
        ensures
            r == !(self is Unsupported),
    {
        !matches!(self, FieldType::Unsupported(_))
    }
}

/// A field as the engine holds it. Reals are their IEEE-754 bit patterns;
/// strings and enumeration labels are raw bytes.
#[derive(Debug)]
pub enum Field {
    Bool(bool),
    UnsignedInteger(u64),
    SignedInteger(i64),
    SinglePrecisionReal(u32),
    DoublePrecisionReal(u64),
    String(Option<Vec<u8>>),
    /// Value, the engine's status for reading the labels, and the labels.
    UnsignedEnumeration(u64, i32, Vec<Option<Vec<u8>>>),
    SignedEnumeration(i64, i32, Vec<Option<Vec<u8>>>),
    /// Members in order, each with its name.
    Structure(Vec<(Option<Vec<u8>>, Field)>),
    Unsupported(u64),
}

/// Owned copy of a scalar field. Reals are kept as their IEEE-754 bit
/// patterns.
#[derive(Clone, PartialEq, Eq, PartialOrd, Ord, Hash, Debug)]
pub enum ScalarField {
    Bool(bool),
    UnsignedInteger(u64),
    SignedInteger(i64),
    SinglePrecisionReal(u32),
    DoublePrecisionReal(u64),
    String(String),
    /// Value and the labels of its mappings, in the engine's order.
    UnsignedEnumeration(u64, Vec<String>),
    SignedEnumeration(i64, Vec<String>),
}

/// Owned copy of a field: a scalar with its member name, or a structure.
#[derive(PartialEq, Eq, PartialOrd, Ord, Hash, Debug)]
pub enum OwnedField {
    Scalar(Option<String>, ScalarField),
    Structure(Vec<OwnedField>),
}

pub ghost enum ScalarFieldView {
    Bool(bool),
    UnsignedInteger(u64),
    SignedInteger(i64),
    SinglePrecisionReal(u32),
    DoublePrecisionReal(u64),
    String(Seq<char>),
    UnsignedEnumeration(u64, Seq<Seq<char>>),
    SignedEnumeration(i64, Seq<Seq<char>>),
}

pub ghost enum OwnedFieldView {
    Scalar(Option<Seq<char>>, ScalarFieldView),
    Structure(Seq<OwnedFieldView>),
}

pub open spec fn texts(s: Seq<String>) -> Seq<Seq<char>> {
    s.map_values(|t: String| t@)
}

impl View for ScalarField {
    type V = ScalarFieldView;

    open spec fn view(&self) -> ScalarFieldView {
        match self {
            ScalarField::Bool(b) => ScalarFieldView::Bool(*b),
            ScalarField::UnsignedInteger(v) => ScalarFieldView::UnsignedInteger(*v),
            ScalarField::SignedInteger(v) => ScalarFieldView::SignedInteger(*v),
            ScalarField::SinglePrecisionReal(v) => ScalarFieldView::SinglePrecisionReal(*v),
            ScalarField::DoublePrecisionReal(v) => ScalarFieldView::DoublePrecisionReal(*v),
            ScalarField::String(s) => ScalarFieldView::String(s@),
            ScalarField::UnsignedEnumeration(v, l) => ScalarFieldView::UnsignedEnumeration(
                *v,
                texts(l@),
            ),
            ScalarField::SignedEnumeration(v, l) => ScalarFieldView::SignedEnumeration(
                *v,
                texts(l@),
            ),
        }
    }
}

impl OwnedField {
    pub open spec fn view_of(f: OwnedField) -> OwnedFieldView
        decreases f,
    {
        match f {
            OwnedField::Scalar(n, v) => OwnedFieldView::Scalar(opt_text(n), v@),
            OwnedField::Structure(ms) => OwnedFieldView::Structure(
                Seq::new(
                    ms@.len(),
                    |i: int|
                        if 0 <= i < ms@.len() {
                            OwnedField::view_of(ms@[i])
                        } else {
                            OwnedFieldView::Structure(Seq::empty())
                        },
                ),
            ),
        }
    }
}

impl View for OwnedField {
    type V = OwnedFieldView;

    open spec fn view(&self) -> OwnedFieldView {
        OwnedField::view_of(*self)
    }
}

/// The view of an optional owned field.
pub open spec fn opt_field_view(f: Option<OwnedField>) -> Option<OwnedFieldView> {
    match f {
        None => None,
        Some(x) => Some(x@),
    }
}

/// The labels of an enumeration, or the first error: a failed read of the
/// labels is the engine's status as a failure; absent or empty labels are
/// left out.
pub open spec fn spec_labels(status: i32, labels: Seq<Option<Vec<u8>>>) -> Result<
    Seq<Seq<char>>,
    Error,
> {
    if status != 0 {
        Err(Error::Failure(status as isize))
    } else {
        labels_prefix(labels, labels.len())
    }
}

pub open spec fn labels_prefix(labels: Seq<Option<Vec<u8>>>, n: nat) -> Result<Seq<Seq<char>>, Error>
    decreases n,
{
    if n == 0 {
        Ok(Seq::empty())
    } else {
        match labels_prefix(labels, (n - 1) as nat) {
            Err(e) => Err(e),
            Ok(acc) => match spec_opt_text(opt_bytes(labels[n - 1])) {
                Err(e) => Err(e),
                Ok(None) => Ok(acc),
                Ok(Some(t)) => Ok(acc.push(t)),
            },
        }
    }
}

proof fn lemma_labels_prefix_err(labels: Seq<Option<Vec<u8>>>, k: nat, n: nat, e: Error)
    requires
        k <= n,
        labels_prefix(labels, k) == Err::<Seq<Seq<char>>, Error>(e),
    ensures
        labels_prefix(labels, n) == Err::<Seq<Seq<char>>, Error>(e),
    decreases n,
{
    if k < n {
        lemma_labels_prefix_err(labels, k, (n - 1) as nat, e);
    }
}

fn owned_labels(status: i32, labels: &Vec<Option<Vec<u8>>>) -> (r: BtResult<Vec<String>>)
    ensures
        match spec_labels(status, labels@) {
            Ok(v) => r.is_ok() && texts(r.unwrap()@) == v,
            Err(e) => r == Err::<Vec<String>, Error>(e),
        },
{
    if status != 0 {
        return Err(Error::Failure(status as isize));
    }
    let mut out: Vec<String> = Vec::new();
    let mut i: usize = 0;
    assert(texts(out@) =~= Seq::empty());
    while i < labels.len()
        invariant
            status == 0,
            i <= labels@.len(),
            labels_prefix(labels@, i as nat) == Ok::<Seq<Seq<char>>, Error>(texts(out@)),
        decreases labels@.len() - i,
    {
        let ghost acc = texts(out@);
        match opt_owned_cstr(&labels[i]) {
            Err(e) => {
                proof {
                    assert(labels_prefix(labels@, (i + 1) as nat) == Err::<Seq<Seq<char>>, Error>(
                        e,
                    ));
                    lemma_labels_prefix_err(labels@, (i + 1) as nat, labels@.len(), e);
                }
                return Err(e);
            },
            Ok(None) => {},
            Ok(Some(t)) => {
                out.push(t);
                assert(texts(out@) =~= acc.push(t@));
            },
        }
        i = i + 1;
    }
    Ok(out)
}

/// The views of a sequence of owned fields.
pub open spec fn field_views(s: Seq<OwnedField>) -> Seq<OwnedFieldView> {
    s.map_values(|f: OwnedField| f@)
}

impl Field {
    pub open spec fn spec_type(self) -> FieldType {
        match self {
            Field::Bool(_) => FieldType::Bool,
            Field::UnsignedInteger(_) => FieldType::UnsignedInteger,
            Field::SignedInteger(_) => FieldType::SignedInteger,
            Field::SinglePrecisionReal(_) => FieldType::SinglePrecisionReal,
            Field::DoublePrecisionReal(_) => FieldType::DoublePrecisionReal,
            Field::String(_) => FieldType::String,
            Field::UnsignedEnumeration(..) => FieldType::UnsignedEnumeration,
            Field::SignedEnumeration(..) => FieldType::SignedEnumeration,
            Field::Structure(_) => FieldType::Structure,
            Field::Unsupported(t) => FieldType::Unsupported(t),
        }
    }

    /// The kind of this field.
    pub fn get_type(&self) -> (r: FieldType)
        ensures
            r == self.spec_type(),
    {
        match self {
            Field::Bool(_) => FieldType::Bool,
            Field::UnsignedInteger(_) => FieldType::UnsignedInteger,
            Field::SignedInteger(_) => FieldType::SignedInteger,
            Field::SinglePrecisionReal(_) => FieldType::SinglePrecisionReal,
            Field::DoublePrecisionReal(_) => FieldType::DoublePrecisionReal,
            Field::String(_) => FieldType::String,
            Field::UnsignedEnumeration(..) => FieldType::UnsignedEnumeration,
            Field::SignedEnumeration(..) => FieldType::SignedEnumeration,
            Field::Structure(_) => FieldType::Structure,
            Field::Unsupported(t) => FieldType::Unsupported(*t),
        }
    }

    /// The owned copy of a field, or the first error met. Strings without
    /// text and fields of unsupported kinds give no field; so does a
    /// structure none of whose members gives a field.
    pub open spec fn spec_to_owned(self) -> Result<Option<OwnedFieldView>, Error>
        decreases self,
    {
        match self {
            Field::Bool(b) => Ok(Some(OwnedFieldView::Scalar(None, ScalarFieldView::Bool(b)))),
            Field::UnsignedInteger(v) => Ok(
                Some(OwnedFieldView::Scalar(None, ScalarFieldView::UnsignedInteger(v))),
            ),
            Field::SignedInteger(v) => Ok(
                Some(OwnedFieldView::Scalar(None, ScalarFieldView::SignedInteger(v))),
            ),
            Field::SinglePrecisionReal(v) => Ok(
                Some(OwnedFieldView::Scalar(None, ScalarFieldView::SinglePrecisionReal(v))),
            ),
            Field::DoublePrecisionReal(v) => Ok(
                Some(OwnedFieldView::Scalar(None, ScalarFieldView::DoublePrecisionReal(v))),
            ),
            Field::String(b) => match spec_opt_text(opt_bytes(b)) {
                Err(e) => Err(e),
                Ok(None) => Ok(None),
                Ok(Some(t)) => Ok(Some(OwnedFieldView::Scalar(None, ScalarFieldView::String(t)))),
            },
            Field::UnsignedEnumeration(v, st, ls) => match spec_labels(st, ls@) {
                Err(e) => Err(e),
                Ok(l) => Ok(
                    Some(OwnedFieldView::Scalar(None, ScalarFieldView::UnsignedEnumeration(v, l))),
                ),
            },
            Field::SignedEnumeration(v, st, ls) => match spec_labels(st, ls@) {
                Err(e) => Err(e),
                Ok(l) => Ok(
                    Some(OwnedFieldView::Scalar(None, ScalarFieldView::SignedEnumeration(v, l))),
                ),
            },
            Field::Structure(ms) => match members_fold(ms@) {
                Err(e) => Err(e),
                Ok(fs) => if fs.len() == 0 {
                    Ok(None)
                } else {
                    Ok(Some(OwnedFieldView::Structure(fs)))
                },
            },
            Field::Unsupported(_) => Ok(None),
        }
    }
}

/// The owned members of a structure, or the first error met. A member of an
/// unsupported kind, or one that gives no field, is left out; a scalar member
/// takes its member name.
pub open spec fn members_fold(ms: Seq<(Option<Vec<u8>>, Field)>) -> Result<
    Seq<OwnedFieldView>,
    Error,
>
    decreases ms,
{
    if ms.len() == 0 {
        Ok(Seq::empty())
    } else {
        match members_fold(ms.drop_last()) {
            Err(e) => Err(e),
            Ok(acc) => {
                let m = ms.last();
                if m.1.spec_type() is Unsupported {
                    Ok(acc)
                } else {
                    match m.1.spec_to_owned() {
                        Err(e) => Err(e),
                        Ok(None) => Ok(acc),
                        Ok(Some(f)) => match f {
                            OwnedFieldView::Scalar(_, v) => match spec_opt_text(opt_bytes(m.0)) {
                                Err(e) => Err(e),
                                Ok(n) => Ok(acc.push(OwnedFieldView::Scalar(n, v))),
                            },
                            OwnedFieldView::Structure(_) => Ok(acc.push(f)),
                        },
                    }
                }
            },
        }
    }
}

proof fn lemma_members_err(ms: Seq<(Option<Vec<u8>>, Field)>, k: int, e: Error)
    requires
        0 <= k <= ms.len(),
        members_fold(ms.take(k)) == Err::<Seq<OwnedFieldView>, Error>(e),
    ensures
        members_fold(ms) == Err::<Seq<OwnedFieldView>, Error>(e),
    decreases ms.len() - k,
{
    if k == ms.len() {
        assert(ms.take(k) =~= ms);
    } else {
        assert(ms.take(k + 1).drop_last() =~= ms.take(k));
        lemma_members_err(ms, k + 1, e);
    }
}

impl Field {
    /// Copies this field out of the engine.
    pub fn to_owned(&self) -> (r: BtResult<Option<OwnedField>>)
        ensures
            match self.spec_to_owned() {
                Ok(v) => r.is_ok() && opt_field_view(r.unwrap()) == v,
                Err(e) => r == Err::<Option<OwnedField>, Error>(e),
            },
        decreases self,
    {
        match self {
            Field::Bool(b) => Ok(Some(OwnedField::Scalar(None, ScalarField::Bool(*b)))),
            Field::UnsignedInteger(v) => Ok(
                Some(OwnedField::Scalar(None, ScalarField::UnsignedInteger(*v))),
            ),
            Field::SignedInteger(v) => Ok(
                Some(OwnedField::Scalar(None, ScalarField::SignedInteger(*v))),
            ),
            Field::SinglePrecisionReal(v) => Ok(
                Some(OwnedField::Scalar(None, ScalarField::SinglePrecisionReal(*v))),
            ),
            Field::DoublePrecisionReal(v) => Ok(
                Some(OwnedField::Scalar(None, ScalarField::DoublePrecisionReal(*v))),
            ),
            Field::String(b) => match opt_owned_cstr(b) {
                Err(e) => Err(e),
                Ok(None) => Ok(None),
                Ok(Some(t)) => Ok(Some(OwnedField::Scalar(None, ScalarField::String(t)))),
            },
            Field::UnsignedEnumeration(v, st, ls) => match owned_labels(*st, ls) {
                Err(e) => Err(e),
                Ok(l) => Ok(Some(OwnedField::Scalar(None, ScalarField::UnsignedEnumeration(*v, l)))),
            },
            Field::SignedEnumeration(v, st, ls) => match owned_labels(*st, ls) {
                Err(e) => Err(e),
                Ok(l) => Ok(Some(OwnedField::Scalar(None, ScalarField::SignedEnumeration(*v, l)))),
            },
            Field::Structure(ms) => {
                let mut out: Vec<OwnedField> = Vec::new();
                let mut i: usize = 0;
                assert(ms@.take(0) =~= Seq::<(Option<Vec<u8>>, Field)>::empty());
                assert(field_views(out@) =~= Seq::empty());
                while i < ms.len()
                    invariant
                        *self == Field::Structure(*ms),
                        i <= ms@.len(),
                        members_fold(ms@.take(i as int)) == Ok::<Seq<OwnedFieldView>, Error>(
                            field_views(out@),
                        ),
                    decreases ms@.len() - i,
                {
                    let ghost acc = field_views(out@);
                    let member = &ms[i];
                    assert(ms@.take(i as int + 1).drop_last() =~= ms@.take(i as int));
                    assert(ms@.take(i as int + 1).last() == ms@[i as int]);
                    proof {
                        vstd::std_specs::vec::axiom_vec_index_decreases(*ms, i as int);
                        assert(*self == Field::Structure(*ms));
                        assert(decreases_to!(Field::Structure(*ms) => *ms));
                        assert(decreases_to!(*ms => ms[i as int]));
                        assert(decreases_to!(ms[i as int] => ms[i as int].1));
                        assert(decreases_to!(*self => ms[i as int].1));
                    }
                    let mt = member.1.get_type();
                    if mt.is_supported() {
                        match member.1.to_owned() {
                            Err(e) => {
                                proof {
                                    assert(members_fold(ms@.take(i as int + 1)) == Err::<
                                        Seq<OwnedFieldView>,
                                        Error,
                                    >(e));
                                    lemma_members_err(ms@, i as int + 1, e);
                                }
                                return Err(e);
                            },
                            Ok(None) => {},
                            Ok(Some(f)) => match f {
                                OwnedField::Scalar(_, v) => match opt_owned_cstr(&member.0) {
                                    Err(e) => {
                                        proof {
                                            assert(members_fold(ms@.take(i as int + 1)) == Err::<
                                                Seq<OwnedFieldView>,
                                                Error,
                                            >(e));
                                            lemma_members_err(ms@, i as int + 1, e);
                                        }
                                        return Err(e);
                                    },
                                    Ok(n) => {
                                        out.push(OwnedField::Scalar(n, v));
                                        assert(field_views(out@) =~= acc.push(
                                            OwnedField::view_of(out@.last()),
                                        ));
                                    },
                                },
                                OwnedField::Structure(x) => {
                                    out.push(OwnedField::Structure(x));
                                    assert(field_views(out@) =~= acc.push(
                                        OwnedField::view_of(out@.last()),
                                    ));
                                },
                            },
                        }
                    }
                    i = i + 1;
                }
                assert(ms@.take(ms@.len() as int) =~= ms@);
                if out.len() == 0 {
                    Ok(None)
                } else {
                    let ghost outv = out@;
                    let r = OwnedField::Structure(out);
                    assert(r@ == OwnedFieldView::Structure(field_views(outv))) by {
                        let s = OwnedField::view_of(r)->Structure_0;
                        assert(s.len() == outv.len());
                        assert forall|j: int| 0 <= j < outv.len() implies s[j] == field_views(
                            outv,
                        )[j] by {}
                        assert(s =~= field_views(outv));
                    }
                    Ok(Some(r))
                }
            },
            Field::Unsupported(_) => Ok(None),
        }
    }
}

} // verus!
