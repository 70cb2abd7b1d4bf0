//! The structural description of a record type and schema extraction: the
//! incoming record is classified as named, positional or unit-shaped, and an
//! ordered field list is produced. Unit-shaped and empty records are rejected
//! outright; no type comparison happens here.

use vstd::prelude::*;

verus! {

/// A field's selector: its name in a named record, or its zero-based
/// declaration position in a tuple-shaped record.
pub enum Selector {
    Named(String),
    Positional(usize),
}

/// The spec-level value of a [`Selector`].
pub enum SelectorView {
    Named(Seq<char>),
    Positional(int),
}

impl View for Selector {
    type V = SelectorView;

    open spec fn view(&self) -> SelectorView {
        match self {
            Selector::Named(name) => SelectorView::Named(name@),
            Selector::Positional(p) => SelectorView::Positional(*p as int),
        }
    }
}

impl Clone for Selector {
    fn clone(&self) -> (r: Self)
        ensures
            r@ == self@,
    {
        match self {
            Selector::Named(name) => Selector::Named(name.clone()),
            Selector::Positional(p) => Selector::Positional(*p),
        }
    }
}

/// One extracted field: its selector and the exact written form of its
/// declared type. Type signatures are compared as text, never as resolved
/// types, because no type resolution exists when the generator runs.
pub struct FieldDescriptor {
    pub selector: Selector,
    pub type_signature: String,
}

/// The spec-level value of a [`FieldDescriptor`].
pub struct FieldView {
    pub selector: SelectorView,
    pub type_signature: Seq<char>,
}

impl View for FieldDescriptor {
    type V = FieldView;

    open spec fn view(&self) -> FieldView {
        FieldView { selector: self.selector@, type_signature: self.type_signature@ }
    }
}

impl Clone for FieldDescriptor {
    fn clone(&self) -> (r: Self)
        ensures
            r@ == self@,
    {
        FieldDescriptor {
            selector: self.selector.clone(),
            type_signature: self.type_signature.clone(),
        }
    }
}

/// One field of a named record, as the front-end supplies it.
pub struct NamedField {
    pub name: String,
    pub type_signature: String,
}

/// The field list of a record description, classified by shape.
pub enum RecordFields {
    /// Named fields, in declaration order.
    Named(Vec<NamedField>),
    /// A tuple-shaped record: the field type signatures in declaration order.
    Positional(Vec<String>),
    /// A unit-shaped record, with no field list at all.
    Unit,
}

/// The structural description of one record type, supplied fully parsed by
/// the external front-end.
pub struct RecordDescription {
    pub name: String,
    pub fields: RecordFields,
}

/// The field sequence a record's shape describes: one [`FieldView`] per
/// declared field, in declaration order. Positional fields select by their
/// own zero-based position.
pub open spec fn field_views(fields: RecordFields) -> Seq<FieldView> {
    match fields {
        RecordFields::Named(fs) => fs@.map(
            |i: int, f: NamedField|
                FieldView {
                    selector: SelectorView::Named(f.name@),
                    type_signature: f.type_signature@,
                },
        ),
        RecordFields::Positional(tys) => tys@.map(
            |i: int, ty: String|
                FieldView { selector: SelectorView::Positional(i), type_signature: ty@ },
        ),
        RecordFields::Unit => Seq::empty(),
    }
}

/// Whether a record's shape is rejected outright: unit-shaped, or without a
/// single field. For these no artifact and no diagnostics are produced.
pub open spec fn rejected_shape(fields: RecordFields) -> bool {
    fields is Unit || field_views(fields).len() == 0
}

/// A record shape the generator rejects outright.
#[derive(Clone, Copy, Debug, PartialEq, Eq, Structural)]
pub enum StructuralError {
    /// A named or positional record with an empty field list.
    NoFields,
    /// A unit-shaped record.
    UnitShape,
}

impl StructuralError {
    /// The message the front-end surfaces for this rejection.
    pub open spec fn message_spec(&self) -> Seq<char> {
        match *self {
            StructuralError::NoFields => "Expected at least one field"@,
            StructuralError::UnitShape => "unit structs are not supported"@,
        }
    }

    pub fn message(&self) -> (s: String)
        ensures
            s@ == self.message_spec(),
    {
        match *self {
            StructuralError::NoFields => String::from_str("Expected at least one field"),
            StructuralError::UnitShape => String::from_str("unit structs are not supported"),
        }
    }
}

/// Classifies the record description and produces its ordered field list,
/// preserving declaration order exactly.
///
/// Fails if and only if the shape is degenerate: a unit-shaped record, or a
/// record with zero fields.
pub fn extract_schema(record: &RecordDescription) -> (r: Result<
    Vec<FieldDescriptor>,
    StructuralError,
>)
    ensures
        match r {
            Ok(fields) => {
                &&& !rejected_shape(record.fields)
                &&& fields@.len() == field_views(record.fields).len()
                &&& forall|i: int|
                    0 <= i < fields@.len() ==> fields@[i]@ == field_views(record.fields)[i]
            },
            Err(e) => {
                &&& rejected_shape(record.fields)
                &&& (e is UnitShape <==> record.fields is Unit)
            },
        },
{
    match &record.fields {
        RecordFields::Named(fs) => {
            if fs.len() == 0 {
                return Err(StructuralError::NoFields);
            }
            let mut out: Vec<FieldDescriptor> = Vec::new();
            let mut i: usize = 0;
            while i < fs.len()
                invariant
                    record.fields matches RecordFields::Named(gs) && gs@ == fs@,
                    i <= fs@.len(),
                    out@.len() == i as int,
                    forall|k: int|
                        0 <= k < i as int ==> out@[k]@ == field_views(record.fields)[k],
                decreases fs@.len() - i,
            {
                let f = &fs[i];
                out.push(
                    FieldDescriptor {
                        selector: Selector::Named(f.name.clone()),
                        type_signature: f.type_signature.clone(),
                    },
                );
                i = i + 1;
            }
            Ok(out)
        },
        RecordFields::Positional(tys) => {
            if tys.len() == 0 {
                return Err(StructuralError::NoFields);
            }
            let mut out: Vec<FieldDescriptor> = Vec::new();
            let mut i: usize = 0;
            while i < tys.len()
                invariant
                    record.fields matches RecordFields::Positional(us) && us@ == tys@,
                    i <= tys@.len(),
                    out@.len() == i as int,
                    forall|k: int|
                        0 <= k < i as int ==> out@[k]@ == field_views(record.fields)[k],
                decreases tys@.len() - i,
            {
                out.push(
                    FieldDescriptor {
                        selector: Selector::Positional(i),
                        type_signature: tys[i].clone(),
                    },
                );
                i = i + 1;
            }
            Ok(out)
        },
        RecordFields::Unit => Err(StructuralError::UnitShape),
    }
}

} // verus!
