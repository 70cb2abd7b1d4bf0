//! Type homogeneity validation: every field's type signature is compared,
//! text for text, against the first field's. Every mismatching field yields
//! its own diagnostic, so one generation attempt reports all offending fields
//! at once instead of stopping at the first.

use vstd::prelude::*;

use crate::schema::FieldDescriptor;
use crate::schema::FieldView;
use crate::text::mismatch_message;

verus! {

/// The spec-level value of an ordered descriptor list.
pub open spec fn descriptor_views(fields: Seq<FieldDescriptor>) -> Seq<FieldView> {
    fields.map_values(|f: FieldDescriptor| f@)
}

/// Whether every field's type signature equals the first field's, text for
/// text. Signatures that spell the same type differently do not count as
/// equal: comparison is purely textual.
pub open spec fn homogeneous(fields: Seq<FieldView>) -> bool {
    forall|i: int|
        0 <= i < fields.len() ==> #[trigger] fields[i].type_signature == fields[0].type_signature
}

/// Whether the field at `i` mismatches: its written type differs from the
/// first field's.
pub open spec fn mismatch_at(fields: Seq<FieldView>, i: int) -> bool {
    fields[i].type_signature != fields[0].type_signature
}

/// One homogeneity diagnostic: the zero-based position of the offending
/// field, the field itself, and the message.
pub struct Diagnostic {
    pub index: usize,
    pub field: FieldDescriptor,
    pub message: String,
}

/// The spec-level value of a [`Diagnostic`].
pub struct DiagnosticView {
    pub index: int,
    pub field: FieldView,
    pub message: Seq<char>,
}

impl View for Diagnostic {
    type V = DiagnosticView;

    open spec fn view(&self) -> DiagnosticView {
        DiagnosticView { index: self.index as int, field: self.field@, message: self.message@ }
    }
}

/// The spec-level value of a diagnostic list.
pub open spec fn diagnostic_views(ds: Seq<Diagnostic>) -> Seq<DiagnosticView> {
    ds.map_values(|d: Diagnostic| d@)
}

/// What a complete diagnostic list for `fields` looks like: every entry
/// points at a real mismatching field and carries that field and the fixed
/// message; entries come in strictly increasing field order; and every
/// mismatching field has an entry. Together these pin the list exactly.
pub open spec fn diagnostics_match(fields: Seq<FieldView>, ds: Seq<DiagnosticView>) -> bool {
    &&& forall|k: int|
        0 <= k < ds.len() ==> {
            &&& 1 <= #[trigger] ds[k].index < fields.len()
            &&& mismatch_at(fields, ds[k].index)
            &&& ds[k].field == fields[ds[k].index]
            &&& ds[k].message == mismatch_message()
        }
    &&& forall|k1: int, k2: int|
        0 <= k1 < k2 < ds.len() ==> #[trigger] ds[k1].index < #[trigger] ds[k2].index
    &&& forall|i: int|
        1 <= i < fields.len() && #[trigger] mismatch_at(fields, i) ==> exists|k: int|
            0 <= k < ds.len() && #[trigger] ds[k].index == i
}

/// The validator's outcome: the shared element type signature, or one
/// diagnostic per mismatching field.
pub enum ValidationOutcome {
    Valid(String),
    Invalid(Vec<Diagnostic>),
}

/// Walks the ordered field list and compares every type signature against
/// the first field's, accumulating one diagnostic per mismatching field
/// rather than stopping at the first.
///
/// Returns `Valid` with the shared signature if and only if the list is
/// homogeneous; otherwise returns `Invalid` with the complete, ordered
/// diagnostic list.
pub fn validate(fields: &Vec<FieldDescriptor>) -> (r: ValidationOutcome)
    requires
        fields@.len() > 0,
    ensures
        match r {
            ValidationOutcome::Valid(ty) => {
                &&& homogeneous(descriptor_views(fields@))
                &&& ty@ == fields@[0].type_signature@
            },
            ValidationOutcome::Invalid(ds) => {
                &&& !homogeneous(descriptor_views(fields@))
                &&& ds@.len() > 0
                &&& diagnostics_match(descriptor_views(fields@), diagnostic_views(ds@))
            },
        },
{
    let ghost vs = descriptor_views(fields@);
    let ref_ty: &String = &fields[0].type_signature;
    let mut diags: Vec<Diagnostic> = Vec::new();
    let mut i: usize = 1;
    while i < fields.len()
        invariant
            vs == descriptor_views(fields@),
            fields@.len() > 0,
            1 <= i as int <= fields@.len(),
            ref_ty@ == vs[0].type_signature,
            forall|k: int|
                0 <= k < diags@.len() ==> {
                    &&& 1 <= #[trigger] diags@[k]@.index < i as int
                    &&& mismatch_at(vs, diags@[k]@.index)
                    &&& diags@[k]@.field == vs[diags@[k]@.index]
                    &&& diags@[k]@.message == mismatch_message()
                },
            forall|k1: int, k2: int|
                0 <= k1 < k2 < diags@.len() ==> #[trigger] diags@[k1]@.index
                    < #[trigger] diags@[k2]@.index,
            forall|j: int|
                1 <= j < i as int && #[trigger] mismatch_at(vs, j) ==> exists|k: int|
                    0 <= k < diags@.len() && #[trigger] diags@[k]@.index == j,
        decreases fields@.len() - i,
    {
        let ghost pre = diags@;
        if !(fields[i].type_signature == *ref_ty) {
            diags.push(
                Diagnostic {
                    index: i,
                    field: fields[i].clone(),
                    message: String::from_str("All fields must have the same type"),
                },
            );
        }
        proof {
            assert(vs[i as int] == fields@[i as int]@);
            assert forall|j: int|
                1 <= j < i + 1 && #[trigger] mismatch_at(vs, j) implies exists|k: int|
                0 <= k < diags@.len() && #[trigger] diags@[k]@.index == j by {
                if j == i as int {
                    assert(diags@[diags@.len() - 1]@.index == j);
                } else {
                    let k = choose|k: int| 0 <= k < pre.len() && #[trigger] pre[k]@.index == j;
                    assert(diags@[k] == pre[k]);
                    assert(diags@[k]@.index == j);
                }
            }
        }
        i = i + 1;
    }
    if diags.len() == 0 {
        proof {
            assert forall|j: int|
                0 <= j < vs.len() implies #[trigger] vs[j].type_signature
                == vs[0].type_signature by {
                if j >= 1 && vs[j].type_signature != vs[0].type_signature {
                    assert(mismatch_at(vs, j));
                    assert(false);
                }
            }
            assert(homogeneous(vs));
            assert(vs[0] == fields@[0]@);
        }
        ValidationOutcome::Valid(ref_ty.clone())
    } else {
        proof {
            let idx = diags@[0]@.index;
            assert(mismatch_at(vs, idx));
            assert(!homogeneous(vs));
            assert forall|k: int| 0 <= k < diagnostic_views(diags@).len() implies {
                &&& 1 <= #[trigger] diagnostic_views(diags@)[k].index < vs.len()
                &&& mismatch_at(vs, diagnostic_views(diags@)[k].index)
                &&& diagnostic_views(diags@)[k].field == vs[diagnostic_views(diags@)[k].index]
                &&& diagnostic_views(diags@)[k].message == mismatch_message()
            } by {
                assert(diagnostic_views(diags@)[k] == diags@[k]@);
            }
            assert forall|j: int|
                1 <= j < vs.len() && #[trigger] mismatch_at(vs, j) implies exists|k: int|
                0 <= k < diagnostic_views(diags@).len() && #[trigger] diagnostic_views(
                    diags@,
                )[k].index == j by {
                let k = choose|k: int| 0 <= k < diags@.len() && #[trigger] diags@[k]@.index == j;
                assert(diagnostic_views(diags@)[k] == diags@[k]@);
                assert(diagnostic_views(diags@)[k].index == j);
            }
        }
        ValidationOutcome::Invalid(diags)
    }
}

} // verus!
