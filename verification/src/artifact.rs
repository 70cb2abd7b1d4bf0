//! The generated artifact: a position-indexed accessor pair over one record
//! type. A real artifact dispatches index `i` directly to the `i`-th declared
//! field — no reordering, filtering or renumbering — and aborts with a fixed,
//! exact message on any out-of-bounds index. A stub artifact, emitted when
//! homogeneity validation failed, keeps the same shape but aborts
//! unconditionally, so dependent code still compiles while only the real
//! diagnostics are reported.

use vstd::prelude::*;

use crate::schema::FieldDescriptor;
use crate::schema::FieldView;
use crate::schema::Selector;
use crate::text::oob_message_spec;
use crate::text::oob_prefix;
use crate::text::oob_prefix_spec;
use crate::text::stub_message;
use crate::text::usize_to_string;
use crate::validate::Diagnostic;
use crate::validate::descriptor_views;

verus! {

/// The generated accessor pair for one record type. Both accessors share one
/// dispatch table, one element type and one abort-message prefix; `stubbed`
/// tells a real artifact from the error-recovery stub.
pub struct GeneratedArtifact {
    /// The dispatch table: entry `i` is the selector of the `i`-th declared
    /// field, in declaration order.
    pub dispatch: Vec<Selector>,
    /// The element type signature shared by every field (for a stub, the
    /// first field's signature, kept so the stub's signature stays
    /// plausible).
    pub element_type: String,
    /// The fixed part of the out-of-bounds abort message; the offending
    /// index is appended at the point of the abort.
    pub oob_prefix: String,
    /// Whether the accessors are stubs that abort unconditionally.
    pub stubbed: bool,
}

/// What the generated artifact for `fields` with element type `ty` looks
/// like: a dispatch table of the fields' length whose entry `i` is field
/// `i`'s selector, the element type, and the abort-message prefix fixed at
/// generation time from the field count.
pub open spec fn artifact_matches(
    a: GeneratedArtifact,
    fields: Seq<FieldView>,
    ty: Seq<char>,
    stubbed: bool,
) -> bool {
    &&& a.dispatch@.len() == fields.len()
    &&& forall|i: int| 0 <= i < fields.len() ==> #[trigger] a.dispatch@[i]@ == fields[i].selector
    &&& a.element_type@ == ty
    &&& a.oob_prefix@ == oob_prefix_spec(fields.len())
    &&& a.stubbed == stubbed
}

/// Builds the dispatch table: entry `i` is the selector of field `i`, in
/// declaration order.
fn build_dispatch(fields: &Vec<FieldDescriptor>) -> (dispatch: Vec<Selector>)
    ensures
        dispatch@.len() == fields@.len(),
        forall|k: int|
            0 <= k < fields@.len() ==> #[trigger] dispatch@[k]@ == descriptor_views(
                fields@,
            )[k].selector,
{
    let mut dispatch: Vec<Selector> = Vec::new();
    let mut i: usize = 0;
    while i < fields.len()
        invariant
            i as int <= fields@.len(),
            dispatch@.len() == i as int,
            forall|k: int|
                0 <= k < i as int ==> #[trigger] dispatch@[k]@ == descriptor_views(
                    fields@,
                )[k].selector,
        decreases fields@.len() - i,
    {
        dispatch.push(fields[i].selector.clone());
        proof {
            assert(descriptor_views(fields@)[i as int] == fields@[i as int]@);
        }
        i = i + 1;
    }
    dispatch
}

/// Builds the real accessor artifact from the ordered field list and the
/// validated element type signature.
pub fn generate_accessors(fields: &Vec<FieldDescriptor>, element_type: String) -> (a:
    GeneratedArtifact)
    requires
        fields@.len() > 0,
    ensures
        artifact_matches(a, descriptor_views(fields@), element_type@, false),
        a.wf(),
{
    let dispatch = build_dispatch(fields);
    let prefix = oob_prefix(dispatch.len());
    GeneratedArtifact { dispatch, element_type, oob_prefix: prefix, stubbed: false }
}

/// Builds the error-recovery stub emitted when validation failed, paired
/// with the diagnostics it accompanies: the same artifact shape, with the
/// element type falling back to the first field's signature so that
/// dependent code still type-checks, and accessors that always abort.
pub fn generate_recovery(fields: &Vec<FieldDescriptor>, diagnostics: Vec<Diagnostic>) -> (r: (
    GeneratedArtifact,
    Vec<Diagnostic>,
))
    requires
        fields@.len() > 0,
    ensures
        artifact_matches(r.0, descriptor_views(fields@), fields@[0].type_signature@, true),
        r.0.wf(),
        r.1 == diagnostics,
{
    let dispatch = build_dispatch(fields);
    let prefix = oob_prefix(dispatch.len());
    let element_type = fields[0].type_signature.clone();
    proof {
        assert(descriptor_views(fields@)[0] == fields@[0]@);
    }
    (GeneratedArtifact { dispatch, element_type, oob_prefix: prefix, stubbed: true }, diagnostics)
}

impl GeneratedArtifact {
    /// The artifact's internal invariant: the abort-message prefix is the
    /// one fixed at generation time from the dispatch table's length.
    pub open spec fn wf(&self) -> bool {
        self.oob_prefix@ == oob_prefix_spec(self.dispatch@.len())
    }

    /// The number of fields the accessors dispatch over.
    pub fn len(&self) -> (n: usize)
        ensures
            n == self.dispatch@.len(),
    {
        self.dispatch.len()
    }

    /// The generated indexed-read accessor, applied to one record value.
    ///
    /// `record` holds the record's field values in declaration order. A real
    /// artifact returns the field at `index` for every index below the field
    /// count, and otherwise aborts with exactly the out-of-bounds message
    /// naming the field count and the offending index; a stub aborts
    /// unconditionally. An abort is modeled as `Err` carrying the abort
    /// message.
    pub fn read<'a, V>(&self, record: &'a Vec<V>, index: usize) -> (r: Result<&'a V, String>)
        requires
            self.wf(),
            record@.len() == self.dispatch@.len(),
        ensures
            r is Ok <==> (!self.stubbed && (index as int) < record@.len()),
            match r {
                Ok(v) => *v == record@[index as int],
                Err(m) => m@ == if self.stubbed {
                    stub_message()
                } else {
                    oob_message_spec(record@.len(), index as nat)
                },
            },
    {
        if self.stubbed {
            Err(String::from_str("Unable to generate code due to previous errors"))
        } else if index < record.len() {
            Ok(&record[index])
        } else {
            let mut m = self.oob_prefix.clone();
            let digits = usize_to_string(index);
            m.append(digits.as_str());
            Err(m)
        }
    }

    /// The generated indexed-write accessor, applied to one record value:
    /// the in-place update that the exclusive reference it grants permits.
    ///
    /// Same domain and dispatch as `read`: a real artifact replaces the
    /// field at `index` for every index below the field count, and
    /// otherwise aborts with exactly the out-of-bounds message, leaving the
    /// record untouched; a stub aborts unconditionally.
    pub fn write<V>(&self, record: &mut Vec<V>, index: usize, value: V) -> (r: Result<(), String>)
        requires
            self.wf(),
            old(record)@.len() == self.dispatch@.len(),
        ensures
            r is Ok <==> (!self.stubbed && (index as int) < old(record)@.len()),
            match r {
                Ok(_) => final(record)@ == old(record)@.update(index as int, value),
                Err(m) => final(record)@ == old(record)@ && m@ == if self.stubbed {
                    stub_message()
                } else {
                    oob_message_spec(old(record)@.len(), index as nat)
                },
            },
    {
        if self.stubbed {
            Err(String::from_str("Unable to generate code due to previous errors"))
        } else if index < record.len() {
            record.set(index, value);
            Ok(())
        } else {
            let mut m = self.oob_prefix.clone();
            let digits = usize_to_string(index);
            m.append(digits.as_str());
            Err(m)
        }
    }
}

/// Writing a value through a valid index and then reading the same index
/// yields exactly the just-written value: `write` leaves the record with
/// `value` at `index` and every other field unchanged, and `read` returns
/// the field at `index`.
pub proof fn lemma_round_trip<V>(a: GeneratedArtifact, record: Seq<V>, index: int, value: V)
    requires
        !a.stubbed,
        record.len() == a.dispatch@.len(),
        0 <= index < record.len(),
    ensures
        record.update(index, value)[index] == value,
        record.update(index, value).len() == record.len(),
        forall|j: int|
            0 <= j < record.len() && j != index ==> record.update(index, value)[j] == record[j],
{
}

} // verus!
