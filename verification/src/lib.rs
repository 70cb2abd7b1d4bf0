//! Accessor generation for record types: given the structural description of a
//! struct-like record (an ordered list of fields, each with a name or position
//! and the written form of its type), this library validates that every field
//! shares one type signature and builds a position-indexed accessor pair, so
//! that the record's fields can be read and written by integer index in
//! declaration order.
//!
//! The pipeline is a pure function: schema extraction, homogeneity validation,
//! then either real accessor generation or, when validation fails, a stub
//! artifact that keeps dependent code compiling while every offending field is
//! reported. Rendering the artifact back into host-language source, and
//! parsing raw source into a record description, are left to unverified glue
//! around this library.

pub mod artifact;
pub mod schema;
pub mod text;
pub mod validate;

use vstd::prelude::*;

use crate::artifact::GeneratedArtifact;
use crate::artifact::artifact_matches;
use crate::artifact::generate_accessors;
use crate::artifact::generate_recovery;
use crate::schema::RecordDescription;
use crate::schema::StructuralError;
use crate::schema::extract_schema;
use crate::schema::field_views;
use crate::schema::rejected_shape;
use crate::validate::Diagnostic;
use crate::validate::ValidationOutcome;
use crate::validate::descriptor_views;
use crate::validate::diagnostic_views;
use crate::validate::diagnostics_match;
use crate::validate::homogeneous;
use crate::validate::validate;

verus! {

/// One invocation's outcome: real accessors, or the stub artifact together
/// with the homogeneity diagnostics the caller must emit alongside it.
pub enum GenerationResult {
    Accessors(GeneratedArtifact),
    Stubbed(GeneratedArtifact, Vec<Diagnostic>),
}

/// The whole transformation, one pass: schema extraction, homogeneity
/// validation, then exactly one of accessor generation and error recovery.
///
/// - A degenerate shape — a unit record, or a record with zero fields — is a
///   hard failure: no artifact and no diagnostics.
/// - A homogeneous field list yields real accessors over the shared element
///   type, dispatching each index to the field declared at that position.
/// - Any type-signature mismatch yields the stub artifact plus one
///   diagnostic per mismatching field, all reported together.
///
/// The transformation is a pure function of the record description: no state
/// survives an invocation.
pub fn named_array(record: &RecordDescription) -> (r: Result<GenerationResult, StructuralError>)
    ensures
        r is Err <==> rejected_shape(record.fields),
        match r {
            Ok(g) => match g {
                GenerationResult::Accessors(a) => {
                    &&& homogeneous(field_views(record.fields))
                    &&& artifact_matches(
                        a,
                        field_views(record.fields),
                        field_views(record.fields)[0].type_signature,
                        false,
                    )
                    &&& a.wf()
                },
                GenerationResult::Stubbed(a, ds) => {
                    &&& !homogeneous(field_views(record.fields))
                    &&& artifact_matches(
                        a,
                        field_views(record.fields),
                        field_views(record.fields)[0].type_signature,
                        true,
                    )
                    &&& a.wf()
                    &&& ds@.len() > 0
                    &&& diagnostics_match(field_views(record.fields), diagnostic_views(ds@))
                },
            },
            Err(e) => e is UnitShape <==> record.fields is Unit,
        },
{
    let fields = match extract_schema(record) {
        Ok(fields) => fields,
        Err(e) => {
            return Err(e);
        },
    };
    proof {
        assert(descriptor_views(fields@) =~= field_views(record.fields));
    }
    match validate(&fields) {
        ValidationOutcome::Valid(element_type) => {
            proof {
                assert(fields@[0]@ == field_views(record.fields)[0]);
            }
            Ok(GenerationResult::Accessors(generate_accessors(&fields, element_type)))
        },
        ValidationOutcome::Invalid(diagnostics) => {
            proof {
                assert(fields@[0]@ == field_views(record.fields)[0]);
            }
            let (stub, diagnostics) = generate_recovery(&fields, diagnostics);
            Ok(GenerationResult::Stubbed(stub, diagnostics))
        },
    }
}

} // verus!
