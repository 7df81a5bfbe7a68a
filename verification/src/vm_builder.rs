//! From a constraint specification to the files of its circuit builder.

use vstd::prelude::*;
use vstd::string::*;
use crate::circuit_builder::{
    circuit_builder_cpp_text, circuit_builder_hpp_text, cpp_file_name_text, hpp_file_name_text,
    CircuitBuilder,
};
use crate::columns::{
    first_fault, lemma_column_set_fits, well_formed, ColumnSet, ConstraintSpecification,
    SchemaError,
};
use crate::file_writer::BBFiles;
use crate::utils::views;

verus! {

/// The header of a specification with the column sets `set`: every column of
/// `all_columns` is copied from the rows and has a polynomial, and a row has
/// the fields `all_columns_with_shifts`.
pub open spec fn header_text(spec: &ConstraintSpecification, set: &ColumnSet) -> Seq<char> {
    circuit_builder_hpp_text(
        spec.name@,
        views(spec.relations@),
        views(spec.lookups@),
        views(spec.grand_products@),
        views(set.all_columns@),
        views(set.all_columns@),
        views(set.to_be_shifted@),
        views(set.all_columns_with_shifts@),
    )
}

/// The implementation file of a specification with the column sets `set`: it
/// names and prints the columns of `all_columns`.
pub open spec fn implementation_text(spec: &ConstraintSpecification, set: &ColumnSet) -> Seq<char> {
    circuit_builder_cpp_text(spec.name@, views(set.all_columns@))
}

/// Renders the circuit builder of a specification into `files`: first the
/// header, then the implementation file, both in the folder for circuit
/// files. A specification with a fault is reported, and nothing is written.
pub fn generate(spec: &ConstraintSpecification, files: &mut BBFiles) -> (result: Result<
    ColumnSet,
    SchemaError,
>)
    ensures
        final(files).circuit@ == old(files).circuit@,
        result is Ok <==> well_formed(spec),
        match result {
            Ok(set) => {
                &&& set.wf()
                &&& set.derived_from(spec.columns@)
                &&& final(files).written() == old(files).written().push(
                    (old(files).circuit@, hpp_file_name_text(spec.name@), header_text(spec, &set)),
                ).push(
                    (
                        old(files).circuit@,
                        cpp_file_name_text(spec.name@),
                        implementation_text(spec, &set),
                    ),
                )
            },
            Err(error) => first_fault(spec, error@) && final(files).written() == old(
                files,
            ).written(),
        },
{
    match ColumnSet::derive(spec) {
        Err(error) => Err(error),
        Ok(set) => {
            proof {
                lemma_column_set_fits(set);
            }
            files.create_circuit_builder_hpp(
                spec.name.as_str(),
                spec.relations.as_slice(),
                spec.lookups.as_slice(),
                spec.grand_products.as_slice(),
                set.all_columns.as_slice(),
                set.all_columns.as_slice(),
                set.to_be_shifted.as_slice(),
                set.all_columns_with_shifts.as_slice(),
            );
            files.create_circuit_builder_cpp(spec.name.as_str(), set.all_columns.as_slice());
            Ok(set)
        },
    }
}

} // verus!
