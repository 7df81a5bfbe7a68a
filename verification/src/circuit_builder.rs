//! Rendering of the header and the implementation file of a circuit builder.
//!
//! The header declares the row type of a circuit and a class that lays a trace
//! out as polynomials and checks every relation, lookup and grand product on
//! it. Each renderer returns text; nothing here touches the file system.

use vstd::prelude::*;
use vstd::string::*;
use crate::columns::{columns_fit, constraints_fit};
use crate::file_writer::BBFiles;
use crate::relation_builder::{create_row_type, row_type_text};
use crate::utils::{
    decimal, decimal_text, get_relations_imports, joined, map_with_newline, map_with_separator,
    mapped, mapped_lines, relations_imports_text, snake_case, snake_case_text, to_uppercase,
    uppercase_of, views,
};

verus! {

/// Writes the two source files of a circuit builder.
pub trait CircuitBuilder {
    /// Writes the header for the circuit `name`. No constraint is to occur
    /// twice in its list and the lists of columns are to fit together: a
    /// header is written for no others.
    fn create_circuit_builder_hpp(
        &mut self,
        name: &str,
        relations: &[String],
        lookups: &[String],
        grand_products: &[String],
        all_cols_without_inverses: &[String],
        all_cols: &[String],
        to_be_shifted: &[String],
        all_cols_with_shifts: &[String],
    )
        requires
            constraints_fit(views(relations@), views(lookups@), views(grand_products@)),
            columns_fit(views(all_cols@), views(to_be_shifted@), views(all_cols_with_shifts@)),
    ;

    /// Writes the implementation file for the circuit `name`.
    fn create_circuit_builder_cpp(&mut self, name: &str, all_cols: &[String]);
}

/// The fixed head of the header: the guard and the library headers it needs,
/// up to the path of the flavor header.
pub const INCLUDES_HEAD: &'static str = "
    // AUTOGENERATED FILE
    #pragma once

    #include <vector>
#ifndef __wasm__
    #include <future>
#endif

    #include \"barretenberg/common/constexpr_utils.hpp\"
    #include \"barretenberg/common/throw_or_abort.hpp\"
    #include \"barretenberg/ecc/curves/bn254/fr.hpp\"
    #include \"barretenberg/stdlib_circuit_builders/circuit_builder_base.hpp\"
    #include \"barretenberg/relations/generic_permutation/generic_permutation_relation.hpp\"
    #include \"barretenberg/relations/generic_lookup/generic_lookup_relation.hpp\"
    #include \"barretenberg/honk/proof_system/logderivative_library.hpp\"
    #include \"barretenberg/plonk_honk_shared/library/grand_product_library.hpp\"
    
    #include \"barretenberg/vm/generated/";

/// The end of the line that imports the flavor header, and the indentation of
/// the relation imports.
pub const INCLUDES_FLAVOR: &'static str = "_flavor.hpp\"
    ";

/// The imports of a header; `name` is the circuit's name in snake case.
pub open spec fn circuit_hpp_includes_text(
    name: Seq<char>,
    relations: Seq<Seq<char>>,
    lookups: Seq<Seq<char>>,
    grand_products: Seq<Seq<char>>,
) -> Seq<char> {
    INCLUDES_HEAD@ + name + INCLUDES_FLAVOR@ + relations_imports_text(
        name,
        relations,
        lookups,
        grand_products,
    ) + "\n"@
}

/// Renders the imports of a header; `name` is the circuit's name in snake case.
pub fn circuit_hpp_includes(
    name: &str,
    relations: &[String],
    lookups: &[String],
    grand_products: &[String],
) -> (r: String)
    ensures
        r@ == circuit_hpp_includes_text(
            name@,
            views(relations@),
            views(lookups@),
            views(grand_products@),
        ),
{
    let relation_imports = get_relations_imports(name, relations, lookups, grand_products);
    let mut out = String::from_str(INCLUDES_HEAD);
    out.append(name);
    out.append(INCLUDES_FLAVOR);
    out.append(relation_imports.as_str());
    out.append("\n");
    out
}

/// The statements that draw the challenges `gamma` and `beta` and build the
/// relation parameters from them.
pub const PARAMS: &'static str = "
    const FF gamma = FF::random_element();
    const FF beta = FF::random_element();
    bb::RelationParameters<typename Flavor::FF> params{
        .eta = 0,
        .beta = beta,
        .gamma = gamma,
        .public_input_delta = 0,
        .lookup_grand_product_delta = 0,
        .beta_sqr = 0,
        .beta_cube = 0,
        .eccvm_set_permutation_delta = 0,
    };
    ";

/// The statements that set up the relation parameters of a check.
pub fn get_params() -> (r: &'static str)
    ensures
        r@ == PARAMS@,
{
    PARAMS
}

/// The evaluator of a lookup: it accumulates every row and fails if an
/// accumulator is not zero. The inverses of the logarithmic derivative are
/// computed before any evaluator runs.
pub const LOOKUP_CHECK_CLOSURE: &'static str = "
            const auto evaluate_logderivative = [&]<typename LogDerivativeSettings>(const std::string& lookup_name) {
                typename LogDerivativeSettings::SumcheckArrayOfValuesOverSubrelations
                    lookup_result;

                for (auto& r : lookup_result) {
                    r = 0;
                }
                for (size_t i = 0; i < num_rows; ++i) {
                    LogDerivativeSettings::accumulate(lookup_result, polys.get_row(i), params, 1);
                }
                for (auto r : lookup_result) {
                    if (r != 0) {
                        throw_or_abort(format(\"Lookup \", lookup_name, \" failed.\"));
                        return false;
                    }
                }
                return true;
            };
            ";

/// The evaluator of a relation: it accumulates row after row and fails at the
/// first row that leaves a subrelation that is not zero.
pub const RELATION_CHECK_CLOSURE: &'static str = "
            const auto evaluate_relation = [&]<typename Relation>(const std::string& relation_name,
                                                                    std::string (*debug_label)(int)) {
                typename Relation::SumcheckArrayOfValuesOverSubrelations result;
                for (auto& r : result) {
                    r = 0;
                }
                constexpr size_t NUM_SUBRELATIONS = result.size();
    
                for (size_t i = 0; i < num_rows; ++i) {
                    Relation::accumulate(result, polys.get_row(i), {}, 1);
    
                    bool x = true;
                    for (size_t j = 0; j < NUM_SUBRELATIONS; ++j) {
                        if (result[j] != 0) {
                            std::string row_name = debug_label(static_cast<int>(j));
                            throw_or_abort(
                                format(\"Relation \", relation_name, \", subrelation index \", row_name, \" failed at row \", i));
                            x = false;
                        }
                    }
                    if (!x) {
                        return false;
                    }
                }
                return true;
            };
    ";

/// The evaluator of a grand product: it accumulates every row and fails if
/// an accumulator is not zero. The running product is computed before any
/// evaluator runs.
pub const GRAND_PRODUCT_CHECK_CLOSURE: &'static str = "
        const auto evaluate_grand_product = [&]<typename GrandProductSettings>(const std::string& grand_product_name) {
            typename GrandProductSettings::SumcheckArrayOfValuesOverSubrelations grand_product_result;

            for (auto& r : grand_product_result) {
                r = 0;
            }
            for (size_t i = 0; i < num_rows; ++i) {
                GrandProductSettings::accumulate(grand_product_result, polys.get_row(i), params, 1);
            }
            for (auto r : grand_product_result) {
                if (r != 0) {
                    throw_or_abort(format(\"Copy \", grand_product_name, \" failed.\"));
                    return false;
                }
            }
            return true;
        };
    ";

/// The evaluator that every lookup of a circuit is checked with.
pub fn get_lookup_check_closure() -> (r: String)
    ensures
        r@ == LOOKUP_CHECK_CLOSURE@,
{
    String::from_str(LOOKUP_CHECK_CLOSURE)
}

/// The evaluator that every relation of a circuit is checked with.
pub fn get_relation_check_closure() -> (r: String)
    ensures
        r@ == RELATION_CHECK_CLOSURE@,
{
    String::from_str(RELATION_CHECK_CLOSURE)
}

/// The evaluator that every grand product of a circuit is checked with.
pub fn get_grand_product_check_closure() -> (r: String)
    ensures
        r@ == GRAND_PRODUCT_CHECK_CLOSURE@,
{
    String::from_str(GRAND_PRODUCT_CHECK_CLOSURE)
}

/// The statement that copies one column of row `i` into its polynomial.
pub open spec fn poly_assignment_text(column: Seq<char>) -> Seq<char> {
    "polys."@ + column + "[i] = rows[i]."@ + column + ";"@
}

/// Renders the statement that copies one column of row `i` into its polynomial.
pub fn poly_assignment(column: &str) -> (r: String)
    ensures
        r@ == poly_assignment_text(column@),
{
    let mut out = String::from_str("polys.");
    out.append(column);
    out.append("[i] = rows[i].");
    out.append(column);
    out.append(";");
    out
}

/// The statement that derives the shifted polynomial of one column.
pub open spec fn shift_assignment_text(column: Seq<char>) -> Seq<char> {
    "polys."@ + column + "_shift = static_cast<Polynomial>(polys."@ + column
        + ".shifted());"@
}

/// Renders the statement that derives the shifted polynomial of one column.
pub fn shift_assignment(column: &str) -> (r: String)
    ensures
        r@ == shift_assignment_text(column@),
{
    let mut out = String::from_str("polys.");
    out.append(column);
    out.append("_shift = static_cast<Polynomial>(polys.");
    out.append(column);
    out.append(".shifted());");
    out
}

/// The head of a check: the name it is bound to.
pub const CHECK_BINDING: &'static str = "auto ";

/// Between the name of a relation's check and the circuit's name.
pub const RELATION_CHECK_CALL: &'static str = " = [&]() {
                        return evaluate_relation.template operator()<";

/// The end of a relation's check.
pub const RELATION_CHECK_END: &'static str = ");
                    };
                    ";

/// The check of one relation of the circuit `name`: a call of the relation
/// evaluator with the relation's type, its name and its label function.
pub open spec fn relation_check_text(name: Seq<char>, relation: Seq<char>) -> Seq<char> {
    CHECK_BINDING@ + relation + RELATION_CHECK_CALL@ + name + "_vm::"@ + relation
        + "<FF>>(\""@ + relation + "\", "@ + name
        + "_vm::get_relation_label_"@ + relation + RELATION_CHECK_END@
}

/// Renders the check of one relation of the circuit `name`.
pub fn relation_check(name: &str, relation: &str) -> (r: String)
    ensures
        r@ == relation_check_text(name@, relation@),
{
    let mut out = String::from_str(CHECK_BINDING);
    out.append(relation);
    out.append(RELATION_CHECK_CALL);
    out.append(name);
    out.append("_vm::");
    out.append(relation);
    out.append("<FF>>(\"");
    out.append(relation);
    out.append("\", ");
    out.append(name);
    out.append("_vm::get_relation_label_");
    out.append(relation);
    out.append(RELATION_CHECK_END);
    out
}

/// Between the name of a lookup's check and the lookup's type.
pub const LOOKUP_CHECK_CALL: &'static str = " = [&]() {
                        return evaluate_logderivative.template operator()<";

/// Between the type of a lookup or grand product and its label.
pub const SETTINGS_CHECK_LABEL: &'static str = "_relation<FF>>(\"";

/// The end of the check of a lookup or grand product.
pub const SETTINGS_CHECK_END: &'static str = "\");
                    };
                    ";

/// The check of one lookup: a call of the lookup evaluator with the lookup's
/// type and `label`.
pub open spec fn lookup_check_text(lookup: Seq<char>, label: Seq<char>) -> Seq<char> {
    CHECK_BINDING@ + lookup + LOOKUP_CHECK_CALL@ + lookup + SETTINGS_CHECK_LABEL@ + label
        + SETTINGS_CHECK_END@
}

/// Renders the check of one lookup, which reports failures under `label`.
pub fn lookup_check(lookup: &str, label: &str) -> (r: String)
    ensures
        r@ == lookup_check_text(lookup@, label@),
{
    let mut out = String::from_str(CHECK_BINDING);
    out.append(lookup);
    out.append(LOOKUP_CHECK_CALL);
    out.append(lookup);
    out.append(SETTINGS_CHECK_LABEL);
    out.append(label);
    out.append(SETTINGS_CHECK_END);
    out
}

/// Between the name of a grand product's check and the grand product's type.
pub const GRAND_PRODUCT_CHECK_CALL: &'static str = " = [&]() {
                        return evaluate_grand_product.template operator()<";

/// The check of one grand product: a call of the grand-product evaluator with
/// the grand product's type and `label`.
pub open spec fn grand_product_check_text(grand_product: Seq<char>, label: Seq<char>) -> Seq<
    char,
> {
    CHECK_BINDING@ + grand_product + GRAND_PRODUCT_CHECK_CALL@ + grand_product
        + SETTINGS_CHECK_LABEL@ + label + SETTINGS_CHECK_END@
}

/// Renders the check of one grand product, which reports failures under `label`.
pub fn grand_product_check(grand_product: &str, label: &str) -> (r: String)
    ensures
        r@ == grand_product_check_text(grand_product@, label@),
{
    let mut out = String::from_str(CHECK_BINDING);
    out.append(grand_product);
    out.append(GRAND_PRODUCT_CHECK_CALL);
    out.append(grand_product);
    out.append(SETTINGS_CHECK_LABEL);
    out.append(label);
    out.append(SETTINGS_CHECK_END);
    out
}

/// The statement that starts one check as a task of its own.
pub open spec fn emplace_future_text(check: Seq<char>) -> Seq<char> {
    "
                    relation_futures.emplace_back(std::async(std::launch::async, "@ + check + "));
                "@
}

/// Renders the statement that starts one check as a task of its own.
pub fn emplace_future(check: &str) -> (r: String)
    ensures
        r@ == emplace_future_text(check@),
{
    let mut out = String::from_str("
                    relation_futures.emplace_back(std::async(std::launch::async, ");
    out.append(check);
    out.append("));
                ");
    out
}

/// The statement that runs one check in place and fails the whole check
/// where it fails.
pub open spec fn execute_serial_text(check: Seq<char>) -> Seq<char> {
    "
                    if (!"@ + check + "()) {
                        return false;
                    }
                "@
}

/// Renders the statement that runs one check in place and fails the whole
/// check where it fails.
pub fn execute_serial(check: &str) -> (r: String)
    ensures
        r@ == execute_serial_text(check@),
{
    let mut out = String::from_str("
                    if (!");
    out.append(check);
    out.append("()) {
                        return false;
                    }
                ");
    out
}

/// The statement that computes the inverses that one lookup needs.
pub open spec fn lookup_helper_text(lookup: Seq<char>) -> Seq<char> {
    "bb::compute_logderivative_inverse<Flavor, "@ + lookup + "_relation<FF>>(polys, params, num_rows);"@
}

/// Renders the statement that computes the inverses that one lookup needs.
pub fn lookup_helper(lookup: &str) -> (r: String)
    ensures
        r@ == lookup_helper_text(lookup@),
{
    let mut out = String::from_str("bb::compute_logderivative_inverse<Flavor, ");
    out.append(lookup);
    out.append("_relation<FF>>(polys, params, num_rows);");
    out
}

/// The statement that computes the running product of one grand product.
pub open spec fn grand_product_helper_text(grand_product: Seq<char>) -> Seq<char> {
    "bb::compute_grand_product<Flavor, "@ + grand_product + "_relation<FF>>(polys, params);"@
}

/// Renders the statement that computes the running product of one grand
/// product.
pub fn grand_product_helper(grand_product: &str) -> (r: String)
    ensures
        r@ == grand_product_helper_text(grand_product@),
{
    let mut out = String::from_str("bb::compute_grand_product<Flavor, ");
    out.append(grand_product);
    out.append("_relation<FF>>(polys, params);");
    out
}

/// The statements that compute the helper columns of all lookups and then of
/// all grand products. They stand before the evaluators, so that every helper
/// column is there before a check is run.
pub open spec fn helpers_text(lookups: Seq<Seq<char>>, grand_products: Seq<Seq<char>>) -> Seq<
    char,
> {
    mapped_lines(lookups, |lookup: Seq<char>| lookup_helper_text(lookup)) + BLOCK_GAP@
        + mapped_lines(
        grand_products,
        |grand_product: Seq<char>| grand_product_helper_text(grand_product),
    )
}

fn helpers(lookups: &[String], grand_products: &[String]) -> (r: String)
    ensures
        r@ == helpers_text(views(lookups@), views(grand_products@)),
{
    let lookup_transformation = |lookup: &String| -> (text: String)
        ensures
            text@ == lookup_helper_text(lookup@),
        { lookup_helper(lookup.as_str()) };
    let grand_product_transformation = |grand_product: &String| -> (text: String)
        ensures
            text@ == grand_product_helper_text(grand_product@),
        { grand_product_helper(grand_product.as_str()) };
    let mut out = map_with_newline(
        lookups,
        lookup_transformation,
        Ghost(|lookup: Seq<char>| lookup_helper_text(lookup)),
    );
    let grand_product_helpers = map_with_newline(
        grand_products,
        grand_product_transformation,
        Ghost(|grand_product: Seq<char>| grand_product_helper_text(grand_product)),
    );
    out.append(BLOCK_GAP);
    out.append(grand_product_helpers.as_str());
    out
}

/// The checks of all relations of the circuit `name`, one after another.
pub open spec fn relation_checks_text(name: Seq<char>, relations: Seq<Seq<char>>) -> Seq<char> {
    mapped_lines(relations, |relation: Seq<char>| relation_check_text(name, relation))
}

/// The checks of all lookups, each labelled with its name in capitals.
pub open spec fn lookup_checks_text(lookups: Seq<Seq<char>>) -> Seq<char> {
    mapped_lines(lookups, |lookup: Seq<char>| lookup_check_text(lookup, uppercase_of(lookup)))
}

/// The checks of all grand products, each labelled with its name in capitals.
pub open spec fn grand_product_checks_text(grand_products: Seq<Seq<char>>) -> Seq<char> {
    mapped_lines(
        grand_products,
        |grand_product: Seq<char>|
            grand_product_check_text(grand_product, uppercase_of(grand_product)),
    )
}

/// One task start for every check of `checks`.
pub open spec fn emplace_futures_text(checks: Seq<Seq<char>>) -> Seq<char> {
    mapped_lines(checks, |check: Seq<char>| emplace_future_text(check))
}

/// One call in place for every check of `checks`.
pub open spec fn serial_calls_text(checks: Seq<Seq<char>>) -> Seq<char> {
    mapped_lines(checks, |check: Seq<char>| execute_serial_text(check))
}

fn relation_checks(name: &str, relations: &[String]) -> (r: String)
    ensures
        r@ == relation_checks_text(name@, views(relations@)),
{
    let transformation = |relation: &String| -> (text: String)
        ensures
            text@ == relation_check_text(name@, relation@),
        { relation_check(name, relation.as_str()) };
    map_with_newline(
        relations,
        transformation,
        Ghost(|relation: Seq<char>| relation_check_text(name@, relation)),
    )
}

fn lookup_checks(lookups: &[String]) -> (r: String)
    ensures
        r@ == lookup_checks_text(views(lookups@)),
{
    let transformation = |lookup: &String| -> (text: String)
        ensures
            text@ == lookup_check_text(lookup@, uppercase_of(lookup@)),
        {
            let label = to_uppercase(lookup.as_str());
            lookup_check(lookup.as_str(), label.as_str())
        };
    map_with_newline(
        lookups,
        transformation,
        Ghost(|lookup: Seq<char>| lookup_check_text(lookup, uppercase_of(lookup))),
    )
}

fn grand_product_checks(grand_products: &[String]) -> (r: String)
    ensures
        r@ == grand_product_checks_text(views(grand_products@)),
{
    let transformation = |grand_product: &String| -> (text: String)
        ensures
            text@ == grand_product_check_text(grand_product@, uppercase_of(grand_product@)),
        {
            let label = to_uppercase(grand_product.as_str());
            grand_product_check(grand_product.as_str(), label.as_str())
        };
    map_with_newline(
        grand_products,
        transformation,
        Ghost(
            |grand_product: Seq<char>|
                grand_product_check_text(grand_product, uppercase_of(grand_product)),
        ),
    )
}

fn emplace_futures(checks: &[String]) -> (r: String)
    ensures
        r@ == emplace_futures_text(views(checks@)),
{
    let transformation = |check: &String| -> (text: String)
        ensures
            text@ == emplace_future_text(check@),
        { emplace_future(check.as_str()) };
    map_with_newline(checks, transformation, Ghost(|check: Seq<char>| emplace_future_text(check)))
}

fn serial_calls(checks: &[String]) -> (r: String)
    ensures
        r@ == serial_calls_text(views(checks@)),
{
    let transformation = |check: &String| -> (text: String)
        ensures
            text@ == execute_serial_text(check@),
        { execute_serial(check.as_str()) };
    map_with_newline(checks, transformation, Ghost(|check: Seq<char>| execute_serial_text(check)))
}

/// Opens the namespace that holds everything a header declares.
pub const NAMESPACE_OPEN: &'static str = "

namespace bb {

";

/// Ends the row type and starts the declaration of the operator that prints a row.
pub const STREAM_OPERATOR_HEAD: &'static str = ";

template <typename FF> std::ostream& operator<<(std::ostream& os, ";

/// The end of the declaration of the operator that prints a row.
pub const STREAM_OPERATOR_TAIL: &'static str = "FullRow<FF> const& row);

";

/// What a header holds before its class: the imports, the row type and the
/// declaration of the operator that prints a row.
pub open spec fn preamble_text(includes: Seq<char>, row_type: Seq<char>, name: Seq<char>) -> Seq<
    char,
> {
    "\n"@ + includes + NAMESPACE_OPEN@ + row_type + STREAM_OPERATOR_HEAD@ + name
        + STREAM_OPERATOR_TAIL@
}

fn preamble(includes: &str, row_type: &str, name: &str) -> (r: String)
    ensures
        r@ == preamble_text(includes@, row_type@, name@),
{
    let mut out = String::from_str("\n");
    out.append(includes);
    out.append(NAMESPACE_OPEN);
    out.append(row_type);
    out.append(STREAM_OPERATOR_HEAD);
    out.append(name);
    out.append(STREAM_OPERATOR_TAIL);
    out
}

/// Between the name of the class and the name of its flavor.
pub const CLASS_OPEN: &'static str = "CircuitBuilder {
    public:
        using Flavor = bb::";

/// Between the name of the flavor and the name of the row type.
pub const CLASS_ALIASES: &'static str = "Flavor;
        using FF = Flavor::FF;
        using Row = ";

/// The remaining type aliases, up to the number of columns.
pub const CLASS_COLUMN_COUNT: &'static str = "FullRow<FF>;

        // TODO: template
        using Polynomial = Flavor::Polynomial;
        using ProverPolynomials = Flavor::ProverPolynomials;

        static constexpr size_t num_fixed_columns = ";

/// Between the number of columns and the number of polynomials.
pub const CLASS_POLYNOMIAL_COUNT: &'static str = ";
        static constexpr size_t num_polys = ";

/// The rows of the trace and the method that sets them.
pub const CLASS_ROWS: &'static str = ";
        std::vector<Row> rows;

        void set_trace(std::vector<Row>&& trace) { rows = std::move(trace); }

";

/// The head of the class of the circuit `name`: its type aliases, its two
/// counts, the rows it holds and the method that sets them.
pub open spec fn class_head_text(name: Seq<char>, num_cols: Seq<char>, num_polys: Seq<char>) -> Seq<
    char,
> {
    "class "@ + name + CLASS_OPEN@ + name + CLASS_ALIASES@ + name + CLASS_COLUMN_COUNT@ + num_cols
        + CLASS_POLYNOMIAL_COUNT@ + num_polys + CLASS_ROWS@
}

fn class_head(name: &str, num_cols: &str, num_polys: &str) -> (r: String)
    ensures
        r@ == class_head_text(name@, num_cols@, num_polys@),
{
    let mut out = String::from_str("class ");
    out.append(name);
    out.append(CLASS_OPEN);
    out.append(name);
    out.append(CLASS_ALIASES);
    out.append(name);
    out.append(CLASS_COLUMN_COUNT);
    out.append(num_cols);
    out.append(CLASS_POLYNOMIAL_COUNT);
    out.append(num_polys);
    out.append(CLASS_ROWS);
    out
}

/// The head of the method that computes the polynomials: it sizes every
/// polynomial to the domain and opens the loop over the rows.
pub const COMPUTE_POLYNOMIALS_HEAD: &'static str = "        ProverPolynomials compute_polynomials() {
            const auto num_rows = get_circuit_subgroup_size();
            ProverPolynomials polys;

            // Allocate mem for each column
            for (auto& poly : polys.get_all()) {
                poly = Polynomial(num_rows);
            }

            for (size_t i = 0; i < rows.size(); i++) {
                ";

/// Closes the loop over the rows.
pub const COMPUTE_POLYNOMIALS_SHIFTS: &'static str = "
            }

            ";

/// Returns the polynomials and closes the method.
pub const COMPUTE_POLYNOMIALS_TAIL: &'static str = "

            return polys;
        }

";

/// The method that computes the polynomials of a trace: one copy for each
/// column inside the loop over the rows, then one statement for each shift.
pub open spec fn compute_polynomials_text(
    all_cols_without_inverses: Seq<Seq<char>>,
    to_be_shifted: Seq<Seq<char>>,
) -> Seq<char> {
    COMPUTE_POLYNOMIALS_HEAD@ + mapped_lines(
        all_cols_without_inverses,
        |column: Seq<char>| poly_assignment_text(column),
    ) + COMPUTE_POLYNOMIALS_SHIFTS@ + mapped_lines(
        to_be_shifted,
        |column: Seq<char>| shift_assignment_text(column),
    ) + COMPUTE_POLYNOMIALS_TAIL@
}

fn compute_polynomials_method(all_cols_without_inverses: &[String], to_be_shifted: &[String]) -> (r:
    String)
    ensures
        r@ == compute_polynomials_text(views(all_cols_without_inverses@), views(to_be_shifted@)),
{
    let compute_polys_transformation = |column: &String| -> (text: String)
        ensures
            text@ == poly_assignment_text(column@),
        { poly_assignment(column.as_str()) };
    let all_polys_transformation = |column: &String| -> (text: String)
        ensures
            text@ == shift_assignment_text(column@),
        { shift_assignment(column.as_str()) };
    let compute_polys_assignment = map_with_newline(
        all_cols_without_inverses,
        compute_polys_transformation,
        Ghost(|column: Seq<char>| poly_assignment_text(column)),
    );
    let all_poly_shifts = map_with_newline(
        to_be_shifted,
        all_polys_transformation,
        Ghost(|column: Seq<char>| shift_assignment_text(column)),
    );
    let mut out = String::from_str(COMPUTE_POLYNOMIALS_HEAD);
    out.append(compute_polys_assignment.as_str());
    out.append(COMPUTE_POLYNOMIALS_SHIFTS);
    out.append(all_poly_shifts.as_str());
    out.append(COMPUTE_POLYNOMIALS_TAIL);
    out
}

/// The head of the method that checks the circuit.
pub const CHECK_CIRCUIT_HEAD: &'static str = "        [[maybe_unused]] bool check_circuit()
        {
            ";

/// The statements that compute the polynomials and read their size.
pub const CHECK_CIRCUIT_POLYNOMIALS: &'static str = "

            auto polys = compute_polynomials();
            const size_t num_rows = polys.get_polynomial_size();
    
            ";

/// The gap between two blocks of the method that checks the circuit.
pub const BLOCK_GAP: &'static str = "\n\n            ";

/// The gap between two runs of statements.
pub const LINE_GAP: &'static str = "\n            ";

/// Opens the part that runs the checks as tasks, where threads are to be had.
pub const FUTURES_HEAD: &'static str = "

#ifndef __wasm__

            // Evaluate check circuit closures as futures
            std::vector<std::future<bool>> relation_futures;

            ";

/// Waits for the tasks, and opens the part that runs the checks in place.
pub const FUTURES_TAIL: &'static str = "


            // Wait for lookup evaluations to complete
            for (auto& future : relation_futures) {
                int result = future.get();
                if (!result) {
                    return false;
                }
            }
#else
            ";

/// Closes the method that checks the circuit.
pub const CHECK_CIRCUIT_TAIL: &'static str = "

#endif

            return true;
        }
";

/// The parameters of a check: present only where a lookup or a grand product
/// needs them.
pub open spec fn params_text(lookups: Seq<Seq<char>>, grand_products: Seq<Seq<char>>) -> Seq<char> {
    if lookups.len() == 0 && grand_products.len() == 0 {
        Seq::empty()
    } else {
        PARAMS@
    }
}

/// An evaluator, present only where there is something for it to check.
pub open spec fn closure_text(closure: Seq<char>, checked: Seq<Seq<char>>) -> Seq<char> {
    if checked.len() == 0 {
        Seq::empty()
    } else {
        closure
    }
}

/// The evaluators of a circuit and the checks that call them.
pub open spec fn evaluators_text(
    name: Seq<char>,
    relations: Seq<Seq<char>>,
    lookups: Seq<Seq<char>>,
    grand_products: Seq<Seq<char>>,
) -> Seq<char> {
    closure_text(RELATION_CHECK_CLOSURE@, relations) + BLOCK_GAP@ + closure_text(
        LOOKUP_CHECK_CLOSURE@,
        lookups,
    ) + BLOCK_GAP@ + closure_text(GRAND_PRODUCT_CHECK_CLOSURE@, grand_products) + BLOCK_GAP@
        + relation_checks_text(name, relations) + BLOCK_GAP@ + lookup_checks_text(lookups)
        + BLOCK_GAP@ + grand_product_checks_text(grand_products)
}

/// How the checks are run: as tasks that are all waited for, or, where there
/// are no threads, in place and in the order of their declaration, up to the
/// first that fails.
pub open spec fn dispatch_text(
    relations: Seq<Seq<char>>,
    lookups: Seq<Seq<char>>,
    grand_products: Seq<Seq<char>>,
) -> Seq<char> {
    FUTURES_HEAD@ + emplace_futures_text(relations) + LINE_GAP@ + emplace_futures_text(lookups)
        + LINE_GAP@ + emplace_futures_text(grand_products) + FUTURES_TAIL@ + serial_calls_text(
        relations,
    ) + LINE_GAP@ + serial_calls_text(lookups) + LINE_GAP@ + serial_calls_text(grand_products)
}

/// The method that checks the circuit: the parameters, the polynomials, the
/// helper columns, the evaluators, one check for each relation, lookup and
/// grand product, and the two ways to run them.
pub open spec fn check_circuit_text(
    name: Seq<char>,
    relations: Seq<Seq<char>>,
    lookups: Seq<Seq<char>>,
    grand_products: Seq<Seq<char>>,
) -> Seq<char> {
    CHECK_CIRCUIT_HEAD@ + params_text(lookups, grand_products) + CHECK_CIRCUIT_POLYNOMIALS@
        + helpers_text(lookups, grand_products) + BLOCK_GAP@ + evaluators_text(
        name,
        relations,
        lookups,
        grand_products,
    ) + dispatch_text(
        relations,
        lookups,
        grand_products,
    ) + CHECK_CIRCUIT_TAIL@
}

fn evaluators(name: &str, relations: &[String], lookups: &[String], grand_products: &[String]) -> (r:
    String)
    ensures
        r@ == evaluators_text(
            name@,
            views(relations@),
            views(lookups@),
            views(grand_products@),
        ),
{
    let relation_check_closure = if !relations.is_empty() {
        get_relation_check_closure()
    } else {
        String::new()
    };
    let lookup_check_closure = if !lookups.is_empty() {
        get_lookup_check_closure()
    } else {
        String::new()
    };
    let grand_product_check_closure = if !grand_products.is_empty() {
        get_grand_product_check_closure()
    } else {
        String::new()
    };
    let check_circuit_for_each_relation = relation_checks(name, relations);
    let check_circuit_for_each_lookup = lookup_checks(lookups);
    let check_circuit_for_each_grand_product = grand_product_checks(grand_products);
    let mut out = relation_check_closure;
    out.append(BLOCK_GAP);
    out.append(lookup_check_closure.as_str());
    out.append(BLOCK_GAP);
    out.append(grand_product_check_closure.as_str());
    out.append(BLOCK_GAP);
    out.append(check_circuit_for_each_relation.as_str());
    out.append(BLOCK_GAP);
    out.append(check_circuit_for_each_lookup.as_str());
    out.append(BLOCK_GAP);
    out.append(check_circuit_for_each_grand_product.as_str());
    out
}

fn dispatch(relations: &[String], lookups: &[String], grand_products: &[String]) -> (r: String)
    ensures
        r@ == dispatch_text(views(relations@), views(lookups@), views(grand_products@)),
{
    let emplace_future_relations = emplace_futures(relations);
    let emplace_future_lookups = emplace_futures(lookups);
    let emplace_future_grand_products = emplace_futures(grand_products);
    let serial_relations = serial_calls(relations);
    let serial_lookups = serial_calls(lookups);
    let serial_grand_products = serial_calls(grand_products);
    let mut out = String::from_str(FUTURES_HEAD);
    out.append(emplace_future_relations.as_str());
    out.append(LINE_GAP);
    out.append(emplace_future_lookups.as_str());
    out.append(LINE_GAP);
    out.append(emplace_future_grand_products.as_str());
    out.append(FUTURES_TAIL);
    out.append(serial_relations.as_str());
    out.append(LINE_GAP);
    out.append(serial_lookups.as_str());
    out.append(LINE_GAP);
    out.append(serial_grand_products.as_str());
    out
}

fn check_circuit_method(
    name: &str,
    relations: &[String],
    lookups: &[String],
    grand_products: &[String],
) -> (r: String)
    ensures
        r@ == check_circuit_text(
            name@,
            views(relations@),
            views(lookups@),
            views(grand_products@),
        ),
{
    let params = if !(lookups.is_empty() && grand_products.is_empty()) {
        get_params()
    } else {
        ""
    };
    proof {
        reveal_strlit("");
        assert(""@ =~= Seq::<char>::empty());
    }
    let helpers = helpers(lookups, grand_products);
    let evaluators = evaluators(name, relations, lookups, grand_products);
    let dispatch = dispatch(relations, lookups, grand_products);
    let mut out = String::from_str(CHECK_CIRCUIT_HEAD);
    out.append(params);
    out.append(CHECK_CIRCUIT_POLYNOMIALS);
    out.append(helpers.as_str());
    out.append(BLOCK_GAP);
    out.append(evaluators.as_str());
    out.append(dispatch.as_str());
    out.append(CHECK_CIRCUIT_TAIL);
    out
}

/// The methods that give the number of rows and the size of the domain, and
/// the end of the class and of the namespace. The size of the domain is the
/// smallest power of two that holds the rows, and one where there is no row.
pub const CLASS_TAIL: &'static str = "    

        [[nodiscard]] size_t get_num_gates() const { return rows.size(); }

        [[nodiscard]] size_t get_circuit_subgroup_size() const
        {
            const size_t num_rows = get_num_gates();
            if (num_rows == 0) {
                return 1;
            }
            const auto num_rows_log2 = static_cast<size_t>(numeric::get_msb64(num_rows));
            size_t num_rows_pow2 = 1UL << (num_rows_log2 + (1UL << num_rows_log2 == num_rows ? 0 : 1));
            return num_rows_pow2;
        }


};
}
        ";

/// The whole header of the circuit `name`.
///
/// `all_cols_without_inverses` are the columns that are copied from the rows,
/// `all_cols` those that have a polynomial, `to_be_shifted` those that have a
/// shifted polynomial as well, and `all_cols_with_shifts` the fields of a row.
pub open spec fn circuit_builder_hpp_text(
    name: Seq<char>,
    relations: Seq<Seq<char>>,
    lookups: Seq<Seq<char>>,
    grand_products: Seq<Seq<char>>,
    all_cols_without_inverses: Seq<Seq<char>>,
    all_cols: Seq<Seq<char>>,
    to_be_shifted: Seq<Seq<char>>,
    all_cols_with_shifts: Seq<Seq<char>>,
) -> Seq<char> {
    preamble_text(
        circuit_hpp_includes_text(snake_case_text(name), relations, lookups, grand_products),
        row_type_text(name + "Full"@, all_cols_with_shifts),
        name,
    ) + class_head_text(
        name,
        decimal_text(all_cols.len() + to_be_shifted.len()),
        decimal_text(all_cols.len()),
    ) + compute_polynomials_text(all_cols_without_inverses, to_be_shifted) + check_circuit_text(
        name,
        relations,
        lookups,
        grand_products,
    ) + CLASS_TAIL@
}

/// Renders the header of the circuit `name`. No constraint is to occur twice
/// in its list and the lists of columns are to fit together: a header is
/// rendered for no others.
pub fn circuit_builder_hpp(
    name: &str,
    relations: &[String],
    lookups: &[String],
    grand_products: &[String],
    all_cols_without_inverses: &[String],
    all_cols: &[String],
    to_be_shifted: &[String],
    all_cols_with_shifts: &[String],
) -> (r: String)
    requires
        constraints_fit(views(relations@), views(lookups@), views(grand_products@)),
        columns_fit(views(all_cols@), views(to_be_shifted@), views(all_cols_with_shifts@)),
    ensures
        r@ == circuit_builder_hpp_text(
            name@,
            views(relations@),
            views(lookups@),
            views(grand_products@),
            views(all_cols_without_inverses@),
            views(all_cols@),
            views(to_be_shifted@),
            views(all_cols_with_shifts@),
        ),
{
    let snake_name = snake_case(name);
    let includes = circuit_hpp_includes(snake_name.as_str(), relations, lookups, grand_products);
    let mut row_name = String::from_str(name);
    row_name.append("Full");
    let row_with_all_included = create_row_type(row_name.as_str(), all_cols_with_shifts);
    let num_polys = all_cols.len() as u128;
    let num_cols = all_cols.len() as u128 + to_be_shifted.len() as u128;
    let preamble = preamble(includes.as_str(), row_with_all_included.as_str(), name);
    let class_head = class_head(name, decimal(num_cols).as_str(), decimal(num_polys).as_str());
    let compute_polynomials = compute_polynomials_method(all_cols_without_inverses, to_be_shifted);
    let check_circuit = check_circuit_method(name, relations, lookups, grand_products);
    let mut out = preamble;
    out.append(class_head.as_str());
    out.append(compute_polynomials.as_str());
    out.append(check_circuit.as_str());
    out.append(CLASS_TAIL);
    out
}

/// The name of the header of the circuit `name`.
pub open spec fn hpp_file_name_text(name: Seq<char>) -> Seq<char> {
    snake_case_text(name) + "_circuit_builder.hpp"@
}

/// The name of the implementation file of the circuit `name`.
pub open spec fn cpp_file_name_text(name: Seq<char>) -> Seq<char> {
    snake_case_text(name) + "_circuit_builder.cpp"@
}

/// One entry of the list of column names.
pub open spec fn name_entry_text(column: Seq<char>) -> Seq<char> {
    "\""@ + column + "\""@
}

/// Renders one entry of the list of column names.
pub fn name_entry(column: &str) -> (r: String)
    ensures
        r@ == name_entry_text(column@),
{
    let mut out = String::from_str("\"");
    out.append(column);
    out.append("\"");
    out
}

/// The piece that prints one field of a row.
pub open spec fn stream_entry_text(column: Seq<char>) -> Seq<char> {
    "<< field_to_string(row."@ + column + ")"@
}

/// Renders the piece that prints one field of a row.
pub fn stream_entry(column: &str) -> (r: String)
    ensures
        r@ == stream_entry_text(column@),
{
    let mut out = String::from_str("<< field_to_string(row.");
    out.append(column);
    out.append(")");
    out
}

/// Opens the import of the header.
pub const CPP_IMPORT: &'static str = "
#include \"barretenberg/vm/generated/";

/// The end of the import, and the helper that prints one field element.
pub const CPP_FIELD_TO_STRING: &'static str = "_circuit_builder.hpp\"

namespace bb {
namespace {

template <typename FF> std::string field_to_string(const FF& ff)
{
    std::ostringstream os;
    os << ff;
    std::string raw = os.str();
    auto first_not_zero = raw.find_first_not_of('0', 2);
    std::string result = \"0x\" + (first_not_zero != std::string::npos ? raw.substr(first_not_zero) : \"0\");
    return result;
}

} // namespace

template <typename FF> std::vector<std::string> ";

/// What stands between two entries of the list of column names.
pub const CPP_NAMES_SEPARATOR: &'static str = ",
        ";

/// What stands between the pieces that print two neighbouring fields: the
/// piece that prints a comma.
pub const CPP_STREAM_SEPARATOR: &'static str = " << \",\"
              ";

/// Opens the list of column names.
pub const CPP_NAMES_OPEN: &'static str = "FullRow<FF>::names() {
    return {
        ";

/// Closes the list of column names behind its last entry and starts the
/// operator that prints a row.
pub const CPP_NAMES_CLOSE: &'static str = "
    };
}

template <typename FF> std::ostream& operator<<(std::ostream& os, ";

/// Opens the body of the operator that prints a row.
pub const CPP_STREAM_OPEN: &'static str = "FullRow<FF> const& row) {
    return os ";

/// Closes the operator that prints a row behind its last field and starts
/// the instantiations.
pub const CPP_STREAM_CLOSE: &'static str = ";
}

// Explicit template instantiation.
template std::ostream& operator<<(std::ostream& os, ";

/// Between the row type and the flavor whose field instantiates it.
pub const CPP_ROW_OF_FLAVOR: &'static str = "FullRow<bb::";

/// Between the two instantiations.
pub const CPP_INSTANTIATE_NAMES: &'static str = "Flavor::FF> const& row);
template std::vector<std::string> ";

/// The end of the implementation file.
pub const CPP_TAIL: &'static str = "Flavor::FF>::names();

} // namespace bb";

/// The entries of the list of column names: one for each column, in the
/// order of the columns, and nothing else.
pub open spec fn names_list_text(all_cols: Seq<Seq<char>>) -> Seq<char> {
    joined(mapped(all_cols, |column: Seq<char>| name_entry_text(column)), CPP_NAMES_SEPARATOR@)
}

/// What the operator that prints a row sends to the stream: the fields in
/// the order of the columns, with a comma between each two neighbours.
pub open spec fn stream_list_text(all_cols: Seq<Seq<char>>) -> Seq<char> {
    joined(mapped(all_cols, |column: Seq<char>| stream_entry_text(column)), CPP_STREAM_SEPARATOR@)
}

/// The whole implementation file of the circuit `name`: the list of the names
/// of `all_cols`, and the operator that prints the fields of a row in that
/// order, joined by commas.
pub open spec fn circuit_builder_cpp_text(name: Seq<char>, all_cols: Seq<Seq<char>>) -> Seq<char> {
    CPP_IMPORT@ + snake_case_text(name) + CPP_FIELD_TO_STRING@ + name + CPP_NAMES_OPEN@
        + names_list_text(all_cols) + CPP_NAMES_CLOSE@ + name + CPP_STREAM_OPEN@
        + stream_list_text(all_cols) + CPP_STREAM_CLOSE@ + name + CPP_ROW_OF_FLAVOR@ + name + CPP_INSTANTIATE_NAMES@ + name
        + CPP_ROW_OF_FLAVOR@ + name + CPP_TAIL@
}

/// Renders the implementation file of the circuit `name`.
pub fn circuit_builder_cpp(name: &str, all_cols: &[String]) -> (r: String)
    ensures
        r@ == circuit_builder_cpp_text(name@, views(all_cols@)),
{
    let names_transformation = |column: &String| -> (text: String)
        ensures
            text@ == name_entry_text(column@),
        { name_entry(column.as_str()) };
    let stream_transformation = |column: &String| -> (text: String)
        ensures
            text@ == stream_entry_text(column@),
        { stream_entry(column.as_str()) };
    let names_list = map_with_separator(
        all_cols,
        names_transformation,
        CPP_NAMES_SEPARATOR,
        Ghost(|column: Seq<char>| name_entry_text(column)),
    );
    let stream_all_relations = map_with_separator(
        all_cols,
        stream_transformation,
        CPP_STREAM_SEPARATOR,
        Ghost(|column: Seq<char>| stream_entry_text(column)),
    );
    let snake_name = snake_case(name);
    let mut out = String::from_str(CPP_IMPORT);
    out.append(snake_name.as_str());
    out.append(CPP_FIELD_TO_STRING);
    out.append(name);
    out.append(CPP_NAMES_OPEN);
    out.append(names_list.as_str());
    out.append(CPP_NAMES_CLOSE);
    out.append(name);
    out.append(CPP_STREAM_OPEN);
    out.append(stream_all_relations.as_str());
    out.append(CPP_STREAM_CLOSE);
    out.append(name);
    out.append(CPP_ROW_OF_FLAVOR);
    out.append(name);
    out.append(CPP_INSTANTIATE_NAMES);
    out.append(name);
    out.append(CPP_ROW_OF_FLAVOR);
    out.append(name);
    out.append(CPP_TAIL);
    out
}

impl CircuitBuilder for BBFiles {
    /// Renders the header of the circuit `name` and writes it into the
    /// folder of circuit files.
    fn create_circuit_builder_hpp(
        &mut self,
        name: &str,
        relations: &[String],
        lookups: &[String],
        grand_products: &[String],
        all_cols_without_inverses: &[String],
        all_cols: &[String],
        to_be_shifted: &[String],
        all_cols_with_shifts: &[String],
    )
        ensures
            final(self).circuit@ == old(self).circuit@,
            final(self).written() == old(self).written().push(
                (
                    old(self).circuit@,
                    hpp_file_name_text(name@),
                    circuit_builder_hpp_text(
                        name@,
                        views(relations@),
                        views(lookups@),
                        views(grand_products@),
                        views(all_cols_without_inverses@),
                        views(all_cols@),
                        views(to_be_shifted@),
                        views(all_cols_with_shifts@),
                    ),
                ),
            ),
    {
        let circuit_hpp = circuit_builder_hpp(
            name,
            relations,
            lookups,
            grand_products,
            all_cols_without_inverses,
            all_cols,
            to_be_shifted,
            all_cols_with_shifts,
        );
        let mut file_name = snake_case(name);
        file_name.append("_circuit_builder.hpp");
        let folder = self.circuit.clone();
        self.write_file(folder.as_str(), file_name.as_str(), &circuit_hpp);
    }

    /// Renders the implementation file of the circuit `name` and writes it
    /// into the folder of circuit files.
    fn create_circuit_builder_cpp(&mut self, name: &str, all_cols: &[String])
        ensures
            final(self).circuit@ == old(self).circuit@,
            final(self).written() == old(self).written().push(
                (
                    old(self).circuit@,
                    cpp_file_name_text(name@),
                    circuit_builder_cpp_text(name@, views(all_cols@)),
                ),
            ),
    {
        let circuit_cpp = circuit_builder_cpp(name, all_cols);
        let mut file_name = snake_case(name);
        file_name.append("_circuit_builder.cpp");
        let folder = self.circuit.clone();
        self.write_file(folder.as_str(), file_name.as_str(), &circuit_cpp);
    }
}

} // verus!
