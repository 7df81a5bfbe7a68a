use bb_pil_backend::circuit_builder::{
    circuit_builder_cpp, circuit_builder_hpp, circuit_hpp_includes, emplace_future,
    execute_serial, get_grand_product_check_closure, get_lookup_check_closure, get_params,
    get_relation_check_closure, grand_product_check, grand_product_helper, lookup_check,
    lookup_helper, name_entry, poly_assignment, relation_check, shift_assignment, stream_entry,
    CircuitBuilder,
};
use bb_pil_backend::file_writer::BBFiles;
use bb_pil_backend::relation_builder::{create_row_type, row_field};

fn strings(items: &[&str]) -> Vec<String> {
    items.iter().map(|item| item.to_string()).collect()
}

#[test]
fn header_of_a_circuit_with_every_kind_of_constraint() {
    let text = circuit_builder_hpp(
        "AvmMini",
        &strings(&["avm_mini", "avm_alu"]),
        &strings(&["lookup_byte"]),
        &strings(&["perm_main", "perm_aux"]),
        &strings(&["a", "b"]),
        &strings(&["a", "b", "lookup_byte_inv"]),
        &strings(&["b"]),
        &strings(&["a", "b", "lookup_byte_inv", "b_shift"]),
    );
    let expected = "

    // AUTOGENERATED FILE
    #pragma once

    #include <vector>
#ifndef __wasm__
    #include <future>
#endif

    #include \"barretenberg/common/constexpr_utils.hpp\"
    #include \"barretenberg/common/throw_or_abort.hpp\"
    #include \"barretenberg/ecc/curves/bn254/fr.hpp\"
    #include \"barretenberg/stdlib_circuit_builders/circuit_builder_base.hpp\"
    #include \"barretenberg/relations/generic_permutation/generic_permutation_relation.hpp\"
    #include \"barretenberg/relations/generic_lookup/generic_lookup_relation.hpp\"
    #include \"barretenberg/honk/proof_system/logderivative_library.hpp\"
    #include \"barretenberg/plonk_honk_shared/library/grand_product_library.hpp\"
    
    #include \"barretenberg/vm/generated/avm_mini_flavor.hpp\"
    #include \"barretenberg/relations/generated/avm_mini/avm_mini.hpp\"
#include \"barretenberg/relations/generated/avm_mini/avm_alu.hpp\"
#include \"barretenberg/relations/generated/avm_mini/lookup_byte.hpp\"
#include \"barretenberg/relations/generated/avm_mini/perm_main.hpp\"
#include \"barretenberg/relations/generated/avm_mini/perm_aux.hpp\"


namespace bb {

template <typename FF> struct AvmMiniFullRow {
    FF a{};
    FF b{};
    FF lookup_byte_inv{};
    FF b_shift{};

    [[maybe_unused]] static std::vector<std::string> names();
};

template <typename FF> std::ostream& operator<<(std::ostream& os, AvmMiniFullRow<FF> const& row);

class AvmMiniCircuitBuilder {
    public:
        using Flavor = bb::AvmMiniFlavor;
        using FF = Flavor::FF;
        using Row = AvmMiniFullRow<FF>;

        // TODO: template
        using Polynomial = Flavor::Polynomial;
        using ProverPolynomials = Flavor::ProverPolynomials;

        static constexpr size_t num_fixed_columns = 4;
        static constexpr size_t num_polys = 3;
        std::vector<Row> rows;

        void set_trace(std::vector<Row>&& trace) { rows = std::move(trace); }

        ProverPolynomials compute_polynomials() {
            const auto num_rows = get_circuit_subgroup_size();
            ProverPolynomials polys;

            // Allocate mem for each column
            for (auto& poly : polys.get_all()) {
                poly = Polynomial(num_rows);
            }

            for (size_t i = 0; i < rows.size(); i++) {
                polys.a[i] = rows[i].a;
polys.b[i] = rows[i].b;
            }

            polys.b_shift = static_cast<Polynomial>(polys.b.shifted());

            return polys;
        }

        [[maybe_unused]] bool check_circuit()
        {
            
    const FF gamma = FF::random_element();
    const FF beta = FF::random_element();
    bb::RelationParameters<typename Flavor::FF> params{
        .eta = 0,
        .beta = beta,
        .gamma = gamma,
        .public_input_delta = 0,
        .lookup_grand_product_delta = 0,
        .beta_sqr = 0,
        .beta_cube = 0,
        .eccvm_set_permutation_delta = 0,
    };
    

            auto polys = compute_polynomials();
            const size_t num_rows = polys.get_polynomial_size();
    
            bb::compute_logderivative_inverse<Flavor, lookup_byte_relation<FF>>(polys, params, num_rows);

            bb::compute_grand_product<Flavor, perm_main_relation<FF>>(polys, params);
bb::compute_grand_product<Flavor, perm_aux_relation<FF>>(polys, params);

            
            const auto evaluate_relation = [&]<typename Relation>(const std::string& relation_name,
                                                                    std::string (*debug_label)(int)) {
                typename Relation::SumcheckArrayOfValuesOverSubrelations result;
                for (auto& r : result) {
                    r = 0;
                }
                constexpr size_t NUM_SUBRELATIONS = result.size();
    
                for (size_t i = 0; i < num_rows; ++i) {
                    Relation::accumulate(result, polys.get_row(i), {}, 1);
    
                    bool x = true;
                    for (size_t j = 0; j < NUM_SUBRELATIONS; ++j) {
                        if (result[j] != 0) {
                            std::string row_name = debug_label(static_cast<int>(j));
                            throw_or_abort(
                                format(\"Relation \", relation_name, \", subrelation index \", row_name, \" failed at row \", i));
                            x = false;
                        }
                    }
                    if (!x) {
                        return false;
                    }
                }
                return true;
            };
    

            
            const auto evaluate_logderivative = [&]<typename LogDerivativeSettings>(const std::string& lookup_name) {
                typename LogDerivativeSettings::SumcheckArrayOfValuesOverSubrelations
                    lookup_result;

                for (auto& r : lookup_result) {
                    r = 0;
                }
                for (size_t i = 0; i < num_rows; ++i) {
                    LogDerivativeSettings::accumulate(lookup_result, polys.get_row(i), params, 1);
                }
                for (auto r : lookup_result) {
                    if (r != 0) {
                        throw_or_abort(format(\"Lookup \", lookup_name, \" failed.\"));
                        return false;
                    }
                }
                return true;
            };
            

            
        const auto evaluate_grand_product = [&]<typename GrandProductSettings>(const std::string& grand_product_name) {
            typename GrandProductSettings::SumcheckArrayOfValuesOverSubrelations grand_product_result;

            for (auto& r : grand_product_result) {
                r = 0;
            }
            for (size_t i = 0; i < num_rows; ++i) {
                GrandProductSettings::accumulate(grand_product_result, polys.get_row(i), params, 1);
            }
            for (auto r : grand_product_result) {
                if (r != 0) {
                    throw_or_abort(format(\"Copy \", grand_product_name, \" failed.\"));
                    return false;
                }
            }
            return true;
        };
    

            auto avm_mini = [&]() {
                        return evaluate_relation.template operator()<AvmMini_vm::avm_mini<FF>>(\"avm_mini\", AvmMini_vm::get_relation_label_avm_mini);
                    };
                    
auto avm_alu = [&]() {
                        return evaluate_relation.template operator()<AvmMini_vm::avm_alu<FF>>(\"avm_alu\", AvmMini_vm::get_relation_label_avm_alu);
                    };
                    

            auto lookup_byte = [&]() {
                        return evaluate_logderivative.template operator()<lookup_byte_relation<FF>>(\"LOOKUP_BYTE\");
                    };
                    

            auto perm_main = [&]() {
                        return evaluate_grand_product.template operator()<perm_main_relation<FF>>(\"PERM_MAIN\");
                    };
                    
auto perm_aux = [&]() {
                        return evaluate_grand_product.template operator()<perm_aux_relation<FF>>(\"PERM_AUX\");
                    };
                    

#ifndef __wasm__

            // Evaluate check circuit closures as futures
            std::vector<std::future<bool>> relation_futures;

            
                    relation_futures.emplace_back(std::async(std::launch::async, avm_mini));
                

                    relation_futures.emplace_back(std::async(std::launch::async, avm_alu));
                
            
                    relation_futures.emplace_back(std::async(std::launch::async, lookup_byte));
                
            
                    relation_futures.emplace_back(std::async(std::launch::async, perm_main));
                

                    relation_futures.emplace_back(std::async(std::launch::async, perm_aux));
                


            // Wait for lookup evaluations to complete
            for (auto& future : relation_futures) {
                int result = future.get();
                if (!result) {
                    return false;
                }
            }
#else
            
                    if (!avm_mini()) {
                        return false;
                    }
                

                    if (!avm_alu()) {
                        return false;
                    }
                
            
                    if (!lookup_byte()) {
                        return false;
                    }
                
            
                    if (!perm_main()) {
                        return false;
                    }
                

                    if (!perm_aux()) {
                        return false;
                    }
                

#endif

            return true;
        }
    

        [[nodiscard]] size_t get_num_gates() const { return rows.size(); }

        [[nodiscard]] size_t get_circuit_subgroup_size() const
        {
            const size_t num_rows = get_num_gates();
            if (num_rows == 0) {
                return 1;
            }
            const auto num_rows_log2 = static_cast<size_t>(numeric::get_msb64(num_rows));
            size_t num_rows_pow2 = 1UL << (num_rows_log2 + (1UL << num_rows_log2 == num_rows ? 0 : 1));
            return num_rows_pow2;
        }


};
}
        ";
    assert_eq!(text, expected);
}

#[test]
fn header_of_a_circuit_with_relations_only() {
    let text = circuit_builder_hpp(
        "Toy",
        &strings(&["toy"]),
        &strings(&[]),
        &strings(&[]),
        &strings(&["x", "y", "z"]),
        &strings(&["x", "y", "z"]),
        &strings(&["x", "z"]),
        &strings(&["x", "y", "z", "x_shift", "z_shift"]),
    );
    let expected = "

    // AUTOGENERATED FILE
    #pragma once

    #include <vector>
#ifndef __wasm__
    #include <future>
#endif

    #include \"barretenberg/common/constexpr_utils.hpp\"
    #include \"barretenberg/common/throw_or_abort.hpp\"
    #include \"barretenberg/ecc/curves/bn254/fr.hpp\"
    #include \"barretenberg/stdlib_circuit_builders/circuit_builder_base.hpp\"
    #include \"barretenberg/relations/generic_permutation/generic_permutation_relation.hpp\"
    #include \"barretenberg/relations/generic_lookup/generic_lookup_relation.hpp\"
    #include \"barretenberg/honk/proof_system/logderivative_library.hpp\"
    #include \"barretenberg/plonk_honk_shared/library/grand_product_library.hpp\"
    
    #include \"barretenberg/vm/generated/toy_flavor.hpp\"
    #include \"barretenberg/relations/generated/toy/toy.hpp\"


namespace bb {

template <typename FF> struct ToyFullRow {
    FF x{};
    FF y{};
    FF z{};
    FF x_shift{};
    FF z_shift{};

    [[maybe_unused]] static std::vector<std::string> names();
};

template <typename FF> std::ostream& operator<<(std::ostream& os, ToyFullRow<FF> const& row);

class ToyCircuitBuilder {
    public:
        using Flavor = bb::ToyFlavor;
        using FF = Flavor::FF;
        using Row = ToyFullRow<FF>;

        // TODO: template
        using Polynomial = Flavor::Polynomial;
        using ProverPolynomials = Flavor::ProverPolynomials;

        static constexpr size_t num_fixed_columns = 5;
        static constexpr size_t num_polys = 3;
        std::vector<Row> rows;

        void set_trace(std::vector<Row>&& trace) { rows = std::move(trace); }

        ProverPolynomials compute_polynomials() {
            const auto num_rows = get_circuit_subgroup_size();
            ProverPolynomials polys;

            // Allocate mem for each column
            for (auto& poly : polys.get_all()) {
                poly = Polynomial(num_rows);
            }

            for (size_t i = 0; i < rows.size(); i++) {
                polys.x[i] = rows[i].x;
polys.y[i] = rows[i].y;
polys.z[i] = rows[i].z;
            }

            polys.x_shift = static_cast<Polynomial>(polys.x.shifted());
polys.z_shift = static_cast<Polynomial>(polys.z.shifted());

            return polys;
        }

        [[maybe_unused]] bool check_circuit()
        {
            

            auto polys = compute_polynomials();
            const size_t num_rows = polys.get_polynomial_size();
    
            

            

            
            const auto evaluate_relation = [&]<typename Relation>(const std::string& relation_name,
                                                                    std::string (*debug_label)(int)) {
                typename Relation::SumcheckArrayOfValuesOverSubrelations result;
                for (auto& r : result) {
                    r = 0;
                }
                constexpr size_t NUM_SUBRELATIONS = result.size();
    
                for (size_t i = 0; i < num_rows; ++i) {
                    Relation::accumulate(result, polys.get_row(i), {}, 1);
    
                    bool x = true;
                    for (size_t j = 0; j < NUM_SUBRELATIONS; ++j) {
                        if (result[j] != 0) {
                            std::string row_name = debug_label(static_cast<int>(j));
                            throw_or_abort(
                                format(\"Relation \", relation_name, \", subrelation index \", row_name, \" failed at row \", i));
                            x = false;
                        }
                    }
                    if (!x) {
                        return false;
                    }
                }
                return true;
            };
    

            

            

            auto toy = [&]() {
                        return evaluate_relation.template operator()<Toy_vm::toy<FF>>(\"toy\", Toy_vm::get_relation_label_toy);
                    };
                    

            

            

#ifndef __wasm__

            // Evaluate check circuit closures as futures
            std::vector<std::future<bool>> relation_futures;

            
                    relation_futures.emplace_back(std::async(std::launch::async, toy));
                
            
            


            // Wait for lookup evaluations to complete
            for (auto& future : relation_futures) {
                int result = future.get();
                if (!result) {
                    return false;
                }
            }
#else
            
                    if (!toy()) {
                        return false;
                    }
                
            
            

#endif

            return true;
        }
    

        [[nodiscard]] size_t get_num_gates() const { return rows.size(); }

        [[nodiscard]] size_t get_circuit_subgroup_size() const
        {
            const size_t num_rows = get_num_gates();
            if (num_rows == 0) {
                return 1;
            }
            const auto num_rows_log2 = static_cast<size_t>(numeric::get_msb64(num_rows));
            size_t num_rows_pow2 = 1UL << (num_rows_log2 + (1UL << num_rows_log2 == num_rows ? 0 : 1));
            return num_rows_pow2;
        }


};
}
        ";
    assert_eq!(text, expected);
}

#[test]
fn header_of_a_circuit_without_columns_and_constraints() {
    let text = circuit_builder_hpp(
        "Empty",
        &strings(&[]),
        &strings(&[]),
        &strings(&[]),
        &strings(&[]),
        &strings(&[]),
        &strings(&[]),
        &strings(&[]),
    );
    let expected = "

    // AUTOGENERATED FILE
    #pragma once

    #include <vector>
#ifndef __wasm__
    #include <future>
#endif

    #include \"barretenberg/common/constexpr_utils.hpp\"
    #include \"barretenberg/common/throw_or_abort.hpp\"
    #include \"barretenberg/ecc/curves/bn254/fr.hpp\"
    #include \"barretenberg/stdlib_circuit_builders/circuit_builder_base.hpp\"
    #include \"barretenberg/relations/generic_permutation/generic_permutation_relation.hpp\"
    #include \"barretenberg/relations/generic_lookup/generic_lookup_relation.hpp\"
    #include \"barretenberg/honk/proof_system/logderivative_library.hpp\"
    #include \"barretenberg/plonk_honk_shared/library/grand_product_library.hpp\"
    
    #include \"barretenberg/vm/generated/empty_flavor.hpp\"
    


namespace bb {

template <typename FF> struct EmptyFullRow {


    [[maybe_unused]] static std::vector<std::string> names();
};

template <typename FF> std::ostream& operator<<(std::ostream& os, EmptyFullRow<FF> const& row);

class EmptyCircuitBuilder {
    public:
        using Flavor = bb::EmptyFlavor;
        using FF = Flavor::FF;
        using Row = EmptyFullRow<FF>;

        // TODO: template
        using Polynomial = Flavor::Polynomial;
        using ProverPolynomials = Flavor::ProverPolynomials;

        static constexpr size_t num_fixed_columns = 0;
        static constexpr size_t num_polys = 0;
        std::vector<Row> rows;

        void set_trace(std::vector<Row>&& trace) { rows = std::move(trace); }

        ProverPolynomials compute_polynomials() {
            const auto num_rows = get_circuit_subgroup_size();
            ProverPolynomials polys;

            // Allocate mem for each column
            for (auto& poly : polys.get_all()) {
                poly = Polynomial(num_rows);
            }

            for (size_t i = 0; i < rows.size(); i++) {
                
            }

            

            return polys;
        }

        [[maybe_unused]] bool check_circuit()
        {
            

            auto polys = compute_polynomials();
            const size_t num_rows = polys.get_polynomial_size();
    
            

            

            

            

            

            

            

            

#ifndef __wasm__

            // Evaluate check circuit closures as futures
            std::vector<std::future<bool>> relation_futures;

            
            
            


            // Wait for lookup evaluations to complete
            for (auto& future : relation_futures) {
                int result = future.get();
                if (!result) {
                    return false;
                }
            }
#else
            
            
            

#endif

            return true;
        }
    

        [[nodiscard]] size_t get_num_gates() const { return rows.size(); }

        [[nodiscard]] size_t get_circuit_subgroup_size() const
        {
            const size_t num_rows = get_num_gates();
            if (num_rows == 0) {
                return 1;
            }
            const auto num_rows_log2 = static_cast<size_t>(numeric::get_msb64(num_rows));
            size_t num_rows_pow2 = 1UL << (num_rows_log2 + (1UL << num_rows_log2 == num_rows ? 0 : 1));
            return num_rows_pow2;
        }


};
}
        ";
    assert_eq!(text, expected);
}

#[test]
fn header_of_a_circuit_with_a_lookup_only() {
    let text = circuit_builder_hpp(
        "L",
        &strings(&[]),
        &strings(&["lookup_xor"]),
        &strings(&[]),
        &strings(&["t"]),
        &strings(&["t", "lookup_xor_inv"]),
        &strings(&[]),
        &strings(&["t", "lookup_xor_inv"]),
    );
    let expected = "

    // AUTOGENERATED FILE
    #pragma once

    #include <vector>
#ifndef __wasm__
    #include <future>
#endif

    #include \"barretenberg/common/constexpr_utils.hpp\"
    #include \"barretenberg/common/throw_or_abort.hpp\"
    #include \"barretenberg/ecc/curves/bn254/fr.hpp\"
    #include \"barretenberg/stdlib_circuit_builders/circuit_builder_base.hpp\"
    #include \"barretenberg/relations/generic_permutation/generic_permutation_relation.hpp\"
    #include \"barretenberg/relations/generic_lookup/generic_lookup_relation.hpp\"
    #include \"barretenberg/honk/proof_system/logderivative_library.hpp\"
    #include \"barretenberg/plonk_honk_shared/library/grand_product_library.hpp\"
    
    #include \"barretenberg/vm/generated/l_flavor.hpp\"
    #include \"barretenberg/relations/generated/l/lookup_xor.hpp\"


namespace bb {

template <typename FF> struct LFullRow {
    FF t{};
    FF lookup_xor_inv{};

    [[maybe_unused]] static std::vector<std::string> names();
};

template <typename FF> std::ostream& operator<<(std::ostream& os, LFullRow<FF> const& row);

class LCircuitBuilder {
    public:
        using Flavor = bb::LFlavor;
        using FF = Flavor::FF;
        using Row = LFullRow<FF>;

        // TODO: template
        using Polynomial = Flavor::Polynomial;
        using ProverPolynomials = Flavor::ProverPolynomials;

        static constexpr size_t num_fixed_columns = 2;
        static constexpr size_t num_polys = 2;
        std::vector<Row> rows;

        void set_trace(std::vector<Row>&& trace) { rows = std::move(trace); }

        ProverPolynomials compute_polynomials() {
            const auto num_rows = get_circuit_subgroup_size();
            ProverPolynomials polys;

            // Allocate mem for each column
            for (auto& poly : polys.get_all()) {
                poly = Polynomial(num_rows);
            }

            for (size_t i = 0; i < rows.size(); i++) {
                polys.t[i] = rows[i].t;
            }

            

            return polys;
        }

        [[maybe_unused]] bool check_circuit()
        {
            
    const FF gamma = FF::random_element();
    const FF beta = FF::random_element();
    bb::RelationParameters<typename Flavor::FF> params{
        .eta = 0,
        .beta = beta,
        .gamma = gamma,
        .public_input_delta = 0,
        .lookup_grand_product_delta = 0,
        .beta_sqr = 0,
        .beta_cube = 0,
        .eccvm_set_permutation_delta = 0,
    };
    

            auto polys = compute_polynomials();
            const size_t num_rows = polys.get_polynomial_size();
    
            bb::compute_logderivative_inverse<Flavor, lookup_xor_relation<FF>>(polys, params, num_rows);

            

            

            
            const auto evaluate_logderivative = [&]<typename LogDerivativeSettings>(const std::string& lookup_name) {
                typename LogDerivativeSettings::SumcheckArrayOfValuesOverSubrelations
                    lookup_result;

                for (auto& r : lookup_result) {
                    r = 0;
                }
                for (size_t i = 0; i < num_rows; ++i) {
                    LogDerivativeSettings::accumulate(lookup_result, polys.get_row(i), params, 1);
                }
                for (auto r : lookup_result) {
                    if (r != 0) {
                        throw_or_abort(format(\"Lookup \", lookup_name, \" failed.\"));
                        return false;
                    }
                }
                return true;
            };
            

            

            

            auto lookup_xor = [&]() {
                        return evaluate_logderivative.template operator()<lookup_xor_relation<FF>>(\"LOOKUP_XOR\");
                    };
                    

            

#ifndef __wasm__

            // Evaluate check circuit closures as futures
            std::vector<std::future<bool>> relation_futures;

            
            
                    relation_futures.emplace_back(std::async(std::launch::async, lookup_xor));
                
            


            // Wait for lookup evaluations to complete
            for (auto& future : relation_futures) {
                int result = future.get();
                if (!result) {
                    return false;
                }
            }
#else
            
            
                    if (!lookup_xor()) {
                        return false;
                    }
                
            

#endif

            return true;
        }
    

        [[nodiscard]] size_t get_num_gates() const { return rows.size(); }

        [[nodiscard]] size_t get_circuit_subgroup_size() const
        {
            const size_t num_rows = get_num_gates();
            if (num_rows == 0) {
                return 1;
            }
            const auto num_rows_log2 = static_cast<size_t>(numeric::get_msb64(num_rows));
            size_t num_rows_pow2 = 1UL << (num_rows_log2 + (1UL << num_rows_log2 == num_rows ? 0 : 1));
            return num_rows_pow2;
        }


};
}
        ";
    assert_eq!(text, expected);
}

#[test]
fn implementation_file_of_a_circuit() {
    let text = circuit_builder_cpp("AvmMini", &strings(&["a", "b", "lookup_byte_inv"]));
    let expected = "
#include \"barretenberg/vm/generated/avm_mini_circuit_builder.hpp\"

namespace bb {
namespace {

template <typename FF> std::string field_to_string(const FF& ff)
{
    std::ostringstream os;
    os << ff;
    std::string raw = os.str();
    auto first_not_zero = raw.find_first_not_of('0', 2);
    std::string result = \"0x\" + (first_not_zero != std::string::npos ? raw.substr(first_not_zero) : \"0\");
    return result;
}

} // namespace

template <typename FF> std::vector<std::string> AvmMiniFullRow<FF>::names() {
    return {
        \"a\",
        \"b\",
        \"lookup_byte_inv\"
    };
}

template <typename FF> std::ostream& operator<<(std::ostream& os, AvmMiniFullRow<FF> const& row) {
    return os << field_to_string(row.a) << \",\"
              << field_to_string(row.b) << \",\"
              << field_to_string(row.lookup_byte_inv);
}

// Explicit template instantiation.
template std::ostream& operator<<(std::ostream& os, AvmMiniFullRow<bb::AvmMiniFlavor::FF> const& row);
template std::vector<std::string> AvmMiniFullRow<bb::AvmMiniFlavor::FF>::names();

} // namespace bb";
    assert_eq!(text, expected);
}

#[test]
fn implementation_file_of_a_circuit_without_columns() {
    let text = circuit_builder_cpp("Empty", &strings(&[]));
    let expected = "
#include \"barretenberg/vm/generated/empty_circuit_builder.hpp\"

namespace bb {
namespace {

template <typename FF> std::string field_to_string(const FF& ff)
{
    std::ostringstream os;
    os << ff;
    std::string raw = os.str();
    auto first_not_zero = raw.find_first_not_of('0', 2);
    std::string result = \"0x\" + (first_not_zero != std::string::npos ? raw.substr(first_not_zero) : \"0\");
    return result;
}

} // namespace

template <typename FF> std::vector<std::string> EmptyFullRow<FF>::names() {
    return {
        
    };
}

template <typename FF> std::ostream& operator<<(std::ostream& os, EmptyFullRow<FF> const& row) {
    return os ;
}

// Explicit template instantiation.
template std::ostream& operator<<(std::ostream& os, EmptyFullRow<bb::EmptyFlavor::FF> const& row);
template std::vector<std::string> EmptyFullRow<bb::EmptyFlavor::FF>::names();

} // namespace bb";
    assert_eq!(text, expected);
}

#[test]
fn imports_of_a_header() {
    let text = circuit_hpp_includes(
        "avm_mini",
        &strings(&["main", "alu"]),
        &strings(&["lookup_byte"]),
        &strings(&["perm_main"]),
    );
    let expected = "
    // AUTOGENERATED FILE
    #pragma once

    #include <vector>
#ifndef __wasm__
    #include <future>
#endif

    #include \"barretenberg/common/constexpr_utils.hpp\"
    #include \"barretenberg/common/throw_or_abort.hpp\"
    #include \"barretenberg/ecc/curves/bn254/fr.hpp\"
    #include \"barretenberg/stdlib_circuit_builders/circuit_builder_base.hpp\"
    #include \"barretenberg/relations/generic_permutation/generic_permutation_relation.hpp\"
    #include \"barretenberg/relations/generic_lookup/generic_lookup_relation.hpp\"
    #include \"barretenberg/honk/proof_system/logderivative_library.hpp\"
    #include \"barretenberg/plonk_honk_shared/library/grand_product_library.hpp\"
    
    #include \"barretenberg/vm/generated/avm_mini_flavor.hpp\"
    #include \"barretenberg/relations/generated/avm_mini/main.hpp\"
#include \"barretenberg/relations/generated/avm_mini/alu.hpp\"
#include \"barretenberg/relations/generated/avm_mini/lookup_byte.hpp\"
#include \"barretenberg/relations/generated/avm_mini/perm_main.hpp\"
";
    assert_eq!(text, expected);
}

#[test]
fn imports_of_a_header_without_relations() {
    let text = circuit_hpp_includes("toy", &[], &[], &[]);
    let expected = "
    // AUTOGENERATED FILE
    #pragma once

    #include <vector>
#ifndef __wasm__
    #include <future>
#endif

    #include \"barretenberg/common/constexpr_utils.hpp\"
    #include \"barretenberg/common/throw_or_abort.hpp\"
    #include \"barretenberg/ecc/curves/bn254/fr.hpp\"
    #include \"barretenberg/stdlib_circuit_builders/circuit_builder_base.hpp\"
    #include \"barretenberg/relations/generic_permutation/generic_permutation_relation.hpp\"
    #include \"barretenberg/relations/generic_lookup/generic_lookup_relation.hpp\"
    #include \"barretenberg/honk/proof_system/logderivative_library.hpp\"
    #include \"barretenberg/plonk_honk_shared/library/grand_product_library.hpp\"
    
    #include \"barretenberg/vm/generated/toy_flavor.hpp\"
    
";
    assert_eq!(text, expected);
}

#[test]
fn parameters_of_a_check() {
    let expected = "
    const FF gamma = FF::random_element();
    const FF beta = FF::random_element();
    bb::RelationParameters<typename Flavor::FF> params{
        .eta = 0,
        .beta = beta,
        .gamma = gamma,
        .public_input_delta = 0,
        .lookup_grand_product_delta = 0,
        .beta_sqr = 0,
        .beta_cube = 0,
        .eccvm_set_permutation_delta = 0,
    };
    ";
    assert_eq!(get_params(), expected);
}

#[test]
fn evaluator_of_lookups() {
    let expected = "
            const auto evaluate_logderivative = [&]<typename LogDerivativeSettings>(const std::string& lookup_name) {
                typename LogDerivativeSettings::SumcheckArrayOfValuesOverSubrelations
                    lookup_result;

                for (auto& r : lookup_result) {
                    r = 0;
                }
                for (size_t i = 0; i < num_rows; ++i) {
                    LogDerivativeSettings::accumulate(lookup_result, polys.get_row(i), params, 1);
                }
                for (auto r : lookup_result) {
                    if (r != 0) {
                        throw_or_abort(format(\"Lookup \", lookup_name, \" failed.\"));
                        return false;
                    }
                }
                return true;
            };
            ";
    assert_eq!(get_lookup_check_closure(), expected);
}

#[test]
fn evaluator_of_relations() {
    let expected = "
            const auto evaluate_relation = [&]<typename Relation>(const std::string& relation_name,
                                                                    std::string (*debug_label)(int)) {
                typename Relation::SumcheckArrayOfValuesOverSubrelations result;
                for (auto& r : result) {
                    r = 0;
                }
                constexpr size_t NUM_SUBRELATIONS = result.size();
    
                for (size_t i = 0; i < num_rows; ++i) {
                    Relation::accumulate(result, polys.get_row(i), {}, 1);
    
                    bool x = true;
                    for (size_t j = 0; j < NUM_SUBRELATIONS; ++j) {
                        if (result[j] != 0) {
                            std::string row_name = debug_label(static_cast<int>(j));
                            throw_or_abort(
                                format(\"Relation \", relation_name, \", subrelation index \", row_name, \" failed at row \", i));
                            x = false;
                        }
                    }
                    if (!x) {
                        return false;
                    }
                }
                return true;
            };
    ";
    assert_eq!(get_relation_check_closure(), expected);
}

#[test]
fn evaluator_of_grand_products() {
    let expected = "
        const auto evaluate_grand_product = [&]<typename GrandProductSettings>(const std::string& grand_product_name) {
            typename GrandProductSettings::SumcheckArrayOfValuesOverSubrelations grand_product_result;

            for (auto& r : grand_product_result) {
                r = 0;
            }
            for (size_t i = 0; i < num_rows; ++i) {
                GrandProductSettings::accumulate(grand_product_result, polys.get_row(i), params, 1);
            }
            for (auto r : grand_product_result) {
                if (r != 0) {
                    throw_or_abort(format(\"Copy \", grand_product_name, \" failed.\"));
                    return false;
                }
            }
            return true;
        };
    ";
    assert_eq!(get_grand_product_check_closure(), expected);
}

#[test]
fn statements_for_one_column() {
    assert_eq!(poly_assignment("main_pc"), "polys.main_pc[i] = rows[i].main_pc;");
    assert_eq!(shift_assignment("main_pc"), "polys.main_pc_shift = static_cast<Polynomial>(polys.main_pc.shifted());");
    assert_eq!(name_entry("main_pc"), "\"main_pc\"");
    assert_eq!(stream_entry("main_pc"), "<< field_to_string(row.main_pc)");
    assert_eq!(row_field("main_pc"), "    FF main_pc{};");
}

#[test]
fn checks_of_one_constraint() {
    assert_eq!(relation_check("AvmMini", "alu"), "auto alu = [&]() {
                        return evaluate_relation.template operator()<AvmMini_vm::alu<FF>>(\"alu\", AvmMini_vm::get_relation_label_alu);
                    };
                    ");
    assert_eq!(lookup_check("lookup_byte", "LOOKUP_BYTE"), "auto lookup_byte = [&]() {
                        return evaluate_logderivative.template operator()<lookup_byte_relation<FF>>(\"LOOKUP_BYTE\");
                    };
                    ");
    assert_eq!(grand_product_check("perm_main", "PERM_MAIN"), "auto perm_main = [&]() {
                        return evaluate_grand_product.template operator()<perm_main_relation<FF>>(\"PERM_MAIN\");
                    };
                    ");
    assert_eq!(emplace_future("alu"), "
                    relation_futures.emplace_back(std::async(std::launch::async, alu));
                ");
    assert_eq!(execute_serial("alu"), "
                    if (!alu()) {
                        return false;
                    }
                ");
    assert_eq!(
        lookup_helper("lookup_byte"),
        "bb::compute_logderivative_inverse<Flavor, lookup_byte_relation<FF>>(polys, params, num_rows);"
    );
    assert_eq!(
        grand_product_helper("perm_main"),
        "bb::compute_grand_product<Flavor, perm_main_relation<FF>>(polys, params);"
    );
}

#[test]
fn label_of_a_lookup_is_its_name_in_capitals() {
    let text = circuit_builder_hpp("L", &[], &strings(&["lookup_xor"]), &[], &[], &[], &[], &[]);
    assert!(text.contains("_relation<FF>>(\"LOOKUP_XOR\");"));
    assert!(!text.contains("_relation<FF>>(\"lookup_xor\");"));
}

#[test]
fn row_type_lists_the_fields_in_order() {
    let text = create_row_type("ToyFull", &strings(&["x", "y", "x_shift"]));
    let expected = "template <typename FF> struct ToyFullRow {
    FF x{};
    FF y{};
    FF x_shift{};

    [[maybe_unused]] static std::vector<std::string> names();
}";
    assert_eq!(text, expected);
}

#[test]
fn row_type_without_fields() {
    let text = create_row_type("EmptyFull", &[]);
    let expected = "template <typename FF> struct EmptyFullRow {


    [[maybe_unused]] static std::vector<std::string> names();
}";
    assert_eq!(text, expected);
}

#[test]
fn builder_writes_the_header_into_the_circuit_folder() {
    let mut files = BBFiles::new(String::from("vm/generated"));
    let relations = strings(&["toy"]);
    let columns = strings(&["x", "y"]);
    let shifted = strings(&["y"]);
    let with_shifts = strings(&["x", "y", "y_shift"]);
    files.create_circuit_builder_hpp(
        "ToyVm",
        &relations,
        &[],
        &[],
        &columns,
        &columns,
        &shifted,
        &with_shifts,
    );
    assert_eq!(files.files.len(), 1);
    assert_eq!(files.files[0].folder, "vm/generated");
    assert_eq!(files.files[0].filename, "toy_vm_circuit_builder.hpp");
    assert_eq!(
        files.files[0].contents,
        circuit_builder_hpp(
            "ToyVm",
            &relations,
            &[],
            &[],
            &columns,
            &columns,
            &shifted,
            &with_shifts
        )
    );
    assert_eq!(files.circuit, "vm/generated");
}

#[test]
fn builder_writes_the_implementation_after_the_header() {
    let mut files = BBFiles::new(String::from("out"));
    let columns = strings(&["x"]);
    files.create_circuit_builder_hpp("Toy", &[], &[], &[], &columns, &columns, &[], &columns);
    files.create_circuit_builder_cpp("Toy", &columns);
    assert_eq!(files.files.len(), 2);
    assert_eq!(files.files[0].filename, "toy_circuit_builder.hpp");
    assert_eq!(files.files[1].folder, "out");
    assert_eq!(files.files[1].filename, "toy_circuit_builder.cpp");
    assert_eq!(files.files[1].contents, circuit_builder_cpp("Toy", &columns));
}

#[test]
fn list_of_names_holds_the_names_alone() {
    let text = circuit_builder_cpp("Toy", &strings(&["x", "y"]));
    assert!(text.contains("    return {\n        \"x\",\n        \"y\"\n    };\n"));
    assert!(!text.contains("\"\"\n    };"));
    let text = circuit_builder_cpp("Toy", &[]);
    assert!(text.contains("    return {\n        \n    };\n"));
}

#[test]
fn fields_of_a_row_are_printed_with_commas_between_them() {
    let text = circuit_builder_cpp("Toy", &strings(&["x", "y", "z"]));
    assert!(text.contains(
        "    return os << field_to_string(row.x) << \",\"\n              << field_to_string(row.y) << \",\"\n              << field_to_string(row.z);\n}"
    ));
    assert_eq!(text.matches("<< \",\"").count(), 2);
    let text = circuit_builder_cpp("Toy", &strings(&["x"]));
    assert!(text.contains("    return os << field_to_string(row.x);\n}"));
    assert_eq!(text.matches("<< \",\"").count(), 0);
}

#[test]
fn size_of_the_domain_is_one_for_no_rows() {
    let text = circuit_builder_hpp("Toy", &[], &[], &[], &[], &[], &[], &[]);
    assert!(text.contains(
        "const size_t num_rows = get_num_gates();\n            if (num_rows == 0) {\n                return 1;\n            }\n"
    ));
}

#[test]
fn run_in_place_ends_at_the_first_failure() {
    let text = circuit_builder_hpp("Toy", &strings(&["r1", "r2"]), &[], &[], &[], &[], &[], &[]);
    let serial =
        &text[text.find("#else").unwrap()..text.find("#endif\n\n            return true;").unwrap()];
    assert_eq!(serial.matches("return false;").count(), 2);
    assert!(serial.find("if (!r1())").unwrap() < serial.find("if (!r2())").unwrap());
}

#[test]
fn helper_columns_are_computed_before_the_evaluators() {
    let text = circuit_builder_hpp(
        "Toy",
        &strings(&["r"]),
        &strings(&["lookup_a", "lookup_b"]),
        &strings(&["perm_a"]),
        &[],
        &[],
        &[],
        &[],
    );
    let at = |needle: &str| text.find(needle).unwrap();
    let first_evaluator = at("const auto evaluate_relation");
    assert!(
        at("auto polys = compute_polynomials();")
            < at("bb::compute_logderivative_inverse<Flavor, lookup_a_relation<FF>>")
    );
    assert!(
        at("lookup_a_relation<FF>>(polys, params, num_rows);")
            < at("lookup_b_relation<FF>>(polys, params, num_rows);")
    );
    assert!(
        at("lookup_b_relation<FF>>(polys, params, num_rows);")
            < at("bb::compute_grand_product<Flavor, perm_a_relation<FF>>(polys, params);")
    );
    assert!(
        at("bb::compute_grand_product<Flavor, perm_a_relation<FF>>(polys, params);")
            < first_evaluator
    );
    assert_eq!(text.matches("bb::compute_logderivative_inverse").count(), 2);
    assert_eq!(text.matches("bb::compute_grand_product").count(), 1);
    assert!(first_evaluator < at("relation_futures.emplace_back"));
}
