//! Generators for circuit builders and contract interfaces, and a native
//! engine for the check that a circuit builder makes.
//!
//! A constraint specification names the columns, relations, lookups and grand
//! products of a circuit. From it `columns` derives the column sets,
//! `circuit_builder` renders the header and the implementation file of a
//! checking module, and `vm_builder` does both in one step.
//!
//! The same check runs natively: `polynomials` lays a trace out as
//! polynomials over a power-of-two domain, `evaluators` checks one relation,
//! lookup or grand product on them, and `module` runs all evaluators of a
//! circuit and reports their verdicts.
//!
//! The rendered class and the native engine follow the same rules: a domain
//! of one point for no rows, helper columns before any evaluator, a run of
//! tasks that all come to their end, and a run without threads that ends and
//! fails at the first failure. Nothing proves the rendered text against the
//! engine: a renderer is pinned to its text, character by character, and
//! what the rules mean is stated and proved of the engine alone. The two
//! differ in three places. The rendered class writes helper columns into its
//! polynomials, while the engine holds them beside the polynomial set, which
//! it never changes. The rendered class draws its challenges itself, while
//! the engine is given them. And a failing relation of the rendered class
//! reports every subrelation of the failing row that is not zero, while the
//! engine reports the first.
//!
//! `contract_interface` renders the stubs and the interface struct of a
//! contract from plain descriptions of its functions.

pub mod circuit_builder;
pub mod columns;
pub mod contract_interface;
pub mod domain;
pub mod evaluators;
pub mod field;
pub mod file_writer;
pub mod module;
pub mod polynomials;
pub mod relation;
pub mod relation_builder;
pub mod utils;
pub mod vm_builder;
