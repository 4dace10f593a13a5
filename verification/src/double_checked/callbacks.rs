//! The `qubit_function` callback types that the execution builder carries.
use qubit_function::{BoxSupplierOnce, BoxTester, SupplierOnce, Tester};
use vstd::prelude::*;

verus! {

/// `qubit_function::BoxTester`, a boxed condition.
#[verifier::external_type_specification]
#[verifier::external_body]
pub struct ExBoxTester(BoxTester);

/// `qubit_function::BoxSupplierOnce`, a boxed one-shot supplier.
#[verifier::external_type_specification]
#[verifier::external_body]
#[verifier::reject_recursive_types(T)]
pub struct ExBoxSupplierOnce<T>(BoxSupplierOnce<T>);

/// Calls `Tester::test` on a `BoxTester`. The answer depends on state
/// outside the library, so nothing is stated of it.
#[verifier::external_body]
pub(crate) fn test_box_tester(tester: &BoxTester) -> bool {
    tester.test()
}

/// Calls `SupplierOnce::get` on a `BoxSupplierOnce`, consuming it. What the
/// supplier produces is not modelled, so nothing is stated of it.
#[verifier::external_body]
pub(crate) fn get_once<T>(supplier: BoxSupplierOnce<T>) -> T {
    supplier.get()
}

} // verus!
