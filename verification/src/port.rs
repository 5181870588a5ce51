//! The volatile word cell that a FIFO data port is accessed through.
//!
//! Every transfer is a real, unbuffered bus transaction: one volatile store
//! pushes one word onto the FIFO behind the cell, one volatile load pops one.
//! What a load returns is the hardware's to decide, so nothing is assumed of
//! it.
use vstd::prelude::*;

verus! {

/// vcell's volatile cell, the type a memory-mapped FIFO data port is read
/// and written through.
#[verifier::external_type_specification]
#[verifier::external_body]
#[verifier::reject_recursive_types(T)]
pub struct ExVolatileCell<T>(vcell::VolatileCell<T>);

/// Relies on vcell::VolatileCell::set: one volatile store of `value` to the
/// cell; on a FIFO data port this pushes one word onto the FIFO.
pub assume_specification<T: Copy>[ vcell::VolatileCell::<T>::set ](
    cell: &vcell::VolatileCell<T>,
    value: T,
);

/// Relies on vcell::VolatileCell::get: one volatile load from the cell; on a
/// FIFO data port this pops one word, whose value hardware alone decides.
pub assume_specification<T: Copy>[ vcell::VolatileCell::<T>::get ](
    cell: &vcell::VolatileCell<T>,
) -> T;

} // verus!
