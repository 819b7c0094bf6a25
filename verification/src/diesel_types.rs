//! A decimal wrapped for use as a column type.

use bigdecimal::BigDecimal;
use vstd::prelude::*;

verus! {

/// An exact decimal number held in a column.
#[derive(Debug, Clone, PartialEq)]
pub struct MyBigDecimal(pub BigDecimal);

} // verus!
