//! Convenience constants for the known SQL operators.

use vstd::prelude::*;
use crate::operator::Operator;

verus! {

pub const GT: Operator = Operator::GreaterThan;

pub const LT: Operator = Operator::LessThan;

pub const EQ: Operator = Operator::Equal;

pub const NEQ: Operator = Operator::NotEqual;

pub const GTE: Operator = Operator::GreaterThanOrEqual;

pub const LTE: Operator = Operator::LessThanOrEqual;

pub const LIKE: Operator = Operator::Like;

pub const ILIKE: Operator = Operator::ILike;

pub const IN: Operator = Operator::In;

pub const NOT_IN: Operator = Operator::NotIn;

pub const IS_NULL: Operator = Operator::IsNull;

pub const IS_NOT_NULL: Operator = Operator::IsNotNull;

pub const EXISTS: Operator = Operator::Exists;

pub const NOT_EXISTS: Operator = Operator::NotExists;

} // verus!
