//! The calls that a workload makes on its execution context.

use super::context::Context;
use super::dynamodb_error::{DynamoDBError, DynamoDBErrorKind};
use vstd::prelude::*;

verus! {

/// Ends the current call with the workload's own message: always fails,
/// with a custom error that carries `message`.
pub fn signal_failure(ctx: &Context, message: &str) -> (r: Result<(), DynamoDBError>)
    ensures
        r matches Err(e) && e.0 matches DynamoDBErrorKind::CustomError(text) && text@ == message@,
{
    ctx.signal_failure(message)
}

} // verus!
