//! The handle of the key-value service's driver.

use vstd::prelude::*;

verus! {

#[verifier::external_type_specification]
#[verifier::external_body]
pub struct ExClient(aws_sdk_dynamodb::Client);

/// The driver's client is a counted pointer to its connection state, and
/// its `Clone` copies the pointer: the clone is the same client.
pub assume_specification[ <aws_sdk_dynamodb::Client as Clone>::clone ](
    client: &aws_sdk_dynamodb::Client,
) -> (shared: aws_sdk_dynamodb::Client)
    ensures
        shared == *client,
;

} // verus!
